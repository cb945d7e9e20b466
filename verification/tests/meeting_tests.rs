use wiab_app::create_meeting_request::{CreateMeetingParticipant, CreateMeetingRequest};
use wiab_app::meeting_application_service::{
    build_meeting_from_request, build_participant_from_request, meeting_end_events,
    latest_agent_texts, participant_key, AgentSeat, MeetingClientEvent, MeetingRequestError, MeetingRole,
    ParticipantKind, UtteranceAction, UtteranceEvent, UtteranceFlow, UtteranceStage,
};

fn human(name: &str, user_id: &str) -> CreateMeetingParticipant {
    CreateMeetingParticipant::Human {
        name: name.to_owned(),
        user_id: user_id.to_owned(),
    }
}

fn agent(name: &str) -> CreateMeetingParticipant {
    CreateMeetingParticipant::Agent {
        name: name.to_owned(),
        instructions: "You are the CTO".to_owned(),
        voice_id: "alloy".to_owned(),
    }
}

fn request(invited: Vec<CreateMeetingParticipant>, agenda: Vec<&str>) -> CreateMeetingRequest {
    CreateMeetingRequest {
        title: " Test ".to_owned(),
        owner_name: "Frederic".to_owned(),
        invited_participants: invited,
        agenda: agenda.into_iter().map(str::to_owned).collect(),
    }
}

fn error_message(result: Result<impl Sized, MeetingRequestError>) -> String {
    match result {
        Ok(_) => panic!("request should be refused"),
        Err(error) => error.message(),
    }
}

#[test]
fn a_meeting_seats_owner_moderator_and_invitees_in_order() {
    let plan = build_meeting_from_request(
        request(vec![agent(" CTO "), human("Alice", "U-2")], vec![" review launch timeline "]),
        "U-1".to_owned(),
    )
    .unwrap();
    assert_eq!(plan.title, "Test");
    assert_eq!(plan.participants.len(), 4);

    let owner = &plan.participants[0];
    assert_eq!(owner.kind, ParticipantKind::Human);
    assert_eq!(owner.meeting_role, MeetingRole::Owner);
    assert_eq!(owner.name, "Frederic");
    assert_eq!(owner.user_id.as_deref(), Some("U-1"));
    assert_eq!(plan.owner_participant_id, owner.participant_id);

    let moderator = &plan.participants[1];
    assert_eq!(moderator.kind, ParticipantKind::Agent);
    assert_eq!(moderator.meeting_role, MeetingRole::Moderator);
    assert_eq!(moderator.name, "Moderator");
    assert_eq!(moderator.voice_id.as_deref(), Some("alloy"));
    assert_eq!(plan.moderator_participant_id, moderator.participant_id);

    let cto = &plan.participants[2];
    assert_eq!(cto.name, "CTO");
    assert_eq!(cto.meeting_role, MeetingRole::Participant);
    assert_eq!(cto.instructions.as_deref(), Some("You are the CTO"));
    assert_eq!(plan.participants[3].user_id.as_deref(), Some("U-2"));

    assert_eq!(plan.agenda.len(), 1);
    assert_eq!(plan.agenda[0].phrase, "review launch timeline");
    for participant in &plan.participants {
        assert_uuid_v4_text(&participant.participant_id);
    }
    assert_uuid_v4_text(&plan.agenda[0].agenda_item_id);
    assert_ne!(owner.participant_id, moderator.participant_id);
}

#[test]
fn a_blank_title_is_refused_first() {
    let mut req = request(vec![], vec![]);
    req.title = "   ".to_owned();
    assert_eq!(
        error_message(build_meeting_from_request(req, "U-1".to_owned())),
        "meeting title must be a non-empty trimmed string"
    );
}

#[test]
fn an_empty_agenda_is_refused() {
    assert_eq!(
        error_message(build_meeting_from_request(request(vec![], vec![]), "U-1".to_owned())),
        "agenda must contain at least one item"
    );
}

#[test]
fn an_agent_name_must_be_one_word() {
    assert_eq!(
        error_message(build_meeting_from_request(
            request(vec![agent("Chief Tech")], vec!["review"]),
            "U-1".to_owned()
        )),
        "agent name 'Chief Tech' must be a single word"
    );
}

#[test]
fn invitees_clash_on_kind_and_name_ignoring_case() {
    assert_eq!(
        error_message(build_meeting_from_request(
            request(vec![agent("CTO"), agent("cto")], vec!["review"]),
            "U-1".to_owned()
        )),
        "duplicate invited participant 'cto'"
    );
    // A human and an agent of the same name do not clash.
    assert!(build_meeting_from_request(
        request(vec![agent("Alice"), human("alice", "U-3")], vec!["review"]),
        "U-1".to_owned()
    )
    .is_ok());
}

#[test]
fn an_invitee_may_not_take_the_owner_s_seat() {
    assert_eq!(
        error_message(build_meeting_from_request(
            request(vec![human("FREDERIC", "U-9")], vec!["review"]),
            "U-1".to_owned()
        )),
        "duplicate invited participant 'FREDERIC'"
    );
}

#[test]
fn a_blank_agenda_item_is_refused_after_the_seats() {
    assert_eq!(
        error_message(build_meeting_from_request(
            request(vec![human("Alice", "U-2")], vec!["review", "  "]),
            "U-1".to_owned()
        )),
        "agenda item must be a non-empty trimmed string"
    );
}

#[test]
fn an_agent_seat_needs_instructions_and_a_voice() {
    let seat = CreateMeetingParticipant::Agent {
        name: "CTO".to_owned(),
        instructions: " ".to_owned(),
        voice_id: "alloy".to_owned(),
    };
    assert_eq!(
        error_message(build_participant_from_request(seat, MeetingRole::Participant)),
        "agent instructions must be a non-empty trimmed string"
    );
    let seat = CreateMeetingParticipant::Agent {
        name: "CTO".to_owned(),
        instructions: "lead".to_owned(),
        voice_id: "".to_owned(),
    };
    assert_eq!(
        error_message(build_participant_from_request(seat, MeetingRole::Participant)),
        "agent voice_id must be a non-empty trimmed string"
    );
}

#[test]
fn participant_keys_lower_the_name() {
    let key: String = participant_key(ParticipantKind::Agent, "CTO").into_iter().collect();
    assert_eq!(key, "Agent:cto");
    let key: String = participant_key(ParticipantKind::Human, "Ada Ö").into_iter().collect();
    assert_eq!(key, "Human:ada Ö");
}

fn cto() -> AgentSeat {
    AgentSeat {
        participant_id: "P-CTO".to_owned(),
        name: "CTO".to_owned(),
        voice_id: None,
    }
}

#[test]
fn directly_addressed_agent_responds() {
    let flow = UtteranceFlow::start("M-1", "  CTO, what is the biggest risk here? ").unwrap();
    assert_eq!(flow.text, "CTO, what is the biggest risk here?");

    let (flow, action) = flow.step::<()>(UtteranceEvent::MeetingLoaded {
        agent_texts: vec![],
    });
    assert!(matches!(action, UtteranceAction::RecordUtterance));

    let (flow, action) = flow.step::<()>(UtteranceEvent::UtteranceRecorded {
        utterance_id: "UT-1".to_owned(),
        directly_addressed: true,
    });
    assert!(matches!(action, UtteranceAction::ChooseAddressee { utterance_id } if utterance_id == "UT-1"));

    let (flow, action) = flow.step::<()>(UtteranceEvent::AgentChosen { agent: Some(cto()) });
    assert!(matches!(
        action,
        UtteranceAction::RecordTurn { agent_id, utterance_id, reason }
            if agent_id == "P-CTO" && utterance_id == "UT-1" && reason == "direct_address"
    ));

    let (flow, action) = flow.step::<()>(UtteranceEvent::TurnRecorded);
    assert!(matches!(action, UtteranceAction::GenerateReply { agent_id } if agent_id == "P-CTO"));

    let (flow, action) = flow.step::<()>(UtteranceEvent::ReplyRecorded {
        reply_text: "CTO recommends reducing launch scope".to_owned(),
        reply_utterance_id: "UT-2".to_owned(),
    });
    assert!(matches!(
        action,
        UtteranceAction::Synthesize { text, voice_id }
            if text == "CTO recommends reducing launch scope" && voice_id == "alloy"
    ));

    let (flow, action) = flow.step::<()>(UtteranceEvent::SpeechSynthesized {
        mime_type: "audio/wav".to_owned(),
        audio: vec![1, 2, 3],
    });
    assert!(matches!(flow.stage, UtteranceStage::Finished));
    let UtteranceAction::Finish { save, events } = action else {
        panic!("the flow should finish");
    };
    assert!(save);
    assert_eq!(events.len(), 2);
    assert!(matches!(
        &events[0],
        MeetingClientEvent::AgentText { participant_name, text, utterance_id, .. }
            if participant_name == "CTO" && text == "CTO recommends reducing launch scope" && utterance_id == "UT-2"
    ));
    assert!(matches!(
        &events[1],
        MeetingClientEvent::AgentAudio { meeting_id, clip, .. }
            if meeting_id == "M-1" && clip.mime_type == "audio/wav" && clip.audio_base64 == "AQID"
    ));
}

#[test]
fn recent_agent_echo_is_ignored() {
    let flow = UtteranceFlow::start("M-1", "CTO recommends reducing launch scope").unwrap();
    let (flow, action) = flow.step::<()>(UtteranceEvent::MeetingLoaded {
        agent_texts: vec!["CTO recommends reducing launch scope".to_owned()],
    });
    assert!(matches!(flow.stage, UtteranceStage::Finished));
    assert!(matches!(action, UtteranceAction::Finish { save: false, events } if events.is_empty()));
}

#[test]
fn an_unaddressed_line_runs_the_floor_and_may_get_no_answer() {
    let flow = UtteranceFlow::start("M-1", "what next").unwrap();
    let (flow, _) = flow.step::<()>(UtteranceEvent::MeetingLoaded {
        agent_texts: vec!["something else entirely".to_owned()],
    });
    let (flow, action) = flow.step::<()>(UtteranceEvent::UtteranceRecorded {
        utterance_id: "UT-7".to_owned(),
        directly_addressed: false,
    });
    assert!(matches!(action, UtteranceAction::RunFloorRequests { utterance_id } if utterance_id == "UT-7"));
    let (_, action) = flow.step::<()>(UtteranceEvent::AgentChosen { agent: None });
    assert!(matches!(action, UtteranceAction::Finish { save: true, events } if events.is_empty()));
}

#[test]
fn a_floor_grant_is_recorded_as_such_and_uses_the_agent_s_voice() {
    let flow = UtteranceFlow::start("M-1", "thoughts?").unwrap();
    let (flow, _) = flow.step::<()>(UtteranceEvent::MeetingLoaded { agent_texts: vec![] });
    let (flow, _) = flow.step::<()>(UtteranceEvent::UtteranceRecorded {
        utterance_id: "UT-1".to_owned(),
        directly_addressed: false,
    });
    let seat = AgentSeat {
        participant_id: "P-2".to_owned(),
        name: "CFO".to_owned(),
        voice_id: Some("nova".to_owned()),
    };
    let (flow, action) = flow.step::<()>(UtteranceEvent::AgentChosen { agent: Some(seat) });
    assert!(matches!(action, UtteranceAction::RecordTurn { reason, .. } if reason == "floor_request"));
    let (flow, _) = flow.step::<()>(UtteranceEvent::TurnRecorded);
    let (_, action) = flow.step::<()>(UtteranceEvent::ReplyRecorded {
        reply_text: "costs".to_owned(),
        reply_utterance_id: "UT-2".to_owned(),
    });
    assert!(matches!(action, UtteranceAction::Synthesize { voice_id, .. } if voice_id == "nova"));
}

#[test]
fn a_blank_transcript_is_refused() {
    let error = UtteranceFlow::start("M-1", "  ").err().expect("blank text is refused");
    assert_eq!(error.message(), "transcript text must be a non-empty trimmed string");
}

#[test]
fn ending_a_meeting_announces_the_end_then_the_minutes() {
    let events = meeting_end_events("M-1", "P-1", "2026-03-14T00:00:00Z".to_owned(), 42);
    assert!(matches!(
        &events[0],
        MeetingClientEvent::MeetingEnded { meeting_id, ended_by_participant_id, ended_at }
            if meeting_id == "M-1" && ended_by_participant_id == "P-1" && ended_at == "2026-03-14T00:00:00Z"
    ));
    assert!(matches!(&events[1], MeetingClientEvent::MinutesReady { minutes: 42, .. }));
}

fn assert_uuid_v4_text(id: &str) {
    let chars: Vec<char> = id.chars().collect();
    assert_eq!(chars.len(), 36);
    for (i, c) in chars.iter().enumerate() {
        if i == 8 || i == 13 || i == 18 || i == 23 {
            assert_eq!(*c, '-');
        } else {
            assert!(c.is_ascii_digit() || ('a'..='f').contains(c), "{id}");
        }
    }
    assert_eq!(chars[14], '4');
}

#[test]
fn a_line_in_an_inactive_meeting_fails_unsaved() {
    let flow = UtteranceFlow::start("M-1", "hello").unwrap();
    let (flow, action) = flow.step::<()>(UtteranceEvent::Refused { message: "meeting is not active".to_owned() });
    assert!(matches!(flow.stage, UtteranceStage::Finished));
    assert!(matches!(action, UtteranceAction::Fail { message } if message == "meeting is not active"));
}

#[test]
fn a_failed_synthesis_fails_the_line() {
    let flow = UtteranceFlow::start("M-1", "CTO?").unwrap();
    let (flow, _) = flow.step::<()>(UtteranceEvent::MeetingLoaded { agent_texts: vec![] });
    let (flow, _) = flow.step::<()>(UtteranceEvent::UtteranceRecorded {
        utterance_id: "UT-1".to_owned(),
        directly_addressed: true,
    });
    let (flow, _) = flow.step::<()>(UtteranceEvent::AgentChosen { agent: Some(cto()) });
    let (flow, _) = flow.step::<()>(UtteranceEvent::TurnRecorded);
    let (flow, _) = flow.step::<()>(UtteranceEvent::ReplyRecorded {
        reply_text: "yes".to_owned(),
        reply_utterance_id: "UT-2".to_owned(),
    });
    let (_, action) = flow.step::<()>(UtteranceEvent::Refused { message: "tts down".to_owned() });
    assert!(matches!(action, UtteranceAction::Fail { message } if message == "tts down"));
}

fn spoken_audio(audio: Vec<u8>) -> String {
    let flow = UtteranceFlow::start("M-1", "CTO?").unwrap();
    let (flow, _) = flow.step::<()>(UtteranceEvent::MeetingLoaded { agent_texts: vec![] });
    let (flow, _) = flow.step::<()>(UtteranceEvent::UtteranceRecorded {
        utterance_id: "UT-1".to_owned(),
        directly_addressed: true,
    });
    let (flow, _) = flow.step::<()>(UtteranceEvent::AgentChosen { agent: Some(cto()) });
    let (flow, _) = flow.step::<()>(UtteranceEvent::TurnRecorded);
    let (flow, _) = flow.step::<()>(UtteranceEvent::ReplyRecorded {
        reply_text: "yes".to_owned(),
        reply_utterance_id: "UT-2".to_owned(),
    });
    let (_, action) = flow.step::<()>(UtteranceEvent::SpeechSynthesized { mime_type: "audio/wav".to_owned(), audio });
    let UtteranceAction::Finish { mut events, .. } = action else {
        panic!("the flow should finish");
    };
    match events.pop() {
        Some(MeetingClientEvent::AgentAudio { clip, .. }) => clip.audio_base64,
        other => panic!("unexpected {:?}", other),
    }
}

#[test]
fn the_spoken_reply_is_padded_standard_base64() {
    assert_eq!(spoken_audio(b"Man".to_vec()), "TWFu");
    assert_eq!(spoken_audio(b"Ma".to_vec()), "TWE=");
    assert_eq!(spoken_audio(b"M".to_vec()), "TQ==");
    assert_eq!(spoken_audio(vec![255, 239]), "/+8=");
    assert_eq!(spoken_audio(vec![]), "");
}

#[test]
fn only_the_agents_latest_three_lines_are_screened() {
    let said = vec![
        "CTO recommends reducing launch scope".to_owned(),
        "one".to_owned(),
        "two".to_owned(),
        "three".to_owned(),
    ];
    let latest = latest_agent_texts(&said);
    assert_eq!(latest, vec!["one".to_owned(), "two".to_owned(), "three".to_owned()]);
    assert_eq!(latest_agent_texts(&vec!["a".to_owned()]), vec!["a".to_owned()]);

    let flow = UtteranceFlow::start("M-1", "CTO recommends reducing launch scope").unwrap();
    let (flow, action) = flow.step::<()>(UtteranceEvent::MeetingLoaded { agent_texts: said.clone() });
    assert!(matches!(action, UtteranceAction::RecordUtterance));
    assert!(matches!(flow.stage, UtteranceStage::AwaitingRecord));

    let flow = UtteranceFlow::start("M-1", "three").unwrap();
    let (_, action) = flow.step::<()>(UtteranceEvent::MeetingLoaded { agent_texts: said });
    assert!(matches!(action, UtteranceAction::Finish { save: false, events } if events.is_empty()));
}
