//! Meeting use cases: turning a creation request into the seats and agenda of a new
//! meeting, and deciding what a transcript line sets in motion.

use base64::Engine;
use vstd::prelude::*;

use crate::create_meeting_request::{CreateMeetingParticipant, CreateMeetingRequest};
use crate::text::{
    ascii_lower, ascii_lowercase, chars_of, contains_token, char_vec_views, is_recent_agent_echo,
    is_recent_echo, lemma_trimmed_is_trimmed, normalize_required, spec_is_white_space, split_words,
    string_views, trimmed, words,
};

verus! {

/// What the moderator seat is called.
pub const MODERATOR_NAME: &'static str = "Moderator";

/// The moderator's standing instructions.
pub const MODERATOR_INSTRUCTIONS: &'static str =
    "You are the meeting moderator. Control agent turn-taking and generate minutes.";

/// The voice the moderator, and any agent without one of its own, speaks with.
pub const MODERATOR_VOICE_ID: &'static str = "alloy";

/// How many of the agents' latest lines a transcript line is compared against when
/// screening it for echoes.
pub const RECENT_AGENT_UTTERANCES: usize = 3;

/// The last `RECENT_AGENT_UTTERANCES` of `lines` (all of them when there are fewer).
pub open spec fn latest_lines(lines: Seq<Seq<char>>) -> Seq<Seq<char>> {
    if lines.len() > RECENT_AGENT_UTTERANCES {
        lines.subrange(lines.len() - RECENT_AGENT_UTTERANCES, lines.len() as int)
    } else {
        lines
    }
}

/// The agents' latest lines, those a transcript line is screened against: the last
/// `RECENT_AGENT_UTTERANCES` of `agent_texts`, oldest first.
pub fn latest_agent_texts(agent_texts: &Vec<String>) -> (r: Vec<String>)
    ensures
        string_views(r@) == latest_lines(string_views(agent_texts@)),
{
    let start: usize = if agent_texts.len() > RECENT_AGENT_UTTERANCES {
        agent_texts.len() - RECENT_AGENT_UTTERANCES
    } else {
        0
    };
    let mut r: Vec<String> = Vec::new();
    let mut i: usize = start;
    while i < agent_texts.len()
        invariant
            start <= i <= agent_texts@.len(),
            string_views(r@) == string_views(agent_texts@).subrange(start as int, i as int),
        decreases agent_texts@.len() - i,
    {
        let line = String::from_str(agent_texts[i].as_str());
        let ghost lv = line@;
        assert(lv == agent_texts@[i as int]@);
        let ghost before = r@;
        r.push(line);
        proof {
            let all = string_views(agent_texts@);
            assert(r@ == before.push(r@[before.len() as int]));
            assert(r@[before.len() as int]@ == lv);
            assert(all[i as int] == lv);
            assert(string_views(before).len() == before.len());
            assert(before.len() == i - start);
            assert forall|k: int| 0 <= k < r@.len() implies #[trigger] string_views(r@)[k] == all.subrange(
                start as int,
                i + 1,
            )[k] by {
                assert(string_views(r@)[k] == r@[k]@);
                if k < before.len() {
                    assert(r@[k] == before[k]);
                    assert(string_views(before)[k] == before[k]@);
                    assert(string_views(before)[k] == all.subrange(start as int, i as int)[k]);
                } else {
                    assert(k == before.len());
                    assert(all.subrange(start as int, i + 1)[k] == all[i as int]);
                }
            }
            assert(string_views(r@) =~= all.subrange(start as int, i + 1));
        }
        i = i + 1;
    }
    proof {
        assert(string_views(agent_texts@).subrange(0, agent_texts@.len() as int) =~= string_views(agent_texts@));
    }
    r
}

/// Whether a seat is held by a person or by an agent.
#[derive(Clone, Copy, Debug, PartialEq, Eq, Structural)]
pub enum ParticipantKind {
    Human,
    Agent,
}

/// What a seat may do in the meeting.
#[derive(Clone, Copy, Debug, PartialEq, Eq, Structural)]
pub enum MeetingRole {
    Owner,
    Moderator,
    Participant,
}

/// One seat of a meeting about to be created.
#[derive(Debug)]
pub struct MeetingParticipant {
    pub participant_id: String,
    pub kind: ParticipantKind,
    pub meeting_role: MeetingRole,
    pub name: String,
    /// The platform user a human seat belongs to.
    pub user_id: Option<String>,
    pub instructions: Option<String>,
    pub voice_id: Option<String>,
}

/// One agenda item of a meeting about to be created.
#[derive(Debug)]
pub struct AgendaItem {
    pub agenda_item_id: String,
    pub phrase: String,
}

/// Everything a new meeting is made from: its title, the ids of the owner's and the
/// moderator's seats, all seats in order (owner, moderator, then the invited ones), and its
/// agenda.
#[derive(Debug)]
pub struct MeetingPlan {
    pub title: String,
    pub owner_participant_id: String,
    pub moderator_participant_id: String,
    pub participants: Vec<MeetingParticipant>,
    pub agenda: Vec<AgendaItem>,
}

/// Why a request to create a meeting was refused.
#[derive(Debug)]
pub enum MeetingRequestError {
    /// A required text was empty once trimmed; `label` names it.
    BlankField { label: String },
    /// The agenda had no item.
    EmptyAgenda,
    /// An agent's name was more than one word.
    AgentNameNotOneWord { name: String },
    /// Two invited seats (or an invited seat and the owner's) had the same kind and the
    /// same name, ignoring ASCII case.
    DuplicateParticipant { name: String },
}

/// A refusal, in terms of character sequences.
pub enum MeetingRequestProblem {
    BlankField(Seq<char>),
    EmptyAgenda,
    AgentNameNotOneWord(Seq<char>),
    DuplicateParticipant(Seq<char>),
}

impl View for MeetingRequestError {
    type V = MeetingRequestProblem;

    open spec fn view(&self) -> MeetingRequestProblem {
        match self {
            MeetingRequestError::BlankField { label } => MeetingRequestProblem::BlankField(label@),
            MeetingRequestError::EmptyAgenda => MeetingRequestProblem::EmptyAgenda,
            MeetingRequestError::AgentNameNotOneWord { name } => MeetingRequestProblem::AgentNameNotOneWord(name@),
            MeetingRequestError::DuplicateParticipant { name } => MeetingRequestProblem::DuplicateParticipant(name@),
        }
    }
}

impl MeetingRequestError {
    /// The message the refusal is reported with.
    pub fn message(&self) -> (m: String)
        ensures
            m@ == match self@ {
                MeetingRequestProblem::BlankField(label) => label
                    + " must be a non-empty trimmed string"@,
                MeetingRequestProblem::EmptyAgenda => "agenda must contain at least one item"@,
                MeetingRequestProblem::AgentNameNotOneWord(name) => "agent name '"@ + name
                    + "' must be a single word"@,
                MeetingRequestProblem::DuplicateParticipant(name) => "duplicate invited participant '"@
                    + name + "'"@,
            },
    {
        match self {
            MeetingRequestError::BlankField { label } => {
                label.clone().concat(" must be a non-empty trimmed string")
            },
            MeetingRequestError::EmptyAgenda => {
                String::from_str("agenda must contain at least one item")
            },
            MeetingRequestError::AgentNameNotOneWord { name } => {
                String::from_str("agent name '").concat(name.as_str()).concat(
                    "' must be a single word",
                )
            },
            MeetingRequestError::DuplicateParticipant { name } => {
                String::from_str("duplicate invited participant '").concat(name.as_str()).concat(
                    "'",
                )
            },
        }
    }
}

/// How a kind reads in a participant key (its `Debug` form).
pub open spec fn kind_label(kind: ParticipantKind) -> Seq<char> {
    match kind {
        ParticipantKind::Human => "Human"@,
        ParticipantKind::Agent => "Agent"@,
    }
}

/// The key two seats clash on: the kind, a colon, and the ASCII-lowered name.
pub open spec fn spec_participant_key(kind: ParticipantKind, name: Seq<char>) -> Seq<char> {
    kind_label(kind) + ":"@ + ascii_lowercase(name)
}

/// The kind of seat a request asks for.
pub open spec fn requested_kind(p: CreateMeetingParticipant) -> ParticipantKind {
    match p {
        CreateMeetingParticipant::Human { .. } => ParticipantKind::Human,
        CreateMeetingParticipant::Agent { .. } => ParticipantKind::Agent,
    }
}

/// The name a seat gets: the requested one, trimmed.
pub open spec fn requested_name(p: CreateMeetingParticipant) -> Seq<char> {
    match p {
        CreateMeetingParticipant::Human { name, .. } => trimmed(name@),
        CreateMeetingParticipant::Agent { name, .. } => trimmed(name@),
    }
}

/// Why one requested seat cannot be built, checked in this order: a blank human name; a
/// blank agent name, an agent name of other than one word, blank instructions, a blank
/// voice.
pub open spec fn participant_problem(p: CreateMeetingParticipant) -> Option<MeetingRequestProblem> {
    match p {
        CreateMeetingParticipant::Human { name, .. } => if trimmed(name@).len() == 0 {
            Some(MeetingRequestProblem::BlankField("participant name"@))
        } else {
            None
        },
        CreateMeetingParticipant::Agent { name, instructions, voice_id } => if trimmed(name@).len()
            == 0 {
            Some(MeetingRequestProblem::BlankField("agent name"@))
        } else if words(trimmed(name@)).len() != 1 {
            Some(MeetingRequestProblem::AgentNameNotOneWord(trimmed(name@)))
        } else if trimmed(instructions@).len() == 0 {
            Some(MeetingRequestProblem::BlankField("agent instructions"@))
        } else if trimmed(voice_id@).len() == 0 {
            Some(MeetingRequestProblem::BlankField("agent voice_id"@))
        } else {
            None
        },
    }
}

/// A built seat is the requested one: its kind, role and trimmed name; for a human the
/// user it belongs to; for an agent its trimmed instructions and voice; and a fresh id.
pub open spec fn built_from(
    b: MeetingParticipant,
    p: CreateMeetingParticipant,
    role: MeetingRole,
) -> bool {
    &&& is_uuid_v4_text(b.participant_id@)
    &&& b.meeting_role == role
    &&& b.kind == requested_kind(p)
    &&& b.name@ == requested_name(p)
    &&& match p {
        CreateMeetingParticipant::Human { user_id, .. } => {
            &&& b.user_id matches Some(u) && u@ == user_id@
            &&& b.instructions is None
            &&& b.voice_id is None
        },
        CreateMeetingParticipant::Agent { instructions, voice_id, .. } => {
            &&& b.user_id is None
            &&& b.instructions matches Some(i) && i@ == trimmed(instructions@)
            &&& b.voice_id matches Some(v) && v@ == trimmed(voice_id@)
        },
    }
}

/// The first problem among the invited seats, read in order, given the keys `seen` so far:
/// a seat that cannot be built, or one whose key was already taken.
pub open spec fn invited_problem(
    seen: Seq<Seq<char>>,
    invited: Seq<CreateMeetingParticipant>,
) -> Option<MeetingRequestProblem>
    decreases invited.len(),
{
    if invited.len() == 0 {
        None
    } else {
        let p = invited[0];
        match participant_problem(p) {
            Some(e) => Some(e),
            None => {
                let key = spec_participant_key(requested_kind(p), requested_name(p));
                if seen.contains(key) {
                    Some(MeetingRequestProblem::DuplicateParticipant(requested_name(p)))
                } else {
                    invited_problem(seen.push(key), invited.drop_first())
                }
            },
        }
    }
}

/// Whether some agenda phrase is blank once trimmed.
pub open spec fn has_blank_phrase(agenda: Seq<String>) -> bool {
    exists|i: int| 0 <= i < agenda.len() && trimmed(#[trigger] agenda[i]@).len() == 0
}

/// Why a request to create a meeting is refused, checked in this order: a blank title; no
/// agenda item; a blank owner name; the invited seats in order (see `invited_problem`,
/// with the owner's key taken); a blank agenda phrase. `None` when it is accepted.
pub open spec fn meeting_request_problem(req: CreateMeetingRequest) -> Option<MeetingRequestProblem> {
    if trimmed(req.title@).len() == 0 {
        Some(MeetingRequestProblem::BlankField("meeting title"@))
    } else if req.agenda@.len() == 0 {
        Some(MeetingRequestProblem::EmptyAgenda)
    } else if trimmed(req.owner_name@).len() == 0 {
        Some(MeetingRequestProblem::BlankField("participant name"@))
    } else {
        let owner_key = spec_participant_key(ParticipantKind::Human, trimmed(req.owner_name@));
        match invited_problem(seq![owner_key], req.invited_participants@) {
            Some(e) => Some(e),
            None => if has_blank_phrase(req.agenda@) {
                Some(MeetingRequestProblem::BlankField("agenda item"@))
            } else {
                None
            },
        }
    }
}

/// The moderator seat every meeting gets.
pub open spec fn is_moderator_seat(b: MeetingParticipant) -> bool {
    &&& is_uuid_v4_text(b.participant_id@)
    &&& b.kind == ParticipantKind::Agent
    &&& b.meeting_role == MeetingRole::Moderator
    &&& b.name@ == MODERATOR_NAME@
    &&& b.user_id is None
    &&& b.instructions matches Some(i) && i@ == MODERATOR_INSTRUCTIONS@
    &&& b.voice_id matches Some(v) && v@ == MODERATOR_VOICE_ID@
}

/// Whether `c` is a lowercase hexadecimal digit.
pub open spec fn is_lower_hex(c: char) -> bool {
    ('0' <= c && c <= '9') || ('a' <= c && c <= 'f')
}

/// Whether `s` is a version-4 UUID in lowercase hyphenated form: 36 characters, hyphens at
/// 8, 13, 18 and 23, lowercase hex digits elsewhere, and the version digit `4` at 14.
pub open spec fn is_uuid_v4_text(s: Seq<char>) -> bool {
    &&& s.len() == 36
    &&& forall|i: int| 0 <= i < 36 ==> if i == 8 || i == 13 || i == 18 || i == 23 {
        #[trigger] s[i] == '-'
    } else {
        is_lower_hex(s[i])
    }
    &&& s[14] == '4'
}

/// `uuid::Uuid::new_v4().to_string()`: a fresh random identifier, written by `Display` as
/// the lowercase hyphenated form of a version-4 UUID. Which identifier comes back is left
/// open.
#[verifier::external_body]
fn new_random_id() -> (id: String)
    ensures
        is_uuid_v4_text(id@),
{
    uuid::Uuid::new_v4().to_string()
}

/// The key two seats clash on: `Human:` or `Agent:`, then the name lowered.
pub fn participant_key(kind: ParticipantKind, name: &str) -> (key: Vec<char>)
    ensures
        key@ == spec_participant_key(kind, name@),
{
    let mut key: Vec<char> = match kind {
        ParticipantKind::Human => chars_of("Human"),
        ParticipantKind::Agent => chars_of("Agent"),
    };
    let ghost label = key@;
    key.push(':');
    proof {
        reveal_strlit(":");
        assert(":"@ =~= seq![':']);
    }
    let n = chars_of(name);
    let mut i: usize = 0;
    while i < n.len()
        invariant
            i <= n@.len(),
            n@ == name@,
            key@ =~= label + seq![':'] + ascii_lowercase(n@.take(i as int)),
        decreases n@.len() - i,
    {
        key.push(ascii_lower(n[i]));
        i = i + 1;
    }
    assert(n@.take(n@.len() as int) =~= n@);
    key
}

fn blank(label: &str) -> (e: MeetingRequestError)
    ensures
        e@ == MeetingRequestProblem::BlankField(label@),
{
    MeetingRequestError::BlankField { label: label.to_owned() }
}

/// Builds one seat of the given role from its request.
pub fn build_participant_from_request(
    request: CreateMeetingParticipant,
    meeting_role: MeetingRole,
) -> (r: Result<MeetingParticipant, MeetingRequestError>)
    ensures
        match r {
            Ok(b) => participant_problem(request) is None && built_from(b, request, meeting_role),
            Err(e) => participant_problem(request) == Some(e@),
        },
{
    build_participant(&request, meeting_role)
}

fn build_participant(
    request: &CreateMeetingParticipant,
    meeting_role: MeetingRole,
) -> (r: Result<MeetingParticipant, MeetingRequestError>)
    ensures
        match r {
            Ok(b) => participant_problem(*request) is None && built_from(b, *request, meeting_role),
            Err(e) => participant_problem(*request) == Some(e@),
        },
{
    match request {
        CreateMeetingParticipant::Human { name, user_id } => {
            let name = match normalize_required(name.as_str(), "participant name") {
                Ok(n) => n,
                Err(_) => return Err(blank("participant name")),
            };
            Ok(
                MeetingParticipant {
                    participant_id: new_random_id(),
                    kind: ParticipantKind::Human,
                    meeting_role,
                    name,
                    user_id: Some(user_id.clone()),
                    instructions: None,
                    voice_id: None,
                },
            )
        },
        CreateMeetingParticipant::Agent { name, instructions, voice_id } => {
            let name = match normalize_required(name.as_str(), "agent name") {
                Ok(n) => n,
                Err(_) => return Err(blank("agent name")),
            };
            let name_chars = chars_of(name.as_str());
            let name_words = split_words(&name_chars);
            if name_words.len() != 1 {
                return Err(MeetingRequestError::AgentNameNotOneWord { name });
            }
            let instructions = match normalize_required(instructions.as_str(), "agent instructions") {
                Ok(i) => i,
                Err(_) => return Err(blank("agent instructions")),
            };
            let voice_id = match normalize_required(voice_id.as_str(), "agent voice_id") {
                Ok(v) => v,
                Err(_) => return Err(blank("agent voice_id")),
            };
            Ok(
                MeetingParticipant {
                    participant_id: new_random_id(),
                    kind: ParticipantKind::Agent,
                    meeting_role,
                    name,
                    user_id: None,
                    instructions: Some(instructions),
                    voice_id: Some(voice_id),
                },
            )
        },
    }
}


/// The owner's seat as a request: a human seat named as the request says, belonging to
/// the caller.
pub open spec fn owner_seat(req: CreateMeetingRequest, owner_user_id: String) -> CreateMeetingParticipant {
    CreateMeetingParticipant::Human { name: req.owner_name, user_id: owner_user_id }
}

/// A plan is what an accepted request describes: the trimmed title; the owner's seat,
/// the moderator's, then each invited seat in order, all with fresh ids; the owner and
/// moderator ids; and each agenda phrase trimmed, in order, with a fresh id.
pub open spec fn plan_of(plan: MeetingPlan, req: CreateMeetingRequest, owner_user_id: String) -> bool {
    let inv = req.invited_participants@;
    let ps = plan.participants@;
    &&& plan.title@ == trimmed(req.title@)
    &&& ps.len() == inv.len() + 2
    &&& built_from(ps[0], owner_seat(req, owner_user_id), MeetingRole::Owner)
    &&& is_moderator_seat(ps[1])
    &&& forall|i: int| 0 <= i < inv.len() ==> built_from(#[trigger] ps[i + 2], inv[i], MeetingRole::Participant)
    &&& plan.owner_participant_id@ == ps[0].participant_id@
    &&& plan.moderator_participant_id@ == ps[1].participant_id@
    &&& plan.agenda@.len() == req.agenda@.len()
    &&& forall|i: int| 0 <= i < req.agenda@.len() ==> {
        &&& (#[trigger] plan.agenda@[i]).phrase@ == trimmed(req.agenda@[i]@)
        &&& is_uuid_v4_text(plan.agenda@[i].agenda_item_id@)
    }
}

/// Checks a request to create a meeting and lays out the meeting it describes: the owner's
/// seat (belonging to `owner_user_id`, the caller), a moderator seat, the invited seats —
/// no two of the same kind and name, ignoring ASCII case, and none clashing with the
/// owner's — and the agenda.
pub fn build_meeting_from_request(request: CreateMeetingRequest, owner_user_id: String) -> (r: Result<
    MeetingPlan,
    MeetingRequestError,
>)
    ensures
        match r {
            Ok(plan) => meeting_request_problem(request) is None && plan_of(plan, request, owner_user_id),
            Err(e) => meeting_request_problem(request) == Some(e@),
        },
{
    let title = match normalize_required(request.title.as_str(), "meeting title") {
        Ok(t) => t,
        Err(_) => return Err(blank("meeting title")),
    };
    if request.agenda.len() == 0 {
        return Err(MeetingRequestError::EmptyAgenda);
    }
    let owner_request = CreateMeetingParticipant::Human {
        name: request.owner_name.clone(),
        user_id: owner_user_id.clone(),
    };
    assert(owner_request == owner_seat(request, owner_user_id));
    let owner = match build_participant(&owner_request, MeetingRole::Owner) {
        Ok(o) => o,
        Err(e) => return Err(e),
    };
    let owner_participant_id = owner.participant_id.clone();
    let owner_key = participant_key(owner.kind, owner.name.as_str());
    let moderator = MeetingParticipant {
        participant_id: new_random_id(),
        kind: ParticipantKind::Agent,
        meeting_role: MeetingRole::Moderator,
        name: String::from_str(MODERATOR_NAME),
        user_id: None,
        instructions: Some(String::from_str(MODERATOR_INSTRUCTIONS)),
        voice_id: Some(String::from_str(MODERATOR_VOICE_ID)),
    };
    let moderator_participant_id = moderator.participant_id.clone();
    let mut participants: Vec<MeetingParticipant> = Vec::new();
    participants.push(owner);
    participants.push(moderator);
    let mut seen: Vec<Vec<char>> = Vec::new();
    seen.push(owner_key);
    let ghost inv = request.invited_participants@;
    assert(char_vec_views(seen@) =~= seq![spec_participant_key(ParticipantKind::Human, trimmed(request.owner_name@))]);
    assert(inv.skip(0) =~= inv);
    let mut i: usize = 0;
    while i < request.invited_participants.len()
        invariant
            i <= inv.len(),
            inv == request.invited_participants@,
            trimmed(request.title@).len() > 0,
            request.agenda@.len() > 0,
            trimmed(request.owner_name@).len() > 0,
            invited_problem(
                seq![spec_participant_key(ParticipantKind::Human, trimmed(request.owner_name@))],
                inv,
            ) == invited_problem(char_vec_views(seen@), inv.skip(i as int)),
            participants@.len() == i + 2,
            built_from(participants@[0], owner_seat(request, owner_user_id), MeetingRole::Owner),
            is_moderator_seat(participants@[1]),
            forall|k: int| 0 <= k < i ==> built_from(#[trigger] participants@[k + 2], inv[k], MeetingRole::Participant),
            participants@[0].participant_id@ == owner_participant_id@,
            participants@[1].participant_id@ == moderator_participant_id@,
        decreases inv.len() - i,
    {
        let ghost rest = inv.skip(i as int);
        assert(rest[0] == inv[i as int]);
        assert(rest.drop_first() =~= inv.skip(i + 1));
        let b = match build_participant(&request.invited_participants[i], MeetingRole::Participant) {
            Ok(b) => b,
            Err(e) => return Err(e),
        };
        let key = participant_key(b.kind, b.name.as_str());
        if contains_token(&seen, &key) {
            return Err(MeetingRequestError::DuplicateParticipant { name: b.name });
        }
        let ghost seen_before = char_vec_views(seen@);
        seen.push(key);
        assert(char_vec_views(seen@) =~= seen_before.push(key@));
        let ghost before = participants@;
        participants.push(b);
        assert forall|k: int| 0 <= k < i + 1 implies built_from(#[trigger] participants@[k + 2], inv[k], MeetingRole::Participant) by {
            if k < i {
                assert(participants@[k + 2] == before[k + 2]);
            }
        }
        i = i + 1;
    }
    assert(inv.skip(inv.len() as int) =~= Seq::<CreateMeetingParticipant>::empty());
    let mut agenda: Vec<AgendaItem> = Vec::new();
    let mut j: usize = 0;
    while j < request.agenda.len()
        invariant
            j <= request.agenda@.len(),
            agenda@.len() == j,
            trimmed(request.title@).len() > 0,
            request.agenda@.len() > 0,
            trimmed(request.owner_name@).len() > 0,
            invited_problem(
                seq![spec_participant_key(ParticipantKind::Human, trimmed(request.owner_name@))],
                request.invited_participants@,
            ) is None,
            forall|k: int| 0 <= k < j ==> trimmed(#[trigger] request.agenda@[k]@).len() > 0,
            forall|k: int| 0 <= k < j ==> {
                &&& (#[trigger] agenda@[k]).phrase@ == trimmed(request.agenda@[k]@)
                &&& is_uuid_v4_text(agenda@[k].agenda_item_id@)
            },
        decreases request.agenda@.len() - j,
    {
        let phrase = match normalize_required(request.agenda[j].as_str(), "agenda item") {
            Ok(p) => p,
            Err(_) => {
                assert(trimmed(request.agenda@[j as int]@).len() == 0);
                return Err(blank("agenda item"));
            },
        };
        let ghost before = agenda@;
        assert(trimmed(request.agenda@[j as int]@).len() > 0);
        agenda.push(AgendaItem { agenda_item_id: new_random_id(), phrase });
        assert forall|k: int| 0 <= k < j + 1 implies {
            &&& (#[trigger] agenda@[k]).phrase@ == trimmed(request.agenda@[k]@)
            &&& is_uuid_v4_text(agenda@[k].agenda_item_id@)
        } by {
            if k < j {
                assert(agenda@[k] == before[k]);
            }
        }
        j = j + 1;
    }
    Ok(
        MeetingPlan {
            title,
            owner_participant_id,
            moderator_participant_id,
            participants,
            agenda,
        },
    )
}


/// The audio of an agent's reply, as a client receives it.
#[derive(Debug)]
pub struct AgentAudioClip {
    pub mime_type: String,
    /// The audio bytes in standard base64, padded.
    pub audio_base64: String,
}

/// What the meeting tells its clients. `M` is the minutes document.
#[derive(Debug)]
pub enum MeetingClientEvent<M> {
    AgentText {
        meeting_id: String,
        participant_id: String,
        participant_name: String,
        utterance_id: String,
        text: String,
    },
    AgentAudio {
        meeting_id: String,
        participant_id: String,
        participant_name: String,
        utterance_id: String,
        clip: AgentAudioClip,
    },
    MeetingEnded { meeting_id: String, ended_by_participant_id: String, ended_at: String },
    MinutesReady { meeting_id: String, minutes: M },
}

/// The character of the standard base64 alphabet for the six-bit value `v`:
/// `A`-`Z`, `a`-`z`, `0`-`9`, `+`, `/`.
pub open spec fn base64_digit(v: int) -> char {
    if v < 26 {
        (65 + v) as char
    } else if v < 52 {
        (97 + (v - 26)) as char
    } else if v < 62 {
        (48 + (v - 52)) as char
    } else if v == 62 {
        '+'
    } else {
        '/'
    }
}

/// The standard (RFC 4648, padded) base64 encoding of `bytes`: each group of three bytes
/// becomes four digits of six bits each, most significant first; a last group of one or
/// two bytes is filled with zero bits and written as two or three digits, then `=` to
/// four.
pub open spec fn base64_standard(bytes: Seq<u8>) -> Seq<char>
    decreases bytes.len(),
{
    if bytes.len() == 0 {
        Seq::empty()
    } else if bytes.len() == 1 {
        let b0 = bytes[0] as int;
        seq![base64_digit(b0 / 4), base64_digit((b0 % 4) * 16), '=', '=']
    } else if bytes.len() == 2 {
        let (b0, b1) = (bytes[0] as int, bytes[1] as int);
        seq![base64_digit(b0 / 4), base64_digit((b0 % 4) * 16 + b1 / 16), base64_digit((b1 % 16) * 4), '=']
    } else {
        let (b0, b1, b2) = (bytes[0] as int, bytes[1] as int, bytes[2] as int);
        seq![
            base64_digit(b0 / 4),
            base64_digit((b0 % 4) * 16 + b1 / 16),
            base64_digit((b1 % 16) * 4 + b2 / 64),
            base64_digit(b2 % 64),
        ] + base64_standard(bytes.subrange(3, bytes.len() as int))
    }
}

/// `base64::engine::general_purpose::STANDARD.encode(bytes)`: the padded standard base64
/// text of `bytes`. The encoder panics when the encoded length overflows `usize`, which
/// the bound on `bytes` rules out.
#[verifier::external_body]
fn encode_base64(bytes: &Vec<u8>) -> (text: String)
    requires
        bytes@.len() < usize::MAX / 2,
    ensures
        text@ == base64_standard(bytes@),
{
    base64::engine::general_purpose::STANDARD.encode(bytes)
}

/// The agent seat that answers a transcript line.
#[derive(Debug)]
pub struct AgentSeat {
    pub participant_id: String,
    pub name: String,
    pub voice_id: Option<String>,
}

/// Why an agent got the turn.
#[derive(Clone, Copy, Debug, PartialEq, Eq, Structural)]
pub enum TurnReason {
    /// The speaker named it.
    DirectAddress,
    /// It asked for the floor and was granted it.
    FloorRequest,
}

/// How a reason is recorded.
pub open spec fn reason_text(reason: TurnReason) -> Seq<char> {
    match reason {
        TurnReason::DirectAddress => "direct_address"@,
        TurnReason::FloorRequest => "floor_request"@,
    }
}

/// Where handling a transcript line stands, waiting for the outcome of what it last asked
/// for.
#[derive(Debug)]
pub enum UtteranceStage {
    /// Waiting for the meeting (active, with the speaker a human seat of it).
    AwaitingMeeting,
    /// Waiting for the line to be recorded.
    AwaitingRecord,
    /// Waiting for the agent that answers, if any.
    AwaitingAgent { utterance_id: String, reason: TurnReason },
    /// Waiting for the agent's turn to be recorded.
    AwaitingTurn { agent: AgentSeat },
    /// Waiting for the agent's reply, generated and recorded.
    AwaitingReply { agent: AgentSeat },
    /// Waiting for the reply to be spoken.
    AwaitingSpeech { agent: AgentSeat, reply_text: String, reply_utterance_id: String },
    /// Done.
    Finished,
}

/// Handling one transcript line spoken in a meeting.
#[derive(Debug)]
pub struct UtteranceFlow {
    pub meeting_id: String,
    /// The line, trimmed.
    pub text: String,
    pub stage: UtteranceStage,
}

/// What the service reports back after doing what the flow asked.
#[derive(Debug)]
pub enum UtteranceEvent {
    /// The meeting was loaded; these are the things its agents said, oldest first.
    MeetingLoaded { agent_texts: Vec<String> },
    /// The line was recorded under `utterance_id`; `directly_addressed` tells whether it
    /// named any agent.
    UtteranceRecorded { utterance_id: String, directly_addressed: bool },
    /// The agent that answers, if any: the one named, or the one granted the floor.
    AgentChosen { agent: Option<AgentSeat> },
    /// The agent's turn was recorded.
    TurnRecorded,
    /// The agent's reply was generated and recorded under `reply_utterance_id`.
    ReplyRecorded { reply_text: String, reply_utterance_id: String },
    /// The reply was spoken.
    SpeechSynthesized { mime_type: String, audio: Vec<u8> },
    /// What was asked was refused, with this message: the meeting is missing or not
    /// active, the speaker is not a human seat of it, the meeting refused to record a
    /// step, or speech could not be synthesized.
    Refused { message: String },
}

/// What the flow asks the service to do next.
#[derive(Debug)]
pub enum UtteranceAction<M> {
    /// Record the line, after asking the meeting which agents it names.
    RecordUtterance,
    /// Ask the meeting which of the named agents answers.
    ChooseAddressee { utterance_id: String },
    /// Collect and record the agents' floor requests, have one granted, and record the
    /// decisions.
    RunFloorRequests { utterance_id: String },
    /// Record that `agent_id` takes the turn answering `utterance_id`, for `reason`.
    RecordTurn { agent_id: String, utterance_id: String, reason: String },
    /// Generate the agent's reply and record it.
    GenerateReply { agent_id: String },
    /// Speak `text` in voice `voice_id`.
    Synthesize { text: String, voice_id: String },
    /// Stop: save the meeting when `save`, and hand the clients `events`.
    Finish { save: bool, events: Vec<MeetingClientEvent<M>> },
    /// Stop without saving, failing with this message.
    Fail { message: String },
}

/// Whether the flow can take `event` in the stage it is in.
pub open spec fn takes(stage: UtteranceStage, event: UtteranceEvent) -> bool {
    match (stage, event) {
        (UtteranceStage::AwaitingMeeting, UtteranceEvent::MeetingLoaded { .. }) => true,
        (UtteranceStage::AwaitingRecord, UtteranceEvent::UtteranceRecorded { .. }) => true,
        (UtteranceStage::AwaitingAgent { .. }, UtteranceEvent::AgentChosen { .. }) => true,
        (UtteranceStage::AwaitingTurn { .. }, UtteranceEvent::TurnRecorded) => true,
        (UtteranceStage::AwaitingReply { .. }, UtteranceEvent::ReplyRecorded { .. }) => true,
        (UtteranceStage::AwaitingSpeech { .. }, UtteranceEvent::SpeechSynthesized { audio, .. }) => audio@.len()
            < usize::MAX / 2,
        (UtteranceStage::Finished, _) => false,
        (_, UtteranceEvent::Refused { .. }) => true,
        _ => false,
    }
}

/// The two events an agent's spoken reply gives the clients: its text, then its audio in
/// base64.
pub open spec fn is_reply_events<M>(
    events: Seq<MeetingClientEvent<M>>,
    meeting_id: Seq<char>,
    agent: AgentSeat,
    reply_utterance_id: Seq<char>,
    reply_text: Seq<char>,
    mime_type: Seq<char>,
    audio: Seq<u8>,
) -> bool {
    &&& events.len() == 2
    &&& events[0] matches MeetingClientEvent::AgentText {
        meeting_id: m,
        participant_id: p,
        participant_name: n,
        utterance_id: u,
        text: t,
    } && m@ == meeting_id && p@ == agent.participant_id@ && n@ == agent.name@ && u@
        == reply_utterance_id && t@ == reply_text
    &&& events[1] matches MeetingClientEvent::AgentAudio {
        meeting_id: m,
        participant_id: p,
        participant_name: n,
        utterance_id: u,
        clip: c,
    } && m@ == meeting_id && p@ == agent.participant_id@ && n@ == agent.name@ && u@
        == reply_utterance_id && c.mime_type@ == mime_type && c.audio_base64@ == base64_standard(
        audio,
    )
}

/// The voice a reply is spoken in: the agent's own, or the moderator's.
pub open spec fn spec_reply_voice(agent: AgentSeat) -> Seq<char> {
    match agent.voice_id {
        Some(v) => v@,
        None => MODERATOR_VOICE_ID@,
    }
}

impl UtteranceFlow {
    /// Starts handling a transcript line: refused when the line is blank once trimmed;
    /// otherwise the flow first waits for the meeting.
    pub fn start(meeting_id: &str, text: &str) -> (r: Result<UtteranceFlow, crate::text::BlankTextError>)
        ensures
            match r {
                Ok(flow) => trimmed(text@).len() > 0 && flow.text@ == trimmed(text@)
                    && flow.meeting_id@ == meeting_id@ && flow.stage is AwaitingMeeting,
                Err(e) => trimmed(text@).len() == 0 && e.label@ == "transcript text"@,
            },
    {
        let text = match normalize_required(text, "transcript text") {
            Ok(t) => t,
            Err(e) => return Err(e),
        };
        Ok(UtteranceFlow { meeting_id: String::from_str(meeting_id), text, stage: UtteranceStage::AwaitingMeeting })
    }

    /// Takes the outcome of the last request and says what to do next:
    /// - once the meeting is loaded: a line that repeats one of the agents' latest
    ///   `RECENT_AGENT_UTTERANCES` lines (the microphone picking up the agent's own voice)
    ///   finishes at once, unsaved and with no events; any other line is recorded;
    /// - once recorded: a line naming agents has one of them chosen, any other runs the
    ///   floor requests;
    /// - once an agent is chosen: none finishes, saving, with no events; otherwise its turn
    ///   is recorded, with the reason it got it;
    /// - then its reply is generated and recorded, then spoken in its voice (or the
    ///   moderator's);
    /// - once spoken: finish, saving, with the reply's text and audio events;
    /// - a refusal at any point fails at once, saving nothing.
    pub fn step<M>(self, event: UtteranceEvent) -> (r: (UtteranceFlow, UtteranceAction<M>))
        requires
            takes(self.stage, event),
        ensures
            r.0.meeting_id == self.meeting_id,
            r.0.text == self.text,
            match (self.stage, event) {
                (UtteranceStage::AwaitingMeeting, UtteranceEvent::MeetingLoaded { agent_texts }) => if is_recent_echo(
                    self.text@,
                    latest_lines(string_views(agent_texts@)),
                ) {
                    r.0.stage is Finished && (r.1 matches UtteranceAction::Finish { save, events } && !save
                        && events@.len() == 0)
                } else {
                    r.0.stage is AwaitingRecord && r.1 is RecordUtterance
                },
                (UtteranceStage::AwaitingRecord, UtteranceEvent::UtteranceRecorded { utterance_id, directly_addressed }) => {
                    &&& r.0.stage matches UtteranceStage::AwaitingAgent { utterance_id: u, reason }
                        && u@ == utterance_id@ && reason == (if directly_addressed {
                        TurnReason::DirectAddress
                    } else {
                        TurnReason::FloorRequest
                    })
                    &&& if directly_addressed {
                        r.1 matches UtteranceAction::ChooseAddressee { utterance_id: u } && u@ == utterance_id@
                    } else {
                        r.1 matches UtteranceAction::RunFloorRequests { utterance_id: u } && u@ == utterance_id@
                    }
                },
                (UtteranceStage::AwaitingAgent { utterance_id, reason }, UtteranceEvent::AgentChosen { agent }) => match agent {
                    None => r.0.stage is Finished && (r.1 matches UtteranceAction::Finish { save, events } && save
                        && events@.len() == 0),
                    Some(a) => r.0.stage == (UtteranceStage::AwaitingTurn { agent: a })
                        && (r.1 matches UtteranceAction::RecordTurn { agent_id, utterance_id: u, reason: why }
                        && agent_id@ == a.participant_id@ && u@ == utterance_id@ && why@ == reason_text(reason)),
                },
                (UtteranceStage::AwaitingTurn { agent }, UtteranceEvent::TurnRecorded) => r.0.stage == (UtteranceStage::AwaitingReply {
                    agent,
                }) && (r.1 matches UtteranceAction::GenerateReply { agent_id } && agent_id@ == agent.participant_id@),
                (UtteranceStage::AwaitingReply { agent }, UtteranceEvent::ReplyRecorded { reply_text, reply_utterance_id }) => r.0.stage
                    == (UtteranceStage::AwaitingSpeech { agent, reply_text, reply_utterance_id })
                    && (r.1 matches UtteranceAction::Synthesize { text, voice_id } && text@ == reply_text@
                    && voice_id@ == spec_reply_voice(agent)),
                (UtteranceStage::AwaitingSpeech { agent, reply_text, reply_utterance_id }, UtteranceEvent::SpeechSynthesized { mime_type, audio }) => r.0.stage is Finished
                    && (r.1 matches UtteranceAction::Finish { save, events } && save && is_reply_events(
                    events@,
                    self.meeting_id@,
                    agent,
                    reply_utterance_id@,
                    reply_text@,
                    mime_type@,
                    audio@,
                )),
                (_, UtteranceEvent::Refused { message }) => r.0.stage is Finished && r.1 == (UtteranceAction::Fail::<M> { message }),
                _ => false,
            },
    {
        let UtteranceFlow { meeting_id, text, stage } = self;
        match (stage, event) {
            (UtteranceStage::AwaitingMeeting, UtteranceEvent::MeetingLoaded { agent_texts }) => {
                let recent_agent_texts = latest_agent_texts(&agent_texts);
                if is_recent_agent_echo(text.as_str(), &recent_agent_texts) {
                    (UtteranceFlow { meeting_id, text, stage: UtteranceStage::Finished }, UtteranceAction::Finish { save: false, events: Vec::new() })
                } else {
                    (UtteranceFlow { meeting_id, text, stage: UtteranceStage::AwaitingRecord }, UtteranceAction::RecordUtterance)
                }
            },
            (UtteranceStage::AwaitingRecord, UtteranceEvent::UtteranceRecorded { utterance_id, directly_addressed }) => {
                if directly_addressed {
                    let action = UtteranceAction::ChooseAddressee { utterance_id: utterance_id.clone() };
                    (UtteranceFlow { meeting_id, text, stage: UtteranceStage::AwaitingAgent { utterance_id, reason: TurnReason::DirectAddress } }, action)
                } else {
                    let action = UtteranceAction::RunFloorRequests { utterance_id: utterance_id.clone() };
                    (UtteranceFlow { meeting_id, text, stage: UtteranceStage::AwaitingAgent { utterance_id, reason: TurnReason::FloorRequest } }, action)
                }
            },
            (UtteranceStage::AwaitingAgent { utterance_id, reason }, UtteranceEvent::AgentChosen { agent }) => {
                match agent {
                    None => (UtteranceFlow { meeting_id, text, stage: UtteranceStage::Finished }, UtteranceAction::Finish { save: true, events: Vec::new() }),
                    Some(a) => {
                        let why = match reason {
                            TurnReason::DirectAddress => String::from_str("direct_address"),
                            TurnReason::FloorRequest => String::from_str("floor_request"),
                        };
                        let action = UtteranceAction::RecordTurn { agent_id: a.participant_id.clone(), utterance_id, reason: why };
                        (UtteranceFlow { meeting_id, text, stage: UtteranceStage::AwaitingTurn { agent: a } }, action)
                    },
                }
            },
            (UtteranceStage::AwaitingTurn { agent }, UtteranceEvent::TurnRecorded) => {
                let action = UtteranceAction::GenerateReply { agent_id: agent.participant_id.clone() };
                (UtteranceFlow { meeting_id, text, stage: UtteranceStage::AwaitingReply { agent } }, action)
            },
            (UtteranceStage::AwaitingReply { agent }, UtteranceEvent::ReplyRecorded { reply_text, reply_utterance_id }) => {
                let voice_id = match &agent.voice_id {
                    Some(v) => v.clone(),
                    None => String::from_str(MODERATOR_VOICE_ID),
                };
                let action = UtteranceAction::Synthesize { text: reply_text.clone(), voice_id };
                (UtteranceFlow { meeting_id, text, stage: UtteranceStage::AwaitingSpeech { agent, reply_text, reply_utterance_id } }, action)
            },
            (UtteranceStage::AwaitingSpeech { agent, reply_text, reply_utterance_id }, UtteranceEvent::SpeechSynthesized { mime_type, audio }) => {
                let mut events: Vec<MeetingClientEvent<M>> = Vec::new();
                events.push(MeetingClientEvent::AgentText {
                    meeting_id: meeting_id.clone(),
                    participant_id: agent.participant_id.clone(),
                    participant_name: agent.name.clone(),
                    utterance_id: reply_utterance_id.clone(),
                    text: reply_text,
                });
                events.push(MeetingClientEvent::AgentAudio {
                    meeting_id: meeting_id.clone(),
                    participant_id: agent.participant_id,
                    participant_name: agent.name,
                    utterance_id: reply_utterance_id,
                    clip: AgentAudioClip { mime_type, audio_base64: encode_base64(&audio) },
                });
                (UtteranceFlow { meeting_id, text, stage: UtteranceStage::Finished }, UtteranceAction::Finish { save: true, events })
            },
            (_, UtteranceEvent::Refused { message }) => {
                (UtteranceFlow { meeting_id, text, stage: UtteranceStage::Finished }, UtteranceAction::Fail { message })
            },
            _ => {
                assert(false);
                (UtteranceFlow { meeting_id, text, stage: UtteranceStage::Finished }, UtteranceAction::Finish { save: false, events: Vec::new() })
            },
        }
    }
}

/// What ending a meeting tells the clients: that `participant_id` ended it at `ended_at`,
/// then its minutes.
pub fn meeting_end_events<M>(meeting_id: &str, participant_id: &str, ended_at: String, minutes: M) -> (events: Vec<MeetingClientEvent<M>>)
    ensures
        events@.len() == 2,
        events@[0] matches MeetingClientEvent::MeetingEnded { meeting_id: m, ended_by_participant_id: p, ended_at: t }
            && m@ == meeting_id@ && p@ == participant_id@ && t == ended_at,
        events@[1] matches MeetingClientEvent::MinutesReady { meeting_id: m, minutes: d } && m@ == meeting_id@
            && d == minutes,
{
    let mut events: Vec<MeetingClientEvent<M>> = Vec::new();
    events.push(MeetingClientEvent::MeetingEnded {
        meeting_id: String::from_str(meeting_id),
        ended_by_participant_id: String::from_str(participant_id),
        ended_at,
    });
    events.push(MeetingClientEvent::MinutesReady { meeting_id: String::from_str(meeting_id), minutes });
    events
}


/// The key a requested seat clashes on.
pub open spec fn requested_key(p: CreateMeetingParticipant) -> Seq<char> {
    spec_participant_key(requested_kind(p), requested_name(p))
}

/// The key a built seat clashes on.
pub open spec fn seat_key(b: MeetingParticipant) -> Seq<char> {
    spec_participant_key(b.kind, b.name@)
}

proof fn lemma_invited_keys(seen: Seq<Seq<char>>, inv: Seq<CreateMeetingParticipant>)
    requires
        invited_problem(seen, inv) is None,
    ensures
        forall|i: int| 0 <= i < inv.len() ==> !seen.contains(#[trigger] requested_key(inv[i])),
        forall|i: int, j: int| 0 <= i < j < inv.len() ==> requested_key(#[trigger] inv[i]) != requested_key(#[trigger] inv[j]),
    decreases inv.len(),
{
    if inv.len() > 0 {
        let k0 = requested_key(inv[0]);
        let rest = inv.drop_first();
        lemma_invited_keys(seen.push(k0), rest);
        assert forall|i: int| 0 <= i < inv.len() implies !seen.contains(#[trigger] requested_key(inv[i])) by {
            if i > 0 {
                assert(inv[i] == rest[i - 1]);
                if seen.contains(requested_key(inv[i])) {
                    let w = choose|w: int| 0 <= w < seen.len() && seen[w] == requested_key(inv[i]);
                    assert(seen.push(k0)[w] == seen[w]);
                    assert(seen.push(k0).contains(requested_key(rest[i - 1])));
                }
            }
        }
        assert forall|i: int, j: int| 0 <= i < j < inv.len() implies requested_key(#[trigger] inv[i]) != requested_key(#[trigger] inv[j]) by {
            assert(inv[j] == rest[j - 1]);
            if i == 0 {
                assert(seen.push(k0)[seen.len() as int] == k0);
                assert(!seen.push(k0).contains(requested_key(rest[j - 1])));
            } else {
                assert(inv[i] == rest[i - 1]);
            }
        }
    }
}

/// Law of meeting creation: in a meeting laid out from an accepted request, no two seats
/// other than the moderator's share a kind and a name (ignoring ASCII case) — neither two
/// invited seats, nor an invited seat and the owner's.
pub proof fn lemma_seats_never_clash(req: CreateMeetingRequest, owner_user_id: String, plan: MeetingPlan)
    requires
        meeting_request_problem(req) is None,
        plan_of(plan, req, owner_user_id),
    ensures
        forall|i: int, j: int|
            0 <= i < j < plan.participants@.len() && i != 1 && j != 1 ==> seat_key(
                #[trigger] plan.participants@[i],
            ) != seat_key(#[trigger] plan.participants@[j]),
{
    let inv = req.invited_participants@;
    let ps = plan.participants@;
    let owner_key = spec_participant_key(ParticipantKind::Human, trimmed(req.owner_name@));
    lemma_invited_keys(seq![owner_key], inv);
    assert(seat_key(ps[0]) == owner_key);
    assert forall|m: int| 2 <= m < ps.len() implies seat_key(#[trigger] ps[m]) == requested_key(inv[m - 2]) by {
        assert(ps[(m - 2) + 2] == ps[m]);
        assert(built_from(ps[(m - 2) + 2], inv[m - 2], MeetingRole::Participant));
    }
    assert forall|i: int, j: int|
        0 <= i < j < ps.len() && i != 1 && j != 1 implies seat_key(#[trigger] ps[i]) != seat_key(#[trigger] ps[j]) by {
        assert(seat_key(ps[j]) == requested_key(inv[j - 2]));
        if i == 0 {
            assert(seq![owner_key][0] == owner_key);
            assert(!seq![owner_key].contains(requested_key(inv[j - 2])));
        } else {
            assert(seat_key(ps[i]) == requested_key(inv[i - 2]));
        }
    }
}

/// Whether `name` is a usable seat name: non-empty, and neither starting nor ending with
/// whitespace.
pub open spec fn is_seat_name(name: Seq<char>) -> bool {
    &&& name.len() > 0
    &&& !spec_is_white_space(name[0])
    &&& !spec_is_white_space(name.last())
}

/// Law of a built seat: a seat built from a request it accepts has a usable name — a blank
/// human or agent name is never seated.
pub proof fn lemma_built_seats_are_named(b: MeetingParticipant, p: CreateMeetingParticipant, role: MeetingRole)
    requires
        participant_problem(p) is None,
        built_from(b, p, role),
    ensures
        b.name@.len() > 0,
        !spec_is_white_space(b.name@[0]),
        !spec_is_white_space(b.name@.last()),
{
    match p {
        CreateMeetingParticipant::Human { name, .. } => lemma_trimmed_is_trimmed(name@),
        CreateMeetingParticipant::Agent { name, .. } => lemma_trimmed_is_trimmed(name@),
    }
}

proof fn lemma_invited_buildable(seen: Seq<Seq<char>>, inv: Seq<CreateMeetingParticipant>)
    requires
        invited_problem(seen, inv) is None,
    ensures
        forall|i: int| 0 <= i < inv.len() ==> participant_problem(#[trigger] inv[i]) is None,
    decreases inv.len(),
{
    if inv.len() > 0 {
        let rest = inv.drop_first();
        lemma_invited_buildable(seen.push(requested_key(inv[0])), rest);
        assert forall|i: int| 0 <= i < inv.len() implies participant_problem(#[trigger] inv[i]) is None by {
            if i > 0 {
                assert(inv[i] == rest[i - 1]);
            }
        }
    }
}

/// Law of meeting creation: every seat of a meeting laid out from an accepted request —
/// the owner's, the moderator's and each invited one — has a usable name: non-empty,
/// neither starting nor ending with whitespace.
pub proof fn lemma_every_seat_is_named(req: CreateMeetingRequest, owner_user_id: String, plan: MeetingPlan)
    requires
        meeting_request_problem(req) is None,
        plan_of(plan, req, owner_user_id),
    ensures
        forall|i: int| 0 <= i < plan.participants@.len() ==> is_seat_name(#[trigger] plan.participants@[i].name@),
{
    let ps = plan.participants@;
    let inv = req.invited_participants@;
    let owner_key = spec_participant_key(ParticipantKind::Human, trimmed(req.owner_name@));
    lemma_invited_buildable(seq![owner_key], inv);
    lemma_trimmed_is_trimmed(req.owner_name@);
    reveal_strlit("Moderator");
    assert forall|i: int| 0 <= i < ps.len() implies is_seat_name(#[trigger] ps[i].name@) by {
        if i == 0 {
            assert(ps[0].name@ == trimmed(req.owner_name@));
        } else if i == 1 {
            assert(ps[1].name@ == MODERATOR_NAME@);
        } else {
            assert(built_from(ps[(i - 2) + 2], inv[i - 2], MeetingRole::Participant));
            assert(participant_problem(inv[i - 2]) is None);
            lemma_built_seats_are_named(ps[i], inv[i - 2], MeetingRole::Participant);
        }
    }
}

} // verus!
