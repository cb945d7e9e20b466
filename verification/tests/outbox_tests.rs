use wiab_app::outbox_publisher::{PassAction, PublishOutcome, PublishPass};

/// Runs a pass over events `1..=n`, answering each publish with the next outcome, and
/// returns the ids offered and the final action.
fn run(n: i64, outcomes: &[PublishOutcome]) -> (Vec<i64>, PassAction) {
    let mut pass = PublishPass::start((1..=n).collect());
    let mut offered = Vec::new();
    let mut answers = outcomes.iter();
    loop {
        match pass.next_action() {
            PassAction::Publish(index) => {
                offered.push(pass.event_id(index));
                pass.record(*answers.next().expect("an answer for every publish"));
            }
            action => return (offered, action),
        }
    }
}

#[test]
fn publishes_everything_waiting_and_forgets_it() {
    let (offered, action) = run(2, &[PublishOutcome::Accepted, PublishOutcome::Accepted]);
    assert_eq!(offered, vec![1, 2]);
    assert!(matches!(action, PassAction::MarkPublished(ids) if ids == vec![1, 2]));
}

#[test]
fn an_empty_outbox_does_nothing() {
    let (offered, action) = run(0, &[]);
    assert!(offered.is_empty());
    assert!(matches!(action, PassAction::Idle));
}

#[test]
fn a_failure_stops_the_pass_rather_than_skipping_the_event() {
    let (offered, action) = run(
        3,
        &[PublishOutcome::Accepted, PublishOutcome::Refused, PublishOutcome::Accepted],
    );
    assert_eq!(offered, vec![1, 2]);
    assert!(matches!(action, PassAction::MarkPublished(ids) if ids == vec![1]));
}

#[test]
fn an_event_is_forgotten_only_after_the_broker_accepted_it() {
    let (offered, action) = run(1, &[PublishOutcome::Refused]);
    assert_eq!(offered, vec![1]);
    assert!(matches!(action, PassAction::MarkPublished(ids) if ids.is_empty()));
}

#[test]
fn an_unencodable_event_fails_the_pass_and_retires_nothing() {
    let (offered, action) = run(3, &[PublishOutcome::Accepted, PublishOutcome::Unencodable]);
    assert_eq!(offered, vec![1, 2]);
    assert!(matches!(action, PassAction::Abort));
}

#[test]
fn a_full_batch_is_taken_whole() {
    let outcomes = vec![PublishOutcome::Accepted; wiab_app::outbox_publisher::BATCH as usize];
    let (offered, action) = run(wiab_app::outbox_publisher::BATCH, &outcomes);
    assert_eq!(offered.len(), 100);
    assert!(matches!(action, PassAction::MarkPublished(ids) if ids.len() == 100 && ids[99] == 100));
}
