//! Optimistic concurrency: a mutation loads an aggregate with its version, applies the
//! change and saves against that version, retrying the whole cycle when another writer
//! got there first.

use vstd::prelude::*;

verus! {

/// What came of saving against the version that was loaded.
#[derive(Clone, Debug, PartialEq, Eq)]
pub enum SaveOutcome {
    /// Saved.
    Saved,
    /// Another writer advanced the version in between.
    Conflict,
    /// The store failed, with this message.
    Backend(String),
}

/// What the mutation does next.
#[derive(Clone, Debug, PartialEq, Eq)]
pub enum MutationStep {
    /// Report the saved snapshot.
    Done,
    /// Load again and reapply the change.
    Retry,
    /// Fail with this message.
    Fail(String),
}

/// What a mutation does after a save: report on success, start over on a conflict, fail
/// with the store's message otherwise.
pub fn after_save(outcome: SaveOutcome) -> (step: MutationStep)
    ensures
        match outcome {
            SaveOutcome::Saved => step == MutationStep::Done,
            SaveOutcome::Conflict => step == MutationStep::Retry,
            SaveOutcome::Backend(message) => step == MutationStep::Fail(message),
        },
{
    match outcome {
        SaveOutcome::Saved => MutationStep::Done,
        SaveOutcome::Conflict => MutationStep::Retry,
        SaveOutcome::Backend(message) => MutationStep::Fail(message),
    }
}

} // verus!
