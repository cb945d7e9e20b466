//! Draining the outbox: which event to hand the broker next, and which events to retire
//! once a pass is over.
//!
//! A pass takes the oldest waiting events and offers them to the broker one at a time,
//! oldest first. An event is retired only after the broker accepted it, so a crash between
//! publishing and retiring resends rather than loses; and a refusal stops the pass rather
//! than skipping the event, so an observer never sees an event without the ones before it.

use vstd::prelude::*;

verus! {

/// How many events one pass takes.
pub const BATCH: i64 = 100;

/// What came of offering one event to the broker.
#[derive(Clone, Copy, Debug, PartialEq, Eq, Structural)]
pub enum PublishOutcome {
    /// The broker took it.
    Accepted,
    /// The broker refused it.
    Refused,
    /// The event could not be encoded into a payload.
    Unencodable,
}

/// How far a pass has come.
#[derive(Clone, Copy, Debug, PartialEq, Eq, Structural)]
pub enum PassState {
    /// Still offering events.
    Open,
    /// The broker refused an event; what it accepted before is still retired.
    Stopped,
    /// An event could not be encoded; the pass fails and retires nothing.
    Aborted,
}

/// One pass over the outbox: the ids of the events it took, oldest first; how many of them
/// the broker has accepted; and those accepted ids.
pub struct PublishPass {
    pending: Vec<i64>,
    next: usize,
    published: Vec<i64>,
    state: PassState,
}

/// A pass, as values.
pub struct PassView {
    pub pending: Seq<i64>,
    pub next: nat,
    pub published: Seq<i64>,
    pub state: PassState,
}

/// What the pass asks for next.
pub enum PassAction {
    /// Offer the event at this position of the batch to the broker.
    Publish(usize),
    /// Retire these events, then report how many were published.
    MarkPublished(Vec<i64>),
    /// Nothing was waiting: report zero, retiring nothing.
    Idle,
    /// Fail the pass, retiring nothing.
    Abort,
}

/// What the pass asks for next, as values.
pub enum PassActionView {
    Publish(nat),
    MarkPublished(Seq<i64>),
    Idle,
    Abort,
}

impl View for PublishPass {
    type V = PassView;

    closed spec fn view(&self) -> PassView {
        PassView {
            pending: self.pending@,
            next: self.next as nat,
            published: self.published@,
            state: self.state,
        }
    }
}

impl View for PassAction {
    type V = PassActionView;

    open spec fn view(&self) -> PassActionView {
        match self {
            PassAction::Publish(i) => PassActionView::Publish(*i as nat),
            PassAction::MarkPublished(ids) => PassActionView::MarkPublished(ids@),
            PassAction::Idle => PassActionView::Idle,
            PassAction::Abort => PassActionView::Abort,
        }
    }
}

/// A pass is well formed: it has accepted a prefix of its batch, and that prefix is what
/// it will retire.
pub open spec fn pass_wf(p: PassView) -> bool {
    &&& p.next <= p.pending.len()
    &&& p.published == p.pending.take(p.next as int)
}

/// A fresh pass over the events `pending`.
pub open spec fn spec_start(pending: Seq<i64>) -> PassView {
    PassView { pending, next: 0, published: seq![], state: PassState::Open }
}

/// What a pass asks for next: nothing when the batch was empty; to fail when an event
/// could not be encoded; the next event while the broker keeps accepting; otherwise to
/// retire what was accepted.
pub open spec fn spec_next_action(p: PassView) -> PassActionView {
    if p.pending.len() == 0 {
        PassActionView::Idle
    } else if p.state == PassState::Aborted {
        PassActionView::Abort
    } else if p.state == PassState::Open && p.next < p.pending.len() {
        PassActionView::Publish(p.next)
    } else {
        PassActionView::MarkPublished(p.published)
    }
}

/// The pass after the broker's answer about the event it was offered.
pub open spec fn spec_record(p: PassView, outcome: PublishOutcome) -> PassView {
    match outcome {
        PublishOutcome::Accepted => PassView {
            next: p.next + 1,
            published: p.published.push(p.pending[p.next as int]),
            ..p
        },
        PublishOutcome::Refused => PassView { state: PassState::Stopped, ..p },
        PublishOutcome::Unencodable => PassView { state: PassState::Aborted, ..p },
    }
}

impl PublishPass {
    pub closed spec fn wf(&self) -> bool {
        &&& pass_wf(self@)
        &&& self.next <= self.pending@.len()
        &&& self.pending@.len() <= BATCH
    }

    /// A pass over the events `pending`, oldest first: at most one batch of them, as the
    /// outbox hands out at most `BATCH` events at a time.
    pub fn start(pending: Vec<i64>) -> (p: PublishPass)
        requires
            pending@.len() <= BATCH,
        ensures
            p.wf(),
            p@ == spec_start(pending@),
            p@.pending.len() <= BATCH,
    {
        let p = PublishPass { pending, next: 0, published: Vec::new(), state: PassState::Open };
        assert(p@.pending.take(0) =~= Seq::<i64>::empty());
        p
    }

    /// The id of the event at position `i` of the batch.
    pub fn event_id(&self, i: usize) -> (id: i64)
        requires
            i < self@.pending.len(),
        ensures
            id == self@.pending[i as int],
    {
        self.pending[i]
    }

    /// What the pass asks for next.
    pub fn next_action(&self) -> (a: PassAction)
        requires
            self.wf(),
        ensures
            a@ == spec_next_action(self@),
            a matches PassAction::MarkPublished(ids) ==> ids@.len() <= BATCH,
            a matches PassAction::Publish(i) ==> i < BATCH,
    {
        if self.pending.len() == 0 {
            PassAction::Idle
        } else if self.state == PassState::Aborted {
            PassAction::Abort
        } else if self.state == PassState::Open && self.next < self.pending.len() {
            PassAction::Publish(self.next)
        } else {
            PassAction::MarkPublished(self.published.clone())
        }
    }

    /// Records the broker's answer about the event the pass last asked to publish.
    pub fn record(&mut self, outcome: PublishOutcome)
        requires
            old(self).wf(),
            spec_next_action(old(self)@) is Publish,
        ensures
            final(self).wf(),
            final(self)@ == spec_record(old(self)@, outcome),
    {
        match outcome {
            PublishOutcome::Accepted => {
                let len = self.pending.len();
                assert(self.next < len);
                let id = self.pending[self.next];
                self.published.push(id);
                self.next = self.next + 1;
                assert(self.published@ =~= self.pending@.take(self.next as int));
            },
            PublishOutcome::Refused => {
                self.state = PassState::Stopped;
            },
            PublishOutcome::Unencodable => {
                self.state = PassState::Aborted;
            },
        }
    }
}


/// A pass fed the broker's answers `os`, in order, for as long as it asks to publish.
pub open spec fn feed(p: PassView, os: Seq<PublishOutcome>) -> PassView
    decreases os.len(),
{
    if os.len() > 0 && spec_next_action(p) is Publish {
        feed(spec_record(p, os[0]), os.drop_first())
    } else {
        p
    }
}

/// How many answers at the front of `os` are acceptances.
pub open spec fn leading_accepted(os: Seq<PublishOutcome>) -> nat
    decreases os.len(),
{
    if os.len() > 0 && os[0] == PublishOutcome::Accepted {
        1 + leading_accepted(os.drop_first())
    } else {
        0
    }
}

/// An open pass over `pending` that has had its first `i` events accepted.
pub open spec fn open_at(pending: Seq<i64>, i: nat) -> PassView {
    PassView { pending, next: i, published: pending.take(i as int), state: PassState::Open }
}

proof fn lemma_feed_from(pending: Seq<i64>, i: nat, os: Seq<PublishOutcome>)
    requires
        0 < pending.len(),
        i <= pending.len(),
        os.len() + i >= pending.len(),
    ensures
        ({
            let m = if i + leading_accepted(os) <= pending.len() {
                i + leading_accepted(os)
            } else {
                pending.len() as nat
            };
            let q = feed(open_at(pending, i), os);
            &&& m == pending.len() || os[m - i] == PublishOutcome::Refused ==> spec_next_action(q)
                == PassActionView::MarkPublished(pending.take(m as int))
            &&& m < pending.len() && os[m - i] == PublishOutcome::Unencodable ==> spec_next_action(q)
                == PassActionView::Abort
        }),
    decreases os.len(),
{
    let p = open_at(pending, i);
    if i == pending.len() {
        if os.len() > 0 {
            assert(!(spec_next_action(p) is Publish));
        }
        assert(pending.take(i as int) =~= pending.take(pending.len() as int));
    } else {
        assert(os.len() > 0);
        assert(spec_next_action(p) is Publish);
        let rest = os.drop_first();
        match os[0] {
            PublishOutcome::Accepted => {
                let r = spec_record(p, os[0]);
                assert(r.published =~= pending.take((i + 1) as int));
                assert(r == open_at(pending, i + 1));
                lemma_feed_from(pending, i + 1, rest);
                assert(leading_accepted(os) == 1 + leading_accepted(rest));
                let m = if i + leading_accepted(os) <= pending.len() {
                    i + leading_accepted(os)
                } else {
                    pending.len() as nat
                };
                if m < pending.len() {
                    assert(os[m - i] == rest[m - (i + 1)]);
                }
            },
            _ => {
                assert(leading_accepted(os) == 0);
                let r = spec_record(p, os[0]);
                assert(!(spec_next_action(r) is Publish));
                if rest.len() > 0 {
                    assert(feed(p, os) == feed(r, rest));
                }
            },
        }
    }
}

/// Law of a pass: fed the broker's answers for its whole batch, a pass over a non-empty
/// batch retires exactly the events the broker accepted before its first refusal, oldest
/// first — the refused event and everything after it stay waiting — and when an event
/// cannot be encoded before any refusal, it retires nothing.
pub proof fn lemma_pass_retires_accepted_prefix(pending: Seq<i64>, os: Seq<PublishOutcome>)
    requires
        0 < pending.len(),
        os.len() >= pending.len(),
    ensures
        ({
            let m = if leading_accepted(os) <= pending.len() {
                leading_accepted(os)
            } else {
                pending.len() as nat
            };
            let q = feed(spec_start(pending), os);
            &&& m == pending.len() || os[m as int] == PublishOutcome::Refused ==> spec_next_action(q)
                == PassActionView::MarkPublished(pending.take(m as int))
            &&& m < pending.len() && os[m as int] == PublishOutcome::Unencodable ==> spec_next_action(q)
                == PassActionView::Abort
        }),
{
    assert(spec_start(pending) == open_at(pending, 0)) by {
        assert(pending.take(0) =~= Seq::<i64>::empty());
    }
    lemma_feed_from(pending, 0, os);
}

/// Law of a pass: an empty batch asks for nothing — not even an empty retirement.
pub proof fn lemma_empty_pass_is_idle(pending: Seq<i64>)
    requires
        pending.len() == 0,
    ensures
        spec_next_action(spec_start(pending)) == PassActionView::Idle,
{
}

} // verus!
