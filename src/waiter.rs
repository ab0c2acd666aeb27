//! The confirmation waiter: the decisions taken while a soft-acceptance poll
//! and a durable-acceptance poll race for one submitted operation.
use crate::classify::{classifies, process_rpc_error};
use crate::error::{Error, RawError};
use vstd::prelude::*;

verus! {

/// How far the waiter has seen an operation get.
#[derive(Clone, Copy, Debug, PartialEq, Eq, Structural)]
pub enum Acceptance {
    Unprocessed,
    SoftAccepted,
    DurablyAccepted,
    Failed,
}

/// The result of one of the two polls.
#[derive(Debug, PartialEq, Eq)]
pub enum PollOutcome {
    /// The soft-acceptance poll ended.
    Soft(Result<(), RawError>),
    /// The durable-acceptance poll ended.
    Durable(Result<(), RawError>),
}

/// What the waiter decided on a poll's result.
#[derive(Debug, PartialEq, Eq)]
pub enum Decision {
    /// Keep waiting for the durable-acceptance poll; `announce_soft` is set
    /// the one time soft acceptance is first seen.
    KeepWaiting { announce_soft: bool },
    /// Durable acceptance was seen: the wait ends in success and the other
    /// poll is abandoned.
    Finalized,
    /// A poll failed: the wait ends with this failure and the other poll is
    /// abandoned.
    Abort(Error),
    /// The wait had already ended; the result changes nothing.
    Settled,
}

pub open spec fn is_terminal(s: Acceptance) -> bool {
    s is DurablyAccepted || s is Failed
}

/// The level the waiter moves to from `s` on `ev`.
pub open spec fn next_level(s: Acceptance, ev: PollOutcome) -> Acceptance {
    if is_terminal(s) {
        s
    } else {
        match ev {
            PollOutcome::Soft(Ok(())) => Acceptance::SoftAccepted,
            PollOutcome::Durable(Ok(())) => Acceptance::DurablyAccepted,
            _ => Acceptance::Failed,
        }
    }
}

/// Whether the step from `s` on `ev` is the first sight of soft acceptance.
pub open spec fn announces(s: Acceptance, ev: PollOutcome) -> bool {
    s is Unprocessed && ev matches PollOutcome::Soft(Ok(()))
}

/// `d` is the decision the waiter takes at level `s` on `ev`.
pub open spec fn decides(s: Acceptance, ev: PollOutcome, d: Decision) -> bool {
    if is_terminal(s) {
        d is Settled
    } else {
        match ev {
            PollOutcome::Soft(Ok(())) => d == Decision::KeepWaiting { announce_soft: announces(s, ev) },
            PollOutcome::Durable(Ok(())) => d is Finalized,
            PollOutcome::Soft(Err(e)) => d matches Decision::Abort(f) && classifies(e, f),
            PollOutcome::Durable(Err(e)) => d matches Decision::Abort(f) && classifies(e, f),
        }
    }
}

/// The level reached from `s` after the poll results `evs`, in order.
pub open spec fn run(s: Acceptance, evs: Seq<PollOutcome>) -> Acceptance
    decreases evs.len(),
{
    if evs.len() == 0 {
        s
    } else {
        run(next_level(s, evs[0]), evs.drop_first())
    }
}

/// How many times soft acceptance is announced from `s` over `evs`.
pub open spec fn announcements(s: Acceptance, evs: Seq<PollOutcome>) -> nat
    decreases evs.len(),
{
    if evs.len() == 0 {
        0
    } else {
        (if announces(s, evs[0]) { 1nat } else { 0nat }) + announcements(
            next_level(s, evs[0]),
            evs.drop_first(),
        )
    }
}

/// Rank of a level in the order Unprocessed < SoftAccepted < DurablyAccepted.
pub open spec fn rank(s: Acceptance) -> nat {
    match s {
        Acceptance::Unprocessed => 0,
        Acceptance::SoftAccepted => 1,
        Acceptance::DurablyAccepted => 2,
        Acceptance::Failed => 3,
    }
}

/// The waiter for one submitted operation.
pub struct ConfirmationWaiter {
    level: Acceptance,
}

impl ConfirmationWaiter {
    pub closed spec fn level_spec(&self) -> Acceptance {
        self.level
    }

    /// A waiter that has seen nothing yet.
    pub fn new() -> (r: Self)
        ensures
            r.level_spec() is Unprocessed,
    {
        ConfirmationWaiter { level: Acceptance::Unprocessed }
    }

    pub fn level(&self) -> (r: Acceptance)
        ensures
            r == self.level_spec(),
    {
        self.level
    }

    /// Whether the wait has ended, in success or in failure.
    pub fn is_done(&self) -> (r: bool)
        ensures
            r == is_terminal(self.level_spec()),
    {
        match self.level {
            Acceptance::DurablyAccepted | Acceptance::Failed => true,
            _ => false,
        }
    }

    /// Takes in the result of one poll. Success is decided only on durable
    /// acceptance; a failure of either poll ends the wait at once; once the
    /// wait has ended, nothing changes any more.
    pub fn observe(&mut self, ev: PollOutcome) -> (d: Decision)
        ensures
            final(self).level_spec() == next_level(old(self).level_spec(), ev),
            decides(old(self).level_spec(), ev, d),
    {
        if self.is_done() {
            return Decision::Settled;
        }
        match ev {
            PollOutcome::Soft(Ok(())) => {
                let first = match self.level {
                    Acceptance::Unprocessed => true,
                    _ => false,
                };
                self.level = Acceptance::SoftAccepted;
                Decision::KeepWaiting { announce_soft: first }
            },
            PollOutcome::Durable(Ok(())) => {
                self.level = Acceptance::DurablyAccepted;
                Decision::Finalized
            },
            PollOutcome::Soft(Err(e)) => {
                self.level = Acceptance::Failed;
                Decision::Abort(process_rpc_error(e))
            },
            PollOutcome::Durable(Err(e)) => {
                self.level = Acceptance::Failed;
                Decision::Abort(process_rpc_error(e))
            },
        }
    }
}

/// Without a successful durable-acceptance poll the waiter never reaches
/// durable acceptance, however many soft acceptances it sees.
pub proof fn lemma_no_success_without_durable(s: Acceptance, evs: Seq<PollOutcome>)
    requires
        !(s is DurablyAccepted),
        forall|i: int| 0 <= i < evs.len() ==> !(#[trigger] evs[i] matches PollOutcome::Durable(Ok(()))),
    ensures
        !(run(s, evs) is DurablyAccepted),
    decreases evs.len(),
{
    if evs.len() > 0 {
        let rest = evs.drop_first();
        assert forall|i: int| 0 <= i < rest.len() implies !(#[trigger] rest[i] matches PollOutcome::Durable(
            Ok(()),
        )) by {
            assert(rest[i] == evs[i + 1]);
        }
        lemma_no_success_without_durable(next_level(s, evs[0]), rest);
    }
}

/// Once the wait has ended, no further poll result changes its level.
pub proof fn lemma_terminal_is_final(s: Acceptance, evs: Seq<PollOutcome>)
    requires
        is_terminal(s),
    ensures
        run(s, evs) == s,
    decreases evs.len(),
{
    if evs.len() > 0 {
        lemma_terminal_is_final(next_level(s, evs[0]), evs.drop_first());
    }
}

/// The level never goes back: each step keeps or raises the rank, with
/// failure ranked above every acceptance level.
pub proof fn lemma_level_monotonic(s: Acceptance, evs: Seq<PollOutcome>)
    ensures
        rank(run(s, evs)) >= rank(s),
    decreases evs.len(),
{
    if evs.len() > 0 {
        lemma_level_monotonic(next_level(s, evs[0]), evs.drop_first());
    }
}

/// Soft acceptance is announced at most once over any run, and never after
/// the first step away from the initial level.
pub proof fn lemma_soft_announced_once(s: Acceptance, evs: Seq<PollOutcome>)
    ensures
        announcements(s, evs) <= 1,
        !(s is Unprocessed) ==> announcements(s, evs) == 0,
    decreases evs.len(),
{
    if evs.len() > 0 {
        lemma_soft_announced_once(next_level(s, evs[0]), evs.drop_first());
    }
}

} // verus!
