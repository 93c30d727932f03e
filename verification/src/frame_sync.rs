//! The frame synchronizer: it holds the current completion token — an
//! opaque marker that all GPU work submitted so far has finished — and
//! chains each tick's submission onto it. Tokens are replaced every tick:
//! the previous token is consumed to produce the next, so submitted work is
//! totally ordered. The synchronizer also reclaims CPU-side bookkeeping for
//! work the device has already finished, without blocking.

use vstd::prelude::*;

verus! {

/// An opaque marker that GPU work up to a point has finished executing.
/// `serial` is the number of commits that produced it: the initial,
/// trivially satisfied token has serial 0, and the token returned by the
/// n-th commit has serial n.
#[derive(Clone, Copy, PartialEq, Eq, Structural, Debug)]
pub struct CompletionToken {
    pub serial: u64,
}

/// What the device reported when a tick's work was submitted, presented and
/// flushed.
#[derive(Clone, Copy, PartialEq, Eq, Structural, Debug)]
pub enum SubmitOutcome {
    /// Submission, presentation and flush all succeeded.
    Flushed,
    /// Presentation reported the swapchain stale; the chain must be rebuilt.
    OutOfDate,
    /// Any other flush failure; a single dropped frame, not fatal.
    SoftError,
}

/// What a commit did, mirroring the outcome it absorbed.
#[derive(Clone, Copy, PartialEq, Eq, Structural, Debug)]
pub enum CommitResult {
    /// The work is in flight; the new token tracks its completion.
    Submitted,
    /// The swapchain is stale: the synchronizer reset to a fresh token and
    /// the caller must schedule a rebuild.
    StaleChain,
    /// Miscellaneous flush failure: the synchronizer reset to a fresh
    /// token; rendering continues next tick.
    SoftReset,
}

/// The synchronizer. `current` is the token every new submission chains
/// from; `reclaimed` is the serial up to which CPU-side bookkeeping for
/// finished work has been released. Work with a serial in
/// `(reclaimed, current.serial]` is still in flight.
pub struct FrameSync {
    pub current: CompletionToken,
    pub reclaimed: u64,
}

impl FrameSync {
    /// Bookkeeping can never outrun what was submitted.
    pub open spec fn wf(self) -> bool {
        self.reclaimed <= self.current.serial
    }

    /// How many submitted command sequences have not been reclaimed yet.
    pub open spec fn in_flight(self) -> int {
        self.current.serial - self.reclaimed
    }

    /// A fresh synchronizer: a trivially satisfied "already done" token and
    /// nothing in flight.
    pub fn new() -> (s: FrameSync)
        ensures
            s.wf(),
            s.current.serial == 0,
            s.reclaimed == 0,
            s.in_flight() == 0,
    {
        FrameSync { current: CompletionToken { serial: 0 }, reclaimed: 0 }
    }

    /// What reclamation does: bookkeeping advances monotonically to the
    /// serial the device reports finished, but never past what was
    /// submitted and never backwards.
    pub open spec fn spec_reclaim(self, completed: u64) -> FrameSync {
        FrameSync {
            current: self.current,
            reclaimed: if completed > self.current.serial {
                self.current.serial
            } else if completed < self.reclaimed {
                self.reclaimed
            } else {
                completed
            },
        }
    }

    /// Begin a tick: take the current token for chaining and opportunistically
    /// reclaim bookkeeping for work the device reports finished (serials up
    /// to `completed`). Non-blocking cleanup, not a wait; the token itself
    /// is unchanged and is consumed only by [`FrameSync::commit`].
    pub fn begin_tick(&mut self, completed: u64) -> (t: CompletionToken)
        ensures
            *final(self) == old(self).spec_reclaim(completed),
            t == final(self).current,
            old(self).wf() ==> final(self).wf(),
    {
        if completed > self.current.serial {
            self.reclaimed = self.current.serial;
        } else if completed > self.reclaimed {
            self.reclaimed = completed;
        }
        self.current
    }

    /// What a commit does to the synchronizer: every commit consumes the
    /// previous token and produces the next one in the total order. A
    /// successful flush leaves the new work in flight; a stale or soft
    /// failure resets to a fresh token with nothing outstanding (the frame
    /// is dropped).
    pub open spec fn spec_commit(self, outcome: SubmitOutcome) -> FrameSync
        recommends
            self.current.serial < u64::MAX,
    {
        let serial = (self.current.serial + 1) as u64;
        FrameSync {
            current: CompletionToken { serial },
            reclaimed: if outcome == SubmitOutcome::Flushed {
                self.reclaimed
            } else {
                serial
            },
        }
    }

    /// Commit a tick: consume `prev` — which must be the token this
    /// synchronizer handed out, so no tick ever chains from a token older
    /// than the immediately preceding one — and produce the next token.
    /// On a successful flush the submission is in flight under the new
    /// token's serial. On `OutOfDate` the synchronizer resets to a fresh
    /// token and the caller must mark the swapchain for rebuild; on any
    /// other flush failure it resets likewise and rendering continues.
    pub fn commit(&mut self, prev: CompletionToken, outcome: SubmitOutcome) -> (r: CommitResult)
        requires
            old(self).wf(),
            prev == old(self).current,
            old(self).current.serial < u64::MAX,
        ensures
            *final(self) == old(self).spec_commit(outcome),
            final(self).wf(),
            final(self).current.serial == prev.serial + 1,
            (r == CommitResult::Submitted <==> outcome == SubmitOutcome::Flushed),
            (r == CommitResult::StaleChain <==> outcome == SubmitOutcome::OutOfDate),
            (r == CommitResult::SoftReset <==> outcome == SubmitOutcome::SoftError),
            outcome == SubmitOutcome::Flushed ==> final(self).in_flight() == old(self).in_flight()
                + 1,
            outcome != SubmitOutcome::Flushed ==> final(self).in_flight() == 0,
    {
        let serial: u64 = prev.serial + 1;
        self.current = CompletionToken { serial };
        match outcome {
            SubmitOutcome::Flushed => CommitResult::Submitted,
            SubmitOutcome::OutOfDate => {
                self.reclaimed = serial;
                CommitResult::StaleChain
            },
            SubmitOutcome::SoftError => {
                self.reclaimed = serial;
                CommitResult::SoftReset
            },
        }
    }
}

/// The synchronizer after a run of commits with the given outcomes, in
/// order.
pub open spec fn run_commits(s: FrameSync, outcomes: Seq<SubmitOutcome>) -> FrameSync
    decreases outcomes.len(),
{
    if outcomes.len() == 0 {
        s
    } else {
        run_commits(s, outcomes.drop_last()).spec_commit(outcomes.last())
    }
}

/// Completion tokens form a total order: every commit, whatever its
/// outcome, derives the new token from the previous one, so after n commits
/// the current token's serial has advanced by exactly n.
pub proof fn lemma_token_chain(s: FrameSync, outcomes: Seq<SubmitOutcome>)
    requires
        s.wf(),
        s.current.serial + outcomes.len() <= u64::MAX,
    ensures
        run_commits(s, outcomes).current.serial == s.current.serial + outcomes.len(),
        run_commits(s, outcomes).wf(),
    decreases outcomes.len(),
{
    if outcomes.len() > 0 {
        lemma_token_chain(s, outcomes.drop_last());
    }
}

/// No command sequence is leaked: however many ticks have run, once the
/// device reports everything submitted so far finished, the next tick's
/// reclamation leaves nothing in flight.
pub proof fn lemma_reclaim_all(s: FrameSync)
    requires
        s.wf(),
    ensures
        s.spec_reclaim(s.current.serial).in_flight() == 0,
{
}

/// The tokens seen along a run of commits are strictly ordered: the token
/// after the first i commits is strictly older than the token after the
/// first j commits whenever i < j. In particular all tokens in a run are
/// distinct, and no tick ever submits work chained from a token older than
/// the immediately preceding one.
pub proof fn lemma_tokens_strictly_ordered(s: FrameSync, outcomes: Seq<SubmitOutcome>, i: int, j: int)
    requires
        s.wf(),
        s.current.serial + outcomes.len() <= u64::MAX,
        0 <= i < j <= outcomes.len(),
    ensures
        run_commits(s, outcomes.take(i)).current.serial < run_commits(
            s,
            outcomes.take(j),
        ).current.serial,
{
    lemma_token_chain(s, outcomes.take(i));
    lemma_token_chain(s, outcomes.take(j));
}

} // verus!
