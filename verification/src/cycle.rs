//! The poll-retry-persist control loop: its state, one cycle's decision,
//! and the failure-budget laws.
//!
//! The caller runs the timer and the network; this module decides. Each
//! cycle hands in the fetch outcome and gets back either how long to sleep
//! before the next fetch, or the order to terminate. A successful cycle
//! resets the consecutive-failure counter and sleeps the full interval; a
//! failed cycle counts against the budget and sleeps half the interval,
//! unless the budget is now exhausted, which ends the loop fatally.

use vstd::prelude::*;

verus! {

/// What one fetch cycle reported.
#[derive(Clone, Copy, Debug, PartialEq, Eq, Structural)]
pub enum FetchOutcome {
    Success,
    Failure,
}

/// What the loop does next: sleep this many seconds and fetch again, or
/// terminate fatally.
#[derive(Clone, Copy, Debug, PartialEq, Eq, Structural)]
pub enum LoopDirective {
    Continue { sleep_secs: u64 },
    Terminate,
}

/// The consecutive-failure counter after a run of cycles: zero after a
/// success, one more than before after a failure.
pub open spec fn counter_after(events: Seq<bool>) -> nat
    decreases events.len(),
{
    if events.len() == 0 {
        0
    } else if events.last() {
        0
    } else {
        counter_after(events.drop_last()) + 1
    }
}

/// The loop's state: the consecutive-failure counter, with the cycle
/// history it summarizes carried along as ghost evidence.
pub struct LoopState {
    pub failures: u8,
    pub history: Ghost<Seq<bool>>,
}

impl LoopState {
    /// The counter is exactly the consecutive-failure count of the history.
    pub open spec fn wf(self) -> bool {
        self.failures as nat == counter_after(self.history@)
    }

    /// A fresh loop: no cycles run, no failures counted.
    pub fn new() -> (s: LoopState)
        ensures
            s.failures == 0,
            s.history@ == Seq::<bool>::empty(),
            s.wf(),
    {
        LoopState { failures: 0, history: Ghost(Seq::empty()) }
    }

    /// Decides one cycle. A success resets the counter and orders a sleep of
    /// the full interval. A failure raises the counter by one; if that
    /// exhausts the budget the loop terminates — then and only then — and
    /// otherwise a sleep of half the interval is ordered. The counter never
    /// passes the budget.
    pub fn advance(&mut self, outcome: FetchOutcome, timing: u64, max_retry: u8) -> (d:
        LoopDirective)
        requires
            old(self).wf(),
            old(self).failures < max_retry,
        ensures
            final(self).wf(),
            final(self).history@ == old(self).history@.push(outcome is Success),
            outcome is Success ==> final(self).failures == 0 && d == (LoopDirective::Continue {
                sleep_secs: timing,
            }),
            outcome is Failure ==> final(self).failures == old(self).failures + 1,
            final(self).failures <= max_retry,
            d is Terminate <==> final(self).failures == max_retry,
            outcome is Failure && final(self).failures < max_retry ==> d
                == (LoopDirective::Continue { sleep_secs: timing / 2 }),
    {
        proof {
            assert(self.history@.push(outcome is Success).drop_last() =~= self.history@);
        }
        match outcome {
            FetchOutcome::Success => {
                self.failures = 0;
                self.history = Ghost(self.history@.push(true));
                LoopDirective::Continue { sleep_secs: timing }
            },
            FetchOutcome::Failure => {
                self.failures = self.failures + 1;
                self.history = Ghost(self.history@.push(false));
                if self.failures >= max_retry {
                    LoopDirective::Terminate
                } else {
                    LoopDirective::Continue { sleep_secs: timing / 2 }
                }
            },
        }
    }
}

/// One successful cycle clears the counter, however many failures came
/// before it.
pub proof fn lemma_success_resets_counter(events: Seq<bool>)
    requires
        events.len() > 0,
        events.last(),
    ensures
        counter_after(events) == 0,
{
}

/// The failure budget is exact: as long as every earlier cycle left the
/// counter below the budget, one more cycle leaves it at most the budget —
/// the counter can reach the budget, which terminates the loop, but can
/// never pass it.
pub proof fn lemma_budget_never_exceeded(events: Seq<bool>, max: nat)
    requires
        max > 0,
        forall|i: int| 0 <= i < events.len() ==> counter_after(#[trigger] events.take(i)) < max,
    ensures
        counter_after(events) <= max,
{
    if events.len() > 0 {
        let n = events.len() as int;
        assert(counter_after(events.take(n - 1)) < max);
        assert(events.drop_last() =~= events.take(n - 1));
    }
}

} // verus!
