//! Running a plan of steps: the steps run in order, and the first step that
//! fails ends the command, which then fails with that step.

use vstd::prelude::*;

verus! {

/// Where the run of a plan of `total` steps stands: `done` steps have
/// succeeded, and `failed` is the step that failed, if one did.
#[derive(Debug)]
pub struct PlanRun {
    pub total: usize,
    pub done: usize,
    pub failed: Option<usize>,
}

/// How a finished run ended: every step succeeded, or the given step failed.
#[derive(Clone, Copy, PartialEq, Eq, Structural, Debug)]
pub enum PlanOutcome {
    Succeeded,
    FailedAt(usize),
}

impl PlanRun {
    /// The run's state is consistent: no more steps succeeded than there are,
    /// and a failed step is the one after the last that succeeded.
    pub open spec fn wf(&self) -> bool {
        &&& self.done <= self.total
        &&& match self.failed {
            Some(i) => i == self.done && i < self.total,
            None => true,
        }
    }

    /// The step to run next: the one after those that succeeded, while no
    /// step has failed and some remain.
    pub open spec fn spec_next(&self) -> Option<usize> {
        if self.failed is None && self.done < self.total {
            Some(self.done)
        } else {
            None
        }
    }

    /// A run of a plan of `total` steps, before any step.
    pub fn new(total: usize) -> (r: PlanRun)
        ensures
            r.wf(),
            r.total == total,
            r.done == 0,
            r.failed is None,
    {
        PlanRun { total, done: 0, failed: None }
    }

    /// The step to run next, if any.
    pub fn next(&self) -> (r: Option<usize>)
        requires
            self.wf(),
        ensures
            r == self.spec_next(),
    {
        if self.failed.is_none() && self.done < self.total {
            Some(self.done)
        } else {
            None
        }
    }

    /// Records whether the step that `next` gave succeeded: a success moves on
    /// to the following step, a failure ends the run at this step.
    pub fn record(&mut self, succeeded: bool)
        requires
            old(self).wf(),
            old(self).spec_next() is Some,
        ensures
            final(self).wf(),
            final(self).total == old(self).total,
            succeeded ==> final(self).done == old(self).done + 1 && final(self).failed is None,
            !succeeded ==> final(self).done == old(self).done && final(self).failed == Some(
                old(self).done,
            ),
    {
        if succeeded {
            self.done = self.done + 1;
        } else {
            self.failed = Some(self.done);
        }
    }

    /// How the run ended, once no step is left to run.
    pub fn outcome(&self) -> (r: PlanOutcome)
        requires
            self.wf(),
            self.spec_next() is None,
        ensures
            match self.failed {
                Some(i) => r == PlanOutcome::FailedAt(i),
                None => r == PlanOutcome::Succeeded && self.done == self.total,
            },
    {
        match self.failed {
            Some(i) => PlanOutcome::FailedAt(i),
            None => PlanOutcome::Succeeded,
        }
    }
}

/// The state after recording, in order, the outcomes of the steps run.
pub open spec fn after_outcomes(total: usize, outcomes: Seq<bool>) -> PlanRun
    decreases outcomes.len(),
{
    if outcomes.len() == 0 {
        PlanRun { total, done: 0, failed: None }
    } else {
        let before = after_outcomes(total, outcomes.drop_last());
        if outcomes.last() {
            PlanRun { total, done: (before.done + 1) as usize, failed: None }
        } else {
            PlanRun { total, done: before.done, failed: Some(before.done) }
        }
    }
}

/// The steps run in order and the first failure ends the command: when steps
/// are recorded as `next` hands them out, the steps that ran are the first
/// ones, each that succeeded led to the next, no step runs after a failure,
/// and the command succeeds only when all `total` steps did.
pub proof fn lemma_failure_stops_the_plan(total: usize, outcomes: Seq<bool>)
    requires
        forall|k: int| 0 <= k < outcomes.len() ==> #[trigger] after_outcomes(
            total,
            outcomes.take(k),
        ).spec_next() is Some,
    ensures
        after_outcomes(total, outcomes).wf(),
        forall|k: int| 0 <= k < outcomes.len() ==> #[trigger] after_outcomes(total, outcomes.take(k)).spec_next()
            == Some(k as usize),
        forall|k: int| 0 <= k < outcomes.len() - 1 ==> outcomes[k],
        (exists|k: int| 0 <= k < outcomes.len() && !outcomes[k]) ==> after_outcomes(
            total,
            outcomes,
        ).spec_next() is None && after_outcomes(total, outcomes).failed == Some(
            (outcomes.len() - 1) as usize,
        ),
        after_outcomes(total, outcomes).failed is None ==> after_outcomes(total, outcomes).done
            == outcomes.len(),
    decreases outcomes.len(),
{
    if outcomes.len() > 0 {
        let prev = outcomes.drop_last();
        assert forall|k: int| 0 <= k < prev.len() implies #[trigger] after_outcomes(
            total,
            prev.take(k),
        ).spec_next() is Some by {
            assert(prev.take(k) =~= outcomes.take(k));
        }
        lemma_failure_stops_the_plan(total, prev);
        assert(outcomes.take(prev.len() as int) =~= prev);
        assert(after_outcomes(total, outcomes.take(prev.len() as int)).spec_next() is Some);
        assert forall|k: int| 0 <= k < outcomes.len() implies #[trigger] after_outcomes(
            total,
            outcomes.take(k),
        ).spec_next() == Some(k as usize) by {
            if k < prev.len() {
                assert(prev.take(k) =~= outcomes.take(k));
            }
        }
        assert forall|k: int| 0 <= k < outcomes.len() - 1 implies outcomes[k] by {
            if k < prev.len() - 1 {
                assert(prev[k] == outcomes[k]);
            } else {
                assert(prev.last() == outcomes[k]);
            }
        }
        if exists|k: int| 0 <= k < outcomes.len() && !outcomes[k] {
            let k = choose|k: int| 0 <= k < outcomes.len() && !outcomes[k];
            if k < prev.len() {
                assert(prev[k] == outcomes[k]);
            }
        }
    }
}

} // verus!
