//! The concurrent run orchestrator's coordination core: the bounded-
//! concurrency scheduler with its ceiling invariant, and the reduction of the
//! per-site outcomes into the run-wide result.

use vstd::prelude::*;

use crate::pipeline::PipelineOutcome;

verus! {

/// The number of failures among the outcomes.
pub open spec fn count_failures(s: Seq<PipelineOutcome>) -> int
    decreases s.len(),
{
    if s.len() == 0 {
        0
    } else {
        count_failures(s.drop_last()) + if s.last().is_failure() {
            1int
        } else {
            0int
        }
    }
}

/// The identifiers of the failed sites, in outcome order.
pub open spec fn failed_names(s: Seq<PipelineOutcome>) -> Seq<Seq<char>>
    decreases s.len(),
{
    if s.len() == 0 {
        Seq::empty()
    } else {
        failed_names(s.drop_last()) + if s.last().is_failure() {
            seq![s.last().spec_site()]
        } else {
            Seq::empty()
        }
    }
}

/// The run's sole output: how many sites succeeded, how many failed, and
/// which.
pub struct RunResult {
    pub succeeded: usize,
    pub failed: usize,
    pub failed_sites: Vec<String>,
}

impl RunResult {
    /// The failure count matches the list of failed sites.
    pub open spec fn wf(&self) -> bool {
        self.failed == self.failed_sites@.len()
    }

    /// The run fails exactly when at least one site failed.
    pub open spec fn spec_run_failed(&self) -> bool {
        self.failed > 0
    }

    /// Whether the run as a whole failed: true exactly when at least one
    /// site's pipeline failed.
    pub fn run_failed(&self) -> (r: bool)
        ensures
            r == self.spec_run_failed(),
    {
        self.failed > 0
    }
}

/// Reduces the per-site outcomes into the run-wide result: every outcome is
/// counted exactly once, and the failed sites are listed in outcome order.
pub fn aggregate_outcomes(outcomes: &Vec<PipelineOutcome>) -> (r: RunResult)
    ensures
        r.wf(),
        r.succeeded + r.failed == outcomes@.len(),
        r.failed == count_failures(outcomes@),
        r.failed_sites@.len() == failed_names(outcomes@).len(),
        forall|i: int|
            0 <= i < r.failed_sites@.len() ==> (#[trigger] r.failed_sites@[i])@ == failed_names(
                outcomes@,
            )[i],
        r.spec_run_failed() <==> count_failures(outcomes@) > 0,
{
    let mut succeeded: usize = 0;
    let mut failed_sites: Vec<String> = Vec::new();
    let mut i: usize = 0;
    proof {
        assert(outcomes@.take(0) =~= Seq::<PipelineOutcome>::empty());
    }
    while i < outcomes.len()
        invariant
            0 <= i <= outcomes@.len(),
            succeeded + failed_sites@.len() == i,
            failed_sites@.len() == failed_names(outcomes@.take(i as int)).len(),
            succeeded == i - count_failures(outcomes@.take(i as int)),
            forall|j: int|
                0 <= j < failed_sites@.len() ==> (#[trigger] failed_sites@[j])@ == failed_names(
                    outcomes@.take(i as int),
                )[j],
        decreases outcomes@.len() - i,
    {
        proof {
            assert(outcomes@.take(i as int + 1).drop_last() =~= outcomes@.take(i as int));
            assert(outcomes@.take(i as int + 1).last() == outcomes@[i as int]);
        }
        let ghost prev = failed_sites@;
        match &outcomes[i] {
            PipelineOutcome::Success { .. } => {
                succeeded = succeeded + 1;
            },
            PipelineOutcome::Failure { site, .. } => {
                failed_sites.push(site.clone());
                proof {
                    assert(failed_sites@ =~= prev.push(failed_sites@.last()));
                    assert(failed_sites@.last()@ == outcomes@[i as int].spec_site());
                }
            },
        }
        i = i + 1;
    }
    proof {
        assert(outcomes@.take(outcomes@.len() as int) =~= outcomes@);
    }
    let failed = failed_sites.len();
    RunResult { succeeded, failed, failed_sites }
}

/// The scheduler of the run: pipelines launch while permits and sites remain,
/// each launched pipeline contributes exactly one outcome, and the number in
/// flight never passes the concurrency ceiling.
pub struct Scheduler {
    pub limit: usize,
    pub total: usize,
    pub launched: usize,
    pub outcomes: Vec<PipelineOutcome>,
}

impl Scheduler {
    /// The number of pipelines launched and not yet finished.
    pub open spec fn active(&self) -> int {
        self.launched - self.outcomes@.len()
    }

    /// The scheduler's invariant: a positive ceiling, no more outcomes than
    /// launches, no more launches than sites, and no more in flight than the
    /// ceiling.
    pub open spec fn wf(&self) -> bool {
        &&& 1 <= self.limit
        &&& self.outcomes@.len() <= self.launched <= self.total
        &&& self.active() <= self.limit
    }

    /// A fresh scheduler over `total` sites with concurrency ceiling
    /// `limit`.
    pub fn new(limit: usize, total: usize) -> (s: Scheduler)
        requires
            limit >= 1,
        ensures
            s.wf(),
            s.limit == limit,
            s.total == total,
            s.launched == 0,
            s.outcomes@.len() == 0,
    {
        Scheduler { limit, total, launched: 0, outcomes: Vec::new() }
    }

    /// Whether another pipeline may start: sites remain and a permit is
    /// free.
    pub open spec fn spec_can_launch(&self) -> bool {
        self.launched < self.total && self.active() < self.limit
    }

    pub fn can_launch(&self) -> (r: bool)
        requires
            self.wf(),
        ensures
            r == self.spec_can_launch(),
    {
        self.launched < self.total && self.launched - self.outcomes.len() < self.limit
    }

    /// Starts the next pipeline, taking a permit; returns the index of the
    /// site it runs for.
    pub fn launch(&mut self) -> (site: usize)
        requires
            old(self).wf(),
            old(self).spec_can_launch(),
        ensures
            final(self).wf(),
            site == old(self).launched,
            final(self).launched == old(self).launched + 1,
            final(self).limit == old(self).limit,
            final(self).total == old(self).total,
            final(self).outcomes == old(self).outcomes,
            final(self).active() == old(self).active() + 1,
            final(self).active() <= final(self).limit,
    {
        let site = self.launched;
        self.launched = self.launched + 1;
        site
    }

    /// Finishes one launched pipeline, releasing its permit and recording its
    /// outcome; every exit path of a pipeline ends here, success or failure.
    pub fn complete(&mut self, outcome: PipelineOutcome)
        requires
            old(self).wf(),
            old(self).active() > 0,
        ensures
            final(self).wf(),
            final(self).outcomes@ == old(self).outcomes@.push(outcome),
            final(self).launched == old(self).launched,
            final(self).limit == old(self).limit,
            final(self).total == old(self).total,
            final(self).active() == old(self).active() - 1,
    {
        self.outcomes.push(outcome);
    }

    /// Whether every site's pipeline has finished.
    pub open spec fn spec_done(&self) -> bool {
        self.outcomes@.len() == self.total
    }

    pub fn is_done(&self) -> (r: bool)
        ensures
            r == self.spec_done(),
    {
        self.outcomes.len() == self.total
    }

    /// Reduces the finished run's outcomes — exactly one per scheduled site —
    /// into the run-wide result.
    pub fn run_result(&self) -> (r: RunResult)
        requires
            self.wf(),
            self.spec_done(),
        ensures
            r.wf(),
            self.outcomes@.len() == self.total,
            r.succeeded + r.failed == self.total,
            r.failed == count_failures(self.outcomes@),
            r.failed_sites@.len() == failed_names(self.outcomes@).len(),
            forall|i: int|
                0 <= i < r.failed_sites@.len() ==> (#[trigger] r.failed_sites@[i])@
                    == failed_names(self.outcomes@)[i],
            r.spec_run_failed() <==> count_failures(self.outcomes@) > 0,
    {
        aggregate_outcomes(&self.outcomes)
    }
}

/// Law (the ceiling invariant): however pipelines were launched and finished,
/// a well-formed scheduler never has more pipelines in flight than its
/// concurrency ceiling.
pub proof fn lemma_ceiling_invariant(s: Scheduler)
    requires
        s.wf(),
    ensures
        s.active() <= s.limit,
{
}

/// Law: a finished run holds exactly one outcome per scheduled site.
pub proof fn lemma_one_outcome_per_site(s: Scheduler)
    requires
        s.wf(),
        s.spec_done(),
    ensures
        s.outcomes@.len() == s.total,
        s.launched == s.total,
{
}

} // verus!
