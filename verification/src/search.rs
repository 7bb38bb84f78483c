//! The search for the worker count with the highest throughput: powers of
//! the base while the throughput grows, then one by one inside the last
//! bracket.

use crate::results::{lemma_rate_le_transitive, Results, ResultsView};
use crate::sampler::{measurement, SampleError};
use vstd::arithmetic::power::{lemma_pow_positive, pow};
use vstd::prelude::*;

verus! {

/// Where the search stands.
#[derive(Clone, Copy, Debug, PartialEq, Eq, Structural)]
pub enum Phase {
    /// Sampling at growing powers of the base.
    Growing,
    /// Sampling one by one between the last power that improved and the
    /// power that did not.
    Refining,
    /// Over; the best sample is the answer.
    Done,
    /// Over; the next power of the base does not fit the worker count.
    Exhausted,
    /// Over; a sample failed.
    Failed,
}

/// Why a search ended without an answer.
#[derive(Clone, Copy, Debug, PartialEq, Eq, Structural)]
pub enum SearchError {
    /// The next worker count would overflow.
    SearchSpaceExhausted,
    /// A worker of some sample failed.
    WorkerFailed,
}

/// What the driver of the search must do next.
#[derive(Clone, Copy, Debug, PartialEq, Eq, Structural)]
pub enum Action {
    /// Run one sample with this many workers and hand in its outcome.
    Sample(u64),
    /// Stop; the best sample is the answer.
    Finish,
    /// Stop with this error.
    Abort(SearchError),
}

/// The state of a search, as mathematics sees it.
pub struct SearchView {
    pub base: nat,
    pub phase: Phase,
    /// While growing, the power of the base at which the pending sample
    /// runs; afterwards, the power at which growth ended.
    pub exponent: nat,
    /// The worker count of the sample that is asked for.
    pub pending: nat,
    /// While refining, the worker count at which growth ended; the scan
    /// stays below it.
    pub upper: nat,
    /// The worker count at which the best sample was taken.
    pub best_count: nat,
    /// The best sample so far.
    pub best: Option<ResultsView>,
}

impl SearchView {
    /// A search begins by growing, at the first power of the base.
    pub open spec fn start(base: nat) -> SearchView {
        SearchView {
            base,
            phase: Phase::Growing,
            exponent: 1,
            pending: base,
            upper: 0,
            best_count: 0,
            best: None,
        }
    }

    /// The search still asks for samples.
    pub open spec fn running(self) -> bool {
        self.phase is Growing || self.phase is Refining
    }

    /// `sample` is strictly faster than the best so far. The first sample
    /// always is.
    pub open spec fn improves(self, sample: ResultsView) -> bool {
        match self.best {
            None => true,
            Some(best) => sample.rate().gt(best.rate()),
        }
    }

    /// The state after the pending sample came back; `None` stands for a
    /// sample with a failed worker.
    pub open spec fn observe(self, outcome: Option<ResultsView>) -> SearchView {
        match (self.phase, outcome) {
            (Phase::Growing, Some(sample)) => if self.improves(sample) {
                if self.pending * self.base <= u64::MAX {
                    SearchView {
                        exponent: self.exponent + 1,
                        pending: self.pending * self.base,
                        best_count: self.pending,
                        best: Some(sample),
                        ..self
                    }
                } else {
                    SearchView {
                        phase: Phase::Exhausted,
                        best_count: self.pending,
                        best: Some(sample),
                        ..self
                    }
                }
            } else if self.best_count + 1 < self.pending {
                SearchView {
                    phase: Phase::Refining,
                    pending: self.best_count + 1,
                    upper: self.pending,
                    ..self
                }
            } else {
                SearchView { phase: Phase::Done, upper: self.pending, ..self }
            },
            (Phase::Refining, Some(sample)) => if self.improves(sample) {
                if self.pending + 1 < self.upper {
                    SearchView {
                        pending: self.pending + 1,
                        best_count: self.pending,
                        best: Some(sample),
                        ..self
                    }
                } else {
                    SearchView {
                        phase: Phase::Done,
                        best_count: self.pending,
                        best: Some(sample),
                        ..self
                    }
                }
            } else {
                SearchView { phase: Phase::Done, ..self }
            },
            (Phase::Growing, None) => SearchView { phase: Phase::Failed, ..self },
            (Phase::Refining, None) => SearchView { phase: Phase::Failed, ..self },
            _ => self,
        }
    }

    /// What the driver must do in this state.
    pub open spec fn action(self) -> Action {
        match self.phase {
            Phase::Growing => Action::Sample(self.pending as u64),
            Phase::Refining => Action::Sample(self.pending as u64),
            Phase::Done => Action::Finish,
            Phase::Exhausted => Action::Abort(SearchError::SearchSpaceExhausted),
            Phase::Failed => Action::Abort(SearchError::WorkerFailed),
        }
    }

    /// What the search returns: nothing while it runs, then the best sample
    /// or the error.
    pub open spec fn result(self) -> Option<Result<ResultsView, SearchError>> {
        match self.phase {
            Phase::Growing => None,
            Phase::Refining => None,
            Phase::Done => match self.best {
                Some(best) => Some(Ok(best)),
                None => None,
            },
            Phase::Exhausted => Some(Err(SearchError::SearchSpaceExhausted)),
            Phase::Failed => Some(Err(SearchError::WorkerFailed)),
        }
    }

    /// The state is one that a search can be in.
    pub open spec fn wf(self) -> bool {
        &&& self.base <= u64::MAX
        &&& self.pending <= u64::MAX
        &&& self.upper <= u64::MAX
        &&& self.best_count <= u64::MAX
        &&& self.exponent >= 1
        &&& (self.best matches Some(best) ==> best.wf())
        &&& match self.phase {
            Phase::Growing => {
                &&& self.pending == pow(self.base as int, self.exponent)
                &&& (self.exponent == 1 <==> self.best is None)
                &&& (self.best is Some ==> self.best_count == pow(
                    self.base as int,
                    (self.exponent - 1) as nat,
                ))
            },
            Phase::Refining => {
                &&& self.best is Some
                &&& self.upper == pow(self.base as int, self.exponent)
                &&& pow(self.base as int, (self.exponent - 1) as nat) <= self.best_count
                &&& self.pending == self.best_count + 1
                &&& self.pending < self.upper
            },
            Phase::Done => self.best is Some,
            Phase::Exhausted => self.best is Some,
            Phase::Failed => true,
        }
    }

    /// A bound on the number of samples that the search can still ask for.
    pub open spec fn remaining(self) -> nat {
        match self.phase {
            Phase::Growing => (u64::MAX - self.pending + u64::MAX + 2) as nat,
            Phase::Refining => (self.upper - self.pending) as nat,
            _ => 0,
        }
    }
}

/// A search starts in a state that a search can be in.
pub proof fn lemma_start_wf(base: nat)
    requires
        base <= u64::MAX,
    ensures
        SearchView::start(base).wf(),
        SearchView::start(base).action() == Action::Sample(base as u64),
{
    reveal(pow);
    assert(pow(base as int, 1) == base * pow(base as int, 0));
}

/// Whatever comes back, the search stays in a state that a search can be in.
pub proof fn lemma_observe_wf(s: SearchView, outcome: Option<ResultsView>)
    requires
        s.wf(),
        outcome matches Some(sample) ==> sample.wf(),
    ensures
        s.observe(outcome).wf(),
{
    if s.phase is Growing && outcome is Some && s.improves(outcome->Some_0) && s.pending * s.base
        <= u64::MAX {
        reveal(pow);
        assert(pow(s.base as int, s.exponent + 1) == s.base * pow(s.base as int, s.exponent));
        assert(s.pending * s.base == s.base * s.pending) by (nonlinear_arith);
    }
}

/// The search ends: over a base of at least two, every outcome that is
/// handed in while the search runs lowers the bound on the samples that it
/// can still ask for. Growth is bounded by the overflow of the worker
/// count, refinement by the bracket that growth left.
pub proof fn lemma_observe_decreases_remaining(s: SearchView, outcome: Option<ResultsView>)
    requires
        s.wf(),
        s.base >= 2,
        s.running(),
    ensures
        s.observe(outcome).remaining() < s.remaining(),
{
    if s.phase is Growing {
        lemma_pow_positive(s.base as int, s.exponent);
        assert(s.pending * s.base >= s.pending * 2) by (nonlinear_arith)
            requires
                s.pending >= 0,
                s.base >= 2,
        ;
    }
}

/// A sample becomes the best exactly when it is strictly faster than the
/// best before it; otherwise the best stays, and that sample ends the phase.
pub proof fn lemma_regression_ends_phase(s: SearchView, sample: ResultsView)
    requires
        s.wf(),
        s.running(),
    ensures
        s.improves(sample) ==> s.observe(Some(sample)).best == Some(sample) && s.observe(
            Some(sample),
        ).best_count == s.pending,
        !s.improves(sample) ==> s.observe(Some(sample)).best == s.best && s.observe(
            Some(sample),
        ).best_count == s.best_count,
        !s.improves(sample) && s.phase is Growing ==> s.observe(Some(sample)).phase is Refining
            || s.observe(Some(sample)).phase is Done,
        !s.improves(sample) && s.phase is Refining ==> s.observe(Some(sample)).phase is Done,
{
}

/// The best sample never gets slower.
pub proof fn lemma_best_never_worsens(s: SearchView, outcome: Option<ResultsView>)
    requires
        s.wf(),
        s.best is Some,
    ensures
        s.observe(outcome).best is Some,
        s.best->Some_0.rate().le(s.observe(outcome).best->Some_0.rate()),
{
}

/// While growing, the samples run at the powers of the base, one after
/// the other, from the first power on.
pub proof fn lemma_growth_by_powers(s: SearchView, sample: ResultsView)
    requires
        s.wf(),
        s.phase is Growing,
    ensures
        s.action() == Action::Sample(pow(s.base as int, s.exponent) as u64),
        s.observe(Some(sample)).phase is Growing ==> s.observe(Some(sample)).exponent
            == s.exponent + 1,
        s.observe(Some(sample)).phase is Exhausted <==> s.improves(sample) && pow(
            s.base as int,
            s.exponent + 1,
        ) > u64::MAX,
{
    reveal(pow);
    assert(pow(s.base as int, s.exponent + 1) == s.base * pow(s.base as int, s.exponent));
    assert(s.pending * s.base == s.base * s.pending) by (nonlinear_arith);
}

/// While refining, the samples run strictly between the last power of the
/// base that improved and the power that did not, one worker more each time.
pub proof fn lemma_refinement_in_bracket(s: SearchView, sample: ResultsView)
    requires
        s.wf(),
        s.phase is Refining,
    ensures
        s.exponent >= 1,
        pow(s.base as int, (s.exponent - 1) as nat) < s.pending < pow(s.base as int, s.exponent),
        s.action() == Action::Sample(s.pending as u64),
        s.observe(Some(sample)).phase is Refining ==> s.observe(Some(sample)).pending == s.pending
            + 1,
        s.observe(Some(sample)).phase is Refining || s.observe(Some(sample)).phase is Done,
{
}

/// The state of a search over `base` after the outcomes of its samples, in
/// the order in which they were handed in.
pub open spec fn run(base: nat, outcomes: Seq<Option<ResultsView>>) -> SearchView
    decreases outcomes.len(),
{
    if outcomes.len() == 0 {
        SearchView::start(base)
    } else {
        run(base, outcomes.drop_last()).observe(outcomes.last())
    }
}

/// The samples of a run are figures that a sample can give.
pub open spec fn measured(outcomes: Seq<Option<ResultsView>>) -> bool {
    forall|i: int| 0 <= i < outcomes.len() ==> ((#[trigger] outcomes[i]) matches Some(sample)
        ==> sample.wf())
}

/// Every run leaves the search in a state that a search can be in.
pub proof fn lemma_run_wf(base: nat, outcomes: Seq<Option<ResultsView>>)
    requires
        base <= u64::MAX,
        measured(outcomes),
    ensures
        run(base, outcomes).wf(),
    decreases outcomes.len(),
{
    if outcomes.len() == 0 {
        lemma_start_wf(base);
    } else {
        lemma_run_wf(base, outcomes.drop_last());
        lemma_observe_wf(run(base, outcomes.drop_last()), outcomes.last());
    }
}

/// The best sample of a run is at least as fast as every sample that the
/// search took in while it ran.
pub proof fn lemma_best_is_fastest(base: nat, outcomes: Seq<Option<ResultsView>>, i: int)
    requires
        base <= u64::MAX,
        measured(outcomes),
        0 <= i < outcomes.len(),
        run(base, outcomes.take(i)).running(),
        outcomes[i] is Some,
    ensures
        run(base, outcomes).best is Some,
        outcomes[i]->Some_0.rate().le(run(base, outcomes).best->Some_0.rate()),
    decreases outcomes.len(),
{
    let before = run(base, outcomes.drop_last());
    lemma_run_wf(base, outcomes.drop_last());
    if i == outcomes.len() - 1 {
        assert(outcomes.take(i) =~= outcomes.drop_last());
    } else {
        assert(outcomes.drop_last().take(i) =~= outcomes.take(i));
        lemma_best_is_fastest(base, outcomes.drop_last(), i);
        lemma_best_never_worsens(before, outcomes.last());
        lemma_rate_le_transitive(
            outcomes[i]->Some_0.rate(),
            before.best->Some_0.rate(),
            run(base, outcomes).best->Some_0.rate(),
        );
    }
}

/// A search over a base of at least two that still runs after a number of
/// outcomes has used up that many of the samples that it could ask for at
/// its start: no search runs for ever.
pub proof fn lemma_run_is_bounded(base: nat, outcomes: Seq<Option<ResultsView>>)
    requires
        2 <= base <= u64::MAX,
        measured(outcomes),
        run(base, outcomes).running(),
    ensures
        outcomes.len() + run(base, outcomes).remaining() <= SearchView::start(base).remaining(),
    decreases outcomes.len(),
{
    if outcomes.len() > 0 {
        let before = run(base, outcomes.drop_last());
        lemma_run_wf(base, outcomes.drop_last());
        lemma_run_base(base, outcomes.drop_last());
        lemma_run_is_bounded(base, outcomes.drop_last());
        lemma_observe_decreases_remaining(before, outcomes.last());
    }
}

/// A run keeps the base that it started with, and once over it stays over.
pub proof fn lemma_run_base(base: nat, outcomes: Seq<Option<ResultsView>>)
    ensures
        run(base, outcomes).base == base,
        forall|outcome: Option<ResultsView>|
            !run(base, outcomes).running() ==> #[trigger] run(base, outcomes).observe(outcome)
                == run(base, outcomes),
    decreases outcomes.len(),
{
    if outcomes.len() > 0 {
        lemma_run_base(base, outcomes.drop_last());
    }
}

/// Whether `sample` is strictly faster than the best so far; the first
/// sample always is.
fn improves_on(best: &Option<Results>, sample: &Results) -> (b: bool)
    ensures
        sample@.wf(),
        b == match *best {
            None => true,
            Some(results) => sample@.rate().gt(results@.rate()),
        },
{
    proof {
        use_type_invariant(sample);
    }
    match best {
        None => true,
        Some(results) => sample.throughput().exceeds(&results.throughput()),
    }
}

/// A search in progress. The driver asks it what to do, runs the sample
/// that it asks for, and hands in the outcome, until it says to stop.
pub struct Search {
    base: u64,
    phase: Phase,
    exponent: Ghost<nat>,
    pending: u64,
    upper: u64,
    best_count: u64,
    best: Option<Results>,
}

impl View for Search {
    type V = SearchView;

    closed spec fn view(&self) -> SearchView {
        SearchView {
            base: self.base as nat,
            phase: self.phase,
            exponent: self.exponent@,
            pending: self.pending as nat,
            upper: self.upper as nat,
            best_count: self.best_count as nat,
            best: match self.best {
                Some(results) => Some(results@),
                None => None,
            },
        }
    }
}

impl Search {
    #[verifier::type_invariant]
    closed spec fn inv(&self) -> bool {
        self@.wf()
    }

    /// A new search over the powers of `base`.
    pub fn new(base: u64) -> (s: Search)
        ensures
            s@ == SearchView::start(base as nat),
            s@.wf(),
    {
        proof {
            lemma_start_wf(base as nat);
        }
        Search {
            base,
            phase: Phase::Growing,
            exponent: Ghost(1),
            pending: base,
            upper: 0,
            best_count: 0,
            best: None,
        }
    }

    /// What the driver must do next.
    pub fn action(&self) -> (a: Action)
        ensures
            self@.wf(),
            a == self@.action(),
    {
        proof {
            use_type_invariant(self);
        }
        match self.phase {
            Phase::Growing => Action::Sample(self.pending),
            Phase::Refining => Action::Sample(self.pending),
            Phase::Done => Action::Finish,
            Phase::Exhausted => Action::Abort(SearchError::SearchSpaceExhausted),
            Phase::Failed => Action::Abort(SearchError::WorkerFailed),
        }
    }

    pub fn phase(&self) -> (p: Phase)
        ensures
            p == self@.phase,
    {
        self.phase
    }

    /// The best sample so far.
    pub fn best(&self) -> (b: Option<&Results>)
        ensures
            self@.wf(),
            b matches Some(results) ==> self@.best == Some(results@),
            b is None ==> self@.best is None,
    {
        proof {
            use_type_invariant(self);
        }
        self.best.as_ref()
    }

    /// The worker count at which the best sample was taken, once there is one.
    pub fn best_worker_count(&self) -> (n: Option<u64>)
        ensures
            self@.best is Some ==> n == Some(self@.best_count as u64),
            self@.best is None ==> n is None,
    {
        match &self.best {
            Some(_) => Some(self.best_count),
            None => None,
        }
    }

    /// Takes in the outcome of the sample that was asked for. A sample
    /// whose figures could not be published counts like any other; one
    /// with a failed worker ends the search.
    pub fn observe(self, outcome: Result<Results, SampleError>) -> (next: Search)
        ensures
            next@ == self@.observe(measurement(outcome)),
            next@.wf(),
    {
        proof {
            use_type_invariant(&self);
        }
        let sample = match outcome {
            Ok(results) => Some(results),
            Err(SampleError::PublishFailed(results)) => Some(results),
            Err(SampleError::WorkerFailed) => None,
        };
        let ghost model = self@;
        let ghost seen = measurement(outcome);
        let Search { base, phase, exponent, pending, upper, best_count, best } = self;
        match (phase, sample) {
            (Phase::Growing, Some(sample)) => {
                let improves = improves_on(&best, &sample);
                proof {
                    lemma_observe_wf(model, seen);
                }
                if improves {
                    match pending.checked_mul(base) {
                        Some(power) => Search {
                            base,
                            phase,
                            exponent: Ghost((exponent@ + 1) as nat),
                            pending: power,
                            upper,
                            best_count: pending,
                            best: Some(sample),
                        },
                        None => Search {
                            base,
                            phase: Phase::Exhausted,
                            exponent,
                            pending,
                            upper,
                            best_count: pending,
                            best: Some(sample),
                        },
                    }
                } else if best_count < pending && best_count + 1 < pending {
                    Search {
                        base,
                        phase: Phase::Refining,
                        exponent,
                        pending: best_count + 1,
                        upper: pending,
                        best_count,
                        best,
                    }
                } else {
                    Search { base, phase: Phase::Done, exponent, pending, upper: pending, best_count, best }
                }
            },
            (Phase::Refining, Some(sample)) => {
                let improves = improves_on(&best, &sample);
                proof {
                    lemma_observe_wf(model, seen);
                }
                if improves {
                    if pending + 1 < upper {
                        Search {
                            base,
                            phase,
                            exponent,
                            pending: pending + 1,
                            upper,
                            best_count: pending,
                            best: Some(sample),
                        }
                    } else {
                        Search {
                            base,
                            phase: Phase::Done,
                            exponent,
                            pending,
                            upper,
                            best_count: pending,
                            best: Some(sample),
                        }
                    }
                } else {
                    Search { base, phase: Phase::Done, exponent, pending, upper, best_count, best }
                }
            },
            (Phase::Growing, None) => Search {
                base,
                phase: Phase::Failed,
                exponent,
                pending,
                upper,
                best_count,
                best,
            },
            (Phase::Refining, None) => Search {
                base,
                phase: Phase::Failed,
                exponent,
                pending,
                upper,
                best_count,
                best,
            },
            (phase, _) => Search { base, phase, exponent, pending, upper, best_count, best },
        }
    }

    /// What the search returns: `None` while it still asks for samples,
    /// then the best sample or the error that ended it.
    pub fn result(self) -> (r: Option<Result<Results, SearchError>>)
        ensures
            r is None <==> self@.result() is None,
            r matches Some(Ok(best)) ==> self@.result() == Some(
                Ok::<ResultsView, SearchError>(best@),
            ),
            r matches Some(Err(e)) ==> self@.result() == Some(Err::<ResultsView, SearchError>(e)),
    {
        proof {
            use_type_invariant(&self);
        }
        match self.phase {
            Phase::Growing => None,
            Phase::Refining => None,
            Phase::Done => match self.best {
                Some(best) => Some(Ok(best)),
                None => None,
            },
            Phase::Exhausted => Some(Err(SearchError::SearchSpaceExhausted)),
            Phase::Failed => Some(Err(SearchError::WorkerFailed)),
        }
    }
}

} // verus!
