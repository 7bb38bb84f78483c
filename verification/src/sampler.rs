//! One sample: a pool of workers that start together, run for a fixed
//! window, are told to stop, are joined in the order in which they were
//! created, and are added up.
//!
//! The sampler decides; whoever drives it does what it asks for (threads,
//! the barrier, the clock, the sink) and hands back what happened.

use crate::results::{
    lemma_total_units_push, total_units, Results, ResultsView, SampleDescriptor, WorkerResult,
};
use crate::worker::WorkerError;
use vstd::prelude::*;

verus! {

/// Why a sample gave no usable answer, or gave one that did not get out.
#[derive(Debug, PartialEq, Eq)]
pub enum SampleError {
    /// A worker failed: the counts of the others say nothing about the
    /// intended number of workers, so nothing is aggregated.
    WorkerFailed,
    /// The figures could not be published. The measurement itself stands
    /// and comes along.
    PublishFailed(Results),
}

/// How a sample ended, as mathematics sees it.
pub enum SampleOutcome {
    /// Measured and published.
    Published(ResultsView),
    /// Measured, but the sink refused the figures.
    Unpublished(ResultsView),
    /// A worker failed.
    WorkerFailed,
}

/// How the sample that returned `outcome` ended.
pub open spec fn outcome_of(outcome: Result<Results, SampleError>) -> SampleOutcome {
    match outcome {
        Ok(results) => SampleOutcome::Published(results@),
        Err(SampleError::PublishFailed(results)) => SampleOutcome::Unpublished(results@),
        Err(SampleError::WorkerFailed) => SampleOutcome::WorkerFailed,
    }
}

/// The measurement that an outcome of a sample carries, if any: a failed
/// publication still does, a failed worker does not.
pub open spec fn measurement(outcome: Result<Results, SampleError>) -> Option<ResultsView> {
    match outcome_of(outcome) {
        SampleOutcome::Published(figures) => Some(figures),
        SampleOutcome::Unpublished(figures) => Some(figures),
        SampleOutcome::WorkerFailed => None,
    }
}

/// The number of parties at the start barrier: every worker and the
/// orchestrating thread. `None` when that number does not fit a `usize`.
pub fn barrier_parties(worker_count: u64) -> (parties: Option<usize>)
    ensures
        worker_count + 1 <= usize::MAX ==> parties == Some((worker_count + 1) as usize),
        worker_count + 1 > usize::MAX ==> parties is None,
{
    if worker_count < usize::MAX as u64 {
        Some(worker_count as usize + 1)
    } else {
        None
    }
}

/// At least one worker of the sample failed.
pub open spec fn any_failed(outcomes: Seq<Result<WorkerResult, WorkerError>>) -> bool {
    exists|i: int| 0 <= i < outcomes.len() && (#[trigger] outcomes[i]) is Err
}

/// The workers' results, in the order of the workers.
pub open spec fn reported(outcomes: Seq<Result<WorkerResult, WorkerError>>) -> Seq<WorkerResult> {
    Seq::new(outcomes.len(), |i: int| outcomes[i]->Ok_0)
}

/// The figures of a sample whose workers reported `results` over a window
/// of `window_nanos` nanoseconds.
pub open spec fn figures(results: Seq<WorkerResult>, window_nanos: nat) -> ResultsView {
    ResultsView {
        worker_results: results,
        messages_total: total_units(results),
        duration_nanos: window_nanos,
    }
}

/// One more outcome fails the sample if it is a failure or one before it was.
pub proof fn lemma_any_failed_push(
    outcomes: Seq<Result<WorkerResult, WorkerError>>,
    outcome: Result<WorkerResult, WorkerError>,
)
    ensures
        any_failed(outcomes.push(outcome)) <==> any_failed(outcomes) || outcome is Err,
        outcome matches Ok(w) ==> reported(outcomes.push(outcome)) == reported(outcomes).push(w),
{
    let more = outcomes.push(outcome);
    if any_failed(outcomes) {
        let i = choose|i: int| 0 <= i < outcomes.len() && (#[trigger] outcomes[i]) is Err;
        assert(more[i] is Err);
    }
    if outcome is Err {
        assert(more[outcomes.len() as int] is Err);
    }
    if any_failed(more) {
        let i = choose|i: int| 0 <= i < more.len() && (#[trigger] more[i]) is Err;
        if i < outcomes.len() {
            assert(outcomes[i] is Err);
        }
    }
    if outcome is Ok {
        assert(reported(more) =~= reported(outcomes).push(outcome->Ok_0));
    }
}

/// The steps of a sample, in their order.
#[derive(Clone, Copy, Debug, PartialEq, Eq, Structural)]
pub enum Stage {
    /// The start barrier is to be made.
    Preparing,
    /// The workers are created, one after the other.
    Spawning,
    /// The orchestrator waits at the start barrier with the workers.
    Rendezvous,
    /// The sampling window runs.
    Sampling,
    /// The workers are told to stop, one after the other.
    Stopping,
    /// The workers are joined, in the order in which they were created.
    Joining,
    /// The figures go to the sink.
    Publishing,
    /// The sample is over.
    Finished,
}

/// What happened outside since the sampler's last action.
#[derive(Debug, PartialEq, Eq)]
pub enum SampleEvent {
    BarrierCreated,
    Spawned,
    BarrierReleased,
    WindowElapsed,
    /// The stop signal was sent; `delivered` is false when the worker had
    /// gone already.
    StopSent { delivered: bool },
    /// A worker was joined and handed back its outcome.
    Joined(Result<WorkerResult, WorkerError>),
    /// The sink took the figures, or not.
    Published(bool),
}

/// What the driver of the sample must do next.
#[derive(Clone, Copy, Debug, PartialEq, Eq, Structural)]
pub enum SampleAction {
    /// Make the start barrier for this number of parties.
    CreateBarrier { parties: usize },
    /// Create the worker with this id, with a stop-signal channel of its own.
    Spawn { worker_id: u64 },
    /// Wait at the start barrier.
    WaitAtBarrier,
    /// Sleep for the sampling window.
    Sleep { nanos: u64 },
    /// Send the stop signal to this worker.
    SendStop { worker_id: u64 },
    /// Join this worker.
    Join { worker_id: u64 },
    /// Hand the descriptor and the figures to the sink.
    Publish,
    /// Return the outcome.
    Return,
}

/// The state of a sample, as mathematics sees it.
pub struct SamplerView {
    pub descriptor: SampleDescriptor,
    pub window_nanos: nat,
    pub stage: Stage,
    /// The worker that the pending action is about.
    pub next: nat,
    /// What the workers joined so far handed back, in their order.
    pub outcomes: Seq<Result<WorkerResult, WorkerError>>,
    pub published: bool,
}

impl SamplerView {
    pub open spec fn worker_count(self) -> nat {
        self.descriptor.worker_count as nat
    }

    /// A sample begins with its barrier.
    pub open spec fn start(descriptor: SampleDescriptor, window_nanos: nat) -> SamplerView {
        SamplerView {
            descriptor,
            window_nanos,
            stage: Stage::Preparing,
            next: 0,
            outcomes: Seq::empty(),
            published: false,
        }
    }

    /// The state after `event`. An event that the stage does not wait for
    /// changes nothing.
    pub open spec fn next_state(self, event: SampleEvent) -> SamplerView {
        match (self.stage, event) {
            (Stage::Preparing, SampleEvent::BarrierCreated) => if self.worker_count() == 0 {
                SamplerView { stage: Stage::Rendezvous, ..self }
            } else {
                SamplerView { stage: Stage::Spawning, ..self }
            },
            (Stage::Spawning, SampleEvent::Spawned) => if self.next + 1 < self.worker_count() {
                SamplerView { next: self.next + 1, ..self }
            } else {
                SamplerView { stage: Stage::Rendezvous, next: 0, ..self }
            },
            (Stage::Rendezvous, SampleEvent::BarrierReleased) => SamplerView {
                stage: Stage::Sampling,
                ..self
            },
            (Stage::Sampling, SampleEvent::WindowElapsed) => if self.worker_count() == 0 {
                SamplerView { stage: Stage::Publishing, ..self }
            } else {
                SamplerView { stage: Stage::Stopping, ..self }
            },
            (Stage::Stopping, SampleEvent::StopSent { .. }) => if self.next + 1
                < self.worker_count() {
                SamplerView { next: self.next + 1, ..self }
            } else {
                SamplerView { stage: Stage::Joining, next: 0, ..self }
            },
            (Stage::Joining, SampleEvent::Joined(outcome)) => {
                let outcomes = self.outcomes.push(outcome);
                if self.next + 1 < self.worker_count() {
                    SamplerView { next: self.next + 1, outcomes, ..self }
                } else if any_failed(outcomes) {
                    SamplerView { stage: Stage::Finished, next: 0, outcomes, ..self }
                } else {
                    SamplerView { stage: Stage::Publishing, next: 0, outcomes, ..self }
                }
            },
            (Stage::Publishing, SampleEvent::Published(published)) => SamplerView {
                stage: Stage::Finished,
                published,
                ..self
            },
            _ => self,
        }
    }

    /// What the driver must do in this state.
    pub open spec fn action(self) -> SampleAction {
        match self.stage {
            Stage::Preparing => SampleAction::CreateBarrier {
                parties: (self.worker_count() + 1) as usize,
            },
            Stage::Spawning => SampleAction::Spawn { worker_id: self.next as u64 },
            Stage::Rendezvous => SampleAction::WaitAtBarrier,
            Stage::Sampling => SampleAction::Sleep { nanos: self.window_nanos as u64 },
            Stage::Stopping => SampleAction::SendStop { worker_id: self.next as u64 },
            Stage::Joining => SampleAction::Join { worker_id: self.next as u64 },
            Stage::Publishing => SampleAction::Publish,
            Stage::Finished => SampleAction::Return,
        }
    }

    /// The figures of the sample, once every worker is joined and none failed.
    pub open spec fn measured(self) -> Option<ResultsView> {
        if (self.stage is Publishing || self.stage is Finished) && !any_failed(self.outcomes) {
            Some(figures(reported(self.outcomes), self.window_nanos))
        } else {
            None
        }
    }

    /// How the sample ended; `None` while it is not over.
    pub open spec fn outcome(self) -> Option<SampleOutcome> {
        if !(self.stage is Finished) {
            None
        } else if any_failed(self.outcomes) {
            Some(SampleOutcome::WorkerFailed)
        } else if self.published {
            Some(SampleOutcome::Published(figures(reported(self.outcomes), self.window_nanos)))
        } else {
            Some(SampleOutcome::Unpublished(figures(reported(self.outcomes), self.window_nanos)))
        }
    }

    /// The units of the workers joined so far and of the one that `event`
    /// brings do not fit the total.
    pub open spec fn overflows(self, event: SampleEvent) -> bool {
        &&& self.stage is Joining
        &&& !any_failed(self.outcomes)
        &&& event matches SampleEvent::Joined(Ok(w))
        &&& total_units(reported(self.outcomes)) + w.units_completed > u64::MAX
    }

    /// The state is one that a sample can be in.
    pub open spec fn wf(self) -> bool {
        &&& self.worker_count() + 1 <= usize::MAX
        &&& 0 < self.window_nanos <= u64::MAX
        &&& (self.published ==> self.stage is Finished)
        &&& (!any_failed(self.outcomes) ==> total_units(reported(self.outcomes)) <= u64::MAX)
        &&& match self.stage {
            Stage::Preparing => self.next == 0 && self.outcomes.len() == 0,
            Stage::Spawning => self.next < self.worker_count() && self.outcomes.len() == 0,
            Stage::Rendezvous => self.next == 0 && self.outcomes.len() == 0,
            Stage::Sampling => self.next == 0 && self.outcomes.len() == 0,
            Stage::Stopping => self.next < self.worker_count() && self.outcomes.len() == 0,
            Stage::Joining => self.next < self.worker_count() && self.outcomes.len() == self.next,
            Stage::Publishing => {
                &&& self.next == 0
                &&& self.outcomes.len() == self.worker_count()
                &&& !any_failed(self.outcomes)
            },
            Stage::Finished => self.next == 0 && self.outcomes.len() == self.worker_count(),
        }
    }
}

/// A sample starts in a state that a sample can be in.
pub proof fn lemma_sampler_start_wf(descriptor: SampleDescriptor, window_nanos: nat)
    requires
        descriptor.worker_count + 1 <= usize::MAX,
        0 < window_nanos <= u64::MAX,
    ensures
        SamplerView::start(descriptor, window_nanos).wf(),
{
    assert(reported(Seq::<Result<WorkerResult, WorkerError>>::empty()) =~= Seq::<
        WorkerResult,
    >::empty());
}

/// Whatever happens, a sample stays in a state that a sample can be in,
/// as long as its total fits.
pub proof fn lemma_sampler_next_wf(s: SamplerView, event: SampleEvent)
    requires
        s.wf(),
        !s.overflows(event),
    ensures
        s.next_state(event).wf(),
{
    if s.stage is Joining {
        if let SampleEvent::Joined(outcome) = event {
            lemma_any_failed_push(s.outcomes, outcome);
            if let Ok(w) = outcome {
                lemma_total_units_push(reported(s.outcomes), w);
            }
        }
    }
}

/// The steps of a sample follow one another in one order only. The
/// barrier is made for all workers and the orchestrator; the orchestrator
/// goes to the barrier when the last worker is created; the window starts
/// when the barrier releases; the first stop signal goes out when the
/// window is over; and the first worker is joined when the last stop
/// signal is sent.
pub proof fn lemma_stages_in_order(s: SamplerView, event: SampleEvent)
    requires
        s.wf(),
    ensures
        ({
            let n = s.next_state(event);
            &&& s.stage is Preparing ==> s.action() == SampleAction::CreateBarrier {
                parties: (s.worker_count() + 1) as usize,
            }
            &&& n.stage is Spawning && !(s.stage is Spawning) ==> s.stage is Preparing && n.next
                == 0
            &&& n.stage is Spawning && s.stage is Spawning ==> n.next == s.next || n.next == s.next
                + 1
            &&& n.stage is Rendezvous && !(s.stage is Rendezvous) ==> (s.stage is Spawning && s.next
                + 1 == s.worker_count()) || (s.stage is Preparing && s.worker_count() == 0)
            &&& n.stage is Sampling && !(s.stage is Sampling) ==> s.stage is Rendezvous && event
                is BarrierReleased
            &&& n.stage is Stopping && !(s.stage is Stopping) ==> s.stage is Sampling && event
                is WindowElapsed && n.next == 0
            &&& n.stage is Joining && !(s.stage is Joining) ==> s.stage is Stopping && s.next + 1
                == s.worker_count() && n.next == 0
            &&& n.stage is Publishing && !(s.stage is Publishing) ==> (s.stage is Joining && s.next
                + 1 == s.worker_count()) || (s.stage is Sampling && s.worker_count() == 0)
            &&& n.stage is Finished && !(s.stage is Finished) ==> s.stage is Publishing || (
            s.stage is Joining && s.next + 1 == s.worker_count())
            &&& n.stage is Preparing ==> s.stage is Preparing
        }),
{
}

/// Sending a stop signal is best effort: whether it arrived changes nothing.
pub proof fn lemma_stop_is_best_effort(s: SamplerView, one: bool, other: bool)
    ensures
        s.next_state(SampleEvent::StopSent { delivered: one }) == s.next_state(
            SampleEvent::StopSent { delivered: other },
        ),
{
}

/// A failure is final: once a joined worker has failed, nothing that
/// follows brings figures, and the sample ends with `WorkerFailed`.
pub proof fn lemma_failure_is_final(s: SamplerView, event: SampleEvent)
    requires
        s.wf(),
        !s.overflows(event),
    ensures
        any_failed(s.outcomes) ==> any_failed(s.next_state(event).outcomes),
        s.stage is Joining && (event matches SampleEvent::Joined(Err(_))) ==> any_failed(
            s.next_state(event).outcomes,
        ),
        any_failed(s.outcomes) ==> s.measured() is None && !(s.stage is Publishing),
        any_failed(s.outcomes) && s.stage is Finished ==> s.outcome() == Some(
            SampleOutcome::WorkerFailed,
        ),
{
    if s.stage is Joining {
        if let SampleEvent::Joined(outcome) = event {
            lemma_any_failed_push(s.outcomes, outcome);
        }
    }
}

/// The figures of a sample hold one result for each worker, in the order
/// in which the workers were joined, and their total is the sum of the
/// units of these results: none counted twice, none lost.
pub proof fn lemma_figures_add_up(s: SamplerView)
    requires
        s.wf(),
        s.measured() is Some,
    ensures
        s.measured()->Some_0.wf(),
        s.measured()->Some_0.worker_results == reported(s.outcomes),
        s.measured()->Some_0.worker_results.len() == s.worker_count(),
        s.measured()->Some_0.messages_total == total_units(reported(s.outcomes)),
        s.measured()->Some_0.duration_nanos == s.window_nanos,
        s.stage is Finished ==> s.outcome() == Some(
            if s.published {
                SampleOutcome::Published(s.measured()->Some_0)
            } else {
                SampleOutcome::Unpublished(s.measured()->Some_0)
            },
        ),
{
}

/// A sample without workers is measured all the same, and counts nothing.
pub proof fn lemma_no_workers_no_messages(s: SamplerView)
    requires
        s.wf(),
        s.worker_count() == 0,
    ensures
        !any_failed(s.outcomes),
        s.stage is Publishing || s.stage is Finished ==> s.measured() is Some
            && s.measured()->Some_0.messages_total == 0,
        !(s.stage is Spawning) && !(s.stage is Stopping) && !(s.stage is Joining),
{
    assert(reported(s.outcomes) =~= Seq::<WorkerResult>::empty());
}

/// The state of a sample after the events of its run, in their order.
pub open spec fn sample_run(start: SamplerView, events: Seq<SampleEvent>) -> SamplerView
    decreases events.len(),
{
    if events.len() == 0 {
        start
    } else {
        sample_run(start, events.drop_last()).next_state(events.last())
    }
}

/// No event of the run brings a count with which the total no longer fits.
pub open spec fn run_fits(start: SamplerView, events: Seq<SampleEvent>) -> bool {
    forall|i: int|
        0 <= i < events.len() ==> !(#[trigger] sample_run(start, events.take(i))).overflows(
            events[i],
        )
}

/// Every run leaves the sample in a state that a sample can be in.
pub proof fn lemma_sample_run_wf(start: SamplerView, events: Seq<SampleEvent>)
    requires
        start.wf(),
        run_fits(start, events),
    ensures
        sample_run(start, events).wf(),
    decreases events.len(),
{
    if events.len() > 0 {
        let before = events.drop_last();
        assert forall|i: int| 0 <= i < before.len() implies !(#[trigger] sample_run(
            start,
            before.take(i),
        )).overflows(before[i]) by {
            assert(before.take(i) =~= events.take(i));
        }
        lemma_sample_run_wf(start, before);
        assert(events.take(events.len() - 1) =~= before);
        lemma_sampler_next_wf(sample_run(start, before), events.last());
    }
}

/// If any one worker hands back a failure when it is joined, the sample
/// gives no figures and, once over, returns `WorkerFailed`, however many
/// other workers succeeded.
pub proof fn lemma_one_failure_fails_the_sample(
    start: SamplerView,
    events: Seq<SampleEvent>,
    i: int,
)
    requires
        start.wf(),
        run_fits(start, events),
        0 <= i < events.len(),
        sample_run(start, events.take(i)).stage is Joining,
        events[i] matches SampleEvent::Joined(Err(_)),
    ensures
        any_failed(sample_run(start, events).outcomes),
        sample_run(start, events).measured() is None,
        sample_run(start, events).stage is Finished ==> sample_run(start, events).outcome()
            == Some(SampleOutcome::WorkerFailed),
    decreases events.len(),
{
    let before = events.drop_last();
    assert forall|j: int| 0 <= j < before.len() implies !(#[trigger] sample_run(
        start,
        before.take(j),
    )).overflows(before[j]) by {
        assert(before.take(j) =~= events.take(j));
    }
    lemma_sample_run_wf(start, before);
    lemma_sample_run_wf(start, events);
    assert(events.take(events.len() - 1) =~= before);
    if i < events.len() - 1 {
        assert(before.take(i) =~= events.take(i));
        lemma_one_failure_fails_the_sample(start, before, i);
    }
    lemma_failure_is_final(sample_run(start, before), events.last());
    lemma_failure_is_final(sample_run(start, events), events.last());
}

/// A sample in progress. The driver asks it what to do, does it, and
/// hands in what happened, until the sampler says to return.
pub struct Sampler {
    descriptor: SampleDescriptor,
    window_nanos: u64,
    stage: Stage,
    next: u64,
    joined: Vec<WorkerResult>,
    counted: u64,
    failed: bool,
    outcomes: Ghost<Seq<Result<WorkerResult, WorkerError>>>,
    results: Option<Results>,
    published: bool,
}

impl View for Sampler {
    type V = SamplerView;

    closed spec fn view(&self) -> SamplerView {
        SamplerView {
            descriptor: self.descriptor,
            window_nanos: self.window_nanos as nat,
            stage: self.stage,
            next: self.next as nat,
            outcomes: self.outcomes@,
            published: self.published,
        }
    }
}

impl Sampler {
    #[verifier::type_invariant]
    closed spec fn inv(&self) -> bool {
        &&& self@.wf()
        &&& self.failed == any_failed(self.outcomes@)
        &&& (self.stage is Joining && !self.failed ==> self.joined@ == reported(self.outcomes@)
            && self.counted == total_units(self.joined@))
        &&& (self.results is Some <==> self@.measured() is Some)
        &&& (self.results matches Some(results) ==> Some(results@) == self@.measured())
    }

    /// A sample with `worker_count` workers over a window of
    /// `window_nanos` nanoseconds; the labels go into its descriptor.
    pub fn new(
        worker_count: u64,
        window_nanos: u64,
        algorithm_label: String,
        backend_label: String,
    ) -> (s: Sampler)
        requires
            worker_count + 1 <= usize::MAX,
            window_nanos > 0,
        ensures
            s@ == SamplerView::start(
                SampleDescriptor { worker_count, algorithm_label, backend_label },
                window_nanos as nat,
            ),
            s@.wf(),
    {
        let descriptor = SampleDescriptor::new(worker_count, algorithm_label, backend_label);
        proof {
            lemma_sampler_start_wf(descriptor, window_nanos as nat);
        }
        Sampler {
            descriptor,
            window_nanos,
            stage: Stage::Preparing,
            next: 0,
            joined: Vec::new(),
            counted: 0,
            failed: false,
            outcomes: Ghost(Seq::empty()),
            results: None,
            published: false,
        }
    }

    /// What the driver must do next.
    pub fn action(&self) -> (a: SampleAction)
        ensures
            self@.wf(),
            a == self@.action(),
    {
        proof {
            use_type_invariant(self);
        }
        match self.stage {
            Stage::Preparing => SampleAction::CreateBarrier {
                parties: self.descriptor.worker_count as usize + 1,
            },
            Stage::Spawning => SampleAction::Spawn { worker_id: self.next },
            Stage::Rendezvous => SampleAction::WaitAtBarrier,
            Stage::Sampling => SampleAction::Sleep { nanos: self.window_nanos },
            Stage::Stopping => SampleAction::SendStop { worker_id: self.next },
            Stage::Joining => SampleAction::Join { worker_id: self.next },
            Stage::Publishing => SampleAction::Publish,
            Stage::Finished => SampleAction::Return,
        }
    }

    pub fn stage(&self) -> (stage: Stage)
        ensures
            stage == self@.stage,
    {
        self.stage
    }

    /// What identifies the sample to the sink.
    pub fn descriptor(&self) -> (d: &SampleDescriptor)
        ensures
            *d == self@.descriptor,
    {
        &self.descriptor
    }

    /// The figures of the sample, once every worker is joined and none failed.
    pub fn results(&self) -> (r: Option<&Results>)
        ensures
            r is Some <==> self@.measured() is Some,
            r matches Some(results) ==> Some(results@) == self@.measured(),
    {
        proof {
            use_type_invariant(self);
        }
        self.results.as_ref()
    }

    /// Whether `event` can be taken in: it cannot when it brings a count
    /// with which the total no longer fits.
    pub fn accepts(&self, event: &SampleEvent) -> (b: bool)
        ensures
            b == !self@.overflows(*event),
    {
        proof {
            use_type_invariant(self);
        }
        match (self.stage, event) {
            (Stage::Joining, SampleEvent::Joined(Ok(w))) => self.failed || w.units_completed
                <= u64::MAX - self.counted,
            _ => true,
        }
    }

    /// Takes in `event`.
    pub fn step(self, event: SampleEvent) -> (next: Sampler)
        requires
            !self@.overflows(event),
        ensures
            next@ == self@.next_state(event),
            next@.wf(),
    {
        proof {
            use_type_invariant(&self);
            lemma_sampler_next_wf(self@, event);
        }
        let Sampler {
            descriptor,
            window_nanos,
            stage,
            next,
            joined,
            counted,
            failed,
            outcomes,
            results,
            published,
        } = self;
        let worker_count: u64 = descriptor.worker_count;
        match (stage, event) {
            (Stage::Preparing, SampleEvent::BarrierCreated) => Sampler {
                descriptor,
                window_nanos,
                stage: if worker_count == 0 {
                    Stage::Rendezvous
                } else {
                    Stage::Spawning
                },
                next,
                joined,
                counted,
                failed,
                outcomes,
                results,
                published,
            },
            (Stage::Spawning, SampleEvent::Spawned) => {
                let more = next + 1 < worker_count;
                Sampler {
                    descriptor,
                    window_nanos,
                    stage: if more {
                        Stage::Spawning
                    } else {
                        Stage::Rendezvous
                    },
                    next: if more {
                        next + 1
                    } else {
                        0
                    },
                    joined,
                    counted,
                    failed,
                    outcomes,
                    results,
                    published,
                }
            },
            (Stage::Rendezvous, SampleEvent::BarrierReleased) => Sampler {
                descriptor,
                window_nanos,
                stage: Stage::Sampling,
                next,
                joined,
                counted,
                failed,
                outcomes,
                results,
                published,
            },
            (Stage::Sampling, SampleEvent::WindowElapsed) => {
                if worker_count == 0 {
                    let none: Vec<WorkerResult> = Vec::new();
                    proof {
                        assert(reported(outcomes@) =~= none@);
                    }
                    let results = Results::new(none, window_nanos);
                    Sampler {
                        descriptor,
                        window_nanos,
                        stage: Stage::Publishing,
                        next,
                        joined: Vec::new(),
                        counted,
                        failed,
                        outcomes,
                        results: Some(results),
                        published,
                    }
                } else {
                    Sampler {
                        descriptor,
                        window_nanos,
                        stage: Stage::Stopping,
                        next,
                        joined,
                        counted,
                        failed,
                        outcomes,
                        results,
                        published,
                    }
                }
            },
            (Stage::Stopping, SampleEvent::StopSent { .. }) => {
                let more = next + 1 < worker_count;
                proof {
                    assert(reported(outcomes@) =~= Seq::<WorkerResult>::empty());
                }
                Sampler {
                    descriptor,
                    window_nanos,
                    stage: if more {
                        Stage::Stopping
                    } else {
                        Stage::Joining
                    },
                    next: if more {
                        next + 1
                    } else {
                        0
                    },
                    joined: Vec::new(),
                    counted: 0,
                    failed,
                    outcomes,
                    results,
                    published,
                }
            },
            (Stage::Joining, SampleEvent::Joined(outcome)) => {
                let ghost seen = outcomes@.push(outcome);
                proof {
                    lemma_any_failed_push(outcomes@, outcome);
                }
                let mut joined = joined;
                let mut counted = counted;
                let mut failed = failed;
                match outcome {
                    Ok(w) => {
                        if !failed {
                            proof {
                                lemma_total_units_push(joined@, w);
                            }
                            counted = counted + w.units_completed;
                            joined.push(w);
                        }
                    },
                    Err(_) => {
                        failed = true;
                    },
                }
                if next + 1 < worker_count {
                    Sampler {
                        descriptor,
                        window_nanos,
                        stage,
                        next: next + 1,
                        joined,
                        counted,
                        failed,
                        outcomes: Ghost(seen),
                        results,
                        published,
                    }
                } else if failed {
                    Sampler {
                        descriptor,
                        window_nanos,
                        stage: Stage::Finished,
                        next: 0,
                        joined,
                        counted,
                        failed,
                        outcomes: Ghost(seen),
                        results,
                        published,
                    }
                } else {
                    let results = Results::new(joined, window_nanos);
                    Sampler {
                        descriptor,
                        window_nanos,
                        stage: Stage::Publishing,
                        next: 0,
                        joined: Vec::new(),
                        counted,
                        failed,
                        outcomes: Ghost(seen),
                        results: Some(results),
                        published,
                    }
                }
            },
            (Stage::Publishing, SampleEvent::Published(ok)) => Sampler {
                descriptor,
                window_nanos,
                stage: Stage::Finished,
                next,
                joined,
                counted,
                failed,
                outcomes,
                results,
                published: ok,
            },
            (stage, _) => Sampler {
                descriptor,
                window_nanos,
                stage,
                next,
                joined,
                counted,
                failed,
                outcomes,
                results,
                published,
            },
        }
    }

    /// What the sample returns: `None` while it is not over; then the
    /// figures, or `PublishFailed` with the figures when the sink refused
    /// them, or `WorkerFailed` when a worker failed, however many others
    /// succeeded.
    pub fn finish(self) -> (r: Option<Result<Results, SampleError>>)
        ensures
            r is None <==> self@.outcome() is None,
            r matches Some(outcome) ==> self@.outcome() == Some(outcome_of(outcome)),
    {
        proof {
            use_type_invariant(&self);
        }
        match self.stage {
            Stage::Finished => match self.results {
                None => Some(Err(SampleError::WorkerFailed)),
                Some(results) => if self.published {
                    Some(Ok(results))
                } else {
                    Some(Err(SampleError::PublishFailed(results)))
                },
            },
            _ => None,
        }
    }
}

} // verus!
