//! One worker: the stop-signal check and the protocol of its run.

use crate::results::WorkerResult;
use std::sync::mpsc::Receiver;
use vstd::prelude::*;

verus! {

/// Why a worker's run came to nothing.
#[derive(Clone, Debug, PartialEq, Eq)]
pub enum WorkerError {
    /// The worker could not acquire its session.
    SetupFailed,
    /// The sending side of the stop signal went away without a signal.
    ControlChannelLost,
    /// A unit of work failed; the cause is the executor's own message.
    WorkFailed(String),
}

/// What a look at the stop-signal channel found, without waiting.
#[derive(Clone, Copy, Debug, PartialEq, Eq, Structural)]
pub enum QuitPoll {
    /// A message was waiting; it carried this value.
    Signalled(bool),
    /// Nothing yet; the sender is still there.
    Empty,
    /// Nothing, and the sender is gone for good.
    Disconnected,
}

/// `Receiver` of `std::sync::mpsc`, carried and not looked into.
#[verifier::external_type_specification]
#[verifier::external_body]
#[verifier::reject_recursive_types(T)]
pub struct ExReceiver<T>(Receiver<T>);

/// `Receiver::try_recv` of `std::sync::mpsc`, with its three outcomes told
/// apart and a message handed on as it came. What it finds depends on the
/// sending thread, so nothing is claimed of the result.
#[verifier::external_body]
fn poll_quit(rx: &Receiver<bool>) -> (poll: QuitPoll) {
    match rx.try_recv() {
        Ok(message) => QuitPoll::Signalled(message),
        Err(std::sync::mpsc::TryRecvError::Empty) => QuitPoll::Empty,
        Err(std::sync::mpsc::TryRecvError::Disconnected) => QuitPoll::Disconnected,
    }
}

/// What a worker does about the outcome of a look at its stop signal. Any
/// message is a signal to stop, whatever value it carries.
pub open spec fn quit_decision(poll: QuitPoll) -> Result<bool, WorkerError> {
    match poll {
        QuitPoll::Signalled(_) => Ok(true),
        QuitPoll::Empty => Ok(false),
        QuitPoll::Disconnected => Err(WorkerError::ControlChannelLost),
    }
}

/// Decides from a look at the stop signal: `Ok(true)` to stop cleanly on
/// any message, `Ok(false)` to go on, and an error when the controller is
/// gone.
pub fn decide_quit(poll: QuitPoll) -> (r: Result<bool, WorkerError>)
    ensures
        r == quit_decision(poll),
{
    match poll {
        QuitPoll::Signalled(_) => Ok(true),
        QuitPoll::Empty => Ok(false),
        QuitPoll::Disconnected => Err(WorkerError::ControlChannelLost),
    }
}

/// Looks at the stop signal without waiting and decides as `decide_quit`
/// does. The only error is `ControlChannelLost`.
pub fn worker_check_quit(rx: &Receiver<bool>) -> (r: Result<bool, WorkerError>)
    ensures
        exists|poll: QuitPoll| r == quit_decision(poll),
        r matches Err(e) ==> e == WorkerError::ControlChannelLost,
{
    let poll = poll_quit(rx);
    decide_quit(poll)
}

/// Where a worker stands in its run.
#[derive(Clone, Debug, PartialEq, Eq)]
pub enum WorkerState {
    /// Acquiring the session that the work needs.
    Connecting,
    /// At the start barrier; `connected` tells whether setup went well.
    AtBarrier { connected: bool },
    /// In the timed loop, about to look at the stop signal.
    Checking { units: u64 },
    /// In the timed loop, with one unit of work under way.
    Working { units: u64 },
    /// Told to stop; `units` is the final count.
    Stopped { units: u64 },
    /// Given up; nothing counted is reported.
    Failed { error: WorkerError },
}

/// What happened outside since the worker's last action.
#[derive(Debug, PartialEq, Eq)]
pub enum WorkerEvent {
    /// The session was acquired, or not.
    Setup { connected: bool },
    /// Every party has reached the start barrier.
    BarrierReleased,
    /// The stop signal was looked at; this is what `worker_check_quit` said.
    Checked(Result<bool, WorkerError>),
    /// The unit of work under way ended, well or with the cause of failure.
    Unit(Result<(), String>),
}

/// What the worker must do next outside.
#[derive(Clone, Copy, Debug, PartialEq, Eq, Structural)]
pub enum WorkerAction {
    Connect,
    WaitAtBarrier,
    CheckQuit,
    PerformUnit,
    Report,
}

impl WorkerState {
    /// The state after `event`. An event that the state does not wait for
    /// changes nothing.
    pub open spec fn next(self, event: WorkerEvent) -> WorkerState {
        match (self, event) {
            (WorkerState::Connecting, WorkerEvent::Setup { connected }) => WorkerState::AtBarrier {
                connected,
            },
            (WorkerState::AtBarrier { connected }, WorkerEvent::BarrierReleased) => if connected {
                WorkerState::Checking { units: 0 }
            } else {
                WorkerState::Failed { error: WorkerError::SetupFailed }
            },
            (WorkerState::Checking { units }, WorkerEvent::Checked(Ok(quit))) => if quit {
                WorkerState::Stopped { units }
            } else {
                WorkerState::Working { units }
            },
            (WorkerState::Checking { units }, WorkerEvent::Checked(Err(error))) => {
                WorkerState::Failed { error }
            },
            (WorkerState::Working { units }, WorkerEvent::Unit(Ok(_))) => WorkerState::Checking {
                units: (units + 1) as u64,
            },
            (WorkerState::Working { units }, WorkerEvent::Unit(Err(cause))) => {
                WorkerState::Failed { error: WorkerError::WorkFailed(cause) }
            },
            _ => self,
        }
    }

    /// What the worker does next in this state.
    pub open spec fn action(self) -> WorkerAction {
        match self {
            WorkerState::Connecting => WorkerAction::Connect,
            WorkerState::AtBarrier { .. } => WorkerAction::WaitAtBarrier,
            WorkerState::Checking { .. } => WorkerAction::CheckQuit,
            WorkerState::Working { .. } => WorkerAction::PerformUnit,
            WorkerState::Stopped { .. } => WorkerAction::Report,
            WorkerState::Failed { .. } => WorkerAction::Report,
        }
    }

    /// The worker is inside its timed loop.
    pub open spec fn counting(self) -> bool {
        self is Checking || self is Working
    }

    /// The units counted so far; none before the loop and none after a failure.
    pub open spec fn units(self) -> nat {
        match self {
            WorkerState::Checking { units } => units as nat,
            WorkerState::Working { units } => units as nat,
            WorkerState::Stopped { units } => units as nat,
            _ => 0,
        }
    }

    /// The count would no longer fit after one more unit.
    pub open spec fn saturated(self, event: WorkerEvent) -> bool {
        &&& self matches WorkerState::Working { units }
        &&& units == u64::MAX
        &&& event matches WorkerEvent::Unit(Ok(_))
    }

    /// What the worker hands back when its run is over: its result with the
    /// time `elapsed_nanos` since the barrier released, or its error.
    pub open spec fn outcome(self, worker_id: u64, elapsed_nanos: u64) -> Option<
        Result<WorkerResult, WorkerError>,
    > {
        match self {
            WorkerState::Stopped { units } => Some(
                Ok(WorkerResult { worker_id, units_completed: units, elapsed_nanos }),
            ),
            WorkerState::Failed { error } => Some(Err(error)),
            _ => None,
        }
    }

    /// A worker starts by acquiring its session.
    pub fn start() -> (r: (WorkerState, WorkerAction))
        ensures
            r.0 == WorkerState::Connecting,
            r.1 == r.0.action(),
    {
        (WorkerState::Connecting, WorkerAction::Connect)
    }

    /// Whether `event` can be taken in: it cannot when it brings one unit
    /// more than the count can hold.
    pub fn accepts(&self, event: &WorkerEvent) -> (b: bool)
        ensures
            b == !self.saturated(*event),
    {
        match (self, event) {
            (WorkerState::Working { units }, WorkerEvent::Unit(Ok(_))) => *units < u64::MAX,
            _ => true,
        }
    }

    /// Takes in `event` and says what to do next.
    pub fn step(self, event: WorkerEvent) -> (r: (WorkerState, WorkerAction))
        requires
            !self.saturated(event),
        ensures
            r.0 == self.next(event),
            r.1 == r.0.action(),
    {
        let next = match (self, event) {
            (WorkerState::Connecting, WorkerEvent::Setup { connected }) => WorkerState::AtBarrier {
                connected,
            },
            (WorkerState::AtBarrier { connected }, WorkerEvent::BarrierReleased) => if connected {
                WorkerState::Checking { units: 0 }
            } else {
                WorkerState::Failed { error: WorkerError::SetupFailed }
            },
            (WorkerState::Checking { units }, WorkerEvent::Checked(Ok(quit))) => if quit {
                WorkerState::Stopped { units }
            } else {
                WorkerState::Working { units }
            },
            (WorkerState::Checking { units }, WorkerEvent::Checked(Err(error))) => {
                WorkerState::Failed { error }
            },
            (WorkerState::Working { units }, WorkerEvent::Unit(Ok(_))) => WorkerState::Checking {
                units: units + 1,
            },
            (WorkerState::Working { units }, WorkerEvent::Unit(Err(cause))) => {
                WorkerState::Failed { error: WorkerError::WorkFailed(cause) }
            },
            (state, _) => state,
        };
        let action = match &next {
            WorkerState::Connecting => WorkerAction::Connect,
            WorkerState::AtBarrier { .. } => WorkerAction::WaitAtBarrier,
            WorkerState::Checking { .. } => WorkerAction::CheckQuit,
            WorkerState::Working { .. } => WorkerAction::PerformUnit,
            WorkerState::Stopped { .. } => WorkerAction::Report,
            WorkerState::Failed { .. } => WorkerAction::Report,
        };
        (next, action)
    }

    /// The worker's report once its run is over; `None` while it is not.
    pub fn report(self, worker_id: u64, elapsed_nanos: u64) -> (r: Option<
        Result<WorkerResult, WorkerError>,
    >)
        ensures
            r == self.outcome(worker_id, elapsed_nanos),
    {
        match self {
            WorkerState::Stopped { units } => Some(
                Ok(WorkerResult { worker_id, units_completed: units, elapsed_nanos }),
            ),
            WorkerState::Failed { error } => Some(Err(error)),
            _ => None,
        }
    }
}

impl WorkerEvent {
    /// A check of the stop signal carries a result that `worker_check_quit`
    /// can give; the other events are what they are.
    pub open spec fn genuine(self) -> bool {
        self matches WorkerEvent::Checked(r) ==> exists|poll: QuitPoll| r == quit_decision(poll)
    }
}

/// No work is counted before the start barrier has released: the only way
/// into the timed loop is from the barrier, on its release, after a setup
/// that went well, and the count starts at zero.
pub proof fn lemma_counting_starts_at_barrier(state: WorkerState, event: WorkerEvent)
    requires
        !state.counting(),
        state.next(event).counting(),
    ensures
        state == (WorkerState::AtBarrier { connected: true }),
        event is BarrierReleased,
        state.next(event) == (WorkerState::Checking { units: 0 }),
{
}

/// A worker whose setup failed still goes to the start barrier, and reports
/// the failure only when the barrier has released.
pub proof fn lemma_setup_failure_waits_at_barrier(state: WorkerState, event: WorkerEvent)
    requires
        event.genuine(),
    ensures
        state is Connecting && event == (WorkerEvent::Setup { connected: false }) ==> state.next(
            event,
        ).action() == WorkerAction::WaitAtBarrier,
        state.next(event) == (WorkerState::Failed { error: WorkerError::SetupFailed }) && state
            != state.next(event) ==> state == (WorkerState::AtBarrier { connected: false })
            && event is BarrierReleased,
{
}

/// The count goes up by exactly one for each unit that ended well, and by
/// nothing else; a run that is over never changes again.
pub proof fn lemma_units_counted_once(state: WorkerState, event: WorkerEvent)
    requires
        !state.saturated(event),
    ensures
        state is Working && (event matches WorkerEvent::Unit(Ok(_))) ==> state.next(
            event,
        ).units() == state.units() + 1,
        !(state is Working) && !(state.next(event) is Failed) ==> state.next(event).units()
            == state.units(),
        state is Stopped || state is Failed ==> state.next(event) == state,
{
}

/// A stop signal ends the run cleanly with the count reached so far, and a
/// lost control channel ends it with `ControlChannelLost`, whatever was
/// counted.
pub proof fn lemma_stop_reports_count(units: u64, poll: QuitPoll, worker_id: u64, elapsed: u64)
    ensures
        ({
            let checking = WorkerState::Checking { units };
            let after = checking.next(WorkerEvent::Checked(quit_decision(poll)));
            &&& poll is Signalled ==> after.outcome(worker_id, elapsed) == Some(
                Ok::<WorkerResult, WorkerError>(
                    WorkerResult { worker_id, units_completed: units, elapsed_nanos: elapsed },
                ),
            )
            &&& poll is Empty ==> after == (WorkerState::Working { units })
            &&& poll is Disconnected ==> after.outcome(worker_id, elapsed) == Some(
                Err::<WorkerResult, WorkerError>(WorkerError::ControlChannelLost),
            )
        }),
{
}

} // verus!
