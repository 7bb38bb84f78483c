use jmcgmqp::results::WorkerResult;
use jmcgmqp::worker::{
    decide_quit, worker_check_quit, QuitPoll, WorkerAction, WorkerError, WorkerEvent, WorkerState,
};
use std::sync::mpsc::channel;

#[test]
fn decide_quit_on_each_poll() {
    assert_eq!(decide_quit(QuitPoll::Signalled(true)), Ok(true));
    assert_eq!(decide_quit(QuitPoll::Empty), Ok(false));
    assert_eq!(decide_quit(QuitPoll::Disconnected), Err(WorkerError::ControlChannelLost));
}

#[test]
fn decide_quit_stops_on_any_message() {
    assert_eq!(decide_quit(QuitPoll::Signalled(false)), Ok(true));
    assert_eq!(decide_quit(QuitPoll::Signalled(true)), decide_quit(QuitPoll::Signalled(false)));
}

#[test]
fn check_quit_sees_nothing_on_a_quiet_channel() {
    let (tx, rx) = channel::<bool>();
    assert_eq!(worker_check_quit(&rx), Ok(false));
    assert_eq!(worker_check_quit(&rx), Ok(false));
    drop(tx);
}

#[test]
fn check_quit_sees_the_signal() {
    let (tx, rx) = channel::<bool>();
    tx.send(true).unwrap();
    assert_eq!(worker_check_quit(&rx), Ok(true));
    assert_eq!(worker_check_quit(&rx), Ok(false));
}

#[test]
fn check_quit_takes_any_message_for_a_signal() {
    let (tx, rx) = channel::<bool>();
    tx.send(false).unwrap();
    assert_eq!(worker_check_quit(&rx), Ok(true));
    assert_eq!(worker_check_quit(&rx), Ok(false));
    tx.send(false).unwrap();
    tx.send(true).unwrap();
    assert_eq!(worker_check_quit(&rx), Ok(true));
    assert_eq!(worker_check_quit(&rx), Ok(true));
    assert_eq!(worker_check_quit(&rx), Ok(false));
    drop(tx);
}

#[test]
fn check_quit_tells_a_lost_channel_apart() {
    let (tx, rx) = channel::<bool>();
    drop(tx);
    assert_eq!(worker_check_quit(&rx), Err(WorkerError::ControlChannelLost));
    assert_eq!(worker_check_quit(&rx), Err(WorkerError::ControlChannelLost));
}

#[test]
fn check_quit_sees_a_signal_sent_before_the_sender_left() {
    let (tx, rx) = channel::<bool>();
    tx.send(true).unwrap();
    drop(tx);
    assert_eq!(worker_check_quit(&rx), Ok(true));
    assert_eq!(worker_check_quit(&rx), Err(WorkerError::ControlChannelLost));
}

fn running(units: u64) -> WorkerState {
    let (s, _) = WorkerState::start();
    let (s, _) = s.step(WorkerEvent::Setup { connected: true });
    let (mut s, _) = s.step(WorkerEvent::BarrierReleased);
    for _ in 0..units {
        let (w, a) = s.step(WorkerEvent::Checked(Ok(false)));
        assert_eq!(a, WorkerAction::PerformUnit);
        let (c, a) = w.step(WorkerEvent::Unit(Ok(())));
        assert_eq!(a, WorkerAction::CheckQuit);
        s = c;
    }
    s
}

#[test]
fn worker_starts_by_connecting() {
    let (s, a) = WorkerState::start();
    assert_eq!(s, WorkerState::Connecting);
    assert_eq!(a, WorkerAction::Connect);
    assert_eq!(s.report(0, 0), None);
}

#[test]
fn worker_goes_through_its_run() {
    let (s, a) = WorkerState::start();
    assert_eq!(a, WorkerAction::Connect);
    let (s, a) = s.step(WorkerEvent::Setup { connected: true });
    assert_eq!(s, WorkerState::AtBarrier { connected: true });
    assert_eq!(a, WorkerAction::WaitAtBarrier);
    let (s, a) = s.step(WorkerEvent::BarrierReleased);
    assert_eq!(s, WorkerState::Checking { units: 0 });
    assert_eq!(a, WorkerAction::CheckQuit);
    let (s, a) = s.step(WorkerEvent::Checked(Ok(false)));
    assert_eq!(s, WorkerState::Working { units: 0 });
    assert_eq!(a, WorkerAction::PerformUnit);
    let (s, a) = s.step(WorkerEvent::Unit(Ok(())));
    assert_eq!(s, WorkerState::Checking { units: 1 });
    assert_eq!(a, WorkerAction::CheckQuit);
    let (s, a) = s.step(WorkerEvent::Checked(Ok(false)));
    assert_eq!(a, WorkerAction::PerformUnit);
    let (s, a) = s.step(WorkerEvent::Unit(Ok(())));
    assert_eq!(s, WorkerState::Checking { units: 2 });
    assert_eq!(a, WorkerAction::CheckQuit);
    let (s, a) = s.step(WorkerEvent::Checked(Ok(true)));
    assert_eq!(s, WorkerState::Stopped { units: 2 });
    assert_eq!(a, WorkerAction::Report);
    assert_eq!(s.report(7, 3_000_000_123), Some(Ok(WorkerResult::new(7, 2, 3_000_000_123))));
}

#[test]
fn worker_counts_each_unit_once() {
    let s = running(25);
    assert_eq!(s, WorkerState::Checking { units: 25 });
    let (s, _) = s.step(WorkerEvent::Checked(Ok(true)));
    assert_eq!(s.report(1, 10), Some(Ok(WorkerResult::new(1, 25, 10))));
}

#[test]
fn worker_told_to_stop_at_once_reports_zero() {
    let s = running(0);
    let (s, a) = s.step(WorkerEvent::Checked(Ok(true)));
    assert_eq!(a, WorkerAction::Report);
    assert_eq!(s.report(4, 99), Some(Ok(WorkerResult::new(4, 0, 99))));
}

#[test]
fn failed_setup_still_waits_at_the_barrier() {
    let (s, _) = WorkerState::start();
    let (s, a) = s.step(WorkerEvent::Setup { connected: false });
    assert_eq!(s, WorkerState::AtBarrier { connected: false });
    assert_eq!(a, WorkerAction::WaitAtBarrier);
    assert_eq!(s.clone().report(0, 0), None);
    let (s, a) = s.step(WorkerEvent::BarrierReleased);
    assert_eq!(a, WorkerAction::Report);
    assert_eq!(s.report(0, 0), Some(Err(WorkerError::SetupFailed)));
}

#[test]
fn failed_unit_drops_the_count() {
    let s = running(3);
    let (s, _) = s.step(WorkerEvent::Checked(Ok(false)));
    let (s, a) = s.step(WorkerEvent::Unit(Err(String::from("duplicate key"))));
    assert_eq!(a, WorkerAction::Report);
    assert_eq!(
        s,
        WorkerState::Failed { error: WorkerError::WorkFailed(String::from("duplicate key")) }
    );
    assert_eq!(
        s.report(2, 500),
        Some(Err(WorkerError::WorkFailed(String::from("duplicate key"))))
    );
}

#[test]
fn lost_control_channel_aborts_the_worker() {
    let s = running(5);
    let (tx, rx) = channel::<bool>();
    drop(tx);
    let (s, a) = s.step(WorkerEvent::Checked(worker_check_quit(&rx)));
    assert_eq!(a, WorkerAction::Report);
    assert_eq!(s.report(0, 1), Some(Err(WorkerError::ControlChannelLost)));
}

#[test]
fn signal_on_the_channel_stops_the_worker() {
    let s = running(5);
    let (tx, rx) = channel::<bool>();
    let (s, a) = s.step(WorkerEvent::Checked(worker_check_quit(&rx)));
    assert_eq!(a, WorkerAction::PerformUnit);
    let (s, _) = s.step(WorkerEvent::Unit(Ok(())));
    tx.send(true).unwrap();
    let (s, a) = s.step(WorkerEvent::Checked(worker_check_quit(&rx)));
    assert_eq!(a, WorkerAction::Report);
    assert_eq!(s.report(9, 42), Some(Ok(WorkerResult::new(9, 6, 42))));
}

#[test]
fn no_work_before_the_barrier_releases() {
    let (s, _) = WorkerState::start();
    let (s, a) = s.step(WorkerEvent::Unit(Ok(())));
    assert_eq!(a, WorkerAction::Connect);
    let (s, a) = s.step(WorkerEvent::Checked(Ok(false)));
    assert_eq!(a, WorkerAction::Connect);
    let (s, a) = s.step(WorkerEvent::BarrierReleased);
    assert_eq!(s, WorkerState::Connecting);
    assert_eq!(a, WorkerAction::Connect);
    let (s, _) = s.step(WorkerEvent::Setup { connected: true });
    let (s, a) = s.step(WorkerEvent::Unit(Ok(())));
    assert_eq!(a, WorkerAction::WaitAtBarrier);
    let (s, a) = s.step(WorkerEvent::Checked(Ok(false)));
    assert_eq!(s, WorkerState::AtBarrier { connected: true });
    assert_eq!(a, WorkerAction::WaitAtBarrier);
    let (s, a) = s.step(WorkerEvent::BarrierReleased);
    assert_eq!(s, WorkerState::Checking { units: 0 });
    assert_eq!(a, WorkerAction::CheckQuit);
}

#[test]
fn events_out_of_turn_change_nothing() {
    let s = running(2);
    let (s, a) = s.step(WorkerEvent::Unit(Ok(())));
    assert_eq!(s, WorkerState::Checking { units: 2 });
    assert_eq!(a, WorkerAction::CheckQuit);
    let (s, _) = s.step(WorkerEvent::BarrierReleased);
    let (s, _) = s.step(WorkerEvent::Setup { connected: false });
    assert_eq!(s, WorkerState::Checking { units: 2 });
    let (s, _) = s.step(WorkerEvent::Checked(Ok(false)));
    let (s, a) = s.step(WorkerEvent::Checked(Ok(true)));
    assert_eq!(s, WorkerState::Working { units: 2 });
    assert_eq!(a, WorkerAction::PerformUnit);
}

#[test]
fn a_finished_worker_stays_finished() {
    let s = running(2);
    let (s, _) = s.step(WorkerEvent::Checked(Ok(true)));
    let (s, a) = s.step(WorkerEvent::Unit(Ok(())));
    assert_eq!(a, WorkerAction::Report);
    let (s, a) = s.step(WorkerEvent::Checked(Err(WorkerError::ControlChannelLost)));
    assert_eq!(a, WorkerAction::Report);
    assert_eq!(s, WorkerState::Stopped { units: 2 });
    let (f, _) = running(1).step(WorkerEvent::Checked(Err(WorkerError::ControlChannelLost)));
    let (f, a) = f.step(WorkerEvent::Checked(Ok(true)));
    assert_eq!(a, WorkerAction::Report);
    assert_eq!(f, WorkerState::Failed { error: WorkerError::ControlChannelLost });
}

#[test]
fn count_up_to_the_last_number() {
    let s = WorkerState::Working { units: u64::MAX - 1 };
    let (s, a) = s.step(WorkerEvent::Unit(Ok(())));
    assert_eq!(s, WorkerState::Checking { units: u64::MAX });
    assert_eq!(a, WorkerAction::CheckQuit);
    let (s, _) = s.step(WorkerEvent::Checked(Ok(true)));
    assert_eq!(s.report(0, 1), Some(Ok(WorkerResult::new(0, u64::MAX, 1))));
}

#[test]
fn a_unit_beyond_the_last_number_is_not_accepted() {
    let full = WorkerState::Working { units: u64::MAX };
    assert!(!full.accepts(&WorkerEvent::Unit(Ok(()))));
    assert!(full.accepts(&WorkerEvent::Unit(Err(String::from("x")))));
    assert!(full.accepts(&WorkerEvent::BarrierReleased));
    assert!(WorkerState::Working { units: u64::MAX - 1 }.accepts(&WorkerEvent::Unit(Ok(()))));
    assert!(WorkerState::Checking { units: u64::MAX }.accepts(&WorkerEvent::Unit(Ok(()))));
    let (s, a) = full.step(WorkerEvent::Unit(Err(String::from("x"))));
    assert_eq!(a, WorkerAction::Report);
    assert_eq!(s.report(0, 0), Some(Err(WorkerError::WorkFailed(String::from("x")))));
}
