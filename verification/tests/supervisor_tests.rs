use std::cell::{Cell, RefCell};

use service_supervisor::handshake::{parse_handshake, HandshakeError};
use service_supervisor::lifecycle::{advance, Event, Phase, Supervisor};
use service_supervisor::launch::LaunchError;
use service_supervisor::shutdown::{
    after_terminate, after_wait, begin_shutdown, run_shutdown, stop_process, ExitReport,
    ShutdownError, ShutdownPlan,
};
use service_supervisor::supervisor::SupervisorState;

#[test]
fn a_new_record_is_not_ready() {
    let state: SupervisorState<u32> = SupervisorState::new();
    assert!(!state.is_ready());
    assert_eq!(state.port(), None);
    assert_eq!(state.current_endpoint(), None);
}

#[test]
fn endpoint_after_set_ready_has_the_port() {
    let mut state: SupervisorState<&str> = SupervisorState::new();
    state.set_ready("child", 54213);
    assert!(state.is_ready());
    assert_eq!(state.port(), Some(54213));
    assert_eq!(state.current_endpoint(), Some(String::from("http://127.0.0.1:54213")));
    assert_eq!(state.current_endpoint(), Some(String::from("http://127.0.0.1:54213")));
}

#[test]
fn endpoint_after_set_ready_for_many_ports() {
    let mut port: u32 = 0;
    while port <= 65535 {
        let mut state: SupervisorState<u8> = SupervisorState::new();
        state.set_ready(0, port as u16);
        assert_eq!(state.current_endpoint(), Some(format!("http://127.0.0.1:{}", port)));
        port += 4369;
    }
}

#[test]
fn try_set_ready_refuses_a_second_backend() {
    let mut state: SupervisorState<&str> = SupervisorState::new();
    assert_eq!(state.try_set_ready("first", 4000), None);
    assert_eq!(state.try_set_ready("second", 5000), Some("second"));
    assert_eq!(state.port(), Some(4000));
    assert_eq!(state.take_for_shutdown(), Some("first"));
}

#[test]
fn set_ready_again_after_a_take() {
    let mut state: SupervisorState<&str> = SupervisorState::new();
    state.set_ready("first", 4000);
    assert_eq!(state.take_for_shutdown(), Some("first"));
    state.set_ready("second", 5000);
    assert_eq!(state.current_endpoint(), Some(String::from("http://127.0.0.1:5000")));
}

#[test]
fn take_for_shutdown_yields_the_process_once() {
    let mut state: SupervisorState<&str> = SupervisorState::new();
    state.set_ready("child", 4000);
    assert_eq!(state.take_for_shutdown(), Some("child"));
    assert_eq!(state.take_for_shutdown(), None);
    assert_eq!(state.take_for_shutdown(), None);
    assert!(!state.is_ready());
    assert_eq!(state.port(), None);
}

#[test]
fn take_on_an_empty_record_yields_nothing() {
    let mut state: SupervisorState<&str> = SupervisorState::new();
    assert_eq!(state.take_for_shutdown(), None);
    assert_eq!(state.current_endpoint(), None);
}

#[test]
fn not_ready_after_shutdown_began() {
    let mut state: SupervisorState<&str> = SupervisorState::new();
    state.set_ready("child", 4000);
    assert_eq!(begin_shutdown(&mut state), ShutdownPlan::Terminate("child"));
    assert_eq!(state.current_endpoint(), None);
    let mut empty: SupervisorState<&str> = SupervisorState::new();
    assert_eq!(begin_shutdown(&mut empty), ShutdownPlan::NothingToDo);
    assert_eq!(empty.current_endpoint(), None);
}

#[test]
fn terminate_answers() {
    assert_eq!(after_terminate(ExitReport::Done), Ok(()));
    assert_eq!(after_terminate(ExitReport::AlreadyExited), Ok(()));
    assert_eq!(
        after_terminate(ExitReport::Failed(String::from("denied"))),
        Err(ShutdownError::Terminate(String::from("denied")))
    );
}

#[test]
fn wait_answers() {
    assert_eq!(after_wait(ExitReport::Done), Ok(()));
    assert_eq!(after_wait(ExitReport::AlreadyExited), Ok(()));
    assert_eq!(
        after_wait(ExitReport::Failed(String::from("interrupted"))),
        Err(ShutdownError::Wait(String::from("interrupted")))
    );
}

#[test]
fn shutdown_warnings_as_text() {
    assert_eq!(
        ShutdownError::Terminate(String::from("denied")).message(),
        "Failed to kill API server: denied"
    );
    assert_eq!(
        ShutdownError::Wait(String::from("interrupted")).message(),
        "Failed to wait for API server to exit: interrupted"
    );
}

#[test]
fn the_phases_in_order() {
    let mut phase = Phase::NotStarted;
    phase = advance(phase, Event::LaunchRequested);
    assert_eq!(phase, Phase::Launching);
    phase = advance(phase, Event::Spawned);
    assert_eq!(phase, Phase::AwaitingHandshake);
    phase = advance(phase, Event::HandshakeSucceeded);
    assert_eq!(phase, Phase::Ready);
    phase = advance(phase, Event::ShutdownRequested);
    assert_eq!(phase, Phase::ShuttingDown);
    phase = advance(phase, Event::ShutdownFinished);
    assert_eq!(phase, Phase::Stopped);
}

#[test]
fn the_ends_are_final() {
    let events = [
        Event::LaunchRequested,
        Event::Spawned,
        Event::SpawnFailed,
        Event::HandshakeSucceeded,
        Event::HandshakeFailed,
        Event::ShutdownRequested,
        Event::ShutdownFinished,
    ];
    for event in events {
        assert_eq!(advance(Phase::Stopped, event), Phase::Stopped);
        assert_eq!(advance(Phase::Failed, event), Phase::Failed);
    }
}

#[test]
fn events_out_of_place_change_nothing() {
    assert_eq!(advance(Phase::NotStarted, Event::Spawned), Phase::NotStarted);
    assert_eq!(advance(Phase::NotStarted, Event::HandshakeSucceeded), Phase::NotStarted);
    assert_eq!(advance(Phase::Launching, Event::HandshakeSucceeded), Phase::Launching);
    assert_eq!(advance(Phase::Ready, Event::LaunchRequested), Phase::Ready);
    assert_eq!(advance(Phase::Ready, Event::HandshakeFailed), Phase::Ready);
    assert_eq!(advance(Phase::Ready, Event::ShutdownFinished), Phase::Ready);
    assert_eq!(advance(Phase::ShuttingDown, Event::ShutdownRequested), Phase::ShuttingDown);
}

#[test]
fn failures_lead_to_failed() {
    assert_eq!(advance(Phase::Launching, Event::SpawnFailed), Phase::Failed);
    assert_eq!(advance(Phase::AwaitingHandshake, Event::HandshakeFailed), Phase::Failed);
}

#[test]
fn closing_before_the_backend_is_up() {
    assert_eq!(advance(Phase::NotStarted, Event::ShutdownRequested), Phase::Stopped);
    assert_eq!(advance(Phase::Launching, Event::ShutdownRequested), Phase::Stopped);
    assert_eq!(advance(Phase::AwaitingHandshake, Event::ShutdownRequested), Phase::ShuttingDown);

    let mut supervisor: Supervisor<&str> = Supervisor::new();
    assert!(supervisor.begin_launch());
    assert!(supervisor.spawned());
    assert_eq!(supervisor.request_shutdown(), ShutdownPlan::NothingToDo);
    assert_eq!(supervisor.handshake_done("child", Ok(4000)), Some("child"));
    assert_eq!(supervisor.current_phase(), Phase::ShuttingDown);
    assert_eq!(supervisor.current_endpoint(), None);
    supervisor.finish_shutdown();
    assert_eq!(supervisor.current_phase(), Phase::Stopped);
}

#[test]
fn closing_while_the_process_starts() {
    let mut supervisor: Supervisor<&str> = Supervisor::new();
    assert!(supervisor.begin_launch());
    assert_eq!(supervisor.request_shutdown(), ShutdownPlan::NothingToDo);
    assert!(!supervisor.spawned());
    assert_eq!(supervisor.current_phase(), Phase::Stopped);
}

#[test]
fn only_the_first_launch_request_spawns() {
    let mut supervisor: Supervisor<&str> = Supervisor::new();
    assert!(supervisor.begin_launch());
    assert!(!supervisor.begin_launch());
    assert_eq!(supervisor.current_phase(), Phase::Launching);
}

#[test]
fn backend_that_announces_its_port_and_exits() {
    // The backend writes its port, one line of diagnostics, and exits.
    let mut supervisor: Supervisor<&str> = Supervisor::new();
    assert_eq!(supervisor.current_endpoint(), None);
    assert!(supervisor.begin_launch());
    assert!(supervisor.spawned());
    let outcome = parse_handshake("54213\n");
    assert_eq!(outcome, Ok(54213));
    assert_eq!(supervisor.handshake_done("child", outcome), None);
    assert_eq!(supervisor.current_phase(), Phase::Ready);
    assert_eq!(supervisor.current_endpoint(), Some(String::from("http://127.0.0.1:54213")));
    assert_eq!(supervisor.current_endpoint(), Some(String::from("http://127.0.0.1:54213")));
    assert_eq!(supervisor.request_shutdown(), ShutdownPlan::Terminate("child"));
    assert_eq!(supervisor.current_endpoint(), None);
    assert_eq!(after_terminate(ExitReport::AlreadyExited), Ok(()));
    assert_eq!(after_wait(ExitReport::Done), Ok(()));
    supervisor.finish_shutdown();
    assert_eq!(supervisor.current_phase(), Phase::Stopped);
    assert_eq!(supervisor.current_endpoint(), None);
}

#[test]
fn backend_that_fails_to_start() {
    let mut supervisor: Supervisor<&str> = Supervisor::new();
    assert!(supervisor.begin_launch());
    supervisor.spawn_failed();
    assert_eq!(supervisor.current_phase(), Phase::Failed);
    assert_eq!(supervisor.current_endpoint(), None);
    assert!(!supervisor.begin_launch());
    assert!(!supervisor.spawned());
    assert_eq!(supervisor.handshake_done("late", Ok(1)), Some("late"));
    assert_eq!(supervisor.request_shutdown(), ShutdownPlan::NothingToDo);
    supervisor.finish_shutdown();
    assert_eq!(supervisor.current_phase(), Phase::Failed);
    assert_eq!(supervisor.current_endpoint(), None);
}

#[test]
fn backend_that_closes_its_output_without_a_line() {
    let mut supervisor: Supervisor<&str> = Supervisor::new();
    assert!(supervisor.begin_launch());
    assert!(supervisor.spawned());
    let outcome = parse_handshake("");
    assert_eq!(outcome, Err(HandshakeError::Unterminated));
    assert_eq!(supervisor.handshake_done("child", outcome), Some("child"));
    assert_eq!(supervisor.current_phase(), Phase::Failed);
    assert_eq!(supervisor.current_endpoint(), None);
    assert_eq!(supervisor.handshake_done("child", Ok(80)), Some("child"));
    assert_eq!(supervisor.current_phase(), Phase::Failed);
    assert_eq!(supervisor.current_endpoint(), None);
}

#[test]
fn shutdown_triggered_twice() {
    let mut supervisor: Supervisor<&str> = Supervisor::new();
    assert!(supervisor.begin_launch());
    assert!(supervisor.spawned());
    assert_eq!(supervisor.handshake_done("child", Ok(4000)), None);
    assert_eq!(supervisor.request_shutdown(), ShutdownPlan::Terminate("child"));
    assert_eq!(supervisor.request_shutdown(), ShutdownPlan::NothingToDo);
    assert_eq!(supervisor.current_phase(), Phase::ShuttingDown);
    supervisor.finish_shutdown();
    assert_eq!(supervisor.request_shutdown(), ShutdownPlan::NothingToDo);
    assert_eq!(supervisor.current_phase(), Phase::Stopped);
}

#[test]
fn stopping_a_process_asks_then_waits() {
    let log: RefCell<Vec<&str>> = RefCell::new(Vec::new());
    let verdict = stop_process(
        7u32,
        |p: u32| {
            log.borrow_mut().push("terminate");
            (p + 1, ExitReport::Done)
        },
        |p: u32| {
            assert_eq!(p, 8);
            log.borrow_mut().push("wait");
            ExitReport::Done
        },
    );
    assert_eq!(verdict, Ok(()));
    assert_eq!(*log.borrow(), vec!["terminate", "wait"]);
}

#[test]
fn a_process_that_has_already_exited_is_no_failure() {
    let verdict = stop_process(
        7u32,
        |p: u32| (p, ExitReport::AlreadyExited),
        |_p: u32| ExitReport::AlreadyExited,
    );
    assert_eq!(verdict, Ok(()));
}

#[test]
fn no_wait_after_a_failed_request_to_terminate() {
    let waited = Cell::new(false);
    let verdict = stop_process(
        7u32,
        |p: u32| (p, ExitReport::Failed(String::from("denied"))),
        |_p: u32| {
            waited.set(true);
            ExitReport::Done
        },
    );
    assert_eq!(verdict, Err(ShutdownError::Terminate(String::from("denied"))));
    assert!(!waited.get());
}

#[test]
fn a_failed_wait_is_the_verdict() {
    let verdict = stop_process(
        7u32,
        |p: u32| (p, ExitReport::Done),
        |_p: u32| ExitReport::Failed(String::from("interrupted")),
    );
    assert_eq!(verdict, Err(ShutdownError::Wait(String::from("interrupted"))));
}

#[test]
fn a_plan_with_nothing_to_do_makes_no_request() {
    let touched = Cell::new(false);
    let verdict = run_shutdown(
        ShutdownPlan::<u32>::NothingToDo,
        |p: u32| {
            touched.set(true);
            (p, ExitReport::Done)
        },
        |_p: u32| {
            touched.set(true);
            ExitReport::Done
        },
    );
    assert_eq!(verdict, Ok(()));
    assert!(!touched.get());
    let verdict = run_shutdown(
        ShutdownPlan::Terminate(1u32),
        |p: u32| (p, ExitReport::Failed(String::from("denied"))),
        |_p: u32| ExitReport::Done,
    );
    assert_eq!(verdict, Err(ShutdownError::Terminate(String::from("denied"))));
}

#[test]
fn two_close_events_terminate_once() {
    let terminated = Cell::new(0);
    let mut supervisor: Supervisor<&str> = Supervisor::new();
    assert!(supervisor.begin_launch());
    assert!(supervisor.spawned());
    assert_eq!(supervisor.handshake_done("child", Ok(4000)), None);
    assert_eq!(supervisor.port(), Some(4000));
    let first = supervisor.shutdown(
        |p: &str| {
            terminated.set(terminated.get() + 1);
            (p, ExitReport::Done)
        },
        |_p: &str| ExitReport::Done,
    );
    let second = supervisor.shutdown(
        |p: &str| {
            terminated.set(terminated.get() + 1);
            (p, ExitReport::Done)
        },
        |_p: &str| ExitReport::Done,
    );
    assert_eq!(first, Ok(()));
    assert_eq!(second, Ok(()));
    assert_eq!(terminated.get(), 1);
    assert_eq!(supervisor.current_phase(), Phase::Stopped);
    assert_eq!(supervisor.current_endpoint(), None);
    assert_eq!(supervisor.port(), None);
}

#[test]
fn not_ready_after_a_shutdown_with_a_warning() {
    let mut supervisor: Supervisor<&str> = Supervisor::new();
    assert!(supervisor.begin_launch());
    assert!(supervisor.spawned());
    assert_eq!(supervisor.handshake_done("child", Ok(4000)), None);
    let verdict = supervisor.shutdown(
        |p: &str| (p, ExitReport::Done),
        |_p: &str| ExitReport::Failed(String::from("interrupted")),
    );
    assert_eq!(verdict, Err(ShutdownError::Wait(String::from("interrupted"))));
    assert_eq!(supervisor.current_phase(), Phase::Stopped);
    assert_eq!(supervisor.current_endpoint(), None);
}

#[test]
fn shutdown_of_a_supervisor_that_never_started() {
    let mut supervisor: Supervisor<&str> = Supervisor::new();
    let verdict = supervisor.shutdown(|p: &str| (p, ExitReport::Done), |_p: &str| ExitReport::Done);
    assert_eq!(verdict, Ok(()));
    assert_eq!(supervisor.current_phase(), Phase::Stopped);
    assert!(!supervisor.begin_launch());
    assert_eq!(supervisor.current_endpoint(), None);
}

#[test]
fn a_failed_launch_as_text() {
    let error = LaunchError { reason: String::from("No such file or directory (os error 2)") };
    assert_eq!(
        error.message(),
        "Failed to start API server: No such file or directory (os error 2)"
    );
}

#[test]
fn of_many_takes_one_receives_the_process() {
    let mut state: SupervisorState<&str> = SupervisorState::new();
    state.set_ready("child", 4000);
    let mut received = 0;
    let mut round = 0;
    while round < 5 {
        if let Some(process) = state.take_for_shutdown() {
            assert_eq!(process, "child");
            assert_eq!(round, 0);
            received += 1;
        }
        assert_eq!(state.current_endpoint(), None);
        round += 1;
    }
    assert_eq!(received, 1);
}
