use compute_graph::event_loop::{
    biased_choice, feed_report, feed_report_clean, loop_exit, loop_exit_clean, stream_end,
    stream_end_clean,
};
use compute_graph::exit_status::{ExitStatus, ShouldTerminateClean, ShouldTerminateWithStatus};
use compute_graph::join::{aggregate_status, JoinEvent, JoinPhase, JoinState, JoinStep};
use compute_graph::robust_service::{
    Command, Supervisor, SupervisorConfig, SupervisorEvent, SupervisorPhase,
};
use compute_graph::service_state::ServiceState;

#[test]
fn biased_choice_takes_first_ready_branch() {
    assert_eq!(biased_choice(&vec![false, true, true]), Some(1));
    assert_eq!(biased_choice(&vec![true, true]), Some(0));
    assert_eq!(biased_choice(&vec![false, false]), None);
    assert_eq!(biased_choice(&vec![]), None);
}

#[test]
fn stream_end_and_feed_reports() {
    assert!(stream_end_clean().should_terminate);
    assert_eq!(stream_end(true).should_terminate_status, Some(ExitStatus::Spurious));
    assert_eq!(stream_end(false).should_terminate_status, Some(ExitStatus::Clean));
    assert!(!feed_report_clean(true).should_terminate);
    assert!(feed_report_clean(false).should_terminate);
    assert_eq!(feed_report(true).should_terminate_status, None);
    assert_eq!(feed_report(false).should_terminate_status, Some(ExitStatus::Spurious));
}

#[test]
fn loop_exit_follows_report() {
    assert!(loop_exit_clean(&ShouldTerminateClean::new(1u8, false)).is_none());
    assert!(loop_exit_clean(&ShouldTerminateClean::new(1u8, true)).is_some());
    assert!(loop_exit(&ShouldTerminateWithStatus::new((), None)).is_none());
    let exit = loop_exit(&ShouldTerminateWithStatus::new((), Some(ExitStatus::Spurious)));
    assert_eq!(exit.map(|carrier| carrier.status), Some(ExitStatus::Spurious));
}

// A stream of [0, 1, 2] forwarded to a draining sink: the loop ends cleanly
// when the stream ends, and the sink saw exactly the items.
#[test]
fn forwarding_loop_ends_clean_after_stream() {
    let mut stream = vec![0u32, 1, 2].into_iter();
    let mut drained = Vec::new();
    let exit = loop {
        let report = match stream.next() {
            Some(item) => {
                drained.push(item);
                feed_report_clean(true)
            }
            None => stream_end_clean(),
        };
        if let Some(exit) = loop_exit_clean(&report) {
            break exit;
        }
    };
    assert_eq!(exit.into_value(), ());
    assert_eq!(drained, vec![0, 1, 2]);
}

#[test]
fn join_cascades_on_spurious_service() {
    let mut join = JoinState::new(3);
    assert_eq!(join.phase(), JoinPhase::Watching);
    assert_eq!(
        join.step(JoinEvent::Exited { index: 2, status: Some(ExitStatus::Spurious) }),
        JoinStep::ShutdownAll
    );
    assert_eq!(join.phase(), JoinPhase::Cascading);
    assert_eq!(
        join.step(JoinEvent::Exited { index: 0, status: Some(ExitStatus::Clean) }),
        JoinStep::Wait
    );
    assert_eq!(join.step(JoinEvent::Drained), JoinStep::ReturnAwaited);
    assert_eq!(join.phase(), JoinPhase::Cascaded);
    let statuses = vec![ExitStatus::Clean, ExitStatus::Clean, ExitStatus::Spurious];
    assert_eq!(aggregate_status(&statuses), ExitStatus::Spurious);
}

#[test]
fn join_cascades_on_shutdown_and_on_taken_output() {
    let mut join = JoinState::new(2);
    assert_eq!(join.step(JoinEvent::ShutdownFired), JoinStep::ShutdownAll);
    assert_eq!(join.step(JoinEvent::ShutdownFired), JoinStep::Wait);

    let mut join = JoinState::new(2);
    assert_eq!(join.step(JoinEvent::Exited { index: 1, status: None }), JoinStep::ShutdownAll);
}

#[test]
fn join_takes_outputs_when_all_clean() {
    let mut join = JoinState::new(2);
    assert_eq!(
        join.step(JoinEvent::Exited { index: 1, status: Some(ExitStatus::Clean) }),
        JoinStep::Wait
    );
    assert_eq!(join.step(JoinEvent::Exited { index: 7, status: None }), JoinStep::Wait);
    assert_eq!(
        join.step(JoinEvent::Exited { index: 0, status: Some(ExitStatus::Clean) }),
        JoinStep::TakeOutputs
    );
    assert_eq!(join.phase(), JoinPhase::Joined);
    assert_eq!(join.step(JoinEvent::ShutdownFired), JoinStep::Wait);
    assert_eq!(aggregate_status(&vec![ExitStatus::Clean, ExitStatus::Clean]), ExitStatus::Clean);
    assert_eq!(aggregate_status(&vec![]), ExitStatus::Clean);
}

fn config(shutdown: bool, preemptive: bool, reporting: bool) -> SupervisorConfig {
    SupervisorConfig { shutdown, preemptive, reporting }
}

#[test]
fn supervisor_shutdown_before_first_service() {
    let mut supervisor = Supervisor::new(config(true, false, true));
    let action = supervisor.step(SupervisorEvent::ShutdownReceived);
    assert_eq!(action.command, Command::AbortConstruction { stop_service: false });
    assert_eq!(action.publish, None);
    assert_eq!(supervisor.phase(), SupervisorPhase::Done);
    let after = supervisor.step(SupervisorEvent::Constructed);
    assert_eq!(after.command, Command::Wait);
    assert_eq!(after.publish, None);
}

#[test]
fn supervisor_reactive_restart_publishes_down_then_up() {
    let mut supervisor = Supervisor::new(config(false, false, true));
    let mut published = Vec::new();
    for event in [
        SupervisorEvent::Constructed,
        SupervisorEvent::ServiceExited,
        SupervisorEvent::Constructed,
    ] {
        if let Some(state) = supervisor.step(event).publish {
            published.push(state);
        }
    }
    assert_eq!(published, vec![ServiceState::Up, ServiceState::Down, ServiceState::Up]);
    assert_eq!(supervisor.phase(), SupervisorPhase::Running);
}

#[test]
fn supervisor_exit_starts_construction() {
    let mut supervisor = Supervisor::new(config(false, false, false));
    assert_eq!(supervisor.step(SupervisorEvent::Constructed).command, Command::Install);
    let action = supervisor.step(SupervisorEvent::ServiceExited);
    assert_eq!(action.command, Command::Construct);
    assert_eq!(action.publish, None);
    assert!(supervisor.awaits_construction());
    assert!(!supervisor.awaits_service());
}

#[test]
fn supervisor_rotation_stays_up() {
    let mut supervisor = Supervisor::new(config(true, true, true));
    assert_eq!(supervisor.step(SupervisorEvent::Constructed).publish, Some(ServiceState::Up));
    for _ in 0..3 {
        assert!(supervisor.awaits_tick());
        let tick = supervisor.step(SupervisorEvent::ReplacementTick);
        assert_eq!(tick.command, Command::Construct);
        assert_eq!(tick.publish, None);
        assert!(supervisor.awaits_service());
        assert!(supervisor.awaits_construction());
        let swap = supervisor.step(SupervisorEvent::Constructed);
        assert_eq!(swap.command, Command::Install);
        assert_eq!(swap.publish, None);
    }
    let stop = supervisor.step(SupervisorEvent::ShutdownReceived);
    assert_eq!(stop.command, Command::StopService);
}

#[test]
fn supervisor_old_service_exits_during_rotation() {
    let mut supervisor = Supervisor::new(config(true, true, true));
    supervisor.step(SupervisorEvent::Constructed);
    supervisor.step(SupervisorEvent::ReplacementTick);
    let exit = supervisor.step(SupervisorEvent::ServiceExited);
    assert_eq!(exit.publish, Some(ServiceState::Down));
    assert_eq!(exit.command, Command::Wait);
    let up = supervisor.step(SupervisorEvent::Constructed);
    assert_eq!(up.publish, Some(ServiceState::Up));
}

#[test]
fn supervisor_shutdown_during_rotation_stops_both() {
    let mut supervisor = Supervisor::new(config(true, true, false));
    supervisor.step(SupervisorEvent::Constructed);
    supervisor.step(SupervisorEvent::ReplacementTick);
    let stop = supervisor.step(SupervisorEvent::ShutdownReceived);
    assert_eq!(stop.command, Command::AbortConstruction { stop_service: true });
}

#[test]
fn supervisor_without_shutdown_ignores_signal() {
    let mut supervisor = Supervisor::new(config(false, false, false));
    supervisor.step(SupervisorEvent::Constructed);
    assert_eq!(supervisor.step(SupervisorEvent::ShutdownReceived).command, Command::Wait);
    assert_eq!(supervisor.step(SupervisorEvent::ReplacementTick).command, Command::Wait);
    assert_eq!(supervisor.phase(), SupervisorPhase::Running);
}

#[test]
fn service_state_default_is_down() {
    assert_eq!(ServiceState::default(), ServiceState::Down);
}

#[test]
fn join_of_no_services_waits_for_shutdown() {
    let mut join = JoinState::new(0);
    assert_eq!(join.step(JoinEvent::Exited { index: 0, status: None }), JoinStep::Wait);
    assert_eq!(join.step(JoinEvent::ShutdownFired), JoinStep::ShutdownAll);
    assert_eq!(join.step(JoinEvent::Drained), JoinStep::ReturnAwaited);
}
