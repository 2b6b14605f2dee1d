use compute_graph::exit_status::{ExitStatus, WithStatus};
use compute_graph::service_handle::{
    CancellableServiceHandle, ServiceHandle, ServicePollPlan, SignallableServiceHandle,
};
use compute_graph::task_handle::{
    CancellableTaskHandle, ParallelCancellableTaskHandle, ParallelSignallableTaskHandle, PollPlan,
    SignallableTaskHandle, TaskHandle,
};

fn runtime() -> tokio::runtime::Runtime {
    tokio::runtime::Runtime::new().unwrap()
}

#[test]
fn cancellable_task_over_ready_value_yields_it() {
    let handle = CancellableTaskHandle::new(async { 42u32 });
    assert_eq!(handle.poll_plan(), PollPlan::PollWork);
    match handle {
        CancellableTaskHandle::Future(future) => {
            assert_eq!(futures::executor::block_on(future), 42)
        }
        _ => panic!("a new handle holds its future"),
    }
}

#[test]
fn cancellable_task_abort_yields_default_then_finishes() {
    let mut handle = CancellableTaskHandle::new(async { Some(42u32) });
    handle.abort();
    assert_eq!(handle.poll_plan(), PollPlan::YieldDefault);
    handle.abort();
    assert_eq!(handle.poll_plan(), PollPlan::YieldDefault);
    handle.finish();
    assert!(handle.is_terminated());
    assert_eq!(handle.poll_plan(), PollPlan::AlreadyFinished);
}

#[test]
fn signallable_task_abort_sends_signal_once() {
    let (sender, mut receiver) = tokio::sync::oneshot::channel::<()>();
    let mut handle = SignallableTaskHandle::new(async { 1u8 }, sender);
    assert_eq!(handle.poll_plan(), PollPlan::PollWork);
    handle.abort();
    assert_eq!(receiver.try_recv(), Ok(()));
    handle.abort();
    assert_eq!(handle.poll_plan(), PollPlan::PollWork);
    handle.finish();
    assert!(handle.is_terminated());
    assert_eq!(handle.poll_plan(), PollPlan::AlreadyFinished);
}

#[test]
fn parallel_cancellable_task_runs_on_the_runtime() {
    let rt = runtime();
    let handle = ParallelCancellableTaskHandle::new(rt.handle(), async { 5u64 });
    assert_eq!(handle.poll_plan(), PollPlan::PollWork);
    match handle {
        ParallelCancellableTaskHandle::Handle(join_handle) => {
            assert_eq!(rt.block_on(join_handle).unwrap(), 5)
        }
        ParallelCancellableTaskHandle::Finished => panic!("a new handle holds its task"),
    }
}

#[test]
fn parallel_cancellable_abort_gives_default_output() {
    let rt = runtime();
    let mut handle = ParallelCancellableTaskHandle::new(rt.handle(), async {
        tokio::time::sleep(std::time::Duration::from_secs(60)).await;
        7u32
    });
    handle.abort();
    let result = match &mut handle {
        ParallelCancellableTaskHandle::Handle(join_handle) => rt.block_on(join_handle),
        ParallelCancellableTaskHandle::Finished => panic!("a new handle holds its task"),
    };
    assert!(result.is_err());
    let output = ParallelCancellableTaskHandle::<u32>::unwrap_output_result(result);
    assert_eq!(output.unwrap(), 0);
    handle.finish();
    assert!(handle.is_terminated());
}

#[test]
fn parallel_signallable_abort_sends_signal() {
    let rt = runtime();
    let (sender, receiver) = tokio::sync::oneshot::channel::<()>();
    let mut handle = ParallelSignallableTaskHandle::new(
        rt.handle(),
        async move {
            let _ = receiver.await;
            3u8
        },
        sender,
    );
    handle.abort();
    handle.abort();
    let output = match &mut handle {
        ParallelSignallableTaskHandle::Handle { handle, .. } => rt.block_on(handle).unwrap(),
        ParallelSignallableTaskHandle::Finished => panic!("a new handle holds its task"),
    };
    assert_eq!(output, 3);
}

#[test]
fn take_output_gives_output_once() {
    let rt = runtime();
    let join_handle = rt.spawn(async { WithStatus::new(11u32, ExitStatus::Spurious) });
    let mut handle = CancellableServiceHandle::new(join_handle);
    assert!(handle.take_output().is_none());
    assert!(handle.take_output().is_none());
    assert_eq!(handle.poll_plan(), ServicePollPlan::PollTask);
    let result = match &mut handle {
        CancellableServiceHandle::Handle(join_handle) => rt.block_on(join_handle),
        _ => panic!("a new handle holds its task"),
    };
    let output = CancellableServiceHandle::unwrap_output_result(result).unwrap();
    handle.complete(output);
    assert_eq!(handle.settled_exit_status(), Some(ExitStatus::Spurious));
    assert_eq!(handle.poll_plan(), ServicePollPlan::YieldHeld);
    let taken = handle.take_output().unwrap();
    assert_eq!(taken.value, 11);
    assert!(handle.take_output().is_none());
    assert!(handle.take_output().is_none());
    assert!(handle.is_terminated());
    assert_eq!(handle.settled_exit_status(), None);
    assert_eq!(handle.poll_plan(), ServicePollPlan::AlreadyTaken);
}

#[test]
fn cancelled_service_output_is_clean_default() {
    let rt = runtime();
    let join_handle = rt.spawn(async {
        tokio::time::sleep(std::time::Duration::from_secs(60)).await;
        WithStatus::new(1u32, ExitStatus::Spurious)
    });
    let mut handle = CancellableServiceHandle::new(join_handle);
    handle.shutdown();
    handle.shutdown();
    let result = match &mut handle {
        CancellableServiceHandle::Handle(join_handle) => rt.block_on(join_handle),
        _ => panic!("a new handle holds its task"),
    };
    let output = CancellableServiceHandle::unwrap_output_result(result).unwrap();
    assert_eq!(output.status, ExitStatus::Clean);
    assert_eq!(output.value, 0);
    handle.finish_polled();
    assert!(handle.is_terminated());
    assert!(handle.take_output().is_none());
}

#[test]
fn signallable_service_shutdown_signals_once_and_output_is_taken_once() {
    let rt = runtime();
    let (sender, receiver) = tokio::sync::oneshot::channel::<()>();
    let join_handle = rt.spawn(async move {
        let _ = receiver.await;
        WithStatus::new(5u8, ExitStatus::Clean)
    });
    let mut handle = SignallableServiceHandle::new(join_handle, sender);
    handle.shutdown();
    handle.shutdown();
    let output = match &mut handle {
        SignallableServiceHandle::Handle { handle, .. } => rt.block_on(handle).unwrap(),
        _ => panic!("a new handle holds its task"),
    };
    handle.complete(output);
    assert_eq!(handle.settled_exit_status(), Some(ExitStatus::Clean));
    assert_eq!(handle.take_output().map(|output| output.value), Some(5));
    assert!(handle.take_output().is_none());
    assert_eq!(handle.settled_exit_status(), None);
}

#[test]
fn spawning_needs_no_runtime_in_the_caller() {
    let rt = runtime();
    let handle = ParallelCancellableTaskHandle::new(rt.handle(), async { Some(42u32) });
    let output = match handle {
        ParallelCancellableTaskHandle::Handle(join_handle) => rt.block_on(join_handle),
        ParallelCancellableTaskHandle::Finished => panic!("a new handle holds its task"),
    };
    assert_eq!(ParallelCancellableTaskHandle::unwrap_output_result(output).unwrap(), Some(42));
}

#[test]
fn aborted_forked_task_gives_none() {
    let rt = runtime();
    let mut handle = ParallelCancellableTaskHandle::new(rt.handle(), async {
        tokio::time::sleep(std::time::Duration::from_millis(100)).await;
        Some(42u32)
    });
    handle.abort();
    let output = match &mut handle {
        ParallelCancellableTaskHandle::Handle(join_handle) => rt.block_on(join_handle),
        ParallelCancellableTaskHandle::Finished => panic!("a new handle holds its task"),
    };
    assert_eq!(ParallelCancellableTaskHandle::unwrap_output_result(output).unwrap(), None);
}
