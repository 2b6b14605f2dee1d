use compute_graph::exit_status::{
    AlwaysClean, ExitStatus, ServiceExitStatus, ServiceShouldTerminate, ShouldTerminateClean,
    ShouldTerminateWithStatus, WithStatus,
};

#[test]
fn exit_status_default_is_clean() {
    assert_eq!(ExitStatus::default(), ExitStatus::Clean);
}

#[test]
fn exit_status_predicates() {
    assert!(ExitStatus::Clean.is_clean());
    assert!(!ExitStatus::Clean.is_spurious());
    assert!(ExitStatus::Spurious.is_spurious());
    assert!(!ExitStatus::Spurious.is_clean());
    assert_eq!(ExitStatus::Clean.into_result(), Ok(()));
    assert_eq!(ExitStatus::Spurious.into_result(), Err(()));
}

#[test]
fn always_clean_reports_clean_for_any_value() {
    assert_eq!(AlwaysClean::new(5u32).exit_status(), ExitStatus::Clean);
    assert_eq!(AlwaysClean::new("x").exit_status(), ExitStatus::Clean);
    assert!(AlwaysClean::new(()).status_clean());
    assert!(!AlwaysClean::new(()).status_spurious());
}

#[test]
fn with_status_from_always_clean_keeps_value() {
    let with_status = WithStatus::from(AlwaysClean::new(42u32));
    assert_eq!(with_status.status, ExitStatus::Clean);
    assert_eq!(with_status.value, 42);
}

#[test]
fn should_terminate_with_status_from_clean_flag() {
    let terminate = ShouldTerminateWithStatus::from(ShouldTerminateClean::new(7u8, true));
    assert_eq!(terminate.value, 7);
    assert_eq!(terminate.should_terminate_status, Some(ExitStatus::Clean));

    let go_on = ShouldTerminateWithStatus::from(ShouldTerminateClean::new(8u8, false));
    assert_eq!(go_on.value, 8);
    assert_eq!(go_on.should_terminate_status, None);
}

#[test]
fn carrier_status_dominates_value_status() {
    let spurious_inside = WithStatus::new((), ExitStatus::Spurious);
    let routed = WithStatus::from(AlwaysClean::new(0u8).with_value(spurious_inside));
    assert_eq!(routed.exit_status(), ExitStatus::Clean);
    assert_eq!(routed.value.status, ExitStatus::Spurious);
}

#[test]
fn unit_conversions_do_not_terminate() {
    assert!(!ShouldTerminateClean::from(()).should_terminate());
    assert_eq!(ShouldTerminateWithStatus::from(()).should_terminate_status, None);
    assert_eq!(WithStatus::from(()).status, ExitStatus::Clean);
    assert_eq!(AlwaysClean::from(()).into_value(), ());
}

#[test]
fn flag_and_status_conversions() {
    assert!(ShouldTerminateClean::from(true).should_terminate());
    assert!(!ShouldTerminateClean::from(false).should_terminate);
    let spurious = ShouldTerminateWithStatus::from(ExitStatus::Spurious);
    assert_eq!(spurious.should_terminate_status, Some(ExitStatus::Spurious));
    assert!(spurious.should_terminate());
    let none = ShouldTerminateWithStatus::from(None);
    assert!(!none.should_terminate());
    assert_eq!(WithStatus::from(ExitStatus::Spurious).exit_status(), ExitStatus::Spurious);
}

#[test]
fn split_and_with_value_round_trip() {
    let (value, empty) = WithStatus::new(3u16, ExitStatus::Spurious).split();
    assert_eq!(value, 3);
    let back = empty.with_value(value);
    assert_eq!(back.value, 3);
    assert_eq!(back.status, ExitStatus::Spurious);

    let (value, empty) = ShouldTerminateClean::new("a", true).split();
    let back = empty.with_value(value);
    assert_eq!(back.value, "a");
    assert!(back.should_terminate);

    let (value, empty) = ShouldTerminateWithStatus::new(9i64, Some(ExitStatus::Clean)).split();
    let back = empty.with_value(value);
    assert_eq!(back.value, 9);
    assert_eq!(back.should_terminate_status, Some(ExitStatus::Clean));

    let (value, _) = AlwaysClean::new(vec![1u8, 2]).split();
    assert_eq!(value, vec![1u8, 2]);
}

#[test]
fn map_value_keeps_status() {
    let mapped = WithStatus::new(2u32, ExitStatus::Spurious).map_value(|v| v * 10);
    assert_eq!(mapped.value, 20);
    assert_eq!(mapped.status, ExitStatus::Spurious);

    let mapped = ShouldTerminateClean::new(1u8, true).map_value(|v| v + 1);
    assert_eq!(mapped.value, 2);
    assert!(mapped.should_terminate);

    let mapped = ShouldTerminateWithStatus::new(1u8, None).map_value(|v| v + 2);
    assert_eq!(mapped.value, 3);
    assert_eq!(mapped.should_terminate_status, None);

    assert_eq!(AlwaysClean::new(4u8).map_value(|v| v * 2).into_value(), 8);
}

#[test]
fn defaults_are_clean_and_do_not_terminate() {
    let with_status: WithStatus<u32> = WithStatus::default();
    assert_eq!(with_status.status, ExitStatus::Clean);
    assert_eq!(with_status.value, 0);
    let should_terminate: ShouldTerminateClean<u32> = ShouldTerminateClean::default();
    assert!(!should_terminate.should_terminate);
    let with_status_report: ShouldTerminateWithStatus<u32> = ShouldTerminateWithStatus::default();
    assert_eq!(with_status_report.should_terminate_status, None);
    let always_clean: AlwaysClean<u32> = AlwaysClean::default();
    assert_eq!(always_clean.into_value(), 0);
}
