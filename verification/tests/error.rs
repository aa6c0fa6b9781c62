use led_widget::error::MonitorError;

#[test]
fn device_not_found_message() {
    let error = MonitorError::DeviceNotFound;
    assert_eq!(error.message(), "No device found");
    assert_eq!(error.diagnostic(), "Error: No device found");
    assert_eq!(error.exit_status(), 1);
}

#[test]
fn device_open_failure_message() {
    let error = MonitorError::DeviceOpenFailure(String::from("Permission denied (os error 13)"));
    assert_eq!(error.message(), "Permission denied (os error 13)");
    assert_eq!(error.diagnostic(), "Error: Permission denied (os error 13)");
    assert_eq!(error.exit_status(), 1);
}

#[test]
fn initial_state_query_failure_message() {
    let error = MonitorError::InitialStateQueryFailure(String::from("No such device (os error 19)"));
    assert_eq!(error.message(), "No such device (os error 19)");
    assert_eq!(error.diagnostic(), "Error: No such device (os error 19)");
    assert_eq!(error.exit_status(), 1);
}

#[test]
fn empty_reason_still_gives_a_diagnostic() {
    let error = MonitorError::DeviceOpenFailure(String::new());
    assert_eq!(error.message(), "");
    assert_eq!(error.diagnostic(), "Error: ");
}
