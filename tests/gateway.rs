use extron_control::command_loop::{Command, Reply};
use extron_control::device::ExtronDevice;
use extron_control::gateway::{
    list_devices_result, rescan_result, select_input_request, select_input_result,
    stop_server_result, CallError,
};
use extron_control::protocol::SelectError;
use extron_control::shutdown::ShutdownSignal;

#[test]
fn select_request_carries_name_and_input() {
    match select_input_request("A", "2") {
        Command::SelectInput { device_name, input_id } => {
            assert_eq!(device_name, "A");
            assert_eq!(input_id, "2");
        }
        other => panic!("unexpected command {:?}", other),
    }
}

#[test]
fn list_result_relays_devices() {
    let d = vec![ExtronDevice::new("/dev/ttyA", "A")];
    let r = list_devices_result(Some(Reply::ListDevices(d))).unwrap();
    assert_eq!(r.len(), 1);
    assert_eq!(r[0].name, "A");
    assert!(matches!(list_devices_result(None), Err(CallError::Internal)));
    assert!(matches!(list_devices_result(Some(Reply::RescanReply)), Err(CallError::Internal)));
}

#[test]
fn missing_or_wrong_replies_are_internal_errors() {
    assert!(rescan_result(Some(Reply::RescanReply)).is_ok());
    assert!(matches!(rescan_result(None), Err(CallError::Internal)));
    assert!(matches!(rescan_result(Some(Reply::StopReply)), Err(CallError::Internal)));
    assert!(stop_server_result(Some(Reply::StopReply)).is_ok());
    assert!(matches!(stop_server_result(None), Err(CallError::Internal)));
    assert!(matches!(select_input_result(None), Err(CallError::Internal)));
    assert!(matches!(select_input_result(Some(Reply::ListDevices(Vec::new()))), Err(CallError::Internal)));
}

#[test]
fn select_result_relays_the_outcome() {
    assert!(select_input_result(Some(Reply::Select(Ok(())))).is_ok());
    assert!(matches!(
        select_input_result(Some(Reply::Select(Err(SelectError::DeviceNotFound)))),
        Err(CallError::Select(SelectError::DeviceNotFound))
    ));
    match select_input_result(Some(Reply::Select(Err(SelectError::UnexpectedResponse("x".to_string()))))) {
        Err(CallError::Select(SelectError::UnexpectedResponse(l))) => assert_eq!(l, "x"),
        other => panic!("unexpected result {:?}", other),
    }
}

#[test]
fn stop_signal_refuses_later_connections() {
    let mut s = ShutdownSignal::new();
    assert!(s.admits_connections());
    assert!(s.fire());
    assert!(!s.admits_connections());
    assert!(!s.fire());
    assert!(!s.admits_connections());
}
