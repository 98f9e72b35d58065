use figex::cdp::client::map_ws_send_result;
use figex::error::RuntimeError;

#[test]
fn send_errors_map_to_attach_failed() {
    let error = map_ws_send_result(Err(()))
        .expect_err("send errors should map to attach failures");

    assert!(matches!(error, RuntimeError::AttachFailed));
}

#[test]
fn successful_sends_map_to_ok() {
    assert!(map_ws_send_result::<()>(Ok(())).is_ok());
}
