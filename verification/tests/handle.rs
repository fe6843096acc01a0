use ios_push::Backend;
use ios_push::BridgeError;
use ios_push::BridgeFault;
use ios_push::Error;
use ios_push::IosPush;
use ios_push::Operation;
use ios_push::PermissionState;

fn handle(backend: Backend) -> IosPush {
    ios_push::init(backend, Ok(())).expect("bootstrap cannot fail with a registered bridge")
}

fn bridge_error(text: &str) -> BridgeError {
    BridgeError {
        message: text.to_owned(),
    }
}

#[test]
fn stub_returns_unsupported_and_names_no_operation() {
    let h = handle(Backend::Desktop);
    assert_eq!(
        h.request_push_permission(None),
        Err(Error::UnsupportedPlatform)
    );
    assert_eq!(h.get_push_token(None), Err(Error::UnsupportedPlatform));
    assert_eq!(h.bridge_operation(Operation::RequestPushPermission), None);
    assert_eq!(h.bridge_operation(Operation::GetPushToken), None);
}

#[test]
fn mobile_backends_name_the_bridge_operations() {
    for backend in [Backend::Ios, Backend::Android] {
        let h = handle(backend);
        assert_eq!(
            h.bridge_operation(Operation::RequestPushPermission),
            Some(b"requestPushPermission".to_vec())
        );
        assert_eq!(
            h.bridge_operation(Operation::GetPushToken),
            Some(b"getPushToken".to_vec())
        );
    }
}

#[test]
fn well_formed_permission_value_passes_through_unmodified() {
    let h = handle(Backend::Ios);
    assert_eq!(
        h.request_push_permission(Some(Ok(b"granted".to_vec()))),
        Ok(PermissionState::Granted)
    );
    assert_eq!(
        h.request_push_permission(Some(Ok(b"denied".to_vec()))),
        Ok(PermissionState::Denied)
    );
    assert_eq!(
        h.request_push_permission(Some(Ok(b"prompt".to_vec()))),
        Ok(PermissionState::Prompt)
    );
}

#[test]
fn token_response_is_unwrapped_exactly() {
    let h = handle(Backend::Android);
    assert_eq!(
        h.get_push_token(Some(Ok(b"{\"token\":\"abc123\"}".to_vec()))),
        Ok(b"abc123".to_vec())
    );
}

#[test]
fn bridge_error_surfaces_as_bridge_failure() {
    let h = handle(Backend::Ios);
    assert_eq!(
        h.request_push_permission(Some(Err(bridge_error("native exception")))),
        Err(Error::BridgeFailure(BridgeFault::Native(bridge_error(
            "native exception"
        ))))
    );
    assert_eq!(
        h.get_push_token(Some(Err(bridge_error("plugin not registered")))),
        Err(Error::BridgeFailure(BridgeFault::Native(bridge_error(
            "plugin not registered"
        ))))
    );
}

#[test]
fn malformed_reply_surfaces_as_bridge_failure() {
    let h = handle(Backend::Ios);
    assert_eq!(
        h.request_push_permission(Some(Ok(b"maybe".to_vec()))),
        Err(Error::BridgeFailure(BridgeFault::MalformedReply(
            b"maybe".to_vec()
        )))
    );
    assert_eq!(
        h.get_push_token(Some(Ok(b"no token here".to_vec()))),
        Err(Error::BridgeFailure(BridgeFault::MalformedReply(
            b"no token here".to_vec()
        )))
    );
}

#[test]
fn every_call_returns_exactly_one_of_success_or_error() {
    let h = handle(Backend::Ios);
    let outcomes: Vec<Option<Result<Vec<u8>, BridgeError>>> = vec![
        Some(Ok(b"granted".to_vec())),
        Some(Ok(b"gibberish".to_vec())),
        Some(Err(bridge_error("boom"))),
    ];
    for outcome in outcomes {
        let reply = h.request_push_permission(outcome);
        assert!(reply.is_ok() != reply.is_err());
    }
    let stub = handle(Backend::Desktop);
    let reply = stub.get_push_token(None);
    assert!(reply.is_ok() != reply.is_err());
}

#[test]
fn interleaved_calls_do_not_interfere() {
    let h = handle(Backend::Ios);
    let permission = h.request_push_permission(Some(Ok(b"granted".to_vec())));
    let token = h.get_push_token(Some(Err(bridge_error("token fetch failed"))));
    let permission_again = h.request_push_permission(Some(Ok(b"denied".to_vec())));
    assert_eq!(permission, Ok(PermissionState::Granted));
    assert_eq!(
        token,
        Err(Error::BridgeFailure(BridgeFault::Native(bridge_error(
            "token fetch failed"
        ))))
    );
    assert_eq!(permission_again, Ok(PermissionState::Denied));
}
