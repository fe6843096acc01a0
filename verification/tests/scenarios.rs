use ios_push::bootstrap::registration_request;
use ios_push::bootstrap::RegistrationRequest;
use ios_push::dispatch::dispatch;
use ios_push::dispatch::parse_command;
use ios_push::Backend;
use ios_push::BridgeError;
use ios_push::BridgeFault;
use ios_push::DispatchReply;
use ios_push::Error;
use ios_push::ErrorKind;
use ios_push::IosPushExt;
use ios_push::Operation;
use ios_push::PermissionState;
use ios_push::Registry;

fn bridge_error(text: &str) -> BridgeError {
    BridgeError {
        message: text.to_owned(),
    }
}

#[test]
fn command_names_parse_to_their_operations() {
    assert_eq!(
        parse_command(b"request_push_permission"),
        Some(Operation::RequestPushPermission)
    );
    assert_eq!(
        parse_command(b"get_push_token"),
        Some(Operation::GetPushToken)
    );
    assert_eq!(parse_command(b"get_push_tokens"), None);
    assert_eq!(parse_command(b""), None);
}

#[test]
fn registration_requests_name_the_platform_bindings() {
    assert_eq!(
        registration_request(Backend::Ios),
        Some(RegistrationRequest::IosBinding)
    );
    assert_eq!(
        registration_request(Backend::Android),
        Some(RegistrationRequest::AndroidPlugin {
            package: b"app.tauri.iospush".to_vec(),
            class: b"IosPushPlugin".to_vec(),
        })
    );
    assert_eq!(registration_request(Backend::Desktop), None);
}

#[test]
fn failed_registration_is_fatal_to_bootstrap() {
    let r = ios_push::init(Backend::Android, Err(bridge_error("no such class")));
    assert_eq!(
        r,
        Err(Error::SetupFailure(bridge_error("no such class")))
    );
}

#[test]
fn failed_setup_registers_no_handle() {
    let mut registry = Registry::new();
    let r = ios_push::setup(
        &mut registry,
        Backend::Ios,
        Err(bridge_error("binding rejected")),
    );
    assert_eq!(
        r,
        Err(Error::SetupFailure(bridge_error("binding rejected")))
    );
    assert!(!registry.is_registered());
}

#[test]
fn desktop_bootstrap_cannot_fail() {
    let h = ios_push::init(Backend::Desktop, Ok(())).unwrap();
    assert_eq!(h.backend(), Backend::Desktop);
}

#[test]
fn accessor_returns_the_registered_handle_every_time() {
    let mut registry = Registry::new();
    let h = ios_push::init(Backend::Ios, Ok(())).unwrap();
    registry.register(h);
    let first = registry.ios_push();
    let second = registry.ios_push();
    assert_eq!(first, h);
    assert_eq!(second, h);
    assert_eq!(first, second);
}

#[test]
fn stub_dispatch_of_get_push_token_reports_unsupported() {
    let mut registry = Registry::new();
    ios_push::setup(&mut registry, Backend::Desktop, Ok(())).unwrap();
    assert!(registry.is_registered());
    let handle = registry.ios_push();
    assert_eq!(handle.backend(), Backend::Desktop);
    let op = parse_command(b"get_push_token").unwrap();
    assert_eq!(handle.bridge_operation(op), None);
    let reply = dispatch(&handle, op, None);
    match reply {
        DispatchReply::Failure { kind, message } => {
            assert_eq!(kind, ErrorKind::UnsupportedPlatform);
            assert_eq!(
                message,
                "push notifications are not supported on this platform"
            );
        }
        other => panic!("expected a failure, got {:?}", other),
    }
}

#[test]
fn mobile_dispatch_of_permission_request_returns_granted() {
    let mut registry = Registry::new();
    ios_push::setup(&mut registry, Backend::Ios, Ok(())).unwrap();
    let handle = registry.ios_push();
    assert_eq!(handle.backend(), Backend::Ios);
    let op = parse_command(b"request_push_permission").unwrap();
    assert_eq!(
        handle.bridge_operation(op),
        Some(b"requestPushPermission".to_vec())
    );
    let reply = dispatch(&handle, op, Some(Ok(b"granted".to_vec())));
    assert_eq!(reply, DispatchReply::Permission(PermissionState::Granted));
}

#[test]
fn dispatch_serializes_token_success_and_failure() {
    let h = ios_push::init(Backend::Android, Ok(())).unwrap();
    let ok = dispatch(
        &h,
        Operation::GetPushToken,
        Some(Ok(b"{\"token\":\"abc123\"}".to_vec())),
    );
    assert_eq!(ok, DispatchReply::Token(b"abc123".to_vec()));
    let failed = dispatch(
        &h,
        Operation::GetPushToken,
        Some(Err(bridge_error("bridge down"))),
    );
    assert_eq!(
        failed,
        DispatchReply::Failure {
            kind: ErrorKind::BridgeFailure,
            message: "bridge down".to_owned(),
        }
    );
}

#[test]
fn error_kinds_and_messages_are_exposed() {
    assert_eq!(
        Error::UnsupportedPlatform.kind(),
        ErrorKind::UnsupportedPlatform
    );
    let malformed = Error::BridgeFailure(BridgeFault::MalformedReply(b"junk".to_vec()));
    assert_eq!(malformed.kind(), ErrorKind::BridgeFailure);
    assert_eq!(malformed.message(), "malformed native bridge reply");
    let setup = Error::SetupFailure(bridge_error("missing binding"));
    assert_eq!(setup.kind(), ErrorKind::SetupFailure);
    assert_eq!(setup.message(), "missing binding");
}
