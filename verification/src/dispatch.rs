//! Command dispatcher: the boundary layer between hosted content and the
//! capability handle.
//!
//! Hosted content names an operation (`request_push_permission` or
//! `get_push_token`) with no payload. The dispatcher forwards it to the
//! handle and serializes the outcome into a shape the content can branch on:
//! the plain success value, or an error kind with a diagnostic message.

use vstd::prelude::*;

use crate::backend::BridgeOutcome;
use crate::backend::IosPush;
use crate::backend::Operation;
use crate::backend::permission_reply;
use crate::backend::token_reply;
use crate::models::Error;
use crate::models::ErrorKind;
use crate::models::PermissionState;
use crate::wire::bytes_eq;

verus! {

/// The bytes of `request_push_permission`, the external command name.
pub open spec fn request_permission_command() -> Seq<u8> {
    seq![
        114u8, 101u8, 113u8, 117u8, 101u8, 115u8, 116u8, 95u8, 112u8, 117u8, 115u8, 104u8,
        95u8, 112u8, 101u8, 114u8, 109u8, 105u8, 115u8, 115u8, 105u8, 111u8, 110u8,
    ]
}

/// The bytes of `get_push_token`, the external command name.
pub open spec fn get_token_command() -> Seq<u8> {
    seq![103u8, 101u8, 116u8, 95u8, 112u8, 117u8, 115u8, 104u8, 95u8, 116u8, 111u8, 107u8,
        101u8, 110u8]
}

/// Which operation an external command name stands for, if any.
pub open spec fn command_of_name(n: Seq<u8>) -> Option<Operation> {
    if n == request_permission_command() {
        Some(Operation::RequestPushPermission)
    } else if n == get_token_command() {
        Some(Operation::GetPushToken)
    } else {
        None
    }
}

/// Reads an external command name.
pub fn parse_command(name: &[u8]) -> (r: Option<Operation>)
    ensures
        r == command_of_name(name@),
{
    let req: Vec<u8> = vec![
        114, 101, 113, 117, 101, 115, 116, 95, 112, 117, 115, 104, 95, 112, 101, 114, 109,
        105, 115, 115, 105, 111, 110,
    ];
    proof {
        assert(req@ =~= request_permission_command());
    }
    if bytes_eq(name, req.as_slice()) {
        return Some(Operation::RequestPushPermission);
    }
    let get: Vec<u8> = vec![103, 101, 116, 95, 112, 117, 115, 104, 95, 116, 111, 107, 101, 110];
    proof {
        assert(get@ =~= get_token_command());
    }
    if bytes_eq(name, get.as_slice()) {
        return Some(Operation::GetPushToken);
    }
    None
}

/// What goes back across the content boundary: a success value, or an error
/// kind and message the content can inspect.
#[derive(Debug, PartialEq, Eq)]
pub enum DispatchReply {
    /// Success of `request_push_permission`.
    Permission(PermissionState),
    /// Success of `get_push_token`: the bytes of the token string.
    Token(Vec<u8>),
    /// Failure of either operation.
    Failure { kind: ErrorKind, message: String },
}

/// Serializes a permission result.
pub fn respond_permission(res: Result<PermissionState, Error>) -> (r: DispatchReply)
    ensures
        res matches Ok(s) ==> r == DispatchReply::Permission(s),
        res matches Err(e) ==> (r matches DispatchReply::Failure { kind, message } && kind
            == e.kind_spec() && message@ == e.message_view()),
{
    match res {
        Ok(s) => DispatchReply::Permission(s),
        Err(e) => DispatchReply::Failure { kind: e.kind(), message: e.message() },
    }
}

/// Serializes a token result.
pub fn respond_token(res: Result<Vec<u8>, Error>) -> (r: DispatchReply)
    ensures
        res matches Ok(v) ==> r == DispatchReply::Token(v),
        res matches Err(e) ==> (r matches DispatchReply::Failure { kind, message } && kind
            == e.kind_spec() && message@ == e.message_view()),
{
    match res {
        Ok(v) => DispatchReply::Token(v),
        Err(e) => DispatchReply::Failure { kind: e.kind(), message: e.message() },
    }
}

/// Services one invocation: forwards the named operation to the handle and
/// serializes what comes back. `bridge` is the outcome of the one native
/// call the shell made for this invocation; on the stub no call is made and
/// it is `None`.
pub fn dispatch(handle: &IosPush, op: Operation, bridge: BridgeOutcome) -> (r: DispatchReply)
    requires
        handle.is_stub() || bridge is Some,
    ensures
        op is RequestPushPermission ==> (match permission_reply(handle.backend_spec(), bridge) {
            Ok(s) => r == DispatchReply::Permission(s),
            Err(e) => r matches DispatchReply::Failure { kind, message } && kind == e.kind_spec()
                && message@ == e.message_view(),
        }),
        op is GetPushToken ==> (match token_reply(handle.backend_spec(), bridge) {
            Ok(t) => r matches DispatchReply::Token(v) && v@ == t,
            Err(e) => r matches DispatchReply::Failure { kind, message } && kind == e.kind_spec()
                && message@ == e.message_view(),
        }),
{
    match op {
        Operation::RequestPushPermission => respond_permission(
            handle.request_push_permission(bridge),
        ),
        Operation::GetPushToken => respond_token(handle.get_push_token(bridge)),
    }
}

} // verus!
