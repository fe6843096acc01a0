//! Platform backends and the capability handle.
//!
//! Exactly one backend is selected at bootstrap. The mobile backends forward
//! each operation to the native bridge; the desktop stub answers every call
//! with `UnsupportedPlatform` and never names a bridge operation. The host
//! shell performs the one native call per operation and hands its outcome
//! back in as plain bytes or a bridge error.

use vstd::prelude::*;

use crate::models::BridgeError;
use crate::models::BridgeFault;
use crate::models::Error;
use crate::models::PermissionState;
use crate::wire::parse_permission_spec;
use crate::wire::parse_permission_reply;
use crate::wire::parse_token_spec;
use crate::wire::parse_token_reply;

verus! {

/// The platform a backend talks to.
#[derive(Clone, Copy, Debug, PartialEq, Eq, Structural)]
pub enum Backend {
    /// Forwards to the registered iOS plugin binding.
    Ios,
    /// Forwards to the registered Android plugin class.
    Android,
    /// Desktop stub: no native push support; every call fails uniformly.
    Desktop,
}

/// The two operations the capability exposes.
#[derive(Clone, Copy, Debug, PartialEq, Eq, Structural)]
pub enum Operation {
    RequestPushPermission,
    GetPushToken,
}

/// The bytes of `requestPushPermission`, the bridge name of the permission
/// operation.
pub open spec fn request_permission_wire() -> Seq<u8> {
    seq![
        114u8, 101u8, 113u8, 117u8, 101u8, 115u8, 116u8, 80u8, 117u8, 115u8, 104u8, 80u8,
        101u8, 114u8, 109u8, 105u8, 115u8, 115u8, 105u8, 111u8, 110u8,
    ]
}

/// The bytes of `getPushToken`, the bridge name of the token operation.
pub open spec fn get_token_wire() -> Seq<u8> {
    seq![103u8, 101u8, 116u8, 80u8, 117u8, 115u8, 104u8, 84u8, 111u8, 107u8, 101u8, 110u8]
}

/// The bridge name of each operation.
pub open spec fn operation_wire(op: Operation) -> Seq<u8> {
    match op {
        Operation::RequestPushPermission => request_permission_wire(),
        Operation::GetPushToken => get_token_wire(),
    }
}

/// One native bridge round trip as the shell reports it: the reply bytes, or
/// the bridge's own error. `None` records that no call was made.
pub type BridgeOutcome = Option<Result<Vec<u8>, BridgeError>>;

/// The capability handle: the single per-process object fronting the
/// selected backend. Constructed only by bootstrap.
#[derive(Clone, Copy, Debug, PartialEq, Eq, Structural)]
pub struct IosPush {
    pub(crate) backend: Backend,
}

/// What a permission call returns, given the backend and the bridge outcome:
/// the stub refuses uniformly; otherwise a well-formed reply passes through
/// unmodified, malformed bytes and bridge errors become a `BridgeFailure`.
pub open spec fn permission_reply(backend: Backend, bridge: BridgeOutcome) -> Result<
    PermissionState,
    Error,
> {
    if backend is Desktop {
        Err(Error::UnsupportedPlatform)
    } else {
        match bridge {
            Some(Ok(payload)) => match parse_permission_spec(payload@) {
                Some(s) => Ok(s),
                None => Err(Error::BridgeFailure(BridgeFault::MalformedReply(payload))),
            },
            Some(Err(e)) => Err(Error::BridgeFailure(BridgeFault::Native(e))),
            None => arbitrary(),
        }
    }
}

/// What a token call returns, with the token as the bytes of its string:
/// the stub refuses uniformly; otherwise the token is unwrapped from the
/// reply structure, and malformed bytes and bridge errors become a
/// `BridgeFailure`.
pub open spec fn token_reply(backend: Backend, bridge: BridgeOutcome) -> Result<Seq<u8>, Error> {
    if backend is Desktop {
        Err(Error::UnsupportedPlatform)
    } else {
        match bridge {
            Some(Ok(payload)) => match parse_token_spec(payload@) {
                Some(t) => Ok(t),
                None => Err(Error::BridgeFailure(BridgeFault::MalformedReply(payload))),
            },
            Some(Err(e)) => Err(Error::BridgeFailure(BridgeFault::Native(e))),
            None => arbitrary(),
        }
    }
}

impl IosPush {
    /// The backend this handle fronts.
    pub closed spec fn backend_spec(&self) -> Backend {
        self.backend
    }

    /// Whether this handle fronts the desktop stub, which never calls the
    /// native bridge.
    pub open spec fn is_stub(&self) -> bool {
        self.backend_spec() is Desktop
    }

    /// The handle fronting `backend`; only bootstrap constructs one.
    pub(crate) fn for_backend(backend: Backend) -> (h: IosPush)
        ensures
            h.backend_spec() == backend,
    {
        IosPush { backend }
    }

    /// The backend, readable at run time.
    pub fn backend(&self) -> (b: Backend)
        ensures
            b == self.backend_spec(),
    {
        self.backend
    }

    /// The bridge operation the shell must invoke for `op`: its wire name on
    /// a mobile backend, nothing on the stub, which makes no native call.
    pub fn bridge_operation(&self, op: Operation) -> (r: Option<Vec<u8>>)
        ensures
            r is Some <==> !self.is_stub(),
            r matches Some(name) ==> name@ == operation_wire(op),
    {
        match self.backend {
            Backend::Desktop => None,
            _ => {
                let name: Vec<u8> = match op {
                    Operation::RequestPushPermission => vec![
                        114, 101, 113, 117, 101, 115, 116, 80, 117, 115, 104, 80, 101, 114,
                        109, 105, 115, 115, 105, 111, 110,
                    ],
                    Operation::GetPushToken => vec![
                        103, 101, 116, 80, 117, 115, 104, 84, 111, 107, 101, 110,
                    ],
                };
                proof {
                    assert(name@ =~= operation_wire(op));
                }
                Some(name)
            },
        }
    }

    /// Asks for push permission. `bridge` is the outcome of the one native
    /// call the shell made for this operation; the stub takes `None`.
    pub fn request_push_permission(&self, bridge: BridgeOutcome) -> (r: Result<
        PermissionState,
        Error,
    >)
        requires
            self.is_stub() || bridge is Some,
        ensures
            r == permission_reply(self.backend_spec(), bridge),
    {
        match self.backend {
            Backend::Desktop => Err(Error::UnsupportedPlatform),
            _ => match bridge {
                Some(Ok(payload)) => match parse_permission_reply(payload.as_slice()) {
                    Some(s) => Ok(s),
                    None => Err(Error::BridgeFailure(BridgeFault::MalformedReply(payload))),
                },
                Some(Err(e)) => Err(Error::BridgeFailure(BridgeFault::Native(e))),
                None => {
                    proof {
                        assert(false);
                    }
                    Err(Error::UnsupportedPlatform)
                },
            },
        }
    }

    /// Fetches the push token, as the bytes of the token string. `bridge` is
    /// the outcome of the one native call the shell made for this operation;
    /// the stub takes `None`.
    pub fn get_push_token(&self, bridge: BridgeOutcome) -> (r: Result<Vec<u8>, Error>)
        requires
            self.is_stub() || bridge is Some,
        ensures
            r matches Ok(v) ==> token_reply(self.backend_spec(), bridge) == Ok::<Seq<u8>, Error>(
                v@,
            ),
            r matches Err(e) ==> token_reply(self.backend_spec(), bridge) == Err::<
                Seq<u8>,
                Error,
            >(e),
    {
        match self.backend {
            Backend::Desktop => Err(Error::UnsupportedPlatform),
            _ => match bridge {
                Some(Ok(payload)) => match parse_token_reply(payload.as_slice()) {
                    Some(v) => Ok(v),
                    None => Err(Error::BridgeFailure(BridgeFault::MalformedReply(payload))),
                },
                Some(Err(e)) => Err(Error::BridgeFailure(BridgeFault::Native(e))),
                None => {
                    proof {
                        assert(false);
                    }
                    Err(Error::UnsupportedPlatform)
                },
            },
        }
    }
}

/// Law: every call returns exactly one of a success value or a structured
/// error — never both, never neither.
pub proof fn lemma_reply_exclusive(backend: Backend, bridge: BridgeOutcome)
    ensures
        permission_reply(backend, bridge) is Ok <==> !(permission_reply(backend, bridge) is Err),
        token_reply(backend, bridge) is Ok <==> !(token_reply(backend, bridge) is Err),
{
}

/// Law: the desktop stub answers every call, whatever outcome is handed in,
/// with `UnsupportedPlatform` and nothing else. Together with
/// `bridge_operation`, which names no operation on the stub, this says the
/// stub never attempts a native call.
pub proof fn lemma_stub_uniform(bridge: BridgeOutcome)
    ensures
        permission_reply(Backend::Desktop, bridge) == Err::<PermissionState, Error>(
            Error::UnsupportedPlatform,
        ),
        token_reply(Backend::Desktop, bridge) == Err::<Seq<u8>, Error>(
            Error::UnsupportedPlatform,
        ),
{
}

/// Law: on a backend whose bridge answers a permission request with a
/// well-formed permission value, the call returns that exact value
/// unmodified.
pub proof fn lemma_permission_passthrough(backend: Backend, payload: Vec<u8>, s: PermissionState)
    requires
        !(backend is Desktop),
        payload@ == crate::wire::permission_wire(s),
    ensures
        permission_reply(backend, Some(Ok(payload))) == Ok::<PermissionState, Error>(s),
{
    crate::wire::lemma_permission_round_trip(s);
}

/// Law: on a backend whose bridge answers a token request with a reply
/// structure wrapping a token, the call unwraps and returns exactly that
/// token.
pub proof fn lemma_token_unwrapped(backend: Backend, payload: Vec<u8>, t: Seq<u8>)
    requires
        !(backend is Desktop),
        payload@ == crate::wire::token_wire(t),
    ensures
        token_reply(backend, Some(Ok(payload))) == Ok::<Seq<u8>, Error>(t),
{
    crate::wire::lemma_token_round_trip(t);
}

/// Law: a bridge-level error surfaces as a `BridgeFailure` wrapping exactly
/// that error — not `UnsupportedPlatform`, and not a default value.
pub proof fn lemma_bridge_error_wrapped(backend: Backend, e: BridgeError)
    requires
        !(backend is Desktop),
    ensures
        permission_reply(backend, Some(Err(e))) == Err::<PermissionState, Error>(
            Error::BridgeFailure(BridgeFault::Native(e)),
        ),
        token_reply(backend, Some(Err(e))) == Err::<Seq<u8>, Error>(
            Error::BridgeFailure(BridgeFault::Native(e)),
        ),
{
}

/// The replies of two invocations standing concurrently in one process: one
/// caller's permission call, whose bridge round trip ended in `perm`, and an
/// independent caller's token call, whose round trip ended in `tok`.
pub open spec fn concurrent_replies(backend: Backend, perm: BridgeOutcome, tok: BridgeOutcome) -> (
    Result<PermissionState, Error>,
    Result<Seq<u8>, Error>,
) {
    (permission_reply(backend, perm), token_reply(backend, tok))
}

/// Law: concurrent invocations from independent callers do not interfere.
/// Each reply equals the one its own call determines, and changing the
/// outcome one call observed leaves the other call's reply unchanged.
pub proof fn lemma_calls_independent(
    backend: Backend,
    perm1: BridgeOutcome,
    perm2: BridgeOutcome,
    tok1: BridgeOutcome,
    tok2: BridgeOutcome,
)
    ensures
        concurrent_replies(backend, perm1, tok1).0 == permission_reply(backend, perm1),
        concurrent_replies(backend, perm1, tok1).1 == token_reply(backend, tok1),
        concurrent_replies(backend, perm1, tok1).0 == concurrent_replies(backend, perm1, tok2).0,
        concurrent_replies(backend, perm1, tok1).1 == concurrent_replies(backend, perm2, tok1).1,
{
}

} // verus!
