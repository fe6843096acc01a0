//! Data model of the push capability: permission outcomes and the uniform
//! error taxonomy shared by every backend.

use vstd::prelude::*;

verus! {

/// Outcome of a permission request, as reported by a platform backend.
#[derive(Clone, Copy, Debug, PartialEq, Eq, Structural)]
pub enum PermissionState {
    /// The user granted push permission.
    Granted,
    /// The user denied push permission.
    Denied,
    /// The user has not been asked yet.
    Prompt,
}

/// An error raised by the native bridge itself: a missing registered plugin,
/// a native-side exception, or any other failure of the invocation channel.
#[derive(Debug, PartialEq, Eq)]
pub struct BridgeError {
    pub message: String,
}

/// Why a bridge invocation did not produce a usable value.
#[derive(Debug, PartialEq, Eq)]
pub enum BridgeFault {
    /// The bridge reported an error of its own; it is kept for diagnostics.
    Native(BridgeError),
    /// The bridge answered, but the reply bytes did not parse; the offending
    /// bytes are kept for diagnostics.
    MalformedReply(Vec<u8>),
}

/// The uniform error shape every capability operation returns.
#[derive(Debug, PartialEq, Eq)]
pub enum Error {
    /// The active backend is the desktop stub; no native push support exists.
    UnsupportedPlatform,
    /// A native bridge invocation failed; wraps the underlying fault.
    BridgeFailure(BridgeFault),
    /// Bootstrap could not register the native bridge; wraps the bridge error.
    SetupFailure(BridgeError),
}

/// Discriminant of `Error`, exposed to hosted content so it can branch on
/// the failure category without inspecting the message.
#[derive(Clone, Copy, Debug, PartialEq, Eq, Structural)]
pub enum ErrorKind {
    UnsupportedPlatform,
    BridgeFailure,
    SetupFailure,
}

impl Error {
    /// The category of this error.
    pub open spec fn kind_spec(&self) -> ErrorKind {
        match self {
            Error::UnsupportedPlatform => ErrorKind::UnsupportedPlatform,
            Error::BridgeFailure(_) => ErrorKind::BridgeFailure,
            Error::SetupFailure(_) => ErrorKind::SetupFailure,
        }
    }

    /// The diagnostic text this error carries: the native bridge's own
    /// message where one exists, a fixed description otherwise.
    pub open spec fn message_view(&self) -> Seq<char> {
        match self {
            Error::UnsupportedPlatform => "push notifications are not supported on this platform"@,
            Error::BridgeFailure(BridgeFault::Native(e)) => e.message@,
            Error::BridgeFailure(BridgeFault::MalformedReply(_)) => "malformed native bridge reply"@,
            Error::SetupFailure(e) => e.message@,
        }
    }

    pub fn kind(&self) -> (k: ErrorKind)
        ensures
            k == self.kind_spec(),
    {
        match self {
            Error::UnsupportedPlatform => ErrorKind::UnsupportedPlatform,
            Error::BridgeFailure(_) => ErrorKind::BridgeFailure,
            Error::SetupFailure(_) => ErrorKind::SetupFailure,
        }
    }

    pub fn message(&self) -> (m: String)
        ensures
            m@ == self.message_view(),
    {
        match self {
            Error::UnsupportedPlatform => "push notifications are not supported on this platform".to_owned(),
            Error::BridgeFailure(BridgeFault::Native(e)) => e.message.clone(),
            Error::BridgeFailure(BridgeFault::MalformedReply(_)) => "malformed native bridge reply".to_owned(),
            Error::SetupFailure(e) => e.message.clone(),
        }
    }
}

} // verus!
