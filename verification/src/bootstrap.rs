//! One-time initialization: backend selection, bridge registration, and
//! construction of the capability handle.
//!
//! The host shell passes the compile target's backend in explicitly, performs
//! the one registration this module asks for, and hands the outcome back.
//! Registration failure on a mobile backend is fatal to the whole plugin; the
//! desktop stub needs no registration and cannot fail.

use vstd::prelude::*;

use crate::backend::Backend;
use crate::backend::IosPush;
use crate::models::BridgeError;
use crate::models::Error;
use crate::registry::Registry;

verus! {

/// The bytes of `app.tauri.iospush`, the Android plugin's package name.
pub open spec fn android_package() -> Seq<u8> {
    seq![
        97u8, 112u8, 112u8, 46u8, 116u8, 97u8, 117u8, 114u8, 105u8, 46u8, 105u8, 111u8,
        115u8, 112u8, 117u8, 115u8, 104u8,
    ]
}

/// The bytes of `IosPushPlugin`, the Android plugin's class name.
pub open spec fn android_class() -> Seq<u8> {
    seq![73u8, 111u8, 115u8, 80u8, 117u8, 115u8, 104u8, 80u8, 108u8, 117u8, 103u8, 105u8, 110u8]
}

/// What the shell must register with the platform layer before the backend
/// can forward calls.
#[derive(Debug, PartialEq, Eq)]
pub enum RegistrationRequest {
    /// iOS: the statically linked plugin binding.
    IosBinding,
    /// Android: the named plugin class inside the named package.
    AndroidPlugin { package: Vec<u8>, class: Vec<u8> },
}

/// The registration a backend needs: the iOS binding, the Android plugin
/// class, or nothing for the desktop stub.
pub fn registration_request(backend: Backend) -> (r: Option<RegistrationRequest>)
    ensures
        r is Some <==> !(backend is Desktop),
        backend is Ios ==> r == Some(RegistrationRequest::IosBinding),
        backend is Android ==> (r matches Some(
            RegistrationRequest::AndroidPlugin { package, class },
        ) && package@ == android_package() && class@ == android_class()),
{
    match backend {
        Backend::Ios => Some(RegistrationRequest::IosBinding),
        Backend::Android => {
            let package: Vec<u8> = vec![
                97, 112, 112, 46, 116, 97, 117, 114, 105, 46, 105, 111, 115, 112, 117, 115, 104,
            ];
            let class: Vec<u8> = vec![73, 111, 115, 80, 117, 115, 104, 80, 108, 117, 103, 105,
                110];
            proof {
                assert(package@ =~= android_package());
                assert(class@ =~= android_class());
            }
            Some(RegistrationRequest::AndroidPlugin { package, class })
        },
        Backend::Desktop => None,
    }
}

/// Builds the capability handle for the selected backend. `registration` is
/// the outcome of the registration the shell performed (the desktop stub
/// needs none and succeeds whatever is handed in). A failed registration on
/// a mobile backend aborts initialization with a `SetupFailure` wrapping the
/// bridge error.
pub fn init(backend: Backend, registration: Result<(), BridgeError>) -> (r: Result<IosPush, Error>)
    ensures
        backend is Desktop || registration is Ok ==> (r matches Ok(h) && h.backend_spec()
            == backend),
        !(backend is Desktop) ==> (registration matches Err(e) ==> r == Err::<IosPush, Error>(
            Error::SetupFailure(e),
        )),
{
    match backend {
        Backend::Desktop => Ok(IosPush::for_backend(backend)),
        _ => match registration {
            Ok(_) => Ok(IosPush::for_backend(backend)),
            Err(e) => Err(Error::SetupFailure(e)),
        },
    }
}

/// The whole one-time setup: builds the handle for the selected backend and
/// registers it with the extension accessor. Succeeds exactly when the
/// backend needs no registration or the registration the shell performed
/// succeeded; a failure registers nothing, leaving the capability absent for
/// the whole application.
pub fn setup(
    registry: &mut Registry,
    backend: Backend,
    registration: Result<(), BridgeError>,
) -> (r: Result<(), Error>)
    requires
        old(registry).registered_spec() is None,
    ensures
        r is Ok <==> (backend is Desktop || registration is Ok),
        r is Ok ==> (final(registry).registered_spec() matches Some(h) && h.backend_spec()
            == backend),
        r matches Err(e) ==> final(registry).registered_spec() is None && (
        registration matches Err(be) && e == Error::SetupFailure(be)),
{
    match init(backend, registration) {
        Ok(h) => {
            registry.register(h);
            Ok(())
        },
        Err(e) => Err(e),
    }
}

} // verus!
