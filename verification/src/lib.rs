//! Capability-routing core for a push-notification plugin.
//!
//! A host application shell exposes two operations to hosted web content:
//! requesting push permission and fetching the current push token. Each
//! operation is routed to one platform backend (iOS, Android, or a desktop
//! stub), which talks to the native layer over a narrow byte-level bridge.
//! This crate holds the routing, the bridge reply codec, the bootstrap that
//! selects and registers the backend, and the uniform result/error shape;
//! the host shell performs the actual native calls and feeds their outcomes
//! back in as plain values.

pub mod backend;
pub mod bootstrap;
pub mod dispatch;
pub mod models;
pub mod registry;
pub mod wire;

pub use backend::Backend;
pub use backend::IosPush;
pub use backend::Operation;
pub use bootstrap::init;
pub use bootstrap::setup;
pub use dispatch::DispatchReply;
pub use registry::IosPushExt;
pub use registry::Registry;

pub use models::BridgeError;
pub use models::BridgeFault;
pub use models::Error;
pub use models::ErrorKind;
pub use models::PermissionState;
