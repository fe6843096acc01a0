//! Extension accessor: process-wide lookup of the capability handle.
//!
//! The host shell owns one `Registry` per process, standing for its managed
//! state. Bootstrap registers the handle exactly once; afterwards any holder
//! of the registry obtains the same handle through the accessor trait.

use vstd::prelude::*;

use crate::backend::IosPush;

verus! {

/// The per-process store of the single capability handle.
pub struct Registry {
    handle: Option<IosPush>,
}

impl Registry {
    /// The handle registered so far, if any.
    pub closed spec fn registered_spec(&self) -> Option<IosPush> {
        self.handle
    }

    /// A registry with nothing registered yet.
    pub fn new() -> (r: Registry)
        ensures
            r.registered_spec() is None,
    {
        Registry { handle: None }
    }

    /// Whether a handle has been registered yet.
    pub fn is_registered(&self) -> (b: bool)
        ensures
            b == (self.registered_spec() is Some),
    {
        self.handle.is_some()
    }

    /// Bootstrap's single registration of the capability handle. A second
    /// registration in the same process is not a supported scenario, so it
    /// is ruled out rather than given a precedence.
    pub fn register(&mut self, h: IosPush)
        requires
            old(self).registered_spec() is None,
        ensures
            final(self).registered_spec() == Some(h),
    {
        self.handle = Some(h);
    }
}

/// Extension accessor: lets any component holding the application context
/// obtain the registered capability handle without threading it through
/// call stacks.
pub trait IosPushExt {
    /// The handle registered so far, if any.
    spec fn registered(&self) -> Option<IosPush>;

    /// The registered capability handle. Invoking the accessor before
    /// bootstrap has registered one is a programming error, ruled out by
    /// the precondition rather than handled at run time.
    fn ios_push(&self) -> (h: IosPush)
        requires
            self.registered() is Some,
        ensures
            Some(h) == self.registered(),
    ;
}

impl IosPushExt for Registry {
    open spec fn registered(&self) -> Option<IosPush> {
        self.registered_spec()
    }

    fn ios_push(&self) -> (h: IosPush) {
        match self.handle {
            Some(h) => h,
            None => vstd::pervasive::unreached(),
        }
    }
}

/// Law: the accessor is stable. Whatever two lookups the accessor's contract
/// allows on one registry state, both return the registered handle, so they
/// return the same handle.
pub proof fn lemma_accessor_stable(r: Registry, h1: IosPush, h2: IosPush)
    requires
        Some(h1) == r.registered(),
        Some(h2) == r.registered(),
    ensures
        h1 == h2,
{
}

} // verus!
