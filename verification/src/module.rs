//! A compilation-unit handle and its ownership state.
//!
//! A module is owned by at most one party at a time: the wrapper that was
//! given the native handle, or an engine the handle was transferred to.
//! Whoever owns it at the end of its life is the one — and the only one —
//! that must dispose the native resource.

use vstd::prelude::*;

verus! {

/// An opaque native module handle together with a flag saying whether the
/// holder of this wrapper still owns the native resource behind it.
pub struct Module {
    handle: u64,
    owned: bool,
}

impl Module {
    /// The native reference this wrapper carries.
    pub closed spec fn handle_spec(&self) -> u64 {
        self.handle
    }

    /// Whether the holder of this wrapper still owns the native resource.
    pub closed spec fn is_owned_spec(&self) -> bool {
        self.owned
    }

    /// What disposing this wrapper obliges the holder to release: the
    /// native handle if the wrapper still owns it, nothing otherwise.
    pub open spec fn must_dispose_spec(&self) -> Option<u64> {
        if self.is_owned_spec() {
            Some(self.handle_spec())
        } else {
            None
        }
    }

    /// Wraps a native module reference. The caller owns the resource until
    /// it hands the module to an engine.
    pub fn from_ref(r: u64) -> (m: Module)
        ensures
            m.handle_spec() == r,
            m.is_owned_spec(),
    {
        Module { handle: r, owned: true }
    }

    /// The raw native reference, for the shell that makes the foreign call.
    pub fn to_ref(&self) -> (r: u64)
        ensures
            r == self.handle_spec(),
    {
        self.handle
    }

    pub fn is_owned(&self) -> (b: bool)
        ensures
            b == self.is_owned_spec(),
    {
        self.owned
    }

    /// Gives up ownership: after this call the holder must no longer
    /// release the native resource; some other owner will.
    pub fn unown(&mut self)
        ensures
            final(self).handle_spec() == old(self).handle_spec(),
            !final(self).is_owned_spec(),
    {
        self.owned = false;
    }

    /// Ends this wrapper's life. Returns the native handle exactly when the
    /// wrapper still owned it, in which case the caller must dispose that
    /// handle — once, and only then.
    pub fn release(self) -> (r: Option<u64>)
        ensures
            r == self.must_dispose_spec(),
    {
        if self.owned {
            Some(self.handle)
        } else {
            None
        }
    }
}

/// A module that has given up ownership obliges its holder to release
/// nothing: once the handle has been handed over, only the new owner ever
/// disposes it, so no double release can originate here.
pub proof fn lemma_disowned_module_releases_nothing(m: Module)
    requires
        !m.is_owned_spec(),
    ensures
        m.must_dispose_spec() is None,
{
}

} // verus!
