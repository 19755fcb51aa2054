//! A boxed, type-erased native value.
//!
//! Generic values carry arguments into a native function invocation and the
//! result back out. Each is owned by its own wrapper, which at the end of
//! its life yields the native handle to dispose, exactly once.

use vstd::prelude::*;

verus! {

/// An opaque boxed native value used by function invocation.
pub struct GenericValue {
    gv: u64,
}

impl GenericValue {
    /// The native reference this wrapper carries.
    pub closed spec fn to_ref_spec(&self) -> u64 {
        self.gv
    }

    /// Wraps a native generic-value reference; the wrapper owns it.
    pub fn from_ref(r: u64) -> (g: GenericValue)
        ensures
            g.to_ref_spec() == r,
    {
        GenericValue { gv: r }
    }

    /// The raw native reference, for the shell that makes the foreign call.
    pub fn to_ref(&self) -> (r: u64)
        ensures
            r == self.to_ref_spec(),
    {
        self.gv
    }

    /// Ends the wrapper's life. The caller must dispose the returned native
    /// handle — once, and only now that the wrapper is gone.
    pub fn dispose(self) -> (r: u64)
        ensures
            r == self.to_ref_spec(),
    {
        self.gv
    }
}

} // verus!
