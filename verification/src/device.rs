//! The owned device handle.

use vstd::prelude::*;

use crate::native::NativeLayer;

verus! {

/// A single-owner wrapper around a native device resource.
#[derive(Debug)]
pub struct Device {
    ptr: usize,
}

impl Device {
    /// The raw resource pointer this wrapper owns.
    pub closed spec fn id(self) -> usize {
        self.ptr
    }

    /// The wrapped resource is live in the native layer.
    pub open spec fn owns(self, n: NativeLayer) -> bool {
        n.live(self.id())
    }

    /// Wraps a pointer obtained from a trusted source: the native layer
    /// or a prior `take`.  The caller must hold no other owner of it.
    pub fn from_raw(ptr: usize) -> (d: Device)
        ensures
            d.id() == ptr,
    {
        Device { ptr }
    }

    /// Moves the raw pointer out.  The wrapper is consumed, so its
    /// teardown can never run again.
    pub fn take(self) -> (ptr: usize)
        ensures
            ptr == self.id(),
    {
        self.ptr
    }

    /// Teardown: runs the native delete on the owned resource exactly
    /// once.  Consuming the wrapper is what rules a second run out.
    pub fn delete(self, n: &mut NativeLayer)
        requires
            old(n).wf(),
            self.owns(*old(n)),
        ensures
            final(n).wf(),
            final(n).deleted_one(*old(n), self.id()),
            final(n).delete_count(self.id()) == 1,
            !final(n).live(self.id()),
    {
        n.delete(self.ptr)
    }
}

} // verus!
