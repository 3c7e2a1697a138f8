//! The iterable list of processing blocks and its consuming iterator.
//!
//! The list owns a native array resource.  It can report its length,
//! fetch an element as a fresh owned handle, or be converted once into a
//! consuming iterator that takes the array over and releases it on its
//! own teardown, at whatever cursor position that happens.

use vstd::prelude::*;

use crate::error::{check, ErrorKind, RsResult};
use crate::native::{plain_record, NativeLayer};
use crate::processing_block::ProcessingBlock;

verus! {

/// The iterable list of processing blocks: an owned native array
/// resource.
#[derive(Debug)]
pub struct ProcessingBlockList {
    ptr: usize,
}

impl ProcessingBlockList {
    /// The raw resource pointer this wrapper owns.
    pub closed spec fn id(self) -> usize {
        self.ptr
    }

    /// The wrapped resource is live in the native layer.
    pub open spec fn owns(self, n: NativeLayer) -> bool {
        n.live(self.id())
    }

    /// The element count the native layer reports for this list.
    pub open spec fn count_in(self, n: NativeLayer) -> usize {
        n.rec(self.id()).elem_count
    }

    /// Wraps a pointer obtained from a trusted source: the native layer
    /// or a prior `take`.  The caller must hold no other owner of it.
    pub fn from_raw(ptr: usize) -> (l: ProcessingBlockList)
        ensures
            l.id() == ptr,
    {
        ProcessingBlockList { ptr }
    }

    /// Moves the raw pointer out.  The wrapper is consumed, so its
    /// teardown can never run again.
    pub fn take(self) -> (ptr: usize)
        ensures
            ptr == self.id(),
    {
        self.ptr
    }

    /// Returns the length of the list.  Side-effect-free; may be called
    /// repeatedly.
    pub fn len(&mut self, n: &NativeLayer) -> (r: RsResult<usize>)
        requires
            n.wf(),
            old(self).owns(*n),
        ensures
            *final(self) == *old(self),
            n.flagged() ==> (r matches Err(e) && e == n.injected()),
            !n.flagged() ==> (r matches Ok(c) && c == old(self).count_in(*n)),
    {
        let (val, buf) = n.get_recommended_processing_blocks_count(self.ptr);
        match check(buf) {
            Err(e) => Err(e),
            Ok(()) => Ok(val as usize),
        }
    }

    /// Checks if the list is empty.
    pub fn is_empty(&mut self, n: &NativeLayer) -> (r: RsResult<bool>)
        requires
            n.wf(),
            old(self).owns(*n),
        ensures
            *final(self) == *old(self),
            n.flagged() ==> (r matches Err(e) && e == n.injected()),
            !n.flagged() ==> (r matches Ok(b) && b == (old(self).count_in(*n) == 0)),
    {
        match self.len(n) {
            Err(e) => Err(e),
            Ok(c) => Ok(c == 0),
        }
    }

    /// Retrieves the element at `index` as a fresh owned handle.  An
    /// out-of-range index is the caller's affair: the list does not
    /// bounds-check, and the native layer answers it with an error.
    pub fn get(&mut self, n: &mut NativeLayer, index: usize) -> (r: RsResult<ProcessingBlock>)
        requires
            old(n).wf(),
            old(self).owns(*old(n)),
        ensures
            *final(self) == *old(self),
            final(n).wf(),
            old(self).owns(*final(n)),
            old(n).flagged() ==> (*final(n) == *old(n) && (r matches Err(e) && e == old(n).injected())),
            !old(n).flagged() && index < old(self).count_in(*old(n)) ==> (r matches Ok(b)
                && final(n).allocated(*old(n), b.id(), plain_record()) && final(n).live(b.id())),
            !old(n).flagged() && index >= old(self).count_in(*old(n)) ==> (*final(n) == *old(n)
                && (r matches Err(e) && e.kind == ErrorKind::InvalidValue
                && e.message@ == "block index out of range"@)),
    {
        let (ptr, buf) = n.get_processing_block(self.ptr, index);
        match check(buf) {
            Err(e) => Err(e),
            Ok(()) => Ok(ProcessingBlock::from_raw(ptr)),
        }
    }

    /// Converts into the consuming iterator: captures the length once and
    /// moves the array resource out of the list.  If the length query
    /// fails, the list is torn down here and the error propagated.
    pub fn try_into_iter(self, n: &mut NativeLayer) -> (r: RsResult<ProcessingBlockListIntoIter>)
        requires
            old(n).wf(),
            self.owns(*old(n)),
        ensures
            final(n).wf(),
            old(n).flagged() ==> (r matches Err(e) && e == old(n).injected() && final(n).deleted_one(*old(n), self.id()) && final(n).delete_count(self.id()) == 1),
            !old(n).flagged() ==> (*final(n) == *old(n) && (r matches Ok(it) && it.id() == self.id()
                && it.cursor() == 0 && it.length() == self.count_in(*old(n)))),
    {
        let mut list = self;
        match list.len(&*n) {
            Err(e) => {
                list.delete(n);
                Err(e)
            },
            Ok(count) => {
                let ptr = list.take();
                Ok(ProcessingBlockListIntoIter { len: count, index: 0, ptr })
            },
        }
    }

    /// The panicking counterpart of `try_into_iter`: it demands that no
    /// failure is pending, so the conversion cannot go wrong.
    pub fn into_iter(self, n: &mut NativeLayer) -> (it: ProcessingBlockListIntoIter)
        requires
            old(n).wf(),
            self.owns(*old(n)),
            !old(n).flagged(),
        ensures
            *final(n) == *old(n),
            it.id() == self.id(),
            it.cursor() == 0,
            it.length() == self.count_in(*old(n)),
    {
        match self.try_into_iter(n) {
            Ok(it) => it,
            Err(_) => vstd::pervasive::unreached(),
        }
    }

    /// Teardown: runs the native delete on the array resource exactly
    /// once.
    pub fn delete(self, n: &mut NativeLayer)
        requires
            old(n).wf(),
            self.owns(*old(n)),
        ensures
            final(n).wf(),
            final(n).deleted_one(*old(n), self.id()),
            final(n).delete_count(self.id()) == 1,
            !final(n).live(self.id()),
    {
        n.delete(self.ptr)
    }
}

/// The one-shot consuming iterator over a processing-block list.
///
/// It owns the array resource the list gave up and yields one checked
/// result per element: lazy, finite, non-restartable, and fused once the
/// cursor reaches the captured length.
#[derive(Debug)]
pub struct ProcessingBlockListIntoIter {
    len: usize,
    index: usize,
    ptr: usize,
}

impl ProcessingBlockListIntoIter {
    /// The raw array resource pointer this iterator owns.
    pub closed spec fn id(self) -> usize {
        self.ptr
    }

    /// The cursor: how many elements were already yielded.
    pub closed spec fn cursor(self) -> usize {
        self.index
    }

    /// The length captured at conversion time.
    pub closed spec fn length(self) -> usize {
        self.len
    }

    /// Valid against the native layer: the array resource is live, the
    /// captured length is the count the native layer reports, and the
    /// cursor has not passed it.
    pub open spec fn wf_in(self, n: NativeLayer) -> bool {
        &&& n.live(self.id())
        &&& self.length() == n.rec(self.id()).elem_count
        &&& self.cursor() <= self.length()
    }

    /// One step.  While the cursor is under the captured length this
    /// fetches the element at the cursor by one checked call, advances
    /// the cursor whether or not the fetch succeeded (a failed slot does
    /// not halt iteration), and yields the checked result.  Once the
    /// cursor reaches the length the iterator is permanently exhausted
    /// and the native layer is not consulted again.
    pub fn next(&mut self, n: &mut NativeLayer) -> (r: Option<RsResult<ProcessingBlock>>)
        requires
            old(n).wf(),
            old(self).wf_in(*old(n)),
        ensures
            final(n).wf(),
            final(self).wf_in(*final(n)),
            final(self).id() == old(self).id(),
            final(self).length() == old(self).length(),
            old(self).cursor() >= old(self).length() ==> (r is None && *final(self) == *old(self)
                && *final(n) == *old(n)),
            old(self).cursor() < old(self).length() ==> {
                &&& final(self).cursor() == old(self).cursor() + 1
                &&& (old(n).flagged() ==> (*final(n) == *old(n) && (r matches Some(x)
                    && x matches Err(e) && e == old(n).injected())))
                &&& (!old(n).flagged() ==> (r matches Some(x) && x matches Ok(b) && final(n).allocated(*old(n), b.id(), plain_record()) && final(n).live(b.id())))
            },
    {
        if self.index < self.len {
            let (ptr, buf) = n.get_processing_block(self.ptr, self.index);
            self.index = self.index + 1;
            match check(buf) {
                Err(e) => Some(Err(e)),
                Ok(()) => Some(Ok(ProcessingBlock::from_raw(ptr))),
            }
        } else {
            None
        }
    }

    /// Teardown at any cursor position, exhausted or not: releases the
    /// array resource exactly once.
    pub fn delete(self, n: &mut NativeLayer)
        requires
            old(n).wf(),
            old(n).live(self.id()),
        ensures
            final(n).wf(),
            final(n).deleted_one(*old(n), self.id()),
            final(n).delete_count(self.id()) == 1,
            !final(n).live(self.id()),
    {
        n.delete(self.ptr)
    }
}

} // verus!
