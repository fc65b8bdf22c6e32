//! Handle values and the allocator that issues fresh identities.

use vstd::prelude::*;

verus! {

/// Handle of a fine-grained object: an opaque 64-bit identity that the
/// registry resolves through a map. Zero is the null handle.
#[derive(Clone, Copy, Debug, PartialEq, Eq, Structural, Hash)]
pub struct VkNonDispatchableHandle(pub u64);

/// Handle of a coarse, long-lived object: the integer that stands for the
/// object's storage location. Zero is the null handle.
#[derive(Clone, Copy, Debug, PartialEq, Eq, Structural, Hash)]
pub struct VkDispatchableHandle(pub u64);

impl VkNonDispatchableHandle {
    /// The null handle.
    pub fn null() -> (h: Self)
        ensures
            h.0 == 0,
    {
        VkNonDispatchableHandle(0)
    }

    /// Whether this is the null handle.
    pub fn is_null(&self) -> (r: bool)
        ensures
            r == (self.0 == 0),
    {
        self.0 == 0
    }
}

impl VkDispatchableHandle {
    /// The null handle.
    pub fn null() -> (h: Self)
        ensures
            h.0 == 0,
    {
        VkDispatchableHandle(0)
    }

    /// Whether this is the null handle.
    pub fn is_null(&self) -> (r: bool)
        ensures
            r == (self.0 == 0),
    {
        self.0 == 0
    }
}

/// Source of identities: a counter that only moves forward, so that no
/// identity is ever issued twice.
#[derive(Clone, Copy, Debug)]
pub struct HandleAllocator {
    pub next: u64,
}

impl HandleAllocator {
    /// The counter is never zero, so zero is never issued.
    pub open spec fn wf(&self) -> bool {
        self.next >= 1
    }

    /// `id` has been issued at some point in the past.
    pub open spec fn issued(&self, id: u64) -> bool {
        1 <= id < self.next
    }

    /// No identity is left to issue.
    pub open spec fn exhausted(&self) -> bool {
        self.next == u64::MAX
    }

    /// An allocator that has issued nothing; the first identity is 1.
    pub fn new() -> (a: Self)
        ensures
            a.wf(),
            a.next == 1,
    {
        HandleAllocator { next: 1 }
    }

    /// Issues the next identity, or reports exhaustion and changes nothing.
    pub fn allocate(&mut self) -> (r: Option<u64>)
        ensures
            final(self).wf(),
            r.is_none() <==> old(self).exhausted(),
            r.is_none() ==> *final(self) == *old(self),
            r.is_some() ==> r == Some(old(self).next) && final(self).next == old(self).next + 1,
    {
        if self.next == u64::MAX {
            None
        } else {
            let id: u64 = self.next;
            self.next = id + 1;
            Some(id)
        }
    }
}

} // verus!
