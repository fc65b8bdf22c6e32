//! Outcomes that the registry reports instead of succeeding.

use vstd::prelude::*;

verus! {

/// Why a registry operation was refused. A refused operation changes nothing.
#[derive(Clone, Copy, Debug, PartialEq, Eq, Structural)]
pub enum RegistryError {
    /// The allocator has no identity left to issue.
    OutOfHandles,
    /// The handle names no live object of the category.
    NotFound,
    /// The object cannot be destroyed while references to it are outstanding.
    StillReferenced,
    /// A reference was given back that nobody had taken.
    NotReferenced,
    /// The reference count of the object cannot grow any further.
    TooManyReferences,
}

/// How a wait on fences ended.
#[derive(Clone, Copy, Debug, PartialEq, Eq, Structural)]
pub enum WaitStatus {
    /// The awaited fences were signaled.
    Success,
    /// The wait expired first. This is an outcome, not an error.
    Timeout,
}

} // verus!
