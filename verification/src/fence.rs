//! The fence: a two-state primitive that orders a queue against the host.

use vstd::prelude::*;
use std::collections::HashMap;
use crate::context::{Context, ContextView, Shared};
use crate::handle::HandleAllocator;
use crate::dispatchable::{live, lookup};
use crate::error::RegistryError;
use crate::logical_device::LogicalDevice;
use crate::non_dispatchable::{register, register_object, NonDispatchable};
use crate::handle::{VkDispatchableHandle, VkNonDispatchableHandle};

verus! {

broadcast use vstd::std_specs::hash::group_hash_axioms;

/// Parameters of a fence creation.
#[derive(Clone, Copy, Debug)]
pub struct VkFenceCreateInfo {
    pub flags: u32,
}

/// Synchronization primitive that can be used to insert a dependency from a
/// queue to the host.
#[derive(Clone, Copy, Debug)]
pub struct Fence {
    pub handle: VkNonDispatchableHandle,
    pub logical_device: VkDispatchableHandle,
    pub flags: u32,
    pub signaled: bool,
}


impl Fence {
    /// Every key of `table` has been issued by `ids`, and every object records
    /// the key it is stored under.
    pub open spec fn entries_wf(table: Map<u64, Shared<Fence>>, ids: HandleAllocator) -> bool {
        forall|k: u64| #[trigger]
            table.contains_key(k) ==> ids.issued(k) && table[k].object.handle.0 == k
    }
}

impl NonDispatchable for Fence {
    open spec fn handle_of(&self) -> VkNonDispatchableHandle {
        self.handle
    }

    open spec fn with_handle(self, handle: VkNonDispatchableHandle) -> Self {
        Fence { handle, ..self }
    }

    open spec fn table(c: ContextView) -> Map<u64, Shared<Self>> {
        c.fences
    }

    open spec fn with_table(c: ContextView, table: Map<u64, Shared<Self>>) -> ContextView {
        ContextView { fences: table, ..c }
    }

    proof fn lemma_with_handle(self, handle: VkNonDispatchableHandle) {
    }

    proof fn lemma_category(
        c: ContextView,
        table: Map<u64, Shared<Self>>,
        other: Map<u64, Shared<Self>>,
        ids: HandleAllocator,
    ) {
    }

    fn get_hash(context: &Context) -> (table: &HashMap<u64, Shared<Self>>) {
        &context.fences
    }

    fn get_hash_mut(context: &mut Context) -> (table: &mut HashMap<u64, Shared<Self>>) {
        &mut context.fences
    }

    fn set_handle(&mut self, handle: VkNonDispatchableHandle) {
        self.handle = handle;
    }

    fn get_handle(&self) -> (handle: VkNonDispatchableHandle) {
        self.handle
    }
}

/// Creation flag: the fence starts out signaled.
pub const VK_FENCE_CREATE_SIGNALED_BIT: u32 = 1;

impl Fence {
    /// Whether creation flags ask for a fence that starts out signaled.
    pub open spec fn starts_signaled(flags: u32) -> bool {
        flags & VK_FENCE_CREATE_SIGNALED_BIT != 0
    }

    /// A fence as it is before registration: no handle yet, and the state
    /// that its creation flags ask for.
    pub open spec fn unregistered(logical_device: VkDispatchableHandle, flags: u32) -> Fence {
        Fence {
            handle: VkNonDispatchableHandle(0),
            logical_device,
            flags,
            signaled: Fence::starts_signaled(flags),
        }
    }

    /// The fence in the signaled state.
    pub open spec fn signaled_state(self) -> Fence {
        Fence { signaled: true, ..self }
    }

    /// The fence in the unsignaled state.
    pub open spec fn unsignaled_state(self) -> Fence {
        Fence { signaled: false, ..self }
    }

    /// What creating a fence gives, and the registry after it: refused, with
    /// nothing changed, when `logical_device` names no live logical device or
    /// the allocator is exhausted; otherwise the fence is registered.
    pub open spec fn created(c: ContextView, logical_device: VkDispatchableHandle, flags: u32) -> (
        Result<VkNonDispatchableHandle, RegistryError>,
        ContextView,
    ) {
        if !live::<LogicalDevice>(c, logical_device) {
            (Err(RegistryError::NotFound), c)
        } else {
            register(c, Fence::unregistered(logical_device, flags))
        }
    }

    /// The registry with the fence that `handle` names replaced by `fence`,
    /// its reference count kept.
    pub open spec fn stored(c: ContextView, handle: VkNonDispatchableHandle, fence: Fence) -> ContextView {
        ContextView {
            fences: c.fences.insert(
                handle.0,
                Shared { object: fence, holders: c.fences[handle.0].holders },
            ),
            ..c
        }
    }

    /// What signaling the fence that `handle` names gives, and the registry
    /// after it: refused, with nothing changed, when the handle names no live
    /// fence.
    pub open spec fn signaled_in(c: ContextView, handle: VkNonDispatchableHandle) -> (
        Result<(), RegistryError>,
        ContextView,
    ) {
        if !c.fences.contains_key(handle.0) {
            (Err(RegistryError::NotFound), c)
        } else {
            (Ok(()), Fence::stored(c, handle, c.fences[handle.0].object.signaled_state()))
        }
    }

    /// What resetting the fence that `handle` names gives, and the registry
    /// after it: refused, with nothing changed, when the handle names no live
    /// fence.
    pub open spec fn reset_in(c: ContextView, handle: VkNonDispatchableHandle) -> (
        Result<(), RegistryError>,
        ContextView,
    ) {
        if !c.fences.contains_key(handle.0) {
            (Err(RegistryError::NotFound), c)
        } else {
            (Ok(()), Fence::stored(c, handle, c.fences[handle.0].object.unsignaled_state()))
        }
    }

    /// Creates a fence that belongs to `logical_device`, in the state that
    /// the flags of `create_info` ask for, and registers it.
    pub fn create(
        context: &mut Context,
        logical_device: VkDispatchableHandle,
        create_info: &VkFenceCreateInfo,
    ) -> (r: Result<VkNonDispatchableHandle, RegistryError>)
        ensures
            old(context).wf() ==> final(context).wf(),
            (r, final(context)@) == Fence::created(old(context)@, logical_device, create_info.flags),
    {
        if lookup::<LogicalDevice>(context, logical_device).is_none() {
            return Err(RegistryError::NotFound);
        }
        let flags: u32 = create_info.flags;
        let signaled = (flags & VK_FENCE_CREATE_SIGNALED_BIT) != 0;
        let fence = Fence { handle: VkNonDispatchableHandle::null(), logical_device, flags, signaled };
        register_object(fence, context)
    }

    /// Signals the fence. Signaling a signaled fence leaves it signaled.
    pub fn signal(&mut self)
        ensures
            *final(self) == old(self).signaled_state(),
    {
        self.signaled = true;
    }

    /// Resets the fence. Resetting an unsignaled fence leaves it unsignaled.
    pub fn reset(&mut self)
        ensures
            *final(self) == old(self).unsignaled_state(),
    {
        self.signaled = false;
    }

    /// Signals the registered fence that `handle` names.
    pub fn signal_handle(context: &mut Context, handle: VkNonDispatchableHandle) -> (r: Result<
        (),
        RegistryError,
    >)
        ensures
            old(context).wf() ==> final(context).wf(),
            (r, final(context)@) == Fence::signaled_in(old(context)@, handle),
    {
        let ghost before = context@;
        match context.fences.remove(&handle.0) {
            None => {
                assert(context@.fences =~= before.fences);
                Err(RegistryError::NotFound)
            },
            Some(entry) => {
                let mut fence = entry.object;
                fence.signal();
                context.fences.insert(handle.0, Shared { object: fence, holders: entry.holders });
                assert(context@.fences =~= Fence::stored(before, handle, fence).fences);
                Ok(())
            },
        }
    }

    /// Resets the registered fence that `handle` names.
    pub fn reset_handle(context: &mut Context, handle: VkNonDispatchableHandle) -> (r: Result<
        (),
        RegistryError,
    >)
        ensures
            old(context).wf() ==> final(context).wf(),
            (r, final(context)@) == Fence::reset_in(old(context)@, handle),
    {
        let ghost before = context@;
        match context.fences.remove(&handle.0) {
            None => {
                assert(context@.fences =~= before.fences);
                Err(RegistryError::NotFound)
            },
            Some(entry) => {
                let mut fence = entry.object;
                fence.reset();
                context.fences.insert(handle.0, Shared { object: fence, holders: entry.holders });
                assert(context@.fences =~= Fence::stored(before, handle, fence).fences);
                Ok(())
            },
        }
    }
}

/// Signaling twice leaves a fence signaled, resetting twice leaves it
/// unsignaled, and a fence created signaled is unsignaled after one reset.
pub proof fn lemma_fence_idempotence(fence: Fence, logical_device: VkDispatchableHandle, flags: u32)
    ensures
        fence.signaled_state().signaled,
        fence.signaled_state().signaled_state() == fence.signaled_state(),
        !fence.unsignaled_state().signaled,
        fence.unsignaled_state().unsignaled_state() == fence.unsignaled_state(),
        Fence::starts_signaled(flags) ==> Fence::unregistered(logical_device, flags).signaled
            && !Fence::unregistered(logical_device, flags).unsignaled_state().signaled,
{
}

/// In the registry as on the fence itself: signaling a live fence twice is
/// signaling it once, resetting it twice is resetting it once, and a reset
/// after a signal leaves it unsignaled. Neither touches the reference count
/// or any other fence.
pub proof fn lemma_fence_idempotence_in_registry(c: ContextView, handle: VkNonDispatchableHandle)
    requires
        c.fences.contains_key(handle.0),
    ensures
        Fence::signaled_in(Fence::signaled_in(c, handle).1, handle) == Fence::signaled_in(c, handle),
        Fence::reset_in(Fence::reset_in(c, handle).1, handle) == Fence::reset_in(c, handle),
        Fence::signaled_in(c, handle).1.fences[handle.0].object.signaled,
        !Fence::reset_in(c, handle).1.fences[handle.0].object.signaled,
        Fence::reset_in(Fence::signaled_in(c, handle).1, handle) == Fence::reset_in(c, handle),
        Fence::signaled_in(c, handle).1.fences[handle.0].holders == c.fences[handle.0].holders,
        Fence::reset_in(c, handle).1.fences[handle.0].holders == c.fences[handle.0].holders,
{
    let s = Fence::signaled_in(c, handle).1;
    let r = Fence::reset_in(c, handle).1;
    assert(Fence::signaled_in(s, handle).1.fences =~= s.fences);
    assert(Fence::reset_in(r, handle).1.fences =~= r.fences);
    assert(Fence::reset_in(s, handle).1.fences =~= r.fences);
}

} // verus!
