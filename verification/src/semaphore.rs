//! The semaphore: a primitive with no device affinity and no mutable state.

use vstd::prelude::*;
use std::collections::HashMap;
use crate::context::{Context, ContextView, Shared};
use crate::handle::HandleAllocator;
use crate::error::RegistryError;
use crate::non_dispatchable::{register, register_object, NonDispatchable};
use crate::handle::VkNonDispatchableHandle;

verus! {

/// Parameters of a semaphore creation.
#[derive(Clone, Copy, Debug)]
pub struct VkSemaphoreCreateInfo {
    pub flags: u32,
}

/// Synchronization primitive that can be used to insert a dependency between
/// queue operations or between a queue operation and the host.
#[derive(Clone, Copy, Debug)]
pub struct Semaphore {
    pub handle: VkNonDispatchableHandle,
    pub flags: u32,
}


impl Semaphore {
    /// Every key of `table` has been issued by `ids`, and every object records
    /// the key it is stored under.
    pub open spec fn entries_wf(table: Map<u64, Shared<Semaphore>>, ids: HandleAllocator) -> bool {
        forall|k: u64| #[trigger]
            table.contains_key(k) ==> ids.issued(k) && table[k].object.handle.0 == k
    }
}

impl NonDispatchable for Semaphore {
    open spec fn handle_of(&self) -> VkNonDispatchableHandle {
        self.handle
    }

    open spec fn with_handle(self, handle: VkNonDispatchableHandle) -> Self {
        Semaphore { handle, ..self }
    }

    open spec fn table(c: ContextView) -> Map<u64, Shared<Self>> {
        c.semaphores
    }

    open spec fn with_table(c: ContextView, table: Map<u64, Shared<Self>>) -> ContextView {
        ContextView { semaphores: table, ..c }
    }

    proof fn lemma_with_handle(self, handle: VkNonDispatchableHandle) {
    }

    proof fn lemma_category(
        c: ContextView,
        table: Map<u64, Shared<Self>>,
        other: Map<u64, Shared<Self>>,
        ids: HandleAllocator,
    ) {
    }

    fn get_hash(context: &Context) -> (table: &HashMap<u64, Shared<Self>>) {
        &context.semaphores
    }

    fn get_hash_mut(context: &mut Context) -> (table: &mut HashMap<u64, Shared<Self>>) {
        &mut context.semaphores
    }

    fn set_handle(&mut self, handle: VkNonDispatchableHandle) {
        self.handle = handle;
    }

    fn get_handle(&self) -> (handle: VkNonDispatchableHandle) {
        self.handle
    }
}

impl Semaphore {
    /// A semaphore as it is before registration: no handle yet.
    pub open spec fn unregistered(flags: u32) -> Semaphore {
        Semaphore { handle: VkNonDispatchableHandle(0), flags }
    }

    /// Creates a semaphore with the flags of `create_info` and registers it.
    /// A semaphore belongs to no device.
    pub fn create(context: &mut Context, create_info: &VkSemaphoreCreateInfo) -> (r: Result<
        VkNonDispatchableHandle,
        RegistryError,
    >)
        ensures
            old(context).wf() ==> final(context).wf(),
            (r, final(context)@) == register(
                old(context)@,
                Semaphore::unregistered(create_info.flags),
            ),
    {
        let semaphore = Semaphore { handle: VkNonDispatchableHandle::null(), flags: create_info.flags };
        register_object(semaphore, context)
    }
}

} // verus!
