//! Queues, each created and owned by a logical device.

use vstd::prelude::*;
use crate::context::{Context, ContextView, Shared};
use crate::dispatchable::{live, lookup, register, register_object, Dispatchable};
use crate::error::RegistryError;
use crate::physical_device::PhysicalDevice;
use crate::handle::HandleAllocator;
use crate::handle::VkDispatchableHandle;

verus! {

/// Parameters of a queue request.
#[derive(Clone, Copy, Debug)]
pub struct VkDeviceQueueCreateInfo {
    pub flags: u32,
    pub queue_family_index: u32,
    pub queue_count: u32,
}

/// Queue associated with a `LogicalDevice`.
#[derive(Clone, Copy, Debug)]
pub struct Queue {
    pub handle: VkDispatchableHandle,
    pub physical_device: VkDispatchableHandle,
    pub flags: u32,
}


impl Queue {
    /// Every object of `list` records a handle that `ids` has issued, and no
    /// two objects record the same one.
    pub open spec fn slots_wf(list: Seq<Shared<Queue>>, ids: HandleAllocator) -> bool {
        &&& forall|i: int| 0 <= i < list.len() ==> ids.issued((#[trigger] list[i]).object.handle.0)
        &&& forall|i: int, j: int|
            0 <= i < j < list.len() ==> (#[trigger] list[i]).object.handle != (
            #[trigger] list[j]).object.handle
    }
}

impl Dispatchable for Queue {
    open spec fn handle_of(&self) -> VkDispatchableHandle {
        self.handle
    }

    open spec fn with_handle(self, handle: VkDispatchableHandle) -> Self {
        Queue { handle, ..self }
    }

    open spec fn list(c: ContextView) -> Seq<Shared<Self>> {
        c.queues
    }

    open spec fn with_list(c: ContextView, list: Seq<Shared<Self>>) -> ContextView {
        ContextView { queues: list, ..c }
    }

    proof fn lemma_with_handle(self, handle: VkDispatchableHandle) {
    }

    proof fn lemma_category(
        c: ContextView,
        list: Seq<Shared<Self>>,
        other: Seq<Shared<Self>>,
        ids: HandleAllocator,
    ) {
    }

    fn get_vec_ref(context: &Context) -> (list: &Vec<Shared<Self>>) {
        &context.queues
    }

    fn get_vec(context: &mut Context) -> (list: &mut Vec<Shared<Self>>) {
        &mut context.queues
    }

    fn set_handle(&mut self, handle: VkDispatchableHandle) {
        self.handle = handle;
    }

    fn get_handle(&self) -> (handle: VkDispatchableHandle) {
        self.handle
    }
}

impl Queue {
    /// A queue as it is before registration: no handle yet.
    pub open spec fn unregistered(physical_device: VkDispatchableHandle, flags: u32) -> Queue {
        Queue { handle: VkDispatchableHandle(0), physical_device, flags }
    }

    /// What creating a queue gives, and the registry after it: refused, with
    /// nothing changed, when `physical_device` names no live physical device
    /// or the allocator is exhausted; otherwise the queue is registered.
    pub open spec fn create(c: ContextView, physical_device: VkDispatchableHandle, flags: u32) -> (
        Result<VkDispatchableHandle, RegistryError>,
        ContextView,
    ) {
        if !live::<PhysicalDevice>(c, physical_device) {
            (Err(RegistryError::NotFound), c)
        } else {
            register(c, Queue::unregistered(physical_device, flags))
        }
    }

    /// Creates a queue on `physical_device` with the flags of `create_info`
    /// and registers it. The caller holds the one reference that is
    /// outstanding.
    pub fn new(
        context: &mut Context,
        physical_device: VkDispatchableHandle,
        create_info: &VkDeviceQueueCreateInfo,
    ) -> (r: Result<VkDispatchableHandle, RegistryError>)
        ensures
            old(context).wf() ==> final(context).wf(),
            (r, final(context)@) == Queue::create(old(context)@, physical_device, create_info.flags),
    {
        if lookup::<PhysicalDevice>(context, physical_device).is_none() {
            return Err(RegistryError::NotFound);
        }
        let queue = Queue { handle: VkDispatchableHandle::null(), physical_device, flags: create_info.flags };
        register_object(queue, context)
    }
}

} // verus!
