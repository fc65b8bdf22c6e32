//! The logical device: the identifier that ties calls to a physical device.

use vstd::prelude::*;
use crate::context::{Context, ContextView, Shared};
use crate::dispatchable::{live, lookup, register, register_object, registered, Dispatchable};
use crate::error::{RegistryError, WaitStatus};
use crate::fence::Fence;
use crate::physical_device::PhysicalDevice;
use crate::queue::{Queue, VkDeviceQueueCreateInfo};
use crate::handle::HandleAllocator;
use crate::handle::{VkDispatchableHandle, VkNonDispatchableHandle};

verus! {

broadcast use vstd::std_specs::hash::group_hash_axioms;

/// Identifier used to associate functions with a `PhysicalDevice`.
#[derive(Clone, Copy, Debug)]
pub struct LogicalDevice {
    pub handle: VkDispatchableHandle,
    pub driver_name: &'static str,
    pub physical_device: VkDispatchableHandle,
    pub queue: VkDispatchableHandle,
}


impl LogicalDevice {
    /// Every object of `list` records a handle that `ids` has issued, and no
    /// two objects record the same one.
    pub open spec fn slots_wf(list: Seq<Shared<LogicalDevice>>, ids: HandleAllocator) -> bool {
        &&& forall|i: int| 0 <= i < list.len() ==> ids.issued((#[trigger] list[i]).object.handle.0)
        &&& forall|i: int, j: int|
            0 <= i < j < list.len() ==> (#[trigger] list[i]).object.handle != (
            #[trigger] list[j]).object.handle
    }
}

impl Dispatchable for LogicalDevice {
    open spec fn handle_of(&self) -> VkDispatchableHandle {
        self.handle
    }

    open spec fn with_handle(self, handle: VkDispatchableHandle) -> Self {
        LogicalDevice { handle, ..self }
    }

    open spec fn list(c: ContextView) -> Seq<Shared<Self>> {
        c.logical_devices
    }

    open spec fn with_list(c: ContextView, list: Seq<Shared<Self>>) -> ContextView {
        ContextView { logical_devices: list, ..c }
    }

    proof fn lemma_with_handle(self, handle: VkDispatchableHandle) {
    }

    proof fn lemma_category(
        c: ContextView,
        list: Seq<Shared<Self>>,
        other: Seq<Shared<Self>>,
        ids: HandleAllocator,
    ) {
    }

    fn get_vec_ref(context: &Context) -> (list: &Vec<Shared<Self>>) {
        &context.logical_devices
    }

    fn get_vec(context: &mut Context) -> (list: &mut Vec<Shared<Self>>) {
        &mut context.logical_devices
    }

    fn set_handle(&mut self, handle: VkDispatchableHandle) {
        self.handle = handle;
    }

    fn get_handle(&self) -> (handle: VkDispatchableHandle) {
        self.handle
    }
}

impl LogicalDevice {
    /// A logical device as it is before registration: no handle yet.
    pub open spec fn unregistered(
        physical_device: VkDispatchableHandle,
        queue: VkDispatchableHandle,
    ) -> LogicalDevice {
        LogicalDevice {
            handle: VkDispatchableHandle(0),
            driver_name: "vulkan_software_rasterizer",
            physical_device,
            queue,
        }
    }

    /// What creating a logical device gives, and the registry after it. The
    /// device needs two identities, one for its queue and one for itself, in
    /// that order. Refused, with nothing changed, when `physical_device`
    /// names no live physical device or the allocator cannot issue two
    /// identities; otherwise the queue is registered, then the device that
    /// owns it.
    pub open spec fn created(c: ContextView, physical_device: VkDispatchableHandle, flags: u32) -> (
        Result<VkDispatchableHandle, RegistryError>,
        ContextView,
    ) {
        if !live::<PhysicalDevice>(c, physical_device) {
            (Err(RegistryError::NotFound), c)
        } else if c.ids.next >= u64::MAX - 1 {
            (Err(RegistryError::OutOfHandles), c)
        } else {
            register(
                registered(c, Queue::unregistered(physical_device, flags)),
                LogicalDevice::unregistered(physical_device, VkDispatchableHandle(c.ids.next)),
            )
        }
    }

    /// `fence` names a live fence that belongs to this device.
    pub open spec fn owns(&self, c: ContextView, fence: VkNonDispatchableHandle) -> bool {
        c.fences.contains_key(fence.0) && c.fences[fence.0].object.logical_device == self.handle
    }

    /// Every fence among `fences` that belongs to this device is signaled.
    pub open spec fn all_signaled(&self, c: ContextView, fences: Seq<VkNonDispatchableHandle>) -> bool {
        forall|i: int|
            0 <= i < fences.len() && self.owns(c, #[trigger] fences[i])
                ==> c.fences[fences[i].0].object.signaled
    }

    /// Some fence among `fences` belongs to this device and is signaled.
    pub open spec fn any_signaled(&self, c: ContextView, fences: Seq<VkNonDispatchableHandle>) -> bool {
        exists|i: int|
            0 <= i < fences.len() && self.owns(c, #[trigger] fences[i])
                && c.fences[fences[i].0].object.signaled
    }

    /// How a wait on `fences` ends. Fences that are not live or belong to
    /// another device are passed over. Nothing changes a fence while the
    /// registry is borrowed, so a wait that is not satisfied at once expires.
    pub open spec fn wait_outcome(
        &self,
        c: ContextView,
        fences: Seq<VkNonDispatchableHandle>,
        wait_all: bool,
    ) -> WaitStatus {
        if wait_all && self.all_signaled(c, fences) || !wait_all && self.any_signaled(c, fences) {
            WaitStatus::Success
        } else {
            WaitStatus::Timeout
        }
    }

    /// `key` is among the first `n` of `fences` and names a fence of this
    /// device.
    pub open spec fn resets(
        &self,
        c: ContextView,
        fences: Seq<VkNonDispatchableHandle>,
        n: int,
        key: u64,
    ) -> bool {
        &&& exists|i: int| 0 <= i < n && i < fences.len() && (#[trigger] fences[i]).0 == key
        &&& self.owns(c, VkNonDispatchableHandle(key))
    }

    /// The fences of the registry after the first `n` of `fences` have been
    /// reset: those that belong to this device are unsignaled, every other
    /// fence is as it was, and no reference count has changed.
    pub open spec fn fences_after_reset(
        &self,
        c: ContextView,
        fences: Seq<VkNonDispatchableHandle>,
        n: int,
    ) -> Map<u64, Shared<Fence>> {
        Map::new(
            |key: u64| c.fences.contains_key(key),
            |key: u64|
                if self.resets(c, fences, n, key) {
                    Shared {
                        object: c.fences[key].object.unsignaled_state(),
                        holders: c.fences[key].holders,
                    }
                } else {
                    c.fences[key]
                },
        )
    }

    /// Creates a logical device on `physical_device`, together with the one
    /// queue that it owns, and registers both. The caller holds the one
    /// reference to the device that is outstanding; the device holds the one
    /// to its queue.
    pub fn new(
        context: &mut Context,
        physical_device: VkDispatchableHandle,
        queue_create_info: &VkDeviceQueueCreateInfo,
    ) -> (r: Result<VkDispatchableHandle, RegistryError>)
        ensures
            old(context).wf() ==> final(context).wf(),
            (r, final(context)@) == LogicalDevice::created(
                old(context)@,
                physical_device,
                queue_create_info.flags,
            ),
    {
        if lookup::<PhysicalDevice>(context, physical_device).is_none() {
            return Err(RegistryError::NotFound);
        }
        if context.ids.next >= u64::MAX - 1 {
            return Err(RegistryError::OutOfHandles);
        }
        match Queue::new(context, physical_device, queue_create_info) {
            Err(e) => Err(e),
            Ok(queue) => {
                let logical_device = LogicalDevice {
                    handle: VkDispatchableHandle::null(),
                    driver_name: "vulkan_software_rasterizer",
                    physical_device,
                    queue,
                };
                register_object(logical_device, context)
            },
        }
    }

    /// The queue of the device. There is one queue, whatever family and
    /// index are asked for.
    pub fn queue(&self, queue_family_index: u32, queue_index: u32) -> (r: VkDispatchableHandle)
        ensures
            r == self.queue,
    {
        self.queue
    }

    /// Waits for the fences of this device among `fences`: for all of them
    /// when `wait_all` is set, for any one of them otherwise. Changes nothing.
    pub fn wait_for_fences(
        &self,
        context: &Context,
        fences: &Vec<VkNonDispatchableHandle>,
        wait_all: bool,
        timeout: u64,
    ) -> (status: WaitStatus)
        ensures
            status == self.wait_outcome(context@, fences@, wait_all),
    {
        let mut all: bool = true;
        let mut any: bool = false;
        let mut i: usize = 0;
        while i < fences.len()
            invariant
                i <= fences.len(),
                all == self.all_signaled(context@, fences@.take(i as int)),
                any == self.any_signaled(context@, fences@.take(i as int)),
            decreases fences.len() - i,
        {
            let ghost seen = fences@.take(i as int);
            let ghost next = fences@.take(i + 1);
            let handle = fences[i];
            let mut counts: bool = false;
            let mut signaled: bool = false;
            match context.fences.get(&handle.0) {
                None => {},
                Some(entry) => {
                    if entry.object.logical_device.0 == self.handle.0 {
                        counts = true;
                        signaled = entry.object.signaled;
                    }
                },
            }
            proof {
                assert(next[i as int] == handle);
                assert(forall|j: int| 0 <= j < i ==> seen[j] == next[j]);
                assert(counts == self.owns(context@, handle));
                if self.any_signaled(context@, seen) {
                    let j = choose|j: int|
                        0 <= j < seen.len() && self.owns(context@, #[trigger] seen[j])
                            && context@.fences[seen[j].0].object.signaled;
                    assert(next[j] == seen[j]);
                }
                if self.any_signaled(context@, next) && !(counts && signaled) {
                    let j = choose|j: int|
                        0 <= j < next.len() && self.owns(context@, #[trigger] next[j])
                            && context@.fences[next[j].0].object.signaled;
                    assert(j < i);
                    assert(seen[j] == next[j]);
                }
                if self.all_signaled(context@, seen) && (!counts || signaled) {
                    assert forall|j: int|
                        0 <= j < next.len() && self.owns(
                            context@,
                            #[trigger] next[j],
                        ) implies context@.fences[next[j].0].object.signaled by {
                        if j < i {
                            assert(seen[j] == next[j]);
                        }
                    }
                }
                if self.all_signaled(context@, next) {
                    assert forall|j: int|
                        0 <= j < seen.len() && self.owns(
                            context@,
                            #[trigger] seen[j],
                        ) implies context@.fences[seen[j].0].object.signaled by {
                        assert(seen[j] == next[j]);
                    }
                }
            }
            if counts {
                if signaled {
                    any = true;
                } else {
                    all = false;
                }
            }
            i = i + 1;
        }
        proof {
            assert(fences@.take(fences@.len() as int) =~= fences@);
        }
        if (wait_all && all) || (!wait_all && any) {
            WaitStatus::Success
        } else {
            WaitStatus::Timeout
        }
    }

    /// Resets the fences of this device among `fences`. Fences that are not
    /// live or belong to another device are passed over.
    pub fn reset_fences(&self, context: &mut Context, fences: &Vec<VkNonDispatchableHandle>)
        ensures
            old(context).wf() ==> final(context).wf(),
            final(context)@ == (ContextView {
                fences: self.fences_after_reset(old(context)@, fences@, fences@.len() as int),
                ..old(context)@
            }),
    {
        let ghost before = context@;
        let mut i: usize = 0;
        proof {
            assert(context@.fences =~= self.fences_after_reset(before, fences@, 0));
        }
        while i < fences.len()
            invariant
                i <= fences.len(),
                before.wf() ==> context.wf(),
                context@ == (ContextView {
                    fences: self.fences_after_reset(before, fences@, i as int),
                    ..before
                }),
            decreases fences.len() - i,
        {
            let handle = fences[i];
            let ghost current = context@.fences;
            let found: Option<Shared<Fence>> = match context.fences.get(&handle.0) {
                None => None,
                Some(entry) => Some(Shared { object: entry.object, holders: entry.holders }),
            };
            match found {
                None => {},
                Some(entry) => {
                    if entry.object.logical_device.0 == self.handle.0 {
                        let mut fence = entry.object;
                        fence.reset();
                        context.fences.insert(
                            handle.0,
                            Shared { object: fence, holders: entry.holders },
                        );
                    }
                },
            }
            proof {
                let after = self.fences_after_reset(before, fences@, i + 1);
                assert forall|key: u64| self.resets(before, fences@, i + 1, key) == (self.resets(
                    before,
                    fences@,
                    i as int,
                    key,
                ) || key == handle.0 && self.owns(before, handle)) by {
                    if self.resets(before, fences@, i + 1, key) {
                        let j = choose|j: int|
                            0 <= j < i + 1 && j < fences@.len() && (#[trigger] fences@[j]).0 == key;
                        if j < i {
                            assert(self.resets(before, fences@, i as int, key));
                        }
                    }
                    if self.resets(before, fences@, i as int, key) {
                        let j = choose|j: int|
                            0 <= j < i && j < fences@.len() && (#[trigger] fences@[j]).0 == key;
                        assert(0 <= j < i + 1);
                    }
                    if key == handle.0 && self.owns(before, handle) {
                        assert(fences@[i as int].0 == key);
                    }
                }
                assert(context@.fences =~= after);
                if before.wf() {
                    assert(Fence::entries_wf(context@.fences, context@.ids));
                }
            }
            i = i + 1;
        }
    }
}

} // verus!
