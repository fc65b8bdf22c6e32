//! The instance: system-level information and functionality.

use vstd::prelude::*;
use crate::context::{Context, ContextView, Shared};
use crate::dispatchable::{register, register_object, Dispatchable};
use crate::error::RegistryError;
use crate::handle::HandleAllocator;
use crate::handle::VkDispatchableHandle;

verus! {

/// Contains system-level information and functionality.
#[derive(Clone, Copy, Debug)]
pub struct Instance {
    pub handle: VkDispatchableHandle,
    pub driver_name: &'static str,
}


impl Instance {
    /// Every object of `list` records a handle that `ids` has issued, and no
    /// two objects record the same one.
    pub open spec fn slots_wf(list: Seq<Shared<Instance>>, ids: HandleAllocator) -> bool {
        &&& forall|i: int| 0 <= i < list.len() ==> ids.issued((#[trigger] list[i]).object.handle.0)
        &&& forall|i: int, j: int|
            0 <= i < j < list.len() ==> (#[trigger] list[i]).object.handle != (
            #[trigger] list[j]).object.handle
    }
}

impl Dispatchable for Instance {
    open spec fn handle_of(&self) -> VkDispatchableHandle {
        self.handle
    }

    open spec fn with_handle(self, handle: VkDispatchableHandle) -> Self {
        Instance { handle, ..self }
    }

    open spec fn list(c: ContextView) -> Seq<Shared<Self>> {
        c.instances
    }

    open spec fn with_list(c: ContextView, list: Seq<Shared<Self>>) -> ContextView {
        ContextView { instances: list, ..c }
    }

    proof fn lemma_with_handle(self, handle: VkDispatchableHandle) {
    }

    proof fn lemma_category(
        c: ContextView,
        list: Seq<Shared<Self>>,
        other: Seq<Shared<Self>>,
        ids: HandleAllocator,
    ) {
    }

    fn get_vec_ref(context: &Context) -> (list: &Vec<Shared<Self>>) {
        &context.instances
    }

    fn get_vec(context: &mut Context) -> (list: &mut Vec<Shared<Self>>) {
        &mut context.instances
    }

    fn set_handle(&mut self, handle: VkDispatchableHandle) {
        self.handle = handle;
    }

    fn get_handle(&self) -> (handle: VkDispatchableHandle) {
        self.handle
    }
}

/// Name and revision of an extension that the runtime offers.
#[derive(Clone, Copy, Debug)]
pub struct VkExtensionProperties {
    pub extension_name: &'static str,
    pub spec_version: u32,
}

impl Instance {
    /// An instance as it is before registration: no handle yet.
    pub open spec fn unregistered() -> Instance {
        Instance { handle: VkDispatchableHandle(0), driver_name: "vulkan_software_rasterizer" }
    }

    /// Creates the instance and registers it. The caller holds the one
    /// reference that is outstanding.
    pub fn new(context: &mut Context) -> (r: Result<VkDispatchableHandle, RegistryError>)
        ensures
            old(context).wf() ==> final(context).wf(),
            (r, final(context)@) == register(old(context)@, Instance::unregistered()),
    {
        let instance = Instance {
            handle: VkDispatchableHandle::null(),
            driver_name: "vulkan_software_rasterizer",
        };
        register_object(instance, context)
    }

    /// Number of extensions that the instance offers.
    pub fn extension_count() -> (n: usize)
        ensures
            n == 2,
    {
        Self::extension_properties().len()
    }

    /// The extensions that the instance offers: surfaces, and surfaces of the
    /// XCB window system.
    pub fn extension_properties() -> (r: [VkExtensionProperties; 2])
        ensures
            r[0].extension_name == "VK_KHR_surface",
            r[0].spec_version == 25,
            r[1].extension_name == "VK_KHR_xcb_surface",
            r[1].spec_version == 6,
    {
        [
            VkExtensionProperties { extension_name: "VK_KHR_surface", spec_version: 25 },
            VkExtensionProperties { extension_name: "VK_KHR_xcb_surface", spec_version: 6 },
        ]
    }
}

} // verus!
