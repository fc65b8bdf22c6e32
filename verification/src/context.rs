//! The registry: sole owner of all live object storage.

use vstd::prelude::*;
use std::collections::HashMap;
use crate::fence::Fence;
use crate::handle::HandleAllocator;
use crate::instance::Instance;
use crate::logical_device::LogicalDevice;
use crate::physical_device::PhysicalDevice;
use crate::pipeline::{PipelineCache, PipelineLayout, RenderPass, ShaderModule};
use crate::queue::Queue;
use crate::semaphore::Semaphore;

verus! {

broadcast use vstd::std_specs::hash::group_hash_axioms;

/// A registered object together with the number of references to it that
/// have been handed out and not yet given back. The registry's own hold on
/// the object is not counted.
#[derive(Debug)]
pub struct Shared<T> {
    pub object: T,
    pub holders: u64,
}

/// The registry. Coarse objects sit in ordered collections, in creation
/// order; fine-grained objects sit in maps keyed by their identity.
#[derive(Debug)]
pub struct Context {
    pub ids: HandleAllocator,
    pub instances: Vec<Shared<Instance>>,
    pub physical_devices: Vec<Shared<PhysicalDevice>>,
    pub logical_devices: Vec<Shared<LogicalDevice>>,
    pub queues: Vec<Shared<Queue>>,
    pub fences: HashMap<u64, Shared<Fence>>,
    pub semaphores: HashMap<u64, Shared<Semaphore>>,
    pub pipeline_layouts: HashMap<u64, Shared<PipelineLayout>>,
    pub render_passes: HashMap<u64, Shared<RenderPass>>,
    pub shader_modules: HashMap<u64, Shared<ShaderModule>>,
    pub pipeline_caches: HashMap<u64, Shared<PipelineCache>>,
}

/// What a registry holds, as mathematical collections.
pub struct ContextView {
    pub ids: HandleAllocator,
    pub instances: Seq<Shared<Instance>>,
    pub physical_devices: Seq<Shared<PhysicalDevice>>,
    pub logical_devices: Seq<Shared<LogicalDevice>>,
    pub queues: Seq<Shared<Queue>>,
    pub fences: Map<u64, Shared<Fence>>,
    pub semaphores: Map<u64, Shared<Semaphore>>,
    pub pipeline_layouts: Map<u64, Shared<PipelineLayout>>,
    pub render_passes: Map<u64, Shared<RenderPass>>,
    pub shader_modules: Map<u64, Shared<ShaderModule>>,
    pub pipeline_caches: Map<u64, Shared<PipelineCache>>,
}

impl ContextView {
    /// The registry that holds nothing and has issued nothing.
    pub open spec fn empty() -> ContextView {
        ContextView {
            ids: HandleAllocator { next: 1 },
            instances: Seq::empty(),
            physical_devices: Seq::empty(),
            logical_devices: Seq::empty(),
            queues: Seq::empty(),
            fences: Map::empty(),
            semaphores: Map::empty(),
            pipeline_layouts: Map::empty(),
            render_passes: Map::empty(),
            shader_modules: Map::empty(),
            pipeline_caches: Map::empty(),
        }
    }

    /// The allocator is sound, every identity in use was issued by it, every
    /// object records the identity it is found under, and no identity names
    /// two objects of one category.
    pub open spec fn wf(self) -> bool {
        &&& self.ids.wf()
        &&& Instance::slots_wf(self.instances, self.ids)
        &&& PhysicalDevice::slots_wf(self.physical_devices, self.ids)
        &&& LogicalDevice::slots_wf(self.logical_devices, self.ids)
        &&& Queue::slots_wf(self.queues, self.ids)
        &&& Fence::entries_wf(self.fences, self.ids)
        &&& Semaphore::entries_wf(self.semaphores, self.ids)
        &&& PipelineLayout::entries_wf(self.pipeline_layouts, self.ids)
        &&& RenderPass::entries_wf(self.render_passes, self.ids)
        &&& ShaderModule::entries_wf(self.shader_modules, self.ids)
        &&& PipelineCache::entries_wf(self.pipeline_caches, self.ids)
    }
}

impl View for Context {
    type V = ContextView;

    open spec fn view(&self) -> ContextView {
        ContextView {
            ids: self.ids,
            instances: self.instances@,
            physical_devices: self.physical_devices@,
            logical_devices: self.logical_devices@,
            queues: self.queues@,
            fences: self.fences@,
            semaphores: self.semaphores@,
            pipeline_layouts: self.pipeline_layouts@,
            render_passes: self.render_passes@,
            shader_modules: self.shader_modules@,
            pipeline_caches: self.pipeline_caches@,
        }
    }
}

impl Context {
    /// The registry is well-formed when what it holds is.
    pub open spec fn wf(&self) -> bool {
        self@.wf()
    }

    /// An empty registry whose allocator has issued nothing.
    pub fn new() -> (context: Self)
        ensures
            context.wf(),
            context@ == ContextView::empty(),
    {
        let context = Context {
            ids: HandleAllocator::new(),
            instances: Vec::new(),
            physical_devices: Vec::new(),
            logical_devices: Vec::new(),
            queues: Vec::new(),
            fences: HashMap::new(),
            semaphores: HashMap::new(),
            pipeline_layouts: HashMap::new(),
            render_passes: HashMap::new(),
            shader_modules: HashMap::new(),
            pipeline_caches: HashMap::new(),
        };
        proof {
            assert(context@.instances =~= Seq::empty());
            assert(context@.physical_devices =~= Seq::empty());
            assert(context@.logical_devices =~= Seq::empty());
            assert(context@.queues =~= Seq::empty());
            assert(context@.fences =~= Map::empty());
            assert(context@.semaphores =~= Map::empty());
            assert(context@.pipeline_layouts =~= Map::empty());
            assert(context@.render_passes =~= Map::empty());
            assert(context@.shader_modules =~= Map::empty());
            assert(context@.pipeline_caches =~= Map::empty());
        }
        context
    }
}

} // verus!
