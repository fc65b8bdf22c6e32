//! Pipeline objects: further consumers of the identity-keyed protocol.

use vstd::prelude::*;
use std::collections::HashMap;
use crate::context::{Context, ContextView, Shared};
use crate::handle::HandleAllocator;
use vstd::slice::slice_to_vec;
use crate::dispatchable::{live, lookup};
use crate::error::RegistryError;
use crate::logical_device::LogicalDevice;
use crate::non_dispatchable::{register, register_object, NonDispatchable};
use crate::handle::{VkDispatchableHandle, VkNonDispatchableHandle};

verus! {

/// Layout of the resources that a pipeline can reach.
#[derive(Clone, Copy, Debug)]
pub struct PipelineLayout {
    pub handle: VkNonDispatchableHandle,
    pub logical_device: VkDispatchableHandle,
}

/// Description of the attachments and passes of a rendering.
#[derive(Clone, Copy, Debug)]
pub struct RenderPass {
    pub handle: VkNonDispatchableHandle,
    pub logical_device: VkDispatchableHandle,
}

/// Shader code, kept as the words it was created from.
#[derive(Debug)]
pub struct ShaderModule {
    pub handle: VkNonDispatchableHandle,
    pub logical_device: VkDispatchableHandle,
    pub code: Vec<u32>,
}

/// Cache of pipeline construction results, kept as its initial bytes.
#[derive(Debug)]
pub struct PipelineCache {
    pub handle: VkNonDispatchableHandle,
    pub logical_device: VkDispatchableHandle,
    pub initial_data: Vec<u8>,
}


impl PipelineLayout {
    /// Every key of `table` has been issued by `ids`, and every object records
    /// the key it is stored under.
    pub open spec fn entries_wf(table: Map<u64, Shared<PipelineLayout>>, ids: HandleAllocator) -> bool {
        forall|k: u64| #[trigger]
            table.contains_key(k) ==> ids.issued(k) && table[k].object.handle.0 == k
    }
}

impl NonDispatchable for PipelineLayout {
    open spec fn handle_of(&self) -> VkNonDispatchableHandle {
        self.handle
    }

    open spec fn with_handle(self, handle: VkNonDispatchableHandle) -> Self {
        PipelineLayout { handle, ..self }
    }

    open spec fn table(c: ContextView) -> Map<u64, Shared<Self>> {
        c.pipeline_layouts
    }

    open spec fn with_table(c: ContextView, table: Map<u64, Shared<Self>>) -> ContextView {
        ContextView { pipeline_layouts: table, ..c }
    }

    proof fn lemma_with_handle(self, handle: VkNonDispatchableHandle) {
    }

    proof fn lemma_category(
        c: ContextView,
        table: Map<u64, Shared<Self>>,
        other: Map<u64, Shared<Self>>,
        ids: HandleAllocator,
    ) {
    }

    fn get_hash(context: &Context) -> (table: &HashMap<u64, Shared<Self>>) {
        &context.pipeline_layouts
    }

    fn get_hash_mut(context: &mut Context) -> (table: &mut HashMap<u64, Shared<Self>>) {
        &mut context.pipeline_layouts
    }

    fn set_handle(&mut self, handle: VkNonDispatchableHandle) {
        self.handle = handle;
    }

    fn get_handle(&self) -> (handle: VkNonDispatchableHandle) {
        self.handle
    }
}

impl RenderPass {
    /// Every key of `table` has been issued by `ids`, and every object records
    /// the key it is stored under.
    pub open spec fn entries_wf(table: Map<u64, Shared<RenderPass>>, ids: HandleAllocator) -> bool {
        forall|k: u64| #[trigger]
            table.contains_key(k) ==> ids.issued(k) && table[k].object.handle.0 == k
    }
}

impl NonDispatchable for RenderPass {
    open spec fn handle_of(&self) -> VkNonDispatchableHandle {
        self.handle
    }

    open spec fn with_handle(self, handle: VkNonDispatchableHandle) -> Self {
        RenderPass { handle, ..self }
    }

    open spec fn table(c: ContextView) -> Map<u64, Shared<Self>> {
        c.render_passes
    }

    open spec fn with_table(c: ContextView, table: Map<u64, Shared<Self>>) -> ContextView {
        ContextView { render_passes: table, ..c }
    }

    proof fn lemma_with_handle(self, handle: VkNonDispatchableHandle) {
    }

    proof fn lemma_category(
        c: ContextView,
        table: Map<u64, Shared<Self>>,
        other: Map<u64, Shared<Self>>,
        ids: HandleAllocator,
    ) {
    }

    fn get_hash(context: &Context) -> (table: &HashMap<u64, Shared<Self>>) {
        &context.render_passes
    }

    fn get_hash_mut(context: &mut Context) -> (table: &mut HashMap<u64, Shared<Self>>) {
        &mut context.render_passes
    }

    fn set_handle(&mut self, handle: VkNonDispatchableHandle) {
        self.handle = handle;
    }

    fn get_handle(&self) -> (handle: VkNonDispatchableHandle) {
        self.handle
    }
}

impl ShaderModule {
    /// Every key of `table` has been issued by `ids`, and every object records
    /// the key it is stored under.
    pub open spec fn entries_wf(table: Map<u64, Shared<ShaderModule>>, ids: HandleAllocator) -> bool {
        forall|k: u64| #[trigger]
            table.contains_key(k) ==> ids.issued(k) && table[k].object.handle.0 == k
    }
}

impl NonDispatchable for ShaderModule {
    open spec fn handle_of(&self) -> VkNonDispatchableHandle {
        self.handle
    }

    open spec fn with_handle(self, handle: VkNonDispatchableHandle) -> Self {
        ShaderModule { handle, ..self }
    }

    open spec fn table(c: ContextView) -> Map<u64, Shared<Self>> {
        c.shader_modules
    }

    open spec fn with_table(c: ContextView, table: Map<u64, Shared<Self>>) -> ContextView {
        ContextView { shader_modules: table, ..c }
    }

    proof fn lemma_with_handle(self, handle: VkNonDispatchableHandle) {
    }

    proof fn lemma_category(
        c: ContextView,
        table: Map<u64, Shared<Self>>,
        other: Map<u64, Shared<Self>>,
        ids: HandleAllocator,
    ) {
    }

    fn get_hash(context: &Context) -> (table: &HashMap<u64, Shared<Self>>) {
        &context.shader_modules
    }

    fn get_hash_mut(context: &mut Context) -> (table: &mut HashMap<u64, Shared<Self>>) {
        &mut context.shader_modules
    }

    fn set_handle(&mut self, handle: VkNonDispatchableHandle) {
        self.handle = handle;
    }

    fn get_handle(&self) -> (handle: VkNonDispatchableHandle) {
        self.handle
    }
}

impl PipelineCache {
    /// Every key of `table` has been issued by `ids`, and every object records
    /// the key it is stored under.
    pub open spec fn entries_wf(table: Map<u64, Shared<PipelineCache>>, ids: HandleAllocator) -> bool {
        forall|k: u64| #[trigger]
            table.contains_key(k) ==> ids.issued(k) && table[k].object.handle.0 == k
    }
}

impl NonDispatchable for PipelineCache {
    open spec fn handle_of(&self) -> VkNonDispatchableHandle {
        self.handle
    }

    open spec fn with_handle(self, handle: VkNonDispatchableHandle) -> Self {
        PipelineCache { handle, ..self }
    }

    open spec fn table(c: ContextView) -> Map<u64, Shared<Self>> {
        c.pipeline_caches
    }

    open spec fn with_table(c: ContextView, table: Map<u64, Shared<Self>>) -> ContextView {
        ContextView { pipeline_caches: table, ..c }
    }

    proof fn lemma_with_handle(self, handle: VkNonDispatchableHandle) {
    }

    proof fn lemma_category(
        c: ContextView,
        table: Map<u64, Shared<Self>>,
        other: Map<u64, Shared<Self>>,
        ids: HandleAllocator,
    ) {
    }

    fn get_hash(context: &Context) -> (table: &HashMap<u64, Shared<Self>>) {
        &context.pipeline_caches
    }

    fn get_hash_mut(context: &mut Context) -> (table: &mut HashMap<u64, Shared<Self>>) {
        &mut context.pipeline_caches
    }

    fn set_handle(&mut self, handle: VkNonDispatchableHandle) {
        self.handle = handle;
    }

    fn get_handle(&self) -> (handle: VkNonDispatchableHandle) {
        self.handle
    }
}

/// A range of push constants, as a pipeline layout is asked for it.
#[derive(Clone, Copy, Debug)]
pub struct VkPushConstantRange {
    pub stage_flags: u32,
    pub offset: u32,
    pub size: u32,
}

/// An attachment, as a render pass is asked for it.
#[derive(Clone, Copy, Debug)]
pub struct VkAttachmentDescription {
    pub flags: u32,
    pub format: u32,
    pub samples: u32,
    pub initial_layout: u32,
    pub final_layout: u32,
}

/// A dependency between two subpasses, as a render pass is asked for it.
#[derive(Clone, Copy, Debug)]
pub struct VkSubpassDependency {
    pub src_subpass: u32,
    pub dst_subpass: u32,
    pub dependency_flags: u32,
}

/// A subpass, as a render pass is asked for it.
#[derive(Clone, Copy, Debug)]
pub struct VkSubpassDescription {
    pub flags: u32,
    pub pipeline_bind_point: u32,
}

/// What creating an object that belongs to `logical_device` gives, and the
/// registry after it: refused, with nothing changed, when `logical_device`
/// names no live logical device or the allocator is exhausted; otherwise the
/// object is registered.
pub open spec fn created_on<T: NonDispatchable>(
    c: ContextView,
    logical_device: VkDispatchableHandle,
    object: T,
) -> (Result<VkNonDispatchableHandle, RegistryError>, ContextView) {
    if !live::<LogicalDevice>(c, logical_device) {
        (Err(RegistryError::NotFound), c)
    } else {
        register(c, object)
    }
}

impl PipelineLayout {
    /// A pipeline layout as it is before registration: no handle yet.
    pub open spec fn unregistered(logical_device: VkDispatchableHandle) -> PipelineLayout {
        PipelineLayout { handle: VkNonDispatchableHandle(0), logical_device }
    }

    /// Creates a pipeline layout that belongs to `logical_device` and
    /// registers it. Flags, set layouts and push constant ranges are accepted
    /// and not kept.
    pub fn create(
        context: &mut Context,
        logical_device: VkDispatchableHandle,
        flags: u32,
        set_layouts: Option<&[VkNonDispatchableHandle]>,
        push_constant_ranges: Option<&[VkPushConstantRange]>,
    ) -> (r: Result<VkNonDispatchableHandle, RegistryError>)
        ensures
            old(context).wf() ==> final(context).wf(),
            (r, final(context)@) == created_on(
                old(context)@,
                logical_device,
                PipelineLayout::unregistered(logical_device),
            ),
    {
        if lookup::<LogicalDevice>(context, logical_device).is_none() {
            return Err(RegistryError::NotFound);
        }
        let object = PipelineLayout { handle: VkNonDispatchableHandle::null(), logical_device };
        register_object(object, context)
    }
}

impl RenderPass {
    /// A render pass as it is before registration: no handle yet.
    pub open spec fn unregistered(logical_device: VkDispatchableHandle) -> RenderPass {
        RenderPass { handle: VkNonDispatchableHandle(0), logical_device }
    }

    /// Creates a render pass that belongs to `logical_device` and registers
    /// it. Flags, attachments, dependencies and subpasses are accepted and
    /// not kept.
    pub fn create(
        context: &mut Context,
        logical_device: VkDispatchableHandle,
        flags: u32,
        attachments: Option<&[VkAttachmentDescription]>,
        dependencies: Option<&[VkSubpassDependency]>,
        subpasses: Option<&[VkSubpassDescription]>,
    ) -> (r: Result<VkNonDispatchableHandle, RegistryError>)
        ensures
            old(context).wf() ==> final(context).wf(),
            (r, final(context)@) == created_on(
                old(context)@,
                logical_device,
                RenderPass::unregistered(logical_device),
            ),
    {
        if lookup::<LogicalDevice>(context, logical_device).is_none() {
            return Err(RegistryError::NotFound);
        }
        let object = RenderPass { handle: VkNonDispatchableHandle::null(), logical_device };
        register_object(object, context)
    }
}

impl ShaderModule {
    /// The module is as it is before registration, belongs to
    /// `logical_device` and holds the words `code`.
    pub open spec fn unregistered_with(
        self,
        logical_device: VkDispatchableHandle,
        code: Seq<u32>,
    ) -> bool {
        self.handle.0 == 0 && self.logical_device == logical_device && self.code@ == code
    }

    /// Creates a shader module that belongs to `logical_device`, holds a copy
    /// of `code`, and registers it. Flags are accepted and not kept.
    pub fn create(
        context: &mut Context,
        logical_device: VkDispatchableHandle,
        flags: u32,
        code: &[u32],
    ) -> (r: Result<VkNonDispatchableHandle, RegistryError>)
        ensures
            old(context).wf() ==> final(context).wf(),
            exists|module: ShaderModule| #[trigger]
                module.unregistered_with(logical_device, code@) && (r, final(context)@)
                    == created_on(old(context)@, logical_device, module),
    {
        let object = ShaderModule {
            handle: VkNonDispatchableHandle::null(),
            logical_device,
            code: slice_to_vec(code),
        };
        assert(object.unregistered_with(logical_device, code@));
        if lookup::<LogicalDevice>(context, logical_device).is_none() {
            return Err(RegistryError::NotFound);
        }
        register_object(object, context)
    }
}

impl PipelineCache {
    /// The cache is as it is before registration, belongs to
    /// `logical_device` and holds the bytes `initial_data`.
    pub open spec fn unregistered_with(
        self,
        logical_device: VkDispatchableHandle,
        initial_data: Seq<u8>,
    ) -> bool {
        self.handle.0 == 0 && self.logical_device == logical_device && self.initial_data@
            == initial_data
    }

    /// Creates a pipeline cache that belongs to `logical_device`, holds a
    /// copy of `initial_data`, and registers it. Flags are accepted and not
    /// kept.
    pub fn create(
        context: &mut Context,
        logical_device: VkDispatchableHandle,
        flags: u32,
        initial_data: &[u8],
    ) -> (r: Result<VkNonDispatchableHandle, RegistryError>)
        ensures
            old(context).wf() ==> final(context).wf(),
            exists|cache: PipelineCache| #[trigger]
                cache.unregistered_with(logical_device, initial_data@) && (r, final(context)@)
                    == created_on(old(context)@, logical_device, cache),
    {
        let object = PipelineCache {
            handle: VkNonDispatchableHandle::null(),
            logical_device,
            initial_data: slice_to_vec(initial_data),
        };
        assert(object.unregistered_with(logical_device, initial_data@));
        if lookup::<LogicalDevice>(context, logical_device).is_none() {
            return Err(RegistryError::NotFound);
        }
        register_object(object, context)
    }
}

} // verus!
