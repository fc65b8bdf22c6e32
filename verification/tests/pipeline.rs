use runtime::context::Context;
use runtime::error::RegistryError;
use runtime::handle::{VkDispatchableHandle, VkNonDispatchableHandle};
use runtime::logical_device::LogicalDevice;
use runtime::non_dispatchable::{drop_handle, from_handle, lookup};
use runtime::physical_device::PhysicalDevice;
use runtime::pipeline::{
    PipelineCache, PipelineLayout, RenderPass, ShaderModule, VkAttachmentDescription,
    VkPushConstantRange, VkSubpassDependency, VkSubpassDescription,
};
use runtime::queue::VkDeviceQueueCreateInfo;
use runtime::semaphore::{Semaphore, VkSemaphoreCreateInfo};

fn device(context: &mut Context) -> VkDispatchableHandle {
    let physical_device = PhysicalDevice::get(context).unwrap();
    let info = VkDeviceQueueCreateInfo { flags: 0, queue_family_index: 0, queue_count: 1 };
    LogicalDevice::new(context, physical_device, &info).unwrap()
}

#[test]
fn semaphore_keeps_its_flags() {
    let mut context = Context::new();
    let handle = Semaphore::create(&mut context, &VkSemaphoreCreateInfo { flags: 12 }).unwrap();
    assert_eq!(handle, VkNonDispatchableHandle(1));
    let semaphore = lookup::<Semaphore>(&context, handle).unwrap();
    assert_eq!(semaphore.flags, 12);
    assert_eq!(semaphore.handle, handle);
    assert_eq!(context.semaphores.get(&handle.0).unwrap().holders, 0);
}

#[test]
fn pipeline_layout_belongs_to_its_device() {
    let mut context = Context::new();
    let device = device(&mut context);
    let ranges = [VkPushConstantRange { stage_flags: 1, offset: 0, size: 16 }];
    let layouts = [VkNonDispatchableHandle(70)];
    let handle =
        PipelineLayout::create(&mut context, device, 0, Some(&layouts), Some(&ranges)).unwrap();
    assert_eq!(handle, VkNonDispatchableHandle(4));
    let layout = lookup::<PipelineLayout>(&context, handle).unwrap();
    assert_eq!(layout.handle, handle);
    assert_eq!(layout.logical_device, device);
    let second = PipelineLayout::create(&mut context, device, 0, None, None).unwrap();
    assert_eq!(second, VkNonDispatchableHandle(5));
    assert_eq!(context.pipeline_layouts.len(), 2);
}

#[test]
fn render_pass_belongs_to_its_device() {
    let mut context = Context::new();
    let device = device(&mut context);
    let attachments = [VkAttachmentDescription {
        flags: 0,
        format: 37,
        samples: 1,
        initial_layout: 0,
        final_layout: 2,
    }];
    let dependencies = [VkSubpassDependency { src_subpass: 0, dst_subpass: 1, dependency_flags: 0 }];
    let subpasses = [VkSubpassDescription { flags: 0, pipeline_bind_point: 0 }];
    let handle = RenderPass::create(
        &mut context,
        device,
        0,
        Some(&attachments),
        Some(&dependencies),
        Some(&subpasses),
    )
    .unwrap();
    let pass = lookup::<RenderPass>(&context, handle).unwrap();
    assert_eq!(pass.handle, handle);
    assert_eq!(pass.logical_device, device);
    assert_eq!(context.render_passes.len(), 1);
    assert!(RenderPass::create(&mut context, device, 0, None, None, None).is_ok());
}

#[test]
fn shader_module_holds_a_copy_of_its_code() {
    let mut context = Context::new();
    let device = device(&mut context);
    let mut code = vec![0x0723_0203u32, 1, 2, 3];
    let handle = ShaderModule::create(&mut context, device, 0, &code).unwrap();
    code[0] = 0;
    let module = lookup::<ShaderModule>(&context, handle).unwrap();
    assert_eq!(module.code, vec![0x0723_0203u32, 1, 2, 3]);
    assert_eq!(module.handle, handle);
    assert_eq!(module.logical_device, device);
    let empty = ShaderModule::create(&mut context, device, 0, &[]).unwrap();
    assert!(lookup::<ShaderModule>(&context, empty).unwrap().code.is_empty());
}

#[test]
fn pipeline_cache_holds_a_copy_of_its_data() {
    let mut context = Context::new();
    let device = device(&mut context);
    let handle = PipelineCache::create(&mut context, device, 0, &[9u8, 8, 7]).unwrap();
    let cache = lookup::<PipelineCache>(&context, handle).unwrap();
    assert_eq!(cache.initial_data, vec![9u8, 8, 7]);
    assert_eq!(cache.handle, handle);
    assert_eq!(cache.logical_device, device);
}

#[test]
fn pipeline_objects_need_a_live_device() {
    let mut context = Context::new();
    let unknown = VkDispatchableHandle(30);
    assert_eq!(
        PipelineLayout::create(&mut context, unknown, 0, None, None),
        Err(RegistryError::NotFound)
    );
    assert_eq!(
        RenderPass::create(&mut context, unknown, 0, None, None, None),
        Err(RegistryError::NotFound)
    );
    assert_eq!(ShaderModule::create(&mut context, unknown, 0, &[1]), Err(RegistryError::NotFound));
    assert_eq!(PipelineCache::create(&mut context, unknown, 0, &[1]), Err(RegistryError::NotFound));
    assert_eq!(context.ids.next, 1);
    assert!(context.pipeline_layouts.is_empty());
    assert!(context.render_passes.is_empty());
    assert!(context.shader_modules.is_empty());
    assert!(context.pipeline_caches.is_empty());
}

#[test]
fn pipeline_objects_are_refused_when_identities_run_out() {
    let mut context = Context::new();
    let device = device(&mut context);
    context.ids.next = u64::MAX;
    assert_eq!(
        PipelineLayout::create(&mut context, device, 0, None, None),
        Err(RegistryError::OutOfHandles)
    );
    assert_eq!(
        RenderPass::create(&mut context, device, 0, None, None, None),
        Err(RegistryError::OutOfHandles)
    );
    assert_eq!(ShaderModule::create(&mut context, device, 0, &[1]), Err(RegistryError::OutOfHandles));
    assert_eq!(PipelineCache::create(&mut context, device, 0, &[1]), Err(RegistryError::OutOfHandles));
}

#[test]
fn pipeline_objects_follow_the_protocol() {
    let mut context = Context::new();
    let device = device(&mut context);
    let module = ShaderModule::create(&mut context, device, 0, &[5, 6]).unwrap();
    assert_eq!(from_handle::<ShaderModule>(&mut context, module), Ok(()));
    assert_eq!(
        drop_handle::<ShaderModule>(&mut context, module),
        Err(RegistryError::StillReferenced)
    );
    assert_eq!(runtime::non_dispatchable::release::<ShaderModule>(&mut context, module), Ok(()));
    assert_eq!(drop_handle::<ShaderModule>(&mut context, module), Ok(()));
    assert_eq!(from_handle::<ShaderModule>(&mut context, module), Err(RegistryError::NotFound));
    assert_eq!(from_handle::<PipelineCache>(&mut context, module), Err(RegistryError::NotFound));
}
