//! The physical device: the one adapter that performs rendering operations.

use vstd::prelude::*;
use crate::context::{Context, ContextView, Shared};
use crate::dispatchable::{
    found_at, from_handle, lemma_index_of, register, register_object, resolve, Dispatchable,
};
use crate::error::RegistryError;
use crate::instance::VkExtensionProperties;
use crate::handle::HandleAllocator;
use crate::handle::{VkDispatchableHandle, VkNonDispatchableHandle};

verus! {

/// Performs rendering operations.
#[derive(Clone, Copy, Debug)]
pub struct PhysicalDevice {
    pub handle: VkDispatchableHandle,
    pub physical_device_name: &'static str,
}


impl PhysicalDevice {
    /// Every object of `list` records a handle that `ids` has issued, and no
    /// two objects record the same one.
    pub open spec fn slots_wf(list: Seq<Shared<PhysicalDevice>>, ids: HandleAllocator) -> bool {
        &&& forall|i: int| 0 <= i < list.len() ==> ids.issued((#[trigger] list[i]).object.handle.0)
        &&& forall|i: int, j: int|
            0 <= i < j < list.len() ==> (#[trigger] list[i]).object.handle != (
            #[trigger] list[j]).object.handle
    }
}

impl Dispatchable for PhysicalDevice {
    open spec fn handle_of(&self) -> VkDispatchableHandle {
        self.handle
    }

    open spec fn with_handle(self, handle: VkDispatchableHandle) -> Self {
        PhysicalDevice { handle, ..self }
    }

    open spec fn list(c: ContextView) -> Seq<Shared<Self>> {
        c.physical_devices
    }

    open spec fn with_list(c: ContextView, list: Seq<Shared<Self>>) -> ContextView {
        ContextView { physical_devices: list, ..c }
    }

    proof fn lemma_with_handle(self, handle: VkDispatchableHandle) {
    }

    proof fn lemma_category(
        c: ContextView,
        list: Seq<Shared<Self>>,
        other: Seq<Shared<Self>>,
        ids: HandleAllocator,
    ) {
    }

    fn get_vec_ref(context: &Context) -> (list: &Vec<Shared<Self>>) {
        &context.physical_devices
    }

    fn get_vec(context: &mut Context) -> (list: &mut Vec<Shared<Self>>) {
        &mut context.physical_devices
    }

    fn set_handle(&mut self, handle: VkDispatchableHandle) {
        self.handle = handle;
    }

    fn get_handle(&self) -> (handle: VkDispatchableHandle) {
        self.handle
    }
}

impl PhysicalDevice {
    /// The physical device as it is before registration: no handle yet.
    pub open spec fn unregistered() -> PhysicalDevice {
        PhysicalDevice {
            handle: VkDispatchableHandle(0),
            physical_device_name: "vulkan_software_rasterizer physical device",
        }
    }

    /// What asking for the physical device gives, and the registry after it.
    /// The first request creates and registers the device; every later one
    /// resolves the device that is there, so that all requests name one
    /// object. Either way the caller holds one more reference.
    pub open spec fn obtain(c: ContextView) -> (
        Result<VkDispatchableHandle, RegistryError>,
        ContextView,
    ) {
        if c.physical_devices.len() < 1 {
            register(c, PhysicalDevice::unregistered())
        } else {
            let handle = c.physical_devices.last().object.handle;
            match resolve::<PhysicalDevice>(c, handle).0 {
                Ok(_) => (Ok(handle), resolve::<PhysicalDevice>(c, handle).1),
                Err(e) => (Err(e), c),
            }
        }
    }

    /// The physical device, created at the first request and shared from then
    /// on.
    pub fn get(context: &mut Context) -> (r: Result<VkDispatchableHandle, RegistryError>)
        ensures
            old(context).wf() ==> final(context).wf(),
            (r, final(context)@) == PhysicalDevice::obtain(old(context)@),
    {
        let n: usize = context.physical_devices.len();
        if n < Self::physical_device_count() {
            let physical_device = PhysicalDevice {
                handle: VkDispatchableHandle::null(),
                physical_device_name: "vulkan_software_rasterizer physical device",
            };
            register_object(physical_device, context)
        } else {
            let handle = context.physical_devices[n - 1].object.handle;
            match from_handle::<PhysicalDevice>(context, handle) {
                Ok(_) => Ok(handle),
                Err(e) => Err(e),
            }
        }
    }

    /// Number of physical devices that the runtime exposes.
    pub fn physical_device_count() -> (n: usize)
        ensures
            n == 1,
    {
        1
    }

    /// Number of extensions that the physical device offers.
    pub fn extension_count() -> (n: usize)
        ensures
            n == 1,
    {
        Self::extension_properties().len()
    }

    /// The extensions that the physical device offers: swapchains.
    pub fn extension_properties() -> (r: [VkExtensionProperties; 1])
        ensures
            r[0].extension_name == "VK_KHR_swapchain",
            r[0].spec_version == 70,
    {
        [VkExtensionProperties { extension_name: "VK_KHR_swapchain", spec_version: 70 }]
    }

    /// Whether queues of the family can present to a surface: the one family
    /// there is can, to any surface.
    pub fn surface_support(&self, queue_family_index: u32, surface: VkNonDispatchableHandle) -> (r:
        bool)
        ensures
            r == (queue_family_index == 0),
    {
        queue_family_index == 0
    }
}

/// Width, height and depth of a volume.
#[derive(Clone, Copy, Debug)]
pub struct VkExtent3D {
    pub width: u32,
    pub height: u32,
    pub depth: u32,
}

/// Width and height of an area.
#[derive(Clone, Copy, Debug)]
pub struct VkExtent2D {
    pub width: u32,
    pub height: u32,
}

/// What a format can be used for, by tiling and for buffers.
#[derive(Clone, Copy, Debug)]
pub struct VkFormatProperties {
    pub linear_tiling_features: u32,
    pub optimal_tiling_features: u32,
    pub buffer_features: u32,
}

/// What the queues of a family can do, and how many there are.
#[derive(Clone, Copy, Debug)]
pub struct VkQueueFamilyProperties {
    pub queue_flags: u32,
    pub queue_count: u32,
    pub timestamp_valid_bits: u32,
    pub min_image_transfer_granularity: VkExtent3D,
}

/// A format and color space in which a surface can be presented.
#[derive(Clone, Copy, Debug)]
pub struct VkSurfaceFormatKHR {
    pub format: u32,
    pub color_space: u32,
}

/// Limits of the swapchains that a surface accepts.
#[derive(Clone, Copy, Debug)]
pub struct VkSurfaceCapabilitiesKHR {
    pub min_image_count: u32,
    pub max_image_count: u32,
    pub current_extent: VkExtent2D,
    pub min_image_extent: VkExtent2D,
    pub max_image_extent: VkExtent2D,
    pub max_image_array_layers: u32,
    pub supported_transforms: u32,
    pub current_transform: u32,
    pub supported_composite_alpha: u32,
    pub supported_usage_flags: u32,
}

/// A kind of memory: its properties and the heap it is taken from.
#[derive(Clone, Copy, Debug)]
pub struct VkMemoryType {
    pub property_flags: u32,
    pub heap_index: u32,
}

/// A heap of memory: its size in bytes and its flags.
#[derive(Clone, Copy, Debug)]
pub struct VkMemoryHeap {
    pub size: u64,
    pub flags: u32,
}

/// The memory types and heaps of a physical device. Only the first
/// `memory_type_count` types and `memory_heap_count` heaps are meant.
#[derive(Clone, Copy, Debug)]
pub struct VkPhysicalDeviceMemoryProperties {
    pub memory_type_count: u32,
    pub memory_types: [VkMemoryType; 32],
    pub memory_heap_count: u32,
    pub memory_heaps: [VkMemoryHeap; 16],
}

/// Optional capabilities of a physical device, each present or absent.
#[derive(Clone, Copy, Debug)]
pub struct VkPhysicalDeviceFeatures {
    pub robust_buffer_access: bool,
    pub full_draw_index_uint32: bool,
    pub image_cube_array: bool,
    pub independent_blend: bool,
    pub geometry_shader: bool,
    pub tessellation_shader: bool,
    pub sample_rate_shading: bool,
    pub dual_src_blend: bool,
    pub logic_op: bool,
    pub multi_draw_indirect: bool,
    pub draw_indirect_first_instance: bool,
    pub depth_clamp: bool,
    pub depth_bias_clamp: bool,
    pub fill_mode_non_solid: bool,
    pub depth_bounds: bool,
    pub wide_lines: bool,
    pub large_points: bool,
    pub alpha_to_one: bool,
    pub multi_viewport: bool,
    pub sampler_anisotropy: bool,
    pub texture_compression_etc2: bool,
    pub texture_compression_astc_ldr: bool,
    pub texture_compression_bc: bool,
    pub occlusion_query_precise: bool,
    pub pipeline_statistics_query: bool,
    pub vertex_pipeline_stores_and_atomics: bool,
    pub fragment_stores_and_atomics: bool,
    pub shader_tessellation_and_geometry_point_size: bool,
    pub shader_image_gather_extended: bool,
    pub shader_storage_image_extended_formats: bool,
    pub shader_storage_image_multisample: bool,
    pub shader_storage_image_read_without_format: bool,
    pub shader_storage_image_write_without_format: bool,
    pub shader_uniform_buffer_array_dynamic_indexing: bool,
    pub shader_sampled_image_array_dynamic_indexing: bool,
    pub shader_storage_buffer_array_dynamic_indexing: bool,
    pub shader_storage_image_array_dynamic_indexing: bool,
    pub shader_clip_distance: bool,
    pub shader_cull_distance: bool,
    pub shader_float64: bool,
    pub shader_int64: bool,
    pub shader_int16: bool,
    pub shader_resource_residency: bool,
    pub shader_resource_min_lod: bool,
    pub sparse_binding: bool,
    pub sparse_residency_buffer: bool,
    pub sparse_residency_image_2d: bool,
    pub sparse_residency_image_3d: bool,
    pub sparse_residency_2_samples: bool,
    pub sparse_residency_4_samples: bool,
    pub sparse_residency_8_samples: bool,
    pub sparse_residency_16_samples: bool,
    pub sparse_residency_aliased: bool,
    pub variable_multisample_rate: bool,
    pub inherited_queries: bool,
}

/// How a physical device handles sparse resources.
#[derive(Clone, Copy, Debug)]
pub struct VkPhysicalDeviceSparseProperties {
    pub residency_standard_2d_block_shape: u32,
    pub residency_standard_2d_multisample_block_shape: u32,
    pub residency_standard_3d_block_shape: u32,
    pub residency_aligned_mip_size: u32,
    pub residency_non_resident_strict: u32,
}

/// What identifies a physical device: versions, vendor and device numbers,
/// kind, name, and the identifier that pipeline caches are tied to.
#[derive(Clone, Copy, Debug)]
pub struct VkPhysicalDeviceProperties {
    pub api_version: u32,
    pub driver_version: u32,
    pub vendor_id: u32,
    pub device_id: u32,
    pub device_type: u32,
    pub device_name: &'static str,
    pub pipeline_cache_uuid: [u8; 16],
    pub sparse_properties: VkPhysicalDeviceSparseProperties,
}

/// The device is of none of the named kinds.
pub const VK_PHYSICAL_DEVICE_TYPE_OTHER: u32 = 0;

/// Queues of the family take graphics operations.
pub const VK_QUEUE_GRAPHICS_BIT: u32 = 1;

/// Queues of the family take compute operations.
pub const VK_QUEUE_COMPUTE_BIT: u32 = 2;

/// Presentation in arrival order, waiting for the vertical blank.
pub const VK_PRESENT_MODE_FIFO_KHR: u32 = 2;

/// Four 8-bit channels, unsigned normalized.
pub const VK_FORMAT_R8G8B8A8_UNORM: u32 = 37;

/// Four 8-bit channels, unsigned normalized, sRGB encoded.
pub const VK_FORMAT_R8G8B8A8_SRGB: u32 = 43;

/// The sRGB color space with its non-linear transfer function.
pub const VK_COLOR_SPACE_SRGB_NONLINEAR_KHR: u32 = 0;

/// The image is presented as it is, without rotation or mirroring.
pub const VK_SURFACE_TRANSFORM_IDENTITY_BIT_KHR: u32 = 1;

/// The alpha channel of the image is ignored in composition.
pub const VK_COMPOSITE_ALPHA_OPAQUE_BIT_KHR: u32 = 1;

/// The image can be a color attachment.
pub const VK_IMAGE_USAGE_COLOR_ATTACHMENT_BIT: u32 = 16;

/// Number of formats that the runtime knows: formats are numbered from zero.
pub const VK_FORMAT_COUNT: u32 = 185;

impl VkPhysicalDeviceFeatures {
    /// No optional capability is present.
    pub open spec fn none() -> VkPhysicalDeviceFeatures {
        VkPhysicalDeviceFeatures {
            robust_buffer_access: false,
            full_draw_index_uint32: false,
            image_cube_array: false,
            independent_blend: false,
            geometry_shader: false,
            tessellation_shader: false,
            sample_rate_shading: false,
            dual_src_blend: false,
            logic_op: false,
            multi_draw_indirect: false,
            draw_indirect_first_instance: false,
            depth_clamp: false,
            depth_bias_clamp: false,
            fill_mode_non_solid: false,
            depth_bounds: false,
            wide_lines: false,
            large_points: false,
            alpha_to_one: false,
            multi_viewport: false,
            sampler_anisotropy: false,
            texture_compression_etc2: false,
            texture_compression_astc_ldr: false,
            texture_compression_bc: false,
            occlusion_query_precise: false,
            pipeline_statistics_query: false,
            vertex_pipeline_stores_and_atomics: false,
            fragment_stores_and_atomics: false,
            shader_tessellation_and_geometry_point_size: false,
            shader_image_gather_extended: false,
            shader_storage_image_extended_formats: false,
            shader_storage_image_multisample: false,
            shader_storage_image_read_without_format: false,
            shader_storage_image_write_without_format: false,
            shader_uniform_buffer_array_dynamic_indexing: false,
            shader_sampled_image_array_dynamic_indexing: false,
            shader_storage_buffer_array_dynamic_indexing: false,
            shader_storage_image_array_dynamic_indexing: false,
            shader_clip_distance: false,
            shader_cull_distance: false,
            shader_float64: false,
            shader_int64: false,
            shader_int16: false,
            shader_resource_residency: false,
            shader_resource_min_lod: false,
            sparse_binding: false,
            sparse_residency_buffer: false,
            sparse_residency_image_2d: false,
            sparse_residency_image_3d: false,
            sparse_residency_2_samples: false,
            sparse_residency_4_samples: false,
            sparse_residency_8_samples: false,
            sparse_residency_16_samples: false,
            sparse_residency_aliased: false,
            variable_multisample_rate: false,
            inherited_queries: false,
        }
    }
}

impl PhysicalDevice {
    /// The identifier that pipeline caches of the device are tied to.
    pub open spec fn pipeline_cache_uuid() -> Seq<u8> {
        seq![0u8, 1, 2, 3, 4, 5, 6, 7, 8, 9, 16, 17, 18, 19, 20, 21]
    }

    /// What identifies the device: a device of no named kind, with every
    /// version and number zero, and no support for sparse resources.
    pub fn properties(&self) -> (r: VkPhysicalDeviceProperties)
        ensures
            r.api_version == 0,
            r.driver_version == 0,
            r.vendor_id == 0,
            r.device_id == 0,
            r.device_type == VK_PHYSICAL_DEVICE_TYPE_OTHER,
            r.device_name == "vulkan_software_rasterizer physical device",
            r.pipeline_cache_uuid@ == PhysicalDevice::pipeline_cache_uuid(),
            r.sparse_properties.residency_standard_2d_block_shape == 0,
            r.sparse_properties.residency_standard_2d_multisample_block_shape == 0,
            r.sparse_properties.residency_standard_3d_block_shape == 0,
            r.sparse_properties.residency_aligned_mip_size == 0,
            r.sparse_properties.residency_non_resident_strict == 0,
    {
        let pipeline_cache_uuid: [u8; 16] = [
            0x0, 0x1, 0x2, 0x3, 0x4, 0x5, 0x6, 0x7, 0x8, 0x9, 0x10, 0x11, 0x12, 0x13, 0x14, 0x15,
        ];
        assert(pipeline_cache_uuid@ =~= PhysicalDevice::pipeline_cache_uuid());
        VkPhysicalDeviceProperties {
            api_version: 0,
            driver_version: 0,
            vendor_id: 0,
            device_id: 0,
            device_type: VK_PHYSICAL_DEVICE_TYPE_OTHER,
            device_name: "vulkan_software_rasterizer physical device",
            pipeline_cache_uuid,
            sparse_properties: VkPhysicalDeviceSparseProperties {
                residency_standard_2d_block_shape: 0,
                residency_standard_2d_multisample_block_shape: 0,
                residency_standard_3d_block_shape: 0,
                residency_aligned_mip_size: 0,
                residency_non_resident_strict: 0,
            },
        }
    }

    /// Memory types and heaps of the device: none of either.
    pub fn memory_properties(&self) -> (r: VkPhysicalDeviceMemoryProperties)
        ensures
            r.memory_type_count == 0,
            r.memory_heap_count == 0,
            forall|i: int|
                0 <= i < 32 ==> (#[trigger] r.memory_types[i]).property_flags == 0
                    && r.memory_types[i].heap_index == 0,
            forall|i: int|
                0 <= i < 16 ==> (#[trigger] r.memory_heaps[i]).size == 0 && r.memory_heaps[i].flags
                    == 0,
    {
        VkPhysicalDeviceMemoryProperties {
            memory_type_count: 0,
            memory_types: [VkMemoryType { property_flags: 0, heap_index: 0 }; 32],
            memory_heap_count: 0,
            memory_heaps: [VkMemoryHeap { size: 0, flags: 0 }; 16],
        }
    }

    /// Optional capabilities of the device: none.
    pub fn features(&self) -> (r: VkPhysicalDeviceFeatures)
        ensures
            r == VkPhysicalDeviceFeatures::none(),
    {
        VkPhysicalDeviceFeatures {
            robust_buffer_access: false,
            full_draw_index_uint32: false,
            image_cube_array: false,
            independent_blend: false,
            geometry_shader: false,
            tessellation_shader: false,
            sample_rate_shading: false,
            dual_src_blend: false,
            logic_op: false,
            multi_draw_indirect: false,
            draw_indirect_first_instance: false,
            depth_clamp: false,
            depth_bias_clamp: false,
            fill_mode_non_solid: false,
            depth_bounds: false,
            wide_lines: false,
            large_points: false,
            alpha_to_one: false,
            multi_viewport: false,
            sampler_anisotropy: false,
            texture_compression_etc2: false,
            texture_compression_astc_ldr: false,
            texture_compression_bc: false,
            occlusion_query_precise: false,
            pipeline_statistics_query: false,
            vertex_pipeline_stores_and_atomics: false,
            fragment_stores_and_atomics: false,
            shader_tessellation_and_geometry_point_size: false,
            shader_image_gather_extended: false,
            shader_storage_image_extended_formats: false,
            shader_storage_image_multisample: false,
            shader_storage_image_read_without_format: false,
            shader_storage_image_write_without_format: false,
            shader_uniform_buffer_array_dynamic_indexing: false,
            shader_sampled_image_array_dynamic_indexing: false,
            shader_storage_buffer_array_dynamic_indexing: false,
            shader_storage_image_array_dynamic_indexing: false,
            shader_clip_distance: false,
            shader_cull_distance: false,
            shader_float64: false,
            shader_int64: false,
            shader_int16: false,
            shader_resource_residency: false,
            shader_resource_min_lod: false,
            sparse_binding: false,
            sparse_residency_buffer: false,
            sparse_residency_image_2d: false,
            sparse_residency_image_3d: false,
            sparse_residency_2_samples: false,
            sparse_residency_4_samples: false,
            sparse_residency_8_samples: false,
            sparse_residency_16_samples: false,
            sparse_residency_aliased: false,
            variable_multisample_rate: false,
            inherited_queries: false,
        }
    }

    /// What `format` can be used for on this device: nothing, whichever of
    /// the known formats it is.
    pub fn format_properties(&self, format: u32) -> (r: VkFormatProperties)
        requires
            format < VK_FORMAT_COUNT,
        ensures
            r.linear_tiling_features == 0,
            r.optimal_tiling_features == 0,
            r.buffer_features == 0,
    {
        VkFormatProperties { linear_tiling_features: 0, optimal_tiling_features: 0, buffer_features: 0 }
    }

    /// The queue families of the device: one family, of one queue, that takes
    /// graphics and compute operations.
    pub fn queue_family_properties(&self) -> (r: [VkQueueFamilyProperties; 1])
        ensures
            r[0].queue_flags == 3,
            r[0].queue_count == 1,
            r[0].timestamp_valid_bits == 0,
            r[0].min_image_transfer_granularity.width == 0,
            r[0].min_image_transfer_granularity.height == 0,
            r[0].min_image_transfer_granularity.depth == 0,
    {
        let queue_flags: u32 = VK_QUEUE_GRAPHICS_BIT | VK_QUEUE_COMPUTE_BIT;
        assert(queue_flags == 3) by (bit_vector)
            requires
                queue_flags == 1u32 | 2u32,
        ;
        [
            VkQueueFamilyProperties {
                queue_flags,
                queue_count: 1,
                timestamp_valid_bits: 0,
                min_image_transfer_granularity: VkExtent3D { width: 0, height: 0, depth: 0 },
            },
        ]
    }

    /// The presentation modes of the device: arrival order only.
    pub fn present_modes(&self) -> (r: [u32; 1])
        ensures
            r[0] == VK_PRESENT_MODE_FIFO_KHR,
    {
        [VK_PRESENT_MODE_FIFO_KHR]
    }

    /// The surface formats of the device: four 8-bit channels, plain and sRGB
    /// encoded, both in the sRGB color space.
    pub fn surface_formats(&self) -> (r: [VkSurfaceFormatKHR; 2])
        ensures
            r[0].format == VK_FORMAT_R8G8B8A8_UNORM,
            r[0].color_space == VK_COLOR_SPACE_SRGB_NONLINEAR_KHR,
            r[1].format == VK_FORMAT_R8G8B8A8_SRGB,
            r[1].color_space == VK_COLOR_SPACE_SRGB_NONLINEAR_KHR,
    {
        [
            VkSurfaceFormatKHR {
                format: VK_FORMAT_R8G8B8A8_UNORM,
                color_space: VK_COLOR_SPACE_SRGB_NONLINEAR_KHR,
            },
            VkSurfaceFormatKHR {
                format: VK_FORMAT_R8G8B8A8_SRGB,
                color_space: VK_COLOR_SPACE_SRGB_NONLINEAR_KHR,
            },
        ]
    }

    /// The limits of swapchains on the device: one or two images of one
    /// layer, up to 16384 by 16384, of an extent that the swapchain decides,
    /// presented unrotated and opaque, usable as color attachments.
    pub fn surface_capabilities(&self) -> (r: VkSurfaceCapabilitiesKHR)
        ensures
            r.min_image_count == 1,
            r.max_image_count == 2,
            r.current_extent.width == 0xFFFF_FFFF,
            r.current_extent.height == 0xFFFF_FFFF,
            r.min_image_extent.width == 0,
            r.min_image_extent.height == 0,
            r.max_image_extent.width == 16384,
            r.max_image_extent.height == 16384,
            r.max_image_array_layers == 1,
            r.supported_transforms == VK_SURFACE_TRANSFORM_IDENTITY_BIT_KHR,
            r.current_transform == VK_SURFACE_TRANSFORM_IDENTITY_BIT_KHR,
            r.supported_composite_alpha == VK_COMPOSITE_ALPHA_OPAQUE_BIT_KHR,
            r.supported_usage_flags == VK_IMAGE_USAGE_COLOR_ATTACHMENT_BIT,
    {
        VkSurfaceCapabilitiesKHR {
            min_image_count: 1,
            max_image_count: 2,
            current_extent: VkExtent2D { width: 0xFFFF_FFFF, height: 0xFFFF_FFFF },
            min_image_extent: VkExtent2D { width: 0, height: 0 },
            max_image_extent: VkExtent2D { width: 16384, height: 16384 },
            max_image_array_layers: 1,
            supported_transforms: VK_SURFACE_TRANSFORM_IDENTITY_BIT_KHR,
            current_transform: VK_SURFACE_TRANSFORM_IDENTITY_BIT_KHR,
            supported_composite_alpha: VK_COMPOSITE_ALPHA_OPAQUE_BIT_KHR,
            supported_usage_flags: VK_IMAGE_USAGE_COLOR_ATTACHMENT_BIT,
        }
    }
}

/// The physical device is shared: whenever two requests in a row succeed,
/// the second names the object that the first named.
pub proof fn lemma_physical_device_is_shared(c: ContextView)
    requires
        c.wf(),
        PhysicalDevice::obtain(c).0.is_ok(),
        PhysicalDevice::obtain(PhysicalDevice::obtain(c).1).0.is_ok(),
    ensures
        PhysicalDevice::obtain(PhysicalDevice::obtain(c).1).0 == PhysicalDevice::obtain(c).0,
        PhysicalDevice::obtain(c).1.physical_devices.len() == if c.physical_devices.len() < 1 {
            1
        } else {
            c.physical_devices.len()
        },
{
    if c.physical_devices.len() >= 1 {
        let handle = c.physical_devices.last().object.handle;
        assert(found_at(c.physical_devices, handle, c.physical_devices.len() - 1));
        lemma_index_of::<PhysicalDevice>(c, handle, c.physical_devices.len() - 1);
    }
}

} // verus!
