use rusty_renderer::backends::binding::{BindGroup, BindGroupLayoutBuilder, BufferHandle, ShaderStage, TextureDimension, TextureHandle};
use rusty_renderer::backends::directx::{
    check_mip_upload, heap_kind, initial_buffer_state, root_parameters, texture_resource_flags, DescriptorTables, TextureResourceFlags, DirectXDevice, DirectXSwapchain, HeapKind, InvalidLayoutHandle,
    ResourceState, RootParameter, RootParameterKind, TextureUploadError,
};
use rusty_renderer::backends::frame_sync::{
    AcquireResult, AcquireStep, FrameSync, PresentFailed, PresentResult, MAX_FRAMES_IN_FLIGHT,
};
use rusty_renderer::backends::readback::{readback_row_pitch, strip_row_padding};
use rusty_renderer::backends::resources::{BufferUsage, MemoryLocation, TextureFormat, TextureUsage};
use rusty_renderer::backends::vulkan::{
    buffer_usage_bits, bytes_to_u32_vec, choose_swapchain_extent, choose_swapchain_format,
    choose_swapchain_present_mode, find_memory_type, image_aspect, image_usage_bits,
    required_memory_flags, select_queue_families, shader_stage_to_vk, descriptor_set_layout_bindings,
    descriptor_writes, extensions_supported, pick_physical_device, required_device_extensions,
    DeviceSupport, DescriptorLayoutBinding, DescriptorPoolCursor, DescriptorType, DescriptorWrite,
    STAGE_FRAGMENT, STAGE_VERTEX, Extent2D, ImageAspect, PresentMode,
    QueueFamilyIndices, QueueFamilySupport, SurfaceCapabilities, SurfaceFormat, VulkanCommandBuffer,
    VulkanDevice, VulkanPipeline, VulkanResource, VulkanSwapchain, COLOR_SPACE_SRGB_NONLINEAR,
    FORMAT_B8G8R8A8_SRGB, MEMORY_DEVICE_LOCAL, MEMORY_HOST_CACHED, MEMORY_HOST_COHERENT,
    MEMORY_HOST_VISIBLE,
};
use rusty_renderer::backends::{Device, Pipeline, Resource, Swapchain};

#[test]
fn test_vulkan_command_buffer_creation() {
    let _cmd_buffer = VulkanCommandBuffer::new();
}

#[test]
fn test_vulkan_pipeline_creation() {
    let pipeline = VulkanPipeline::new();
    assert_eq!(pipeline.name(), "Vulkan Stub Pipeline");
}

#[test]
fn test_vulkan_resource_creation() {
    let resource = VulkanResource::new();
    assert_eq!(resource.size(), 0);
    assert_eq!(resource.resource_type(), "Vulkan Stub Resource");
}

#[test]
fn vulkan_placeholders_report_fixed_values() {
    let device = VulkanDevice::new();
    assert_eq!(device.name(), "Vulkan Stub Device");
    assert!(!device.supports_feature("any_feature"));
    let mut swapchain = VulkanSwapchain::new();
    assert_eq!((swapchain.width(), swapchain.height(), swapchain.current_frame()), (800, 600, 0));
    assert!(swapchain.acquire_next_image().is_ok());
    assert!(swapchain.present().is_ok());
    assert_eq!(swapchain.current_frame(), 0);
    assert!(swapchain.recreate(1920, 1080).is_ok());
    assert_eq!((swapchain.width(), swapchain.height()), (1920, 1080));
}

#[test]
fn memory_type_first_fitting_and_fallback() {
    let types = [
        MEMORY_DEVICE_LOCAL,
        MEMORY_HOST_VISIBLE | MEMORY_HOST_COHERENT,
        MEMORY_DEVICE_LOCAL,
        MEMORY_HOST_VISIBLE | MEMORY_HOST_COHERENT | MEMORY_HOST_CACHED,
    ];
    assert_eq!(find_memory_type(0b1111, &types, MemoryLocation::GpuOnly), Some(0));
    assert_eq!(find_memory_type(0b1110, &types, MemoryLocation::GpuOnly), Some(2));
    assert_eq!(find_memory_type(0b1111, &types, MemoryLocation::CpuToGpu), Some(1));
    assert_eq!(find_memory_type(0b1111, &types, MemoryLocation::GpuToCpu), Some(3));
    // no cached type allowed: falls back to host-visible coherent memory
    assert_eq!(find_memory_type(0b0111, &types, MemoryLocation::GpuToCpu), Some(1));
    assert_eq!(find_memory_type(0b0101, &types, MemoryLocation::GpuToCpu), None);
    assert_eq!(find_memory_type(0b0101, &types, MemoryLocation::CpuToGpu), None);
    assert_eq!(find_memory_type(0, &types, MemoryLocation::GpuOnly), None);
    assert_eq!(required_memory_flags(MemoryLocation::GpuToCpu), MEMORY_HOST_VISIBLE | MEMORY_HOST_CACHED);
}

#[test]
fn usage_bits_follow_flags() {
    assert_eq!(buffer_usage_bits(BufferUsage::vertex()), 0x80 | 0x2);
    assert_eq!(buffer_usage_bits(BufferUsage::index()), 0x40 | 0x2);
    assert_eq!(buffer_usage_bits(BufferUsage::uniform()), 0x10 | 0x2);
    assert_eq!(buffer_usage_bits(BufferUsage::staging()), 0x1);
    assert_eq!(image_usage_bits(TextureUsage::sampled()), 0x4 | 0x2);
    assert_eq!(image_usage_bits(TextureUsage::render_target()), 0x10 | 0x1);
    assert_eq!(image_usage_bits(TextureUsage::depth_stencil()), 0x20);
    assert_eq!(image_aspect(TextureFormat::Depth32Float), ImageAspect::Depth);
    assert_eq!(image_aspect(TextureFormat::Bgra8Srgb), ImageAspect::Color);
}

#[test]
fn swapchain_choices() {
    assert_eq!(choose_swapchain_present_mode(&[PresentMode::Fifo, PresentMode::Mailbox]), PresentMode::Mailbox);
    assert_eq!(choose_swapchain_present_mode(&[PresentMode::Immediate]), PresentMode::Fifo);
    assert_eq!(choose_swapchain_present_mode(&[]), PresentMode::Fifo);

    let other = SurfaceFormat { format: 44, color_space: COLOR_SPACE_SRGB_NONLINEAR };
    let preferred = SurfaceFormat { format: FORMAT_B8G8R8A8_SRGB, color_space: COLOR_SPACE_SRGB_NONLINEAR };
    assert_eq!(choose_swapchain_format(&[other, preferred]), preferred);
    assert_eq!(choose_swapchain_format(&[other]), other);

    let fixed = SurfaceCapabilities {
        current_extent: Extent2D { width: 1024, height: 768 },
        min_image_extent: Extent2D { width: 1, height: 1 },
        max_image_extent: Extent2D { width: 4096, height: 4096 },
    };
    assert_eq!(choose_swapchain_extent(fixed, 10, 10), Extent2D { width: 1024, height: 768 });
    let free = SurfaceCapabilities {
        current_extent: Extent2D { width: u32::MAX, height: u32::MAX },
        min_image_extent: Extent2D { width: 100, height: 100 },
        max_image_extent: Extent2D { width: 2000, height: 1000 },
    };
    assert_eq!(choose_swapchain_extent(free, 50, 5000), Extent2D { width: 100, height: 1000 });
    assert_eq!(choose_swapchain_extent(free, 800, 600), Extent2D { width: 800, height: 600 });
}

#[test]
fn queue_family_selection_scans_until_both_found() {
    let g = QueueFamilySupport { graphics: true, present: false };
    let p = QueueFamilySupport { graphics: false, present: true };
    let both = QueueFamilySupport { graphics: true, present: true };
    let none = QueueFamilySupport { graphics: false, present: false };
    assert_eq!(select_queue_families(&[none, g, p, both]), QueueFamilyIndices { graphics: 1, present: 2 });
    assert_eq!(select_queue_families(&[both, g]), QueueFamilyIndices { graphics: 0, present: 0 });
    assert_eq!(select_queue_families(&[g, g, none]), QueueFamilyIndices { graphics: 1, present: 0 });
    assert_eq!(select_queue_families(&[]), QueueFamilyIndices { graphics: 0, present: 0 });
}

#[test]
fn spirv_bytes_become_native_words() {
    let words = bytes_to_u32_vec(&[0x03, 0x02, 0x23, 0x07, 1, 0, 0, 0]);
    assert_eq!(
        words,
        vec![u32::from_ne_bytes([0x03, 0x02, 0x23, 0x07]), u32::from_ne_bytes([1, 0, 0, 0])]
    );
    if u32::from_ne_bytes([1, 0, 0, 0]) == 1 {
        assert_eq!(words, vec![0x0723_0203, 1]);
    }
    assert!(bytes_to_u32_vec(&[]).is_empty());
}

#[test]
fn directx_buffer_placement() {
    assert_eq!(heap_kind(MemoryLocation::GpuOnly), HeapKind::Default);
    assert_eq!(heap_kind(MemoryLocation::CpuToGpu), HeapKind::Upload);
    assert_eq!(heap_kind(MemoryLocation::GpuToCpu), HeapKind::Readback);
    assert_eq!(initial_buffer_state(MemoryLocation::CpuToGpu, BufferUsage::vertex()), ResourceState::GenericRead);
    assert_eq!(initial_buffer_state(MemoryLocation::GpuToCpu, BufferUsage::vertex()), ResourceState::CopyDest);
    assert_eq!(initial_buffer_state(MemoryLocation::GpuOnly, BufferUsage::vertex()), ResourceState::VertexAndConstantBuffer);
    assert_eq!(initial_buffer_state(MemoryLocation::GpuOnly, BufferUsage::index()), ResourceState::IndexBuffer);
    assert_eq!(initial_buffer_state(MemoryLocation::GpuOnly, BufferUsage::uniform()), ResourceState::VertexAndConstantBuffer);
    assert_eq!(initial_buffer_state(MemoryLocation::GpuOnly, BufferUsage::staging()), ResourceState::Common);
}

#[test]
fn directx_root_parameters_skip_textures_and_samplers() {
    let layout = BindGroupLayoutBuilder::new()
        .uniform_buffer(0, 64, ShaderStage::new(ShaderStage::VERTEX))
        .texture(1, TextureDimension::D2, ShaderStage::new(ShaderStage::FRAGMENT))
        .storage_buffer(2, 16, ShaderStage::new(ShaderStage::COMPUTE), true)
        .sampler(3, ShaderStage::new(ShaderStage::FRAGMENT))
        .storage_buffer(4, 16, ShaderStage::new(ShaderStage::COMPUTE), false)
        .build();
    assert_eq!(
        root_parameters(&layout),
        vec![
            RootParameter { kind: RootParameterKind::ConstantBuffer, register: 0 },
            RootParameter { kind: RootParameterKind::ShaderResource, register: 2 },
            RootParameter { kind: RootParameterKind::UnorderedAccess, register: 4 },
        ]
    );
}

#[test]
fn directx_descriptor_tables_are_consecutive() {
    let layout = BindGroupLayoutBuilder::new().uniform_buffer(0, 64, ShaderStage::new(ShaderStage::ALL)).build();
    let mut group = BindGroup::new(layout);
    group.bind_uniform_buffer(0, BufferHandle(1));
    group.bind_texture(1, TextureHandle(2));
    let mut tables = DescriptorTables::new();
    assert_eq!(tables.add_bind_group(0, 1, &group), Ok(0));
    assert_eq!(tables.add_bind_group(0, 1, &group), Ok(1));
    assert_eq!(tables.add_bind_group(3, 1, &group), Err(InvalidLayoutHandle { handle: 3 }));
    assert_eq!(tables.add_bind_group(0, 2, &group), Ok(2));
}

#[test]
fn readback_rows_lose_their_padding() {
    assert_eq!(readback_row_pitch(1), 256);
    assert_eq!(readback_row_pitch(64), 256);
    assert_eq!(readback_row_pitch(65), 512);
    assert_eq!(readback_row_pitch(800), 3328);
    // two rows of one pixel with a pitch of 8 bytes
    let data = [1u8, 2, 3, 4, 9, 9, 9, 9, 5, 6, 7, 8, 9, 9, 9, 9];
    assert_eq!(strip_row_padding(&data, 1, 2, 8), vec![1, 2, 3, 4, 5, 6, 7, 8]);
    assert!(strip_row_padding(&data, 1, 0, 8).is_empty());
}

#[test]
fn directx_texture_upload_checks() {
    assert_eq!(
        check_mip_upload(64, 32, 3, 4, 3, 0),
        Err(TextureUploadError::MipLevelOutOfRange { mip_level: 3, max: 2 })
    );
    assert_eq!(check_mip_upload(64, 32, 3, 4, 1, 32 * 16 * 4), Ok(2048));
    assert_eq!(
        check_mip_upload(64, 32, 3, 4, 2, 100),
        Err(TextureUploadError::SizeMismatch { expected: 512, width: 16, height: 8, got: 100 })
    );
}

#[test]
fn directx_placeholders() {
    let device = DirectXDevice::new();
    assert_eq!(device.name(), "directx-stub-device");
    assert!(!device.supports_feature("raytracing"));
    let mut swapchain = DirectXSwapchain::new();
    swapchain.resize(1024, 768);
    assert_eq!((swapchain.width(), swapchain.height()), (1024, 768));
    for expected in [1usize, 2, 0] {
        assert!(swapchain.acquire_next_image().is_ok());
        assert_eq!(swapchain.current_frame(), expected);
    }
}

#[test]
fn test_shader_stage_conversion() {
    let vertex = ShaderStage::new(ShaderStage::VERTEX);
    let vk_vertex = shader_stage_to_vk(vertex);
    assert!(vk_vertex & STAGE_VERTEX == STAGE_VERTEX);
    assert!(vk_vertex & STAGE_FRAGMENT != STAGE_FRAGMENT);

    let all_graphics = ShaderStage::new(ShaderStage::ALL_GRAPHICS);
    let vk_all = shader_stage_to_vk(all_graphics);
    assert!(vk_all & STAGE_VERTEX == STAGE_VERTEX);
    assert!(vk_all & STAGE_FRAGMENT == STAGE_FRAGMENT);
}

#[test]
fn vulkan_descriptor_layout_and_writes() {
    let layout = BindGroupLayoutBuilder::new()
        .uniform_buffer(0, 64, ShaderStage::new(ShaderStage::VERTEX))
        .storage_buffer(1, 64, ShaderStage::new(ShaderStage::ALL), true)
        .texture(2, TextureDimension::D2, ShaderStage::new(ShaderStage::FRAGMENT))
        .sampler(3, ShaderStage::new(ShaderStage::FRAGMENT))
        .build();
    let bindings = descriptor_set_layout_bindings(&layout);
    assert_eq!(
        bindings,
        vec![
            DescriptorLayoutBinding { binding: 0, descriptor_type: DescriptorType::UniformBuffer, descriptor_count: 1, stage_bits: 0x1 },
            DescriptorLayoutBinding { binding: 1, descriptor_type: DescriptorType::StorageBuffer, descriptor_count: 1, stage_bits: 0x31 },
            DescriptorLayoutBinding { binding: 2, descriptor_type: DescriptorType::SampledImage, descriptor_count: 1, stage_bits: 0x10 },
            DescriptorLayoutBinding { binding: 3, descriptor_type: DescriptorType::Sampler, descriptor_count: 1, stage_bits: 0x10 },
        ]
    );
    let mut group = BindGroup::new(layout);
    group.bind_uniform_buffer(0, BufferHandle(5));
    group.bind_texture(2, TextureHandle(6));
    group.bind_storage_buffer(1, BufferHandle(7));
    assert_eq!(
        descriptor_writes(&group),
        vec![
            DescriptorWrite { binding: 0, descriptor_type: DescriptorType::UniformBuffer, buffer: BufferHandle(5) },
            DescriptorWrite { binding: 1, descriptor_type: DescriptorType::StorageBuffer, buffer: BufferHandle(7) },
        ]
    );
}

#[test]
fn descriptor_pools_are_created_on_demand() {
    let mut cursor = DescriptorPoolCursor::new();
    assert!(cursor.needs_first_pool());
    assert!(!cursor.needs_first_pool());
    cursor.pool_added_after_full();
    assert_eq!(cursor, DescriptorPoolCursor { pool_count: 2, current: 1 });
}

#[test]
fn directx_texture_views_share_the_descriptor_heap() {
    let layout = BindGroupLayoutBuilder::new().uniform_buffer(0, 64, ShaderStage::new(ShaderStage::ALL)).build();
    let mut group = BindGroup::new(layout);
    group.bind_uniform_buffer(0, BufferHandle(1));
    group.bind_uniform_buffer(1, BufferHandle(2));
    let mut heap = DescriptorTables::new();
    assert_eq!(heap.reserve_texture_view(true), Some(0));
    assert_eq!(heap.reserve_texture_view(false), None);
    assert_eq!(heap.add_bind_group(0, 1, &group), Ok(0));
    assert_eq!(heap.reserve_texture_view(true), Some(3));
    let flags = texture_resource_flags(TextureUsage::render_target());
    assert_eq!(flags, TextureResourceFlags { allow_render_target: true, allow_depth_stencil: false });
    assert!(texture_resource_flags(TextureUsage::depth_stencil()).allow_depth_stencil);
}

#[test]
fn physical_device_selection() {
    let required = required_device_extensions();
    assert_eq!(required, vec!["VK_KHR_swapchain".to_string()]);
    let available = vec!["VK_KHR_maintenance1".to_string(), "VK_KHR_swapchain".to_string()];
    assert!(extensions_supported(&required, &available));
    assert!(!extensions_supported(&required, &available[..1]));
    assert!(extensions_supported(&[], &[]));

    let good = DeviceSupport { queue_families_complete: true, extensions_supported: true, has_formats: true, has_present_modes: true };
    let no_modes = DeviceSupport { has_present_modes: false, ..good };
    let no_ext = DeviceSupport { extensions_supported: false, ..good };
    assert!(good.is_suitable());
    assert!(!no_modes.is_suitable());
    assert_eq!(pick_physical_device(&[no_modes, no_ext, good, good]), Some(2));
    assert_eq!(pick_physical_device(&[no_modes, no_ext]), None);
}

#[test]
fn vulkan_frame_pacing() {
    let mut sync = FrameSync::new(MAX_FRAMES_IN_FLIGHT, 3, 800, 600);
    assert_eq!(sync.current_frame(), 0);
    assert_eq!(sync.acquired(AcquireResult::Image(1)), AcquireStep::Render { image: 1, wait_for: None });
    assert!(sync.should_submit());
    assert_eq!(sync.presented(PresentResult::Success), Ok(()));
    assert_eq!(sync.current_frame(), 1);
    // image 1 is still guarded by frame 0's fence
    assert_eq!(sync.acquired(AcquireResult::Image(1)), AcquireStep::Render { image: 1, wait_for: Some(0) });
    assert_eq!(sync.presented(PresentResult::Failed), Err(PresentFailed));
    assert_eq!(sync.current_frame(), 1);
    assert_eq!(sync.presented(PresentResult::Suboptimal), Ok(()));
    assert_eq!(sync.current_frame(), 0);
    assert!(sync.swapchain_outdated());
    assert!(!sync.should_submit());

    let mut other = FrameSync::new(2, 2, 640, 480);
    other.resize(640, 480);
    assert!(!other.swapchain_outdated());
    assert_eq!(other.acquired(AcquireResult::OutOfDate), AcquireStep::Skip);
    assert!(other.swapchain_outdated());
    let mut third = FrameSync::new(2, 2, 640, 480);
    third.resize(1024, 768);
    assert!(third.swapchain_outdated());
    third.swapchain_recreated(4, 1024, 768);
    assert_eq!(third.acquired(AcquireResult::Image(3)), AcquireStep::Render { image: 3, wait_for: None });
}
