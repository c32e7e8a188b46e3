use std::collections::HashSet;
use rusty_renderer::backends::binding::{
    BindGroup, BindGroupLayoutBuilder, BoundResource, BufferHandle, SamplerHandle, ShaderBinding,
    ShaderStage, TextureDimension, TextureHandle,
};
use rusty_renderer::backends::capabilities::{BackendCapabilities, ClipSpaceOrigin};
use rusty_renderer::backends::resources::{
    AddressMode, BufferUsage, FilterMode, MemoryLocation, SamplerDescriptor, TextureFormat,
    TextureUsage,
};
use rusty_renderer::backends::vertex::{
    attribute_descriptions, VertexBufferLayout, VertexFormat, VertexInputRate, STANDARD_VERTEX_SIZE,
};
use rusty_renderer::backends::wgpu_backend::{WgpuDevice, WgpuPipeline, WgpuResource, WgpuSwapchain};
use rusty_renderer::backends::{BackendType, Device, Pipeline, Resource, Swapchain};

#[test]
fn test_shader_stage_flags() {
    let vertex = ShaderStage::new(ShaderStage::VERTEX);
    assert!(vertex.contains(ShaderStage::VERTEX));
    assert!(!vertex.contains(ShaderStage::FRAGMENT));

    let all_graphics = ShaderStage::new(ShaderStage::ALL_GRAPHICS);
    assert!(all_graphics.contains(ShaderStage::VERTEX));
    assert!(all_graphics.contains(ShaderStage::FRAGMENT));
}

#[test]
fn test_bind_group_layout_creation() {
    let layout = BindGroupLayoutBuilder::new()
        .uniform_buffer(0, 64, ShaderStage::new(ShaderStage::VERTEX))
        .texture(1, TextureDimension::D2, ShaderStage::new(ShaderStage::FRAGMENT))
        .sampler(2, ShaderStage::new(ShaderStage::FRAGMENT))
        .build();

    assert_eq!(layout.binding_count(), 3);
    assert!(layout.get_binding(0).is_some());
    assert!(layout.get_binding(1).is_some());
    assert!(layout.get_binding(2).is_some());
    assert!(layout.get_binding(3).is_none());
}

#[test]
fn test_bind_group_creation() {
    let layout = BindGroupLayoutBuilder::new()
        .uniform_buffer(0, 64, ShaderStage::new(ShaderStage::VERTEX))
        .build();

    let bind_group = BindGroup::new(layout);
    assert_eq!(bind_group.layout().binding_count(), 1);
}

#[test]
fn test_shader_binding_methods() {
    let binding = ShaderBinding::UniformBuffer {
        binding: 5,
        size: 256,
        stage: ShaderStage::new(ShaderStage::VERTEX),
    };

    assert_eq!(binding.binding(), 5);
    assert_eq!(binding.stage().bits(), ShaderStage::VERTEX);
}

#[test]
fn bound_resource_lookup_finds_first_binding() {
    let layout = BindGroupLayoutBuilder::new().uniform_buffer(0, 64, ShaderStage::new(ShaderStage::ALL)).build();
    let mut group = BindGroup::new(layout);
    assert!(group.get_resource(0).is_none());
    group.bind_uniform_buffer(0, BufferHandle(7));
    group.bind_texture(1, TextureHandle(3));
    group.bind_storage_buffer(0, BufferHandle(9));
    group.bind_sampler(2, SamplerHandle(4));
    assert_eq!(group.get_resource(0), Some(&BoundResource::UniformBuffer(BufferHandle(7))));
    assert_eq!(group.get_resource(1), Some(&BoundResource::Texture(TextureHandle(3))));
    assert_eq!(group.get_resource(2), Some(&BoundResource::Sampler(SamplerHandle(4))));
    assert!(group.get_resource(3).is_none());
    assert_eq!(group.resources().len(), 4);
}

#[test]
fn layout_lookup_returns_first_match_in_order() {
    let layout = BindGroupLayoutBuilder::new()
        .storage_buffer(4, 128, ShaderStage::new(ShaderStage::COMPUTE), true)
        .sampler(4, ShaderStage::new(ShaderStage::FRAGMENT))
        .build();
    let first = layout.get_binding(4).unwrap();
    assert_eq!(first.stage().bits(), ShaderStage::COMPUTE);
    assert_eq!(layout.bindings().len(), 2);
}

#[test]
fn stage_containment_laws() {
    let all = ShaderStage::new(ShaderStage::ALL);
    assert!(all.contains(ShaderStage::COMPUTE));
    assert!(all.contains(0));
    let graphics = ShaderStage::new(ShaderStage::ALL_GRAPHICS);
    assert!(!graphics.contains(ShaderStage::COMPUTE));
    assert!(!graphics.contains(ShaderStage::ALL));
}

#[test]
fn test_coordinate_system_differences() {
    let vulkan = BackendCapabilities::vulkan();
    let wgpu = BackendCapabilities::wgpu();

    assert_ne!(vulkan.y_axis_up, wgpu.y_axis_up);
    assert_ne!(vulkan.needs_y_flip(), wgpu.needs_y_flip());
}

#[test]
fn vulkan_and_directx_capabilities() {
    let caps = BackendCapabilities::vulkan();
    assert_eq!(caps.name, "Vulkan");
    assert!(!caps.y_axis_up);
    assert!(caps.depth_range_zero_to_one);
    assert!(caps.needs_y_flip());
    let dx = BackendCapabilities::directx12();
    assert_eq!(dx.name, "DirectX 12");
    assert!(dx.needs_y_flip());
    assert_eq!(dx.clip_space_origin, ClipSpaceOrigin::TopLeft);
}

#[test]
fn wgpu_capabilities_conventions() {
    let caps = BackendCapabilities::wgpu();
    assert_eq!(caps.name, "wgpu");
    assert!(caps.y_axis_up);
    assert!(!caps.needs_y_flip());
    assert!(!caps.supports_ray_tracing);
    assert!(caps.supports_compute_shaders);
}

#[test]
fn test_backend_type_equality() {
    assert_eq!(BackendType::Vulkan, BackendType::Vulkan);
    assert_ne!(BackendType::Vulkan, BackendType::DirectX12);
    assert_ne!(BackendType::Vulkan, BackendType::Wgpu);
    assert_ne!(BackendType::DirectX12, BackendType::Wgpu);
}

#[test]
fn test_backend_type_display() {
    assert_eq!(BackendType::Vulkan.to_string(), "vulkan");
    assert_eq!(BackendType::DirectX12.to_string(), "directx12");
    assert_eq!(BackendType::Wgpu.to_string(), "wgpu");
}

#[test]
fn test_backend_type_as_str() {
    assert_eq!(BackendType::Vulkan.as_str(), "vulkan");
    assert_eq!(BackendType::DirectX12.as_str(), "directx12");
    assert_eq!(BackendType::Wgpu.as_str(), "wgpu");
}

#[test]
fn test_backend_type_hash() {
    let mut set = HashSet::new();
    set.insert(BackendType::Vulkan);
    set.insert(BackendType::DirectX12);
    set.insert(BackendType::Wgpu);
    assert_eq!(set.len(), 3);
}

#[test]
fn test_buffer_usage_vertex() {
    let usage = BufferUsage::vertex();
    assert!(usage.vertex);
    assert!(!usage.index);
    assert!(usage.transfer_dst);
}

#[test]
fn test_buffer_usage_index() {
    let usage = BufferUsage::index();
    assert!(!usage.vertex);
    assert!(usage.index);
    assert!(usage.transfer_dst);
}

#[test]
fn test_buffer_usage_uniform() {
    let usage = BufferUsage::uniform();
    assert!(usage.uniform);
    assert!(usage.transfer_dst);
}

#[test]
fn test_buffer_usage_staging() {
    let usage = BufferUsage::staging();
    assert!(usage.staging);
    assert!(usage.transfer_src);
    assert!(!usage.transfer_dst);
}

#[test]
fn test_texture_format_bytes() {
    assert_eq!(TextureFormat::Rgba8Srgb.bytes_per_pixel(), 4);
    assert_eq!(TextureFormat::Depth32Float.bytes_per_pixel(), 4);
}

#[test]
fn test_texture_format_is_depth() {
    assert!(!TextureFormat::Rgba8Srgb.is_depth());
    assert!(TextureFormat::Depth32Float.is_depth());
    assert!(TextureFormat::Depth24PlusStencil8.is_depth());
}

#[test]
fn test_texture_usage_sampled() {
    let usage = TextureUsage::sampled();
    assert!(usage.sampled);
    assert!(usage.transfer_dst);
}

#[test]
fn texture_usage_targets() {
    let rt = TextureUsage::render_target();
    assert!(rt.render_target && rt.transfer_src && !rt.sampled);
    let ds = TextureUsage::depth_stencil();
    assert!(ds.depth_stencil && !ds.transfer_dst && !ds.transfer_src);
}

#[test]
fn test_sampler_descriptor_default() {
    let desc = SamplerDescriptor::default();
    assert_eq!(desc.mag_filter, FilterMode::Linear);
    assert_eq!(desc.address_mode_u, AddressMode::ClampToEdge);
}

#[test]
fn sampler_default_is_linear_clamped_everywhere() {
    let desc = SamplerDescriptor::default();
    assert_eq!(desc.min_filter, FilterMode::Linear);
    assert_eq!(desc.mipmap_filter, FilterMode::Linear);
    assert_eq!(desc.address_mode_v, AddressMode::ClampToEdge);
    assert_eq!(desc.address_mode_w, AddressMode::ClampToEdge);
    assert!(desc.label.is_none());
    assert_eq!(MemoryLocation::GpuOnly, MemoryLocation::GpuOnly);
}

#[test]
fn test_attribute_offsets() {
    let attrs = attribute_descriptions();
    assert_eq!(attrs.len(), 4);
    assert_eq!(attrs[0].offset, 0);
    assert_eq!(attrs[1].offset, 12);
    assert_eq!(attrs[2].offset, 24);
    assert_eq!(attrs[3].offset, 32);
}

#[test]
fn standard_vertex_is_tightly_packed() {
    assert_eq!(STANDARD_VERTEX_SIZE, 48);
    let attrs = attribute_descriptions();
    for i in 0..attrs.len() - 1 {
        assert_eq!(attrs[i + 1].offset, attrs[i].offset + attrs[i].format.size());
    }
    let last = attrs[attrs.len() - 1];
    assert_eq!(last.offset + last.format.size(), STANDARD_VERTEX_SIZE);
    let layout = VertexBufferLayout::default();
    assert_eq!(layout.stride, 48);
    assert_eq!(layout.input_rate, VertexInputRate::Vertex);
    assert_eq!(VertexFormat::UInt3.size(), 12);
    assert_eq!(VertexFormat::Float.size(), 4);
}

#[test]
fn test_wgpu_device_name() {
    let device = WgpuDevice;
    assert_eq!(device.name(), "wgpu-stub-device");
}

#[test]
fn test_wgpu_device_features() {
    let device = WgpuDevice;
    assert!(!device.supports_feature("any_feature"));
}

#[test]
fn test_wgpu_pipeline_creation() {
    let pipeline = WgpuPipeline::new("test_pipeline".to_string());
    assert_eq!(pipeline.name(), "test_pipeline");
}

#[test]
fn test_wgpu_resource_creation() {
    let resource = WgpuResource::new(1024, "buffer".to_string());
    assert_eq!(resource.size(), 1024);
    assert_eq!(resource.resource_type(), "buffer");
}

#[test]
fn test_wgpu_swapchain_creation() {
    let swapchain = WgpuSwapchain::new();
    assert_eq!(swapchain.width(), 800);
    assert_eq!(swapchain.height(), 600);
    assert_eq!(swapchain.current_frame(), 0);
}

#[test]
fn test_wgpu_swapchain_acquire_present() {
    let mut swapchain = WgpuSwapchain::new();
    assert_eq!(swapchain.current_frame(), 0);

    assert!(swapchain.acquire_next_image().is_ok());
    assert_eq!(swapchain.current_frame(), 1);

    assert!(swapchain.present().is_ok());
}

#[test]
fn test_wgpu_swapchain_recreate() {
    let mut swapchain = WgpuSwapchain::new();
    assert_eq!(swapchain.width(), 800);
    assert_eq!(swapchain.height(), 600);

    assert!(swapchain.recreate(1920, 1080).is_ok());
    assert_eq!(swapchain.width(), 1920);
    assert_eq!(swapchain.height(), 1080);
}

#[test]
fn wgpu_swapchain_cycles_through_three_frames() {
    let mut swapchain = WgpuSwapchain::default();
    let mut seen = Vec::new();
    for _ in 0..6 {
        assert!(swapchain.acquire_next_image().is_ok());
        seen.push(swapchain.current_frame());
    }
    assert_eq!(seen, vec![1, 2, 0, 1, 2, 0]);
    assert!(swapchain.recreate(640, 480).is_ok());
    assert_eq!(swapchain.current_frame(), 0);
}
