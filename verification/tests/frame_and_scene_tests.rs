use rusty_renderer::pipelines::simple::index_buffer_bytes;
use rusty_renderer::backends::resources::TextureFormat;
use rusty_renderer::backends::vulkan::texture_format_to_vk;
use rusty_renderer::application::runner::windowed_frame_limit;
use rusty_renderer::backends::directx::{
    check_capture_allowed, plan_frame, CaptureError, FrameCommand, FrameError, FrameTarget,
};
use rusty_renderer::passes::forward_simple::{scene_transform, SceneObjectKind};
use rusty_renderer::passes::mesh_indices::{total_vertex_count, InlineMesh};
use rusty_renderer::passes::{ForwardSimplePass, PassCallback};
use rusty_renderer::render_graph::{
    BufferUsageFlags, PassId, PassKind, RenderGraph, RenderPass, ResourceDescriptor, ResourceId, TransformId,
};

fn graph_with_callbacks(callbacks: &[bool]) -> RenderGraph<u8> {
    let mut g: RenderGraph<u8> = RenderGraph::new();
    for (i, has) in callbacks.iter().enumerate() {
        let pass = RenderPass::new(g.next_pass_id(), "p", PassKind::Graphics);
        let pass = if *has { pass.with_callback(i as u8) } else { pass };
        g.add_pass(pass);
    }
    g
}

#[test]
fn windowed_limit_zero_means_none() {
    assert_eq!(windowed_frame_limit(0), None);
    assert_eq!(windowed_frame_limit(1), Some(1));
    assert_eq!(windowed_frame_limit(120), Some(120));
}

#[test]
fn capture_only_when_headless() {
    assert_eq!(check_capture_allowed(true), Ok(()));
    assert_eq!(check_capture_allowed(false), Err(CaptureError::NotHeadless));
    assert_eq!(CaptureError::NotHeadless.message(), "Frame capture is only available in headless mode");
}

#[test]
fn headless_frame_plan() {
    let g = graph_with_callbacks(&[true, false, true]);
    let (target, commands) = plan_frame(&g, &[PassId(2), PassId(1), PassId(0)], true, 1, 32).unwrap();
    assert_eq!(target, FrameTarget::Offscreen);
    assert_eq!(
        commands,
        vec![FrameCommand::BeginPasses, FrameCommand::RunPass(PassId(2)), FrameCommand::RunPass(PassId(0))]
    );
}

#[test]
fn windowed_frame_plan() {
    let g = graph_with_callbacks(&[true, true]);
    let (target, commands) = plan_frame(&g, &[PassId(0), PassId(1)], false, 1, 32).unwrap();
    assert_eq!(target, FrameTarget::Swapchain { frame_index: 1, descriptor_offset: 32 });
    assert_eq!(
        commands,
        vec![
            FrameCommand::TransitionToRenderTarget,
            FrameCommand::BeginPasses,
            FrameCommand::RunPass(PassId(0)),
            FrameCommand::RunPass(PassId(1)),
            FrameCommand::TransitionToPresent,
        ]
    );
    let (target, commands) = plan_frame(&g, &[], false, 0, 32).unwrap();
    assert_eq!(target, FrameTarget::Swapchain { frame_index: 0, descriptor_offset: 0 });
    assert_eq!(
        commands,
        vec![FrameCommand::TransitionToRenderTarget, FrameCommand::BeginPasses, FrameCommand::TransitionToPresent]
    );
}

#[test]
fn frame_plan_missing_pass() {
    let g = graph_with_callbacks(&[true]);
    assert_eq!(plan_frame(&g, &[PassId(0), PassId(3)], true, 0, 0), Err(FrameError::PassNotFound(PassId(3))));
}

#[test]
fn transform_of_first_object() {
    assert_eq!(
        scene_transform(&[SceneObjectKind::Mesh { transform: TransformId(4) }, SceneObjectKind::Model]),
        Some(TransformId(4))
    );
    assert_eq!(
        scene_transform(&[SceneObjectKind::Model, SceneObjectKind::Mesh { transform: TransformId(4) }]),
        None
    );
    assert_eq!(scene_transform(&[]), None);
}

#[test]
fn scene_resources_are_declared_in_order() {
    let meshes = vec![
        InlineMesh { vertex_count: 3, indices: None },
        InlineMesh { vertex_count: 4, indices: Some(vec![0, 1, 2, 2, 3, 0]) },
    ];
    assert_eq!(total_vertex_count(&meshes), 7);
    let mut graph: RenderGraph<PassCallback> = RenderGraph::new();
    let objects = [SceneObjectKind::Mesh { transform: TransformId(9) }, SceneObjectKind::Mesh { transform: TransformId(1) }];
    let r = ForwardSimplePass::prepare_scene_resources(&objects, &meshes, vec![0; 7 * 48], vec![1; 64], vec![2; 32], &mut graph);
    assert_eq!(r.vertex_buffer, ResourceId(0));
    assert_eq!(r.index_buffer, ResourceId(1));
    assert_eq!(r.camera_buffer, ResourceId(2));
    assert_eq!(r.lighting_buffer, ResourceId(3));
    assert_eq!(r.vertex_count, 7);
    assert_eq!(r.index_count, 9);
    assert_eq!(r.transform, Some(TransformId(9)));
    let res = graph.resources();
    assert_eq!(res.len(), 4);
    assert_eq!(res[0].name, "forward_simple_vertices");
    assert_eq!(res[1].name, "forward_simple_indices");
    assert_eq!(
        res[1].descriptor,
        ResourceDescriptor::Buffer { size: 36, usage: BufferUsageFlags::new(BufferUsageFlags::INDEX) }
    );
    let index_bytes = res[1].initial_data.clone().unwrap();
    let indices: Vec<u32> = index_bytes.chunks(4).map(|c| u32::from_ne_bytes([c[0], c[1], c[2], c[3]])).collect();
    assert_eq!(indices, vec![0, 1, 2, 3, 4, 5, 5, 6, 3]);
    assert_eq!(res[2].name, "forward_simple_camera");
    assert_eq!(res[2].initial_data, Some(vec![1; 64]));
    assert_eq!(res[3].name, "forward_simple_lighting");
    assert_eq!(
        res[3].descriptor,
        ResourceDescriptor::Buffer { size: 32, usage: BufferUsageFlags::new(BufferUsageFlags::UNIFORM) }
    );
}

#[test]
fn scene_resources_without_indices_draw_vertices_in_order() {
    let meshes = vec![InlineMesh { vertex_count: 0, indices: Some(vec![]) }, InlineMesh { vertex_count: 2, indices: Some(vec![]) }];
    let mut graph: RenderGraph<PassCallback> = RenderGraph::new();
    let r = ForwardSimplePass::prepare_scene_resources(&[SceneObjectKind::Model], &meshes, vec![], vec![], vec![], &mut graph);
    assert_eq!(r.index_count, 2);
    assert_eq!(r.transform, None);
}

#[test]
fn simple_index_bytes_are_little_endian() {
    assert_eq!(index_buffer_bytes(&[1, 0x0403_0201, 0xffff_ffff]), vec![1, 0, 0, 0, 1, 2, 3, 4, 255, 255, 255, 255]);
    assert!(index_buffer_bytes(&[]).is_empty());
}

#[test]
fn vulkan_texture_formats() {
    assert_eq!(texture_format_to_vk(TextureFormat::Rgba8Srgb), 43);
    assert_eq!(texture_format_to_vk(TextureFormat::Rgba8Unorm), 37);
    assert_eq!(texture_format_to_vk(TextureFormat::Bgra8Srgb), 50);
    assert_eq!(texture_format_to_vk(TextureFormat::Bgra8Unorm), 44);
    assert_eq!(texture_format_to_vk(TextureFormat::Depth32Float), 126);
    assert_eq!(texture_format_to_vk(TextureFormat::Depth24PlusStencil8), 129);
}
