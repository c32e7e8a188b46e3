use rusty_renderer::backends::binding::BufferHandle;
use rusty_renderer::passes::mesh_indices::{merge_mesh_indices, InlineMesh};
use rusty_renderer::passes::triangle_pass::TrianglePassBuilder;
use rusty_renderer::passes::{
    ForwardSimplePass, PassBuildError, PassCallback, ShadowMapPass, TrianglePass, VertexBufferTrianglePass,
    VertexBufferTrianglePassBuilder,
};
use rusty_renderer::render_graph::{
    BufferRef, BufferUsageFlags, CullMode, Extent3D, ExtentMode, Format, ImageUsageFlags, IndexType,
    OnFailure, PassCommand, PassId, PushData, RenderGraph, ResourceDescriptor, ResourceId,
    SampleCount, ShaderDescriptor, ShaderStage,
};

fn color_descriptor() -> ResourceDescriptor {
    ResourceDescriptor::Image {
        format: Format::Bgra8Unorm,
        extent: ExtentMode::Absolute(Extent3D::new_2d(800, 600)),
        usage: ImageUsageFlags::new(ImageUsageFlags::COLOR_ATTACHMENT),
        samples: SampleCount::One,
        mip_levels: 1,
    }
}

#[test]
fn test_forward_simple_pass_missing_resources() {
    let mut graph: RenderGraph<PassCallback> = RenderGraph::new();

    let result = ForwardSimplePass::builder().vertex_count(36).build(&mut graph);

    assert!(result.is_err());
}

#[test]
fn test_forward_simple_pass_builder() {
    let mut graph: RenderGraph<PassCallback> = RenderGraph::new();

    let color = graph.create_resource("color", color_descriptor());
    let depth = graph.create_resource(
        "depth",
        ResourceDescriptor::Image {
            format: Format::Depth32Float,
            extent: ExtentMode::Absolute(Extent3D::new_2d(800, 600)),
            usage: ImageUsageFlags::new(ImageUsageFlags::DEPTH_STENCIL_ATTACHMENT),
            samples: SampleCount::One,
            mip_levels: 1,
        },
    );
    let vertex_buffer = graph.create_resource(
        "vertices",
        ResourceDescriptor::Buffer { size: 1024, usage: BufferUsageFlags::new(BufferUsageFlags::VERTEX) },
    );
    let camera = graph.create_resource(
        "camera",
        ResourceDescriptor::Buffer { size: 128, usage: BufferUsageFlags::new(BufferUsageFlags::UNIFORM) },
    );
    let lighting = graph.create_resource(
        "lighting",
        ResourceDescriptor::Buffer { size: 256, usage: BufferUsageFlags::new(BufferUsageFlags::UNIFORM) },
    );

    let _pass = ForwardSimplePass::builder()
        .color_output(color)
        .depth_output(depth)
        .vertex_buffer(vertex_buffer)
        .camera_buffer(camera)
        .lighting_buffer(lighting)
        .vertex_count(36)
        .build(&mut graph)
        .unwrap();

    assert_eq!(graph.passes().len(), 1);
}

#[test]
fn forward_simple_errors_in_check_order() {
    let mut graph: RenderGraph<PassCallback> = RenderGraph::new();
    let r = ResourceId(0);
    let err = |b: rusty_renderer::passes::ForwardSimplePassBuilder, g: &mut RenderGraph<PassCallback>| match b.build(g) {
        Err(e) => e,
        Ok(_) => panic!("build should fail"),
    };
    let b = ForwardSimplePass::builder();
    assert_eq!(err(b, &mut graph), PassBuildError::MissingColorOutput);
    let b = ForwardSimplePass::builder().color_output(r);
    assert_eq!(err(b, &mut graph), PassBuildError::MissingDepthOutput);
    let b = ForwardSimplePass::builder().color_output(r).depth_output(r);
    assert_eq!(err(b, &mut graph), PassBuildError::MissingVertexBuffer);
    let b = ForwardSimplePass::builder().color_output(r).depth_output(r).vertex_buffer(r);
    assert_eq!(err(b, &mut graph), PassBuildError::MissingCameraBuffer);
    let b = ForwardSimplePass::builder().color_output(r).depth_output(r).vertex_buffer(r).camera_buffer(r);
    assert_eq!(err(b, &mut graph), PassBuildError::MissingLightingBuffer);
    let b = ForwardSimplePass::builder().color_output(r).depth_output(r).vertex_buffer(r).camera_buffer(r).lighting_buffer(r);
    assert_eq!(err(b, &mut graph), PassBuildError::ZeroVertexCount);
    let b = ForwardSimplePass::builder()
        .color_output(r)
        .depth_output(r)
        .vertex_buffer(r)
        .index_buffer(r)
        .camera_buffer(r)
        .lighting_buffer(r)
        .vertex_count(3);
    assert_eq!(err(b, &mut graph), PassBuildError::ZeroIndexCount);
    // every failed build left the graph without passes
    assert_eq!(graph.passes().len(), 0);
    assert_eq!(PassBuildError::ZeroIndexCount.message(), "index_count must be greater than 0");
    assert_eq!(PassBuildError::VertexBufferNotSet.message(), "Vertex buffer not set");
}

#[test]
fn forward_simple_draws_indices_or_vertices() {
    let mut graph: RenderGraph<PassCallback> = RenderGraph::new();
    let r = ResourceId(0);
    let pass = ForwardSimplePass::builder()
        .color_output(r)
        .depth_output(r)
        .vertex_buffer(r)
        .index_buffer(ResourceId(1))
        .camera_buffer(r)
        .lighting_buffer(r)
        .vertex_count(3)
        .index_count(6)
        .build(&mut graph)
        .unwrap();
    assert_eq!(pass.pass_id(), PassId(0));
    let steps = graph.passes()[0].callback.unwrap().execute();
    assert!(steps.iter().all(|s| s.on_failure == OnFailure::Abort));
    assert_eq!(
        steps.last().unwrap().command,
        PassCommand::DrawIndexed { index_count: 6, instance_count: 1, first_index: 0, vertex_offset: 0, first_instance: 0 }
    );
    // shaders registered by each build
    assert!(graph.shader("forward_simple.vert").is_some());
    assert!(graph.shader("forward_simple.frag").is_some());
}

#[test]
fn test_triangle_pass_creation() {
    let mut graph: RenderGraph<PassCallback> = RenderGraph::new();
    let color_buffer = graph.create_resource("color_buffer", color_descriptor());

    let pass = TrianglePass::new(&mut graph, color_buffer);

    assert_eq!(pass.pass_id().0, 0);
}

#[test]
fn test_triangle_pass_builder() {
    let mut graph: RenderGraph<PassCallback> = RenderGraph::new();
    let color_buffer = graph.create_resource("color_buffer", color_descriptor());

    let clear = [0.1f32.to_bits(), 0.2f32.to_bits(), 0.3f32.to_bits(), 1.0f32.to_bits()];
    let pass = TrianglePassBuilder::new(color_buffer)
        .with_clear_color(clear)
        .with_name("custom_triangle")
        .build(&mut graph)
        .unwrap();

    assert_eq!(pass.pass_id().0, 0);
    assert_eq!(graph.passes()[0].name, "custom_triangle");
}

#[test]
fn triangle_pipeline_request() {
    let mut graph: RenderGraph<PassCallback> = RenderGraph::new();
    let color_buffer = graph.create_resource("color_buffer", color_descriptor());
    TrianglePass::new(&mut graph, color_buffer);
    TrianglePass::new(&mut graph, color_buffer);
    assert_eq!(graph.passes()[1].id, PassId(1));
    let request = graph.passes()[0].callback.unwrap().declare_pipeline().unwrap();
    assert_eq!(request.vertex_shader.as_deref(), Some("triangle.vert"));
    assert_eq!(request.fragment_shader.as_deref(), Some("triangle.frag"));
    assert!(request.vertex_layout.is_none());
    assert!(!request.depth_test && !request.depth_write);
    assert_eq!(request.cull_mode, CullMode::Off);
    assert!(graph.passes()[0].callback.unwrap().execute().is_empty());
}

#[test]
fn test_vertex_buffer_triangle_pass_creation() {
    let mut graph: RenderGraph<PassCallback> = RenderGraph::new();
    let color_buffer = graph.create_resource("color_buffer", color_descriptor());

    let vertex_buffer = BufferHandle(144);

    let pass = VertexBufferTrianglePass::new(&mut graph, color_buffer, vertex_buffer, None, 3);

    assert_eq!(pass.pass_id().0, 0);
}

#[test]
fn test_vertex_buffer_triangle_pass_builder() {
    let mut graph: RenderGraph<PassCallback> = RenderGraph::new();
    let color_buffer = graph.create_resource("color_buffer", color_descriptor());

    let vertex_buffer = BufferHandle(144);

    let pass = VertexBufferTrianglePassBuilder::new(color_buffer)
        .with_vertex_buffer(vertex_buffer)
        .with_vertex_count(3)
        .with_name("custom_vb_triangle")
        .build(&mut graph)
        .unwrap();

    assert_eq!(pass.pass_id().0, 0);
}

#[test]
fn vertex_buffer_builder_needs_a_buffer() {
    let mut graph: RenderGraph<PassCallback> = RenderGraph::new();
    let result = VertexBufferTrianglePassBuilder::new(ResourceId(0)).build(&mut graph);
    assert!(matches!(result, Err(PassBuildError::VertexBufferNotSet)));
    assert!(graph.passes().is_empty());
}

#[test]
fn vertex_buffer_pass_commands() {
    let mut graph: RenderGraph<PassCallback> = RenderGraph::new();
    let color = graph.create_resource("color_buffer", color_descriptor());
    VertexBufferTrianglePass::new(&mut graph, color, BufferHandle(1), Some(BufferHandle(2)), 36);
    VertexBufferTrianglePass::new(&mut graph, color, BufferHandle(3), None, 3);
    let indexed = graph.passes()[0].callback.unwrap().execute();
    let commands: Vec<PassCommand> = indexed.iter().map(|s| s.command).collect();
    assert_eq!(
        commands,
        vec![
            PassCommand::PushConstants { stages: 1, offset: 0, data: PushData::FixedViewProjection },
            PassCommand::BindVertexBuffer { slot: 0, buffer: BufferRef::External(BufferHandle(1)), offset: 0 },
            PassCommand::BindIndexBuffer { buffer: BufferRef::External(BufferHandle(2)), offset: 0, index_type: IndexType::U32 },
            PassCommand::DrawIndexed { index_count: 36, instance_count: 1, first_index: 0, vertex_offset: 0, first_instance: 0 },
        ]
    );
    let plain = graph.passes()[1].callback.unwrap().execute();
    assert_eq!(plain.len(), 3);
    assert_eq!(plain[2].command, PassCommand::Draw { vertex_count: 3, instance_count: 1, first_vertex: 0, first_instance: 0 });
    let request = graph.passes()[1].callback.unwrap().declare_pipeline().unwrap();
    let layout = request.vertex_layout.unwrap();
    assert_eq!(layout.bindings[0].stride, 24);
    assert_eq!(layout.attributes.len(), 2);
    assert_eq!(request.cull_mode, CullMode::Back);
}

#[test]
fn mesh_indices_are_shifted_by_earlier_vertices() {
    let meshes = vec![
        InlineMesh { vertex_count: 3, indices: Some(vec![0, 1, 2]) },
        InlineMesh { vertex_count: 2, indices: None },
        InlineMesh { vertex_count: 4, indices: Some(vec![3, 0]) },
    ];
    assert_eq!(merge_mesh_indices(&meshes), vec![0, 1, 2, 3, 4, 8, 5]);
}

#[test]
fn mesh_indices_fall_back_to_vertex_order() {
    let meshes = vec![
        InlineMesh { vertex_count: 2, indices: Some(vec![]) },
        InlineMesh { vertex_count: 1, indices: Some(vec![]) },
    ];
    assert_eq!(merge_mesh_indices(&meshes), vec![0, 1, 2]);
    assert!(merge_mesh_indices(&vec![]).is_empty());
}

#[test]
fn shader_lookup_finds_last_registration() {
    let mut graph: RenderGraph<PassCallback> = RenderGraph::new();
    graph.register_shader("a", ShaderDescriptor::from_file("first.hlsl", ShaderStage::Vertex));
    graph.register_shader("b", ShaderDescriptor::from_file("other.hlsl", ShaderStage::Fragment));
    graph.register_shader("a", ShaderDescriptor::from_compiled("second.spv", ShaderStage::Vertex).with_entry_point("VSMain"));
    let found = graph.shader("a").unwrap();
    assert_eq!(found.entry_point, "VSMain");
    assert_eq!(graph.shader("b").unwrap().stage, ShaderStage::Fragment);
    assert!(graph.shader("c").is_none());
}

#[test]
fn resources_get_their_positions_as_ids() {
    let mut graph: RenderGraph<PassCallback> = RenderGraph::new();
    let a = graph.create_resource("a", color_descriptor());
    let b = graph.declare_buffer_with_data("b", vec![1, 2, 3], BufferUsageFlags::new(BufferUsageFlags::VERTEX));
    assert_eq!((a, b), (ResourceId(0), ResourceId(1)));
    assert_eq!(
        graph.resources()[1].descriptor,
        ResourceDescriptor::Buffer { size: 3, usage: BufferUsageFlags::new(BufferUsageFlags::VERTEX) }
    );
    assert_eq!(graph.next_pass_id(), PassId(0));
}

#[test]
fn shadow_map_resources_are_declared() {
    let mut graph: RenderGraph<PassCallback> = RenderGraph::new();
    graph.create_resource("color_buffer", color_descriptor());
    let resources = ShadowMapPass::declare_resources(&mut graph, vec![0u8; 64], 2048);
    assert_eq!((resources.shadow_map, resources.light_uniforms), (ResourceId(1), ResourceId(2)));
    assert_eq!(graph.resources()[1].name, "shadow_map");
    assert_eq!(
        graph.resources()[2].descriptor,
        ResourceDescriptor::Buffer { size: 64, usage: BufferUsageFlags::new(BufferUsageFlags::UNIFORM) }
    );
    assert_eq!(graph.resources()[2].initial_data.as_ref().map(|d| d.len()), Some(64));
}
