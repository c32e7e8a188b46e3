use rusty_renderer::application::runner::{RenderMode, RunError};
use rusty_renderer::application::{ApplicationArgs, ApplicationRunner, ArgsError};
use rusty_renderer::backends::binding::{BufferHandle, TextureHandle};
use rusty_renderer::backends::directx::{
    texture_format_to_dxgi, DXGI_FORMAT_B8G8R8A8_UNORM, DXGI_FORMAT_D32_FLOAT,
};
use rusty_renderer::backends::resources::TextureFormat;
use rusty_renderer::passes::forward_pass_builder::ForwardRenderPassCallback;
use rusty_renderer::passes::{PassBuildError, PassCallback};
use rusty_renderer::pipelines::forward::{select_material, ForwardMesh};
use rusty_renderer::pipelines::simple::SceneError;
use rusty_renderer::pipelines::{ForwardPipeline, RenderPipelineKind};
use rusty_renderer::render_graph::{PassId, ResourceId, TransformId};

const CAMERA: BufferHandle = BufferHandle(100);
const LIGHTING: BufferHandle = BufferHandle(101);
const DEFAULT_MATERIAL: BufferHandle = BufferHandle(102);
const DEFAULT_TEXTURE: TextureHandle = TextureHandle(103);

fn mesh(name: &str, vertex_count: u32, material: Option<(usize, BufferHandle, Option<TextureHandle>)>) -> ForwardMesh {
    ForwardMesh {
        name: name.to_string(),
        vertex_buffer: BufferHandle(vertex_count as u64 + 1),
        vertex_count,
        transform: TransformId(vertex_count),
        material,
    }
}

fn build(meshes: &[ForwardMesh], objects: usize, materials: usize) -> Result<rusty_renderer::render_graph::RenderGraph<PassCallback>, SceneError> {
    ForwardPipeline::new().build_graph(meshes, objects, materials, CAMERA, LIGHTING, DEFAULT_MATERIAL, DEFAULT_TEXTURE)
}

fn args(pipeline: &str) -> ApplicationArgs {
    ApplicationArgs {
        scene: Some("scenes/cube.ron".to_string()),
        pipeline: pipeline.to_string(),
        backend: None,
        headless: true,
        list_scenes: false,
        list_pipelines: false,
        width: 640,
        height: 480,
        max_frames: 3,
        screenshot: None,
    }
}

#[test]
fn forward_graph_has_one_pass_per_mesh() {
    let meshes = vec![
        mesh("cube", 36, Some((0, BufferHandle(7), Some(TextureHandle(8))))),
        mesh("floor", 6, None),
    ];
    let graph = build(&meshes, 3, 1).unwrap();
    assert!(graph.shader("forward.vert").is_none());
    assert_eq!(graph.resources().len(), 1);
    assert_eq!(graph.passes().len(), 2);
    let first = &graph.passes()[0];
    assert_eq!(first.id, PassId(0));
    assert_eq!(first.name, "forward_cube");
    assert!(first.inputs.is_empty());
    assert_eq!(first.outputs.len(), 1);
    assert_eq!(first.outputs[0].resource, ResourceId(0));
    assert_eq!(
        first.callback,
        Some(PassCallback::ForwardRender(ForwardRenderPassCallback {
            vertex_buffer: BufferHandle(37),
            camera_buffer: CAMERA,
            lighting_buffer: LIGHTING,
            material_buffer: Some(BufferHandle(7)),
            texture: Some(TextureHandle(8)),
            transform: Some(TransformId(36)),
            vertex_count: 36,
        }))
    );
    let second = &graph.passes()[1];
    assert_eq!(second.id, PassId(1));
    assert_eq!(second.name, "forward_floor");
    assert_eq!(
        second.callback,
        Some(PassCallback::ForwardRender(ForwardRenderPassCallback {
            vertex_buffer: BufferHandle(7),
            camera_buffer: CAMERA,
            lighting_buffer: LIGHTING,
            material_buffer: Some(DEFAULT_MATERIAL),
            texture: Some(DEFAULT_TEXTURE),
            transform: Some(TransformId(6)),
            vertex_count: 6,
        }))
    );
}

#[test]
fn forward_material_falls_back_to_defaults() {
    assert_eq!(
        select_material(Some((1, BufferHandle(5), Some(TextureHandle(6)))), 2, DEFAULT_MATERIAL, DEFAULT_TEXTURE),
        (BufferHandle(5), TextureHandle(6))
    );
    assert_eq!(
        select_material(Some((1, BufferHandle(5), None)), 2, DEFAULT_MATERIAL, DEFAULT_TEXTURE),
        (BufferHandle(5), DEFAULT_TEXTURE)
    );
    assert_eq!(
        select_material(Some((2, BufferHandle(5), Some(TextureHandle(6)))), 2, DEFAULT_MATERIAL, DEFAULT_TEXTURE),
        (DEFAULT_MATERIAL, DEFAULT_TEXTURE)
    );
    assert_eq!(select_material(None, 2, DEFAULT_MATERIAL, DEFAULT_TEXTURE), (DEFAULT_MATERIAL, DEFAULT_TEXTURE));
    let graph = build(&[mesh("bad_index", 3, Some((4, BufferHandle(9), Some(TextureHandle(9)))))], 1, 4).unwrap();
    match graph.passes()[0].callback {
        Some(PassCallback::ForwardRender(cb)) => {
            assert_eq!(cb.material_buffer, Some(DEFAULT_MATERIAL));
            assert_eq!(cb.texture, Some(DEFAULT_TEXTURE));
        }
        _ => panic!("expected a forward pass"),
    }
}

#[test]
fn forward_graph_errors() {
    assert!(matches!(build(&[], 0, 0), Err(SceneError::NoObjects)));
    let meshes = vec![mesh("ok", 3, None), mesh("empty", 0, None)];
    assert!(matches!(build(&meshes, 2, 0), Err(SceneError::Pass(PassBuildError::ZeroVertexCount))));
    let graph = build(&[], 2, 0).unwrap();
    assert!(graph.passes().is_empty());
    assert_eq!(graph.resources().len(), 1);
}

#[test]
fn runner_creates_the_named_pipeline() {
    let mut r = ApplicationRunner::<u8>::new(args("SIMPLE"));
    assert!(r.create_pipeline().is_ok());
    r.load_scene(1);
    match r.take_render_setup() {
        Ok((_, RenderPipelineKind::Simple(_), RenderMode::Headless { frames, .. })) => assert_eq!(frames, 3),
        _ => panic!("expected the simple pipeline"),
    }
    let mut r = ApplicationRunner::<u8>::new(args("Forward"));
    assert!(r.create_pipeline().is_ok());
    r.load_scene(1);
    assert!(matches!(r.take_render_setup(), Ok((1, RenderPipelineKind::Forward(_), _))));
}

#[test]
fn error_messages() {
    assert_eq!(
        ArgsError::SceneNotFound("scenes/missing.ron".to_string()).message(),
        "Scene file not found: scenes/missing.ron"
    );
    assert_eq!(ArgsError::HeadlessWithoutScene.message(), "Headless mode requires --scene argument");
    assert_eq!(
        RunError::NoSceneSpecified.message(),
        "No scene specified. Use --scene <file> or --list-scenes"
    );
    assert_eq!(RunError::NoSceneLoaded.message(), "No scene loaded");
    assert_eq!(RunError::NoPipelineCreated.message(), "No pipeline created");
}

#[test]
fn dxgi_formats() {
    assert_eq!(texture_format_to_dxgi(TextureFormat::Rgba8Srgb), 29);
    assert_eq!(texture_format_to_dxgi(TextureFormat::Rgba8Unorm), 28);
    assert_eq!(texture_format_to_dxgi(TextureFormat::Bgra8Srgb), 91);
    assert_eq!(texture_format_to_dxgi(TextureFormat::Bgra8Unorm), DXGI_FORMAT_B8G8R8A8_UNORM);
    assert_eq!(texture_format_to_dxgi(TextureFormat::Depth32Float), DXGI_FORMAT_D32_FLOAT);
    assert_eq!(texture_format_to_dxgi(TextureFormat::Depth24PlusStencil8), 45);
}
