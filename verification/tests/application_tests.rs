use rusty_renderer::application::event_loop::{HeadlessSchedule, LoopAction, LoopEvent, LoopOwner, WindowLoop};
use rusty_renderer::application::runner::{headless_frame_count, RenderMode, RunError, RunStart};
use rusty_renderer::application::screenshot::sequence_file_name;
use rusty_renderer::application::{ApplicationArgs, ApplicationRunner, ArgsError};
use rusty_renderer::backends::binding::BufferHandle;
use rusty_renderer::camera::CameraBackend;
use rusty_renderer::config::{Backend, Config, ConfigError, LogLevel};
use rusty_renderer::pipelines::simple::{MeshBuffers, SceneError};
use rusty_renderer::pipelines::{
    ForwardPipeline, PipelineFactory, RenderPipeline, RenderPipelineKind, SimplePipeline,
};
use rusty_renderer::render_graph::PassId;

fn args() -> ApplicationArgs {
    ApplicationArgs {
        scene: None,
        pipeline: "simple".to_string(),
        backend: None,
        headless: false,
        list_scenes: false,
        list_pipelines: false,
        width: 800,
        height: 600,
        max_frames: 0,
        screenshot: None,
    }
}

fn config(width: u32, height: u32) -> Config {
    Config {
        backend: Backend::Vulkan,
        scene: "triangle".to_string(),
        width,
        height,
        debug: false,
        vsync: true,
        log_level: LogLevel::Info,
        max_frames: None,
        headless: false,
        screenshot: None,
        screenshot_interval: 0,
    }
}

#[test]
fn test_default_args() {}

#[test]
fn test_runner_creation() {
    let args = ApplicationArgs {
        scene: None,
        pipeline: "simple".to_string(),
        backend: None,
        headless: false,
        list_scenes: false,
        list_pipelines: false,
        width: 800,
        height: 600,
        max_frames: 0,
        screenshot: None,
    };

    let runner: ApplicationRunner<()> = ApplicationRunner::new(args);
    assert!(!runner.has_scene());
    assert!(!runner.has_pipeline());
}

#[test]
fn args_validation() {
    let mut a = args();
    assert!(a.validate(false).is_ok());
    a.scene = Some("scenes/cube.toml".to_string());
    assert!(matches!(a.validate(false), Err(ArgsError::SceneNotFound(p)) if p == "scenes/cube.toml"));
    assert!(a.validate(true).is_ok());
    let mut h = args();
    h.headless = true;
    assert!(matches!(h.validate(false), Err(ArgsError::HeadlessWithoutScene)));
    h.list_pipelines = true;
    assert!(h.validate(false).is_ok());
    assert_eq!(h.scene_directory(), "scenes");
}

#[test]
fn runner_steps() {
    let mut a = args();
    a.list_scenes = true;
    a.list_pipelines = true;
    let r: ApplicationRunner<u8> = ApplicationRunner::new(a);
    assert!(matches!(r.run(), Ok(RunStart::ListScenes)));

    let mut a = args();
    a.list_pipelines = true;
    let r: ApplicationRunner<u8> = ApplicationRunner::new(a);
    assert!(matches!(r.run(), Ok(RunStart::ListPipelines)));

    let r: ApplicationRunner<u8> = ApplicationRunner::new(args());
    assert!(matches!(r.run(), Err(RunError::NoSceneSpecified)));

    let mut a = args();
    a.scene = Some("scene.toml".to_string());
    a.headless = true;
    a.pipeline = "Forward".to_string();
    let mut r: ApplicationRunner<u8> = ApplicationRunner::from_args(a, true).unwrap();
    assert!(matches!(r.run(), Ok(RunStart::LoadScene(p)) if p == "scene.toml"));
    assert!(matches!(r.take_render_setup(), Err(RunError::NoSceneLoaded)));
    r.load_scene(7);
    assert!(matches!(r.take_render_setup(), Err(RunError::NoPipelineCreated)));
    assert!(!r.has_scene());
    r.load_scene(7);
    assert!(r.create_pipeline().is_ok());
    match r.take_render_setup() {
        Ok((scene, pipeline, RenderMode::Headless { width, height, frames, screenshot })) => {
            assert_eq!(scene, 7);
            assert_eq!(pipeline.name(), "Forward");
            assert_eq!((width, height, frames), (800, 600, 1));
            assert!(screenshot.is_none());
        }
        _ => panic!("expected a headless setup"),
    }
    assert!(!r.has_scene() && !r.has_pipeline());
}

#[test]
fn runner_rejects_unknown_pipeline_and_bad_args() {
    let mut a = args();
    a.pipeline = "deferred".to_string();
    let mut r: ApplicationRunner<u8> = ApplicationRunner::new(a);
    match r.create_pipeline() {
        Err(e) => assert_eq!(e.name, "deferred"),
        Ok(()) => panic!("deferred is not a pipeline"),
    }
    assert!(!r.has_pipeline());
    let mut b = args();
    b.headless = true;
    assert!(ApplicationRunner::<u8>::from_args(b, true).is_err());
    assert_eq!(headless_frame_count(0), 1);
    assert_eq!(headless_frame_count(5), 5);
}

#[test]
fn test_config_validation() {
    let mut config = config(1280, 720);

    assert!(config.validate().is_ok());

    config.width = 0;
    assert!(config.validate().is_err());

    config.width = 1280;
    config.height = 0;
    assert!(config.validate().is_err());
}

#[test]
fn test_window_size() {
    let config = config(1920, 1080);

    assert_eq!(config.window_size(), (1920, 1080));
}

#[test]
fn config_warnings_and_names() {
    assert!(!config(7680, 4320).is_large_window());
    assert!(config(7681, 10).is_large_window());
    assert_eq!(config(0, 1).validate(), Err(ConfigError::ZeroWindowDimension));
    assert_eq!(ConfigError::ZeroWindowDimension.message(), "Window dimensions must be greater than 0");
    assert_eq!(Backend::Vulkan.to_string(), "Vulkan");
    assert_eq!(Backend::DirectX.to_string(), "DirectX 12");
    assert!(CameraBackend::Vulkan.right_handed());
    assert!(!CameraBackend::DirectX.right_handed());
}

#[test]
fn test_pipeline_factory() {
    let pipelines = PipelineFactory::list_pipelines();
    assert!(!pipelines.is_empty());
    assert!(pipelines.contains(&"simple".to_string()));
}

#[test]
fn test_create_pipeline() {
    let pipeline = PipelineFactory::create("simple");
    assert!(pipeline.is_ok());

    let pipeline = PipelineFactory::create("invalid");
    assert!(pipeline.is_err());
}

#[test]
fn pipeline_names_ignore_case() {
    assert!(matches!(PipelineFactory::create("SIMPLE"), Ok(RenderPipelineKind::Simple(_))));
    assert!(matches!(PipelineFactory::create("Forward"), Ok(RenderPipelineKind::Forward(_))));
    match PipelineFactory::create("Deferred") {
        Err(e) => assert_eq!(e.name, "Deferred"),
        Ok(_) => panic!("unknown pipeline accepted"),
    }
    assert!(PipelineFactory::create_from_lowercase("forward", "FORWARD").is_ok());
    assert!(PipelineFactory::create_from_lowercase("Forward", "Forward").is_err());
    for name in PipelineFactory::list_pipelines() {
        assert!(PipelineFactory::create(&name).is_ok());
    }
}

#[test]
fn test_simple_pipeline_creation() {
    let pipeline = SimplePipeline::new();
    assert_eq!(pipeline.name(), "Simple");
}

#[test]
fn test_forward_pipeline_creation() {
    let pipeline = ForwardPipeline::new();
    assert_eq!(pipeline.name(), "Forward");
}

#[test]
fn simple_pipeline_graph() {
    let meshes = [
        MeshBuffers { vertex_buffer: BufferHandle(1), index_buffer: None, vertex_count: 3, index_count: 0 },
        MeshBuffers { vertex_buffer: BufferHandle(2), index_buffer: Some(BufferHandle(3)), vertex_count: 4, index_count: 6 },
    ];
    let graph = SimplePipeline::new().build_graph(&meshes, 3).unwrap();
    assert_eq!(graph.passes().len(), 2);
    assert_eq!(graph.passes()[1].id, PassId(1));
    assert_eq!(graph.resources().len(), 1);
    assert!(graph.shader("simple_vertex.vert").is_some());
    assert!(matches!(SimplePipeline::new().build_graph(&[], 0), Err(SceneError::NoObjects)));
    assert!(SimplePipeline::new().build_graph(&[], 1).unwrap().passes().is_empty());
}

#[test]
fn window_loop_engine_events() {
    let mut l = WindowLoop::new(LoopOwner::Engine, Some(2), true, false);
    assert_eq!(l.on_event(LoopEvent::LeftMousePressed), vec![LoopAction::CaptureMouse]);
    assert!(l.on_event(LoopEvent::LeftMousePressed).is_empty());
    assert_eq!(
        l.on_event(LoopEvent::Resized { width: 10, height: 20 }),
        vec![LoopAction::ResizeBackend { width: 10, height: 20 }, LoopAction::UpdateCameraAspect { width: 10, height: 20 }]
    );
    assert_eq!(l.on_event(LoopEvent::RedrawRequested), vec![LoopAction::RenderFrame]);
    assert!(l.after_frame(false).is_empty());
    assert_eq!(l.after_frame(true), vec![LoopAction::RequestRedraw]);
    assert_eq!(
        l.after_frame(true),
        vec![LoopAction::CaptureScreenshot, LoopAction::CleanupBackend, LoopAction::Exit]
    );
    assert_eq!(l.frame_count, 2);
    assert_eq!(l.on_event(LoopEvent::EscapePressed), vec![LoopAction::CleanupBackend, LoopAction::Exit]);
}

#[test]
fn window_loop_runner_events() {
    let mut l = WindowLoop::new(LoopOwner::Runner, None, false, false);
    assert!(l.on_event(LoopEvent::LeftMousePressed).is_empty());
    assert_eq!(
        l.on_event(LoopEvent::CloseRequested),
        vec![LoopAction::CleanupPipeline, LoopAction::CleanupBackend, LoopAction::Exit]
    );
    assert_eq!(l.on_event(LoopEvent::EscapePressed), vec![LoopAction::Exit]);
    for _ in 0..5 {
        assert_eq!(l.after_frame(true), vec![LoopAction::RequestRedraw]);
    }
}

#[test]
fn headless_screenshot_schedule() {
    let s = HeadlessSchedule::new(None, 3, true);
    assert_eq!(s.max_frames, 10);
    assert!(s.captures_sequence());
    let captured: Vec<u64> = (1..=s.max_frames).filter(|f| s.captures_after(*f)).collect();
    assert_eq!(captured, vec![3, 6, 9]);
    assert!(!s.captures_at_end());
    let single = HeadlessSchedule::new(Some(4), 0, true);
    assert!(!single.captures_after(4));
    assert!(single.captures_at_end());
    let none = HeadlessSchedule::new(Some(4), 2, false);
    assert!(!none.captures_after(2) && !none.captures_at_end());
}

#[test]
fn screenshot_sequence_names() {
    assert_eq!(sequence_file_name("shot", 3, "png"), "shot-0003.png");
    assert_eq!(sequence_file_name("frame", 42, "jpg"), "frame-0042.jpg");
    assert_eq!(sequence_file_name("a", 12345, "png"), "a-12345.png");
    assert_eq!(sequence_file_name("", 0, ""), "-0000.");
    assert_eq!(sequence_file_name("x", u64::MAX, "p"), format!("x-{}.p", u64::MAX));
}
