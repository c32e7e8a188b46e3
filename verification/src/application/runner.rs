//! Application runner: what the application does for its arguments, in order
//! (list scenes or pipelines, or load the scene, create the pipeline, and
//! render headless or in a window), and how many frames it renders.

use vstd::prelude::*;
use crate::application::{args_error, ApplicationArgs, ArgsError};
use crate::pipelines::{lowercase, PipelineFactory, RenderPipelineKind, UnknownPipeline};

verus! {

/// What a run does first
#[derive(Debug, Clone)]
pub enum RunStart {
    /// List the scenes of the scene directory, then stop
    ListScenes,
    /// List the pipelines, then stop
    ListPipelines,
    /// Load the scene file at this path, then go on
    LoadScene(String),
}

/// Why a run cannot go on
#[derive(Debug, Clone, Copy, PartialEq, Eq, Structural)]
pub enum RunError {
    /// No scene file was given
    NoSceneSpecified,
    /// Rendering was asked for before a scene was loaded
    NoSceneLoaded,
    /// Rendering was asked for before a pipeline was created
    NoPipelineCreated,
}

impl RunError {
    /// The message the error is reported with
    pub fn message(&self) -> (s: String)
        ensures
            s@ == match self {
                RunError::NoSceneSpecified => "No scene specified. Use --scene <file> or --list-scenes"@,
                RunError::NoSceneLoaded => "No scene loaded"@,
                RunError::NoPipelineCreated => "No pipeline created"@,
            },
    {
        match self {
            RunError::NoSceneSpecified => "No scene specified. Use --scene <file> or --list-scenes".to_owned(),
            RunError::NoSceneLoaded => "No scene loaded".to_owned(),
            RunError::NoPipelineCreated => "No pipeline created".to_owned(),
        }
    }
}

/// How the loaded scene is rendered
#[derive(Debug, Clone)]
pub enum RenderMode {
    /// Without a window: `frames` frames at the given size, then an optional screenshot
    Headless { width: u32, height: u32, frames: u32, screenshot: Option<String> },
    /// In a window until it is closed, or until `max_frames` frames when it is positive
    Windowed { max_frames: u32, screenshot: Option<String> },
}

/// The number of frames a headless run renders: `max_frames`, or one frame when it is 0.
pub open spec fn spec_headless_frame_count(max_frames: u32) -> u32 {
    if max_frames > 0 {
        max_frames
    } else {
        1
    }
}

/// The number of frames a headless run renders
pub fn headless_frame_count(max_frames: u32) -> (n: u32)
    ensures
        n == spec_headless_frame_count(max_frames),
        n >= 1,
{
    if max_frames > 0 {
        max_frames
    } else {
        1
    }
}

/// The frame limit of a windowed run: `max_frames` frames when it is
/// positive, and no limit when it is 0
pub fn windowed_frame_limit(max_frames: u32) -> (r: Option<u64>)
    ensures
        r == if max_frames > 0 { Some(max_frames as u64) } else { None::<u64> },
{
    if max_frames > 0 {
        Some(max_frames as u64)
    } else {
        None
    }
}

/// Application runner: the arguments, then the scene once loaded and the
/// pipeline once created
pub struct ApplicationRunner<S> {
    args: ApplicationArgs,
    scene: Option<S>,
    pipeline: Option<RenderPipelineKind>,
}

impl<S> ApplicationRunner<S> {
    /// The arguments the runner was created with.
    pub closed spec fn spec_args(&self) -> ApplicationArgs {
        self.args
    }

    /// The loaded scene, if any.
    pub closed spec fn spec_scene(&self) -> Option<S> {
        self.scene
    }

    /// The created pipeline, if any.
    pub closed spec fn spec_pipeline(&self) -> Option<RenderPipelineKind> {
        self.pipeline
    }

    /// Whether a pipeline has been created.
    pub open spec fn spec_has_pipeline(&self) -> bool {
        self.spec_pipeline() is Some
    }

    /// Create a runner with no scene and no pipeline yet
    pub fn new(args: ApplicationArgs) -> (r: Self)
        ensures
            r.spec_args() == args,
            r.spec_scene() is None,
            r.spec_pipeline() is None,
    {
        ApplicationRunner { args, scene: None, pipeline: None }
    }

    /// Create a runner from arguments that pass validation; `scene_exists`
    /// tells whether the scene file they name exists
    pub fn from_args(args: ApplicationArgs, scene_exists: bool) -> (r: Result<Self, ArgsError>)
        ensures
            match r {
                Ok(runner) => {
                    &&& args_error(args, scene_exists) is None
                    &&& runner.spec_args() == args
                    &&& runner.spec_scene() is None
                    &&& runner.spec_pipeline() is None
                },
                Err(e) => args_error(args, scene_exists) == Some(e),
            },
    {
        match args.validate(scene_exists) {
            Ok(()) => Ok(Self::new(args)),
            Err(e) => Err(e),
        }
    }

    /// The arguments
    pub fn args(&self) -> (a: &ApplicationArgs)
        ensures
            *a == self.spec_args(),
    {
        &self.args
    }

    /// Whether a scene has been loaded
    pub fn has_scene(&self) -> (b: bool)
        ensures
            b == self.spec_scene() is Some,
    {
        self.scene.is_some()
    }

    /// Whether a pipeline has been created
    pub fn has_pipeline(&self) -> (b: bool)
        ensures
            b == self.spec_has_pipeline(),
    {
        self.pipeline.is_some()
    }

    /// What the run does first: list scenes, list pipelines, or load the
    /// scene; without a scene file a render run cannot start
    pub fn run(&self) -> (r: Result<RunStart, RunError>)
        ensures
            self.spec_args().list_scenes ==> r matches Ok(RunStart::ListScenes),
            !self.spec_args().list_scenes && self.spec_args().list_pipelines ==> r matches Ok(RunStart::ListPipelines),
            !self.spec_args().list_scenes && !self.spec_args().list_pipelines ==> match self.spec_args().scene {
                Some(path) => r matches Ok(RunStart::LoadScene(p)) && p@ == path@,
                None => r == Err::<RunStart, RunError>(RunError::NoSceneSpecified),
            },
    {
        if self.args.list_scenes {
            return Ok(RunStart::ListScenes);
        }
        if self.args.list_pipelines {
            return Ok(RunStart::ListPipelines);
        }
        match &self.args.scene {
            Some(path) => Ok(RunStart::LoadScene(path.clone())),
            None => Err(RunError::NoSceneSpecified),
        }
    }

    /// Keep the scene that was loaded
    pub fn load_scene(&mut self, scene: S)
        ensures
            final(self).spec_args() == old(self).spec_args(),
            final(self).spec_scene() == Some(scene),
            final(self).spec_pipeline() == old(self).spec_pipeline(),
    {
        self.scene = Some(scene);
    }

    /// Create the pipeline the arguments name, ignoring case
    pub fn create_pipeline(&mut self) -> (r: Result<(), UnknownPipeline>)
        ensures
            final(self).spec_args() == old(self).spec_args(),
            final(self).spec_scene() == old(self).spec_scene(),
            match r {
                Ok(()) => final(self).spec_pipeline() matches Some(k) && {
                    &&& (k is Simple <==> lowercase(old(self).spec_args().pipeline@) == "simple"@)
                    &&& (k is Forward <==> lowercase(old(self).spec_args().pipeline@) == "forward"@)
                },
                Err(e) => {
                    &&& final(self).spec_pipeline() == old(self).spec_pipeline()
                    &&& lowercase(old(self).spec_args().pipeline@) != "simple"@
                    &&& lowercase(old(self).spec_args().pipeline@) != "forward"@
                    &&& e.name@ == old(self).spec_args().pipeline@
                },
            },
    {
        proof {
            reveal_strlit("simple");
            reveal_strlit("forward");
        }
        match PipelineFactory::create(self.args.pipeline.as_str()) {
            Ok(p) => {
                proof {
                    assert("simple"@[0] != "forward"@[0]);
                }
                self.pipeline = Some(p);
                Ok(())
            },
            Err(e) => Err(e),
        }
    }

    /// Hand over the scene and the pipeline for rendering, with the mode the
    /// arguments ask for; fails when either is missing, the scene first. The
    /// scene is taken before the pipeline is looked for, so a failure for a
    /// missing pipeline leaves no scene behind
    pub fn take_render_setup(&mut self) -> (r: Result<(S, RenderPipelineKind, RenderMode), RunError>)
        ensures
            final(self).spec_args() == old(self).spec_args(),
            match r {
                Err(e) => {
                    &&& final(self).spec_scene() is None
                    &&& final(self).spec_pipeline() == old(self).spec_pipeline()
                    &&& (old(self).spec_scene() is None ==> e == RunError::NoSceneLoaded)
                    &&& (old(self).spec_scene() is Some ==> e == RunError::NoPipelineCreated
                        && !old(self).spec_has_pipeline())
                },
                Ok((scene, pipeline, mode)) => {
                    let args = old(self).spec_args();
                    &&& old(self).spec_scene() == Some(scene)
                    &&& old(self).spec_pipeline() == Some(pipeline)
                    &&& final(self).spec_scene() is None
                    &&& final(self).spec_pipeline() is None
                    &&& match mode {
                        RenderMode::Headless { width, height, frames, screenshot } => {
                            &&& args.headless
                            &&& width == args.width
                            &&& height == args.height
                            &&& frames == spec_headless_frame_count(args.max_frames)
                            &&& screenshot == args.screenshot
                        },
                        RenderMode::Windowed { max_frames, screenshot } => {
                            &&& !args.headless
                            &&& max_frames == args.max_frames
                            &&& screenshot == args.screenshot
                        },
                    }
                },
            },
    {
        let scene = match self.scene.take() {
            Some(s) => s,
            None => return Err(RunError::NoSceneLoaded),
        };
        let pipeline = match self.pipeline.take() {
            Some(p) => p,
            None => return Err(RunError::NoPipelineCreated),
        };
        let mode = if self.args.headless {
            RenderMode::Headless {
                width: self.args.width,
                height: self.args.height,
                frames: headless_frame_count(self.args.max_frames),
                screenshot: self.args.screenshot.clone(),
            }
        } else {
            RenderMode::Windowed { max_frames: self.args.max_frames, screenshot: self.args.screenshot.clone() }
        };
        Ok((scene, pipeline, mode))
    }
}

} // verus!
