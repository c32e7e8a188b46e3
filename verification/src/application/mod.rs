//! Unified application framework: the arguments of the renderer program, the
//! rules they must follow, and the decisions of the application runner and
//! of its event loop.

use vstd::prelude::*;
use vstd::string::StringExecFns;

pub mod event_loop;
pub mod runner;
pub mod screenshot;

pub use runner::ApplicationRunner;

verus! {

/// Command-line arguments for the unified application
#[derive(Debug, Clone)]
pub struct ApplicationArgs {
    /// Scene file to load
    pub scene: Option<String>,
    /// Pipeline to use (simple, forward, deferred, etc.)
    pub pipeline: String,
    /// Graphics backend to use
    pub backend: Option<String>,
    /// Run in headless mode (no window)
    pub headless: bool,
    /// List available scenes
    pub list_scenes: bool,
    /// List available pipelines
    pub list_pipelines: bool,
    /// Window width
    pub width: u32,
    /// Window height
    pub height: u32,
    /// Maximum frames to render (0 = unlimited)
    pub max_frames: u32,
    /// Screenshot output path (for headless mode)
    pub screenshot: Option<String>,
}

/// Why the arguments are rejected
#[derive(Debug, Clone)]
pub enum ArgsError {
    /// The scene file given does not exist
    SceneNotFound(String),
    /// Headless mode renders a scene, and none was given
    HeadlessWithoutScene,
}

impl ArgsError {
    /// The message the error is reported with
    pub fn message(&self) -> (s: String)
        ensures
            s@ == match self {
                ArgsError::SceneNotFound(path) => "Scene file not found: "@ + path@,
                ArgsError::HeadlessWithoutScene => "Headless mode requires --scene argument"@,
            },
    {
        match self {
            ArgsError::SceneNotFound(path) => {
                let mut s = "Scene file not found: ".to_owned();
                s.append(path.as_str());
                s
            },
            ArgsError::HeadlessWithoutScene => "Headless mode requires --scene argument".to_owned(),
        }
    }
}

/// The error the arguments are rejected with, if any, given whether the scene file they name exists.
pub open spec fn args_error(args: ApplicationArgs, scene_exists: bool) -> Option<ArgsError> {
    match args.scene {
        Some(path) if !scene_exists => Some(ArgsError::SceneNotFound(path)),
        _ => if args.headless && args.scene is None && !args.list_scenes && !args.list_pipelines {
            Some(ArgsError::HeadlessWithoutScene)
        } else {
            None
        },
    }
}

impl ApplicationArgs {
    /// Validate the arguments: a scene that is named must exist
    /// (`scene_exists` tells whether it does), and headless mode needs a scene
    /// unless the run only lists scenes or pipelines
    pub fn validate(&self, scene_exists: bool) -> (r: Result<(), ArgsError>)
        ensures
            match r {
                Ok(()) => args_error(*self, scene_exists) is None,
                Err(e) => args_error(*self, scene_exists) == Some(e),
            },
    {
        match &self.scene {
            Some(path) => {
                if !scene_exists {
                    return Err(ArgsError::SceneNotFound(path.clone()));
                }
            },
            None => {},
        }
        if self.headless && self.scene.is_none() && !self.list_scenes && !self.list_pipelines {
            return Err(ArgsError::HeadlessWithoutScene);
        }
        Ok(())
    }

    /// Get the scene directory
    pub fn scene_directory(&self) -> (d: String)
        ensures
            d@ == "scenes"@,
    {
        "scenes".to_owned()
    }
}

} // verus!
