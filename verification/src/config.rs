//! Configuration of the renderer: the backend, scene, window and run options
//! the command line sets, and the rules they must follow.

use vstd::prelude::*;

verus! {

/// Graphics backend selection
#[derive(Debug, Clone, Copy, PartialEq, Eq, Structural)]
pub enum Backend {
    /// Vulkan backend (using vulkanalia)
    Vulkan,
    /// DirectX 12 backend (Windows only)
    DirectX,
}

impl Backend {
    /// The name the backend is displayed with.
    pub open spec fn display_name(self) -> Seq<char> {
        match self {
            Backend::Vulkan => "Vulkan"@,
            Backend::DirectX => "DirectX 12"@,
        }
    }

    /// The name the backend is displayed with
    pub fn to_string(&self) -> (s: String)
        ensures
            s@ == self.display_name(),
    {
        match self {
            Backend::Vulkan => "Vulkan".to_owned(),
            Backend::DirectX => "DirectX 12".to_owned(),
        }
    }
}

/// Maximum level of the log messages shown
#[derive(Debug, Clone, Copy, PartialEq, Eq, Structural)]
pub enum LogLevel {
    Off,
    Error,
    Warn,
    Info,
    Debug,
    Trace,
}

/// Largest window width that raises no warning
pub const LARGE_WINDOW_WIDTH: u32 = 7680;

/// Largest window height that raises no warning
pub const LARGE_WINDOW_HEIGHT: u32 = 4320;

/// Rusty Renderer configuration
#[derive(Debug, Clone)]
pub struct Config {
    /// Graphics backend to use
    pub backend: Backend,
    /// Scene to render (triangle, cube, etc.)
    pub scene: String,
    /// Window width
    pub width: u32,
    /// Window height
    pub height: u32,
    /// Enable debug mode and validation layers
    pub debug: bool,
    /// Enable VSync
    pub vsync: bool,
    /// Log level (off, error, warn, info, debug, trace)
    pub log_level: LogLevel,
    /// Maximum number of frames to render (for testing)
    pub max_frames: Option<u64>,
    /// Run in headless mode (no window, for CI testing)
    pub headless: bool,
    /// Save screenshot to file path (requires headless or captures last frame)
    pub screenshot: Option<String>,
    /// Capture screenshot every N frames (0 = only last frame)
    pub screenshot_interval: u64,
}

/// Why a configuration is rejected
#[derive(Debug, Clone, Copy, PartialEq, Eq, Structural)]
pub enum ConfigError {
    /// The window width or height is 0
    ZeroWindowDimension,
}

impl ConfigError {
    /// The message the error is reported with
    pub fn message(&self) -> (s: String)
        ensures
            s@ == "Window dimensions must be greater than 0"@,
    {
        "Window dimensions must be greater than 0".to_owned()
    }
}

impl Config {
    /// Validate configuration: both window dimensions must be positive
    pub fn validate(&self) -> (r: Result<(), ConfigError>)
        ensures
            r is Ok <==> (self.width > 0 && self.height > 0),
            r is Err ==> r == Err::<(), ConfigError>(ConfigError::ZeroWindowDimension),
    {
        if self.width == 0 || self.height == 0 {
            return Err(ConfigError::ZeroWindowDimension);
        }
        Ok(())
    }

    /// Whether the window is large enough to warn of performance issues
    pub fn is_large_window(&self) -> (b: bool)
        ensures
            b == (self.width > LARGE_WINDOW_WIDTH || self.height > LARGE_WINDOW_HEIGHT),
    {
        self.width > LARGE_WINDOW_WIDTH || self.height > LARGE_WINDOW_HEIGHT
    }

    /// Get the window size as a tuple
    pub fn window_size(&self) -> (s: (u32, u32))
        ensures
            s == (self.width, self.height),
    {
        (self.width, self.height)
    }
}

} // verus!
