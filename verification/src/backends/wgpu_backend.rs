//! The device, command buffer, pipeline, resource and swapchain of the wgpu
//! backend as seen before the backend talks to wgpu: named placeholders whose
//! swapchain cycles through three frames.

use vstd::prelude::*;
use crate::backends::{BackendError, Device, Pipeline, Resource, Swapchain, SwapchainView};

verus! {

/// Number of frames the wgpu and DirectX swapchains cycle through
pub const FRAMES_IN_FLIGHT: usize = 3;

/// Device of the wgpu backend
pub struct WgpuDevice;

impl Device for WgpuDevice {
    /// The device is named "wgpu-stub-device"
    fn name(&self) -> (s: &str)
        ensures
            s@ == "wgpu-stub-device"@,
    {
        "wgpu-stub-device"
    }

    /// No feature is reported as supported
    fn supports_feature(&self, feature: &str) -> (b: bool)
        ensures
            !b,
    {
        false
    }
}

/// Command buffer of the wgpu backend; its recording commands are provided by the application
pub struct WgpuCommandBuffer;

/// Pipeline of the wgpu backend, known by its name
pub struct WgpuPipeline {
    name: String,
}

impl View for WgpuPipeline {
    type V = Seq<char>;

    closed spec fn view(&self) -> Seq<char> {
        self.name@
    }
}

impl WgpuPipeline {
    /// Create a pipeline with the given name
    pub fn new(name: String) -> (p: Self)
        ensures
            p@ == name@,
    {
        WgpuPipeline { name }
    }
}

impl Pipeline for WgpuPipeline {
    /// The name the pipeline was created with
    fn name(&self) -> (s: &str)
        ensures
            s@ == self@,
    {
        self.name.as_str()
    }
}

/// Resource of the wgpu backend: a size and a type description
pub struct WgpuResource {
    size: usize,
    resource_type: String,
}

impl View for WgpuResource {
    type V = (usize, Seq<char>);

    closed spec fn view(&self) -> (usize, Seq<char>) {
        (self.size, self.resource_type@)
    }
}

impl WgpuResource {
    /// Create a resource of `size` bytes described by `resource_type`
    pub fn new(size: usize, resource_type: String) -> (r: Self)
        ensures
            r@ == (size, resource_type@),
    {
        WgpuResource { size, resource_type }
    }
}

impl Resource for WgpuResource {
    /// The size the resource was created with
    fn size(&self) -> (n: usize)
        ensures
            n == self@.0,
    {
        self.size
    }

    /// The type description the resource was created with
    fn resource_type(&self) -> (s: &str)
        ensures
            s@ == self@.1,
    {
        self.resource_type.as_str()
    }
}

/// Acquiring advances through every frame in flight and comes back to the
/// same frame after one acquisition per frame.
pub proof fn lemma_acquire_cycles(frame: int)
    requires
        0 <= frame < FRAMES_IN_FLIGHT,
    ensures
        0 <= (frame + 1) % (FRAMES_IN_FLIGHT as int) < FRAMES_IN_FLIGHT,
        (frame + 1) % (FRAMES_IN_FLIGHT as int) != frame,
        ((((frame + 1) % 3) + 1) % 3 + 1) % 3 == frame,
{
}

/// Swapchain of the wgpu backend
pub struct WgpuSwapchain {
    width: u32,
    height: u32,
    current_frame: usize,
}

impl View for WgpuSwapchain {
    type V = SwapchainView;

    closed spec fn view(&self) -> SwapchainView {
        SwapchainView { width: self.width, height: self.height, current_frame: self.current_frame }
    }
}

impl WgpuSwapchain {
    /// The current frame is always one of the frames in flight.
    #[verifier::type_invariant]
    spec fn frame_in_range(self) -> bool {
        self.current_frame < FRAMES_IN_FLIGHT
    }

    /// An 800x600 swapchain at frame 0
    pub fn new() -> (s: Self)
        ensures
            s@ == (SwapchainView { width: 800, height: 600, current_frame: 0 }),
    {
        WgpuSwapchain { width: 800, height: 600, current_frame: 0 }
    }
}

impl Default for WgpuSwapchain {
    /// An 800x600 swapchain at frame 0
    fn default() -> (s: Self)
        ensures
            s@ == (SwapchainView { width: 800, height: 600, current_frame: 0 }),
    {
        WgpuSwapchain::new()
    }
}

impl Swapchain for WgpuSwapchain {
    fn width(&self) -> (w: u32)
        ensures
            w == self@.width,
    {
        self.width
    }

    fn height(&self) -> (h: u32)
        ensures
            h == self@.height,
    {
        self.height
    }

    /// The current frame, always below the number of frames in flight
    fn current_frame(&self) -> (f: usize)
        ensures
            f == self@.current_frame,
            f < FRAMES_IN_FLIGHT,
    {
        proof {
            use_type_invariant(self);
        }
        self.current_frame
    }

    /// Advance to the next of the three frames, wrapping to frame 0
    fn acquire_next_image(&mut self) -> (r: Result<(), BackendError>)
        ensures
            r is Ok,
            final(self)@ == (SwapchainView {
                current_frame: ((old(self)@.current_frame + 1) % (FRAMES_IN_FLIGHT as int)) as usize,
                ..old(self)@
            }),
    {
        proof {
            use_type_invariant(&*self);
        }
        self.current_frame = (self.current_frame + 1) % FRAMES_IN_FLIGHT;
        Ok(())
    }

    /// Presenting changes nothing
    fn present(&mut self) -> (r: Result<(), BackendError>)
        ensures
            r is Ok,
            final(self)@ == old(self)@,
    {
        Ok(())
    }

    /// Take the new size; the frame index is kept
    fn recreate(&mut self, width: u32, height: u32) -> (r: Result<(), BackendError>)
        ensures
            r is Ok,
            final(self)@ == (SwapchainView { width, height, ..old(self)@ }),
    {
        proof {
            use_type_invariant(&*self);
        }
        self.width = width;
        self.height = height;
        Ok(())
    }
}

} // verus!
