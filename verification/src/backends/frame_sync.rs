//! Frame pacing of the Vulkan backend: which frame in flight is recorded,
//! which swapchain image each frame's fence guards, when a frame must wait
//! for another frame's fence, and when the swapchain is out of date.

use vstd::prelude::*;

verus! {

/// Number of frames the Vulkan backend keeps in flight
pub const MAX_FRAMES_IN_FLIGHT: usize = 2;

/// What acquiring the next swapchain image gave
#[derive(Debug, Clone, Copy, PartialEq, Eq, Structural)]
pub enum AcquireResult {
    /// The index of the image to render into
    Image(u32),
    /// The swapchain no longer matches the surface
    OutOfDate,
}

/// What the frame does after acquiring
#[derive(Debug, Clone, Copy, PartialEq, Eq, Structural)]
pub enum AcquireStep {
    /// Render nothing this frame
    Skip,
    /// Render into `image`, after waiting for the fence of frame `wait_for` when the image is still in use by it
    Render { image: usize, wait_for: Option<usize> },
}

/// What presenting the image gave
#[derive(Debug, Clone, Copy, PartialEq, Eq, Structural)]
pub enum PresentResult {
    Success,
    Suboptimal,
    OutOfDate,
    /// Any other failure
    Failed,
}

/// Presenting failed for another reason than an out-of-date swapchain
#[derive(Debug, Clone, Copy, PartialEq, Eq, Structural)]
pub struct PresentFailed;

/// The pacing state
pub struct FrameSyncView {
    pub frames_in_flight: nat,
    /// The frame whose fence and semaphore the next frame uses
    pub current_frame: nat,
    /// For each swapchain image, the frame whose fence last guarded it
    pub images_in_flight: Seq<Option<usize>>,
    /// The image acquired last
    pub image_index: nat,
    pub swapchain_outdated: bool,
    pub width: u32,
    pub height: u32,
}

/// Frame pacing of the Vulkan backend
pub struct FrameSync {
    frames_in_flight: usize,
    current_frame: usize,
    images_in_flight: Vec<Option<usize>>,
    image_index: usize,
    swapchain_outdated: bool,
    width: u32,
    height: u32,
}

impl View for FrameSync {
    type V = FrameSyncView;

    closed spec fn view(&self) -> FrameSyncView {
        FrameSyncView {
            frames_in_flight: self.frames_in_flight as nat,
            current_frame: self.current_frame as nat,
            images_in_flight: self.images_in_flight@,
            image_index: self.image_index as nat,
            swapchain_outdated: self.swapchain_outdated,
            width: self.width,
            height: self.height,
        }
    }
}

impl FrameSync {
    /// The current frame is a frame in flight, and every image is guarded by one.
    #[verifier::type_invariant]
    spec fn frames_valid(self) -> bool {
        &&& 0 < self.frames_in_flight
        &&& self.current_frame < self.frames_in_flight
        &&& forall|i: int| 0 <= i < self.images_in_flight@.len()
            ==> (#[trigger] self.images_in_flight@[i] matches Some(f) ==> f < self.frames_in_flight)
    }

    /// Pacing for `frames_in_flight` frames over a new swapchain of `image_count` images of the given size
    pub fn new(frames_in_flight: usize, image_count: usize, width: u32, height: u32) -> (s: Self)
        requires
            frames_in_flight > 0,
        ensures
            s@.frames_in_flight == frames_in_flight,
            s@.current_frame == 0,
            s@.images_in_flight == Seq::new(image_count as nat, |i: int| None::<usize>),
            s@.image_index == 0,
            !s@.swapchain_outdated,
            s@.width == width,
            s@.height == height,
    {
        let images = Self::free_images(image_count);
        FrameSync {
            frames_in_flight,
            current_frame: 0,
            images_in_flight: images,
            image_index: 0,
            swapchain_outdated: false,
            width,
            height,
        }
    }

    /// `count` images guarded by no frame
    fn free_images(count: usize) -> (v: Vec<Option<usize>>)
        ensures
            v@ == Seq::new(count as nat, |i: int| None::<usize>),
    {
        let mut v: Vec<Option<usize>> = Vec::new();
        let mut i: usize = 0;
        while i < count
            invariant
                i <= count,
                v@ == Seq::new(i as nat, |k: int| None::<usize>),
            decreases count - i,
        {
            v.push(None);
            i += 1;
            assert(v@ =~= Seq::new(i as nat, |k: int| None::<usize>));
        }
        v
    }

    /// The frame whose fence and semaphore the next frame uses
    pub fn current_frame(&self) -> (f: usize)
        ensures
            f == self@.current_frame,
            f < self@.frames_in_flight,
    {
        proof {
            use_type_invariant(self);
        }
        self.current_frame
    }

    /// Whether the swapchain must be recreated before rendering again
    pub fn swapchain_outdated(&self) -> (b: bool)
        ensures
            b == self@.swapchain_outdated,
    {
        self.swapchain_outdated
    }

    /// Take the result of acquiring the next image: an out-of-date swapchain
    /// skips the frame; otherwise the image is rendered into, first waiting
    /// for the fence of the frame that last used it when that is another
    /// frame, and the image is now guarded by the current frame
    pub fn acquired(&mut self, result: AcquireResult) -> (step: AcquireStep)
        requires
            result matches AcquireResult::Image(i) ==> i < old(self)@.images_in_flight.len(),
        ensures
            step matches AcquireStep::Render { wait_for: Some(f), .. } ==> f < old(self)@.frames_in_flight
                && f != old(self)@.current_frame,
            match result {
                AcquireResult::OutOfDate => {
                    &&& step == AcquireStep::Skip
                    &&& final(self)@ == (FrameSyncView { swapchain_outdated: true, ..old(self)@ })
                },
                AcquireResult::Image(i) => {
                    let previous = old(self)@.images_in_flight[i as int];
                    &&& step == (AcquireStep::Render {
                        image: i as usize,
                        wait_for: match previous {
                            Some(f) => if f != old(self)@.current_frame { Some(f) } else { None },
                            None => None,
                        },
                    })
                    &&& final(self)@ == (FrameSyncView {
                        images_in_flight: old(self)@.images_in_flight.update(i as int, Some(old(self)@.current_frame as usize)),
                        image_index: i as nat,
                        ..old(self)@
                    })
                },
            },
    {
        proof {
            use_type_invariant(&*self);
        }
        match result {
            AcquireResult::OutOfDate => {
                self.swapchain_outdated = true;
                AcquireStep::Skip
            },
            AcquireResult::Image(i) => {
                let image = i as usize;
                let wait_for = match self.images_in_flight[image] {
                    Some(f) => if f != self.current_frame { Some(f) } else { None },
                    None => None,
                };
                let current = self.current_frame;
                let mut images: Vec<Option<usize>> = Vec::new();
                std::mem::swap(&mut images, &mut self.images_in_flight);
                images.set(image, Some(current));
                self.images_in_flight = images;
                self.image_index = image;
                AcquireStep::Render { image, wait_for }
            },
        }
    }

    /// Whether the frame's commands are submitted and presented: not while the swapchain is out of date
    pub fn should_submit(&self) -> (b: bool)
        ensures
            b == !self@.swapchain_outdated,
    {
        !self.swapchain_outdated
    }

    /// Take the result of presenting: a suboptimal or out-of-date swapchain
    /// is marked out of date, and the next frame in flight comes up; another
    /// failure is returned and nothing changes
    pub fn presented(&mut self, result: PresentResult) -> (r: Result<(), PresentFailed>)
        ensures
            result == PresentResult::Failed ==> r is Err && final(self)@ == old(self)@,
            result != PresentResult::Failed ==> r is Ok && final(self)@ == (FrameSyncView {
                current_frame: (old(self)@.current_frame + 1) % old(self)@.frames_in_flight,
                swapchain_outdated: old(self)@.swapchain_outdated || result == PresentResult::Suboptimal
                    || result == PresentResult::OutOfDate,
                ..old(self)@
            }),
    {
        proof {
            use_type_invariant(&*self);
        }
        let changed = match result {
            PresentResult::Success => false,
            PresentResult::Suboptimal => true,
            PresentResult::OutOfDate => true,
            PresentResult::Failed => return Err(PresentFailed),
        };
        if changed {
            self.swapchain_outdated = true;
        }
        self.current_frame = (self.current_frame + 1) % self.frames_in_flight;
        Ok(())
    }

    /// Take a new window size: a different size marks the swapchain out of date
    pub fn resize(&mut self, width: u32, height: u32)
        ensures
            old(self)@.width == width && old(self)@.height == height ==> final(self)@ == old(self)@,
            !(old(self)@.width == width && old(self)@.height == height) ==> final(self)@ == (FrameSyncView {
                swapchain_outdated: true,
                ..old(self)@
            }),
    {
        proof {
            use_type_invariant(&*self);
        }
        if self.width == width && self.height == height {
            return;
        }
        self.swapchain_outdated = true;
    }

    /// After the swapchain was recreated with `image_count` images of the
    /// given size: no image is guarded by a frame any more
    pub fn swapchain_recreated(&mut self, image_count: usize, width: u32, height: u32)
        ensures
            final(self)@ == (FrameSyncView {
                images_in_flight: Seq::new(image_count as nat, |i: int| None::<usize>),
                width,
                height,
                ..old(self)@
            }),
    {
        proof {
            use_type_invariant(&*self);
        }
        let images = Self::free_images(image_count);
        self.images_in_flight = images;
        self.width = width;
        self.height = height;
    }
}

} // verus!
