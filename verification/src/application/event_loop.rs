//! The decisions of the windowed event loop and of a headless run: what the
//! application does on each window event, when it stops after a frame, and
//! after which frames it captures a screenshot.

use vstd::prelude::*;

verus! {

/// A window event the loop reacts to
#[derive(Debug, Clone, Copy, PartialEq, Eq, Structural)]
pub enum LoopEvent {
    CloseRequested,
    Resized { width: u32, height: u32 },
    RedrawRequested,
    /// The Escape key was pressed
    EscapePressed,
    /// The left mouse button was pressed
    LeftMousePressed,
}

/// Something the application does in answer to an event
#[derive(Debug, Clone, Copy, PartialEq, Eq, Structural)]
pub enum LoopAction {
    /// Capture the frame and save it to the screenshot path
    CaptureScreenshot,
    /// Release the pipeline's resources
    CleanupPipeline,
    /// Release the backend's resources
    CleanupBackend,
    /// Leave the event loop
    Exit,
    /// Resize the backend's swapchain
    ResizeBackend { width: u32, height: u32 },
    /// Give the camera the new aspect ratio
    UpdateCameraAspect { width: u32, height: u32 },
    /// Hide and confine the cursor for mouse look
    CaptureMouse,
    /// Render a frame, then report whether it succeeded
    RenderFrame,
    /// Ask the window for another frame
    RequestRedraw,
}

/// Which application runs the loop
#[derive(Debug, Clone, Copy, PartialEq, Eq, Structural)]
pub enum LoopOwner {
    /// The render engine: camera control, mouse capture, cleanup on Escape and at the frame limit
    Engine,
    /// The application runner: pipeline cleanup on close, plain exit on Escape and at the frame limit
    Runner,
}

/// The state of the event loop
#[derive(Debug, Clone, Copy, PartialEq, Eq, Structural)]
pub struct WindowLoop {
    pub owner: LoopOwner,
    /// Frames rendered so far
    pub frame_count: u64,
    /// Stop after this many frames, when set
    pub max_frames: Option<u64>,
    /// Whether a screenshot path was given
    pub screenshot: bool,
    /// Whether the run is headless (no mouse capture then)
    pub headless: bool,
    /// Whether the mouse is captured for mouse look
    pub mouse_captured: bool,
}

/// The screenshot capture, when a screenshot path was given.
pub open spec fn screenshot_actions(screenshot: bool) -> Seq<LoopAction> {
    if screenshot {
        seq![LoopAction::CaptureScreenshot]
    } else {
        Seq::empty()
    }
}

impl WindowLoop {
    /// A loop that has rendered no frame and has not captured the mouse
    pub fn new(owner: LoopOwner, max_frames: Option<u64>, screenshot: bool, headless: bool) -> (l: Self)
        ensures
            l == (WindowLoop { owner, frame_count: 0, max_frames, screenshot, headless, mouse_captured: false }),
    {
        WindowLoop { owner, frame_count: 0, max_frames, screenshot, headless, mouse_captured: false }
    }

    /// What the application does on an event.
    pub open spec fn spec_actions(self, event: LoopEvent) -> Seq<LoopAction> {
        match event {
            LoopEvent::CloseRequested => screenshot_actions(self.screenshot) + match self.owner {
                LoopOwner::Engine => seq![LoopAction::CleanupBackend, LoopAction::Exit],
                LoopOwner::Runner => seq![LoopAction::CleanupPipeline, LoopAction::CleanupBackend, LoopAction::Exit],
            },
            LoopEvent::Resized { width, height } => match self.owner {
                LoopOwner::Engine => seq![
                    LoopAction::ResizeBackend { width, height },
                    LoopAction::UpdateCameraAspect { width, height },
                ],
                LoopOwner::Runner => seq![LoopAction::ResizeBackend { width, height }],
            },
            LoopEvent::RedrawRequested => seq![LoopAction::RenderFrame],
            LoopEvent::EscapePressed => match self.owner {
                LoopOwner::Engine => seq![LoopAction::CleanupBackend, LoopAction::Exit],
                LoopOwner::Runner => seq![LoopAction::Exit],
            },
            LoopEvent::LeftMousePressed => if self.owner == LoopOwner::Engine && !self.headless && !self.mouse_captured {
                seq![LoopAction::CaptureMouse]
            } else {
                Seq::empty()
            },
        }
    }

    /// React to an event; a mouse press that captures the mouse records it
    pub fn on_event(&mut self, event: LoopEvent) -> (actions: Vec<LoopAction>)
        ensures
            actions@ == old(self).spec_actions(event),
            *final(self) == (WindowLoop {
                mouse_captured: old(self).mouse_captured || old(self).spec_actions(event).contains(LoopAction::CaptureMouse),
                ..*old(self)
            }),
    {
        let mut actions: Vec<LoopAction> = Vec::new();
        match event {
            LoopEvent::CloseRequested => {
                if self.screenshot {
                    actions.push(LoopAction::CaptureScreenshot);
                }
                match self.owner {
                    LoopOwner::Engine => {},
                    LoopOwner::Runner => actions.push(LoopAction::CleanupPipeline),
                }
                actions.push(LoopAction::CleanupBackend);
                actions.push(LoopAction::Exit);
            },
            LoopEvent::Resized { width, height } => {
                actions.push(LoopAction::ResizeBackend { width, height });
                match self.owner {
                    LoopOwner::Engine => actions.push(LoopAction::UpdateCameraAspect { width, height }),
                    LoopOwner::Runner => {},
                }
            },
            LoopEvent::RedrawRequested => {
                actions.push(LoopAction::RenderFrame);
            },
            LoopEvent::EscapePressed => {
                match self.owner {
                    LoopOwner::Engine => actions.push(LoopAction::CleanupBackend),
                    LoopOwner::Runner => {},
                }
                actions.push(LoopAction::Exit);
            },
            LoopEvent::LeftMousePressed => {
                let engine = match self.owner {
                    LoopOwner::Engine => true,
                    LoopOwner::Runner => false,
                };
                if engine && !self.headless && !self.mouse_captured {
                    self.mouse_captured = true;
                    actions.push(LoopAction::CaptureMouse);
                }
            },
        }
        proof {
            let expected = old(self).spec_actions(event);
            assert(actions@ =~= expected);
            if old(self).mouse_captured == self.mouse_captured {
                assert(!expected.contains(LoopAction::CaptureMouse) || old(self).mouse_captured) by {
                    if expected.contains(LoopAction::CaptureMouse) && !old(self).mouse_captured {
                        let i = choose|i: int| 0 <= i < expected.len() && expected[i] == LoopAction::CaptureMouse;
                        assert(expected[i] == LoopAction::CaptureMouse);
                    }
                }
            } else {
                assert(expected[0] == LoopAction::CaptureMouse);
            }
        }
        actions
    }

    /// Whether the frame limit is reached after `count` frames.
    pub open spec fn limit_reached(self, count: int) -> bool {
        match self.max_frames {
            Some(m) => count >= m,
            None => false,
        }
    }

    /// What the application does once a frame was rendered, or failed to render.
    pub open spec fn spec_after_frame(self, rendered: bool) -> Seq<LoopAction> {
        if !rendered {
            Seq::empty()
        } else if self.limit_reached(self.frame_count + 1) {
            match self.owner {
                LoopOwner::Engine => screenshot_actions(self.screenshot) + seq![LoopAction::CleanupBackend, LoopAction::Exit],
                LoopOwner::Runner => seq![LoopAction::Exit],
            }
        } else {
            seq![LoopAction::RequestRedraw]
        }
    }

    /// Count a rendered frame and stop at the frame limit, or ask for the next
    /// frame; a frame that failed to render is not counted and asks for nothing
    pub fn after_frame(&mut self, rendered: bool) -> (actions: Vec<LoopAction>)
        requires
            old(self).frame_count < u64::MAX,
        ensures
            actions@ == old(self).spec_after_frame(rendered),
            *final(self) == (WindowLoop {
                frame_count: if rendered { (old(self).frame_count + 1) as u64 } else { old(self).frame_count },
                ..*old(self)
            }),
    {
        let mut actions: Vec<LoopAction> = Vec::new();
        if !rendered {
            return actions;
        }
        self.frame_count = self.frame_count + 1;
        let reached = match self.max_frames {
            Some(m) => self.frame_count >= m,
            None => false,
        };
        if reached {
            match self.owner {
                LoopOwner::Engine => {
                    if self.screenshot {
                        actions.push(LoopAction::CaptureScreenshot);
                    }
                    actions.push(LoopAction::CleanupBackend);
                    actions.push(LoopAction::Exit);
                },
                LoopOwner::Runner => {
                    actions.push(LoopAction::Exit);
                },
            }
        } else {
            actions.push(LoopAction::RequestRedraw);
        }
        assert(actions@ =~= old(self).spec_after_frame(rendered));
        actions
    }
}

/// When a headless run of the engine captures screenshots
#[derive(Debug, Clone, Copy, PartialEq, Eq, Structural)]
pub struct HeadlessSchedule {
    /// Frames to render
    pub max_frames: u64,
    /// Capture every this many frames, when positive and a screenshot path is given
    pub interval: u64,
    /// Whether a screenshot path was given
    pub screenshot: bool,
}

/// Frames a headless run renders when no limit is given
pub const DEFAULT_HEADLESS_FRAMES: u64 = 10;

impl HeadlessSchedule {
    /// The schedule of a run: the frame limit (ten frames when none is
    /// given), the capture interval and whether a screenshot path was given
    pub fn new(max_frames: Option<u64>, interval: u64, screenshot: bool) -> (s: Self)
        ensures
            s.max_frames == match max_frames {
                Some(m) => m,
                None => DEFAULT_HEADLESS_FRAMES,
            },
            s.interval == interval,
            s.screenshot == screenshot,
    {
        let max_frames = match max_frames {
            Some(m) => m,
            None => DEFAULT_HEADLESS_FRAMES,
        };
        HeadlessSchedule { max_frames, interval, screenshot }
    }

    /// A sequence of screenshots is captured when an interval and a path are given.
    pub open spec fn spec_captures_sequence(self) -> bool {
        self.interval > 0 && self.screenshot
    }

    /// Whether the run captures a sequence of screenshots
    pub fn captures_sequence(&self) -> (b: bool)
        ensures
            b == self.spec_captures_sequence(),
    {
        self.interval > 0 && self.screenshot
    }

    /// Whether a screenshot is captured after frame `frame` (counted from 1):
    /// in a sequence, after every multiple of the interval
    pub fn captures_after(&self, frame: u64) -> (b: bool)
        ensures
            b == (self.spec_captures_sequence() && frame % self.interval == 0),
    {
        self.interval > 0 && self.screenshot && frame % self.interval == 0
    }

    /// Whether a single screenshot is captured once all frames are rendered
    pub fn captures_at_end(&self) -> (b: bool)
        ensures
            b == (!self.spec_captures_sequence() && self.screenshot),
    {
        !(self.interval > 0 && self.screenshot) && self.screenshot
    }
}

} // verus!
