//! Camera conventions: which graphics API's handedness the camera matrices follow.

use vstd::prelude::*;

verus! {

/// Graphics backend type for camera calculations: Vulkan cameras are
/// right-handed, DirectX cameras left-handed
#[derive(Debug, Clone, Copy, PartialEq, Eq, Structural)]
pub enum CameraBackend {
    Vulkan,
    DirectX,
}

impl CameraBackend {
    /// Whether the camera matrices are right-handed.
    pub open spec fn spec_right_handed(self) -> bool {
        self is Vulkan
    }

    /// Whether the camera matrices are right-handed (Vulkan) rather than left-handed (DirectX)
    pub fn right_handed(&self) -> (b: bool)
        ensures
            b == self.spec_right_handed(),
    {
        match self {
            CameraBackend::Vulkan => true,
            CameraBackend::DirectX => false,
        }
    }
}

} // verus!
