//! Backend capabilities and quirks
//!
//! Graphics APIs differ in their coordinate conventions and features; these
//! descriptions let the renderer query and handle the differences.

use vstd::prelude::*;

verus! {

/// Clip space origin convention
#[derive(Debug, Clone, Copy, PartialEq, Eq, Structural)]
pub enum ClipSpaceOrigin {
    /// Origin at top-left (Vulkan, DirectX)
    TopLeft,
    /// Origin at bottom-left (OpenGL, Metal)
    BottomLeft,
}

/// Backend-specific capabilities and conventions
#[derive(Debug, Clone, Copy)]
pub struct BackendCapabilities {
    /// Name of the backend
    pub name: &'static str,
    /// Y-axis points upward in NDC (true for OpenGL/wgpu, false for Vulkan/DirectX)
    pub y_axis_up: bool,
    /// Depth range is [0, 1] (true) or [-1, 1] (false)
    pub depth_range_zero_to_one: bool,
    /// Clip space origin (top-left or bottom-left)
    pub clip_space_origin: ClipSpaceOrigin,
    pub supports_ray_tracing: bool,
    pub supports_mesh_shaders: bool,
    pub supports_compute_shaders: bool,
}

impl BackendCapabilities {
    /// Capabilities for the Vulkan backend: Y points down, depth in [0, 1], every feature
    pub fn vulkan() -> (c: Self)
        ensures
            c.name@ == "Vulkan"@,
            !c.y_axis_up,
            c.depth_range_zero_to_one,
            c.clip_space_origin == ClipSpaceOrigin::TopLeft,
            c.supports_ray_tracing,
            c.supports_mesh_shaders,
            c.supports_compute_shaders,
    {
        BackendCapabilities {
            name: "Vulkan",
            y_axis_up: false,
            depth_range_zero_to_one: true,
            clip_space_origin: ClipSpaceOrigin::TopLeft,
            supports_ray_tracing: true,
            supports_mesh_shaders: true,
            supports_compute_shaders: true,
        }
    }

    /// Capabilities for the DirectX 12 backend: Y points down, depth in [0, 1], every feature
    pub fn directx12() -> (c: Self)
        ensures
            c.name@ == "DirectX 12"@,
            !c.y_axis_up,
            c.depth_range_zero_to_one,
            c.clip_space_origin == ClipSpaceOrigin::TopLeft,
            c.supports_ray_tracing,
            c.supports_mesh_shaders,
            c.supports_compute_shaders,
    {
        BackendCapabilities {
            name: "DirectX 12",
            y_axis_up: false,
            depth_range_zero_to_one: true,
            clip_space_origin: ClipSpaceOrigin::TopLeft,
            supports_ray_tracing: true,
            supports_mesh_shaders: true,
            supports_compute_shaders: true,
        }
    }

    /// Capabilities for the wgpu backend: Y points up, depth in [0, 1], compute shaders only
    pub fn wgpu() -> (c: Self)
        ensures
            c.name@ == "wgpu"@,
            c.y_axis_up,
            c.depth_range_zero_to_one,
            c.clip_space_origin == ClipSpaceOrigin::TopLeft,
            !c.supports_ray_tracing,
            !c.supports_mesh_shaders,
            c.supports_compute_shaders,
    {
        BackendCapabilities {
            name: "wgpu",
            y_axis_up: true,
            depth_range_zero_to_one: true,
            clip_space_origin: ClipSpaceOrigin::TopLeft,
            supports_ray_tracing: false,
            supports_mesh_shaders: false,
            supports_compute_shaders: true,
        }
    }

    /// Whether Y must be flipped relative to the canonical Y-up convention:
    /// exactly when the backend's Y axis points down
    pub fn needs_y_flip(&self) -> (b: bool)
        ensures
            b == !self.y_axis_up,
    {
        !self.y_axis_up
    }
}

} // verus!
