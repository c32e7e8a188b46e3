//! Graphics backend abstraction layer: backend-agnostic resource and binding
//! descriptions, backend capabilities, the backend selection, the interfaces
//! a backend's device, pipelines, resources and swapchain offer, and the
//! decisions each backend takes before it calls its graphics API.

use vstd::prelude::*;

pub mod binding;
pub mod capabilities;
pub mod directx;
pub mod frame_sync;
pub mod readback;
pub mod resources;
pub mod vertex;
pub mod vulkan;
pub mod wgpu_backend;

pub use binding::{
    BindGroup, BindGroupLayout, BindGroupLayoutBuilder, BoundResource, BufferHandle,
    SamplerHandle, ShaderBinding, ShaderStage, TextureDimension, TextureHandle,
};
pub use capabilities::{BackendCapabilities, ClipSpaceOrigin};
pub use resources::{
    AddressMode, Buffer, BufferDescriptor, BufferUsage, FilterMode, MemoryLocation, Sampler,
    SamplerDescriptor, Texture, TextureDescriptor, TextureFormat, TextureUsage,
};
pub use vertex::{VertexAttribute, VertexBufferLayout, VertexFormat, VertexInputRate};

verus! {

/// Supported graphics backend types
#[derive(Debug, Clone, Copy, PartialEq, Eq, Hash, Structural)]
pub enum BackendType {
    /// Vulkan backend (primary, Linux focus)
    Vulkan,
    /// DirectX 12 backend (Windows, Proton testing)
    DirectX12,
    /// wgpu backend (portability layer)
    Wgpu,
}

impl BackendType {
    /// The name of the backend.
    pub open spec fn name(self) -> Seq<char> {
        match self {
            BackendType::Vulkan => "vulkan"@,
            BackendType::DirectX12 => "directx12"@,
            BackendType::Wgpu => "wgpu"@,
        }
    }

    /// Get the backend name as a string
    pub fn as_str(&self) -> (s: &'static str)
        ensures
            s@ == self.name(),
    {
        match self {
            BackendType::Vulkan => "vulkan",
            BackendType::DirectX12 => "directx12",
            BackendType::Wgpu => "wgpu",
        }
    }

    /// The backend name as an owned string (what the backend is displayed as)
    pub fn to_string(&self) -> (s: String)
        ensures
            s@ == self.name(),
    {
        self.as_str().to_owned()
    }
}

/// Two backends have the same name only if they are the same backend.
pub proof fn lemma_backend_names_distinct(a: BackendType, b: BackendType)
    ensures
        a.name() == b.name() <==> a == b,
{
    reveal_strlit("vulkan");
    reveal_strlit("directx12");
    reveal_strlit("wgpu");
    assert("vulkan"@.len() == 6);
    assert("directx12"@.len() == 9);
    assert("wgpu"@.len() == 4);
}

/// Error reported by a backend operation
#[derive(Debug, Clone)]
pub struct BackendError {
    pub message: String,
}

/// The state a swapchain reports: its size in pixels and the index of the current frame
pub struct SwapchainView {
    pub width: u32,
    pub height: u32,
    pub current_frame: usize,
}

/// GPU device information and capabilities
pub trait Device {
    /// Get the device name/description
    fn name(&self) -> &str;

    /// Check if a feature is supported; feature names are backend-specific
    fn supports_feature(&self, feature: &str) -> bool;
}

/// A complete graphics pipeline state (shaders, render state)
pub trait Pipeline {
    /// Get the pipeline name/identifier
    fn name(&self) -> &str;
}

/// A GPU resource such as a buffer or a texture
pub trait Resource {
    /// Get the resource size in bytes
    fn size(&self) -> usize;

    /// Get a description of the resource type
    fn resource_type(&self) -> &str;
}

/// Presentation surface: image acquisition and presentation
pub trait Swapchain {
    /// Get the current swapchain width in pixels
    fn width(&self) -> u32;

    /// Get the current swapchain height in pixels
    fn height(&self) -> u32;

    /// Get the current frame index
    fn current_frame(&self) -> usize;

    /// Acquire the next image for rendering
    fn acquire_next_image(&mut self) -> Result<(), BackendError>;

    /// Present the rendered image
    fn present(&mut self) -> Result<(), BackendError>;

    /// Recreate the swapchain for a new size
    fn recreate(&mut self, width: u32, height: u32) -> Result<(), BackendError>;
}

} // verus!
