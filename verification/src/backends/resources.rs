//! GPU resource descriptions (buffers, textures, samplers) shared by all
//! backends, and the interfaces a backend's resources offer.

use vstd::prelude::*;
use crate::backends::BackendError;

verus! {

/// Buffer usage flags
#[derive(Debug, Clone, Copy, PartialEq, Eq, Hash, Structural)]
pub struct BufferUsage {
    /// Can be used as a vertex buffer
    pub vertex: bool,
    /// Can be used as an index buffer
    pub index: bool,
    /// Can be used as a uniform buffer
    pub uniform: bool,
    /// Can be used as a staging buffer for CPU->GPU transfers
    pub staging: bool,
    /// Can be used as a storage buffer
    pub storage: bool,
    /// Can be used as a transfer source
    pub transfer_src: bool,
    /// Can be used as a transfer destination
    pub transfer_dst: bool,
}

impl BufferUsage {
    /// Vertex buffer usage: a vertex buffer that data is copied into
    pub fn vertex() -> (u: Self)
        ensures
            u == (BufferUsage {
                vertex: true,
                index: false,
                uniform: false,
                staging: false,
                storage: false,
                transfer_src: false,
                transfer_dst: true,
            }),
    {
        BufferUsage {
            vertex: true,
            index: false,
            uniform: false,
            staging: false,
            storage: false,
            transfer_src: false,
            transfer_dst: true,
        }
    }

    /// Index buffer usage: an index buffer that data is copied into
    pub fn index() -> (u: Self)
        ensures
            u == (BufferUsage {
                vertex: false,
                index: true,
                uniform: false,
                staging: false,
                storage: false,
                transfer_src: false,
                transfer_dst: true,
            }),
    {
        BufferUsage {
            vertex: false,
            index: true,
            uniform: false,
            staging: false,
            storage: false,
            transfer_src: false,
            transfer_dst: true,
        }
    }

    /// Uniform buffer usage: a uniform buffer that data is copied into
    pub fn uniform() -> (u: Self)
        ensures
            u == (BufferUsage {
                vertex: false,
                index: false,
                uniform: true,
                staging: false,
                storage: false,
                transfer_src: false,
                transfer_dst: true,
            }),
    {
        BufferUsage {
            vertex: false,
            index: false,
            uniform: true,
            staging: false,
            storage: false,
            transfer_src: false,
            transfer_dst: true,
        }
    }

    /// Staging buffer usage: CPU-accessible, copied from
    pub fn staging() -> (u: Self)
        ensures
            u == (BufferUsage {
                vertex: false,
                index: false,
                uniform: false,
                staging: true,
                storage: false,
                transfer_src: true,
                transfer_dst: false,
            }),
    {
        BufferUsage {
            vertex: false,
            index: false,
            uniform: false,
            staging: true,
            storage: false,
            transfer_src: true,
            transfer_dst: false,
        }
    }
}

/// Memory location preference
#[derive(Debug, Clone, Copy, PartialEq, Eq, Hash, Structural)]
pub enum MemoryLocation {
    /// GPU-only memory (fast, not CPU-accessible)
    GpuOnly,
    /// CPU-visible memory (slower, CPU-accessible)
    CpuToGpu,
    /// GPU-readable, CPU-writable (for dynamic updates)
    GpuToCpu,
}

/// Buffer descriptor for creation
#[derive(Debug, Clone)]
pub struct BufferDescriptor {
    /// Size in bytes
    pub size: u64,
    pub usage: BufferUsage,
    pub memory_location: MemoryLocation,
    /// Debug label
    pub label: Option<String>,
}

/// A GPU memory buffer of a backend
pub trait Buffer {
    /// Get the buffer size in bytes
    fn size(&self) -> u64;

    /// Get the buffer usage flags
    fn usage(&self) -> BufferUsage;

    /// Get the memory location
    fn memory_location(&self) -> MemoryLocation;

    /// Map the buffer for CPU access; only buffers in CPU-accessible memory
    /// can be mapped, and the slice is valid until `unmap`
    fn map(&mut self) -> Result<&mut [u8], BackendError>;

    /// Unmap the buffer after CPU access
    fn unmap(&mut self);
}

/// Texture format
#[derive(Debug, Clone, Copy, PartialEq, Eq, Hash, Structural)]
pub enum TextureFormat {
    /// 8-bit RGBA (sRGB color space)
    Rgba8Srgb,
    /// 8-bit RGBA (linear color space)
    Rgba8Unorm,
    /// 8-bit BGRA (sRGB color space)
    Bgra8Srgb,
    /// 8-bit BGRA (linear color space)
    Bgra8Unorm,
    /// 32-bit depth
    Depth32Float,
    /// 24-bit depth + 8-bit stencil
    Depth24PlusStencil8,
}

impl TextureFormat {
    /// Whether the format holds depth.
    pub open spec fn spec_is_depth(self) -> bool {
        self is Depth32Float || self is Depth24PlusStencil8
    }

    /// Get the number of bytes per pixel: every format takes four
    pub fn bytes_per_pixel(&self) -> (n: u32)
        ensures
            n == 4,
    {
        match self {
            TextureFormat::Rgba8Srgb
            | TextureFormat::Rgba8Unorm
            | TextureFormat::Bgra8Srgb
            | TextureFormat::Bgra8Unorm
            | TextureFormat::Depth24PlusStencil8 => 4,
            TextureFormat::Depth32Float => 4,
        }
    }

    /// Check if format is a depth format
    pub fn is_depth(&self) -> (b: bool)
        ensures
            b == self.spec_is_depth(),
    {
        match self {
            TextureFormat::Depth32Float | TextureFormat::Depth24PlusStencil8 => true,
            _ => false,
        }
    }
}

/// Texture usage flags
#[derive(Debug, Clone, Copy, PartialEq, Eq, Hash, Structural)]
pub struct TextureUsage {
    /// Can be sampled in shaders
    pub sampled: bool,
    /// Can be used as a render target
    pub render_target: bool,
    /// Can be used as a depth/stencil target
    pub depth_stencil: bool,
    /// Can be used as a transfer source
    pub transfer_src: bool,
    /// Can be used as a transfer destination
    pub transfer_dst: bool,
}

impl TextureUsage {
    /// Usage of a texture sampled in shaders, filled by a copy
    pub fn sampled() -> (u: Self)
        ensures
            u == (TextureUsage {
                sampled: true,
                render_target: false,
                depth_stencil: false,
                transfer_src: false,
                transfer_dst: true,
            }),
    {
        TextureUsage {
            sampled: true,
            render_target: false,
            depth_stencil: false,
            transfer_src: false,
            transfer_dst: true,
        }
    }

    /// Usage of a render target that can be copied from
    pub fn render_target() -> (u: Self)
        ensures
            u == (TextureUsage {
                sampled: false,
                render_target: true,
                depth_stencil: false,
                transfer_src: true,
                transfer_dst: false,
            }),
    {
        TextureUsage {
            sampled: false,
            render_target: true,
            depth_stencil: false,
            transfer_src: true,
            transfer_dst: false,
        }
    }

    /// Usage of a depth/stencil target
    pub fn depth_stencil() -> (u: Self)
        ensures
            u == (TextureUsage {
                sampled: false,
                render_target: false,
                depth_stencil: true,
                transfer_src: false,
                transfer_dst: false,
            }),
    {
        TextureUsage {
            sampled: false,
            render_target: false,
            depth_stencil: true,
            transfer_src: false,
            transfer_dst: false,
        }
    }
}

/// Texture descriptor for creation
#[derive(Debug, Clone)]
pub struct TextureDescriptor<'a> {
    /// Width in pixels
    pub width: u32,
    /// Height in pixels
    pub height: u32,
    pub format: TextureFormat,
    pub usage: TextureUsage,
    /// Number of mip levels (1 = no mipmaps)
    pub mip_levels: u32,
    /// Optional initial data to upload (RGBA8 format, must match dimensions)
    pub initial_data: Option<&'a [u8]>,
    /// Debug label
    pub label: Option<String>,
}

/// A GPU texture of a backend
pub trait Texture {
    /// Get the texture width
    fn width(&self) -> u32;

    /// Get the texture height
    fn height(&self) -> u32;

    /// Get the texture format
    fn format(&self) -> TextureFormat;

    /// Get the texture usage
    fn usage(&self) -> TextureUsage;

    /// Get the number of mip levels
    fn mip_levels(&self) -> u32;
}

/// Sampler filter mode
#[derive(Debug, Clone, Copy, PartialEq, Eq, Hash, Structural)]
pub enum FilterMode {
    /// Nearest neighbor filtering
    Nearest,
    /// Linear filtering
    Linear,
}

/// Sampler address mode (texture wrap behavior)
#[derive(Debug, Clone, Copy, PartialEq, Eq, Hash, Structural)]
pub enum AddressMode {
    /// Clamp to edge
    ClampToEdge,
    /// Repeat (wrap)
    Repeat,
    /// Mirror repeat
    MirrorRepeat,
}

/// Sampler descriptor for creation
#[derive(Debug, Clone)]
pub struct SamplerDescriptor {
    /// Magnification filter
    pub mag_filter: FilterMode,
    /// Minification filter
    pub min_filter: FilterMode,
    /// Mipmap filter
    pub mipmap_filter: FilterMode,
    /// Address mode for U coordinate
    pub address_mode_u: AddressMode,
    /// Address mode for V coordinate
    pub address_mode_v: AddressMode,
    /// Address mode for W coordinate
    pub address_mode_w: AddressMode,
    /// Debug label
    pub label: Option<String>,
}

impl Default for SamplerDescriptor {
    /// Linear filtering everywhere, clamped to the edge in every direction, no label
    fn default() -> (d: Self)
        ensures
            d.mag_filter == FilterMode::Linear,
            d.min_filter == FilterMode::Linear,
            d.mipmap_filter == FilterMode::Linear,
            d.address_mode_u == AddressMode::ClampToEdge,
            d.address_mode_v == AddressMode::ClampToEdge,
            d.address_mode_w == AddressMode::ClampToEdge,
            d.label is None,
    {
        SamplerDescriptor {
            mag_filter: FilterMode::Linear,
            min_filter: FilterMode::Linear,
            mipmap_filter: FilterMode::Linear,
            address_mode_u: AddressMode::ClampToEdge,
            address_mode_v: AddressMode::ClampToEdge,
            address_mode_w: AddressMode::ClampToEdge,
            label: None,
        }
    }
}

/// A texture sampler of a backend
pub trait Sampler {}

} // verus!
