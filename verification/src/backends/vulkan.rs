//! The Vulkan backend's decisions, taken on the values the Vulkan driver
//! reports: which memory type a resource lives in, which usage and aspect
//! bits a buffer or image gets, which surface format, present mode and extent
//! the swapchain takes, which queue families are used, the format code of a
//! texture, and how SPIR-V bytes become words. Also the placeholder device, pipeline, resource and
//! swapchain the backend reports.

use vstd::prelude::*;
use crate::backends::binding::{BindGroup, BindGroupLayout, BoundResource, ShaderBinding, ShaderStage};
use crate::backends::resources::{BufferUsage, MemoryLocation, TextureFormat, TextureUsage};
use crate::backends::{BackendError, Device, Pipeline, Resource, Swapchain, SwapchainView};
use crate::words::{encodes_words, le_word, word_at, word_values};

verus! {

/// Memory property bit: memory local to the device
pub const MEMORY_DEVICE_LOCAL: u32 = 0x1;
/// Memory property bit: memory the host can map
pub const MEMORY_HOST_VISIBLE: u32 = 0x2;
/// Memory property bit: host writes need no flush
pub const MEMORY_HOST_COHERENT: u32 = 0x4;
/// Memory property bit: host reads are cached
pub const MEMORY_HOST_CACHED: u32 = 0x8;

/// Buffer usage bits of Vulkan
pub const BUFFER_TRANSFER_SRC: u32 = 0x1;
pub const BUFFER_TRANSFER_DST: u32 = 0x2;
pub const BUFFER_UNIFORM: u32 = 0x10;
pub const BUFFER_STORAGE: u32 = 0x20;
pub const BUFFER_INDEX: u32 = 0x40;
pub const BUFFER_VERTEX: u32 = 0x80;

/// Image usage bits of Vulkan
pub const IMAGE_TRANSFER_SRC: u32 = 0x1;
pub const IMAGE_TRANSFER_DST: u32 = 0x2;
pub const IMAGE_SAMPLED: u32 = 0x4;
pub const IMAGE_COLOR_ATTACHMENT: u32 = 0x10;
pub const IMAGE_DEPTH_STENCIL_ATTACHMENT: u32 = 0x20;

/// Surface format code of 8-bit BGRA in the sRGB color space
pub const FORMAT_B8G8R8A8_SRGB: u32 = 50;
/// Color space code of non-linear sRGB
pub const COLOR_SPACE_SRGB_NONLINEAR: u32 = 0;

/// The memory properties a location asks for.
pub open spec fn spec_required_memory_flags(location: MemoryLocation) -> u32 {
    match location {
        MemoryLocation::GpuOnly => MEMORY_DEVICE_LOCAL,
        MemoryLocation::CpuToGpu => MEMORY_HOST_VISIBLE | MEMORY_HOST_COHERENT,
        MemoryLocation::GpuToCpu => MEMORY_HOST_VISIBLE | MEMORY_HOST_CACHED,
    }
}

/// The properties asked for when no cached host-visible memory fits.
pub open spec fn fallback_memory_flags() -> u32 {
    MEMORY_HOST_VISIBLE | MEMORY_HOST_COHERENT
}

/// Memory type `i` is allowed by the filter and has every required property.
pub open spec fn memory_type_fits(type_filter: u32, types: Seq<u32>, required: u32, i: int) -> bool {
    &&& 0 <= i < types.len()
    &&& type_filter & (1u32 << (i as u32)) != 0
    &&& types[i] & required == required
}

/// `i` is the first memory type that fits.
pub open spec fn first_fitting(type_filter: u32, types: Seq<u32>, required: u32, i: int) -> bool {
    &&& memory_type_fits(type_filter, types, required, i)
    &&& forall|j: int| 0 <= j < i ==> !#[trigger] memory_type_fits(type_filter, types, required, j)
}

/// No memory type fits.
pub open spec fn none_fitting(type_filter: u32, types: Seq<u32>, required: u32) -> bool {
    forall|j: int| 0 <= j < types.len() ==> !#[trigger] memory_type_fits(type_filter, types, required, j)
}

/// The memory properties a resource at `location` needs: device-local
/// memory for GPU-only resources; memory the CPU sees and whose writes the
/// GPU sees without a flush (host-visible and host-coherent) for CPU-to-GPU
/// uploads; host-visible memory that is cached, or else coherent, for
/// GPU-to-CPU readbacks.
pub open spec fn has_location_properties(props: u32, location: MemoryLocation) -> bool {
    match location {
        MemoryLocation::GpuOnly => props & MEMORY_DEVICE_LOCAL != 0,
        MemoryLocation::CpuToGpu => props & MEMORY_HOST_VISIBLE != 0 && props & MEMORY_HOST_COHERENT != 0,
        MemoryLocation::GpuToCpu => props & MEMORY_HOST_VISIBLE != 0
            && (props & MEMORY_HOST_CACHED != 0 || props & MEMORY_HOST_COHERENT != 0),
    }
}

/// A memory type with every property a location asks for, or with the
/// fallback properties of a GPU-to-CPU readback, has the properties a
/// resource at that location needs.
pub proof fn lemma_required_flags_give_location_properties(props: u32, location: MemoryLocation)
    requires
        props & spec_required_memory_flags(location) == spec_required_memory_flags(location)
            || (location is GpuToCpu && props & fallback_memory_flags() == fallback_memory_flags()),
    ensures
        has_location_properties(props, location),
{
    assert(MEMORY_HOST_VISIBLE | MEMORY_HOST_COHERENT == 6u32) by (bit_vector);
    assert(MEMORY_HOST_VISIBLE | MEMORY_HOST_CACHED == 10u32) by (bit_vector);
    assert(props & 6u32 == 6u32 ==> props & 2u32 != 0 && props & 4u32 != 0) by (bit_vector);
    assert(props & 10u32 == 10u32 ==> props & 2u32 != 0 && props & 8u32 != 0) by (bit_vector);
    assert(props & 1u32 == 1u32 ==> props & 1u32 != 0) by (bit_vector);
}

/// The memory properties a location asks for
pub fn required_memory_flags(location: MemoryLocation) -> (f: u32)
    ensures
        f == spec_required_memory_flags(location),
{
    match location {
        MemoryLocation::GpuOnly => MEMORY_DEVICE_LOCAL,
        MemoryLocation::CpuToGpu => MEMORY_HOST_VISIBLE | MEMORY_HOST_COHERENT,
        MemoryLocation::GpuToCpu => MEMORY_HOST_VISIBLE | MEMORY_HOST_CACHED,
    }
}

/// The first memory type allowed by `type_filter` with the `required` properties
fn first_memory_type(type_filter: u32, types: &[u32], required: u32) -> (r: Option<u32>)
    requires
        types@.len() <= 32,
    ensures
        match r {
            Some(i) => first_fitting(type_filter, types@, required, i as int),
            None => none_fitting(type_filter, types@, required),
        },
{
    let mut i: usize = 0;
    while i < types.len()
        invariant
            i <= types@.len() <= 32,
            forall|j: int| 0 <= j < i ==> !#[trigger] memory_type_fits(type_filter, types@, required, j),
        decreases types@.len() - i,
    {
        let bit: u32 = 1u32 << (i as u32);
        if type_filter & bit != 0 && types[i] & required == required {
            return Some(i as u32);
        }
        i += 1;
    }
    None
}

/// Find the memory type a resource at `location` lives in: the first type
/// allowed by `type_filter` that has the properties the location asks for;
/// for GPU-to-CPU memory, failing that, the first allowed host-visible
/// coherent type. `types` holds the property bits of each memory type.
pub fn find_memory_type(type_filter: u32, types: &[u32], location: MemoryLocation) -> (r: Option<u32>)
    requires
        types@.len() <= 32,
    ensures
        match r {
            Some(i) => first_fitting(type_filter, types@, spec_required_memory_flags(location), i as int)
                || (location is GpuToCpu
                    && none_fitting(type_filter, types@, spec_required_memory_flags(location))
                    && first_fitting(type_filter, types@, fallback_memory_flags(), i as int)),
            None => none_fitting(type_filter, types@, spec_required_memory_flags(location))
                && (location is GpuToCpu ==> none_fitting(type_filter, types@, fallback_memory_flags())),
        },
        r matches Some(i) ==> has_location_properties(types@[i as int], location),
{
    let required = required_memory_flags(location);
    let found = first_memory_type(type_filter, types, required);
    if let Some(i) = found {
        proof {
            lemma_required_flags_give_location_properties(types@[i as int], location);
        }
        return found;
    }
    match location {
        MemoryLocation::GpuToCpu => {
            let fallback = first_memory_type(type_filter, types, MEMORY_HOST_VISIBLE | MEMORY_HOST_COHERENT);
            if let Some(i) = fallback {
                proof {
                    lemma_required_flags_give_location_properties(types@[i as int], location);
                }
            }
            fallback
        },
        _ => None,
    }
}

/// The Vulkan usage bits of a buffer: one bit per usage it allows.
pub open spec fn spec_buffer_usage_bits(usage: BufferUsage) -> u32 {
    (if usage.vertex { BUFFER_VERTEX } else { 0 })
        | (if usage.index { BUFFER_INDEX } else { 0 })
        | (if usage.uniform { BUFFER_UNIFORM } else { 0 })
        | (if usage.storage { BUFFER_STORAGE } else { 0 })
        | (if usage.transfer_src { BUFFER_TRANSFER_SRC } else { 0 })
        | (if usage.transfer_dst { BUFFER_TRANSFER_DST } else { 0 })
}

/// The Vulkan usage bits a buffer is created with
pub fn buffer_usage_bits(usage: BufferUsage) -> (bits: u32)
    ensures
        bits == spec_buffer_usage_bits(usage),
{
    let v: u32 = if usage.vertex { BUFFER_VERTEX } else { 0 };
    let i: u32 = if usage.index { BUFFER_INDEX } else { 0 };
    let u: u32 = if usage.uniform { BUFFER_UNIFORM } else { 0 };
    let s: u32 = if usage.storage { BUFFER_STORAGE } else { 0 };
    let src: u32 = if usage.transfer_src { BUFFER_TRANSFER_SRC } else { 0 };
    let dst: u32 = if usage.transfer_dst { BUFFER_TRANSFER_DST } else { 0 };
    v | i | u | s | src | dst
}

/// The Vulkan usage bits of an image: one bit per usage it allows.
pub open spec fn spec_image_usage_bits(usage: TextureUsage) -> u32 {
    (if usage.sampled { IMAGE_SAMPLED } else { 0 })
        | (if usage.render_target { IMAGE_COLOR_ATTACHMENT } else { 0 })
        | (if usage.depth_stencil { IMAGE_DEPTH_STENCIL_ATTACHMENT } else { 0 })
        | (if usage.transfer_src { IMAGE_TRANSFER_SRC } else { 0 })
        | (if usage.transfer_dst { IMAGE_TRANSFER_DST } else { 0 })
}

/// The Vulkan usage bits an image is created with
pub fn image_usage_bits(usage: TextureUsage) -> (bits: u32)
    ensures
        bits == spec_image_usage_bits(usage),
{
    let s: u32 = if usage.sampled { IMAGE_SAMPLED } else { 0 };
    let c: u32 = if usage.render_target { IMAGE_COLOR_ATTACHMENT } else { 0 };
    let d: u32 = if usage.depth_stencil { IMAGE_DEPTH_STENCIL_ATTACHMENT } else { 0 };
    let src: u32 = if usage.transfer_src { IMAGE_TRANSFER_SRC } else { 0 };
    let dst: u32 = if usage.transfer_dst { IMAGE_TRANSFER_DST } else { 0 };
    s | c | d | src | dst
}

/// Usage bits of each kind of use lie apart, so every usage flag can be read back from the bits.
pub proof fn lemma_usage_bits_readable(buffer: BufferUsage, image: TextureUsage)
    ensures
        (spec_buffer_usage_bits(buffer) & BUFFER_VERTEX != 0) == buffer.vertex,
        (spec_buffer_usage_bits(buffer) & BUFFER_INDEX != 0) == buffer.index,
        (spec_buffer_usage_bits(buffer) & BUFFER_UNIFORM != 0) == buffer.uniform,
        (spec_buffer_usage_bits(buffer) & BUFFER_STORAGE != 0) == buffer.storage,
        (spec_buffer_usage_bits(buffer) & BUFFER_TRANSFER_SRC != 0) == buffer.transfer_src,
        (spec_buffer_usage_bits(buffer) & BUFFER_TRANSFER_DST != 0) == buffer.transfer_dst,
        (spec_image_usage_bits(image) & IMAGE_SAMPLED != 0) == image.sampled,
        (spec_image_usage_bits(image) & IMAGE_COLOR_ATTACHMENT != 0) == image.render_target,
        (spec_image_usage_bits(image) & IMAGE_DEPTH_STENCIL_ATTACHMENT != 0) == image.depth_stencil,
        (spec_image_usage_bits(image) & IMAGE_TRANSFER_SRC != 0) == image.transfer_src,
        (spec_image_usage_bits(image) & IMAGE_TRANSFER_DST != 0) == image.transfer_dst,
{
    let (v, i, u, s, a, b) = (buffer.vertex, buffer.index, buffer.uniform, buffer.storage, buffer.transfer_src, buffer.transfer_dst);
    assert({
        let x: u32 = (if v { 0x80u32 } else { 0u32 }) | (if i { 0x40u32 } else { 0u32 }) | (if u { 0x10u32 } else { 0u32 })
            | (if s { 0x20u32 } else { 0u32 }) | (if a { 0x1u32 } else { 0u32 }) | (if b { 0x2u32 } else { 0u32 });
        &&& (x & 0x80 != 0) == v
        &&& (x & 0x40 != 0) == i
        &&& (x & 0x10 != 0) == u
        &&& (x & 0x20 != 0) == s
        &&& (x & 0x1 != 0) == a
        &&& (x & 0x2 != 0) == b
    }) by (bit_vector);
    let (p, c, d, e, f) = (image.sampled, image.render_target, image.depth_stencil, image.transfer_src, image.transfer_dst);
    assert({
        let x: u32 = (if p { 0x4u32 } else { 0u32 }) | (if c { 0x10u32 } else { 0u32 }) | (if d { 0x20u32 } else { 0u32 })
            | (if e { 0x1u32 } else { 0u32 }) | (if f { 0x2u32 } else { 0u32 });
        &&& (x & 0x4 != 0) == p
        &&& (x & 0x10 != 0) == c
        &&& (x & 0x20 != 0) == d
        &&& (x & 0x1 != 0) == e
        &&& (x & 0x2 != 0) == f
    }) by (bit_vector);
}

/// Shader stage bits of Vulkan
pub const STAGE_VERTEX: u32 = 0x1;
pub const STAGE_FRAGMENT: u32 = 0x10;
pub const STAGE_COMPUTE: u32 = 0x20;

/// The Vulkan stage bits of a binding's stages: one bit per stage it holds.
pub open spec fn spec_stage_bits(stage: ShaderStage) -> u32 {
    (if stage.0 & ShaderStage::VERTEX == ShaderStage::VERTEX { STAGE_VERTEX } else { 0 })
        | (if stage.0 & ShaderStage::FRAGMENT == ShaderStage::FRAGMENT { STAGE_FRAGMENT } else { 0 })
        | (if stage.0 & ShaderStage::COMPUTE == ShaderStage::COMPUTE { STAGE_COMPUTE } else { 0 })
}

/// Convert a binding's stages to Vulkan shader stage bits
pub fn shader_stage_to_vk(stage: ShaderStage) -> (bits: u32)
    ensures
        bits == spec_stage_bits(stage),
{
    let v: u32 = if stage.contains(ShaderStage::VERTEX) { STAGE_VERTEX } else { 0 };
    let f: u32 = if stage.contains(ShaderStage::FRAGMENT) { STAGE_FRAGMENT } else { 0 };
    let c: u32 = if stage.contains(ShaderStage::COMPUTE) { STAGE_COMPUTE } else { 0 };
    v | f | c
}

/// Kind of a Vulkan descriptor
#[derive(Debug, Clone, Copy, PartialEq, Eq, Structural)]
pub enum DescriptorType {
    UniformBuffer,
    StorageBuffer,
    SampledImage,
    Sampler,
}

/// One binding of a descriptor set layout: a single descriptor visible to the given stages
#[derive(Debug, Clone, Copy, PartialEq, Eq, Structural)]
pub struct DescriptorLayoutBinding {
    pub binding: u32,
    pub descriptor_type: DescriptorType,
    pub descriptor_count: u32,
    pub stage_bits: u32,
}

/// The descriptor kind of a shader binding; read-only and writable storage
/// buffers are both storage buffers.
pub open spec fn descriptor_type_of(b: ShaderBinding) -> DescriptorType {
    match b {
        ShaderBinding::UniformBuffer { .. } => DescriptorType::UniformBuffer,
        ShaderBinding::StorageBuffer { .. } => DescriptorType::StorageBuffer,
        ShaderBinding::Texture { .. } => DescriptorType::SampledImage,
        ShaderBinding::Sampler { .. } => DescriptorType::Sampler,
    }
}

/// The layout binding of a shader binding.
pub open spec fn layout_binding_of(b: ShaderBinding) -> DescriptorLayoutBinding {
    DescriptorLayoutBinding {
        binding: b.index_of(),
        descriptor_type: descriptor_type_of(b),
        descriptor_count: 1,
        stage_bits: spec_stage_bits(b.stage_of()),
    }
}

/// The bindings of the descriptor set layout of a bind group layout, one per binding, in order
pub fn descriptor_set_layout_bindings(layout: &BindGroupLayout) -> (r: Vec<DescriptorLayoutBinding>)
    ensures
        r@.len() == layout@.len(),
        forall|i: int| 0 <= i < r@.len() ==> #[trigger] r@[i] == layout_binding_of(layout@[i]),
{
    let bindings = layout.bindings();
    let mut out: Vec<DescriptorLayoutBinding> = Vec::new();
    let mut i: usize = 0;
    while i < bindings.len()
        invariant
            i <= bindings@.len(),
            bindings@ == layout@,
            out@.len() == i,
            forall|j: int| 0 <= j < i ==> #[trigger] out@[j] == layout_binding_of(layout@[j]),
        decreases bindings@.len() - i,
    {
        let b = bindings[i];
        let descriptor_type = match b {
            ShaderBinding::UniformBuffer { .. } => DescriptorType::UniformBuffer,
            ShaderBinding::StorageBuffer { .. } => DescriptorType::StorageBuffer,
            ShaderBinding::Texture { .. } => DescriptorType::SampledImage,
            ShaderBinding::Sampler { .. } => DescriptorType::Sampler,
        };
        out.push(DescriptorLayoutBinding {
            binding: b.binding(),
            descriptor_type,
            descriptor_count: 1,
            stage_bits: shader_stage_to_vk(b.stage()),
        });
        i += 1;
    }
    out
}

/// A descriptor write for one bound buffer: the binding and the descriptor kind
#[derive(Debug, Clone, Copy, PartialEq, Eq, Structural)]
pub struct DescriptorWrite {
    pub binding: u32,
    pub descriptor_type: DescriptorType,
    pub buffer: crate::backends::binding::BufferHandle,
}

/// The write for a bound resource: buffers are written, textures and samplers are not.
pub open spec fn write_of(bound: (u32, BoundResource)) -> Option<DescriptorWrite> {
    match bound.1 {
        BoundResource::UniformBuffer(b) => Some(
            DescriptorWrite { binding: bound.0, descriptor_type: DescriptorType::UniformBuffer, buffer: b },
        ),
        BoundResource::StorageBuffer(b) => Some(
            DescriptorWrite { binding: bound.0, descriptor_type: DescriptorType::StorageBuffer, buffer: b },
        ),
        _ => None,
    }
}

/// The writes of the bound resources, in binding order.
pub open spec fn spec_descriptor_writes(s: Seq<(u32, BoundResource)>) -> Seq<DescriptorWrite>
    decreases s.len(),
{
    if s.len() == 0 {
        Seq::empty()
    } else {
        match write_of(s.last()) {
            Some(w) => spec_descriptor_writes(s.drop_last()).push(w),
            None => spec_descriptor_writes(s.drop_last()),
        }
    }
}

/// The descriptor writes that update a descriptor set with a bind group's
/// buffers, in binding order; textures and samplers are not written yet
pub fn descriptor_writes(group: &BindGroup) -> (r: Vec<DescriptorWrite>)
    ensures
        r@ == spec_descriptor_writes(group.bound()),
{
    let resources = group.resources();
    let mut out: Vec<DescriptorWrite> = Vec::new();
    let mut i: usize = 0;
    proof {
        assert(resources@.take(0) =~= Seq::<(u32, BoundResource)>::empty());
    }
    while i < resources.len()
        invariant
            i <= resources@.len(),
            resources@ == group.bound(),
            out@ == spec_descriptor_writes(resources@.take(i as int)),
        decreases resources@.len() - i,
    {
        proof {
            assert(resources@.take(i as int + 1).drop_last() =~= resources@.take(i as int));
        }
        let (binding, resource) = resources[i];
        match resource {
            BoundResource::UniformBuffer(b) => {
                out.push(DescriptorWrite { binding, descriptor_type: DescriptorType::UniformBuffer, buffer: b });
            },
            BoundResource::StorageBuffer(b) => {
                out.push(DescriptorWrite { binding, descriptor_type: DescriptorType::StorageBuffer, buffer: b });
            },
            _ => {},
        }
        i += 1;
    }
    proof {
        assert(resources@.take(resources@.len() as int) =~= resources@);
    }
    out
}

/// Descriptors of each kind, and sets, one descriptor pool holds
pub const DESCRIPTORS_PER_POOL: u32 = 100;

/// Which descriptor pool sets are allocated from: pools are created on
/// demand, and a full pool is left for a new one
#[derive(Debug, Clone, Copy, PartialEq, Eq, Structural)]
pub struct DescriptorPoolCursor {
    /// Pools created so far
    pub pool_count: usize,
    /// The pool allocations go to
    pub current: usize,
}

impl DescriptorPoolCursor {
    /// No pool yet
    pub fn new() -> (c: Self)
        ensures
            c == (DescriptorPoolCursor { pool_count: 0, current: 0 }),
    {
        DescriptorPoolCursor { pool_count: 0, current: 0 }
    }

    /// Before an allocation: whether a first pool must be created (and record it)
    pub fn needs_first_pool(&mut self) -> (create: bool)
        ensures
            create == (old(self).pool_count == 0),
            *final(self) == (if create { DescriptorPoolCursor { pool_count: 1, current: 0 } } else { *old(self) }),
    {
        if self.pool_count == 0 {
            self.pool_count = 1;
            self.current = 0;
            true
        } else {
            false
        }
    }

    /// After the current pool turned out full and a new pool was created:
    /// allocations go to the new, last pool
    pub fn pool_added_after_full(&mut self)
        requires
            old(self).pool_count < usize::MAX,
        ensures
            final(self).pool_count == old(self).pool_count + 1,
            final(self).current == old(self).pool_count,
            final(self).current < final(self).pool_count,
    {
        self.pool_count = self.pool_count + 1;
        self.current = self.pool_count - 1;
    }
}

/// Which aspect of an image a view covers
#[derive(Debug, Clone, Copy, PartialEq, Eq, Structural)]
pub enum ImageAspect {
    Color,
    Depth,
}

/// The aspect of an image's view: depth for depth formats, color otherwise
pub fn image_aspect(format: TextureFormat) -> (a: ImageAspect)
    ensures
        a == (if format.spec_is_depth() { ImageAspect::Depth } else { ImageAspect::Color }),
{
    if format.is_depth() {
        ImageAspect::Depth
    } else {
        ImageAspect::Color
    }
}

/// A presentation mode of a swapchain
#[derive(Debug, Clone, Copy, PartialEq, Eq, Structural)]
pub enum PresentMode {
    Immediate,
    Mailbox,
    Fifo,
    FifoRelaxed,
}

/// Choose the present mode: mailbox when the surface offers it, FIFO (always available) otherwise
pub fn choose_swapchain_present_mode(modes: &[PresentMode]) -> (m: PresentMode)
    ensures
        m == (if modes@.contains(PresentMode::Mailbox) { PresentMode::Mailbox } else { PresentMode::Fifo }),
{
    let mut i: usize = 0;
    while i < modes.len()
        invariant
            i <= modes@.len(),
            forall|j: int| 0 <= j < i ==> modes@[j] != PresentMode::Mailbox,
        decreases modes@.len() - i,
    {
        if modes[i] == PresentMode::Mailbox {
            return PresentMode::Mailbox;
        }
        i += 1;
    }
    PresentMode::Fifo
}

/// A surface format: a format code and a color space code
#[derive(Debug, Clone, Copy, PartialEq, Eq, Structural)]
pub struct SurfaceFormat {
    pub format: u32,
    pub color_space: u32,
}

/// The preferred surface format: 8-bit BGRA in non-linear sRGB.
pub open spec fn is_preferred_format(f: SurfaceFormat) -> bool {
    f.format == FORMAT_B8G8R8A8_SRGB && f.color_space == COLOR_SPACE_SRGB_NONLINEAR
}

/// `i` is the first preferred format offered.
pub open spec fn first_preferred(formats: Seq<SurfaceFormat>, i: int) -> bool {
    &&& 0 <= i < formats.len()
    &&& is_preferred_format(formats[i])
    &&& forall|j: int| 0 <= j < i ==> !is_preferred_format(#[trigger] formats[j])
}

/// Choose the surface format: the first preferred one offered, else the first offered
pub fn choose_swapchain_format(formats: &[SurfaceFormat]) -> (f: SurfaceFormat)
    requires
        formats@.len() > 0,
    ensures
        (exists|i: int| first_preferred(formats@, i) && f == formats@[i])
            || ((forall|j: int| 0 <= j < formats@.len() ==> !is_preferred_format(#[trigger] formats@[j]))
                && f == formats@[0]),
{
    let mut i: usize = 0;
    while i < formats.len()
        invariant
            i <= formats@.len(),
            forall|j: int| 0 <= j < i ==> !is_preferred_format(#[trigger] formats@[j]),
        decreases formats@.len() - i,
    {
        let f = formats[i];
        if f.format == FORMAT_B8G8R8A8_SRGB && f.color_space == COLOR_SPACE_SRGB_NONLINEAR {
            assert(first_preferred(formats@, i as int));
            return f;
        }
        i += 1;
    }
    formats[0]
}

/// A two-dimensional extent in pixels
#[derive(Debug, Clone, Copy, PartialEq, Eq, Structural)]
pub struct Extent2D {
    pub width: u32,
    pub height: u32,
}

/// What a surface reports of the extents a swapchain may take
#[derive(Debug, Clone, Copy, PartialEq, Eq, Structural)]
pub struct SurfaceCapabilities {
    /// The surface's extent, or a width of `u32::MAX` when the swapchain decides it
    pub current_extent: Extent2D,
    pub min_image_extent: Extent2D,
    pub max_image_extent: Extent2D,
}

/// `v` clamped into `[lo, hi]`.
pub open spec fn clamp(v: u32, lo: u32, hi: u32) -> u32 {
    if v < lo {
        lo
    } else if v > hi {
        hi
    } else {
        v
    }
}

/// The swapchain extent: the surface's own extent when it reports one,
/// otherwise the window size clamped into the allowed extents
pub fn choose_swapchain_extent(caps: SurfaceCapabilities, window_width: u32, window_height: u32) -> (e: Extent2D)
    requires
        caps.current_extent.width == u32::MAX ==> caps.min_image_extent.width <= caps.max_image_extent.width
            && caps.min_image_extent.height <= caps.max_image_extent.height,
    ensures
        caps.current_extent.width != u32::MAX ==> e == caps.current_extent,
        caps.current_extent.width == u32::MAX ==> e == (Extent2D {
            width: clamp(window_width, caps.min_image_extent.width, caps.max_image_extent.width),
            height: clamp(window_height, caps.min_image_extent.height, caps.max_image_extent.height),
        }),
        caps.current_extent.width == u32::MAX ==> caps.min_image_extent.width <= e.width <= caps.max_image_extent.width
            && caps.min_image_extent.height <= e.height <= caps.max_image_extent.height,
{
    if caps.current_extent.width != u32::MAX {
        caps.current_extent
    } else {
        Extent2D {
            width: clamp_u32(window_width, caps.min_image_extent.width, caps.max_image_extent.width),
            height: clamp_u32(window_height, caps.min_image_extent.height, caps.max_image_extent.height),
        }
    }
}

/// `v` clamped into `[lo, hi]`
fn clamp_u32(v: u32, lo: u32, hi: u32) -> (r: u32)
    requires
        lo <= hi,
    ensures
        r == clamp(v, lo, hi),
        lo <= r <= hi,
{
    if v < lo {
        lo
    } else if v > hi {
        hi
    } else {
        v
    }
}

/// What a queue family supports: graphics work, and presentation to the surface
#[derive(Debug, Clone, Copy, PartialEq, Eq, Structural)]
pub struct QueueFamilySupport {
    pub graphics: bool,
    pub present: bool,
}

/// The queue families a device uses for graphics and for presentation
#[derive(Debug, Clone, Copy, PartialEq, Eq, Structural)]
pub struct QueueFamilyIndices {
    pub graphics: u32,
    pub present: u32,
}

/// The last of the first `n` families with the support asked for (graphics, or presentation).
pub open spec fn last_supporting(s: Seq<QueueFamilySupport>, n: int, graphics: bool) -> Option<int>
    decreases n,
{
    if n <= 0 {
        None
    } else if (if graphics { s[n - 1].graphics } else { s[n - 1].present }) {
        Some(n - 1)
    } else {
        last_supporting(s, n - 1, graphics)
    }
}

/// Among the first `n` families some supports graphics and some supports presentation.
pub open spec fn both_found(s: Seq<QueueFamilySupport>, n: int) -> bool {
    last_supporting(s, n, true) is Some && last_supporting(s, n, false) is Some
}

/// The index picked for a support among the first `n` families: the last one found, or 0.
pub open spec fn picked(s: Seq<QueueFamilySupport>, n: int, graphics: bool) -> int {
    match last_supporting(s, n, graphics) {
        Some(i) => i,
        None => 0,
    }
}

/// The families are scanned in order until both supports have been found;
/// each support takes the last family seen with it, or family 0 when none has it
pub fn select_queue_families(families: &[QueueFamilySupport]) -> (r: QueueFamilyIndices)
    requires
        families@.len() <= u32::MAX,
    ensures
        exists|n: int| #![trigger picked(families@, n, true)] 0 <= n <= families@.len()
            && (n == families@.len() || both_found(families@, n))
            && (forall|m: int| 0 <= m < n ==> !#[trigger] both_found(families@, m))
            && r.graphics == picked(families@, n, true)
            && r.present == picked(families@, n, false),
{
    let mut graphics: Option<u32> = None;
    let mut present: Option<u32> = None;
    let mut i: usize = 0;
    while i < families.len() && !(graphics.is_some() && present.is_some())
        invariant
            i <= families@.len() <= u32::MAX,
            match graphics {
                Some(g) => last_supporting(families@, i as int, true) == Some(g as int),
                None => last_supporting(families@, i as int, true) is None,
            },
            match present {
                Some(p) => last_supporting(families@, i as int, false) == Some(p as int),
                None => last_supporting(families@, i as int, false) is None,
            },
            forall|m: int| 0 <= m < i ==> !#[trigger] both_found(families@, m),
        decreases families@.len() - i,
    {
        let f = families[i];
        if f.graphics {
            graphics = Some(i as u32);
        }
        if f.present {
            present = Some(i as u32);
        }
        i += 1;
    }
    let r = QueueFamilyIndices {
        graphics: match graphics {
            Some(g) => g,
            None => 0,
        },
        present: match present {
            Some(p) => p,
            None => 0,
        },
    };
    assert(0 <= i as int <= families@.len()
        && (i as int == families@.len() || both_found(families@, i as int))
        && (forall|m: int| 0 <= m < i ==> !#[trigger] both_found(families@, m))
        && r.graphics == picked(families@, i as int, true)
        && r.present == picked(families@, i as int, false));
    r
}

/// The device extensions the backend needs: the swapchain extension
pub fn required_device_extensions() -> (v: Vec<String>)
    ensures
        v@.len() == 1,
        v@[0]@ == "VK_KHR_swapchain"@,
{
    vec!["VK_KHR_swapchain".to_owned()]
}

/// Some available extension has the name `name`.
pub open spec fn offers(available: Seq<String>, name: Seq<char>) -> bool {
    exists|j: int| 0 <= j < available.len() && available[j]@ == name
}

/// Every required extension name is among the available ones.
pub open spec fn all_available(required: Seq<String>, available: Seq<String>) -> bool {
    forall|i: int| 0 <= i < required.len() ==> #[trigger] offers(available, required[i]@)
}

/// Whether a device offers every required extension
pub fn extensions_supported(required: &[String], available: &[String]) -> (b: bool)
    ensures
        b == all_available(required@, available@),
{
    let mut i: usize = 0;
    while i < required.len()
        invariant
            i <= required@.len(),
            forall|k: int| 0 <= k < i ==> #[trigger] offers(available@, required@[k]@),
        decreases required@.len() - i,
    {
        let mut found = false;
        let mut j: usize = 0;
        while j < available.len()
            invariant
                i < required@.len(),
                j <= available@.len(),
                found ==> offers(available@, required@[i as int]@),
                !found ==> forall|m: int| 0 <= m < j ==> available@[m]@ != required@[i as int]@,
            decreases available@.len() - j,
        {
            if available[j] == required[i] {
                found = true;
            }
            j += 1;
        }
        if !found {
            assert(!offers(available@, required@[i as int]@));
            return false;
        }
        i += 1;
    }
    true
}

/// What a physical device offers for rendering to the surface
#[derive(Debug, Clone, Copy, PartialEq, Eq, Structural)]
pub struct DeviceSupport {
    /// Both a graphics and a presentation queue family were found
    pub queue_families_complete: bool,
    /// Every required device extension is available
    pub extensions_supported: bool,
    /// The surface offers at least one format
    pub has_formats: bool,
    /// The surface offers at least one present mode
    pub has_present_modes: bool,
}

impl DeviceSupport {
    /// A device is suitable when it has complete queue families, the
    /// required extensions, and at least one surface format and present mode.
    pub open spec fn spec_suitable(self) -> bool {
        self.queue_families_complete && self.extensions_supported && self.has_formats && self.has_present_modes
    }

    /// Whether the device can render to the surface
    pub fn is_suitable(&self) -> (b: bool)
        ensures
            b == self.spec_suitable(),
    {
        self.queue_families_complete && self.extensions_supported && self.has_formats && self.has_present_modes
    }
}

/// The device the backend picks: the first suitable one, if any
pub fn pick_physical_device(devices: &[DeviceSupport]) -> (r: Option<usize>)
    ensures
        match r {
            Some(i) => i < devices@.len() && devices@[i as int].spec_suitable()
                && forall|j: int| 0 <= j < i ==> !(#[trigger] devices@[j]).spec_suitable(),
            None => forall|j: int| 0 <= j < devices@.len() ==> !(#[trigger] devices@[j]).spec_suitable(),
        },
{
    let mut i: usize = 0;
    while i < devices.len()
        invariant
            i <= devices@.len(),
            forall|j: int| 0 <= j < i ==> !(#[trigger] devices@[j]).spec_suitable(),
        decreases devices@.len() - i,
    {
        if devices[i].is_suitable() {
            return Some(i);
        }
        i += 1;
    }
    None
}

/// Format code of `VK_FORMAT_R8G8B8A8_UNORM`
pub const FORMAT_R8G8B8A8_UNORM: u32 = 37;
/// Format code of `VK_FORMAT_R8G8B8A8_SRGB`
pub const FORMAT_R8G8B8A8_SRGB: u32 = 43;
/// Format code of `VK_FORMAT_B8G8R8A8_UNORM`
pub const FORMAT_B8G8R8A8_UNORM: u32 = 44;
/// Format code of `VK_FORMAT_D32_SFLOAT`
pub const FORMAT_D32_SFLOAT: u32 = 126;
/// Format code of `VK_FORMAT_D24_UNORM_S8_UINT`
pub const FORMAT_D24_UNORM_S8_UINT: u32 = 129;

/// The Vulkan format code of a texture format
pub fn texture_format_to_vk(format: TextureFormat) -> (f: u32)
    ensures
        f == match format {
            TextureFormat::Rgba8Srgb => FORMAT_R8G8B8A8_SRGB,
            TextureFormat::Rgba8Unorm => FORMAT_R8G8B8A8_UNORM,
            TextureFormat::Bgra8Srgb => FORMAT_B8G8R8A8_SRGB,
            TextureFormat::Bgra8Unorm => FORMAT_B8G8R8A8_UNORM,
            TextureFormat::Depth32Float => FORMAT_D32_SFLOAT,
            TextureFormat::Depth24PlusStencil8 => FORMAT_D24_UNORM_S8_UINT,
        },
{
    match format {
        TextureFormat::Rgba8Srgb => FORMAT_R8G8B8A8_SRGB,
        TextureFormat::Rgba8Unorm => FORMAT_R8G8B8A8_UNORM,
        TextureFormat::Bgra8Srgb => FORMAT_B8G8R8A8_SRGB,
        TextureFormat::Bgra8Unorm => FORMAT_B8G8R8A8_UNORM,
        TextureFormat::Depth32Float => FORMAT_D32_SFLOAT,
        TextureFormat::Depth24PlusStencil8 => FORMAT_D24_UNORM_S8_UINT,
    }
}

/// Calls std's `u32::from_ne_bytes`, which reads four bytes as a word in the
/// machine's byte order. The contract says the word is the bytes read
/// little-endian or big-endian, and leaves open which.
#[verifier::external_body]
fn native_word(b0: u8, b1: u8, b2: u8, b3: u8) -> (w: u32)
    ensures
        w == le_word(b0, b1, b2, b3) || w == le_word(b3, b2, b1, b0),
{
    u32::from_ne_bytes([b0, b1, b2, b3])
}

/// Convert SPIR-V bytes to 32-bit words, each read from four bytes in the
/// machine's byte order (the same order for every word); the byte length
/// must be a multiple of 4
pub fn bytes_to_u32_vec(bytes: &[u8]) -> (words: Vec<u32>)
    requires
        bytes@.len() % 4 == 0,
    ensures
        encodes_words(bytes@, word_values(words@), true) || encodes_words(bytes@, word_values(words@), false),
{
    let little = native_word(1, 0, 0, 0) == 1;
    let len: usize = bytes.len();
    let n = len / 4;
    let mut words: Vec<u32> = Vec::new();
    let mut k: usize = 0;
    while k < n
        invariant
            n == bytes@.len() / 4,
            len == bytes@.len(),
            bytes@.len() % 4 == 0,
            k <= n,
            words@.len() == k,
            forall|i: int| 0 <= i < k ==> #[trigger] word_values(words@)[i] == word_at(bytes@, i, little),
        decreases n - k,
    {
        assert(4 * k + 3 < bytes@.len()) by (nonlinear_arith)
            requires
                k < n,
                n == bytes@.len() / 4,
                bytes@.len() % 4 == 0,
        ;
        let b0 = bytes[4 * k] as u32;
        let b1 = bytes[4 * k + 1] as u32;
        let b2 = bytes[4 * k + 2] as u32;
        let b3 = bytes[4 * k + 3] as u32;
        let w: u32 = if little {
            b0 + 256 * b1 + 65536 * b2 + 16777216 * b3
        } else {
            b3 + 256 * b2 + 65536 * b1 + 16777216 * b0
        };
        let ghost before = words@;
        words.push(w);
        proof {
            assert forall|i: int| 0 <= i < k + 1 implies #[trigger] word_values(words@)[i] == word_at(bytes@, i, little) by {
                assert(word_values(words@)[i] == words@[i] as int);
                if i < k {
                    assert(words@[i] == before[i]);
                    assert(word_values(before)[i] == before[i] as int);
                } else {
                    assert(i == k);
                    assert(words@[i] == w);
                    assert(b0 == bytes@[4 * i] && b1 == bytes@[4 * i + 1]);
                    assert(b2 == bytes@[4 * i + 2] && b3 == bytes@[4 * i + 3]);
                    assert(w as int == word_at(bytes@, i, little));
                }
            }
        }
        k += 1;
    }
    proof {
        assert(bytes@.len() == 4 * word_values(words@).len()) by (nonlinear_arith)
            requires
                n == bytes@.len() / 4,
                bytes@.len() % 4 == 0,
                word_values(words@).len() == n,
        ;
    }
    words
}

/// Device placeholder of the Vulkan backend
#[derive(Default)]
pub struct VulkanDevice;

impl VulkanDevice {
    pub fn new() -> (d: Self) {
        VulkanDevice
    }
}

impl Device for VulkanDevice {
    /// The device is named "Vulkan Stub Device"
    fn name(&self) -> (s: &str)
        ensures
            s@ == "Vulkan Stub Device"@,
    {
        "Vulkan Stub Device"
    }

    /// No feature is reported as supported
    fn supports_feature(&self, feature: &str) -> (b: bool)
        ensures
            !b,
    {
        false
    }
}

/// Command buffer placeholder of the Vulkan backend; its recording commands are provided by the application
#[derive(Default)]
pub struct VulkanCommandBuffer;

impl VulkanCommandBuffer {
    pub fn new() -> (c: Self) {
        VulkanCommandBuffer
    }
}

/// Pipeline placeholder of the Vulkan backend
#[derive(Default)]
pub struct VulkanPipeline;

impl VulkanPipeline {
    pub fn new() -> (p: Self) {
        VulkanPipeline
    }
}

impl Pipeline for VulkanPipeline {
    /// The pipeline is named "Vulkan Stub Pipeline"
    fn name(&self) -> (s: &str)
        ensures
            s@ == "Vulkan Stub Pipeline"@,
    {
        "Vulkan Stub Pipeline"
    }
}

/// Resource placeholder of the Vulkan backend
#[derive(Default)]
pub struct VulkanResource;

impl VulkanResource {
    pub fn new() -> (r: Self) {
        VulkanResource
    }
}

impl Resource for VulkanResource {
    /// The placeholder holds no bytes
    fn size(&self) -> (n: usize)
        ensures
            n == 0,
    {
        0
    }

    /// The resource is described as "Vulkan Stub Resource"
    fn resource_type(&self) -> (s: &str)
        ensures
            s@ == "Vulkan Stub Resource"@,
    {
        "Vulkan Stub Resource"
    }
}

/// Swapchain placeholder of the Vulkan backend; it stays at frame 0
pub struct VulkanSwapchain {
    width: u32,
    height: u32,
    current_frame: usize,
}

impl View for VulkanSwapchain {
    type V = SwapchainView;

    closed spec fn view(&self) -> SwapchainView {
        SwapchainView { width: self.width, height: self.height, current_frame: self.current_frame }
    }
}

impl VulkanSwapchain {
    /// An 800x600 swapchain at frame 0
    pub fn new() -> (s: Self)
        ensures
            s@ == (SwapchainView { width: 800, height: 600, current_frame: 0 }),
    {
        VulkanSwapchain { width: 800, height: 600, current_frame: 0 }
    }
}

impl Default for VulkanSwapchain {
    /// An 800x600 swapchain at frame 0
    fn default() -> (s: Self)
        ensures
            s@ == (SwapchainView { width: 800, height: 600, current_frame: 0 }),
    {
        VulkanSwapchain::new()
    }
}

impl Swapchain for VulkanSwapchain {
    fn width(&self) -> (w: u32)
        ensures
            w == self@.width,
    {
        self.width
    }

    fn height(&self) -> (h: u32)
        ensures
            h == self@.height,
    {
        self.height
    }

    fn current_frame(&self) -> (f: usize)
        ensures
            f == self@.current_frame,
    {
        self.current_frame
    }

    /// Acquiring changes nothing
    fn acquire_next_image(&mut self) -> (r: Result<(), BackendError>)
        ensures
            r is Ok,
            final(self)@ == old(self)@,
    {
        Ok(())
    }

    /// Presenting changes nothing
    fn present(&mut self) -> (r: Result<(), BackendError>)
        ensures
            r is Ok,
            final(self)@ == old(self)@,
    {
        Ok(())
    }

    /// Take the new size; the frame index is kept
    fn recreate(&mut self, width: u32, height: u32) -> (r: Result<(), BackendError>)
        ensures
            r is Ok,
            final(self)@ == (SwapchainView { width, height, ..old(self)@ }),
    {
        self.width = width;
        self.height = height;
        Ok(())
    }
}

} // verus!
