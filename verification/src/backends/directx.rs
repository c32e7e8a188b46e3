//! The DirectX 12 backend's decisions, taken before it calls Direct3D: the
//! heap and initial state of a buffer, the root parameters of a bind group
//! layout, where texture views and bind group descriptor tables lie in the
//! descriptor heap, the resource flags and DXGI format of a texture, the
//! checks on a texture upload, the target and commands of a frame, and when a
//! frame may be captured. Also the placeholder device and swapchain the
//! backend reports where Direct3D is not available.

use vstd::prelude::*;
use crate::backends::binding::{BindGroup, BindGroupLayout, ShaderBinding};
use crate::backends::resources::{BufferUsage, MemoryLocation, TextureFormat, TextureUsage};
use crate::backends::wgpu_backend::FRAMES_IN_FLIGHT;
use crate::backends::{BackendError, Device, Swapchain, SwapchainView};
use crate::render_graph::{PassId, RenderGraph, RenderPass};

verus! {

/// `DXGI_FORMAT_R8G8B8A8_UNORM`
pub const DXGI_FORMAT_R8G8B8A8_UNORM: u32 = 28;
/// `DXGI_FORMAT_R8G8B8A8_UNORM_SRGB`
pub const DXGI_FORMAT_R8G8B8A8_UNORM_SRGB: u32 = 29;
/// `DXGI_FORMAT_D32_FLOAT`
pub const DXGI_FORMAT_D32_FLOAT: u32 = 40;
/// `DXGI_FORMAT_D24_UNORM_S8_UINT`
pub const DXGI_FORMAT_D24_UNORM_S8_UINT: u32 = 45;
/// `DXGI_FORMAT_B8G8R8A8_UNORM`
pub const DXGI_FORMAT_B8G8R8A8_UNORM: u32 = 87;
/// `DXGI_FORMAT_B8G8R8A8_UNORM_SRGB`
pub const DXGI_FORMAT_B8G8R8A8_UNORM_SRGB: u32 = 91;

/// The DXGI format code of a texture format
pub fn texture_format_to_dxgi(format: TextureFormat) -> (f: u32)
    ensures
        f == match format {
            TextureFormat::Rgba8Srgb => DXGI_FORMAT_R8G8B8A8_UNORM_SRGB,
            TextureFormat::Rgba8Unorm => DXGI_FORMAT_R8G8B8A8_UNORM,
            TextureFormat::Bgra8Srgb => DXGI_FORMAT_B8G8R8A8_UNORM_SRGB,
            TextureFormat::Bgra8Unorm => DXGI_FORMAT_B8G8R8A8_UNORM,
            TextureFormat::Depth32Float => DXGI_FORMAT_D32_FLOAT,
            TextureFormat::Depth24PlusStencil8 => DXGI_FORMAT_D24_UNORM_S8_UINT,
        },
{
    match format {
        TextureFormat::Rgba8Srgb => DXGI_FORMAT_R8G8B8A8_UNORM_SRGB,
        TextureFormat::Rgba8Unorm => DXGI_FORMAT_R8G8B8A8_UNORM,
        TextureFormat::Bgra8Srgb => DXGI_FORMAT_B8G8R8A8_UNORM_SRGB,
        TextureFormat::Bgra8Unorm => DXGI_FORMAT_B8G8R8A8_UNORM,
        TextureFormat::Depth32Float => DXGI_FORMAT_D32_FLOAT,
        TextureFormat::Depth24PlusStencil8 => DXGI_FORMAT_D24_UNORM_S8_UINT,
    }
}

/// Kind of Direct3D heap a buffer is placed in
#[derive(Debug, Clone, Copy, PartialEq, Eq, Structural)]
pub enum HeapKind {
    /// GPU-only memory
    Default,
    /// CPU-written memory the GPU reads
    Upload,
    /// GPU-written memory the CPU reads
    Readback,
}

/// The heap of a buffer at a memory location
pub fn heap_kind(location: MemoryLocation) -> (h: HeapKind)
    ensures
        h == match location {
            MemoryLocation::GpuOnly => HeapKind::Default,
            MemoryLocation::CpuToGpu => HeapKind::Upload,
            MemoryLocation::GpuToCpu => HeapKind::Readback,
        },
{
    match location {
        MemoryLocation::GpuOnly => HeapKind::Default,
        MemoryLocation::CpuToGpu => HeapKind::Upload,
        MemoryLocation::GpuToCpu => HeapKind::Readback,
    }
}

/// State a Direct3D resource starts in
#[derive(Debug, Clone, Copy, PartialEq, Eq, Structural)]
pub enum ResourceState {
    Common,
    GenericRead,
    CopyDest,
    VertexAndConstantBuffer,
    IndexBuffer,
}

/// The state a new buffer starts in.
pub open spec fn spec_initial_buffer_state(location: MemoryLocation, usage: BufferUsage) -> ResourceState {
    match location {
        MemoryLocation::CpuToGpu => ResourceState::GenericRead,
        MemoryLocation::GpuToCpu => ResourceState::CopyDest,
        MemoryLocation::GpuOnly => if usage.vertex {
            ResourceState::VertexAndConstantBuffer
        } else if usage.index {
            ResourceState::IndexBuffer
        } else if usage.uniform {
            ResourceState::VertexAndConstantBuffer
        } else {
            ResourceState::Common
        },
    }
}

/// The state a new buffer starts in: upload heaps must start readable,
/// readback heaps as copy destinations; GPU-only buffers start in the state
/// of their first usage among vertex, index and uniform
pub fn initial_buffer_state(location: MemoryLocation, usage: BufferUsage) -> (s: ResourceState)
    ensures
        s == spec_initial_buffer_state(location, usage),
{
    match location {
        MemoryLocation::CpuToGpu => ResourceState::GenericRead,
        MemoryLocation::GpuToCpu => ResourceState::CopyDest,
        MemoryLocation::GpuOnly => {
            if usage.vertex {
                ResourceState::VertexAndConstantBuffer
            } else if usage.index {
                ResourceState::IndexBuffer
            } else if usage.uniform {
                ResourceState::VertexAndConstantBuffer
            } else {
                ResourceState::Common
            }
        },
    }
}

/// Kind of a root parameter
#[derive(Debug, Clone, Copy, PartialEq, Eq, Structural)]
pub enum RootParameterKind {
    /// Constant buffer view
    ConstantBuffer,
    /// Shader resource view
    ShaderResource,
    /// Unordered access view
    UnorderedAccess,
}

/// A root parameter: a descriptor bound at a shader register of space 0, visible to all stages
#[derive(Debug, Clone, Copy, PartialEq, Eq, Structural)]
pub struct RootParameter {
    pub kind: RootParameterKind,
    pub register: u32,
}

/// The root parameter of a binding: uniform buffers become constant buffer
/// views, read-only storage buffers shader resource views, other storage
/// buffers unordered access views; textures and samplers get none.
pub open spec fn root_parameter_of(b: ShaderBinding) -> Option<RootParameter> {
    match b {
        ShaderBinding::UniformBuffer { binding, .. } => Some(
            RootParameter { kind: RootParameterKind::ConstantBuffer, register: binding },
        ),
        ShaderBinding::StorageBuffer { binding, readonly, .. } => Some(
            RootParameter {
                kind: if readonly {
                    RootParameterKind::ShaderResource
                } else {
                    RootParameterKind::UnorderedAccess
                },
                register: binding,
            },
        ),
        _ => None,
    }
}

/// The root parameters of the bindings, in binding order.
pub open spec fn spec_root_parameters(s: Seq<ShaderBinding>) -> Seq<RootParameter>
    decreases s.len(),
{
    if s.len() == 0 {
        Seq::empty()
    } else {
        match root_parameter_of(s.last()) {
            Some(p) => spec_root_parameters(s.drop_last()).push(p),
            None => spec_root_parameters(s.drop_last()),
        }
    }
}

/// The root parameters of a bind group layout's root signature
pub fn root_parameters(layout: &BindGroupLayout) -> (r: Vec<RootParameter>)
    ensures
        r@ == spec_root_parameters(layout@),
{
    let bindings = layout.bindings();
    let mut params: Vec<RootParameter> = Vec::new();
    let mut i: usize = 0;
    proof {
        assert(bindings@.take(0) =~= Seq::<ShaderBinding>::empty());
    }
    while i < bindings.len()
        invariant
            i <= bindings@.len(),
            bindings@ == layout@,
            params@ == spec_root_parameters(bindings@.take(i as int)),
        decreases bindings@.len() - i,
    {
        proof {
            assert(bindings@.take(i as int + 1).drop_last() =~= bindings@.take(i as int));
        }
        match bindings[i] {
            ShaderBinding::UniformBuffer { binding, .. } => {
                params.push(RootParameter { kind: RootParameterKind::ConstantBuffer, register: binding });
            },
            ShaderBinding::StorageBuffer { binding, readonly, .. } => {
                let kind = if readonly {
                    RootParameterKind::ShaderResource
                } else {
                    RootParameterKind::UnorderedAccess
                };
                params.push(RootParameter { kind, register: binding });
            },
            _ => {},
        }
        i += 1;
    }
    proof {
        assert(bindings@.take(bindings@.len() as int) =~= bindings@);
    }
    params
}

/// A bind group names a root signature that was never created
#[derive(Debug, Clone, Copy, PartialEq, Eq, Structural)]
pub struct InvalidLayoutHandle {
    pub handle: usize,
}

/// What the shader-visible descriptor heap holds: the offset of the next
/// free descriptor, and the starting offset of each bind group's table, by handle
pub struct DescriptorTablesView {
    pub next_offset: nat,
    pub offsets: Seq<usize>,
}

/// The descriptor heap shared by texture views and bind group tables: each
/// sampled texture takes one descriptor, each bind group a table of one
/// descriptor per bound resource, in the order they are created
pub struct DescriptorTables {
    next_offset: usize,
    offsets: Vec<usize>,
}

impl View for DescriptorTables {
    type V = DescriptorTablesView;

    closed spec fn view(&self) -> DescriptorTablesView {
        DescriptorTablesView { next_offset: self.next_offset as nat, offsets: self.offsets@ }
    }
}

impl DescriptorTables {
    /// No table, starting at offset 0
    pub fn new() -> (t: Self)
        ensures
            t@.next_offset == 0,
            t@.offsets == Seq::<usize>::empty(),
    {
        DescriptorTables { next_offset: 0, offsets: Vec::new() }
    }

    /// Reserve the shader resource view of a new texture: a sampled texture
    /// takes the next descriptor, whose offset is returned; other textures take none
    pub fn reserve_texture_view(&mut self, sampled: bool) -> (r: Option<usize>)
        requires
            old(self)@.next_offset < usize::MAX,
        ensures
            final(self)@.offsets == old(self)@.offsets,
            sampled ==> r == Some(old(self)@.next_offset as usize) && final(self)@.next_offset == old(self)@.next_offset + 1,
            !sampled ==> r is None && final(self)@.next_offset == old(self)@.next_offset,
    {
        if sampled {
            let offset = self.next_offset;
            self.next_offset = self.next_offset + 1;
            Some(offset)
        } else {
            None
        }
    }

    /// Reserve a descriptor table for `group`, whose layout is the root
    /// signature `layout_handle` of the `layout_count` created; the table
    /// holds one descriptor per bound resource and its handle is returned
    pub fn add_bind_group(&mut self, layout_handle: usize, layout_count: usize, group: &BindGroup) -> (r: Result<usize, InvalidLayoutHandle>)
        requires
            old(self)@.next_offset + group.bound().len() <= usize::MAX,
        ensures
            match r {
                Err(e) => {
                    &&& layout_handle >= layout_count
                    &&& e.handle == layout_handle
                    &&& final(self)@ == old(self)@
                },
                Ok(h) => {
                    &&& layout_handle < layout_count
                    &&& h == old(self)@.offsets.len()
                    &&& final(self)@.offsets == old(self)@.offsets.push(old(self)@.next_offset as usize)
                    &&& final(self)@.next_offset == old(self)@.next_offset + group.bound().len()
                },
            },
    {
        if layout_handle >= layout_count {
            return Err(InvalidLayoutHandle { handle: layout_handle });
        }
        let count = group.resources().len();
        let start = self.next_offset;
        self.next_offset = self.next_offset + count;
        self.offsets.push(start);
        Ok(self.offsets.len() - 1)
    }
}

/// Descriptor tables never overlap: reserving a texture view or a bind
/// group's table only moves the next offset forward, and a new table starts
/// at the old next offset, so the table offsets only grow and none passes
/// the next offset.
pub proof fn lemma_tables_ordered(before: DescriptorTablesView, after: DescriptorTablesView)
    requires
        forall|i: int, j: int| 0 <= i <= j < before.offsets.len() ==> before.offsets[i] <= before.offsets[j],
        forall|i: int| 0 <= i < before.offsets.len() ==> before.offsets[i] <= before.next_offset,
        after.offsets == before.offsets.push(before.next_offset as usize) || after.offsets == before.offsets,
        after.next_offset >= before.next_offset,
        before.next_offset <= usize::MAX,
    ensures
        forall|i: int, j: int| 0 <= i <= j < after.offsets.len() ==> after.offsets[i] <= after.offsets[j],
        forall|i: int| 0 <= i < after.offsets.len() ==> after.offsets[i] <= after.next_offset,
{
    assert forall|i: int, j: int| 0 <= i <= j < after.offsets.len() implies after.offsets[i] <= after.offsets[j] by {
        if j < before.offsets.len() {
            assert(after.offsets[i] == before.offsets[i]);
            assert(after.offsets[j] == before.offsets[j]);
        } else if i < before.offsets.len() {
            assert(after.offsets[i] == before.offsets[i]);
        }
    }
    assert forall|i: int| 0 <= i < after.offsets.len() implies after.offsets[i] <= after.next_offset by {
        if i < before.offsets.len() {
            assert(after.offsets[i] == before.offsets[i]);
        }
    }
}

/// Resource flags of a Direct3D texture
#[derive(Debug, Clone, Copy, PartialEq, Eq, Structural)]
pub struct TextureResourceFlags {
    pub allow_render_target: bool,
    pub allow_depth_stencil: bool,
}

/// The resource flags of a texture: render targets may be rendered to, depth
/// stencil targets may hold depth
pub fn texture_resource_flags(usage: TextureUsage) -> (f: TextureResourceFlags)
    ensures
        f == (TextureResourceFlags { allow_render_target: usage.render_target, allow_depth_stencil: usage.depth_stencil }),
{
    TextureResourceFlags { allow_render_target: usage.render_target, allow_depth_stencil: usage.depth_stencil }
}

/// Why texture data cannot be uploaded
#[derive(Debug, Clone, Copy, PartialEq, Eq, Structural)]
pub enum TextureUploadError {
    /// The mip level is not below the texture's mip level count; `max` is the last valid level
    MipLevelOutOfRange { mip_level: u32, max: u32 },
    /// The data does not hold exactly the bytes of the mip level
    SizeMismatch { expected: u32, width: u32, height: u32, got: usize },
}

/// The byte size of mip level `level` of a texture: its width and height
/// halved `level` times (rounding down), times the bytes per pixel.
pub open spec fn spec_mip_size(width: u32, height: u32, bytes_per_pixel: u32, level: u32) -> int {
    ((width >> level) * bytes_per_pixel) * (height >> level)
}

/// Check an upload of `data_len` bytes to mip level `mip_level` of a texture
/// with `mip_levels` levels; on success returns the size of the level
pub fn check_mip_upload(
    width: u32,
    height: u32,
    mip_levels: u32,
    bytes_per_pixel: u32,
    mip_level: u32,
    data_len: usize,
) -> (r: Result<u32, TextureUploadError>)
    requires
        mip_levels > 0,
        mip_level < mip_levels ==> mip_level < 32 && spec_mip_size(width, height, bytes_per_pixel, mip_level) <= u32::MAX
            && (width >> mip_level) * bytes_per_pixel <= u32::MAX,
    ensures
        mip_level >= mip_levels ==> r == Err::<u32, TextureUploadError>(
            TextureUploadError::MipLevelOutOfRange { mip_level, max: (mip_levels - 1) as u32 },
        ),
        mip_level < mip_levels && data_len != spec_mip_size(width, height, bytes_per_pixel, mip_level)
            ==> r == Err::<u32, TextureUploadError>(TextureUploadError::SizeMismatch {
                expected: spec_mip_size(width, height, bytes_per_pixel, mip_level) as u32,
                width: width >> mip_level,
                height: height >> mip_level,
                got: data_len,
            }),
        mip_level < mip_levels && data_len == spec_mip_size(width, height, bytes_per_pixel, mip_level)
            ==> r == Ok::<u32, TextureUploadError>(spec_mip_size(width, height, bytes_per_pixel, mip_level) as u32),
{
    if mip_level >= mip_levels {
        return Err(TextureUploadError::MipLevelOutOfRange { mip_level, max: mip_levels - 1 });
    }
    let mip_width = width >> mip_level;
    let mip_height = height >> mip_level;
    let row_pitch = mip_width * bytes_per_pixel;
    let expected = row_pitch * mip_height;
    if data_len as u64 != expected as u64 {
        return Err(TextureUploadError::SizeMismatch { expected, width: mip_width, height: mip_height, got: data_len });
    }
    Ok(expected)
}

/// Device placeholder of the DirectX backend where Direct3D is not available
pub struct DirectXDevice;

impl DirectXDevice {
    pub fn new() -> (d: Self) {
        DirectXDevice
    }
}

impl Device for DirectXDevice {
    /// The device is named "directx-stub-device"
    fn name(&self) -> (s: &str)
        ensures
            s@ == "directx-stub-device"@,
    {
        "directx-stub-device"
    }

    /// No feature is reported as supported
    fn supports_feature(&self, feature: &str) -> (b: bool)
        ensures
            !b,
    {
        false
    }
}

/// Swapchain placeholder of the DirectX backend where Direct3D is not available
pub struct DirectXSwapchain {
    width: u32,
    height: u32,
    current_frame: usize,
}

impl View for DirectXSwapchain {
    type V = SwapchainView;

    closed spec fn view(&self) -> SwapchainView {
        SwapchainView { width: self.width, height: self.height, current_frame: self.current_frame }
    }
}

impl DirectXSwapchain {
    /// The current frame is always one of the frames in flight.
    #[verifier::type_invariant]
    spec fn frame_in_range(self) -> bool {
        self.current_frame < FRAMES_IN_FLIGHT
    }

    /// An 800x600 swapchain at frame 0
    pub fn new() -> (s: Self)
        ensures
            s@ == (SwapchainView { width: 800, height: 600, current_frame: 0 }),
    {
        DirectXSwapchain { width: 800, height: 600, current_frame: 0 }
    }

    /// Take a new size
    pub fn resize(&mut self, width: u32, height: u32)
        ensures
            final(self)@ == (SwapchainView { width, height, ..old(self)@ }),
    {
        proof {
            use_type_invariant(&*self);
        }
        self.width = width;
        self.height = height;
    }
}

impl Swapchain for DirectXSwapchain {
    fn width(&self) -> (w: u32)
        ensures
            w == self@.width,
    {
        self.width
    }

    fn height(&self) -> (h: u32)
        ensures
            h == self@.height,
    {
        self.height
    }

    /// The current frame, always below the number of frames in flight
    fn current_frame(&self) -> (f: usize)
        ensures
            f == self@.current_frame,
            f < FRAMES_IN_FLIGHT,
    {
        proof {
            use_type_invariant(self);
        }
        self.current_frame
    }

    /// Advance to the next of the three frames, wrapping to frame 0
    fn acquire_next_image(&mut self) -> (r: Result<(), BackendError>)
        ensures
            r is Ok,
            final(self)@ == (SwapchainView {
                current_frame: ((old(self)@.current_frame + 1) % (FRAMES_IN_FLIGHT as int)) as usize,
                ..old(self)@
            }),
    {
        proof {
            use_type_invariant(&*self);
        }
        self.current_frame = (self.current_frame + 1) % FRAMES_IN_FLIGHT;
        Ok(())
    }

    /// Presenting changes nothing
    fn present(&mut self) -> (r: Result<(), BackendError>)
        ensures
            r is Ok,
            final(self)@ == old(self)@,
    {
        Ok(())
    }

    /// Take the new size; the frame index is kept
    fn recreate(&mut self, width: u32, height: u32) -> (r: Result<(), BackendError>)
        ensures
            r is Ok,
            final(self)@ == (SwapchainView { width, height, ..old(self)@ }),
    {
        proof {
            use_type_invariant(&*self);
        }
        self.width = width;
        self.height = height;
        Ok(())
    }
}

/// Why a frame capture is refused
#[derive(Debug, Clone, Copy, PartialEq, Eq, Structural)]
pub enum CaptureError {
    /// Frames are read back only from the offscreen target of a headless backend
    NotHeadless,
}

impl CaptureError {
    /// The message the error is reported with
    pub fn message(&self) -> (s: String)
        ensures
            s@ == "Frame capture is only available in headless mode"@,
    {
        "Frame capture is only available in headless mode".to_owned()
    }
}

/// Whether a frame may be captured: only a headless backend reads its frame back
pub fn check_capture_allowed(headless: bool) -> (r: Result<(), CaptureError>)
    ensures
        r is Ok <==> headless,
        r is Err ==> r == Err::<(), CaptureError>(CaptureError::NotHeadless),
{
    if headless {
        Ok(())
    } else {
        Err(CaptureError::NotHeadless)
    }
}

/// The render target a frame's passes draw into
#[derive(Debug, Clone, Copy, PartialEq, Eq, Structural)]
pub enum FrameTarget {
    /// The single offscreen target of a headless backend, at the start of the RTV heap
    Offscreen,
    /// The swapchain image of the current frame, whose render target view lies
    /// `descriptor_offset` bytes into the RTV heap
    Swapchain { frame_index: u32, descriptor_offset: u64 },
}

/// A step of recording a frame's commands
#[derive(Debug, Clone, Copy, PartialEq, Eq, Structural)]
pub enum FrameCommand {
    /// Move the swapchain image from presenting to being rendered to
    TransitionToRenderTarget,
    /// Clear and bind the target and the depth buffer, set the viewport, the
    /// scissor rectangle, the root signature, the pipeline and the topology
    BeginPasses,
    /// Prepare and run the callback of this pass
    RunPass(PassId),
    /// Move the swapchain image back to presenting
    TransitionToPresent,
}

/// Why a frame's commands cannot be recorded
#[derive(Debug, Clone, Copy, PartialEq, Eq, Structural)]
pub enum FrameError {
    /// The execution order names a pass the graph does not have
    PassNotFound(PassId),
}

/// The target a frame draws into: the offscreen target when headless, else
/// the current swapchain image, whose view is `frame_index` descriptors into the heap.
pub open spec fn frame_target(headless: bool, frame_index: u32, rtv_descriptor_size: u32) -> FrameTarget {
    if headless {
        FrameTarget::Offscreen
    } else {
        FrameTarget::Swapchain { frame_index, descriptor_offset: (frame_index * rtv_descriptor_size) as u64 }
    }
}

/// The passes run, in the execution order, skipping those without a callback.
pub open spec fn pass_runs<C>(passes: Seq<RenderPass<C>>, order: Seq<PassId>) -> Seq<FrameCommand>
    decreases order.len(),
{
    if order.len() == 0 {
        Seq::empty()
    } else {
        let id = order.last();
        pass_runs(passes, order.drop_last()) + if passes[id.0 as int].callback is Some {
            seq![FrameCommand::RunPass(id)]
        } else {
            Seq::<FrameCommand>::empty()
        }
    }
}

/// The commands of a frame: the transitions around the passes only when
/// windowed, and the passes in the execution order.
pub open spec fn frame_commands<C>(passes: Seq<RenderPass<C>>, order: Seq<PassId>, headless: bool) -> Seq<FrameCommand> {
    let before: Seq<FrameCommand> = if headless {
        seq![FrameCommand::BeginPasses]
    } else {
        seq![FrameCommand::TransitionToRenderTarget, FrameCommand::BeginPasses]
    };
    let after: Seq<FrameCommand> = if headless {
        Seq::empty()
    } else {
        seq![FrameCommand::TransitionToPresent]
    };
    before + pass_runs(passes, order) + after
}

/// Plan the recording of a frame of `graph` whose passes run in `order`: the
/// target to draw into and the commands to record. A pass is found at the
/// position its id names; an id past the graph's passes gives no plan.
pub fn plan_frame<C>(
    graph: &RenderGraph<C>,
    order: &[PassId],
    headless: bool,
    frame_index: u32,
    rtv_descriptor_size: u32,
) -> (r: Result<(FrameTarget, Vec<FrameCommand>), FrameError>)
    ensures
        r is Err <==> exists|i: int| 0 <= i < order@.len() && #[trigger] order@[i].0 >= graph.pass_seq().len(),
        r matches Err(FrameError::PassNotFound(id)) ==> order@.contains(id) && id.0 >= graph.pass_seq().len(),
        r matches Ok((target, commands)) ==> {
            &&& target == frame_target(headless, frame_index, rtv_descriptor_size)
            &&& commands@ == frame_commands(graph.pass_seq(), order@, headless)
        },
{
    let target = if headless {
        FrameTarget::Offscreen
    } else {
        proof {
            let a = frame_index as int;
            let b = rtv_descriptor_size as int;
            assert(a * b <= 0xffff_ffff * 0xffff_ffff) by (nonlinear_arith)
                requires
                    0 <= a <= 0xffff_ffff,
                    0 <= b <= 0xffff_ffff,
            ;
        }
        let offset: u64 = frame_index as u64 * rtv_descriptor_size as u64;
        FrameTarget::Swapchain { frame_index, descriptor_offset: offset }
    };
    let passes = graph.passes();
    let mut commands: Vec<FrameCommand> = Vec::new();
    if !headless {
        commands.push(FrameCommand::TransitionToRenderTarget);
    }
    commands.push(FrameCommand::BeginPasses);
    let ghost before = commands@;
    proof {
        assert(order@.take(0) =~= Seq::<PassId>::empty());
        assert(commands@ =~= before + pass_runs(passes@, order@.take(0)));
    }
    let mut k: usize = 0;
    while k < order.len()
        invariant
            k <= order@.len(),
            passes@ == graph.pass_seq(),
            before == (if headless {
                seq![FrameCommand::BeginPasses]
            } else {
                seq![FrameCommand::TransitionToRenderTarget, FrameCommand::BeginPasses]
            }),
            commands@ == before + pass_runs(passes@, order@.take(k as int)),
            forall|i: int| 0 <= i < k ==> #[trigger] order@[i].0 < passes@.len(),
        decreases order@.len() - k,
    {
        let id = order[k];
        if id.0 >= passes.len() {
            proof {
                assert(order@[k as int].0 >= graph.pass_seq().len());
                assert(order@.contains(id));
            }
            return Err(FrameError::PassNotFound(id));
        }
        let ghost prefix = order@.take(k as int + 1);
        proof {
            assert(prefix.drop_last() =~= order@.take(k as int));
            assert(prefix.last() == id);
        }
        if passes[id.0].callback.is_some() {
            commands.push(FrameCommand::RunPass(id));
            proof {
                assert(commands@ =~= before + pass_runs(passes@, prefix));
            }
        } else {
            proof {
                assert(commands@ =~= before + pass_runs(passes@, prefix));
            }
        }
        k += 1;
    }
    if !headless {
        commands.push(FrameCommand::TransitionToPresent);
    }
    proof {
        assert(order@.take(order@.len() as int) =~= order@);
        assert(commands@ =~= frame_commands(graph.pass_seq(), order@, headless));
    }
    Ok((target, commands))
}

} // verus!
