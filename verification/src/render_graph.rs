//! Render graph: the declared passes of a frame, the resources they read and
//! write, the shaders they use, and what each pass asks the backend to do.
//!
//! A pass does not hold code; it holds a callback description from which the
//! pipeline it needs and the commands it records are computed. The backend
//! performs those commands.

use vstd::prelude::*;
use crate::backends::binding::{BufferHandle, TextureHandle};

verus! {

/// Identifier of a pass: its position in the graph.
#[derive(Debug, Clone, Copy, PartialEq, Eq, Hash, Structural)]
pub struct PassId(pub usize);

/// Identifier of a resource: its position in the graph's resource list.
#[derive(Debug, Clone, Copy, PartialEq, Eq, Hash, Structural)]
pub struct ResourceId(pub usize);

/// Handle of an object transform, kept by the application; it supplies the
/// model and normal matrices pushed for the objects drawn with it.
#[derive(Debug, Clone, Copy, PartialEq, Eq, Hash, Structural)]
pub struct TransformId(pub u32);

/// Kind of work a pass does
#[derive(Debug, Clone, Copy, PartialEq, Eq, Structural)]
pub enum PassKind {
    Graphics,
    Compute,
    Transfer,
}

/// How a pass accesses a resource
#[derive(Debug, Clone, Copy, PartialEq, Eq, Structural)]
pub enum AccessType {
    Read,
    Write,
    ReadWrite,
}

/// Pipeline stage bits at which a resource is accessed
#[derive(Debug, Clone, Copy, PartialEq, Eq, Hash, Structural)]
pub struct PipelineStage(pub u32);

impl PipelineStage {
    pub const TOP_OF_PIPE: u32 = 1;
    pub const VERTEX_INPUT: u32 = 4;
    pub const VERTEX_SHADER: u32 = 8;
    pub const FRAGMENT_SHADER: u32 = 128;
    pub const EARLY_FRAGMENT_TESTS: u32 = 256;
    pub const COLOR_ATTACHMENT_OUTPUT: u32 = 1024;
    pub const TRANSFER: u32 = 4096;
    pub const BOTTOM_OF_PIPE: u32 = 8192;

    pub fn new(bits: u32) -> (s: Self)
        ensures
            s.0 == bits,
    {
        PipelineStage(bits)
    }
}

/// Layout an image is in while a pass uses it
#[derive(Debug, Clone, Copy, PartialEq, Eq, Structural)]
pub enum ImageLayout {
    Undefined,
    General,
    ColorAttachment,
    DepthStencilAttachment,
    ShaderReadOnly,
    TransferSrc,
    TransferDst,
    Present,
}

/// One access of a pass to a resource
#[derive(Debug, Clone, Copy, PartialEq, Eq, Structural)]
pub struct ResourceAccess {
    pub resource: ResourceId,
    pub access: AccessType,
    pub stage: PipelineStage,
    pub layout: Option<ImageLayout>,
}

impl ResourceAccess {
    pub fn new(
        resource: ResourceId,
        access: AccessType,
        stage: PipelineStage,
        layout: Option<ImageLayout>,
    ) -> (a: Self)
        ensures
            a == (ResourceAccess { resource, access, stage, layout }),
    {
        ResourceAccess { resource, access, stage, layout }
    }
}

/// Image formats of graph images
#[derive(Debug, Clone, Copy, PartialEq, Eq, Structural)]
pub enum Format {
    Rgba8Unorm,
    Rgba8Srgb,
    Bgra8Unorm,
    Bgra8Srgb,
    Depth32Float,
    Depth24PlusStencil8,
}

/// Size of an image
#[derive(Debug, Clone, Copy, PartialEq, Eq, Structural)]
pub struct Extent3D {
    pub width: u32,
    pub height: u32,
    pub depth: u32,
}

impl Extent3D {
    /// A two-dimensional extent (depth 1)
    pub fn new_2d(width: u32, height: u32) -> (e: Self)
        ensures
            e == (Extent3D { width, height, depth: 1 }),
    {
        Extent3D { width, height, depth: 1 }
    }
}

/// How the size of an image is given
#[derive(Debug, Clone, Copy, PartialEq, Eq, Structural)]
pub enum ExtentMode {
    /// A fixed size
    Absolute(Extent3D),
    /// The size of the swapchain
    SwapchainRelative,
}

/// Usage bits of a graph image
#[derive(Debug, Clone, Copy, PartialEq, Eq, Hash, Structural)]
pub struct ImageUsageFlags(pub u32);

impl ImageUsageFlags {
    pub const TRANSFER_SRC: u32 = 1;
    pub const TRANSFER_DST: u32 = 2;
    pub const SAMPLED: u32 = 4;
    pub const STORAGE: u32 = 8;
    pub const COLOR_ATTACHMENT: u32 = 16;
    pub const DEPTH_STENCIL_ATTACHMENT: u32 = 32;

    pub fn new(bits: u32) -> (f: Self)
        ensures
            f.0 == bits,
    {
        ImageUsageFlags(bits)
    }
}

/// Usage bits of a graph buffer
#[derive(Debug, Clone, Copy, PartialEq, Eq, Hash, Structural)]
pub struct BufferUsageFlags(pub u32);

impl BufferUsageFlags {
    pub const TRANSFER_SRC: u32 = 1;
    pub const TRANSFER_DST: u32 = 2;
    pub const UNIFORM: u32 = 16;
    pub const STORAGE: u32 = 32;
    pub const INDEX: u32 = 64;
    pub const VERTEX: u32 = 128;

    pub fn new(bits: u32) -> (f: Self)
        ensures
            f.0 == bits,
    {
        BufferUsageFlags(bits)
    }
}

/// Multisample count of an image
#[derive(Debug, Clone, Copy, PartialEq, Eq, Structural)]
pub enum SampleCount {
    One,
    Two,
    Four,
    Eight,
}

/// Description of a graph resource
#[derive(Debug, Clone, Copy, PartialEq, Eq, Structural)]
pub enum ResourceDescriptor {
    Image {
        format: Format,
        extent: ExtentMode,
        usage: ImageUsageFlags,
        samples: SampleCount,
        mip_levels: u32,
    },
    Buffer { size: u64, usage: BufferUsageFlags },
}

/// A resource declared in the graph
pub struct GraphResource {
    pub name: String,
    pub descriptor: ResourceDescriptor,
    /// Bytes to upload into a buffer before the first pass reads it
    pub initial_data: Option<Vec<u8>>,
}

/// Stage a shader runs in
#[derive(Debug, Clone, Copy, PartialEq, Eq, Structural)]
pub enum ShaderStage {
    Vertex,
    Fragment,
    Compute,
}

/// Where a shader comes from
#[derive(Debug, Clone)]
pub enum ShaderSource {
    /// Source code to compile
    File(String),
    /// Pre-compiled bytecode
    Compiled(String),
}

/// A shader registered with the graph
#[derive(Debug, Clone)]
pub struct ShaderDescriptor {
    pub source: ShaderSource,
    pub stage: ShaderStage,
    pub entry_point: String,
}

impl ShaderDescriptor {
    /// A shader compiled from the source file at `path`, entry point `main`
    pub fn from_file(path: &str, stage: ShaderStage) -> (d: Self)
        ensures
            d.source matches ShaderSource::File(p) && p@ == path@,
            d.stage == stage,
            d.entry_point@ == "main"@,
    {
        ShaderDescriptor {
            source: ShaderSource::File(path.to_owned()),
            stage,
            entry_point: "main".to_owned(),
        }
    }

    /// A pre-compiled shader stored at `path`, entry point `main`
    pub fn from_compiled(path: &str, stage: ShaderStage) -> (d: Self)
        ensures
            d.source matches ShaderSource::Compiled(p) && p@ == path@,
            d.stage == stage,
            d.entry_point@ == "main"@,
    {
        ShaderDescriptor {
            source: ShaderSource::Compiled(path.to_owned()),
            stage,
            entry_point: "main".to_owned(),
        }
    }

    /// The same shader with another entry point
    pub fn with_entry_point(self, entry_point: &str) -> (d: Self)
        ensures
            d.source == self.source,
            d.stage == self.stage,
            d.entry_point@ == entry_point@,
    {
        ShaderDescriptor { source: self.source, stage: self.stage, entry_point: entry_point.to_owned() }
    }
}

/// Component layout of a vertex attribute in a graph pipeline
#[derive(Debug, Clone, Copy, PartialEq, Eq, Structural)]
pub enum VertexFormat {
    Float32,
    Float32x2,
    Float32x3,
    Float32x4,
    Uint32,
}

/// A vertex attribute of a graph pipeline
#[derive(Debug, Clone, Copy, PartialEq, Eq, Structural)]
pub struct VertexAttribute {
    pub location: u32,
    pub format: VertexFormat,
    pub offset: u32,
}

/// Rate at which a vertex binding advances
#[derive(Debug, Clone, Copy, PartialEq, Eq, Structural)]
pub enum InputRate {
    Vertex,
    Instance,
}

/// A vertex buffer binding of a graph pipeline
#[derive(Debug, Clone, Copy, PartialEq, Eq, Structural)]
pub struct VertexBinding {
    pub binding: u32,
    pub stride: u32,
    pub input_rate: InputRate,
}

/// Vertex input layout of a graph pipeline
#[derive(Debug, Clone)]
pub struct VertexLayout {
    pub attributes: Vec<VertexAttribute>,
    pub bindings: Vec<VertexBinding>,
}

impl VertexLayout {
    /// An empty layout
    pub fn new() -> (l: Self)
        ensures
            l.attributes@ == Seq::<VertexAttribute>::empty(),
            l.bindings@ == Seq::<VertexBinding>::empty(),
    {
        VertexLayout { attributes: Vec::new(), bindings: Vec::new() }
    }

    /// Append an attribute
    pub fn add_attribute(&mut self, attribute: VertexAttribute)
        ensures
            final(self).attributes@ == old(self).attributes@.push(attribute),
            final(self).bindings@ == old(self).bindings@,
    {
        self.attributes.push(attribute);
    }

    /// Append a binding
    pub fn add_binding(&mut self, binding: VertexBinding)
        ensures
            final(self).bindings@ == old(self).bindings@.push(binding),
            final(self).attributes@ == old(self).attributes@,
    {
        self.bindings.push(binding);
    }
}

/// Face culling of a graph pipeline
#[derive(Debug, Clone, Copy, PartialEq, Eq, Structural)]
pub enum CullMode {
    /// No face is culled
    Off,
    Front,
    Back,
}

/// The pipeline a pass asks for: its shaders (by registered name) and state
#[derive(Debug, Clone)]
pub struct PipelineRequest {
    /// Registered name of the vertex shader, if the pass names one
    pub vertex_shader: Option<String>,
    /// Registered name of the fragment shader, if the pass names one
    pub fragment_shader: Option<String>,
    pub vertex_layout: Option<VertexLayout>,
    pub depth_test: bool,
    pub depth_write: bool,
    pub cull_mode: CullMode,
    /// Whether a named shader missing from the registry is an error (true) or
    /// leaves the pipeline without that shader (false)
    pub shaders_required: bool,
}

/// What a pipeline request asks for, with its strings and vectors taken by their views
pub struct PipelineSpec {
    pub vertex_shader: Option<Seq<char>>,
    pub fragment_shader: Option<Seq<char>>,
    /// Attributes and bindings of the vertex layout
    pub vertex_layout: Option<(Seq<VertexAttribute>, Seq<VertexBinding>)>,
    pub depth_test: bool,
    pub depth_write: bool,
    pub cull_mode: CullMode,
    pub shaders_required: bool,
}

/// The view of an optional string.
pub open spec fn opt_str(s: Option<String>) -> Option<Seq<char>> {
    match s {
        Some(v) => Some(v@),
        None => None,
    }
}

impl View for PipelineRequest {
    type V = PipelineSpec;

    open spec fn view(&self) -> PipelineSpec {
        PipelineSpec {
            vertex_shader: opt_str(self.vertex_shader),
            fragment_shader: opt_str(self.fragment_shader),
            vertex_layout: match self.vertex_layout {
                Some(l) => Some((l.attributes@, l.bindings@)),
                None => None,
            },
            depth_test: self.depth_test,
            depth_write: self.depth_write,
            cull_mode: self.cull_mode,
            shaders_required: self.shaders_required,
        }
    }
}

/// Width of the indices in an index buffer
#[derive(Debug, Clone, Copy, PartialEq, Eq, Structural)]
pub enum IndexType {
    U16,
    U32,
}

/// A buffer a pass binds: a graph resource or a buffer the backend already owns
#[derive(Debug, Clone, Copy, PartialEq, Eq, Structural)]
pub enum BufferRef {
    Graph(ResourceId),
    External(BufferHandle),
}

/// A texture a pass binds: a graph resource or a texture the backend already owns
#[derive(Debug, Clone, Copy, PartialEq, Eq, Structural)]
pub enum TextureRef {
    Graph(ResourceId),
    External(TextureHandle),
}

/// Push-constant contents
#[derive(Debug, Clone, Copy, PartialEq, Eq, Structural)]
pub enum PushData {
    /// Model matrix then normal matrix of a transform (128 bytes); `None` is the default transform
    ModelAndNormal(Option<TransformId>),
    /// The fixed view-projection of the vertex-colored test camera (64 bytes)
    FixedViewProjection,
}

/// A command a pass records
#[derive(Debug, Clone, Copy, PartialEq, Eq, Structural)]
pub enum PassCommand {
    PushConstants { stages: u32, offset: u32, data: PushData },
    BindVertexBuffer { slot: u32, buffer: BufferRef, offset: u64 },
    BindIndexBuffer { buffer: BufferRef, offset: u64, index_type: IndexType },
    BindUniformBuffer { set: u32, binding: u32, buffer: BufferRef, offset: u64, size: u64 },
    BindTexture { set: u32, binding: u32, texture: TextureRef },
    Draw { vertex_count: u32, instance_count: u32, first_vertex: u32, first_instance: u32 },
    DrawIndexed {
        index_count: u32,
        instance_count: u32,
        first_index: u32,
        vertex_offset: i32,
        first_instance: u32,
    },
}

/// What the backend does when a command fails
#[derive(Debug, Clone, Copy, PartialEq, Eq, Structural)]
pub enum OnFailure {
    /// Report the failure and record nothing more for the pass
    StopPass,
    /// Report the failure and go on with the next command
    Continue,
    /// Treat the failure as a broken invariant of the program
    Abort,
}

/// A command with its failure policy
#[derive(Debug, Clone, Copy, PartialEq, Eq, Structural)]
pub struct PassStep {
    pub command: PassCommand,
    pub on_failure: OnFailure,
}

/// A command that stops the pass when it fails.
pub open spec fn stop_step(command: PassCommand) -> PassStep {
    PassStep { command, on_failure: OnFailure::StopPass }
}

/// A command whose failure is an invariant violation.
pub open spec fn abort_step(command: PassCommand) -> PassStep {
    PassStep { command, on_failure: OnFailure::Abort }
}

/// The buffer a step binds as the uniform buffer at `set`/`binding`, if it binds one there.
pub open spec fn uniform_bound_at(step: PassStep, set: u32, binding: u32) -> Option<BufferRef> {
    match step.command {
        PassCommand::BindUniformBuffer { set: s, binding: b, buffer, .. } => if s == set && b == binding {
            Some(buffer)
        } else {
            None
        },
        _ => None,
    }
}

/// The steps bind `buffer` as the uniform buffer at `set`/`binding`, and
/// bind no other buffer there.
pub open spec fn binds_uniform(steps: Seq<PassStep>, set: u32, binding: u32, buffer: BufferRef) -> bool {
    &&& exists|i: int| 0 <= i < steps.len() && #[trigger] uniform_bound_at(steps[i], set, binding) == Some(buffer)
    &&& forall|i: int| 0 <= i < steps.len() && (#[trigger] uniform_bound_at(steps[i], set, binding)) is Some
        ==> uniform_bound_at(steps[i], set, binding) == Some(buffer)
}

/// The texture a step binds at `set`/`binding`, if it binds one there.
pub open spec fn texture_bound_at(step: PassStep, set: u32, binding: u32) -> Option<TextureRef> {
    match step.command {
        PassCommand::BindTexture { set: s, binding: b, texture } => if s == set && b == binding {
            Some(texture)
        } else {
            None
        },
        _ => None,
    }
}

/// The steps bind `texture` at `set`/`binding`, and bind no other texture there.
pub open spec fn binds_texture(steps: Seq<PassStep>, set: u32, binding: u32, texture: TextureRef) -> bool {
    &&& exists|i: int| 0 <= i < steps.len() && #[trigger] texture_bound_at(steps[i], set, binding) == Some(texture)
    &&& forall|i: int| 0 <= i < steps.len() && (#[trigger] texture_bound_at(steps[i], set, binding)) is Some
        ==> texture_bound_at(steps[i], set, binding) == Some(texture)
}

/// The index buffer a step binds, with the width its indices are read with, if it binds one.
pub open spec fn index_buffer_bound(step: PassStep) -> Option<(BufferRef, IndexType)> {
    match step.command {
        PassCommand::BindIndexBuffer { buffer, index_type, .. } => Some((buffer, index_type)),
        _ => None,
    }
}

/// The steps bind `buffer` as the index buffer, and every index buffer they
/// bind is `buffer` read as 32-bit indices.
pub open spec fn binds_u32_indices(steps: Seq<PassStep>, buffer: BufferRef) -> bool {
    &&& exists|i: int| 0 <= i < steps.len() && #[trigger] index_buffer_bound(steps[i]) == Some((buffer, IndexType::U32))
    &&& forall|i: int| 0 <= i < steps.len() && (#[trigger] index_buffer_bound(steps[i])) is Some
        ==> index_buffer_bound(steps[i]) == Some((buffer, IndexType::U32))
}

/// What a step pushes as push constants, if it pushes any.
pub open spec fn pushed_data(step: PassStep) -> Option<PushData> {
    match step.command {
        PassCommand::PushConstants { data, .. } => Some(data),
        _ => None,
    }
}

/// The steps push `data`, and push nothing else.
pub open spec fn pushes_only(steps: Seq<PassStep>, data: PushData) -> bool {
    &&& exists|i: int| 0 <= i < steps.len() && #[trigger] pushed_data(steps[i]) == Some(data)
    &&& forall|i: int| 0 <= i < steps.len() && (#[trigger] pushed_data(steps[i])) is Some
        ==> pushed_data(steps[i]) == Some(data)
}

/// The number of vertices (`false`) or indices (`true`) a step draws, if it draws.
pub open spec fn draw_of(step: PassStep) -> Option<(bool, u32)> {
    match step.command {
        PassCommand::Draw { vertex_count, .. } => Some((false, vertex_count)),
        PassCommand::DrawIndexed { index_count, .. } => Some((true, index_count)),
        _ => None,
    }
}

/// The steps draw exactly once: `count` indices when `indexed`, else `count` vertices.
pub open spec fn draws_once(steps: Seq<PassStep>, indexed: bool, count: u32) -> bool {
    &&& exists|i: int| 0 <= i < steps.len() && #[trigger] draw_of(steps[i]) == Some((indexed, count))
    &&& forall|i: int, j: int| 0 <= i < steps.len() && 0 <= j < steps.len()
        && (#[trigger] draw_of(steps[i])) is Some && (#[trigger] draw_of(steps[j])) is Some ==> i == j
}

/// A pass of the graph
pub struct RenderPass<C> {
    pub id: PassId,
    pub name: String,
    pub kind: PassKind,
    pub inputs: Vec<ResourceAccess>,
    pub outputs: Vec<ResourceAccess>,
    pub callback: Option<C>,
}

impl<C> RenderPass<C> {
    /// A pass with no accesses and no callback
    pub fn new(id: PassId, name: &str, kind: PassKind) -> (p: Self)
        ensures
            p.id == id,
            p.name@ == name@,
            p.kind == kind,
            p.inputs@ == Seq::<ResourceAccess>::empty(),
            p.outputs@ == Seq::<ResourceAccess>::empty(),
            p.callback is None,
    {
        RenderPass {
            id,
            name: name.to_owned(),
            kind,
            inputs: Vec::new(),
            outputs: Vec::new(),
            callback: None,
        }
    }

    /// Declare a resource the pass reads
    pub fn add_input(&mut self, access: ResourceAccess)
        ensures
            final(self).inputs@ == old(self).inputs@.push(access),
            final(self).outputs@ == old(self).outputs@,
            final(self).id == old(self).id,
            final(self).name@ == old(self).name@,
            final(self).kind == old(self).kind,
            final(self).callback == old(self).callback,
    {
        self.inputs.push(access);
    }

    /// Declare a resource the pass writes
    pub fn add_output(&mut self, access: ResourceAccess)
        ensures
            final(self).outputs@ == old(self).outputs@.push(access),
            final(self).inputs@ == old(self).inputs@,
            final(self).id == old(self).id,
            final(self).name@ == old(self).name@,
            final(self).kind == old(self).kind,
            final(self).callback == old(self).callback,
    {
        self.outputs.push(access);
    }

    /// The same pass with a callback
    pub fn with_callback(self, callback: C) -> (p: Self)
        ensures
            p.callback == Some(callback),
            p.id == self.id,
            p.name@ == self.name@,
            p.kind == self.kind,
            p.inputs@ == self.inputs@,
            p.outputs@ == self.outputs@,
    {
        RenderPass {
            id: self.id,
            name: self.name,
            kind: self.kind,
            inputs: self.inputs,
            outputs: self.outputs,
            callback: Some(callback),
        }
    }
}

/// What a lookup of `name` among the registrations `s` gives: the shader
/// registered last under that name.
pub open spec fn shader_lookup(s: Seq<(String, ShaderDescriptor)>, name: Seq<char>) -> Option<ShaderDescriptor>
    decreases s.len(),
{
    if s.len() == 0 {
        None
    } else if s.last().0@ == name {
        Some(s.last().1)
    } else {
        shader_lookup(s.drop_last(), name)
    }
}

/// A lookup finds the shader registered last under its name: right after a
/// registration, its own name finds it and every other name finds what it found before.
pub proof fn lemma_register_then_lookup(s: Seq<(String, ShaderDescriptor)>, name: String, d: ShaderDescriptor, other: Seq<char>)
    ensures
        shader_lookup(s.push((name, d)), name@) == Some(d),
        other != name@ ==> shader_lookup(s.push((name, d)), other) == shader_lookup(s, other),
{
    assert(s.push((name, d)).drop_last() =~= s);
}

/// The declared passes, resources and shaders of a frame
pub struct RenderGraph<C> {
    passes: Vec<RenderPass<C>>,
    resources: Vec<GraphResource>,
    shaders: Vec<(String, ShaderDescriptor)>,
}

impl<C> RenderGraph<C> {
    /// The passes in the order they were added.
    pub closed spec fn pass_seq(&self) -> Seq<RenderPass<C>> {
        self.passes@
    }

    /// The resources in the order they were declared.
    pub closed spec fn resource_seq(&self) -> Seq<GraphResource> {
        self.resources@
    }

    /// The shader registrations in the order they were made.
    pub closed spec fn shader_seq(&self) -> Seq<(String, ShaderDescriptor)> {
        self.shaders@
    }

    /// The shader a lookup of `name` finds.
    pub open spec fn shader_for(&self, name: Seq<char>) -> Option<ShaderDescriptor> {
        shader_lookup(self.shader_seq(), name)
    }

    /// Every pass stands at the position its id names.
    pub open spec fn ids_match_positions(&self) -> bool {
        forall|i: int| 0 <= i < self.pass_seq().len() ==> #[trigger] self.pass_seq()[i].id == PassId(i as usize)
    }

    /// Adding a pass whose id is the number of passes before it, as every pass
    /// constructor does, keeps every pass at the position its id names.
    pub proof fn lemma_pass_added_keeps_ids(before: Self, after: Self)
        requires
            before.ids_match_positions(),
            after.pass_seq().len() == before.pass_seq().len() + 1,
            after.pass_seq().drop_last() == before.pass_seq(),
            after.pass_seq().last().id == PassId(before.pass_seq().len() as usize),
        ensures
            after.ids_match_positions(),
    {
        assert forall|i: int| 0 <= i < after.pass_seq().len() implies #[trigger] after.pass_seq()[i].id == PassId(i as usize) by {
            if i < before.pass_seq().len() {
                assert(after.pass_seq().drop_last()[i] == after.pass_seq()[i]);
            }
        }
    }

    /// An empty graph
    pub fn new() -> (g: Self)
        ensures
            g.pass_seq() == Seq::<RenderPass<C>>::empty(),
            g.resource_seq() == Seq::<GraphResource>::empty(),
            g.shader_seq() == Seq::<(String, ShaderDescriptor)>::empty(),
    {
        RenderGraph { passes: Vec::new(), resources: Vec::new(), shaders: Vec::new() }
    }

    /// The id the next added pass gets: the number of passes so far
    pub fn next_pass_id(&self) -> (id: PassId)
        ensures
            id == PassId(self.pass_seq().len() as usize),
    {
        PassId(self.passes.len())
    }

    /// Append a pass
    pub fn add_pass(&mut self, pass: RenderPass<C>)
        ensures
            final(self).pass_seq() == old(self).pass_seq().push(pass),
            final(self).resource_seq() == old(self).resource_seq(),
            final(self).shader_seq() == old(self).shader_seq(),
    {
        self.passes.push(pass);
    }

    /// The passes in the order they were added
    pub fn passes(&self) -> (s: &[RenderPass<C>])
        ensures
            s@ == self.pass_seq(),
    {
        self.passes.as_slice()
    }

    /// The declared resources
    pub fn resources(&self) -> (s: &[GraphResource])
        ensures
            s@ == self.resource_seq(),
    {
        self.resources.as_slice()
    }

    /// Declare a resource; its id is its position
    pub fn create_resource(&mut self, name: &str, descriptor: ResourceDescriptor) -> (id: ResourceId)
        ensures
            id == ResourceId(old(self).resource_seq().len() as usize),
            id.0 == old(self).resource_seq().len(),
            final(self).resource_seq().len() == old(self).resource_seq().len() + 1,
            final(self).resource_seq().take(old(self).resource_seq().len() as int) == old(self).resource_seq(),
            final(self).resource_seq().last().name@ == name@,
            final(self).resource_seq().last().descriptor == descriptor,
            final(self).resource_seq().last().initial_data is None,
            final(self).pass_seq() == old(self).pass_seq(),
            final(self).shader_seq() == old(self).shader_seq(),
    {
        let id = ResourceId(self.resources.len());
        self.resources.push(GraphResource { name: name.to_owned(), descriptor, initial_data: None });
        proof {
            assert(self.resources@.take(old(self).resources@.len() as int) =~= old(self).resources@);
        }
        id
    }

    /// Declare a buffer filled with `data`; its size is the length of the data
    pub fn declare_buffer_with_data(&mut self, name: &str, data: Vec<u8>, usage: BufferUsageFlags) -> (id: ResourceId)
        ensures
            id == ResourceId(old(self).resource_seq().len() as usize),
            id.0 == old(self).resource_seq().len(),
            final(self).resource_seq().len() == old(self).resource_seq().len() + 1,
            final(self).resource_seq().take(old(self).resource_seq().len() as int) == old(self).resource_seq(),
            final(self).resource_seq().last().name@ == name@,
            final(self).resource_seq().last().descriptor
                == (ResourceDescriptor::Buffer { size: data@.len() as u64, usage }),
            final(self).resource_seq().last().initial_data matches Some(d) && d@ == data@,
            final(self).pass_seq() == old(self).pass_seq(),
            final(self).shader_seq() == old(self).shader_seq(),
    {
        let id = ResourceId(self.resources.len());
        let size = data.len() as u64;
        self.resources.push(GraphResource {
            name: name.to_owned(),
            descriptor: ResourceDescriptor::Buffer { size, usage },
            initial_data: Some(data),
        });
        proof {
            assert(self.resources@.take(old(self).resources@.len() as int) =~= old(self).resources@);
        }
        id
    }

    /// Register a shader under `name`; a later registration under the same name replaces it for lookups
    pub fn register_shader(&mut self, name: &str, descriptor: ShaderDescriptor)
        ensures
            final(self).shader_seq().len() == old(self).shader_seq().len() + 1,
            final(self).shader_seq().drop_last() == old(self).shader_seq(),
            final(self).shader_seq().last().0@ == name@,
            final(self).shader_seq().last().1 == descriptor,
            final(self).pass_seq() == old(self).pass_seq(),
            final(self).resource_seq() == old(self).resource_seq(),
    {
        self.shaders.push((name.to_owned(), descriptor));
        proof {
            assert(self.shaders@.drop_last() =~= old(self).shaders@);
        }
    }

    /// The shader registered last under `name`
    pub fn shader(&self, name: &str) -> (r: Option<&ShaderDescriptor>)
        ensures
            match r {
                Some(d) => self.shader_for(name@) == Some(*d),
                None => self.shader_for(name@) is None,
            },
    {
        let key = name.to_owned();
        let mut i = self.shaders.len();
        assert(self.shaders@.take(i as int) =~= self.shaders@);
        while i > 0
            invariant
                i <= self.shaders@.len(),
                key@ == name@,
                shader_lookup(self.shaders@, name@) == shader_lookup(self.shaders@.take(i as int), name@),
            decreases i,
        {
            let ghost prefix = self.shaders@.take(i as int);
            assert(prefix.drop_last() =~= self.shaders@.take(i - 1));
            if self.shaders[i - 1].0 == key {
                return Some(&self.shaders[i - 1].1);
            }
            i -= 1;
        }
        None
    }
}

} // verus!
