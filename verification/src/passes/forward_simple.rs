//! Forward rendering pass whose resources all live in the render graph.
//!
//! The pass reads vertices, indices, camera and lighting uniforms (and
//! optionally a material, an albedo texture, a shadow map and shadow
//! uniforms) from graph resources and writes a color and a depth attachment.

use vstd::prelude::*;
use crate::passes::{
    standard_attributes, standard_bindings, standard_vertex_layout, PassBuildError, PassCallback,
    CAMERA_UNIFORMS_SIZE, LIGHTING_UNIFORMS_SIZE, PUSH_STAGE_VERTEX, SHADOW_UNIFORMS_SIZE,
};
use crate::passes::mesh_indices::{
    indices_fit, merge_mesh_indices, scene_indices, total_vertex_count, vertex_total, InlineMesh,
};
use crate::words::{encodes_words, word_values};
use crate::render_graph::{
    binds_u32_indices, binds_uniform, draw_of, draws_once, index_buffer_bound, pushed_data, pushes_only,
    uniform_bound_at, abort_step, AccessType, BufferRef, BufferUsageFlags, ResourceDescriptor, CullMode, ImageLayout, IndexType, PassCommand, PassId,
    PassKind, PassStep, PipelineRequest, PipelineSpec, PipelineStage, PushData, RenderGraph, RenderPass,
    ResourceAccess, ResourceId, ShaderDescriptor, ShaderSource, ShaderStage, TextureRef,
    TransformId, OnFailure,
};

verus! {

/// A forward pass added to a graph
pub struct ForwardSimplePass {
    pass_id: PassId,
    transform: Option<TransformId>,
    vertex_count: u32,
}

/// The two registrations `new` adds after `old`: the pre-compiled forward
/// vertex shader (entry `VSMain`) and fragment shader (entry `PSMain`).
pub open spec fn registers_forward_simple_shaders(
    old: Seq<(String, ShaderDescriptor)>,
    new: Seq<(String, ShaderDescriptor)>,
) -> bool {
    &&& new.len() == old.len() + 2
    &&& new.take(old.len() as int) == old
    &&& new[old.len() as int].0@ == "forward_simple.vert"@
    &&& new[old.len() as int].1.source matches ShaderSource::Compiled(p) && p@ == "shaders/forward_simple.vert.spv"@
    &&& new[old.len() as int].1.stage == ShaderStage::Vertex
    &&& new[old.len() as int].1.entry_point@ == "VSMain"@
    &&& new[old.len() as int + 1].0@ == "forward_simple.frag"@
    &&& new[old.len() as int + 1].1.source matches ShaderSource::Compiled(p) && p@ == "shaders/forward_simple.frag.spv"@
    &&& new[old.len() as int + 1].1.stage == ShaderStage::Fragment
    &&& new[old.len() as int + 1].1.entry_point@ == "PSMain"@
}

impl ForwardSimplePass {
    /// The id of the pass in its graph.
    pub closed spec fn id(&self) -> PassId {
        self.pass_id
    }

    /// The transform the pass draws with (`None`: the default transform).
    pub closed spec fn transform_of(&self) -> Option<TransformId> {
        self.transform
    }

    /// The number of vertices the pass was built for.
    pub closed spec fn vertex_count_of(&self) -> u32 {
        self.vertex_count
    }

    /// Register the shaders the pass uses
    pub fn register_shaders(graph: &mut RenderGraph<PassCallback>)
        ensures
            registers_forward_simple_shaders(old(graph).shader_seq(), final(graph).shader_seq()),
            final(graph).pass_seq() == old(graph).pass_seq(),
            final(graph).resource_seq() == old(graph).resource_seq(),
    {
        let ghost before = graph.shader_seq();
        graph.register_shader(
            "forward_simple.vert",
            ShaderDescriptor::from_compiled("shaders/forward_simple.vert.spv", ShaderStage::Vertex)
                .with_entry_point("VSMain"),
        );
        let ghost middle = graph.shader_seq();
        graph.register_shader(
            "forward_simple.frag",
            ShaderDescriptor::from_compiled("shaders/forward_simple.frag.spv", ShaderStage::Fragment)
                .with_entry_point("PSMain"),
        );
        proof {
            let after = graph.shader_seq();
            assert(after.drop_last() == middle);
            assert(middle.drop_last() == before);
            assert(after[before.len() as int] == middle[before.len() as int]);
            assert(after.take(before.len() as int) =~= before);
        }
    }

    /// Get the pass ID
    pub fn pass_id(&self) -> (id: PassId)
        ensures
            id == self.id(),
    {
        self.pass_id
    }

    /// Create a builder for the forward pass
    pub fn builder() -> (b: ForwardSimplePassBuilder)
        ensures
            b@ == ForwardSimpleSettings::initial(),
    {
        ForwardSimplePassBuilder::new()
    }
}

/// The graph resources and counts a forward pass is built from
pub struct ForwardSimpleSceneResources {
    pub vertex_buffer: ResourceId,
    pub index_buffer: ResourceId,
    pub vertex_count: u32,
    pub index_count: u32,
    pub camera_buffer: ResourceId,
    pub lighting_buffer: ResourceId,
    pub transform: Option<TransformId>,
}

/// An object of a scene, as far as the forward pass reads it
#[derive(Debug, Clone, Copy, PartialEq, Eq, Structural)]
pub enum SceneObjectKind {
    /// A mesh, placed by its transform
    Mesh { transform: TransformId },
    /// A glTF model, which the pass does not draw
    Model,
}

/// The transform the pass draws a scene with: that of the scene's first
/// object when it is a mesh, else none (the default transform).
pub open spec fn spec_scene_transform(objects: Seq<SceneObjectKind>) -> Option<TransformId> {
    if objects.len() > 0 {
        match objects[0] {
            SceneObjectKind::Mesh { transform } => Some(transform),
            SceneObjectKind::Model => None,
        }
    } else {
        None
    }
}

/// The transform the pass draws a scene with
pub fn scene_transform(objects: &[SceneObjectKind]) -> (t: Option<TransformId>)
    ensures
        t == spec_scene_transform(objects@),
{
    if objects.len() > 0 {
        match objects[0] {
            SceneObjectKind::Mesh { transform } => Some(transform),
            SceneObjectKind::Model => None,
        }
    } else {
        None
    }
}

/// Calls bytemuck's `cast_slice` from `u32` to `u8` on the indices and copies
/// the result. That cast never fails: it gives the indices' memory, four bytes
/// per index in order. Within an index the bytes come in the machine's byte
/// order, little-endian or big-endian, the same for every index; the contract
/// says that much and leaves open which of the two it is.
#[verifier::external_body]
fn index_bytes(indices: &Vec<u32>) -> (r: Vec<u8>)
    ensures
        encodes_words(r@, word_values(indices@), true) || encodes_words(r@, word_values(indices@), false),
{
    bytemuck::cast_slice::<u32, u8>(indices.as_slice()).to_vec()
}

/// The graph resource added last holds `data` as a buffer named `name` with `usage`.
pub open spec fn holds_buffer(r: crate::render_graph::GraphResource, name: Seq<char>, data: Seq<u8>, usage: u32) -> bool {
    &&& r.name@ == name
    &&& r.descriptor == (ResourceDescriptor::Buffer { size: data.len() as u64, usage: BufferUsageFlags(usage) })
    &&& r.initial_data matches Some(d) && d@ == data
}

impl ForwardSimplePass {
    /// Declare the buffers the pass draws a scene from: the vertices of its
    /// inline meshes `meshes` (already laid out as `vertex_data`), their
    /// merged indices, and the camera and lighting uniforms; and pick the
    /// transform from the scene's `objects`
    pub fn prepare_scene_resources(
        objects: &[SceneObjectKind],
        meshes: &Vec<InlineMesh>,
        vertex_data: Vec<u8>,
        camera_data: Vec<u8>,
        lighting_data: Vec<u8>,
        graph: &mut RenderGraph<PassCallback>,
    ) -> (r: ForwardSimpleSceneResources)
        requires
            indices_fit(meshes@),
        ensures
            ({
                let n = old(graph).resource_seq().len() as int;
                let res = final(graph).resource_seq();
                &&& res.len() == n + 4
                &&& res.take(n) == old(graph).resource_seq()
                &&& r.vertex_buffer == ResourceId(n as usize)
                &&& r.index_buffer == ResourceId((n + 1) as usize)
                &&& r.camera_buffer == ResourceId((n + 2) as usize)
                &&& r.lighting_buffer == ResourceId((n + 3) as usize)
                &&& holds_buffer(res[n], "forward_simple_vertices"@, vertex_data@, BufferUsageFlags::VERTEX)
                &&& res[n + 1].name@ == "forward_simple_indices"@
                &&& res[n + 1].descriptor == (ResourceDescriptor::Buffer {
                    size: (4 * scene_indices(meshes@).len()) as u64,
                    usage: BufferUsageFlags(BufferUsageFlags::INDEX),
                })
                &&& res[n + 1].initial_data matches Some(d) && {
                    ||| encodes_words(d@, scene_indices(meshes@), true)
                    ||| encodes_words(d@, scene_indices(meshes@), false)
                }
                &&& holds_buffer(res[n + 2], "forward_simple_camera"@, camera_data@, BufferUsageFlags::UNIFORM)
                &&& holds_buffer(res[n + 3], "forward_simple_lighting"@, lighting_data@, BufferUsageFlags::UNIFORM)
            }),
            final(graph).pass_seq() == old(graph).pass_seq(),
            final(graph).shader_seq() == old(graph).shader_seq(),
            r.vertex_count == vertex_total(meshes@),
            r.index_count == scene_indices(meshes@).len() as u32,
            r.transform == spec_scene_transform(objects@),
    {
        let ghost g0 = graph.resource_seq();
        let vertex_count = total_vertex_count(meshes);
        let indices = merge_mesh_indices(meshes);
        proof {
            assert(indices@.len() == scene_indices(meshes@).len()) by {
                assert(indices@.map_values(|x: u32| x as int).len() == indices@.len());
            }
        }
        let index_data = index_bytes(&indices);
        proof {
            assert(word_values(indices@) == scene_indices(meshes@));
        }
        let vertex_buffer = graph.declare_buffer_with_data(
            "forward_simple_vertices", vertex_data, BufferUsageFlags::new(BufferUsageFlags::VERTEX));
        let ghost g1 = graph.resource_seq();
        let index_buffer = graph.declare_buffer_with_data(
            "forward_simple_indices", index_data, BufferUsageFlags::new(BufferUsageFlags::INDEX));
        let ghost g2 = graph.resource_seq();
        let camera_buffer = graph.declare_buffer_with_data(
            "forward_simple_camera", camera_data, BufferUsageFlags::new(BufferUsageFlags::UNIFORM));
        let ghost g3 = graph.resource_seq();
        let lighting_buffer = graph.declare_buffer_with_data(
            "forward_simple_lighting", lighting_data, BufferUsageFlags::new(BufferUsageFlags::UNIFORM));
        proof {
            let g4 = graph.resource_seq();
            let n = g0.len() as int;
            assert(g4.take(n + 3) == g3);
            assert(g3.take(n + 2) == g2);
            assert(g2.take(n + 1) == g1);
            assert(g1.take(n) == g0);
            assert(g4[n] == g3[n]);
            assert(g3[n] == g2[n]);
            assert(g2[n] == g1[n]);
            assert(g4[n + 1] == g3[n + 1]);
            assert(g3[n + 1] == g2[n + 1]);
            assert(g4[n + 2] == g3[n + 2]);
            assert(g4.take(n) =~= g0);
        }
        let index_count = indices.len() as u32;
        ForwardSimpleSceneResources {
            vertex_buffer,
            index_buffer,
            vertex_count,
            index_count,
            camera_buffer,
            lighting_buffer,
            transform: scene_transform(objects),
        }
    }
}

/// The settings a forward pass builder holds
pub struct ForwardSimpleSettings {
    pub color_output: Option<ResourceId>,
    pub depth_output: Option<ResourceId>,
    pub vertex_buffer: Option<ResourceId>,
    pub index_buffer: Option<ResourceId>,
    pub camera_buffer: Option<ResourceId>,
    pub lighting_buffer: Option<ResourceId>,
    pub material_buffer: Option<ResourceId>,
    pub albedo_texture: Option<ResourceId>,
    pub shadow_map: Option<ResourceId>,
    pub shadow_uniforms: Option<ResourceId>,
    pub transform: Option<TransformId>,
    pub vertex_count: u32,
    pub index_count: u32,
    pub name: Seq<char>,
}

impl ForwardSimpleSettings {
    /// The settings of a new builder.
    pub open spec fn initial() -> Self {
        ForwardSimpleSettings {
            color_output: None,
            depth_output: None,
            vertex_buffer: None,
            index_buffer: None,
            camera_buffer: None,
            lighting_buffer: None,
            material_buffer: None,
            albedo_texture: None,
            shadow_map: None,
            shadow_uniforms: None,
            transform: None,
            vertex_count: 0,
            index_count: 0,
            name: "forward_simple"@,
        }
    }

    /// The first problem that stops a build, in the order the build checks.
    pub open spec fn error(self) -> Option<PassBuildError> {
        if self.color_output is None {
            Some(PassBuildError::MissingColorOutput)
        } else if self.depth_output is None {
            Some(PassBuildError::MissingDepthOutput)
        } else if self.vertex_buffer is None {
            Some(PassBuildError::MissingVertexBuffer)
        } else if self.camera_buffer is None {
            Some(PassBuildError::MissingCameraBuffer)
        } else if self.lighting_buffer is None {
            Some(PassBuildError::MissingLightingBuffer)
        } else if self.vertex_count == 0 {
            Some(PassBuildError::ZeroVertexCount)
        } else if self.index_buffer is Some && self.index_count == 0 {
            Some(PassBuildError::ZeroIndexCount)
        } else {
            None
        }
    }

    /// The attachments the pass writes: color, then depth.
    pub open spec fn outputs(self) -> Seq<ResourceAccess> {
        seq![
            ResourceAccess {
                resource: self.color_output.unwrap(),
                access: AccessType::Write,
                stage: PipelineStage(PipelineStage::COLOR_ATTACHMENT_OUTPUT),
                layout: Some(ImageLayout::ColorAttachment),
            },
            ResourceAccess {
                resource: self.depth_output.unwrap(),
                access: AccessType::Write,
                stage: PipelineStage(PipelineStage::COLOR_ATTACHMENT_OUTPUT),
                layout: Some(ImageLayout::DepthStencilAttachment),
            },
        ]
    }

    /// The resources the pass reads, in the order they are declared.
    pub open spec fn inputs(self) -> Seq<ResourceAccess> {
        seq![
            read_access(self.vertex_buffer.unwrap(), PipelineStage::VERTEX_INPUT, None),
        ]
        + index_read(self.index_buffer)
        + seq![
            read_access(self.camera_buffer.unwrap(), PipelineStage::VERTEX_SHADER, None),
            read_access(self.lighting_buffer.unwrap(), PipelineStage::FRAGMENT_SHADER, None),
        ]
        + optional_read(self.material_buffer, None)
        + optional_read(self.albedo_texture, Some(ImageLayout::ShaderReadOnly))
        + optional_read(self.shadow_map, Some(ImageLayout::ShaderReadOnly))
        + optional_read(self.shadow_uniforms, None)
    }

    /// The callback the pass is built with.
    pub open spec fn callback(self) -> ForwardSimplePassCallback {
        ForwardSimplePassCallback {
            transform: self.transform,
            vertex_count: self.vertex_count,
            index_count: self.index_count,
            vertex_buffer: self.vertex_buffer.unwrap(),
            index_buffer: self.index_buffer,
            camera_buffer: self.camera_buffer.unwrap(),
            lighting_buffer: self.lighting_buffer.unwrap(),
            material_buffer: self.material_buffer,
            albedo_texture: self.albedo_texture,
            shadow_map: self.shadow_map,
            shadow_uniforms: self.shadow_uniforms,
        }
    }
}

/// A read of `resource` at the given stage.
pub open spec fn read_access(resource: ResourceId, stage: u32, layout: Option<ImageLayout>) -> ResourceAccess {
    ResourceAccess { resource, access: AccessType::Read, stage: PipelineStage(stage), layout }
}

/// A vertex-input read of the index buffer, if there is one.
pub open spec fn index_read(index_buffer: Option<ResourceId>) -> Seq<ResourceAccess> {
    match index_buffer {
        Some(i) => seq![read_access(i, PipelineStage::VERTEX_INPUT, None)],
        None => Seq::empty(),
    }
}

/// A fragment-shader read of `resource`, if there is one.
pub open spec fn optional_read(resource: Option<ResourceId>, layout: Option<ImageLayout>) -> Seq<ResourceAccess> {
    match resource {
        Some(r) => seq![read_access(r, PipelineStage::FRAGMENT_SHADER, layout)],
        None => Seq::empty(),
    }
}

/// Builder for ForwardSimplePass
pub struct ForwardSimplePassBuilder {
    color_output: Option<ResourceId>,
    depth_output: Option<ResourceId>,
    vertex_buffer: Option<ResourceId>,
    index_buffer: Option<ResourceId>,
    camera_buffer: Option<ResourceId>,
    lighting_buffer: Option<ResourceId>,
    material_buffer: Option<ResourceId>,
    albedo_texture: Option<ResourceId>,
    shadow_map: Option<ResourceId>,
    shadow_uniforms: Option<ResourceId>,
    transform: Option<TransformId>,
    vertex_count: u32,
    index_count: u32,
    name: String,
}

impl View for ForwardSimplePassBuilder {
    type V = ForwardSimpleSettings;

    closed spec fn view(&self) -> ForwardSimpleSettings {
        ForwardSimpleSettings {
            color_output: self.color_output,
            depth_output: self.depth_output,
            vertex_buffer: self.vertex_buffer,
            index_buffer: self.index_buffer,
            camera_buffer: self.camera_buffer,
            lighting_buffer: self.lighting_buffer,
            material_buffer: self.material_buffer,
            albedo_texture: self.albedo_texture,
            shadow_map: self.shadow_map,
            shadow_uniforms: self.shadow_uniforms,
            transform: self.transform,
            vertex_count: self.vertex_count,
            index_count: self.index_count,
            name: self.name@,
        }
    }
}

impl ForwardSimplePassBuilder {
    /// Create a new builder
    pub fn new() -> (b: Self)
        ensures
            b@ == ForwardSimpleSettings::initial(),
    {
        ForwardSimplePassBuilder {
            color_output: None,
            depth_output: None,
            vertex_buffer: None,
            index_buffer: None,
            camera_buffer: None,
            lighting_buffer: None,
            material_buffer: None,
            albedo_texture: None,
            shadow_map: None,
            shadow_uniforms: None,
            transform: None,
            vertex_count: 0,
            index_count: 0,
            name: "forward_simple".to_owned(),
        }
    }

    /// Set color output attachment
    pub fn color_output(self, resource: ResourceId) -> (b: Self)
        ensures
            b@ == (ForwardSimpleSettings { color_output: Some(resource), ..self@ }),
    {
        ForwardSimplePassBuilder { color_output: Some(resource), ..self }
    }

    /// Set depth output attachment
    pub fn depth_output(self, resource: ResourceId) -> (b: Self)
        ensures
            b@ == (ForwardSimpleSettings { depth_output: Some(resource), ..self@ }),
    {
        ForwardSimplePassBuilder { depth_output: Some(resource), ..self }
    }

    /// Set vertex buffer
    pub fn vertex_buffer(self, resource: ResourceId) -> (b: Self)
        ensures
            b@ == (ForwardSimpleSettings { vertex_buffer: Some(resource), ..self@ }),
    {
        ForwardSimplePassBuilder { vertex_buffer: Some(resource), ..self }
    }

    /// Set index buffer
    pub fn index_buffer(self, resource: ResourceId) -> (b: Self)
        ensures
            b@ == (ForwardSimpleSettings { index_buffer: Some(resource), ..self@ }),
    {
        ForwardSimplePassBuilder { index_buffer: Some(resource), ..self }
    }

    /// Set camera uniforms buffer
    pub fn camera_buffer(self, resource: ResourceId) -> (b: Self)
        ensures
            b@ == (ForwardSimpleSettings { camera_buffer: Some(resource), ..self@ }),
    {
        ForwardSimplePassBuilder { camera_buffer: Some(resource), ..self }
    }

    /// Set lighting uniforms buffer
    pub fn lighting_buffer(self, resource: ResourceId) -> (b: Self)
        ensures
            b@ == (ForwardSimpleSettings { lighting_buffer: Some(resource), ..self@ }),
    {
        ForwardSimplePassBuilder { lighting_buffer: Some(resource), ..self }
    }

    /// Set optional material uniforms buffer
    pub fn material_buffer(self, resource: ResourceId) -> (b: Self)
        ensures
            b@ == (ForwardSimpleSettings { material_buffer: Some(resource), ..self@ }),
    {
        ForwardSimplePassBuilder { material_buffer: Some(resource), ..self }
    }

    /// Set optional albedo texture
    pub fn albedo_texture(self, resource: ResourceId) -> (b: Self)
        ensures
            b@ == (ForwardSimpleSettings { albedo_texture: Some(resource), ..self@ }),
    {
        ForwardSimplePassBuilder { albedo_texture: Some(resource), ..self }
    }

    /// Set shadow map texture
    pub fn shadow_map(self, resource: ResourceId) -> (b: Self)
        ensures
            b@ == (ForwardSimpleSettings { shadow_map: Some(resource), ..self@ }),
    {
        ForwardSimplePassBuilder { shadow_map: Some(resource), ..self }
    }

    /// Set shadow uniforms buffer
    pub fn shadow_uniforms(self, resource: ResourceId) -> (b: Self)
        ensures
            b@ == (ForwardSimpleSettings { shadow_uniforms: Some(resource), ..self@ }),
    {
        ForwardSimplePassBuilder { shadow_uniforms: Some(resource), ..self }
    }

    /// Set object transform
    pub fn transform(self, transform: TransformId) -> (b: Self)
        ensures
            b@ == (ForwardSimpleSettings { transform: Some(transform), ..self@ }),
    {
        ForwardSimplePassBuilder { transform: Some(transform), ..self }
    }

    /// Set vertex count
    pub fn vertex_count(self, count: u32) -> (b: Self)
        ensures
            b@ == (ForwardSimpleSettings { vertex_count: count, ..self@ }),
    {
        ForwardSimplePassBuilder { vertex_count: count, ..self }
    }

    /// Set index count
    pub fn index_count(self, count: u32) -> (b: Self)
        ensures
            b@ == (ForwardSimpleSettings { index_count: count, ..self@ }),
    {
        ForwardSimplePassBuilder { index_count: count, ..self }
    }

    /// Set custom pass name
    pub fn with_name(self, name: &str) -> (b: Self)
        ensures
            b@ == (ForwardSimpleSettings { name: name@, ..self@ }),
    {
        ForwardSimplePassBuilder { name: name.to_owned(), ..self }
    }

    /// A pass named after the builder that declares the builder's outputs and inputs
    #[verifier::rlimit(30)]
    fn declared_pass(
        &self,
        pass_id: PassId,
        color_output: ResourceId,
        depth_output: ResourceId,
        vertex_buffer: ResourceId,
        camera_buffer: ResourceId,
        lighting_buffer: ResourceId,
    ) -> (pass: RenderPass<PassCallback>)
        requires
            self@.color_output == Some(color_output),
            self@.depth_output == Some(depth_output),
            self@.vertex_buffer == Some(vertex_buffer),
            self@.camera_buffer == Some(camera_buffer),
            self@.lighting_buffer == Some(lighting_buffer),
        ensures
            pass.id == pass_id,
            pass.name@ == self@.name,
            pass.kind == PassKind::Graphics,
            pass.outputs@ == self@.outputs(),
            pass.inputs@ == self@.inputs(),
            pass.callback is None,
    {
        let mut pass = RenderPass::new(pass_id, self.name.as_str(), PassKind::Graphics);

        pass.add_output(ResourceAccess::new(
            color_output,
            AccessType::Write,
            PipelineStage::new(PipelineStage::COLOR_ATTACHMENT_OUTPUT),
            Some(ImageLayout::ColorAttachment),
        ));
        pass.add_output(ResourceAccess::new(
            depth_output,
            AccessType::Write,
            PipelineStage::new(PipelineStage::COLOR_ATTACHMENT_OUTPUT),
            Some(ImageLayout::DepthStencilAttachment),
        ));
        pass.add_input(ResourceAccess::new(
            vertex_buffer,
            AccessType::Read,
            PipelineStage::new(PipelineStage::VERTEX_INPUT),
            None,
        ));
        let ghost base = pass.inputs@;
        if let Some(index_buffer) = self.index_buffer {
            pass.add_input(ResourceAccess::new(
                index_buffer,
                AccessType::Read,
                PipelineStage::new(PipelineStage::VERTEX_INPUT),
                None,
            ));
        }
        assert(pass.inputs@ =~= base + index_read(self.index_buffer));
        pass.add_input(ResourceAccess::new(
            camera_buffer,
            AccessType::Read,
            PipelineStage::new(PipelineStage::VERTEX_SHADER),
            None,
        ));
        pass.add_input(ResourceAccess::new(
            lighting_buffer,
            AccessType::Read,
            PipelineStage::new(PipelineStage::FRAGMENT_SHADER),
            None,
        ));
        let ghost base = pass.inputs@;
        if let Some(material_buffer) = self.material_buffer {
            pass.add_input(ResourceAccess::new(
                material_buffer,
                AccessType::Read,
                PipelineStage::new(PipelineStage::FRAGMENT_SHADER),
                None,
            ));
        }
        assert(pass.inputs@ =~= base + optional_read(self.material_buffer, None));
        let ghost base = pass.inputs@;
        if let Some(albedo_texture) = self.albedo_texture {
            pass.add_input(ResourceAccess::new(
                albedo_texture,
                AccessType::Read,
                PipelineStage::new(PipelineStage::FRAGMENT_SHADER),
                Some(ImageLayout::ShaderReadOnly),
            ));
        }
        assert(pass.inputs@ =~= base + optional_read(self.albedo_texture, Some(ImageLayout::ShaderReadOnly)));
        let ghost base = pass.inputs@;
        if let Some(shadow_map_id) = self.shadow_map {
            pass.add_input(ResourceAccess::new(
                shadow_map_id,
                AccessType::Read,
                PipelineStage::new(PipelineStage::FRAGMENT_SHADER),
                Some(ImageLayout::ShaderReadOnly),
            ));
        }
        assert(pass.inputs@ =~= base + optional_read(self.shadow_map, Some(ImageLayout::ShaderReadOnly)));
        let ghost base = pass.inputs@;
        if let Some(shadow_uniforms_id) = self.shadow_uniforms {
            pass.add_input(ResourceAccess::new(
                shadow_uniforms_id,
                AccessType::Read,
                PipelineStage::new(PipelineStage::FRAGMENT_SHADER),
                None,
            ));
        }
        assert(pass.inputs@ =~= base + optional_read(self.shadow_uniforms, None));
        assert(pass.inputs@ =~= self@.inputs());
        assert(pass.outputs@ =~= self@.outputs());

        pass
    }

    /// Build the pass and add it to the graph.
    ///
    /// The shaders of the pass are registered first, whether or not the
    /// build then succeeds.
    pub fn build(self, graph: &mut RenderGraph<PassCallback>) -> (r: Result<ForwardSimplePass, PassBuildError>)
        ensures
            registers_forward_simple_shaders(old(graph).shader_seq(), final(graph).shader_seq()),
            final(graph).resource_seq() == old(graph).resource_seq(),
            match r {
                Err(e) => {
                    &&& self@.error() == Some(e)
                    &&& final(graph).pass_seq() == old(graph).pass_seq()
                },
                Ok(pass) => {
                    let added = final(graph).pass_seq().last();
                    &&& self@.error() is None
                    &&& pass.id() == PassId(old(graph).pass_seq().len() as usize)
                    &&& pass.transform_of() == self@.transform
                    &&& pass.vertex_count_of() == self@.vertex_count
                    &&& final(graph).pass_seq().len() == old(graph).pass_seq().len() + 1
                    &&& final(graph).pass_seq().drop_last() == old(graph).pass_seq()
                    &&& added.id == pass.id()
                    &&& added.name@ == self@.name
                    &&& added.kind == PassKind::Graphics
                    &&& added.outputs@ == self@.outputs()
                    &&& added.inputs@ == self@.inputs()
                    &&& added.callback == Some(PassCallback::ForwardSimple(self@.callback()))
                },
            },
    {
        ForwardSimplePass::register_shaders(graph);

        let color_output = match self.color_output {
            Some(r) => r,
            None => return Err(PassBuildError::MissingColorOutput),
        };
        let depth_output = match self.depth_output {
            Some(r) => r,
            None => return Err(PassBuildError::MissingDepthOutput),
        };
        let vertex_buffer = match self.vertex_buffer {
            Some(r) => r,
            None => return Err(PassBuildError::MissingVertexBuffer),
        };
        let camera_buffer = match self.camera_buffer {
            Some(r) => r,
            None => return Err(PassBuildError::MissingCameraBuffer),
        };
        let lighting_buffer = match self.lighting_buffer {
            Some(r) => r,
            None => return Err(PassBuildError::MissingLightingBuffer),
        };
        if self.vertex_count == 0 {
            return Err(PassBuildError::ZeroVertexCount);
        }
        if self.index_buffer.is_some() && self.index_count == 0 {
            return Err(PassBuildError::ZeroIndexCount);
        }

        let pass_id = graph.next_pass_id();
        let pass = self.declared_pass(pass_id, color_output, depth_output, vertex_buffer, camera_buffer, lighting_buffer);

        let callback = ForwardSimplePassCallback {
            transform: self.transform,
            vertex_count: self.vertex_count,
            index_count: self.index_count,
            vertex_buffer,
            index_buffer: self.index_buffer,
            camera_buffer,
            lighting_buffer,
            material_buffer: self.material_buffer,
            albedo_texture: self.albedo_texture,
            shadow_map: self.shadow_map,
            shadow_uniforms: self.shadow_uniforms,
        };
        let pass = pass.with_callback(PassCallback::ForwardSimple(callback));
        graph.add_pass(pass);
        proof {
            assert(graph.pass_seq().drop_last() =~= old(graph).pass_seq());
        }
        Ok(ForwardSimplePass { pass_id, transform: self.transform, vertex_count: self.vertex_count })
    }
}

impl Default for ForwardSimplePassBuilder {
    fn default() -> (b: Self)
        ensures
            b@ == ForwardSimpleSettings::initial(),
    {
        Self::new()
    }
}

/// The callback of a forward pass: the graph resources it binds and what it draws
#[derive(Debug, Clone, Copy, PartialEq, Eq, Structural)]
pub struct ForwardSimplePassCallback {
    pub transform: Option<TransformId>,
    pub vertex_count: u32,
    pub index_count: u32,
    pub vertex_buffer: ResourceId,
    /// The index buffer; without one the vertices are drawn in order
    pub index_buffer: Option<ResourceId>,
    pub camera_buffer: ResourceId,
    pub lighting_buffer: ResourceId,
    pub material_buffer: Option<ResourceId>,
    pub albedo_texture: Option<ResourceId>,
    pub shadow_map: Option<ResourceId>,
    pub shadow_uniforms: Option<ResourceId>,
}

impl ForwardSimplePassCallback {
    /// The commands the pass records: bind vertices, indices (if any) and
    /// uniforms, then the optional shadow uniforms and shadow map, push the
    /// transform and draw the indices, or the vertices when there are no
    /// indices. A failure of any of them is fatal.
    pub open spec fn spec_execute(self) -> Seq<PassStep> {
        seq![
            abort_step(PassCommand::BindVertexBuffer { slot: 0, buffer: BufferRef::Graph(self.vertex_buffer), offset: 0 }),
        ]
        + match self.index_buffer {
            Some(i) => seq![abort_step(PassCommand::BindIndexBuffer { buffer: BufferRef::Graph(i), offset: 0, index_type: IndexType::U32 })],
            None => Seq::empty(),
        }
        + seq![
            abort_step(PassCommand::BindUniformBuffer { set: 0, binding: 0, buffer: BufferRef::Graph(self.camera_buffer), offset: 0, size: CAMERA_UNIFORMS_SIZE }),
            abort_step(PassCommand::BindUniformBuffer { set: 0, binding: 1, buffer: BufferRef::Graph(self.lighting_buffer), offset: 0, size: LIGHTING_UNIFORMS_SIZE }),
        ]
        + match self.shadow_uniforms {
            Some(s) => seq![abort_step(PassCommand::BindUniformBuffer { set: 0, binding: 3, buffer: BufferRef::Graph(s), offset: 0, size: SHADOW_UNIFORMS_SIZE })],
            None => Seq::empty(),
        }
        + match self.shadow_map {
            Some(s) => seq![abort_step(PassCommand::BindTexture { set: 0, binding: 4, texture: TextureRef::Graph(s) })],
            None => Seq::empty(),
        }
        + seq![
            abort_step(PassCommand::PushConstants { stages: PUSH_STAGE_VERTEX, offset: 0, data: PushData::ModelAndNormal(self.transform) }),
            match self.index_buffer {
                Some(_) => abort_step(PassCommand::DrawIndexed { index_count: self.index_count, instance_count: 1, first_index: 0, vertex_offset: 0, first_instance: 0 }),
                None => abort_step(PassCommand::Draw { vertex_count: self.vertex_count, instance_count: 1, first_vertex: 0, first_instance: 0 }),
            },
        ]
    }

    /// What a forward-simple pass records: the camera uniforms at set 0
    /// binding 0 and the lighting uniforms at set 0 binding 1, nothing else
    /// bound at either; the shadow uniforms at binding 3 when there are any;
    /// the mesh's own transform as the only push constants; with an index
    /// buffer, that buffer read as 32-bit indices and one indexed draw of all
    /// `index_count` indices; without one, no index buffer and one draw of
    /// `vertex_count` vertices.
    pub proof fn lemma_forward_simple_commands(self)
        ensures
            binds_uniform(self.spec_execute(), 0, 0, BufferRef::Graph(self.camera_buffer)),
            binds_uniform(self.spec_execute(), 0, 1, BufferRef::Graph(self.lighting_buffer)),
            pushes_only(self.spec_execute(), PushData::ModelAndNormal(self.transform)),
            self.shadow_uniforms matches Some(u) ==> binds_uniform(self.spec_execute(), 0, 3, BufferRef::Graph(u)),
            self.index_buffer matches Some(ib) ==> {
                &&& binds_u32_indices(self.spec_execute(), BufferRef::Graph(ib))
                &&& draws_once(self.spec_execute(), true, self.index_count)
            },
            self.index_buffer is None ==> {
                &&& forall|i: int| 0 <= i < self.spec_execute().len() ==> (#[trigger] index_buffer_bound(self.spec_execute()[i])) is None
                &&& draws_once(self.spec_execute(), false, self.vertex_count)
            },
    {
        let s = self.spec_execute();
        let ib: int = if self.index_buffer is Some { 1 } else { 0 };
        let su: int = if self.shadow_uniforms is Some { 1 } else { 0 };
        let sm: int = if self.shadow_map is Some { 1 } else { 0 };
        let push = 3 + ib + su + sm;
        assert(s.len() == 5 + ib + su + sm);
        assert(uniform_bound_at(s[1 + ib], 0, 0) == Some(BufferRef::Graph(self.camera_buffer)));
        assert(uniform_bound_at(s[2 + ib], 0, 1) == Some(BufferRef::Graph(self.lighting_buffer)));
        assert(pushed_data(s[push]) == Some(PushData::ModelAndNormal(self.transform)));
        if let Some(u) = self.shadow_uniforms {
            assert(uniform_bound_at(s[3 + ib], 0, 3) == Some(BufferRef::Graph(u)));
        }
        if let Some(b) = self.index_buffer {
            assert(index_buffer_bound(s[1]) == Some((BufferRef::Graph(b), IndexType::U32)));
            assert(draw_of(s[push + 1]) == Some((true, self.index_count)));
        } else {
            assert(draw_of(s[push + 1]) == Some((false, self.vertex_count)));
        }
        assert forall|i: int| 0 <= i < s.len() implies {
            &&& uniform_bound_at(s[i], 0, 0) is Some ==> uniform_bound_at(s[i], 0, 0) == Some(BufferRef::Graph(self.camera_buffer))
            &&& uniform_bound_at(s[i], 0, 1) is Some ==> uniform_bound_at(s[i], 0, 1) == Some(BufferRef::Graph(self.lighting_buffer))
            &&& (self.shadow_uniforms matches Some(u) ==> (uniform_bound_at(s[i], 0, 3) is Some
                ==> uniform_bound_at(s[i], 0, 3) == Some(BufferRef::Graph(u))))
            &&& (#[trigger] pushed_data(s[i])) is Some ==> pushed_data(s[i]) == Some(PushData::ModelAndNormal(self.transform))
            &&& index_buffer_bound(s[i]) is Some ==> (self.index_buffer matches Some(b)
                && index_buffer_bound(s[i]) == Some((BufferRef::Graph(b), IndexType::U32)))
            &&& draw_of(s[i]) is Some ==> i == push + 1
        } by {
            if i == 0 {
            } else if i < 1 + ib {
            } else if i == 1 + ib {
            } else if i == 2 + ib {
            } else if i < 3 + ib + su {
            } else if i < push {
            } else if i == push {
            } else {
                assert(i == push + 1);
            }
        }
    }

    /// The pipeline the pass asks for.
    pub open spec fn pipeline() -> PipelineSpec {
        PipelineSpec {
            vertex_shader: Some("forward_simple.vert"@),
            fragment_shader: Some("forward_simple.frag"@),
            vertex_layout: Some((standard_attributes(), standard_bindings())),
            depth_test: true,
            depth_write: true,
            cull_mode: CullMode::Off,
            shaders_required: true,
        }
    }

    /// The pipeline the pass asks for: the forward shaders, the standard
    /// vertex layout, depth test and write, no culling
    pub fn declare_pipeline(&self) -> (p: PipelineRequest)
        ensures
            p@ == Self::pipeline(),
    {
        PipelineRequest {
            vertex_shader: Some("forward_simple.vert".to_owned()),
            fragment_shader: Some("forward_simple.frag".to_owned()),
            vertex_layout: Some(standard_vertex_layout()),
            depth_test: true,
            depth_write: true,
            cull_mode: CullMode::Off,
            shaders_required: true,
        }
    }

    /// The commands the pass records, in order
    pub fn execute(&self) -> (r: Vec<PassStep>)
        ensures
            r@ == self.spec_execute(),
            binds_uniform(r@, 0, 0, BufferRef::Graph(self.camera_buffer)),
            binds_uniform(r@, 0, 1, BufferRef::Graph(self.lighting_buffer)),
            pushes_only(r@, PushData::ModelAndNormal(self.transform)),
            self.index_buffer matches Some(ib) ==> {
                &&& binds_u32_indices(r@, BufferRef::Graph(ib))
                &&& draws_once(r@, true, self.index_count)
            },
            self.index_buffer is None ==> draws_once(r@, false, self.vertex_count),
    {
        proof {
            self.lemma_forward_simple_commands();
        }
        let mut steps: Vec<PassStep> = Vec::new();
        steps.push(PassStep {
            command: PassCommand::BindVertexBuffer { slot: 0, buffer: BufferRef::Graph(self.vertex_buffer), offset: 0 },
            on_failure: OnFailure::Abort,
        });
        if let Some(i) = self.index_buffer {
            steps.push(PassStep {
                command: PassCommand::BindIndexBuffer { buffer: BufferRef::Graph(i), offset: 0, index_type: IndexType::U32 },
                on_failure: OnFailure::Abort,
            });
        }
        steps.push(PassStep {
            command: PassCommand::BindUniformBuffer { set: 0, binding: 0, buffer: BufferRef::Graph(self.camera_buffer), offset: 0, size: CAMERA_UNIFORMS_SIZE },
            on_failure: OnFailure::Abort,
        });
        steps.push(PassStep {
            command: PassCommand::BindUniformBuffer { set: 0, binding: 1, buffer: BufferRef::Graph(self.lighting_buffer), offset: 0, size: LIGHTING_UNIFORMS_SIZE },
            on_failure: OnFailure::Abort,
        });
        if let Some(s) = self.shadow_uniforms {
            steps.push(PassStep {
                command: PassCommand::BindUniformBuffer { set: 0, binding: 3, buffer: BufferRef::Graph(s), offset: 0, size: SHADOW_UNIFORMS_SIZE },
                on_failure: OnFailure::Abort,
            });
        }
        if let Some(s) = self.shadow_map {
            steps.push(PassStep {
                command: PassCommand::BindTexture { set: 0, binding: 4, texture: TextureRef::Graph(s) },
                on_failure: OnFailure::Abort,
            });
        }
        steps.push(PassStep {
            command: PassCommand::PushConstants { stages: PUSH_STAGE_VERTEX, offset: 0, data: PushData::ModelAndNormal(self.transform) },
            on_failure: OnFailure::Abort,
        });
        match self.index_buffer {
            Some(_) => steps.push(PassStep {
                command: PassCommand::DrawIndexed { index_count: self.index_count, instance_count: 1, first_index: 0, vertex_offset: 0, first_instance: 0 },
                on_failure: OnFailure::Abort,
            }),
            None => steps.push(PassStep {
                command: PassCommand::Draw { vertex_count: self.vertex_count, instance_count: 1, first_vertex: 0, first_instance: 0 },
                on_failure: OnFailure::Abort,
            }),
        }
        assert(steps@ =~= self.spec_execute());
        steps
    }
}

} // verus!
