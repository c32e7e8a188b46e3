//! Shadow map pass: renders scene depth from the light's point of view into
//! a depth image that the forward pass samples.

use vstd::prelude::*;
use crate::passes::{
    standard_attributes, standard_bindings, standard_vertex_layout, PassBuildError, PassCallback,
    LIGHT_UNIFORMS_SIZE,
};
use crate::render_graph::{
    binds_u32_indices, binds_uniform, draw_of, draws_once, index_buffer_bound, uniform_bound_at, abort_step, AccessType, BufferRef, BufferUsageFlags, Extent3D, ExtentMode, Format, ImageUsageFlags,
    ResourceDescriptor, SampleCount, CullMode, ImageLayout, IndexType, OnFailure, PassCommand,
    PassId, PassKind, PassStep, PipelineRequest, PipelineSpec, PipelineStage, RenderGraph, RenderPass,
    ResourceAccess, ResourceId, ShaderDescriptor, ShaderSource, ShaderStage,
};

verus! {

/// A shadow map pass added to a graph
pub struct ShadowMapPass {
    pass_id: PassId,
}

/// The two registrations `new` adds after `old`: the pre-compiled shadow
/// vertex shader (entry `VSMain`) and fragment shader (entry `PSMain`).
pub open spec fn registers_shadow_map_shaders(
    old: Seq<(String, ShaderDescriptor)>,
    new: Seq<(String, ShaderDescriptor)>,
) -> bool {
    &&& new.len() == old.len() + 2
    &&& new.take(old.len() as int) == old
    &&& new[old.len() as int].0@ == "shadow_map.vert"@
    &&& new[old.len() as int].1.source matches ShaderSource::Compiled(p) && p@ == "shaders/shadow_map.vert.spv"@
    &&& new[old.len() as int].1.stage == ShaderStage::Vertex
    &&& new[old.len() as int].1.entry_point@ == "VSMain"@
    &&& new[old.len() as int + 1].0@ == "shadow_map.frag"@
    &&& new[old.len() as int + 1].1.source matches ShaderSource::Compiled(p) && p@ == "shaders/shadow_map.frag.spv"@
    &&& new[old.len() as int + 1].1.stage == ShaderStage::Fragment
    &&& new[old.len() as int + 1].1.entry_point@ == "PSMain"@
}

impl ShadowMapPass {
    /// The id of the pass in its graph.
    pub closed spec fn id(&self) -> PassId {
        self.pass_id
    }

    /// Register the shaders used by shadow mapping
    pub fn register_shaders(graph: &mut RenderGraph<PassCallback>)
        ensures
            registers_shadow_map_shaders(old(graph).shader_seq(), final(graph).shader_seq()),
            final(graph).pass_seq() == old(graph).pass_seq(),
            final(graph).resource_seq() == old(graph).resource_seq(),
    {
        let ghost before = graph.shader_seq();
        graph.register_shader(
            "shadow_map.vert",
            ShaderDescriptor::from_compiled("shaders/shadow_map.vert.spv", ShaderStage::Vertex)
                .with_entry_point("VSMain"),
        );
        let ghost middle = graph.shader_seq();
        graph.register_shader(
            "shadow_map.frag",
            ShaderDescriptor::from_compiled("shaders/shadow_map.frag.spv", ShaderStage::Fragment)
                .with_entry_point("PSMain"),
        );
        proof {
            let after = graph.shader_seq();
            assert(after.drop_last() == middle);
            assert(middle.drop_last() == before);
            assert(after[before.len() as int] == middle[before.len() as int]);
            assert(after.take(before.len() as int) =~= before);
        }
    }

    /// Get the pass ID
    pub fn pass_id(&self) -> (id: PassId)
        ensures
            id == self.id(),
    {
        self.pass_id
    }

    /// Declare the resources of shadow mapping: the square depth image
    /// "shadow_map" of `resolution` pixels, rendered into and then sampled,
    /// and the uniform buffer "shadow_light_uniforms" holding `light_matrix`,
    /// the bytes of the light's view-projection matrix
    pub fn declare_resources(graph: &mut RenderGraph<PassCallback>, light_matrix: Vec<u8>, resolution: u32) -> (r: ShadowMapResources)
        ensures
            r.shadow_map.0 == old(graph).resource_seq().len(),
            r.light_uniforms.0 == old(graph).resource_seq().len() + 1,
            final(graph).resource_seq().len() == old(graph).resource_seq().len() + 2,
            final(graph).resource_seq().take(old(graph).resource_seq().len() as int) == old(graph).resource_seq(),
            final(graph).resource_seq()[r.shadow_map.0 as int].name@ == "shadow_map"@,
            final(graph).resource_seq()[r.shadow_map.0 as int].descriptor == shadow_map_image(resolution),
            final(graph).resource_seq()[r.shadow_map.0 as int].initial_data is None,
            final(graph).resource_seq()[r.light_uniforms.0 as int].name@ == "shadow_light_uniforms"@,
            final(graph).resource_seq()[r.light_uniforms.0 as int].descriptor
                == (ResourceDescriptor::Buffer { size: light_matrix@.len() as u64, usage: BufferUsageFlags(BufferUsageFlags::UNIFORM) }),
            final(graph).resource_seq()[r.light_uniforms.0 as int].initial_data matches Some(d) && d@ == light_matrix@,
            final(graph).pass_seq() == old(graph).pass_seq(),
            final(graph).shader_seq() == old(graph).shader_seq(),
    {
        let ghost before = graph.resource_seq();
        let shadow_map = graph.create_resource(
            "shadow_map",
            ResourceDescriptor::Image {
                format: Format::Depth32Float,
                extent: ExtentMode::Absolute(Extent3D::new_2d(resolution, resolution)),
                usage: ImageUsageFlags::new(ImageUsageFlags::DEPTH_STENCIL_ATTACHMENT | ImageUsageFlags::SAMPLED),
                samples: SampleCount::One,
                mip_levels: 1,
            },
        );
        let ghost middle = graph.resource_seq();
        let light_uniforms = graph.declare_buffer_with_data(
            "shadow_light_uniforms",
            light_matrix,
            BufferUsageFlags::new(BufferUsageFlags::UNIFORM),
        );
        proof {
            let after = graph.resource_seq();
            assert(after.take(middle.len() as int) == middle);
            assert(after[before.len() as int] == after.take(middle.len() as int)[before.len() as int]);
            assert(middle[before.len() as int] == middle.last());

            assert(after.take(before.len() as int) =~= middle.take(before.len() as int));
        }
        ShadowMapResources { shadow_map, light_uniforms }
    }

    /// Create a builder for the shadow map pass
    pub fn builder() -> (b: ShadowMapPassBuilder)
        ensures
            b@ == ShadowMapSettings::initial(),
    {
        ShadowMapPassBuilder::new()
    }
}

/// The depth image a shadow map is rendered into: square, 32-bit depth,
/// rendered into and sampled, one sample, one mip level.
pub open spec fn shadow_map_image(resolution: u32) -> ResourceDescriptor {
    ResourceDescriptor::Image {
        format: Format::Depth32Float,
        extent: ExtentMode::Absolute(Extent3D { width: resolution, height: resolution, depth: 1 }),
        usage: ImageUsageFlags(ImageUsageFlags::DEPTH_STENCIL_ATTACHMENT | ImageUsageFlags::SAMPLED),
        samples: SampleCount::One,
        mip_levels: 1,
    }
}

/// The graph resources created for shadow mapping
pub struct ShadowMapResources {
    pub shadow_map: ResourceId,
    pub light_uniforms: ResourceId,
}

/// The settings a shadow map pass builder holds
pub struct ShadowMapSettings {
    pub shadow_map_output: Option<ResourceId>,
    pub vertex_buffer: Option<ResourceId>,
    pub index_buffer: Option<ResourceId>,
    pub light_uniforms: Option<ResourceId>,
    pub index_count: u32,
    pub name: Seq<char>,
}

impl ShadowMapSettings {
    /// The settings of a new builder.
    pub open spec fn initial() -> Self {
        ShadowMapSettings {
            shadow_map_output: None,
            vertex_buffer: None,
            index_buffer: None,
            light_uniforms: None,
            index_count: 0,
            name: "shadow_map"@,
        }
    }

    /// The first problem that stops a build, in the order the build checks.
    pub open spec fn error(self) -> Option<PassBuildError> {
        if self.shadow_map_output is None {
            Some(PassBuildError::MissingShadowMapOutput)
        } else if self.vertex_buffer is None {
            Some(PassBuildError::MissingVertexBuffer)
        } else if self.index_buffer is None {
            Some(PassBuildError::MissingIndexBuffer)
        } else if self.light_uniforms is None {
            Some(PassBuildError::MissingLightUniforms)
        } else if self.index_count == 0 {
            Some(PassBuildError::ZeroIndexCount)
        } else {
            None
        }
    }

    /// The pass writes the shadow map as a depth attachment.
    pub open spec fn outputs(self) -> Seq<ResourceAccess> {
        seq![ResourceAccess {
            resource: self.shadow_map_output.unwrap(),
            access: AccessType::Write,
            stage: PipelineStage(PipelineStage::COLOR_ATTACHMENT_OUTPUT),
            layout: Some(ImageLayout::DepthStencilAttachment),
        }]
    }

    /// The pass reads vertices, indices and the light uniforms.
    pub open spec fn inputs(self) -> Seq<ResourceAccess> {
        seq![
            ResourceAccess {
                resource: self.vertex_buffer.unwrap(),
                access: AccessType::Read,
                stage: PipelineStage(PipelineStage::VERTEX_INPUT),
                layout: None,
            },
            ResourceAccess {
                resource: self.index_buffer.unwrap(),
                access: AccessType::Read,
                stage: PipelineStage(PipelineStage::VERTEX_INPUT),
                layout: None,
            },
            ResourceAccess {
                resource: self.light_uniforms.unwrap(),
                access: AccessType::Read,
                stage: PipelineStage(PipelineStage::VERTEX_SHADER),
                layout: None,
            },
        ]
    }

    /// The callback the pass is built with.
    pub open spec fn callback(self) -> ShadowMapPassCallback {
        ShadowMapPassCallback {
            index_count: self.index_count,
            vertex_buffer: self.vertex_buffer.unwrap(),
            index_buffer: self.index_buffer.unwrap(),
            light_uniforms: self.light_uniforms.unwrap(),
        }
    }
}

/// Builder for the shadow map pass
pub struct ShadowMapPassBuilder {
    shadow_map_output: Option<ResourceId>,
    vertex_buffer: Option<ResourceId>,
    index_buffer: Option<ResourceId>,
    light_uniforms: Option<ResourceId>,
    index_count: u32,
    name: String,
}

impl View for ShadowMapPassBuilder {
    type V = ShadowMapSettings;

    closed spec fn view(&self) -> ShadowMapSettings {
        ShadowMapSettings {
            shadow_map_output: self.shadow_map_output,
            vertex_buffer: self.vertex_buffer,
            index_buffer: self.index_buffer,
            light_uniforms: self.light_uniforms,
            index_count: self.index_count,
            name: self.name@,
        }
    }
}

impl ShadowMapPassBuilder {
    pub fn new() -> (b: Self)
        ensures
            b@ == ShadowMapSettings::initial(),
    {
        ShadowMapPassBuilder {
            shadow_map_output: None,
            vertex_buffer: None,
            index_buffer: None,
            light_uniforms: None,
            index_count: 0,
            name: "shadow_map".to_owned(),
        }
    }

    pub fn shadow_map_output(self, resource: ResourceId) -> (b: Self)
        ensures
            b@ == (ShadowMapSettings { shadow_map_output: Some(resource), ..self@ }),
    {
        ShadowMapPassBuilder { shadow_map_output: Some(resource), ..self }
    }

    pub fn vertex_buffer(self, resource: ResourceId) -> (b: Self)
        ensures
            b@ == (ShadowMapSettings { vertex_buffer: Some(resource), ..self@ }),
    {
        ShadowMapPassBuilder { vertex_buffer: Some(resource), ..self }
    }

    pub fn index_buffer(self, resource: ResourceId) -> (b: Self)
        ensures
            b@ == (ShadowMapSettings { index_buffer: Some(resource), ..self@ }),
    {
        ShadowMapPassBuilder { index_buffer: Some(resource), ..self }
    }

    pub fn light_uniforms(self, resource: ResourceId) -> (b: Self)
        ensures
            b@ == (ShadowMapSettings { light_uniforms: Some(resource), ..self@ }),
    {
        ShadowMapPassBuilder { light_uniforms: Some(resource), ..self }
    }

    pub fn index_count(self, count: u32) -> (b: Self)
        ensures
            b@ == (ShadowMapSettings { index_count: count, ..self@ }),
    {
        ShadowMapPassBuilder { index_count: count, ..self }
    }

    pub fn with_name(self, name: &str) -> (b: Self)
        ensures
            b@ == (ShadowMapSettings { name: name@, ..self@ }),
    {
        ShadowMapPassBuilder { name: name.to_owned(), ..self }
    }

    /// Build the pass and add it to the graph; the shadow shaders are
    /// registered first, whether or not the build then succeeds.
    pub fn build(self, graph: &mut RenderGraph<PassCallback>) -> (r: Result<ShadowMapPass, PassBuildError>)
        ensures
            registers_shadow_map_shaders(old(graph).shader_seq(), final(graph).shader_seq()),
            final(graph).resource_seq() == old(graph).resource_seq(),
            match r {
                Err(e) => {
                    &&& self@.error() == Some(e)
                    &&& final(graph).pass_seq() == old(graph).pass_seq()
                },
                Ok(pass) => {
                    let added = final(graph).pass_seq().last();
                    &&& self@.error() is None
                    &&& pass.id() == PassId(old(graph).pass_seq().len() as usize)
                    &&& final(graph).pass_seq().len() == old(graph).pass_seq().len() + 1
                    &&& final(graph).pass_seq().drop_last() == old(graph).pass_seq()
                    &&& added.id == pass.id()
                    &&& added.name@ == self@.name
                    &&& added.kind == PassKind::Graphics
                    &&& added.outputs@ == self@.outputs()
                    &&& added.inputs@ == self@.inputs()
                    &&& added.callback == Some(PassCallback::ShadowMap(self@.callback()))
                },
            },
    {
        ShadowMapPass::register_shaders(graph);

        let shadow_map_output = match self.shadow_map_output {
            Some(r) => r,
            None => return Err(PassBuildError::MissingShadowMapOutput),
        };
        let vertex_buffer = match self.vertex_buffer {
            Some(r) => r,
            None => return Err(PassBuildError::MissingVertexBuffer),
        };
        let index_buffer = match self.index_buffer {
            Some(r) => r,
            None => return Err(PassBuildError::MissingIndexBuffer),
        };
        let light_uniforms = match self.light_uniforms {
            Some(r) => r,
            None => return Err(PassBuildError::MissingLightUniforms),
        };
        if self.index_count == 0 {
            return Err(PassBuildError::ZeroIndexCount);
        }

        let pass_id = graph.next_pass_id();
        let mut pass = RenderPass::new(pass_id, self.name.as_str(), PassKind::Graphics);
        pass.add_output(ResourceAccess::new(
            shadow_map_output,
            AccessType::Write,
            PipelineStage::new(PipelineStage::COLOR_ATTACHMENT_OUTPUT),
            Some(ImageLayout::DepthStencilAttachment),
        ));
        pass.add_input(ResourceAccess::new(
            vertex_buffer,
            AccessType::Read,
            PipelineStage::new(PipelineStage::VERTEX_INPUT),
            None,
        ));
        pass.add_input(ResourceAccess::new(
            index_buffer,
            AccessType::Read,
            PipelineStage::new(PipelineStage::VERTEX_INPUT),
            None,
        ));
        pass.add_input(ResourceAccess::new(
            light_uniforms,
            AccessType::Read,
            PipelineStage::new(PipelineStage::VERTEX_SHADER),
            None,
        ));
        assert(pass.inputs@ =~= self@.inputs());
        assert(pass.outputs@ =~= self@.outputs());

        let callback = ShadowMapPassCallback {
            index_count: self.index_count,
            vertex_buffer,
            index_buffer,
            light_uniforms,
        };
        let pass = pass.with_callback(PassCallback::ShadowMap(callback));
        graph.add_pass(pass);
        proof {
            assert(graph.pass_seq().drop_last() =~= old(graph).pass_seq());
        }
        Ok(ShadowMapPass { pass_id })
    }
}

impl Default for ShadowMapPassBuilder {
    fn default() -> (b: Self)
        ensures
            b@ == ShadowMapSettings::initial(),
    {
        Self::new()
    }
}

/// The callback of a shadow map pass
#[derive(Debug, Clone, Copy, PartialEq, Eq, Structural)]
pub struct ShadowMapPassCallback {
    pub index_count: u32,
    pub vertex_buffer: ResourceId,
    pub index_buffer: ResourceId,
    pub light_uniforms: ResourceId,
}

impl ShadowMapPassCallback {
    /// Bind vertices, indices and the light uniforms, then draw the indices;
    /// a failure of any of them is fatal.
    pub open spec fn spec_execute(self) -> Seq<PassStep> {
        seq![
            abort_step(PassCommand::BindVertexBuffer { slot: 0, buffer: BufferRef::Graph(self.vertex_buffer), offset: 0 }),
            abort_step(PassCommand::BindIndexBuffer { buffer: BufferRef::Graph(self.index_buffer), offset: 0, index_type: IndexType::U32 }),
            abort_step(PassCommand::BindUniformBuffer { set: 0, binding: 0, buffer: BufferRef::Graph(self.light_uniforms), offset: 0, size: LIGHT_UNIFORMS_SIZE }),
            abort_step(PassCommand::DrawIndexed { index_count: self.index_count, instance_count: 1, first_index: 0, vertex_offset: 0, first_instance: 0 }),
        ]
    }

    /// What a shadow map pass records: the scene's index buffer, read as
    /// the 32-bit indices the scene's index list is laid out in, and no other
    /// index buffer; the light uniforms at set 0 binding 0 and nothing else
    /// there; one indexed draw of all `index_count` indices.
    pub proof fn lemma_shadow_map_commands(self)
        ensures
            binds_u32_indices(self.spec_execute(), BufferRef::Graph(self.index_buffer)),
            binds_uniform(self.spec_execute(), 0, 0, BufferRef::Graph(self.light_uniforms)),
            draws_once(self.spec_execute(), true, self.index_count),
    {
        let s = self.spec_execute();
        assert(index_buffer_bound(s[1]) == Some((BufferRef::Graph(self.index_buffer), IndexType::U32)));
        assert(uniform_bound_at(s[2], 0, 0) == Some(BufferRef::Graph(self.light_uniforms)));
        assert(draw_of(s[3]) == Some((true, self.index_count)));
        assert forall|i: int| 0 <= i < s.len() implies {
            &&& (#[trigger] index_buffer_bound(s[i])) is Some
                ==> index_buffer_bound(s[i]) == Some((BufferRef::Graph(self.index_buffer), IndexType::U32))
            &&& uniform_bound_at(s[i], 0, 0) is Some ==> uniform_bound_at(s[i], 0, 0) == Some(BufferRef::Graph(self.light_uniforms))
            &&& draw_of(s[i]) is Some ==> i == 3
        } by {
            assert(i == 0 || i == 1 || i == 2 || i == 3);
        }
    }

    /// The pipeline the pass asks for.
    pub open spec fn pipeline() -> PipelineSpec {
        PipelineSpec {
            vertex_shader: Some("shadow_map.vert"@),
            fragment_shader: Some("shadow_map.frag"@),
            vertex_layout: Some((standard_attributes(), standard_bindings())),
            depth_test: true,
            depth_write: true,
            cull_mode: CullMode::Back,
            shaders_required: true,
        }
    }

    /// The shadow shaders, the standard vertex layout, depth test and write, back-face culling
    pub fn declare_pipeline(&self) -> (p: PipelineRequest)
        ensures
            p@ == Self::pipeline(),
    {
        PipelineRequest {
            vertex_shader: Some("shadow_map.vert".to_owned()),
            fragment_shader: Some("shadow_map.frag".to_owned()),
            vertex_layout: Some(standard_vertex_layout()),
            depth_test: true,
            depth_write: true,
            cull_mode: CullMode::Back,
            shaders_required: true,
        }
    }

    /// The commands the pass records, in order
    pub fn execute(&self) -> (r: Vec<PassStep>)
        ensures
            r@ == self.spec_execute(),
            binds_u32_indices(r@, BufferRef::Graph(self.index_buffer)),
            binds_uniform(r@, 0, 0, BufferRef::Graph(self.light_uniforms)),
            draws_once(r@, true, self.index_count),
    {
        proof {
            self.lemma_shadow_map_commands();
        }
        let mut steps: Vec<PassStep> = Vec::new();
        steps.push(PassStep {
            command: PassCommand::BindVertexBuffer { slot: 0, buffer: BufferRef::Graph(self.vertex_buffer), offset: 0 },
            on_failure: OnFailure::Abort,
        });
        steps.push(PassStep {
            command: PassCommand::BindIndexBuffer { buffer: BufferRef::Graph(self.index_buffer), offset: 0, index_type: IndexType::U32 },
            on_failure: OnFailure::Abort,
        });
        steps.push(PassStep {
            command: PassCommand::BindUniformBuffer { set: 0, binding: 0, buffer: BufferRef::Graph(self.light_uniforms), offset: 0, size: LIGHT_UNIFORMS_SIZE },
            on_failure: OnFailure::Abort,
        });
        steps.push(PassStep {
            command: PassCommand::DrawIndexed { index_count: self.index_count, instance_count: 1, first_index: 0, vertex_offset: 0, first_instance: 0 },
            on_failure: OnFailure::Abort,
        });
        assert(steps@ =~= self.spec_execute());
        steps
    }
}

} // verus!
