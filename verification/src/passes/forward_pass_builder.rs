//! Forward rendering pass built from buffers the backend already owns.

use vstd::prelude::*;
use crate::backends::binding::{BufferHandle, TextureHandle};
use crate::passes::{
    standard_attributes, standard_bindings, standard_vertex_layout, PassBuildError, PassCallback,
    CAMERA_UNIFORMS_SIZE, LIGHTING_UNIFORMS_SIZE, PUSH_STAGE_VERTEX,
};
use crate::render_graph::{
    binds_uniform, draw_of, draws_once, pushed_data, pushes_only, uniform_bound_at, stop_step, AccessType, BufferRef, CullMode, ImageLayout, OnFailure, PassCommand, PassId,
    PassKind, PassStep, PipelineRequest, PipelineSpec, PipelineStage, PushData, RenderGraph, RenderPass,
    ResourceAccess, ResourceId, TransformId,
};

verus! {

/// A forward pass added to a graph
pub struct ForwardRenderPass {
    pass_id: PassId,
}

impl ForwardRenderPass {
    /// The id of the pass in its graph.
    pub closed spec fn id(&self) -> PassId {
        self.pass_id
    }

    /// Get the pass ID
    pub fn pass_id(&self) -> (id: PassId)
        ensures
            id == self.id(),
    {
        self.pass_id
    }

    /// Create a builder for the pass
    pub fn builder() -> (b: ForwardRenderPassBuilder)
        ensures
            b@ == ForwardRenderSettings::initial(),
    {
        ForwardRenderPassBuilder::new()
    }
}

/// The settings a forward render pass builder holds
pub struct ForwardRenderSettings {
    pub color_output: Option<ResourceId>,
    pub depth_output: Option<ResourceId>,
    pub vertex_buffer: Option<BufferHandle>,
    pub camera_buffer: Option<BufferHandle>,
    pub lighting_buffer: Option<BufferHandle>,
    pub material_buffer: Option<BufferHandle>,
    pub texture: Option<TextureHandle>,
    pub transform: Option<TransformId>,
    pub vertex_count: u32,
    pub name: Seq<char>,
}

impl ForwardRenderSettings {
    /// The settings of a new builder.
    pub open spec fn initial() -> Self {
        ForwardRenderSettings {
            color_output: None,
            depth_output: None,
            vertex_buffer: None,
            camera_buffer: None,
            lighting_buffer: None,
            material_buffer: None,
            texture: None,
            transform: None,
            vertex_count: 0,
            name: "forward_render"@,
        }
    }

    /// The first problem that stops a build, in the order the build checks.
    pub open spec fn error(self) -> Option<PassBuildError> {
        if self.color_output is None {
            Some(PassBuildError::MissingColorOutput)
        } else if self.vertex_buffer is None {
            Some(PassBuildError::MissingVertexBuffer)
        } else if self.camera_buffer is None {
            Some(PassBuildError::MissingCameraBuffer)
        } else if self.lighting_buffer is None {
            Some(PassBuildError::MissingLightingBuffer)
        } else if self.vertex_count == 0 {
            Some(PassBuildError::ZeroVertexCount)
        } else {
            None
        }
    }

    /// The pass writes the color attachment, and the depth attachment if one is set.
    pub open spec fn outputs(self) -> Seq<ResourceAccess> {
        seq![ResourceAccess {
            resource: self.color_output.unwrap(),
            access: AccessType::Write,
            stage: PipelineStage(PipelineStage::COLOR_ATTACHMENT_OUTPUT),
            layout: Some(ImageLayout::ColorAttachment),
        }] + match self.depth_output {
            Some(d) => seq![ResourceAccess {
                resource: d,
                access: AccessType::Write,
                stage: PipelineStage(PipelineStage::COLOR_ATTACHMENT_OUTPUT),
                layout: Some(ImageLayout::DepthStencilAttachment),
            }],
            None => Seq::empty(),
        }
    }

    /// The callback the pass is built with.
    pub open spec fn callback(self) -> ForwardRenderPassCallback {
        ForwardRenderPassCallback {
            vertex_buffer: self.vertex_buffer.unwrap(),
            camera_buffer: self.camera_buffer.unwrap(),
            lighting_buffer: self.lighting_buffer.unwrap(),
            material_buffer: self.material_buffer,
            texture: self.texture,
            transform: self.transform,
            vertex_count: self.vertex_count,
        }
    }
}

/// Builder for ForwardRenderPass
pub struct ForwardRenderPassBuilder {
    color_output: Option<ResourceId>,
    depth_output: Option<ResourceId>,
    vertex_buffer: Option<BufferHandle>,
    camera_buffer: Option<BufferHandle>,
    lighting_buffer: Option<BufferHandle>,
    material_buffer: Option<BufferHandle>,
    texture: Option<TextureHandle>,
    transform: Option<TransformId>,
    vertex_count: u32,
    name: String,
}

impl View for ForwardRenderPassBuilder {
    type V = ForwardRenderSettings;

    closed spec fn view(&self) -> ForwardRenderSettings {
        ForwardRenderSettings {
            color_output: self.color_output,
            depth_output: self.depth_output,
            vertex_buffer: self.vertex_buffer,
            camera_buffer: self.camera_buffer,
            lighting_buffer: self.lighting_buffer,
            material_buffer: self.material_buffer,
            texture: self.texture,
            transform: self.transform,
            vertex_count: self.vertex_count,
            name: self.name@,
        }
    }
}

impl ForwardRenderPassBuilder {
    /// Create a new builder
    pub fn new() -> (b: Self)
        ensures
            b@ == ForwardRenderSettings::initial(),
    {
        ForwardRenderPassBuilder {
            color_output: None,
            depth_output: None,
            vertex_buffer: None,
            camera_buffer: None,
            lighting_buffer: None,
            material_buffer: None,
            texture: None,
            transform: None,
            vertex_count: 0,
            name: "forward_render".to_owned(),
        }
    }

    /// Set color output attachment
    pub fn color_output(self, resource: ResourceId) -> (b: Self)
        ensures
            b@ == (ForwardRenderSettings { color_output: Some(resource), ..self@ }),
    {
        ForwardRenderPassBuilder { color_output: Some(resource), ..self }
    }

    /// Set optional depth output attachment
    pub fn depth_output(self, resource: ResourceId) -> (b: Self)
        ensures
            b@ == (ForwardRenderSettings { depth_output: Some(resource), ..self@ }),
    {
        ForwardRenderPassBuilder { depth_output: Some(resource), ..self }
    }

    /// Set vertex buffer
    pub fn vertex_buffer(self, buffer: BufferHandle) -> (b: Self)
        ensures
            b@ == (ForwardRenderSettings { vertex_buffer: Some(buffer), ..self@ }),
    {
        ForwardRenderPassBuilder { vertex_buffer: Some(buffer), ..self }
    }

    /// Set camera uniforms buffer
    pub fn camera_buffer(self, buffer: BufferHandle) -> (b: Self)
        ensures
            b@ == (ForwardRenderSettings { camera_buffer: Some(buffer), ..self@ }),
    {
        ForwardRenderPassBuilder { camera_buffer: Some(buffer), ..self }
    }

    /// Set lighting uniforms buffer
    pub fn lighting_buffer(self, buffer: BufferHandle) -> (b: Self)
        ensures
            b@ == (ForwardRenderSettings { lighting_buffer: Some(buffer), ..self@ }),
    {
        ForwardRenderPassBuilder { lighting_buffer: Some(buffer), ..self }
    }

    /// Set optional material uniforms buffer
    pub fn material_buffer(self, buffer: BufferHandle) -> (b: Self)
        ensures
            b@ == (ForwardRenderSettings { material_buffer: Some(buffer), ..self@ }),
    {
        ForwardRenderPassBuilder { material_buffer: Some(buffer), ..self }
    }

    /// Set optional texture
    pub fn texture(self, texture: TextureHandle) -> (b: Self)
        ensures
            b@ == (ForwardRenderSettings { texture: Some(texture), ..self@ }),
    {
        ForwardRenderPassBuilder { texture: Some(texture), ..self }
    }

    /// Set object transform
    pub fn transform(self, transform: TransformId) -> (b: Self)
        ensures
            b@ == (ForwardRenderSettings { transform: Some(transform), ..self@ }),
    {
        ForwardRenderPassBuilder { transform: Some(transform), ..self }
    }

    /// Set vertex count
    pub fn vertex_count(self, count: u32) -> (b: Self)
        ensures
            b@ == (ForwardRenderSettings { vertex_count: count, ..self@ }),
    {
        ForwardRenderPassBuilder { vertex_count: count, ..self }
    }

    /// Set custom pass name
    pub fn with_name(self, name: &str) -> (b: Self)
        ensures
            b@ == (ForwardRenderSettings { name: name@, ..self@ }),
    {
        ForwardRenderPassBuilder { name: name.to_owned(), ..self }
    }

    /// Build the pass and add it to the graph
    pub fn build(self, graph: &mut RenderGraph<PassCallback>) -> (r: Result<ForwardRenderPass, PassBuildError>)
        ensures
            final(graph).shader_seq() == old(graph).shader_seq(),
            final(graph).resource_seq() == old(graph).resource_seq(),
            match r {
                Err(e) => {
                    &&& self@.error() == Some(e)
                    &&& final(graph).pass_seq() == old(graph).pass_seq()
                },
                Ok(pass) => {
                    let added = final(graph).pass_seq().last();
                    &&& self@.error() is None
                    &&& pass.id() == PassId(old(graph).pass_seq().len() as usize)
                    &&& final(graph).pass_seq().len() == old(graph).pass_seq().len() + 1
                    &&& final(graph).pass_seq().drop_last() == old(graph).pass_seq()
                    &&& added.id == pass.id()
                    &&& added.name@ == self@.name
                    &&& added.kind == PassKind::Graphics
                    &&& added.outputs@ == self@.outputs()
                    &&& added.inputs@ == Seq::<ResourceAccess>::empty()
                    &&& added.callback == Some(PassCallback::ForwardRender(self@.callback()))
                },
            },
    {
        let color_output = match self.color_output {
            Some(r) => r,
            None => return Err(PassBuildError::MissingColorOutput),
        };
        let vertex_buffer = match self.vertex_buffer {
            Some(b) => b,
            None => return Err(PassBuildError::MissingVertexBuffer),
        };
        let camera_buffer = match self.camera_buffer {
            Some(b) => b,
            None => return Err(PassBuildError::MissingCameraBuffer),
        };
        let lighting_buffer = match self.lighting_buffer {
            Some(b) => b,
            None => return Err(PassBuildError::MissingLightingBuffer),
        };
        if self.vertex_count == 0 {
            return Err(PassBuildError::ZeroVertexCount);
        }

        let pass_id = graph.next_pass_id();
        let mut pass = RenderPass::new(pass_id, self.name.as_str(), PassKind::Graphics);
        pass.add_output(ResourceAccess::new(
            color_output,
            AccessType::Write,
            PipelineStage::new(PipelineStage::COLOR_ATTACHMENT_OUTPUT),
            Some(ImageLayout::ColorAttachment),
        ));
        if let Some(depth_output) = self.depth_output {
            pass.add_output(ResourceAccess::new(
                depth_output,
                AccessType::Write,
                PipelineStage::new(PipelineStage::COLOR_ATTACHMENT_OUTPUT),
                Some(ImageLayout::DepthStencilAttachment),
            ));
        }
        assert(pass.outputs@ =~= self@.outputs());

        let callback = ForwardRenderPassCallback {
            vertex_buffer,
            camera_buffer,
            lighting_buffer,
            material_buffer: self.material_buffer,
            texture: self.texture,
            transform: self.transform,
            vertex_count: self.vertex_count,
        };
        let pass = pass.with_callback(PassCallback::ForwardRender(callback));
        graph.add_pass(pass);
        proof {
            assert(graph.pass_seq().drop_last() =~= old(graph).pass_seq());
        }
        Ok(ForwardRenderPass { pass_id })
    }
}

impl Default for ForwardRenderPassBuilder {
    fn default() -> (b: Self)
        ensures
            b@ == ForwardRenderSettings::initial(),
    {
        Self::new()
    }
}

/// The callback of a forward render pass
#[derive(Debug, Clone, Copy, PartialEq, Eq, Structural)]
pub struct ForwardRenderPassCallback {
    pub vertex_buffer: BufferHandle,
    pub camera_buffer: BufferHandle,
    pub lighting_buffer: BufferHandle,
    /// Kept with the pass; the current shader does not read a material
    pub material_buffer: Option<BufferHandle>,
    /// Kept with the pass; the current shader does not sample a texture
    pub texture: Option<TextureHandle>,
    pub transform: Option<TransformId>,
    pub vertex_count: u32,
}

impl ForwardRenderPassCallback {
    /// Push the transform, bind camera and lighting uniforms and the
    /// vertices, then draw; a failure ends the pass.
    pub open spec fn spec_execute(self) -> Seq<PassStep> {
        seq![
            stop_step(PassCommand::PushConstants { stages: PUSH_STAGE_VERTEX, offset: 0, data: PushData::ModelAndNormal(self.transform) }),
            stop_step(PassCommand::BindUniformBuffer { set: 0, binding: 0, buffer: BufferRef::External(self.camera_buffer), offset: 0, size: CAMERA_UNIFORMS_SIZE }),
            stop_step(PassCommand::BindUniformBuffer { set: 0, binding: 1, buffer: BufferRef::External(self.lighting_buffer), offset: 0, size: LIGHTING_UNIFORMS_SIZE }),
            stop_step(PassCommand::BindVertexBuffer { slot: 0, buffer: BufferRef::External(self.vertex_buffer), offset: 0 }),
            stop_step(PassCommand::Draw { vertex_count: self.vertex_count, instance_count: 1, first_vertex: 0, first_instance: 0 }),
        ]
    }

    /// What a forward render pass records, whatever the order of its other
    /// commands: first the push of the mesh's own model and normal matrices
    /// (its transform) to the vertex stage, and no other push constants; the
    /// camera uniforms at set 0 binding 0 and the lighting uniforms at set 0
    /// binding 1, nothing else bound there; one draw of the mesh's vertices.
    pub proof fn lemma_forward_render_commands(self)
        ensures
            self.spec_execute().len() > 0,
            self.spec_execute()[0].command == (PassCommand::PushConstants {
                stages: PUSH_STAGE_VERTEX,
                offset: 0,
                data: PushData::ModelAndNormal(self.transform),
            }),
            pushes_only(self.spec_execute(), PushData::ModelAndNormal(self.transform)),
            binds_uniform(self.spec_execute(), 0, 0, BufferRef::External(self.camera_buffer)),
            binds_uniform(self.spec_execute(), 0, 1, BufferRef::External(self.lighting_buffer)),
            draws_once(self.spec_execute(), false, self.vertex_count),
    {
        let s = self.spec_execute();
        assert(pushed_data(s[0]) == Some(PushData::ModelAndNormal(self.transform)));
        assert(uniform_bound_at(s[1], 0, 0) == Some(BufferRef::External(self.camera_buffer)));
        assert(uniform_bound_at(s[2], 0, 1) == Some(BufferRef::External(self.lighting_buffer)));
        assert(draw_of(s[4]) == Some((false, self.vertex_count)));
        assert forall|i: int| 0 <= i < s.len() implies {
            &&& (#[trigger] pushed_data(s[i])) is Some ==> pushed_data(s[i]) == Some(PushData::ModelAndNormal(self.transform))
            &&& uniform_bound_at(s[i], 0, 0) is Some ==> uniform_bound_at(s[i], 0, 0) == Some(BufferRef::External(self.camera_buffer))
            &&& uniform_bound_at(s[i], 0, 1) is Some ==> uniform_bound_at(s[i], 0, 1) == Some(BufferRef::External(self.lighting_buffer))
            &&& draw_of(s[i]) is Some ==> i == 4
        } by {
            assert(i == 0 || i == 1 || i == 2 || i == 3 || i == 4);
        }
    }

    /// The pipeline the pass asks for.
    pub open spec fn pipeline() -> PipelineSpec {
        PipelineSpec {
            vertex_shader: Some("forward.vert"@),
            fragment_shader: Some("forward.frag"@),
            vertex_layout: Some((standard_attributes(), standard_bindings())),
            depth_test: true,
            depth_write: true,
            cull_mode: CullMode::Back,
            shaders_required: true,
        }
    }

    /// The forward shaders, the standard vertex layout, depth test and write, back-face culling
    pub fn declare_pipeline(&self) -> (p: PipelineRequest)
        ensures
            p@ == Self::pipeline(),
    {
        PipelineRequest {
            vertex_shader: Some("forward.vert".to_owned()),
            fragment_shader: Some("forward.frag".to_owned()),
            vertex_layout: Some(standard_vertex_layout()),
            depth_test: true,
            depth_write: true,
            cull_mode: CullMode::Back,
            shaders_required: true,
        }
    }

    /// The commands the pass records, in order
    pub fn execute(&self) -> (r: Vec<PassStep>)
        ensures
            r@ == self.spec_execute(),
            r@[0].command == (PassCommand::PushConstants {
                stages: PUSH_STAGE_VERTEX,
                offset: 0,
                data: PushData::ModelAndNormal(self.transform),
            }),
            pushes_only(r@, PushData::ModelAndNormal(self.transform)),
            binds_uniform(r@, 0, 0, BufferRef::External(self.camera_buffer)),
            binds_uniform(r@, 0, 1, BufferRef::External(self.lighting_buffer)),
            draws_once(r@, false, self.vertex_count),
    {
        proof {
            self.lemma_forward_render_commands();
        }
        let mut steps: Vec<PassStep> = Vec::new();
        steps.push(PassStep {
            command: PassCommand::PushConstants { stages: PUSH_STAGE_VERTEX, offset: 0, data: PushData::ModelAndNormal(self.transform) },
            on_failure: OnFailure::StopPass,
        });
        steps.push(PassStep {
            command: PassCommand::BindUniformBuffer { set: 0, binding: 0, buffer: BufferRef::External(self.camera_buffer), offset: 0, size: CAMERA_UNIFORMS_SIZE },
            on_failure: OnFailure::StopPass,
        });
        steps.push(PassStep {
            command: PassCommand::BindUniformBuffer { set: 0, binding: 1, buffer: BufferRef::External(self.lighting_buffer), offset: 0, size: LIGHTING_UNIFORMS_SIZE },
            on_failure: OnFailure::StopPass,
        });
        steps.push(PassStep {
            command: PassCommand::BindVertexBuffer { slot: 0, buffer: BufferRef::External(self.vertex_buffer), offset: 0 },
            on_failure: OnFailure::StopPass,
        });
        steps.push(PassStep {
            command: PassCommand::Draw { vertex_count: self.vertex_count, instance_count: 1, first_vertex: 0, first_instance: 0 },
            on_failure: OnFailure::StopPass,
        });
        assert(steps@ =~= self.spec_execute());
        steps
    }
}

} // verus!
