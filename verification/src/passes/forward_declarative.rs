//! Declarative forward rendering pass: declares its dependencies, its
//! pipeline, what it prepares and what it records, and lets the graph add it.

use vstd::prelude::*;
use crate::backends::binding::{BufferHandle, TextureHandle};
use crate::passes::{
    CAMERA_UNIFORMS_SIZE, LIGHTING_UNIFORMS_SIZE, MATERIAL_UNIFORMS_SIZE, PUSH_STAGE_VERTEX,
};
use crate::render_graph::{
    binds_texture, binds_uniform, draw_of, draws_once, pushed_data, pushes_only, texture_bound_at, uniform_bound_at, stop_step, AccessType, BufferRef, CullMode, OnFailure, PassCommand, PassKind, PassStep,
    PipelineRequest, PipelineStage, PushData, ResourceAccess, ResourceId, TextureRef, TransformId,
};

verus! {

/// Declarative forward rendering pass with lighting
pub struct ForwardDeclarativePass {
    /// Color output resource
    color_output: ResourceId,
    /// Vertex buffer containing geometry
    vertex_buffer: BufferHandle,
    /// Camera uniform buffer (shared)
    camera_buffer: BufferHandle,
    /// Lighting uniform buffer (shared)
    lighting_buffer: BufferHandle,
    /// Optional material uniform buffer
    material_buffer: Option<BufferHandle>,
    /// Optional texture
    texture: Option<TextureHandle>,
    /// Object transform
    transform: TransformId,
    /// Number of vertices to draw
    vertex_count: u32,
}

/// A continue-on-failure step.
pub open spec fn continue_step(command: PassCommand) -> PassStep {
    PassStep { command, on_failure: OnFailure::Continue }
}

impl ForwardDeclarativePass {
    pub closed spec fn color_output_of(&self) -> ResourceId { self.color_output }
    pub closed spec fn vertex_buffer_of(&self) -> BufferHandle { self.vertex_buffer }
    pub closed spec fn camera_buffer_of(&self) -> BufferHandle { self.camera_buffer }
    pub closed spec fn lighting_buffer_of(&self) -> BufferHandle { self.lighting_buffer }
    pub closed spec fn material_buffer_of(&self) -> Option<BufferHandle> { self.material_buffer }
    pub closed spec fn texture_of(&self) -> Option<TextureHandle> { self.texture }
    pub closed spec fn transform_of(&self) -> TransformId { self.transform }
    pub closed spec fn vertex_count_of(&self) -> u32 { self.vertex_count }

    /// Create a new declarative forward rendering pass
    pub fn new(
        color_output: ResourceId,
        vertex_buffer: BufferHandle,
        camera_buffer: BufferHandle,
        lighting_buffer: BufferHandle,
        material_buffer: Option<BufferHandle>,
        texture: Option<TextureHandle>,
        transform: TransformId,
        vertex_count: u32,
    ) -> (p: Self)
        ensures
            p.color_output_of() == color_output,
            p.vertex_buffer_of() == vertex_buffer,
            p.camera_buffer_of() == camera_buffer,
            p.lighting_buffer_of() == lighting_buffer,
            p.material_buffer_of() == material_buffer,
            p.texture_of() == texture,
            p.transform_of() == transform,
            p.vertex_count_of() == vertex_count,
    {
        ForwardDeclarativePass {
            color_output,
            vertex_buffer,
            camera_buffer,
            lighting_buffer,
            material_buffer,
            texture,
            transform,
            vertex_count,
        }
    }

    /// The name of the pass
    pub fn name(&self) -> (s: &'static str)
        ensures
            s@ == "forward_declarative"@,
    {
        "forward_declarative"
    }

    /// The kind of the pass
    pub fn kind(&self) -> (k: PassKind)
        ensures
            k == PassKind::Graphics,
    {
        PassKind::Graphics
    }

    /// The pass writes its color output; its buffers are not graph resources
    pub fn declare_dependencies(&self) -> (r: Vec<ResourceAccess>)
        ensures
            r@ == seq![ResourceAccess {
                resource: self.color_output_of(),
                access: AccessType::Write,
                stage: PipelineStage(PipelineStage::COLOR_ATTACHMENT_OUTPUT),
                layout: None,
            }],
    {
        let mut r = Vec::new();
        r.push(ResourceAccess::new(
            self.color_output,
            AccessType::Write,
            PipelineStage::new(PipelineStage::COLOR_ATTACHMENT_OUTPUT),
            None,
        ));
        assert(r@ =~= seq![ResourceAccess {
            resource: self.color_output_of(),
            access: AccessType::Write,
            stage: PipelineStage(PipelineStage::COLOR_ATTACHMENT_OUTPUT),
            layout: None,
        }]);
        r
    }

    /// The forward shaders if registered (a missing one is left out), no
    /// vertex layout, depth test and write, back-face culling
    pub fn declare_pipeline(&self) -> (p: PipelineRequest)
        ensures
            p.vertex_shader matches Some(s) && s@ == "forward.vert"@,
            p.fragment_shader matches Some(s) && s@ == "forward.frag"@,
            p.vertex_layout is None,
            p.depth_test,
            p.depth_write,
            p.cull_mode == CullMode::Back,
            !p.shaders_required,
    {
        PipelineRequest {
            vertex_shader: Some("forward.vert".to_owned()),
            fragment_shader: Some("forward.frag".to_owned()),
            vertex_layout: None,
            depth_test: true,
            depth_write: true,
            cull_mode: CullMode::Back,
            shaders_required: false,
        }
    }

    /// What the pass prepares: camera and lighting uniforms, then the material
    /// and texture if present; a failure ends the preparation.
    pub open spec fn spec_prepare(self) -> Seq<PassStep> {
        seq![
            stop_step(PassCommand::BindUniformBuffer { set: 0, binding: 0, buffer: BufferRef::External(self.camera_buffer_of()), offset: 0, size: CAMERA_UNIFORMS_SIZE }),
            stop_step(PassCommand::BindUniformBuffer { set: 0, binding: 1, buffer: BufferRef::External(self.lighting_buffer_of()), offset: 0, size: LIGHTING_UNIFORMS_SIZE }),
        ]
        + match self.material_buffer_of() {
            Some(m) => seq![stop_step(PassCommand::BindUniformBuffer { set: 0, binding: 3, buffer: BufferRef::External(m), offset: 0, size: MATERIAL_UNIFORMS_SIZE })],
            None => Seq::empty(),
        }
        + match self.texture_of() {
            Some(t) => seq![stop_step(PassCommand::BindTexture { set: 0, binding: 2, texture: TextureRef::External(t) })],
            None => Seq::empty(),
        }
    }

    /// What the pass records: the transform, camera and lighting uniforms
    /// (a failure ends the pass), the material and texture if present (a
    /// failure is reported and the pass goes on), the vertices and the draw.
    pub open spec fn spec_execute(self) -> Seq<PassStep> {
        seq![
            stop_step(PassCommand::PushConstants { stages: PUSH_STAGE_VERTEX, offset: 0, data: PushData::ModelAndNormal(Some(self.transform_of())) }),
            stop_step(PassCommand::BindUniformBuffer { set: 0, binding: 0, buffer: BufferRef::External(self.camera_buffer_of()), offset: 0, size: CAMERA_UNIFORMS_SIZE }),
            stop_step(PassCommand::BindUniformBuffer { set: 0, binding: 1, buffer: BufferRef::External(self.lighting_buffer_of()), offset: 0, size: LIGHTING_UNIFORMS_SIZE }),
        ]
        + match self.material_buffer_of() {
            Some(m) => seq![continue_step(PassCommand::BindUniformBuffer { set: 0, binding: 3, buffer: BufferRef::External(m), offset: 0, size: MATERIAL_UNIFORMS_SIZE })],
            None => Seq::empty(),
        }
        + match self.texture_of() {
            Some(t) => seq![continue_step(PassCommand::BindTexture { set: 0, binding: 2, texture: TextureRef::External(t) })],
            None => Seq::empty(),
        }
        + seq![
            stop_step(PassCommand::BindVertexBuffer { slot: 0, buffer: BufferRef::External(self.vertex_buffer_of()), offset: 0 }),
            stop_step(PassCommand::Draw { vertex_count: self.vertex_count_of(), instance_count: 1, first_vertex: 0, first_instance: 0 }),
        ]
    }

    /// What the pass prepares, in order
    pub fn prepare(&self) -> (r: Vec<PassStep>)
        ensures
            r@ == self.spec_prepare(),
    {
        let mut steps: Vec<PassStep> = Vec::new();
        steps.push(PassStep {
            command: PassCommand::BindUniformBuffer { set: 0, binding: 0, buffer: BufferRef::External(self.camera_buffer), offset: 0, size: CAMERA_UNIFORMS_SIZE },
            on_failure: OnFailure::StopPass,
        });
        steps.push(PassStep {
            command: PassCommand::BindUniformBuffer { set: 0, binding: 1, buffer: BufferRef::External(self.lighting_buffer), offset: 0, size: LIGHTING_UNIFORMS_SIZE },
            on_failure: OnFailure::StopPass,
        });
        if let Some(m) = self.material_buffer {
            steps.push(PassStep {
                command: PassCommand::BindUniformBuffer { set: 0, binding: 3, buffer: BufferRef::External(m), offset: 0, size: MATERIAL_UNIFORMS_SIZE },
                on_failure: OnFailure::StopPass,
            });
        }
        if let Some(t) = self.texture {
            steps.push(PassStep {
                command: PassCommand::BindTexture { set: 0, binding: 2, texture: TextureRef::External(t) },
                on_failure: OnFailure::StopPass,
            });
        }
        assert(steps@ =~= self.spec_prepare());
        steps
    }

    /// What the pass records: the mesh's own transform as the only push
    /// constants; the camera uniforms at set 0 binding 0 and the lighting
    /// uniforms at set 0 binding 1; the material uniforms at binding 3 and the
    /// texture at binding 2 when there are any; nothing else bound at any of
    /// these; and one draw of all `vertex_count` vertices.
    pub proof fn lemma_forward_declarative_commands(self)
        ensures
            pushes_only(self.spec_execute(), PushData::ModelAndNormal(Some(self.transform_of()))),
            binds_uniform(self.spec_execute(), 0, 0, BufferRef::External(self.camera_buffer_of())),
            binds_uniform(self.spec_execute(), 0, 1, BufferRef::External(self.lighting_buffer_of())),
            self.material_buffer_of() matches Some(m) ==> binds_uniform(self.spec_execute(), 0, 3, BufferRef::External(m)),
            self.texture_of() matches Some(t) ==> binds_texture(self.spec_execute(), 0, 2, TextureRef::External(t)),
            draws_once(self.spec_execute(), false, self.vertex_count_of()),
    {
        let s = self.spec_execute();
        let mb: int = if self.material_buffer_of() is Some { 1 } else { 0 };
        let tb: int = if self.texture_of() is Some { 1 } else { 0 };
        assert(s.len() == 5 + mb + tb);
        assert(pushed_data(s[0]) == Some(PushData::ModelAndNormal(Some(self.transform_of()))));
        assert(uniform_bound_at(s[1], 0, 0) == Some(BufferRef::External(self.camera_buffer_of())));
        assert(uniform_bound_at(s[2], 0, 1) == Some(BufferRef::External(self.lighting_buffer_of())));
        if let Some(m) = self.material_buffer_of() {
            assert(uniform_bound_at(s[3], 0, 3) == Some(BufferRef::External(m)));
        }
        if let Some(t) = self.texture_of() {
            assert(texture_bound_at(s[3 + mb], 0, 2) == Some(TextureRef::External(t)));
        }
        assert(draw_of(s[4 + mb + tb]) == Some((false, self.vertex_count_of())));
        assert forall|i: int| 0 <= i < s.len() implies {
            &&& (#[trigger] pushed_data(s[i])) is Some ==> pushed_data(s[i]) == Some(PushData::ModelAndNormal(Some(self.transform_of())))
            &&& uniform_bound_at(s[i], 0, 0) is Some ==> uniform_bound_at(s[i], 0, 0) == Some(BufferRef::External(self.camera_buffer_of()))
            &&& uniform_bound_at(s[i], 0, 1) is Some ==> uniform_bound_at(s[i], 0, 1) == Some(BufferRef::External(self.lighting_buffer_of()))
            &&& (self.material_buffer_of() matches Some(m) ==> (uniform_bound_at(s[i], 0, 3) is Some
                ==> uniform_bound_at(s[i], 0, 3) == Some(BufferRef::External(m))))
            &&& (self.texture_of() matches Some(t) ==> (texture_bound_at(s[i], 0, 2) is Some
                ==> texture_bound_at(s[i], 0, 2) == Some(TextureRef::External(t))))
            &&& draw_of(s[i]) is Some ==> i == 4 + mb + tb
        } by {
            if i < 3 {
            } else if i < 3 + mb {
            } else if i < 3 + mb + tb {
            } else {
                assert(i == 3 + mb + tb || i == 4 + mb + tb);
            }
        }
    }

    /// What the pass records, in order
    pub fn execute(&self) -> (r: Vec<PassStep>)
        ensures
            r@ == self.spec_execute(),
            pushes_only(r@, PushData::ModelAndNormal(Some(self.transform_of()))),
            binds_uniform(r@, 0, 0, BufferRef::External(self.camera_buffer_of())),
            binds_uniform(r@, 0, 1, BufferRef::External(self.lighting_buffer_of())),
            draws_once(r@, false, self.vertex_count_of()),
    {
        proof {
            self.lemma_forward_declarative_commands();
        }
        let mut steps: Vec<PassStep> = Vec::new();
        steps.push(PassStep {
            command: PassCommand::PushConstants { stages: PUSH_STAGE_VERTEX, offset: 0, data: PushData::ModelAndNormal(Some(self.transform)) },
            on_failure: OnFailure::StopPass,
        });
        steps.push(PassStep {
            command: PassCommand::BindUniformBuffer { set: 0, binding: 0, buffer: BufferRef::External(self.camera_buffer), offset: 0, size: CAMERA_UNIFORMS_SIZE },
            on_failure: OnFailure::StopPass,
        });
        steps.push(PassStep {
            command: PassCommand::BindUniformBuffer { set: 0, binding: 1, buffer: BufferRef::External(self.lighting_buffer), offset: 0, size: LIGHTING_UNIFORMS_SIZE },
            on_failure: OnFailure::StopPass,
        });
        if let Some(m) = self.material_buffer {
            steps.push(PassStep {
                command: PassCommand::BindUniformBuffer { set: 0, binding: 3, buffer: BufferRef::External(m), offset: 0, size: MATERIAL_UNIFORMS_SIZE },
                on_failure: OnFailure::Continue,
            });
        }
        if let Some(t) = self.texture {
            steps.push(PassStep {
                command: PassCommand::BindTexture { set: 0, binding: 2, texture: TextureRef::External(t) },
                on_failure: OnFailure::Continue,
            });
        }
        steps.push(PassStep {
            command: PassCommand::BindVertexBuffer { slot: 0, buffer: BufferRef::External(self.vertex_buffer), offset: 0 },
            on_failure: OnFailure::StopPass,
        });
        steps.push(PassStep {
            command: PassCommand::Draw { vertex_count: self.vertex_count, instance_count: 1, first_vertex: 0, first_instance: 0 },
            on_failure: OnFailure::StopPass,
        });
        assert(steps@ =~= self.spec_execute());
        steps
    }
}

} // verus!
