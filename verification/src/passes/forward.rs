//! Forward rendering pass with lighting, built directly from the buffers the
//! backend owns: camera and lighting uniforms, and an optional material and
//! texture.

use vstd::prelude::*;
use crate::backends::binding::{BufferHandle, TextureHandle};
use crate::passes::{
    PassCallback, CAMERA_UNIFORMS_SIZE, LIGHTING_UNIFORMS_SIZE, MATERIAL_UNIFORMS_SIZE,
    PUSH_STAGE_VERTEX,
};
use crate::render_graph::{
    binds_texture, binds_uniform, draw_of, draws_once, pushed_data, pushes_only, texture_bound_at, uniform_bound_at, stop_step, AccessType, BufferRef, ImageLayout, OnFailure, PassCommand, PassId, PassKind,
    PassStep, PipelineStage, PushData, RenderGraph, RenderPass, ResourceAccess, ResourceId,
    TextureRef, TransformId,
};

verus! {

/// Forward rendering pass with lighting
pub struct ForwardPass {
    pass_id: PassId,
}

/// The single output of the forward passes: a write of the color attachment.
pub open spec fn color_write(color_output: ResourceId) -> ResourceAccess {
    ResourceAccess {
        resource: color_output,
        access: AccessType::Write,
        stage: PipelineStage(PipelineStage::COLOR_ATTACHMENT_OUTPUT),
        layout: Some(ImageLayout::ColorAttachment),
    }
}

impl ForwardPass {
    /// The id of the pass in its graph.
    pub closed spec fn id(&self) -> PassId {
        self.pass_id
    }

    /// Create the pass and add it to the graph; it writes `color_output`
    pub fn new(
        graph: &mut RenderGraph<PassCallback>,
        color_output: ResourceId,
        vertex_buffer: BufferHandle,
        camera_buffer: BufferHandle,
        lighting_buffer: BufferHandle,
        material_buffer: Option<BufferHandle>,
        texture: Option<TextureHandle>,
        transform: TransformId,
        vertex_count: u32,
    ) -> (p: Self)
        ensures
            p.id() == PassId(old(graph).pass_seq().len() as usize),
            final(graph).shader_seq() == old(graph).shader_seq(),
            final(graph).resource_seq() == old(graph).resource_seq(),
            final(graph).pass_seq().len() == old(graph).pass_seq().len() + 1,
            final(graph).pass_seq().drop_last() == old(graph).pass_seq(),
            final(graph).pass_seq().last().id == p.id(),
            final(graph).pass_seq().last().name@ == "forward_rendering"@,
            final(graph).pass_seq().last().kind == PassKind::Graphics,
            final(graph).pass_seq().last().outputs@ == seq![color_write(color_output)],
            final(graph).pass_seq().last().inputs@ == Seq::<ResourceAccess>::empty(),
            final(graph).pass_seq().last().callback == Some(PassCallback::Forward(ForwardPassCallback {
                vertex_buffer,
                camera_buffer,
                lighting_buffer,
                material_buffer,
                texture,
                transform,
                vertex_count,
            })),
    {
        let pass_id = graph.next_pass_id();
        let mut pass = RenderPass::new(pass_id, "forward_rendering", PassKind::Graphics);
        pass.add_output(ResourceAccess::new(
            color_output,
            AccessType::Write,
            PipelineStage::new(PipelineStage::COLOR_ATTACHMENT_OUTPUT),
            Some(ImageLayout::ColorAttachment),
        ));
        assert(pass.outputs@ =~= seq![color_write(color_output)]);
        let pass = pass.with_callback(PassCallback::Forward(ForwardPassCallback {
            vertex_buffer,
            camera_buffer,
            lighting_buffer,
            material_buffer,
            texture,
            transform,
            vertex_count,
        }));
        graph.add_pass(pass);
        proof {
            assert(graph.pass_seq().drop_last() =~= old(graph).pass_seq());
        }
        ForwardPass { pass_id }
    }

    /// Get the pass ID
    pub fn pass_id(&self) -> (id: PassId)
        ensures
            id == self.id(),
    {
        self.pass_id
    }
}

/// Callback of the forward pass
#[derive(Debug, Clone, Copy, PartialEq, Eq, Structural)]
pub struct ForwardPassCallback {
    pub vertex_buffer: BufferHandle,
    pub camera_buffer: BufferHandle,
    pub lighting_buffer: BufferHandle,
    pub material_buffer: Option<BufferHandle>,
    pub texture: Option<TextureHandle>,
    pub transform: TransformId,
    pub vertex_count: u32,
}

impl ForwardPassCallback {
    /// Push the transform, bind camera and lighting uniforms, the material
    /// and texture if present, and the vertices, then draw; a failure ends the pass.
    pub open spec fn spec_execute(self) -> Seq<PassStep> {
        seq![
            stop_step(PassCommand::PushConstants { stages: PUSH_STAGE_VERTEX, offset: 0, data: PushData::ModelAndNormal(Some(self.transform)) }),
            stop_step(PassCommand::BindUniformBuffer { set: 0, binding: 0, buffer: BufferRef::External(self.camera_buffer), offset: 0, size: CAMERA_UNIFORMS_SIZE }),
            stop_step(PassCommand::BindUniformBuffer { set: 0, binding: 1, buffer: BufferRef::External(self.lighting_buffer), offset: 0, size: LIGHTING_UNIFORMS_SIZE }),
        ]
        + match self.material_buffer {
            Some(m) => seq![stop_step(PassCommand::BindUniformBuffer { set: 0, binding: 3, buffer: BufferRef::External(m), offset: 0, size: MATERIAL_UNIFORMS_SIZE })],
            None => Seq::empty(),
        }
        + match self.texture {
            Some(t) => seq![stop_step(PassCommand::BindTexture { set: 0, binding: 2, texture: TextureRef::External(t) })],
            None => Seq::empty(),
        }
        + seq![
            stop_step(PassCommand::BindVertexBuffer { slot: 0, buffer: BufferRef::External(self.vertex_buffer), offset: 0 }),
            stop_step(PassCommand::Draw { vertex_count: self.vertex_count, instance_count: 1, first_vertex: 0, first_instance: 0 }),
        ]
    }

    /// What the pass records: the mesh's own transform as the only push
    /// constants; the camera uniforms at set 0 binding 0 and the lighting
    /// uniforms at set 0 binding 1; the material uniforms at binding 3 and the
    /// texture at binding 2 when there are any; nothing else bound at any of
    /// these; and one draw of all `vertex_count` vertices.
    pub proof fn lemma_forward_pass_commands(self)
        ensures
            pushes_only(self.spec_execute(), PushData::ModelAndNormal(Some(self.transform))),
            binds_uniform(self.spec_execute(), 0, 0, BufferRef::External(self.camera_buffer)),
            binds_uniform(self.spec_execute(), 0, 1, BufferRef::External(self.lighting_buffer)),
            self.material_buffer matches Some(m) ==> binds_uniform(self.spec_execute(), 0, 3, BufferRef::External(m)),
            self.texture matches Some(t) ==> binds_texture(self.spec_execute(), 0, 2, TextureRef::External(t)),
            draws_once(self.spec_execute(), false, self.vertex_count),
    {
        let s = self.spec_execute();
        let mb: int = if self.material_buffer is Some { 1 } else { 0 };
        let tb: int = if self.texture is Some { 1 } else { 0 };
        assert(s.len() == 5 + mb + tb);
        assert(pushed_data(s[0]) == Some(PushData::ModelAndNormal(Some(self.transform))));
        assert(uniform_bound_at(s[1], 0, 0) == Some(BufferRef::External(self.camera_buffer)));
        assert(uniform_bound_at(s[2], 0, 1) == Some(BufferRef::External(self.lighting_buffer)));
        if let Some(m) = self.material_buffer {
            assert(uniform_bound_at(s[3], 0, 3) == Some(BufferRef::External(m)));
        }
        if let Some(t) = self.texture {
            assert(texture_bound_at(s[3 + mb], 0, 2) == Some(TextureRef::External(t)));
        }
        assert(draw_of(s[4 + mb + tb]) == Some((false, self.vertex_count)));
        assert forall|i: int| 0 <= i < s.len() implies {
            &&& (#[trigger] pushed_data(s[i])) is Some ==> pushed_data(s[i]) == Some(PushData::ModelAndNormal(Some(self.transform)))
            &&& uniform_bound_at(s[i], 0, 0) is Some ==> uniform_bound_at(s[i], 0, 0) == Some(BufferRef::External(self.camera_buffer))
            &&& uniform_bound_at(s[i], 0, 1) is Some ==> uniform_bound_at(s[i], 0, 1) == Some(BufferRef::External(self.lighting_buffer))
            &&& (self.material_buffer matches Some(m) ==> (uniform_bound_at(s[i], 0, 3) is Some
                ==> uniform_bound_at(s[i], 0, 3) == Some(BufferRef::External(m))))
            &&& (self.texture matches Some(t) ==> (texture_bound_at(s[i], 0, 2) is Some
                ==> texture_bound_at(s[i], 0, 2) == Some(TextureRef::External(t))))
            &&& draw_of(s[i]) is Some ==> i == 4 + mb + tb
        } by {
            if i < 3 {
            } else if i < 3 + mb {
            } else if i < 3 + mb + tb {
            } else {
                assert(i == 3 + mb + tb || i == 4 + mb + tb);
            }
        }
    }

    /// The commands the pass records, in order
    pub fn execute(&self) -> (r: Vec<PassStep>)
        ensures
            r@ == self.spec_execute(),
            pushes_only(r@, PushData::ModelAndNormal(Some(self.transform))),
            binds_uniform(r@, 0, 0, BufferRef::External(self.camera_buffer)),
            binds_uniform(r@, 0, 1, BufferRef::External(self.lighting_buffer)),
            draws_once(r@, false, self.vertex_count),
    {
        proof {
            self.lemma_forward_pass_commands();
        }
        let mut steps: Vec<PassStep> = Vec::new();
        steps.push(PassStep {
            command: PassCommand::PushConstants { stages: PUSH_STAGE_VERTEX, offset: 0, data: PushData::ModelAndNormal(Some(self.transform)) },
            on_failure: OnFailure::StopPass,
        });
        steps.push(PassStep {
            command: PassCommand::BindUniformBuffer { set: 0, binding: 0, buffer: BufferRef::External(self.camera_buffer), offset: 0, size: CAMERA_UNIFORMS_SIZE },
            on_failure: OnFailure::StopPass,
        });
        steps.push(PassStep {
            command: PassCommand::BindUniformBuffer { set: 0, binding: 1, buffer: BufferRef::External(self.lighting_buffer), offset: 0, size: LIGHTING_UNIFORMS_SIZE },
            on_failure: OnFailure::StopPass,
        });
        if let Some(m) = self.material_buffer {
            steps.push(PassStep {
                command: PassCommand::BindUniformBuffer { set: 0, binding: 3, buffer: BufferRef::External(m), offset: 0, size: MATERIAL_UNIFORMS_SIZE },
                on_failure: OnFailure::StopPass,
            });
        }
        if let Some(t) = self.texture {
            steps.push(PassStep {
                command: PassCommand::BindTexture { set: 0, binding: 2, texture: TextureRef::External(t) },
                on_failure: OnFailure::StopPass,
            });
        }
        steps.push(PassStep {
            command: PassCommand::BindVertexBuffer { slot: 0, buffer: BufferRef::External(self.vertex_buffer), offset: 0 },
            on_failure: OnFailure::StopPass,
        });
        steps.push(PassStep {
            command: PassCommand::Draw { vertex_count: self.vertex_count, instance_count: 1, first_vertex: 0, first_instance: 0 },
            on_failure: OnFailure::StopPass,
        });
        assert(steps@ =~= self.spec_execute());
        steps
    }
}

} // verus!
