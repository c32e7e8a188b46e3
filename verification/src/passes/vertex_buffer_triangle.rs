//! Vertex buffer triangle rendering pass
//!
//! Renders geometry read from a vertex buffer (position and color, 24 bytes
//! per vertex), optionally through a 32-bit index buffer. The buffers are
//! owned by the backend; the pass refers to them by handle.

use vstd::prelude::*;
use crate::backends::binding::BufferHandle;
use crate::passes::{PassBuildError, PassCallback, PUSH_STAGE_VERTEX};
use crate::passes::triangle_pass::color_write;
use crate::render_graph::{
    binds_u32_indices, draw_of, draws_once, index_buffer_bound, pushed_data, pushes_only, stop_step, AccessType, BufferRef, CullMode, ImageLayout, IndexType, InputRate, OnFailure,
    PassCommand, PassId, PassKind, PassStep, PipelineRequest, PipelineSpec, PipelineStage, PushData,
    RenderGraph, RenderPass, ResourceAccess, ResourceId, VertexAttribute, VertexBinding,
    VertexFormat, VertexLayout,
};

verus! {

/// A vertex buffer triangle pass added to a graph
pub struct VertexBufferTrianglePass {
    pass_id: PassId,
}

impl VertexBufferTrianglePass {
    /// The id of the pass in its graph.
    pub closed spec fn id(&self) -> PassId {
        self.pass_id
    }

    /// Add a pass named "vertex_buffer_triangle" that writes `color_output`
    /// and draws `draw_count` vertices (or indices, with an index buffer)
    pub fn new(
        graph: &mut RenderGraph<PassCallback>,
        color_output: ResourceId,
        vertex_buffer: BufferHandle,
        index_buffer: Option<BufferHandle>,
        draw_count: u32,
    ) -> (p: Self)
        ensures
            p.id() == PassId(old(graph).pass_seq().len() as usize),
            final(graph).pass_seq().len() == old(graph).pass_seq().len() + 1,
            final(graph).pass_seq().drop_last() == old(graph).pass_seq(),
            final(graph).pass_seq().last().id == p.id(),
            final(graph).pass_seq().last().name@ == "vertex_buffer_triangle"@,
            final(graph).pass_seq().last().kind == PassKind::Graphics,
            final(graph).pass_seq().last().inputs@ == Seq::<ResourceAccess>::empty(),
            final(graph).pass_seq().last().outputs@ == seq![color_write(color_output)],
            final(graph).pass_seq().last().callback == Some(PassCallback::VertexBufferTriangle(
                VertexBufferTriangleCallback { vertex_buffer, index_buffer, draw_count },
            )),
            final(graph).resource_seq() == old(graph).resource_seq(),
            final(graph).shader_seq() == old(graph).shader_seq(),
    {
        let pass_id = graph.next_pass_id();
        let mut pass = RenderPass::new(pass_id, "vertex_buffer_triangle", PassKind::Graphics);
        pass.add_output(ResourceAccess::new(
            color_output,
            AccessType::Write,
            PipelineStage::new(PipelineStage::COLOR_ATTACHMENT_OUTPUT),
            Some(ImageLayout::ColorAttachment),
        ));
        assert(pass.outputs@ =~= seq![color_write(color_output)]);
        let callback = VertexBufferTriangleCallback { vertex_buffer, index_buffer, draw_count };
        let pass = pass.with_callback(PassCallback::VertexBufferTriangle(callback));
        graph.add_pass(pass);
        proof {
            assert(graph.pass_seq().drop_last() =~= old(graph).pass_seq());
        }
        VertexBufferTrianglePass { pass_id }
    }

    /// Get the pass ID
    pub fn pass_id(&self) -> (id: PassId)
        ensures
            id == self.id(),
    {
        self.pass_id
    }
}

/// The attributes of the position-and-color vertex: two three-float vectors.
pub open spec fn position_color_attributes() -> Seq<VertexAttribute> {
    seq![
        VertexAttribute { location: 0, format: VertexFormat::Float32x3, offset: 0 },
        VertexAttribute { location: 1, format: VertexFormat::Float32x3, offset: 12 },
    ]
}

/// The single per-vertex binding of the 24-byte position-and-color vertex.
pub open spec fn position_color_bindings() -> Seq<VertexBinding> {
    seq![VertexBinding { binding: 0, stride: 24, input_rate: InputRate::Vertex }]
}

/// Callback of a vertex buffer triangle pass
#[derive(Debug, Clone, Copy, PartialEq, Eq, Structural)]
pub struct VertexBufferTriangleCallback {
    pub vertex_buffer: BufferHandle,
    pub index_buffer: Option<BufferHandle>,
    /// Number of vertices, or of indices when there is an index buffer
    pub draw_count: u32,
}

impl VertexBufferTriangleCallback {
    /// Push the fixed view-projection, bind the vertices, then draw them, through
    /// the 32-bit indices when there is an index buffer; a failure ends the pass.
    pub open spec fn spec_execute(self) -> Seq<PassStep> {
        let head = seq![
            stop_step(PassCommand::PushConstants { stages: PUSH_STAGE_VERTEX, offset: 0, data: PushData::FixedViewProjection }),
            stop_step(PassCommand::BindVertexBuffer { slot: 0, buffer: BufferRef::External(self.vertex_buffer), offset: 0 }),
        ];
        match self.index_buffer {
            Some(ib) => head + seq![
                stop_step(PassCommand::BindIndexBuffer { buffer: BufferRef::External(ib), offset: 0, index_type: IndexType::U32 }),
                stop_step(PassCommand::DrawIndexed { index_count: self.draw_count, instance_count: 1, first_index: 0, vertex_offset: 0, first_instance: 0 }),
            ],
            None => head + seq![
                stop_step(PassCommand::Draw { vertex_count: self.draw_count, instance_count: 1, first_vertex: 0, first_instance: 0 }),
            ],
        }
    }

    /// What a vertex buffer pass records: the fixed view-projection as the
    /// only push constants; with an index buffer, that buffer read as 32-bit
    /// indices and one indexed draw of `draw_count` indices; without one, no
    /// index buffer and one draw of `draw_count` vertices.
    pub proof fn lemma_vertex_buffer_commands(self)
        ensures
            pushes_only(self.spec_execute(), PushData::FixedViewProjection),
            self.index_buffer matches Some(ib) ==> {
                &&& binds_u32_indices(self.spec_execute(), BufferRef::External(ib))
                &&& draws_once(self.spec_execute(), true, self.draw_count)
            },
            self.index_buffer is None ==> {
                &&& forall|i: int| 0 <= i < self.spec_execute().len() ==> (#[trigger] index_buffer_bound(self.spec_execute()[i])) is None
                &&& draws_once(self.spec_execute(), false, self.draw_count)
            },
    {
        let s = self.spec_execute();
        let ib: int = if self.index_buffer is Some { 1 } else { 0 };
        assert(s.len() == 3 + ib);
        assert(pushed_data(s[0]) == Some(PushData::FixedViewProjection));
        if let Some(b) = self.index_buffer {
            assert(index_buffer_bound(s[2]) == Some((BufferRef::External(b), IndexType::U32)));
            assert(draw_of(s[3]) == Some((true, self.draw_count)));
        } else {
            assert(draw_of(s[2]) == Some((false, self.draw_count)));
        }
        assert forall|i: int| 0 <= i < s.len() implies {
            &&& (#[trigger] pushed_data(s[i])) is Some ==> pushed_data(s[i]) == Some(PushData::FixedViewProjection)
            &&& index_buffer_bound(s[i]) is Some ==> (self.index_buffer matches Some(b)
                && index_buffer_bound(s[i]) == Some((BufferRef::External(b), IndexType::U32)))
            &&& draw_of(s[i]) is Some ==> i == 2 + ib
        } by {
            assert(i == 0 || i == 1 || i == 2 || i == 3);
        }
    }

    /// The pipeline the pass asks for.
    pub open spec fn pipeline() -> PipelineSpec {
        PipelineSpec {
            vertex_shader: Some("simple_vertex.vert"@),
            fragment_shader: Some("simple_vertex.frag"@),
            vertex_layout: Some((position_color_attributes(), position_color_bindings())),
            depth_test: false,
            depth_write: false,
            cull_mode: CullMode::Back,
            shaders_required: true,
        }
    }

    /// The simple vertex shaders, the position-and-color layout, no depth test
    /// or write, back-face culling
    pub fn declare_pipeline(&self) -> (p: PipelineRequest)
        ensures
            p@ == Self::pipeline(),
    {
        let mut layout = VertexLayout::new();
        layout.add_binding(VertexBinding { binding: 0, stride: 24, input_rate: InputRate::Vertex });
        layout.add_attribute(VertexAttribute { location: 0, format: VertexFormat::Float32x3, offset: 0 });
        layout.add_attribute(VertexAttribute { location: 1, format: VertexFormat::Float32x3, offset: 12 });
        assert(layout.attributes@ =~= position_color_attributes());
        assert(layout.bindings@ =~= position_color_bindings());
        PipelineRequest {
            vertex_shader: Some("simple_vertex.vert".to_owned()),
            fragment_shader: Some("simple_vertex.frag".to_owned()),
            vertex_layout: Some(layout),
            depth_test: false,
            depth_write: false,
            cull_mode: CullMode::Back,
            shaders_required: true,
        }
    }

    /// The commands the pass records, in order
    pub fn execute(&self) -> (r: Vec<PassStep>)
        ensures
            r@ == self.spec_execute(),
            pushes_only(r@, PushData::FixedViewProjection),
            self.index_buffer matches Some(ib) ==> {
                &&& binds_u32_indices(r@, BufferRef::External(ib))
                &&& draws_once(r@, true, self.draw_count)
            },
            self.index_buffer is None ==> draws_once(r@, false, self.draw_count),
    {
        proof {
            self.lemma_vertex_buffer_commands();
        }
        let mut steps: Vec<PassStep> = Vec::new();
        steps.push(PassStep {
            command: PassCommand::PushConstants { stages: PUSH_STAGE_VERTEX, offset: 0, data: PushData::FixedViewProjection },
            on_failure: OnFailure::StopPass,
        });
        steps.push(PassStep {
            command: PassCommand::BindVertexBuffer { slot: 0, buffer: BufferRef::External(self.vertex_buffer), offset: 0 },
            on_failure: OnFailure::StopPass,
        });
        match self.index_buffer {
            Some(ib) => {
                steps.push(PassStep {
                    command: PassCommand::BindIndexBuffer { buffer: BufferRef::External(ib), offset: 0, index_type: IndexType::U32 },
                    on_failure: OnFailure::StopPass,
                });
                steps.push(PassStep {
                    command: PassCommand::DrawIndexed { index_count: self.draw_count, instance_count: 1, first_index: 0, vertex_offset: 0, first_instance: 0 },
                    on_failure: OnFailure::StopPass,
                });
            },
            None => {
                steps.push(PassStep {
                    command: PassCommand::Draw { vertex_count: self.draw_count, instance_count: 1, first_vertex: 0, first_instance: 0 },
                    on_failure: OnFailure::StopPass,
                });
            },
        }
        assert(steps@ =~= self.spec_execute());
        steps
    }
}

/// The settings a vertex buffer triangle pass builder holds
pub struct VertexBufferTriangleSettings {
    pub color_output: ResourceId,
    pub vertex_buffer: Option<BufferHandle>,
    pub vertex_count: u32,
    pub name: Seq<char>,
}

/// Builder for a vertex buffer triangle pass
pub struct VertexBufferTrianglePassBuilder {
    color_output: ResourceId,
    vertex_buffer: Option<BufferHandle>,
    vertex_count: u32,
    name: String,
}

impl View for VertexBufferTrianglePassBuilder {
    type V = VertexBufferTriangleSettings;

    closed spec fn view(&self) -> VertexBufferTriangleSettings {
        VertexBufferTriangleSettings {
            color_output: self.color_output,
            vertex_buffer: self.vertex_buffer,
            vertex_count: self.vertex_count,
            name: self.name@,
        }
    }
}

impl VertexBufferTrianglePassBuilder {
    /// Create a builder that draws three vertices
    pub fn new(color_output: ResourceId) -> (b: Self)
        ensures
            b@ == (VertexBufferTriangleSettings {
                color_output,
                vertex_buffer: None,
                vertex_count: 3,
                name: "vertex_buffer_triangle"@,
            }),
    {
        VertexBufferTrianglePassBuilder {
            color_output,
            vertex_buffer: None,
            vertex_count: 3,
            name: "vertex_buffer_triangle".to_owned(),
        }
    }

    /// Set the vertex buffer
    pub fn with_vertex_buffer(self, buffer: BufferHandle) -> (b: Self)
        ensures
            b@ == (VertexBufferTriangleSettings { vertex_buffer: Some(buffer), ..self@ }),
    {
        VertexBufferTrianglePassBuilder { vertex_buffer: Some(buffer), ..self }
    }

    /// Set the number of vertices to draw
    pub fn with_vertex_count(self, count: u32) -> (b: Self)
        ensures
            b@ == (VertexBufferTriangleSettings { vertex_count: count, ..self@ }),
    {
        VertexBufferTrianglePassBuilder { vertex_count: count, ..self }
    }

    /// Set a custom name for the pass
    pub fn with_name(self, name: &str) -> (b: Self)
        ensures
            b@ == (VertexBufferTriangleSettings { name: name@, ..self@ }),
    {
        VertexBufferTrianglePassBuilder { name: name.to_owned(), ..self }
    }

    /// Build the pass and add it to the graph; fails when no vertex buffer was set
    pub fn build(self, graph: &mut RenderGraph<PassCallback>) -> (r: Result<VertexBufferTrianglePass, PassBuildError>)
        ensures
            final(graph).shader_seq() == old(graph).shader_seq(),
            final(graph).resource_seq() == old(graph).resource_seq(),
            match r {
                Err(e) => {
                    &&& self@.vertex_buffer is None
                    &&& e == PassBuildError::VertexBufferNotSet
                    &&& final(graph).pass_seq() == old(graph).pass_seq()
                },
                Ok(pass) => {
                    let added = final(graph).pass_seq().last();
                    &&& self@.vertex_buffer is Some
                    &&& pass.id() == PassId(old(graph).pass_seq().len() as usize)
                    &&& final(graph).pass_seq().len() == old(graph).pass_seq().len() + 1
                    &&& final(graph).pass_seq().drop_last() == old(graph).pass_seq()
                    &&& added.id == pass.id()
                    &&& added.name@ == self@.name
                    &&& added.kind == PassKind::Graphics
                    &&& added.inputs@ == Seq::<ResourceAccess>::empty()
                    &&& added.outputs@ == seq![color_write(self@.color_output)]
                    &&& added.callback == Some(PassCallback::ConfigurableVertexBuffer(
                        ConfigurableVertexBufferCallback {
                            vertex_buffer: self@.vertex_buffer.unwrap(),
                            vertex_count: self@.vertex_count,
                        },
                    ))
                },
            },
    {
        let vertex_buffer = match self.vertex_buffer {
            Some(b) => b,
            None => return Err(PassBuildError::VertexBufferNotSet),
        };
        let pass_id = graph.next_pass_id();
        let mut pass = RenderPass::new(pass_id, self.name.as_str(), PassKind::Graphics);
        pass.add_output(ResourceAccess::new(
            self.color_output,
            AccessType::Write,
            PipelineStage::new(PipelineStage::COLOR_ATTACHMENT_OUTPUT),
            Some(ImageLayout::ColorAttachment),
        ));
        assert(pass.outputs@ =~= seq![color_write(self.color_output)]);
        let callback = ConfigurableVertexBufferCallback { vertex_buffer, vertex_count: self.vertex_count };
        let pass = pass.with_callback(PassCallback::ConfigurableVertexBuffer(callback));
        graph.add_pass(pass);
        proof {
            assert(graph.pass_seq().drop_last() =~= old(graph).pass_seq());
        }
        Ok(VertexBufferTrianglePass { pass_id })
    }
}

/// Callback of a pass built by the vertex buffer triangle builder; it leaves
/// the pipeline to the backend
#[derive(Debug, Clone, Copy, PartialEq, Eq, Structural)]
pub struct ConfigurableVertexBufferCallback {
    pub vertex_buffer: BufferHandle,
    pub vertex_count: u32,
}

impl ConfigurableVertexBufferCallback {
    /// Bind the vertices and draw them; a failure ends the pass.
    pub open spec fn spec_execute(self) -> Seq<PassStep> {
        seq![
            stop_step(PassCommand::BindVertexBuffer { slot: 0, buffer: BufferRef::External(self.vertex_buffer), offset: 0 }),
            stop_step(PassCommand::Draw { vertex_count: self.vertex_count, instance_count: 1, first_vertex: 0, first_instance: 0 }),
        ]
    }

    /// What the pass records: no push constants, no index buffer, and one
    /// draw of all `vertex_count` vertices.
    pub proof fn lemma_configurable_commands(self)
        ensures
            forall|i: int| 0 <= i < self.spec_execute().len() ==> {
                &&& (#[trigger] pushed_data(self.spec_execute()[i])) is None
                &&& index_buffer_bound(self.spec_execute()[i]) is None
            },
            draws_once(self.spec_execute(), false, self.vertex_count),
    {
        let s = self.spec_execute();
        assert(draw_of(s[1]) == Some((false, self.vertex_count)));
        assert forall|i: int| 0 <= i < s.len() implies {
            &&& (#[trigger] pushed_data(s[i])) is None
            &&& index_buffer_bound(s[i]) is None
            &&& draw_of(s[i]) is Some ==> i == 1
        } by {
            assert(i == 0 || i == 1);
        }
    }

    /// The commands the pass records, in order
    pub fn execute(&self) -> (r: Vec<PassStep>)
        ensures
            r@ == self.spec_execute(),
            draws_once(r@, false, self.vertex_count),
    {
        proof {
            self.lemma_configurable_commands();
        }
        let mut steps: Vec<PassStep> = Vec::new();
        steps.push(PassStep {
            command: PassCommand::BindVertexBuffer { slot: 0, buffer: BufferRef::External(self.vertex_buffer), offset: 0 },
            on_failure: OnFailure::StopPass,
        });
        steps.push(PassStep {
            command: PassCommand::Draw { vertex_count: self.vertex_count, instance_count: 1, first_vertex: 0, first_instance: 0 },
            on_failure: OnFailure::StopPass,
        });
        assert(steps@ =~= self.spec_execute());
        steps
    }
}

} // verus!
