//! Triangle rendering pass
//!
//! Renders a single colored triangle whose vertices are hardcoded in the
//! vertex shader, so the pass binds no vertex buffer.

use vstd::prelude::*;
use crate::passes::{PassBuildError, PassCallback};
use crate::render_graph::{
    AccessType, CullMode, ImageLayout, PassId, PassKind, PassStep, PipelineRequest, PipelineSpec,
    PipelineStage, RenderGraph, RenderPass, ResourceAccess, ResourceId,
};

verus! {

/// The single output of a triangle pass: it writes the color attachment.
pub open spec fn color_write(color_output: ResourceId) -> ResourceAccess {
    ResourceAccess {
        resource: color_output,
        access: AccessType::Write,
        stage: PipelineStage(PipelineStage::COLOR_ATTACHMENT_OUTPUT),
        layout: Some(ImageLayout::ColorAttachment),
    }
}

/// Triangle rendering pass added to a graph
pub struct TrianglePass {
    pass_id: PassId,
}

impl TrianglePass {
    /// The id of the pass in its graph.
    pub closed spec fn id(&self) -> PassId {
        self.pass_id
    }

    /// Add a triangle pass named "triangle_pass" that writes `color_output`
    pub fn new(graph: &mut RenderGraph<PassCallback>, color_output: ResourceId) -> (p: Self)
        ensures
            p.id() == PassId(old(graph).pass_seq().len() as usize),
            final(graph).pass_seq().len() == old(graph).pass_seq().len() + 1,
            final(graph).pass_seq().drop_last() == old(graph).pass_seq(),
            final(graph).pass_seq().last().id == p.id(),
            final(graph).pass_seq().last().name@ == "triangle_pass"@,
            final(graph).pass_seq().last().kind == PassKind::Graphics,
            final(graph).pass_seq().last().inputs@ == Seq::<ResourceAccess>::empty(),
            final(graph).pass_seq().last().outputs@ == seq![color_write(color_output)],
            final(graph).pass_seq().last().callback == Some(PassCallback::Triangle(TrianglePassCallback)),
            final(graph).resource_seq() == old(graph).resource_seq(),
            final(graph).shader_seq() == old(graph).shader_seq(),
    {
        add_triangle_pass(graph, color_output, "triangle_pass")
    }

    /// Get the pass ID
    pub fn pass_id(&self) -> (id: PassId)
        ensures
            id == self.id(),
    {
        self.pass_id
    }
}

/// Append a triangle pass named `name` writing `color_output`.
fn add_triangle_pass(graph: &mut RenderGraph<PassCallback>, color_output: ResourceId, name: &str) -> (p: TrianglePass)
    ensures
        p.id() == PassId(old(graph).pass_seq().len() as usize),
        final(graph).pass_seq().len() == old(graph).pass_seq().len() + 1,
        final(graph).pass_seq().drop_last() == old(graph).pass_seq(),
        final(graph).pass_seq().last().id == p.id(),
        final(graph).pass_seq().last().name@ == name@,
        final(graph).pass_seq().last().kind == PassKind::Graphics,
        final(graph).pass_seq().last().inputs@ == Seq::<ResourceAccess>::empty(),
        final(graph).pass_seq().last().outputs@ == seq![color_write(color_output)],
        final(graph).pass_seq().last().callback == Some(PassCallback::Triangle(TrianglePassCallback)),
        final(graph).resource_seq() == old(graph).resource_seq(),
        final(graph).shader_seq() == old(graph).shader_seq(),
{
    let pass_id = graph.next_pass_id();
    let mut pass = RenderPass::new(pass_id, name, PassKind::Graphics);
    pass.add_output(ResourceAccess::new(
        color_output,
        AccessType::Write,
        PipelineStage::new(PipelineStage::COLOR_ATTACHMENT_OUTPUT),
        Some(ImageLayout::ColorAttachment),
    ));
    assert(pass.outputs@ =~= seq![color_write(color_output)]);
    let pass = pass.with_callback(PassCallback::Triangle(TrianglePassCallback));
    graph.add_pass(pass);
    proof {
        assert(graph.pass_seq().drop_last() =~= old(graph).pass_seq());
    }
    TrianglePass { pass_id }
}

/// Callback of a triangle pass
#[derive(Debug, Clone, Copy, PartialEq, Eq, Structural)]
pub struct TrianglePassCallback;

impl TrianglePassCallback {
    /// The triangle pass records no command of its own: the backend draws the
    /// three vertices of the hardcoded triangle.
    pub open spec fn spec_execute(self) -> Seq<PassStep> {
        Seq::empty()
    }

    /// The pipeline the pass asks for.
    pub open spec fn pipeline() -> PipelineSpec {
        PipelineSpec {
            vertex_shader: Some("triangle.vert"@),
            fragment_shader: Some("triangle.frag"@),
            vertex_layout: None,
            depth_test: false,
            depth_write: false,
            cull_mode: CullMode::Off,
            shaders_required: true,
        }
    }

    /// The triangle shaders, no vertex layout, no depth test or write, no culling
    pub fn declare_pipeline(&self) -> (p: PipelineRequest)
        ensures
            p@ == Self::pipeline(),
    {
        PipelineRequest {
            vertex_shader: Some("triangle.vert".to_owned()),
            fragment_shader: Some("triangle.frag".to_owned()),
            vertex_layout: None,
            depth_test: false,
            depth_write: false,
            cull_mode: CullMode::Off,
            shaders_required: true,
        }
    }

    /// The commands the pass records
    pub fn execute(&self) -> (r: Vec<PassStep>)
        ensures
            r@ == self.spec_execute(),
    {
        Vec::new()
    }
}

/// The settings a triangle pass builder holds
pub struct TriangleSettings {
    pub color_output: ResourceId,
    /// Bit patterns of the four 32-bit float components of the clear color
    pub clear_color: Option<[u32; 4]>,
    pub name: Seq<char>,
}

/// Builder for a triangle pass with a custom name and clear color
pub struct TrianglePassBuilder {
    color_output: ResourceId,
    clear_color: Option<[u32; 4]>,
    name: String,
}

impl View for TrianglePassBuilder {
    type V = TriangleSettings;

    closed spec fn view(&self) -> TriangleSettings {
        TriangleSettings { color_output: self.color_output, clear_color: self.clear_color, name: self.name@ }
    }
}

impl TrianglePassBuilder {
    /// Create a new triangle pass builder
    pub fn new(color_output: ResourceId) -> (b: Self)
        ensures
            b@ == (TriangleSettings { color_output, clear_color: None, name: "triangle_pass"@ }),
    {
        TrianglePassBuilder { color_output, clear_color: None, name: "triangle_pass".to_owned() }
    }

    /// Set the clear color, given as the bit patterns of its four 32-bit float components
    pub fn with_clear_color(self, color: [u32; 4]) -> (b: Self)
        ensures
            b@ == (TriangleSettings { clear_color: Some(color), ..self@ }),
    {
        TrianglePassBuilder { clear_color: Some(color), ..self }
    }

    /// Set a custom name for the pass
    pub fn with_name(self, name: &str) -> (b: Self)
        ensures
            b@ == (TriangleSettings { name: name@, ..self@ }),
    {
        TrianglePassBuilder { name: name.to_owned(), ..self }
    }

    /// Build the pass and add it to the render graph; the build always succeeds
    pub fn build(self, graph: &mut RenderGraph<PassCallback>) -> (r: Result<TrianglePass, PassBuildError>)
        ensures
            r is Ok,
            r->Ok_0.id() == PassId(old(graph).pass_seq().len() as usize),
            final(graph).pass_seq().len() == old(graph).pass_seq().len() + 1,
            final(graph).pass_seq().drop_last() == old(graph).pass_seq(),
            final(graph).pass_seq().last().id == r->Ok_0.id(),
            final(graph).pass_seq().last().name@ == self@.name,
            final(graph).pass_seq().last().kind == PassKind::Graphics,
            final(graph).pass_seq().last().inputs@ == Seq::<ResourceAccess>::empty(),
            final(graph).pass_seq().last().outputs@ == seq![color_write(self@.color_output)],
            final(graph).pass_seq().last().callback == Some(PassCallback::Triangle(TrianglePassCallback)),
            final(graph).resource_seq() == old(graph).resource_seq(),
            final(graph).shader_seq() == old(graph).shader_seq(),
    {
        Ok(add_triangle_pass(graph, self.color_output, self.name.as_str()))
    }
}

} // verus!
