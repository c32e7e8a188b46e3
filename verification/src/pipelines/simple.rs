//! Simple rendering pipeline
//!
//! Renders scenes with vertex colors and no lighting: one vertex buffer pass
//! per inline mesh, all writing the same 800x600 color buffer. A mesh's
//! indices are uploaded least significant byte first.

use vstd::prelude::*;
use crate::backends::binding::BufferHandle;
use crate::passes::triangle_pass::color_write;
use crate::passes::vertex_buffer_triangle::{VertexBufferTriangleCallback, VertexBufferTrianglePass};
use crate::passes::{PassBuildError, PassCallback};
use crate::pipelines::RenderPipeline;
use crate::render_graph::{binds_u32_indices, draws_once, BufferRef};
use crate::words::{encodes_words, le_bytes, word_at, word_values};
use crate::render_graph::{
    Extent3D, ExtentMode, Format, ImageUsageFlags, PassId, PassKind, RenderGraph, ResourceAccess,
    ResourceDescriptor, ResourceId, SampleCount, ShaderDescriptor, ShaderSource, ShaderStage,
};

verus! {

/// Simple pipeline for vertex-colored geometry
pub struct SimplePipeline;

/// The buffers the backend created for an inline mesh of the scene
#[derive(Debug, Clone, Copy, PartialEq, Eq, Structural)]
pub struct MeshBuffers {
    pub vertex_buffer: BufferHandle,
    /// The index buffer, when the mesh has indices
    pub index_buffer: Option<BufferHandle>,
    pub vertex_count: u32,
    pub index_count: u32,
}

impl MeshBuffers {
    /// The callback drawing the mesh: its indices when it has an index buffer, else its vertices.
    pub open spec fn callback(self) -> VertexBufferTriangleCallback {
        VertexBufferTriangleCallback {
            vertex_buffer: self.vertex_buffer,
            index_buffer: self.index_buffer,
            draw_count: if self.index_buffer is Some { self.index_count } else { self.vertex_count },
        }
    }
}

/// The pass drawn for a mesh draws all of it, once: every one of its
/// `index_count` indices, read as 32-bit indices from its own index buffer,
/// when it has one; else every one of its `vertex_count` vertices.
pub proof fn lemma_mesh_pass_draws_whole_mesh(m: MeshBuffers)
    ensures
        m.callback().vertex_buffer == m.vertex_buffer,
        m.index_buffer matches Some(ib) ==> {
            &&& binds_u32_indices(m.callback().spec_execute(), BufferRef::External(ib))
            &&& draws_once(m.callback().spec_execute(), true, m.index_count)
        },
        m.index_buffer is None ==> draws_once(m.callback().spec_execute(), false, m.vertex_count),
{
    m.callback().lemma_vertex_buffer_commands();
}

/// Why a scene cannot be rendered
#[derive(Debug, Clone, Copy, PartialEq, Eq, Structural)]
pub enum SceneError {
    /// The scene has no objects to render
    NoObjects,
    /// A pass of the scene's graph could not be built
    Pass(PassBuildError),
}

/// The color buffer every simple pass writes: 800x600 BGRA, one sample, one mip level.
pub open spec fn simple_color_buffer() -> ResourceDescriptor {
    ResourceDescriptor::Image {
        format: Format::Bgra8Unorm,
        extent: ExtentMode::Absolute(Extent3D { width: 800, height: 600, depth: 1 }),
        usage: ImageUsageFlags(ImageUsageFlags::COLOR_ATTACHMENT),
        samples: SampleCount::One,
        mip_levels: 1,
    }
}

/// The shaders the simple graph registers: the vertex and fragment stages of
/// the vertex-colored HLSL shader.
pub open spec fn registers_simple_shaders(s: Seq<(String, ShaderDescriptor)>) -> bool {
    &&& s.len() == 2
    &&& s[0].0@ == "simple_vertex.vert"@
    &&& s[0].1.source matches ShaderSource::File(p) && p@ == "shaders/hlsl/simple_vertex.hlsl"@
    &&& s[0].1.stage == ShaderStage::Vertex
    &&& s[0].1.entry_point@ == "VSMain"@
    &&& s[1].0@ == "simple_vertex.frag"@
    &&& s[1].1.source matches ShaderSource::File(p) && p@ == "shaders/hlsl/simple_vertex.hlsl"@
    &&& s[1].1.stage == ShaderStage::Fragment
    &&& s[1].1.entry_point@ == "PSMain"@
}

/// The bytes uploaded into a mesh's index buffer: its indices in order,
/// each least significant byte first
pub fn index_buffer_bytes(indices: &[u32]) -> (bytes: Vec<u8>)
    ensures
        encodes_words(bytes@, word_values(indices@), true),
{
    let mut bytes: Vec<u8> = Vec::new();
    let mut k: usize = 0;
    while k < indices.len()
        invariant
            k <= indices@.len(),
            bytes@.len() == 4 * k,
            forall|i: int| 0 <= i < k ==> #[trigger] word_values(indices@)[i] == word_at(bytes@, i, true),
        decreases indices@.len() - k,
    {
        let (b0, b1, b2, b3) = le_bytes(indices[k]);
        let ghost before = bytes@;
        bytes.push(b0);
        bytes.push(b1);
        bytes.push(b2);
        bytes.push(b3);
        proof {
            assert(bytes@ =~= before + seq![b0, b1, b2, b3]);
            assert forall|i: int| 0 <= i < k + 1 implies #[trigger] word_values(indices@)[i] == word_at(bytes@, i, true) by {
                if i < k {
                    assert(word_at(bytes@, i, true) == word_at(before, i, true));
                } else {
                    assert(bytes@[4 * i] == b0);
                    assert(bytes@[4 * i + 1] == b1);
                    assert(bytes@[4 * i + 2] == b2);
                    assert(bytes@[4 * i + 3] == b3);
                }
            }
        }
        k += 1;
    }
    bytes
}

impl SimplePipeline {
    /// Create a new simple pipeline
    pub fn new() -> (p: Self) {
        SimplePipeline
    }

    /// Build the render graph of a scene with `object_count` objects whose
    /// inline meshes got the buffers `meshes`: the two simple shaders, the
    /// color buffer, and one vertex buffer pass per mesh, in order
    pub fn build_graph(&self, meshes: &[MeshBuffers], object_count: usize) -> (r: Result<RenderGraph<PassCallback>, SceneError>)
        requires
            meshes@.len() <= object_count,
        ensures
            r is Err <==> object_count == 0,
            r matches Ok(g) ==> {
                &&& registers_simple_shaders(g.shader_seq())
                &&& g.resource_seq().len() == 1
                &&& g.resource_seq()[0].name@ == "color_buffer"@
                &&& g.resource_seq()[0].descriptor == simple_color_buffer()
                &&& g.resource_seq()[0].initial_data is None
                &&& g.pass_seq().len() == meshes@.len()
                &&& g.ids_match_positions()
                &&& forall|i: int| 0 <= i < meshes@.len() ==> {
                    let pass = #[trigger] g.pass_seq()[i];
                    &&& pass.name@ == "vertex_buffer_triangle"@
                    &&& pass.kind == PassKind::Graphics
                    &&& pass.inputs@ == Seq::<ResourceAccess>::empty()
                    &&& pass.outputs@ == seq![color_write(ResourceId(0))]
                    &&& pass.callback == Some(PassCallback::VertexBufferTriangle(meshes@[i].callback()))
                    &&& pass.callback matches Some(PassCallback::VertexBufferTriangle(cb)) && {
                        &&& cb.vertex_buffer == meshes@[i].vertex_buffer
                        &&& cb.index_buffer == meshes@[i].index_buffer
                        &&& cb.draw_count == if meshes@[i].index_buffer is Some {
                            meshes@[i].index_count
                        } else {
                            meshes@[i].vertex_count
                        }
                    }
                }
            },
    {
        if object_count == 0 {
            return Err(SceneError::NoObjects);
        }
        let mut graph: RenderGraph<PassCallback> = RenderGraph::new();
        graph.register_shader(
            "simple_vertex.vert",
            ShaderDescriptor::from_file("shaders/hlsl/simple_vertex.hlsl", ShaderStage::Vertex).with_entry_point("VSMain"),
        );
        graph.register_shader(
            "simple_vertex.frag",
            ShaderDescriptor::from_file("shaders/hlsl/simple_vertex.hlsl", ShaderStage::Fragment).with_entry_point("PSMain"),
        );
        let color_desc = ResourceDescriptor::Image {
            format: Format::Bgra8Unorm,
            extent: ExtentMode::Absolute(Extent3D::new_2d(800, 600)),
            usage: ImageUsageFlags::new(ImageUsageFlags::COLOR_ATTACHMENT),
            samples: SampleCount::One,
            mip_levels: 1,
        };
        let color_buffer = graph.create_resource("color_buffer", color_desc);
        proof {
            assert(graph.shader_seq()[0] == graph.shader_seq().drop_last()[0]);
        }
        let ghost shaders = graph.shader_seq();
        let ghost resources = graph.resource_seq();
        let mut k: usize = 0;
        while k < meshes.len()
            invariant
                k <= meshes@.len(),
                color_buffer == ResourceId(0),
                graph.shader_seq() == shaders,
                graph.resource_seq() == resources,
                graph.pass_seq().len() == k,
                forall|i: int| 0 <= i < k ==> {
                    let pass = #[trigger] graph.pass_seq()[i];
                    &&& pass.id == PassId(i as usize)
                    &&& pass.name@ == "vertex_buffer_triangle"@
                    &&& pass.kind == PassKind::Graphics
                    &&& pass.inputs@ == Seq::<ResourceAccess>::empty()
                    &&& pass.outputs@ == seq![color_write(ResourceId(0))]
                    &&& pass.callback == Some(PassCallback::VertexBufferTriangle(meshes@[i].callback()))
                },
            decreases meshes@.len() - k,
        {
            let mesh = meshes[k];
            let draw_count = match mesh.index_buffer {
                Some(_) => mesh.index_count,
                None => mesh.vertex_count,
            };
            let ghost before = graph.pass_seq();
            let _pass = VertexBufferTrianglePass::new(&mut graph, color_buffer, mesh.vertex_buffer, mesh.index_buffer, draw_count);
            proof {
                assert forall|i: int| 0 <= i < k implies #[trigger] graph.pass_seq()[i] == before[i] by {
                    assert(graph.pass_seq().drop_last()[i] == before[i]);
                }
            }
            k += 1;
        }
        Ok(graph)
    }
}

impl Default for SimplePipeline {
    fn default() -> (p: Self) {
        SimplePipeline
    }
}

impl RenderPipeline for SimplePipeline {
    /// The pipeline is named "Simple"
    fn name(&self) -> (s: &str)
        ensures
            s@ == "Simple"@,
    {
        "Simple"
    }
}

} // verus!
