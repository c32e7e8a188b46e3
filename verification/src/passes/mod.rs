//! Render passes
//!
//! Each pass declares, on a render graph, the resources it reads and writes
//! and a callback from which the pipeline it needs and the commands it
//! records are computed.

use vstd::prelude::*;
use crate::render_graph::{
    InputRate, PassStep, PipelineRequest, PipelineSpec, VertexAttribute, VertexBinding, VertexFormat,
    VertexLayout,
};

pub mod forward;
pub mod forward_declarative;
pub mod forward_pass_builder;
pub mod forward_simple;
pub mod mesh_indices;
pub mod shadow_map;
pub mod triangle_pass;
pub mod vertex_buffer_triangle;

pub use forward::{ForwardPass, ForwardPassCallback};
pub use forward_declarative::ForwardDeclarativePass;
pub use forward_pass_builder::{ForwardRenderPass, ForwardRenderPassBuilder, ForwardRenderPassCallback};
pub use forward_simple::{
    ForwardSimplePass, ForwardSimplePassBuilder, ForwardSimplePassCallback,
    ForwardSimpleSceneResources,
};
pub use shadow_map::{ShadowMapPass, ShadowMapPassBuilder, ShadowMapPassCallback};
pub use triangle_pass::{TrianglePass, TrianglePassCallback};
pub use vertex_buffer_triangle::{
    ConfigurableVertexBufferCallback, VertexBufferTriangleCallback, VertexBufferTrianglePass,
    VertexBufferTrianglePassBuilder,
};

verus! {

/// Size in bytes of the camera uniforms (one 4x4 matrix of 32-bit floats)
pub const CAMERA_UNIFORMS_SIZE: u64 = 64;

/// Size in bytes of the lighting uniforms (ambient color and light count, then eight lights of 48 bytes)
pub const LIGHTING_UNIFORMS_SIZE: u64 = 400;

/// Size in bytes of the material uniforms (two four-component vectors)
pub const MATERIAL_UNIFORMS_SIZE: u64 = 32;

/// Size in bytes of the shadow uniforms (light-space matrix and shadow parameters)
pub const SHADOW_UNIFORMS_SIZE: u64 = 80;

/// Size in bytes of the light uniforms of the shadow pass (light view-projection matrix)
pub const LIGHT_UNIFORMS_SIZE: u64 = 64;

/// Stage bits of the vertex shader in push-constant commands
pub const PUSH_STAGE_VERTEX: u32 = 1;

/// Why a pass could not be built
#[derive(Debug, Clone, Copy, PartialEq, Eq, Structural)]
pub enum PassBuildError {
    MissingColorOutput,
    MissingDepthOutput,
    MissingVertexBuffer,
    MissingIndexBuffer,
    MissingCameraBuffer,
    MissingLightingBuffer,
    MissingShadowMapOutput,
    MissingLightUniforms,
    VertexBufferNotSet,
    ZeroVertexCount,
    ZeroIndexCount,
}

impl PassBuildError {
    /// The message the error is reported with
    pub fn message(&self) -> (s: String)
        ensures
            s@ == self.text(),
    {
        match self {
            PassBuildError::MissingColorOutput => "color_output is required".to_owned(),
            PassBuildError::MissingDepthOutput => "depth_output is required".to_owned(),
            PassBuildError::MissingVertexBuffer => "vertex_buffer is required".to_owned(),
            PassBuildError::MissingIndexBuffer => "index_buffer is required".to_owned(),
            PassBuildError::MissingCameraBuffer => "camera_buffer is required".to_owned(),
            PassBuildError::MissingLightingBuffer => "lighting_buffer is required".to_owned(),
            PassBuildError::MissingShadowMapOutput => "shadow_map_output is required".to_owned(),
            PassBuildError::MissingLightUniforms => "light_uniforms is required".to_owned(),
            PassBuildError::VertexBufferNotSet => "Vertex buffer not set".to_owned(),
            PassBuildError::ZeroVertexCount => "vertex_count must be greater than 0".to_owned(),
            PassBuildError::ZeroIndexCount => "index_count must be greater than 0".to_owned(),
        }
    }

    /// The text of each error.
    pub open spec fn text(self) -> Seq<char> {
        match self {
            PassBuildError::MissingColorOutput => "color_output is required"@,
            PassBuildError::MissingDepthOutput => "depth_output is required"@,
            PassBuildError::MissingVertexBuffer => "vertex_buffer is required"@,
            PassBuildError::MissingIndexBuffer => "index_buffer is required"@,
            PassBuildError::MissingCameraBuffer => "camera_buffer is required"@,
            PassBuildError::MissingLightingBuffer => "lighting_buffer is required"@,
            PassBuildError::MissingShadowMapOutput => "shadow_map_output is required"@,
            PassBuildError::MissingLightUniforms => "light_uniforms is required"@,
            PassBuildError::VertexBufferNotSet => "Vertex buffer not set"@,
            PassBuildError::ZeroVertexCount => "vertex_count must be greater than 0"@,
            PassBuildError::ZeroIndexCount => "index_count must be greater than 0"@,
        }
    }
}

/// The attributes of the standard 48-byte vertex: position, normal, uv, color.
pub open spec fn standard_attributes() -> Seq<VertexAttribute> {
    seq![
        VertexAttribute { location: 0, format: VertexFormat::Float32x3, offset: 0 },
        VertexAttribute { location: 1, format: VertexFormat::Float32x3, offset: 12 },
        VertexAttribute { location: 2, format: VertexFormat::Float32x2, offset: 24 },
        VertexAttribute { location: 3, format: VertexFormat::Float32x4, offset: 32 },
    ]
}

/// The single per-vertex binding of the standard 48-byte vertex.
pub open spec fn standard_bindings() -> Seq<VertexBinding> {
    seq![VertexBinding { binding: 0, stride: 48, input_rate: InputRate::Vertex }]
}

/// Vertex layout of the standard vertex (position, normal, uv, color; stride 48)
pub fn standard_vertex_layout() -> (l: VertexLayout)
    ensures
        l.attributes@ == standard_attributes(),
        l.bindings@ == standard_bindings(),
{
    let mut layout = VertexLayout::new();
    layout.add_attribute(VertexAttribute { location: 0, format: VertexFormat::Float32x3, offset: 0 });
    layout.add_attribute(VertexAttribute { location: 1, format: VertexFormat::Float32x3, offset: 12 });
    layout.add_attribute(VertexAttribute { location: 2, format: VertexFormat::Float32x2, offset: 24 });
    layout.add_attribute(VertexAttribute { location: 3, format: VertexFormat::Float32x4, offset: 32 });
    layout.add_binding(VertexBinding { binding: 0, stride: 48, input_rate: InputRate::Vertex });
    assert(layout.attributes@ =~= standard_attributes());
    assert(layout.bindings@ =~= standard_bindings());
    layout
}

/// The callback of a pass: what it needs from the backend and what it records
#[derive(Debug, Clone, Copy, PartialEq, Eq, Structural)]
pub enum PassCallback {
    Triangle(TrianglePassCallback),
    VertexBufferTriangle(VertexBufferTriangleCallback),
    ConfigurableVertexBuffer(ConfigurableVertexBufferCallback),
    Forward(ForwardPassCallback),
    ForwardRender(ForwardRenderPassCallback),
    ForwardSimple(ForwardSimplePassCallback),
    ShadowMap(ShadowMapPassCallback),
}

impl PassCallback {
    /// The commands the callback records when the pass runs.
    pub open spec fn spec_execute(self) -> Seq<PassStep> {
        match self {
            PassCallback::Triangle(c) => c.spec_execute(),
            PassCallback::VertexBufferTriangle(c) => c.spec_execute(),
            PassCallback::ConfigurableVertexBuffer(c) => c.spec_execute(),
            PassCallback::Forward(c) => c.spec_execute(),
            PassCallback::ForwardRender(c) => c.spec_execute(),
            PassCallback::ForwardSimple(c) => c.spec_execute(),
            PassCallback::ShadowMap(c) => c.spec_execute(),
        }
    }

    /// The pipeline the callback asks for, when it asks for one.
    pub open spec fn spec_pipeline(self) -> Option<PipelineSpec> {
        match self {
            PassCallback::Triangle(_) => Some(TrianglePassCallback::pipeline()),
            PassCallback::VertexBufferTriangle(_) => Some(VertexBufferTriangleCallback::pipeline()),
            PassCallback::ConfigurableVertexBuffer(_) => None,
            PassCallback::Forward(_) => None,
            PassCallback::ForwardRender(_) => Some(ForwardRenderPassCallback::pipeline()),
            PassCallback::ForwardSimple(_) => Some(ForwardSimplePassCallback::pipeline()),
            PassCallback::ShadowMap(_) => Some(ShadowMapPassCallback::pipeline()),
        }
    }

    /// The pipeline the pass asks for; `None` when it leaves the pipeline to the backend
    pub fn declare_pipeline(&self) -> (r: Option<PipelineRequest>)
        ensures
            match r {
                Some(p) => self.spec_pipeline() == Some(p@),
                None => self.spec_pipeline() is None,
            },
    {
        match self {
            PassCallback::Triangle(c) => Some(c.declare_pipeline()),
            PassCallback::VertexBufferTriangle(c) => Some(c.declare_pipeline()),
            PassCallback::ConfigurableVertexBuffer(_) => None,
            PassCallback::Forward(_) => None,
            PassCallback::ForwardRender(c) => Some(c.declare_pipeline()),
            PassCallback::ForwardSimple(c) => Some(c.declare_pipeline()),
            PassCallback::ShadowMap(c) => Some(c.declare_pipeline()),
        }
    }

    /// What the pass prepares before it runs; no pass of the graph prepares anything
    pub fn prepare(&self) -> (r: Vec<PassStep>)
        ensures
            r@ == Seq::<PassStep>::empty(),
    {
        Vec::new()
    }

    /// The commands the pass records, in order
    pub fn execute(&self) -> (r: Vec<PassStep>)
        ensures
            r@ == self.spec_execute(),
    {
        match self {
            PassCallback::Triangle(c) => c.execute(),
            PassCallback::VertexBufferTriangle(c) => c.execute(),
            PassCallback::ConfigurableVertexBuffer(c) => c.execute(),
            PassCallback::Forward(c) => c.execute(),
            PassCallback::ForwardRender(c) => c.execute(),
            PassCallback::ForwardSimple(c) => c.execute(),
            PassCallback::ShadowMap(c) => c.execute(),
        }
    }
}

} // verus!
