//! Vertex format definitions
//!
//! The standard vertex of the renderer is a position (three floats), a normal
//! (three floats), texture coordinates (two floats) and a color (four floats),
//! packed without gaps into 48 bytes.

use vstd::prelude::*;

verus! {

/// Size in bytes of the standard vertex, which is also its stride
pub const STANDARD_VERTEX_SIZE: u32 = 48;

/// Vertex attribute format
#[derive(Debug, Clone, Copy, PartialEq, Eq, Structural)]
pub enum VertexFormat {
    Float,
    Float2,
    Float3,
    Float4,
    UInt,
    UInt2,
    UInt3,
    UInt4,
}

impl VertexFormat {
    /// Four bytes per component.
    pub open spec fn spec_size(self) -> u32 {
        match self {
            VertexFormat::Float | VertexFormat::UInt => 4,
            VertexFormat::Float2 | VertexFormat::UInt2 => 8,
            VertexFormat::Float3 | VertexFormat::UInt3 => 12,
            VertexFormat::Float4 | VertexFormat::UInt4 => 16,
        }
    }

    /// Get the size of this format in bytes
    pub fn size(&self) -> (n: u32)
        ensures
            n == self.spec_size(),
    {
        match self {
            VertexFormat::Float => 4,
            VertexFormat::Float2 => 8,
            VertexFormat::Float3 => 12,
            VertexFormat::Float4 => 16,
            VertexFormat::UInt => 4,
            VertexFormat::UInt2 => 8,
            VertexFormat::UInt3 => 12,
            VertexFormat::UInt4 => 16,
        }
    }
}

/// Vertex attribute description
#[derive(Debug, Clone, Copy, PartialEq, Eq, Structural)]
pub struct VertexAttribute {
    /// Shader location/binding index
    pub location: u32,
    /// Vertex buffer binding index
    pub binding: u32,
    /// Format of the attribute
    pub format: VertexFormat,
    /// Offset in bytes from the start of the vertex
    pub offset: u32,
}

/// Vertex buffer binding description
#[derive(Debug, Clone, Copy, PartialEq, Eq, Structural)]
pub struct VertexBufferLayout {
    /// Stride between vertices in bytes
    pub stride: u32,
    /// Input rate (per-vertex or per-instance)
    pub input_rate: VertexInputRate,
}

/// Vertex input rate
#[derive(Debug, Clone, Copy, PartialEq, Eq, Structural)]
pub enum VertexInputRate {
    /// One entry per vertex
    Vertex,
    /// One entry per instance
    Instance,
}

impl Default for VertexBufferLayout {
    /// One standard vertex per vertex
    fn default() -> (l: Self)
        ensures
            l.stride == STANDARD_VERTEX_SIZE,
            l.input_rate == VertexInputRate::Vertex,
    {
        VertexBufferLayout { stride: STANDARD_VERTEX_SIZE, input_rate: VertexInputRate::Vertex }
    }
}

/// The attributes lie one after another from offset 0, with no gap, and end at `stride`.
pub open spec fn tightly_packed(attrs: Seq<VertexAttribute>, stride: int) -> bool {
    &&& attrs.len() > 0
    &&& attrs[0].offset == 0
    &&& forall|i: int| 0 <= i < attrs.len() - 1
        ==> #[trigger] attrs[i + 1].offset == attrs[i].offset + attrs[i].format.spec_size()
    &&& attrs.last().offset + attrs.last().format.spec_size() == stride
}

/// The attributes of the standard vertex: position, normal, uv, color, at locations 0 to 3 of binding 0.
pub open spec fn standard_vertex_attributes() -> Seq<VertexAttribute> {
    seq![
        VertexAttribute { location: 0, binding: 0, format: VertexFormat::Float3, offset: 0 },
        VertexAttribute { location: 1, binding: 0, format: VertexFormat::Float3, offset: 12 },
        VertexAttribute { location: 2, binding: 0, format: VertexFormat::Float2, offset: 24 },
        VertexAttribute { location: 3, binding: 0, format: VertexFormat::Float4, offset: 32 },
    ]
}

/// Vertex attribute descriptions of the standard vertex, as Vulkan takes them
pub fn attribute_descriptions() -> (v: Vec<VertexAttribute>)
    ensures
        v@ == standard_vertex_attributes(),
        tightly_packed(v@, STANDARD_VERTEX_SIZE as int),
{
    let v = vec![
        VertexAttribute { location: 0, binding: 0, format: VertexFormat::Float3, offset: 0 },
        VertexAttribute { location: 1, binding: 0, format: VertexFormat::Float3, offset: 12 },
        VertexAttribute { location: 2, binding: 0, format: VertexFormat::Float2, offset: 24 },
        VertexAttribute { location: 3, binding: 0, format: VertexFormat::Float4, offset: 32 },
    ];
    assert(v@ =~= standard_vertex_attributes());
    proof {
        let a = v@;
        assert forall|i: int| 0 <= i < a.len() - 1 implies #[trigger] a[i + 1].offset == a[i].offset
            + a[i].format.spec_size() by {
            if i == 0 {
            } else if i == 1 {
            } else {
                assert(i == 2);
            }
        }
    }
    v
}

} // verus!
