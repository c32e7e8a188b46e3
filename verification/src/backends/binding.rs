//! Shader resource binding abstractions
//!
//! Backend-agnostic descriptions of the resources (uniform buffers, storage
//! buffers, textures, samplers) that a pipeline binds, and of the resources
//! actually bound to them.

use vstd::prelude::*;

verus! {

/// Handle of a GPU buffer owned by a backend; the backend finds the buffer again by it.
#[derive(Debug, Clone, Copy, PartialEq, Eq, Structural)]
pub struct BufferHandle(pub u64);

/// Handle of a GPU texture owned by a backend.
#[derive(Debug, Clone, Copy, PartialEq, Eq, Structural)]
pub struct TextureHandle(pub u64);

/// Handle of a GPU sampler owned by a backend.
#[derive(Debug, Clone, Copy, PartialEq, Eq, Structural)]
pub struct SamplerHandle(pub u64);

/// Shader stage where a binding is visible (a set of stage bits)
#[derive(Debug, Clone, Copy, PartialEq, Eq, Hash, Structural)]
pub struct ShaderStage(pub u32);

/// `stage` holds every bit of `other`.
pub open spec fn stage_bits_contain(stage: u32, other: u32) -> bool {
    stage & other == other
}

impl ShaderStage {
    pub const VERTEX: u32 = 1;
    pub const FRAGMENT: u32 = 2;
    pub const COMPUTE: u32 = 4;
    pub const ALL_GRAPHICS: u32 = 3;
    pub const ALL: u32 = 7;

    pub fn new(flags: u32) -> (s: Self)
        ensures
            s.0 == flags,
    {
        ShaderStage(flags)
    }

    pub fn bits(&self) -> (b: u32)
        ensures
            b == self.0,
    {
        self.0
    }

    /// Whether every bit of `other` is set in this stage.
    pub fn contains(&self, other: u32) -> (r: bool)
        ensures
            r == stage_bits_contain(self.0, other),
    {
        (self.0 & other) == other
    }
}

/// Texture dimension for binding
#[derive(Debug, Clone, Copy, PartialEq, Eq, Structural)]
pub enum TextureDimension {
    D1,
    D2,
    D3,
    Cube,
    D2Array,
}

/// Type of shader binding
#[derive(Debug, Clone, Copy)]
pub enum ShaderBinding {
    /// Uniform buffer binding
    UniformBuffer { binding: u32, size: u64, stage: ShaderStage },
    /// Storage buffer binding (for compute shaders)
    StorageBuffer { binding: u32, size: u64, stage: ShaderStage, readonly: bool },
    /// Texture binding
    Texture { binding: u32, dimension: TextureDimension, stage: ShaderStage },
    /// Sampler binding
    Sampler { binding: u32, stage: ShaderStage },
}

impl ShaderBinding {
    /// The binding index of a binding.
    pub open spec fn index_of(self) -> u32 {
        match self {
            ShaderBinding::UniformBuffer { binding, .. } => binding,
            ShaderBinding::StorageBuffer { binding, .. } => binding,
            ShaderBinding::Texture { binding, .. } => binding,
            ShaderBinding::Sampler { binding, .. } => binding,
        }
    }

    /// The stage in which a binding is visible.
    pub open spec fn stage_of(self) -> ShaderStage {
        match self {
            ShaderBinding::UniformBuffer { stage, .. } => stage,
            ShaderBinding::StorageBuffer { stage, .. } => stage,
            ShaderBinding::Texture { stage, .. } => stage,
            ShaderBinding::Sampler { stage, .. } => stage,
        }
    }

    /// Get the binding index
    pub fn binding(&self) -> (b: u32)
        ensures
            b == self.index_of(),
    {
        match self {
            ShaderBinding::UniformBuffer { binding, .. } => *binding,
            ShaderBinding::StorageBuffer { binding, .. } => *binding,
            ShaderBinding::Texture { binding, .. } => *binding,
            ShaderBinding::Sampler { binding, .. } => *binding,
        }
    }

    /// Get the shader stage
    pub fn stage(&self) -> (s: ShaderStage)
        ensures
            s == self.stage_of(),
    {
        match self {
            ShaderBinding::UniformBuffer { stage, .. } => *stage,
            ShaderBinding::StorageBuffer { stage, .. } => *stage,
            ShaderBinding::Texture { stage, .. } => *stage,
            ShaderBinding::Sampler { stage, .. } => *stage,
        }
    }
}

/// `i` is the first position of `s` whose binding index is `b`.
pub open spec fn is_first_binding(s: Seq<ShaderBinding>, b: u32, i: int) -> bool {
    &&& 0 <= i < s.len()
    &&& s[i].index_of() == b
    &&& forall|j: int| 0 <= j < i ==> s[j].index_of() != b
}

/// No position of `s` has binding index `b`.
pub open spec fn no_binding(s: Seq<ShaderBinding>, b: u32) -> bool {
    forall|j: int| 0 <= j < s.len() ==> s[j].index_of() != b
}

/// Layout describing a set of shader bindings
#[derive(Debug, Clone)]
pub struct BindGroupLayout {
    bindings: Vec<ShaderBinding>,
}

impl View for BindGroupLayout {
    type V = Seq<ShaderBinding>;

    closed spec fn view(&self) -> Seq<ShaderBinding> {
        self.bindings@
    }
}

impl BindGroupLayout {
    /// Create a new bind group layout
    pub fn new(bindings: Vec<ShaderBinding>) -> (l: Self)
        ensures
            l@ == bindings@,
    {
        BindGroupLayout { bindings }
    }

    /// Get the bindings
    pub fn bindings(&self) -> (s: &[ShaderBinding])
        ensures
            s@ == self@,
    {
        self.bindings.as_slice()
    }

    /// Get number of bindings
    pub fn binding_count(&self) -> (n: usize)
        ensures
            n == self@.len(),
    {
        self.bindings.len()
    }

    /// Find the first binding whose index is `binding`
    pub fn get_binding(&self, binding: u32) -> (r: Option<&ShaderBinding>)
        ensures
            r is None <==> no_binding(self@, binding),
            r matches Some(x) ==> exists|i: int|
                is_first_binding(self@, binding, i) && self@[i] == *x,
    {
        let n = self.bindings.len();
        let mut i: usize = 0;
        while i < n
            invariant
                n == self.bindings@.len(),
                i <= n,
                forall|j: int| 0 <= j < i ==> self.bindings@[j].index_of() != binding,
            decreases n - i,
        {
            if self.bindings[i].binding() == binding {
                assert(is_first_binding(self@, binding, i as int));
                return Some(&self.bindings[i]);
            }
            i += 1;
        }
        None
    }
}

/// Resource bound to a shader binding
#[derive(Debug, Clone, Copy, PartialEq, Eq, Structural)]
pub enum BoundResource {
    UniformBuffer(BufferHandle),
    StorageBuffer(BufferHandle),
    Texture(TextureHandle),
    Sampler(SamplerHandle),
}

/// `i` is the first position of `s` bound at binding index `b`.
pub open spec fn is_first_bound(s: Seq<(u32, BoundResource)>, b: u32, i: int) -> bool {
    &&& 0 <= i < s.len()
    &&& s[i].0 == b
    &&& forall|j: int| 0 <= j < i ==> s[j].0 != b
}

/// Nothing in `s` is bound at binding index `b`.
pub open spec fn nothing_bound(s: Seq<(u32, BoundResource)>, b: u32) -> bool {
    forall|j: int| 0 <= j < s.len() ==> s[j].0 != b
}

/// A set of bound resources matching a layout
pub struct BindGroup {
    layout: BindGroupLayout,
    resources: Vec<(u32, BoundResource)>,
}

impl BindGroup {
    /// The layout of the group.
    pub closed spec fn layout_view(&self) -> Seq<ShaderBinding> {
        self.layout@
    }

    /// The resources bound so far, in binding order.
    pub closed spec fn bound(&self) -> Seq<(u32, BoundResource)> {
        self.resources@
    }

    /// Create a new bind group
    pub fn new(layout: BindGroupLayout) -> (g: Self)
        ensures
            g.layout_view() == layout@,
            g.bound() == Seq::<(u32, BoundResource)>::empty(),
    {
        BindGroup { layout, resources: Vec::new() }
    }

    /// Get the layout
    pub fn layout(&self) -> (l: &BindGroupLayout)
        ensures
            l@ == self.layout_view(),
    {
        &self.layout
    }

    /// Bind a uniform buffer
    pub fn bind_uniform_buffer(&mut self, binding: u32, buffer: BufferHandle)
        ensures
            final(self).layout_view() == old(self).layout_view(),
            final(self).bound() == old(self).bound().push((binding, BoundResource::UniformBuffer(buffer))),
    {
        self.resources.push((binding, BoundResource::UniformBuffer(buffer)));
    }

    /// Bind a storage buffer
    pub fn bind_storage_buffer(&mut self, binding: u32, buffer: BufferHandle)
        ensures
            final(self).layout_view() == old(self).layout_view(),
            final(self).bound() == old(self).bound().push((binding, BoundResource::StorageBuffer(buffer))),
    {
        self.resources.push((binding, BoundResource::StorageBuffer(buffer)));
    }

    /// Bind a texture
    pub fn bind_texture(&mut self, binding: u32, texture: TextureHandle)
        ensures
            final(self).layout_view() == old(self).layout_view(),
            final(self).bound() == old(self).bound().push((binding, BoundResource::Texture(texture))),
    {
        self.resources.push((binding, BoundResource::Texture(texture)));
    }

    /// Bind a sampler
    pub fn bind_sampler(&mut self, binding: u32, sampler: SamplerHandle)
        ensures
            final(self).layout_view() == old(self).layout_view(),
            final(self).bound() == old(self).bound().push((binding, BoundResource::Sampler(sampler))),
    {
        self.resources.push((binding, BoundResource::Sampler(sampler)));
    }

    /// Get all bound resources
    pub fn resources(&self) -> (s: &[(u32, BoundResource)])
        ensures
            s@ == self.bound(),
    {
        self.resources.as_slice()
    }

    /// Get the resource bound first at `binding`
    pub fn get_resource(&self, binding: u32) -> (r: Option<&BoundResource>)
        ensures
            r is None <==> nothing_bound(self.bound(), binding),
            r matches Some(x) ==> exists|i: int|
                is_first_bound(self.bound(), binding, i) && self.bound()[i].1 == *x,
    {
        let n = self.resources.len();
        let mut i: usize = 0;
        while i < n
            invariant
                n == self.resources@.len(),
                i <= n,
                forall|j: int| 0 <= j < i ==> self.resources@[j].0 != binding,
            decreases n - i,
        {
            if self.resources[i].0 == binding {
                assert(is_first_bound(self.bound(), binding, i as int));
                return Some(&self.resources[i].1);
            }
            i += 1;
        }
        None
    }
}

/// Binding a resource at an index where nothing is bound yet makes it the
/// resource a lookup of that index finds.
pub proof fn lemma_bind_then_get(bound: Seq<(u32, BoundResource)>, b: u32, res: BoundResource)
    requires
        nothing_bound(bound, b),
    ensures
        is_first_bound(bound.push((b, res)), b, bound.len() as int),
        bound.push((b, res))[bound.len() as int].1 == res,
{
}

/// Binding more resources never changes what a lookup of an index that is
/// already bound finds: the first resource bound there stays.
pub proof fn lemma_first_binding_stays(bound: Seq<(u32, BoundResource)>, b: u32, i: int, more: (u32, BoundResource))
    requires
        is_first_bound(bound, b, i),
    ensures
        is_first_bound(bound.push(more), b, i),
        bound.push(more)[i] == bound[i],
{
}

/// Stage containment is reflexive and transitive, and the combined stages
/// hold exactly the single stages they name.
pub proof fn lemma_stage_containment(a: u32, b: u32, c: u32)
    ensures
        stage_bits_contain(a, a),
        stage_bits_contain(a, 0),
        stage_bits_contain(a, b) && stage_bits_contain(b, c) ==> stage_bits_contain(a, c),
        stage_bits_contain(ShaderStage::ALL, ShaderStage::VERTEX),
        stage_bits_contain(ShaderStage::ALL, ShaderStage::FRAGMENT),
        stage_bits_contain(ShaderStage::ALL, ShaderStage::COMPUTE),
        stage_bits_contain(ShaderStage::ALL_GRAPHICS, ShaderStage::VERTEX),
        stage_bits_contain(ShaderStage::ALL_GRAPHICS, ShaderStage::FRAGMENT),
        !stage_bits_contain(ShaderStage::ALL_GRAPHICS, ShaderStage::COMPUTE),
        !stage_bits_contain(ShaderStage::VERTEX, ShaderStage::FRAGMENT),
{
    assert(a & a == a) by (bit_vector);
    assert(a & 0 == 0) by (bit_vector);
    assert((a & b == b && b & c == c) ==> a & c == c) by (bit_vector);
    assert(7u32 & 1u32 == 1u32 && 7u32 & 2u32 == 2u32 && 7u32 & 4u32 == 4u32) by (bit_vector);
    assert(3u32 & 1u32 == 1u32 && 3u32 & 2u32 == 2u32 && 3u32 & 4u32 != 4u32 && 1u32 & 2u32 != 2u32) by (bit_vector);
}

/// Builder for bind group layouts
pub struct BindGroupLayoutBuilder {
    bindings: Vec<ShaderBinding>,
}

impl View for BindGroupLayoutBuilder {
    type V = Seq<ShaderBinding>;

    closed spec fn view(&self) -> Seq<ShaderBinding> {
        self.bindings@
    }
}

impl BindGroupLayoutBuilder {
    /// Create a new builder
    pub fn new() -> (b: Self)
        ensures
            b@ == Seq::<ShaderBinding>::empty(),
    {
        BindGroupLayoutBuilder { bindings: Vec::new() }
    }

    /// Add a uniform buffer binding
    pub fn uniform_buffer(self, binding: u32, size: u64, stage: ShaderStage) -> (b: Self)
        ensures
            b@ == self@.push(ShaderBinding::UniformBuffer { binding, size, stage }),
    {
        let mut bindings = self.bindings;
        bindings.push(ShaderBinding::UniformBuffer { binding, size, stage });
        BindGroupLayoutBuilder { bindings }
    }

    /// Add a storage buffer binding
    pub fn storage_buffer(self, binding: u32, size: u64, stage: ShaderStage, readonly: bool) -> (b: Self)
        ensures
            b@ == self@.push(ShaderBinding::StorageBuffer { binding, size, stage, readonly }),
    {
        let mut bindings = self.bindings;
        bindings.push(ShaderBinding::StorageBuffer { binding, size, stage, readonly });
        BindGroupLayoutBuilder { bindings }
    }

    /// Add a texture binding
    pub fn texture(self, binding: u32, dimension: TextureDimension, stage: ShaderStage) -> (b: Self)
        ensures
            b@ == self@.push(ShaderBinding::Texture { binding, dimension, stage }),
    {
        let mut bindings = self.bindings;
        bindings.push(ShaderBinding::Texture { binding, dimension, stage });
        BindGroupLayoutBuilder { bindings }
    }

    /// Add a sampler binding
    pub fn sampler(self, binding: u32, stage: ShaderStage) -> (b: Self)
        ensures
            b@ == self@.push(ShaderBinding::Sampler { binding, stage }),
    {
        let mut bindings = self.bindings;
        bindings.push(ShaderBinding::Sampler { binding, stage });
        BindGroupLayoutBuilder { bindings }
    }

    /// Build the layout
    pub fn build(self) -> (l: BindGroupLayout)
        ensures
            l@ == self@,
    {
        BindGroupLayout::new(self.bindings)
    }
}

impl Default for BindGroupLayoutBuilder {
    fn default() -> (b: Self)
        ensures
            b@ == Seq::<ShaderBinding>::empty(),
    {
        Self::new()
    }
}

} // verus!
