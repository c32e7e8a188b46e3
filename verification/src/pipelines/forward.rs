//! Forward rendering pipeline with lighting: multiple lights, Blinn-Phong
//! shading and camera transforms. Its graph holds one forward pass per inline
//! mesh of the scene, all sharing the camera and lighting buffers and writing
//! the same 800x600 color buffer; each pass uses its mesh's material and
//! diffuse texture, or the default ones where the mesh has none.

use vstd::prelude::*;
use vstd::string::StringExecFns;
use crate::backends::binding::{BufferHandle, TextureHandle};
use crate::passes::forward_pass_builder::{ForwardRenderPass, ForwardRenderSettings};
use crate::passes::{PassBuildError, PassCallback};
use crate::pipelines::simple::{simple_color_buffer, SceneError};
use crate::pipelines::RenderPipeline;
use crate::render_graph::{
    AccessType, ImageLayout, PipelineStage, Extent3D, ExtentMode, Format, ImageUsageFlags, PassId, PassKind, RenderGraph, ResourceAccess,
    ResourceDescriptor, ResourceId, SampleCount, TransformId,
};

verus! {

/// Forward rendering pipeline with lighting
pub struct ForwardPipeline;

/// An inline mesh of the scene with the buffers the backend created for it
#[derive(Debug, Clone)]
pub struct ForwardMesh {
    pub name: String,
    pub vertex_buffer: BufferHandle,
    pub vertex_count: u32,
    pub transform: TransformId,
    /// The mesh's material index, the buffer created for that material, and
    /// its diffuse texture when one was given and loaded
    pub material: Option<(usize, BufferHandle, Option<TextureHandle>)>,
}

/// The material buffer and diffuse texture a mesh is drawn with: those of its
/// material when the index names one of the `material_count` materials (the
/// default texture when the material has none), else the two defaults.
pub open spec fn forward_material(
    material: Option<(usize, BufferHandle, Option<TextureHandle>)>,
    material_count: usize,
    default_material: BufferHandle,
    default_texture: TextureHandle,
) -> (BufferHandle, TextureHandle) {
    match material {
        Some((index, buffer, texture)) => if index < material_count {
            (buffer, match texture {
                Some(t) => t,
                None => default_texture,
            })
        } else {
            (default_material, default_texture)
        },
        None => (default_material, default_texture),
    }
}

/// The settings of the forward pass drawing `mesh` into `color`.
pub open spec fn forward_mesh_settings(
    mesh: ForwardMesh,
    color: ResourceId,
    camera: BufferHandle,
    lighting: BufferHandle,
    material_count: usize,
    default_material: BufferHandle,
    default_texture: TextureHandle,
) -> ForwardRenderSettings {
    let (material_buffer, texture) = forward_material(mesh.material, material_count, default_material, default_texture);
    ForwardRenderSettings {
        color_output: Some(color),
        depth_output: None,
        vertex_buffer: Some(mesh.vertex_buffer),
        camera_buffer: Some(camera),
        lighting_buffer: Some(lighting),
        material_buffer: Some(material_buffer),
        texture: Some(texture),
        transform: Some(mesh.transform),
        vertex_count: mesh.vertex_count,
        name: "forward_"@ + mesh.name@,
    }
}

/// The forward pass drawn for a mesh draws that mesh: its own vertex
/// buffer, vertex count and transform, the shared camera and lighting
/// buffers; the buffer of its material with that material's texture (or the
/// default texture) when its material index names one of the
/// `material_count` materials, and the default material and texture otherwise.
pub proof fn lemma_forward_mesh_pass(
    mesh: ForwardMesh,
    color: ResourceId,
    camera: BufferHandle,
    lighting: BufferHandle,
    material_count: usize,
    default_material: BufferHandle,
    default_texture: TextureHandle,
)
    ensures
        ({
            let settings = forward_mesh_settings(mesh, color, camera, lighting, material_count, default_material, default_texture);
            let cb = settings.callback();
            &&& settings.error() is None <==> mesh.vertex_count != 0
            &&& settings.outputs() == seq![ResourceAccess {
                resource: color,
                access: AccessType::Write,
                stage: PipelineStage(PipelineStage::COLOR_ATTACHMENT_OUTPUT),
                layout: Some(ImageLayout::ColorAttachment),
            }]
            &&& cb.vertex_buffer == mesh.vertex_buffer
            &&& cb.vertex_count == mesh.vertex_count
            &&& cb.transform == Some(mesh.transform)
            &&& cb.camera_buffer == camera
            &&& cb.lighting_buffer == lighting
            &&& match mesh.material {
                Some((index, buffer, texture)) => if index < material_count {
                    &&& cb.material_buffer == Some(buffer)
                    &&& cb.texture == Some(if texture is Some { texture.unwrap() } else { default_texture })
                } else {
                    &&& cb.material_buffer == Some(default_material)
                    &&& cb.texture == Some(default_texture)
                },
                None => {
                    &&& cb.material_buffer == Some(default_material)
                    &&& cb.texture == Some(default_texture)
                },
            }
        }),
{
    let settings = forward_mesh_settings(mesh, color, camera, lighting, material_count, default_material, default_texture);
    assert(settings.outputs() =~= seq![ResourceAccess {
        resource: color,
        access: AccessType::Write,
        stage: PipelineStage(PipelineStage::COLOR_ATTACHMENT_OUTPUT),
        layout: Some(ImageLayout::ColorAttachment),
    }]);
}

/// The material buffer and diffuse texture a mesh is drawn with
pub fn select_material(
    material: Option<(usize, BufferHandle, Option<TextureHandle>)>,
    material_count: usize,
    default_material: BufferHandle,
    default_texture: TextureHandle,
) -> (r: (BufferHandle, TextureHandle))
    ensures
        r == forward_material(material, material_count, default_material, default_texture),
{
    match material {
        Some((index, buffer, texture)) => if index < material_count {
            (buffer, match texture {
                Some(t) => t,
                None => default_texture,
            })
        } else {
            (default_material, default_texture)
        },
        None => (default_material, default_texture),
    }
}

impl ForwardPipeline {
    /// Create a new forward pipeline
    pub fn new() -> (p: Self) {
        ForwardPipeline
    }

    /// Build the render graph of a scene with `object_count` objects whose
    /// inline meshes are `meshes`, in order: the color buffer and one forward
    /// pass per mesh, named "forward_" and the mesh's name; a scene without
    /// objects, or a mesh without vertices, gives no graph
    pub fn build_graph(
        &self,
        meshes: &[ForwardMesh],
        object_count: usize,
        material_count: usize,
        camera: BufferHandle,
        lighting: BufferHandle,
        default_material: BufferHandle,
        default_texture: TextureHandle,
    ) -> (r: Result<RenderGraph<PassCallback>, SceneError>)
        requires
            meshes@.len() <= object_count,
        ensures
            r is Err <==> (object_count == 0 || exists|i: int| 0 <= i < meshes@.len() && #[trigger] meshes@[i].vertex_count == 0),
            r matches Err(e) ==> if object_count == 0 {
                e == SceneError::NoObjects
            } else {
                e == SceneError::Pass(PassBuildError::ZeroVertexCount)
            },
            r matches Ok(g) ==> {
                &&& g.shader_seq().len() == 0
                &&& g.resource_seq().len() == 1
                &&& g.resource_seq()[0].name@ == "color_buffer"@
                &&& g.resource_seq()[0].descriptor == simple_color_buffer()
                &&& g.resource_seq()[0].initial_data is None
                &&& g.pass_seq().len() == meshes@.len()
                &&& g.ids_match_positions()
                &&& forall|i: int| 0 <= i < meshes@.len() ==> {
                    let pass = #[trigger] g.pass_seq()[i];
                    let settings = forward_mesh_settings(
                        meshes@[i], ResourceId(0), camera, lighting, material_count, default_material, default_texture);
                    &&& pass.name@ == "forward_"@ + meshes@[i].name@
                    &&& pass.kind == PassKind::Graphics
                    &&& pass.inputs@ == Seq::<ResourceAccess>::empty()
                    &&& pass.outputs@ == settings.outputs()
                    &&& pass.callback == Some(PassCallback::ForwardRender(settings.callback()))
                }
            },
    {
        if object_count == 0 {
            return Err(SceneError::NoObjects);
        }
        let mut graph: RenderGraph<PassCallback> = RenderGraph::new();
        let color_desc = ResourceDescriptor::Image {
            format: Format::Bgra8Unorm,
            extent: ExtentMode::Absolute(Extent3D::new_2d(800, 600)),
            usage: ImageUsageFlags::new(ImageUsageFlags::COLOR_ATTACHMENT),
            samples: SampleCount::One,
            mip_levels: 1,
        };
        let color_buffer = graph.create_resource("color_buffer", color_desc);
        let ghost resources = graph.resource_seq();
        let mut k: usize = 0;
        while k < meshes.len()
            invariant
                k <= meshes@.len(),
                object_count > 0,
                color_buffer == ResourceId(0),
                graph.shader_seq().len() == 0,
                graph.resource_seq() == resources,
                graph.pass_seq().len() == k,
                forall|i: int| 0 <= i < k ==> #[trigger] meshes@[i].vertex_count != 0,
                forall|i: int| 0 <= i < k ==> {
                    let pass = #[trigger] graph.pass_seq()[i];
                    let settings = forward_mesh_settings(
                        meshes@[i], ResourceId(0), camera, lighting, material_count, default_material, default_texture);
                    &&& pass.id == PassId(i as usize)
                    &&& pass.name@ == "forward_"@ + meshes@[i].name@
                    &&& pass.kind == PassKind::Graphics
                    &&& pass.inputs@ == Seq::<ResourceAccess>::empty()
                    &&& pass.outputs@ == settings.outputs()
                    &&& pass.callback == Some(PassCallback::ForwardRender(settings.callback()))
                },
            decreases meshes@.len() - k,
        {
            let mesh = &meshes[k];
            let (material_buffer, texture) = select_material(mesh.material, material_count, default_material, default_texture);
            let mut name = "forward_".to_owned();
            name.append(mesh.name.as_str());
            let builder = ForwardRenderPass::builder()
                .color_output(color_buffer)
                .vertex_buffer(mesh.vertex_buffer)
                .camera_buffer(camera)
                .lighting_buffer(lighting)
                .transform(mesh.transform)
                .vertex_count(mesh.vertex_count)
                .with_name(name.as_str())
                .material_buffer(material_buffer)
                .texture(texture);
            proof {
                assert(builder@ == forward_mesh_settings(
                    meshes@[k as int], ResourceId(0), camera, lighting, material_count, default_material, default_texture));
            }
            let ghost before = graph.pass_seq();
            let ghost settings = builder@;
            match builder.build(&mut graph) {
                Ok(_) => {},
                Err(e) => {
                    proof {
                        assert(settings.error() == Some(e));
                    }
                    return Err(SceneError::Pass(e));
                },
            }
            proof {
                assert forall|i: int| 0 <= i < k implies #[trigger] graph.pass_seq()[i] == before[i] by {
                    assert(graph.pass_seq().drop_last()[i] == before[i]);
                }
            }
            k += 1;
        }
        Ok(graph)
    }
}

impl Default for ForwardPipeline {
    fn default() -> (p: Self) {
        ForwardPipeline
    }
}

impl RenderPipeline for ForwardPipeline {
    /// The pipeline is named "Forward"
    fn name(&self) -> (s: &str)
        ensures
            s@ == "Forward"@,
    {
        "Forward"
    }
}

} // verus!
