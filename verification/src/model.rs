//! Meshes, materials and the GPU-facing layout of both.
//!
//! A mesh names its material by index into the owning scene's material
//! list; an instance names its model the same way.  The vertex record is
//! `{position: vec3, uv: vec2, normal: vec3, tangent: vec4}`, and its
//! buffer layout is computed here and proved contiguous.  Bind-group
//! layouts exist in two variants: diffuse-only (two bindings) and
//! diffuse plus normal map (four bindings).

use vstd::prelude::*;
use crate::bits::{Vec3Bits, Vec4Bits, F32_HALF_BITS, F32_ONE_BITS, F32_ZERO_BITS};
use crate::mat4::{words_to_bytes, encode_words, Mat4};
use crate::texture::{Texture, TextureViewDimension};

verus! {

/// The scalar shape of one vertex attribute.
#[derive(Clone, Copy, PartialEq, Eq, Structural, Debug)]
pub enum VertexFormat {
    Float32x2,
    Float32x3,
    Float32x4,
}

/// The byte width of a vertex attribute format.
pub open spec fn spec_vertex_format_size(f: VertexFormat) -> u64 {
    match f {
        VertexFormat::Float32x2 => 8,
        VertexFormat::Float32x3 => 12,
        VertexFormat::Float32x4 => 16,
    }
}

/// Whether a vertex buffer advances per vertex or per instance.
#[derive(Clone, Copy, PartialEq, Eq, Structural, Debug)]
pub enum VertexStepMode {
    Vertex,
    Instance,
}

/// One attribute within a vertex buffer.
#[derive(Clone, Copy, PartialEq, Eq, Structural, Debug)]
pub struct VertexAttribute {
    pub offset: u64,
    pub shader_location: u32,
    pub format: VertexFormat,
}

/// The layout of one vertex buffer: stride, step mode and attributes.
#[derive(Clone, PartialEq, Eq, Debug)]
pub struct VertexBufferLayout {
    pub array_stride: u64,
    pub step_mode: VertexStepMode,
    pub attributes: Vec<VertexAttribute>,
}

impl VertexBufferLayout {
    /// The attributes tile the stride: the first starts at offset zero,
    /// each next one starts where the previous ends, and the stride is
    /// the end of the last.
    pub open spec fn is_packed(self) -> bool {
        &&& self.attributes@.len() > 0
        &&& self.attributes@[0].offset == 0
        &&& forall|i: int|
            0 < i < self.attributes@.len() ==> (#[trigger] self.attributes@[i]).offset
                == self.attributes@[i - 1].offset + spec_vertex_format_size(
                self.attributes@[i - 1].format,
            )
        &&& self.array_stride == self.attributes@.last().offset + spec_vertex_format_size(
            self.attributes@.last().format,
        )
    }
}

/// The vertex record consumed by the vertex shader stage: position,
/// texture coordinates, normal, and tangent.
pub struct ModelVertex;

/// The attributes of the mesh vertex record, in shader-location order.
pub open spec fn spec_model_vertex_attributes() -> Seq<VertexAttribute> {
    seq![
        VertexAttribute { offset: 0, shader_location: 0, format: VertexFormat::Float32x3 },
        VertexAttribute { offset: 12, shader_location: 1, format: VertexFormat::Float32x2 },
        VertexAttribute { offset: 20, shader_location: 2, format: VertexFormat::Float32x3 },
        VertexAttribute { offset: 32, shader_location: 3, format: VertexFormat::Float32x4 },
    ]
}

impl ModelVertex {
    /// The buffer layout of the vertex record: four attributes at
    /// shader locations 0 through 3, packed back to back, 48 bytes per
    /// vertex, stepped per vertex.
    pub fn desc() -> (l: VertexBufferLayout)
        ensures
            l.array_stride == 48,
            l.step_mode == VertexStepMode::Vertex,
            l.attributes@ == spec_model_vertex_attributes(),
            l.is_packed(),
    {
        let mut attributes: Vec<VertexAttribute> = Vec::new();
        attributes.push(
            VertexAttribute { offset: 0, shader_location: 0, format: VertexFormat::Float32x3 },
        );
        attributes.push(
            VertexAttribute { offset: 12, shader_location: 1, format: VertexFormat::Float32x2 },
        );
        attributes.push(
            VertexAttribute { offset: 20, shader_location: 2, format: VertexFormat::Float32x3 },
        );
        attributes.push(
            VertexAttribute { offset: 32, shader_location: 3, format: VertexFormat::Float32x4 },
        );
        proof {
            assert(attributes@ =~= spec_model_vertex_attributes());
        }
        VertexBufferLayout { array_stride: 48, step_mode: VertexStepMode::Vertex, attributes }
    }
}

/// Which shader stages see a binding.
#[derive(Clone, Copy, PartialEq, Eq, Structural, Debug)]
pub enum ShaderStages {
    Vertex,
    Fragment,
    VertexFragment,
}

/// What kind of resource a binding slot takes.
#[derive(Clone, Copy, PartialEq, Eq, Structural, Debug)]
pub enum BindingType {
    /// A sampled texture; the renderer only binds non-multisampled,
    /// filterable 2D float textures.
    SampledTexture { multisampled: bool, view_dimension: TextureViewDimension, filterable: bool },
    /// A sampler; `filtering` distinguishes filtering samplers.
    Sampler { filtering: bool },
    /// A uniform buffer binding.
    UniformBuffer { has_dynamic_offset: bool },
}

/// One slot of a bind-group layout.
#[derive(Clone, Copy, PartialEq, Eq, Structural, Debug)]
pub struct BindGroupLayoutEntry {
    pub binding: u32,
    pub visibility: ShaderStages,
    pub ty: BindingType,
}

/// An ordered list of layout entries describing one bind group.
#[derive(Clone, PartialEq, Eq, Debug)]
pub struct BindGroupLayout {
    pub entries: Vec<BindGroupLayoutEntry>,
}

/// A fragment-visible, filterable 2D texture binding at the given slot.
pub open spec fn spec_texture_entry(binding: u32) -> BindGroupLayoutEntry {
    BindGroupLayoutEntry {
        binding,
        visibility: ShaderStages::Fragment,
        ty: BindingType::SampledTexture {
            multisampled: false,
            view_dimension: TextureViewDimension::D2,
            filterable: true,
        },
    }
}

/// A fragment-visible filtering sampler binding at the given slot.
pub open spec fn spec_sampler_entry(binding: u32) -> BindGroupLayoutEntry {
    BindGroupLayoutEntry {
        binding,
        visibility: ShaderStages::Fragment,
        ty: BindingType::Sampler { filtering: true },
    }
}

/// The two texture bind-group layouts the renderer supports.
pub struct TextureBindGroupLayouts {
    /// Diffuse map only: texture and sampler.
    pub diffuse: BindGroupLayout,
    /// Diffuse and normal map: two texture/sampler pairs.
    pub diffuse_normal: BindGroupLayout,
}

/// The kinds of material the scene model distinguishes.
pub enum MaterialType {
    /// A flat color, no texture.
    SingleColorMaterial(Vec3Bits),
    /// A diffuse map.
    DiffuseMapMaterial(Texture),
    /// A diffuse map with a normal map.
    DiffuseNormalMapMaterial(Texture, Texture),
}

impl MaterialType {
    /// Builds the two texture bind-group layouts: diffuse-only with two
    /// bindings (texture 0, sampler 1), and diffuse plus normal with
    /// four (texture 0, sampler 1, texture 2, sampler 3), all visible to
    /// the fragment stage only.
    pub fn create_texture_bind_group_layouts() -> (r: TextureBindGroupLayouts)
        ensures
            r.diffuse.entries@ == seq![spec_texture_entry(0), spec_sampler_entry(1)],
            r.diffuse_normal.entries@ == seq![
                spec_texture_entry(0),
                spec_sampler_entry(1),
                spec_texture_entry(2),
                spec_sampler_entry(3),
            ],
    {
        let diffuse_texture_entry = BindGroupLayoutEntry {
            binding: 0,
            visibility: ShaderStages::Fragment,
            ty: BindingType::SampledTexture {
                multisampled: false,
                view_dimension: TextureViewDimension::D2,
                filterable: true,
            },
        };
        let diffuse_sampler_entry = BindGroupLayoutEntry {
            binding: 1,
            visibility: ShaderStages::Fragment,
            ty: BindingType::Sampler { filtering: true },
        };
        let normal_texture_entry = BindGroupLayoutEntry {
            binding: 2,
            visibility: ShaderStages::Fragment,
            ty: BindingType::SampledTexture {
                multisampled: false,
                view_dimension: TextureViewDimension::D2,
                filterable: true,
            },
        };
        let normal_sampler_entry = BindGroupLayoutEntry {
            binding: 3,
            visibility: ShaderStages::Fragment,
            ty: BindingType::Sampler { filtering: true },
        };
        let mut diffuse_entries: Vec<BindGroupLayoutEntry> = Vec::new();
        diffuse_entries.push(diffuse_texture_entry);
        diffuse_entries.push(diffuse_sampler_entry);
        let mut diffuse_normal_entries: Vec<BindGroupLayoutEntry> = Vec::new();
        diffuse_normal_entries.push(diffuse_texture_entry);
        diffuse_normal_entries.push(diffuse_sampler_entry);
        diffuse_normal_entries.push(normal_texture_entry);
        diffuse_normal_entries.push(normal_sampler_entry);
        proof {
            assert(diffuse_entries@ =~= seq![spec_texture_entry(0), spec_sampler_entry(1)]);
            assert(diffuse_normal_entries@ =~= seq![
                spec_texture_entry(0),
                spec_sampler_entry(1),
                spec_texture_entry(2),
                spec_sampler_entry(3),
            ]);
        }
        TextureBindGroupLayouts {
            diffuse: BindGroupLayout { entries: diffuse_entries },
            diffuse_normal: BindGroupLayout { entries: diffuse_normal_entries },
        }
    }
}

/// The scalar material parameters uploaded as one uniform block.
#[derive(Clone, Copy, PartialEq, Eq, Structural, Debug)]
pub struct SimpleMaterial {
    pub diffuse_spec: Vec4Bits,
    pub roughness: u32,
    pub metal: u32,
}

/// The material parameters a fresh renderer uploads: red diffuse with
/// half specularity, half roughness, no metalness.
pub open spec fn spec_default_simple_material() -> SimpleMaterial {
    SimpleMaterial {
        diffuse_spec: Vec4Bits {
            x: F32_ONE_BITS,
            y: F32_ZERO_BITS,
            z: F32_ZERO_BITS,
            w: F32_HALF_BITS,
        },
        roughness: F32_HALF_BITS,
        metal: F32_ZERO_BITS,
    }
}

/// A uniform-buffer binding slot visible to the given stages.
pub open spec fn spec_uniform_entry(binding: u32, visibility: ShaderStages) -> BindGroupLayoutEntry {
    BindGroupLayoutEntry {
        binding,
        visibility,
        ty: BindingType::UniformBuffer { has_dynamic_offset: false },
    }
}

impl SimpleMaterial {
    /// The six words of the material's uniform image.
    pub open spec fn spec_words(self) -> Seq<u32> {
        seq![
            self.diffuse_spec.x,
            self.diffuse_spec.y,
            self.diffuse_spec.z,
            self.diffuse_spec.w,
            self.roughness,
            self.metal,
        ]
    }

    /// The 24-byte image the material uniform buffer holds.
    pub open spec fn spec_bytes(self) -> Seq<u8> {
        words_to_bytes(self.spec_words())
    }

    /// The default material: red diffuse with half specularity, half
    /// roughness, no metalness.
    pub fn new() -> (m: SimpleMaterial)
        ensures
            m == spec_default_simple_material(),
    {
        SimpleMaterial {
            diffuse_spec: Vec4Bits {
                x: F32_ONE_BITS,
                y: F32_ZERO_BITS,
                z: F32_ZERO_BITS,
                w: F32_HALF_BITS,
            },
            roughness: F32_HALF_BITS,
            metal: F32_ZERO_BITS,
        }
    }

    /// Encodes the material parameters for upload.
    pub fn to_bytes(&self) -> (b: Vec<u8>)
        ensures
            b@ == self.spec_bytes(),
            b@.len() == 24,
    {
        let mut words: Vec<u32> = Vec::new();
        words.push(self.diffuse_spec.x);
        words.push(self.diffuse_spec.y);
        words.push(self.diffuse_spec.z);
        words.push(self.diffuse_spec.w);
        words.push(self.roughness);
        words.push(self.metal);
        proof {
            assert(words@ =~= self.spec_words());
        }
        encode_words(&words)
    }
}

/// A resource slot within a material's bind group, named by role.
#[derive(Clone, Copy, PartialEq, Eq, Structural, Debug)]
pub enum BindingResource {
    DiffuseView,
    DiffuseSampler,
    NormalView,
    NormalSampler,
}

/// One filled slot of a material's bind group.
#[derive(Clone, Copy, PartialEq, Eq, Structural, Debug)]
pub struct BindGroupEntry {
    pub binding: u32,
    pub resource: BindingResource,
}

/// A material's bind group: which resource sits in which slot.
#[derive(Clone, PartialEq, Eq, Debug)]
pub struct BindGroup {
    pub entries: Vec<BindGroupEntry>,
}

/// The bind group every textured material gets: diffuse view and
/// sampler at slots 0 and 1, normal view and sampler at slots 2 and 3.
pub open spec fn spec_material_bind_group_entries() -> Seq<BindGroupEntry> {
    seq![
        BindGroupEntry { binding: 0, resource: BindingResource::DiffuseView },
        BindGroupEntry { binding: 1, resource: BindingResource::DiffuseSampler },
        BindGroupEntry { binding: 2, resource: BindingResource::NormalView },
        BindGroupEntry { binding: 3, resource: BindingResource::NormalSampler },
    ]
}

/// A named material: its two textures and the bind group exposing them.
pub struct Material {
    pub name: String,
    pub diffuse_texture: Texture,
    pub normal_texture: Texture,
    pub bind_group: BindGroup,
}

impl Material {
    /// Builds a material from its textures.  The bind group is derived
    /// data: diffuse view/sampler at bindings 0 and 1, normal
    /// view/sampler at bindings 2 and 3.
    pub fn new(name: String, diffuse_texture: Texture, normal_texture: Texture) -> (m: Material)
        ensures
            m.name == name,
            m.diffuse_texture == diffuse_texture,
            m.normal_texture == normal_texture,
            m.bind_group.entries@ == spec_material_bind_group_entries(),
    {
        let mut entries: Vec<BindGroupEntry> = Vec::new();
        entries.push(BindGroupEntry { binding: 0, resource: BindingResource::DiffuseView });
        entries.push(BindGroupEntry { binding: 1, resource: BindingResource::DiffuseSampler });
        entries.push(BindGroupEntry { binding: 2, resource: BindingResource::NormalView });
        entries.push(BindGroupEntry { binding: 3, resource: BindingResource::NormalSampler });
        proof {
            assert(entries@ =~= spec_material_bind_group_entries());
        }
        Material { name, diffuse_texture, normal_texture, bind_group: BindGroup { entries } }
    }
}

/// GPU-resident geometry: an indexed triangle list and the index of its
/// material in the owning scene.
pub struct Mesh {
    pub name: String,
    pub num_elements: u32,
    pub material: usize,
}

/// A named collection of meshes, immutable after load.
pub struct Model {
    pub meshes: Vec<Mesh>,
}

/// One placement of a model in the world: a model index and a world
/// transform.
pub struct ModelInstance {
    pub model_index: usize,
    pub transform: Mat4,
}

/// The per-draw model transform as a uniform block.
pub struct ModelUniform {
    pub transform: Mat4,
}

impl ModelUniform {
    /// Encodes the transform for upload to the model uniform buffer.
    pub fn to_bytes(&self) -> (b: Vec<u8>)
        requires
            self.transform.wf(),
        ensures
            b@ == words_to_bytes(self.transform.words@),
            b@.len() == 64,
    {
        self.transform.to_bytes()
    }
}

} // verus!
