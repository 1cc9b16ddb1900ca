//! A glTF 2.0 scene importer: a document and its binary buffers become meshes,
//! materials and textures that no longer refer to the document.
//!
//! Floating-point numbers pass through this crate untouched. They are held as
//! the bit patterns of their IEEE 754 encodings, in the precision in which
//! they arrived: see [`Scalar`].

use crate::decode::{entries, entry_count};
use crate::error::{ImportError, Section};
use crate::importers::gltf::{Gltf, GltfModel};
use crate::importers::reader::outcome;
use crate::material::{material_resolved, resolve_material, resolve_texture, texture_resolved};
use crate::mesh::{mesh_resolved, resolve_mesh};
use crate::references::references_resolved;
use vstd::prelude::*;

pub mod decode;
pub mod error;
pub mod importers;
pub mod json;
pub mod laws;
pub mod material;
pub mod mesh;
pub mod references;
pub mod semantic;
pub mod text;
pub mod utils;

verus! {

/// The bit pattern of 1 in double precision.
pub const DOUBLE_ONE: u64 = 0x3FF0_0000_0000_0000;

/// The bit pattern of 0.5 in double precision.
pub const DOUBLE_HALF: u64 = 0x3FE0_0000_0000_0000;

/// A floating-point number as the bit pattern of its IEEE 754 encoding.
/// Numbers written in a document are doubles; numbers read from a buffer are
/// singles.
#[derive(Clone, Copy, Debug, PartialEq, Eq, Structural)]
pub enum Scalar {
    Single(u32),
    Double(u64),
}

impl DeepView for Scalar {
    type V = Scalar;

    open spec fn deep_view(&self) -> Scalar {
        *self
    }
}

#[derive(Clone, Copy, Debug, PartialEq, Eq, Structural)]
pub enum TextureType {
    Albedo,
    Normal,
    Metallic,
    Roughness,
    AmbientOcclusion,
    Emissive,
}

/// A texture of the scene, by its place among the scene's textures, and what
/// the material uses it for.
#[derive(Clone, Copy, Debug, PartialEq, Eq, Structural)]
pub struct TextureIndex {
    pub index: usize,
    pub t_type: TextureType,
}

#[derive(Clone, Copy, Debug, PartialEq, Eq, Structural)]
pub enum AlphaMode {
    Opaque,
    Cutoff,
    Blend,
}

#[derive(Clone, Copy, Debug, PartialEq, Eq, Structural)]
pub struct Vec2 {
    pub x: Scalar,
    pub y: Scalar,
}

#[derive(Clone, Copy, Debug, PartialEq, Eq, Structural)]
pub struct Vec3 {
    pub x: Scalar,
    pub y: Scalar,
    pub z: Scalar,
}

#[derive(Clone, Copy, Debug, PartialEq, Eq, Structural)]
pub struct Vec4 {
    pub x: Scalar,
    pub y: Scalar,
    pub z: Scalar,
    pub w: Scalar,
}

#[derive(Clone, Copy, Debug, PartialEq, Eq, Structural)]
pub struct Mat4 {
    pub m11: Scalar,
    pub m12: Scalar,
    pub m13: Scalar,
    pub m14: Scalar,
    pub m21: Scalar,
    pub m22: Scalar,
    pub m23: Scalar,
    pub m24: Scalar,
    pub m31: Scalar,
    pub m32: Scalar,
    pub m33: Scalar,
    pub m34: Scalar,
    pub m41: Scalar,
    pub m42: Scalar,
    pub m43: Scalar,
    pub m44: Scalar,
}

#[derive(Clone, Copy, Debug, PartialEq, Eq, Structural)]
pub struct VertexPositionColorTextureNormalTangentBitangent {
    pub position: Vec3,
    pub color: Vec4,
    pub tex_coord: Vec2,
    pub normal: Vec3,
    pub tangent: Vec3,
    pub bitangent: Vec3,
}

impl DeepView for TextureType {
    type V = TextureType;

    open spec fn deep_view(&self) -> TextureType {
        *self
    }
}

impl DeepView for TextureIndex {
    type V = TextureIndex;

    open spec fn deep_view(&self) -> TextureIndex {
        *self
    }
}

impl DeepView for AlphaMode {
    type V = AlphaMode;

    open spec fn deep_view(&self) -> AlphaMode {
        *self
    }
}

impl DeepView for Vec2 {
    type V = Vec2;

    open spec fn deep_view(&self) -> Vec2 {
        *self
    }
}

impl DeepView for Vec3 {
    type V = Vec3;

    open spec fn deep_view(&self) -> Vec3 {
        *self
    }
}

impl DeepView for Vec4 {
    type V = Vec4;

    open spec fn deep_view(&self) -> Vec4 {
        *self
    }
}

impl DeepView for Mat4 {
    type V = Mat4;

    open spec fn deep_view(&self) -> Mat4 {
        *self
    }
}

impl DeepView for VertexPositionColorTextureNormalTangentBitangent {
    type V = VertexPositionColorTextureNormalTangentBitangent;

    open spec fn deep_view(&self) -> VertexPositionColorTextureNormalTangentBitangent {
        *self
    }
}

/// Three numbers of the same precision and bit pattern.
pub open spec fn splat3(s: Scalar) -> Vec3 {
    Vec3 { x: s, y: s, z: s }
}

/// Four numbers of the same precision and bit pattern.
pub open spec fn splat4(s: Scalar) -> Vec4 {
    Vec4 { x: s, y: s, z: s, w: s }
}

/// The vertex that pads a mesh: every field is zero in single precision.
pub open spec fn zero_vertex() -> VertexPositionColorTextureNormalTangentBitangent {
    VertexPositionColorTextureNormalTangentBitangent {
        position: splat3(Scalar::Single(0)),
        color: splat4(Scalar::Single(0)),
        tex_coord: Vec2 { x: Scalar::Single(0), y: Scalar::Single(0) },
        normal: splat3(Scalar::Single(0)),
        tangent: splat3(Scalar::Single(0)),
        bitangent: splat3(Scalar::Single(0)),
    }
}

impl VertexPositionColorTextureNormalTangentBitangent {
    /// The vertex that pads a mesh.
    pub fn zero() -> (r: Self)
        ensures
            r == zero_vertex(),
    {
        let z = Scalar::Single(0);
        let z3 = Vec3 { x: z, y: z, z: z };
        VertexPositionColorTextureNormalTangentBitangent {
            position: z3,
            color: Vec4 { x: z, y: z, z: z, w: z },
            tex_coord: Vec2 { x: z, y: z },
            normal: z3,
            tangent: z3,
            bitangent: z3,
        }
    }
}

#[derive(Clone, Debug, PartialEq, Eq)]
pub struct Mesh {
    pub vertices: Vec<VertexPositionColorTextureNormalTangentBitangent>,
    pub indices: Vec<u32>,
    pub material: usize,
}

pub ghost struct MeshModel {
    pub vertices: Seq<VertexPositionColorTextureNormalTangentBitangent>,
    pub indices: Seq<u32>,
    pub material: usize,
}

impl DeepView for Mesh {
    type V = MeshModel;

    open spec fn deep_view(&self) -> MeshModel {
        MeshModel { vertices: self.vertices@, indices: self.indices@, material: self.material }
    }
}

#[derive(Clone, Debug, PartialEq, Eq)]
pub struct Material {
    pub albedo_color: Vec4,
    pub metallic_factor: Scalar,
    pub roughness_factor: Scalar,
    pub emissive_factor: Vec3,
    pub alpha_mode: AlphaMode,
    pub alpha_cutoff: Scalar,
    pub double_sided: bool,
    pub textures: Vec<TextureIndex>,
}

pub ghost struct MaterialModel {
    pub albedo_color: Vec4,
    pub metallic_factor: Scalar,
    pub roughness_factor: Scalar,
    pub emissive_factor: Vec3,
    pub alpha_mode: AlphaMode,
    pub alpha_cutoff: Scalar,
    pub double_sided: bool,
    pub textures: Seq<TextureIndex>,
}

impl DeepView for Material {
    type V = MaterialModel;

    open spec fn deep_view(&self) -> MaterialModel {
        MaterialModel {
            albedo_color: self.albedo_color,
            metallic_factor: self.metallic_factor,
            roughness_factor: self.roughness_factor,
            emissive_factor: self.emissive_factor,
            alpha_mode: self.alpha_mode,
            alpha_cutoff: self.alpha_cutoff,
            double_sided: self.double_sided,
            textures: self.textures@,
        }
    }
}

#[derive(Clone, Debug, PartialEq, Eq)]
pub struct Texture {
    pub path: Option<String>,
    pub data: Option<Vec<u8>>,
}

pub ghost struct TextureModel {
    pub path: Option<Seq<char>>,
    pub data: Option<Seq<u8>>,
}

impl DeepView for Texture {
    type V = TextureModel;

    open spec fn deep_view(&self) -> TextureModel {
        TextureModel { path: self.path.deep_view(), data: self.data.deep_view() }
    }
}

#[derive(Clone, Debug, PartialEq, Eq)]
pub struct Scene {
    pub meshes: Vec<Mesh>,
    pub materials: Vec<Material>,
    pub textures: Vec<Texture>,
}

pub ghost struct SceneModel {
    pub meshes: Seq<MeshModel>,
    pub materials: Seq<MaterialModel>,
    pub textures: Seq<TextureModel>,
}

impl SceneModel {
    /// Every index that the scene holds has something at its place: the
    /// material of each mesh is one of the scene's materials, and the textures
    /// of each material are among the scene's textures.
    pub open spec fn well_formed(self) -> bool {
        &&& forall|m: int|
            0 <= m < self.meshes.len() ==> (#[trigger] self.meshes[m]).material < self.materials.len()
        &&& forall|m: int, t: int|
            0 <= m < self.materials.len() && 0 <= t < self.materials[m].textures.len() ==> (
            #[trigger] self.materials[m].textures[t]).index < self.textures.len()
    }
}

impl DeepView for Scene {
    type V = SceneModel;

    open spec fn deep_view(&self) -> SceneModel {
        SceneModel {
            meshes: self.meshes.deep_view(),
            materials: self.materials.deep_view(),
            textures: self.textures.deep_view(),
        }
    }
}

/// The first `n` results of `each`, gathered in order, or the first error
/// among them.
pub open spec fn collected<T>(n: int, each: spec_fn(int) -> Result<T, ImportError>) -> Result<
    Seq<T>,
    ImportError,
>
    decreases n,
{
    if n <= 0 {
        Ok(Seq::empty())
    } else {
        match collected(n - 1, each) {
            Err(e) => Err(e),
            Ok(done) => match each(n - 1) {
                Ok(x) => Ok(done.push(x)),
                Err(e) => Err(e),
            },
        }
    }
}

/// Once a result is an error, gathering further changes nothing.
pub proof fn lemma_collected_error<T>(m: int, n: int, each: spec_fn(int) -> Result<T, ImportError>)
    requires
        collected(m, each) is Err,
        m <= n,
    ensures
        collected(n, each) == collected(m, each),
    decreases n - m,
{
    if m < n {
        lemma_collected_error(m, n - 1, each);
    }
}

/// What gathering yields: every result in its place, or the first error.
pub proof fn lemma_collected<T>(n: int, each: spec_fn(int) -> Result<T, ImportError>)
    requires
        0 <= n,
    ensures
        match collected(n, each) {
            Ok(list) => list.len() == n && forall|i: int|
                0 <= i < n ==> each(i) == Ok::<T, ImportError>(#[trigger] list[i]),
            Err(e) => exists|k: int|
                0 <= k < n && #[trigger] each(k) == Err::<T, ImportError>(e) && forall|i: int|
                    0 <= i < k ==> (#[trigger] each(i)) is Ok,
        },
    decreases n,
{
    if n > 0 {
        lemma_collected(n - 1, each);
        match collected(n - 1, each) {
            Err(e) => {
                let k = choose|k: int|
                    0 <= k < n - 1 && #[trigger] each(k) == Err::<T, ImportError>(e) && forall|i: int|
                        0 <= i < k ==> (#[trigger] each(i)) is Ok;
                assert(0 <= k < n && each(k) == Err::<T, ImportError>(e));
            },
            Ok(done) => {
                match each(n - 1) {
                    Ok(x) => {
                        let list = done.push(x);
                        assert forall|i: int| 0 <= i < n implies each(i) == Ok::<T, ImportError>(
                            #[trigger] list[i],
                        ) by {
                            if i < n - 1 {
                                assert(list[i] == done[i]);
                            }
                        }
                    },
                    Err(e) => {
                        assert forall|i: int| 0 <= i < n - 1 implies (#[trigger] each(i)) is Ok by {
                            assert(each(i) == Ok::<T, ImportError>(done[i]));
                        }
                        assert(0 <= n - 1 < n && each(n - 1) == Err::<T, ImportError>(e));
                    },
                }
            },
        }
    }
}

/// The mesh at each place of the document, resolved.
pub open spec fn mesh_at(doc: GltfModel, buffers: Seq<Seq<u8>>) -> spec_fn(int) -> Result<
    MeshModel,
    ImportError,
> {
    |i: int| mesh_resolved(doc, buffers, entries(doc.meshes)[i], i as usize)
}

/// The material at each place of the document, resolved.
pub open spec fn material_at(doc: GltfModel) -> spec_fn(int) -> Result<MaterialModel, ImportError> {
    |i: int| material_resolved(entries(doc.materials)[i], entries(doc.textures).len() as int)
}

/// The texture at each place of the document, resolved.
pub open spec fn texture_at(doc: GltfModel) -> spec_fn(int) -> Result<TextureModel, ImportError> {
    |i: int| texture_resolved(doc, entries(doc.textures)[i], i as usize)
}

/// The scene that a document and the bytes of its buffers resolve to.
///
/// The document must have buffers, accessors, buffer views and meshes: one
/// without is malformed. Every reference that it holds must resolve. Then
/// meshes are resolved, then materials, then textures, each list in the order
/// of the document. The first error ends it.
pub open spec fn scene_resolved(doc: GltfModel, buffers: Seq<Seq<u8>>) -> Result<SceneModel, ImportError> {
    if doc.buffers is None {
        Err(ImportError::MalformedDocument { section: Section::Buffers, entry: None })
    } else if doc.accessors is None {
        Err(ImportError::MalformedDocument { section: Section::Accessors, entry: None })
    } else if doc.buffer_views is None {
        Err(ImportError::MalformedDocument { section: Section::BufferViews, entry: None })
    } else if doc.meshes is None {
        Err(ImportError::MalformedDocument { section: Section::Meshes, entry: None })
    } else if references_resolved(doc) is Err {
        Err(references_resolved(doc)->Err_0)
    } else {
        let meshes = collected(entries(doc.meshes).len() as int, mesh_at(doc, buffers));
        let materials = collected(entries(doc.materials).len() as int, material_at(doc));
        let textures = collected(entries(doc.textures).len() as int, texture_at(doc));
        if meshes is Err {
            Err(meshes->Err_0)
        } else if materials is Err {
            Err(materials->Err_0)
        } else if textures is Err {
            Err(textures->Err_0)
        } else {
            Ok(SceneModel { meshes: meshes->Ok_0, materials: materials->Ok_0, textures: textures->Ok_0 })
        }
    }
}

impl Scene {
    /// Resolves a document into a scene. `buffers` holds the bytes of the
    /// document's buffers, in the document's order.
    #[verifier::loop_isolation(false)]
    pub fn from_gltf(gltf: &Gltf, buffers: &Vec<Vec<u8>>) -> (r: Result<Scene, ImportError>)
        ensures
            outcome(r) == scene_resolved(gltf.deep_view(), buffers.deep_view()),
            r matches Ok(scene) ==> scene.deep_view().well_formed(),
    {
        proof {
            crate::laws::lemma_scene_well_formed(gltf.deep_view(), buffers.deep_view());
        }
        let ghost doc = gltf.deep_view();
        let ghost data = buffers.deep_view();
        if gltf.buffers.is_none() {
            return Err(ImportError::MalformedDocument { section: Section::Buffers, entry: None });
        }
        if gltf.accessors.is_none() {
            return Err(ImportError::MalformedDocument { section: Section::Accessors, entry: None });
        }
        if gltf.buffer_views.is_none() {
            return Err(ImportError::MalformedDocument { section: Section::BufferViews, entry: None });
        }
        let source_meshes = match &gltf.meshes {
            Some(list) => list,
            None => {
                return Err(ImportError::MalformedDocument { section: Section::Meshes, entry: None });
            },
        };
        gltf.check_references()?;
        let mut meshes: Vec<Mesh> = Vec::new();
        let mut i: usize = 0;
        assert(meshes.deep_view() =~= Seq::<MeshModel>::empty());
        while i < source_meshes.len()
            invariant
                i <= source_meshes.len(),
                collected(i as int, mesh_at(doc, data)) == Ok::<Seq<MeshModel>, ImportError>(
                    meshes.deep_view(),
                ),
            decreases source_meshes.len() - i,
        {
            assert(entries(doc.meshes)[i as int] == source_meshes@[i as int].deep_view());
            match resolve_mesh(gltf, buffers, &source_meshes[i], i) {
                Ok(mesh) => {
                    let ghost before = meshes.deep_view();
                    let ghost added = mesh.deep_view();
                    meshes.push(mesh);
                    assert(meshes.deep_view() =~= before.push(added));
                },
                Err(e) => {
                    proof {
                        lemma_collected_error(i + 1, source_meshes@.len() as int, mesh_at(doc, data));
                    }
                    return Err(e);
                },
            }
            i += 1;
        }
        let mut materials: Vec<Material> = Vec::new();
        assert(materials.deep_view() =~= Seq::<MaterialModel>::empty());
        let texture_count = entry_count(&gltf.textures);
        if let Some(source_materials) = &gltf.materials {
            let mut i: usize = 0;
            while i < source_materials.len()
                invariant
                    i <= source_materials.len(),
                    collected(i as int, material_at(doc)) == Ok::<Seq<MaterialModel>, ImportError>(
                        materials.deep_view(),
                    ),
                decreases source_materials.len() - i,
            {
                assert(entries(doc.materials)[i as int] == source_materials@[i as int].deep_view());
                match resolve_material(&source_materials[i], texture_count) {
                    Ok(material) => {
                        let ghost before = materials.deep_view();
                        let ghost added = material.deep_view();
                        materials.push(material);
                        assert(materials.deep_view() =~= before.push(added));
                    },
                    Err(e) => {
                        proof {
                            lemma_collected_error(i + 1, source_materials@.len() as int, material_at(doc));
                        }
                        return Err(e);
                    },
                }
                i += 1;
            }
        }
        let mut textures: Vec<Texture> = Vec::new();
        assert(textures.deep_view() =~= Seq::<TextureModel>::empty());
        if let Some(source_textures) = &gltf.textures {
            let mut i: usize = 0;
            while i < source_textures.len()
                invariant
                    i <= source_textures.len(),
                    collected(i as int, texture_at(doc)) == Ok::<Seq<TextureModel>, ImportError>(
                        textures.deep_view(),
                    ),
                decreases source_textures.len() - i,
            {
                assert(entries(doc.textures)[i as int] == source_textures@[i as int].deep_view());
                match resolve_texture(gltf, &source_textures[i], i) {
                    Ok(texture) => {
                        let ghost before = textures.deep_view();
                        let ghost added = texture.deep_view();
                        textures.push(texture);
                        assert(textures.deep_view() =~= before.push(added));
                    },
                    Err(e) => {
                        proof {
                            lemma_collected_error(i + 1, source_textures@.len() as int, texture_at(doc));
                        }
                        return Err(e);
                    },
                }
                i += 1;
            }
        }
        Ok(Scene { meshes, materials, textures })
    }
}

} // verus!
