//! What holds of every import, stated over the functions that say what an
//! import yields.

use crate::decode::{component_count, decoded, entries, lemma_decoded_shape, AccessorDataModel};
use crate::error::{Feature, ImportError, Section};
use crate::importers::gltf::{
    double4, AlphaMode as SourceAlphaMode, GltfModel, Material as SourceMaterial, MeshModel as SourceMeshModel,
};
use crate::importers::reader::FromJson;
use crate::json::JsonTree;
use crate::material::{material_resolved, material_textures, texture_added};
use crate::mesh::{attribute_applied, mesh_resolved, written};
use crate::references::{
    accessor_reference, attribute_reference, first_error, image_reference, lemma_first_error_none,
    lemma_first_error_some, material_reference, mesh_reference, primitive_reference, references_resolved,
    view_reference,
};
use crate::semantic::{attribute_semantic, root_token, semantic_of, Semantic};
use crate::{
    lemma_collected, material_at, mesh_at, scene_resolved, texture_at, zero_vertex, AlphaMode,
    MeshModel, Scalar, TextureIndex, TextureType, VertexPositionColorTextureNormalTangentBitangent as Vertex,
    DOUBLE_HALF, DOUBLE_ONE,
};
use vstd::prelude::*;

verus! {

/// Whatever an accessor decodes to has as many elements as the accessor says,
/// and every element as many components as the accessor's type has.
pub proof fn lemma_decoded_elements(doc: GltfModel, buffers: Seq<Seq<u8>>, index: i32)
    ensures
        decoded(doc, buffers, index) matches Ok(data) ==> {
            &&& data.len() == entries(doc.accessors)[index as int].count
            &&& forall|i: int|
                0 <= i < data.len() ==> (#[trigger] data.element(i)).len() == component_count(
                    entries(doc.accessors)[index as int].accessor_type,
                )
        },
{
    lemma_decoded_shape(doc, buffers, index);
}

/// A material written without a metallic-roughness description resolves to a
/// white albedo and to 1 for metalness and for roughness.
pub proof fn lemma_material_without_description(tree: JsonTree, count: int)
    requires
        tree.field("pbrMetallicRoughness"@) is None,
    ensures
        SourceMaterial::parse(tree) matches Some(material) ==> (material_resolved(material, count) matches Ok(
            resolved,
        ) ==> {
            &&& resolved.albedo_color == double4(DOUBLE_ONE, DOUBLE_ONE, DOUBLE_ONE, DOUBLE_ONE)
            &&& resolved.metallic_factor == Scalar::Double(DOUBLE_ONE)
            &&& resolved.roughness_factor == Scalar::Double(DOUBLE_ONE)
        }),
{
}

/// A material written without an alpha mode is opaque, in the document and
/// resolved; one written without an alpha cutoff has a cutoff of one half.
pub proof fn lemma_alpha_defaults(tree: JsonTree, count: int)
    ensures
        SourceMaterial::parse(tree) matches Some(material) ==> {
            &&& tree.field("alphaMode"@) is None ==> material.alpha_mode == SourceAlphaMode::Opaque && (
            material_resolved(material, count) matches Ok(resolved) ==> resolved.alpha_mode
                == AlphaMode::Opaque)
            &&& tree.field("alphaCutoff"@) is None ==> material.alpha_cutoff == Scalar::Double(DOUBLE_HALF)
                && (material_resolved(material, count) matches Ok(resolved) ==> resolved.alpha_cutoff
                == Scalar::Double(DOUBLE_HALF))
        },
{
}

/// An attribute never shortens the list of vertices. The list becomes as long
/// as the accessor has elements; a vertex that was there keeps every field but
/// the attribute's, and a vertex that was not is the padding vertex with the
/// attribute's field filled.
pub proof fn lemma_attribute_pads(
    doc: GltfModel,
    buffers: Seq<Seq<u8>>,
    vertices: Seq<Vertex>,
    name: Seq<char>,
    index: i32,
)
    ensures
        attribute_applied(doc, buffers, vertices, name, index) matches Ok(after) ==> {
            let data = decoded(doc, buffers, index)->Ok_0;
            let semantic = attribute_semantic(name);
            &&& after.len() >= vertices.len()
            &&& after.len() == entries(doc.accessors)[index as int].count
            &&& forall|i: int|
                0 <= i < vertices.len() ==> #[trigger] after[i] == written(
                    vertices[i],
                    semantic,
                    data.element(i),
                )
            &&& forall|i: int|
                vertices.len() <= i < after.len() ==> #[trigger] after[i] == written(
                    zero_vertex(),
                    semantic,
                    data.element(i),
                )
        },
{
    lemma_decoded_shape(doc, buffers, index);
}

/// An accessor whose view is none of the document's views does not decode:
/// the reference is unresolved, whatever else the accessor says.
pub proof fn lemma_view_unresolved(doc: GltfModel, buffers: Seq<Seq<u8>>, index: i32)
    requires
        0 <= index < entries(doc.accessors).len(),
        entries(doc.accessors)[index as int].buffer_view matches Some(v) && v >= entries(
            doc.buffer_views,
        ).len(),
    ensures
        decoded(doc, buffers, index) == Err::<AccessorDataModel, ImportError>(
            ImportError::UnresolvedReference {
                section: Section::BufferViews,
                index: entries(doc.accessors)[index as int].buffer_view->0 as i64,
            },
        ),
{
}

/// A document one of whose accessors names a view that is none of the
/// document's views does not resolve to a scene, whether or not anything uses
/// the accessor: a reference to a view is unresolved.
pub proof fn lemma_scene_needs_views(doc: GltfModel, buffers: Seq<Seq<u8>>, index: int)
    requires
        doc.buffers is Some,
        doc.accessors is Some,
        doc.buffer_views is Some,
        doc.meshes is Some,
        0 <= index < entries(doc.accessors).len(),
        entries(doc.accessors)[index].buffer_view matches Some(v) && v >= entries(doc.buffer_views).len(),
    ensures
        scene_resolved(doc, buffers) matches Err(ImportError::UnresolvedReference { section, .. })
            && section == Section::BufferViews,
{
    let each = accessor_reference(doc);
    let n = entries(doc.accessors).len() as int;
    assert(each(index) is Err);
    lemma_first_error_some(n, each, index);
    let k = choose|k: int| 0 <= k <= index && #[trigger] each(k) == first_error(n, each);
    assert(each(k) matches Err(ImportError::UnresolvedReference { section, .. }) && section
        == Section::BufferViews);
}

/// Whether `index` is the place of one of `count` entries.
pub open spec fn within(index: i32, count: nat) -> bool {
    0 <= index < count
}

/// Whether an index that may be absent is the place of one of `count` entries.
pub open spec fn within_if_any(index: Option<i32>, count: nat) -> bool {
    index matches Some(i) ==> within(i, count)
}

/// In a document whose references resolve, every index has something at its
/// place: the view of every accessor, the buffer of every view, the accessors
/// and the material of every primitive, the textures of every material, and
/// the sampler and the image of every texture.
pub proof fn lemma_references_resolved(doc: GltfModel)
    requires
        references_resolved(doc) is Ok,
    ensures
        forall|i: int|
            0 <= i < entries(doc.accessors).len() ==> within_if_any(
                (#[trigger] entries(doc.accessors)[i]).buffer_view,
                entries(doc.buffer_views).len(),
            ),
        forall|i: int|
            0 <= i < entries(doc.buffer_views).len() ==> within(
                (#[trigger] entries(doc.buffer_views)[i]).buffer,
                entries(doc.buffers).len(),
            ),
        forall|m: int, p: int|
            0 <= m < entries(doc.meshes).len() && 0 <= p < entries(doc.meshes)[m].primitives.len() ==> {
                let primitive = #[trigger] entries(doc.meshes)[m].primitives[p];
                &&& within_if_any(primitive.indices, entries(doc.accessors).len())
                &&& within_if_any(primitive.material, entries(doc.materials).len())
                &&& forall|a: int|
                    0 <= a < primitive.attributes.len() ==> within(
                        (#[trigger] primitive.attributes[a]).1,
                        entries(doc.accessors).len(),
                    )
            },
        forall|i: int|
            0 <= i < entries(doc.materials).len() ==> {
                let material = #[trigger] entries(doc.materials)[i];
                let count = entries(doc.textures).len();
                &&& material.pbr_metallic_roughness matches Some(pbr) ==> {
                    &&& pbr.base_color_texture matches Some(t) ==> within(t.index, count)
                    &&& pbr.metallic_roughness_texture matches Some(t) ==> within(t.index, count)
                }
                &&& material.normal_texture matches Some(t) ==> within(t.index, count)
                &&& material.occlusion_texture matches Some(t) ==> within(t.index, count)
                &&& material.emissive_texture matches Some(t) ==> within(t.index, count)
            },
        forall|i: int|
            0 <= i < entries(doc.textures).len() ==> {
                let texture = #[trigger] entries(doc.textures)[i];
                &&& within_if_any(texture.sampler, entries(doc.samplers).len())
                &&& within_if_any(texture.source, entries(doc.images).len())
            },
{
    assert forall|i: int| 0 <= i < entries(doc.accessors).len() implies within_if_any(
        (#[trigger] entries(doc.accessors)[i]).buffer_view,
        entries(doc.buffer_views).len(),
    ) by {
        lemma_first_error_none(entries(doc.accessors).len() as int, accessor_reference(doc), i);
    }
    assert forall|i: int| 0 <= i < entries(doc.buffer_views).len() implies within(
        (#[trigger] entries(doc.buffer_views)[i]).buffer,
        entries(doc.buffers).len(),
    ) by {
        lemma_first_error_none(entries(doc.buffer_views).len() as int, view_reference(doc), i);
    }
    assert forall|m: int, p: int|
        0 <= m < entries(doc.meshes).len() && 0 <= p < entries(doc.meshes)[m].primitives.len() implies {
            let primitive = #[trigger] entries(doc.meshes)[m].primitives[p];
            &&& within_if_any(primitive.indices, entries(doc.accessors).len())
            &&& within_if_any(primitive.material, entries(doc.materials).len())
            &&& forall|a: int|
                0 <= a < primitive.attributes.len() ==> within(
                    (#[trigger] primitive.attributes[a]).1,
                    entries(doc.accessors).len(),
                )
        } by {
        let primitives = entries(doc.meshes)[m].primitives;
        let primitive = primitives[p];
        lemma_first_error_none(entries(doc.meshes).len() as int, mesh_reference(doc), m);
        lemma_first_error_none(primitives.len() as int, primitive_reference(doc, primitives), p);
        assert forall|a: int| 0 <= a < primitive.attributes.len() implies within(
            (#[trigger] primitive.attributes[a]).1,
            entries(doc.accessors).len(),
        ) by {
            lemma_first_error_none(
                primitive.attributes.len() as int,
                attribute_reference(doc, primitive.attributes),
                a,
            );
        }
    }
    assert forall|i: int| 0 <= i < entries(doc.materials).len() implies {
        let material = #[trigger] entries(doc.materials)[i];
        let count = entries(doc.textures).len();
        &&& material.pbr_metallic_roughness matches Some(pbr) ==> {
            &&& pbr.base_color_texture matches Some(t) ==> within(t.index, count)
            &&& pbr.metallic_roughness_texture matches Some(t) ==> within(t.index, count)
        }
        &&& material.normal_texture matches Some(t) ==> within(t.index, count)
        &&& material.occlusion_texture matches Some(t) ==> within(t.index, count)
        &&& material.emissive_texture matches Some(t) ==> within(t.index, count)
    } by {
        lemma_first_error_none(entries(doc.materials).len() as int, material_reference(doc), i);
    }
    assert forall|i: int| 0 <= i < entries(doc.textures).len() implies {
        let texture = #[trigger] entries(doc.textures)[i];
        &&& within_if_any(texture.sampler, entries(doc.samplers).len())
        &&& within_if_any(texture.source, entries(doc.images).len())
    } by {
        lemma_first_error_none(entries(doc.textures).len() as int, image_reference(doc), i);
    }
}

/// A mesh two of whose primitives name different materials does not resolve:
/// it is refused as unsupported. The feature named is that of mixed
/// materials, unless the first primitive names no material at all, which is
/// found first.
pub proof fn lemma_mixed_materials(
    doc: GltfModel,
    buffers: Seq<Seq<u8>>,
    mesh: SourceMeshModel,
    owner: usize,
    j: int,
    k: int,
)
    requires
        0 <= j < mesh.primitives.len(),
        0 <= k < mesh.primitives.len(),
        mesh.primitives[j].material is Some,
        mesh.primitives[k].material is Some,
        mesh.primitives[j].material != mesh.primitives[k].material,
    ensures
        mesh_resolved(doc, buffers, mesh, owner) == Err::<MeshModel, ImportError>(
            ImportError::UnsupportedFeature {
                feature: if mesh.primitives[0].material is Some {
                    Feature::MixedMaterials
                } else {
                    Feature::MissingMaterial
                },
                owner,
            },
        ),
{
    if let Some(material) = mesh.primitives[0].material {
        if mesh.primitives[j].material == Some(material) {
            assert(mesh.primitives[k].material != Some(material));
        }
    }
}

/// Every primitive of a mesh that resolves names the material of the mesh.
pub proof fn lemma_one_material(doc: GltfModel, buffers: Seq<Seq<u8>>, mesh: SourceMeshModel, owner: usize)
    ensures
        mesh_resolved(doc, buffers, mesh, owner) matches Ok(resolved) ==> forall|k: int|
            0 <= k < mesh.primitives.len() ==> (#[trigger] mesh.primitives[k]).material == Some(
                resolved.material as i32,
            ),
{
}

/// An attribute whose name stands for no field of a vertex is no error, and
/// changes no vertex: where its accessor decodes to no fewer elements than
/// there are vertices, the vertices stay as they are, and padding vertices
/// follow them up to the number of elements.
pub proof fn lemma_unknown_attribute(
    doc: GltfModel,
    buffers: Seq<Seq<u8>>,
    vertices: Seq<Vertex>,
    name: Seq<char>,
    index: i32,
)
    requires
        attribute_semantic(name) == Semantic::Other,
        decoded(doc, buffers, index) matches Ok(data) && data.len() >= vertices.len(),
    ensures
        attribute_applied(doc, buffers, vertices, name, index) matches Ok(after) && {
            &&& after.len() == decoded(doc, buffers, index)->Ok_0.len()
            &&& forall|i: int| 0 <= i < vertices.len() ==> #[trigger] after[i] == vertices[i]
            &&& forall|i: int| vertices.len() <= i < after.len() ==> #[trigger] after[i] == zero_vertex()
        },
{
}

/// A texture added to a list of textures of the document is a texture of the
/// document.
pub proof fn lemma_texture_added(
    list: Seq<TextureIndex>,
    info: Option<crate::importers::gltf::TextureInfo>,
    t_type: TextureType,
    count: int,
)
    requires
        forall|t: int| 0 <= t < list.len() ==> (#[trigger] list[t]).index < count,
    ensures
        texture_added(Ok(list), info, t_type, count) matches Ok(more) ==> forall|t: int|
            0 <= t < more.len() ==> (#[trigger] more[t]).index < count,
{
}

/// The textures that a material lists are textures of the document.
pub proof fn lemma_material_textures(material: crate::importers::gltf::MaterialModel, count: int)
    ensures
        material_textures(material, count) matches Ok(textures) ==> forall|t: int|
            0 <= t < textures.len() ==> (#[trigger] textures[t]).index < count,
{
    let none = Ok::<Seq<TextureIndex>, ImportError>(Seq::empty());
    let base = crate::material::base_color_texture(material);
    let both = crate::material::metallic_roughness_texture(material);
    let albedo = texture_added(none, base, TextureType::Albedo, count);
    let metallic = texture_added(albedo, both, TextureType::Metallic, count);
    let roughness = texture_added(metallic, both, TextureType::Roughness, count);
    let normal = texture_added(roughness, material.normal_texture, TextureType::Normal, count);
    let occlusion = texture_added(normal, material.occlusion_texture, TextureType::AmbientOcclusion, count);
    lemma_texture_added(Seq::empty(), base, TextureType::Albedo, count);
    if albedo is Ok {
        lemma_texture_added(albedo->Ok_0, both, TextureType::Metallic, count);
    }
    if metallic is Ok {
        lemma_texture_added(metallic->Ok_0, both, TextureType::Roughness, count);
    }
    if roughness is Ok {
        lemma_texture_added(roughness->Ok_0, material.normal_texture, TextureType::Normal, count);
    }
    if normal is Ok {
        lemma_texture_added(normal->Ok_0, material.occlusion_texture, TextureType::AmbientOcclusion, count);
    }
    if occlusion is Ok {
        lemma_texture_added(occlusion->Ok_0, material.emissive_texture, TextureType::Emissive, count);
    }
}

/// A scene that resolves has a mesh for every mesh of the document, a material
/// for every material and a texture for every texture, and every index that it
/// holds has something at its place.
pub proof fn lemma_scene_well_formed(doc: GltfModel, buffers: Seq<Seq<u8>>)
    ensures
        scene_resolved(doc, buffers) matches Ok(scene) ==> {
            &&& scene.meshes.len() == entries(doc.meshes).len()
            &&& scene.materials.len() == entries(doc.materials).len()
            &&& scene.textures.len() == entries(doc.textures).len()
            &&& scene.well_formed()
        },
{
    if let Ok(scene) = scene_resolved(doc, buffers) {
        lemma_collected(entries(doc.meshes).len() as int, mesh_at(doc, buffers));
        lemma_collected(entries(doc.materials).len() as int, material_at(doc));
        lemma_collected(entries(doc.textures).len() as int, texture_at(doc));
        assert forall|m: int| 0 <= m < scene.meshes.len() implies (#[trigger] scene.meshes[m]).material
            < scene.materials.len() by {
            assert(mesh_at(doc, buffers)(m) == Ok::<MeshModel, ImportError>(scene.meshes[m]));
        }
        assert forall|m: int, t: int|
            0 <= m < scene.materials.len() && 0 <= t < scene.materials[m].textures.len() implies (
        #[trigger] scene.materials[m].textures[t]).index < scene.textures.len() by {
            assert(material_at(doc)(m) == Ok::<crate::MaterialModel, ImportError>(scene.materials[m]));
            lemma_material_textures(entries(doc.materials)[m], entries(doc.textures).len() as int);
        }
    }
}

/// A name that begins with an underscore, once in lower case, stands for no
/// field of a vertex.
pub proof fn lemma_leading_underscore(lowered: Seq<char>)
    requires
        lowered.len() > 0,
        lowered[0] == '_',
    ensures
        semantic_of(lowered) == Semantic::Other,
{
    reveal_strlit("position");
    reveal_strlit("normal");
    reveal_strlit("texcoord");
    assert(root_token(lowered).len() == 0);
}

} // verus!
