//! References: every index that the document holds must have something at its
//! place.
//!
//! The entries are gone through section by section, accessors first, then
//! buffer views, meshes, materials and textures, each section in its order;
//! the first index that has nothing at its place is reported.

use crate::decode::{entries, entry_count};
use crate::error::{ImportError, Section};
use crate::importers::gltf::{
    Gltf, GltfModel, Material, MaterialModel, MeshPrimitive, MeshPrimitiveModel, TextureInfo,
};
use crate::material::{base_color_texture, metallic_roughness_texture};
use vstd::prelude::*;

verus! {

/// Whether `index` has something at its place in a section of `count` entries.
pub open spec fn resolves(index: i32, count: int, section: Section) -> Result<(), ImportError> {
    if 0 <= index < count {
        Ok(())
    } else {
        Err(ImportError::UnresolvedReference { section, index: index as i64 })
    }
}

/// Whether an index that may be absent has something at its place.
pub open spec fn resolves_if_any(index: Option<i32>, count: int, section: Section) -> Result<(), ImportError> {
    match index {
        Some(index) => resolves(index, count, section),
        None => Ok(()),
    }
}

/// The first of two results that is an error, if one is.
pub open spec fn both(first: Result<(), ImportError>, second: Result<(), ImportError>) -> Result<
    (),
    ImportError,
> {
    match first {
        Err(e) => Err(e),
        Ok(_) => second,
    }
}

/// The first error among the first `n` results of `each`, if there is one.
pub open spec fn first_error(n: int, each: spec_fn(int) -> Result<(), ImportError>) -> Result<(), ImportError>
    decreases n,
{
    if n <= 0 {
        Ok(())
    } else {
        both(first_error(n - 1, each), each(n - 1))
    }
}

/// Once a result is an error, those after it change nothing.
pub proof fn lemma_first_error_stays(m: int, n: int, each: spec_fn(int) -> Result<(), ImportError>)
    requires
        first_error(m, each) is Err,
        m <= n,
    ensures
        first_error(n, each) == first_error(m, each),
    decreases n - m,
{
    if m < n {
        lemma_first_error_stays(m, n - 1, each);
    }
}

/// Where there is no error among the first `n` results, each of them is fine.
pub proof fn lemma_first_error_none(n: int, each: spec_fn(int) -> Result<(), ImportError>, i: int)
    requires
        first_error(n, each) is Ok,
        0 <= i < n,
    ensures
        each(i) is Ok,
    decreases n,
{
    if i < n - 1 {
        lemma_first_error_none(n - 1, each, i);
    }
}

/// Where one of the first `n` results is an error, so is the first error
/// among them, and it is the error of a result that comes no later.
pub proof fn lemma_first_error_some(n: int, each: spec_fn(int) -> Result<(), ImportError>, i: int)
    requires
        0 <= i < n,
        each(i) is Err,
    ensures
        first_error(n, each) is Err,
        exists|k: int| 0 <= k <= i && #[trigger] each(k) == first_error(n, each),
    decreases n,
{
    if i < n - 1 {
        lemma_first_error_some(n - 1, each, i);
    } else {
        if first_error(n - 1, each) is Err {
            lemma_first_error_found(n - 1, each);
        } else {
            assert(each(i) == first_error(n, each));
        }
    }
}

/// The first error among the first `n` results is the error of one of them.
pub proof fn lemma_first_error_found(n: int, each: spec_fn(int) -> Result<(), ImportError>)
    requires
        first_error(n, each) is Err,
    ensures
        exists|k: int| 0 <= k < n && #[trigger] each(k) == first_error(n, each),
    decreases n,
{
    if n > 0 {
        if first_error(n - 1, each) is Err {
            lemma_first_error_found(n - 1, each);
        } else {
            assert(each(n - 1) == first_error(n, each));
        }
    }
}

/// The view of each accessor.
pub open spec fn accessor_reference(doc: GltfModel) -> spec_fn(int) -> Result<(), ImportError> {
    |i: int|
        resolves_if_any(
            entries(doc.accessors)[i].buffer_view,
            entries(doc.buffer_views).len() as int,
            Section::BufferViews,
        )
}

/// The buffer of each view.
pub open spec fn view_reference(doc: GltfModel) -> spec_fn(int) -> Result<(), ImportError> {
    |i: int| resolves(entries(doc.buffer_views)[i].buffer, entries(doc.buffers).len() as int, Section::Buffers)
}

/// The accessor of each attribute of a primitive.
pub open spec fn attribute_reference(doc: GltfModel, attributes: Seq<(Seq<char>, i32)>) -> spec_fn(
    int,
) -> Result<(), ImportError> {
    |i: int| resolves(attributes[i].1, entries(doc.accessors).len() as int, Section::Accessors)
}

/// The references of one primitive: the accessors of its attributes, in their
/// order, then that of its indices, then its material.
pub open spec fn primitive_references(doc: GltfModel, primitive: MeshPrimitiveModel) -> Result<
    (),
    ImportError,
> {
    both(
        first_error(primitive.attributes.len() as int, attribute_reference(doc, primitive.attributes)),
        both(
            resolves_if_any(primitive.indices, entries(doc.accessors).len() as int, Section::Accessors),
            resolves_if_any(primitive.material, entries(doc.materials).len() as int, Section::Materials),
        ),
    )
}

/// The references of each primitive of a mesh.
pub open spec fn primitive_reference(doc: GltfModel, primitives: Seq<MeshPrimitiveModel>) -> spec_fn(
    int,
) -> Result<(), ImportError> {
    |i: int| primitive_references(doc, primitives[i])
}

/// The references of each mesh: those of its primitives, in their order.
pub open spec fn mesh_reference(doc: GltfModel) -> spec_fn(int) -> Result<(), ImportError> {
    |i: int|
        first_error(
            entries(doc.meshes)[i].primitives.len() as int,
            primitive_reference(doc, entries(doc.meshes)[i].primitives),
        )
}

/// The texture that a material names for one use, where it names one.
pub open spec fn texture_reference(info: Option<TextureInfo>, count: int) -> Result<(), ImportError> {
    match info {
        Some(texture) => resolves(texture.index, count, Section::Textures),
        None => Ok(()),
    }
}

/// The references of one material, in a document of `count` textures: base
/// colour, metallic-roughness, normal, occlusion, emissive.
pub open spec fn material_references(material: MaterialModel, count: int) -> Result<(), ImportError> {
    both(
        texture_reference(base_color_texture(material), count),
        both(
            texture_reference(metallic_roughness_texture(material), count),
            both(
                texture_reference(material.normal_texture, count),
                both(
                    texture_reference(material.occlusion_texture, count),
                    texture_reference(material.emissive_texture, count),
                ),
            ),
        ),
    )
}

/// The references of each material.
pub open spec fn material_reference(doc: GltfModel) -> spec_fn(int) -> Result<(), ImportError> {
    |i: int| material_references(entries(doc.materials)[i], entries(doc.textures).len() as int)
}

/// The sampler and the image of each texture.
pub open spec fn image_reference(doc: GltfModel) -> spec_fn(int) -> Result<(), ImportError> {
    |i: int|
        both(
            resolves_if_any(
                entries(doc.textures)[i].sampler,
                entries(doc.samplers).len() as int,
                Section::Samplers,
            ),
            resolves_if_any(entries(doc.textures)[i].source, entries(doc.images).len() as int, Section::Images),
        )
}

/// Whether every reference of the document resolves; if not, the first that
/// does not.
pub open spec fn references_resolved(doc: GltfModel) -> Result<(), ImportError> {
    both(
        first_error(entries(doc.accessors).len() as int, accessor_reference(doc)),
        both(
            first_error(entries(doc.buffer_views).len() as int, view_reference(doc)),
            both(
                first_error(entries(doc.meshes).len() as int, mesh_reference(doc)),
                both(
                    first_error(entries(doc.materials).len() as int, material_reference(doc)),
                    first_error(entries(doc.textures).len() as int, image_reference(doc)),
                ),
            ),
        ),
    )
}

/// Checks one index.
pub fn check(index: i32, count: usize, section: Section) -> (r: Result<(), ImportError>)
    ensures
        r == resolves(index, count as int, section),
{
    if 0 <= index && (index as usize) < count {
        Ok(())
    } else {
        Err(ImportError::UnresolvedReference { section, index: index as i64 })
    }
}

/// Checks an index that may be absent.
pub fn check_if_any(index: Option<i32>, count: usize, section: Section) -> (r: Result<(), ImportError>)
    ensures
        r == resolves_if_any(index, count as int, section),
{
    match index {
        Some(index) => check(index, count, section),
        None => Ok(()),
    }
}

fn check_texture(info: Option<TextureInfo>, count: usize) -> (r: Result<(), ImportError>)
    ensures
        r == texture_reference(info, count as int),
{
    match info {
        Some(texture) => check(texture.index, count, Section::Textures),
        None => Ok(()),
    }
}

#[verifier::loop_isolation(false)]
fn check_primitive(gltf: &Gltf, primitive: &MeshPrimitive) -> (r: Result<(), ImportError>)
    ensures
        r == primitive_references(gltf.deep_view(), primitive.deep_view()),
{
    let ghost doc = gltf.deep_view();
    let ghost attributes = primitive.deep_view().attributes;
    let accessors = entry_count(&gltf.accessors);
    let mut i: usize = 0;
    while i < primitive.attributes.len()
        invariant
            i <= primitive.attributes.len(),
            first_error(i as int, attribute_reference(doc, attributes)) is Ok,
        decreases primitive.attributes.len() - i,
    {
        assert(attributes[i as int].1 == primitive.attributes@[i as int].1);
        match check(primitive.attributes[i].1, accessors, Section::Accessors) {
            Ok(_) => {},
            Err(e) => {
                proof {
                    lemma_first_error_stays(
                        i + 1,
                        attributes.len() as int,
                        attribute_reference(doc, attributes),
                    );
                }
                return Err(e);
            },
        }
        i += 1;
    }
    check_if_any(primitive.indices, accessors, Section::Accessors)?;
    check_if_any(primitive.material, entry_count(&gltf.materials), Section::Materials)
}

fn check_material(material: &Material, count: usize) -> (r: Result<(), ImportError>)
    ensures
        r == material_references(material.deep_view(), count as int),
{
    match material.pbr_metallic_roughness {
        Some(pbr) => {
            check_texture(pbr.base_color_texture, count)?;
            check_texture(pbr.metallic_roughness_texture, count)?;
        },
        None => {},
    }
    check_texture(material.normal_texture, count)?;
    check_texture(material.occlusion_texture, count)?;
    check_texture(material.emissive_texture, count)
}

impl Gltf {
    /// Checks that every reference of the document resolves.
    #[verifier::loop_isolation(false)]
    pub fn check_references(&self) -> (r: Result<(), ImportError>)
        ensures
            r == references_resolved(self.deep_view()),
    {
        let ghost doc = self.deep_view();
        let views = entry_count(&self.buffer_views);
        let buffers = entry_count(&self.buffers);
        let textures = entry_count(&self.textures);
        let samplers = entry_count(&self.samplers);
        let images = entry_count(&self.images);
        if let Some(list) = &self.accessors {
            let mut i: usize = 0;
            while i < list.len()
                invariant
                    i <= list.len(),
                    first_error(i as int, accessor_reference(doc)) is Ok,
                decreases list.len() - i,
            {
                assert(entries(doc.accessors)[i as int] == list@[i as int].deep_view());
                match check_if_any(list[i].buffer_view, views, Section::BufferViews) {
                    Ok(_) => {},
                    Err(e) => {
                        proof {
                            lemma_first_error_stays(i + 1, list@.len() as int, accessor_reference(doc));
                        }
                        return Err(e);
                    },
                }
                i += 1;
            }
        }
        if let Some(list) = &self.buffer_views {
            let mut i: usize = 0;
            while i < list.len()
                invariant
                    i <= list.len(),
                    first_error(i as int, view_reference(doc)) is Ok,
                decreases list.len() - i,
            {
                assert(entries(doc.buffer_views)[i as int] == list@[i as int].deep_view());
                match check(list[i].buffer, buffers, Section::Buffers) {
                    Ok(_) => {},
                    Err(e) => {
                        proof {
                            lemma_first_error_stays(i + 1, list@.len() as int, view_reference(doc));
                        }
                        return Err(e);
                    },
                }
                i += 1;
            }
        }
        if let Some(list) = &self.meshes {
            let mut i: usize = 0;
            while i < list.len()
                invariant
                    i <= list.len(),
                    first_error(i as int, mesh_reference(doc)) is Ok,
                decreases list.len() - i,
            {
                assert(entries(doc.meshes)[i as int] == list@[i as int].deep_view());
                let ghost primitives = entries(doc.meshes)[i as int].primitives;
                let mesh = &list[i];
                let mut k: usize = 0;
                while k < mesh.primitives.len()
                    invariant
                        k <= mesh.primitives.len(),
                        first_error(k as int, primitive_reference(doc, primitives)) is Ok,
                    decreases mesh.primitives.len() - k,
                {
                    assert(primitives[k as int] == mesh.primitives@[k as int].deep_view());
                    match check_primitive(self, &mesh.primitives[k]) {
                        Ok(_) => {},
                        Err(e) => {
                            proof {
                                lemma_first_error_stays(
                                    k + 1,
                                    primitives.len() as int,
                                    primitive_reference(doc, primitives),
                                );
                                lemma_first_error_stays(i + 1, list@.len() as int, mesh_reference(doc));
                            }
                            return Err(e);
                        },
                    }
                    k += 1;
                }
                i += 1;
            }
        }
        if let Some(list) = &self.materials {
            let mut i: usize = 0;
            while i < list.len()
                invariant
                    i <= list.len(),
                    first_error(i as int, material_reference(doc)) is Ok,
                decreases list.len() - i,
            {
                assert(entries(doc.materials)[i as int] == list@[i as int].deep_view());
                match check_material(&list[i], textures) {
                    Ok(_) => {},
                    Err(e) => {
                        proof {
                            lemma_first_error_stays(i + 1, list@.len() as int, material_reference(doc));
                        }
                        return Err(e);
                    },
                }
                i += 1;
            }
        }
        if let Some(list) = &self.textures {
            let mut i: usize = 0;
            while i < list.len()
                invariant
                    i <= list.len(),
                    first_error(i as int, image_reference(doc)) is Ok,
                decreases list.len() - i,
            {
                assert(entries(doc.textures)[i as int] == list@[i as int].deep_view());
                let checked = match check_if_any(list[i].sampler, samplers, Section::Samplers) {
                    Ok(_) => check_if_any(list[i].source, images, Section::Images),
                    Err(e) => Err(e),
                };
                match checked {
                    Ok(_) => {},
                    Err(e) => {
                        proof {
                            lemma_first_error_stays(i + 1, list@.len() as int, image_reference(doc));
                        }
                        return Err(e);
                    },
                }
                i += 1;
            }
        }
        Ok(())
    }
}

} // verus!
