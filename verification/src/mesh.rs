//! Meshes: the primitives of a mesh of the document become one list of
//! vertices and one list of indices.
//!
//! The attributes of a primitive are applied in the order in which the
//! primitive holds them, each to the list of vertices that the ones before it
//! left; the primitives of a mesh are applied in their order, all to the same
//! list.

use crate::decode::{
    decode_accessor, decode_indices, decoded, decoded_indices, entries, entry_count, lemma_decoded_shape,
    AccessorData, AccessorDataModel,
};
use crate::importers::reader::outcome;
use crate::error::{Feature, ImportError, Section};
use crate::importers::gltf::{
    ComponentType, Gltf, GltfModel, Mesh as SourceMesh, MeshModel as SourceMeshModel, MeshPrimitiveModel,
};
use crate::semantic::{attribute_semantic, semantic_of_name, Semantic};
use crate::{
    zero_vertex, Mesh, MeshModel, Scalar, Vec2, Vec3,
    VertexPositionColorTextureNormalTangentBitangent as Vertex,
};
use vstd::prelude::*;

verus! {

/// The components that an attribute must have to fill its field.
pub open spec fn needed(semantic: Semantic) -> int {
    match semantic {
        Semantic::Position | Semantic::Normal => 3,
        Semantic::TexCoord => 2,
        Semantic::Other => 0,
    }
}

/// Whether the numbers of an accessor can fill the field: they are floats, and
/// each element has as many as the field takes. An attribute that fills no
/// field fits whatever it holds.
pub open spec fn fits(data: AccessorDataModel, semantic: Semantic) -> bool {
    semantic == Semantic::Other || (data.component_type == ComponentType::Float && data.components
        >= needed(semantic))
}

/// The vertex with one field filled from the first components of `element`,
/// taken as single-precision bit patterns.
pub open spec fn written(vertex: Vertex, semantic: Semantic, element: Seq<u32>) -> Vertex {
    match semantic {
        Semantic::Position => Vertex {
            position: Vec3 {
                x: Scalar::Single(element[0]),
                y: Scalar::Single(element[1]),
                z: Scalar::Single(element[2]),
            },
            ..vertex
        },
        Semantic::Normal => Vertex {
            normal: Vec3 {
                x: Scalar::Single(element[0]),
                y: Scalar::Single(element[1]),
                z: Scalar::Single(element[2]),
            },
            ..vertex
        },
        Semantic::TexCoord => Vertex {
            tex_coord: Vec2 { x: Scalar::Single(element[0]), y: Scalar::Single(element[1]) },
            ..vertex
        },
        Semantic::Other => vertex,
    }
}

/// The vertex at place `i`, or the padding vertex where the list ends before.
pub open spec fn padded(vertices: Seq<Vertex>, i: int) -> Vertex {
    if 0 <= i < vertices.len() {
        vertices[i]
    } else {
        zero_vertex()
    }
}

/// The vertices after one attribute was applied: as many as the accessor has
/// elements, each the vertex that stood there, or the padding vertex, with the
/// attribute's field filled from the element at its place.
///
/// An accessor with fewer elements than there are vertices already is
/// malformed; numbers that do not fit the field are unsupported.
pub open spec fn attribute_applied(
    doc: GltfModel,
    buffers: Seq<Seq<u8>>,
    vertices: Seq<Vertex>,
    name: Seq<char>,
    index: i32,
) -> Result<Seq<Vertex>, ImportError> {
    let semantic = attribute_semantic(name);
    match decoded(doc, buffers, index) {
        Err(e) => Err(e),
        Ok(data) => if data.len() < vertices.len() {
            Err(ImportError::MalformedDocument { section: Section::Accessors, entry: Some(index as usize) })
        } else if !fits(data, semantic) {
            Err(ImportError::UnsupportedFeature { feature: Feature::VertexFormat, owner: index as usize })
        } else {
            Ok(Seq::new(data.count as nat, |i: int| written(padded(vertices, i), semantic, data.element(i))))
        },
    }
}

/// The vertices after the first `n` of the attributes were applied, one after
/// the other, or the first error.
pub open spec fn attributes_applied(
    doc: GltfModel,
    buffers: Seq<Seq<u8>>,
    attributes: Seq<(Seq<char>, i32)>,
    n: int,
    start: Seq<Vertex>,
) -> Result<Seq<Vertex>, ImportError>
    decreases n,
{
    if n <= 0 {
        Ok(start)
    } else {
        match attributes_applied(doc, buffers, attributes, n - 1, start) {
            Err(e) => Err(e),
            Ok(vertices) => attribute_applied(doc, buffers, vertices, attributes[n - 1].0, attributes[n - 1].1),
        }
    }
}

/// Once an attribute has failed, the ones after it change nothing.
pub proof fn lemma_attributes_error(
    doc: GltfModel,
    buffers: Seq<Seq<u8>>,
    attributes: Seq<(Seq<char>, i32)>,
    m: int,
    n: int,
    start: Seq<Vertex>,
)
    requires
        attributes_applied(doc, buffers, attributes, m, start) is Err,
        m <= n,
    ensures
        attributes_applied(doc, buffers, attributes, n, start) == attributes_applied(
            doc,
            buffers,
            attributes,
            m,
            start,
        ),
    decreases n - m,
{
    if m < n {
        lemma_attributes_error(doc, buffers, attributes, m, n - 1, start);
    }
}

/// Vertices and indices, as a mesh gathers them.
pub ghost struct Geometry {
    pub vertices: Seq<Vertex>,
    pub indices: Seq<u32>,
}

/// What one primitive adds to what the primitives before it gathered: its
/// attributes are applied to the vertices, and its indices come after those
/// that are there.
pub open spec fn primitive_applied(
    doc: GltfModel,
    buffers: Seq<Seq<u8>>,
    primitive: MeshPrimitiveModel,
    before: Geometry,
) -> Result<Geometry, ImportError> {
    match attributes_applied(
        doc,
        buffers,
        primitive.attributes,
        primitive.attributes.len() as int,
        before.vertices,
    ) {
        Err(e) => Err(e),
        Ok(vertices) => match primitive.indices {
            None => Ok(Geometry { vertices, indices: before.indices }),
            Some(index) => match decoded_indices(doc, buffers, index) {
                Err(e) => Err(e),
                Ok(more) => Ok(Geometry { vertices, indices: before.indices + more }),
            },
        },
    }
}

/// What the first `n` primitives gather, or the first error.
pub open spec fn primitives_applied(
    doc: GltfModel,
    buffers: Seq<Seq<u8>>,
    primitives: Seq<MeshPrimitiveModel>,
    n: int,
) -> Result<Geometry, ImportError>
    decreases n,
{
    if n <= 0 {
        Ok(Geometry { vertices: Seq::empty(), indices: Seq::empty() })
    } else {
        match primitives_applied(doc, buffers, primitives, n - 1) {
            Err(e) => Err(e),
            Ok(before) => primitive_applied(doc, buffers, primitives[n - 1], before),
        }
    }
}

/// Once a primitive has failed, the ones after it change nothing.
pub proof fn lemma_primitives_error(
    doc: GltfModel,
    buffers: Seq<Seq<u8>>,
    primitives: Seq<MeshPrimitiveModel>,
    m: int,
    n: int,
)
    requires
        primitives_applied(doc, buffers, primitives, m) is Err,
        m <= n,
    ensures
        primitives_applied(doc, buffers, primitives, n) == primitives_applied(doc, buffers, primitives, m),
    decreases n - m,
{
    if m < n {
        lemma_primitives_error(doc, buffers, primitives, m, n - 1);
    }
}

/// Whether every primitive names `material`.
pub open spec fn single_material(primitives: Seq<MeshPrimitiveModel>, material: i32) -> bool {
    forall|k: int| 0 <= k < primitives.len() ==> (#[trigger] primitives[k]).material == Some(material)
}

/// The mesh that a mesh of the document resolves to; `owner` is its place
/// among the document's meshes. The checks are made in this order, and the
/// first that fails gives the error:
///
/// 1. the mesh has a primitive: one without is malformed;
/// 2. its first primitive names a material, which is then the material of the
///    mesh;
/// 3. every primitive names that material: a mesh has one;
/// 4. the material is a material of the document;
/// 5. the primitives, applied in their order, gather the vertices and the
///    indices of the mesh.
pub open spec fn mesh_resolved(
    doc: GltfModel,
    buffers: Seq<Seq<u8>>,
    mesh: SourceMeshModel,
    owner: usize,
) -> Result<MeshModel, ImportError> {
    if mesh.primitives.len() == 0 {
        Err(ImportError::MalformedDocument { section: Section::Meshes, entry: Some(owner) })
    } else {
        match mesh.primitives[0].material {
            None => Err(ImportError::UnsupportedFeature { feature: Feature::MissingMaterial, owner }),
            Some(material) => if !single_material(mesh.primitives, material) {
                Err(ImportError::UnsupportedFeature { feature: Feature::MixedMaterials, owner })
            } else if material < 0 || material >= entries(doc.materials).len() {
                Err(ImportError::UnresolvedReference { section: Section::Materials, index: material as i64 })
            } else {
                match primitives_applied(doc, buffers, mesh.primitives, mesh.primitives.len() as int) {
                    Err(e) => Err(e),
                    Ok(geometry) => Ok(
                        MeshModel {
                            vertices: geometry.vertices,
                            indices: geometry.indices,
                            material: material as usize,
                        },
                    ),
                }
            },
        }
    }
}

fn single3(x: u32, y: u32, z: u32) -> (r: Vec3)
    ensures
        r == (Vec3 { x: Scalar::Single(x), y: Scalar::Single(y), z: Scalar::Single(z) }),
{
    Vec3 { x: Scalar::Single(x), y: Scalar::Single(y), z: Scalar::Single(z) }
}

/// Fills one field of a vertex from the components that start at `base`.
fn write_vertex(vertex: Vertex, semantic: Semantic, data: &AccessorData, base: usize) -> (r: Vertex)
    requires
        base + data.components <= data.words.len(),
        data.components >= needed(semantic),
    ensures
        r == written(vertex, semantic, data.words@.subrange(base as int, base + data.components)),
{
    let mut out = vertex;
    match semantic {
        Semantic::Position => {
            out.position = single3(data.words[base], data.words[base + 1], data.words[base + 2]);
        },
        Semantic::Normal => {
            out.normal = single3(data.words[base], data.words[base + 1], data.words[base + 2]);
        },
        Semantic::TexCoord => {
            out.tex_coord = Vec2 {
                x: Scalar::Single(data.words[base]),
                y: Scalar::Single(data.words[base + 1]),
            };
        },
        Semantic::Other => {},
    }
    out
}

/// Applies one attribute to the vertices gathered so far.
pub fn apply_attribute(
    gltf: &Gltf,
    buffers: &Vec<Vec<u8>>,
    vertices: &mut Vec<Vertex>,
    name: &str,
    index: i32,
) -> (r: Result<(), ImportError>)
    ensures
        match r {
            Ok(_) => attribute_applied(gltf.deep_view(), buffers.deep_view(), old(vertices)@, name@, index)
                == Ok::<Seq<Vertex>, ImportError>(final(vertices)@),
            Err(e) => attribute_applied(gltf.deep_view(), buffers.deep_view(), old(vertices)@, name@, index)
                == Err::<Seq<Vertex>, ImportError>(e) && final(vertices)@ == old(vertices)@,
        },
{
    let ghost before = vertices@;
    let data = decode_accessor(gltf, buffers, index)?;
    let ghost model = data.deep_view();
    if data.count < vertices.len() {
        return Err(
            ImportError::MalformedDocument { section: Section::Accessors, entry: Some(index as usize) },
        );
    }
    let semantic = semantic_of_name(name);
    let n = data.components;
    let fit = match semantic {
        Semantic::Other => true,
        Semantic::Position | Semantic::Normal => data.component_type == ComponentType::Float && n >= 3,
        Semantic::TexCoord => data.component_type == ComponentType::Float && n >= 2,
    };
    if !fit {
        return Err(
            ImportError::UnsupportedFeature { feature: Feature::VertexFormat, owner: index as usize },
        );
    }
    while vertices.len() < data.count
        invariant
            vertices@.len() <= data.count,
            before.len() <= vertices@.len(),
            forall|i: int| 0 <= i < vertices@.len() ==> vertices@[i] == padded(before, i),
        decreases data.count - vertices@.len(),
    {
        vertices.push(Vertex::zero());
    }
    proof {
        lemma_decoded_shape(gltf.deep_view(), buffers.deep_view(), index);
    }
    if semantic != Semantic::Other {
        let mut i: usize = 0;
        let mut base: usize = 0;
        while i < data.count
            invariant
                i <= data.count,
                base == i * n,
                n == data.components,
                model == data.deep_view(),
                model.well_formed(),
                fits(model, semantic),
                vertices@.len() == data.count,
                forall|j: int|
                    0 <= j < i ==> vertices@[j] == written(padded(before, j), semantic, model.element(j)),
                forall|j: int| i <= j < vertices@.len() ==> vertices@[j] == padded(before, j),
            decreases data.count - i,
        {
            assert((i + 1) * n == i * n + n && (i + 1) * n <= data.count * n) by (nonlinear_arith)
                requires
                    i < data.count,
                    0 <= n,
            ;
            let vertex = write_vertex(vertices[i], semantic, &data, base);
            vertices.set(i, vertex);
            i += 1;
            base += n;
        }
    }
    assert(vertices@ =~= attribute_applied(
        gltf.deep_view(),
        buffers.deep_view(),
        before,
        name@,
        index,
    )->Ok_0);
    Ok(())
}

/// Applies the attributes of a primitive, in their order.
#[verifier::loop_isolation(false)]
pub fn apply_attributes(
    gltf: &Gltf,
    buffers: &Vec<Vec<u8>>,
    vertices: &mut Vec<Vertex>,
    attributes: &Vec<(String, i32)>,
) -> (r: Result<(), ImportError>)
    ensures
        match r {
            Ok(_) => attributes_applied(
                gltf.deep_view(),
                buffers.deep_view(),
                attributes.deep_view(),
                attributes@.len() as int,
                old(vertices)@,
            ) == Ok::<Seq<Vertex>, ImportError>(final(vertices)@),
            Err(e) => attributes_applied(
                gltf.deep_view(),
                buffers.deep_view(),
                attributes.deep_view(),
                attributes@.len() as int,
                old(vertices)@,
            ) == Err::<Seq<Vertex>, ImportError>(e),
        },
{
    let ghost doc = gltf.deep_view();
    let ghost data = buffers.deep_view();
    let ghost names = attributes.deep_view();
    let ghost start = vertices@;
    let mut i: usize = 0;
    while i < attributes.len()
        invariant
            i <= attributes.len(),
            attributes_applied(doc, data, names, i as int, start) == Ok::<Seq<Vertex>, ImportError>(
                vertices@,
            ),
        decreases attributes.len() - i,
    {
        assert(names[i as int] == (attributes@[i as int].0@, attributes@[i as int].1));
        match apply_attribute(gltf, buffers, vertices, attributes[i].0.as_str(), attributes[i].1) {
            Ok(_) => {},
            Err(e) => {
                proof {
                    assert(attributes_applied(doc, data, names, i + 1, start) == Err::<
                        Seq<Vertex>,
                        ImportError,
                    >(e));
                    lemma_attributes_error(doc, data, names, i + 1, attributes@.len() as int, start);
                }
                return Err(e);
            },
        }
        i += 1;
    }
    Ok(())
}

/// Resolves one mesh of the document; `owner` is its place among the
/// document's meshes.
#[verifier::loop_isolation(false)]
pub fn resolve_mesh(gltf: &Gltf, buffers: &Vec<Vec<u8>>, mesh: &SourceMesh, owner: usize) -> (r: Result<
    Mesh,
    ImportError,
>)
    ensures
        outcome(r) == mesh_resolved(gltf.deep_view(), buffers.deep_view(), mesh.deep_view(), owner),
{
    let ghost doc = gltf.deep_view();
    let ghost data = buffers.deep_view();
    let ghost primitives = mesh.deep_view().primitives;
    if mesh.primitives.len() == 0 {
        return Err(ImportError::MalformedDocument { section: Section::Meshes, entry: Some(owner) });
    }
    assert(primitives[0] == mesh.primitives@[0].deep_view());
    let material = match mesh.primitives[0].material {
        Some(material) => material,
        None => {
            return Err(ImportError::UnsupportedFeature { feature: Feature::MissingMaterial, owner });
        },
    };
    let mut k: usize = 0;
    while k < mesh.primitives.len()
        invariant
            k <= mesh.primitives.len(),
            forall|j: int| 0 <= j < k ==> (#[trigger] primitives[j]).material == Some(material),
        decreases mesh.primitives.len() - k,
    {
        assert(primitives[k as int] == mesh.primitives@[k as int].deep_view());
        let same = match mesh.primitives[k].material {
            Some(other) => other == material,
            None => false,
        };
        if !same {
            return Err(ImportError::UnsupportedFeature { feature: Feature::MixedMaterials, owner });
        }
        k += 1;
    }
    if material < 0 || (material as usize) >= entry_count(&gltf.materials) {
        return Err(
            ImportError::UnresolvedReference { section: Section::Materials, index: material as i64 },
        );
    }
    let mut vertices: Vec<Vertex> = Vec::new();
    let mut indices: Vec<u32> = Vec::new();
    let mut k: usize = 0;
    while k < mesh.primitives.len()
        invariant
            k <= mesh.primitives.len(),
            primitives_applied(doc, data, primitives, k as int) == Ok::<Geometry, ImportError>(
                Geometry { vertices: vertices@, indices: indices@ },
            ),
        decreases mesh.primitives.len() - k,
    {
        let primitive = &mesh.primitives[k];
        assert(primitives[k as int] == primitive.deep_view());
        match apply_attributes(gltf, buffers, &mut vertices, &primitive.attributes) {
            Ok(_) => {},
            Err(e) => {
                proof {
                    lemma_primitives_error(doc, data, primitives, k + 1, primitives.len() as int);
                }
                return Err(e);
            },
        }
        if let Some(index) = primitive.indices {
            match decode_indices(gltf, buffers, index) {
                Ok(more) => {
                    let mut more = more;
                    indices.append(&mut more);
                },
                Err(e) => {
                    proof {
                        lemma_primitives_error(doc, data, primitives, k + 1, primitives.len() as int);
                    }
                    return Err(e);
                },
            }
        }
        k += 1;
    }
    Ok(Mesh { vertices, indices, material: material as usize })
}

} // verus!
