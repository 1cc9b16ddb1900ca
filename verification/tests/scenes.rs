use impasse::decode::{decode_accessor, decode_indices, read_word, stride};
use impasse::error::{Feature, ImportError, Section};
use impasse::importers::gltf::{AccessorType, ComponentType, Gltf};
use impasse::importers::Importer;
use impasse::material::{resolve_material, resolve_texture};
use impasse::mesh::{apply_attribute, apply_attributes, resolve_mesh};
use impasse::semantic::{classify, semantic_of_name, Semantic};
use impasse::utils::{extract_texture, TextureChannel};
use impasse::{
    AlphaMode, Material, Mesh, Scalar, Scene, Texture, TextureIndex, TextureType, Vec2, Vec3, Vec4,
    VertexPositionColorTextureNormalTangentBitangent,
};

type Vertex = VertexPositionColorTextureNormalTangentBitangent;

fn single(x: f32) -> Scalar {
    Scalar::Single(x.to_bits())
}

fn double(x: f64) -> Scalar {
    Scalar::Double(x.to_bits())
}

fn single3(x: f32, y: f32, z: f32) -> Vec3 {
    Vec3 { x: single(x), y: single(y), z: single(z) }
}

fn floats(values: &[f32]) -> Vec<u8> {
    let mut bytes = Vec::new();
    for v in values {
        bytes.extend_from_slice(&v.to_le_bytes());
    }
    bytes
}

fn shorts(values: &[u16]) -> Vec<u8> {
    let mut bytes = Vec::new();
    for v in values {
        bytes.extend_from_slice(&v.to_le_bytes());
    }
    bytes
}

fn import(text: &str) -> Gltf {
    Gltf::import(text.as_bytes()).unwrap()
}

fn malformed(section: Section, entry: Option<usize>) -> ImportError {
    ImportError::MalformedDocument { section, entry }
}

fn unresolved(section: Section, index: i64) -> ImportError {
    ImportError::UnresolvedReference { section, index }
}

fn unsupported(feature: Feature, owner: usize) -> ImportError {
    ImportError::UnsupportedFeature { feature, owner }
}

/// A document around the given sections, with one buffer of `length` bytes.
fn document(length: usize, sections: &str) -> Gltf {
    import(&format!(
        r#"{{ "asset": {{ "version": "2.0" }}, "buffers": [ {{ "uri": "data.bin", "byteLength": {} }} ], {} }}"#,
        length, sections
    ))
}

const TRIANGLE: &str = r#"
    "materials": [ {} ],
    "meshes": [ { "primitives": [ { "attributes": { "POSITION": 0 }, "indices": 1, "material": 0 } ] } ],
    "accessors": [ { "bufferView": 0, "componentType": 5126, "count": 3, "type": "VEC3" },
                   { "bufferView": 1, "componentType": 5123, "count": 3, "type": "SCALAR" } ],
    "bufferViews": [ { "buffer": 0, "byteOffset": 0, "byteLength": 36 },
                     { "buffer": 0, "byteOffset": 36, "byteLength": 6 } ]"#;

fn triangle_bytes() -> Vec<u8> {
    let mut bytes = floats(&[0.0, 0.0, 0.0, 1.0, 0.0, 0.0, 0.0, 1.0, 0.5]);
    bytes.extend_from_slice(&shorts(&[0, 1, 2]));
    bytes
}

#[test]
fn a_triangle_comes_out_with_three_vertices_and_its_indices_in_order() {
    let gltf = document(42, TRIANGLE);
    let scene = Scene::from_gltf(&gltf, &vec![triangle_bytes()]).unwrap();
    assert_eq!(scene.meshes.len(), 1);
    let mesh = &scene.meshes[0];
    assert_eq!(mesh.vertices.len(), 3);
    assert_eq!(mesh.indices, vec![0u32, 1, 2]);
    assert_eq!(mesh.material, 0);
    assert_eq!(mesh.vertices[0].position, single3(0.0, 0.0, 0.0));
    assert_eq!(mesh.vertices[1].position, single3(1.0, 0.0, 0.0));
    assert_eq!(mesh.vertices[2].position, single3(0.0, 1.0, 0.5));
    for vertex in &mesh.vertices {
        assert_eq!(vertex.normal, single3(0.0, 0.0, 0.0));
        assert_eq!(vertex.tangent, single3(0.0, 0.0, 0.0));
        assert_eq!(vertex.bitangent, single3(0.0, 0.0, 0.0));
        assert_eq!(vertex.tex_coord, Vec2 { x: single(0.0), y: single(0.0) });
        assert_eq!(vertex.color, Vec4 { x: single(0.0), y: single(0.0), z: single(0.0), w: single(0.0) });
    }
    assert_eq!(scene.materials.len(), 1);
    assert!(scene.textures.is_empty());
}

#[test]
fn a_scene_needs_buffers_accessors_views_and_meshes() {
    let none: Vec<Vec<u8>> = vec![];
    let gltf = import(r#"{ "asset": { "version": "2.0" } }"#);
    assert_eq!(Scene::from_gltf(&gltf, &none), Err(malformed(Section::Buffers, None)));
    let gltf = import(r#"{ "asset": { "version": "2.0" }, "buffers": [] }"#);
    assert_eq!(Scene::from_gltf(&gltf, &none), Err(malformed(Section::Accessors, None)));
    let gltf = import(r#"{ "asset": { "version": "2.0" }, "buffers": [], "accessors": [] }"#);
    assert_eq!(Scene::from_gltf(&gltf, &none), Err(malformed(Section::BufferViews, None)));
    let gltf =
        import(r#"{ "asset": { "version": "2.0" }, "buffers": [], "accessors": [], "bufferViews": [] }"#);
    assert_eq!(Scene::from_gltf(&gltf, &none), Err(malformed(Section::Meshes, None)));
    let gltf = import(
        r#"{ "asset": { "version": "2.0" }, "buffers": [], "accessors": [], "bufferViews": [], "meshes": [] }"#,
    );
    assert_eq!(
        Scene::from_gltf(&gltf, &none),
        Ok(Scene { meshes: vec![], materials: vec![], textures: vec![] })
    );
}

#[test]
fn decoding_yields_count_elements_of_the_type_s_components() {
    let gltf = document(42, TRIANGLE);
    let buffers = vec![triangle_bytes()];
    let positions = decode_accessor(&gltf, &buffers, 0).unwrap();
    assert_eq!(positions.count, 3);
    assert_eq!(positions.components, 3);
    assert_eq!(positions.component_type, ComponentType::Float);
    assert_eq!(positions.words.len(), 9);
    assert_eq!(positions.words[3], 1.0f32.to_bits());
    assert_eq!(positions.words[8], 0.5f32.to_bits());
    let indices = decode_accessor(&gltf, &buffers, 1).unwrap();
    assert_eq!((indices.count, indices.components), (3, 1));
    assert_eq!(indices.component_type, ComponentType::UnsignedShort);
    assert_eq!(indices.words, vec![0u32, 1, 2]);
}

#[test]
fn components_are_read_lowest_byte_first() {
    let bytes = vec![0x01u8, 0x02, 0x03, 0x04, 0xff];
    assert_eq!(read_word(&bytes, 0, 1), 0x01);
    assert_eq!(read_word(&bytes, 4, 1), 0xff);
    assert_eq!(read_word(&bytes, 0, 2), 0x0201);
    assert_eq!(read_word(&bytes, 3, 2), 0xff04);
    assert_eq!(read_word(&bytes, 0, 4), 0x04030201);
    assert_eq!(read_word(&bytes, 1, 4), 0xff040302);
    assert_eq!(read_word(&floats(&[1.0]), 0, 4), 0x3f80_0000);
}

#[test]
fn the_stride_is_components_times_width() {
    assert_eq!(ComponentType::Byte.width(), 1);
    assert_eq!(ComponentType::UnsignedByte.width(), 1);
    assert_eq!(ComponentType::Short.width(), 2);
    assert_eq!(ComponentType::UnsignedShort.width(), 2);
    assert_eq!(ComponentType::UnsignedInt.width(), 4);
    assert_eq!(ComponentType::Float.width(), 4);
    assert_eq!(AccessorType::Scalar.components(), 1);
    assert_eq!(AccessorType::Vec2.components(), 2);
    assert_eq!(AccessorType::Vec3.components(), 3);
    assert_eq!(AccessorType::Vec4.components(), 4);
    assert_eq!(AccessorType::Mat2.components(), 4);
    assert_eq!(AccessorType::Mat3.components(), 9);
    assert_eq!(AccessorType::Mat4.components(), 16);
    assert_eq!(stride(ComponentType::Float, AccessorType::Vec3), 12);
    assert_eq!(stride(ComponentType::Short, AccessorType::Mat4), 32);
    assert_eq!(stride(ComponentType::Float, AccessorType::Mat4), 64);
    assert_eq!(stride(ComponentType::UnsignedByte, AccessorType::Scalar), 1);
}

#[test]
fn every_component_type_decodes_to_the_number_its_bytes_spell() {
    let sections = r#"
        "accessors": [ { "bufferView": 0, "componentType": 5120, "count": 2, "type": "VEC2" },
                       { "bufferView": 0, "componentType": 5122, "count": 2, "type": "SCALAR" },
                       { "bufferView": 0, "componentType": 5125, "count": 1, "type": "SCALAR" },
                       { "bufferView": 1, "componentType": 5121, "count": 1, "type": "VEC2" } ],
        "bufferViews": [ { "buffer": 0, "byteLength": 4 }, { "buffer": 0, "byteOffset": 2, "byteLength": 2 } ]"#;
    let gltf = document(4, sections);
    let buffers = vec![vec![0xffu8, 0x01, 0x80, 0x7f]];
    let bytes = decode_accessor(&gltf, &buffers, 0).unwrap();
    assert_eq!((bytes.count, bytes.components), (2, 2));
    assert_eq!(bytes.words, vec![0xffu32, 0x01, 0x80, 0x7f]);
    assert_eq!(decode_accessor(&gltf, &buffers, 1).unwrap().words, vec![0x01ffu32, 0x7f80]);
    assert_eq!(decode_accessor(&gltf, &buffers, 2).unwrap().words, vec![0x7f8001ffu32]);
    assert_eq!(decode_accessor(&gltf, &buffers, 3).unwrap().words, vec![0x80u32, 0x7f]);
}

#[test]
fn an_accessor_without_a_view_stands_for_zeros() {
    let gltf = document(0, r#""accessors": [ { "componentType": 5126, "count": 2, "type": "VEC3" } ]"#);
    let data = decode_accessor(&gltf, &vec![vec![]], 0).unwrap();
    assert_eq!((data.count, data.components), (2, 3));
    assert_eq!(data.words, vec![0u32; 6]);
}

#[test]
fn an_accessor_of_no_elements_decodes_to_nothing() {
    let gltf = document(
        0,
        r#""accessors": [ { "bufferView": 0, "componentType": 5126, "count": 0, "type": "VEC3" } ],
           "bufferViews": [ { "buffer": 0, "byteLength": 0 } ]"#,
    );
    let data = decode_accessor(&gltf, &vec![vec![]], 0).unwrap();
    assert_eq!((data.count, data.components), (0, 3));
    assert!(data.words.is_empty());
}

#[test]
fn an_accessor_index_out_of_bounds_is_unresolved() {
    let gltf = document(42, TRIANGLE);
    let buffers = vec![triangle_bytes()];
    assert_eq!(decode_accessor(&gltf, &buffers, 2), Err(unresolved(Section::Accessors, 2)));
    assert_eq!(decode_accessor(&gltf, &buffers, -1), Err(unresolved(Section::Accessors, -1)));
    let bare = import(r#"{ "asset": { "version": "2.0" } }"#);
    assert_eq!(decode_accessor(&bare, &buffers, 0), Err(unresolved(Section::Accessors, 0)));
}

#[test]
fn a_view_index_out_of_bounds_is_unresolved() {
    let sections = r#"
        "accessors": [ { "bufferView": 5, "componentType": 5126, "count": 3, "type": "VEC3" },
                       { "bufferView": -1, "componentType": 5126, "count": 3, "type": "VEC3" },
                       { "bufferView": 1, "componentType": 5126, "count": -3, "type": "VEC3",
                         "sparse": { "count": 1, "indices": { "bufferView": 0, "componentType": 5121 },
                                     "values": { "bufferView": 0 } } } ],
        "bufferViews": [ { "buffer": 0, "byteLength": 36 } ]"#;
    let gltf = document(36, sections);
    let buffers = vec![vec![0u8; 36]];
    assert_eq!(decode_accessor(&gltf, &buffers, 0), Err(unresolved(Section::BufferViews, 5)));
    assert_eq!(decode_accessor(&gltf, &buffers, 1), Err(unresolved(Section::BufferViews, -1)));
    assert_eq!(decode_accessor(&gltf, &buffers, 2), Err(unresolved(Section::BufferViews, 1)));
    let no_views =
        document(36, r#""accessors": [ { "bufferView": 0, "componentType": 5126, "count": 3, "type": "VEC3" } ]"#);
    assert_eq!(decode_accessor(&no_views, &buffers, 0), Err(unresolved(Section::BufferViews, 0)));
}

#[test]
fn a_buffer_index_out_of_bounds_is_unresolved() {
    let sections = r#"
        "accessors": [ { "bufferView": 0, "componentType": 5121, "count": 1, "type": "SCALAR" },
                       { "bufferView": 1, "componentType": 5121, "count": 1, "type": "SCALAR" },
                       { "bufferView": 2, "componentType": 5121, "count": 1, "type": "SCALAR" } ],
        "bufferViews": [ { "buffer": 1, "byteLength": 1 }, { "buffer": -2, "byteLength": 1 },
                         { "buffer": 0, "byteLength": 1 } ]"#;
    let gltf = document(1, sections);
    assert_eq!(decode_accessor(&gltf, &vec![vec![7u8], vec![8u8]], 0), Err(unresolved(Section::Buffers, 1)));
    assert_eq!(decode_accessor(&gltf, &vec![vec![7u8]], 1), Err(unresolved(Section::Buffers, -2)));
    assert_eq!(decode_accessor(&gltf, &vec![], 2), Err(unresolved(Section::Buffers, 0)));
    assert_eq!(decode_accessor(&gltf, &vec![vec![7u8]], 2).unwrap().words, vec![7u32]);
}

#[test]
fn a_view_outside_its_buffer_is_malformed() {
    let sections = r#"
        "accessors": [ { "bufferView": 0, "componentType": 5121, "count": 1, "type": "SCALAR" },
                       { "bufferView": 1, "componentType": 5121, "count": 1, "type": "SCALAR" },
                       { "bufferView": 2, "componentType": 5121, "count": 1, "type": "SCALAR" },
                       { "bufferView": 3, "componentType": 5121, "count": 1, "type": "SCALAR" } ],
        "bufferViews": [ { "buffer": 0, "byteOffset": 2, "byteLength": 3 },
                         { "buffer": 0, "byteOffset": -1, "byteLength": 1 },
                         { "buffer": 0, "byteOffset": 0, "byteLength": -1 },
                         { "buffer": 0, "byteOffset": 2, "byteLength": 2 } ]"#;
    let gltf = document(4, sections);
    let buffers = vec![vec![1u8, 2, 3, 4]];
    assert_eq!(decode_accessor(&gltf, &buffers, 0), Err(malformed(Section::BufferViews, Some(0))));
    assert_eq!(decode_accessor(&gltf, &buffers, 1), Err(malformed(Section::BufferViews, Some(1))));
    assert_eq!(decode_accessor(&gltf, &buffers, 2), Err(malformed(Section::BufferViews, Some(2))));
    assert_eq!(decode_accessor(&gltf, &buffers, 3).unwrap().words, vec![3u32]);
}

#[test]
fn a_view_too_short_for_the_count_is_malformed() {
    let sections = r#"
        "accessors": [ { "bufferView": 0, "componentType": 5126, "count": 3, "type": "VEC3" },
                       { "bufferView": 0, "componentType": 5126, "count": -1, "type": "VEC3" },
                       { "componentType": 5126, "count": 2147483647, "type": "MAT4" },
                       { "bufferView": 0, "componentType": 5126, "count": 2, "type": "VEC3" } ],
        "bufferViews": [ { "buffer": 0, "byteLength": 35 } ]"#;
    let gltf = document(36, sections);
    let buffers = vec![vec![0u8; 36]];
    assert_eq!(decode_accessor(&gltf, &buffers, 0), Err(malformed(Section::Accessors, Some(0))));
    assert_eq!(decode_accessor(&gltf, &buffers, 1), Err(malformed(Section::Accessors, Some(1))));
    assert_eq!(decode_accessor(&gltf, &buffers, 2), Err(malformed(Section::Accessors, Some(2))));
    assert_eq!(decode_accessor(&gltf, &buffers, 3).unwrap().words.len(), 6);
}

#[test]
fn an_accessor_that_needs_substitution_is_unsupported() {
    let sections = r#"
        "accessors": [ { "componentType": 5126, "count": 3, "type": "VEC3",
                         "sparse": { "count": 1, "indices": { "bufferView": 0, "componentType": 5121 },
                                     "values": { "bufferView": 0 } } },
                       { "componentType": 5126, "count": 1, "type": "SCALAR",
                         "sparse": { "count": 0, "indices": { "bufferView": 0, "componentType": 5121 },
                                     "values": { "bufferView": 0 } } } ],
        "bufferViews": [ { "buffer": 0, "byteLength": 36 } ]"#;
    let gltf = document(36, sections);
    let buffers = vec![vec![0u8; 36]];
    assert_eq!(decode_accessor(&gltf, &buffers, 0), Err(unsupported(Feature::SparseAccessor, 0)));
    assert_eq!(decode_accessor(&gltf, &buffers, 1).unwrap().words, vec![0u32]);
}

#[test]
fn indices_of_16_and_of_32_bits_come_out_as_32_bits() {
    let sections = r#"
        "accessors": [ { "bufferView": 0, "componentType": 5123, "count": 2, "type": "SCALAR" },
                       { "bufferView": 0, "componentType": 5125, "count": 1, "type": "SCALAR" },
                       { "bufferView": 0, "componentType": 5121, "count": 4, "type": "SCALAR" },
                       { "bufferView": 0, "componentType": 5126, "count": 1, "type": "SCALAR" },
                       { "bufferView": 0, "componentType": 5122, "count": 1, "type": "SCALAR" },
                       { "bufferView": 0, "componentType": 5120, "count": 1, "type": "SCALAR" },
                       { "bufferView": 9, "componentType": 5123, "count": 1, "type": "SCALAR" } ],
        "bufferViews": [ { "buffer": 0, "byteLength": 4 } ]"#;
    let gltf = document(4, sections);
    let buffers = vec![vec![0xffu8, 0xff, 0x01, 0x00]];
    assert_eq!(decode_indices(&gltf, &buffers, 0), Ok(vec![0xffffu32, 1]));
    assert_eq!(decode_indices(&gltf, &buffers, 1), Ok(vec![0x0001ffffu32]));
    for index in 2..6 {
        assert_eq!(
            decode_indices(&gltf, &buffers, index),
            Err(malformed(Section::Accessors, Some(index as usize)))
        );
    }
    assert_eq!(decode_indices(&gltf, &buffers, 6), Err(unresolved(Section::BufferViews, 9)));
}

#[test]
fn names_are_told_apart_by_what_stands_before_the_first_underscore() {
    assert_eq!(classify("position"), Semantic::Position);
    assert_eq!(classify("normal"), Semantic::Normal);
    assert_eq!(classify("texcoord"), Semantic::TexCoord);
    assert_eq!(classify("texcoord_0"), Semantic::TexCoord);
    assert_eq!(classify("texcoord_1_x"), Semantic::TexCoord);
    assert_eq!(classify("position_"), Semantic::Position);
    assert_eq!(classify("positions"), Semantic::Other);
    assert_eq!(classify("positio"), Semantic::Other);
    assert_eq!(classify("color_0"), Semantic::Other);
    assert_eq!(classify("tangent"), Semantic::Other);
    assert_eq!(classify("_position"), Semantic::Other);
    assert_eq!(classify("_custom"), Semantic::Other);
    assert_eq!(classify(""), Semantic::Other);
    assert_eq!(classify("_"), Semantic::Other);
    assert_eq!(classify("POSITION"), Semantic::Other);
    assert_eq!(classify("n\u{f6}rmal"), Semantic::Other);
}

#[test]
fn names_are_put_in_lower_case_first() {
    assert_eq!(semantic_of_name("POSITION"), Semantic::Position);
    assert_eq!(semantic_of_name("Normal"), Semantic::Normal);
    assert_eq!(semantic_of_name("TEXCOORD_0"), Semantic::TexCoord);
    assert_eq!(semantic_of_name("TexCoord_1"), Semantic::TexCoord);
    assert_eq!(semantic_of_name("COLOR_0"), Semantic::Other);
    assert_eq!(semantic_of_name("_CUSTOM"), Semantic::Other);
    assert_eq!(semantic_of_name("JOINTS_0"), Semantic::Other);
}

const TWO_ATTRIBUTES: &str = r#"
    "materials": [ {} ],
    "meshes": [ { "primitives": [ { "attributes": { "NORMAL": 1, "POSITION": 0 }, "material": 0 } ] } ],
    "accessors": [ { "bufferView": 0, "componentType": 5126, "count": 3, "type": "VEC3" },
                   { "bufferView": 1, "componentType": 5126, "count": 2, "type": "VEC3" },
                   { "bufferView": 0, "componentType": 5126, "count": 1, "type": "VEC3" } ],
    "bufferViews": [ { "buffer": 0, "byteOffset": 0, "byteLength": 36 },
                     { "buffer": 0, "byteOffset": 36, "byteLength": 24 } ]"#;

fn two_attribute_bytes() -> Vec<u8> {
    floats(&[1.0, 2.0, 3.0, 4.0, 5.0, 6.0, 7.0, 8.0, 9.0, 0.0, 0.0, 1.0, 0.0, 1.0, 0.0])
}

#[test]
fn a_shorter_normal_accessor_is_padded_not_cut() {
    let gltf = document(60, TWO_ATTRIBUTES);
    let scene = Scene::from_gltf(&gltf, &vec![two_attribute_bytes()]).unwrap();
    let vertices = &scene.meshes[0].vertices;
    assert_eq!(vertices.len(), 3);
    assert_eq!(vertices[0].position, single3(1.0, 2.0, 3.0));
    assert_eq!(vertices[1].position, single3(4.0, 5.0, 6.0));
    assert_eq!(vertices[2].position, single3(7.0, 8.0, 9.0));
    assert_eq!(vertices[0].normal, single3(0.0, 0.0, 1.0));
    assert_eq!(vertices[1].normal, single3(0.0, 1.0, 0.0));
    assert_eq!(vertices[2].normal, single3(0.0, 0.0, 0.0));
    assert!(scene.meshes[0].indices.is_empty());
}

#[test]
fn an_attribute_grows_the_list_and_keeps_what_is_there() {
    let gltf = document(60, TWO_ATTRIBUTES);
    let buffers = vec![two_attribute_bytes()];
    let mut vertices: Vec<Vertex> = Vec::new();
    assert_eq!(apply_attribute(&gltf, &buffers, &mut vertices, "NORMAL", 1), Ok(()));
    assert_eq!(vertices.len(), 2);
    assert_eq!(vertices[1].normal, single3(0.0, 1.0, 0.0));
    assert_eq!(vertices[1].position, single3(0.0, 0.0, 0.0));
    assert_eq!(apply_attribute(&gltf, &buffers, &mut vertices, "POSITION", 0), Ok(()));
    assert_eq!(vertices.len(), 3);
    assert_eq!(vertices[1].normal, single3(0.0, 1.0, 0.0));
    assert_eq!(vertices[1].position, single3(4.0, 5.0, 6.0));
    assert_eq!(vertices[2], Vertex { position: single3(7.0, 8.0, 9.0), ..Vertex::zero() });
}

#[test]
fn an_accessor_with_fewer_elements_than_vertices_is_malformed() {
    let gltf = document(60, TWO_ATTRIBUTES);
    let buffers = vec![two_attribute_bytes()];
    let mut vertices: Vec<Vertex> = Vec::new();
    assert_eq!(apply_attribute(&gltf, &buffers, &mut vertices, "POSITION", 0), Ok(()));
    let before = vertices.clone();
    assert_eq!(
        apply_attribute(&gltf, &buffers, &mut vertices, "NORMAL", 1),
        Err(malformed(Section::Accessors, Some(1)))
    );
    assert_eq!(vertices, before);
    assert_eq!(
        apply_attribute(&gltf, &buffers, &mut vertices, "_CUSTOM", 2),
        Err(malformed(Section::Accessors, Some(2)))
    );
}

#[test]
fn attributes_are_applied_in_the_order_given() {
    let gltf = document(60, TWO_ATTRIBUTES);
    let buffers = vec![two_attribute_bytes()];
    let mut vertices: Vec<Vertex> = Vec::new();
    let shrinking = vec![("POSITION".to_string(), 0), ("NORMAL".to_string(), 1)];
    assert_eq!(
        apply_attributes(&gltf, &buffers, &mut vertices, &shrinking),
        Err(malformed(Section::Accessors, Some(1)))
    );
    let mut vertices: Vec<Vertex> = Vec::new();
    let growing = vec![("NORMAL".to_string(), 1), ("POSITION".to_string(), 0)];
    assert_eq!(apply_attributes(&gltf, &buffers, &mut vertices, &growing), Ok(()));
    assert_eq!(vertices.len(), 3);
    let mut vertices: Vec<Vertex> = Vec::new();
    assert_eq!(apply_attributes(&gltf, &buffers, &mut vertices, &vec![]), Ok(()));
    assert!(vertices.is_empty());
}

#[test]
fn an_unknown_attribute_changes_no_vertex() {
    let sections = r#"
        "materials": [ {} ],
        "meshes": [ { "primitives": [ { "attributes": { "POSITION": 0, "_CUSTOM": 1, "TANGENT": 1 }, "material": 0 } ] } ],
        "accessors": [ { "bufferView": 0, "componentType": 5126, "count": 2, "type": "VEC3" },
                       { "bufferView": 1, "componentType": 5121, "count": 3, "type": "SCALAR" } ],
        "bufferViews": [ { "buffer": 0, "byteOffset": 0, "byteLength": 24 },
                         { "buffer": 0, "byteOffset": 24, "byteLength": 3 } ]"#;
    let gltf = document(27, sections);
    let mut bytes = floats(&[1.0, 2.0, 3.0, 4.0, 5.0, 6.0]);
    bytes.extend_from_slice(&[9, 9, 9]);
    let scene = Scene::from_gltf(&gltf, &vec![bytes.clone()]).unwrap();
    let vertices = &scene.meshes[0].vertices;
    assert_eq!(vertices.len(), 3);
    assert_eq!(vertices[0], Vertex { position: single3(1.0, 2.0, 3.0), ..Vertex::zero() });
    assert_eq!(vertices[1], Vertex { position: single3(4.0, 5.0, 6.0), ..Vertex::zero() });
    assert_eq!(vertices[2], Vertex::zero());
    let mut list = vec![vertices[0], vertices[1]];
    assert_eq!(apply_attribute(&gltf, &vec![bytes], &mut list, "_CUSTOM", 1), Ok(()));
    assert_eq!(list, vec![vertices[0], vertices[1], Vertex::zero()]);
}

#[test]
fn texture_coordinates_fill_their_field() {
    let sections = r#"
        "materials": [ {} ],
        "meshes": [ { "primitives": [ { "attributes": { "TEXCOORD_0": 0 }, "material": 0 } ] } ],
        "accessors": [ { "bufferView": 0, "componentType": 5126, "count": 2, "type": "VEC2" } ],
        "bufferViews": [ { "buffer": 0, "byteLength": 16 } ]"#;
    let gltf = document(16, sections);
    let scene = Scene::from_gltf(&gltf, &vec![floats(&[0.25, 0.5, 0.75, 1.0])]).unwrap();
    let vertices = &scene.meshes[0].vertices;
    assert_eq!(vertices.len(), 2);
    assert_eq!(vertices[0].tex_coord, Vec2 { x: single(0.25), y: single(0.5) });
    assert_eq!(vertices[1].tex_coord, Vec2 { x: single(0.75), y: single(1.0) });
    assert_eq!(vertices[1].position, single3(0.0, 0.0, 0.0));
}

#[test]
fn an_element_with_more_components_than_the_field_gives_its_first() {
    let sections = r#"
        "accessors": [ { "bufferView": 0, "componentType": 5126, "count": 2, "type": "VEC4" } ],
        "bufferViews": [ { "buffer": 0, "byteLength": 32 } ]"#;
    let gltf = document(32, sections);
    let buffers = vec![floats(&[1.0, 2.0, 3.0, 4.0, 5.0, 6.0, 7.0, 8.0])];
    let mut vertices: Vec<Vertex> = Vec::new();
    assert_eq!(apply_attribute(&gltf, &buffers, &mut vertices, "NORMAL", 0), Ok(()));
    assert_eq!(vertices[0].normal, single3(1.0, 2.0, 3.0));
    assert_eq!(vertices[1].normal, single3(5.0, 6.0, 7.0));
    assert_eq!(apply_attribute(&gltf, &buffers, &mut vertices, "texcoord_3", 0), Ok(()));
    assert_eq!(vertices[1].tex_coord, Vec2 { x: single(5.0), y: single(6.0) });
}

#[test]
fn numbers_that_do_not_fit_the_field_are_unsupported() {
    let sections = r#"
        "accessors": [ { "bufferView": 0, "componentType": 5126, "count": 2, "type": "VEC2" },
                       { "bufferView": 0, "componentType": 5123, "count": 1, "type": "VEC3" },
                       { "bufferView": 0, "componentType": 5126, "count": 1, "type": "SCALAR" } ],
        "bufferViews": [ { "buffer": 0, "byteLength": 16 } ]"#;
    let gltf = document(16, sections);
    let buffers = vec![vec![0u8; 16]];
    let mut vertices: Vec<Vertex> = Vec::new();
    assert_eq!(
        apply_attribute(&gltf, &buffers, &mut vertices, "POSITION", 0),
        Err(unsupported(Feature::VertexFormat, 0))
    );
    assert_eq!(
        apply_attribute(&gltf, &buffers, &mut vertices, "NORMAL", 1),
        Err(unsupported(Feature::VertexFormat, 1))
    );
    assert_eq!(
        apply_attribute(&gltf, &buffers, &mut vertices, "TEXCOORD_0", 2),
        Err(unsupported(Feature::VertexFormat, 2))
    );
    assert!(vertices.is_empty());
    assert_eq!(apply_attribute(&gltf, &buffers, &mut vertices, "COLOR_0", 1), Ok(()));
    assert_eq!(vertices, vec![Vertex::zero()]);
}

#[test]
fn primitives_of_one_mesh_share_its_vertices_and_add_their_indices() {
    let sections = r#"
        "materials": [ {}, {} ],
        "meshes": [ { "primitives": [
            { "attributes": { "POSITION": 0 }, "indices": 1, "material": 1 },
            { "attributes": { "NORMAL": 0 }, "indices": 1, "material": 1 },
            { "attributes": {}, "material": 1 } ] } ],
        "accessors": [ { "bufferView": 0, "componentType": 5126, "count": 1, "type": "VEC3" },
                       { "bufferView": 1, "componentType": 5123, "count": 2, "type": "SCALAR" } ],
        "bufferViews": [ { "buffer": 0, "byteLength": 12 }, { "buffer": 0, "byteOffset": 12, "byteLength": 4 } ]"#;
    let gltf = document(16, sections);
    let mut bytes = floats(&[1.0, 2.0, 3.0]);
    bytes.extend_from_slice(&shorts(&[5, 6]));
    let meshes = gltf.meshes.as_ref().unwrap();
    let mesh = resolve_mesh(&gltf, &vec![bytes], &meshes[0], 0).unwrap();
    assert_eq!(
        mesh,
        Mesh {
            vertices: vec![Vertex {
                position: single3(1.0, 2.0, 3.0),
                normal: single3(1.0, 2.0, 3.0),
                ..Vertex::zero()
            }],
            indices: vec![5, 6, 5, 6],
            material: 1,
        }
    );
}

#[test]
fn primitives_with_different_materials_are_unsupported() {
    let sections = r#"
        "materials": [ {}, {} ],
        "meshes": [ { "primitives": [ { "attributes": {}, "material": 0 } ] },
                    { "primitives": [ { "attributes": {}, "material": 0 }, { "attributes": {}, "material": 1 } ] } ],
        "accessors": [], "bufferViews": []"#;
    let gltf = document(0, sections);
    let buffers = vec![vec![]];
    assert_eq!(Scene::from_gltf(&gltf, &buffers), Err(unsupported(Feature::MixedMaterials, 1)));
    let meshes = gltf.meshes.as_ref().unwrap();
    assert_eq!(resolve_mesh(&gltf, &buffers, &meshes[1], 1), Err(unsupported(Feature::MixedMaterials, 1)));
    assert_eq!(
        resolve_mesh(&gltf, &buffers, &meshes[0], 0),
        Ok(Mesh { vertices: vec![], indices: vec![], material: 0 })
    );
}

#[test]
fn a_primitive_without_material_beside_one_with_is_unsupported_too() {
    let sections = r#"
        "materials": [ {}, {} ],
        "meshes": [ { "primitives": [ { "attributes": { "POSITION": 7 }, "material": 1 }, { "attributes": {} } ] } ],
        "accessors": [], "bufferViews": []"#;
    let gltf = document(0, sections);
    let buffers = vec![vec![]];
    let meshes = gltf.meshes.as_ref().unwrap();
    assert_eq!(resolve_mesh(&gltf, &buffers, &meshes[0], 4), Err(unsupported(Feature::MixedMaterials, 4)));
    assert_eq!(Scene::from_gltf(&gltf, &buffers), Err(unresolved(Section::Accessors, 7)));
}

#[test]
fn a_mesh_needs_primitives_and_a_material_of_the_document() {
    let sections = r#"
        "materials": [ {} ],
        "meshes": [ { "primitives": [] },
                    { "primitives": [ { "attributes": {} } ] },
                    { "primitives": [ { "attributes": {}, "material": 1 } ] },
                    { "primitives": [ { "attributes": {}, "material": -1 } ] },
                    { "primitives": [ { "attributes": { "POSITION": 3 }, "material": 0 } ] },
                    { "primitives": [ { "attributes": {}, "indices": 4, "material": 0 } ] } ],
        "accessors": [], "bufferViews": []"#;
    let gltf = document(0, sections);
    let buffers = vec![vec![]];
    let meshes = gltf.meshes.as_ref().unwrap();
    assert_eq!(resolve_mesh(&gltf, &buffers, &meshes[0], 0), Err(malformed(Section::Meshes, Some(0))));
    assert_eq!(resolve_mesh(&gltf, &buffers, &meshes[1], 1), Err(unsupported(Feature::MissingMaterial, 1)));
    assert_eq!(resolve_mesh(&gltf, &buffers, &meshes[2], 2), Err(unresolved(Section::Materials, 1)));
    assert_eq!(resolve_mesh(&gltf, &buffers, &meshes[3], 3), Err(unresolved(Section::Materials, -1)));
    assert_eq!(resolve_mesh(&gltf, &buffers, &meshes[4], 4), Err(unresolved(Section::Accessors, 3)));
    assert_eq!(resolve_mesh(&gltf, &buffers, &meshes[5], 5), Err(unresolved(Section::Accessors, 4)));
    assert_eq!(Scene::from_gltf(&gltf, &buffers), Err(unresolved(Section::Materials, 1)));
    let sections = r#"
        "materials": [ {} ],
        "meshes": [ { "primitives": [ { "attributes": {}, "material": 0 } ] }, { "primitives": [] },
                    { "primitives": [ { "attributes": {} } ] } ],
        "accessors": [], "bufferViews": []"#;
    let gltf = document(0, sections);
    assert_eq!(Scene::from_gltf(&gltf, &buffers), Err(malformed(Section::Meshes, Some(1))));
    let sections = r#"
        "meshes": [ { "primitives": [ { "attributes": {} } ] } ],
        "accessors": [], "bufferViews": []"#;
    let gltf = document(0, sections);
    assert_eq!(Scene::from_gltf(&gltf, &buffers), Err(unsupported(Feature::MissingMaterial, 0)));
}

#[test]
fn a_reference_must_resolve_even_where_nothing_uses_it() {
    let buffers = vec![vec![0u8; 4]];
    let cases = [
        (
            r#""accessors": [ { "componentType": 5121, "count": 1, "type": "SCALAR" },
                              { "bufferView": 1, "componentType": 5121, "count": 1, "type": "SCALAR" } ],
               "bufferViews": [ { "buffer": 0, "byteLength": 4 } ], "meshes": []"#,
            unresolved(Section::BufferViews, 1),
        ),
        (
            r#""accessors": [], "bufferViews": [ { "buffer": 0, "byteLength": 4 }, { "buffer": 1, "byteLength": 4 } ],
               "meshes": []"#,
            unresolved(Section::Buffers, 1),
        ),
        (
            r#""accessors": [], "bufferViews": [], "meshes": [],
               "materials": [ {}, { "occlusionTexture": { "index": 0 } } ]"#,
            unresolved(Section::Textures, 0),
        ),
        (
            r#""accessors": [], "bufferViews": [], "meshes": [],
               "textures": [ { "sampler": 0, "source": 0 } ], "images": [ { "uri": "a.png" } ]"#,
            unresolved(Section::Samplers, 0),
        ),
        (
            r#""accessors": [], "bufferViews": [], "meshes": [],
               "textures": [ { "source": 0 }, { "source": 1 } ], "images": [ { "uri": "a.png" } ],
               "samplers": [ {} ]"#,
            unresolved(Section::Images, 1),
        ),
        (
            r#""accessors": [], "bufferViews": [], "materials": [ {} ],
               "meshes": [ { "primitives": [ { "attributes": {}, "indices": 0, "material": 0 } ] } ]"#,
            unresolved(Section::Accessors, 0),
        ),
    ];
    for (sections, error) in cases {
        let gltf = document(4, sections);
        assert_eq!(gltf.check_references(), Err(error), "{}", sections);
        assert_eq!(Scene::from_gltf(&gltf, &buffers), Err(error), "{}", sections);
    }
}

#[test]
fn references_are_checked_section_by_section() {
    let sections = r#"
        "accessors": [ { "bufferView": 0, "componentType": 5121, "count": 1, "type": "SCALAR" } ],
        "bufferViews": [ { "buffer": 3, "byteLength": 4 } ],
        "materials": [ { "emissiveTexture": { "index": 2 }, "normalTexture": { "index": 1 } } ],
        "meshes": [ { "primitives": [ { "attributes": { "A": 0, "B": 5 }, "indices": 6, "material": 7 } ] } ],
        "textures": [ { "source": 8 } ]"#;
    let gltf = document(4, sections);
    assert_eq!(gltf.check_references(), Err(unresolved(Section::Buffers, 3)));
    let repaired = sections.replace(r#""buffer": 3"#, r#""buffer": 0"#);
    let gltf = document(4, &repaired);
    assert_eq!(gltf.check_references(), Err(unresolved(Section::Accessors, 5)));
    let repaired = repaired.replace(r#""B": 5"#, r#""B": 0"#);
    let gltf = document(4, &repaired);
    assert_eq!(gltf.check_references(), Err(unresolved(Section::Accessors, 6)));
    let repaired = repaired.replace(r#""indices": 6"#, r#""indices": 0"#);
    let gltf = document(4, &repaired);
    assert_eq!(gltf.check_references(), Err(unresolved(Section::Materials, 7)));
    let repaired = repaired.replace(r#""material": 7"#, r#""material": 0"#);
    let gltf = document(4, &repaired);
    assert_eq!(gltf.check_references(), Err(unresolved(Section::Textures, 1)));
    let repaired = repaired.replace(r#""index": 1"#, r#""index": 0"#);
    let gltf = document(4, &repaired);
    assert_eq!(gltf.check_references(), Err(unresolved(Section::Textures, 2)));
    let repaired = repaired.replace(r#""index": 2"#, r#""index": 0"#);
    let gltf = document(4, &repaired);
    assert_eq!(gltf.check_references(), Err(unresolved(Section::Images, 8)));
    let repaired = repaired.replace(r#""source": 8"#, r#""source": 0"#);
    let gltf = document(4, &format!(r#"{}, "images": [ {{}} ]"#, repaired));
    assert_eq!(gltf.check_references(), Ok(()));
}

#[test]
fn a_document_without_references_has_none_to_resolve() {
    assert_eq!(import(r#"{ "asset": { "version": "2.0" } }"#).check_references(), Ok(()));
}

#[test]
fn a_material_without_a_pbr_description_is_white_with_factors_of_one() {
    let gltf = import(r#"{ "asset": { "version": "2.0" }, "materials": [ {} ] }"#);
    let material = resolve_material(&gltf.materials.as_ref().unwrap()[0], 0).unwrap();
    let o = double(1.0);
    assert_eq!(
        material,
        Material {
            albedo_color: Vec4 { x: o, y: o, z: o, w: o },
            metallic_factor: o,
            roughness_factor: o,
            emissive_factor: Vec3 { x: double(0.0), y: double(0.0), z: double(0.0) },
            alpha_mode: AlphaMode::Opaque,
            alpha_cutoff: double(0.5),
            double_sided: false,
            textures: vec![],
        }
    );
}

#[test]
fn a_material_lists_its_textures_with_their_uses() {
    let text = r#"{ "asset": { "version": "2.0" }, "materials": [ {
        "alphaMode": "MASK", "alphaCutoff": 0.75, "doubleSided": true, "emissiveFactor": [1, 0.5, 0.25],
        "pbrMetallicRoughness": { "baseColorFactor": [0.5, 0.25, 0.125, 1], "metallicFactor": 0.5,
            "roughnessFactor": 0.25, "baseColorTexture": { "index": 0 },
            "metallicRoughnessTexture": { "index": 1 } },
        "normalTexture": { "index": 2 }, "occlusionTexture": { "index": 3 }, "emissiveTexture": { "index": 4 } },
        { "alphaMode": "BLEND", "emissiveTexture": { "index": 1 }, "normalTexture": { "index": 0 } } ] }"#;
    let gltf = import(text);
    let materials = gltf.materials.as_ref().unwrap();
    let material = resolve_material(&materials[0], 5).unwrap();
    assert_eq!(
        material.albedo_color,
        Vec4 { x: double(0.5), y: double(0.25), z: double(0.125), w: double(1.0) }
    );
    assert_eq!(material.metallic_factor, double(0.5));
    assert_eq!(material.roughness_factor, double(0.25));
    assert_eq!(material.emissive_factor, Vec3 { x: double(1.0), y: double(0.5), z: double(0.25) });
    assert_eq!(material.alpha_mode, AlphaMode::Cutoff);
    assert_eq!(material.alpha_cutoff, double(0.75));
    assert_eq!(material.double_sided, true);
    assert_eq!(
        material.textures,
        vec![
            TextureIndex { index: 0, t_type: TextureType::Albedo },
            TextureIndex { index: 1, t_type: TextureType::Metallic },
            TextureIndex { index: 1, t_type: TextureType::Roughness },
            TextureIndex { index: 2, t_type: TextureType::Normal },
            TextureIndex { index: 3, t_type: TextureType::AmbientOcclusion },
            TextureIndex { index: 4, t_type: TextureType::Emissive },
        ]
    );
    let second = resolve_material(&materials[1], 2).unwrap();
    assert_eq!(second.alpha_mode, AlphaMode::Blend);
    assert_eq!(
        second.textures,
        vec![
            TextureIndex { index: 0, t_type: TextureType::Normal },
            TextureIndex { index: 1, t_type: TextureType::Emissive },
        ]
    );
    assert_eq!(resolve_material(&materials[0], 4), Err(unresolved(Section::Textures, 4)));
    assert_eq!(resolve_material(&materials[0], 1), Err(unresolved(Section::Textures, 1)));
    assert_eq!(resolve_material(&materials[0], 0), Err(unresolved(Section::Textures, 0)));
}

#[test]
fn a_texture_resolves_to_the_location_of_its_image() {
    let text = r#"{ "asset": { "version": "2.0" },
        "textures": [ { "source": 1 }, { "source": 0 }, {}, { "source": 2 }, { "source": -1 } ],
        "images": [ { "bufferView": 0, "mimeType": "image/png" }, { "uri": "wood.png" } ] }"#;
    let gltf = import(text);
    let textures = gltf.textures.as_ref().unwrap();
    assert_eq!(
        resolve_texture(&gltf, &textures[0], 0),
        Ok(Texture { path: Some("wood.png".to_string()), data: None })
    );
    assert_eq!(resolve_texture(&gltf, &textures[1], 1), Err(unsupported(Feature::EmbeddedImage, 0)));
    assert_eq!(resolve_texture(&gltf, &textures[2], 2), Err(unsupported(Feature::MissingImage, 2)));
    assert_eq!(resolve_texture(&gltf, &textures[3], 3), Err(unresolved(Section::Images, 2)));
    assert_eq!(resolve_texture(&gltf, &textures[4], 4), Err(unresolved(Section::Images, -1)));
}

#[test]
fn a_scene_holds_meshes_materials_and_textures_in_the_order_of_the_document() {
    let sections = format!(
        r#"{}, "textures": [ {{ "source": 0 }}, {{ "source": 1 }} ],
           "images": [ {{ "uri": "a.png" }}, {{ "uri": "b.png" }} ]"#,
        TRIANGLE.replace(
            r#""materials": [ {} ]"#,
            r#""materials": [ { "normalTexture": { "index": 1 } } ]"#
        )
    );
    let gltf = document(42, &sections);
    let scene = Scene::from_gltf(&gltf, &vec![triangle_bytes()]).unwrap();
    assert_eq!(scene.meshes.len(), 1);
    assert_eq!(scene.materials.len(), 1);
    assert_eq!(scene.materials[0].textures, vec![TextureIndex { index: 1, t_type: TextureType::Normal }]);
    assert_eq!(
        scene.textures,
        vec![
            Texture { path: Some("a.png".to_string()), data: None },
            Texture { path: Some("b.png".to_string()), data: None },
        ]
    );
}

#[test]
fn the_first_error_of_a_scene_is_the_one_reported() {
    let sections = r#"
        "materials": [ { "normalTexture": { "index": 0 } } ],
        "meshes": [ { "primitives": [ { "attributes": {}, "material": 0 } ] } ],
        "textures": [ {} ],
        "accessors": [], "bufferViews": []"#;
    let gltf = document(0, sections);
    assert_eq!(Scene::from_gltf(&gltf, &vec![vec![]]), Err(unsupported(Feature::MissingImage, 0)));
    let sections = r#"
        "materials": [ { "normalTexture": { "index": 1 } } ],
        "meshes": [ { "primitives": [ { "attributes": {}, "material": 0 } ] } ],
        "textures": [ {} ],
        "accessors": [], "bufferViews": []"#;
    let gltf = document(0, sections);
    assert_eq!(Scene::from_gltf(&gltf, &vec![vec![]]), Err(unresolved(Section::Textures, 1)));
    let sections = r#"
        "materials": [ {} ],
        "meshes": [ { "primitives": [ { "attributes": {}, "material": 0 }, { "attributes": {} } ] } ],
        "textures": [ {} ],
        "accessors": [], "bufferViews": []"#;
    let gltf = document(0, sections);
    assert_eq!(Scene::from_gltf(&gltf, &vec![vec![]]), Err(unsupported(Feature::MixedMaterials, 0)));
}

#[test]
fn a_channel_is_spread_over_all_four() {
    let texture = vec![1u8, 2, 3, 4, 5, 6, 7, 8];
    assert_eq!(extract_texture(texture.clone(), TextureChannel::Red), vec![1, 1, 1, 1, 5, 5, 5, 5]);
    assert_eq!(extract_texture(texture.clone(), TextureChannel::Green), vec![2, 2, 2, 2, 6, 6, 6, 6]);
    assert_eq!(extract_texture(texture.clone(), TextureChannel::Blue), vec![3, 3, 3, 3, 7, 7, 7, 7]);
    assert_eq!(extract_texture(texture, TextureChannel::Alpha), vec![4, 4, 4, 4, 8, 8, 8, 8]);
}

#[test]
fn values_after_the_last_whole_pixel_are_left_out() {
    assert_eq!(extract_texture(vec![1u16, 2, 3, 4, 5, 6, 7], TextureChannel::Blue), vec![3, 3, 3, 3]);
    assert_eq!(extract_texture(vec![1u16, 2, 3], TextureChannel::Red), Vec::<u16>::new());
    assert_eq!(extract_texture(Vec::<u32>::new(), TextureChannel::Alpha), Vec::<u32>::new());
}
