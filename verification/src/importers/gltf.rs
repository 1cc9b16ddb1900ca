//! The glTF document: a typed mirror of the JSON, with the format's defaults
//! filled in.
//!
//! Every type here reads itself from JSON through [`FromJson`]. A member that
//! is absent takes the format's default; a member that is present and does not
//! have the shape asked for makes the whole entry unreadable.

use crate::error::{Feature, ImportError, Section};
use crate::importers::reader::{
    optional, or_default, outcome, read_optional, read_or, read_required, read_section, required,
    section_of, FromJson,
};
use crate::importers::Importer;
use crate::json::{member_trees, same_text, trees, Json, JsonTree};
use crate::text::{parsed, read_json};
use crate::{collected, lemma_collected_error, Mat4, Scalar, Vec3, Vec4, DOUBLE_HALF, DOUBLE_ONE};
use vstd::prelude::*;

verus! {

#[derive(Clone, Copy, Debug, PartialEq, Eq, Structural)]
pub enum AlphaMode {
    Opaque,
    Mask,
    Blend,
}

impl DeepView for AlphaMode {
    type V = AlphaMode;

    open spec fn deep_view(&self) -> AlphaMode {
        *self
    }
}

#[derive(Clone, Copy, Debug, PartialEq, Eq, Structural)]
pub enum Topology {
    Points,
    Lines,
    LineLoop,
    LineStrip,
    Triangles,
    TriangleStrip,
    TriangleFan,
}

impl DeepView for Topology {
    type V = Topology;

    open spec fn deep_view(&self) -> Topology {
        *self
    }
}

#[derive(Clone, Copy, Debug, PartialEq, Eq, Structural)]
pub enum ComponentType {
    Byte,
    UnsignedByte,
    Short,
    UnsignedShort,
    UnsignedInt,
    Float,
}

impl DeepView for ComponentType {
    type V = ComponentType;

    open spec fn deep_view(&self) -> ComponentType {
        *self
    }
}

#[derive(Clone, Copy, Debug, PartialEq, Eq, Structural)]
pub enum AccessorType {
    Scalar,
    Vec2,
    Vec3,
    Vec4,
    Mat2,
    Mat3,
    Mat4,
}

impl DeepView for AccessorType {
    type V = AccessorType;

    open spec fn deep_view(&self) -> AccessorType {
        *self
    }
}

#[derive(Clone, Copy, Debug, PartialEq, Eq, Structural)]
pub enum Target {
    ArrayBuffer,
    ElementArrayBuffer,
}

impl DeepView for Target {
    type V = Target;

    open spec fn deep_view(&self) -> Target {
        *self
    }
}

#[derive(Clone, Copy, Debug, PartialEq, Eq, Structural)]
pub enum TextureFilter {
    Nearest,
    Linear,
    NearestMipmapNearest,
    LinearMipmapNearest,
    NearestMipmapLinear,
    LinearMipmapLinear,
}

impl DeepView for TextureFilter {
    type V = TextureFilter;

    open spec fn deep_view(&self) -> TextureFilter {
        *self
    }
}

#[derive(Clone, Copy, Debug, PartialEq, Eq, Structural)]
pub enum TextureWrapMode {
    ClampToEdge,
    MirroredRepeat,
    Repeat,
}

impl DeepView for TextureWrapMode {
    type V = TextureWrapMode;

    open spec fn deep_view(&self) -> TextureWrapMode {
        *self
    }
}

/// The alpha mode that a word of the format names.
pub open spec fn alpha_mode_of(word: Seq<char>) -> Option<AlphaMode> {
    if word == "OPAQUE"@ {
        Some(AlphaMode::Opaque)
    } else if word == "MASK"@ {
        Some(AlphaMode::Mask)
    } else if word == "BLEND"@ {
        Some(AlphaMode::Blend)
    } else {
        None
    }
}

impl FromJson for AlphaMode {
    open spec fn parse(tree: JsonTree) -> Option<AlphaMode> {
        match tree.text() {
            Some(word) => alpha_mode_of(word),
            None => None,
        }
    }

    fn from_json(json: &Json) -> (r: Option<AlphaMode>) {
        match json.as_text() {
            Some(word) => {
                if same_text(word.as_str(), "OPAQUE") {
                    Some(AlphaMode::Opaque)
                } else if same_text(word.as_str(), "MASK") {
                    Some(AlphaMode::Mask)
                } else if same_text(word.as_str(), "BLEND") {
                    Some(AlphaMode::Blend)
                } else {
                    None
                }
            },
            None => None,
        }
    }
}

/// The topology that a code of the format names.
pub open spec fn topology_of(code: int) -> Option<Topology> {
    if code == 0 {
        Some(Topology::Points)
    } else if code == 1 {
        Some(Topology::Lines)
    } else if code == 2 {
        Some(Topology::LineLoop)
    } else if code == 3 {
        Some(Topology::LineStrip)
    } else if code == 4 {
        Some(Topology::Triangles)
    } else if code == 5 {
        Some(Topology::TriangleStrip)
    } else if code == 6 {
        Some(Topology::TriangleFan)
    } else {
        None
    }
}

impl FromJson for Topology {
    open spec fn parse(tree: JsonTree) -> Option<Topology> {
        match tree.integer() {
            Some(code) => topology_of(code as int),
            None => None,
        }
    }

    fn from_json(json: &Json) -> (r: Option<Topology>) {
        match json.as_integer() {
            Some(code) => match code {
                0 => Some(Topology::Points),
                1 => Some(Topology::Lines),
                2 => Some(Topology::LineLoop),
                3 => Some(Topology::LineStrip),
                4 => Some(Topology::Triangles),
                5 => Some(Topology::TriangleStrip),
                6 => Some(Topology::TriangleFan),
                _ => None,
            },
            None => None,
        }
    }
}

/// The component type that a code of the format names.
pub open spec fn component_type_of(code: int) -> Option<ComponentType> {
    if code == 5120 {
        Some(ComponentType::Byte)
    } else if code == 5121 {
        Some(ComponentType::UnsignedByte)
    } else if code == 5122 {
        Some(ComponentType::Short)
    } else if code == 5123 {
        Some(ComponentType::UnsignedShort)
    } else if code == 5125 {
        Some(ComponentType::UnsignedInt)
    } else if code == 5126 {
        Some(ComponentType::Float)
    } else {
        None
    }
}

impl FromJson for ComponentType {
    open spec fn parse(tree: JsonTree) -> Option<ComponentType> {
        match tree.integer() {
            Some(code) => component_type_of(code as int),
            None => None,
        }
    }

    fn from_json(json: &Json) -> (r: Option<ComponentType>) {
        match json.as_integer() {
            Some(code) => match code {
                5120 => Some(ComponentType::Byte),
                5121 => Some(ComponentType::UnsignedByte),
                5122 => Some(ComponentType::Short),
                5123 => Some(ComponentType::UnsignedShort),
                5125 => Some(ComponentType::UnsignedInt),
                5126 => Some(ComponentType::Float),
                _ => None,
            },
            None => None,
        }
    }
}

/// The accessor type that a word of the format names.
pub open spec fn accessor_type_of(word: Seq<char>) -> Option<AccessorType> {
    if word == "SCALAR"@ {
        Some(AccessorType::Scalar)
    } else if word == "VEC2"@ {
        Some(AccessorType::Vec2)
    } else if word == "VEC3"@ {
        Some(AccessorType::Vec3)
    } else if word == "VEC4"@ {
        Some(AccessorType::Vec4)
    } else if word == "MAT2"@ {
        Some(AccessorType::Mat2)
    } else if word == "MAT3"@ {
        Some(AccessorType::Mat3)
    } else if word == "MAT4"@ {
        Some(AccessorType::Mat4)
    } else {
        None
    }
}

impl FromJson for AccessorType {
    open spec fn parse(tree: JsonTree) -> Option<AccessorType> {
        match tree.text() {
            Some(word) => accessor_type_of(word),
            None => None,
        }
    }

    fn from_json(json: &Json) -> (r: Option<AccessorType>) {
        match json.as_text() {
            Some(word) => {
                if same_text(word.as_str(), "SCALAR") {
                    Some(AccessorType::Scalar)
                } else if same_text(word.as_str(), "VEC2") {
                    Some(AccessorType::Vec2)
                } else if same_text(word.as_str(), "VEC3") {
                    Some(AccessorType::Vec3)
                } else if same_text(word.as_str(), "VEC4") {
                    Some(AccessorType::Vec4)
                } else if same_text(word.as_str(), "MAT2") {
                    Some(AccessorType::Mat2)
                } else if same_text(word.as_str(), "MAT3") {
                    Some(AccessorType::Mat3)
                } else if same_text(word.as_str(), "MAT4") {
                    Some(AccessorType::Mat4)
                } else {
                    None
                }
            },
            None => None,
        }
    }
}

/// The buffer target that a code of the format names.
pub open spec fn target_of(code: int) -> Option<Target> {
    if code == 34962 {
        Some(Target::ArrayBuffer)
    } else if code == 34963 {
        Some(Target::ElementArrayBuffer)
    } else {
        None
    }
}

impl FromJson for Target {
    open spec fn parse(tree: JsonTree) -> Option<Target> {
        match tree.integer() {
            Some(code) => target_of(code as int),
            None => None,
        }
    }

    fn from_json(json: &Json) -> (r: Option<Target>) {
        match json.as_integer() {
            Some(code) => match code {
                34962 => Some(Target::ArrayBuffer),
                34963 => Some(Target::ElementArrayBuffer),
                _ => None,
            },
            None => None,
        }
    }
}

/// The texture filter that a code of the format names.
pub open spec fn texture_filter_of(code: int) -> Option<TextureFilter> {
    if code == 9728 {
        Some(TextureFilter::Nearest)
    } else if code == 9729 {
        Some(TextureFilter::Linear)
    } else if code == 9984 {
        Some(TextureFilter::NearestMipmapNearest)
    } else if code == 9985 {
        Some(TextureFilter::LinearMipmapNearest)
    } else if code == 9986 {
        Some(TextureFilter::NearestMipmapLinear)
    } else if code == 9987 {
        Some(TextureFilter::LinearMipmapLinear)
    } else {
        None
    }
}

/// The texture filter that a code of the format names.
pub fn get_texture_filter(value: i64) -> (r: Option<TextureFilter>)
    ensures
        r == texture_filter_of(value as int),
{
    match value {
        9728 => Some(TextureFilter::Nearest),
        9729 => Some(TextureFilter::Linear),
        9984 => Some(TextureFilter::NearestMipmapNearest),
        9985 => Some(TextureFilter::LinearMipmapNearest),
        9986 => Some(TextureFilter::NearestMipmapLinear),
        9987 => Some(TextureFilter::LinearMipmapLinear),
        _ => None,
    }
}

impl FromJson for TextureFilter {
    open spec fn parse(tree: JsonTree) -> Option<TextureFilter> {
        match tree.integer() {
            Some(code) => texture_filter_of(code as int),
            None => None,
        }
    }

    fn from_json(json: &Json) -> (r: Option<TextureFilter>) {
        match json.as_integer() {
            Some(code) => get_texture_filter(code),
            None => None,
        }
    }
}

/// The wrap mode that a code of the format names.
pub open spec fn wrap_mode_of(code: int) -> Option<TextureWrapMode> {
    if code == 33071 {
        Some(TextureWrapMode::ClampToEdge)
    } else if code == 33648 {
        Some(TextureWrapMode::MirroredRepeat)
    } else if code == 10497 {
        Some(TextureWrapMode::Repeat)
    } else {
        None
    }
}

/// The wrap mode that a code of the format names.
pub fn get_wrap_mode(value: i64) -> (r: Option<TextureWrapMode>)
    ensures
        r == wrap_mode_of(value as int),
{
    match value {
        33071 => Some(TextureWrapMode::ClampToEdge),
        33648 => Some(TextureWrapMode::MirroredRepeat),
        10497 => Some(TextureWrapMode::Repeat),
        _ => None,
    }
}

impl FromJson for TextureWrapMode {
    open spec fn parse(tree: JsonTree) -> Option<TextureWrapMode> {
        match tree.integer() {
            Some(code) => wrap_mode_of(code as int),
            None => None,
        }
    }

    fn from_json(json: &Json) -> (r: Option<TextureWrapMode>) {
        match json.as_integer() {
            Some(code) => get_wrap_mode(code),
            None => None,
        }
    }
}

/// The number at place `i` of `items`, if there is one.
pub open spec fn scalar_at(items: Seq<JsonTree>, i: int) -> Option<Scalar> {
    if 0 <= i < items.len() {
        Scalar::parse(items[i])
    } else {
        None
    }
}

fn read_scalar_at(items: &Vec<Json>, i: usize) -> (r: Option<Scalar>)
    ensures
        r == scalar_at(trees(items@), i as int),
{
    if i < items.len() {
        Scalar::from_json(&items[i])
    } else {
        None
    }
}

impl FromJson for Vec3 {
    /// An array that begins with three numbers.
    open spec fn parse(tree: JsonTree) -> Option<Vec3> {
        match tree.items() {
            Some(items) => {
                let x = scalar_at(items, 0);
                let y = scalar_at(items, 1);
                let z = scalar_at(items, 2);
                if x is Some && y is Some && z is Some {
                    Some(Vec3 { x: x->0, y: y->0, z: z->0 })
                } else {
                    None
                }
            },
            None => None,
        }
    }

    fn from_json(json: &Json) -> (r: Option<Vec3>) {
        let items = json.as_array()?;
        let x = read_scalar_at(items, 0)?;
        let y = read_scalar_at(items, 1)?;
        let z = read_scalar_at(items, 2)?;
        Some(Vec3 { x, y, z })
    }
}

impl FromJson for Vec4 {
    /// An array that begins with four numbers.
    open spec fn parse(tree: JsonTree) -> Option<Vec4> {
        match tree.items() {
            Some(items) => {
                let x = scalar_at(items, 0);
                let y = scalar_at(items, 1);
                let z = scalar_at(items, 2);
                let w = scalar_at(items, 3);
                if x is Some && y is Some && z is Some && w is Some {
                    Some(Vec4 { x: x->0, y: y->0, z: z->0, w: w->0 })
                } else {
                    None
                }
            },
            None => None,
        }
    }

    fn from_json(json: &Json) -> (r: Option<Vec4>) {
        let items = json.as_array()?;
        let x = read_scalar_at(items, 0)?;
        let y = read_scalar_at(items, 1)?;
        let z = read_scalar_at(items, 2)?;
        let w = read_scalar_at(items, 3)?;
        Some(Vec4 { x, y, z, w })
    }
}

impl FromJson for Mat4 {
    /// An array that begins with sixteen numbers, taken in the order of the fields.
    open spec fn parse(tree: JsonTree) -> Option<Mat4> {
        match tree.items() {
            Some(items) => {
                let m11 = scalar_at(items, 0);
                let m12 = scalar_at(items, 1);
                let m13 = scalar_at(items, 2);
                let m14 = scalar_at(items, 3);
                let m21 = scalar_at(items, 4);
                let m22 = scalar_at(items, 5);
                let m23 = scalar_at(items, 6);
                let m24 = scalar_at(items, 7);
                let m31 = scalar_at(items, 8);
                let m32 = scalar_at(items, 9);
                let m33 = scalar_at(items, 10);
                let m34 = scalar_at(items, 11);
                let m41 = scalar_at(items, 12);
                let m42 = scalar_at(items, 13);
                let m43 = scalar_at(items, 14);
                let m44 = scalar_at(items, 15);
                if m11 is Some
                    && m12 is Some
                    && m13 is Some
                    && m14 is Some
                    && m21 is Some
                    && m22 is Some
                    && m23 is Some
                    && m24 is Some
                    && m31 is Some
                    && m32 is Some
                    && m33 is Some
                    && m34 is Some
                    && m41 is Some
                    && m42 is Some
                    && m43 is Some
                    && m44 is Some {
                    Some(
                        Mat4 {
                            m11: m11->0,
                            m12: m12->0,
                            m13: m13->0,
                            m14: m14->0,
                            m21: m21->0,
                            m22: m22->0,
                            m23: m23->0,
                            m24: m24->0,
                            m31: m31->0,
                            m32: m32->0,
                            m33: m33->0,
                            m34: m34->0,
                            m41: m41->0,
                            m42: m42->0,
                            m43: m43->0,
                            m44: m44->0,
                        },
                    )
                } else {
                    None
                }
            },
            None => None,
        }
    }

    fn from_json(json: &Json) -> (r: Option<Mat4>) {
        let items = json.as_array()?;
        let m11 = read_scalar_at(items, 0)?;
        let m12 = read_scalar_at(items, 1)?;
        let m13 = read_scalar_at(items, 2)?;
        let m14 = read_scalar_at(items, 3)?;
        let m21 = read_scalar_at(items, 4)?;
        let m22 = read_scalar_at(items, 5)?;
        let m23 = read_scalar_at(items, 6)?;
        let m24 = read_scalar_at(items, 7)?;
        let m31 = read_scalar_at(items, 8)?;
        let m32 = read_scalar_at(items, 9)?;
        let m33 = read_scalar_at(items, 10)?;
        let m34 = read_scalar_at(items, 11)?;
        let m41 = read_scalar_at(items, 12)?;
        let m42 = read_scalar_at(items, 13)?;
        let m43 = read_scalar_at(items, 14)?;
        let m44 = read_scalar_at(items, 15)?;
        Some(Mat4 { m11, m12, m13, m14, m21, m22, m23, m24, m31, m32, m33, m34, m41, m42, m43, m44 })
    }
}

/// The identity matrix, in double precision.
pub open spec fn identity() -> Mat4 {
    let o = Scalar::Double(DOUBLE_ONE);
    let z = Scalar::Double(0);
    Mat4 {
        m11: o, m12: z, m13: z, m14: z,
        m21: z, m22: o, m23: z, m24: z,
        m31: z, m32: z, m33: o, m34: z,
        m41: z, m42: z, m43: z, m44: o,
    }
}

fn make_identity() -> (r: Mat4)
    ensures
        r == identity(),
{
    let o = Scalar::Double(DOUBLE_ONE);
    let z = Scalar::Double(0);
    Mat4 {
        m11: o, m12: z, m13: z, m14: z,
        m21: z, m22: o, m23: z, m24: z,
        m31: z, m32: z, m33: o, m34: z,
        m41: z, m42: z, m43: z, m44: o,
    }
}

/// Numbers in double precision, as a vector of three.
pub open spec fn double3(x: u64, y: u64, z: u64) -> Vec3 {
    Vec3 { x: Scalar::Double(x), y: Scalar::Double(y), z: Scalar::Double(z) }
}

/// Numbers in double precision, as a vector of four.
pub open spec fn double4(x: u64, y: u64, z: u64, w: u64) -> Vec4 {
    Vec4 { x: Scalar::Double(x), y: Scalar::Double(y), z: Scalar::Double(z), w: Scalar::Double(w) }
}

fn make3(x: u64, y: u64, z: u64) -> (r: Vec3)
    ensures
        r == double3(x, y, z),
{
    Vec3 { x: Scalar::Double(x), y: Scalar::Double(y), z: Scalar::Double(z) }
}

fn make4(x: u64, y: u64, z: u64, w: u64) -> (r: Vec4)
    ensures
        r == double4(x, y, z, w),
{
    Vec4 { x: Scalar::Double(x), y: Scalar::Double(y), z: Scalar::Double(z), w: Scalar::Double(w) }
}

/// What made the document, and for which version of the format.
#[derive(Clone, Debug, PartialEq, Eq)]
pub struct Asset {
    pub version: String,
    pub copyright: Option<String>,
    pub generator: Option<String>,
    pub min_version: Option<String>,
}

pub ghost struct AssetModel {
    pub version: Seq<char>,
    pub copyright: Option<Seq<char>>,
    pub generator: Option<Seq<char>>,
    pub min_version: Option<Seq<char>>,
}

impl DeepView for Asset {
    type V = AssetModel;

    open spec fn deep_view(&self) -> AssetModel {
        AssetModel {
            version: self.version.deep_view(),
            copyright: self.copyright.deep_view(),
            generator: self.generator.deep_view(),
            min_version: self.min_version.deep_view(),
        }
    }
}

impl FromJson for Asset {
    open spec fn parse(tree: JsonTree) -> Option<AssetModel> {
        let version = required::<String>(tree, "version"@);
        let copyright = optional::<String>(tree, "copyright"@);
        let generator = optional::<String>(tree, "generator"@);
        let min_version = optional::<String>(tree, "minVersion"@);
        if version is Some
            && copyright is Some
            && generator is Some
            && min_version is Some {
            Some(
                AssetModel {
                    version: version->0,
                    copyright: copyright->0,
                    generator: generator->0,
                    min_version: min_version->0,
                },
            )
        } else {
            None
        }
    }

    fn from_json(json: &Json) -> (r: Option<Asset>) {
        let version = read_required::<String>(json, "version")?;
        let copyright = read_optional::<String>(json, "copyright")?;
        let generator = read_optional::<String>(json, "generator")?;
        let min_version = read_optional::<String>(json, "minVersion")?;
        Some(Asset { version, copyright, generator, min_version })
    }
}

/// A set of root nodes.
#[derive(Clone, Debug, PartialEq, Eq)]
pub struct Scene {
    pub nodes: Option<Vec<i32>>,
    pub name: Option<String>,
}

pub ghost struct SceneModel {
    pub nodes: Option<Seq<i32>>,
    pub name: Option<Seq<char>>,
}

impl DeepView for Scene {
    type V = SceneModel;

    open spec fn deep_view(&self) -> SceneModel {
        SceneModel {
            nodes: self.nodes.deep_view(),
            name: self.name.deep_view(),
        }
    }
}

impl FromJson for Scene {
    open spec fn parse(tree: JsonTree) -> Option<SceneModel> {
        let nodes = optional::<Vec<i32>>(tree, "nodes"@);
        let name = optional::<String>(tree, "name"@);
        if nodes is Some
            && name is Some {
            Some(
                SceneModel {
                    nodes: nodes->0,
                    name: name->0,
                },
            )
        } else {
            None
        }
    }

    fn from_json(json: &Json) -> (r: Option<Scene>) {
        let nodes = read_optional::<Vec<i32>>(json, "nodes")?;
        let name = read_optional::<String>(json, "name")?;
        Some(Scene { nodes, name })
    }
}

/// A node of the scene graph. Its transform is kept as written: the matrix and
/// the three parts are not combined.
#[derive(Clone, Debug, PartialEq, Eq)]
pub struct Node {
    pub camera: Option<i32>,
    pub children: Option<Vec<i32>>,
    pub skin: Option<i32>,
    pub matrix: Mat4,
    pub mesh: Option<i32>,
    pub rotation: Vec4,
    pub scale: Vec3,
    pub translation: Vec3,
    pub weights: Option<Vec<Scalar>>,
    pub name: Option<String>,
}

pub ghost struct NodeModel {
    pub camera: Option<i32>,
    pub children: Option<Seq<i32>>,
    pub skin: Option<i32>,
    pub matrix: Mat4,
    pub mesh: Option<i32>,
    pub rotation: Vec4,
    pub scale: Vec3,
    pub translation: Vec3,
    pub weights: Option<Seq<Scalar>>,
    pub name: Option<Seq<char>>,
}

impl DeepView for Node {
    type V = NodeModel;

    open spec fn deep_view(&self) -> NodeModel {
        NodeModel {
            camera: self.camera.deep_view(),
            children: self.children.deep_view(),
            skin: self.skin.deep_view(),
            matrix: self.matrix.deep_view(),
            mesh: self.mesh.deep_view(),
            rotation: self.rotation.deep_view(),
            scale: self.scale.deep_view(),
            translation: self.translation.deep_view(),
            weights: self.weights.deep_view(),
            name: self.name.deep_view(),
        }
    }
}

impl FromJson for Node {
    open spec fn parse(tree: JsonTree) -> Option<NodeModel> {
        let camera = optional::<i32>(tree, "camera"@);
        let children = optional::<Vec<i32>>(tree, "children"@);
        let skin = optional::<i32>(tree, "skin"@);
        let matrix = or_default::<Mat4>(tree, "matrix"@, identity());
        let mesh = optional::<i32>(tree, "mesh"@);
        let rotation = or_default::<Vec4>(tree, "rotation"@, double4(0, 0, 0, DOUBLE_ONE));
        let scale = or_default::<Vec3>(tree, "scale"@, double3(DOUBLE_ONE, DOUBLE_ONE, DOUBLE_ONE));
        let translation = or_default::<Vec3>(tree, "translation"@, double3(0, 0, 0));
        let weights = optional::<Vec<Scalar>>(tree, "weights"@);
        let name = optional::<String>(tree, "name"@);
        if camera is Some
            && children is Some
            && skin is Some
            && matrix is Some
            && mesh is Some
            && rotation is Some
            && scale is Some
            && translation is Some
            && weights is Some
            && name is Some {
            Some(
                NodeModel {
                    camera: camera->0,
                    children: children->0,
                    skin: skin->0,
                    matrix: matrix->0,
                    mesh: mesh->0,
                    rotation: rotation->0,
                    scale: scale->0,
                    translation: translation->0,
                    weights: weights->0,
                    name: name->0,
                },
            )
        } else {
            None
        }
    }

    fn from_json(json: &Json) -> (r: Option<Node>) {
        let camera = read_optional::<i32>(json, "camera")?;
        let children = read_optional::<Vec<i32>>(json, "children")?;
        let skin = read_optional::<i32>(json, "skin")?;
        let matrix = read_or::<Mat4>(json, "matrix", make_identity())?;
        let mesh = read_optional::<i32>(json, "mesh")?;
        let rotation = read_or::<Vec4>(json, "rotation", make4(0, 0, 0, DOUBLE_ONE))?;
        let scale = read_or::<Vec3>(json, "scale", make3(DOUBLE_ONE, DOUBLE_ONE, DOUBLE_ONE))?;
        let translation = read_or::<Vec3>(json, "translation", make3(0, 0, 0))?;
        let weights = read_optional::<Vec<Scalar>>(json, "weights")?;
        let name = read_optional::<String>(json, "name")?;
        Some(Node { camera, children, skin, matrix, mesh, rotation, scale, translation, weights, name })
    }
}

/// A reference to a texture. `scalar` is the `scale` of a normal texture or the
/// `strength` of an occlusion texture, and 1 where neither is written.
#[derive(Clone, Copy, Debug, PartialEq, Eq, Structural)]
pub struct TextureInfo {
    pub index: i32,
    pub tex_coord: i32,
    pub scalar: Scalar,
}

impl DeepView for TextureInfo {
    type V = TextureInfo;

    open spec fn deep_view(&self) -> TextureInfo {
        *self
    }
}

/// What `tree` reads as, as a reference to a texture. `index` must be there;
/// `scale` is looked at before `strength`.
pub open spec fn texture_info_of(tree: JsonTree) -> Option<TextureInfo> {
    let index = required::<i32>(tree, "index"@);
    let tex_coord = or_default::<i32>(tree, "texCoord"@, 0);
    let scalar = if tree.field("scale"@) is Some {
        required::<Scalar>(tree, "scale"@)
    } else {
        or_default::<Scalar>(tree, "strength"@, Scalar::Double(DOUBLE_ONE))
    };
    if index is Some && tex_coord is Some && scalar is Some {
        Some(TextureInfo { index: index->0, tex_coord: tex_coord->0, scalar: scalar->0 })
    } else {
        None
    }
}

/// Reads a reference to a texture.
pub fn get_texture_info(value: &Json) -> (r: Option<TextureInfo>)
    ensures
        r == texture_info_of(value@),
{
    let index = read_required::<i32>(value, "index")?;
    let tex_coord = read_or::<i32>(value, "texCoord", 0)?;
    let scalar = if value.get("scale").is_some() {
        read_required::<Scalar>(value, "scale")?
    } else {
        read_or::<Scalar>(value, "strength", Scalar::Double(DOUBLE_ONE))?
    };
    Some(TextureInfo { index, tex_coord, scalar })
}

impl FromJson for TextureInfo {
    open spec fn parse(tree: JsonTree) -> Option<TextureInfo> {
        texture_info_of(tree)
    }

    fn from_json(json: &Json) -> (r: Option<TextureInfo>) {
        get_texture_info(json)
    }
}

/// The metallic-roughness description of a surface.
#[derive(Clone, Copy, Debug, PartialEq, Eq, Structural)]
pub struct PbrMetallicRoughness {
    pub base_color_factor: Vec4,
    pub base_color_texture: Option<TextureInfo>,
    pub metallic_factor: Scalar,
    pub roughness_factor: Scalar,
    pub metallic_roughness_texture: Option<TextureInfo>,
}

impl DeepView for PbrMetallicRoughness {
    type V = PbrMetallicRoughness;

    open spec fn deep_view(&self) -> PbrMetallicRoughness {
        *self
    }
}

impl FromJson for PbrMetallicRoughness {
    open spec fn parse(tree: JsonTree) -> Option<PbrMetallicRoughness> {
        let base_color_factor = or_default::<Vec4>(
            tree,
            "baseColorFactor"@,
            double4(DOUBLE_ONE, DOUBLE_ONE, DOUBLE_ONE, DOUBLE_ONE),
        );
        let base_color_texture = optional::<TextureInfo>(tree, "baseColorTexture"@);
        let metallic_factor = or_default::<Scalar>(tree, "metallicFactor"@, Scalar::Double(DOUBLE_ONE));
        let roughness_factor = or_default::<Scalar>(tree, "roughnessFactor"@, Scalar::Double(DOUBLE_ONE));
        let metallic_roughness_texture = optional::<TextureInfo>(tree, "metallicRoughnessTexture"@);
        if base_color_factor is Some
            && base_color_texture is Some
            && metallic_factor is Some
            && roughness_factor is Some
            && metallic_roughness_texture is Some {
            Some(
                PbrMetallicRoughness {
                    base_color_factor: base_color_factor->0,
                    base_color_texture: base_color_texture->0,
                    metallic_factor: metallic_factor->0,
                    roughness_factor: roughness_factor->0,
                    metallic_roughness_texture: metallic_roughness_texture->0,
                },
            )
        } else {
            None
        }
    }

    fn from_json(json: &Json) -> (r: Option<PbrMetallicRoughness>) {
        let base_color_factor = read_or::<Vec4>(
            json,
            "baseColorFactor",
            make4(DOUBLE_ONE, DOUBLE_ONE, DOUBLE_ONE, DOUBLE_ONE),
        )?;
        let base_color_texture = read_optional::<TextureInfo>(json, "baseColorTexture")?;
        let metallic_factor = read_or::<Scalar>(json, "metallicFactor", Scalar::Double(DOUBLE_ONE))?;
        let roughness_factor = read_or::<Scalar>(json, "roughnessFactor", Scalar::Double(DOUBLE_ONE))?;
        let metallic_roughness_texture = read_optional::<TextureInfo>(json, "metallicRoughnessTexture")?;
        Some(
            PbrMetallicRoughness {
                base_color_factor,
                base_color_texture,
                metallic_factor,
                roughness_factor,
                metallic_roughness_texture,
            },
        )
    }
}

/// A material as the document describes it.
#[derive(Clone, Debug, PartialEq, Eq)]
pub struct Material {
    pub name: Option<String>,
    pub pbr_metallic_roughness: Option<PbrMetallicRoughness>,
    pub normal_texture: Option<TextureInfo>,
    pub occlusion_texture: Option<TextureInfo>,
    pub emissive_texture: Option<TextureInfo>,
    pub emissive_factor: Vec3,
    pub alpha_mode: AlphaMode,
    pub alpha_cutoff: Scalar,
    pub double_sided: bool,
}

pub ghost struct MaterialModel {
    pub name: Option<Seq<char>>,
    pub pbr_metallic_roughness: Option<PbrMetallicRoughness>,
    pub normal_texture: Option<TextureInfo>,
    pub occlusion_texture: Option<TextureInfo>,
    pub emissive_texture: Option<TextureInfo>,
    pub emissive_factor: Vec3,
    pub alpha_mode: AlphaMode,
    pub alpha_cutoff: Scalar,
    pub double_sided: bool,
}

impl DeepView for Material {
    type V = MaterialModel;

    open spec fn deep_view(&self) -> MaterialModel {
        MaterialModel {
            name: self.name.deep_view(),
            pbr_metallic_roughness: self.pbr_metallic_roughness.deep_view(),
            normal_texture: self.normal_texture.deep_view(),
            occlusion_texture: self.occlusion_texture.deep_view(),
            emissive_texture: self.emissive_texture.deep_view(),
            emissive_factor: self.emissive_factor.deep_view(),
            alpha_mode: self.alpha_mode.deep_view(),
            alpha_cutoff: self.alpha_cutoff.deep_view(),
            double_sided: self.double_sided.deep_view(),
        }
    }
}

impl FromJson for Material {
    open spec fn parse(tree: JsonTree) -> Option<MaterialModel> {
        let name = optional::<String>(tree, "name"@);
        let pbr_metallic_roughness = optional::<PbrMetallicRoughness>(tree, "pbrMetallicRoughness"@);
        let normal_texture = optional::<TextureInfo>(tree, "normalTexture"@);
        let occlusion_texture = optional::<TextureInfo>(tree, "occlusionTexture"@);
        let emissive_texture = optional::<TextureInfo>(tree, "emissiveTexture"@);
        let emissive_factor = or_default::<Vec3>(tree, "emissiveFactor"@, double3(0, 0, 0));
        let alpha_mode = or_default::<AlphaMode>(tree, "alphaMode"@, AlphaMode::Opaque);
        let alpha_cutoff = or_default::<Scalar>(tree, "alphaCutoff"@, Scalar::Double(DOUBLE_HALF));
        let double_sided = or_default::<bool>(tree, "doubleSided"@, false);
        if name is Some
            && pbr_metallic_roughness is Some
            && normal_texture is Some
            && occlusion_texture is Some
            && emissive_texture is Some
            && emissive_factor is Some
            && alpha_mode is Some
            && alpha_cutoff is Some
            && double_sided is Some {
            Some(
                MaterialModel {
                    name: name->0,
                    pbr_metallic_roughness: pbr_metallic_roughness->0,
                    normal_texture: normal_texture->0,
                    occlusion_texture: occlusion_texture->0,
                    emissive_texture: emissive_texture->0,
                    emissive_factor: emissive_factor->0,
                    alpha_mode: alpha_mode->0,
                    alpha_cutoff: alpha_cutoff->0,
                    double_sided: double_sided->0,
                },
            )
        } else {
            None
        }
    }

    fn from_json(json: &Json) -> (r: Option<Material>) {
        let name = read_optional::<String>(json, "name")?;
        let pbr_metallic_roughness = read_optional::<PbrMetallicRoughness>(json, "pbrMetallicRoughness")?;
        let normal_texture = read_optional::<TextureInfo>(json, "normalTexture")?;
        let occlusion_texture = read_optional::<TextureInfo>(json, "occlusionTexture")?;
        let emissive_texture = read_optional::<TextureInfo>(json, "emissiveTexture")?;
        let emissive_factor = read_or::<Vec3>(json, "emissiveFactor", make3(0, 0, 0))?;
        let alpha_mode = read_or::<AlphaMode>(json, "alphaMode", AlphaMode::Opaque)?;
        let alpha_cutoff = read_or::<Scalar>(json, "alphaCutoff", Scalar::Double(DOUBLE_HALF))?;
        let double_sided = read_or::<bool>(json, "doubleSided", false)?;
        Some(
            Material {
                name,
                pbr_metallic_roughness,
                normal_texture,
                occlusion_texture,
                emissive_texture,
                emissive_factor,
                alpha_mode,
                alpha_cutoff,
                double_sided,
            },
        )
    }
}

/// The first `n` of `members`, each read as the name of an attribute and the
/// index of its accessor; nothing if one of them is no such index.
pub open spec fn attributes_prefix(members: Seq<(Seq<char>, JsonTree)>, n: int) -> Option<
    Seq<(Seq<char>, i32)>,
>
    decreases n,
{
    if n <= 0 {
        Some(Seq::empty())
    } else {
        match (attributes_prefix(members, n - 1), i32::parse(members[n - 1].1)) {
            (Some(done), Some(index)) => Some(done.push((members[n - 1].0, index))),
            _ => None,
        }
    }
}

/// The attributes of a primitive: the members of its `attributes` object, in
/// the order in which the object holds them.
pub open spec fn attributes_of(tree: JsonTree) -> Option<Seq<(Seq<char>, i32)>> {
    match tree.field("attributes"@) {
        Some(v) => match v.members() {
            Some(members) => attributes_prefix(members, members.len() as int),
            None => None,
        },
        None => None,
    }
}

/// Once a member has failed, reading further changes nothing.
pub proof fn lemma_attributes_fail(members: Seq<(Seq<char>, JsonTree)>, m: int, n: int)
    requires
        attributes_prefix(members, m) is None,
        m <= n,
    ensures
        attributes_prefix(members, n) is None,
    decreases n - m,
{
    if m < n {
        lemma_attributes_fail(members, m, n - 1);
    }
}

fn read_attributes(json: &Json) -> (r: Option<Vec<(String, i32)>>)
    ensures
        r.deep_view() == attributes_of(json@),
{
    let members = json.get("attributes")?.as_object()?;
    let mut out: Vec<(String, i32)> = Vec::new();
    let mut i: usize = 0;
    assert(out.deep_view() =~= Seq::<(Seq<char>, i32)>::empty());
    while i < members.len()
        invariant
            i <= members.len(),
            attributes_of(json@) == attributes_prefix(member_trees(members@), members@.len() as int),
            attributes_prefix(member_trees(members@), i as int) == Some(out.deep_view()),
        decreases members.len() - i,
    {
        assert(member_trees(members@)[i as int] == (members@[i as int].0@, members@[i as int].1@));
        match i32::from_json(&members[i].1) {
            Some(index) => {
                let ghost before = out.deep_view();
                let name = members[i].0.clone();
                out.push((name, index));
                assert(out.deep_view() =~= before.push((members@[i as int].0@, index)));
            },
            None => {
                proof {
                    assert(i32::parse(member_trees(members@)[i as int].1) is None);
                    assert(attributes_prefix(member_trees(members@), i + 1) is None);
                    lemma_attributes_fail(member_trees(members@), i + 1, members@.len() as int);
                }
                return None;
            },
        }
        i += 1;
    }
    Some(out)
}

/// One drawable piece of a mesh. `attributes` pairs each semantic name with the
/// index of its accessor, in the order of the document's object.
#[derive(Clone, Debug, PartialEq, Eq)]
pub struct MeshPrimitive {
    pub attributes: Vec<(String, i32)>,
    pub indices: Option<i32>,
    pub material: Option<i32>,
    pub mode: Topology,
}

pub ghost struct MeshPrimitiveModel {
    pub attributes: Seq<(Seq<char>, i32)>,
    pub indices: Option<i32>,
    pub material: Option<i32>,
    pub mode: Topology,
}

impl DeepView for MeshPrimitive {
    type V = MeshPrimitiveModel;

    open spec fn deep_view(&self) -> MeshPrimitiveModel {
        MeshPrimitiveModel {
            attributes: self.attributes.deep_view(),
            indices: self.indices.deep_view(),
            material: self.material.deep_view(),
            mode: self.mode.deep_view(),
        }
    }
}

impl FromJson for MeshPrimitive {
    open spec fn parse(tree: JsonTree) -> Option<MeshPrimitiveModel> {
        let attributes = attributes_of(tree);
        let indices = optional::<i32>(tree, "indices"@);
        let material = optional::<i32>(tree, "material"@);
        let mode = or_default::<Topology>(tree, "mode"@, Topology::Triangles);
        if attributes is Some
            && indices is Some
            && material is Some
            && mode is Some {
            Some(
                MeshPrimitiveModel {
                    attributes: attributes->0,
                    indices: indices->0,
                    material: material->0,
                    mode: mode->0,
                },
            )
        } else {
            None
        }
    }

    fn from_json(json: &Json) -> (r: Option<MeshPrimitive>) {
        let attributes = read_attributes(json)?;
        let indices = read_optional::<i32>(json, "indices")?;
        let material = read_optional::<i32>(json, "material")?;
        let mode = read_or::<Topology>(json, "mode", Topology::Triangles)?;
        Some(MeshPrimitive { attributes, indices, material, mode })
    }
}

/// A mesh as the document describes it.
#[derive(Clone, Debug, PartialEq, Eq)]
pub struct Mesh {
    pub primitives: Vec<MeshPrimitive>,
    pub weights: Option<Vec<Scalar>>,
    pub name: Option<String>,
}

pub ghost struct MeshModel {
    pub primitives: Seq<MeshPrimitiveModel>,
    pub weights: Option<Seq<Scalar>>,
    pub name: Option<Seq<char>>,
}

impl DeepView for Mesh {
    type V = MeshModel;

    open spec fn deep_view(&self) -> MeshModel {
        MeshModel {
            primitives: self.primitives.deep_view(),
            weights: self.weights.deep_view(),
            name: self.name.deep_view(),
        }
    }
}

impl FromJson for Mesh {
    open spec fn parse(tree: JsonTree) -> Option<MeshModel> {
        let primitives = required::<Vec<MeshPrimitive>>(tree, "primitives"@);
        let weights = optional::<Vec<Scalar>>(tree, "weights"@);
        let name = optional::<String>(tree, "name"@);
        if primitives is Some
            && weights is Some
            && name is Some {
            Some(
                MeshModel {
                    primitives: primitives->0,
                    weights: weights->0,
                    name: name->0,
                },
            )
        } else {
            None
        }
    }

    fn from_json(json: &Json) -> (r: Option<Mesh>) {
        let primitives = read_required::<Vec<MeshPrimitive>>(json, "primitives")?;
        let weights = read_optional::<Vec<Scalar>>(json, "weights")?;
        let name = read_optional::<String>(json, "name")?;
        Some(Mesh { primitives, weights, name })
    }
}

/// A texture: an image and how to sample it.
#[derive(Clone, Debug, PartialEq, Eq)]
pub struct Texture {
    pub sampler: Option<i32>,
    pub source: Option<i32>,
    pub name: Option<String>,
}

pub ghost struct TextureModel {
    pub sampler: Option<i32>,
    pub source: Option<i32>,
    pub name: Option<Seq<char>>,
}

impl DeepView for Texture {
    type V = TextureModel;

    open spec fn deep_view(&self) -> TextureModel {
        TextureModel {
            sampler: self.sampler.deep_view(),
            source: self.source.deep_view(),
            name: self.name.deep_view(),
        }
    }
}

impl FromJson for Texture {
    open spec fn parse(tree: JsonTree) -> Option<TextureModel> {
        let sampler = optional::<i32>(tree, "sampler"@);
        let source = optional::<i32>(tree, "source"@);
        let name = optional::<String>(tree, "name"@);
        if sampler is Some
            && source is Some
            && name is Some {
            Some(
                TextureModel {
                    sampler: sampler->0,
                    source: source->0,
                    name: name->0,
                },
            )
        } else {
            None
        }
    }

    fn from_json(json: &Json) -> (r: Option<Texture>) {
        let sampler = read_optional::<i32>(json, "sampler")?;
        let source = read_optional::<i32>(json, "source")?;
        let name = read_optional::<String>(json, "name")?;
        Some(Texture { sampler, source, name })
    }
}

/// An image, by its location or by the buffer view that holds it.
#[derive(Clone, Debug, PartialEq, Eq)]
pub struct Image {
    pub uri: Option<String>,
    pub mime_type: Option<String>,
    pub buffer_view: Option<i32>,
    pub name: Option<String>,
}

pub ghost struct ImageModel {
    pub uri: Option<Seq<char>>,
    pub mime_type: Option<Seq<char>>,
    pub buffer_view: Option<i32>,
    pub name: Option<Seq<char>>,
}

impl DeepView for Image {
    type V = ImageModel;

    open spec fn deep_view(&self) -> ImageModel {
        ImageModel {
            uri: self.uri.deep_view(),
            mime_type: self.mime_type.deep_view(),
            buffer_view: self.buffer_view.deep_view(),
            name: self.name.deep_view(),
        }
    }
}

impl FromJson for Image {
    open spec fn parse(tree: JsonTree) -> Option<ImageModel> {
        let uri = optional::<String>(tree, "uri"@);
        let mime_type = optional::<String>(tree, "mimeType"@);
        let buffer_view = optional::<i32>(tree, "bufferView"@);
        let name = optional::<String>(tree, "name"@);
        if uri is Some
            && mime_type is Some
            && buffer_view is Some
            && name is Some {
            Some(
                ImageModel {
                    uri: uri->0,
                    mime_type: mime_type->0,
                    buffer_view: buffer_view->0,
                    name: name->0,
                },
            )
        } else {
            None
        }
    }

    fn from_json(json: &Json) -> (r: Option<Image>) {
        let uri = read_optional::<String>(json, "uri")?;
        let mime_type = read_optional::<String>(json, "mimeType")?;
        let buffer_view = read_optional::<i32>(json, "bufferView")?;
        let name = read_optional::<String>(json, "name")?;
        Some(Image { uri, mime_type, buffer_view, name })
    }
}

/// Where the places of a sparse accessor's replacements are stored.
#[derive(Clone, Copy, Debug, PartialEq, Eq, Structural)]
pub struct AccessorSparseIndices {
    pub buffer_view: i32,
    pub byte_offset: i32,
    pub component_type: ComponentType,
}

impl DeepView for AccessorSparseIndices {
    type V = AccessorSparseIndices;

    open spec fn deep_view(&self) -> AccessorSparseIndices {
        *self
    }
}

impl FromJson for AccessorSparseIndices {
    /// The places are unsigned integers: no other component type is read.
    open spec fn parse(tree: JsonTree) -> Option<AccessorSparseIndices> {
        let buffer_view = required::<i32>(tree, "bufferView"@);
        let byte_offset = or_default::<i32>(tree, "byteOffset"@, 0);
        let component_type = required::<ComponentType>(tree, "componentType"@);
        if buffer_view is Some
            && byte_offset is Some
            && component_type is Some
            && is_index_type(component_type->0) {
            Some(
                AccessorSparseIndices {
                    buffer_view: buffer_view->0,
                    byte_offset: byte_offset->0,
                    component_type: component_type->0,
                },
            )
        } else {
            None
        }
    }

    fn from_json(json: &Json) -> (r: Option<AccessorSparseIndices>) {
        let buffer_view = read_required::<i32>(json, "bufferView")?;
        let byte_offset = read_or::<i32>(json, "byteOffset", 0)?;
        let component_type = read_required::<ComponentType>(json, "componentType")?;
        match component_type {
            ComponentType::UnsignedByte | ComponentType::UnsignedShort | ComponentType::UnsignedInt => {},
            _ => {
                return None;
            },
        }
        Some(AccessorSparseIndices { buffer_view, byte_offset, component_type })
    }
}

/// Where the replacements of a sparse accessor are stored.
#[derive(Clone, Copy, Debug, PartialEq, Eq, Structural)]
pub struct AccessorSparseValues {
    pub buffer_view: i32,
    pub byte_offset: i32,
}

impl DeepView for AccessorSparseValues {
    type V = AccessorSparseValues;

    open spec fn deep_view(&self) -> AccessorSparseValues {
        *self
    }
}

impl FromJson for AccessorSparseValues {
    open spec fn parse(tree: JsonTree) -> Option<AccessorSparseValues> {
        let buffer_view = required::<i32>(tree, "bufferView"@);
        let byte_offset = or_default::<i32>(tree, "byteOffset"@, 0);
        if buffer_view is Some
            && byte_offset is Some {
            Some(
                AccessorSparseValues {
                    buffer_view: buffer_view->0,
                    byte_offset: byte_offset->0,
                },
            )
        } else {
            None
        }
    }

    fn from_json(json: &Json) -> (r: Option<AccessorSparseValues>) {
        let buffer_view = read_required::<i32>(json, "bufferView")?;
        let byte_offset = read_or::<i32>(json, "byteOffset", 0)?;
        Some(AccessorSparseValues { buffer_view, byte_offset })
    }
}

/// The replacements of a sparse accessor. They are read, never applied.
#[derive(Clone, Copy, Debug, PartialEq, Eq, Structural)]
pub struct AccessorSparse {
    pub count: i32,
    pub indices: AccessorSparseIndices,
    pub values: AccessorSparseValues,
}

impl DeepView for AccessorSparse {
    type V = AccessorSparse;

    open spec fn deep_view(&self) -> AccessorSparse {
        *self
    }
}

impl FromJson for AccessorSparse {
    open spec fn parse(tree: JsonTree) -> Option<AccessorSparse> {
        let count = required::<i32>(tree, "count"@);
        let indices = required::<AccessorSparseIndices>(tree, "indices"@);
        let values = required::<AccessorSparseValues>(tree, "values"@);
        if count is Some
            && indices is Some
            && values is Some {
            Some(
                AccessorSparse {
                    count: count->0,
                    indices: indices->0,
                    values: values->0,
                },
            )
        } else {
            None
        }
    }

    fn from_json(json: &Json) -> (r: Option<AccessorSparse>) {
        let count = read_required::<i32>(json, "count")?;
        let indices = read_required::<AccessorSparseIndices>(json, "indices")?;
        let values = read_required::<AccessorSparseValues>(json, "values")?;
        Some(AccessorSparse { count, indices, values })
    }
}

/// How to read a range of bytes as `count` elements, each of as many components
/// as `accessor_type` says, each component of the type `component_type`.
#[derive(Clone, Debug, PartialEq, Eq)]
pub struct Accessor {
    pub buffer_view: Option<i32>,
    pub byte_offset: i32,
    pub component_type: ComponentType,
    pub normalized: bool,
    pub count: i32,
    pub accessor_type: AccessorType,
    pub max: Option<Vec<Scalar>>,
    pub min: Option<Vec<Scalar>>,
    pub sparse: Option<AccessorSparse>,
    pub name: Option<String>,
}

pub ghost struct AccessorModel {
    pub buffer_view: Option<i32>,
    pub byte_offset: i32,
    pub component_type: ComponentType,
    pub normalized: bool,
    pub count: i32,
    pub accessor_type: AccessorType,
    pub max: Option<Seq<Scalar>>,
    pub min: Option<Seq<Scalar>>,
    pub sparse: Option<AccessorSparse>,
    pub name: Option<Seq<char>>,
}

impl DeepView for Accessor {
    type V = AccessorModel;

    open spec fn deep_view(&self) -> AccessorModel {
        AccessorModel {
            buffer_view: self.buffer_view.deep_view(),
            byte_offset: self.byte_offset.deep_view(),
            component_type: self.component_type.deep_view(),
            normalized: self.normalized.deep_view(),
            count: self.count.deep_view(),
            accessor_type: self.accessor_type.deep_view(),
            max: self.max.deep_view(),
            min: self.min.deep_view(),
            sparse: self.sparse.deep_view(),
            name: self.name.deep_view(),
        }
    }
}

impl FromJson for Accessor {
    open spec fn parse(tree: JsonTree) -> Option<AccessorModel> {
        let buffer_view = optional::<i32>(tree, "bufferView"@);
        let byte_offset = or_default::<i32>(tree, "byteOffset"@, 0);
        let component_type = required::<ComponentType>(tree, "componentType"@);
        let normalized = or_default::<bool>(tree, "normalized"@, false);
        let count = required::<i32>(tree, "count"@);
        let accessor_type = required::<AccessorType>(tree, "type"@);
        let max = optional::<Vec<Scalar>>(tree, "max"@);
        let min = optional::<Vec<Scalar>>(tree, "min"@);
        let sparse = optional::<AccessorSparse>(tree, "sparse"@);
        let name = optional::<String>(tree, "name"@);
        if buffer_view is Some
            && byte_offset is Some
            && component_type is Some
            && normalized is Some
            && count is Some
            && accessor_type is Some
            && max is Some
            && min is Some
            && sparse is Some
            && name is Some {
            Some(
                AccessorModel {
                    buffer_view: buffer_view->0,
                    byte_offset: byte_offset->0,
                    component_type: component_type->0,
                    normalized: normalized->0,
                    count: count->0,
                    accessor_type: accessor_type->0,
                    max: max->0,
                    min: min->0,
                    sparse: sparse->0,
                    name: name->0,
                },
            )
        } else {
            None
        }
    }

    fn from_json(json: &Json) -> (r: Option<Accessor>) {
        let buffer_view = read_optional::<i32>(json, "bufferView")?;
        let byte_offset = read_or::<i32>(json, "byteOffset", 0)?;
        let component_type = read_required::<ComponentType>(json, "componentType")?;
        let normalized = read_or::<bool>(json, "normalized", false)?;
        let count = read_required::<i32>(json, "count")?;
        let accessor_type = read_required::<AccessorType>(json, "type")?;
        let max = read_optional::<Vec<Scalar>>(json, "max")?;
        let min = read_optional::<Vec<Scalar>>(json, "min")?;
        let sparse = read_optional::<AccessorSparse>(json, "sparse")?;
        let name = read_optional::<String>(json, "name")?;
        Some(
            Accessor {
                buffer_view,
                byte_offset,
                component_type,
                normalized,
                count,
                accessor_type,
                max,
                min,
                sparse,
                name,
            },
        )
    }
}

/// A range of bytes of a buffer.
#[derive(Clone, Debug, PartialEq, Eq)]
pub struct BufferView {
    pub buffer: i32,
    pub byte_offset: i32,
    pub byte_length: i32,
    pub byte_stride: Option<i32>,
    pub target: Option<Target>,
    pub name: Option<String>,
}

pub ghost struct BufferViewModel {
    pub buffer: i32,
    pub byte_offset: i32,
    pub byte_length: i32,
    pub byte_stride: Option<i32>,
    pub target: Option<Target>,
    pub name: Option<Seq<char>>,
}

impl DeepView for BufferView {
    type V = BufferViewModel;

    open spec fn deep_view(&self) -> BufferViewModel {
        BufferViewModel {
            buffer: self.buffer.deep_view(),
            byte_offset: self.byte_offset.deep_view(),
            byte_length: self.byte_length.deep_view(),
            byte_stride: self.byte_stride.deep_view(),
            target: self.target.deep_view(),
            name: self.name.deep_view(),
        }
    }
}

impl FromJson for BufferView {
    open spec fn parse(tree: JsonTree) -> Option<BufferViewModel> {
        let buffer = required::<i32>(tree, "buffer"@);
        let byte_offset = or_default::<i32>(tree, "byteOffset"@, 0);
        let byte_length = required::<i32>(tree, "byteLength"@);
        let byte_stride = optional::<i32>(tree, "byteStride"@);
        let target = optional::<Target>(tree, "target"@);
        let name = optional::<String>(tree, "name"@);
        if buffer is Some
            && byte_offset is Some
            && byte_length is Some
            && byte_stride is Some
            && target is Some
            && name is Some {
            Some(
                BufferViewModel {
                    buffer: buffer->0,
                    byte_offset: byte_offset->0,
                    byte_length: byte_length->0,
                    byte_stride: byte_stride->0,
                    target: target->0,
                    name: name->0,
                },
            )
        } else {
            None
        }
    }

    fn from_json(json: &Json) -> (r: Option<BufferView>) {
        let buffer = read_required::<i32>(json, "buffer")?;
        let byte_offset = read_or::<i32>(json, "byteOffset", 0)?;
        let byte_length = read_required::<i32>(json, "byteLength")?;
        let byte_stride = read_optional::<i32>(json, "byteStride")?;
        let target = read_optional::<Target>(json, "target")?;
        let name = read_optional::<String>(json, "name")?;
        Some(BufferView { buffer, byte_offset, byte_length, byte_stride, target, name })
    }
}

/// How a texture is filtered and wrapped.
#[derive(Clone, Debug, PartialEq, Eq)]
pub struct Sampler {
    pub mag_filter: Option<TextureFilter>,
    pub min_filter: Option<TextureFilter>,
    pub wrap_s: TextureWrapMode,
    pub wrap_t: TextureWrapMode,
    pub name: Option<String>,
}

pub ghost struct SamplerModel {
    pub mag_filter: Option<TextureFilter>,
    pub min_filter: Option<TextureFilter>,
    pub wrap_s: TextureWrapMode,
    pub wrap_t: TextureWrapMode,
    pub name: Option<Seq<char>>,
}

impl DeepView for Sampler {
    type V = SamplerModel;

    open spec fn deep_view(&self) -> SamplerModel {
        SamplerModel {
            mag_filter: self.mag_filter.deep_view(),
            min_filter: self.min_filter.deep_view(),
            wrap_s: self.wrap_s.deep_view(),
            wrap_t: self.wrap_t.deep_view(),
            name: self.name.deep_view(),
        }
    }
}

impl FromJson for Sampler {
    open spec fn parse(tree: JsonTree) -> Option<SamplerModel> {
        let mag_filter = optional::<TextureFilter>(tree, "magFilter"@);
        let min_filter = optional::<TextureFilter>(tree, "minFilter"@);
        let wrap_s = or_default::<TextureWrapMode>(tree, "wrapS"@, TextureWrapMode::Repeat);
        let wrap_t = or_default::<TextureWrapMode>(tree, "wrapT"@, TextureWrapMode::Repeat);
        let name = optional::<String>(tree, "name"@);
        if mag_filter is Some
            && min_filter is Some
            && wrap_s is Some
            && wrap_t is Some
            && name is Some {
            Some(
                SamplerModel {
                    mag_filter: mag_filter->0,
                    min_filter: min_filter->0,
                    wrap_s: wrap_s->0,
                    wrap_t: wrap_t->0,
                    name: name->0,
                },
            )
        } else {
            None
        }
    }

    fn from_json(json: &Json) -> (r: Option<Sampler>) {
        let mag_filter = read_optional::<TextureFilter>(json, "magFilter")?;
        let min_filter = read_optional::<TextureFilter>(json, "minFilter")?;
        let wrap_s = read_or::<TextureWrapMode>(json, "wrapS", TextureWrapMode::Repeat)?;
        let wrap_t = read_or::<TextureWrapMode>(json, "wrapT", TextureWrapMode::Repeat)?;
        let name = read_optional::<String>(json, "name")?;
        Some(Sampler { mag_filter, min_filter, wrap_s, wrap_t, name })
    }
}

/// A source of bytes: a file beside the document, and the length it declares.
#[derive(Clone, Debug, PartialEq, Eq)]
pub struct Buffer {
    pub uri: Option<String>,
    pub byte_length: i32,
    pub name: Option<String>,
}

pub ghost struct BufferModel {
    pub uri: Option<Seq<char>>,
    pub byte_length: i32,
    pub name: Option<Seq<char>>,
}

impl DeepView for Buffer {
    type V = BufferModel;

    open spec fn deep_view(&self) -> BufferModel {
        BufferModel {
            uri: self.uri.deep_view(),
            byte_length: self.byte_length.deep_view(),
            name: self.name.deep_view(),
        }
    }
}

impl FromJson for Buffer {
    open spec fn parse(tree: JsonTree) -> Option<BufferModel> {
        let uri = optional::<String>(tree, "uri"@);
        let byte_length = required::<i32>(tree, "byteLength"@);
        let name = optional::<String>(tree, "name"@);
        if uri is Some
            && byte_length is Some
            && name is Some {
            Some(
                BufferModel {
                    uri: uri->0,
                    byte_length: byte_length->0,
                    name: name->0,
                },
            )
        } else {
            None
        }
    }

    fn from_json(json: &Json) -> (r: Option<Buffer>) {
        let uri = read_optional::<String>(json, "uri")?;
        let byte_length = read_required::<i32>(json, "byteLength")?;
        let name = read_optional::<String>(json, "name")?;
        Some(Buffer { uri, byte_length, name })
    }
}

/// A whole document.
#[derive(Clone, Debug, PartialEq, Eq)]
pub struct Gltf {
    pub asset: Asset,
    pub scene: Option<i32>,
    pub scenes: Option<Vec<Scene>>,
    pub nodes: Option<Vec<Node>>,
    pub materials: Option<Vec<Material>>,
    pub meshes: Option<Vec<Mesh>>,
    pub textures: Option<Vec<Texture>>,
    pub images: Option<Vec<Image>>,
    pub accessors: Option<Vec<Accessor>>,
    pub buffer_views: Option<Vec<BufferView>>,
    pub samplers: Option<Vec<Sampler>>,
    pub buffers: Option<Vec<Buffer>>,
}

pub ghost struct GltfModel {
    pub asset: AssetModel,
    pub scene: Option<i32>,
    pub scenes: Option<Seq<SceneModel>>,
    pub nodes: Option<Seq<NodeModel>>,
    pub materials: Option<Seq<MaterialModel>>,
    pub meshes: Option<Seq<MeshModel>>,
    pub textures: Option<Seq<TextureModel>>,
    pub images: Option<Seq<ImageModel>>,
    pub accessors: Option<Seq<AccessorModel>>,
    pub buffer_views: Option<Seq<BufferViewModel>>,
    pub samplers: Option<Seq<SamplerModel>>,
    pub buffers: Option<Seq<BufferModel>>,
}

impl DeepView for Gltf {
    type V = GltfModel;

    open spec fn deep_view(&self) -> GltfModel {
        GltfModel {
            asset: self.asset.deep_view(),
            scene: self.scene.deep_view(),
            scenes: self.scenes.deep_view(),
            nodes: self.nodes.deep_view(),
            materials: self.materials.deep_view(),
            meshes: self.meshes.deep_view(),
            textures: self.textures.deep_view(),
            images: self.images.deep_view(),
            accessors: self.accessors.deep_view(),
            buffer_views: self.buffer_views.deep_view(),
            samplers: self.samplers.deep_view(),
            buffers: self.buffers.deep_view(),
        }
    }
}

/// The `asset` of a document. There must be one, and it must name a version.
pub open spec fn asset_of(root: JsonTree) -> Result<AssetModel, ImportError> {
    match required::<Asset>(root, "asset"@) {
        Some(asset) => Ok(asset),
        None => Err(ImportError::MalformedDocument { section: Section::Asset, entry: None }),
    }
}

/// The default scene of a document, where it names one.
pub open spec fn scene_of(root: JsonTree) -> Result<Option<i32>, ImportError> {
    match optional::<i32>(root, "scene"@) {
        Some(scene) => Ok(scene),
        None => Err(ImportError::MalformedDocument { section: Section::Scene, entry: None }),
    }
}

/// The document that `root` reads as. The sections are read in the order of
/// the fields of [`Gltf`], and the first that fails gives the error.
pub open spec fn document(root: JsonTree) -> Result<GltfModel, ImportError> {
    let asset = asset_of(root);
    let scene = scene_of(root);
    let scenes = section_of::<Scene>(root, "scenes"@, Section::Scenes);
    let nodes = section_of::<Node>(root, "nodes"@, Section::Nodes);
    let materials = section_of::<Material>(root, "materials"@, Section::Materials);
    let meshes = section_of::<Mesh>(root, "meshes"@, Section::Meshes);
    let textures = section_of::<Texture>(root, "textures"@, Section::Textures);
    let images = section_of::<Image>(root, "images"@, Section::Images);
    let accessors = section_of::<Accessor>(root, "accessors"@, Section::Accessors);
    let buffer_views = section_of::<BufferView>(root, "bufferViews"@, Section::BufferViews);
    let samplers = section_of::<Sampler>(root, "samplers"@, Section::Samplers);
    let buffers = section_of::<Buffer>(root, "buffers"@, Section::Buffers);
    if asset is Err {
        Err(asset->Err_0)
    } else if scene is Err {
        Err(scene->Err_0)
    } else if scenes is Err {
        Err(scenes->Err_0)
    } else if nodes is Err {
        Err(nodes->Err_0)
    } else if materials is Err {
        Err(materials->Err_0)
    } else if meshes is Err {
        Err(meshes->Err_0)
    } else if textures is Err {
        Err(textures->Err_0)
    } else if images is Err {
        Err(images->Err_0)
    } else if accessors is Err {
        Err(accessors->Err_0)
    } else if buffer_views is Err {
        Err(buffer_views->Err_0)
    } else if samplers is Err {
        Err(samplers->Err_0)
    } else if buffers is Err {
        Err(buffers->Err_0)
    } else {
        Ok(
            GltfModel {
                asset: asset->Ok_0,
                scene: scene->Ok_0,
                scenes: scenes->Ok_0,
                nodes: nodes->Ok_0,
                materials: materials->Ok_0,
                meshes: meshes->Ok_0,
                textures: textures->Ok_0,
                images: images->Ok_0,
                accessors: accessors->Ok_0,
                buffer_views: buffer_views->Ok_0,
                samplers: samplers->Ok_0,
                buffers: buffers->Ok_0,
            },
        )
    }
}

/// Whether a text begins as a binary container does: with the four bytes
/// `glTF`.
pub open spec fn is_binary_container(text: Seq<u8>) -> bool {
    text.len() >= 4 && text[0] == 0x67 && text[1] == 0x6C && text[2] == 0x54 && text[3] == 0x46
}

/// What the bytes of a file import as. A binary container is refused as
/// unsupported; a text that is not JSON is malformed; any other text is read
/// as its JSON value is by [`document`].
pub open spec fn import_of(text: Seq<u8>) -> Result<GltfModel, ImportError> {
    if is_binary_container(text) {
        Err(ImportError::UnsupportedFeature { feature: Feature::BinaryContainer, owner: 0 })
    } else {
        match parsed(text) {
            None => Err(ImportError::MalformedDocument { section: Section::Document, entry: None }),
            Some(root) => document(root),
        }
    }
}

/// Whether the component type is one that a sparse accessor may use for the
/// places of its replacements.
pub open spec fn is_index_type(component_type: ComponentType) -> bool {
    component_type == ComponentType::UnsignedByte || component_type == ComponentType::UnsignedShort
        || component_type == ComponentType::UnsignedInt
}

/// The location of the buffer at each place of the document. A buffer without
/// one has its bytes in a binary container, which is not supported.
pub open spec fn location_at(doc: GltfModel) -> spec_fn(int) -> Result<Seq<char>, ImportError> {
    |i: int|
        match doc.buffers->0[i].uri {
            Some(uri) => Ok(uri),
            None => Err(
                ImportError::UnsupportedFeature { feature: Feature::BinaryContainer, owner: i as usize },
            ),
        }
}

/// The locations of the document's buffers, in the document's order. They are
/// relative to the place of the document itself.
pub open spec fn buffer_locations(doc: GltfModel) -> Result<Seq<Seq<char>>, ImportError> {
    match doc.buffers {
        Some(buffers) => collected(buffers.len() as int, location_at(doc)),
        None => Ok(Seq::empty()),
    }
}

impl Gltf {
    /// The locations from which the bytes of the buffers are to be loaded, in
    /// the document's order.
    #[verifier::loop_isolation(false)]
    pub fn buffer_uris(&self) -> (r: Result<Vec<String>, ImportError>)
        ensures
            outcome(r) == buffer_locations(self.deep_view()),
    {
        let ghost doc = self.deep_view();
        let mut uris: Vec<String> = Vec::new();
        assert(uris.deep_view() =~= Seq::<Seq<char>>::empty());
        if let Some(buffers) = &self.buffers {
            let mut i: usize = 0;
            while i < buffers.len()
                invariant
                    i <= buffers.len(),
                    collected(i as int, location_at(doc)) == Ok::<Seq<Seq<char>>, ImportError>(
                        uris.deep_view(),
                    ),
                decreases buffers.len() - i,
            {
                assert(doc.buffers->0[i as int] == buffers@[i as int].deep_view());
                match &buffers[i].uri {
                    Some(uri) => {
                        let ghost before = uris.deep_view();
                        uris.push(uri.clone());
                        assert(uris.deep_view() =~= before.push(uri@));
                    },
                    None => {
                        proof {
                            lemma_collected_error(i + 1, buffers@.len() as int, location_at(doc));
                        }
                        return Err(
                            ImportError::UnsupportedFeature { feature: Feature::BinaryContainer, owner: i },
                        );
                    },
                }
                i += 1;
            }
        }
        Ok(uris)
    }

    /// Builds the document from its JSON value.
    pub fn from_json(root: &Json) -> (r: Result<Gltf, ImportError>)
        ensures
            outcome(r) == document(root@),
    {
        let asset = match read_required::<Asset>(root, "asset") {
            Some(asset) => asset,
            None => {
                return Err(ImportError::MalformedDocument { section: Section::Asset, entry: None });
            },
        };
        let scene = match read_optional::<i32>(root, "scene") {
            Some(scene) => scene,
            None => {
                return Err(ImportError::MalformedDocument { section: Section::Scene, entry: None });
            },
        };
        let scenes = read_section::<Scene>(root, "scenes", Section::Scenes)?;
        let nodes = read_section::<Node>(root, "nodes", Section::Nodes)?;
        let materials = read_section::<Material>(root, "materials", Section::Materials)?;
        let meshes = read_section::<Mesh>(root, "meshes", Section::Meshes)?;
        let textures = read_section::<Texture>(root, "textures", Section::Textures)?;
        let images = read_section::<Image>(root, "images", Section::Images)?;
        let accessors = read_section::<Accessor>(root, "accessors", Section::Accessors)?;
        let buffer_views = read_section::<BufferView>(root, "bufferViews", Section::BufferViews)?;
        let samplers = read_section::<Sampler>(root, "samplers", Section::Samplers)?;
        let buffers = read_section::<Buffer>(root, "buffers", Section::Buffers)?;
        Ok(
            Gltf {
                asset,
                scene,
                scenes,
                nodes,
                materials,
                meshes,
                textures,
                images,
                accessors,
                buffer_views,
                samplers,
                buffers,
            },
        )
    }
}

impl Importer for Gltf {
    /// Reads a document from the bytes of a `.gltf` file.
    fn import(data: &[u8]) -> (r: Result<Gltf, ImportError>)
        ensures
            outcome(r) == import_of(data@),
    {
        if data.len() >= 4 && data[0] == 0x67 && data[1] == 0x6C && data[2] == 0x54 && data[3] == 0x46 {
            return Err(ImportError::UnsupportedFeature { feature: Feature::BinaryContainer, owner: 0 });
        }
        match read_json(data) {
            None => Err(ImportError::MalformedDocument { section: Section::Document, entry: None }),
            Some(root) => Gltf::from_json(&root),
        }
    }
}

} // verus!
