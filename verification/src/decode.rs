//! Accessors: from an index into the document to the numbers that it stands
//! for.
//!
//! An accessor leads to a buffer view, the view to a buffer, and the view's
//! range of the buffer's bytes is read as `count` elements, one after the
//! other from the start of the range. Every component is read little-endian,
//! whatever the machine, and kept as the unsigned number that its bytes spell:
//! for a signed type that is its two's complement, for a float its bits.

use crate::error::{Feature, ImportError, Section};
use crate::importers::gltf::{
    AccessorModel, AccessorType, BufferView, BufferViewModel, ComponentType, Gltf, GltfModel,
};
use crate::importers::reader::outcome;
use vstd::prelude::*;

verus! {

/// The bytes that one component of the type takes.
pub open spec fn component_width(component_type: ComponentType) -> int {
    match component_type {
        ComponentType::Byte | ComponentType::UnsignedByte => 1,
        ComponentType::Short | ComponentType::UnsignedShort => 2,
        ComponentType::UnsignedInt | ComponentType::Float => 4,
    }
}

/// The components that one element of the type has.
pub open spec fn component_count(accessor_type: AccessorType) -> int {
    match accessor_type {
        AccessorType::Scalar => 1,
        AccessorType::Vec2 => 2,
        AccessorType::Vec3 => 3,
        AccessorType::Vec4 => 4,
        AccessorType::Mat2 => 4,
        AccessorType::Mat3 => 9,
        AccessorType::Mat4 => 16,
    }
}

/// The bytes from the start of one element to the start of the next.
pub open spec fn element_stride(component_type: ComponentType, accessor_type: AccessorType) -> int {
    component_count(accessor_type) * component_width(component_type)
}

impl ComponentType {
    /// The bytes that one component takes.
    pub fn width(&self) -> (r: usize)
        ensures
            r == component_width(*self),
    {
        match self {
            ComponentType::Byte | ComponentType::UnsignedByte => 1,
            ComponentType::Short | ComponentType::UnsignedShort => 2,
            ComponentType::UnsignedInt | ComponentType::Float => 4,
        }
    }
}

impl AccessorType {
    /// The components that one element has.
    pub fn components(&self) -> (r: usize)
        ensures
            r == component_count(*self),
    {
        match self {
            AccessorType::Scalar => 1,
            AccessorType::Vec2 => 2,
            AccessorType::Vec3 => 3,
            AccessorType::Vec4 => 4,
            AccessorType::Mat2 => 4,
            AccessorType::Mat3 => 9,
            AccessorType::Mat4 => 16,
        }
    }
}

/// The bytes that one element of an accessor of these types takes.
pub fn stride(component_type: ComponentType, accessor_type: AccessorType) -> (r: usize)
    ensures
        r == element_stride(component_type, accessor_type),
        1 <= r <= 64,
{
    let n = accessor_type.components();
    let w = component_type.width();
    assert(1 <= n * w <= 64) by (nonlinear_arith)
        requires
            1 <= n <= 16,
            1 <= w <= 4,
    ;
    n * w
}

/// The number that `width` bytes spell from place `at` on, lowest byte first.
/// A width other than 1 or 2 is taken as 4.
pub open spec fn word_at(bytes: Seq<u8>, at: int, width: int) -> int {
    if width == 1 {
        bytes[at] as int
    } else if width == 2 {
        bytes[at] + 256 * bytes[at + 1]
    } else {
        bytes[at] + 256 * bytes[at + 1] + 65536 * bytes[at + 2] + 16777216 * bytes[at + 3]
    }
}

/// Reads one component, lowest byte first.
pub fn read_word(bytes: &Vec<u8>, at: usize, width: usize) -> (r: u32)
    requires
        width == 1 || width == 2 || width == 4,
        at + width <= bytes.len(),
    ensures
        r == word_at(bytes@, at as int, width as int),
{
    let b0: u32 = bytes[at] as u32;
    if width == 1 {
        b0
    } else if width == 2 {
        let b1: u32 = bytes[at + 1] as u32;
        b0 + 256 * b1
    } else {
        let b1: u32 = bytes[at + 1] as u32;
        let b2: u32 = bytes[at + 2] as u32;
        let b3: u32 = bytes[at + 3] as u32;
        b0 + 256 * b1 + 65536 * b2 + 16777216 * b3
    }
}

/// What an accessor stands for: `count` elements of `components` components
/// each, all in one row.
#[derive(Clone, Debug, PartialEq, Eq)]
pub struct AccessorData {
    pub component_type: ComponentType,
    pub components: usize,
    pub count: usize,
    pub words: Vec<u32>,
}

pub ghost struct AccessorDataModel {
    pub component_type: ComponentType,
    pub components: usize,
    pub count: usize,
    pub words: Seq<u32>,
}

impl DeepView for AccessorData {
    type V = AccessorDataModel;

    open spec fn deep_view(&self) -> AccessorDataModel {
        AccessorDataModel {
            component_type: self.component_type,
            components: self.components,
            count: self.count,
            words: self.words@,
        }
    }
}

impl AccessorDataModel {
    /// Every element is there, whole.
    pub open spec fn well_formed(self) -> bool {
        self.words.len() == self.count * self.components
    }

    /// The number of elements.
    pub open spec fn len(self) -> int {
        self.count as int
    }

    /// The components of element `i`.
    pub open spec fn element(self, i: int) -> Seq<u32> {
        self.words.subrange(i * self.components, i * self.components + self.components)
    }
}

/// The sections of a document as lists: one that is absent has no entries.
pub open spec fn entries<T>(section: Option<Seq<T>>) -> Seq<T> {
    match section {
        Some(list) => list,
        None => Seq::empty(),
    }
}

/// Whether an accessor has values of its own to put in the place of those it
/// reads.
pub open spec fn needs_substitution(accessor: AccessorModel) -> bool {
    accessor.sparse matches Some(sparse) && sparse.count > 0
}

/// The view of an accessor, where it has one.
pub open spec fn view_of(doc: GltfModel, accessor: AccessorModel) -> BufferViewModel {
    entries(doc.buffer_views)[accessor.buffer_view->0 as int]
}

/// Where an accessor reads from: the place of a buffer among `buffers` and
/// the place of the first byte within it, or nothing for an accessor without
/// a view; or why it cannot be read. The checks are made in this order, and
/// the first that fails gives the error:
///
/// 1. `index` is that of an accessor of the document;
/// 2. the accessor's view, where it has one, is a view of the document;
/// 3. the accessor does not need substitution;
/// 4. its count is not negative, and its elements take no more bytes together
///    than a view can have;
/// 5. the view's buffer is a buffer of the document, and one of `buffers`;
/// 6. the view lies within its buffer;
/// 7. the view is long enough for `count` elements.
pub open spec fn source_of(doc: GltfModel, buffers: Seq<Seq<u8>>, index: i32) -> Result<
    Option<(int, int)>,
    ImportError,
> {
    let accessor = entries(doc.accessors)[index as int];
    let stride = element_stride(accessor.component_type, accessor.accessor_type);
    let view = view_of(doc, accessor);
    let malformed = ImportError::MalformedDocument { section: Section::Accessors, entry: Some(index as usize) };
    if index < 0 || index >= entries(doc.accessors).len() {
        Err(ImportError::UnresolvedReference { section: Section::Accessors, index: index as i64 })
    } else if accessor.buffer_view matches Some(v) && (v < 0 || v >= entries(doc.buffer_views).len()) {
        Err(
            ImportError::UnresolvedReference {
                section: Section::BufferViews,
                index: accessor.buffer_view->0 as i64,
            },
        )
    } else if needs_substitution(accessor) {
        Err(ImportError::UnsupportedFeature { feature: Feature::SparseAccessor, owner: index as usize })
    } else if accessor.count < 0 || accessor.count * stride > i32::MAX {
        Err(malformed)
    } else if accessor.buffer_view is None {
        Ok(None)
    } else if view.buffer < 0 || view.buffer >= entries(doc.buffers).len() || view.buffer >= buffers.len() {
        Err(ImportError::UnresolvedReference { section: Section::Buffers, index: view.buffer as i64 })
    } else if view.byte_offset < 0 || view.byte_length < 0 || view.byte_offset + view.byte_length
        > buffers[view.buffer as int].len() {
        Err(
            ImportError::MalformedDocument {
                section: Section::BufferViews,
                entry: Some(accessor.buffer_view->0 as usize),
            },
        )
    } else if accessor.count * stride > view.byte_length {
        Err(malformed)
    } else {
        Ok(Some((view.buffer as int, view.byte_offset as int)))
    }
}

/// What accessor `index` of the document stands for, given the bytes of the
/// document's buffers.
///
/// Where [`source_of`] finds the bytes, component `k` of the row is the number
/// that the bytes spell at `k` times the width of a component from the start
/// of the view; an accessor without a view stands for zeros.
pub open spec fn decoded(doc: GltfModel, buffers: Seq<Seq<u8>>, index: i32) -> Result<
    AccessorDataModel,
    ImportError,
> {
    let accessor = entries(doc.accessors)[index as int];
    let components = component_count(accessor.accessor_type);
    let width = component_width(accessor.component_type);
    match source_of(doc, buffers, index) {
        Err(e) => Err(e),
        Ok(source) => Ok(
            AccessorDataModel {
                component_type: accessor.component_type,
                components: components as usize,
                count: accessor.count as usize,
                words: Seq::new(
                    (accessor.count * components) as nat,
                    |k: int|
                        match source {
                            None => 0u32,
                            Some((buffer, start)) => word_at(buffers[buffer], start + k * width, width) as u32,
                        },
                ),
            },
        ),
    }
}

/// An accessor that decodes has as many elements as it declares, and each has
/// as many components as the accessor's type says.
pub proof fn lemma_decoded_shape(doc: GltfModel, buffers: Seq<Seq<u8>>, index: i32)
    ensures
        decoded(doc, buffers, index) matches Ok(data) ==> {
            let accessor = entries(doc.accessors)[index as int];
            &&& data.well_formed()
            &&& data.len() == accessor.count
            &&& forall|i: int|
                0 <= i < data.len() ==> (#[trigger] data.element(i)).len() == component_count(
                    accessor.accessor_type,
                )
        },
{
    if let Ok(data) = decoded(doc, buffers, index) {
        let accessor = entries(doc.accessors)[index as int];
        let n = component_count(accessor.accessor_type);
        let count = accessor.count as int;
        assert(0 <= count);
        assert(1 <= n <= 16);
        assert(count * n >= 0) by (nonlinear_arith)
            requires
                0 <= count,
                1 <= n,
        ;
        assert forall|i: int| 0 <= i < data.len() implies (#[trigger] data.element(i)).len() == n by {
            assert(0 <= i * n && i * n + n <= count * n) by (nonlinear_arith)
                requires
                    0 <= i < count,
                    1 <= n,
            ;
        }
    }
}

/// Entry `index` of a section, if the section has one there.
pub fn entry<T: DeepView>(section: &Option<Vec<T>>, index: i32) -> (r: Option<&T>)
    ensures
        match r {
            Some(x) => 0 <= index < entries(section.deep_view()).len() && x.deep_view() == entries(
                section.deep_view(),
            )[index as int],
            None => !(0 <= index < entries(section.deep_view()).len()),
        },
{
    match section {
        Some(list) => {
            if index >= 0 && (index as usize) < list.len() {
                Some(&list[index as usize])
            } else {
                None
            }
        },
        None => None,
    }
}

/// The number of entries of a section.
pub fn entry_count<T: DeepView>(section: &Option<Vec<T>>) -> (r: usize)
    ensures
        r == entries(section.deep_view()).len(),
{
    match section {
        Some(list) => list.len(),
        None => 0,
    }
}

/// Decodes accessor `index` of the document from the bytes of its buffers.
pub fn decode_accessor(gltf: &Gltf, buffers: &Vec<Vec<u8>>, index: i32) -> (r: Result<
    AccessorData,
    ImportError,
>)
    ensures
        outcome(r) == decoded(gltf.deep_view(), buffers.deep_view(), index),
        r matches Ok(data) ==> {
            let accessor = entries(gltf.deep_view().accessors)[index as int];
            &&& data.count == accessor.count
            &&& data.components == component_count(accessor.accessor_type)
            &&& data.words@.len() == data.count * data.components
        },
{
    proof {
        lemma_decoded_shape(gltf.deep_view(), buffers.deep_view(), index);
    }
    let ghost doc = gltf.deep_view();
    let ghost data = buffers.deep_view();
    let accessor = match entry(&gltf.accessors, index) {
        Some(accessor) => accessor,
        None => {
            return Err(
                ImportError::UnresolvedReference { section: Section::Accessors, index: index as i64 },
            );
        },
    };
    let owner = index as usize;
    let view: Option<(i32, &BufferView)> = match accessor.buffer_view {
        None => None,
        Some(v) => match entry(&gltf.buffer_views, v) {
            Some(view) => Some((v, view)),
            None => {
                return Err(
                    ImportError::UnresolvedReference { section: Section::BufferViews, index: v as i64 },
                );
            },
        },
    };
    if let Some(sparse) = accessor.sparse {
        if sparse.count > 0 {
            return Err(ImportError::UnsupportedFeature { feature: Feature::SparseAccessor, owner });
        }
    }
    let n = accessor.accessor_type.components();
    let w = accessor.component_type.width();
    let size = stride(accessor.component_type, accessor.accessor_type);
    if accessor.count < 0 {
        return Err(ImportError::MalformedDocument { section: Section::Accessors, entry: Some(owner) });
    }
    let count = accessor.count as usize;
    assert(count * size <= 0x7fff_ffff * 64) by (nonlinear_arith)
        requires
            0 <= count <= 0x7fff_ffff,
            1 <= size <= 64,
    ;
    if (count as u64) * (size as u64) > 0x7fff_ffff {
        return Err(ImportError::MalformedDocument { section: Section::Accessors, entry: Some(owner) });
    }
    assert(count * n * w == count * size && count * n <= count * size && 0 <= count * n) by (nonlinear_arith)
        requires
            size == n * w,
            0 <= count,
            1 <= n,
            1 <= w,
    ;
    let total: usize = count * n;
    let mut words: Vec<u32> = Vec::new();
    match view {
        None => {
            let mut k: usize = 0;
            while k < total
                invariant
                    k <= total,
                    words@.len() == k,
                    forall|j: int| 0 <= j < k ==> words@[j] == 0u32,
                decreases total - k,
            {
                words.push(0);
                k += 1;
            }
            let r = AccessorData { component_type: accessor.component_type, components: n, count, words };
            assert(r.deep_view().words =~= decoded(doc, data, index)->Ok_0.words);
            Ok(r)
        },
        Some((v, view)) => {
            let b = view.buffer;
            if b < 0 || (b as usize) >= entry_count(&gltf.buffers) || (b as usize) >= buffers.len() {
                return Err(
                    ImportError::UnresolvedReference { section: Section::Buffers, index: b as i64 },
                );
            }
            let bytes = &buffers[b as usize];
            assert(data[b as int] =~= bytes@);
            if view.byte_offset < 0 || view.byte_length < 0 || (view.byte_offset as u64) + (
            view.byte_length as u64) > (bytes.len() as u64) {
                return Err(
                    ImportError::MalformedDocument {
                        section: Section::BufferViews,
                        entry: Some(v as usize),
                    },
                );
            }
            if (count as u64) * (size as u64) > (view.byte_length as u64) {
                return Err(
                    ImportError::MalformedDocument { section: Section::Accessors, entry: Some(owner) },
                );
            }
            let start = view.byte_offset as usize;
            let mut k: usize = 0;
            let mut at: usize = start;
            while k < total
                invariant
                    k <= total,
                    w == 1 || w == 2 || w == 4,
                    at == start + k * w,
                    total * w <= view.byte_length,
                    start + view.byte_length <= bytes.len(),
                    0 <= view.byte_length,
                    words@.len() == k,
                    forall|j: int|
                        0 <= j < k ==> words@[j] == word_at(bytes@, start + j * w, w as int) as u32,
                decreases total - k,
            {
                assert((k + 1) * w == k * w + w && (k + 1) * w <= total * w) by (nonlinear_arith)
                    requires
                        k < total,
                        1 <= w,
                ;
                let word = read_word(bytes, at, w);
                words.push(word);
                k += 1;
                at += w;
            }
            let r = AccessorData { component_type: accessor.component_type, components: n, count, words };
            assert(r.deep_view().words =~= decoded(doc, data, index)->Ok_0.words);
            Ok(r)
        },
    }
}

/// The indices that accessor `index` stands for: its components, one after the
/// other, each as 32 bits. Only unsigned components of 16 or of 32 bits are
/// indices.
pub open spec fn decoded_indices(doc: GltfModel, buffers: Seq<Seq<u8>>, index: i32) -> Result<
    Seq<u32>,
    ImportError,
> {
    match decoded(doc, buffers, index) {
        Err(e) => Err(e),
        Ok(data) => if data.component_type == ComponentType::UnsignedShort || data.component_type
            == ComponentType::UnsignedInt {
            Ok(data.words)
        } else {
            Err(ImportError::MalformedDocument { section: Section::Accessors, entry: Some(index as usize) })
        },
    }
}

/// Decodes accessor `index` of the document as indices.
pub fn decode_indices(gltf: &Gltf, buffers: &Vec<Vec<u8>>, index: i32) -> (r: Result<
    Vec<u32>,
    ImportError,
>)
    ensures
        match r {
            Ok(indices) => decoded_indices(gltf.deep_view(), buffers.deep_view(), index) == Ok::<
                Seq<u32>,
                ImportError,
            >(indices@),
            Err(e) => decoded_indices(gltf.deep_view(), buffers.deep_view(), index) == Err::<
                Seq<u32>,
                ImportError,
            >(e),
        },
{
    let data = decode_accessor(gltf, buffers, index)?;
    match data.component_type {
        ComponentType::UnsignedShort | ComponentType::UnsignedInt => Ok(data.words),
        _ => Err(
            ImportError::MalformedDocument { section: Section::Accessors, entry: Some(index as usize) },
        ),
    }
}

} // verus!
