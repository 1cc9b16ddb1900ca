//! What an import can fail with.

use vstd::prelude::*;

verus! {

/// The parts of a document that an error can point at.
#[derive(Clone, Copy, Debug, PartialEq, Eq, Structural)]
pub enum Section {
    /// The text as a whole.
    Document,
    Asset,
    Scene,
    Scenes,
    Nodes,
    Materials,
    Meshes,
    Textures,
    Images,
    Accessors,
    BufferViews,
    Samplers,
    Buffers,
}

/// What a document may ask for that this importer does not do.
#[derive(Clone, Copy, Debug, PartialEq, Eq, Structural)]
pub enum Feature {
    /// The input is a binary container, or a buffer lives in one.
    BinaryContainer,
    /// An image without a location of its own.
    EmbeddedImage,
    /// The primitives of one mesh use more than one material.
    MixedMaterials,
    /// A mesh whose primitives name no material.
    MissingMaterial,
    /// A texture that names no image.
    MissingImage,
    /// An accessor whose values are to be replaced in places.
    SparseAccessor,
    /// A vertex attribute whose numbers are not floats, or are too few for the
    /// field of the vertex that it fills.
    VertexFormat,
}

/// Why an import stopped. Nothing is produced once one of these is. Reading
/// files is left to the caller, and so is saying that one could not be read.
#[derive(Clone, Copy, Debug, PartialEq, Eq)]
pub enum ImportError {
    /// The document does not have the shape of the format. `entry` is the place
    /// of the entry within `section`, or nothing where the section itself is at
    /// fault.
    MalformedDocument { section: Section, entry: Option<usize> },
    /// An index that has nothing at its place in `section`.
    UnresolvedReference { section: Section, index: i64 },
    /// A `feature` this importer does not do, asked for by entry `owner` of the
    /// section that the feature belongs to.
    UnsupportedFeature { feature: Feature, owner: usize },
}

impl ImportError {
    /// A line of text for a person.
    pub fn message(&self) -> (r: &'static str)
        ensures
            r@ == match *self {
                ImportError::MalformedDocument { .. } => "the document is malformed"@,
                ImportError::UnresolvedReference { .. } => "an index refers to nothing"@,
                ImportError::UnsupportedFeature { .. } => "the document uses an unsupported feature"@,
            },
    {
        match self {
            ImportError::MalformedDocument { .. } => "the document is malformed",
            ImportError::UnresolvedReference { .. } => "an index refers to nothing",
            ImportError::UnsupportedFeature { .. } => "the document uses an unsupported feature",
        }
    }
}

} // verus!
