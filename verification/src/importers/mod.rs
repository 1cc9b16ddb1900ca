//! Importers, one for each format.

use crate::error::ImportError;
use vstd::prelude::*;

pub mod gltf;
pub mod reader;

verus! {

/// A document model that can be built from the bytes of a file.
pub trait Importer: Sized {
    /// Builds the document model from the bytes of a file of the format. Each
    /// format says in its own contract what is built from which bytes.
    fn import(data: &[u8]) -> Result<Self, ImportError>;
}

} // verus!
