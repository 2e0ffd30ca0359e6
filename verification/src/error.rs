//! The errors of the migration, one kind for each stage that can fail.

use crate::container::DecodeError;
use vstd::prelude::*;

verus! {

/// Why a text could not be read as a quiz document.
#[derive(Debug, Clone, Copy, PartialEq, Eq, Structural)]
pub enum ParseError {
    /// The text matches none of the three schemas. Only its length in bytes
    /// is kept, never its content.
    UnknownFormat { length: usize },
}

/// Why a canonical document could not be written.
#[derive(Debug, Clone, Copy, PartialEq, Eq, Structural)]
pub enum EncodeError {
    /// The document could not be written as JSON text.
    Serialize,
    /// The text could not be compressed.
    Compress,
}

/// Why one file could not be migrated.
#[derive(Debug, Clone, Copy, PartialEq, Eq, Structural)]
pub enum MigrationError {
    /// The extension of the file names no known container.
    UnsupportedExtension,
    /// The container could not be decoded.
    Decode(DecodeError),
    /// The text inside the container is no known quiz document.
    Parse(ParseError),
    /// The canonical document could not be encoded.
    Encode(EncodeError),
}

} // verus!
