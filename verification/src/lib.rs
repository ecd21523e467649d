//! Safe projection layer over a scene tree owned by an external 3D importer.
//!
//! The importer hands back a single opaque root handle; everything reachable
//! from it lives in foreign memory as raw arrays and tagged unions.  This
//! crate holds the verified core of the wrapper: the error taxonomy, the
//! decoder for self-describing tagged metadata entries, the projection of the
//! parallel key/value metadata arrays, and the construction of a scene value
//! from the outcome of an import call.  The calls into the foreign engine
//! themselves, and the raw reads they require, stay outside this library;
//! they hand in plain values (tags, byte strings, bit patterns, counts) and
//! take plain values back.

use vstd::prelude::*;

pub mod metadata;
pub mod scene;

verus! {

/// The closed taxonomy of failures: the import engine rejected the input,
/// a single tagged metadata entry could not be decoded, or a byte string
/// that should have been text was not validly encoded.
#[derive(Debug, PartialEq, Eq)]
pub enum RussimpError {
    /// The engine returned no scene; carries its diagnostic text.
    Import(String),
    /// A tagged metadata entry could not be decoded: unrecognized tag, or a
    /// null payload where data was expected.
    MetadataError(String),
    /// Bytes that a tag declared to be text were not validly encoded.
    Encoding(String),
}

pub type Russult<T> = Result<T, RussimpError>;

} // verus!
