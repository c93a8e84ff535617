//! The runtime loader.
//!
//! The consuming program bundles the artifact bytes that the build-time
//! pipeline wrote and hands them here to obtain the in-memory library
//! object. No format migration or partial recovery is attempted: corrupt,
//! truncated or incompatible bytes are reported as a [`DeserializeError`].

use vstd::prelude::*;
use miden_objects::assembly::Library;
use crate::error::DeserializeError;
use crate::toolkit::{masl_decodes, read_library};

verus! {

/// Deserializes previously written artifact bytes back into a library
/// object. Succeeds exactly when the bytes are a well-formed serialized
/// library; the same bytes always decide the same way.
pub fn library(bytes: &[u8]) -> (r: Result<Library, DeserializeError>)
    ensures
        r is Ok <==> masl_decodes(bytes@),
{
    match read_library(bytes) {
        Ok(lib) => Ok(lib),
        Err(cause) => Err(DeserializeError { cause }),
    }
}

} // verus!
