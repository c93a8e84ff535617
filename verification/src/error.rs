//! The error taxonomy of the pipeline.
//!
//! Every error is terminal: the build of the failing module stops and the
//! failure propagates to the caller unchanged. Each variant carries enough
//! context (a path, or the toolkit's diagnostic text verbatim) to identify
//! what failed.

use vstd::prelude::*;

verus! {

/// An error raised while building one module.
///
/// The variants follow the stages of a build step: reading the source,
/// validating the namespace path, parsing, assembling, and persisting the
/// artifact. `Read`, `DirectoryCreate` and `Write` are raised by the
/// embedding program, which performs the file system work; the remaining
/// variants are raised by the verified compilation step itself.
#[derive(Debug)]
pub enum BuildError {
    /// The module's source file could not be read.
    Read { path: String, cause: String },
    /// The module name cannot form a well-formed namespace path.
    InvalidPath { path: String },
    /// The source text was rejected by the parser; the diagnostic text is
    /// kept verbatim.
    Parse { diagnostic: String },
    /// The parsed module was rejected by the assembler; the diagnostic text
    /// is kept verbatim.
    Assemble { diagnostic: String },
    /// The artifact's output directory could not be created.
    DirectoryCreate { path: String, cause: String },
    /// The artifact bytes could not be written.
    Write { path: String, cause: String },
}

/// An error raised by the runtime loader when artifact bytes are corrupt,
/// truncated, or of an incompatible format version.
#[derive(Debug)]
pub struct DeserializeError {
    pub cause: String,
}

} // verus!
