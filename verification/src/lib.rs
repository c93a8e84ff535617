//! Build-time pipeline that turns contract-assembly source modules into
//! packaged binary library artifacts, together with the runtime loader that
//! reads such an artifact back into an in-memory library object.
//!
//! The pipeline has three parts: discovery of module directories by
//! convention, compilation of each module's source into serialized artifact
//! bytes, and the loader. All decisions (which directories are modules, how
//! names become namespace paths, which error a failing stage reports) are
//! verified here; the embedding program performs the file reads and writes.

pub mod compile;
pub mod discover;
pub mod error;
pub mod loader;
pub mod naming;
pub mod toolkit;

