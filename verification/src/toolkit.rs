//! The trusted boundary to the assembler toolkit.
//!
//! The pipeline treats the toolkit as an opaque contract with three entry
//! points: namespace path validation, the compile chain (parse the source
//! under a namespace path, assemble it with the kernel-preloaded assembler,
//! serialize the library object), and the deserializer. Each stands here
//! behind one wrapper whose contract Verus believes; everything around the
//! wrappers is verified. For a fixed toolkit version (the dependency lock
//! pins one), each outcome depends on the wrapper's plain arguments alone,
//! so it is named by an uninterpreted function and the wrapper's contract
//! states the outcome exactly in terms of that name.

use vstd::prelude::*;
use miden_objects::assembly::{DefaultSourceManager, Library, LibraryPath, Module, ModuleKind};
use miden_objects::utils::{Deserializable, Serializable};
use miden_lib::transaction::TransactionKernel;
use crate::error::BuildError;

verus! {

#[verifier::external_type_specification]
#[verifier::external_body]
pub struct ExLibrary(Library);

/// Whether the toolkit accepts `ns` as a library namespace path. Validation
/// depends on the characters of the string alone: the path must be a
/// nonempty `::`-separated list of well-formed identifiers.
pub uninterp spec fn masm_path_ok(ns: Seq<char>) -> bool;

/// Whether the toolkit's parser accepts `src` as a library module under the
/// namespace path `ns`. Parsing is deterministic: acceptance depends on the
/// two strings alone.
pub uninterp spec fn masm_parses(ns: Seq<char>, src: Seq<char>) -> bool;

/// Whether the whole compile chain (parse, then assemble against the fixed
/// kernel preload) succeeds for `src` under the namespace path `ns`.
pub uninterp spec fn masm_compiles(ns: Seq<char>, src: Seq<char>) -> bool;

/// The artifact bytes that a successful compile of `src` under `ns` yields.
/// For a fixed toolkit version and its fixed kernel preload, assembly and
/// serialization are deterministic, so the bytes are a function of the two
/// strings alone: reruns on unchanged input produce byte-identical
/// artifacts.
pub uninterp spec fn masm_artifact(ns: Seq<char>, src: Seq<char>) -> Seq<u8>;

/// Whether the toolkit's deserializer accepts `b` as the serialized form of
/// a library object. Decoding depends on the bytes alone.
pub uninterp spec fn masl_decodes(b: Seq<u8>) -> bool;

/// Relies on `LibraryPath::new`, which validates and parses a namespace
/// path string; acceptance is a function of the string alone.
#[verifier::external_body]
pub(crate) fn check_library_path(ns: &str) -> (b: bool)
    ensures
        b == masm_path_ok(ns@),
{
    LibraryPath::new(ns).is_ok()
}

/// Relies on the toolkit's compile chain: `Module::parser` and
/// `ModuleParser::parse_str` (with a fresh source-tracking context per
/// module, so diagnostics of one module never leak into another's),
/// `TransactionKernel::assembler` (a fresh instance with the transaction
/// kernel and its standard libraries installed, so no module's assembly can
/// observably affect another's), `Assembler::assemble_library`, and
/// `Serializable::to_bytes`. A failure of the parse call reports `Parse`, a
/// failure of the assemble call `Assemble`, each carrying the diagnostic
/// text verbatim. A successful assembly always exports at least one
/// procedure (the toolkit refuses a library without exports), so produced
/// artifact bytes always deserialize again.
#[verifier::external_body]
pub(crate) fn compile_masm(ns: &str, source: &str) -> (r: Result<Vec<u8>, BuildError>)
    requires
        masm_path_ok(ns@),
    ensures
        r is Ok <==> masm_compiles(ns@, source@),
        r is Ok ==> masm_parses(ns@, source@),
        r matches Ok(b) ==> b@ == masm_artifact(ns@, source@) && masl_decodes(b@),
        r matches Err(e) ==> (e is Parse <==> !masm_parses(ns@, source@)),
        r matches Err(e) ==> (e is Parse || e is Assemble),
{
    let path = LibraryPath::new(ns).expect("namespace path was validated");
    let source_manager = DefaultSourceManager::default();
    let module = Module::parser(ModuleKind::Library)
        .parse_str(path, source, &source_manager)
        .map_err(|e| BuildError::Parse { diagnostic: format!("{e}") })?;
    let library = TransactionKernel::assembler()
        .assemble_library([module])
        .map_err(|e| BuildError::Assemble { diagnostic: format!("{e}") })?;
    Ok(library.to_bytes())
}

/// Relies on `Deserializable::read_from_bytes`, which reconstructs a
/// library object from its serialized form; acceptance is a function of the
/// bytes alone.
#[verifier::external_body]
pub(crate) fn read_library(bytes: &[u8]) -> (r: Result<Library, String>)
    ensures
        r is Ok <==> masl_decodes(bytes@),
{
    Library::read_from_bytes(bytes).map_err(|e| format!("{e}"))
}

} // verus!
