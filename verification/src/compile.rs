//! The module compiler.
//!
//! For one discovered module, compilation validates the namespace path,
//! parses the source text, assembles the parsed module with the
//! kernel-preloaded assembler, and serializes the resulting library object
//! to its artifact bytes. Any failure aborts the module's build with the
//! error of the failing stage; nothing is retried and no artifact bytes are
//! produced on failure.

use vstd::prelude::*;
use crate::error::BuildError;
use crate::naming::{
    check_module_name, namespace_path, namespace_path_of, output_rel_of, output_rel_path,
    source_rel_of, source_rel_path, valid_module_name,
};
use crate::toolkit::{
    check_library_path, compile_masm, masl_decodes, masm_artifact, masm_compiles, masm_parses,
    masm_path_ok,
};

verus! {

/// Compiles one module's source text into its artifact bytes.
///
/// The namespace path `standards::<name>` is validated first: a name that
/// cannot form a well-formed namespace path is rejected with `InvalidPath`
/// before any parse attempt, exactly when the name holds a `::` of its
/// own, is empty, or is refused by the toolkit's identifier rules. The
/// contract partitions the outcomes exactly: success happens iff the
/// toolkit's compile chain accepts the input, a parser rejection reports
/// `Parse`, an assembler rejection `Assemble`, each carrying the toolkit's
/// diagnostic verbatim. The produced bytes are the artifact of the
/// namespace path and source text — reruns on unchanged input return the
/// same bytes — and they always deserialize back into a library object. No
/// other error is possible here: reading and writing files is the
/// embedding program's part.
pub fn compile_module(name: &str, source: &str) -> (r: Result<Vec<u8>, BuildError>)
    ensures
        r is Ok <==> (valid_module_name(name@) && masm_path_ok(namespace_path_of(name@))
            && masm_compiles(namespace_path_of(name@), source@)),
        r matches Ok(b) ==> b@ == masm_artifact(namespace_path_of(name@), source@)
            && masl_decodes(b@),
        (r is Err && r->Err_0 is InvalidPath) <==> !(valid_module_name(name@)
            && masm_path_ok(namespace_path_of(name@))),
        (r is Err && r->Err_0 is Parse) <==> (valid_module_name(name@) && masm_path_ok(
            namespace_path_of(name@),
        ) && !masm_parses(namespace_path_of(name@), source@)),
        (r is Err && r->Err_0 is Assemble) <==> (valid_module_name(name@) && masm_path_ok(
            namespace_path_of(name@),
        ) && masm_parses(namespace_path_of(name@), source@) && !masm_compiles(
            namespace_path_of(name@),
            source@,
        )),
        r matches Err(e) ==> (e is InvalidPath || e is Parse || e is Assemble),
        r matches Err(e) ==> (e is InvalidPath ==> e->InvalidPath_path@ == namespace_path_of(
            name@,
        )),
{
    let path_str = namespace_path(name);
    if !check_module_name(name) {
        return Err(BuildError::InvalidPath { path: path_str });
    }
    if !check_library_path(path_str.as_str()) {
        return Err(BuildError::InvalidPath { path: path_str });
    }
    compile_masm(path_str.as_str(), source)
}

/// Runs the decisions of one module's build step.
///
/// The embedding program reads the module's source file and hands the
/// outcome in: a read failure is wrapped into `Read` with the module's
/// source path for context, and nothing further is attempted, so a module
/// whose source has gone missing never yields artifact bytes. On a
/// successful read the source is compiled, with the outcomes partitioned
/// as in [`compile_module`], and success pairs the artifact bytes with the
/// relative output path `<name>/generated/library.masl` they belong at.
pub fn build_module(name: &str, read_result: Result<String, String>) -> (r: Result<
    (String, Vec<u8>),
    BuildError,
>)
    ensures
        read_result matches Err(c) ==> (r is Err && (r->Err_0 matches BuildError::Read {
            path,
            cause,
        } && path@ == source_rel_of(name@) && cause@ == c@)),
        read_result matches Ok(src) ==> (r is Ok <==> (valid_module_name(name@) && masm_path_ok(
            namespace_path_of(name@),
        ) && masm_compiles(namespace_path_of(name@), src@))),
        read_result matches Ok(src) ==> (r matches Ok(out) ==> out.0@ == output_rel_of(name@)
            && out.1@ == masm_artifact(namespace_path_of(name@), src@) && masl_decodes(out.1@)),
        read_result matches Ok(src) ==> ((r is Err && r->Err_0 is InvalidPath) <==> !(
        valid_module_name(name@) && masm_path_ok(namespace_path_of(name@)))),
        read_result matches Ok(src) ==> ((r is Err && r->Err_0 is Parse) <==> (valid_module_name(
            name@,
        ) && masm_path_ok(namespace_path_of(name@)) && !masm_parses(
            namespace_path_of(name@),
            src@,
        ))),
        read_result matches Ok(src) ==> ((r is Err && r->Err_0 is Assemble) <==> (
        valid_module_name(name@) && masm_path_ok(namespace_path_of(name@)) && masm_parses(
            namespace_path_of(name@),
            src@,
        ) && !masm_compiles(namespace_path_of(name@), src@))),
        read_result is Ok && r is Err ==> (r->Err_0 is InvalidPath || r->Err_0 is Parse
            || r->Err_0 is Assemble),
{
    let source = match read_result {
        Ok(s) => s,
        Err(cause) => {
            return Err(BuildError::Read { path: source_rel_path(name), cause });
        },
    };
    let bytes = match compile_module(name, source.as_str()) {
        Ok(b) => b,
        Err(e) => {
            return Err(e);
        },
    };
    Ok((output_rel_path(name), bytes))
}

} // verus!
