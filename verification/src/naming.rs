//! Module names and the fixed path conventions.
//!
//! A module is identified by its directory name. Its procedures are
//! registered under the namespace path `standards::<name>`, its source is
//! expected at `<name>/assets/contract.masm` relative to the root directory,
//! and its artifact is written to `<name>/generated/library.masl`.

use vstd::prelude::*;

verus! {

/// Holds when the name contains the path separator `::` somewhere.
///
/// Such a name would not stay a single component of the namespace path
/// `standards::<name>`, so the pipeline rejects it outright.
pub open spec fn has_path_separator(name: Seq<char>) -> bool {
    exists|i: int| 0 <= i && i + 1 < name.len() && #[trigger] name[i] == ':' && name[i + 1] == ':'
}

/// A module name that can form a well-formed namespace path: it is nonempty
/// and holds no `::` of its own. A name that passes this check may still be
/// rejected by the assembler toolkit's stricter identifier rules; a name
/// that fails it is never handed to the toolkit at all.
pub open spec fn valid_module_name(name: Seq<char>) -> bool {
    name.len() > 0 && !has_path_separator(name)
}

/// The namespace path under which the module's procedures are registered.
pub open spec fn namespace_path_of(name: Seq<char>) -> Seq<char> {
    "standards::"@ + name
}

/// The path of the module's contract source, relative to the root directory.
pub open spec fn source_rel_of(name: Seq<char>) -> Seq<char> {
    name + "/assets/contract.masm"@
}

/// The path of the module's output artifact, relative to the root directory.
pub open spec fn output_rel_of(name: Seq<char>) -> Seq<char> {
    name + "/generated/library.masl"@
}

/// A name that contains `::` can never form a valid namespace path.
pub proof fn lemma_separator_never_valid(name: Seq<char>)
    requires
        has_path_separator(name),
    ensures
        !valid_module_name(name),
{
}

/// Each module name maps to exactly one output artifact path: two modules
/// can collide on their artifact only by being the same module.
pub proof fn lemma_output_path_identifies_module(n1: Seq<char>, n2: Seq<char>)
    requires
        output_rel_of(n1) == output_rel_of(n2),
    ensures
        n1 == n2,
{
    let suffix = "/generated/library.masl"@;
    assert(n1 + suffix == n2 + suffix);
    assert((n1 + suffix).len() == n1.len() + suffix.len());
    assert((n2 + suffix).len() == n2.len() + suffix.len());
    assert(n1.len() == n2.len());
    assert forall|i: int| 0 <= i < n1.len() implies n1[i] == n2[i] by {
        assert((n1 + suffix)[i] == n1[i]);
        assert((n2 + suffix)[i] == n2[i]);
    }
    assert(n1 =~= n2);
}

/// Decides whether `name` can form a well-formed namespace path.
pub fn check_module_name(name: &str) -> (b: bool)
    ensures
        b == valid_module_name(name@),
{
    let n = name.unicode_len();
    if n == 0 {
        return false;
    }
    let mut i: usize = 0;
    while i < n - 1
        invariant
            n == name@.len(),
            n >= 1,
            0 <= i <= n,
            forall|j: int| 0 <= j && j + 1 < i + 1 ==> !(#[trigger] name@[j] == ':' && name@[j + 1] == ':'),
        decreases n - i,
    {
        if name.get_char(i) == ':' && name.get_char(i + 1) == ':' {
            assert(has_path_separator(name@));
            return false;
        }
        i = i + 1;
    }
    assert(!has_path_separator(name@));
    true
}

/// Builds the namespace path `standards::<name>`.
pub fn namespace_path(name: &str) -> (r: String)
    ensures
        r@ == namespace_path_of(name@),
{
    let mut s = String::from_str("standards::");
    s.append(name);
    s
}

/// Builds the relative path of the module's contract source.
pub fn source_rel_path(name: &str) -> (r: String)
    ensures
        r@ == source_rel_of(name@),
{
    let mut s = String::from_str(name);
    s.append("/assets/contract.masm");
    s
}

/// Builds the relative path of the module's output artifact.
pub fn output_rel_path(name: &str) -> (r: String)
    ensures
        r@ == output_rel_of(name@),
{
    let mut s = String::from_str(name);
    s.append("/generated/library.masl");
    s
}

} // verus!
