//! Module discovery.
//!
//! A subdirectory `X` of the root directory is a module iff it holds a file
//! at the fixed relative path `X/assets/contract.masm`. Discovery is a pure
//! decision over the facts of each directory entry; the embedding program
//! lists the root directory and reports, for each entry, its name, whether
//! it is a directory, and whether the convention file exists.

use vstd::prelude::*;
use crate::naming::{namespace_path_of, source_rel_of, namespace_path, source_rel_path};

verus! {

/// The facts about one entry of the root directory that discovery reads.
pub struct EntryInfo {
    /// The entry's file name.
    pub name: String,
    /// Whether the entry is a directory.
    pub is_dir: bool,
    /// Whether a file exists at `<name>/assets/contract.masm`.
    pub has_contract: bool,
}

/// One discovered module: its name, the namespace path under which it is
/// assembled, and the relative path of its contract source.
pub struct ModuleDescriptor {
    pub name: String,
    pub namespace_path: String,
    pub source_path: String,
}

/// The mathematical value of a [`ModuleDescriptor`].
pub ghost struct DescriptorView {
    pub name: Seq<char>,
    pub namespace_path: Seq<char>,
    pub source_path: Seq<char>,
}

impl View for ModuleDescriptor {
    type V = DescriptorView;

    open spec fn view(&self) -> DescriptorView {
        DescriptorView {
            name: self.name@,
            namespace_path: self.namespace_path@,
            source_path: self.source_path@,
        }
    }
}

/// The convention predicate: an entry is a module iff it is a directory
/// that holds the contract source file.
pub open spec fn spec_is_module(e: EntryInfo) -> bool {
    e.is_dir && e.has_contract
}

/// The descriptor that discovery yields for a module named `name`.
pub open spec fn descriptor_of(name: Seq<char>) -> DescriptorView {
    DescriptorView {
        name: name,
        namespace_path: namespace_path_of(name),
        source_path: source_rel_of(name),
    }
}

/// The descriptors of the qualifying entries of `s`, in order.
pub open spec fn discovered_of(s: Seq<EntryInfo>) -> Seq<DescriptorView>
    decreases s.len(),
{
    if s.len() == 0 {
        Seq::empty()
    } else {
        discovered_of(s.drop_last())
            + if spec_is_module(s.last()) {
                seq![descriptor_of(s.last().name@)]
            } else {
                Seq::empty()
            }
    }
}

/// With no qualifying entry, discovery yields nothing.
pub proof fn lemma_no_modules_no_descriptors(s: Seq<EntryInfo>)
    requires
        forall|i: int| 0 <= i < s.len() ==> !spec_is_module(#[trigger] s[i]),
    ensures
        discovered_of(s).len() == 0,
    decreases s.len(),
{
    if s.len() > 0 {
        lemma_no_modules_no_descriptors(s.drop_last());
    }
}

/// Every descriptor that discovery yields belongs to some qualifying entry.
pub proof fn lemma_discovered_from_entries(s: Seq<EntryInfo>, k: int)
    requires
        0 <= k < discovered_of(s).len(),
    ensures
        exists|i: int|
            0 <= i < s.len() && spec_is_module(#[trigger] s[i]) && discovered_of(s)[k]
                == descriptor_of(s[i].name@),
    decreases s.len(),
{
    if s.len() > 0 {
        if k < discovered_of(s.drop_last()).len() {
            lemma_discovered_from_entries(s.drop_last(), k);
            let i = choose|i: int|
                0 <= i < s.drop_last().len() && spec_is_module(#[trigger] s.drop_last()[i])
                    && discovered_of(s.drop_last())[k] == descriptor_of(s.drop_last()[i].name@);
            assert(s[i] == s.drop_last()[i]);
        } else {
            assert(spec_is_module(s[s.len() - 1]));
        }
    }
}

/// Decides the convention predicate for one entry.
pub fn is_module_entry(e: &EntryInfo) -> (b: bool)
    ensures
        b == spec_is_module(*e),
{
    e.is_dir && e.has_contract
}

/// Walks the entries of the root directory and yields a descriptor for each
/// qualifying one, keeping the iteration order.
pub fn discover_modules(entries: &Vec<EntryInfo>) -> (r: Vec<ModuleDescriptor>)
    ensures
        r@.map_values(|d: ModuleDescriptor| d@) == discovered_of(entries@),
{
    let mut out: Vec<ModuleDescriptor> = Vec::new();
    let n = entries.len();
    let mut i: usize = 0;
    while i < n
        invariant
            n == entries@.len(),
            0 <= i <= n,
            out@.map_values(|d: ModuleDescriptor| d@) == discovered_of(entries@.subrange(0, i as int)),
        decreases n - i,
    {
        let e = &entries[i];
        if is_module_entry(e) {
            let d = ModuleDescriptor {
                name: e.name.clone(),
                namespace_path: namespace_path(e.name.as_str()),
                source_path: source_rel_path(e.name.as_str()),
            };
            assert(d@ == descriptor_of(e.name@));
            out.push(d);
        }
        proof {
            let prefix = entries@.subrange(0, i as int);
            let prefix1 = entries@.subrange(0, i + 1 as int);
            assert(prefix1.drop_last() =~= prefix);
            assert(prefix1.last() == entries@[i as int]);
            assert(out@.map_values(|d: ModuleDescriptor| d@) =~= discovered_of(prefix1));
        }
        i = i + 1;
    }
    proof {
        assert(entries@.subrange(0, n as int) =~= entries@);
    }
    out
}

} // verus!
