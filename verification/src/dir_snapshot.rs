//! Directory snapshots: the input of the analysis.
//!
//! Listing directories and reading descriptor files is I/O and stays with
//! the caller, who hands the library one immutable snapshot of the tree to
//! analyze.

use vstd::prelude::*;

verus! {

/// One directory of the tree under analysis.
pub struct DirSnapshot {
    /// The directory's own name (its final path segment).
    pub name: String,
    /// The names of the file entries directly inside the directory.
    pub entries: Vec<String>,
    /// The text of the directory's build-descriptor file, where one of the
    /// entries is a recognized marker file and the caller read it.
    pub descriptor: Option<String>,
    /// The sub-directories directly inside the directory.
    pub children: Vec<DirSnapshot>,
}

/// The first child of `cs` at or past position `i` whose name is `name`.
pub open spec fn spec_child_index_from(cs: Seq<DirSnapshot>, name: Seq<char>, i: nat) -> Option<
    nat,
>
    decreases cs.len() - i when i <= cs.len()
{
    if i >= cs.len() {
        None
    } else if cs[i as int].name@ == name {
        Some(i)
    } else {
        spec_child_index_from(cs, name, i + 1)
    }
}

/// The first child of `cs` whose name is `name`.
pub open spec fn spec_child_index(cs: Seq<DirSnapshot>, name: Seq<char>) -> Option<nat> {
    spec_child_index_from(cs, name, 0)
}

/// A found child index lies within the sequence and names a child called
/// `name`.
pub proof fn lemma_child_index_bounds(cs: Seq<DirSnapshot>, name: Seq<char>, i: nat)
    requires
        i <= cs.len(),
        spec_child_index_from(cs, name, i) is Some,
    ensures
        i <= spec_child_index_from(cs, name, i)->Some_0 < cs.len(),
        cs[spec_child_index_from(cs, name, i)->Some_0 as int].name@ == name,
    decreases cs.len() - i,
{
    if i >= cs.len() {
    } else if cs[i as int].name@ == name {
    } else {
        lemma_child_index_bounds(cs, name, i + 1);
    }
}

} // verus!
