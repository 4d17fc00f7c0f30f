//! Modules: the nodes of the discovered project hierarchy.

use vstd::prelude::*;
use crate::psa_content_root::ContentRoot;

verus! {

/// One node of the discovered hierarchy: the project root or a declared
/// sub-module, with its own content roots and its sub-modules in declaration
/// order.
pub struct Module {
    pub name: String,
    pub path: String,
    pub content_root: ContentRoot,
    pub sub_modules: Vec<Module>,
}

/// Whether `d` stands somewhere strictly below `anc` in the module tree.
pub open spec fn is_strict_descendant(anc: Module, d: Module) -> bool
    decreases anc,
{
    exists|i: int|
        0 <= i < anc.sub_modules@.len() && ((#[trigger] anc.sub_modules@[i]) == d
            || is_strict_descendant(anc.sub_modules@[i], d))
}

/// Well-formedness of a module tree: every sub-module's path is strictly
/// longer than its parent's, so no module can recur below itself.
pub open spec fn wf_module(m: Module) -> bool
    decreases m,
{
    forall|i: int|
        0 <= i < m.sub_modules@.len() ==> {
            &&& (#[trigger] m.sub_modules@[i]).path@.len() > m.path@.len()
            &&& wf_module(m.sub_modules@[i])
        }
}

/// In a well-formed module tree, every strict descendant's path is strictly
/// longer than its ancestor's.
pub proof fn lemma_descendant_path_longer(anc: Module, d: Module)
    requires
        wf_module(anc),
        is_strict_descendant(anc, d),
    ensures
        d.path@.len() > anc.path@.len(),
    decreases anc,
{
    let i = choose|i: int|
        0 <= i < anc.sub_modules@.len() && ((#[trigger] anc.sub_modules@[i]) == d
            || is_strict_descendant(anc.sub_modules@[i], d));
    let c = anc.sub_modules@[i];
    if c == d {
    } else {
        lemma_descendant_path_longer(c, d);
    }
}

/// Acyclicity of well-formed module trees: no module is its own strict
/// descendant.
pub proof fn lemma_wf_module_acyclic(m: Module)
    requires
        wf_module(m),
    ensures
        !is_strict_descendant(m, m),
{
    if is_strict_descendant(m, m) {
        lemma_descendant_path_longer(m, m);
    }
}

} // verus!
