//! Laws of the analyzer, each proved from the public contracts alone.

use vstd::prelude::*;
use crate::dir_snapshot::{lemma_child_index_bounds, spec_child_index, DirSnapshot};
use crate::files::spec_join;
use crate::maven_module::{module_matches, spec_decls, spec_has_maven_marker, spec_sub_plan};
use crate::psa_content_root::{
    maven_resource_root, maven_source_root, maven_test_resource_root, maven_test_source_root,
};
use crate::psa_jvm::{
    spec_analysis_error, spec_build_file, spec_first_related, spec_has_build_file,
    spec_is_build_file, spec_project_name, spec_project_ok, spec_project_type, ModuleAnalyzer,
    RegisteredAnalyzer,
};
use crate::psa_module::{is_strict_descendant, lemma_wf_module_acyclic, wf_module, Module};
use crate::psa_project::{AnalysisError, Project};
use crate::strutil::spec_contains_name;

verus! {

/// Structural equality of two module trees, field by field over their views.
pub open spec fn modules_equiv(m1: Module, m2: Module) -> bool
    decreases m1,
{
    &&& m1.name@ == m2.name@
    &&& m1.path@ == m2.path@
    &&& m1.content_root.source_root.deep_view() == m2.content_root.source_root.deep_view()
    &&& m1.content_root.resource_root.deep_view() == m2.content_root.resource_root.deep_view()
    &&& m1.content_root.test_source_root.deep_view()
        == m2.content_root.test_source_root.deep_view()
    &&& m1.content_root.test_resource_root.deep_view()
        == m2.content_root.test_resource_root.deep_view()
    &&& m1.sub_modules@.len() == m2.sub_modules@.len()
    &&& forall|k: int|
        0 <= k < m1.sub_modules@.len() ==> modules_equiv(
            #[trigger] m1.sub_modules@[k],
            m2.sub_modules@[k],
        )
}

/// Structural equality of two projects, field by field over their views.
pub open spec fn projects_equiv(p1: Project, p2: Project) -> bool {
    &&& p1.name@ == p2.name@
    &&& p1.absolute_path@ == p2.absolute_path@
    &&& p1.project_type@ == p2.project_type@
    &&& p1.modules@.len() == p2.modules@.len()
    &&& forall|k: int|
        0 <= k < p1.modules@.len() ==> modules_equiv(#[trigger] p1.modules@[k], p2.modules@[k])
}

/// A marker file wins in a listing exactly when the listing holds one.
pub proof fn lemma_build_file_found(entries: Seq<Seq<char>>)
    ensures
        spec_build_file(entries) is Some <==> spec_has_build_file(entries),
{
    if spec_has_build_file(entries) {
        let i = choose|i: int| 0 <= i < entries.len() && spec_is_build_file(#[trigger] entries[i]);
        assert(entries[i] == "pom.xml"@ || entries[i] == "build.gradle"@);
        assert(spec_contains_name(entries, "pom.xml"@) || spec_contains_name(
            entries,
            "build.gradle"@,
        ));
    }
    if spec_build_file(entries) is Some {
        if spec_contains_name(entries, "pom.xml"@) {
            let i = choose|i: int| 0 <= i < entries.len() && entries[i] == "pom.xml"@;
            assert(spec_is_build_file(entries[i]));
        } else {
            let i = choose|i: int| 0 <= i < entries.len() && entries[i] == "build.gradle"@;
            assert(spec_is_build_file(entries[i]));
        }
    }
}

/// The project type is maven exactly when the Maven marker stands directly in
/// the root listing; a listing whose only marker is the Gradle one is left
/// with the unclassified type.
pub proof fn lemma_project_type_classification(entries: Seq<Seq<char>>)
    ensures
        spec_build_file(entries) is Some ==> ((spec_project_type(spec_build_file(entries)->Some_0)
            == "maven"@) <==> spec_contains_name(entries, "pom.xml"@)),
        !spec_contains_name(entries, "pom.xml"@) && spec_contains_name(entries, "build.gradle"@)
            ==> spec_project_type(spec_build_file(entries)->Some_0) == "unknown"@,
{
    reveal_strlit("pom.xml");
    reveal_strlit("build.gradle");
    reveal_strlit("maven");
    reveal_strlit("unknown");
    assert("maven"@.len() == 5);
    assert("unknown"@.len() == 7);
    assert("pom.xml"@.len() == 7);
    assert("build.gradle"@.len() == 12);
}

/// A successfully analyzed Maven module carries the four conventional content
/// roots, each category holding exactly one joined path.
pub proof fn lemma_module_content_root_convention(d: DirSnapshot, path: Seq<char>, m: Module)
    requires
        module_matches(d, path, m),
    ensures
        m.content_root.source_root.deep_view() == seq![maven_source_root()],
        m.content_root.resource_root.deep_view() == seq![maven_resource_root()],
        m.content_root.test_source_root.deep_view() == seq![maven_test_source_root()],
        m.content_root.test_resource_root.deep_view() == seq![maven_test_resource_root()],
{
}

/// Analysis is deterministic at the module level: two modules that match the
/// same directory at the same path are structurally equal.
pub proof fn lemma_module_matches_unique(d: DirSnapshot, path: Seq<char>, m1: Module, m2: Module)
    requires
        module_matches(d, path, m1),
        module_matches(d, path, m2),
    ensures
        modules_equiv(m1, m2),
    decreases d,
{
    let plan = spec_sub_plan(d, spec_decls(d));
    assert forall|k: int| 0 <= k < m1.sub_modules@.len() implies modules_equiv(
        #[trigger] m1.sub_modules@[k],
        m2.sub_modules@[k],
    ) by {
        let s1 = m1.sub_modules@[k];
        let s2 = m2.sub_modules@[k];
        assert(0 <= plan[k] < d.children@.len());
        lemma_module_matches_unique(
            d.children@[plan[k]],
            spec_join(path, seq![d.children@[plan[k]].name@]),
            m1.sub_modules@[k],
            m2.sub_modules@[k],
        );
    }
}

/// Analysis is idempotent: two projects that satisfy the analysis contract
/// for the same path and the same unmodified snapshot are structurally equal.
pub proof fn lemma_analysis_deterministic(
    analyzers: Seq<RegisteredAnalyzer>,
    path: Seq<char>,
    root: DirSnapshot,
    p1: Project,
    p2: Project,
)
    requires
        spec_project_ok(analyzers, path, root, p1),
        spec_project_ok(analyzers, path, root, p2),
    ensures
        projects_equiv(p1, p2),
{
    match spec_first_related(analyzers, p1.project_type@) {
        None => {
        },
        Some(i) => {
            let a = analyzers[i as int];
            match a {
                RegisteredAnalyzer::Maven(_) => {
                    if p1.modules@.len() == 1 && p2.modules@.len() == 0 {
                        assert(spec_has_maven_marker(root));
                        assert(!spec_has_maven_marker(root));
                    }
                    if p1.modules@.len() == 0 && p2.modules@.len() == 1 {
                        assert(spec_has_maven_marker(root));
                        assert(!spec_has_maven_marker(root));
                    }
                    if p1.modules@.len() == 1 && p2.modules@.len() == 1 {
                        lemma_module_matches_unique(root, path, p1.modules@[0], p2.modules@[0]);
                    }
                },
            }
        },
    }
}

/// Absence: a directory with no recognized marker file is not a recognized
/// project root, and analyzing it fails with the missing-build-file error.
pub proof fn lemma_no_marker_no_project(
    analyzers: Seq<RegisteredAnalyzer>,
    path: Seq<char>,
    root: DirSnapshot,
)
    requires
        !spec_has_build_file(root.entries.deep_view()),
        spec_project_name(path).len() > 0,
    ensures
        spec_analysis_error(analyzers, path, root) == Some(AnalysisError::NoBuildFileFound),
{
    lemma_build_file_found(root.entries.deep_view());
}

/// A module tree built by the Maven analysis at a non-empty path is
/// well-formed: every sub-module's path strictly extends its parent's.
pub proof fn lemma_module_matches_wf(d: DirSnapshot, path: Seq<char>, m: Module)
    requires
        module_matches(d, path, m),
        path.len() > 0,
    ensures
        wf_module(m),
    decreases d,
{
    let plan = spec_sub_plan(d, spec_decls(d));
    assert forall|k: int| 0 <= k < m.sub_modules@.len() implies {
        &&& (#[trigger] m.sub_modules@[k]).path@.len() > m.path@.len()
        &&& wf_module(m.sub_modules@[k])
    } by {
        let sub = m.sub_modules@[k];
        assert(0 <= plan[k] < d.children@.len());
        let c = d.children@[plan[k]];
        let segs = seq![c.name@];
        let sub_path = spec_join(path, segs);
        assert(segs.drop_first() =~= Seq::<Seq<char>>::empty());
        assert(sub_path == spec_join(path + crate::files::spec_sep() + c.name@, segs.drop_first()));
        assert(spec_join(path + crate::files::spec_sep() + c.name@, segs.drop_first()) == path
            + crate::files::spec_sep() + c.name@);
        assert(sub_path.len() > path.len());
        lemma_module_matches_wf(c, sub_path, m.sub_modules@[k]);
    }
}

/// Tree-acyclicity: no module of a successfully analyzed project stands
/// anywhere below itself.
pub proof fn lemma_project_modules_acyclic(
    analyzers: Seq<RegisteredAnalyzer>,
    path: Seq<char>,
    root: DirSnapshot,
    p: Project,
)
    requires
        spec_project_ok(analyzers, path, root, p),
        spec_project_name(path).len() > 0,
    ensures
        forall|k: int|
            0 <= k < p.modules@.len() ==> !is_strict_descendant(
                #[trigger] p.modules@[k],
                p.modules@[k],
            ),
{
    assert(spec_project_name(path).len() <= path.len()) by {
        crate::psa_jvm::lemma_last_sep_bounds(path);
    }
    match spec_first_related(analyzers, p.project_type@) {
        None => {
        },
        Some(i) => {
            match analyzers[i as int] {
                RegisteredAnalyzer::Maven(_) => {
                    if p.modules@.len() == 1 {
                        lemma_module_matches_wf(root, path, p.modules@[0]);
                        lemma_wf_module_acyclic(p.modules@[0]);
                    }
                },
            }
        },
    }
}

/// Multi-module discovery: a successfully analyzed Maven project whose root
/// descriptor declares exactly two sub-modules, each resolving to a child
/// directory that is itself a Maven module, has one top-level module whose
/// sub-modules are those two, in declaration order.
pub proof fn lemma_two_declared_sub_modules(
    analyzers: Seq<RegisteredAnalyzer>,
    path: Seq<char>,
    root: DirSnapshot,
    p: Project,
    n1: Seq<char>,
    n2: Seq<char>,
    c1: nat,
    c2: nat,
)
    requires
        spec_project_ok(analyzers, path, root, p),
        analyzers.len() > 0,
        analyzers[0] is Maven,
        spec_has_maven_marker(root),
        spec_decls(root) == seq![n1, n2],
        spec_child_index(root.children@, n1) == Some(c1),
        spec_child_index(root.children@, n2) == Some(c2),
        spec_has_maven_marker(root.children@[c1 as int]),
        spec_has_maven_marker(root.children@[c2 as int]),
    ensures
        p.project_type@ == "maven"@,
        p.modules@.len() == 1,
        p.modules@[0].sub_modules@.len() == 2,
        p.modules@[0].sub_modules@[0].name@ == n1,
        p.modules@[0].sub_modules@[1].name@ == n2,
{
    let entries = root.entries.deep_view();
    assert(spec_contains_name(entries, "pom.xml"@)) by {
        let i = choose|i: int| 0 <= i < entries.len() && entries[i] == "pom.xml"@;
    }
    assert(spec_build_file(entries) == Some("pom.xml"@));
    assert(p.project_type@ == "maven"@);
    assert(analyzers[0].spec_related("maven"@));
    assert(spec_first_related(analyzers, "maven"@) == Some(0nat));
    let decls = spec_decls(root);
    lemma_child_index_bounds(root.children@, n1, 0);
    lemma_child_index_bounds(root.children@, n2, 0);
    let plan = spec_sub_plan(root, decls);
    assert(decls[0] == n1);
    assert(decls.drop_first() =~= seq![n2]);
    assert(seq![n2].drop_first() =~= Seq::<Seq<char>>::empty());
    assert(spec_sub_plan(root, seq![n2]) == seq![c2 as int] + spec_sub_plan(
        root,
        Seq::<Seq<char>>::empty(),
    ));
    assert(plan =~= seq![c1 as int, c2 as int]);
    if p.modules@.len() == 0 {
        assert(!spec_has_maven_marker(root));
    }
    assert(p.modules@.len() == 1);
    let m = p.modules@[0];
    assert(module_matches(root, path, m));
    assert(m.sub_modules@.len() == 2);
    assert(module_matches(
        root.children@[plan[0]],
        spec_join(path, seq![root.children@[plan[0]].name@]),
        m.sub_modules@[0],
    ));
    assert(module_matches(
        root.children@[plan[1]],
        spec_join(path, seq![root.children@[plan[1]].name@]),
        m.sub_modules@[1],
    ));
    assert(m.sub_modules@[0].name@ == root.children@[c1 as int].name@);
    assert(m.sub_modules@[1].name@ == root.children@[c2 as int].name@);
}

} // verus!
