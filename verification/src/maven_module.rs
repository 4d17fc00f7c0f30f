//! The Maven module analyzer: recognizes Maven modules and recursively
//! analyzes the sub-modules their descriptors declare.

use vstd::prelude::*;
use vstd::string::*;
use crate::dir_snapshot::{lemma_child_index_bounds, spec_child_index, DirSnapshot};
use crate::files::{join_path, spec_join};
use crate::pom::{parse_module_declarations, spec_declared_modules};
use crate::psa_content_root::{is_maven_content_root, maven_content_root};
use crate::psa_jvm::ModuleAnalyzer;
use crate::psa_module::Module;
use crate::psa_project::{AnalysisError, Project};
use crate::strutil::{contains_name, spec_contains_name, str_eq};

verus! {

/// Whether the directory holds the Maven marker file directly.
pub open spec fn spec_has_maven_marker(d: DirSnapshot) -> bool {
    spec_contains_name(d.entries.deep_view(), "pom.xml"@)
}

/// The sub-module names the directory's descriptor declares.
pub open spec fn spec_decls(d: DirSnapshot) -> Seq<Seq<char>> {
    match d.descriptor {
        Some(s) => spec_declared_modules(s@),
        None => Seq::empty(),
    }
}

/// A declared sub-module name is well-formed when it is one plain directory
/// name: non-empty, free of path separators, and neither `.` nor `..`, so it
/// can neither point outside its module nor form a cycle.
pub open spec fn spec_valid_module_name(n: Seq<char>) -> bool {
    &&& n.len() > 0
    &&& (forall|i: int| 0 <= i < n.len() ==> n[i] != '/' && n[i] != '\\')
    &&& n != "."@
    &&& n != ".."@
}

/// The positions, among the directory's children and in declaration order, of
/// the declared sub-modules that resolve to a child directory holding the
/// Maven marker. A declared name with no such child is skipped.
pub open spec fn spec_sub_plan(d: DirSnapshot, decls: Seq<Seq<char>>) -> Seq<int>
    decreases decls.len(),
{
    if decls.len() == 0 {
        Seq::empty()
    } else {
        match spec_child_index(d.children@, decls[0]) {
            None => spec_sub_plan(d, decls.drop_first()),
            Some(ci) => {
                if spec_has_maven_marker(d.children@[ci as int]) {
                    seq![ci as int] + spec_sub_plan(d, decls.drop_first())
                } else {
                    spec_sub_plan(d, decls.drop_first())
                }
            },
        }
    }
}

/// What the Maven analysis returns on success for directory `d` reached at
/// `path`: the directory's own name, the path it was reached at, the Maven
/// content roots, and one sub-module per resolved declaration, in order.
pub open spec fn module_matches(d: DirSnapshot, path: Seq<char>, m: Module) -> bool
    decreases d,
{
    let plan = spec_sub_plan(d, spec_decls(d));
    &&& m.name@ == d.name@
    &&& m.path@ == path
    &&& is_maven_content_root(m.content_root)
    &&& m.sub_modules@.len() == plan.len()
    &&& forall|k: int|
        0 <= k < plan.len() ==> {
            &&& 0 <= plan[k] < d.children@.len()
            &&& module_matches(
                d.children@[plan[k]],
                spec_join(path, seq![d.children@[plan[k]].name@]),
                #[trigger] m.sub_modules@[k],
            )
        }
}

/// Whether the Maven analysis of `d` fails: the directory is a Maven module
/// and a malformed sub-module name is declared there or anywhere below.
pub open spec fn maven_fails(d: DirSnapshot) -> bool
    decreases d,
{
    let decls = spec_decls(d);
    let plan = spec_sub_plan(d, decls);
    spec_has_maven_marker(d) && ((exists|i: int|
        0 <= i < decls.len() && !spec_valid_module_name(#[trigger] decls[i])) || (exists|k: int|
        0 <= k < plan.len() && 0 <= plan[k] < d.children@.len() && maven_fails(
            #[trigger] d.children@[plan[k]],
        )))
}

/// Whether `name` is a well-formed declared sub-module name.
fn is_valid_module_name(name: &str) -> (r: bool)
    ensures
        r == spec_valid_module_name(name@),
{
    let len = name.unicode_len();
    if len == 0 {
        return false;
    }
    if str_eq(name, ".") || str_eq(name, "..") {
        return false;
    }
    let mut i: usize = 0;
    while i < len
        invariant
            0 <= i <= len,
            len == name@.len(),
            forall|k: int| 0 <= k < i ==> name@[k] != '/' && name@[k] != '\\',
        decreases len - i,
    {
        let c = name.get_char(i);
        if c == '/' || c == '\\' {
            return false;
        }
        i = i + 1;
    }
    true
}

/// The first child directory called `name`, if any.
fn find_child<'a>(children: &'a Vec<DirSnapshot>, name: &str) -> (r: Option<usize>)
    ensures
        match r {
            Some(ci) => spec_child_index(children@, name@) == Some(ci as nat),
            None => spec_child_index(children@, name@) is None,
        },
{
    let mut j: usize = 0;
    while j < children.len()
        invariant
            0 <= j <= children.len(),
            spec_child_index(children@, name@) == crate::dir_snapshot::spec_child_index_from(
                children@,
                name@,
                j as nat,
            ),
        decreases children.len() - j,
    {
        if str_eq(children[j].name.as_str(), name) {
            return Some(j);
        }
        j = j + 1;
    }
    None
}

/// Analyzes one directory as a Maven module: returns no module where the
/// Maven marker is absent, fails on a malformed sub-module declaration, and
/// otherwise builds the module with its resolved sub-modules in declaration
/// order.
pub fn maven_analysis(dir: &DirSnapshot, dir_path: &str) -> (r: Result<
    Option<Module>,
    AnalysisError,
>)
    ensures
        match r {
            Ok(m_opt) => !maven_fails(*dir) && match m_opt {
                None => !spec_has_maven_marker(*dir),
                Some(m) => spec_has_maven_marker(*dir) && module_matches(*dir, dir_path@, m),
            },
            Err(e) => maven_fails(*dir) && e == AnalysisError::MalformedSubModuleDeclaration,
        },
    decreases *dir,
{
    if !contains_name(&dir.entries, "pom.xml") {
        return Ok(None);
    }
    let decl_names: Vec<String> = match &dir.descriptor {
        Some(s) => parse_module_declarations(s.as_str()),
        None => Vec::new(),
    };
    let ghost decls = spec_decls(*dir);
    let ghost plan = spec_sub_plan(*dir, decls);
    proof {
        assert(decl_names.deep_view() =~= decls);
        assert(decls.skip(0) =~= decls);
        assert(plan.skip(0) =~= plan);
    }
    let mut subs: Vec<Module> = Vec::new();
    let mut i: usize = 0;
    while i < decl_names.len()
        invariant
            0 <= i <= decl_names.len(),
            decl_names.deep_view() == decls,
            decls == spec_decls(*dir),
            plan == spec_sub_plan(*dir, decls),
            spec_has_maven_marker(*dir),
            forall|t: int| 0 <= t < i ==> spec_valid_module_name(#[trigger] decls[t]),
            spec_sub_plan(*dir, decls.skip(i as int)) == plan.skip(subs.len() as int),
            subs.len() <= plan.len(),
            forall|k: int|
                #![trigger plan[k]]
                0 <= k < subs.len() ==> {
                    &&& 0 <= plan[k] < dir.children@.len()
                    &&& !maven_fails(dir.children@[plan[k]])
                    &&& module_matches(
                        dir.children@[plan[k]],
                        spec_join(dir_path@, seq![dir.children@[plan[k]].name@]),
                        subs@[k],
                    )
                },
        decreases decl_names.len() - i,
    {
        let name = &decl_names[i];
        proof {
            assert(name@ == decls[i as int]);
        }
        if !is_valid_module_name(name.as_str()) {
            proof {
                assert(0 <= i < decls.len() && !spec_valid_module_name(decls[i as int]));
                assert(maven_fails(*dir));
            }
            return Err(AnalysisError::MalformedSubModuleDeclaration);
        }
        let ghost rest = decls.skip(i as int);
        proof {
            assert(rest.len() > 0);
            assert(rest[0] == decls[i as int]);
            assert(rest.drop_first() =~= decls.skip(i as int + 1));
        }
        match find_child(&dir.children, name.as_str()) {
            None => {
                proof {
                    assert(spec_sub_plan(*dir, decls.skip(i as int + 1)) == plan.skip(
                        subs.len() as int,
                    ));
                }
            },
            Some(ci) => {
                proof {
                    lemma_child_index_bounds(dir.children@, name@, 0);
                }
                let child = &dir.children[ci];
                if contains_name(&child.entries, "pom.xml") {
                    let ghost n = subs.len() as int;
                    proof {
                        assert(plan.skip(n) == seq![ci as int] + spec_sub_plan(
                            *dir,
                            decls.skip(i as int + 1),
                        ));
                        assert(plan.skip(n).len() > 0);
                        assert(n < plan.len());
                        assert(plan[n] == plan.skip(n)[0]);
                        assert(plan[n] == ci as int);
                        assert(plan.skip(n).drop_first() =~= plan.skip(n + 1));
                        assert(spec_sub_plan(*dir, decls.skip(i as int + 1)) == plan.skip(n + 1));
                    }
                    let segments: Vec<&str> = vec![child.name.as_str()];
                    proof {
                        assert(segments.deep_view() =~= seq![child.name@]);
                    }
                    let child_path = join_path(dir_path, segments);
                    match maven_analysis(child, child_path.as_str()) {
                        Err(e) => {
                            proof {
                                assert(maven_fails(dir.children@[plan[n]]));
                                assert(maven_fails(*dir));
                            }
                            return Err(e);
                        },
                        Ok(None) => {
                            // the child holds the Maven marker, so the
                            // analysis cannot have declined it
                            proof {
                                assert(false);
                            }
                        },
                        Ok(Some(sub)) => {
                            let ghost prev = subs@;
                            subs.push(sub);
                            proof {
                                assert(subs@ =~= prev.push(sub));
                            }
                        },
                    }
                } else {
                    proof {
                        assert(spec_sub_plan(*dir, decls.skip(i as int + 1)) == plan.skip(
                            subs.len() as int,
                        ));
                    }
                }
            },
        }
        i = i + 1;
    }
    proof {
        assert(decls.skip(decl_names.len() as int) =~= Seq::<Seq<char>>::empty());
        assert(plan.skip(subs.len() as int).len() == 0);
        assert(plan.skip(subs.len() as int) =~= plan.skip(plan.len() as int));
        assert(subs.len() == plan.len());
        assert(!maven_fails(*dir));
    }
    let content_root = maven_content_root();
    let m = Module {
        name: dir.name.clone(),
        path: dir_path.to_owned(),
        content_root,
        sub_modules: subs,
    };
    proof {
        assert(module_matches(*dir, dir_path@, m));
    }
    Ok(Some(m))
}

/// The Maven implementation of the module-analyzer capability.
pub struct MavenModuleAnalyzer {}

impl ModuleAnalyzer for MavenModuleAnalyzer {
    open spec fn spec_related(&self, project_type: Seq<char>) -> bool {
        project_type == "maven"@
    }

    open spec fn spec_fails(&self, dir: DirSnapshot) -> bool {
        maven_fails(dir)
    }

    open spec fn spec_module_ok(&self, dir: DirSnapshot, path: Seq<char>, m_opt: Option<Module>) -> bool {
        match m_opt {
            None => !spec_has_maven_marker(dir),
            Some(m) => spec_has_maven_marker(dir) && module_matches(dir, path, m),
        }
    }

    fn is_related(&self, project: &Project) -> (r: bool) {
        str_eq(project.project_type.as_str(), "maven")
    }

    fn analysis(&self, dir: &DirSnapshot, dir_path: &str) -> (r: Result<
        Option<Module>,
        AnalysisError,
    >) {
        maven_analysis(dir, dir_path)
    }
}

} // verus!
