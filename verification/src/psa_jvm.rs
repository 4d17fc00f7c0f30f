//! Build-system detection and the project structure analyzer that
//! orchestrates the registered module analyzers.

use vstd::prelude::*;
use vstd::string::*;
use crate::dir_snapshot::DirSnapshot;
use crate::maven_module::MavenModuleAnalyzer;
use crate::psa_module::Module;
use crate::psa_project::{AnalysisError, Project};
use crate::strutil::{contains_name, spec_contains_name, str_eq};

verus! {

/// The module-analyzer capability: one implementation per supported build
/// system decides whether it governs a project and, if so, builds the module
/// tree for a directory.
pub trait ModuleAnalyzer {
    /// Whether this analyzer governs projects of the given type.
    spec fn spec_related(&self, project_type: Seq<char>) -> bool;

    /// Whether analysis of `dir` fails on a malformed sub-module declaration.
    spec fn spec_fails(&self, dir: DirSnapshot) -> bool;

    /// What a successful analysis of `dir` reached at `path` returns.
    spec fn spec_module_ok(&self, dir: DirSnapshot, path: Seq<char>, m_opt: Option<Module>) -> bool;

    /// Whether this analyzer is the one that should govern `project`.
    fn is_related(&self, project: &Project) -> (r: bool)
        ensures
            r == self.spec_related(project.project_type@),
    ;

    /// Attempts to construct the module tree for the directory `dir` reached
    /// at `dir_path`.
    fn analysis(&self, dir: &DirSnapshot, dir_path: &str) -> (r: Result<
        Option<Module>,
        AnalysisError,
    >)
        ensures
            match r {
                Ok(m_opt) => !self.spec_fails(*dir) && self.spec_module_ok(
                    *dir,
                    dir_path@,
                    m_opt,
                ),
                Err(e) => self.spec_fails(*dir) && e
                    == AnalysisError::MalformedSubModuleDeclaration,
            },
    ;
}

/// The statically known registry entry of one module analyzer.
pub enum RegisteredAnalyzer {
    Maven(MavenModuleAnalyzer),
}

impl ModuleAnalyzer for RegisteredAnalyzer {
    open spec fn spec_related(&self, project_type: Seq<char>) -> bool {
        match self {
            RegisteredAnalyzer::Maven(a) => a.spec_related(project_type),
        }
    }

    open spec fn spec_fails(&self, dir: DirSnapshot) -> bool {
        match self {
            RegisteredAnalyzer::Maven(a) => a.spec_fails(dir),
        }
    }

    open spec fn spec_module_ok(&self, dir: DirSnapshot, path: Seq<char>, m_opt: Option<Module>) -> bool {
        match self {
            RegisteredAnalyzer::Maven(a) => a.spec_module_ok(dir, path, m_opt),
        }
    }

    fn is_related(&self, project: &Project) -> (r: bool) {
        match self {
            RegisteredAnalyzer::Maven(a) => a.is_related(project),
        }
    }

    fn analysis(&self, dir: &DirSnapshot, dir_path: &str) -> (r: Result<
        Option<Module>,
        AnalysisError,
    >) {
        match self {
            RegisteredAnalyzer::Maven(a) => a.analysis(dir, dir_path),
        }
    }
}

/// Whether `name` is a recognized build-descriptor marker file name.
pub open spec fn spec_is_build_file(name: Seq<char>) -> bool {
    name == "pom.xml"@ || name == "build.gradle"@
}

/// Whether the listing holds a recognized marker file.
pub open spec fn spec_has_build_file(entries: Seq<Seq<char>>) -> bool {
    exists|i: int| 0 <= i < entries.len() && spec_is_build_file(#[trigger] entries[i])
}

/// The marker file that wins in the listing, under the fixed priority order:
/// the Maven descriptor first, then the Gradle one.
pub open spec fn spec_build_file(entries: Seq<Seq<char>>) -> Option<Seq<char>> {
    if spec_contains_name(entries, "pom.xml"@) {
        Some("pom.xml"@)
    } else if spec_contains_name(entries, "build.gradle"@) {
        Some("build.gradle"@)
    } else {
        None
    }
}

/// The classification a marker file indicates: the Maven descriptor names the
/// type maven; any other recognized marker is left unclassified.
pub open spec fn spec_project_type(build_file: Seq<char>) -> Seq<char> {
    if build_file == "pom.xml"@ {
        "maven"@
    } else {
        "unknown"@
    }
}

/// The position of the last path separator of `s`, or -1 where none occurs.
pub open spec fn spec_last_sep(s: Seq<char>) -> int
    decreases s.len(),
{
    if s.len() == 0 {
        -1
    } else if s[s.len() - 1] == '/' {
        s.len() - 1
    } else {
        spec_last_sep(s.drop_last())
    }
}

/// The final segment of a path: everything past its last separator.
pub open spec fn spec_project_name(path: Seq<char>) -> Seq<char> {
    path.subrange(spec_last_sep(path) + 1, path.len() as int)
}

/// The last separator lies inside the path.
pub proof fn lemma_last_sep_bounds(s: Seq<char>)
    ensures
        -1 <= spec_last_sep(s) < s.len(),
    decreases s.len(),
{
    if s.len() == 0 {
    } else if s[s.len() - 1] == '/' {
    } else {
        lemma_last_sep_bounds(s.drop_last());
    }
}

/// Whether `file_name` is a recognized build-descriptor marker file name.
pub fn is_build_file(file_name: &str) -> (r: bool)
    ensures
        r == spec_is_build_file(file_name@),
{
    str_eq(file_name, "pom.xml") || str_eq(file_name, "build.gradle")
}

/// The winning marker file of a listing, under the fixed priority order.
pub fn get_build_file(entries: &Vec<String>) -> (r: Option<String>)
    ensures
        match r {
            Some(b) => spec_build_file(entries.deep_view()) == Some(b@),
            None => spec_build_file(entries.deep_view()) is None,
        },
{
    if contains_name(entries, "pom.xml") {
        Some(String::from_str("pom.xml"))
    } else if contains_name(entries, "build.gradle") {
        Some(String::from_str("build.gradle"))
    } else {
        None
    }
}

/// The classification the winning marker file indicates.
pub fn get_project_type(build_file: String) -> (r: String)
    ensures
        r@ == spec_project_type(build_file@),
{
    if str_eq(build_file.as_str(), "pom.xml") {
        String::from_str("maven")
    } else {
        String::from_str("unknown")
    }
}

/// The position right past the last separator of `s`: where the final path
/// segment starts.
fn last_sep_end(s: &str) -> (r: usize)
    ensures
        r as int == spec_last_sep(s@) + 1,
{
    let len = s.unicode_len();
    let mut j = len;
    proof {
        assert(s@.take(len as int) =~= s@);
    }
    loop
        invariant
            0 <= j <= len,
            len == s@.len(),
            spec_last_sep(s@) == spec_last_sep(s@.take(j as int)),
        decreases j,
    {
        if j == 0 {
            proof {
                assert(s@.take(0) =~= Seq::<char>::empty());
            }
            return 0;
        }
        let ghost t = s@.take(j as int);
        proof {
            assert(t.len() == j);
            assert(t[j - 1] == s@[j - 1]);
        }
        if s.get_char(j - 1) == '/' {
            return j;
        }
        proof {
            assert(t.drop_last() =~= s@.take(j - 1));
        }
        j = j - 1;
    }
}

/// The name a project takes from its path: the final path segment, or
/// nothing where that segment is empty.
pub fn get_project_name(project_path: &str) -> (r: Option<String>)
    ensures
        match r {
            Some(n) => n@ == spec_project_name(project_path@) && n@.len() > 0,
            None => spec_project_name(project_path@).len() == 0,
        },
{
    let len = project_path.unicode_len();
    let start = last_sep_end(project_path);
    proof {
        lemma_last_sep_bounds(project_path@);
    }
    if start == len {
        None
    } else {
        let name = project_path.substring_char(start, len).to_owned();
        Some(name)
    }
}

/// The first registered analyzer at or past position `i` that governs the
/// given project type.
pub open spec fn spec_first_related_from(
    analyzers: Seq<RegisteredAnalyzer>,
    project_type: Seq<char>,
    i: nat,
) -> Option<nat>
    decreases analyzers.len() - i when i <= analyzers.len()
{
    if i >= analyzers.len() {
        None
    } else if analyzers[i as int].spec_related(project_type) {
        Some(i)
    } else {
        spec_first_related_from(analyzers, project_type, i + 1)
    }
}

/// The first registered analyzer that governs the given project type: the
/// one that wins under the first-match rule.
pub open spec fn spec_first_related(
    analyzers: Seq<RegisteredAnalyzer>,
    project_type: Seq<char>,
) -> Option<nat> {
    spec_first_related_from(analyzers, project_type, 0)
}

/// Whether the first-match analyzer, if any, fails on `root`.
pub open spec fn spec_modules_fail(
    analyzers: Seq<RegisteredAnalyzer>,
    project_type: Seq<char>,
    root: DirSnapshot,
) -> bool {
    match spec_first_related(analyzers, project_type) {
        None => false,
        Some(i) => analyzers[i as int].spec_fails(root),
    }
}

/// What module discovery leaves in a project's module list: nothing where no
/// analyzer is related or the related one declines the root, else exactly the
/// module the first related analyzer builds.
pub open spec fn spec_modules_ok(
    analyzers: Seq<RegisteredAnalyzer>,
    project_type: Seq<char>,
    root: DirSnapshot,
    path: Seq<char>,
    modules: Seq<Module>,
) -> bool {
    match spec_first_related(analyzers, project_type) {
        None => modules.len() == 0,
        Some(i) => (modules.len() == 0 && analyzers[i as int].spec_module_ok(
            root,
            path,
            None,
        )) || (modules.len() == 1 && analyzers[i as int].spec_module_ok(
            root,
            path,
            Some(modules[0]),
        )),
    }
}

/// The error `analysis` returns for the given path and snapshot, or nothing
/// where it succeeds.
pub open spec fn spec_analysis_error(
    analyzers: Seq<RegisteredAnalyzer>,
    path: Seq<char>,
    root: DirSnapshot,
) -> Option<AnalysisError> {
    if spec_project_name(path).len() == 0 {
        Some(AnalysisError::UnrecognizedProjectPath)
    } else if spec_build_file(root.entries.deep_view()) is None {
        Some(AnalysisError::NoBuildFileFound)
    } else if spec_modules_fail(
        analyzers,
        spec_project_type(spec_build_file(root.entries.deep_view())->Some_0),
        root,
    ) {
        Some(AnalysisError::MalformedSubModuleDeclaration)
    } else {
        None
    }
}

/// What `analysis` returns on success: the project named after the path's
/// final segment, classified by the winning marker file, with the modules the
/// first related analyzer discovered.
pub open spec fn spec_project_ok(
    analyzers: Seq<RegisteredAnalyzer>,
    path: Seq<char>,
    root: DirSnapshot,
    p: Project,
) -> bool {
    &&& p.name@ == spec_project_name(path)
    &&& p.absolute_path@ == path
    &&& p.project_type@ == spec_project_type(spec_build_file(root.entries.deep_view())->Some_0)
    &&& spec_modules_ok(analyzers, p.project_type@, root, path, p.modules@)
}

/// The project structure analyzer for JVM build systems: an ordered registry
/// of module analyzers consulted under the first-match rule.
pub struct JvmProjectStructureAnalyzer {
    pub module_analyzers: Vec<RegisteredAnalyzer>,
}

impl JvmProjectStructureAnalyzer {
    /// An analyzer over an explicitly ordered registry.
    pub fn new(module_analyzers: Vec<RegisteredAnalyzer>) -> (r: Self)
        ensures
            r.module_analyzers == module_analyzers,
    {
        JvmProjectStructureAnalyzer { module_analyzers }
    }

    /// Asks each registered analyzer, in order, whether it governs the
    /// project; the first related one analyzes the root directory, and the
    /// rest are not consulted.
    pub fn analysis_module(&self, project: &Project, root: &DirSnapshot) -> (r: Result<
        Option<Module>,
        AnalysisError,
    >)
        ensures
            match r {
                Ok(m_opt) => {
                    &&& !spec_modules_fail(self.module_analyzers@, project.project_type@, *root)
                    &&& match spec_first_related(self.module_analyzers@, project.project_type@) {
                        None => m_opt is None,
                        Some(i) => self.module_analyzers@[i as int].spec_module_ok(
                            *root,
                            project.absolute_path@,
                            m_opt,
                        ),
                    }
                },
                Err(e) => spec_modules_fail(self.module_analyzers@, project.project_type@, *root)
                    && e == AnalysisError::MalformedSubModuleDeclaration,
            },
    {
        let ghost analyzers = self.module_analyzers@;
        let ghost pt = project.project_type@;
        let mut j: usize = 0;
        while j < self.module_analyzers.len()
            invariant
                0 <= j <= analyzers.len(),
                analyzers == self.module_analyzers@,
                pt == project.project_type@,
                spec_first_related(analyzers, pt) == spec_first_related_from(
                    analyzers,
                    pt,
                    j as nat,
                ),
            decreases analyzers.len() - j,
        {
            let analyzer = &self.module_analyzers[j];
            if analyzer.is_related(project) {
                proof {
                    assert(spec_first_related(analyzers, pt) == Some(j as nat));
                }
                return analyzer.analysis(root, project.absolute_path.as_str());
            }
            j = j + 1;
        }
        Ok(None)
    }

    /// Collects the module the first related analyzer discovers, if any.
    pub fn analysis_modules(&self, project: &Project, root: &DirSnapshot) -> (r: Result<
        Vec<Module>,
        AnalysisError,
    >)
        ensures
            match r {
                Ok(ms) => !spec_modules_fail(self.module_analyzers@, project.project_type@, *root)
                    && spec_modules_ok(
                    self.module_analyzers@,
                    project.project_type@,
                    *root,
                    project.absolute_path@,
                    ms@,
                ),
                Err(e) => spec_modules_fail(self.module_analyzers@, project.project_type@, *root)
                    && e == AnalysisError::MalformedSubModuleDeclaration,
            },
    {
        let mut modules: Vec<Module> = Vec::new();
        match self.analysis_module(project, root) {
            Err(e) => Err(e),
            Ok(Some(m)) => {
                let ghost mg = m;
                modules.push(m);
                proof {
                    assert(modules@ =~= seq![mg]);
                }
                Ok(modules)
            },
            Ok(None) => Ok(modules),
        }
    }

    /// Analyzes the project rooted at `project_path`, whose directory tree is
    /// given as the snapshot `root`: derives the project's name from the
    /// path's final segment, classifies its build system from the winning
    /// marker file, and attaches the modules the first related analyzer
    /// discovers. Fails where the name cannot be extracted, where no marker
    /// file exists at the root, or where a sub-module declaration is
    /// malformed.
    pub fn analysis(&self, project_path: &str, root: &DirSnapshot) -> (r: Result<
        Project,
        AnalysisError,
    >)
        ensures
            match r {
                Ok(p) => spec_analysis_error(self.module_analyzers@, project_path@, *root) is None
                    && spec_project_ok(self.module_analyzers@, project_path@, *root, p),
                Err(e) => spec_analysis_error(self.module_analyzers@, project_path@, *root)
                    == Some(e),
            },
    {
        let project_name = match get_project_name(project_path) {
            None => {
                return Err(AnalysisError::UnrecognizedProjectPath);
            },
            Some(n) => n,
        };
        let build_file = match get_build_file(&root.entries) {
            None => {
                return Err(AnalysisError::NoBuildFileFound);
            },
            Some(b) => b,
        };
        let project_type = get_project_type(build_file);
        let mut project = Project::new(
            project_name,
            String::from_str(project_path),
            project_type,
        );
        let mut modules = match self.analysis_modules(&project, root) {
            Err(e) => {
                return Err(e);
            },
            Ok(ms) => ms,
        };
        project.add_modules(&mut modules);
        Ok(project)
    }

    /// Whether a recognized marker file stands directly in the root listing.
    pub fn is_related(&self, root: &DirSnapshot) -> (r: bool)
        ensures
            r == spec_has_build_file(root.entries.deep_view()),
    {
        let mut i: usize = 0;
        while i < root.entries.len()
            invariant
                0 <= i <= root.entries.len(),
                forall|k: int|
                    0 <= k < i ==> !spec_is_build_file(#[trigger] root.entries.deep_view()[k]),
            decreases root.entries.len() - i,
        {
            if is_build_file(root.entries[i].as_str()) {
                proof {
                    assert(spec_is_build_file(root.entries.deep_view()[i as int]));
                }
                return true;
            }
            i = i + 1;
        }
        false
    }
}

impl Default for JvmProjectStructureAnalyzer {
    /// The default registry: the Maven analyzer alone.
    fn default() -> (r: Self)
        ensures
            r.module_analyzers@.len() == 1,
            r.module_analyzers@[0] is Maven,
    {
        let mut module_analyzers: Vec<RegisteredAnalyzer> = Vec::new();
        module_analyzers.push(RegisteredAnalyzer::Maven(MavenModuleAnalyzer {}));
        JvmProjectStructureAnalyzer { module_analyzers }
    }
}

} // verus!
