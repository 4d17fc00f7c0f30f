//! Projects and the analysis error taxonomy.

use vstd::prelude::*;
use crate::psa_module::Module;

verus! {

/// Why an analysis call failed.
#[derive(Clone, Copy, Debug, PartialEq, Eq, Structural)]
pub enum AnalysisError {
    /// No recognized build-descriptor marker file exists at the project root.
    NoBuildFileFound,
    /// The project path's final segment cannot be extracted as a name.
    UnrecognizedProjectPath,
    /// A declared sub-module name is not a plain directory name, so it could
    /// point outside its module or form a cycle.
    MalformedSubModuleDeclaration,
}

/// The root unit of analysis: one directory tree recognized as following a
/// supported build-system convention.
pub struct Project {
    pub name: String,
    pub absolute_path: String,
    pub project_type: String,
    pub modules: Vec<Module>,
}

impl Project {
    /// A project shell with no modules yet.
    pub fn new(name: String, absolute_path: String, project_type: String) -> (r: Project)
        ensures
            r.name == name,
            r.absolute_path == absolute_path,
            r.project_type == project_type,
            r.modules@ =~= Seq::<Module>::empty(),
    {
        Project { name, absolute_path, project_type, modules: Vec::new() }
    }

    /// Moves `modules` to the end of this project's module list.
    pub fn add_modules(&mut self, modules: &mut Vec<Module>)
        ensures
            final(self).name == old(self).name,
            final(self).absolute_path == old(self).absolute_path,
            final(self).project_type == old(self).project_type,
            final(self).modules@ == old(self).modules@ + old(modules)@,
            final(modules)@ =~= Seq::<Module>::empty(),
    {
        self.modules.append(modules);
    }
}

} // verus!
