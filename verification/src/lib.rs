//! Project structure analysis for managed-build source trees.
//!
//! The library inspects a snapshot of a directory tree (see
//! [`dir_snapshot::DirSnapshot`]) and produces a hierarchical description of
//! the project it contains: its name, the build system that governs it, and,
//! for every module and sub-module discovered through the build descriptor's
//! module declarations, the conventional source, resource, test-source and
//! test-resource directories.
//!
//! Listing directories and reading descriptor files is left to the caller;
//! the analysis itself is a pure function of the snapshot it is handed.

pub mod dir_snapshot;
pub mod files;
pub mod laws;
pub mod maven_module;
pub mod pom;
pub mod psa_content_root;
pub mod psa_jvm;
pub mod psa_module;
pub mod psa_project;
pub mod strutil;

pub use dir_snapshot::DirSnapshot;
pub use maven_module::MavenModuleAnalyzer;
pub use psa_content_root::ContentRoot;
pub use psa_jvm::JvmProjectStructureAnalyzer;
pub use psa_jvm::ModuleAnalyzer;
pub use psa_module::Module;
pub use psa_project::AnalysisError;
pub use psa_project::Project;
