//! Content roots: the convention-derived directory categories of a module.

use vstd::prelude::*;
use vstd::string::*;
use crate::files::{join_path, spec_join};

verus! {

/// The four content-root categories of one module, each a sequence of paths
/// relative to the module's own directory. A category may be empty or hold
/// several entries; convention-based derivation fills exactly one per
/// category.
pub struct ContentRoot {
    pub source_root: Vec<String>,
    pub resource_root: Vec<String>,
    pub test_source_root: Vec<String>,
    pub test_resource_root: Vec<String>,
}

/// The relative path of the Maven main-source directory: src/main/java.
pub open spec fn maven_source_root() -> Seq<char> {
    spec_join(Seq::<char>::empty(), seq!["src"@, "main"@, "java"@])
}

/// The relative path of the Maven main-resource directory: src/main/resources.
pub open spec fn maven_resource_root() -> Seq<char> {
    spec_join(Seq::<char>::empty(), seq!["src"@, "main"@, "resources"@])
}

/// The relative path of the Maven test-source directory: src/test/java.
pub open spec fn maven_test_source_root() -> Seq<char> {
    spec_join(Seq::<char>::empty(), seq!["src"@, "test"@, "java"@])
}

/// The relative path of the Maven test-resource directory: src/test/resources.
pub open spec fn maven_test_resource_root() -> Seq<char> {
    spec_join(Seq::<char>::empty(), seq!["src"@, "test"@, "resources"@])
}

/// A content root that follows the Maven convention: exactly one entry per
/// category, each the join of the conventional segments.
pub open spec fn is_maven_content_root(cr: ContentRoot) -> bool {
    &&& cr.source_root.deep_view() == seq![maven_source_root()]
    &&& cr.resource_root.deep_view() == seq![maven_resource_root()]
    &&& cr.test_source_root.deep_view() == seq![maven_test_source_root()]
    &&& cr.test_resource_root.deep_view() == seq![maven_test_resource_root()]
}

/// Derives the content roots of a module directory under the Maven
/// convention.
pub fn maven_content_root() -> (r: ContentRoot)
    ensures
        is_maven_content_root(r),
{
    proof {
        reveal_strlit("");
        assert(""@ =~= Seq::<char>::empty());
    }
    let source_segments: Vec<&str> = vec!["src", "main", "java"];
    let resource_segments: Vec<&str> = vec!["src", "main", "resources"];
    let test_source_segments: Vec<&str> = vec!["src", "test", "java"];
    let test_resource_segments: Vec<&str> = vec!["src", "test", "resources"];
    proof {
        assert(source_segments.deep_view() =~= seq!["src"@, "main"@, "java"@]);
        assert(resource_segments.deep_view() =~= seq!["src"@, "main"@, "resources"@]);
        assert(test_source_segments.deep_view() =~= seq!["src"@, "test"@, "java"@]);
        assert(test_resource_segments.deep_view() =~= seq!["src"@, "test"@, "resources"@]);
    }
    let source = join_path("", source_segments);
    let resource = join_path("", resource_segments);
    let test_source = join_path("", test_source_segments);
    let test_resource = join_path("", test_resource_segments);
    let mut source_root: Vec<String> = Vec::new();
    let mut resource_root: Vec<String> = Vec::new();
    let mut test_source_root: Vec<String> = Vec::new();
    let mut test_resource_root: Vec<String> = Vec::new();
    source_root.push(source);
    resource_root.push(resource);
    test_source_root.push(test_source);
    test_resource_root.push(test_resource);
    let r = ContentRoot { source_root, resource_root, test_source_root, test_resource_root };
    proof {
        assert(r.source_root.deep_view() =~= seq![maven_source_root()]);
        assert(r.resource_root.deep_view() =~= seq![maven_resource_root()]);
        assert(r.test_source_root.deep_view() =~= seq![maven_test_source_root()]);
        assert(r.test_resource_root.deep_view() =~= seq![maven_test_resource_root()]);
    }
    r
}

} // verus!
