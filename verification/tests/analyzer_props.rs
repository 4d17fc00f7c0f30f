use psa::dir_snapshot::DirSnapshot;
use psa::files::join_path;
use psa::pom::parse_module_declarations;
use psa::psa_jvm::{
    get_build_file, get_project_name, get_project_type, is_build_file,
    JvmProjectStructureAnalyzer,
};
use psa::psa_module::Module;
use psa::psa_project::{AnalysisError, Project};

fn dir(
    name: &str,
    entries: Vec<&str>,
    descriptor: Option<&str>,
    children: Vec<DirSnapshot>,
) -> DirSnapshot {
    DirSnapshot {
        name: name.to_string(),
        entries: entries.into_iter().map(|s| s.to_string()).collect(),
        descriptor: descriptor.map(|s| s.to_string()),
        children,
    }
}

fn analyze(path: &str, root: &DirSnapshot) -> Result<Project, AnalysisError> {
    JvmProjectStructureAnalyzer::default().analysis(path, root)
}

#[test]
fn join_path_uses_one_separator_between_segments() {
    assert_eq!(join_path("", vec!["src", "main", "java"]), "src/main/java");
    assert_eq!(join_path("base", vec!["sub"]), "base/sub");
    assert_eq!(join_path("base", vec![]), "base");
    assert_eq!(join_path("", vec![]), "");
}

#[test]
fn parses_declared_modules_in_declaration_order() {
    let declared = parse_module_declarations(
        "<project><modules><module>alpha</module><module>beta</module></modules></project>",
    );
    assert_eq!(declared, vec!["alpha".to_string(), "beta".to_string()]);
}

#[test]
fn parses_no_modules_from_plain_descriptor() {
    assert_eq!(parse_module_declarations("<project></project>").len(), 0);
    assert_eq!(parse_module_declarations("").len(), 0);
    assert_eq!(parse_module_declarations("<module>unclosed").len(), 0);
}

#[test]
fn recognizes_marker_files_only() {
    assert!(is_build_file("pom.xml"));
    assert!(is_build_file("build.gradle"));
    assert!(!is_build_file("Cargo.toml"));
    assert!(!is_build_file("pom.xml.bak"));
}

#[test]
fn maven_marker_wins_over_gradle_marker() {
    let entries = vec!["build.gradle".to_string(), "pom.xml".to_string()];
    assert_eq!(get_build_file(&entries).unwrap(), "pom.xml");
    assert_eq!(get_project_type("pom.xml".to_string()), "maven");
    assert_eq!(get_project_type("build.gradle".to_string()), "unknown");
}

#[test]
fn derives_project_name_from_final_path_segment() {
    assert_eq!(get_project_name("work/area/demo").unwrap(), "demo");
    assert_eq!(get_project_name("demo").unwrap(), "demo");
    assert!(get_project_name("").is_none());
    assert!(get_project_name("work/area/").is_none());
}

#[test]
fn gradle_marker_alone_yields_unclassified_project_without_modules() {
    let root = dir("gradle_only", vec!["build.gradle"], None, vec![]);
    let project = analyze("work/gradle_only", &root).unwrap();
    assert_eq!(project.project_type, "unknown");
    assert_eq!(project.name, "gradle_only");
    assert_eq!(project.modules.len(), 0);
}

#[test]
fn fails_without_any_marker_file() {
    let root = dir("plain", vec!["readme.md"], None, vec![]);
    let analyzer = JvmProjectStructureAnalyzer::default();
    assert!(!analyzer.is_related(&root));
    assert!(matches!(
        analyzer.analysis("work/plain", &root),
        Err(AnalysisError::NoBuildFileFound)
    ));
}

#[test]
fn fails_on_unrecognized_project_path() {
    let root = dir("demo", vec!["pom.xml"], None, vec![]);
    assert!(matches!(
        analyze("", &root),
        Err(AnalysisError::UnrecognizedProjectPath)
    ));
    assert!(matches!(
        analyze("demo/", &root),
        Err(AnalysisError::UnrecognizedProjectPath)
    ));
}

#[test]
fn rejects_declaration_that_points_outside_the_module() {
    let root = dir(
        "looped",
        vec!["pom.xml"],
        Some("<modules><module>..</module></modules>"),
        vec![],
    );
    assert!(matches!(
        analyze("work/looped", &root),
        Err(AnalysisError::MalformedSubModuleDeclaration)
    ));
}

#[test]
fn rejects_declaration_with_path_separator() {
    let root = dir(
        "escaping",
        vec!["pom.xml"],
        Some("<modules><module>a/b</module></modules>"),
        vec![],
    );
    assert!(matches!(
        analyze("work/escaping", &root),
        Err(AnalysisError::MalformedSubModuleDeclaration)
    ));
}

#[test]
fn rejects_malformed_declaration_deep_in_the_tree() {
    let child = dir(
        "inner",
        vec!["pom.xml"],
        Some("<modules><module>.</module></modules>"),
        vec![],
    );
    let root = dir(
        "outer",
        vec!["pom.xml"],
        Some("<modules><module>inner</module></modules>"),
        vec![child],
    );
    assert!(matches!(
        analyze("work/outer", &root),
        Err(AnalysisError::MalformedSubModuleDeclaration)
    ));
}

#[test]
fn skips_declared_module_without_matching_child() {
    let module1 = dir("module1", vec!["pom.xml"], None, vec![]);
    let root = dir(
        "demo",
        vec!["pom.xml"],
        Some("<modules><module>ghost</module><module>module1</module></modules>"),
        vec![module1],
    );
    let project = analyze("work/demo", &root).unwrap();
    let top = &project.modules[0];
    assert_eq!(top.sub_modules.len(), 1);
    assert_eq!(top.sub_modules[0].name, "module1");
}

#[test]
fn skips_declared_child_without_maven_marker() {
    let module1 = dir("module1", vec!["readme.md"], None, vec![]);
    let root = dir(
        "demo",
        vec!["pom.xml"],
        Some("<modules><module>module1</module></modules>"),
        vec![module1],
    );
    let project = analyze("work/demo", &root).unwrap();
    assert_eq!(project.modules[0].sub_modules.len(), 0);
}

#[test]
fn nests_declared_sub_modules_recursively() {
    let leaf = dir("leaf", vec!["pom.xml"], None, vec![]);
    let mid = dir(
        "mid",
        vec!["pom.xml"],
        Some("<modules><module>leaf</module></modules>"),
        vec![leaf],
    );
    let root = dir(
        "demo",
        vec!["pom.xml"],
        Some("<modules><module>mid</module></modules>"),
        vec![mid],
    );
    let project = analyze("work/demo", &root).unwrap();
    let top = &project.modules[0];
    assert_eq!(top.path, "work/demo");
    assert_eq!(top.sub_modules.len(), 1);
    let mid_module = &top.sub_modules[0];
    assert_eq!(mid_module.path, "work/demo/mid");
    assert_eq!(mid_module.sub_modules.len(), 1);
    let leaf_module = &mid_module.sub_modules[0];
    assert_eq!(leaf_module.path, "work/demo/mid/leaf");
    assert_eq!(leaf_module.sub_modules.len(), 0);
}

fn assert_modules_structurally_equal(m1: &Module, m2: &Module) {
    assert_eq!(m1.name, m2.name);
    assert_eq!(m1.path, m2.path);
    assert_eq!(m1.content_root.source_root, m2.content_root.source_root);
    assert_eq!(m1.content_root.resource_root, m2.content_root.resource_root);
    assert_eq!(
        m1.content_root.test_source_root,
        m2.content_root.test_source_root
    );
    assert_eq!(
        m1.content_root.test_resource_root,
        m2.content_root.test_resource_root
    );
    assert_eq!(m1.sub_modules.len(), m2.sub_modules.len());
    for (s1, s2) in m1.sub_modules.iter().zip(m2.sub_modules.iter()) {
        assert_modules_structurally_equal(s1, s2);
    }
}

#[test]
fn analysis_is_idempotent_on_an_unmodified_tree() {
    let module1 = dir("module1", vec!["pom.xml"], None, vec![]);
    let root = dir(
        "demo",
        vec!["pom.xml"],
        Some("<modules><module>module1</module></modules>"),
        vec![module1],
    );
    let first = analyze("work/demo", &root).unwrap();
    let second = analyze("work/demo", &root).unwrap();
    assert_eq!(first.name, second.name);
    assert_eq!(first.absolute_path, second.absolute_path);
    assert_eq!(first.project_type, second.project_type);
    assert_eq!(first.modules.len(), second.modules.len());
    for (m1, m2) in first.modules.iter().zip(second.modules.iter()) {
        assert_modules_structurally_equal(m1, m2);
    }
}

#[test]
fn project_keeps_name_path_and_type() {
    let root = dir("demo", vec!["pom.xml"], None, vec![]);
    let project = analyze("work/area/demo", &root).unwrap();
    assert_eq!(project.name, "demo");
    assert_eq!(project.absolute_path, "work/area/demo");
    assert_eq!(project.project_type, "maven");
    assert_eq!(project.modules.len(), 1);
    assert_eq!(project.modules[0].sub_modules.len(), 0);
}
