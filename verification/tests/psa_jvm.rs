use psa::dir_snapshot::DirSnapshot;
use psa::files::join_path;
use psa::psa_jvm::JvmProjectStructureAnalyzer;
use psa::psa_project::Project;

fn dir(
    name: &str,
    entries: Vec<&str>,
    descriptor: Option<&str>,
    children: Vec<DirSnapshot>,
) -> DirSnapshot {
    DirSnapshot {
        name: name.to_string(),
        entries: entries.into_iter().map(|s| s.to_string()).collect(),
        descriptor: descriptor.map(|s| s.to_string()),
        children,
    }
}

fn multi_mod_maven_project() -> DirSnapshot {
    dir(
        "multi_mod_maven_project",
        vec!["pom.xml"],
        Some(
            "<project>\n  <modules>\n    <module>module1</module>\n    <module>module2</module>\n  </modules>\n</project>\n",
        ),
        vec![
            dir("module1", vec!["pom.xml", "src"], Some("<project>\n</project>\n"), vec![]),
            dir("module2", vec!["pom.xml", "src"], Some("<project>\n</project>\n"), vec![]),
        ],
    )
}

fn do_analysis(path: Vec<&str>) -> Project {
    let mut project_dir = String::new();
    for segment in path.into_iter() {
        if project_dir.is_empty() {
            project_dir = segment.to_string();
        } else {
            project_dir = format!("{}/{}", project_dir, segment);
        }
    }

    let analyzer = JvmProjectStructureAnalyzer::default();
    match analyzer.analysis(project_dir.as_str(), &multi_mod_maven_project()) {
        Ok(project) => project,
        Err(e) => panic!("analysis failed: {:?}", e),
    }
}

#[test]
fn should_analysis_maven_project_sub_modules() {
    let project = do_analysis(vec![
        "_fixtures",
        "projects",
        "java",
        "multi_mod_maven_project",
    ]);

    let modules = project.modules;
    let project_module = modules.get(0).unwrap();
    let module1 = project_module.sub_modules.get(0).unwrap();
    let module2 = project_module.sub_modules.get(1).unwrap();
    assert_eq!(modules.len(), 1);
    assert_eq!(project_module.sub_modules.len(), 2);
    assert_eq!(project.project_type, "maven");
    assert_eq!(project_module.name, "multi_mod_maven_project");
    assert_eq!(module1.name, "module1");
    assert_eq!(module2.name, "module2");
}

#[test]
fn should_detect_project_module_content_root() {
    let project = do_analysis(vec![
        "_fixtures",
        "projects",
        "java",
        "multi_mod_maven_project",
    ]);
    let modules = project.modules;
    let project_module = modules.get(0).unwrap();
    let project_content_root = &project_module.content_root;

    let expect_source_path = join_path("", vec!["src", "main", "java"]);
    assert_eq!(project_content_root.source_root.len(), 1);
    assert_eq!(
        project_content_root.source_root.get(0).unwrap().as_str(),
        expect_source_path.as_str()
    );

    let expect_resource_path = join_path("", vec!["src", "main", "resources"]);
    assert_eq!(project_content_root.resource_root.len(), 1);
    assert_eq!(
        project_content_root.resource_root.get(0).unwrap().as_str(),
        expect_resource_path.as_str()
    );

    let expect_test_source_root = join_path("", vec!["src", "test", "java"]);
    assert_eq!(project_content_root.test_source_root.len(), 1);
    assert_eq!(
        project_content_root
            .test_source_root
            .get(0)
            .unwrap()
            .as_str(),
        expect_test_source_root.as_str()
    );

    let expect_test_resources_root = join_path("", vec!["src", "test", "resources"]);
    assert_eq!(project_content_root.test_resource_root.len(), 1);
    assert_eq!(
        project_content_root.test_resource_root.get(0).unwrap(),
        expect_test_resources_root.as_str()
    );
}

#[test]
fn should_detect_sub_module_content_root() {
    let project = do_analysis(vec![
        "_fixtures",
        "projects",
        "java",
        "multi_mod_maven_project",
    ]);

    let modules = project.modules;
    let project_module = modules.get(0).unwrap();
    let module1 = project_module.sub_modules.get(0).unwrap();
    let content_root = &module1.content_root;

    let expect_source_path = join_path("", vec!["src", "main", "java"]);
    assert_eq!(
        content_root.source_root.get(0).unwrap().as_str(),
        expect_source_path
    );

    let expect_test_source_root = join_path("", vec!["src", "test", "java"]);
    assert_eq!(
        content_root.test_source_root.get(0).unwrap().as_str(),
        expect_test_source_root.as_str()
    );

    let expect_test_source_root = join_path("", vec!["src", "test", "java"]);
    assert_eq!(
        content_root.test_source_root.get(0).unwrap().as_str(),
        expect_test_source_root.as_str()
    );

    let expect_test_resources_root = join_path("", vec!["src", "test", "resources"]);
    assert_eq!(
        content_root.test_resource_root.get(0).unwrap(),
        expect_test_resources_root.as_str()
    );
}
