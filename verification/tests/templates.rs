use implexa::git_backend::GitBackendConfig;
use implexa::git_backend::directory::{
    DirectoryTemplateManager, TemplateType, template_directories, custom_template_name, builtin_template_names,
    FileAction, file_target, template_not_found, custom_template, readme_templates,
};

#[test]
fn template_places() {
    let config = GitBackendConfig::default();
    let m = DirectoryTemplateManager::new("/repo", &config);
    assert_eq!(m.template_dir(), "/repo/config/directory-templates");
    assert_eq!(m.template_file_path(&TemplateType::Minimal), "/repo/config/directory-templates/minimal.json");
    assert_eq!(
        m.template_file_path(&TemplateType::Custom("pcb".to_string())),
        "/repo/config/directory-templates/custom/pcb.json"
    );
    assert_eq!(m.custom_template_dir(), "/repo/config/directory-templates/custom");
    assert_eq!(m.readme_template_dir(), "/repo/templates/readme");
}

#[test]
fn part_directories_are_named_by_their_number() {
    let config = GitBackendConfig::default();
    let m = DirectoryTemplateManager::new("/repo", &config);
    assert_eq!(m.part_directory("10001", "EL", "PCB"), "/repo/parts/EL-PCB-10001");
}

#[test]
fn category_codes() {
    let config = GitBackendConfig::default();
    let m = DirectoryTemplateManager::new("/repo", &config);
    assert!(m.is_valid_category("EL"));
    assert!(!m.is_valid_category("ELEC"));
    assert!(!m.is_valid_category("el"));
    assert!(!m.is_valid_category(""));
    assert!(!m.is_valid_category("E"));
    assert!(!m.is_valid_subcategory("R"));
    assert!(m.is_valid_subcategory("RES"));
    assert!(!m.is_valid_subcategory("3DM"));
    assert!(m.is_valid_subcategory("RESI"));
    assert!(!m.is_valid_subcategory("RESIS"));
}

#[test]
fn template_type_names() {
    assert_eq!(TemplateType::Minimal.to_string(), "minimal");
    assert_eq!(TemplateType::Extended.to_string(), "extended");
    assert_eq!(TemplateType::Custom("x".to_string()).to_string(), "custom/x");
    assert_eq!(builtin_template_names(), vec!["minimal".to_string(), "standard".to_string(), "extended".to_string()]);
    assert_eq!(custom_template_name("pcb.json", true), Some("custom/pcb".to_string()));
    assert_eq!(custom_template_name("a.b.json", true), Some("custom/a.b".to_string()));
    assert_eq!(custom_template_name("pcb.json", false), None);
    assert_eq!(custom_template_name("pcb.txt", true), None);
    assert_eq!(custom_template_name(".json", true), None);
    assert_eq!(custom_template_name("json", true), None);
}

#[test]
fn built_in_templates() {
    let config = GitBackendConfig::default();
    let m = DirectoryTemplateManager::new("/repo", &config);
    let minimal = m.create_minimal_template();
    assert_eq!(minimal.name, "Minimal Template");
    assert_eq!(minimal.version, "1.0.0");
    assert_eq!(template_directories("/p", &minimal), vec!["/p/design".to_string()]);
    assert_eq!(minimal.files[0].template, Some("templates/readme/minimal.md".to_string()));
    assert_eq!(minimal.files[1].path, "metadata.db");
    let standard = m.create_standard_template();
    assert_eq!(
        template_directories("/p", &standard),
        vec![
            "/p/design", "/p/design/models", "/p/design/schematics",
            "/p/manufacturing", "/p/manufacturing/bom", "/p/manufacturing/assembly",
            "/p/documentation", "/p/documentation/datasheets", "/p/documentation/specifications",
        ]
        .into_iter()
        .map(|s| s.to_string())
        .collect::<Vec<String>>()
    );
    let extended = m.create_extended_template();
    let dirs = template_directories("/p", &extended);
    assert_eq!(dirs.len(), 40);
    assert_eq!(dirs[1], "/p/design/models");
    assert_eq!(dirs[2], "/p/design/models/step");
    assert_eq!(dirs[39], "/p/tests/test-fixtures/software");
    assert_eq!(extended.files[1].template, Some("templates/database/extended.db".to_string()));
}

#[test]
fn template_files_are_copied_or_made_empty() {
    let config = GitBackendConfig::default();
    let m = DirectoryTemplateManager::new("/repo", &config);
    let t = m.create_minimal_template();
    let readme = &t.files[0];
    assert_eq!(file_target("/repo/parts/X", readme), "/repo/parts/X/README.md");
    assert_eq!(m.file_action(readme, true, true), FileAction::Keep);
    assert_eq!(m.file_action(readme, false, true), FileAction::CopyFrom("/repo/templates/readme/minimal.md".to_string()));
    assert_eq!(m.file_action(readme, false, false), FileAction::CreateEmpty);
    assert_eq!(template_not_found("/t.json").to_string(), "Repository error: Template file not found: /t.json");
    let c = custom_template("Mine", "My layout", vec![], vec![]);
    assert_eq!(c.version, "1.0.0");
    let readmes = readme_templates();
    assert_eq!(readmes[1].0, "standard.md");
    assert!(readmes[2].1.starts_with("# [Part Number]"));
}

#[test]
fn the_builtin_templates_nest() {
    let config = GitBackendConfig::default();
    let m = DirectoryTemplateManager::new("/repo", &config);
    let minimal = template_directories("p", &m.create_minimal_template());
    let standard = template_directories("p", &m.create_standard_template());
    let extended = template_directories("p", &m.create_extended_template());
    assert!(minimal.iter().all(|d| standard.contains(d)));
    assert!(standard.iter().all(|d| extended.contains(d)));
    assert!(standard.len() < extended.len());
    let ext = m.create_extended_template();
    let copy = ext.directories[0].clone();
    assert_eq!(copy.path, "design");
    assert_eq!(copy.subdirectories.len(), 3);
    assert_eq!(copy.subdirectories[0].subdirectories[1].path, "stl");
    assert_eq!(copy.subdirectories[2].subdirectories[0].description, "KiCad project files");
}
