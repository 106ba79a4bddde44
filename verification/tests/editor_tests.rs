use loco_gen::add_deps_to_root_cargo_toml;
use loco_gen::check_deps_table_in_config_file;
use loco_gen::remove_project_dep_from_cargo_toml;
use loco_gen::update_project_dep_in_task_cargo_toml;

#[test]
fn test_check_deps_table_in_config_file() {
    let config_file_with_deps = r#"
        [package]
        name = "test_package"
        version = "0.1.0"
        edition = "2021"

        [dependencies]
        "#;
    let result = check_deps_table_in_config_file(config_file_with_deps.to_string());
    assert!(result.contains("[dependencies]"));

    let config_file_without_deps = r#"
        [package]
        name = "test_package"
        version = "0.1.0"
        edition = "2021"
        "#;
    let result = check_deps_table_in_config_file(config_file_without_deps.to_string());
    assert!(result.contains("[dependencies]"));
}

#[test]
fn ensure_deps_section_keeps_document_with_marker() {
    let doc = "[package]\nname = \"a\"\n\n[dependencies]\nserde = \"1\"\n";
    let result = check_deps_table_in_config_file(doc.to_string());
    assert_eq!(result, doc);
}

#[test]
fn ensure_deps_section_appends_marker() {
    let doc = "[package]\nname = \"a\"\n";
    let result = check_deps_table_in_config_file(doc.to_string());
    assert_eq!(result, "[package]\nname = \"a\"\n\n[dependencies]\n");
}

#[test]
fn ensure_deps_section_is_idempotent() {
    let doc = "[package]\nname = \"a\"\n";
    let once = check_deps_table_in_config_file(doc.to_string());
    let twice = check_deps_table_in_config_file(once.clone());
    assert_eq!(twice, once);

    let doc_with = "x\n[dependencies]\ny\n";
    let once = check_deps_table_in_config_file(doc_with.to_string());
    let twice = check_deps_table_in_config_file(once.clone());
    assert_eq!(twice, once);
}

#[test]
fn set_self_dependency_inserts_entry_after_marker() {
    let doc = "[package]\nname = \"tasklib\"\n\n[dependencies]\nserde = \"1\"\n";
    let result = update_project_dep_in_task_cargo_toml(doc.to_string(), "test_app");
    assert_eq!(
        result,
        "[package]\nname = \"tasklib\"\n\n[dependencies]\npkg_root = { package = \"test_app\", path = \"../../../\" }\nserde = \"1\"\n"
    );
}

#[test]
fn set_self_dependency_replaces_stale_entry() {
    let doc = "[dependencies]\npkg_root = { package = \"old_app\", path = \"../../../\" }\nserde = \"1\"\n";
    let result = update_project_dep_in_task_cargo_toml(doc.to_string(), "new_app");
    assert_eq!(
        result,
        "[dependencies]\npkg_root = { package = \"new_app\", path = \"../../../\" }\nserde = \"1\"\n"
    );
}

#[test]
fn remove_self_dependency_strips_entry() {
    let doc = "[dependencies]\npkg_root = { package = \"test_app\", path = \"../../../\" }\nserde = \"1\"\n";
    let result = remove_project_dep_from_cargo_toml(doc.to_string());
    assert_eq!(result, "[dependencies]\nserde = \"1\"\n");
}

#[test]
fn remove_self_dependency_keeps_other_lines_verbatim() {
    let doc = "# a comment\n[dependencies]\nserde = \"1\"\n";
    let result = remove_project_dep_from_cargo_toml(doc.to_string());
    assert_eq!(result, doc);
}

#[test]
fn self_dependency_round_trip_restores_document() {
    let doc = "[package]\nname = \"tasklib\"\n# hand-written comment\n\n[dependencies]\nserde = \"1\"\n";
    let set = update_project_dep_in_task_cargo_toml(doc.to_string(), "test_app");
    assert_ne!(set, doc);
    let restored = remove_project_dep_from_cargo_toml(set);
    assert_eq!(restored, doc);
}

#[test]
fn add_path_dependency_inserts_entry() {
    let doc = "[package]\nname = \"host\"\n\n[dependencies]\nserde = \"1\"\n";
    let result = add_deps_to_root_cargo_toml(doc.to_string(), "widgets", "./src/tasks/widgets");
    assert_eq!(
        result,
        "[package]\nname = \"host\"\n\n[dependencies]\nwidgets = { path = \"./src/tasks/widgets\" }\nserde = \"1\"\n"
    );
}

#[test]
fn add_path_dependency_overwrites_entry_with_same_key() {
    let doc = "[dependencies]\nwidgets = { path = \"./elsewhere\" }\n";
    let result = add_deps_to_root_cargo_toml(doc.to_string(), "widgets", "./src/tasks/widgets");
    assert_eq!(result, "[dependencies]\nwidgets = { path = \"./src/tasks/widgets\" }\n");
}

#[test]
fn add_path_dependency_without_marker_appends_section() {
    let doc = "[package]\nname = \"host\"";
    let result = add_deps_to_root_cargo_toml(doc.to_string(), "widgets", "./src/tasks/widgets");
    assert_eq!(
        result,
        "[package]\nname = \"host\"\n[dependencies]\nwidgets = { path = \"./src/tasks/widgets\" }"
    );
}
