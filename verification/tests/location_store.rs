use db_location::config::{
    config_document, config_file_path, custom_dir_of_document, get_custom_db_path,
};
use db_location::filename::{get_db_filename, test_db_variable};

#[test]
fn production_file_name_without_flag() {
    assert_eq!(get_db_filename(false), "notes.db");
}

#[test]
fn test_file_name_with_flag() {
    assert_eq!(get_db_filename(true), "notes_test.db");
}

#[test]
fn flag_is_read_from_the_documented_variable() {
    assert_eq!(test_db_variable(), "TAURI_ENV_USE_TEST_DB");
}

#[test]
fn missing_configuration_names_no_directory() {
    assert_eq!(get_custom_db_path(None), None);
}

#[test]
fn configuration_names_its_directory() {
    assert_eq!(
        get_custom_db_path(Some("{\"custom_db_path\":\"/newdir\"}")),
        Some("/newdir".to_string())
    );
}

#[test]
fn configuration_with_spaces_and_other_keys_names_its_directory() {
    let content = "{ \"theme\": \"dark\",\n  \"custom_db_path\": \"/home/me/My Notes\" }";
    assert_eq!(get_custom_db_path(Some(content)), Some("/home/me/My Notes".to_string()));
}

#[test]
fn empty_configuration_names_no_directory() {
    assert_eq!(get_custom_db_path(Some("{}")), None);
}

#[test]
fn configuration_with_empty_directory_is_read_as_written() {
    assert_eq!(get_custom_db_path(Some("{\"custom_db_path\":\"\"}")), Some(String::new()));
}

#[test]
fn malformed_configuration_names_no_directory() {
    assert_eq!(get_custom_db_path(Some("{\"custom_db_path\":")), None);
    assert_eq!(get_custom_db_path(Some("")), None);
    assert_eq!(get_custom_db_path(Some("not json")), None);
    assert_eq!(get_custom_db_path(Some("{\"custom_db_path\":\"/a\"} trailing")), None);
}

#[test]
fn configuration_without_the_key_names_no_directory() {
    assert_eq!(get_custom_db_path(Some("{\"other\":\"/newdir\"}")), None);
}

#[test]
fn configuration_with_a_key_that_is_no_string_names_no_directory() {
    assert_eq!(get_custom_db_path(Some("{\"custom_db_path\":5}")), None);
    assert_eq!(get_custom_db_path(Some("{\"custom_db_path\":null}")), None);
    assert_eq!(get_custom_db_path(Some("{\"custom_db_path\":[\"/newdir\"]}")), None);
    assert_eq!(get_custom_db_path(Some("{\"custom_db_path\":{\"custom_db_path\":\"/a\"}}")), None);
}

#[test]
fn configuration_that_is_no_object_names_no_directory() {
    assert_eq!(get_custom_db_path(Some("[\"custom_db_path\"]")), None);
    assert_eq!(get_custom_db_path(Some("\"custom_db_path\"")), None);
    assert_eq!(get_custom_db_path(Some("null")), None);
}

#[test]
fn directory_is_read_from_a_parsed_document() {
    let mut members = serde_json::Map::new();
    members.insert(
        "custom_db_path".to_string(),
        serde_json::Value::String("/newdir".to_string()),
    );
    members.insert("other".to_string(), serde_json::Value::Bool(true));
    let document = serde_json::Value::Object(members);
    assert_eq!(custom_dir_of_document(&document), Some("/newdir".to_string()));
}

#[test]
fn parsed_document_of_another_kind_names_no_directory() {
    assert_eq!(custom_dir_of_document(&serde_json::Value::Null), None);
    assert_eq!(
        custom_dir_of_document(&serde_json::Value::String("custom_db_path".to_string())),
        None
    );
    let mut members = serde_json::Map::new();
    members.insert("custom_db_path".to_string(), serde_json::Value::Bool(true));
    assert_eq!(custom_dir_of_document(&serde_json::Value::Object(members)), None);
}

#[test]
fn document_for_a_directory() {
    assert_eq!(config_document(Some("/newdir")), "{\"custom_db_path\":\"/newdir\"}");
}

#[test]
fn document_for_no_directory() {
    assert_eq!(config_document(None), "{}");
}

#[test]
fn document_escapes_what_json_must_escape() {
    assert_eq!(
        config_document(Some("C:\\Users\\me\\\"db\"")),
        "{\"custom_db_path\":\"C:\\\\Users\\\\me\\\\\\\"db\\\"\"}"
    );
}

#[test]
fn written_document_reads_back() {
    let directories = [
        "/newdir",
        "",
        "C:\\Users\\me",
        "/tmp/with \"quotes\"",
        "/d\u{e9}j\u{e0}/\u{1f4d3}",
        "a\nb\tc",
    ];
    for directory in directories {
        let document = config_document(Some(directory));
        assert_eq!(get_custom_db_path(Some(document.as_str())), Some(directory.to_string()));
    }
    let cleared = config_document(None);
    assert_eq!(get_custom_db_path(Some(cleared.as_str())), None);
}

#[test]
fn configuration_file_lies_in_the_configuration_directory() {
    assert_eq!(config_file_path("/cfg"), "/cfg/db_config.json");
}
