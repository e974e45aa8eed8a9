use db_location::error::{ErrorKind, LocationError};
use db_location::resolver::{
    database_path_in, get_database_directory, get_database_path, Environment,
};

fn fresh() -> Environment {
    Environment {
        use_test_db: false,
        app_data_dir: Ok("/data".to_string()),
        app_config_dir: Ok("/cfg".to_string()),
        config_content: None,
    }
}

fn with_custom(directory: &str) -> Environment {
    Environment {
        config_content: Some(format!("{{\"custom_db_path\":\"{}\"}}", directory)),
        ..fresh()
    }
}

#[test]
fn fresh_install_read_path() {
    assert_eq!(get_database_path(&fresh()), Ok("/data/notes.db".to_string()));
}

#[test]
fn fresh_install_directory() {
    assert_eq!(get_database_directory(&fresh()), Ok("/data".to_string()));
}

#[test]
fn fresh_install_in_test_mode() {
    let env = Environment { use_test_db: true, ..fresh() };
    assert_eq!(get_database_path(&env), Ok("/data/notes_test.db".to_string()));
}

#[test]
fn custom_directory_wins_over_default() {
    let env = with_custom("/newdir");
    assert_eq!(get_database_directory(&env), Ok("/newdir".to_string()));
    assert_eq!(get_database_path(&env), Ok("/newdir/notes.db".to_string()));
}

#[test]
fn custom_directory_in_test_mode() {
    let env = Environment { use_test_db: true, ..with_custom("/newdir") };
    assert_eq!(get_database_path(&env), Ok("/newdir/notes_test.db".to_string()));
}

#[test]
fn custom_directory_stands_in_for_a_missing_default() {
    let env = Environment { app_data_dir: Err("no home".to_string()), ..with_custom("/newdir") };
    assert_eq!(get_database_directory(&env), Ok("/newdir".to_string()));
    assert_eq!(get_database_path(&env), Ok("/newdir/notes.db".to_string()));
}

#[test]
fn no_directory_at_all_is_an_error() {
    let env = Environment { app_data_dir: Err("no home".to_string()), ..fresh() };
    let expected = LocationError { kind: ErrorKind::AppDataDir, detail: "no home".to_string() };
    assert_eq!(get_database_path(&env), Err(expected.clone()));
    assert_eq!(get_database_directory(&env), Err(expected.clone()));
    assert_eq!(expected.message(), "Failed to get app data directory: no home");
}

#[test]
fn malformed_configuration_falls_back_to_default() {
    let env = Environment { config_content: Some("{ broken".to_string()), ..fresh() };
    assert_eq!(get_database_path(&env), Ok("/data/notes.db".to_string()));
}

#[test]
fn configuration_is_not_believed_without_a_configuration_directory() {
    let env = Environment { app_config_dir: Err("none".to_string()), ..with_custom("/newdir") };
    assert_eq!(env.custom_dir(), None);
    assert_eq!(get_database_path(&env), Ok("/data/notes.db".to_string()));
}

#[test]
fn custom_dir_is_read_from_the_content() {
    assert_eq!(with_custom("/newdir").custom_dir(), Some("/newdir".to_string()));
    assert_eq!(fresh().custom_dir(), None);
}

#[test]
fn path_ends_in_the_file_name() {
    for env in [fresh(), with_custom("/newdir"), with_custom("relative/dir/"), with_custom("")] {
        for use_test_db in [false, true] {
            let env = Environment {
                use_test_db,
                app_data_dir: env.app_data_dir.clone(),
                app_config_dir: env.app_config_dir.clone(),
                config_content: env.config_content.clone(),
            };
            let path = get_database_path(&env).unwrap();
            let name = db_location::filename::get_db_filename(use_test_db);
            assert_eq!(
                std::path::Path::new(&path).file_name().and_then(|n| n.to_str()),
                Some(name.as_str())
            );
        }
    }
}

#[test]
fn database_path_in_a_directory() {
    assert_eq!(database_path_in("/newdir", false), "/newdir/notes.db");
    assert_eq!(database_path_in("/newdir/", false), "/newdir/notes.db");
    assert_eq!(database_path_in("", true), "notes_test.db");
}
