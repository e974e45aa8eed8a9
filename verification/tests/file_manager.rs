use db_location::error::{ErrorKind, LocationError};
use db_location::file_manager::{
    open_database_location, reveal_command, reveal_failure, Platform, RevealCommand,
};
use db_location::resolver::Environment;

fn env() -> Environment {
    Environment {
        use_test_db: false,
        app_data_dir: Ok("/data".to_string()),
        app_config_dir: Ok("/cfg".to_string()),
        config_content: None,
    }
}

#[test]
fn windows_selects_the_file() {
    assert_eq!(
        reveal_command(Platform::Windows, "C:\\data\\notes.db"),
        Some(RevealCommand {
            program: "explorer".to_string(),
            arguments: vec!["/select,C:\\data\\notes.db".to_string()],
        })
    );
}

#[test]
fn macos_reveals_the_file() {
    assert_eq!(
        reveal_command(Platform::MacOs, "/data/notes.db"),
        Some(RevealCommand {
            program: "open".to_string(),
            arguments: vec!["-R".to_string(), "/data/notes.db".to_string()],
        })
    );
}

#[test]
fn other_systems_open_the_folder() {
    assert_eq!(
        reveal_command(Platform::Unix, "/data/notes.db"),
        Some(RevealCommand {
            program: "xdg-open".to_string(),
            arguments: vec!["/data".to_string()],
        })
    );
}

#[test]
fn nothing_to_open_without_a_folder() {
    assert_eq!(reveal_command(Platform::Unix, "/"), None);
}

#[test]
fn location_of_the_database_in_effect() {
    assert_eq!(
        open_database_location(&env(), Platform::Unix),
        Ok(Some(RevealCommand {
            program: "xdg-open".to_string(),
            arguments: vec!["/data".to_string()],
        }))
    );
    assert_eq!(
        open_database_location(&env(), Platform::MacOs),
        Ok(Some(RevealCommand {
            program: "open".to_string(),
            arguments: vec!["-R".to_string(), "/data/notes.db".to_string()],
        }))
    );
}

#[test]
fn location_on_windows_is_one_argument() {
    let env = Environment { app_data_dir: Ok("C:\\data".to_string()), ..env() };
    let command = open_database_location(&env, Platform::Windows).unwrap().unwrap();
    assert_eq!(command.program, "explorer");
    assert_eq!(command.arguments.len(), 1);
    assert!(command.arguments[0].starts_with("/select,C:\\data"));
    assert!(command.arguments[0].ends_with("notes.db"));
    assert!(!command.arguments[0].contains(' '));
}

#[test]
fn location_needs_the_path() {
    let env = Environment { app_data_dir: Err("no home".to_string()), ..env() };
    assert_eq!(
        open_database_location(&env, Platform::Windows),
        Err(LocationError { kind: ErrorKind::AppDataDir, detail: "no home".to_string() })
    );
}

#[test]
fn failed_start_is_told_by_platform() {
    assert_eq!(
        reveal_failure(Platform::Windows, "e").message(),
        "Failed to open explorer: e"
    );
    assert_eq!(reveal_failure(Platform::MacOs, "e").message(), "Failed to open finder: e");
    assert_eq!(
        reveal_failure(Platform::Unix, "e").message(),
        "Failed to open file manager: e"
    );
}

#[test]
fn every_kind_has_its_message() {
    let cases = [
        (ErrorKind::DirectoryMissing, "Directory does not exist: d"),
        (ErrorKind::NotADirectory, "Path is not a directory: d"),
        (ErrorKind::AppDataDir, "Failed to get app data directory: d"),
        (ErrorKind::ConfigDir, "Failed to get config directory: d"),
        (ErrorKind::CreateConfigDir, "Failed to create config directory: d"),
        (ErrorKind::WriteConfig, "Failed to write config file: d"),
        (ErrorKind::Timestamp, "Failed to get timestamp: d"),
        (ErrorKind::CreateBackup, "Failed to create backup: d"),
        (ErrorKind::CreateDatabaseDir, "Failed to create database directory: d"),
        (ErrorKind::CopyDatabase, "Failed to copy database: d"),
        (ErrorKind::OpenExplorer, "Failed to open explorer: d"),
        (ErrorKind::OpenFinder, "Failed to open finder: d"),
        (ErrorKind::OpenFileManager, "Failed to open file manager: d"),
    ];
    for (kind, message) in cases {
        assert_eq!(LocationError::new(kind, "d").message(), message);
        assert_eq!(kind.prefix(), &message[..message.len() - 1]);
    }
    assert_eq!(
        LocationError::bare(ErrorKind::DatabaseMissing).message(),
        "Database file does not exist"
    );
    assert_eq!(
        LocationError::bare(ErrorKind::NoParentDirectory).message(),
        "Failed to get parent directory"
    );
    assert_eq!(LocationError::bare(ErrorKind::NoFileName).message(), "Failed to get filename");
}

#[test]
fn copy_of_a_failure_is_the_failure() {
    let error = LocationError::new(ErrorKind::CopyDatabase, "disk full");
    assert_eq!(error.clone(), error);
}
