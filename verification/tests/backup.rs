use db_location::backup::{
    backup_destination, backup_file_name, create_database_backup, decimal_text, last_dot,
    split_extension,
};
use db_location::error::{ErrorKind, LocationError};
use db_location::plan::{FileStep, MigrationPlan};

#[test]
fn decimal_of_small_and_large_numbers() {
    assert_eq!(decimal_text(0), "0");
    assert_eq!(decimal_text(7), "7");
    assert_eq!(decimal_text(10), "10");
    assert_eq!(decimal_text(1697712345), "1697712345");
    assert_eq!(decimal_text(u64::MAX), "18446744073709551615");
}

#[test]
fn last_dot_of_names() {
    assert_eq!(last_dot("notes.db"), Some(5));
    assert_eq!(last_dot("notes"), None);
    assert_eq!(last_dot(".hidden"), Some(0));
    assert_eq!(last_dot("a.b.c"), Some(3));
    assert_eq!(last_dot(""), None);
    assert_eq!(last_dot("\u{e9}t\u{e9}.db"), Some(3));
}

#[test]
fn split_of_a_plain_name() {
    assert_eq!(split_extension("notes.db"), ("notes".to_string(), Some("db".to_string())));
}

#[test]
fn split_of_a_name_without_dot() {
    assert_eq!(split_extension("notes"), ("notes".to_string(), None));
}

#[test]
fn split_of_a_name_with_only_a_leading_dot() {
    assert_eq!(split_extension(".hidden"), (".hidden".to_string(), None));
}

#[test]
fn split_of_a_name_with_several_dots() {
    assert_eq!(
        split_extension("archive.tar.gz"),
        ("archive.tar".to_string(), Some("gz".to_string()))
    );
    assert_eq!(split_extension(".hidden.db"), (".hidden".to_string(), Some("db".to_string())));
}

#[test]
fn split_of_a_name_with_a_trailing_dot() {
    assert_eq!(split_extension("notes."), ("notes".to_string(), Some(String::new())));
}

#[test]
fn split_agrees_with_the_platform() {
    let names = ["notes.db", "notes", ".hidden", "a.b.c", "notes.", ".a.b", "\u{e9}.\u{e8}", "x..y"];
    for name in names {
        let path = std::path::Path::new(name);
        let stem = path.file_stem().map(|s| s.to_string_lossy().into_owned());
        let extension = path.extension().map(|s| s.to_string_lossy().into_owned());
        let (our_stem, our_extension) = split_extension(name);
        assert_eq!(Some(our_stem), stem);
        assert_eq!(our_extension, extension);
    }
}

#[test]
fn backup_name_of_the_database() {
    assert_eq!(backup_file_name("notes.db", 1697712345), "notes_backup_1697712345.db");
    assert_eq!(backup_file_name("notes_test.db", 0), "notes_test_backup_0.db");
}

#[test]
fn backup_name_without_extension_keeps_the_dot() {
    assert_eq!(backup_file_name("notes", 12), "notes_backup_12.");
    assert_eq!(backup_file_name(".hidden", 12), ".hidden_backup_12.");
}

#[test]
fn backup_goes_beside_its_file() {
    assert_eq!(
        backup_destination("/newdir/notes.db", &Ok(1697712345)),
        Ok("/newdir/notes_backup_1697712345.db".to_string())
    );
    assert_eq!(backup_destination("notes.db", &Ok(5)), Ok("notes_backup_5.db".to_string()));
}

#[test]
fn backup_of_a_path_without_parent() {
    let expected = LocationError { kind: ErrorKind::NoParentDirectory, detail: String::new() };
    assert_eq!(backup_destination("/", &Ok(5)), Err(expected.clone()));
    assert_eq!(backup_destination("", &Ok(5)), Err(expected.clone()));
    assert_eq!(expected.message(), "Failed to get parent directory");
}

#[test]
fn backup_of_a_path_without_file_name() {
    let expected = LocationError { kind: ErrorKind::NoFileName, detail: String::new() };
    assert_eq!(backup_destination("/newdir/..", &Ok(5)), Err(expected.clone()));
    assert_eq!(expected.message(), "Failed to get filename");
}

#[test]
fn backup_without_a_clock() {
    let now = Err("second time provided was later than self".to_string());
    let expected = LocationError {
        kind: ErrorKind::Timestamp,
        detail: "second time provided was later than self".to_string(),
    };
    assert_eq!(backup_destination("/newdir/notes.db", &now), Err(expected.clone()));
    assert_eq!(
        expected.message(),
        "Failed to get timestamp: second time provided was later than self"
    );
}

#[test]
fn path_errors_come_before_the_clock() {
    let now = Err("clock".to_string());
    assert_eq!(backup_destination("/", &now).unwrap_err().kind, ErrorKind::NoParentDirectory);
    assert_eq!(backup_destination("/a/..", &now).unwrap_err().kind, ErrorKind::NoFileName);
}

#[test]
fn backup_plan_copies_the_file() {
    let plan = create_database_backup("/newdir/notes.db", true, &Ok(1697712345));
    assert_eq!(
        plan,
        MigrationPlan {
            steps: vec![FileStep::CopyBackup {
                from: "/newdir/notes.db".to_string(),
                to: "/newdir/notes_backup_1697712345.db".to_string(),
            }],
            outcome: Ok("/newdir/notes_backup_1697712345.db".to_string()),
        }
    );
}

#[test]
fn backup_of_a_missing_file_is_refused() {
    let plan = create_database_backup("/newdir/notes.db", false, &Ok(1));
    let expected = LocationError { kind: ErrorKind::DatabaseMissing, detail: String::new() };
    assert_eq!(expected.message(), "Database file does not exist");
    assert_eq!(plan, MigrationPlan { steps: vec![], outcome: Err(expected) });
}

#[test]
fn missing_file_comes_before_every_other_refusal() {
    let plan = create_database_backup("/", false, &Err("clock".to_string()));
    assert_eq!(plan.outcome.unwrap_err().kind, ErrorKind::DatabaseMissing);
}

#[test]
fn backup_plan_without_destination_is_refused() {
    let plan = create_database_backup("/", true, &Ok(1));
    assert!(plan.steps.is_empty());
    assert_eq!(plan.outcome.unwrap_err().kind, ErrorKind::NoParentDirectory);
    let plan = create_database_backup("/a/notes.db", true, &Err("clock".to_string()));
    assert!(plan.steps.is_empty());
    assert_eq!(plan.outcome.unwrap_err().kind, ErrorKind::Timestamp);
}

#[test]
fn failed_backup_copy_is_reported() {
    let plan = create_database_backup("/newdir/notes.db", true, &Ok(1));
    let error = plan.steps[0].failure("disk full");
    assert_eq!(error.kind, ErrorKind::CreateBackup);
    assert_eq!(error.message(), "Failed to create backup: disk full");
}

#[test]
fn backup_name_has_the_documented_shape() {
    for seconds in [0u64, 9, 10, 1697712345, u64::MAX] {
        let name = backup_file_name("notes.db", seconds);
        let middle = name.strip_prefix("notes_backup_").unwrap().strip_suffix(".db").unwrap();
        assert!(!middle.is_empty());
        assert!(middle.chars().all(|c| c.is_ascii_digit()));
        assert_eq!(middle.parse::<u64>().unwrap(), seconds);
    }
}
