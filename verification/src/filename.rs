//! The database file name, selected by the test-mode flag alone.

use vstd::prelude::*;

verus! {

/// Name of the process-environment variable whose presence, with any value,
/// selects the test database.
pub fn test_db_variable() -> (name: &'static str)
    ensures
        name@ == "TAURI_ENV_USE_TEST_DB"@,
{
    "TAURI_ENV_USE_TEST_DB"
}

/// The file name of the database: the test name when the flag is set, the
/// production name otherwise.
pub open spec fn db_filename(use_test_db: bool) -> Seq<char> {
    if use_test_db {
        "notes_test.db"@
    } else {
        "notes.db"@
    }
}

/// Returns the database file name for the given state of the test-mode flag.
pub fn get_db_filename(use_test_db: bool) -> (name: String)
    ensures
        name@ == db_filename(use_test_db),
{
    if use_test_db {
        "notes_test.db".to_owned()
    } else {
        "notes.db".to_owned()
    }
}

/// The two file names differ, so the flag can be read back from the name.
pub proof fn lemma_db_filename_injective(a: bool, b: bool)
    ensures
        db_filename(a) == db_filename(b) <==> a == b,
{
    reveal_strlit("notes_test.db");
    reveal_strlit("notes.db");
    assert("notes_test.db"@.len() == 13);
    assert("notes.db"@.len() == 8);
}

} // verus!
