//! The path resolver: where the database is, given what the platform and the
//! location store say.

use crate::config::{get_custom_db_path, stored_custom_dir, text_of};
use crate::error::{failure, ErrorKind, LocationError, LocationErrorView};
use crate::filename::{db_filename, get_db_filename};
use crate::paths::{join_path, joined_path};
use vstd::prelude::*;

verus! {

/// What a command observes of its surroundings before it decides anything.
#[derive(Debug, PartialEq, Eq)]
pub struct Environment {
    /// Whether the test-mode variable is present in the process environment.
    pub use_test_db: bool,
    /// The application's data directory, or the platform's message where it
    /// names none.
    pub app_data_dir: Result<String, String>,
    /// The application's configuration directory, or the platform's message
    /// where it names none.
    pub app_config_dir: Result<String, String>,
    /// The content of the configuration file; `None` where the file is
    /// missing or could not be read.
    pub config_content: Option<String>,
}

/// The surroundings of a command as contracts see them.
pub struct EnvironmentView {
    pub use_test_db: bool,
    pub app_data_dir: Result<Seq<char>, Seq<char>>,
    pub app_config_dir: Result<Seq<char>, Seq<char>>,
    pub config_content: Option<Seq<char>>,
}

/// The views of a directory or of the message given in its place.
pub open spec fn directory_of(value: Result<String, String>) -> Result<Seq<char>, Seq<char>> {
    match value {
        Ok(directory) => Ok(directory@),
        Err(message) => Err(message@),
    }
}

/// The views of a path or of the failure returned in its place.
pub open spec fn outcome_of(value: Result<String, LocationError>) -> Result<
    Seq<char>,
    LocationErrorView,
> {
    match value {
        Ok(path) => Ok(path@),
        Err(error) => Err(error@),
    }
}

impl View for Environment {
    type V = EnvironmentView;

    open spec fn view(&self) -> EnvironmentView {
        EnvironmentView {
            use_test_db: self.use_test_db,
            app_data_dir: directory_of(self.app_data_dir),
            app_config_dir: directory_of(self.app_config_dir),
            config_content: text_of(self.config_content),
        }
    }
}

impl EnvironmentView {
    /// The directory the user chose, as the location store holds it. Without a
    /// configuration directory there is no store to ask.
    pub open spec fn custom_dir(self) -> Option<Seq<char>> {
        if self.app_config_dir is Ok {
            stored_custom_dir(self.config_content)
        } else {
            None
        }
    }

    /// The file name of the database in these surroundings.
    pub open spec fn filename(self) -> Seq<char> {
        db_filename(self.use_test_db)
    }
}

/// The directory that holds the database: the chosen one where there is one,
/// else the application's data directory. It fails only where neither is
/// known.
pub open spec fn database_directory_of(
    custom_dir: Option<Seq<char>>,
    app_data_dir: Result<Seq<char>, Seq<char>>,
) -> Result<Seq<char>, LocationErrorView> {
    match custom_dir {
        Some(directory) => Ok(directory),
        None => match app_data_dir {
            Ok(directory) => Ok(directory),
            Err(message) => Err(failure(ErrorKind::AppDataDir, message)),
        },
    }
}

/// The path of the database: its file name joined to the directory that holds
/// it.
pub open spec fn database_path_of(
    custom_dir: Option<Seq<char>>,
    app_data_dir: Result<Seq<char>, Seq<char>>,
    use_test_db: bool,
) -> Result<Seq<char>, LocationErrorView> {
    match database_directory_of(custom_dir, app_data_dir) {
        Ok(directory) => Ok(joined_path(directory, db_filename(use_test_db))),
        Err(error) => Err(error),
    }
}

impl Environment {
    /// The directory the user chose, read from the configuration file.
    pub fn custom_dir(&self) -> (custom_dir: Option<String>)
        ensures
            text_of(custom_dir) == self@.custom_dir(),
    {
        match &self.app_config_dir {
            Ok(_) => match &self.config_content {
                Some(content) => get_custom_db_path(Some(content.as_str())),
                None => get_custom_db_path(None),
            },
            Err(_) => None,
        }
    }
}

/// The path of the database file in `directory`.
pub fn database_path_in(directory: &str, use_test_db: bool) -> (path: String)
    ensures
        path@ == joined_path(directory@, db_filename(use_test_db)),
{
    let name = get_db_filename(use_test_db);
    join_path(directory, name.as_str())
}

/// The directory that currently holds the database.
pub fn get_database_directory(env: &Environment) -> (directory: Result<String, LocationError>)
    ensures
        outcome_of(directory) == database_directory_of(env@.custom_dir(), env@.app_data_dir),
{
    match env.custom_dir() {
        Some(directory) => Ok(directory),
        None => match &env.app_data_dir {
            Ok(directory) => Ok(directory.clone()),
            Err(message) => Err(LocationError::new(ErrorKind::AppDataDir, message.as_str())),
        },
    }
}

/// The path of the database as it is now in effect.
pub fn get_database_path(env: &Environment) -> (path: Result<String, LocationError>)
    ensures
        outcome_of(path) == database_path_of(
            env@.custom_dir(),
            env@.app_data_dir,
            env@.use_test_db,
        ),
{
    match get_database_directory(env) {
        Ok(directory) => Ok(database_path_in(directory.as_str(), env.use_test_db)),
        Err(error) => Err(error),
    }
}

/// The effective path is always the file name of the database joined to the
/// directory in effect, whatever the location store holds; there is no path
/// only where no directory was chosen and the platform names none.
pub proof fn lemma_database_path_names_the_file(
    custom_dir: Option<Seq<char>>,
    app_data_dir: Result<Seq<char>, Seq<char>>,
    use_test_db: bool,
)
    ensures
        match database_path_of(custom_dir, app_data_dir, use_test_db) {
            Ok(path) => {
                &&& database_directory_of(custom_dir, app_data_dir) matches Ok(directory)
                &&& path == joined_path(directory, db_filename(use_test_db))
            },
            Err(error) => {
                &&& custom_dir is None
                &&& app_data_dir matches Err(message)
                &&& error == failure(ErrorKind::AppDataDir, message)
            },
        },
{
}

} // verus!
