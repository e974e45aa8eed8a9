//! The reveal action: which program shows the database in the file manager
//! of the platform.

use crate::error::{failure, ErrorKind, LocationError, LocationErrorView};
use crate::paths::{parent_of, parent_path};
use crate::resolver::{database_path_of, get_database_path, Environment};
use vstd::prelude::*;

verus! {

/// The platforms, as far as their file managers differ.
#[derive(Clone, Copy, Debug, PartialEq, Eq, Structural)]
pub enum Platform {
    Windows,
    MacOs,
    /// Every other Unix-like system.
    Unix,
}

/// A program to start and the arguments to hand to it, one by one.
#[derive(Debug, PartialEq, Eq)]
pub struct RevealCommand {
    pub program: String,
    pub arguments: Vec<String>,
}

/// A command as contracts see it.
pub struct RevealCommandView {
    pub program: Seq<char>,
    pub arguments: Seq<Seq<char>>,
}

impl View for RevealCommand {
    type V = RevealCommandView;

    open spec fn view(&self) -> RevealCommandView {
        RevealCommandView {
            program: self.program@,
            arguments: self.arguments@.map_values(|argument: String| argument@),
        }
    }
}

/// The command that reveals the file `db_path`. Windows and macOS select the
/// file in its folder: Windows takes the one argument made of `/select,` and
/// the path with nothing between them, macOS the flag `-R` and the path as two
/// arguments. Elsewhere the folder is opened, and there is nothing to start
/// where the path has no parent.
pub open spec fn reveal_command_of(platform: Platform, db_path: Seq<char>) -> Option<
    RevealCommandView,
> {
    match platform {
        Platform::Windows => Some(
            RevealCommandView { program: "explorer"@, arguments: seq!["/select,"@ + db_path] },
        ),
        Platform::MacOs => Some(
            RevealCommandView { program: "open"@, arguments: seq!["-R"@, db_path] },
        ),
        Platform::Unix => match parent_of(db_path) {
            Some(parent) => Some(
                RevealCommandView { program: "xdg-open"@, arguments: seq![parent] },
            ),
            None => None,
        },
    }
}

/// The kind of failure reported when the file manager of `platform` could
/// not be started.
pub open spec fn reveal_failure_kind(platform: Platform) -> ErrorKind {
    match platform {
        Platform::Windows => ErrorKind::OpenExplorer,
        Platform::MacOs => ErrorKind::OpenFinder,
        Platform::Unix => ErrorKind::OpenFileManager,
    }
}

/// The views of a command, of none, or of the failure returned in their
/// place.
pub open spec fn reveal_of(value: Result<Option<RevealCommand>, LocationError>) -> Result<
    Option<RevealCommandView>,
    LocationErrorView,
> {
    match value {
        Ok(Some(command)) => Ok(Some(command@)),
        Ok(None) => Ok(None),
        Err(error) => Err(error@),
    }
}

/// The command that reveals the file `db_path` on `platform`.
pub fn reveal_command(platform: Platform, db_path: &str) -> (command: Option<RevealCommand>)
    ensures
        match command {
            Some(command) => reveal_command_of(platform, db_path@) == Some(command@),
            None => reveal_command_of(platform, db_path@) is None,
        },
{
    let mut arguments: Vec<String> = Vec::new();
    let program = match platform {
        Platform::Windows => {
            arguments.push("/select,".to_owned().concat(db_path));
            "explorer"
        },
        Platform::MacOs => {
            arguments.push("-R".to_owned());
            arguments.push(db_path.to_owned());
            "open"
        },
        Platform::Unix => match parent_path(db_path) {
            Some(parent) => {
                arguments.push(parent);
                "xdg-open"
            },
            None => {
                return None;
            },
        },
    };
    let command = RevealCommand { program: program.to_owned(), arguments };
    assert(command@.arguments =~= reveal_command_of(platform, db_path@)->0.arguments);
    Some(command)
}

/// The command that reveals the database now in effect. The caller starts
/// the program and does not wait for it.
pub fn open_database_location(env: &Environment, platform: Platform) -> (command: Result<
    Option<RevealCommand>,
    LocationError,
>)
    ensures
        reveal_of(command) == match database_path_of(
            env@.custom_dir(),
            env@.app_data_dir,
            env@.use_test_db,
        ) {
            Ok(db_path) => Ok(reveal_command_of(platform, db_path)),
            Err(error) => Err(error),
        },
{
    match get_database_path(env) {
        Ok(db_path) => Ok(reveal_command(platform, db_path.as_str())),
        Err(error) => Err(error),
    }
}

/// The command's answer when the program could not be started and the
/// operating system said `detail`.
pub fn reveal_failure(platform: Platform, detail: &str) -> (error: LocationError)
    ensures
        error@ == failure(reveal_failure_kind(platform), detail@),
{
    let kind = match platform {
        Platform::Windows => ErrorKind::OpenExplorer,
        Platform::MacOs => ErrorKind::OpenFinder,
        Platform::Unix => ErrorKind::OpenFileManager,
    };
    LocationError::new(kind, detail)
}

} // verus!
