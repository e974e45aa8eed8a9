//! What can go wrong in a command, and the text shown to the user for it.

use vstd::prelude::*;

verus! {

/// The kinds of failure. The comment on each gives the text that introduces
/// it; kinds that carry a detail end in a colon and a space.
#[derive(Clone, Copy, Debug, PartialEq, Eq, Structural)]
pub enum ErrorKind {
    /// The directory handed to a command does not exist. Detail: the path.
    DirectoryMissing,
    /// The path handed to a command is not a directory. Detail: the path.
    NotADirectory,
    /// The platform names no data directory for the application.
    AppDataDir,
    /// The platform names no configuration directory for the application.
    ConfigDir,
    /// The configuration directory could not be created.
    CreateConfigDir,
    /// The configuration file could not be written.
    WriteConfig,
    /// The file to back up does not exist. No detail.
    DatabaseMissing,
    /// The file to back up has no parent directory. No detail.
    NoParentDirectory,
    /// The file to back up has no file name. No detail.
    NoFileName,
    /// The clock could not be read as seconds since the epoch.
    Timestamp,
    /// The backup copy failed.
    CreateBackup,
    /// The directory of the database could not be created.
    CreateDatabaseDir,
    /// The database could not be copied.
    CopyDatabase,
    /// The file manager of Windows could not be started.
    OpenExplorer,
    /// The file manager of macOS could not be started.
    OpenFinder,
    /// The file manager of another system could not be started.
    OpenFileManager,
}

/// A failure: its kind and the detail that completes the message, which is
/// the offending path for the two checks of a directory and the message of the
/// operating system or the platform for the rest.
#[derive(Debug, PartialEq, Eq)]
pub struct LocationError {
    pub kind: ErrorKind,
    pub detail: String,
}

/// A failure as contracts see it.
pub struct LocationErrorView {
    pub kind: ErrorKind,
    pub detail: Seq<char>,
}

impl View for LocationError {
    type V = LocationErrorView;

    open spec fn view(&self) -> LocationErrorView {
        LocationErrorView { kind: self.kind, detail: self.detail@ }
    }
}

/// The text that introduces a failure of the given kind.
pub open spec fn error_prefix(kind: ErrorKind) -> Seq<char> {
    match kind {
        ErrorKind::DirectoryMissing => "Directory does not exist: "@,
        ErrorKind::NotADirectory => "Path is not a directory: "@,
        ErrorKind::AppDataDir => "Failed to get app data directory: "@,
        ErrorKind::ConfigDir => "Failed to get config directory: "@,
        ErrorKind::CreateConfigDir => "Failed to create config directory: "@,
        ErrorKind::WriteConfig => "Failed to write config file: "@,
        ErrorKind::DatabaseMissing => "Database file does not exist"@,
        ErrorKind::NoParentDirectory => "Failed to get parent directory"@,
        ErrorKind::NoFileName => "Failed to get filename"@,
        ErrorKind::Timestamp => "Failed to get timestamp: "@,
        ErrorKind::CreateBackup => "Failed to create backup: "@,
        ErrorKind::CreateDatabaseDir => "Failed to create database directory: "@,
        ErrorKind::CopyDatabase => "Failed to copy database: "@,
        ErrorKind::OpenExplorer => "Failed to open explorer: "@,
        ErrorKind::OpenFinder => "Failed to open finder: "@,
        ErrorKind::OpenFileManager => "Failed to open file manager: "@,
    }
}

/// The failure of the given kind with the given detail.
pub open spec fn failure(kind: ErrorKind, detail: Seq<char>) -> LocationErrorView {
    LocationErrorView { kind, detail }
}

/// The failure of the given kind without a detail.
pub open spec fn bare_failure(kind: ErrorKind) -> LocationErrorView {
    LocationErrorView { kind, detail: Seq::empty() }
}

impl LocationErrorView {
    /// The message shown to the user: the kind's text, then the detail.
    pub open spec fn message(self) -> Seq<char> {
        error_prefix(self.kind) + self.detail
    }
}

impl ErrorKind {
    /// The text that introduces a failure of this kind.
    pub fn prefix(self) -> (text: &'static str)
        ensures
            text@ == error_prefix(self),
    {
        match self {
            ErrorKind::DirectoryMissing => "Directory does not exist: ",
            ErrorKind::NotADirectory => "Path is not a directory: ",
            ErrorKind::AppDataDir => "Failed to get app data directory: ",
            ErrorKind::ConfigDir => "Failed to get config directory: ",
            ErrorKind::CreateConfigDir => "Failed to create config directory: ",
            ErrorKind::WriteConfig => "Failed to write config file: ",
            ErrorKind::DatabaseMissing => "Database file does not exist",
            ErrorKind::NoParentDirectory => "Failed to get parent directory",
            ErrorKind::NoFileName => "Failed to get filename",
            ErrorKind::Timestamp => "Failed to get timestamp: ",
            ErrorKind::CreateBackup => "Failed to create backup: ",
            ErrorKind::CreateDatabaseDir => "Failed to create database directory: ",
            ErrorKind::CopyDatabase => "Failed to copy database: ",
            ErrorKind::OpenExplorer => "Failed to open explorer: ",
            ErrorKind::OpenFinder => "Failed to open finder: ",
            ErrorKind::OpenFileManager => "Failed to open file manager: ",
        }
    }
}

impl Clone for LocationError {
    fn clone(&self) -> (copy: LocationError)
        ensures
            copy@ == self@,
    {
        LocationError { kind: self.kind, detail: self.detail.clone() }
    }
}

impl LocationError {
    /// The failure of kind `kind` with `detail` as its detail.
    pub fn new(kind: ErrorKind, detail: &str) -> (error: LocationError)
        ensures
            error@ == failure(kind, detail@),
    {
        LocationError { kind, detail: detail.to_owned() }
    }

    /// The failure of kind `kind` without a detail.
    pub fn bare(kind: ErrorKind) -> (error: LocationError)
        ensures
            error@ == bare_failure(kind),
    {
        LocationError { kind, detail: String::new() }
    }

    /// The message shown to the user.
    pub fn message(&self) -> (text: String)
        ensures
            text@ == self@.message(),
    {
        self.kind.prefix().to_owned().concat(self.detail.as_str())
    }
}

} // verus!
