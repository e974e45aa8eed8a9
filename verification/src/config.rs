//! The location store: the side configuration that remembers the directory
//! the user chose for the database.

use crate::json::{
    get_member, get_text, json_document_strings, json_object_text, json_strings, parse_json,
    write_empty_object, write_object,
};
use crate::paths::{join_path, joined_path};
use vstd::prelude::*;

verus! {

/// The views of an optional string.
pub open spec fn text_of(value: Option<String>) -> Option<Seq<char>> {
    match value {
        Some(text) => Some(text@),
        None => None,
    }
}

/// The view of an optional string slice.
pub open spec fn slice_of(value: Option<&str>) -> Option<Seq<char>> {
    match value {
        Some(text) => Some(text@),
        None => None,
    }
}

/// The key of the configuration document under which the chosen directory is
/// stored.
pub open spec fn db_path_key() -> Seq<char> {
    "custom_db_path"@
}

/// File name of the configuration document inside the application's
/// configuration directory.
pub open spec fn config_file_name() -> Seq<char> {
    "db_config.json"@
}

/// The directory that the string members of a configuration document name:
/// the string stored under the key, and nothing where no string is.
pub open spec fn custom_dir_in(strings: Map<Seq<char>, Seq<char>>) -> Option<Seq<char>> {
    if strings.contains_key(db_path_key()) {
        Some(strings[db_path_key()])
    } else {
        None
    }
}

/// The directory that the content of the configuration file names. A file
/// that could not be read (`None`), that is not JSON, that is no object, that
/// lacks the key or holds anything but a string under it gives `None`.
pub open spec fn stored_custom_dir(content: Option<Seq<char>>) -> Option<Seq<char>> {
    match content {
        Some(text) => match json_document_strings(text) {
            Some(strings) => custom_dir_in(strings),
            None => None,
        },
        None => None,
    }
}

/// The text written to the configuration file for a chosen directory, or for
/// none.
pub open spec fn config_document_text(custom_dir: Option<Seq<char>>) -> Seq<char> {
    match custom_dir {
        Some(directory) => json_object_text(db_path_key(), directory),
        None => "{}"@,
    }
}

/// Whether the text written for `custom_dir` names `custom_dir` again when it
/// is read. That it does is for the JSON library to keep: it is known of no
/// directory here, and is stated wherever a result rests on it.
pub open spec fn reads_back(custom_dir: Option<Seq<char>>) -> bool {
    stored_custom_dir(Some(config_document_text(custom_dir))) == custom_dir
}

/// The path of the configuration file in the configuration directory
/// `config_dir`.
pub fn config_file_path(config_dir: &str) -> (path: String)
    ensures
        path@ == joined_path(config_dir@, config_file_name()),
{
    join_path(config_dir, "db_config.json")
}

/// Reads the chosen directory out of a parsed configuration document.
pub fn custom_dir_of_document(document: &serde_json::Value) -> (custom_dir: Option<String>)
    ensures
        text_of(custom_dir) == custom_dir_in(json_strings(*document)),
{
    match get_member(document, "custom_db_path") {
        Some(member) => match get_text(member) {
            Some(text) => Some(text.to_owned()),
            None => None,
        },
        None => None,
    }
}

/// Reads the chosen directory from the content of the configuration file.
/// `content` is `None` where the file is missing or could not be read. Every
/// defect of the content gives `None`: the configuration is advisory and the
/// default directory is always a safe answer.
pub fn get_custom_db_path(content: Option<&str>) -> (custom_dir: Option<String>)
    ensures
        text_of(custom_dir) == stored_custom_dir(slice_of(content)),
{
    match content {
        Some(text) => match parse_json(text) {
            Ok(document) => custom_dir_of_document(&document),
            Err(_) => None,
        },
        None => None,
    }
}

/// The text to write to the configuration file so that it names `custom_dir`,
/// or no directory.
pub fn config_document(custom_dir: Option<&str>) -> (document: String)
    ensures
        document@ == config_document_text(slice_of(custom_dir)),
{
    match custom_dir {
        Some(directory) => write_object("custom_db_path", directory),
        None => write_empty_object(),
    }
}

} // verus!
