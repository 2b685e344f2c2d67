//! Where the configuration lives on disk.
//!
//! The directory is the one that the system asks applications to use; the
//! `directories` crate finds it from the user's environment. The file has a
//! fixed name inside that directory.

use crate::config::CONFIG_FILE_NAME;
use std::path::PathBuf;
use vstd::prelude::*;

verus! {

/// `std::path::PathBuf`, a path in the file system. Nothing inside it is
/// visible here.
#[verifier::external_type_specification]
#[verifier::external_body]
pub struct ExPathBuf(std::path::PathBuf);

/// The path that `PathBuf::join` makes of the directory `dir` and the name
/// `name`.
pub uninterp spec fn joined_path(dir: PathBuf, name: Seq<char>) -> PathBuf;

/// The text that `Path::to_string_lossy` makes of `path`.
pub uninterp spec fn path_text(path: PathBuf) -> Seq<char>;

/// Calls `ProjectDirs::from` and then `ProjectDirs::config_dir`: the
/// configuration directory of the project with these three names. The result
/// depends on the user's environment; without a home directory there is none.
#[verifier::external_body]
fn project_config_dir(qualifier: &str, organization: &str, application: &str) -> (dir: Option<
    PathBuf,
>) {
    match directories::ProjectDirs::from(qualifier, organization, application) {
        Some(dirs) => Some(dirs.config_dir().to_path_buf()),
        None => None,
    }
}

/// Calls `PathBuf::join`, which puts `name` behind `dir`.
#[verifier::external_body]
fn join_path(dir: &PathBuf, name: &str) -> (path: PathBuf)
    ensures
        path == joined_path(*dir, name@),
{
    dir.join(name)
}

/// Calls `Path::to_string_lossy`, which shows a path as text.
#[verifier::external_body]
fn show_path(path: &PathBuf) -> (text: String)
    ensures
        text@ == path_text(*path),
{
    path.to_string_lossy().to_string()
}

/// The three names under which the system files the shell: the qualifier,
/// the organisation and the application.
pub fn project_identifiers() -> (ids: (&'static str, &'static str, &'static str))
    ensures
        ids.0@ == "app"@,
        ids.1@ == "onyx"@,
        ids.2@ == "onyx-desktop"@,
{
    ("app", "onyx", "onyx-desktop")
}

/// The configuration directory of the shell, if the user's environment has
/// one: the directory that the system keeps for the project with the names
/// of `project_identifiers`.
pub fn get_config_dir() -> (dir: Option<PathBuf>) {
    let (qualifier, organization, application) = project_identifiers();
    project_config_dir(qualifier, organization, application)
}

/// The place of the configuration file inside `dir`.
pub fn config_file_in(dir: Option<PathBuf>) -> (path: Option<PathBuf>)
    ensures
        path == match dir {
            Some(d) => Some(joined_path(d, CONFIG_FILE_NAME@)),
            None => None,
        },
{
    match dir {
        Some(d) => Some(join_path(&d, CONFIG_FILE_NAME)),
        None => None,
    }
}

/// The place of the configuration file, if the user's environment has a
/// configuration directory: the file named `config.json` in it.
pub fn get_config_path() -> (path: Option<PathBuf>)
    ensures
        path matches Some(p) ==> exists|dir: PathBuf|
            p == #[trigger] joined_path(dir, CONFIG_FILE_NAME@),
{
    config_file_in(get_config_dir())
}

/// What asking for the place of the configuration file returns for `path`:
/// the path as text, or the words of the error.
pub open spec fn shown_config_path(path: Option<PathBuf>) -> Result<Seq<char>, Seq<char>> {
    match path {
        Some(p) => Ok(path_text(p)),
        None => Err("Could not determine config path"@),
    }
}

/// What a shown path holds.
pub open spec fn shown_path_view(shown: Result<String, String>) -> Result<Seq<char>, Seq<char>> {
    match shown {
        Ok(text) => Ok(text@),
        Err(message) => Err(message@),
    }
}

/// The place `path` of the configuration file as text for the user, or the
/// words of the error where there is no such place.
pub fn show_config_path(path: Option<PathBuf>) -> (shown: Result<String, String>)
    ensures
        shown_path_view(shown) == shown_config_path(path),
{
    match path {
        Some(p) => Ok(show_path(&p)),
        None => Err("Could not determine config path".to_owned()),
    }
}

/// The place of the configuration file as text for the user.
pub fn get_config_path_cmd() -> (shown: Result<String, String>)
    ensures
        exists|path: Option<PathBuf>| shown_path_view(shown) == #[trigger] shown_config_path(path),
{
    show_config_path(get_config_path())
}

} // verus!
