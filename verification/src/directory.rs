//! Where the vault lies: its directory and the two files in it.
//!
//! The directory is the per-user data directory that the platform assigns to
//! an application of this name. It is found by the `directories` crate, from
//! the operating system and the environment of the process.

use vstd::prelude::*;

verus! {

/// The name under which the platform is asked for a data directory.
pub const APPLICATION: &'static str = "walkpwd";

/// The name of the marker file inside the vault directory.
pub const MARKER_FILE: &'static str = "vault_initialized.flag";

/// The name of the vault file inside the vault directory.
pub const VAULT_FILE: &'static str = "vault.json";

/// What the marker file is written with. Only its presence counts.
pub const MARKER_CONTENT: &'static str = "initialized";

/// The path of the file `name` inside the directory `dir`.
pub open spec fn file_in(dir: Seq<char>, name: Seq<char>) -> Seq<char> {
    dir + "/"@ + name
}

/// Why the vault directory is not known.
#[derive(Debug, Clone, Copy, PartialEq, Eq, Structural)]
pub enum DirectoryError {
    /// The platform names no home directory for the user.
    NoHomeDirectory,
}

impl DirectoryError {
    /// The failure in words.
    pub fn message(&self) -> (text: String)
        ensures
            text@ == "Could not determine project directory"@,
    {
        "Could not determine project directory".to_owned()
    }
}

/// The directories that a platform assigns to an application. Nothing is
/// known of its content.
#[verifier::external_type_specification]
#[verifier::external_body]
pub struct ExProjectDirs(directories::ProjectDirs);

/// `directories::ProjectDirs::from` looks the directories of an application up
/// on this platform. Whether it finds them, and where, depends on the
/// operating system and the environment, so nothing is claimed of its result.
pub assume_specification[ directories::ProjectDirs::from ](
    qualifier: &str,
    organization: &str,
    application: &str,
) -> (dirs: Option<directories::ProjectDirs>)
;

/// Calls `directories::ProjectDirs::data_dir` and writes the path out as text,
/// with a replacement character wherever the path is not Unicode. Nothing is
/// claimed of the text.
#[verifier::external_body]
fn data_dir_text(dirs: &directories::ProjectDirs) -> (text: String) {
    dirs.data_dir().to_string_lossy().to_string()
}

/// The vault directory, given the data directory that the platform named, if
/// it named one.
pub fn vault_dir_from(data_dir: Option<String>) -> (dir: Result<String, DirectoryError>)
    ensures
        match data_dir {
            Some(path) => dir == Ok::<String, DirectoryError>(path),
            None => dir == Err::<String, DirectoryError>(DirectoryError::NoHomeDirectory),
        },
{
    match data_dir {
        Some(path) => Ok(path),
        None => Err(DirectoryError::NoHomeDirectory),
    }
}

/// The vault directory of the current user. It fails where the platform names
/// no home directory; where the directory lies is the platform's matter.
pub fn get_vault_dir() -> (dir: Result<String, DirectoryError>)
    ensures
        dir is Err ==> dir == Err::<String, DirectoryError>(DirectoryError::NoHomeDirectory),
{
    let data_dir = match directories::ProjectDirs::from("", "", APPLICATION) {
        Some(dirs) => Some(data_dir_text(&dirs)),
        None => None,
    };
    vault_dir_from(data_dir)
}

/// The path of the marker file of the vault in `vault_dir`.
pub fn marker_path(vault_dir: &str) -> (path: String)
    ensures
        path@ == file_in(vault_dir@, MARKER_FILE@),
{
    let mut path = vault_dir.to_owned();
    path.append("/");
    path.append(MARKER_FILE);
    path
}

/// The path of the vault file of the vault in `vault_dir`.
pub fn vault_path(vault_dir: &str) -> (path: String)
    ensures
        path@ == file_in(vault_dir@, VAULT_FILE@),
{
    let mut path = vault_dir.to_owned();
    path.append("/");
    path.append(VAULT_FILE);
    path
}

} // verus!
