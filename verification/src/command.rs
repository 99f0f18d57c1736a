//! The commands of the vault and the rules that hold before any of them runs.

use vstd::prelude::*;

verus! {

/// A command, as the user gave it.
#[derive(Debug, PartialEq, Eq)]
pub enum Command {
    /// Initialize the vault.
    Init,
    /// Store a password under a name: the one given, or a generated one.
    Add { name: String, password: Option<String>, length: Option<usize>, use_symbols: bool },
    /// Retrieve the password stored under a name.
    Get { name: String, reveal: bool },
    /// List the names of the stored entries.
    List,
    /// Remove the entry stored under a name.
    Delete { name: String },
}

/// Why a command was refused before it touched the vault.
#[derive(Debug, Clone, Copy, PartialEq, Eq, Structural)]
pub enum CommandError {
    /// The vault was not initialized, and the command is not the one that
    /// initializes it.
    NotInitialized,
    /// A password was given together with a length for a generated one.
    PasswordWithLength,
    /// A password was given together with a request for symbols in a generated
    /// one.
    PasswordWithSymbols,
}

/// Where the password of a new entry comes from.
#[derive(Debug, PartialEq, Eq)]
pub enum PasswordSource {
    /// The user gave it.
    Given(String),
    /// It is to be generated.
    Generated { length: Option<usize>, use_symbols: bool },
}

/// Whether the command may run on a vault that is, or is not, initialized.
/// Only initialization itself may run before the vault is initialized.
pub open spec fn may_run(command: Command, initialized: bool) -> bool {
    initialized || command is Init
}

/// The source of the password of a new entry. A given password excludes every
/// setting of the generator; of two offending settings the length is the one
/// reported.
pub open spec fn source_of(
    password: Option<String>,
    length: Option<usize>,
    use_symbols: bool,
) -> Result<PasswordSource, CommandError> {
    match password {
        Some(given) => if length is Some {
            Err(CommandError::PasswordWithLength)
        } else if use_symbols {
            Err(CommandError::PasswordWithSymbols)
        } else {
            Ok(PasswordSource::Given(given))
        },
        None => Ok(PasswordSource::Generated { length, use_symbols }),
    }
}

/// Admits the command, or refuses it because the vault is not initialized.
pub fn check_initialized(
    command: &Command,
    initialized: bool,
) -> (admitted: Result<(), CommandError>)
    ensures
        admitted == if may_run(*command, initialized) {
            Ok::<(), CommandError>(())
        } else {
            Err::<(), CommandError>(CommandError::NotInitialized)
        },
{
    match command {
        Command::Init => Ok(()),
        _ => if initialized {
            Ok(())
        } else {
            Err(CommandError::NotInitialized)
        },
    }
}

/// Decides where the password of a new entry comes from, or refuses the
/// request where a password was given along with settings for generating one.
pub fn password_source(
    password: Option<String>,
    length: Option<usize>,
    use_symbols: bool,
) -> (source: Result<PasswordSource, CommandError>)
    ensures
        source == source_of(password, length, use_symbols),
{
    match password {
        Some(given) => {
            if length.is_some() {
                Err(CommandError::PasswordWithLength)
            } else if use_symbols {
                Err(CommandError::PasswordWithSymbols)
            } else {
                Ok(PasswordSource::Given(given))
            }
        },
        None => Ok(PasswordSource::Generated { length, use_symbols }),
    }
}

impl CommandError {
    /// The refusal in words.
    pub fn message(&self) -> (text: String)
        ensures
            text@ == match *self {
                CommandError::NotInitialized =>
                    "Vault is not initialized. Please run 'walkpwd init' first."@,
                CommandError::PasswordWithLength => "Cannot specify both password and length"@,
                CommandError::PasswordWithSymbols =>
                    "Cannot specify both password and use_symbols"@,
            },
    {
        match self {
            CommandError::NotInitialized =>
                "Vault is not initialized. Please run 'walkpwd init' first.".to_owned(),
            CommandError::PasswordWithLength =>
                "Cannot specify both password and length".to_owned(),
            CommandError::PasswordWithSymbols =>
                "Cannot specify both password and use_symbols".to_owned(),
        }
    }
}

} // verus!
