//! The ways in which preparing a launch fails.
use vstd::prelude::*;

verus! {

/// Why a launch step failed.
#[derive(Debug)]
pub enum LaunchError {
    /// A file or directory could not be read, written or run; the text says which.
    Io(String),
    /// The server root holds no `.cfg` file.
    ConfigNotFound,
    /// The server configuration holds no `password` line that could be read.
    PasswordNotFound,
    /// The mod directory of this name holds no key file.
    NoKeyFound(String),
    /// The search for key files failed; the text says why.
    KeySearch(String),
    /// Some selected mods lack key files; the text names each, one per line.
    MissingKeys(String),
}

/// The text shown to the operator for `e`.
pub open spec fn error_message(e: LaunchError) -> Seq<char> {
    match e {
        LaunchError::Io(m) => m@,
        LaunchError::ConfigNotFound => "A3 Server Config not found in A3Root"@,
        LaunchError::PasswordNotFound => "Failed to parse config and find password..."@,
        LaunchError::NoKeyFound(m) => "No Bikey found in mod: "@ + m@,
        LaunchError::KeySearch(m) => m@,
        LaunchError::MissingKeys(m) => m@,
    }
}

impl LaunchError {
    /// The text shown to the operator for this error.
    pub fn message(&self) -> (r: String)
        ensures
            r@ == error_message(*self),
    {
        match self {
            LaunchError::Io(m) => m.clone(),
            LaunchError::ConfigNotFound => String::from_str("A3 Server Config not found in A3Root"),
            LaunchError::PasswordNotFound => {
                String::from_str("Failed to parse config and find password...")
            },
            LaunchError::NoKeyFound(m) => {
                let mut r = String::from_str("No Bikey found in mod: ");
                r.append(m.as_str());
                r
            },
            LaunchError::KeySearch(m) => m.clone(),
            LaunchError::MissingKeys(m) => m.clone(),
        }
    }
}

} // verus!
