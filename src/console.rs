//! The console side: the commands that messages carry to it.

use vstd::prelude::*;

verus! {

/// The component that executes the commands of the messages sent to this
/// application.
pub struct Console {}

/// A command that the console can execute.
pub enum Command {
    /// Return the contents of the file at this path, relative to the
    /// application's root directory.
    GetFile(String),
}

impl Command {
    /// The word that names this command; the data it holds is not part of it.
    pub fn to_string(&self) -> (r: String)
        ensures
            r@ == "getfile"@,
    {
        match self {
            Command::GetFile(_) => "getfile".to_owned(),
        }
    }
}

} // verus!
