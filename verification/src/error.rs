//! What can keep a command from being run.
use vstd::prelude::*;

verus! {

/// The exit code of a run that had no command.
pub const MISSING_COMMAND_CODE: i32 = 1;

/// The exit code of a run whose shell could not be started: the code by which
/// a shell itself reports a command that it did not find.
pub const SPAWN_FAILURE_CODE: i32 = 127;

/// Why no command ran.
#[derive(Clone, Copy, Debug, PartialEq, Eq, Structural)]
pub enum KritikError {
    /// No command was given.
    MissingCommand,
    /// The shell that runs the command could not be started.
    SpawnFailed,
}

impl KritikError {
    /// The exit code that stands for the error.
    pub open spec fn code(self) -> i32 {
        match self {
            KritikError::MissingCommand => MISSING_COMMAND_CODE,
            KritikError::SpawnFailed => SPAWN_FAILURE_CODE,
        }
    }

    /// The words that tell the user of the error.
    pub open spec fn words(self) -> Seq<char> {
        match self {
            KritikError::MissingCommand => "Missing command to run"@,
            KritikError::SpawnFailed => "Unable to start the shell"@,
        }
    }

    /// The exit code that stands for the error: never 0.
    pub fn exit_code(self) -> (code: i32)
        ensures
            code == self.code(),
            code != 0,
    {
        match self {
            KritikError::MissingCommand => MISSING_COMMAND_CODE,
            KritikError::SpawnFailed => SPAWN_FAILURE_CODE,
        }
    }

    /// The diagnostic shown to the user.
    pub fn message(self) -> (text: String)
        ensures
            text@ == self.words(),
    {
        match self {
            KritikError::MissingCommand => String::from_str("Missing command to run"),
            KritikError::SpawnFailed => String::from_str("Unable to start the shell"),
        }
    }
}

} // verus!
