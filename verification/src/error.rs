//! The command layer's own error values.

use vstd::prelude::*;

verus! {

/// What a command execution can fail on before any outside work is done.
#[derive(Clone, Copy, Debug, PartialEq, Eq, Structural)]
#[allow(non_camel_case_types)]
pub enum CommandExecError {
    /// The arguments handed to the command do not fit it.
    INVALID_ARGUMENTS,
}

impl CommandExecError {
    /// The notice shown to the user for this error.
    pub fn message(&self) -> (r: &'static str)
        ensures
            *self is INVALID_ARGUMENTS ==> r@ == "Invalid arguments."@,
    {
        match self {
            CommandExecError::INVALID_ARGUMENTS => "Invalid arguments.",
        }
    }
}

} // verus!
