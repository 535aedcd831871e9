//! What the player's scripts trace and warn of, as lines for the console.

use vstd::prelude::*;
use crate::text::join;

verus! {

/// A log that goes to the console.
#[derive(Clone, Copy, Debug, PartialEq, Eq, Structural)]
pub struct ConsoleLogBackend {}

/// What a warning line begins with, as Flash Player writes it.
pub open spec fn warning_prefix() -> Seq<char> {
    "Warning: "@
}

impl ConsoleLogBackend {
    pub fn new() -> (log: ConsoleLogBackend)
        ensures
            log == (ConsoleLogBackend {  }),
    {
        return ConsoleLogBackend {  };
    }

    /// The line for something a script traced: the message as it is.
    pub fn avm_trace(&self, message: &str) -> (line: String)
        ensures
            line@ == message@,
    {
        message.to_owned()
    }

    /// The line for a warning: the message behind the prefix for warnings.
    pub fn avm_warning(&self, message: &str) -> (line: String)
        ensures
            line@ == warning_prefix() + message@,
    {
        join("Warning: ", message)
    }
}

impl Default for ConsoleLogBackend {
    fn default() -> (log: ConsoleLogBackend)
        ensures
            log == (ConsoleLogBackend {  }),
    {
        ConsoleLogBackend {  }
    }
}

} // verus!
