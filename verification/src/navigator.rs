//! What the player may do outside itself when a movie asks for it.

use vstd::prelude::*;

verus! {

/// A navigator for a console, where nobody can be asked: a movie may open any socket.
#[derive(Clone, Copy, Debug, PartialEq, Eq, Structural)]
pub struct ConsoleNavigatorInterface;

impl ConsoleNavigatorInterface {
    /// Whether the movie may open a socket to a host at a port: always.
    pub fn confirm_socket(&self, _host: &str, _port: u16) -> (allowed: bool)
        ensures
            allowed,
    {
        true
    }
}

} // verus!
