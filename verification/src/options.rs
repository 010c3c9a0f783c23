//! What the command-line client can be asked to do.

use vstd::prelude::*;

verus! {

/// The actions of the client.
#[derive(Clone, Copy, Debug, PartialEq, Eq, Structural)]
pub enum Action {
    Register,
    Login,
    LookupUser,
    CreatePrivateRoom,
    SendMessage,
}

/// The options that the client was started with.
#[derive(Clone, Copy, Debug)]
pub struct Options {
    pub action: Action,
}

impl Options {
    /// The action that was asked for.
    pub fn action(&self) -> (action: &Action)
        ensures
            *action == self.action,
    {
        &self.action
    }
}

} // verus!
