//! Cooperative shutdown flag.

use vstd::prelude::*;

verus! {

/// A flag that starts cleared and, once set, stays set.
///
/// Every loop of the relay looks at the token before it does any work and
/// leaves when the token is set. No operation clears it.
#[derive(Debug)]
pub struct ShutdownToken {
    requested: bool,
}

impl ShutdownToken {
    /// Whether shutdown has been requested.
    pub closed spec fn is_set(&self) -> bool {
        self.requested
    }

    /// A fresh token: shutdown has not been requested.
    pub fn new() -> (token: ShutdownToken)
        ensures
            !token.is_set(),
    {
        ShutdownToken { requested: false }
    }

    /// Requests shutdown. Setting a token that is already set changes nothing.
    pub fn set(&mut self)
        ensures
            final(self).is_set(),
    {
        self.requested = true;
    }

    /// Reads the flag.
    pub fn get(&self) -> (requested: bool)
        ensures
            requested == self.is_set(),
    {
        self.requested
    }
}

} // verus!
