//! The bootstrap decision: what the process does with the pre-flight
//! lock-state query before it would bind a listener. A key that is
//! already available means there is nothing to serve and the process
//! exits successfully at once; an unavailable key means the server
//! starts; a failed query is fatal.

use vstd::prelude::*;

use crate::zfs::{KeyStatus, KeystatusError};

verus! {

/// What the process does after the pre-flight lock-state query.
pub enum BootAction {
    /// The key is already loaded: never bind a listener, exit successfully.
    AlreadyUnlocked,
    /// The key is not loaded: bind the listener and serve until the
    /// shutdown coordinator signals.
    StartServer,
    /// The query failed: exit non-zero with the error's diagnostic text.
    Abort { error: KeystatusError },
}

/// Decides the bootstrap action from the pre-flight query's result.
pub fn preflight_decision(status: Result<KeyStatus, KeystatusError>) -> (r: BootAction)
    ensures
        (status matches Ok(s) && s == KeyStatus::Available) ==> r is AlreadyUnlocked,
        (status matches Ok(s) && s == KeyStatus::Unavailable) ==> r is StartServer,
        status matches Err(e) ==> (r matches BootAction::Abort { error } && error == e),
{
    match status {
        Ok(KeyStatus::Available) => BootAction::AlreadyUnlocked,
        Ok(KeyStatus::Unavailable) => BootAction::StartServer,
        Err(error) => BootAction::Abort { error },
    }
}

} // verus!
