//! Persisted game configuration, written once when the game is set up.

use vstd::prelude::*;

verus! {

/// The game's stored configuration: the starting balance figure it was
/// instantiated with. Informational: later settlement math does not read
/// it.
#[derive(Clone, Copy, Debug, PartialEq, Eq, Structural)]
pub struct State {
    pub initial_balance: u128,
}

} // verus!
