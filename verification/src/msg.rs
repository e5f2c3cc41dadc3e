//! Plain models of the host-environment values the game reads and emits:
//! the caller's funds, the request envelope, and the transfer instruction
//! handed back to the host for execution.

use vstd::prelude::*;

verus! {

/// One funds entry: a denomination symbol and an amount of it.
#[derive(Clone, Debug, PartialEq, Eq)]
pub struct Coin {
    pub denom: String,
    pub amount: u128,
}

/// What the host reports about the caller of a request: its address and
/// the funds available to it, in the order the host lists them.
#[derive(Clone, Debug, PartialEq, Eq)]
pub struct MessageInfo {
    pub sender: String,
    pub funds: Vec<Coin>,
}

/// What the host reports about the executing contract: its own address,
/// the recipient of every forfeited stake.
#[derive(Clone, Debug, PartialEq, Eq)]
pub struct Env {
    pub contract_address: String,
}

/// Request to initialize the game with a starting balance figure.
#[derive(Clone, Copy, Debug, PartialEq, Eq, Structural)]
pub struct InstantiateMsg {
    pub initial_balance: u128,
}

/// The operations the game accepts.
#[derive(Clone, Copy, Debug, PartialEq, Eq, Structural)]
pub enum ExecuteMsg {
    PlaceBet { prediction: u8, amount: u128 },
}

/// Instruction to the host's transfer mechanism: send `amount` to
/// `to_address`.
#[derive(Clone, Debug, PartialEq, Eq)]
pub struct TransferMsg {
    pub to_address: String,
    pub amount: Vec<Coin>,
}

/// Outcome of a successful placement: the transfer to execute and the
/// audit attributes of the round.
#[derive(Clone, Debug, PartialEq, Eq)]
pub struct PlaceBetResponse {
    /// Name of the operation, for the audit trail.
    pub method: String,
    /// The settlement transfer: to the bettor on a win, to the contract on
    /// a loss.
    pub transfer: TransferMsg,
    /// The resolved outcome of the round.
    pub roll: u8,
    /// Whether the prediction won.
    pub win: bool,
    /// The identifier under which the bet was recorded.
    pub bet_id: String,
}

} // verus!
