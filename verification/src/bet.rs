//! Bet records and the payout calculator: prize on a win, forfeiture on a
//! loss, both pure functions of the prediction code and the staked amount.

use crate::EXACT_MATCH;
use vstd::prelude::*;

verus! {

/// One wager: a prediction code and the staked amount.
///
/// A stored bet always has `amount > 0`; the stake validator rejects a zero
/// stake before any record is created.
#[derive(Clone, Copy, Debug, PartialEq, Eq, Structural)]
pub struct Bet {
    pub prediction: u8,
    pub amount: u128,
}

/// The closed set of ways a bet can be refused or a settlement can fail.
#[derive(Clone, Copy, Debug, PartialEq, Eq, Structural)]
pub enum BetError {
    /// The stake is zero.
    InvalidAmount,
    /// The caller's available funds do not cover the required stake.
    InsufficientFunds,
    /// The ledger already holds a bet under the minted identifier.
    DuplicateId,
    /// The payout or forfeiture would not fit the monetary type.
    ArithmeticOverflow,
}

impl BetError {
    /// Human-readable description of the error.
    pub fn message(&self) -> (r: &'static str)
        ensures
            *self is InvalidAmount ==> r@ == "Bet amount must be greater than zero"@,
            *self is InsufficientFunds ==> r@ == "Insufficient balance to place the bet"@,
            *self is DuplicateId ==> r@ == "A bet with this identifier already exists"@,
            *self is ArithmeticOverflow ==> r@ == "Settlement amount overflows the monetary type"@,
    {
        match self {
            BetError::InvalidAmount => "Bet amount must be greater than zero",
            BetError::InsufficientFunds => "Insufficient balance to place the bet",
            BetError::DuplicateId => "A bet with this identifier already exists",
            BetError::ArithmeticOverflow => "Settlement amount overflows the monetary type",
        }
    }
}

/// Prize owed on a win: five times the stake for the exact-match
/// prediction, twice the stake for every other prediction.
pub open spec fn spec_prize(prediction: u8, amount: u128) -> int {
    if prediction == EXACT_MATCH {
        5 * amount
    } else {
        2 * amount
    }
}

/// Forfeiture owed on a loss: twice the stake for the exact-match
/// prediction, the stake itself for every other prediction.
pub open spec fn spec_loss(prediction: u8, amount: u128) -> int {
    if prediction == EXACT_MATCH {
        2 * amount
    } else {
        amount as int
    }
}

/// Amount transferred to the bettor on a win.
///
/// Fails closed on overflow: stakes are monetary values, so a prize that
/// would not fit the monetary type rejects the settlement instead of
/// wrapping.
pub fn calculate_prize(prediction: u8, amount: u128) -> (r: Result<u128, BetError>)
    ensures
        spec_prize(prediction, amount) <= u128::MAX ==> r == Ok::<u128, BetError>(
            spec_prize(prediction, amount) as u128,
        ),
        spec_prize(prediction, amount) > u128::MAX ==> r == Err::<u128, BetError>(
            BetError::ArithmeticOverflow,
        ),
{
    if prediction == EXACT_MATCH {
        if amount <= u128::MAX / 5 {
            Ok(amount * 5)
        } else {
            Err(BetError::ArithmeticOverflow)
        }
    } else {
        if amount <= u128::MAX / 2 {
            Ok(amount * 2)
        } else {
            Err(BetError::ArithmeticOverflow)
        }
    }
}

/// Amount forfeited to the house on a loss.
///
/// Fails closed on overflow, as `calculate_prize` does.
pub fn calculate_loss(prediction: u8, amount: u128) -> (r: Result<u128, BetError>)
    ensures
        spec_loss(prediction, amount) <= u128::MAX ==> r == Ok::<u128, BetError>(
            spec_loss(prediction, amount) as u128,
        ),
        spec_loss(prediction, amount) > u128::MAX ==> r == Err::<u128, BetError>(
            BetError::ArithmeticOverflow,
        ),
{
    if prediction == EXACT_MATCH {
        if amount <= u128::MAX / 2 {
            Ok(amount * 2)
        } else {
            Err(BetError::ArithmeticOverflow)
        }
    } else {
        Ok(amount)
    }
}

} // verus!
