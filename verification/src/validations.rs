//! The stake validator: checks a proposed stake against the caller's funds
//! and the game's coverage rule before any state is touched.

use crate::msg::MessageInfo;
use crate::BetError;
use crate::EXACT_MATCH;
use vstd::prelude::*;

verus! {

/// Stake-coverage multiplier: the exact-match prediction must be covered
/// twice over, every other prediction once.
pub open spec fn spec_multiplier(prediction: u8) -> int {
    if prediction == EXACT_MATCH {
        2
    } else {
        1
    }
}

/// The funds the validator counts: the amount of the first funds entry,
/// or zero when the caller supplied none.
pub open spec fn spec_available(info: MessageInfo) -> int {
    if info.funds@.len() == 0 {
        0
    } else {
        info.funds@[0].amount as int
    }
}

/// The funds a stake must be covered by.
pub open spec fn spec_required(prediction: u8, amount: u128) -> int {
    spec_multiplier(prediction) * amount
}

/// What the validator decides, as a pure function of its inputs: a zero
/// stake is invalid; a stake the available funds do not cover is
/// insufficient; everything else is accepted.
pub open spec fn spec_validate(amount: u128, prediction: u8, info: MessageInfo) -> Result<
    (),
    BetError,
> {
    if amount == 0 {
        Err(BetError::InvalidAmount)
    } else if spec_available(info) < spec_required(prediction, amount) {
        Err(BetError::InsufficientFunds)
    } else {
        Ok(())
    }
}

/// Checks a proposed stake against the caller's funds and the coverage
/// rule. Pure: no state is read or written besides the arguments.
///
/// A caller that supplied no funds entries is treated as having zero
/// funds, so a positive stake is refused as insufficient, never with an
/// out-of-bounds fault.
pub fn validate_bet_amount(amount: u128, prediction: u8, info: &MessageInfo) -> (r: Result<
    (),
    BetError,
>)
    ensures
        r == spec_validate(amount, prediction, *info),
{
    if amount == 0 {
        return Err(BetError::InvalidAmount);
    }
    let sender_balance: u128 = if info.funds.len() == 0 {
        0
    } else {
        info.funds[0].amount
    };
    if prediction == EXACT_MATCH {
        if amount > u128::MAX / 2 || sender_balance < amount * 2 {
            return Err(BetError::InsufficientFunds);
        }
    } else {
        if sender_balance < amount {
            return Err(BetError::InsufficientFunds);
        }
    }
    Ok(())
}

} // verus!
