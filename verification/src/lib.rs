//! Settlement core of a single-round wager game: a participant stakes an
//! amount against a prediction, a deterministic roll decides the outcome,
//! and a payout or forfeiture is computed, recorded, and turned into a
//! transfer instruction.

use vstd::prelude::*;

mod bet;
mod contract;
mod ids;
mod ledger;
mod msg;
mod state;
mod validations;

pub use bet::calculate_loss;
pub use bet::calculate_prize;
pub use bet::spec_loss;
pub use bet::spec_prize;
pub use bet::Bet;
pub use bet::BetError;
pub use contract::create_transfer_msg;
pub use contract::execute;
pub use contract::generate_bet_id;
pub use contract::instantiate;
pub use contract::is_winner;
pub use contract::lemma_every_outcome_class_reachable;
pub use contract::lemma_sequential_bet_ids_distinct;
pub use contract::place_bet;
pub use contract::place_bet_post;
pub use contract::simulate_dice_roll;
pub use contract::spec_denom;
pub use contract::spec_is_winner;
pub use contract::spec_roll;
pub use ids::dec_digits;
pub use ids::dec_value;
pub use ids::lemma_dec_digits_injective;
pub use ids::lemma_dec_digits_value;
pub use ids::u64_to_decimal;
pub use ledger::BetLedger;
pub use ledger::LedgerEntry;
pub use msg::Coin;
pub use msg::Env;
pub use msg::ExecuteMsg;
pub use msg::InstantiateMsg;
pub use msg::MessageInfo;
pub use msg::PlaceBetResponse;
pub use msg::TransferMsg;
pub use state::State;
pub use validations::spec_available;
pub use validations::spec_multiplier;
pub use validations::spec_required;
pub use validations::spec_validate;
pub use validations::validate_bet_amount;

verus! {

/// Prediction code whose win condition is an exact match with the midpoint;
/// it carries the higher payout and the higher stake-coverage requirement.
pub const EXACT_MATCH: u8 = 3;

/// The resolver's target value: the outcome a prediction is measured
/// against, the most common total of two dice.
pub const MIDPOINT: u8 = 7;

/// The lowest outcome a round can resolve to: the smallest two-dice total.
pub const ROLL_MIN: u8 = 2;

/// The number of distinct outcomes a round can resolve to: the two-dice
/// totals `2..=12`.
pub const ROLL_MODULUS: u64 = 11;

} // verus!
