//! The bet orchestrator and the outcome resolver: `place_bet` validates a
//! stake, records the bet, resolves the round from the advanced counter,
//! and emits the settlement transfer with its audit attributes.

use crate::Bet;
use crate::BetError;
use crate::EXACT_MATCH;
use crate::MIDPOINT;
use crate::ROLL_MIN;
use crate::ROLL_MODULUS;
use crate::bet::calculate_loss;
use crate::bet::calculate_prize;
use crate::bet::spec_loss;
use crate::bet::spec_prize;
use crate::ids::dec_digits;
use crate::ids::u64_to_decimal;
use crate::ledger::BetLedger;
use crate::msg::Coin;
use crate::msg::Env;
use crate::msg::ExecuteMsg;
use crate::msg::InstantiateMsg;
use crate::msg::MessageInfo;
use crate::msg::PlaceBetResponse;
use crate::msg::TransferMsg;
use crate::state::State;
use crate::validations::spec_available;
use crate::validations::spec_required;
use crate::validations::validate_bet_amount;
use vstd::prelude::*;
use vstd::string::StringExecFns;

verus! {

/// The denomination every settlement transfer is paid in.
pub open spec fn spec_denom() -> Seq<char> {
    "ucmdx"@
}

/// The resolved outcome for a round-counter value: the counter reduced
/// onto the two-dice range `2..=12`, which spans the midpoint.
pub open spec fn spec_roll(counter: u64) -> u8 {
    (ROLL_MIN as u64 + counter % ROLL_MODULUS) as u8
}

/// The win rule: prediction 1 wins strictly above the midpoint, 2 strictly
/// below it, the exact-match prediction on the midpoint itself; every
/// other code never wins.
pub open spec fn spec_is_winner(prediction: u8, roll: u8) -> bool {
    if prediction == 1 {
        roll > MIDPOINT
    } else if prediction == 2 {
        roll < MIDPOINT
    } else if prediction == EXACT_MATCH {
        roll == MIDPOINT
    } else {
        false
    }
}

/// Derives the round outcome from a round-counter value.
///
/// Deterministic by design: the counter is the only entropy, so the
/// outcome is fully predictable from it; a production deployment must
/// substitute an externally supplied verifiable randomness source without
/// changing the win rule.
pub fn simulate_dice_roll(counter: u64) -> (r: u8)
    ensures
        r == spec_roll(counter),
        ROLL_MIN <= r && (r as u64) < ROLL_MIN as u64 + ROLL_MODULUS,
{
    ROLL_MIN + (counter % ROLL_MODULUS) as u8
}

/// Decides whether `prediction` wins against the resolved `roll`.
pub fn is_winner(prediction: u8, roll: u8) -> (r: bool)
    ensures
        r == spec_is_winner(prediction, roll),
{
    match prediction {
        1 => roll > MIDPOINT,
        2 => roll < MIDPOINT,
        3 => roll == MIDPOINT,
        _ => false,
    }
}

/// Mints the next bet identifier: advances the round counter by one and
/// renders the new value in decimal. Identifiers are never reused, since
/// the counter only moves forward.
pub fn generate_bet_id(counter: &mut u64) -> (r: String)
    requires
        *old(counter) < u64::MAX,
    ensures
        *final(counter) == *old(counter) + 1,
        r@ == dec_digits((*old(counter) + 1) as nat),
{
    *counter = *counter + 1;
    u64_to_decimal(*counter)
}

/// Builds the settlement instruction: one funds entry of the fixed
/// denomination, payable to the settlement recipient.
pub fn create_transfer_msg(winner_addr: String, amount: u128) -> (r: TransferMsg)
    ensures
        r.to_address == winner_addr,
        r.amount@.len() == 1,
        r.amount@[0].denom@ == spec_denom(),
        r.amount@[0].amount == amount,
{
    let mut coins: Vec<Coin> = Vec::new();
    coins.push(Coin { denom: "ucmdx".to_owned(), amount });
    TransferMsg { to_address: winner_addr, amount: coins }
}

/// Initializes the game's stored configuration from the instantiation
/// request.
pub fn instantiate(msg: InstantiateMsg) -> (r: State)
    ensures
        r.initial_balance == msg.initial_balance,
{
    State { initial_balance: msg.initial_balance }
}

/// Everything `place_bet` guarantees, relating the ledger and counter
/// before and after the call to its result.
///
/// A rejected stake mutates nothing. An accepted stake advances the
/// counter by one; the new counter value in decimal is the bet identifier,
/// and the same value resolves the round. An identifier collision leaves
/// the ledger unchanged; otherwise the bet is appended and, unless the
/// settlement amount overflows the monetary type, the result carries the
/// transfer and the audit attributes of the round.
pub open spec fn place_bet_post(
    pre_ledger: BetLedger,
    post_ledger: BetLedger,
    pre_counter: u64,
    post_counter: u64,
    env: Env,
    info: MessageInfo,
    prediction: u8,
    amount: u128,
    r: Result<PlaceBetResponse, BetError>,
) -> bool {
    if amount == 0 {
        &&& r == Err::<PlaceBetResponse, BetError>(BetError::InvalidAmount)
        &&& post_ledger == pre_ledger
        &&& post_counter == pre_counter
    } else if spec_available(info) < spec_required(prediction, amount) {
        &&& r == Err::<PlaceBetResponse, BetError>(BetError::InsufficientFunds)
        &&& post_ledger == pre_ledger
        &&& post_counter == pre_counter
    } else {
        let id = dec_digits((pre_counter + 1) as nat);
        let roll = spec_roll((pre_counter + 1) as u64);
        let win = spec_is_winner(prediction, roll);
        let settled = if win {
            spec_prize(prediction, amount)
        } else {
            spec_loss(prediction, amount)
        };
        &&& post_counter == pre_counter + 1
        &&& if pre_ledger.spec_contains_id(id) {
            &&& r == Err::<PlaceBetResponse, BetError>(BetError::DuplicateId)
            &&& post_ledger == pre_ledger
        } else {
            &&& post_ledger.entries@.len() == pre_ledger.entries@.len() + 1
            &&& post_ledger.entries@.drop_last() == pre_ledger.entries@
            &&& post_ledger.entries@.last().id@ == id
            &&& post_ledger.entries@.last().bet == (Bet { prediction, amount })
            &&& if settled <= u128::MAX {
                &&& r matches Ok(resp)
                &&& resp.method@ == "place_bet"@
                &&& resp.bet_id@ == id
                &&& resp.roll == roll
                &&& resp.win == win
                &&& resp.transfer.to_address == (if win {
                    info.sender
                } else {
                    env.contract_address
                })
                &&& resp.transfer.amount@.len() == 1
                &&& resp.transfer.amount@[0].denom@ == spec_denom()
                &&& resp.transfer.amount@[0].amount == settled as u128
            } else {
                r == Err::<PlaceBetResponse, BetError>(BetError::ArithmeticOverflow)
            }
        }
    }
}

/// The single mutating operation of the game.
///
/// Runs the five-step lifecycle in order — validate, mint-and-advance,
/// persist, resolve, settle — and never skips or reorders a step:
/// persistence happens before resolution, so a bet record exists whatever
/// the outcome.
pub fn place_bet(
    ledger: &mut BetLedger,
    counter: &mut u64,
    env: &Env,
    info: &MessageInfo,
    prediction: u8,
    amount: u128,
) -> (r: Result<PlaceBetResponse, BetError>)
    requires
        old(ledger).wf(),
        *old(counter) < u64::MAX,
    ensures
        final(ledger).wf(),
        place_bet_post(
            *old(ledger),
            *final(ledger),
            *old(counter),
            *final(counter),
            *env,
            *info,
            prediction,
            amount,
            r,
        ),
{
    match validate_bet_amount(amount, prediction, info) {
        Err(e) => {
            return Err(e);
        },
        Ok(()) => {},
    }

    let sender_addr = info.sender.clone();
    let contract_addr = env.contract_address.clone();
    let bet_id = generate_bet_id(counter);

    match ledger.save(bet_id.clone(), Bet { prediction, amount }) {
        Err(e) => {
            return Err(e);
        },
        Ok(()) => {},
    }
    proof {
        assert(ledger.entries@.drop_last() =~= old(ledger).entries@);
    }

    let roll = simulate_dice_roll(*counter);
    let win = is_winner(prediction, roll);

    let (winner_addr, total_amount) = if win {
        match calculate_prize(prediction, amount) {
            Ok(v) => (sender_addr, v),
            Err(e) => {
                return Err(e);
            },
        }
    } else {
        match calculate_loss(prediction, amount) {
            Ok(v) => (contract_addr, v),
            Err(e) => {
                return Err(e);
            },
        }
    };

    let response_msg = create_transfer_msg(winner_addr, total_amount);

    Ok(
        PlaceBetResponse {
            method: "place_bet".to_owned(),
            transfer: response_msg,
            roll,
            win,
            bet_id,
        },
    )
}

/// The resolver's range spans the midpoint: every outcome class of the win
/// rule is reachable. Counter values congruent to five modulo the roll
/// range resolve to the midpoint itself, where the exact-match prediction
/// wins; values on either side win for predictions 1 and 2.
pub proof fn lemma_every_outcome_class_reachable()
    ensures
        spec_is_winner(EXACT_MATCH, spec_roll(5)),
        spec_is_winner(1, spec_roll(6)),
        spec_is_winner(2, spec_roll(0)),
{
}

/// Law: two sequential successful placements never mint the same bet
/// identifier.
///
/// A successful placement against counter value `counter` mints the
/// identifier `dec_digits(counter + 1)` and leaves the counter at
/// `counter + 1`, so the next successful placement mints
/// `dec_digits(counter + 2)`; decimal rendering is injective, so the two
/// identifiers differ.
pub proof fn lemma_sequential_bet_ids_distinct(counter: u64)
    requires
        counter + 2 <= u64::MAX,
    ensures
        dec_digits((counter + 1) as nat) != dec_digits((counter + 2) as nat),
{
    crate::ids::lemma_dec_digits_injective((counter + 1) as nat, (counter + 2) as nat);
}

/// Dispatches a request envelope to the operation it names.
pub fn execute(
    ledger: &mut BetLedger,
    counter: &mut u64,
    env: &Env,
    info: &MessageInfo,
    msg: ExecuteMsg,
) -> (r: Result<PlaceBetResponse, BetError>)
    requires
        old(ledger).wf(),
        *old(counter) < u64::MAX,
    ensures
        final(ledger).wf(),
        msg matches ExecuteMsg::PlaceBet { prediction, amount } ==> place_bet_post(
            *old(ledger),
            *final(ledger),
            *old(counter),
            *final(counter),
            *env,
            *info,
            prediction,
            amount,
            r,
        ),
{
    match msg {
        ExecuteMsg::PlaceBet { prediction, amount } => place_bet(
            ledger,
            counter,
            env,
            info,
            prediction,
            amount,
        ),
    }
}

} // verus!
