use seven_up_seven_down::validate_bet_amount;
use seven_up_seven_down::BetError;
use seven_up_seven_down::Coin;
use seven_up_seven_down::MessageInfo;

// Helper function to create MessageInfo with specified token amount
fn create_message_info(sender: &str, amount: u128, denom: &str) -> MessageInfo {
    MessageInfo {
        sender: sender.to_string(),
        funds: vec![Coin {
            denom: denom.to_string(),
            amount,
        }],
    }
}

#[test]
fn test_validate_bet_amount_greater_than_zero() {
    let amount: u128 = 0;
    let prediction = 1u8;
    let info = create_message_info("sender", 100, "token");

    let result = validate_bet_amount(amount, prediction, &info);
    assert_eq!(result, Err(BetError::InvalidAmount));
    assert_eq!(
        result.unwrap_err().message(),
        "Bet amount must be greater than zero"
    );
}

#[test]
fn test_validate_bet_amount_with_insufficient_balance() {
    let amount: u128 = 100;
    let prediction = 3u8;
    let info = create_message_info("sender", 150, "token"); // Insufficient for double

    let result = validate_bet_amount(amount, prediction, &info);
    assert_eq!(result, Err(BetError::InsufficientFunds));
    assert_eq!(
        result.unwrap_err().message(),
        "Insufficient balance to place the bet"
    );
}

#[test]
fn test_validate_bet_amount_with_sufficient_balance() {
    let amount: u128 = 100;
    let prediction = 1u8;
    let info = create_message_info("sender", 100, "token"); // Sufficient balance

    let result = validate_bet_amount(amount, prediction, &info);
    assert!(result.is_ok());
}

#[test]
fn test_validate_bet_amount_with_exact_required_balance_for_prediction_3() {
    let amount: u128 = 100;
    let prediction = 3u8; // Requires double the amount
    let info = create_message_info("sender", 200, "token"); // Exactly double

    let result = validate_bet_amount(amount, prediction, &info);
    assert!(result.is_ok());
}

#[test]
fn zero_stake_is_rejected_for_every_prediction_and_funds_shape() {
    let rich = create_message_info("sender", u128::MAX, "token");
    let broke = MessageInfo {
        sender: "sender".to_string(),
        funds: vec![],
    };
    for prediction in [0u8, 1, 2, 3, 4, 255] {
        assert_eq!(
            validate_bet_amount(0, prediction, &rich),
            Err(BetError::InvalidAmount)
        );
        assert_eq!(
            validate_bet_amount(0, prediction, &broke),
            Err(BetError::InvalidAmount)
        );
    }
}

#[test]
fn empty_funds_count_as_zero() {
    let info = MessageInfo {
        sender: "sender".to_string(),
        funds: vec![],
    };
    assert_eq!(
        validate_bet_amount(1, 1, &info),
        Err(BetError::InsufficientFunds)
    );
}

#[test]
fn only_the_first_funds_entry_counts() {
    let info = MessageInfo {
        sender: "sender".to_string(),
        funds: vec![
            Coin {
                denom: "token".to_string(),
                amount: 10,
            },
            Coin {
                denom: "token".to_string(),
                amount: 1_000,
            },
        ],
    };
    assert_eq!(
        validate_bet_amount(100, 1, &info),
        Err(BetError::InsufficientFunds)
    );
}

#[test]
fn doubled_coverage_that_cannot_fit_is_insufficient() {
    let info = create_message_info("sender", u128::MAX, "token");
    // Twice this stake exceeds the monetary type, so no funds can cover it.
    assert_eq!(
        validate_bet_amount(u128::MAX / 2 + 1, 3, &info),
        Err(BetError::InsufficientFunds)
    );
    // The same stake needs only single coverage for other predictions.
    assert!(validate_bet_amount(u128::MAX / 2 + 1, 1, &info).is_ok());
}
