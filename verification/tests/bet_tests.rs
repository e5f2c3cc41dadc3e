use seven_up_seven_down::calculate_loss;
use seven_up_seven_down::calculate_prize;
use seven_up_seven_down::BetError;

#[test]
fn test_calculate_prize() {
    let prediction = 3u8;
    let amount: u128 = 100;

    let expected_prize: u128 = 500;
    assert_eq!(calculate_prize(prediction, amount), Ok(expected_prize));

    let prediction = 1u8;
    let expected_prize: u128 = 200;
    assert_eq!(calculate_prize(prediction, amount), Ok(expected_prize));
}

#[test]
fn test_calculate_loss() {
    let prediction = 3u8;
    let amount: u128 = 100;

    let expected_loss: u128 = 200;
    assert_eq!(calculate_loss(prediction, amount), Ok(expected_loss));

    let prediction = 1u8;
    let expected_loss: u128 = 100;
    assert_eq!(calculate_loss(prediction, amount), Ok(expected_loss));
}

#[test]
fn payout_rules_hold_for_every_non_exact_code() {
    for prediction in [0u8, 1, 2, 4, 5, 200] {
        assert_eq!(calculate_prize(prediction, 7), Ok(14));
        assert_eq!(calculate_loss(prediction, 7), Ok(7));
    }
}

#[test]
fn payouts_fail_closed_on_overflow() {
    let huge = u128::MAX / 2 + 1;
    assert_eq!(
        calculate_prize(3, huge),
        Err(BetError::ArithmeticOverflow)
    );
    assert_eq!(
        calculate_prize(1, huge),
        Err(BetError::ArithmeticOverflow)
    );
    assert_eq!(calculate_loss(3, huge), Err(BetError::ArithmeticOverflow));
    // A non-exact loss is the stake itself and can never overflow.
    assert_eq!(calculate_loss(1, u128::MAX), Ok(u128::MAX));
    // The largest stakes that still fit.
    assert_eq!(calculate_prize(3, u128::MAX / 5), Ok(u128::MAX / 5 * 5));
    assert_eq!(calculate_loss(3, u128::MAX / 2), Ok(u128::MAX / 2 * 2));
}

#[test]
fn error_messages_are_stable() {
    assert_eq!(
        BetError::InvalidAmount.message(),
        "Bet amount must be greater than zero"
    );
    assert_eq!(
        BetError::InsufficientFunds.message(),
        "Insufficient balance to place the bet"
    );
    assert_eq!(
        BetError::DuplicateId.message(),
        "A bet with this identifier already exists"
    );
    assert_eq!(
        BetError::ArithmeticOverflow.message(),
        "Settlement amount overflows the monetary type"
    );
}
