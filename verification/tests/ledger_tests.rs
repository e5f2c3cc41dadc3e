use seven_up_seven_down::Bet;
use seven_up_seven_down::BetError;
use seven_up_seven_down::BetLedger;

#[test]
fn save_then_get_returns_the_record() {
    let mut ledger = BetLedger::new();
    let bet = Bet {
        prediction: 2,
        amount: 100,
    };
    assert_eq!(ledger.save("3001".to_string(), bet), Ok(()));
    assert_eq!(ledger.len(), 1);
    assert_eq!(ledger.get(&"3001".to_string()), Some(bet));
    assert_eq!(ledger.get(&"3002".to_string()), None);
}

#[test]
fn duplicate_identifier_is_refused_and_keeps_the_first_record() {
    let mut ledger = BetLedger::new();
    let first = Bet {
        prediction: 2,
        amount: 100,
    };
    let second = Bet {
        prediction: 3,
        amount: 999,
    };
    assert_eq!(ledger.save("3001".to_string(), first), Ok(()));
    assert_eq!(
        ledger.save("3001".to_string(), second),
        Err(BetError::DuplicateId)
    );
    assert_eq!(ledger.len(), 1);
    assert_eq!(ledger.get(&"3001".to_string()), Some(first));
}

#[test]
fn entries_keep_insertion_order() {
    let mut ledger = BetLedger::new();
    for i in 0..5u8 {
        let bet = Bet {
            prediction: i,
            amount: 10 + i as u128,
        };
        assert_eq!(ledger.save(format!("id{}", i), bet), Ok(()));
    }
    assert_eq!(ledger.len(), 5);
    for (i, entry) in ledger.entries.iter().enumerate() {
        assert_eq!(entry.id, format!("id{}", i));
        assert_eq!(entry.bet.prediction, i as u8);
    }
}
