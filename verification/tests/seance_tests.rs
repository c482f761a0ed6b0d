use obsidian::seance::{split_type_of_lowercase, 
    assign_shares, check_withdrawal, parse_split_type, wallet_or_empty, SeanceError, WalletResponse,
};

#[test]
fn split_types_are_normalized() {
    assert_eq!(parse_split_type("Equal").unwrap(), "equal");
    assert_eq!(parse_split_type("WEIGHTED").unwrap(), "weighted");
    assert_eq!(parse_split_type("random").unwrap_err(), SeanceError::InvalidSplitType);
    assert_eq!(parse_split_type("").unwrap_err(), SeanceError::InvalidSplitType);
}

#[test]
fn shares_sum_to_total() {
    let shares = assign_shares(1000, &vec![333, 333]);
    assert_eq!(shares, vec![333, 333, 334]);
    assert_eq!(shares.iter().sum::<i64>(), 1000);
}

#[test]
fn single_player_takes_everything() {
    assert_eq!(assign_shares(777, &vec![]), vec![777]);
}

#[test]
fn rounding_loss_goes_to_last_player() {
    // 49 players of weight 1 and a total of 49: the floating computation
    // gives 0 to each of the first 48, the last gets the remainder
    let computed = vec![0i64; 48];
    let shares = assign_shares(49, &computed);
    assert_eq!(shares.len(), 49);
    assert_eq!(shares[48], 49);
    assert_eq!(shares.iter().sum::<i64>(), 49);
}

#[test]
fn withdrawal_needs_balance() {
    assert!(check_withdrawal(100, 100).is_ok());
    assert!(check_withdrawal(100, 40).is_ok());
    assert_eq!(check_withdrawal(100, 101).unwrap_err(), SeanceError::InsufficientBalance);
}

#[test]
fn missing_wallet_is_empty() {
    let w = wallet_or_empty("Alice", None);
    assert_eq!(w.player_name, "Alice");
    assert_eq!(w.balance, 0);
    let stored = WalletResponse { player_name: "Bob".to_string(), balance: 42 };
    let w = wallet_or_empty("Bob", Some(stored));
    assert_eq!(w.balance, 42);
}

#[test]
fn seance_error_messages() {
    assert_eq!(SeanceError::InvalidSplitType.message(), "invalid split type");
    assert_eq!(SeanceError::NoPlayers.message(), "no players provided");
    assert_eq!(SeanceError::InvalidWeight.message(), "invalid player weight");
    assert_eq!(SeanceError::SessionNotFound.message(), "session not found");
    assert_eq!(SeanceError::InsufficientBalance.message(), "insufficient wallet balance");
}

#[test]
fn lower_case_split_types() {
    assert_eq!(split_type_of_lowercase("equal".to_string()).unwrap(), "equal");
    assert_eq!(split_type_of_lowercase("weighted".to_string()).unwrap(), "weighted");
    assert_eq!(split_type_of_lowercase("Equal".to_string()), Err(SeanceError::InvalidSplitType));
}
