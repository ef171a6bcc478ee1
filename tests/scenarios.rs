use toy_payments_engine::{
    BalanceChangeEntryType, Client, DecimalType, Transaction, TransactionProcessingError,
    TransactionType,
};

fn tx(ty: TransactionType, tx: u32, amount: Option<DecimalType>) -> Transaction {
    Transaction { amount, client: 7, tx, ty }
}

fn dec(num: i64, scale: u32) -> DecimalType {
    DecimalType::new(num, scale)
}

#[test]
fn scenario_deposit_dispute_chargeback_then_resolve() {
    let mut client = Client::new();
    client.process_transaction(tx(TransactionType::Deposit, 1, Some(dec(10000, 4))));
    assert_eq!(client.available, dec(1, 0));
    assert_eq!(client.held, dec(0, 0));
    assert_eq!(client.total(), dec(1, 0));

    client.process_transaction(tx(TransactionType::Dispute, 1, None));
    assert_eq!(client.available, dec(0, 0));
    assert_eq!(client.held, dec(1, 0));

    client.process_transaction(tx(TransactionType::Chargeback, 1, None));
    assert_eq!(client.held, dec(0, 0));
    assert_eq!(client.total(), dec(0, 0));
    assert!(client.is_frozen);

    let before = client.clone();
    let result = client.process_resolve(tx(TransactionType::Resolve, 1, None));
    assert_eq!(result, Err(TransactionProcessingError::DisputeNotActive));
    assert_eq!(before, client);
    assert_eq!(client.available, dec(0, 0));
    assert_eq!(client.held, dec(0, 0));
    assert!(client.is_frozen);
}

#[test]
fn scenario_disputed_withdrawal_drives_available_negative() {
    let mut client = Client::new();
    client.process_transaction(tx(TransactionType::Deposit, 1, Some(dec(50, 1))));
    client.process_transaction(tx(TransactionType::Withdrawal, 2, Some(dec(30, 1))));
    assert_eq!(client.available, dec(20, 1));
    assert_eq!(client.held, dec(0, 0));
    client.process_transaction(tx(TransactionType::Dispute, 2, None));
    assert_eq!(client.available, dec(-10, 1));
    assert_eq!(client.held, dec(30, 1));
    assert_eq!(client.total(), dec(2, 0));
    assert_eq!(
        client.balance_changes.get(&2).unwrap().ty,
        BalanceChangeEntryType::Withdrawal
    );
}

#[test]
fn scenario_second_dispute_is_double() {
    let mut client = Client::new();
    client.process_transaction(tx(TransactionType::Deposit, 1, Some(dec(20, 1))));
    client.process_dispute(tx(TransactionType::Dispute, 1, None)).unwrap();
    let after_first = client.clone();
    let result = client.process_dispute(tx(TransactionType::Dispute, 1, None));
    assert_eq!(result, Err(TransactionProcessingError::DoubleDispute));
    assert_eq!(after_first, client);
    assert_eq!(client.available, dec(0, 0));
    assert_eq!(client.held, dec(2, 0));
}

#[test]
fn total_is_available_plus_held() {
    let mut client = Client::new();
    client.process_transaction(tx(TransactionType::Deposit, 1, Some(dec(12345, 4))));
    client.process_transaction(tx(TransactionType::Deposit, 2, Some(dec(3, 0))));
    client.process_transaction(tx(TransactionType::Dispute, 2, None));
    assert_eq!(client.available, dec(12345, 4));
    assert_eq!(client.held, dec(3, 0));
    assert_eq!(client.total(), dec(42345, 4));
    assert_eq!(client.total().units(), client.available.units() + client.held.units());
}

#[test]
fn reused_id_after_other_history_is_rejected() {
    let mut client = Client::new();
    client.process_transaction(tx(TransactionType::Deposit, 5, Some(dec(4, 0))));
    client.process_transaction(tx(TransactionType::Deposit, 6, Some(dec(1, 0))));
    client.process_transaction(tx(TransactionType::Dispute, 5, None));
    client.process_transaction(tx(TransactionType::Resolve, 5, None));
    let before = client.clone();
    let deposit = client.process_deposit(tx(TransactionType::Deposit, 5, Some(dec(9, 0))));
    assert_eq!(deposit, Err(TransactionProcessingError::ReusedTransactionId));
    let withdrawal = client.process_withdrawal(tx(TransactionType::Withdrawal, 6, Some(dec(1, 0))));
    assert_eq!(withdrawal, Err(TransactionProcessingError::ReusedTransactionId));
    assert_eq!(before, client);
}

#[test]
fn reused_id_is_checked_before_missing_amount() {
    let mut client = Client::new();
    client.process_transaction(tx(TransactionType::Deposit, 1, Some(dec(1, 0))));
    let result = client.process_deposit(tx(TransactionType::Deposit, 1, None));
    assert_eq!(result, Err(TransactionProcessingError::ReusedTransactionId));
}

#[test]
fn deposit_without_amount_is_rejected() {
    let mut client = Client::new();
    let result = client.process_deposit(tx(TransactionType::Deposit, 1, None));
    assert_eq!(result, Err(TransactionProcessingError::AmountNotSpecified));
    assert_eq!(client, Client::new());
    let result = client.process_withdrawal(tx(TransactionType::Withdrawal, 2, None));
    assert_eq!(result, Err(TransactionProcessingError::AmountNotSpecified));
    assert_eq!(client, Client::new());
}

#[test]
fn missing_amount_is_checked_before_funds() {
    let mut client = Client::new();
    let result = client.process_withdrawal(tx(TransactionType::Withdrawal, 1, None));
    assert_eq!(result, Err(TransactionProcessingError::AmountNotSpecified));
}

#[test]
fn withdrawal_of_everything_leaves_zero() {
    let mut client = Client::new();
    client.process_transaction(tx(TransactionType::Deposit, 1, Some(dec(25, 1))));
    let result = client.process_withdrawal(tx(TransactionType::Withdrawal, 2, Some(dec(25, 1))));
    assert_eq!(result, Ok(()));
    assert_eq!(client.available, dec(0, 0));
    let before = client.clone();
    let result = client.process_withdrawal(tx(TransactionType::Withdrawal, 3, Some(dec(1, 4))));
    assert_eq!(result, Err(TransactionProcessingError::NoSufficientFunds));
    assert_eq!(before, client);
    assert!(!client.balance_changes.contains_key(&3));
}

#[test]
fn unknown_id_rejected_for_every_dispute_kind() {
    let mut client = Client::new();
    client.process_transaction(tx(TransactionType::Deposit, 1, Some(dec(1, 0))));
    let before = client.clone();
    assert_eq!(
        client.process_dispute(tx(TransactionType::Dispute, 2, None)),
        Err(TransactionProcessingError::UnknownTransactionId)
    );
    assert_eq!(
        client.process_resolve(tx(TransactionType::Resolve, 2, None)),
        Err(TransactionProcessingError::UnknownTransactionId)
    );
    assert_eq!(
        client.process_chargeback(tx(TransactionType::Chargeback, 2, None)),
        Err(TransactionProcessingError::UnknownTransactionId)
    );
    assert_eq!(before, client);
}

#[test]
fn resolve_restores_state_before_dispute() {
    let mut client = Client::new();
    client.process_transaction(tx(TransactionType::Deposit, 1, Some(dec(375, 2))));
    client.process_transaction(tx(TransactionType::Deposit, 2, Some(dec(1, 0))));
    let before = client.clone();
    client.process_transaction(tx(TransactionType::Dispute, 1, None));
    assert_eq!(client.available, dec(1, 0));
    assert_eq!(client.held, dec(375, 2));
    assert_eq!(client.total(), before.total());
    client.process_transaction(tx(TransactionType::Resolve, 1, None));
    assert_eq!(before, client);
}

#[test]
fn frozen_account_stays_frozen_and_keeps_processing() {
    let mut client = Client::new();
    client.process_transaction(tx(TransactionType::Deposit, 1, Some(dec(1, 0))));
    client.process_transaction(tx(TransactionType::Dispute, 1, None));
    client.process_transaction(tx(TransactionType::Chargeback, 1, None));
    assert!(client.is_frozen);
    client.process_transaction(tx(TransactionType::Deposit, 2, Some(dec(5, 0))));
    client.process_transaction(tx(TransactionType::Dispute, 2, None));
    client.process_transaction(tx(TransactionType::Resolve, 2, None));
    assert!(client.is_frozen);
    assert_eq!(client.available, dec(5, 0));
    assert_eq!(
        client.process_dispute(tx(TransactionType::Dispute, 1, None)),
        Err(TransactionProcessingError::DoubleDispute)
    );
}

#[test]
fn process_transaction_drops_rejected_ones() {
    let mut client = Client::new();
    client.process_transaction(tx(TransactionType::Withdrawal, 1, Some(dec(1, 0))));
    assert_eq!(client, Client::new());
    client.process_transaction(tx(TransactionType::Dispute, 9, None));
    assert_eq!(client, Client::new());
}
