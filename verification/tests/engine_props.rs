use payments::account::{Account, OperationError};
use payments::processor::PaymentProcessor;
use payments::transaction::{Transaction, TransactionType};

/// Converts a decimal amount to the engine's fixed-point units, exactly as
/// the ingestion boundary does.
fn units(amount: f32) -> u64 {
    (amount * 10000.0).round() as u64
}

fn deposit(client_id: u16, tx_id: u32, amount: u64) -> Transaction {
    Transaction { transaction_type: TransactionType::Deposit, client_id, tx_id, amount: Some(amount) }
}

fn withdrawal(client_id: u16, tx_id: u32, amount: u64) -> Transaction {
    Transaction { transaction_type: TransactionType::Withdrawal, client_id, tx_id, amount: Some(amount) }
}

fn dispute(client_id: u16, tx_id: u32) -> Transaction {
    Transaction { transaction_type: TransactionType::Dispute, client_id, tx_id, amount: None }
}

fn resolve(client_id: u16, tx_id: u32) -> Transaction {
    Transaction { transaction_type: TransactionType::Resolve, client_id, tx_id, amount: None }
}

fn chargeback(client_id: u16, tx_id: u32) -> Transaction {
    Transaction { transaction_type: TransactionType::Chargeback, client_id, tx_id, amount: None }
}

#[test]
fn total_is_deposits_minus_successful_withdrawals() {
    let mut processor = PaymentProcessor::new();
    assert!(processor.process(deposit(1, 1, units(10.0))).is_ok());
    assert!(processor.process(deposit(1, 2, units(2.5))).is_ok());
    assert!(processor.process(withdrawal(1, 3, units(4.0))).is_ok());
    // Exceeds the total of 8.5 and must fail without moving anything.
    assert!(processor.process(withdrawal(1, 4, units(100.0))).is_err());
    assert!(processor.process(withdrawal(1, 5, units(1.25))).is_ok());

    let accounts = processor.get_accounts();
    let account = accounts.get(&1).unwrap();
    assert_eq!(account.get_total(), units(10.0 + 2.5 - 4.0 - 1.25));
    assert_eq!(account.get_available(), account.get_total());
    assert_eq!(account.get_held(), 0);
}

#[test]
fn deposit_without_amount_is_invalid_data() {
    let mut processor = PaymentProcessor::new();
    let no_amount = Transaction {
        transaction_type: TransactionType::Deposit,
        client_id: 3,
        tx_id: 9,
        amount: None,
    };
    let result = processor.process(no_amount);
    assert!(matches!(result, Err(OperationError::InvalidData(3, 9))));
    let accounts = processor.get_accounts();
    assert_eq!(accounts.get(&3).unwrap().get_total(), 0);
}

#[test]
fn withdrawal_without_amount_is_invalid_data() {
    let mut processor = PaymentProcessor::new();
    let no_amount = Transaction {
        transaction_type: TransactionType::Withdrawal,
        client_id: 3,
        tx_id: 9,
        amount: None,
    };
    let result = processor.process(no_amount);
    assert!(matches!(result, Err(OperationError::InvalidData(3, 9))));
}

#[test]
fn withdrawal_exceeding_total_reports_insufficient_balance() {
    let mut processor = PaymentProcessor::new();
    assert!(processor.process(deposit(7, 1, units(5.0))).is_ok());
    let result = processor.process(withdrawal(7, 2, units(5.0001)));
    assert!(matches!(result, Err(OperationError::InsufficientBalance(7, 2))));
    let accounts = processor.get_accounts();
    let account = accounts.get(&7).unwrap();
    assert_eq!(account.get_total(), units(5.0));
    assert_eq!(account.get_held(), 0);
}

#[test]
fn dispute_of_unknown_tx_reports_transaction_not_found() {
    let mut processor = PaymentProcessor::new();
    assert!(processor.process(deposit(11, 1, units(5.0))).is_ok());
    let result = processor.process(dispute(11, 99));
    assert!(matches!(result, Err(OperationError::TransactionNotFound(11, 99))));
    let accounts = processor.get_accounts();
    let account = accounts.get(&11).unwrap();
    assert_eq!(account.get_total(), units(5.0));
    assert_eq!(account.get_held(), 0);
    assert!(!account.is_locked());
}

#[test]
fn duplicate_dispute_reports_already_under_dispute() {
    let mut processor = PaymentProcessor::new();
    assert!(processor.process(deposit(2, 4, units(3.0))).is_ok());
    assert!(processor.process(dispute(2, 4)).is_ok());
    let result = processor.process(dispute(2, 4));
    assert!(matches!(result, Err(OperationError::DisputeAlreadyUnderDispute(2, 4))));
    let account = processor.get_accounts().get(&2).unwrap();
    assert_eq!(account.get_held(), units(3.0));
}

#[test]
fn resolve_without_dispute_reports_not_under_dispute() {
    let mut processor = PaymentProcessor::new();
    assert!(processor.process(deposit(2, 4, units(3.0))).is_ok());
    let result = processor.process(resolve(2, 4));
    assert!(matches!(result, Err(OperationError::ResolveNotUnderDispute(2, 4))));
}

#[test]
fn chargeback_without_dispute_reports_not_under_dispute() {
    let mut processor = PaymentProcessor::new();
    assert!(processor.process(deposit(2, 4, units(3.0))).is_ok());
    let result = processor.process(chargeback(2, 4));
    assert!(matches!(result, Err(OperationError::ChargebackNotUnderDispute(2, 4))));
}

#[test]
fn chargeback_of_disputed_withdrawal_reports_invalid_transaction() {
    let mut processor = PaymentProcessor::new();
    assert!(processor.process(deposit(5, 1, units(20.0))).is_ok());
    assert!(processor.process(withdrawal(5, 2, units(8.0))).is_ok());
    assert!(processor.process(dispute(5, 2)).is_ok());
    let result = processor.process(chargeback(5, 2));
    assert!(matches!(result, Err(OperationError::InvalidTransactionForChargeback(5, 2))));
    let account = processor.get_accounts().get(&5).unwrap();
    assert_eq!(account.get_held(), units(8.0));
    assert!(!account.is_locked());
}

#[test]
fn dispute_resolve_round_trip_restores_pre_dispute_state() {
    let mut processor = PaymentProcessor::new();
    assert!(processor.process(deposit(9, 1, units(25.5))).is_ok());
    assert!(processor.process(dispute(9, 1)).is_ok());
    {
        let account = processor.get_accounts().get(&9).unwrap();
        assert_eq!(account.get_total(), units(25.5));
        assert_eq!(account.get_held(), units(25.5));
    }
    assert!(processor.process(resolve(9, 1)).is_ok());
    {
        let account = processor.get_accounts().get(&9).unwrap();
        assert_eq!(account.get_total(), units(25.5));
        assert_eq!(account.get_held(), 0);
    }
    // The resolve cleared the dispute flag, so the entry may be disputed anew.
    assert!(processor.process(dispute(9, 1)).is_ok());
    let account = processor.get_accounts().get(&9).unwrap();
    assert_eq!(account.get_held(), units(25.5));
}

#[test]
fn resolved_withdrawal_returns_funds_to_total() {
    let mut processor = PaymentProcessor::new();
    assert!(processor.process(deposit(9, 1, units(25.5))).is_ok());
    assert!(processor.process(withdrawal(9, 2, units(10.0))).is_ok());
    assert!(processor.process(dispute(9, 2)).is_ok());
    assert!(processor.process(resolve(9, 2)).is_ok());
    let account = processor.get_accounts().get(&9).unwrap();
    assert_eq!(account.get_total(), units(25.5));
    assert_eq!(account.get_held(), 0);
}

#[test]
fn chargeback_locks_account_and_later_deposit_still_applies() {
    let mut processor = PaymentProcessor::new();
    assert!(processor.process(deposit(4, 1, units(12.0))).is_ok());
    assert!(processor.process(dispute(4, 1)).is_ok());
    assert!(processor.process(chargeback(4, 1)).is_ok());
    {
        let account = processor.get_accounts().get(&4).unwrap();
        assert_eq!(account.get_total(), 0);
        assert_eq!(account.get_held(), 0);
        assert!(account.is_locked());
    }
    // Locking does not block further processing; the lock itself persists.
    assert!(processor.process(deposit(4, 2, units(3.0))).is_ok());
    let account = processor.get_accounts().get(&4).unwrap();
    assert_eq!(account.get_total(), units(3.0));
    assert!(account.is_locked());
}

#[test]
fn available_is_floored_at_zero_when_held_exceeds_total() {
    let mut processor = PaymentProcessor::new();
    assert!(processor.process(deposit(6, 1, units(10.0))).is_ok());
    assert!(processor.process(withdrawal(6, 2, units(8.0))).is_ok());
    assert!(processor.process(dispute(6, 2)).is_ok());
    let account = processor.get_accounts().get(&6).unwrap();
    assert_eq!(account.get_total(), units(2.0));
    assert_eq!(account.get_held(), units(8.0));
    assert_eq!(account.get_available(), 0);
}

#[test]
fn reused_tx_id_overwrites_stored_entry() {
    let mut processor = PaymentProcessor::new();
    assert!(processor.process(deposit(8, 1, units(10.0))).is_ok());
    assert!(processor.process(deposit(8, 1, units(4.0))).is_ok());
    // The dispute holds the amount of the later entry, not the earlier one.
    assert!(processor.process(dispute(8, 1)).is_ok());
    let account = processor.get_accounts().get(&8).unwrap();
    assert_eq!(account.get_total(), units(14.0));
    assert_eq!(account.get_held(), units(4.0));
}

#[test]
fn can_process_accepts_ordinary_transactions() {
    let mut processor = PaymentProcessor::new();
    assert!(processor.can_process(&deposit(1, 1, units(10.0))));
    assert!(processor.can_process(&dispute(1, 99)));
    assert!(processor.process(deposit(1, 1, units(10.0))).is_ok());
    assert!(processor.can_process(&withdrawal(1, 2, units(999.0))));
}

#[test]
fn can_process_refuses_deposit_overflowing_the_total() {
    let mut processor = PaymentProcessor::new();
    assert!(processor.can_process(&deposit(1, 1, u64::MAX)));
    assert!(processor.process(deposit(1, 1, u64::MAX)).is_ok());
    assert!(!processor.can_process(&deposit(1, 2, 1)));
    assert!(processor.can_process(&deposit(1, 3, 0)));
}

#[test]
fn can_process_refuses_resolve_of_charged_back_entry() {
    let mut processor = PaymentProcessor::new();
    assert!(processor.process(deposit(4, 1, units(12.0))).is_ok());
    assert!(processor.process(dispute(4, 1)).is_ok());
    assert!(processor.process(chargeback(4, 1)).is_ok());
    // The chargeback left the dispute flag set but took the hold away, so
    // replaying the lifecycle against the entry would underflow the balances.
    assert!(!processor.can_process(&resolve(4, 1)));
    assert!(!processor.can_process(&chargeback(4, 1)));
}

#[test]
fn account_handle_applies_transactions_directly() {
    let mut account = Account::new(42);
    assert!(account.fits(&deposit(42, 1, units(7.5))));
    assert!(account.handle(deposit(42, 1, units(7.5))).is_ok());
    assert!(account.handle(withdrawal(42, 2, units(2.5))).is_ok());
    assert_eq!(account.get_total(), units(5.0));
    assert_eq!(account.get_available(), units(5.0));
    assert_eq!(account.get_held(), 0);
    assert!(!account.is_locked());
    let result = account.handle(dispute(42, 3));
    assert!(matches!(result, Err(OperationError::TransactionNotFound(42, 3))));
}
