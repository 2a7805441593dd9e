use payments_engine::from_units;
use payments_engine::PaymentEngine;
use payments_engine::TransactionRecord;
use payments_engine::TransactionType;

fn amt(whole: u64, ten_thousandths: u64) -> u64 {
    from_units(whole, ten_thousandths)
}

fn deposit(client: u16, tx: u32, whole: u64, ten_thousandths: u64) -> TransactionRecord {
    TransactionRecord {
        tx_type: TransactionType::Deposit,
        client,
        tx,
        amount: Some(amt(whole, ten_thousandths)),
    }
}

fn withdrawal(client: u16, tx: u32, whole: u64, ten_thousandths: u64) -> TransactionRecord {
    TransactionRecord {
        tx_type: TransactionType::Withdrawal,
        client,
        tx,
        amount: Some(amt(whole, ten_thousandths)),
    }
}

fn dispute(client: u16, tx: u32) -> TransactionRecord {
    TransactionRecord { tx_type: TransactionType::Dispute, client, tx, amount: None }
}

fn resolve(client: u16, tx: u32) -> TransactionRecord {
    TransactionRecord { tx_type: TransactionType::Resolve, client, tx, amount: None }
}

fn chargeback(client: u16, tx: u32) -> TransactionRecord {
    TransactionRecord { tx_type: TransactionType::Chargeback, client, tx, amount: None }
}

#[test]
fn test_deposit_and_withdrawal() {
    let mut engine = PaymentEngine::new();
    engine.process_transaction(deposit(1, 1, 100, 0));
    engine.process_transaction(withdrawal(1, 2, 50, 0));
    let acc = engine.get_account(1);
    assert_eq!(acc.available, amt(50, 0));
    assert_eq!(acc.total, amt(50, 0));
    assert!(!acc.locked);
}

#[test]
fn test_insufficient_withdrawal() {
    let mut engine = PaymentEngine::new();
    engine.process_transaction(deposit(2, 1, 100, 0));
    engine.process_transaction(withdrawal(2, 2, 200, 0)); // should fail
    let acc = engine.get_account(2);
    assert_eq!(acc.available, amt(100, 0));
    assert_eq!(acc.total, amt(100, 0));
}

#[test]
fn engine_test_chargeback_locks_account() {
    let mut engine = PaymentEngine::new();
    engine.process_transaction(deposit(2, 1, 200, 0));
    engine.process_transaction(dispute(2, 1));
    engine.process_transaction(chargeback(2, 1));

    let acc = engine.get_account(2);
    assert_eq!(acc.available, amt(0, 0));
    assert_eq!(acc.held, amt(0, 0));
    assert_eq!(acc.total, amt(0, 0));
    assert!(acc.locked);
}

#[test]
fn test_decimal_precision() {
    let mut engine = PaymentEngine::new();
    engine.process_transaction(deposit(3, 1, 500, 1234));
    engine.process_transaction(withdrawal(3, 2, 123, 1234));

    let acc = engine.get_account(3);
    assert_eq!(acc.available, amt(377, 0));
    assert_eq!(acc.total, amt(377, 0));
}

#[test]
fn test_multiple_clients() {
    let mut engine = PaymentEngine::new();
    engine.process_transaction(deposit(1, 1, 100, 0));
    engine.process_transaction(deposit(2, 2, 200, 0));
    engine.process_transaction(withdrawal(1, 3, 50, 0));
    engine.process_transaction(withdrawal(2, 4, 50, 0));

    // Immutable access for checks
    let acc1 = engine.accounts.get(&1).unwrap();
    let acc2 = engine.accounts.get(&2).unwrap();

    assert_eq!(acc1.available, amt(50, 0));
    assert_eq!(acc2.available, amt(150, 0));
}

#[test]
fn test_invalid_dispute_resolve_chargeback() {
    let mut engine = PaymentEngine::new();
    // These should be ignored (tx does not exist)
    engine.process_transaction(dispute(1, 999));
    engine.process_transaction(resolve(1, 999));
    engine.process_transaction(chargeback(1, 999));

    // Account should not exist yet
    assert!(engine.accounts.get(&1).is_none());
}

#[test]
fn test_dispute_on_failed_withdrawal_ignored() {
    let mut engine = PaymentEngine::new();

    // Deposit 50
    engine.process_transaction(deposit(1, 1, 50, 0));

    // Withdrawal of 100 should fail and not be recorded
    engine.process_transaction(withdrawal(1, 2, 100, 0));
    assert!(engine.transactions.get(&2).is_none());

    // Disputing tx 2 should be ignored
    engine.process_transaction(dispute(1, 2));

    let acc = engine.get_account(1);
    // balances unchanged
    assert_eq!(acc.available, amt(50, 0));
    assert_eq!(acc.held, amt(0, 0));
}

#[test]
fn test_duplicate_tx_id_behavior() {
    let mut engine = PaymentEngine::new();

    // First deposit 100 with tx 1
    engine.process_transaction(deposit(1, 1, 100, 0));
    // Second deposit with same tx id (duplicate) - will apply again and overwrite recorded tx
    engine.process_transaction(deposit(1, 1, 50, 0));

    let acc = engine.get_account(1);
    // Both deposits applied
    assert_eq!(acc.available, amt(150, 0));

    // The recorded transaction should reflect the last inserted amount (50.0)
    let tx = engine.transactions.get(&1).unwrap();
    assert_eq!(tx.amount, amt(50, 0));
}

#[test]
fn test_resolve_without_dispute_ignored_behaviour() {
    let mut engine = PaymentEngine::new();

    engine.process_transaction(deposit(1, 1, 100, 0));
    // Resolve without an active dispute should be ignored
    engine.process_transaction(resolve(1, 1));

    let acc = engine.get_account(1);
    assert_eq!(acc.available, amt(100, 0));
    assert_eq!(acc.held, amt(0, 0));
}

#[test]
fn test_chargeback_without_dispute_ignored_behaviour() {
    let mut engine = PaymentEngine::new();

    engine.process_transaction(deposit(1, 1, 100, 0));
    // Chargeback without dispute should be ignored
    engine.process_transaction(chargeback(1, 1));

    let acc = engine.get_account(1);
    assert_eq!(acc.available, amt(100, 0));
    assert_eq!(acc.held, amt(0, 0));
    assert!(!acc.locked);
}

#[test]
fn test_dispute_referencing_withdrawal_moves_available_up_to_amount() {
    let mut engine = PaymentEngine::new();

    engine.process_transaction(deposit(1, 1, 100, 0));
    engine.process_transaction(withdrawal(1, 2, 60, 0)); // available = 40

    // Dispute the withdrawal tx -> hold up to tx amount (min(amount, available)) i.e., 40
    engine.process_transaction(dispute(1, 2));

    let acc = engine.get_account(1);
    assert_eq!(acc.available, amt(0, 0));
    assert_eq!(acc.held, amt(40, 0));
    // total remains available + held = 40
    assert_eq!(acc.total, amt(40, 0));
}

#[test]
fn test_deposit_then_withdraw_forty() {
    let mut engine = PaymentEngine::new();
    engine.process_transaction(deposit(1, 1, 100, 0));
    engine.process_transaction(withdrawal(1, 2, 40, 0));
    let acc = engine.get_account(1);
    assert_eq!(acc.available, amt(60, 0));
    assert_eq!(acc.total, amt(60, 0));
    assert!(!acc.locked);
}

#[test]
fn test_overdraw_leaves_no_history() {
    let mut engine = PaymentEngine::new();
    engine.process_transaction(deposit(1, 1, 100, 0));
    engine.process_transaction(withdrawal(1, 2, 200, 0));
    let acc = engine.get_account(1);
    assert_eq!(acc.available, amt(100, 0));
    assert_eq!(acc.total, amt(100, 0));
    assert!(engine.transactions.get(&2).is_none());
    // A later dispute of the failed withdrawal changes nothing.
    engine.process_transaction(dispute(1, 2));
    let acc = engine.get_account(1);
    assert_eq!(acc.available, amt(100, 0));
    assert_eq!(acc.held, amt(0, 0));
}

#[test]
fn test_locked_account_ignores_later_events() {
    let mut engine = PaymentEngine::new();
    engine.process_transaction(deposit(5, 1, 300, 0));
    engine.process_transaction(dispute(5, 1));
    engine.process_transaction(chargeback(5, 1));
    let frozen = engine.get_account(5);
    assert!(frozen.locked);

    engine.process_transaction(deposit(5, 2, 10, 0));
    engine.process_transaction(withdrawal(5, 3, 10, 0));
    engine.process_transaction(dispute(5, 2));
    engine.process_transaction(resolve(5, 2));

    let acc = engine.get_account(5);
    assert_eq!(acc.available, frozen.available);
    assert_eq!(acc.held, frozen.held);
    assert_eq!(acc.total, frozen.total);
    assert!(acc.locked);
}

#[test]
fn test_deposit_on_locked_account_still_recorded() {
    let mut engine = PaymentEngine::new();
    engine.process_transaction(deposit(4, 1, 100, 0));
    engine.process_transaction(dispute(4, 1));
    engine.process_transaction(chargeback(4, 1));

    // The balance is untouched, but the deposit's id enters the history
    // unconditionally, as every deposit's does.
    engine.process_transaction(deposit(4, 2, 25, 0));
    let acc = engine.get_account(4);
    assert_eq!(acc.total, amt(0, 0));
    let tx = engine.transactions.get(&2).unwrap();
    assert_eq!(tx.amount, amt(25, 0));
    assert!(!tx.disputed);
}

#[test]
fn test_dispute_then_resolve_returns_funds() {
    let mut engine = PaymentEngine::new();
    engine.process_transaction(deposit(6, 1, 75, 5000));
    engine.process_transaction(dispute(6, 1));
    let held = engine.get_account(6);
    assert_eq!(held.available, amt(0, 0));
    assert_eq!(held.held, amt(75, 5000));

    engine.process_transaction(resolve(6, 1));
    let acc = engine.get_account(6);
    assert_eq!(acc.available, amt(75, 5000));
    assert_eq!(acc.held, amt(0, 0));
    assert_eq!(acc.total, amt(75, 5000));
    assert!(!acc.locked);
}

#[test]
fn test_dispute_on_disputed_transaction_ignored() {
    let mut engine = PaymentEngine::new();
    engine.process_transaction(deposit(1, 1, 100, 0));
    engine.process_transaction(dispute(1, 1));
    engine.process_transaction(dispute(1, 1));
    let acc = engine.get_account(1);
    assert_eq!(acc.available, amt(0, 0));
    assert_eq!(acc.held, amt(100, 0));
    assert_eq!(acc.total, amt(100, 0));
}

#[test]
fn test_empty_run_has_no_accounts() {
    let engine = PaymentEngine::new();
    assert!(engine.accounts.is_empty());
    assert!(engine.transactions.is_empty());
}

#[test]
fn test_amount_parts_round_trip() {
    let raw = amt(377, 0);
    assert_eq!(raw, 3_770_000);
    assert_eq!(payments_engine::amount::whole_part(raw), 377);
    assert_eq!(payments_engine::amount::frac_part(raw), 0);

    let raw = amt(500, 1234);
    assert_eq!(raw, 5_001_234);
    assert_eq!(payments_engine::amount::whole_part(raw), 500);
    assert_eq!(payments_engine::amount::frac_part(raw), 1234);
}
