//! Event records consumed by the engine, and the engine's own memory of
//! previously accepted transactions.

use vstd::prelude::*;

verus! {

/// The kind of an input event.
#[derive(Clone, Copy, Debug, PartialEq, Eq)]
pub enum TransactionType {
    Deposit,
    Withdrawal,
    Dispute,
    Resolve,
    Chargeback,
}

/// One already-decoded input event. `amount` is a raw fixed-point amount
/// (ten-thousandths of the currency unit) and is consulted only for deposits
/// and withdrawals.
#[derive(Clone, Copy, Debug)]
pub struct TransactionRecord {
    pub tx_type: TransactionType,
    pub client: u16,
    pub tx: u32,
    pub amount: Option<u64>,
}

/// The engine's memory of an accepted deposit or withdrawal: its owning
/// client, its original amount, and whether it is under active dispute.
#[derive(Clone, Copy, Debug)]
pub struct Transaction {
    pub client: u16,
    pub amount: u64,
    pub disputed: bool,
}

} // verus!
