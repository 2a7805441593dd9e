//! The transaction interpreter: owns the per-client accounts and the memory
//! of accepted transactions, and applies one event at a time.
//!
//! The whole effect of an event is pinned down by the transition function
//! [`spec_step`]: `process_transaction` ensures that the new account and
//! transaction maps are exactly what `spec_step` says.

use std::collections::HashMap;

use vstd::prelude::*;

use crate::client_account::spec_chargeback;
use crate::client_account::spec_deposit;
use crate::client_account::spec_hold;
use crate::client_account::spec_new_account;
use crate::client_account::spec_release;
use crate::client_account::spec_withdraw;
use crate::client_account::spec_withdraw_ok;
use crate::client_account::ClientAccount;
use crate::transaction::Transaction;
use crate::transaction::TransactionRecord;
use crate::transaction::TransactionType;

verus! {

broadcast use vstd::std_specs::hash::group_hash_axioms;

/// The account an event acts on: the one on file for `client`, or a fresh
/// zero account where none exists yet (accounts are created lazily on first
/// reference).
pub open spec fn spec_get_account(accounts: Map<u16, ClientAccount>, client: u16) -> ClientAccount {
    if accounts.contains_key(client) {
        accounts[client]
    } else {
        spec_new_account(client)
    }
}

/// The complete effect of one event on the pair of maps (accounts,
/// transaction memory), in arrival order, one event at a time:
///
/// - Deposit: applied to the target account (a no-op on a locked account);
///   the transaction memory for that id is written unconditionally, so a
///   duplicate id is overwritten, last write wins.
/// - Withdrawal: applied only when the account is unlocked and has the
///   funds; only a successful withdrawal is remembered.
/// - Dispute / Resolve / Chargeback: resolved through the remembered
///   transaction (an unknown id is a no-op); the account acted on is the one
///   the remembered transaction names, not the event's own client field.
///   Dispute holds the remembered amount on a not-yet-disputed transaction;
///   resolve releases it and chargeback destroys it (locking the account),
///   each only on a transaction under active dispute.
pub open spec fn spec_step(
    accounts: Map<u16, ClientAccount>,
    txs: Map<u32, Transaction>,
    r: TransactionRecord,
) -> (Map<u16, ClientAccount>, Map<u32, Transaction>) {
    match r.tx_type {
        TransactionType::Deposit => match r.amount {
            Some(amount) => (
                accounts.insert(
                    r.client,
                    spec_deposit(spec_get_account(accounts, r.client), amount),
                ),
                txs.insert(r.tx, (Transaction { client: r.client, amount, disputed: false })),
            ),
            None => (accounts, txs),
        },
        TransactionType::Withdrawal => match r.amount {
            Some(amount) => {
                let a0 = spec_get_account(accounts, r.client);
                if spec_withdraw_ok(a0, amount) {
                    (
                        accounts.insert(r.client, spec_withdraw(a0, amount)),
                        txs.insert(
                            r.tx,
                            (Transaction { client: r.client, amount, disputed: false }),
                        ),
                    )
                } else {
                    (accounts.insert(r.client, a0), txs)
                }
            },
            None => (accounts, txs),
        },
        TransactionType::Dispute => {
            if txs.contains_key(r.tx) {
                let tx = txs[r.tx];
                let a0 = spec_get_account(accounts, tx.client);
                if !tx.disputed {
                    (
                        accounts.insert(tx.client, spec_hold(a0, tx.amount)),
                        txs.insert(r.tx, (Transaction { disputed: true, ..tx })),
                    )
                } else {
                    (accounts.insert(tx.client, a0), txs.insert(r.tx, tx))
                }
            } else {
                (accounts, txs)
            }
        },
        TransactionType::Resolve => {
            if txs.contains_key(r.tx) {
                let tx = txs[r.tx];
                let a0 = spec_get_account(accounts, tx.client);
                if tx.disputed {
                    (
                        accounts.insert(tx.client, spec_release(a0, tx.amount)),
                        txs.insert(r.tx, (Transaction { disputed: false, ..tx })),
                    )
                } else {
                    (accounts.insert(tx.client, a0), txs.insert(r.tx, tx))
                }
            } else {
                (accounts, txs)
            }
        },
        TransactionType::Chargeback => {
            if txs.contains_key(r.tx) {
                let tx = txs[r.tx];
                let a0 = spec_get_account(accounts, tx.client);
                if tx.disputed {
                    (
                        accounts.insert(tx.client, spec_chargeback(a0, tx.amount)),
                        txs.insert(r.tx, (Transaction { disputed: false, ..tx })),
                    )
                } else {
                    (accounts.insert(tx.client, a0), txs.insert(r.tx, tx))
                }
            } else {
                (accounts, txs)
            }
        },
    }
}

/// The interpreter state: per-client accounts and the memory of accepted
/// deposits and withdrawals, both keyed by id.
pub struct PaymentEngine {
    pub accounts: HashMap<u16, ClientAccount>,
    pub transactions: HashMap<u32, Transaction>,
}

impl PaymentEngine {
    /// Holds after every processed event: each account conserves funds
    /// (`total == available + held`, the fields themselves unsigned) and sits
    /// under its own client id, and every remembered transaction names a
    /// client that has an account on file.
    pub open spec fn inv(&self) -> bool {
        &&& forall|c: u16| #[trigger]
            self.accounts@.contains_key(c) ==> self.accounts@[c].inv() && self.accounts@[c].client
                == c
        &&& forall|t: u32| #[trigger]
            self.transactions@.contains_key(t) ==> self.accounts@.contains_key(
                self.transactions@[t].client,
            )
    }

    pub fn new() -> (engine: PaymentEngine)
        ensures
            engine.accounts@ == Map::<u16, ClientAccount>::empty(),
            engine.transactions@ == Map::<u32, Transaction>::empty(),
            engine.inv(),
    {
        PaymentEngine { accounts: HashMap::new(), transactions: HashMap::new() }
    }

    /// A copy of the account the given client has on file, or a fresh zero
    /// account where none exists.
    fn fetch_account(accounts: &HashMap<u16, ClientAccount>, client: u16) -> (account:
        ClientAccount)
        ensures
            account == spec_get_account(accounts@, client),
    {
        match accounts.get(&client) {
            Some(a) => *a,
            None => ClientAccount::new(client),
        }
    }

    /// The account on file for `client`, created (and stored) as a fresh zero
    /// account where none exists yet.
    pub fn get_account(&mut self, client: u16) -> (account: ClientAccount)
        requires
            old(self).inv(),
        ensures
            account == spec_get_account(old(self).accounts@, client),
            final(self).accounts@ == old(self).accounts@.insert(client, account),
            final(self).transactions@ == old(self).transactions@,
            final(self).inv(),
    {
        let account = Self::fetch_account(&self.accounts, client);
        self.accounts.insert(client, account);
        account
    }

    /// Applies one event; the resulting maps are exactly those of
    /// [`spec_step`] on the old maps.
    pub fn process_transaction(&mut self, record: TransactionRecord)
        requires
            old(self).inv(),
        ensures
            final(self).inv(),
            final(self).accounts@ == spec_step(
                old(self).accounts@,
                old(self).transactions@,
                record,
            ).0,
            final(self).transactions@ == spec_step(
                old(self).accounts@,
                old(self).transactions@,
                record,
            ).1,
    {
        match record.tx_type {
            TransactionType::Deposit => {
                if let Some(amount) = record.amount {
                    let mut account = Self::fetch_account(&self.accounts, record.client);
                    account.deposit(amount);
                    self.accounts.insert(record.client, account);
                    self.transactions.insert(
                        record.tx,
                        Transaction { client: record.client, amount, disputed: false },
                    );
                }
            },
            TransactionType::Withdrawal => {
                if let Some(amount) = record.amount {
                    let mut account = Self::fetch_account(&self.accounts, record.client);
                    if account.withdraw(amount) {
                        self.accounts.insert(record.client, account);
                        self.transactions.insert(
                            record.tx,
                            Transaction { client: record.client, amount, disputed: false },
                        );
                    } else {
                        self.accounts.insert(record.client, account);
                    }
                }
            },
            TransactionType::Dispute | TransactionType::Resolve
            | TransactionType::Chargeback => {
                let tx_opt = self.transactions.get(&record.tx);
                match tx_opt {
                    Some(t) => {
                        let mut tx = *t;
                        let client_id = tx.client;
                        let amount = tx.amount;
                        let mut account = Self::fetch_account(&self.accounts, client_id);
                        match record.tx_type {
                            TransactionType::Dispute => {
                                if !tx.disputed {
                                    account.hold(amount);
                                    tx.disputed = true;
                                }
                            },
                            TransactionType::Resolve => {
                                if tx.disputed {
                                    account.release(amount);
                                    tx.disputed = false;
                                }
                            },
                            TransactionType::Chargeback => {
                                if tx.disputed {
                                    account.chargeback(amount);
                                    tx.disputed = false;
                                }
                            },
                            TransactionType::Deposit | TransactionType::Withdrawal => {},
                        }
                        self.accounts.insert(client_id, account);
                        self.transactions.insert(record.tx, tx);
                    },
                    None => {},
                }
            },
        }
    }
}

} // verus!
