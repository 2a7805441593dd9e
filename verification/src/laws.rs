//! The ledger's laws, stated and proved over the transition function
//! [`spec_step`] and the account transition spec functions.

use vstd::prelude::*;

use crate::client_account::spec_deposit;
use crate::client_account::spec_hold_moved;
use crate::client_account::spec_withdraw;
use crate::client_account::ClientAccount;
use crate::engine::spec_get_account;
use crate::engine::spec_step;
use crate::transaction::Transaction;
use crate::transaction::TransactionRecord;
use crate::transaction::TransactionType;

verus! {

/// Conservation of funds: when every account on file satisfies
/// `total == available + held`, every account still does after any event
/// (and `available >= 0`, `held >= 0` hold by the unsigned representation).
pub proof fn lemma_step_preserves_conservation(
    accounts: Map<u16, ClientAccount>,
    txs: Map<u32, Transaction>,
    r: TransactionRecord,
)
    requires
        forall|c: u16| #[trigger] accounts.contains_key(c) ==> accounts[c].inv(),
    ensures
        forall|c: u16| #[trigger]
            spec_step(accounts, txs, r).0.contains_key(c) ==> spec_step(accounts, txs, r).0[c].inv(),
{
}

/// Once an account is locked, no later event changes its `available`,
/// `held` or `total`, and it stays locked: the event leaves the account
/// exactly as it was.
pub proof fn lemma_locked_account_frozen(
    accounts: Map<u16, ClientAccount>,
    txs: Map<u32, Transaction>,
    r: TransactionRecord,
    c: u16,
)
    requires
        accounts.contains_key(c),
        accounts[c].locked,
    ensures
        spec_step(accounts, txs, r).0.contains_key(c),
        spec_step(accounts, txs, r).0[c] == accounts[c],
{
}

/// Resolve or chargeback on a transaction that is not under dispute — or
/// not on file at all — leaves every balance, every lock flag, and the
/// transaction memory unchanged.
pub proof fn lemma_undisputed_resolve_chargeback_noop(
    accounts: Map<u16, ClientAccount>,
    txs: Map<u32, Transaction>,
    r: TransactionRecord,
)
    requires
        r.tx_type == TransactionType::Resolve || r.tx_type == TransactionType::Chargeback,
        txs.contains_key(r.tx) ==> !txs[r.tx].disputed,
        txs.contains_key(r.tx) ==> accounts.contains_key(txs[r.tx].client),
    ensures
        spec_step(accounts, txs, r).0 == accounts,
        spec_step(accounts, txs, r).1 == txs,
{
    if txs.contains_key(r.tx) {
        let tx = txs[r.tx];
        assert(accounts.insert(tx.client, spec_get_account(accounts, tx.client)) =~= accounts);
        assert(txs.insert(r.tx, tx) =~= txs);
    }
}

/// A dispute moves exactly the clamped sum `min(amount, available)` from
/// `available` to `held` — so a dispute whose remembered amount exceeds the
/// current available funds can never push `available` below zero — keeps
/// `total` as it was, conserves funds, and marks the transaction disputed.
pub proof fn lemma_dispute_clamps_hold(
    accounts: Map<u16, ClientAccount>,
    txs: Map<u32, Transaction>,
    r: TransactionRecord,
)
    requires
        r.tx_type == TransactionType::Dispute,
        txs.contains_key(r.tx),
        !txs[r.tx].disputed,
        accounts.contains_key(txs[r.tx].client),
        accounts[txs[r.tx].client].inv(),
        !accounts[txs[r.tx].client].locked,
    ensures
        ({
            let a0 = accounts[txs[r.tx].client];
            let a1 = spec_step(accounts, txs, r).0[txs[r.tx].client];
            let moved = spec_hold_moved(a0, txs[r.tx].amount);
            &&& a1.available == a0.available - moved
            &&& a1.held == a0.held + moved
            &&& a1.total == a0.total
            &&& a1.inv()
            &&& spec_step(accounts, txs, r).1[r.tx].disputed
        }),
{
}

/// Deposit-then-withdraw arithmetic is exact: an amount deposited and an
/// amount later withdrawn meet the balance with no drift at all, to the full
/// four fractional digits the representation carries.
pub proof fn lemma_deposit_withdraw_exact(a: ClientAccount, x: u64, y: u64)
    requires
        a.inv(),
        !a.locked,
        a.total + x <= u64::MAX,
        y <= a.available + x,
    ensures
        ({
            let b = spec_withdraw(spec_deposit(a, x), y);
            &&& b.available == a.available + x - y
            &&& b.total == a.total + x - y
            &&& b.held == a.held
            &&& b.inv()
        }),
{
}

/// Two deposits under one transaction id both reach the balance, and the
/// remembered transaction keeps the later amount: last write wins.
pub proof fn lemma_duplicate_deposit(
    accounts: Map<u16, ClientAccount>,
    txs: Map<u32, Transaction>,
    c: u16,
    t: u32,
    x: u64,
    y: u64,
)
    requires
        spec_get_account(accounts, c).inv(),
        !spec_get_account(accounts, c).locked,
        spec_get_account(accounts, c).total + x + y <= u64::MAX,
    ensures
        ({
            let r1 = (TransactionRecord {
                tx_type: TransactionType::Deposit,
                client: c,
                tx: t,
                amount: Some(x),
            });
            let r2 = (TransactionRecord {
                tx_type: TransactionType::Deposit,
                client: c,
                tx: t,
                amount: Some(y),
            });
            let s1 = spec_step(accounts, txs, r1);
            let s2 = spec_step(s1.0, s1.1, r2);
            &&& s2.0.contains_key(c)
            &&& s2.0[c].available == spec_get_account(accounts, c).available + x + y
            &&& s2.0[c].total == spec_get_account(accounts, c).total + x + y
            &&& s2.1.contains_key(t)
            &&& s2.1[t].amount == y
            &&& s2.1[t].client == c
            &&& !s2.1[t].disputed
        }),
{
}

} // verus!
