//! The mathematical model of one account.
//!
//! An account's state is modelled as exact integer balances together with a
//! dispute ledger: a map from transaction id to what the account recorded of
//! that monetary transaction and where it stands in the dispute lifecycle.
//! `spec_apply` is the state machine itself: it says, for every possible
//! incoming transaction, what the next state is. The executable account in
//! `account.rs` is proved to follow it step by step.

use vstd::prelude::*;
use crate::amount::Amount;
use crate::transaction::Transaction;
use crate::transaction::TransactionID;
use crate::transaction::TransactionType;

verus! {

/// Where a recorded monetary transaction stands in the dispute lifecycle.
#[derive(Clone, Copy, Debug)]
pub enum DisputeStatus {
    /// No dispute is open; a dispute may open one.
    NotDisputed,
    /// A dispute is open; a resolve closes it, a chargeback consumes it.
    Open,
    /// A chargeback consumed the dispute; terminal for this transaction id.
    ChargedBack,
}

/// What an account's dispute ledger records of one monetary transaction.
#[derive(Clone, Copy, Debug)]
pub struct LedgerEntry {
    /// True for a deposit, false for a withdrawal.
    pub deposit: bool,
    /// The non-negative amount of the recorded transaction.
    pub amount: Amount,
    /// Where this transaction stands in the dispute lifecycle.
    pub status: DisputeStatus,
}

/// The mathematical state of one account: exact balances as unbounded
/// integers, plus the dispute ledger keyed by transaction id.
#[verifier::ext_equal]
pub struct AccountModel {
    /// Sum of all funds, held or not.
    pub total: int,
    /// The funds frozen by open disputes.
    pub held: int,
    /// Set once a chargeback fires; never unset.
    pub locked: bool,
    /// One entry per monetary transaction seen so far.
    pub ledger: Map<TransactionID, LedgerEntry>,
}

/// The state of a freshly created account: zero balances, nothing recorded.
pub open spec fn initial_model() -> AccountModel {
    AccountModel { total: 0, held: 0, locked: false, ledger: Map::empty() }
}

/// How much one ledger entry contributes to the held funds.
pub open spec fn entry_held(e: LedgerEntry) -> int {
    if e.status is Open {
        e.amount.value()
    } else {
        0
    }
}

/// The funds frozen by open disputes: the sum of `entry_held` over the ledger.
pub open spec fn open_held_sum(ledger: Map<TransactionID, LedgerEntry>) -> int
    decreases ledger.dom().len(),
{
    if ledger.dom().finite() && ledger.dom().len() > 0 {
        let k = ledger.dom().choose();
        entry_held(ledger[k]) + open_held_sum(ledger.remove(k))
    } else {
        0
    }
}

/// The account state machine: the state after `t` arrives in state `m`.
///
/// Deposits and withdrawals move `total` and are recorded in the ledger
/// (the first record for a transaction id wins). A dispute freezes the
/// referenced amount — and, for a withdrawal, provisionally restores it to
/// `total` — when the reference matches a recorded monetary transaction with
/// no open or consumed dispute; otherwise it is a no-op. A resolve closes an
/// open dispute and releases the hold. A chargeback on an open dispute
/// removes the funds for good and locks the account; on a locked account it
/// is ignored entirely. No-ops leave the state exactly as it was.
pub open spec fn spec_apply(m: AccountModel, t: Transaction) -> AccountModel {
    match t.kind {
        TransactionType::Deposit(a) => AccountModel {
            total: m.total + a.value(),
            held: m.held,
            locked: m.locked,
            ledger: if m.ledger.contains_key(t.tx) {
                m.ledger
            } else {
                m.ledger.insert(
                    t.tx,
                    LedgerEntry { deposit: true, amount: a, status: DisputeStatus::NotDisputed },
                )
            },
        },
        TransactionType::Withdraw(a) => AccountModel {
            total: m.total - a.value(),
            held: m.held,
            locked: m.locked,
            ledger: if m.ledger.contains_key(t.tx) {
                m.ledger
            } else {
                m.ledger.insert(
                    t.tx,
                    LedgerEntry { deposit: false, amount: a, status: DisputeStatus::NotDisputed },
                )
            },
        },
        TransactionType::Dispute => {
            if m.ledger.contains_key(t.tx) && m.ledger[t.tx].status is NotDisputed {
                let e = m.ledger[t.tx];
                AccountModel {
                    total: if e.deposit {
                        m.total
                    } else {
                        m.total + e.amount.value()
                    },
                    held: m.held + e.amount.value(),
                    locked: m.locked,
                    ledger: m.ledger.insert(
                        t.tx,
                        LedgerEntry { status: DisputeStatus::Open, ..e },
                    ),
                }
            } else {
                m
            }
        },
        TransactionType::Resolve => {
            if m.ledger.contains_key(t.tx) && m.ledger[t.tx].status is Open {
                let e = m.ledger[t.tx];
                AccountModel {
                    total: m.total,
                    held: m.held - e.amount.value(),
                    locked: m.locked,
                    ledger: m.ledger.insert(
                        t.tx,
                        LedgerEntry { status: DisputeStatus::NotDisputed, ..e },
                    ),
                }
            } else {
                m
            }
        },
        TransactionType::ChargeBack => {
            if !m.locked && m.ledger.contains_key(t.tx) && m.ledger[t.tx].status is Open {
                let e = m.ledger[t.tx];
                AccountModel {
                    total: m.total - e.amount.value(),
                    held: m.held - e.amount.value(),
                    locked: true,
                    ledger: m.ledger.insert(
                        t.tx,
                        LedgerEntry { status: DisputeStatus::ChargedBack, ..e },
                    ),
                }
            } else {
                m
            }
        },
    }
}

/// The state an account reaches after its whole history, in arrival order.
pub open spec fn replay(ts: Seq<Transaction>) -> AccountModel
    decreases ts.len(),
{
    if ts.len() == 0 {
        initial_model()
    } else {
        spec_apply(replay(ts.drop_last()), ts.last())
    }
}

/// The balances the step `t` leads to stay representable as amounts
/// (64-bit counts of ten-thousandths), `available = total - held` included.
pub open spec fn step_fits(m: AccountModel, t: Transaction) -> bool {
    let m2 = spec_apply(m, t);
    &&& i64::MIN <= m2.total <= i64::MAX
    &&& i64::MIN <= m2.held <= i64::MAX
    &&& i64::MIN <= m2.total - m2.held <= i64::MAX
}

/// The internal consistency of an account state: the ledger is finite and
/// records non-negative amounts, and the held funds are exactly the sum of
/// the amounts under open dispute.
pub open spec fn balance_wf(m: AccountModel) -> bool {
    &&& m.ledger.dom().finite()
    &&& forall|k: TransactionID| #[trigger]
        m.ledger.contains_key(k) ==> m.ledger[k].amount.value() >= 0
    &&& m.held == open_held_sum(m.ledger)
}

/// Splitting the held sum at any recorded transaction id.
pub proof fn lemma_open_held_sum_remove(ledger: Map<TransactionID, LedgerEntry>, k: TransactionID)
    requires
        ledger.dom().finite(),
        ledger.contains_key(k),
    ensures
        open_held_sum(ledger) == entry_held(ledger[k]) + open_held_sum(ledger.remove(k)),
    decreases ledger.dom().len(),
{
    let k0 = ledger.dom().choose();
    if k0 == k {
        // the definition of open_held_sum splits at k0 == k already
    } else {
        lemma_open_held_sum_remove(ledger.remove(k0), k);
        lemma_open_held_sum_remove(ledger.remove(k), k0);
        assert(ledger.remove(k0).remove(k) =~= ledger.remove(k).remove(k0));
    }
}

/// How the held sum changes when one entry is written.
pub proof fn lemma_open_held_sum_insert(
    ledger: Map<TransactionID, LedgerEntry>,
    k: TransactionID,
    e: LedgerEntry,
)
    requires
        ledger.dom().finite(),
    ensures
        open_held_sum(ledger.insert(k, e)) == open_held_sum(ledger) + entry_held(e) - (
        if ledger.contains_key(k) {
            entry_held(ledger[k])
        } else {
            0
        }),
{
    lemma_open_held_sum_remove(ledger.insert(k, e), k);
    if ledger.contains_key(k) {
        assert(ledger.insert(k, e).remove(k) =~= ledger.remove(k));
        lemma_open_held_sum_remove(ledger, k);
    } else {
        assert(ledger.insert(k, e).remove(k) =~= ledger);
    }
}

/// A ledger of non-negative amounts holds a non-negative sum.
pub proof fn lemma_open_held_sum_nonneg(ledger: Map<TransactionID, LedgerEntry>)
    requires
        ledger.dom().finite(),
        forall|k: TransactionID| #[trigger]
            ledger.contains_key(k) ==> ledger[k].amount.value() >= 0,
    ensures
        open_held_sum(ledger) >= 0,
    decreases ledger.dom().len(),
{
    if ledger.dom().len() > 0 {
        let k = ledger.dom().choose();
        lemma_open_held_sum_nonneg(ledger.remove(k));
    }
}

/// Consistent states have non-negative held funds.
pub proof fn lemma_held_nonneg(m: AccountModel)
    requires
        balance_wf(m),
    ensures
        m.held >= 0,
{
    lemma_open_held_sum_nonneg(m.ledger);
}

/// Every step of the state machine keeps the account state consistent.
pub proof fn lemma_apply_preserves_balance_wf(m: AccountModel, t: Transaction)
    requires
        balance_wf(m),
        t.valid(),
    ensures
        balance_wf(spec_apply(m, t)),
{
    match t.kind {
        TransactionType::Deposit(a) => {
            if !m.ledger.contains_key(t.tx) {
                let e = LedgerEntry {
                    deposit: true,
                    amount: a,
                    status: DisputeStatus::NotDisputed,
                };
                lemma_open_held_sum_insert(m.ledger, t.tx, e);
            }
        },
        TransactionType::Withdraw(a) => {
            if !m.ledger.contains_key(t.tx) {
                let e = LedgerEntry {
                    deposit: false,
                    amount: a,
                    status: DisputeStatus::NotDisputed,
                };
                lemma_open_held_sum_insert(m.ledger, t.tx, e);
            }
        },
        TransactionType::Dispute => {
            if m.ledger.contains_key(t.tx) && m.ledger[t.tx].status is NotDisputed {
                let e = m.ledger[t.tx];
                lemma_open_held_sum_insert(
                    m.ledger,
                    t.tx,
                    LedgerEntry { status: DisputeStatus::Open, ..e },
                );
            }
        },
        TransactionType::Resolve => {
            if m.ledger.contains_key(t.tx) && m.ledger[t.tx].status is Open {
                let e = m.ledger[t.tx];
                lemma_open_held_sum_insert(
                    m.ledger,
                    t.tx,
                    LedgerEntry { status: DisputeStatus::NotDisputed, ..e },
                );
            }
        },
        TransactionType::ChargeBack => {
            if !m.locked && m.ledger.contains_key(t.tx) && m.ledger[t.tx].status is Open {
                let e = m.ledger[t.tx];
                lemma_open_held_sum_insert(
                    m.ledger,
                    t.tx,
                    LedgerEntry { status: DisputeStatus::ChargedBack, ..e },
                );
            }
        },
    }
}

} // verus!
