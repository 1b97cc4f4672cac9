//! Laws of the account state machine, proved once and for all states.
//!
//! Together with `balance_wf` preservation (see `model.rs`) these pin down
//! the dispute lifecycle: every lifecycle event applies at most once, locks
//! are permanent, unknown references change nothing, and resolving a
//! disputed deposit puts the account back exactly where it was.

use vstd::prelude::*;
use crate::model::AccountModel;
use crate::model::DisputeStatus;
use crate::model::spec_apply;
use crate::transaction::Transaction;

verus! {

/// Lifecycle events are idempotent: applying the same dispute, resolve or
/// chargeback twice leaves exactly the state that applying it once leaves.
/// In particular a second chargeback for an already charged-back
/// transaction observably changes nothing.
pub proof fn lemma_lifecycle_idempotent(m: AccountModel, t: Transaction)
    requires
        !(t.kind is Deposit),
        !(t.kind is Withdraw),
    ensures
        spec_apply(spec_apply(m, t), t) == spec_apply(m, t),
{
}

/// Locking is monotonic: once an account is locked, no transaction of any
/// kind unlocks it.
pub proof fn lemma_lock_monotonic(m: AccountModel, t: Transaction)
    ensures
        m.locked ==> spec_apply(m, t).locked,
{
}

/// A locked account ignores chargebacks entirely.
pub proof fn lemma_chargeback_locked_noop(m: AccountModel, t: Transaction)
    requires
        m.locked,
        t.kind is ChargeBack,
    ensures
        spec_apply(m, t) == m,
{
}

/// A dispute, resolve or chargeback that references no recorded monetary
/// transaction is a no-op: the state is left exactly as it was.
pub proof fn lemma_missing_reference_noop(m: AccountModel, t: Transaction)
    requires
        !(t.kind is Deposit),
        !(t.kind is Withdraw),
        !m.ledger.contains_key(t.tx),
    ensures
        spec_apply(m, t) == m,
{
}

/// Disputing a recorded deposit and then resolving that dispute restores
/// exactly the prior state: balances, lock and ledger included.
pub proof fn lemma_dispute_resolve_deposit_restores(
    m: AccountModel,
    disp: Transaction,
    res: Transaction,
)
    requires
        disp.kind is Dispute,
        res.kind is Resolve,
        res.tx == disp.tx,
        m.ledger.contains_key(disp.tx) ==> m.ledger[disp.tx].status is NotDisputed
            && m.ledger[disp.tx].deposit,
    ensures
        spec_apply(spec_apply(m, disp), res) == m,
{
    if m.ledger.contains_key(disp.tx) {
        let e = m.ledger[disp.tx];
        let m1 = spec_apply(m, disp);
        let m2 = spec_apply(m1, res);
        assert(m1.ledger[disp.tx] == opened(e));
        assert(m2.ledger =~= m.ledger);
        assert(m2 =~= m);
    }
}

/// Disputing a recorded withdrawal and then resolving that dispute leaves
/// the reversal final: the withdrawn amount is back in the total, the hold
/// is released, and nothing else changed.
pub proof fn lemma_dispute_resolve_withdraw_finalizes(
    m: AccountModel,
    disp: Transaction,
    res: Transaction,
)
    requires
        disp.kind is Dispute,
        res.kind is Resolve,
        res.tx == disp.tx,
        m.ledger.contains_key(disp.tx),
        m.ledger[disp.tx].status is NotDisputed,
        !m.ledger[disp.tx].deposit,
    ensures
        spec_apply(spec_apply(m, disp), res) == (AccountModel {
            total: m.total + m.ledger[disp.tx].amount.value(),
            held: m.held,
            locked: m.locked,
            ledger: m.ledger,
        }),
{
    let e = m.ledger[disp.tx];
    let m1 = spec_apply(m, disp);
    let m2 = spec_apply(m1, res);
    assert(m1.ledger[disp.tx] == opened(e));
    assert(m2.ledger =~= m.ledger);
    assert(m2 =~= AccountModel {
        total: m.total + e.amount.value(),
        held: m.held,
        locked: m.locked,
        ledger: m.ledger,
    });
}

/// Opening a dispute on a withdrawal never changes the available funds:
/// the provisional reversal of the total and the hold cancel out.
pub proof fn lemma_dispute_withdraw_preserves_available(m: AccountModel, t: Transaction)
    requires
        t.kind is Dispute,
        m.ledger.contains_key(t.tx) ==> !m.ledger[t.tx].deposit,
    ensures
        spec_apply(m, t).total - spec_apply(m, t).held == m.total - m.held,
{
}

/// A chargeback never changes the available funds: the total and the hold
/// fall by the same disputed amount.
pub proof fn lemma_chargeback_preserves_available(m: AccountModel, t: Transaction)
    requires
        t.kind is ChargeBack,
    ensures
        spec_apply(m, t).total - spec_apply(m, t).held == m.total - m.held,
{
}

/// The entry `e` with its dispute opened; shorthand for the round-trip
/// proofs above.
spec fn opened(e: crate::model::LedgerEntry) -> crate::model::LedgerEntry {
    crate::model::LedgerEntry { status: DisputeStatus::Open, ..e }
}

} // verus!
