//! The per-client account: an executable state machine proved to follow
//! `spec_apply` step by step.
//!
//! An account owns its ordered transaction history, a dispute ledger with
//! one entry per recorded monetary transaction (so dispute lookups need no
//! scan of the history), and the running balance snapshot.

use vstd::prelude::*;
use std::collections::HashMap;
use crate::amount::Amount;
use crate::model::AccountModel;
use crate::model::DisputeStatus;
use crate::model::LedgerEntry;
use crate::model::balance_wf;
use crate::model::initial_model;
use crate::model::lemma_apply_preserves_balance_wf;
use crate::model::lemma_held_nonneg;
use crate::model::replay;
use crate::model::spec_apply;
use crate::model::step_fits;
use crate::transaction::ClientID;
use crate::transaction::Error;
use crate::transaction::Transaction;
use crate::transaction::TransactionID;
use crate::transaction::TransactionType;

verus! {

broadcast use vstd::std_specs::hash::group_hash_axioms;

/// A point-in-time read of one account's balance.
///
/// `available` funds are not stored: they are always derived as
/// `total - held` by `get_available`.
#[derive(Clone, Copy, Debug)]
pub struct Snapshot {
    pub client: ClientID,
    pub total: Amount,
    pub held: Amount,
    pub locked: bool,
}

impl Snapshot {
    /// A zeroed, unlocked snapshot for a fresh account.
    fn new(client: ClientID) -> (s: Snapshot)
        ensures
            s.client == client,
            s.total.value() == 0,
            s.held.value() == 0,
            !s.locked,
    {
        Snapshot { client, total: Amount::zero(), held: Amount::zero(), locked: false }
    }

    /// The funds not frozen by open disputes: exactly `total - held`.
    pub fn get_available(&self) -> (r: Amount)
        requires
            i64::MIN <= self.total.value() - self.held.value() <= i64::MAX,
        ensures
            r.value() == self.total.value() - self.held.value(),
    {
        self.total.minus(self.held)
    }
}

/// Whether a wide intermediate value is representable as an amount.
fn fits_i64(x: i128) -> (r: bool)
    ensures
        r == (i64::MIN <= x <= i64::MAX),
{
    x >= i64::MIN as i128 && x <= i64::MAX as i128
}

/// One client's account: the transaction history in arrival order, the
/// dispute ledger, and the running balance snapshot.
pub struct Account {
    pub client: ClientID,
    pub transactions: Vec<Transaction>,
    ledger: HashMap<TransactionID, LedgerEntry>,
    snapshot: Snapshot,
}

impl Account {
    /// The client this account belongs to.
    pub closed spec fn spec_client(&self) -> ClientID {
        self.client
    }

    /// The transaction history, in arrival order.
    pub closed spec fn history(&self) -> Seq<Transaction> {
        self.transactions@
    }

    /// The account's state as the mathematical model sees it.
    pub closed spec fn model(&self) -> AccountModel {
        AccountModel {
            total: self.snapshot.total.value(),
            held: self.snapshot.held.value(),
            locked: self.snapshot.locked,
            ledger: self.ledger@,
        }
    }

    /// The account invariant: the balances are consistent with the dispute
    /// ledger, the whole state is what replaying the history yields, every
    /// recorded transaction belongs to this client, and the derived
    /// `available` balance stays representable.
    pub closed spec fn wf(&self) -> bool {
        &&& self.snapshot.client == self.client
        &&& balance_wf(self.model())
        &&& i64::MIN <= self.model().total - self.model().held <= i64::MAX
        &&& self.model() == replay(self.transactions@)
        &&& forall|i: int|
            0 <= i < self.transactions@.len() ==> (#[trigger] self.transactions@[i]).client
                == self.client && self.transactions@[i].valid()
    }

    /// The client this account belongs to.
    pub fn client_id(&self) -> (c: ClientID)
        ensures
            c == self.spec_client(),
    {
        self.client
    }

    /// A fresh account for `client`: zero balances, empty history.
    pub fn new(client: ClientID) -> (a: Account)
        ensures
            a.wf(),
            a.spec_client() == client,
            a.history().len() == 0,
            a.model() == initial_model(),
    {
        let a = Account {
            client,
            transactions: Vec::new(),
            ledger: HashMap::new(),
            snapshot: Snapshot::new(client),
        };
        proof {
            assert(a.model().ledger.dom() =~= Set::<TransactionID>::empty());
            assert(a.model() =~= initial_model());
        }
        a
    }

    /// Applies one transaction to this account.
    ///
    /// Fails with `ClientMismatch`, touching nothing, exactly when the
    /// transaction belongs to another client. Otherwise appends the
    /// transaction to the history and steps the balance and dispute state
    /// as the state machine `spec_apply` prescribes.
    pub fn add_transaction(&mut self, t: Transaction) -> (r: Result<(), Error>)
        requires
            old(self).wf(),
            t.valid(),
            t.client == old(self).spec_client() ==> step_fits(old(self).model(), t),
        ensures
            final(self).wf(),
            final(self).spec_client() == old(self).spec_client(),
            match r {
                Ok(()) => {
                    &&& t.client == old(self).spec_client()
                    &&& final(self).history() == old(self).history().push(t)
                    &&& final(self).model() == spec_apply(old(self).model(), t)
                },
                Err(e) => {
                    &&& e == Error::ClientMismatch
                    &&& t.client != old(self).spec_client()
                    &&& *final(self) == *old(self)
                },
            },
    {
        if self.client != t.client {
            return Err(Error::ClientMismatch);
        }
        self.transactions.push(t);
        match t.kind {
            TransactionType::Deposit(a) => {
                self.snapshot.total = self.snapshot.total.plus(a);
                self.record(t.tx, true, a);
            },
            TransactionType::Withdraw(a) => {
                self.snapshot.total = self.snapshot.total.minus(a);
                self.record(t.tx, false, a);
            },
            TransactionType::Dispute => {
                self.open_dispute(t);
            },
            TransactionType::Resolve => {
                self.resolve(t);
            },
            TransactionType::ChargeBack => {
                // a locked account ignores chargebacks entirely
                if !self.snapshot.locked {
                    self.apply_chargeback(t);
                }
            },
        }
        proof {
            lemma_apply_preserves_balance_wf(old(self).model(), t);
            assert(self.transactions@.drop_last() =~= old(self).transactions@);
            assert(self.model() =~= spec_apply(old(self).model(), t));
        }
        Ok(())
    }

    /// A pure read of the current balance; never mutates the account.
    pub fn take_snapshot(&self) -> (s: Snapshot)
        requires
            self.wf(),
        ensures
            s.client == self.spec_client(),
            s.total.value() == self.model().total,
            s.held.value() == self.model().held,
            s.locked == self.model().locked,
            s.held.value() >= 0,
            i64::MIN <= s.total.value() - s.held.value() <= i64::MAX,
    {
        proof {
            lemma_held_nonneg(self.model());
        }
        self.snapshot
    }

    /// True exactly when applying `t` would keep all balances representable;
    /// the executable form of `step_fits`, for callers that must test it
    /// before applying a transaction.
    pub fn fits(&self, t: Transaction) -> (r: bool)
        requires
            self.wf(),
        ensures
            r == step_fits(self.model(), t),
    {
        let total = self.snapshot.total.to_raw() as i128;
        let held = self.snapshot.held.to_raw() as i128;
        match t.kind {
            TransactionType::Deposit(a) => {
                let nt = total + (a.to_raw() as i128);
                fits_i64(nt) && fits_i64(nt - held)
            },
            TransactionType::Withdraw(a) => {
                let nt = total - (a.to_raw() as i128);
                fits_i64(nt) && fits_i64(nt - held)
            },
            TransactionType::Dispute => {
                match self.ledger.get(&t.tx) {
                    Some(e) => {
                        match e.status {
                            DisputeStatus::NotDisputed => {
                                let amt = e.amount.to_raw() as i128;
                                let nt = if e.deposit {
                                    total
                                } else {
                                    total + amt
                                };
                                let nh = held + amt;
                                fits_i64(nt) && fits_i64(nh) && fits_i64(nt - nh)
                            },
                            _ => true,
                        }
                    },
                    None => true,
                }
            },
            TransactionType::Resolve => {
                match self.ledger.get(&t.tx) {
                    Some(e) => {
                        match e.status {
                            DisputeStatus::Open => {
                                let amt = e.amount.to_raw() as i128;
                                let nh = held - amt;
                                fits_i64(nh) && fits_i64(total - nh)
                            },
                            _ => true,
                        }
                    },
                    None => true,
                }
            },
            TransactionType::ChargeBack => {
                if self.snapshot.locked {
                    true
                } else {
                    match self.ledger.get(&t.tx) {
                        Some(e) => {
                            match e.status {
                                DisputeStatus::Open => {
                                    let amt = e.amount.to_raw() as i128;
                                    let nt = total - amt;
                                    let nh = held - amt;
                                    fits_i64(nt) && fits_i64(nh) && fits_i64(nt - nh)
                                },
                                _ => true,
                            }
                        },
                        None => true,
                    }
                }
            },
        }
    }

    /// Records a monetary transaction in the dispute ledger; the first
    /// record for a transaction id wins.
    fn record(&mut self, tx: TransactionID, deposit: bool, amount: Amount)
        ensures
            final(self).snapshot == old(self).snapshot,
            final(self).client == old(self).client,
            final(self).transactions == old(self).transactions,
            final(self).ledger@ == (if old(self).ledger@.contains_key(tx) {
                old(self).ledger@
            } else {
                old(self).ledger@.insert(
                    tx,
                    LedgerEntry { deposit, amount, status: DisputeStatus::NotDisputed },
                )
            }),
    {
        if !self.ledger.contains_key(&tx) {
            self.ledger.insert(
                tx,
                LedgerEntry { deposit, amount, status: DisputeStatus::NotDisputed },
            );
        }
    }

    /// Opens the dispute that `t` references, freezing the disputed amount
    /// (and, for a withdrawal, provisionally restoring it to the total);
    /// a no-op when the reference matches no undisputed monetary record.
    fn open_dispute(&mut self, t: Transaction)
        requires
            t.kind is Dispute,
            balance_wf(old(self).model()),
            step_fits(old(self).model(), t),
        ensures
            final(self).model() == spec_apply(old(self).model(), t),
            final(self).client == old(self).client,
            final(self).transactions == old(self).transactions,
            final(self).snapshot.client == old(self).snapshot.client,
    {
        let e = match self.ledger.get(&t.tx) {
            Some(e) => *e,
            None => {
                return;
            },
        };
        match e.status {
            DisputeStatus::NotDisputed => {},
            _ => {
                return;
            },
        }
        if !e.deposit {
            // the disputed withdrawal is provisionally reversed
            self.snapshot.total = self.snapshot.total.plus(e.amount);
        }
        self.snapshot.held = self.snapshot.held.plus(e.amount);
        self.ledger.insert(t.tx, LedgerEntry { status: DisputeStatus::Open, ..e });
    }

    /// Closes the open dispute that `t` references, releasing exactly the
    /// held amount; a no-op when no dispute is open for that id.
    fn resolve(&mut self, t: Transaction)
        requires
            t.kind is Resolve,
            balance_wf(old(self).model()),
            step_fits(old(self).model(), t),
        ensures
            final(self).model() == spec_apply(old(self).model(), t),
            final(self).client == old(self).client,
            final(self).transactions == old(self).transactions,
            final(self).snapshot.client == old(self).snapshot.client,
    {
        let e = match self.ledger.get(&t.tx) {
            Some(e) => *e,
            None => {
                return;
            },
        };
        match e.status {
            DisputeStatus::Open => {},
            _ => {
                return;
            },
        }
        self.snapshot.held = self.snapshot.held.minus(e.amount);
        self.ledger.insert(t.tx, LedgerEntry { status: DisputeStatus::NotDisputed, ..e });
    }

    /// Fires the chargeback that `t` references: the disputed funds leave
    /// the account for good and the account locks; a no-op when no dispute
    /// is open for that id. Callers keep chargebacks away from locked
    /// accounts.
    fn apply_chargeback(&mut self, t: Transaction)
        requires
            t.kind is ChargeBack,
            !old(self).snapshot.locked,
            balance_wf(old(self).model()),
            step_fits(old(self).model(), t),
        ensures
            final(self).model() == spec_apply(old(self).model(), t),
            final(self).client == old(self).client,
            final(self).transactions == old(self).transactions,
            final(self).snapshot.client == old(self).snapshot.client,
    {
        let e = match self.ledger.get(&t.tx) {
            Some(e) => *e,
            None => {
                return;
            },
        };
        match e.status {
            DisputeStatus::Open => {},
            _ => {
                return;
            },
        }
        self.snapshot.total = self.snapshot.total.minus(e.amount);
        self.snapshot.held = self.snapshot.held.minus(e.amount);
        self.snapshot.locked = true;
        self.ledger.insert(t.tx, LedgerEntry { status: DisputeStatus::ChargedBack, ..e });
    }
}

} // verus!
