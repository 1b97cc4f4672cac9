//! The portfolio: routes each incoming transaction to its client's account,
//! creating accounts lazily in first-seen order, and yields one balance
//! snapshot per account once the stream ends.

use vstd::prelude::*;
use crate::account::Account;
use crate::account::Snapshot;
use crate::model::AccountModel;
use crate::model::initial_model;
use crate::model::spec_apply;
use crate::model::step_fits;
use crate::transaction::ClientID;
use crate::transaction::Error;
use crate::transaction::Transaction;
use crate::transaction::TransactionID;
use crate::transaction::TransactionType;

verus! {

/// The client-to-account mapping, kept in the order clients were first
/// seen, together with the cursor of the snapshot stream.
pub struct Portfolio {
    accounts: Vec<Account>,
    pos: usize,
}

impl Portfolio {
    /// The accounts, in the order their clients were first seen.
    pub closed spec fn accounts_view(&self) -> Seq<Account> {
        self.accounts@
    }

    /// How many snapshots `get_snapshot_line` has yielded so far.
    pub closed spec fn cursor(&self) -> int {
        self.pos as int
    }

    /// True when some account belongs to `client`.
    pub open spec fn has_client(&self, client: ClientID) -> bool {
        exists|i: int|
            0 <= i < self.accounts_view().len() && (#[trigger] self.accounts_view()[i]).spec_client()
                == client
    }

    /// The index of `client`'s account.
    pub open spec fn client_index(&self, client: ClientID) -> int {
        choose|i: int|
            0 <= i < self.accounts_view().len() && (#[trigger] self.accounts_view()[i]).spec_client()
                == client
    }

    /// The state of `client`'s account — the fresh state when unseen.
    pub open spec fn client_model(&self, client: ClientID) -> AccountModel {
        if self.has_client(client) {
            self.accounts_view()[self.client_index(client)].model()
        } else {
            initial_model()
        }
    }

    /// The portfolio invariant: every account is consistent and no two
    /// accounts share a client.
    pub open spec fn wf(&self) -> bool {
        &&& forall|i: int|
            0 <= i < self.accounts_view().len() ==> (#[trigger] self.accounts_view()[i]).wf()
        &&& forall|i: int, j: int|
            0 <= i < j < self.accounts_view().len() ==> (#[trigger] self.accounts_view()[i].spec_client())
                != (#[trigger] self.accounts_view()[j].spec_client())
    }

    /// An empty portfolio: no accounts, cursor at the start.
    pub fn new() -> (p: Portfolio)
        ensures
            p.wf(),
            p.accounts_view().len() == 0,
            p.cursor() == 0,
    {
        Portfolio { accounts: Vec::new(), pos: 0 }
    }

    /// Routes `t` to its client's account, creating that account first when
    /// the client has never been seen; the account then steps as the state
    /// machine prescribes. Never fails: the routed account always belongs
    /// to `t`'s client.
    pub fn add_transaction(&mut self, t: Transaction) -> (r: Result<(), Error>)
        requires
            old(self).wf(),
            t.valid(),
            step_fits(old(self).client_model(t.client), t),
        ensures
            r is Ok,
            final(self).wf(),
            final(self).cursor() == old(self).cursor(),
            if old(self).has_client(t.client) {
                let i = old(self).client_index(t.client);
                &&& final(self).accounts_view().len() == old(self).accounts_view().len()
                &&& (forall|j: int|
                    0 <= j < old(self).accounts_view().len() && j != i
                        ==> final(self).accounts_view()[j] == old(self).accounts_view()[j])
                &&& final(self).accounts_view()[i].spec_client() == t.client
                &&& final(self).accounts_view()[i].model() == spec_apply(
                    old(self).accounts_view()[i].model(),
                    t,
                )
                &&& final(self).accounts_view()[i].history() == old(
                    self,
                ).accounts_view()[i].history().push(t)
            } else {
                &&& final(self).accounts_view().len() == old(self).accounts_view().len() + 1
                &&& (forall|j: int|
                    0 <= j < old(self).accounts_view().len()
                        ==> final(self).accounts_view()[j] == old(self).accounts_view()[j])
                &&& final(self).accounts_view().last().spec_client() == t.client
                &&& final(self).accounts_view().last().model() == spec_apply(initial_model(), t)
                &&& final(self).accounts_view().last().history() == seq![t]
            },
    {
        let n = self.accounts.len();
        let mut i: usize = 0;
        while i < n
            invariant
                *self == *old(self),
                old(self).wf(),
                t.valid(),
                step_fits(old(self).client_model(t.client), t),
                n == self.accounts@.len(),
                i <= n,
                forall|j: int|
                    0 <= j < i ==> (#[trigger] self.accounts@[j]).spec_client() != t.client,
            decreases n - i,
        {
            if self.accounts[i].client_id() == t.client {
                proof {
                    assert(old(self).accounts_view()[i as int].spec_client() == t.client);
                    assert(old(self).accounts_view()[i as int].wf());
                    assert(old(self).has_client(t.client));
                    let ci = old(self).client_index(t.client);
                    if ci != i as int {
                        assert(old(self).accounts_view()[ci].spec_client() == t.client);
                        assert(false);
                    }
                }
                let acc = &mut self.accounts[i];
                let res = acc.add_transaction(t);
                proof {
                    assert(res is Ok);
                }
                return res;
            }
            i += 1;
        }
        proof {
            assert(!old(self).has_client(t.client));
        }
        let mut account = Account::new(t.client);
        let res = account.add_transaction(t);
        proof {
            assert(res is Ok);
        }
        self.accounts.push(account);
        proof {
            assert(self.accounts@.last().history() =~= seq![t]);
        }
        res
    }

    /// Yields the next account's snapshot, in first-seen order, advancing
    /// the cursor; `None` once every account has been reported.
    pub fn get_snapshot_line(&mut self) -> (s: Option<Snapshot>)
        requires
            old(self).wf(),
        ensures
            final(self).wf(),
            final(self).accounts_view() == old(self).accounts_view(),
            if old(self).cursor() < old(self).accounts_view().len() {
                &&& final(self).cursor() == old(self).cursor() + 1
                &&& s matches Some(snap) && {
                    let a = old(self).accounts_view()[old(self).cursor()];
                    &&& snap.client == a.spec_client()
                    &&& snap.total.value() == a.model().total
                    &&& snap.held.value() == a.model().held
                    &&& snap.locked == a.model().locked
                    &&& snap.held.value() >= 0
                    &&& i64::MIN <= snap.total.value() - snap.held.value() <= i64::MAX
                }
            } else {
                s is None && *final(self) == *old(self)
            },
    {
        if self.pos < self.accounts.len() {
            let s = self.accounts[self.pos].take_snapshot();
            self.pos = self.pos + 1;
            Some(s)
        } else {
            None
        }
    }

    /// A pure projection of the whole portfolio: one snapshot per account,
    /// in the order the clients were first seen. Repeated calls return the
    /// same sequence; the cursor is not touched.
    pub fn snapshots(&self) -> (v: Vec<Snapshot>)
        requires
            self.wf(),
        ensures
            v@.len() == self.accounts_view().len(),
            forall|i: int|
                0 <= i < v@.len() ==> {
                    let a = self.accounts_view()[i];
                    &&& (#[trigger] v@[i]).client == a.spec_client()
                    &&& v@[i].total.value() == a.model().total
                    &&& v@[i].held.value() == a.model().held
                    &&& v@[i].locked == a.model().locked
                },
    {
        let mut v: Vec<Snapshot> = Vec::new();
        let n = self.accounts.len();
        let mut i: usize = 0;
        while i < n
            invariant
                self.wf(),
                n == self.accounts@.len(),
                i <= n,
                v@.len() == i as int,
                forall|j: int|
                    0 <= j < i ==> {
                        let a = self.accounts@[j];
                        &&& (#[trigger] v@[j]).client == a.spec_client()
                        &&& v@[j].total.value() == a.model().total
                        &&& v@[j].held.value() == a.model().held
                        &&& v@[j].locked == a.model().locked
                    },
            decreases n - i,
        {
            proof {
                assert(self.accounts_view()[i as int].wf());
            }
            let s = self.accounts[i].take_snapshot();
            v.push(s);
            i += 1;
        }
        v
    }

    /// True exactly when applying `t` would keep its account's balances
    /// representable; unverified callers test this before handing `t` to
    /// `add_transaction`.
    pub fn transaction_fits(&self, t: Transaction) -> (r: bool)
        requires
            self.wf(),
            t.valid(),
        ensures
            r == step_fits(self.client_model(t.client), t),
    {
        let n = self.accounts.len();
        let mut i: usize = 0;
        while i < n
            invariant
                self.wf(),
                n == self.accounts@.len(),
                i <= n,
                forall|j: int|
                    0 <= j < i ==> (#[trigger] self.accounts@[j]).spec_client() != t.client,
            decreases n - i,
        {
            if self.accounts[i].client_id() == t.client {
                proof {
                    let ci = self.client_index(t.client);
                    assert(self.accounts_view()[i as int].spec_client() == t.client);
                    assert(self.has_client(t.client));
                    if ci != i as int {
                        assert(self.accounts_view()[ci].spec_client() == t.client);
                        assert(false);
                    }
                }
                proof {
                    assert(self.accounts_view()[i as int].wf());
                }
                return self.accounts[i].fits(t);
            }
            i += 1;
        }
        proof {
            assert(!self.has_client(t.client));
            let m = initial_model();
            let m2 = spec_apply(m, t);
            assert(!m.ledger.contains_key(t.tx)) by {
                assert(m.ledger.dom() =~= Set::<TransactionID>::empty());
            }
            match t.kind {
                TransactionType::Deposit(a) => {
                    assert(0 <= a.value() <= i64::MAX);
                    assert(m2.total == a.value() && m2.held == 0);
                },
                TransactionType::Withdraw(a) => {
                    assert(0 <= a.value() <= i64::MAX);
                    assert(m2.total == 0 - a.value() && m2.held == 0);
                },
                _ => {
                    assert(m2 == m);
                },
            }
            assert(step_fits(m, t));
        }
        true
    }
}

} // verus!
