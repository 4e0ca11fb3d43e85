//! The ledger: every client's account, by client id.

use crate::account::{fresh_account, step, Client, ClientView};
use crate::amount::{fits_between, Amount};
use crate::types::{ClientId, EngineError, Transaction};
use std::collections::HashMap;
use vstd::prelude::*;

verus! {

broadcast use vstd::std_specs::hash::group_hash_axioms;

/// The account of client `id` in `m`: a fresh one for a client not seen yet.
pub open spec fn account_of(m: Map<ClientId, ClientView>, id: ClientId) -> ClientView {
    if m.contains_key(id) {
        m[id]
    } else {
        fresh_account()
    }
}

/// One row of the account table: a client's balances, their sum, and the lock.
#[derive(Clone, Copy, Debug)]
pub struct AccountSummary {
    pub client: ClientId,
    pub available: Amount,
    pub held: Amount,
    /// `available + held`; `None` only where the sum leaves a decimal's range.
    pub total: Option<Amount>,
    pub locked: bool,
}

/// `s` reports the account `c`: its balances and lock as they stand, and
/// their total, exact wherever the decimal range holds it.
pub open spec fn summarises(s: AccountSummary, c: ClientView) -> bool {
    &&& s.available == c.available
    &&& s.held == c.held
    &&& s.locked == c.locked
    &&& s.total matches Some(t) ==> t.wf()
    &&& fits_between(c.available, c.held, c.available.units() + c.held.units()) ==> (
    s.total is Some)
    &&& fits_between(c.available, c.held, c.available.units() + c.held.units()) ==> (
    s.total->0.units() == c.available.units() + c.held.units())
}

/// All accounts, created on the first record that names their client.
pub struct Engine {
    clients: HashMap<ClientId, Client>,
}

impl View for Engine {
    type V = Map<ClientId, ClientView>;

    closed spec fn view(&self) -> Map<ClientId, ClientView> {
        self.clients@.map_values(|c: Client| c@)
    }
}

impl Engine {
    /// Every account is well formed.
    pub open spec fn wf(&self) -> bool {
        forall|k: ClientId| #[trigger] self@.contains_key(k) ==> self@[k].wf()
    }

    /// A ledger without accounts.
    pub fn new() -> (r: Engine)
        ensures
            r@ == Map::<ClientId, ClientView>::empty(),
            r.wf(),
    {
        let r = Engine { clients: HashMap::new() };
        assert(r@ =~= Map::<ClientId, ClientView>::empty());
        r
    }

    /// Applies one record to the account of its client, creating that account
    /// first if needed; no other account changes.
    pub fn process_transaction(&mut self, transaction: Transaction) -> (r: Result<(), EngineError>)
        requires
            old(self).wf(),
            transaction.amount matches Some(a) ==> a.wf(),
        ensures
            final(self).wf(),
            final(self)@ == old(self)@.insert(
                transaction.client,
                final(self)@[transaction.client],
            ),
            step(
                account_of(old(self)@, transaction.client),
                transaction,
                r,
                final(self)@[transaction.client],
            ),
    {
        let id = transaction.client;
        let mut client = match self.clients.remove(&id) {
            Some(c) => c,
            None => Client::new(),
        };
        proof {
            if old(self)@.contains_key(id) {
                assert(old(self).clients@.contains_key(id));
            }
        }
        let r = client.apply(transaction);
        self.clients.insert(id, client);
        proof {
            assert(self@ =~= old(self)@.insert(id, client@));
        }
        r
    }

    /// The account of client `id`, if any record has named that client.
    pub fn client(&self, id: ClientId) -> (r: Option<&Client>)
        ensures
            r is None <==> !self@.contains_key(id),
            r matches Some(c) ==> c@ == self@[id],
    {
        self.clients.get(&id)
    }

    /// How many accounts there are.
    pub fn num_clients(&self) -> (r: usize)
        ensures
            r == self@.len(),
    {
        assert(self@.dom() =~= self.clients@.dom());
        self.clients.len()
    }

    /// One row per account, in increasing order of client id.
    pub fn summaries(&self) -> (r: Vec<AccountSummary>)
        requires
            self.wf(),
        ensures
            forall|i: int|
                0 <= i < r@.len() ==> self@.contains_key(#[trigger] r@[i].client) && summarises(
                    r@[i],
                    self@[r@[i].client],
                ),
            forall|i: int, j: int| 0 <= i < j < r@.len() ==> r@[i].client < r@[j].client,
            forall|k: ClientId|
                self@.contains_key(k) ==> exists|i: int| 0 <= i < r@.len() && r@[i].client == k,
    {
        let mut r: Vec<AccountSummary> = Vec::new();
        let mut next: u32 = 0;
        while next <= 0xFFFF
            invariant
                self.wf(),
                next <= 0x10000,
                forall|i: int|
                    0 <= i < r@.len() ==> (#[trigger] r@[i].client as u32) < next
                        && self@.contains_key(r@[i].client) && summarises(
                        r@[i],
                        self@[r@[i].client],
                    ),
                forall|i: int, j: int| 0 <= i < j < r@.len() ==> r@[i].client < r@[j].client,
                forall|k: ClientId|
                    (k as u32) < next && self@.contains_key(k) ==> exists|i: int|
                        0 <= i < r@.len() && r@[i].client == k,
            decreases 0x10000 - next,
        {
            let id = next as u16;
            match self.client(id) {
                Some(c) => {
                    assert(self@.contains_key(id));
                    let total = c.available.checked_add(c.held);
                    let row = AccountSummary {
                        client: id,
                        available: c.available,
                        held: c.held,
                        total,
                        locked: c.locked,
                    };
                    let ghost before = r@;
                    r.push(row);
                    assert forall|k: ClientId|
                        (k as u32) < next + 1 && self@.contains_key(k) implies exists|i: int|
                        0 <= i < r@.len() && r@[i].client == k by {
                        if k == id {
                            assert(r@[r@.len() - 1].client == k);
                        } else {
                            let i = choose|i: int| 0 <= i < before.len() && before[i].client == k;
                            assert(r@[i] == before[i]);
                        }
                    }
                },
                None => {},
            }
            next = next + 1;
        }
        r
    }
}

} // verus!
