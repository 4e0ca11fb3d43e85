//! One client's account and the state machine that records drive it through.

use crate::amount::{fits_between, Amount};
use crate::types::{
    recorded, with_state, DisputeState, EngineError, RecordedKind, StoredTransaction, Transaction,
    TransactionId, TransactionType,
};
use std::collections::HashMap;
use vstd::prelude::*;

verus! {

broadcast use vstd::std_specs::hash::group_hash_axioms;

/// An account as values: its two balances, whether it is frozen, and the
/// deposits and withdrawals it recorded, by transaction id.
pub struct ClientView {
    pub available: Amount,
    pub held: Amount,
    pub locked: bool,
    pub transactions: Map<TransactionId, StoredTransaction>,
}

impl ClientView {
    /// Both balances are decimals and every record holds a positive amount.
    pub open spec fn wf(self) -> bool {
        &&& self.available.wf()
        &&& self.held.wf()
        &&& forall|k: TransactionId| #[trigger]
            self.transactions.contains_key(k) ==> self.transactions[k].wf()
    }
}

/// The account of a client not seen before.
pub open spec fn fresh_account() -> ClientView {
    ClientView {
        available: Amount { mantissa: 0, scale: 0 },
        held: Amount { mantissa: 0, scale: 0 },
        locked: false,
        transactions: Map::empty(),
    }
}

/// `new` is `old` with `available` moved by `delta`, `held` by `held_delta`,
/// `locked` set to `locked`, and the record map set to `txs`; a balance whose
/// delta is zero keeps its exact representation.
pub open spec fn moved(
    old: ClientView,
    new: ClientView,
    delta: int,
    held_delta: int,
    locked: bool,
    txs: Map<TransactionId, StoredTransaction>,
) -> bool {
    &&& new.available.units() == old.available.units() + delta
    &&& new.held.units() == old.held.units() + held_delta
    &&& delta == 0 ==> new.available == old.available
    &&& held_delta == 0 ==> new.held == old.held
    &&& new.locked == locked
    &&& new.transactions == txs
}

/// The outcome of a step whose balance arithmetic is exact when `fits`: `Ok`
/// with the balances moved exactly; otherwise either `BalanceOverflow` with
/// the account untouched, or `Ok` with the same records and lock but balances
/// as the decimal arithmetic rounded them.
pub open spec fn arithmetic_step(
    old: ClientView,
    id: TransactionId,
    r: Result<(), EngineError>,
    new: ClientView,
    fits: bool,
    delta: int,
    held_delta: int,
    locked: bool,
    txs: Map<TransactionId, StoredTransaction>,
) -> bool {
    &&& fits ==> r is Ok && moved(old, new, delta, held_delta, locked, txs)
    &&& r is Ok ==> new.locked == locked && new.transactions == txs
    &&& r is Err ==> (r matches Err(EngineError::BalanceOverflow(e)) && e == id && new == old)
}

/// What applying one record to an account does, as a relation between the
/// account before (`old`), the result `r`, and the account after (`new`).
pub open spec fn step(
    old: ClientView,
    t: Transaction,
    r: Result<(), EngineError>,
    new: ClientView,
) -> bool {
    if old.locked {
        r is Ok && new == old
    } else {
        match t.tx_type {
            TransactionType::Deposit | TransactionType::Withdrawal => match t.amount {
                None => r matches Err(EngineError::AmountMissing(id)) && id == t.tx && new == old,
                Some(a) => if a.units() <= 0 {
                    r matches Err(EngineError::AmountNotPositive(b)) && b == a && new == old
                } else if t.tx_type == TransactionType::Deposit {
                    deposit_step(old, t.tx, a, r, new)
                } else {
                    withdrawal_step(old, t.tx, a, r, new)
                },
            },
            TransactionType::Dispute => dispute_step(old, t.tx, r, new),
            TransactionType::Resolve => resolve_step(old, t.tx, r, new),
            TransactionType::Chargeback => chargeback_step(old, t.tx, r, new),
        }
    }
}

/// A deposit credits `available` and records the deposit, undisputed.
pub open spec fn deposit_step(
    old: ClientView,
    id: TransactionId,
    a: Amount,
    r: Result<(), EngineError>,
    new: ClientView,
) -> bool {
    arithmetic_step(
        old,
        id,
        r,
        new,
        fits_between(old.available, a, old.available.units() + a.units()),
        a.units(),
        0,
        false,
        old.transactions.insert(id, recorded(RecordedKind::Deposit, a)),
    )
}

/// A withdrawal covered by `available` debits it and is recorded; one that
/// is not covered changes nothing.
pub open spec fn withdrawal_step(
    old: ClientView,
    id: TransactionId,
    a: Amount,
    r: Result<(), EngineError>,
    new: ClientView,
) -> bool {
    if old.available.units() >= a.units() {
        arithmetic_step(
            old,
            id,
            r,
            new,
            fits_between(old.available, a, old.available.units() - a.units()),
            -a.units(),
            0,
            false,
            old.transactions.insert(id, recorded(RecordedKind::Withdrawal, a)),
        )
    } else {
        r is Ok && new == old
    }
}

/// Moving `x` out of `available` into `held` is exact.
pub open spec fn hold_fits(old: ClientView, x: Amount) -> bool {
    &&& fits_between(old.available, x, old.available.units() - x.units())
    &&& fits_between(old.held, x, old.held.units() + x.units())
}

/// Moving `x` out of `held` back into `available` is exact.
pub open spec fn release_fits(old: ClientView, x: Amount) -> bool {
    &&& fits_between(old.available, x, old.available.units() + x.units())
    &&& fits_between(old.held, x, old.held.units() - x.units())
}

/// A dispute of an undisputed record opens it; for a deposit, its amount
/// moves from `available` to `held`. Anything else changes nothing.
pub open spec fn dispute_step(
    old: ClientView,
    id: TransactionId,
    r: Result<(), EngineError>,
    new: ClientView,
) -> bool {
    if old.transactions.contains_key(id) && old.transactions[id].dispute_state
        == DisputeState::Undisputed {
        let rec = old.transactions[id];
        let txs = old.transactions.insert(id, with_state(rec, DisputeState::Open));
        if rec.kind == RecordedKind::Deposit {
            arithmetic_step(
                old,
                id,
                r,
                new,
                hold_fits(old, rec.amount),
                -rec.amount.units(),
                rec.amount.units(),
                false,
                txs,
            )
        } else {
            r is Ok && new == (ClientView { transactions: txs, ..old })
        }
    } else {
        r is Ok && new == old
    }
}

/// A resolve of an open dispute closes it; for a deposit, its amount moves
/// back from `held` to `available`. Anything else changes nothing.
pub open spec fn resolve_step(
    old: ClientView,
    id: TransactionId,
    r: Result<(), EngineError>,
    new: ClientView,
) -> bool {
    if old.transactions.contains_key(id) && old.transactions[id].dispute_state
        == DisputeState::Open {
        let rec = old.transactions[id];
        let txs = old.transactions.insert(id, with_state(rec, DisputeState::Undisputed));
        if rec.kind == RecordedKind::Deposit {
            arithmetic_step(
                old,
                id,
                r,
                new,
                release_fits(old, rec.amount),
                rec.amount.units(),
                -rec.amount.units(),
                false,
                txs,
            )
        } else {
            r is Ok && new == (ClientView { transactions: txs, ..old })
        }
    } else {
        r is Ok && new == old
    }
}

/// A chargeback of an open dispute ends it for good and locks the account: a
/// charged-back deposit leaves `held`, a charged-back withdrawal returns to
/// `available`. Anything else changes nothing.
pub open spec fn chargeback_step(
    old: ClientView,
    id: TransactionId,
    r: Result<(), EngineError>,
    new: ClientView,
) -> bool {
    if old.transactions.contains_key(id) && old.transactions[id].dispute_state
        == DisputeState::Open {
        let rec = old.transactions[id];
        let txs = old.transactions.insert(id, with_state(rec, DisputeState::ChargedBack));
        if rec.kind == RecordedKind::Deposit {
            arithmetic_step(
                old,
                id,
                r,
                new,
                fits_between(old.held, rec.amount, old.held.units() - rec.amount.units()),
                0,
                -rec.amount.units(),
                true,
                txs,
            )
        } else {
            arithmetic_step(
                old,
                id,
                r,
                new,
                fits_between(old.available, rec.amount, old.available.units() + rec.amount.units()),
                rec.amount.units(),
                0,
                true,
                txs,
            )
        }
    } else {
        r is Ok && new == old
    }
}

/// A client's account.
pub struct Client {
    pub available: Amount,
    pub held: Amount,
    pub locked: bool,
    pub transactions: HashMap<TransactionId, StoredTransaction>,
}

impl View for Client {
    type V = ClientView;

    open spec fn view(&self) -> ClientView {
        ClientView {
            available: self.available,
            held: self.held,
            locked: self.locked,
            transactions: self.transactions@,
        }
    }
}

impl Client {
    /// An empty, unlocked account.
    pub fn new() -> (r: Client)
        ensures
            r@ == fresh_account(),
    {
        Client {
            available: Amount::zero(),
            held: Amount::zero(),
            locked: false,
            transactions: HashMap::new(),
        }
    }

    /// Applies one record to this account, as `step` describes. A frozen
    /// account ignores every record.
    pub fn apply(&mut self, t: Transaction) -> (r: Result<(), EngineError>)
        requires
            old(self)@.wf(),
            t.amount matches Some(a) ==> a.wf(),
        ensures
            final(self)@.wf(),
            step(old(self)@, t, r, final(self)@),
    {
        if self.locked {
            return Ok(());
        }
        match t.tx_type {
            TransactionType::Deposit => {
                let amount = match t.get_amount() {
                    Ok(a) => a,
                    Err(e) => return Err(e),
                };
                match self.available.checked_add(amount) {
                    Some(v) => {
                        self.available = v;
                        self.transactions.insert(
                            t.tx,
                            StoredTransaction::new(RecordedKind::Deposit, amount),
                        );
                        assert forall|k: TransactionId| #[trigger]
                            self@.transactions.contains_key(k) implies self@.transactions[k].wf() by {
                            if k != t.tx {
                                assert(old(self)@.transactions.contains_key(k));
                            }
                        }
                        Ok(())
                    },
                    None => Err(EngineError::BalanceOverflow(t.tx)),
                }
            },
            TransactionType::Withdrawal => {
                let amount = match t.get_amount() {
                    Ok(a) => a,
                    Err(e) => return Err(e),
                };
                if self.available.ge(amount) {
                    match self.available.checked_sub(amount) {
                        Some(v) => {
                            self.available = v;
                            self.transactions.insert(
                                t.tx,
                                StoredTransaction::new(RecordedKind::Withdrawal, amount),
                            );
                            assert forall|k: TransactionId| #[trigger]
                                self@.transactions.contains_key(k) implies self@.transactions[k].wf() by {
                                if k != t.tx {
                                    assert(old(self)@.transactions.contains_key(k));
                                }
                            }
                            Ok(())
                        },
                        None => Err(EngineError::BalanceOverflow(t.tx)),
                    }
                } else {
                    Ok(())
                }
            },
            TransactionType::Dispute => self.dispute(t.tx),
            TransactionType::Resolve => self.resolve(t.tx),
            TransactionType::Chargeback => self.chargeback(t.tx),
        }
    }

    /// Opens a dispute on the undisputed record `id`, holding a deposit's amount.
    fn dispute(&mut self, id: TransactionId) -> (r: Result<(), EngineError>)
        requires
            old(self)@.wf(),
            !old(self).locked,
        ensures
            final(self)@.wf(),
            dispute_step(old(self)@, id, r, final(self)@),
    {
        let mut rec = match self.transactions.get(&id) {
            Some(rec) => *rec,
            None => return Ok(()),
        };
        assert(self@.transactions.contains_key(id));
        if rec.dispute_state != DisputeState::Undisputed {
            return Ok(());
        }
        if rec.kind == RecordedKind::Deposit {
            let available = self.available.checked_sub(rec.amount);
            let held = self.held.checked_add(rec.amount);
            match (available, held) {
                (Some(a), Some(h)) => {
                    self.available = a;
                    self.held = h;
                },
                _ => return Err(EngineError::BalanceOverflow(id)),
            }
        }
        rec.dispute_state = DisputeState::Open;
        self.transactions.insert(id, rec);
        Ok(())
    }

    /// Closes the open dispute on record `id`, releasing a deposit's amount.
    fn resolve(&mut self, id: TransactionId) -> (r: Result<(), EngineError>)
        requires
            old(self)@.wf(),
            !old(self).locked,
        ensures
            final(self)@.wf(),
            resolve_step(old(self)@, id, r, final(self)@),
    {
        let mut rec = match self.transactions.get(&id) {
            Some(rec) => *rec,
            None => return Ok(()),
        };
        assert(self@.transactions.contains_key(id));
        if rec.dispute_state != DisputeState::Open {
            return Ok(());
        }
        if rec.kind == RecordedKind::Deposit {
            let available = self.available.checked_add(rec.amount);
            let held = self.held.checked_sub(rec.amount);
            match (available, held) {
                (Some(a), Some(h)) => {
                    self.available = a;
                    self.held = h;
                },
                _ => return Err(EngineError::BalanceOverflow(id)),
            }
        }
        rec.dispute_state = DisputeState::Undisputed;
        self.transactions.insert(id, rec);
        Ok(())
    }

    /// Charges back the open dispute on record `id` and locks the account.
    fn chargeback(&mut self, id: TransactionId) -> (r: Result<(), EngineError>)
        requires
            old(self)@.wf(),
            !old(self).locked,
        ensures
            final(self)@.wf(),
            chargeback_step(old(self)@, id, r, final(self)@),
    {
        let mut rec = match self.transactions.get(&id) {
            Some(rec) => *rec,
            None => return Ok(()),
        };
        assert(self@.transactions.contains_key(id));
        if rec.dispute_state != DisputeState::Open {
            return Ok(());
        }
        match rec.kind {
            RecordedKind::Deposit => match self.held.checked_sub(rec.amount) {
                Some(h) => self.held = h,
                None => return Err(EngineError::BalanceOverflow(id)),
            },
            RecordedKind::Withdrawal => match self.available.checked_add(rec.amount) {
                Some(a) => self.available = a,
                None => return Err(EngineError::BalanceOverflow(id)),
            },
        }
        rec.dispute_state = DisputeState::ChargedBack;
        self.transactions.insert(id, rec);
        self.locked = true;
        Ok(())
    }
}

} // verus!
