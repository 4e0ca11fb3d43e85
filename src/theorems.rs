//! What holds of every account and every record, proved from `step`.

use crate::account::{hold_fits, release_fits, step, ClientView};
use crate::amount::fits_between;
use crate::types::{recorded, DisputeState, EngineError, RecordedKind, Transaction, TransactionType};
use vstd::prelude::*;

verus! {

/// A positive deposit to an unlocked account, whose new balance the decimal
/// range holds exactly, credits `available` by its amount, leaves `held`
/// alone, and records the deposit undisputed.
pub proof fn deposit_credits_available(
    old: ClientView,
    t: Transaction,
    r: Result<(), EngineError>,
    new: ClientView,
)
    requires
        old.wf(),
        !old.locked,
        t.tx_type == TransactionType::Deposit,
        t.amount matches Some(a) && a.wf() && a.units() > 0,
        fits_between(
            old.available,
            t.amount->0,
            old.available.units() + t.amount->0.units(),
        ),
        step(old, t, r, new),
    ensures
        r is Ok,
        new.available.units() == old.available.units() + t.amount->0.units(),
        new.held == old.held,
        !new.locked,
        new.transactions == old.transactions.insert(
            t.tx,
            recorded(RecordedKind::Deposit, t.amount->0),
        ),
        new.transactions[t.tx].dispute_state == DisputeState::Undisputed,
{
}

/// A positive withdrawal that `available` covers, and whose result the
/// decimal range holds exactly, debits `available` by its amount and records
/// the withdrawal.
pub proof fn covered_withdrawal_debits_available(
    old: ClientView,
    t: Transaction,
    r: Result<(), EngineError>,
    new: ClientView,
)
    requires
        old.wf(),
        !old.locked,
        t.tx_type == TransactionType::Withdrawal,
        t.amount matches Some(a) && a.wf() && a.units() > 0,
        old.available.units() >= t.amount->0.units(),
        fits_between(
            old.available,
            t.amount->0,
            old.available.units() - t.amount->0.units(),
        ),
        step(old, t, r, new),
    ensures
        r is Ok,
        new.available.units() == old.available.units() - t.amount->0.units(),
        new.held == old.held,
        new.transactions == old.transactions.insert(
            t.tx,
            recorded(RecordedKind::Withdrawal, t.amount->0),
        ),
{
}

/// A positive withdrawal that `available` does not cover changes nothing.
pub proof fn uncovered_withdrawal_changes_nothing(
    old: ClientView,
    t: Transaction,
    r: Result<(), EngineError>,
    new: ClientView,
)
    requires
        old.wf(),
        t.tx_type == TransactionType::Withdrawal,
        t.amount matches Some(a) && a.wf() && a.units() > 0,
        old.available.units() < t.amount->0.units(),
        step(old, t, r, new),
    ensures
        r is Ok,
        new == old,
{
}

/// Disputing an undisputed deposit and then resolving it gives back the
/// balances as they were, in value, and the records as they were (where the
/// decimal range holds both moves exactly).
pub proof fn dispute_then_resolve_restores(
    s0: ClientView,
    d: Transaction,
    r1: Result<(), EngineError>,
    s1: ClientView,
    v: Transaction,
    r2: Result<(), EngineError>,
    s2: ClientView,
)
    requires
        s0.wf(),
        !s0.locked,
        d.tx_type == TransactionType::Dispute,
        v.tx_type == TransactionType::Resolve,
        v.tx == d.tx,
        s0.transactions.contains_key(d.tx),
        s0.transactions[d.tx].kind == RecordedKind::Deposit,
        s0.transactions[d.tx].dispute_state == DisputeState::Undisputed,
        hold_fits(s0, s0.transactions[d.tx].amount),
        step(s0, d, r1, s1),
        release_fits(s1, s0.transactions[d.tx].amount),
        step(s1, v, r2, s2),
    ensures
        r1 is Ok,
        r2 is Ok,
        s1.held.units() == s0.held.units() + s0.transactions[d.tx].amount.units(),
        s1.available.units() == s0.available.units() - s0.transactions[d.tx].amount.units(),
        s2.available.units() == s0.available.units(),
        s2.held.units() == s0.held.units(),
        s2.locked == s0.locked,
        s2.transactions == s0.transactions,
{
    assert(s2.transactions =~= s0.transactions);
}

/// A dispute repeated after one that went through changes nothing.
pub proof fn repeated_dispute_changes_nothing(
    s0: ClientView,
    d: Transaction,
    r1: Result<(), EngineError>,
    s1: ClientView,
    r2: Result<(), EngineError>,
    s2: ClientView,
)
    requires
        s0.wf(),
        d.tx_type == TransactionType::Dispute,
        step(s0, d, r1, s1),
        r1 is Ok,
        step(s1, d, r2, s2),
    ensures
        r2 is Ok,
        s2 == s1,
{
}

/// A resolve repeated after one that went through changes nothing.
pub proof fn repeated_resolve_changes_nothing(
    s0: ClientView,
    v: Transaction,
    r1: Result<(), EngineError>,
    s1: ClientView,
    r2: Result<(), EngineError>,
    s2: ClientView,
)
    requires
        s0.wf(),
        v.tx_type == TransactionType::Resolve,
        step(s0, v, r1, s1),
        r1 is Ok,
        step(s1, v, r2, s2),
    ensures
        r2 is Ok,
        s2 == s1,
{
}

/// A chargeback of an open deposit dispute takes the amount out of `held`,
/// leaves `available` as it was, locks the account and ends the dispute for
/// good (where the decimal range holds the new `held` exactly).
pub proof fn deposit_chargeback_removes_held(
    old: ClientView,
    c: Transaction,
    r: Result<(), EngineError>,
    new: ClientView,
)
    requires
        old.wf(),
        !old.locked,
        c.tx_type == TransactionType::Chargeback,
        old.transactions.contains_key(c.tx),
        old.transactions[c.tx].kind == RecordedKind::Deposit,
        old.transactions[c.tx].dispute_state == DisputeState::Open,
        fits_between(
            old.held,
            old.transactions[c.tx].amount,
            old.held.units() - old.transactions[c.tx].amount.units(),
        ),
        step(old, c, r, new),
    ensures
        r is Ok,
        new.held.units() == old.held.units() - old.transactions[c.tx].amount.units(),
        new.available == old.available,
        new.locked,
        new.transactions.contains_key(c.tx),
        new.transactions[c.tx].dispute_state == DisputeState::ChargedBack,
{
}

/// Once a record is charged back, no dispute, resolve or chargeback that
/// names it changes the account.
pub proof fn chargeback_is_final(
    old: ClientView,
    t: Transaction,
    r: Result<(), EngineError>,
    new: ClientView,
)
    requires
        old.wf(),
        t.tx_type == TransactionType::Dispute || t.tx_type == TransactionType::Resolve
            || t.tx_type == TransactionType::Chargeback,
        old.transactions.contains_key(t.tx),
        old.transactions[t.tx].dispute_state == DisputeState::ChargedBack,
        step(old, t, r, new),
    ensures
        r is Ok,
        new == old,
{
}

/// A chargeback of an open withdrawal dispute returns the amount to
/// `available` and locks the account (where the decimal range holds the new
/// `available` exactly).
pub proof fn withdrawal_chargeback_returns_funds(
    old: ClientView,
    c: Transaction,
    r: Result<(), EngineError>,
    new: ClientView,
)
    requires
        old.wf(),
        !old.locked,
        c.tx_type == TransactionType::Chargeback,
        old.transactions.contains_key(c.tx),
        old.transactions[c.tx].kind == RecordedKind::Withdrawal,
        old.transactions[c.tx].dispute_state == DisputeState::Open,
        fits_between(
            old.available,
            old.transactions[c.tx].amount,
            old.available.units() + old.transactions[c.tx].amount.units(),
        ),
        step(old, c, r, new),
    ensures
        r is Ok,
        new.available.units() == old.available.units() + old.transactions[c.tx].amount.units(),
        new.held == old.held,
        new.locked,
{
}

/// A locked account keeps both balances through any deposit.
pub proof fn locked_account_ignores_deposits(
    old: ClientView,
    t: Transaction,
    r: Result<(), EngineError>,
    new: ClientView,
)
    requires
        old.wf(),
        old.locked,
        t.tx_type == TransactionType::Deposit,
        step(old, t, r, new),
    ensures
        r is Ok,
        new.available == old.available,
        new.held == old.held,
        new.locked,
{
}

} // verus!
