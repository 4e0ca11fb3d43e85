//! The records that drive the ledger, and what an account keeps of them.

use crate::amount::Amount;
use vstd::prelude::*;

verus! {

/// Identifies a client, and with it the client's single account.
pub type ClientId = u16;

/// Identifies a transaction within the feed.
pub type TransactionId = u32;

/// The kind of an incoming record.
#[derive(Clone, Copy, Debug, PartialEq, Eq, Structural)]
pub enum TransactionType {
    Deposit,
    Withdrawal,
    Dispute,
    Resolve,
    Chargeback,
}

/// An incoming record. `amount` is given for deposits and withdrawals; the
/// other kinds name, by `tx`, an earlier deposit or withdrawal of the client.
#[derive(Clone, Copy, Debug)]
pub struct Transaction {
    pub tx_type: TransactionType,
    pub client: ClientId,
    pub tx: TransactionId,
    pub amount: Option<Amount>,
}

/// The kind of a recorded transaction: only deposits and withdrawals are
/// ever recorded.
#[derive(Clone, Copy, Debug, PartialEq, Eq, Structural)]
pub enum RecordedKind {
    Deposit,
    Withdrawal,
}

/// Where a recorded transaction stands with respect to disputes.
#[derive(Clone, Copy, Debug, PartialEq, Eq, Structural)]
pub enum DisputeState {
    /// Never disputed, or disputed and resolved.
    Undisputed,
    /// Disputed, neither resolved nor charged back yet.
    Open,
    /// Charged back: final.
    ChargedBack,
}

/// A deposit or withdrawal that changed a balance, kept for later disputes.
#[derive(Clone, Copy, Debug)]
pub struct StoredTransaction {
    pub kind: RecordedKind,
    pub amount: Amount,
    pub dispute_state: DisputeState,
}

impl StoredTransaction {
    /// A fresh, undisputed record.
    pub fn new(kind: RecordedKind, amount: Amount) -> (r: StoredTransaction)
        ensures
            r == recorded(kind, amount),
    {
        StoredTransaction { kind, amount, dispute_state: DisputeState::Undisputed }
    }

    /// The amount is a positive decimal.
    pub open spec fn wf(self) -> bool {
        self.amount.wf() && self.amount.units() > 0
    }
}

/// Declares the CSV reader's error, carried by `EngineError::InvalidInput`.
#[verifier::external_type_specification]
#[verifier::external_body]
pub struct ExCsvError(csv::Error);

/// Why a record could not be applied.
#[derive(Debug)]
pub enum EngineError {
    /// The feed could not be read or decoded.
    InvalidInput(csv::Error),
    /// A deposit or withdrawal without an amount, named by its transaction id.
    AmountMissing(TransactionId),
    /// A deposit or withdrawal whose amount is zero or negative.
    AmountNotPositive(Amount),
    /// A balance would leave the range of a decimal, named by the transaction id.
    BalanceOverflow(TransactionId),
}

impl Transaction {
    /// The amount of a deposit or withdrawal: present and positive.
    pub fn get_amount(&self) -> (r: Result<Amount, EngineError>)
        requires
            self.amount matches Some(a) ==> a.wf(),
        ensures
            match self.amount {
                None => r matches Err(EngineError::AmountMissing(id)) && id == self.tx,
                Some(a) => if a.units() > 0 {
                    r == Ok::<Amount, EngineError>(a)
                } else {
                    r matches Err(EngineError::AmountNotPositive(b)) && b == a
                },
            },
    {
        match self.amount {
            None => Err(EngineError::AmountMissing(self.tx)),
            Some(a) => {
                if a.is_positive() {
                    Ok(a)
                } else {
                    Err(EngineError::AmountNotPositive(a))
                }
            },
        }
    }
}

/// The record a deposit or withdrawal of `amount` leaves: undisputed.
pub open spec fn recorded(kind: RecordedKind, amount: Amount) -> StoredTransaction {
    StoredTransaction { kind, amount, dispute_state: DisputeState::Undisputed }
}

/// A record's fields after its dispute state moves to `s`.
pub open spec fn with_state(rec: StoredTransaction, s: DisputeState) -> StoredTransaction {
    StoredTransaction { kind: rec.kind, amount: rec.amount, dispute_state: s }
}

} // verus!
