//! Transactions: immutable ledger events scoped to one client.
//!
//! A monetary transaction (deposit or withdrawal) carries a non-negative
//! amount; the dispute-lifecycle transactions (dispute, resolve, chargeback)
//! carry none and instead reference a prior monetary transaction by its id.

use vstd::prelude::*;
use crate::amount::Amount;

verus! {

/// Identifies an account holder.
pub type ClientID = u16;

/// Identifies one transaction; unique across the whole input stream.
pub type TransactionID = u32;

/// Why an operation on the ledger was refused.
#[derive(Clone, Copy, Debug, PartialEq, Eq, Structural)]
pub enum Error {
    /// A deposit or withdrawal was constructed with a negative amount.
    InvalidAmount,
    /// A transaction was applied to an account of a different client.
    ClientMismatch,
}

impl Error {
    /// A human-readable description of the error.
    pub fn message(&self) -> (s: &'static str)
        ensures
            *self is InvalidAmount ==> s@ == "Amount must be positive"@,
            *self is ClientMismatch ==> s@ == "Invalid transaction client for this account"@,
    {
        match self {
            Error::InvalidAmount => "Amount must be positive",
            Error::ClientMismatch => "Invalid transaction client for this account",
        }
    }
}

/// The kind of one ledger event.
#[derive(Clone, Copy, Debug, PartialEq, Eq, Structural)]
pub enum TransactionType {
    Withdraw(Amount),
    Deposit(Amount),
    Dispute,
    Resolve,
    ChargeBack,
}

/// One immutable ledger event: for deposits and withdrawals `tx` is the
/// event's own id; for the dispute lifecycle it references a prior
/// monetary transaction of the same client.
#[derive(Clone, Copy, Debug, PartialEq, Eq, Structural)]
pub struct Transaction {
    pub client: ClientID,
    pub kind: TransactionType,
    pub tx: TransactionID,
}

impl Transaction {
    /// A transaction as the constructors build it: monetary amounts are
    /// never negative.
    pub open spec fn valid(self) -> bool {
        match self.kind {
            TransactionType::Deposit(a) => a.value() >= 0,
            TransactionType::Withdraw(a) => a.value() >= 0,
            _ => true,
        }
    }

    /// Builds a deposit; fails exactly when the amount is negative.
    pub fn create_deposit(client: ClientID, tx: TransactionID, amount: Amount) -> (r: Result<
        Self,
        Error,
    >)
        ensures
            amount.value() < 0 <==> r == Err::<Self, Error>(Error::InvalidAmount),
            amount.value() >= 0 ==> r == Ok::<Self, Error>(
                Transaction { client, tx, kind: TransactionType::Deposit(amount) },
            ),
    {
        if amount.is_negative() {
            return Err(Error::InvalidAmount);
        }
        Ok(Self { client, tx, kind: TransactionType::Deposit(amount) })
    }

    /// Builds a withdrawal; fails exactly when the amount is negative.
    pub fn create_withdraw(client: ClientID, tx: TransactionID, amount: Amount) -> (r: Result<
        Self,
        Error,
    >)
        ensures
            amount.value() < 0 <==> r == Err::<Self, Error>(Error::InvalidAmount),
            amount.value() >= 0 ==> r == Ok::<Self, Error>(
                Transaction { client, tx, kind: TransactionType::Withdraw(amount) },
            ),
    {
        if amount.is_negative() {
            return Err(Error::InvalidAmount);
        }
        Ok(Self { client, tx, kind: TransactionType::Withdraw(amount) })
    }

    /// Builds a dispute referencing the monetary transaction `tx`.
    pub fn create_dispute(client: ClientID, tx: TransactionID) -> (r: Result<Self, Error>)
        ensures
            r == Ok::<Self, Error>(Transaction { client, tx, kind: TransactionType::Dispute }),
    {
        Ok(Self { client, tx, kind: TransactionType::Dispute })
    }

    /// Builds a resolve referencing the monetary transaction `tx`.
    pub fn create_resolve(client: ClientID, tx: TransactionID) -> (r: Result<Self, Error>)
        ensures
            r == Ok::<Self, Error>(Transaction { client, tx, kind: TransactionType::Resolve }),
    {
        Ok(Self { client, tx, kind: TransactionType::Resolve })
    }

    /// Builds a chargeback referencing the monetary transaction `tx`.
    pub fn create_chargeback(client: ClientID, tx: TransactionID) -> (r: Result<Self, Error>)
        ensures
            r == Ok::<Self, Error>(Transaction { client, tx, kind: TransactionType::ChargeBack }),
    {
        Ok(Self { client, tx, kind: TransactionType::ChargeBack })
    }
}

} // verus!
