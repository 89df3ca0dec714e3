//! Transaction model types for the credit ledger.

use vstd::prelude::*;

use crate::amount::CreditAmount;
use crate::types::{TransactionId, UserId};

verus! {

/// The kind of a ledger transaction, stored with every row.
///
/// `AdminGrant` and `Purchase` add to the balance; `AdminRemoval` and
/// `Usage` subtract from it.  All four share the same chain mechanics.
#[derive(Clone, Copy, Debug, PartialEq, Eq, Hash, Structural)]
pub enum CreditTransactionType {
    Purchase,
    AdminGrant,
    AdminRemoval,
    Usage,
}

impl CreditTransactionType {
    /// Whether this kind of transaction adds to the balance
    /// (otherwise it subtracts from it).
    pub open spec fn is_additive(self) -> bool {
        self == CreditTransactionType::Purchase || self == CreditTransactionType::AdminGrant
    }

    /// Executable test matching [`Self::is_additive`].
    pub fn additive(&self) -> (r: bool)
        ensures
            r == self.is_additive(),
    {
        matches!(self, CreditTransactionType::Purchase | CreditTransactionType::AdminGrant)
    }
}

/// The subset of transaction kinds that administrative callers may create.
///
/// `Purchase` and `Usage` are reserved for other subsystems, so requests
/// arriving through the admin surface carry this narrower type.
#[derive(Clone, Copy, Debug, PartialEq, Eq, Hash, Structural)]
pub enum TransactionType {
    AdminGrant,
    AdminRemoval,
}

impl From<TransactionType> for CreditTransactionType {
    fn from(t: TransactionType) -> (r: Self) {
        match t {
            TransactionType::AdminGrant => CreditTransactionType::AdminGrant,
            TransactionType::AdminRemoval => CreditTransactionType::AdminRemoval,
        }
    }
}

impl vstd::std_specs::convert::FromSpecImpl<TransactionType> for CreditTransactionType {
    open spec fn obeys_from_spec() -> bool {
        true
    }

    open spec fn from_spec(t: TransactionType) -> Self {
        match t {
            TransactionType::AdminGrant => CreditTransactionType::AdminGrant,
            TransactionType::AdminRemoval => CreditTransactionType::AdminRemoval,
        }
    }
}

/// A request to append one transaction to a user's chain.
///
/// The ledger itself assigns the transaction id, the timestamp, the running
/// balance and the back-reference; a caller only states the intent.
#[derive(Debug)]
pub struct CreditTransactionCreate {
    pub user_id: UserId,
    pub transaction_type: CreditTransactionType,
    /// Magnitude of the change; must be positive.  The direction is implied
    /// by `transaction_type`, never by a sign.
    pub amount: CreditAmount,
    pub description: Option<String>,
}

/// One immutable row of the ledger.
///
/// Rows are created once and never updated or deleted.  All rows of one user
/// form a singly linked chain through `previous_transaction_id`.
#[derive(Debug)]
pub struct CreditTransaction {
    /// Identifier assigned at append time; unique across the whole ledger.
    pub id: TransactionId,
    /// Owner of the chain this transaction extends.
    pub user_id: UserId,
    pub transaction_type: CreditTransactionType,
    /// Positive magnitude of the change.
    pub amount: CreditAmount,
    /// The running balance immediately after this transaction; recomputed by
    /// the ledger from the previous balance, never caller-supplied.
    pub balance_after: CreditAmount,
    /// The chain predecessor, or `None` for the first transaction of a user.
    pub previous_transaction_id: Option<TransactionId>,
    pub description: Option<String>,
    /// Ledger-assigned timestamp; ties are broken by `id` ordering.
    pub created_at: u64,
}

/// Copies an optional free-text annotation.
pub(crate) fn clone_description(d: &Option<String>) -> (r: Option<String>)
    ensures
        r == *d,
{
    match d {
        Some(s) => Some(s.clone()),
        None => None,
    }
}

impl Clone for CreditTransaction {
    fn clone(&self) -> (r: Self)
        ensures
            r == *self,
    {
        CreditTransaction {
            id: self.id,
            user_id: self.user_id,
            transaction_type: self.transaction_type,
            amount: self.amount,
            balance_after: self.balance_after,
            previous_transaction_id: self.previous_transaction_id,
            description: clone_description(&self.description),
            created_at: self.created_at,
        }
    }
}

} // verus!
