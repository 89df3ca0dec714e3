//! Identifier and authorization vocabulary shared across the crate.

use vstd::prelude::*;

verus! {

/// A 128-bit user identifier, split into its high and low 64-bit halves.
#[derive(Clone, Copy, Debug, PartialEq, Eq, Hash, Structural)]
pub struct UserId {
    pub hi: u64,
    pub lo: u64,
}

impl UserId {
    /// The key under which appends for this user serialize.
    ///
    /// A storage-level advisory lock takes a 64-bit signed key; the ledger
    /// derives it deterministically from the first eight bytes of the user
    /// identifier, so writers for the same user always contend for the same
    /// key while writers for users with distinct prefixes do not.
    pub fn lock_key(&self) -> (k: i64)
        ensures
            k == self.hi as i64,
    {
        self.hi as i64
    }
}

/// An identifier assigned to a transaction when it is appended.
///
/// Identifiers are assigned in strictly increasing order, so they also break
/// ties between transactions that share a timestamp.
#[derive(Clone, Copy, Debug, PartialEq, Eq, Hash, Structural)]
pub struct TransactionId {
    pub raw: u64,
}

/// The literal `current` path keyword, standing for the calling user.
#[derive(Clone, Copy, Debug, PartialEq, Eq, Structural)]
pub enum CurrentKeyword {
    Current,
}

/// A path parameter that is either the `current` keyword or a user id,
/// so one route can serve both `/current` and `/{user_id}`.
#[derive(Clone, Copy, Debug, PartialEq, Eq, Structural)]
pub enum UserIdOrCurrent {
    Current(CurrentKeyword),
    Id(UserId),
}

/// Operations that can be performed on resources.
/// `*All` means unrestricted access; `*Own` is restricted to own resources.
#[derive(Clone, Copy, Debug, PartialEq, Eq, Hash, Structural)]
pub enum Operation {
    CreateAll,
    CreateOwn,
    ReadAll,
    ReadOwn,
    UpdateAll,
    UpdateOwn,
    DeleteAll,
    DeleteOwn,
    SystemAccess,
}

impl Operation {
    /// The operation family's short human-readable name, as error messages
    /// show it.
    pub fn label(&self) -> (r: String)
        ensures
            (*self == Operation::CreateAll || *self == Operation::CreateOwn) ==> r@ == "Create"@,
            (*self == Operation::ReadAll || *self == Operation::ReadOwn) ==> r@ == "Read"@,
            (*self == Operation::UpdateAll || *self == Operation::UpdateOwn) ==> r@ == "Update"@,
            (*self == Operation::DeleteAll || *self == Operation::DeleteOwn) ==> r@ == "Delete"@,
            *self == Operation::SystemAccess ==> r@ == "Access"@,
    {
        match self {
            Operation::CreateAll | Operation::CreateOwn => String::from_str("Create"),
            Operation::ReadAll | Operation::ReadOwn => String::from_str("Read"),
            Operation::UpdateAll | Operation::UpdateOwn => String::from_str("Update"),
            Operation::DeleteAll | Operation::DeleteOwn => String::from_str("Delete"),
            Operation::SystemAccess => String::from_str("Access"),
        }
    }
}

/// Resources that can be operated on.
#[derive(Clone, Copy, Debug, PartialEq, Eq, Hash, Structural)]
pub enum Resource {
    Users,
    Groups,
    Models,
    Endpoints,
    ApiKeys,
    Analytics,
    Requests,
    Pricing,
    ModelRateLimits,
    Credits,
    Probes,
}

/// Permission requirements for authorization.
#[derive(Debug)]
pub enum Permission {
    /// Simple permission: the operation is allowed on the resource.
    Allow(Resource, Operation),
    /// The user must have been granted access to a specific resource instance.
    Granted,
    /// Any one of the listed permissions suffices.
    Any(Vec<Permission>),
}

} // verus!
