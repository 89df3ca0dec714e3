//! Decision logic of the transaction read surface.
//!
//! The transport layer resolves the caller and fetches rows; every access
//! decision it needs — whose transactions a listing may show, whether a
//! fetched transaction may be revealed, and how pagination parameters are
//! normalized — is computed here, against the permission model.

use vstd::prelude::*;

use crate::permissions::{has_perm, has_permission};
use crate::transactions::CreditTransaction;
use crate::types::{Operation, Resource, UserId};
use crate::users::CurrentUser;

verus! {

/// Query parameters for listing transactions.
#[derive(Clone, Copy, Debug)]
pub struct ListTransactionsQuery {
    /// Restrict the listing to one user; reading another user's
    /// transactions requires read-all permission on credits.
    pub user_id: Option<UserId>,
    /// Number of items to skip.
    pub skip: Option<i64>,
    /// Maximum number of items to return.
    pub limit: Option<i64>,
}

/// Why a read request was refused.
#[derive(Clone, Copy, Debug, PartialEq, Eq, Structural)]
pub enum ApiError {
    /// The caller lacks the permission the request needs.
    InsufficientPermissions,
    /// The transaction does not exist — or may not be revealed to the
    /// caller, which is reported identically so that existence does not
    /// leak.
    NotFound,
}

/// Decides whose transactions a listing may show: a caller with read-all
/// permission on credits sees everyone (or any single user they name);
/// anyone else sees exactly their own, and naming another user is refused.
///
/// `Ok(None)` means "all users"; `Ok(Some(u))` means "only user `u`".
pub fn resolve_transaction_filter(current_user: &CurrentUser, requested_user_id: Option<UserId>)
    -> (r: Result<Option<UserId>, ApiError>)
    ensures
        requested_user_id matches Some(u) ==> if has_perm(
            *current_user,
            Resource::Credits,
            Operation::ReadAll,
        ) || u == current_user.id {
            r == Ok::<Option<UserId>, ApiError>(Some(u))
        } else {
            r == Err::<Option<UserId>, ApiError>(ApiError::InsufficientPermissions)
        },
        requested_user_id is None ==> r == Ok::<Option<UserId>, ApiError>(
            if has_perm(*current_user, Resource::Credits, Operation::ReadAll) {
                None
            } else {
                Some(current_user.id)
            },
        ),
{
    let has_read_all = has_permission(current_user, Resource::Credits, Operation::ReadAll);
    match requested_user_id {
        Some(requested) => {
            if !has_read_all && !(requested == current_user.id) {
                Err(ApiError::InsufficientPermissions)
            } else {
                Ok(Some(requested))
            }
        },
        None => {
            if has_read_all {
                Ok(None)
            } else {
                Ok(Some(current_user.id))
            }
        },
    }
}

/// Decides whether a fetched transaction may be revealed to the caller:
/// read-all permission on credits reveals any transaction, everyone else
/// sees only their own.  A withheld transaction and a missing one are both
/// reported as not found, so existence does not leak.
pub fn authorize_transaction_view(
    current_user: &CurrentUser,
    transaction: Option<CreditTransaction>,
) -> (r: Result<CreditTransaction, ApiError>)
    ensures
        r matches Ok(t) ==> {
            &&& transaction == Some(t)
            &&& has_perm(*current_user, Resource::Credits, Operation::ReadAll) || t.user_id
                == current_user.id
        },
        r matches Err(e) ==> {
            &&& e == ApiError::NotFound
            &&& match transaction {
                None => true,
                Some(t) => !has_perm(*current_user, Resource::Credits, Operation::ReadAll)
                    && t.user_id != current_user.id,
            }
        },
{
    let has_read_all = has_permission(current_user, Resource::Credits, Operation::ReadAll);
    match transaction {
        Some(t) => {
            if !has_read_all && !(t.user_id == current_user.id) {
                // Report not-found rather than forbidden, so that the
                // existence of another user's transaction does not leak.
                Err(ApiError::NotFound)
            } else {
                Ok(t)
            }
        },
        None => Err(ApiError::NotFound),
    }
}

/// The page offset a listing uses for the given query parameter: absent or
/// negative values mean zero.
pub open spec fn normalized_skip(skip: Option<i64>) -> int {
    match skip {
        None => 0,
        Some(s) => if s <= 0 {
            0
        } else if s as int > usize::MAX as int {
            usize::MAX as int
        } else {
            s as int
        },
    }
}

/// The page size a listing uses for the given query parameter: 100 when
/// absent, capped at 1000, and negative values mean zero.
pub open spec fn normalized_limit(limit: Option<i64>) -> int {
    match limit {
        None => 100,
        Some(l) => if l <= 0 {
            0
        } else if l > 1000 {
            1000
        } else {
            l as int
        },
    }
}

/// Normalizes pagination query parameters to the offset and page size a
/// listing call uses.
pub fn normalize_page_params(skip: Option<i64>, limit: Option<i64>) -> (r: (usize, usize))
    ensures
        r.0 == normalized_skip(skip),
        r.1 == normalized_limit(limit),
{
    let s: usize = match skip {
        None => 0,
        Some(s) => {
            if s <= 0 {
                0
            } else if s as u64 > usize::MAX as u64 {
                usize::MAX
            } else {
                s as usize
            }
        },
    };
    let l: usize = match limit {
        None => 100,
        Some(l) => {
            if l <= 0 {
                0
            } else if l > 1000 {
                1000
            } else {
                l as usize
            }
        },
    };
    (s, l)
}

} // verus!
