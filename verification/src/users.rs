//! User model types: roles and the authenticated caller.

use vstd::prelude::*;

use crate::types::UserId;

verus! {

/// A job-function role; a user may hold several, and permissions are the
/// union of what each role grants.
#[derive(Clone, Copy, Debug, PartialEq, Eq, Hash, Structural)]
pub enum Role {
    PlatformManager,
    RequestViewer,
    StandardUser,
    BillingManager,
}

/// Request body for creating a user.
#[derive(Clone, Debug)]
pub struct UserCreate {
    pub username: String,
    pub email: String,
    pub display_name: Option<String>,
    pub avatar_url: Option<String>,
    pub roles: Vec<Role>,
}

/// Request body for updating a user.
#[derive(Clone, Debug)]
pub struct UserUpdate {
    pub display_name: Option<String>,
    pub avatar_url: Option<String>,
    pub roles: Option<Vec<Role>>,
}

/// Query parameters for listing users.
#[derive(Clone, Debug)]
pub struct ListUsersQuery {
    /// Number of items to skip.
    pub skip: Option<i64>,
    /// Maximum number of items to return.
    pub limit: Option<i64>,
    /// Related data to return inline, comma-separated.
    pub expand: Option<String>,
}

/// Query parameters for fetching a single user.
#[derive(Clone, Debug)]
pub struct GetUserQuery {
    /// Related data to return inline, comma-separated.
    pub expand: Option<String>,
}

/// The authenticated caller, as resolved by the authentication layer.
#[derive(Clone, Debug)]
pub struct CurrentUser {
    pub id: UserId,
    pub username: String,
    pub email: String,
    pub is_admin: bool,
    pub roles: Vec<Role>,
    pub display_name: Option<String>,
    pub avatar_url: Option<String>,
}

impl CurrentUser {
    /// Whether the caller is an administrator.
    pub fn is_admin(&self) -> (r: bool)
        ensures
            r == self.is_admin,
    {
        self.is_admin
    }
}

} // verus!
