//! Role-based access control: which operations a caller may perform on
//! which resources.
//!
//! Administrators bypass the role table entirely; everyone else holds the
//! union of what their roles grant.  No role ever grants system-level
//! access.

use vstd::prelude::*;

use crate::types::{Operation, Resource, UserId};
use crate::users::{CurrentUser, Role};

verus! {

/// What a single role grants: the role permission table.
///
/// `PlatformManager` has full access to platform data except the sensitive
/// request logs.  `StandardUser` manages their own resources.
/// `RequestViewer` adds read access to requests and analytics.
/// `BillingManager` has full access to the credit system and may read all
/// users.  No role grants `SystemAccess`.
pub open spec fn role_grants(role: Role, resource: Resource, operation: Operation) -> bool {
    if operation == Operation::SystemAccess {
        false
    } else {
        match role {
            Role::PlatformManager => resource != Resource::Requests,
            Role::StandardUser => {
                ||| (resource == Resource::Models && operation == Operation::ReadOwn)
                ||| (resource == Resource::Endpoints && operation == Operation::ReadOwn)
                ||| (resource == Resource::Endpoints && operation == Operation::ReadAll)
                ||| (resource == Resource::ApiKeys && operation == Operation::ReadOwn)
                ||| (resource == Resource::ApiKeys && operation == Operation::CreateOwn)
                ||| (resource == Resource::ApiKeys && operation == Operation::UpdateOwn)
                ||| (resource == Resource::ApiKeys && operation == Operation::DeleteOwn)
                ||| (resource == Resource::Users && operation == Operation::ReadOwn)
                ||| (resource == Resource::Users && operation == Operation::UpdateOwn)
                ||| (resource == Resource::Credits && operation == Operation::ReadOwn)
            },
            Role::RequestViewer => {
                ||| (resource == Resource::Requests && operation == Operation::ReadAll)
                ||| (resource == Resource::Requests && operation == Operation::ReadOwn)
                ||| (resource == Resource::Analytics && operation == Operation::ReadAll)
                ||| (resource == Resource::Analytics && operation == Operation::ReadOwn)
                ||| (resource == Resource::Users && operation == Operation::ReadOwn)
                ||| (resource == Resource::Groups && operation == Operation::ReadOwn)
                ||| (resource == Resource::Credits && operation == Operation::ReadOwn)
            },
            Role::BillingManager => {
                ||| resource == Resource::Credits
                ||| (resource == Resource::Users && operation == Operation::ReadAll)
            },
        }
    }
}

/// Whether a user may perform `operation` on `resource`: administrators may
/// do anything, everyone else whatever some role of theirs grants.
pub open spec fn has_perm(user: CurrentUser, resource: Resource, operation: Operation) -> bool {
    user.is_admin || exists|i: int|
        0 <= i < user.roles@.len() && role_grants(#[trigger] user.roles@[i], resource, operation)
}

/// Check if a role grants permission for a resource/operation.
pub fn role_has_permission(role: &Role, resource: Resource, operation: Operation) -> (r: bool)
    ensures
        r == role_grants(*role, resource, operation),
{
    // No role gets system access (admins bypass this check entirely).
    if matches!(operation, Operation::SystemAccess) {
        return false;
    }
    match role {
        Role::PlatformManager => {
            // Full access to platform data except sensitive request logs.
            !matches!(resource, Resource::Requests)
        },
        Role::StandardUser => {
            // Limited permissions for basic usage, mainly own resources.
            matches!(
                (resource, operation),
                (Resource::Models, Operation::ReadOwn)
                    | (Resource::Endpoints, Operation::ReadOwn)
                    | (Resource::Endpoints, Operation::ReadAll)
                    | (Resource::ApiKeys, Operation::ReadOwn)
                    | (Resource::ApiKeys, Operation::CreateOwn)
                    | (Resource::ApiKeys, Operation::UpdateOwn)
                    | (Resource::ApiKeys, Operation::DeleteOwn)
                    | (Resource::Users, Operation::ReadOwn)
                    | (Resource::Users, Operation::UpdateOwn)
                    | (Resource::Credits, Operation::ReadOwn)
            )
        },
        Role::RequestViewer => {
            // Adds read access to sensitive data, typically held alongside
            // StandardUser.
            matches!(
                (resource, operation),
                (Resource::Requests, Operation::ReadAll)
                    | (Resource::Requests, Operation::ReadOwn)
                    | (Resource::Analytics, Operation::ReadAll)
                    | (Resource::Analytics, Operation::ReadOwn)
                    | (Resource::Users, Operation::ReadOwn)
                    | (Resource::Groups, Operation::ReadOwn)
                    | (Resource::Credits, Operation::ReadOwn)
            )
        },
        Role::BillingManager => {
            // Full access to the credit system; may read all users.
            matches!((resource, operation), (Resource::Credits, _) | (Resource::Users, Operation::ReadAll))
        },
    }
}

/// Check if a user has permission to perform an operation on a resource.
pub fn has_permission(user: &CurrentUser, resource: Resource, operation: Operation) -> (r: bool)
    ensures
        r == has_perm(*user, resource, operation),
{
    // Admin users have access to everything.
    if user.is_admin {
        return true;
    }
    // Otherwise check whether any of the user's roles grants the permission.
    let n = user.roles.len();
    let mut i: usize = 0;
    while i < n
        invariant
            i <= n,
            n == user.roles@.len(),
            forall|k: int| 0 <= k < i ==> !role_grants(#[trigger] user.roles@[k], resource, operation),
        decreases n - i,
    {
        if role_has_permission(&user.roles[i], resource, operation) {
            return true;
        }
        i += 1;
    }
    false
}

/// Whether the user may perform an own-scoped operation on a resource
/// belonging to `target_user_id`: they must be that user and hold the
/// permission.
fn can_perform_own_operation(
    user: &CurrentUser,
    resource: Resource,
    operation: Operation,
    target_user_id: UserId,
) -> (r: bool)
    ensures
        r == (user.id == target_user_id && has_perm(*user, resource, operation)),
{
    user.id == target_user_id && has_permission(user, resource, operation)
}

/// Whether the user may perform an operation across all instances of a
/// resource (admin-level access).
fn can_perform_all_operation(user: &CurrentUser, resource: Resource, operation: Operation) -> (r:
    bool)
    ensures
        r == has_perm(*user, resource, operation),
{
    has_permission(user, resource, operation)
}

/// Check if user can read their own resources.
pub fn can_read_own_resource(user: &CurrentUser, resource: Resource, target_user_id: UserId) -> (r:
    bool)
    ensures
        r == (user.id == target_user_id && has_perm(*user, resource, Operation::ReadOwn)),
{
    can_perform_own_operation(user, resource, Operation::ReadOwn, target_user_id)
}

/// Check if user can read all resources of a type.
pub fn can_read_all_resources(user: &CurrentUser, resource: Resource) -> (r: bool)
    ensures
        r == has_perm(*user, resource, Operation::ReadAll),
{
    can_perform_all_operation(user, resource, Operation::ReadAll)
}

/// Check if user can create their own resources.
pub fn can_create_own_resource(user: &CurrentUser, resource: Resource, target_user_id: UserId) -> (r:
    bool)
    ensures
        r == (user.id == target_user_id && has_perm(*user, resource, Operation::CreateOwn)),
{
    can_perform_own_operation(user, resource, Operation::CreateOwn, target_user_id)
}

/// Check if user can create resources for anyone.
pub fn can_create_all_resources(user: &CurrentUser, resource: Resource) -> (r: bool)
    ensures
        r == has_perm(*user, resource, Operation::CreateAll),
{
    can_perform_all_operation(user, resource, Operation::CreateAll)
}

/// Check if user can delete their own resources.
pub fn can_delete_own_resource(user: &CurrentUser, resource: Resource, target_user_id: UserId) -> (r:
    bool)
    ensures
        r == (user.id == target_user_id && has_perm(*user, resource, Operation::DeleteOwn)),
{
    can_perform_own_operation(user, resource, Operation::DeleteOwn, target_user_id)
}

/// Check if user can delete any resource of a type.
pub fn can_delete_all_resources(user: &CurrentUser, resource: Resource) -> (r: bool)
    ensures
        r == has_perm(*user, resource, Operation::DeleteAll),
{
    can_perform_all_operation(user, resource, Operation::DeleteAll)
}

} // verus!
