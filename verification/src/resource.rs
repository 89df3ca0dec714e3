//! Type-level markers for resources, convertible to [`Resource`] values,
//! so a required permission can be named in a type.

use vstd::prelude::*;

use crate::types::Resource;

verus! {

/// Marker for [`Resource::Users`].
#[derive(Clone, Copy, Debug, Default)]
pub struct Users;

impl From<Users> for Resource {
    fn from(_marker: Users) -> (r: Self) {
        Resource::Users
    }
}

impl vstd::std_specs::convert::FromSpecImpl<Users> for Resource {
    open spec fn obeys_from_spec() -> bool {
        true
    }

    open spec fn from_spec(_marker: Users) -> Self {
        Resource::Users
    }
}

/// Marker for [`Resource::Groups`].
#[derive(Clone, Copy, Debug, Default)]
pub struct Groups;

impl From<Groups> for Resource {
    fn from(_marker: Groups) -> (r: Self) {
        Resource::Groups
    }
}

impl vstd::std_specs::convert::FromSpecImpl<Groups> for Resource {
    open spec fn obeys_from_spec() -> bool {
        true
    }

    open spec fn from_spec(_marker: Groups) -> Self {
        Resource::Groups
    }
}

/// Marker for [`Resource::Models`].
#[derive(Clone, Copy, Debug, Default)]
pub struct Models;

impl From<Models> for Resource {
    fn from(_marker: Models) -> (r: Self) {
        Resource::Models
    }
}

impl vstd::std_specs::convert::FromSpecImpl<Models> for Resource {
    open spec fn obeys_from_spec() -> bool {
        true
    }

    open spec fn from_spec(_marker: Models) -> Self {
        Resource::Models
    }
}

/// Marker for [`Resource::Endpoints`].
#[derive(Clone, Copy, Debug, Default)]
pub struct Endpoints;

impl From<Endpoints> for Resource {
    fn from(_marker: Endpoints) -> (r: Self) {
        Resource::Endpoints
    }
}

impl vstd::std_specs::convert::FromSpecImpl<Endpoints> for Resource {
    open spec fn obeys_from_spec() -> bool {
        true
    }

    open spec fn from_spec(_marker: Endpoints) -> Self {
        Resource::Endpoints
    }
}

/// Marker for [`Resource::ApiKeys`].
#[derive(Clone, Copy, Debug, Default)]
pub struct ApiKeys;

impl From<ApiKeys> for Resource {
    fn from(_marker: ApiKeys) -> (r: Self) {
        Resource::ApiKeys
    }
}

impl vstd::std_specs::convert::FromSpecImpl<ApiKeys> for Resource {
    open spec fn obeys_from_spec() -> bool {
        true
    }

    open spec fn from_spec(_marker: ApiKeys) -> Self {
        Resource::ApiKeys
    }
}

/// Marker for [`Resource::Analytics`].
#[derive(Clone, Copy, Debug, Default)]
pub struct Analytics;

impl From<Analytics> for Resource {
    fn from(_marker: Analytics) -> (r: Self) {
        Resource::Analytics
    }
}

impl vstd::std_specs::convert::FromSpecImpl<Analytics> for Resource {
    open spec fn obeys_from_spec() -> bool {
        true
    }

    open spec fn from_spec(_marker: Analytics) -> Self {
        Resource::Analytics
    }
}

/// Marker for [`Resource::Requests`].
#[derive(Clone, Copy, Debug, Default)]
pub struct Requests;

impl From<Requests> for Resource {
    fn from(_marker: Requests) -> (r: Self) {
        Resource::Requests
    }
}

impl vstd::std_specs::convert::FromSpecImpl<Requests> for Resource {
    open spec fn obeys_from_spec() -> bool {
        true
    }

    open spec fn from_spec(_marker: Requests) -> Self {
        Resource::Requests
    }
}

/// Marker for [`Resource::Pricing`].
#[derive(Clone, Copy, Debug, Default)]
pub struct Pricing;

impl From<Pricing> for Resource {
    fn from(_marker: Pricing) -> (r: Self) {
        Resource::Pricing
    }
}

impl vstd::std_specs::convert::FromSpecImpl<Pricing> for Resource {
    open spec fn obeys_from_spec() -> bool {
        true
    }

    open spec fn from_spec(_marker: Pricing) -> Self {
        Resource::Pricing
    }
}

/// Marker for [`Resource::ModelRateLimits`].
#[derive(Clone, Copy, Debug, Default)]
pub struct ModelRateLimits;

impl From<ModelRateLimits> for Resource {
    fn from(_marker: ModelRateLimits) -> (r: Self) {
        Resource::ModelRateLimits
    }
}

impl vstd::std_specs::convert::FromSpecImpl<ModelRateLimits> for Resource {
    open spec fn obeys_from_spec() -> bool {
        true
    }

    open spec fn from_spec(_marker: ModelRateLimits) -> Self {
        Resource::ModelRateLimits
    }
}

/// Marker for [`Resource::Credits`].
#[derive(Clone, Copy, Debug, Default)]
pub struct Credits;

impl From<Credits> for Resource {
    fn from(_marker: Credits) -> (r: Self) {
        Resource::Credits
    }
}

impl vstd::std_specs::convert::FromSpecImpl<Credits> for Resource {
    open spec fn obeys_from_spec() -> bool {
        true
    }

    open spec fn from_spec(_marker: Credits) -> Self {
        Resource::Credits
    }
}

/// Marker for [`Resource::Probes`].
#[derive(Clone, Copy, Debug, Default)]
pub struct Probes;

impl From<Probes> for Resource {
    fn from(_marker: Probes) -> (r: Self) {
        Resource::Probes
    }
}

impl vstd::std_specs::convert::FromSpecImpl<Probes> for Resource {
    open spec fn obeys_from_spec() -> bool {
        true
    }

    open spec fn from_spec(_marker: Probes) -> Self {
        Resource::Probes
    }
}

} // verus!
