//! Type-level markers for operations, convertible to [`Operation`]
//! values, so a required permission can be named in a type.

use vstd::prelude::*;

use crate::types::Operation;

verus! {

/// Marker for [`Operation::CreateAll`].
#[derive(Clone, Copy, Debug, Default)]
pub struct CreateAll;

impl From<CreateAll> for Operation {
    fn from(_marker: CreateAll) -> (r: Self) {
        Operation::CreateAll
    }
}

impl vstd::std_specs::convert::FromSpecImpl<CreateAll> for Operation {
    open spec fn obeys_from_spec() -> bool {
        true
    }

    open spec fn from_spec(_marker: CreateAll) -> Self {
        Operation::CreateAll
    }
}

/// Marker for [`Operation::CreateOwn`].
#[derive(Clone, Copy, Debug, Default)]
pub struct CreateOwn;

impl From<CreateOwn> for Operation {
    fn from(_marker: CreateOwn) -> (r: Self) {
        Operation::CreateOwn
    }
}

impl vstd::std_specs::convert::FromSpecImpl<CreateOwn> for Operation {
    open spec fn obeys_from_spec() -> bool {
        true
    }

    open spec fn from_spec(_marker: CreateOwn) -> Self {
        Operation::CreateOwn
    }
}

/// Marker for [`Operation::ReadAll`].
#[derive(Clone, Copy, Debug, Default)]
pub struct ReadAll;

impl From<ReadAll> for Operation {
    fn from(_marker: ReadAll) -> (r: Self) {
        Operation::ReadAll
    }
}

impl vstd::std_specs::convert::FromSpecImpl<ReadAll> for Operation {
    open spec fn obeys_from_spec() -> bool {
        true
    }

    open spec fn from_spec(_marker: ReadAll) -> Self {
        Operation::ReadAll
    }
}

/// Marker for [`Operation::ReadOwn`].
#[derive(Clone, Copy, Debug, Default)]
pub struct ReadOwn;

impl From<ReadOwn> for Operation {
    fn from(_marker: ReadOwn) -> (r: Self) {
        Operation::ReadOwn
    }
}

impl vstd::std_specs::convert::FromSpecImpl<ReadOwn> for Operation {
    open spec fn obeys_from_spec() -> bool {
        true
    }

    open spec fn from_spec(_marker: ReadOwn) -> Self {
        Operation::ReadOwn
    }
}

/// Marker for [`Operation::UpdateAll`].
#[derive(Clone, Copy, Debug, Default)]
pub struct UpdateAll;

impl From<UpdateAll> for Operation {
    fn from(_marker: UpdateAll) -> (r: Self) {
        Operation::UpdateAll
    }
}

impl vstd::std_specs::convert::FromSpecImpl<UpdateAll> for Operation {
    open spec fn obeys_from_spec() -> bool {
        true
    }

    open spec fn from_spec(_marker: UpdateAll) -> Self {
        Operation::UpdateAll
    }
}

/// Marker for [`Operation::UpdateOwn`].
#[derive(Clone, Copy, Debug, Default)]
pub struct UpdateOwn;

impl From<UpdateOwn> for Operation {
    fn from(_marker: UpdateOwn) -> (r: Self) {
        Operation::UpdateOwn
    }
}

impl vstd::std_specs::convert::FromSpecImpl<UpdateOwn> for Operation {
    open spec fn obeys_from_spec() -> bool {
        true
    }

    open spec fn from_spec(_marker: UpdateOwn) -> Self {
        Operation::UpdateOwn
    }
}

/// Marker for [`Operation::DeleteAll`].
#[derive(Clone, Copy, Debug, Default)]
pub struct DeleteAll;

impl From<DeleteAll> for Operation {
    fn from(_marker: DeleteAll) -> (r: Self) {
        Operation::DeleteAll
    }
}

impl vstd::std_specs::convert::FromSpecImpl<DeleteAll> for Operation {
    open spec fn obeys_from_spec() -> bool {
        true
    }

    open spec fn from_spec(_marker: DeleteAll) -> Self {
        Operation::DeleteAll
    }
}

/// Marker for [`Operation::DeleteOwn`].
#[derive(Clone, Copy, Debug, Default)]
pub struct DeleteOwn;

impl From<DeleteOwn> for Operation {
    fn from(_marker: DeleteOwn) -> (r: Self) {
        Operation::DeleteOwn
    }
}

impl vstd::std_specs::convert::FromSpecImpl<DeleteOwn> for Operation {
    open spec fn obeys_from_spec() -> bool {
        true
    }

    open spec fn from_spec(_marker: DeleteOwn) -> Self {
        Operation::DeleteOwn
    }
}

/// Marker for [`Operation::SystemAccess`].
#[derive(Clone, Copy, Debug, Default)]
pub struct SystemAccess;

impl From<SystemAccess> for Operation {
    fn from(_marker: SystemAccess) -> (r: Self) {
        Operation::SystemAccess
    }
}

impl vstd::std_specs::convert::FromSpecImpl<SystemAccess> for Operation {
    open spec fn obeys_from_spec() -> bool {
        true
    }

    open spec fn from_spec(_marker: SystemAccess) -> Self {
        Operation::SystemAccess
    }
}

} // verus!
