//! The table `project`.

use vstd::prelude::*;
use crate::db::store::Record;
use crate::db::values::written;

verus! {

/// A row of the table `project`.
#[derive(Clone, Debug, PartialEq)]
pub struct Project {
    /// Column `id`.
    pub id: i32,
    /// Column `client_id`: the client the project belongs to.
    pub client_id: i32,
    /// Column `name`.
    pub name: String,
    /// Column `created_at`, in microseconds since the Unix epoch.
    pub created_at: i64,
    /// Column `updated_at`, in microseconds since the Unix epoch.
    pub updated_at: i64,
}

/// The payload from which a row of `project` is inserted.
#[derive(Clone, Debug, PartialEq)]
pub struct CreateProject {
    /// Column `client_id`.
    pub client_id: i32,
    /// Column `name`.
    pub name: String,
}

/// A partial update of a row of `project`: an absent field is left alone. The
/// times of creation and of the last update are the store's to write and have
/// no place in a patch.
#[derive(Clone, Debug, Default, PartialEq)]
pub struct UpdateProject {
    /// Column `name`.
    pub name: Option<String>,
}

impl Record for Project {
    type Create = CreateProject;

    type Patch = UpdateProject;

    open spec fn key(&self) -> int {
        self.id as int
    }

    open spec fn stored(item: CreateProject, id: i32, now: i64) -> Project {
        Project { id, client_id: item.client_id, name: item.name, created_at: now, updated_at: now }
    }

    open spec fn patched(&self, patch: UpdateProject, now: i64) -> Project {
        Project {
            id: self.id,
            client_id: self.client_id,
            name: written(patch.name, self.name),
            created_at: self.created_at,
            updated_at: now,
        }
    }

    open spec fn carries(&self, item: CreateProject) -> bool {
        self.client_id == item.client_id && self.name == item.name
    }

    open spec fn clashes(&self, item: CreateProject) -> bool {
        false
    }

    proof fn key_fits(&self) {
    }

    proof fn stored_has_key(item: CreateProject, id: i32, now: i64) {
    }

    proof fn stored_carries(item: CreateProject, id: i32, now: i64) {
    }

    proof fn patched_keeps_key(&self, patch: UpdateProject, now: i64) {
    }
}

impl Project {
    /// Whether the row reads as the payload does, field by field.
    pub open spec fn reads_as(&self, item: &CreateProject) -> bool {
        self.client_id == item.client_id && self.name@ == item.name@
    }

    /// Whether the row reads as the payload does, field by field.
    pub fn matches(&self, item: &CreateProject) -> (same: bool)
        ensures
            same == self.reads_as(item),
    {
        self.client_id == item.client_id && self.name == item.name
    }
}

} // verus!
