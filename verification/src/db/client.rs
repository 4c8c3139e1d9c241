//! The table `client`.

use vstd::prelude::*;
use crate::db::store::Record;
use crate::db::values::written;

verus! {

/// A row of the table `client`.
#[derive(Clone, Debug, PartialEq)]
pub struct Client {
    /// Column `id`.
    pub id: i32,
    /// Column `name`.
    pub name: String,
    /// Column `created_at`, in microseconds since the Unix epoch.
    pub created_at: i64,
    /// Column `updated_at`, in microseconds since the Unix epoch.
    pub updated_at: i64,
}

/// The payload from which a row of `client` is inserted.
#[derive(Clone, Debug, PartialEq)]
pub struct CreateClient {
    /// Column `name`.
    pub name: String,
}

/// A partial update of a row of `client`: an absent field is left alone. The
/// times of creation and of the last update are the store's to write and have
/// no place in a patch.
#[derive(Clone, Debug, Default, PartialEq)]
pub struct UpdateClient {
    /// Column `name`.
    pub name: Option<String>,
}

impl Record for Client {
    type Create = CreateClient;

    type Patch = UpdateClient;

    open spec fn key(&self) -> int {
        self.id as int
    }

    open spec fn stored(item: CreateClient, id: i32, now: i64) -> Client {
        Client { id, name: item.name, created_at: now, updated_at: now }
    }

    open spec fn patched(&self, patch: UpdateClient, now: i64) -> Client {
        Client {
            id: self.id,
            name: written(patch.name, self.name),
            created_at: self.created_at,
            updated_at: now,
        }
    }

    open spec fn carries(&self, item: CreateClient) -> bool {
        self.name == item.name
    }

    open spec fn clashes(&self, item: CreateClient) -> bool {
        self.name@ == item.name@
    }

    proof fn key_fits(&self) {
    }

    proof fn stored_has_key(item: CreateClient, id: i32, now: i64) {
    }

    proof fn stored_carries(item: CreateClient, id: i32, now: i64) {
    }

    proof fn patched_keeps_key(&self, patch: UpdateClient, now: i64) {
    }
}

impl Client {
    /// Whether the row reads as the payload does, field by field.
    pub open spec fn reads_as(&self, item: &CreateClient) -> bool {
        self.name@ == item.name@
    }

    /// Whether the row reads as the payload does, field by field.
    pub fn matches(&self, item: &CreateClient) -> (same: bool)
        ensures
            same == self.reads_as(item),
    {
        self.name == item.name
    }
}

} // verus!
