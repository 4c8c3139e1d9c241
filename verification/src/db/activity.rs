//! The table `activity`.

use vstd::prelude::*;
use crate::db::store::Record;
use crate::db::values::{same_text, text_eq, written};

verus! {

/// A row of the table `activity`.
#[derive(Clone, Debug, PartialEq)]
pub struct Activity {
    /// Column `id`.
    pub id: i32,
    /// Column `token`: carried through as it is, never read.
    pub token: Option<String>,
    /// Column `name`.
    pub name: String,
    /// Column `created_at`, in microseconds since the Unix epoch.
    pub created_at: i64,
    /// Column `updated_at`, in microseconds since the Unix epoch.
    pub updated_at: i64,
}

/// The payload from which a row of `activity` is inserted.
#[derive(Clone, Debug, PartialEq)]
pub struct CreateActivity {
    /// Column `token`.
    pub token: Option<String>,
    /// Column `name`.
    pub name: String,
}

/// A partial update of a row of `activity`: an absent field is left alone. The
/// times of creation and of the last update are the store's to write and have
/// no place in a patch.
#[derive(Clone, Debug, Default, PartialEq)]
pub struct UpdateActivity {
    /// Column `token`; `Some(None)` clears it.
    pub token: Option<Option<String>>,
    /// Column `name`.
    pub name: Option<String>,
}

impl Record for Activity {
    type Create = CreateActivity;

    type Patch = UpdateActivity;

    open spec fn key(&self) -> int {
        self.id as int
    }

    open spec fn stored(item: CreateActivity, id: i32, now: i64) -> Activity {
        Activity { id, token: item.token, name: item.name, created_at: now, updated_at: now }
    }

    open spec fn patched(&self, patch: UpdateActivity, now: i64) -> Activity {
        Activity {
            id: self.id,
            token: written(patch.token, self.token),
            name: written(patch.name, self.name),
            created_at: self.created_at,
            updated_at: now,
        }
    }

    open spec fn carries(&self, item: CreateActivity) -> bool {
        self.token == item.token && self.name == item.name
    }

    open spec fn clashes(&self, item: CreateActivity) -> bool {
        self.name@ == item.name@
    }

    proof fn key_fits(&self) {
    }

    proof fn stored_has_key(item: CreateActivity, id: i32, now: i64) {
    }

    proof fn stored_carries(item: CreateActivity, id: i32, now: i64) {
    }

    proof fn patched_keeps_key(&self, patch: UpdateActivity, now: i64) {
    }
}

impl Activity {
    /// Whether the row reads as the payload does, field by field.
    pub open spec fn reads_as(&self, item: &CreateActivity) -> bool {
        self.name@ == item.name@ && same_text(self.token, item.token)
    }

    /// Whether the row reads as the payload does, field by field.
    pub fn matches(&self, item: &CreateActivity) -> (same: bool)
        ensures
            same == self.reads_as(item),
    {
        self.name == item.name && text_eq(&self.token, &item.token)
    }
}

} // verus!
