//! The table `tracking`.

use vstd::prelude::*;
use crate::db::store::Record;
use crate::db::values::{same_text, text_eq, written, Hours, TimeOfDay};

verus! {

/// A row of the table `tracking`.
#[derive(Clone, Debug, PartialEq)]
pub struct Tracking {
    /// Column `id`.
    pub id: i32,
    /// Column `client_id`.
    pub client_id: i32,
    /// Column `user_id`.
    pub user_id: i32,
    /// Column `project_id`.
    pub project_id: i32,
    /// Column `date`, in days since 0001-01-01, which is day 1.
    pub date: i32,
    /// Column `begin`.
    pub begin: TimeOfDay,
    /// Column `end`.
    pub end: TimeOfDay,
    /// Column `pause`.
    pub pause: Option<TimeOfDay>,
    /// Column `performed`.
    pub performed: Hours,
    /// Column `billed`.
    pub billed: Hours,
    /// Column `description`.
    pub description: Option<String>,
    /// Column `created_at`, in microseconds since the Unix epoch.
    pub created_at: i64,
    /// Column `updated_at`, in microseconds since the Unix epoch.
    pub updated_at: i64,
}

/// The payload from which a row of `tracking` is inserted.
#[derive(Clone, Debug, PartialEq)]
pub struct CreateTracking {
    /// Column `client_id`.
    pub client_id: i32,
    /// Column `user_id`.
    pub user_id: i32,
    /// Column `project_id`.
    pub project_id: i32,
    /// Column `date`.
    pub date: i32,
    /// Column `begin`.
    pub begin: TimeOfDay,
    /// Column `end`.
    pub end: TimeOfDay,
    /// Column `pause`.
    pub pause: Option<TimeOfDay>,
    /// Column `performed`.
    pub performed: Hours,
    /// Column `billed`.
    pub billed: Hours,
    /// Column `description`.
    pub description: Option<String>,
}

/// A partial update of a row of `tracking`: an absent field is left alone. The
/// times of creation and of the last update are the store's to write and have
/// no place in a patch.
#[derive(Clone, Debug, Default, PartialEq)]
pub struct UpdateTracking {
    /// Column `client_id`.
    pub client_id: Option<i32>,
    /// Column `user_id`.
    pub user_id: Option<i32>,
    /// Column `project_id`.
    pub project_id: Option<i32>,
    /// Column `date`.
    pub date: Option<i32>,
    /// Column `begin`.
    pub begin: Option<TimeOfDay>,
    /// Column `end`.
    pub end: Option<TimeOfDay>,
    /// Column `pause`; `Some(None)` clears it.
    pub pause: Option<Option<TimeOfDay>>,
    /// Column `performed`.
    pub performed: Option<Hours>,
    /// Column `billed`.
    pub billed: Option<Hours>,
    /// Column `description`; `Some(None)` clears it.
    pub description: Option<Option<String>>,
}

impl UpdateTracking {
    /// Whether the patch holds no field at all.
    pub open spec fn spec_is_empty(&self) -> bool {
        &&& self.client_id is None
        &&& self.user_id is None
        &&& self.project_id is None
        &&& self.date is None
        &&& self.begin is None
        &&& self.end is None
        &&& self.pause is None
        &&& self.performed is None
        &&& self.billed is None
        &&& self.description is None
    }

    /// Whether the patch holds no field at all.
    #[verifier::when_used_as_spec(spec_is_empty)]
    pub fn is_empty(&self) -> (empty: bool)
        ensures
            empty == self.spec_is_empty(),
    {
        self.client_id.is_none() && self.user_id.is_none() && self.project_id.is_none()
            && self.date.is_none() && self.begin.is_none() && self.end.is_none()
            && self.pause.is_none() && self.performed.is_none() && self.billed.is_none()
            && self.description.is_none()
    }
}

impl Record for Tracking {
    type Create = CreateTracking;

    type Patch = UpdateTracking;

    open spec fn key(&self) -> int {
        self.id as int
    }

    open spec fn stored(item: CreateTracking, id: i32, now: i64) -> Tracking {
        Tracking {
            id,
            client_id: item.client_id,
            user_id: item.user_id,
            project_id: item.project_id,
            date: item.date,
            begin: item.begin,
            end: item.end,
            pause: item.pause,
            performed: item.performed,
            billed: item.billed,
            description: item.description,
            created_at: now,
            updated_at: now,
        }
    }

    open spec fn patched(&self, patch: UpdateTracking, now: i64) -> Tracking {
        Tracking {
            id: self.id,
            client_id: written(patch.client_id, self.client_id),
            user_id: written(patch.user_id, self.user_id),
            project_id: written(patch.project_id, self.project_id),
            date: written(patch.date, self.date),
            begin: written(patch.begin, self.begin),
            end: written(patch.end, self.end),
            pause: written(patch.pause, self.pause),
            performed: written(patch.performed, self.performed),
            billed: written(patch.billed, self.billed),
            description: written(patch.description, self.description),
            created_at: self.created_at,
            updated_at: now,
        }
    }

    open spec fn carries(&self, item: CreateTracking) -> bool {
        &&& self.client_id == item.client_id
        &&& self.user_id == item.user_id
        &&& self.project_id == item.project_id
        &&& self.date == item.date
        &&& self.begin == item.begin
        &&& self.end == item.end
        &&& self.pause == item.pause
        &&& self.performed == item.performed
        &&& self.billed == item.billed
        &&& self.description == item.description
    }

    open spec fn clashes(&self, item: CreateTracking) -> bool {
        false
    }

    proof fn key_fits(&self) {
    }

    proof fn stored_has_key(item: CreateTracking, id: i32, now: i64) {
    }

    proof fn stored_carries(item: CreateTracking, id: i32, now: i64) {
    }

    proof fn patched_keeps_key(&self, patch: UpdateTracking, now: i64) {
    }
}

impl Tracking {
    /// Whether the row reads as the payload does, field by field.
    pub open spec fn reads_as(&self, item: &CreateTracking) -> bool {
        &&& self.client_id == item.client_id
        &&& self.user_id == item.user_id
        &&& self.project_id == item.project_id
        &&& self.date == item.date
        &&& self.begin == item.begin
        &&& self.end == item.end
        &&& self.pause == item.pause
        &&& self.performed == item.performed
        &&& self.billed == item.billed
        &&& same_text(self.description, item.description)
    }

    /// Whether the row reads as the payload does, field by field.
    pub fn matches(&self, item: &CreateTracking) -> (same: bool)
        ensures
            same == self.reads_as(item),
    {
        self.client_id == item.client_id && self.user_id == item.user_id && self.project_id
            == item.project_id && self.date == item.date && self.begin == item.begin && self.end
            == item.end && self.pause == item.pause && self.performed == item.performed
            && self.billed == item.billed && text_eq(&self.description, &item.description)
    }
}

} // verus!
