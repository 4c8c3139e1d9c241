//! What holds of time trackings and their activities: the laws of the middle
//! layer, proved of its operations as they run against a well-behaved store.

use vstd::prelude::*;
use crate::db::repository::{OutcomeView, Pending, Step};
use crate::db::store::{AnswerView, Query, Record, Table};
use crate::db::laws::page_rows;
use crate::db::pagination::{page_size_in_use, pages_needed, PageView};
use crate::db::tracking::middlelayer::{
    create_start, delete_start, grouped, keys_of, last_page_start, lemma_links_of_push,
    linking_from, next, paginate_start, read_start, update_start, CreateTracking, FinishedView,
    RequestView, ResponseView, StepView, TaskView, TrackingView, UpdateTracking,
};
use crate::db::tracking::tracking::Tracking as TrackingDB;
use crate::db::tracking::tracking_to_activity::{
    activities_of, links_of, links_of_any, links_of_others, serve_links,
    CreateTrackingToActivity, LinkQueryView, TrackingToActivity,
};
use crate::error::StoreError;

verus! {

/// The two tables behind the middle layer, in a well-behaved store.
pub ghost struct Store {
    /// The table `tracking`.
    pub trackings: Table<TrackingDB>,
    /// The table `tracking_to_activity`.
    pub links: Table<TrackingToActivity>,
}

impl Store {
    /// Both tables are well-formed, and every join row names a tracking key that
    /// the table `tracking` has handed out.
    pub open spec fn wf(self) -> bool {
        &&& self.trackings.wf()
        &&& self.links.wf()
        &&& forall|i: int|
            0 <= i < self.links.rows.len() ==> (#[trigger] self.links.rows[i]).tracking_id
                <= self.trackings.last_id
    }

    /// The activities of the tracking `id`, in the order of its join rows.
    pub open spec fn activities(self, id: i32) -> Seq<i32> {
        activities_of(links_of(self.links.rows, id))
    }

    /// What the store answers to `request` at time `now`, and the store afterwards.
    pub open spec fn serve(self, request: RequestView, now: i64) -> (Store, ResponseView) {
        match request {
            RequestView::Tracking(query) => {
                let (trackings, reply) = self.trackings.serve(query, now);
                (Store { trackings, ..self }, ResponseView::Tracking(reply))
            },
            RequestView::Link(query) => {
                let (links, reply) = serve_links(self.links, query, now);
                (Store { links, ..self }, ResponseView::Link(reply))
            },
        }
    }

    /// The whole exchange of an operation of the middle layer with this store
    /// at time `now`, from the task and request it starts with: the store
    /// afterwards and the result.
    pub open spec fn run(self, start: (TaskView, RequestView), now: i64) -> (Store, FinishedView)
        decreases effort(start.0),
    {
        let (store, response) = self.serve(start.1, now);
        match next(start.0, response) {
            Step::Done(finished) => (store, finished),
            Step::Ask(task, request) => if effort(task) < effort(start.0) {
                store.run((task, request), now)
            } else {
                (store, Err(StoreError::Failure))
            },
        }
    }

    /// The rest of an exchange from a step on.
    pub open spec fn proceed(self, step: StepView, now: i64) -> (Store, FinishedView) {
        match step {
            Step::Done(finished) => (self, finished),
            Step::Ask(task, request) => self.run((task, request), now),
        }
    }
}

/// An upper bound on the number of requests a task still makes.
pub open spec fn effort(task: TaskView) -> nat {
    match task {
        TaskView::Inserting { activities } => activities.len() + 1,
        TaskView::Writing { id, activities } => match activities {
            Some(list) => list.len() + 2,
            None => 2,
        },
        TaskView::Clearing { id, tracking, activities } => activities.len() + 1,
        TaskView::Linking { id, tracking, done } => if done < tracking.activities.len() {
            (tracking.activities.len() - done) as nat
        } else {
            0
        },
        TaskView::Reading { id } => 2,
        TaskView::Collecting { row } => 1,
        TaskView::Unlinking { id } => 2,
        TaskView::Removing => 1,
        TaskView::Listing(pending) => match pending {
            Pending::Counting { page, page_size } => 3,
            _ => 2,
        },
        TaskView::Grouping { page } => 1,
    }
}

/// Every step of an exchange leaves less to do, so an exchange never stops short.
pub proof fn lemma_steps_make_progress(task: TaskView, response: ResponseView)
    ensures
        next(task, response) matches Step::Ask(then, _) ==> effort(then) < effort(task),
{
}

/// Whether the keys of join rows are positive, at most `bound`, and strictly increasing.
spec fn ordered(rows: Seq<TrackingToActivity>, bound: int) -> bool {
    &&& forall|i: int| 0 <= i < rows.len() ==> 0 < (#[trigger] rows[i]).id <= bound
    &&& forall|i: int, j: int| 0 <= i < j < rows.len() ==> (#[trigger] rows[i]).id < (
    #[trigger] rows[j]).id
}

/// A choice among ordered join rows is ordered, keeps the upper bound of their
/// tracking ids, and holds only chosen rows.
proof fn lemma_filter(rows: Seq<TrackingToActivity>, chosen: spec_fn(TrackingToActivity) -> bool, bound: int, top: int)
    requires
        ordered(rows, bound),
        forall|i: int| 0 <= i < rows.len() ==> (#[trigger] rows[i]).tracking_id <= top,
    ensures
        ordered(rows.filter(chosen), bound),
        forall|i: int|
            0 <= i < rows.filter(chosen).len() ==> (#[trigger] rows.filter(chosen)[i]).tracking_id
                <= top,
        forall|i: int| 0 <= i < rows.filter(chosen).len() ==> chosen(#[trigger] rows.filter(chosen)[i]),
        rows.len() > 0 ==> forall|i: int|
            0 <= i < rows.filter(chosen).len() ==> (#[trigger] rows.filter(chosen)[i]).id
                <= rows.last().id,
    decreases rows.len(),
{
    reveal(Seq::filter);
    if rows.len() > 0 {
        let front = rows.drop_last();
        assert forall|i: int| 0 <= i < front.len() implies 0 < (#[trigger] front[i]).id <= bound by {
            assert(front[i] == rows[i]);
        }
        assert forall|i: int, j: int| 0 <= i < j < front.len() implies (#[trigger] front[i]).id < (
        #[trigger] front[j]).id by {
            assert(front[i] == rows[i]);
            assert(front[j] == rows[j]);
        }
        assert forall|i: int| 0 <= i < front.len() implies (#[trigger] front[i]).tracking_id
            <= top by {
            assert(front[i] == rows[i]);
        }
        lemma_filter(front, chosen, bound, top);
        let kept = front.filter(chosen);
        if front.len() > 0 {
            assert(front.last() == rows[rows.len() - 2]);
            assert(front.last().id < rows.last().id);
        }
        let all = rows.filter(chosen);
        assert forall|i: int| 0 <= i < all.len() implies (#[trigger] all[i]).id
            <= rows.last().id by {
            if i < kept.len() {
                assert(all[i] == kept[i]);
            }
        }
        assert forall|i: int, j: int| 0 <= i < j < all.len() implies (#[trigger] all[i]).id < (
        #[trigger] all[j]).id by {
            assert(all[i] == kept[i]);
            if j < kept.len() {
                assert(all[j] == kept[j]);
            } else {
                assert(all[j] == rows.last());
                assert(kept[i].id <= front.last().id);
            }
        }
        assert forall|i: int| 0 <= i < all.len() implies 0 < (#[trigger] all[i]).id <= bound
            && all[i].tracking_id <= top && chosen(all[i]) by {
            if i < kept.len() {
                assert(all[i] == kept[i]);
            } else {
                assert(all[i] == rows.last());
            }
        }
    }
}

/// Once the join rows of a tracking are removed, it has none, and every other
/// tracking has the join rows it had.
proof fn lemma_removed(rows: Seq<TrackingToActivity>, id: i32, other: i32)
    ensures
        links_of(links_of_others(rows, id), id) == Seq::<TrackingToActivity>::empty(),
        other != id ==> links_of(links_of_others(rows, id), other) == links_of(rows, other),
    decreases rows.len(),
{
    reveal(Seq::filter);
    if rows.len() > 0 {
        lemma_removed(rows.drop_last(), id, other);
        let front = links_of_others(rows.drop_last(), id);
        if rows.last().tracking_id != id {
            assert(links_of_others(rows, id) == front.push(rows.last()));
            lemma_links_of_push(front, rows.last(), id);
            lemma_links_of_push(front, rows.last(), other);
        }
    }
}

/// Inserting the join rows that are left, one after the other, gives the
/// tracking exactly the activities that were left, after those it had, and
/// leaves every other tracking and the table `tracking` as they were.
proof fn lemma_linking(store: Store, id: i32, tracking: TrackingView, done: nat, now: i64, other: i32)
    requires
        store.wf(),
        id <= store.trackings.last_id,
        done <= tracking.activities.len(),
        done == tracking.activities.len() || store.links.last_id + (tracking.activities.len()
            - done) <= i32::MAX,
    ensures
        ({
            let (after, finished) = store.proceed(linking_from(id, tracking, done), now);
            &&& finished == Ok::<OutcomeView<TrackingView>, StoreError>(OutcomeView::Row(tracking))
            &&& after.wf()
            &&& after.trackings == store.trackings
            &&& after.activities(id) == store.activities(id) + tracking.activities.subrange(
                done as int,
                tracking.activities.len() as int,
            )
            &&& other != id ==> after.activities(other) == store.activities(other)
        }),
    decreases tracking.activities.len() - done,
{
    let len = tracking.activities.len();
    if done < len {
        let item = CreateTrackingToActivity {
            tracking_id: id,
            activity_id: tracking.activities[done as int],
        };
        let task = TaskView::Linking { id, tracking, done };
        let request = RequestView::Link(LinkQueryView::Table(Query::Insert(item)));
        let (mid, response) = store.serve(request, now);
        let row = TrackingToActivity::stored(item, (store.links.last_id + 1) as i32, now);
        store.links.lemma_serve_keeps_wf(Query::Insert(item), now);
        assert(!store.links.rejects(item));
        assert(mid.links.rows == store.links.rows.push(row));
        assert(mid.wf()) by {
            assert forall|i: int| 0 <= i < mid.links.rows.len() implies (
            #[trigger] mid.links.rows[i]).tracking_id <= mid.trackings.last_id by {
                if i < store.links.rows.len() {
                    assert(mid.links.rows[i] == store.links.rows[i]);
                }
            }
        }
        assert(next(task, response) == linking_from(id, tracking, done + 1));
        lemma_steps_make_progress(task, response);
        assert(store.proceed(linking_from(id, tracking, done), now) == mid.proceed(
            linking_from(id, tracking, done + 1),
            now,
        ));
        lemma_linking(mid, id, tracking, done + 1, now, other);
        lemma_links_of_push(store.links.rows, row, id);
        lemma_links_of_push(store.links.rows, row, other);
        assert(activities_of(links_of(store.links.rows, id).push(row)) == activities_of(
            links_of(store.links.rows, id),
        ).push(row.activity_id));
        assert(seq![row.activity_id] + tracking.activities.subrange(done as int + 1, len as int)
            == tracking.activities.subrange(done as int, len as int));
        assert(mid.activities(id) == store.activities(id) + seq![row.activity_id]);
        let (after, finished) = mid.proceed(linking_from(id, tracking, done + 1), now);
        assert(after.activities(id) == store.activities(id) + tracking.activities.subrange(
            done as int,
            len as int,
        ));
    } else {
        assert(tracking.activities.subrange(done as int, len as int) == Seq::<i32>::empty());
        assert(store.activities(id) + Seq::<i32>::empty() == store.activities(id));
    }
}

/// A tracking whose key no join row names has no activities.
proof fn lemma_no_links(rows: Seq<TrackingToActivity>, id: i32)
    requires
        forall|i: int| 0 <= i < rows.len() ==> (#[trigger] rows[i]).tracking_id != id,
    ensures
        links_of(rows, id) == Seq::<TrackingToActivity>::empty(),
    decreases rows.len(),
{
    reveal(Seq::filter);
    if rows.len() > 0 {
        let front = rows.drop_last();
        assert forall|i: int| 0 <= i < front.len() implies (#[trigger] front[i]).tracking_id
            != id by {
            assert(front[i] == rows[i]);
        }
        lemma_no_links(front, id);
        assert(rows.last() == rows[rows.len() - 1]);
    }
}

/// Removing the join rows of a tracking leaves a well-formed store.
proof fn lemma_clearing_keeps_wf(store: Store, id: i32, now: i64)
    requires
        store.wf(),
    ensures
        store.serve(RequestView::Link(LinkQueryView::RemoveOf(id)), now).0.wf(),
        store.serve(RequestView::Link(LinkQueryView::RemoveOf(id)), now).0.trackings
            == store.trackings,
        store.serve(RequestView::Link(LinkQueryView::RemoveOf(id)), now).0.links.last_id
            == store.links.last_id,
        store.serve(RequestView::Link(LinkQueryView::RemoveOf(id)), now).1 is Link,
        store.serve(RequestView::Link(LinkQueryView::RemoveOf(id)), now).1->Link_0 matches Ok(
            AnswerView::Removed(_),
        ),
{
    let rows = store.links.rows;
    assert(ordered(rows, store.links.last_id)) by {
        assert forall|i: int| 0 <= i < rows.len() implies 0 < (#[trigger] rows[i]).id
            <= store.links.last_id by {
            assert(rows[i].key() == rows[i].id);
        }
        assert forall|i: int, j: int| 0 <= i < j < rows.len() implies (#[trigger] rows[i]).id < (
        #[trigger] rows[j]).id by {
            assert(rows[i].key() < rows[j].key());
        }
    }
    lemma_filter(
        rows,
        |row: TrackingToActivity| row.tracking_id != id,
        store.links.last_id,
        store.trackings.last_id,
    );
    let kept = links_of_others(rows, id);
    let after = store.serve(RequestView::Link(LinkQueryView::RemoveOf(id)), now).0;
    assert(after.links.rows == kept);
    assert forall|i: int| 0 <= i < kept.len() implies 0 < (#[trigger] kept[i]).key()
        <= store.links.last_id by {
        assert(kept[i].key() == kept[i].id);
    }
    assert forall|i: int, j: int| 0 <= i < j < kept.len() implies (#[trigger] kept[i]).key() < (
    #[trigger] kept[j]).key() by {
        assert(kept[i].id < kept[j].id);
    }
}

/// Reading a tracking returns its row with the activities of its join rows,
/// and changes nothing; it fails with "not found" where no row has the key.
pub proof fn law_read(store: Store, id: i32, now: i64)
    ensures
        ({
            let (after, found) = store.run(read_start(id), now);
            &&& after == store
            &&& found is Ok <==> store.trackings.has(id as int)
            &&& found is Err ==> found == Err::<OutcomeView<TrackingView>, StoreError>(
                StoreError::NotFound,
            )
            &&& found is Ok ==> found == Ok::<OutcomeView<TrackingView>, StoreError>(
                OutcomeView::Row(
                    TrackingView {
                        row: store.trackings.row(id as int),
                        activities: store.activities(id),
                    },
                ),
            )
        }),
{
    let (task, request) = read_start(id);
    let (first, response) = store.serve(request, now);
    assert(first == store);
    if store.trackings.has(id as int) {
        let row = store.trackings.row(id as int);
        let step = next(task, response);
        lemma_steps_make_progress(task, response);
        assert(step == Step::<TaskView, RequestView, FinishedView>::Ask(
            TaskView::Collecting { row },
            RequestView::Link(LinkQueryView::ListOf(id)),
        ));
        let (second, listed) = store.serve(RequestView::Link(LinkQueryView::ListOf(id)), now);
        assert(second == store);
        assert(store.run((task, request), now) == store.run(
            (TaskView::Collecting { row }, RequestView::Link(LinkQueryView::ListOf(id))),
            now,
        ));
    }
}

/// Reading a tracking twice with no write in between returns the same.
pub proof fn law_read_twice(store: Store, id: i32, now: i64, later: i64)
    ensures
        ({
            let (after, once) = store.run(read_start(id), now);
            let (last, twice) = after.run(read_start(id), later);
            after == store && last == store && once == twice
        }),
{
    law_read(store, id, now);
    law_read(store, id, later);
}

/// Creating a tracking succeeds exactly where both tables have the keys left
/// that it needs. It returns the row as stored, which holds every field of the
/// payload, with the activities of the payload in their order; reading the
/// returned key afterwards returns the same; and no other tracking changes
/// its activities.
pub proof fn law_create_then_read(store: Store, tracking: CreateTracking, now: i64, later: i64)
    requires
        store.wf(),
    ensures
        ({
            let wanted = tracking.activities@;
            let (after, created) = store.run(create_start(tracking), now);
            &&& created is Ok ==> after.wf()
            &&& created is Ok <==> store.trackings.last_id < i32::MAX && (wanted.len() == 0
                || store.links.last_id + wanted.len() <= i32::MAX)
            &&& created matches Ok(outcome) ==> {
                &&& outcome matches OutcomeView::Row(made)
                &&& made.row.carries(tracking.payload())
                &&& made.activities == wanted
                &&& !store.trackings.has(made.row.id as int)
                &&& after.run(read_start(made.row.id), later) == (after, created)
                &&& forall|other: i32|
                    other != made.row.id ==> #[trigger] after.activities(other)
                        == store.activities(other)
            }
        }),
{
    let wanted = tracking.activities@;
    let payload = tracking.payload();
    let (task, request) = create_start(tracking);
    let (mid, response) = store.serve(request, now);
    crate::db::laws::law_create_then_read::<TrackingDB>(store.trackings, payload, now, later);
    if store.trackings.last_id < i32::MAX {
        let id = (store.trackings.last_id + 1) as i32;
        let row = TrackingDB::stored(payload, id, now);
        let made = TrackingView { row, activities: wanted };
        assert(!store.trackings.rejects(payload));
        assert(mid.trackings.last_id == id);
        assert(mid.wf());
        assert(next(task, response) == linking_from(id, made, 0));
        lemma_steps_make_progress(task, response);
        assert(store.run((task, request), now) == mid.proceed(linking_from(id, made, 0), now));
        assert forall|i: int| 0 <= i < mid.links.rows.len() implies (
        #[trigger] mid.links.rows[i]).tracking_id != id by {
            assert(store.links.rows[i].tracking_id <= store.trackings.last_id);
        }
        lemma_no_links(mid.links.rows, id);
        if wanted.len() == 0 || store.links.last_id + wanted.len() <= i32::MAX {
            lemma_linking(mid, id, made, 0, now, id);
            let (after, created) = mid.proceed(linking_from(id, made, 0), now);
            assert(wanted.subrange(0, wanted.len() as int) == wanted);
            assert(Seq::<i32>::empty() + wanted == wanted);
            assert(after.activities(id) == wanted);
            law_read(after, id, later);
            assert forall|other: i32| other != id implies #[trigger] after.activities(other)
                == store.activities(other) by {
                lemma_linking(mid, id, made, 0, now, other);
            }
        } else {
            lemma_linking_fails(mid, id, made, 0, now);
        }
    }
}

/// Inserting join rows fails where the join table runs out of keys on the way.
proof fn lemma_linking_fails(store: Store, id: i32, tracking: TrackingView, done: nat, now: i64)
    requires
        0 <= store.links.last_id,
        done < tracking.activities.len(),
        store.links.last_id + (tracking.activities.len() - done) > i32::MAX,
    ensures
        store.proceed(linking_from(id, tracking, done), now).1 is Err,
    decreases tracking.activities.len() - done,
{
    let item = CreateTrackingToActivity {
        tracking_id: id,
        activity_id: tracking.activities[done as int],
    };
    let task = TaskView::Linking { id, tracking, done };
    let request = RequestView::Link(LinkQueryView::Table(Query::Insert(item)));
    let (mid, response) = store.serve(request, now);
    assert(!store.links.rejects(item));
    if store.links.last_id < i32::MAX {
        assert(next(task, response) == linking_from(id, tracking, done + 1));
        lemma_steps_make_progress(task, response);
        assert(store.proceed(linking_from(id, tracking, done), now) == mid.proceed(
            linking_from(id, tracking, done + 1),
            now,
        ));
        lemma_linking_fails(mid, id, tracking, done + 1, now);
    }
}

/// Replacing the activities of a tracking: an update whose patch holds
/// activities returns the row as it stands with exactly those activities, in
/// their order, whatever the tracking had before; reading the tracking
/// afterwards returns the same; and no other tracking changes its activities.
/// The row is patched as by an update of the table, or left alone where the
/// patch holds no field of the row.
pub proof fn law_update_replaces_activities(
    store: Store,
    id: i32,
    tracking: UpdateTracking,
    now: i64,
    later: i64,
)
    requires
        store.wf(),
        tracking.activities is Some,
    ensures
        ({
            let wanted = tracking.activities->Some_0@;
            let (after, updated) = store.run(update_start(id, tracking), now);
            &&& updated is Ok ==> after.wf()
            &&& updated is Ok <==> store.trackings.has(id as int) && (wanted.len() == 0
                || store.links.last_id + wanted.len() <= i32::MAX)
            &&& updated matches Ok(outcome) ==> {
                &&& outcome matches OutcomeView::Row(written)
                &&& written.activities == wanted
                &&& written.row == if tracking.patch().is_empty() {
                    store.trackings.row(id as int)
                } else {
                    store.trackings.row(id as int).patched(tracking.patch(), now)
                }
                &&& after.run(read_start(id), later) == (after, updated)
                &&& forall|other: i32|
                    other != id ==> #[trigger] after.activities(other) == store.activities(other)
            }
        }),
{
    let wanted = tracking.activities->Some_0@;
    let patch = tracking.patch();
    let (task, request) = update_start(id, tracking);
    let (first, response) = store.serve(request, now);
    if store.trackings.has(id as int) {
        let at = store.trackings.position(id as int);
        let row = if patch.is_empty() {
            store.trackings.row(id as int)
        } else {
            store.trackings.row(id as int).patched(patch, now)
        };
        if patch.is_empty() {
            crate::db::laws::law_read_twice::<TrackingDB>(store.trackings, id, now, later);
            assert(first == store);
        } else {
            crate::db::laws::law_update_then_read::<TrackingDB>(
                store.trackings,
                id,
                patch,
                now,
                later,
            );
            store.trackings.lemma_serve_keeps_wf(Query::Patch(id, patch), now);
        }
        assert(first.trackings.last_id == store.trackings.last_id);
        assert(first.links == store.links);
        assert(first.wf());
        assert(store.trackings.rows[at].key() <= store.trackings.last_id);
        let blank = TrackingView { row, activities: Seq::empty() };
        let clearing = TaskView::Clearing { id, tracking: blank, activities: wanted };
        let removal = RequestView::Link(LinkQueryView::RemoveOf(id));
        assert(next(task, response) == Step::<TaskView, RequestView, FinishedView>::Ask(
            clearing,
            removal,
        ));
        lemma_steps_make_progress(task, response);
        assert(store.run((task, request), now) == first.run((clearing, removal), now));
        let (second, cleared) = first.serve(removal, now);
        lemma_clearing_keeps_wf(first, id, now);
        let written = TrackingView { row, activities: wanted };
        assert(next(clearing, cleared) == linking_from(id, written, 0));
        lemma_steps_make_progress(clearing, cleared);
        assert(first.run((clearing, removal), now) == second.proceed(
            linking_from(id, written, 0),
            now,
        ));
        lemma_removed(store.links.rows, id, id);
        assert(second.activities(id) == Seq::<i32>::empty());
        if wanted.len() == 0 || store.links.last_id + wanted.len() <= i32::MAX {
            lemma_linking(second, id, written, 0, now, id);
            let (after, updated) = second.proceed(linking_from(id, written, 0), now);
            assert(wanted.subrange(0, wanted.len() as int) == wanted);
            assert(Seq::<i32>::empty() + wanted == wanted);
            assert(after.activities(id) == wanted);
            assert(after.trackings == first.trackings);
            law_read(after, id, later);
            assert(after.trackings.has(id as int) && after.trackings.row(id as int) == row);
            assert forall|other: i32| other != id implies #[trigger] after.activities(other)
                == store.activities(other) by {
                lemma_linking(second, id, written, 0, now, other);
                lemma_removed(store.links.rows, id, other);
            }
        } else {
            lemma_linking_fails(second, id, written, 0, now);
        }
    }
}

/// An update whose patch holds no activities leaves every join row alone: it
/// returns the row with the fields of the patch written into it, as an update
/// of the table does, with the activities the tracking had and has; reading
/// the tracking afterwards returns the same. Where the patch holds no field at
/// all, nothing in the store changes.
pub proof fn law_update_keeps_activities(
    store: Store,
    id: i32,
    tracking: UpdateTracking,
    now: i64,
    later: i64,
)
    requires
        store.wf(),
        tracking.activities is None,
    ensures
        ({
            let (after, updated) = store.run(update_start(id, tracking), now);
            let row = if tracking.patch().is_empty() {
                store.trackings.row(id as int)
            } else {
                store.trackings.row(id as int).patched(tracking.patch(), now)
            };
            &&& after.wf()
            &&& after.links == store.links
            &&& tracking.patch().is_empty() ==> after == store
            &&& updated is Ok <==> store.trackings.has(id as int)
            &&& updated is Err ==> after == store && updated == Err::<
                OutcomeView<TrackingView>,
                StoreError,
            >(StoreError::NotFound)
            &&& updated is Ok ==> {
                &&& updated == Ok::<OutcomeView<TrackingView>, StoreError>(
                    OutcomeView::Row(TrackingView { row, activities: store.activities(id) }),
                )
                &&& after.run(read_start(id), later) == (after, updated)
            }
        }),
{
    let patch = tracking.patch();
    let (task, request) = update_start(id, tracking);
    let (first, response) = store.serve(request, now);
    if patch.is_empty() {
        crate::db::laws::law_read_twice::<TrackingDB>(store.trackings, id, now, later);
        assert(first == store);
    } else {
        crate::db::laws::law_update_then_read::<TrackingDB>(store.trackings, id, patch, now, later);
    }
    if store.trackings.has(id as int) {
        let row = if patch.is_empty() {
            store.trackings.row(id as int)
        } else {
            store.trackings.row(id as int).patched(patch, now)
        };
        let collecting = TaskView::Collecting { row };
        let listing = RequestView::Link(LinkQueryView::ListOf(id));
        assert(next(task, response) == Step::<TaskView, RequestView, FinishedView>::Ask(
            collecting,
            listing,
        ));
        lemma_steps_make_progress(task, response);
        assert(store.run((task, request), now) == first.run((collecting, listing), now));
        let (second, listed) = first.serve(listing, now);
        assert(second == first);
    }
    law_read(first, id, later);
}

/// Deleting a tracking removes its join rows and then its row: afterwards the
/// tracking is gone and has no activities, and every other tracking is as it
/// was. It returns 1 where the row was there and 0 where it was not.
pub proof fn law_delete(store: Store, id: i32, now: i64)
    requires
        store.wf(),
    ensures
        ({
            let (after, deleted) = store.run(delete_start(id), now);
            &&& after.wf()
            &&& deleted == Ok::<OutcomeView<TrackingView>, StoreError>(
                OutcomeView::Removed(
                    if store.trackings.has(id as int) {
                        1
                    } else {
                        0
                    },
                ),
            )
            &&& !after.trackings.has(id as int)
            &&& after.activities(id) == Seq::<i32>::empty()
            &&& forall|other: i32|
                other != id ==> #[trigger] after.activities(other) == store.activities(other)
                    && after.trackings.has(other as int) == store.trackings.has(other as int)
        }),
{
    let (task, request) = delete_start(id);
    let (first, response) = store.serve(request, now);
    lemma_clearing_keeps_wf(store, id, now);
    let removal = RequestView::Tracking(Query::Remove(id));
    assert(next(task, response) == Step::<TaskView, RequestView, FinishedView>::Ask(
        TaskView::Removing,
        removal,
    ));
    lemma_steps_make_progress(task, response);
    assert(store.run((task, request), now) == first.run((TaskView::Removing, removal), now));
    crate::db::laws::law_delete::<TrackingDB>(first.trackings, id, now);
    let (after, removed) = first.serve(removal, now);
    lemma_removed(store.links.rows, id, id);
    assert(after.links == first.links);
    assert forall|other: i32| other != id implies #[trigger] after.activities(other)
        == store.activities(other) && after.trackings.has(other as int) == store.trackings.has(
        other as int,
    ) by {
        lemma_removed(store.links.rows, id, other);
    }
}

/// Among the join rows of several trackings, each of them has the join rows it has in all.
proof fn lemma_links_of_any(rows: Seq<TrackingToActivity>, ids: Seq<i32>, id: i32)
    requires
        ids.contains(id),
    ensures
        links_of(links_of_any(rows, ids), id) == links_of(rows, id),
    decreases rows.len(),
{
    reveal(Seq::filter);
    if rows.len() > 0 {
        lemma_links_of_any(rows.drop_last(), ids, id);
        let front = links_of_any(rows.drop_last(), ids);
        if ids.contains(rows.last().tracking_id) {
            assert(links_of_any(rows, ids) == front.push(rows.last()));
            lemma_links_of_push(front, rows.last(), id);
        }
    }
}

/// Listing a page of trackings changes nothing and returns the rows of that
/// page, each with its own activities, and the figures of the whole table.
pub proof fn law_paginate(store: Store, page: i64, page_size: i64, now: i64)
    requires
        store.wf(),
        0 <= page,
    ensures
        ({
            let rows = page_rows(store.trackings, page as int, page_size as int);
            let (after, listed) = store.run(paginate_start(page, page_size), now);
            &&& after == store
            &&& listed matches Ok(OutcomeView::Page(result))
            &&& result.items.len() == rows.len()
            &&& result.items.len() <= page_size_in_use(page_size as int)
            &&& forall|k: int|
                0 <= k < rows.len() ==> (#[trigger] result.items[k]) == (TrackingView {
                    row: rows[k],
                    activities: store.activities(rows[k].id),
                })
            &&& result.total_items == store.trackings.rows.len()
            &&& result.page == page
            &&& result.page_size == page_size_in_use(page_size as int)
            &&& result.num_pages == pages_needed(
                store.trackings.rows.len() as int,
                page_size as int,
            )
        }),
{
    let size = page_size_in_use(page_size as int) as i64;
    let rows = page_rows(store.trackings, page as int, page_size as int);
    store.trackings.lemma_size();
    crate::db::laws::law_paginate::<TrackingDB>(store.trackings, page, page_size, now);
    let (task, request) = paginate_start(page, page_size);
    let (first, counted) = store.serve(request, now);
    assert(first == store);
    let step = next(task, counted);
    lemma_steps_make_progress(task, counted);
    assert(step is Ask);
    let fetching = step->Ask_0;
    let fetch = step->Ask_1;
    assert(store.run((task, request), now) == store.run((fetching, fetch), now));
    let (second, fetched) = store.serve(fetch, now);
    assert(second == store);
    let page_of_rows = PageView {
        items: rows,
        total_items: store.trackings.rows.len() as int,
        page: page as int,
        page_size: size as int,
        num_pages: pages_needed(store.trackings.rows.len() as int, size as int),
    };
    let grouping = TaskView::Grouping { page: page_of_rows };
    let listing = RequestView::Link(LinkQueryView::ListOfAll(keys_of(rows)));
    assert(next(fetching, fetched) == Step::<TaskView, RequestView, FinishedView>::Ask(
        grouping,
        listing,
    ));
    lemma_steps_make_progress(fetching, fetched);
    assert(store.run((fetching, fetch), now) == store.run((grouping, listing), now));
    let (third, listed) = store.serve(listing, now);
    assert(third == store);
    let links = links_of_any(store.links.rows, keys_of(rows));
    assert forall|k: int| 0 <= k < rows.len() implies (#[trigger] grouped(rows, links)[k])
        == (TrackingView { row: rows[k], activities: store.activities(rows[k].id) }) by {
        assert(keys_of(rows)[k] == rows[k].id);
        lemma_links_of_any(store.links.rows, keys_of(rows), rows[k].id);
    }
}

/// Finding the last page of the trackings changes nothing and returns the
/// index that the table `tracking` alone gives.
pub proof fn law_last_page(store: Store, page_size: i64, now: i64)
    requires
        store.wf(),
    ensures
        store.run(last_page_start(page_size), now) == (
            store,
            Ok::<OutcomeView<TrackingView>, StoreError>(
                OutcomeView::LastPage(
                    crate::db::pagination::last_page_index(
                        store.trackings.rows.len() as int,
                        page_size as int,
                    ),
                ),
            ),
        ),
{
    let size = page_size_in_use(page_size as int);
    store.trackings.lemma_size();
    assert(size == page_size_in_use(size));
}

} // verus!
