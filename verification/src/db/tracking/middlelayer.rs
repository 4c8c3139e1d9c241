//! Time trackings as the rest of the backend sees them: a row of `tracking`
//! together with the ids of its activities, which live in the join table.

use vstd::prelude::*;
use crate::db::pagination::{PageView, PaginationResult};
use crate::db::repository;
use crate::db::repository::{Operation, Outcome, OutcomeView, Pending, Step};
use crate::db::store::{reply_view, Answer, AnswerView, Query, Reply, ReplyView};
use crate::db::tracking::tracking::{
    CreateTracking as CreateTrackingDB, Tracking as TrackingDB, UpdateTracking as UpdateTrackingDB,
};
use crate::db::tracking::tracking_to_activity::{
    activities_of, links_of, CreateTrackingToActivity as CreateTrackingToActivityDB, LinkQuery,
    LinkQueryView, TrackingToActivity as TrackingToActivityDB,
};
use crate::db::values::{keys_eq, same_text, text_eq, Hours, TimeOfDay};
use crate::error::StoreError;

verus! {

/// A time tracking with the ids of its activities.
#[derive(Clone, Debug, PartialEq)]
pub struct Tracking {
    pub id: i32,
    pub client_id: i32,
    pub user_id: i32,
    pub project_id: i32,
    /// In days since 0001-01-01, which is day 1.
    pub date: i32,
    pub begin: TimeOfDay,
    pub end: TimeOfDay,
    pub pause: Option<TimeOfDay>,
    pub performed: Hours,
    pub billed: Hours,
    pub description: Option<String>,
    /// In microseconds since the Unix epoch.
    pub created_at: i64,
    /// In microseconds since the Unix epoch.
    pub updated_at: i64,
    /// The ids of the activities, in the order of their join rows.
    pub activities: Vec<i32>,
}

/// The payload from which a time tracking is created.
#[derive(Clone, Debug, PartialEq)]
pub struct CreateTracking {
    pub client_id: i32,
    pub user_id: i32,
    pub project_id: i32,
    pub date: i32,
    pub begin: TimeOfDay,
    pub end: TimeOfDay,
    pub pause: Option<TimeOfDay>,
    pub performed: Hours,
    pub billed: Hours,
    pub description: Option<String>,
    /// The ids of the activities; a join row is made for each, in this order.
    pub activities: Vec<i32>,
}

/// A partial update of a time tracking: an absent field is left alone. The
/// times of creation and of the last update are the store's to write and have
/// no place in a patch.
#[derive(Clone, Debug, Default, PartialEq)]
pub struct UpdateTracking {
    pub client_id: Option<i32>,
    pub user_id: Option<i32>,
    pub project_id: Option<i32>,
    pub date: Option<i32>,
    pub begin: Option<TimeOfDay>,
    pub end: Option<TimeOfDay>,
    /// `Some(None)` clears the pause.
    pub pause: Option<Option<TimeOfDay>>,
    pub performed: Option<Hours>,
    pub billed: Option<Hours>,
    /// `Some(None)` clears the description.
    pub description: Option<Option<String>>,
    /// Where present, these activities replace all the tracking had.
    pub activities: Option<Vec<i32>>,
}

/// A time tracking as a row and a sequence of activity ids.
pub ghost struct TrackingView {
    pub row: TrackingDB,
    pub activities: Seq<i32>,
}

impl View for Tracking {
    type V = TrackingView;

    open spec fn view(&self) -> TrackingView {
        TrackingView {
            row: TrackingDB {
                id: self.id,
                client_id: self.client_id,
                user_id: self.user_id,
                project_id: self.project_id,
                date: self.date,
                begin: self.begin,
                end: self.end,
                pause: self.pause,
                performed: self.performed,
                billed: self.billed,
                description: self.description,
                created_at: self.created_at,
                updated_at: self.updated_at,
            },
            activities: self.activities@,
        }
    }
}

impl Tracking {
    /// The time tracking made of a row and the ids of its activities.
    pub fn new(tracking_db: TrackingDB, activities: Vec<i32>) -> (tracking: Tracking)
        ensures
            tracking@ == (TrackingView { row: tracking_db, activities: activities@ }),
    {
        Tracking {
            id: tracking_db.id,
            client_id: tracking_db.client_id,
            user_id: tracking_db.user_id,
            project_id: tracking_db.project_id,
            date: tracking_db.date,
            begin: tracking_db.begin,
            end: tracking_db.end,
            pause: tracking_db.pause,
            performed: tracking_db.performed,
            billed: tracking_db.billed,
            description: tracking_db.description,
            created_at: tracking_db.created_at,
            updated_at: tracking_db.updated_at,
            activities,
        }
    }

    /// The time tracking made of a row alone, with no activity.
    pub fn from_tracking(tracking_db: TrackingDB) -> (tracking: Tracking)
        ensures
            tracking@ == (TrackingView { row: tracking_db, activities: Seq::empty() }),
    {
        Tracking::new(tracking_db, Vec::new())
    }
}

impl Tracking {
    /// Whether the tracking reads as the payload does, field by field, with the
    /// same activities in the same order.
    pub open spec fn reads_as(&self, item: &CreateTracking) -> bool {
        &&& self.client_id == item.client_id
        &&& self.user_id == item.user_id
        &&& self.project_id == item.project_id
        &&& self.date == item.date
        &&& self.begin == item.begin
        &&& self.end == item.end
        &&& self.pause == item.pause
        &&& self.performed == item.performed
        &&& self.billed == item.billed
        &&& same_text(self.description, item.description)
        &&& self.activities@ == item.activities@
    }

    /// Whether the tracking reads as the payload does, field by field.
    pub fn matches(&self, item: &CreateTracking) -> (same: bool)
        ensures
            same == self.reads_as(item),
    {
        self.client_id == item.client_id && self.user_id == item.user_id && self.project_id
            == item.project_id && self.date == item.date && self.begin == item.begin && self.end
            == item.end && self.pause == item.pause && self.performed == item.performed
            && self.billed == item.billed && text_eq(&self.description, &item.description)
            && keys_eq(&self.activities, &item.activities)
    }
}

impl CreateTracking {
    /// The payload for the table `tracking`.
    pub open spec fn payload(&self) -> CreateTrackingDB {
        CreateTrackingDB {
            client_id: self.client_id,
            user_id: self.user_id,
            project_id: self.project_id,
            date: self.date,
            begin: self.begin,
            end: self.end,
            pause: self.pause,
            performed: self.performed,
            billed: self.billed,
            description: self.description,
        }
    }

    /// Parts the payload for the table `tracking` from the ids of the activities.
    pub fn split(self) -> (parts: (CreateTrackingDB, Vec<i32>))
        ensures
            parts.0 == self.payload(),
            parts.1 == self.activities,
    {
        (
            CreateTrackingDB {
                client_id: self.client_id,
                user_id: self.user_id,
                project_id: self.project_id,
                date: self.date,
                begin: self.begin,
                end: self.end,
                pause: self.pause,
                performed: self.performed,
                billed: self.billed,
                description: self.description,
            },
            self.activities,
        )
    }
}

impl UpdateTracking {
    /// The patch for the table `tracking`.
    pub open spec fn patch(&self) -> UpdateTrackingDB {
        UpdateTrackingDB {
            client_id: self.client_id,
            user_id: self.user_id,
            project_id: self.project_id,
            date: self.date,
            begin: self.begin,
            end: self.end,
            pause: self.pause,
            performed: self.performed,
            billed: self.billed,
            description: self.description,
        }
    }

    /// Parts the patch for the table `tracking` from the new activities.
    pub fn split(self) -> (parts: (UpdateTrackingDB, Option<Vec<i32>>))
        ensures
            parts.0 == self.patch(),
            parts.1 == self.activities,
    {
        (
            UpdateTrackingDB {
                client_id: self.client_id,
                user_id: self.user_id,
                project_id: self.project_id,
                date: self.date,
                begin: self.begin,
                end: self.end,
                pause: self.pause,
                performed: self.performed,
                billed: self.billed,
                description: self.description,
            },
            self.activities,
        )
    }
}

/// A request of the middle layer: on the table `tracking` or on the join table.
#[derive(Clone, Debug, PartialEq)]
pub enum Request {
    Tracking(Query<CreateTrackingDB, UpdateTrackingDB>),
    Link(LinkQuery),
}

/// [`Request`] over mathematical values.
pub ghost enum RequestView {
    Tracking(Query<CreateTrackingDB, UpdateTrackingDB>),
    Link(LinkQueryView),
}

impl View for Request {
    type V = RequestView;

    open spec fn view(&self) -> RequestView {
        match self {
            Request::Tracking(query) => RequestView::Tracking(*query),
            Request::Link(query) => RequestView::Link(query@),
        }
    }
}

/// The store's reply to a [`Request`], from the table that was asked.
#[derive(Debug, PartialEq)]
pub enum Response {
    Tracking(Reply<TrackingDB>),
    Link(Reply<TrackingToActivityDB>),
}

/// [`Response`] over mathematical values.
pub ghost enum ResponseView {
    Tracking(ReplyView<TrackingDB>),
    Link(ReplyView<TrackingToActivityDB>),
}

impl View for Response {
    type V = ResponseView;

    open spec fn view(&self) -> ResponseView {
        match self {
            Response::Tracking(reply) => ResponseView::Tracking(reply_view(*reply)),
            Response::Link(reply) => ResponseView::Link(reply_view(*reply)),
        }
    }
}

/// Where an operation of the middle layer stands while the store works on its request.
#[allow(inconsistent_fields)]
#[derive(Clone, Debug, PartialEq)]
pub enum Task {
    /// Create: the row is being inserted; a join row for each of `activities` follows.
    Inserting { activities: Vec<i32> },
    /// Update: the row is being patched, or read where the patch is empty. Where
    /// `activities` is present they then replace the join rows of the tracking
    /// `id`; where it is absent the join rows are listed as they are.
    Writing { id: i32, activities: Option<Vec<i32>> },
    /// Update: the join rows of the tracking `id` are being removed; a join row
    /// for each of `activities` follows.
    Clearing { id: i32, tracking: Tracking, activities: Vec<i32> },
    /// Create and update: the join row for the activity at index `done` of
    /// `tracking.activities` is being inserted for the tracking `id`; those
    /// before it are in.
    Linking { id: i32, tracking: Tracking, done: usize },
    /// Read: the row of the tracking `id` is being read.
    Reading { id: i32 },
    /// Read, and update without activities: the join rows of the tracking are
    /// being listed.
    Collecting { row: TrackingDB },
    /// Delete: the join rows of the tracking `id` are being removed; the row follows.
    Unlinking { id: i32 },
    /// Delete: the row is being removed.
    Removing,
    /// Paginate and last page: the table `tracking` is being listed or counted.
    Listing(Pending),
    /// Paginate: the join rows of all trackings of `page` are being listed.
    Grouping { page: PaginationResult<TrackingDB> },
}

/// [`Task`] over mathematical values.
#[allow(inconsistent_fields)]
pub ghost enum TaskView {
    Inserting { activities: Seq<i32> },
    Writing { id: i32, activities: Option<Seq<i32>> },
    Clearing { id: i32, tracking: TrackingView, activities: Seq<i32> },
    Linking { id: i32, tracking: TrackingView, done: nat },
    Reading { id: i32 },
    Collecting { row: TrackingDB },
    Unlinking { id: i32 },
    Removing,
    Listing(Pending),
    Grouping { page: PageView<TrackingDB> },
}

impl View for Task {
    type V = TaskView;

    open spec fn view(&self) -> TaskView {
        match self {
            Task::Inserting { activities } => TaskView::Inserting { activities: activities@ },
            Task::Writing { id, activities } => TaskView::Writing {
                id: *id,
                activities: match activities {
                    Some(list) => Some(list@),
                    None => None,
                },
            },
            Task::Clearing { id, tracking, activities } => TaskView::Clearing {
                id: *id,
                tracking: tracking@,
                activities: activities@,
            },
            Task::Linking { id, tracking, done } => TaskView::Linking {
                id: *id,
                tracking: tracking@,
                done: *done as nat,
            },
            Task::Reading { id } => TaskView::Reading { id: *id },
            Task::Collecting { row } => TaskView::Collecting { row: *row },
            Task::Unlinking { id } => TaskView::Unlinking { id: *id },
            Task::Removing => TaskView::Removing,
            Task::Listing(pending) => TaskView::Listing(*pending),
            Task::Grouping { page } => TaskView::Grouping { page: page@ },
        }
    }
}

/// The result of an operation of the middle layer.
pub type Finished = Result<Outcome<Tracking>, StoreError>;

/// The mathematical reading of a [`Finished`].
pub type FinishedView = Result<OutcomeView<TrackingView>, StoreError>;

/// A step of the middle layer over mathematical values.
pub type StepView = Step<TaskView, RequestView, FinishedView>;

/// The time trackings of a list as rows with activity ids.
pub open spec fn tracking_views(trackings: Seq<Tracking>) -> Seq<TrackingView> {
    trackings.map_values(|tracking: Tracking| tracking@)
}

/// The reading of an outcome of the middle layer.
pub open spec fn outcome_view(outcome: Outcome<Tracking>) -> OutcomeView<TrackingView> {
    match outcome {
        Outcome::Row(tracking) => OutcomeView::Row(tracking@),
        Outcome::Rows(trackings) => OutcomeView::Rows(tracking_views(trackings@)),
        Outcome::Removed(n) => OutcomeView::Removed(n as nat),
        Outcome::Page(page) => OutcomeView::Page(
            PageView {
                items: tracking_views(page.items@),
                total_items: page.total_items as int,
                page: page.page as int,
                page_size: page.page_size as int,
                num_pages: page.num_pages as int,
            },
        ),
        Outcome::LastPage(index) => OutcomeView::LastPage(index as int),
    }
}

/// The reading of a step of the middle layer.
pub open spec fn step_view(step: Step<Task, Request, Finished>) -> StepView {
    match step {
        Step::Ask(task, request) => Step::Ask(task@, request@),
        Step::Done(Ok(outcome)) => Step::Done(Ok(outcome_view(outcome))),
        Step::Done(Err(e)) => Step::Done(Err(e)),
    }
}

/// The primary keys of rows, in the order of the rows.
pub open spec fn keys_of(rows: Seq<TrackingDB>) -> Seq<i32> {
    rows.map_values(|row: TrackingDB| row.id)
}

/// Each row with the activities that `links` gives it, in the order of `links`.
pub open spec fn grouped(rows: Seq<TrackingDB>, links: Seq<TrackingToActivityDB>) -> Seq<TrackingView> {
    rows.map_values(
        |row: TrackingDB| TrackingView { row, activities: activities_of(links_of(links, row.id)) },
    )
}

/// The step that inserts the join row for the activity at index `done`, or
/// ends the operation with `tracking` where no activity is left.
pub open spec fn linking_from(id: i32, tracking: TrackingView, done: nat) -> StepView {
    if done < tracking.activities.len() {
        Step::Ask(
            TaskView::Linking { id, tracking, done },
            RequestView::Link(
                LinkQueryView::Table(
                    Query::Insert(
                        CreateTrackingToActivityDB {
                            tracking_id: id,
                            activity_id: tracking.activities[done as int],
                        },
                    ),
                ),
            ),
        )
    } else {
        Step::Done(Ok(OutcomeView::Row(tracking)))
    }
}

/// What follows when the store answers `response` to an operation standing at `task`.
///
/// A failure of the store ends the operation with that failure; rows written
/// before it stay. An answer from the other table or of the wrong kind ends
/// it with [`StoreError::Failure`].
pub open spec fn next(task: TaskView, response: ResponseView) -> StepView {
    match task {
        TaskView::Inserting { activities } => match response {
            ResponseView::Tracking(Ok(AnswerView::Row(row))) => linking_from(
                row.id,
                TrackingView { row, activities },
                0,
            ),
            ResponseView::Tracking(Err(e)) => Step::Done(Err(e)),
            _ => Step::Done(Err(StoreError::Failure)),
        },
        TaskView::Writing { id, activities } => match response {
            ResponseView::Tracking(Ok(AnswerView::Row(row))) => match activities {
                Some(list) => Step::Ask(
                    TaskView::Clearing {
                        id,
                        tracking: TrackingView { row, activities: Seq::empty() },
                        activities: list,
                    },
                    RequestView::Link(LinkQueryView::RemoveOf(id)),
                ),
                None => Step::Ask(
                    TaskView::Collecting { row },
                    RequestView::Link(LinkQueryView::ListOf(id)),
                ),
            },
            ResponseView::Tracking(Err(e)) => Step::Done(Err(e)),
            _ => Step::Done(Err(StoreError::Failure)),
        },
        TaskView::Clearing { id, tracking, activities } => match response {
            ResponseView::Link(Ok(AnswerView::Removed(_))) => linking_from(
                id,
                TrackingView { row: tracking.row, activities },
                0,
            ),
            ResponseView::Link(Err(e)) => Step::Done(Err(e)),
            _ => Step::Done(Err(StoreError::Failure)),
        },
        TaskView::Linking { id, tracking, done } => match response {
            ResponseView::Link(Ok(AnswerView::Row(_))) => linking_from(id, tracking, done + 1),
            ResponseView::Link(Err(e)) => Step::Done(Err(e)),
            _ => Step::Done(Err(StoreError::Failure)),
        },
        TaskView::Reading { id } => match response {
            ResponseView::Tracking(Ok(AnswerView::Row(row))) => Step::Ask(
                TaskView::Collecting { row },
                RequestView::Link(LinkQueryView::ListOf(id)),
            ),
            ResponseView::Tracking(Err(e)) => Step::Done(Err(e)),
            _ => Step::Done(Err(StoreError::Failure)),
        },
        TaskView::Collecting { row } => match response {
            ResponseView::Link(Ok(AnswerView::Rows(links))) => Step::Done(
                Ok(OutcomeView::Row(TrackingView { row, activities: activities_of(links) })),
            ),
            ResponseView::Link(Err(e)) => Step::Done(Err(e)),
            _ => Step::Done(Err(StoreError::Failure)),
        },
        TaskView::Unlinking { id } => match response {
            ResponseView::Link(Ok(AnswerView::Removed(_))) => Step::Ask(
                TaskView::Removing,
                RequestView::Tracking(Query::Remove(id)),
            ),
            ResponseView::Link(Err(e)) => Step::Done(Err(e)),
            _ => Step::Done(Err(StoreError::Failure)),
        },
        TaskView::Removing => match response {
            ResponseView::Tracking(Ok(AnswerView::Removed(n))) => Step::Done(
                Ok(OutcomeView::Removed(n)),
            ),
            ResponseView::Tracking(Err(e)) => Step::Done(Err(e)),
            _ => Step::Done(Err(StoreError::Failure)),
        },
        TaskView::Listing(pending) => match response {
            ResponseView::Tracking(reply) => match repository::next::<
                TrackingDB,
                CreateTrackingDB,
                UpdateTrackingDB,
            >(pending, reply) {
                Step::Ask(pending, query) => Step::Ask(
                    TaskView::Listing(pending),
                    RequestView::Tracking(query),
                ),
                Step::Done(Ok(OutcomeView::Page(page))) => Step::Ask(
                    TaskView::Grouping { page },
                    RequestView::Link(LinkQueryView::ListOfAll(keys_of(page.items))),
                ),
                Step::Done(Ok(OutcomeView::LastPage(index))) => Step::Done(
                    Ok(OutcomeView::LastPage(index)),
                ),
                Step::Done(Ok(_)) => Step::Done(Err(StoreError::Failure)),
                Step::Done(Err(e)) => Step::Done(Err(e)),
            },
            _ => Step::Done(Err(StoreError::Failure)),
        },
        TaskView::Grouping { page } => match response {
            ResponseView::Link(Ok(AnswerView::Rows(links))) => Step::Done(
                Ok(
                    OutcomeView::Page(
                        PageView {
                            items: grouped(page.items, links),
                            total_items: page.total_items,
                            page: page.page,
                            page_size: page.page_size,
                            num_pages: page.num_pages,
                        },
                    ),
                ),
            ),
            ResponseView::Link(Err(e)) => Step::Done(Err(e)),
            _ => Step::Done(Err(StoreError::Failure)),
        },
    }
}

/// The join rows of a tracking among rows grown by one, from those among the rows.
pub proof fn lemma_links_of_push(rows: Seq<TrackingToActivityDB>, row: TrackingToActivityDB, id: i32)
    ensures
        links_of(rows.push(row), id) == if row.tracking_id == id {
            links_of(rows, id).push(row)
        } else {
            links_of(rows, id)
        },
{
    reveal(Seq::filter);
    assert(rows.push(row).drop_last() == rows);
}

/// The activities that `links` gives to the tracking `id`, in the order of `links`.
fn activities_among(links: &Vec<TrackingToActivityDB>, id: i32) -> (ids: Vec<i32>)
    ensures
        ids@ == activities_of(links_of(links@, id)),
{
    let mut ids: Vec<i32> = Vec::new();
    let mut i: usize = 0;
    proof {
        reveal(Seq::filter);
        assert(links@.take(0) == Seq::<TrackingToActivityDB>::empty());
    }
    while i < links.len()
        invariant
            i <= links.len(),
            ids@ == activities_of(links_of(links@.take(i as int), id)),
        decreases links.len() - i,
    {
        proof {
            lemma_links_of_push(links@.take(i as int), links@[i as int], id);
            assert(links@.take(i + 1) == links@.take(i as int).push(links@[i as int]));
        }
        if links[i].tracking_id == id {
            ids.push(links[i].activity_id);
        }
        i += 1;
    }
    proof {
        assert(links@.take(links.len() as int) == links@);
    }
    ids
}

/// The primary keys of rows, in the order of the rows.
fn keys(rows: &Vec<TrackingDB>) -> (ids: Vec<i32>)
    ensures
        ids@ == keys_of(rows@),
{
    let mut ids: Vec<i32> = Vec::new();
    let mut i: usize = 0;
    while i < rows.len()
        invariant
            i <= rows.len(),
            ids@ == keys_of(rows@.take(i as int)),
        decreases rows.len() - i,
    {
        ids.push(rows[i].id);
        proof {
            assert(rows@.take(i + 1) == rows@.take(i as int).push(rows@[i as int]));
        }
        i += 1;
    }
    proof {
        assert(rows@.take(rows.len() as int) == rows@);
    }
    ids
}

/// Gives each row the activities that `links` holds for it.
fn group(rows: Vec<TrackingDB>, links: &Vec<TrackingToActivityDB>) -> (trackings: Vec<Tracking>)
    ensures
        tracking_views(trackings@) == grouped(rows@, links@),
{
    let ghost all = rows@;
    let mut rows = rows;
    let mut reversed: Vec<Tracking> = Vec::new();
    while rows.len() > 0
        invariant
            rows@ == all.take(rows@.len() as int),
            reversed@.len() + rows@.len() == all.len(),
            forall|k: int|
                0 <= k < reversed@.len() ==> (#[trigger] reversed@[k])@ == grouped(all, links@)[all.len() - 1 - k],
        decreases rows.len(),
    {
        let row = rows.pop().unwrap();
        let activities = activities_among(links, row.id);
        reversed.push(Tracking::new(row, activities));
        proof {
            assert(rows@ == all.take(rows@.len() as int));
        }
    }
    let mut trackings: Vec<Tracking> = Vec::new();
    while reversed.len() > 0
        invariant
            reversed@.len() + trackings@.len() == all.len(),
            forall|k: int|
                0 <= k < reversed@.len() ==> (#[trigger] reversed@[k])@ == grouped(all, links@)[all.len() - 1 - k],
            forall|k: int|
                0 <= k < trackings@.len() ==> (#[trigger] trackings@[k])@ == grouped(all, links@)[k],
        decreases reversed.len(),
    {
        let tracking = reversed.pop().unwrap();
        trackings.push(tracking);
    }
    proof {
        assert(tracking_views(trackings@) =~= grouped(all, links@));
    }
    trackings
}

/// Inserts the join row for the activity at index `done`, or ends with `tracking`.
fn link(id: i32, tracking: Tracking, done: usize) -> (step: Step<Task, Request, Finished>)
    ensures
        step_view(step) == linking_from(id, tracking@, done as nat),
{
    if done < tracking.activities.len() {
        let activity_id = tracking.activities[done];
        Step::Ask(
            Task::Linking { id, tracking, done },
            Request::Link(
                LinkQuery::Table(
                    Query::Insert(CreateTrackingToActivityDB { tracking_id: id, activity_id }),
                ),
            ),
        )
    } else {
        Step::Done(Ok(Outcome::Row(tracking)))
    }
}

/// The task and first request of creating `tracking`.
pub open spec fn create_start(tracking: CreateTracking) -> (TaskView, RequestView) {
    (
        TaskView::Inserting { activities: tracking.activities@ },
        RequestView::Tracking(Query::Insert(tracking.payload())),
    )
}

/// The task and first request of reading the tracking `id`.
pub open spec fn read_start(id: i32) -> (TaskView, RequestView) {
    (TaskView::Reading { id }, RequestView::Tracking(Query::Get(id)))
}

/// The task and first request of deleting the tracking `id`.
pub open spec fn delete_start(id: i32) -> (TaskView, RequestView) {
    (TaskView::Unlinking { id }, RequestView::Link(LinkQueryView::RemoveOf(id)))
}

/// The task and first request of listing page `page` of the trackings.
pub open spec fn paginate_start(page: i64, page_size: i64) -> (TaskView, RequestView) {
    (
        TaskView::Listing(
            repository::first::<CreateTrackingDB, UpdateTrackingDB>(
                Operation::Paginate { page, page_size },
            ).0,
        ),
        RequestView::Tracking(Query::Count),
    )
}

/// The task and first request of finding the last page of the trackings.
pub open spec fn last_page_start(page_size: i64) -> (TaskView, RequestView) {
    (
        TaskView::Listing(
            repository::first::<CreateTrackingDB, UpdateTrackingDB>(
                Operation::LastPage { page_size },
            ).0,
        ),
        RequestView::Tracking(Query::Count),
    )
}

/// The task and first request of updating the tracking `id` with `tracking`.
pub open spec fn update_start(id: i32, tracking: UpdateTracking) -> (TaskView, RequestView) {
    (
        TaskView::Writing {
            id,
            activities: match tracking.activities {
                Some(list) => Some(list@),
                None => None,
            },
        },
        RequestView::Tracking(
            if tracking.patch().is_empty() {
                Query::Get(id)
            } else {
                Query::Patch(id, tracking.patch())
            },
        ),
    )
}

impl Tracking {
    /// Starts creating a time tracking: the row first, then a join row for each
    /// activity in the order given. The outcome is the tracking as stored, with
    /// the activities of the payload. Where the store fails on the way, what was
    /// written stays.
    pub fn create(tracking: CreateTracking) -> (start: (Task, Request))
        ensures
            (start.0@, start.1@) == create_start(tracking),
    {
        let (payload, activities) = tracking.split();
        (Task::Inserting { activities }, Request::Tracking(Query::Insert(payload)))
    }

    /// Starts reading the time tracking `id`: the row, then its join rows. The
    /// outcome is the row with the activities of its join rows.
    pub fn read(id: i32) -> (start: (Task, Request))
        ensures
            (start.0@, start.1@) == read_start(id),
    {
        (Task::Reading { id }, Request::Tracking(Query::Get(id)))
    }

    /// Starts updating the time tracking `id`. The row is patched, or only read
    /// where the patch holds no field. Where the patch holds activities, all
    /// join rows of the tracking are removed and one is made for each of them;
    /// where it holds none, the join rows are listed as they are. The outcome is
    /// the tracking as it then stands: the row with the activities of its join rows.
    pub fn update(id: i32, tracking: UpdateTracking) -> (start: (Task, Request))
        ensures
            (start.0@, start.1@) == update_start(id, tracking),
    {
        let (patch, activities) = tracking.split();
        let request = if patch.is_empty() {
            Request::Tracking(Query::Get(id))
        } else {
            Request::Tracking(Query::Patch(id, patch))
        };
        (Task::Writing { id, activities }, request)
    }

    /// Starts deleting the time tracking `id`: its join rows first, then the
    /// row. The outcome is the number of rows removed from `tracking`.
    pub fn delete(id: i32) -> (start: (Task, Request))
        ensures
            (start.0@, start.1@) == delete_start(id),
    {
        (Task::Unlinking { id }, Request::Link(LinkQuery::RemoveOf(id)))
    }

    /// Starts listing a page of time trackings; the join rows of the whole page
    /// are fetched with one request.
    pub fn paginate(page: i64, page_size: i64) -> (start: (Task, Request))
        ensures
            (start.0@, start.1@) == paginate_start(page, page_size),
    {
        let (pending, query) = repository::begin(Operation::Paginate { page, page_size });
        (Task::Listing(pending), Request::Tracking(query))
    }

    /// Starts finding the index of the last page of time trackings.
    pub fn last_page(page_size: i64) -> (start: (Task, Request))
        ensures
            (start.0@, start.1@) == last_page_start(page_size),
    {
        let (pending, query) = repository::begin(Operation::LastPage { page_size });
        (Task::Listing(pending), Request::Tracking(query))
    }
}

/// Takes the store's response to the request last made and says what follows.
pub fn resume(task: Task, response: Response) -> (step: Step<Task, Request, Finished>)
    ensures
        step_view(step) == next(task@, response@),
{
    match task {
        Task::Inserting { activities } => match response {
            Response::Tracking(Ok(Answer::Row(row))) => {
                let id = row.id;
                link(id, Tracking::new(row, activities), 0)
            },
            Response::Tracking(Err(e)) => Step::Done(Err(e)),
            _ => Step::Done(Err(StoreError::Failure)),
        },
        Task::Writing { id, activities } => match response {
            Response::Tracking(Ok(Answer::Row(row))) => match activities {
                Some(list) => Step::Ask(
                    Task::Clearing { id, tracking: Tracking::from_tracking(row), activities: list },
                    Request::Link(LinkQuery::RemoveOf(id)),
                ),
                None => Step::Ask(Task::Collecting { row }, Request::Link(LinkQuery::ListOf(id))),
            },
            Response::Tracking(Err(e)) => Step::Done(Err(e)),
            _ => Step::Done(Err(StoreError::Failure)),
        },
        Task::Clearing { id, tracking, activities } => match response {
            Response::Link(Ok(Answer::Removed(_))) => {
                let mut tracking = tracking;
                tracking.activities = activities;
                link(id, tracking, 0)
            },
            Response::Link(Err(e)) => Step::Done(Err(e)),
            _ => Step::Done(Err(StoreError::Failure)),
        },
        Task::Linking { id, tracking, done } => match response {
            Response::Link(Ok(Answer::Row(_))) => {
                if done < tracking.activities.len() {
                    link(id, tracking, done + 1)
                } else {
                    Step::Done(Ok(Outcome::Row(tracking)))
                }
            },
            Response::Link(Err(e)) => Step::Done(Err(e)),
            _ => Step::Done(Err(StoreError::Failure)),
        },
        Task::Reading { id } => match response {
            Response::Tracking(Ok(Answer::Row(row))) => Step::Ask(
                Task::Collecting { row },
                Request::Link(LinkQuery::ListOf(id)),
            ),
            Response::Tracking(Err(e)) => Step::Done(Err(e)),
            _ => Step::Done(Err(StoreError::Failure)),
        },
        Task::Collecting { row } => match response {
            Response::Link(Ok(Answer::Rows(links))) => {
                let activities = TrackingToActivityDB::activity_ids(&links);
                Step::Done(Ok(Outcome::Row(Tracking::new(row, activities))))
            },
            Response::Link(Err(e)) => Step::Done(Err(e)),
            _ => Step::Done(Err(StoreError::Failure)),
        },
        Task::Unlinking { id } => match response {
            Response::Link(Ok(Answer::Removed(_))) => Step::Ask(
                Task::Removing,
                Request::Tracking(Query::Remove(id)),
            ),
            Response::Link(Err(e)) => Step::Done(Err(e)),
            _ => Step::Done(Err(StoreError::Failure)),
        },
        Task::Removing => match response {
            Response::Tracking(Ok(Answer::Removed(n))) => Step::Done(Ok(Outcome::Removed(n))),
            Response::Tracking(Err(e)) => Step::Done(Err(e)),
            _ => Step::Done(Err(StoreError::Failure)),
        },
        Task::Listing(pending) => match response {
            Response::Tracking(reply) => match repository::resume::<
                TrackingDB,
                CreateTrackingDB,
                UpdateTrackingDB,
            >(pending, reply) {
                Step::Ask(pending, query) => Step::Ask(
                    Task::Listing(pending),
                    Request::Tracking(query),
                ),
                Step::Done(Ok(Outcome::Page(page))) => {
                    let ids = keys(&page.items);
                    Step::Ask(Task::Grouping { page }, Request::Link(LinkQuery::ListOfAll(ids)))
                },
                Step::Done(Ok(Outcome::LastPage(index))) => Step::Done(
                    Ok(Outcome::LastPage(index)),
                ),
                Step::Done(Ok(_)) => Step::Done(Err(StoreError::Failure)),
                Step::Done(Err(e)) => Step::Done(Err(e)),
            },
            _ => Step::Done(Err(StoreError::Failure)),
        },
        Task::Grouping { page } => match response {
            Response::Link(Ok(Answer::Rows(links))) => {
                let PaginationResult { items, total_items, page, page_size, num_pages } = page;
                let items = group(items, &links);
                Step::Done(
                    Ok(
                        Outcome::Page(
                            PaginationResult { items, total_items, page, page_size, num_pages },
                        ),
                    ),
                )
            },
            Response::Link(Err(e)) => Step::Done(Err(e)),
            _ => Step::Done(Err(StoreError::Failure)),
        },
    }
}

} // verus!
