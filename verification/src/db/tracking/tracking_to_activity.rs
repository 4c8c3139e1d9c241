//! The table `tracking_to_activity`, which joins time trackings to activities.

use vstd::prelude::*;
use crate::db::activity::{Activity, CreateActivity, UpdateActivity};
use crate::db::repository::{Pending, Step};
use crate::db::store::{reply_view, Answer, AnswerView, Query, Record, Reply, ReplyView, Table};
use crate::error::StoreError;
use crate::db::values::written;

verus! {

/// A row of the table `tracking_to_activity`: the tracking has the activity.
#[derive(Clone, Copy, Debug, PartialEq, Eq, Structural)]
pub struct TrackingToActivity {
    /// Column `id`.
    pub id: i32,
    /// Column `tracking_id`.
    pub tracking_id: i32,
    /// Column `activity_id`.
    pub activity_id: i32,
}

/// The payload from which a row of `tracking_to_activity` is inserted.
#[derive(Clone, Copy, Debug, PartialEq, Eq, Structural)]
pub struct CreateTrackingToActivity {
    /// Column `tracking_id`.
    pub tracking_id: i32,
    /// Column `activity_id`.
    pub activity_id: i32,
}

/// A partial update of a row of `tracking_to_activity`: an absent field is left alone.
#[derive(Clone, Copy, Debug, Default, PartialEq, Eq, Structural)]
pub struct UpdateTrackingToActivity {
    /// Column `tracking_id`.
    pub tracking_id: Option<i32>,
    /// Column `activity_id`.
    pub activity_id: Option<i32>,
}

impl Record for TrackingToActivity {
    type Create = CreateTrackingToActivity;

    type Patch = UpdateTrackingToActivity;

    open spec fn key(&self) -> int {
        self.id as int
    }

    open spec fn stored(item: CreateTrackingToActivity, id: i32, now: i64) -> TrackingToActivity {
        TrackingToActivity { id, tracking_id: item.tracking_id, activity_id: item.activity_id }
    }

    open spec fn patched(&self, patch: UpdateTrackingToActivity, now: i64) -> TrackingToActivity {
        TrackingToActivity {
            id: self.id,
            tracking_id: written(patch.tracking_id, self.tracking_id),
            activity_id: written(patch.activity_id, self.activity_id),
        }
    }

    open spec fn carries(&self, item: CreateTrackingToActivity) -> bool {
        self.tracking_id == item.tracking_id && self.activity_id == item.activity_id
    }

    open spec fn clashes(&self, item: CreateTrackingToActivity) -> bool {
        false
    }

    proof fn key_fits(&self) {
    }

    proof fn stored_has_key(item: CreateTrackingToActivity, id: i32, now: i64) {
    }

    proof fn stored_carries(item: CreateTrackingToActivity, id: i32, now: i64) {
    }

    proof fn patched_keeps_key(&self, patch: UpdateTrackingToActivity, now: i64) {
    }
}

/// A request on the join table.
#[derive(Clone, Debug, PartialEq)]
pub enum LinkQuery {
    /// One of the requests every table takes.
    Table(Query<CreateTrackingToActivity, UpdateTrackingToActivity>),
    /// Remove every row of this tracking and say how many went.
    RemoveOf(i32),
    /// The rows of this tracking, in primary-key order.
    ListOf(i32),
    /// The rows of any of these trackings, in primary-key order.
    ListOfAll(Vec<i32>),
}

/// [`LinkQuery`] with its list as a sequence.
pub ghost enum LinkQueryView {
    Table(Query<CreateTrackingToActivity, UpdateTrackingToActivity>),
    RemoveOf(i32),
    ListOf(i32),
    ListOfAll(Seq<i32>),
}

impl View for LinkQuery {
    type V = LinkQueryView;

    open spec fn view(&self) -> LinkQueryView {
        match self {
            LinkQuery::Table(query) => LinkQueryView::Table(*query),
            LinkQuery::RemoveOf(id) => LinkQueryView::RemoveOf(*id),
            LinkQuery::ListOf(id) => LinkQueryView::ListOf(*id),
            LinkQuery::ListOfAll(ids) => LinkQueryView::ListOfAll(ids@),
        }
    }
}

/// The join rows of one tracking among `rows`, in the order of `rows`.
pub open spec fn links_of(rows: Seq<TrackingToActivity>, tracking_id: i32) -> Seq<TrackingToActivity> {
    rows.filter(|row: TrackingToActivity| row.tracking_id == tracking_id)
}

/// The join rows of all other trackings among `rows`, in the order of `rows`.
pub open spec fn links_of_others(rows: Seq<TrackingToActivity>, tracking_id: i32) -> Seq<
    TrackingToActivity,
> {
    rows.filter(|row: TrackingToActivity| row.tracking_id != tracking_id)
}

/// The join rows of any of the trackings `ids` among `rows`, in the order of `rows`.
pub open spec fn links_of_any(rows: Seq<TrackingToActivity>, ids: Seq<i32>) -> Seq<TrackingToActivity> {
    rows.filter(|row: TrackingToActivity| ids.contains(row.tracking_id))
}

/// What the join table answers to `query` at time `now`, and the table afterwards.
pub open spec fn serve_links(table: Table<TrackingToActivity>, query: LinkQueryView, now: i64) -> (
    Table<TrackingToActivity>,
    ReplyView<TrackingToActivity>,
) {
    match query {
        LinkQueryView::Table(query) => table.serve(query, now),
        LinkQueryView::RemoveOf(id) => (
            Table { rows: links_of_others(table.rows, id), ..table },
            Ok(AnswerView::Removed(links_of(table.rows, id).len())),
        ),
        LinkQueryView::ListOf(id) => (table, Ok(AnswerView::Rows(links_of(table.rows, id)))),
        LinkQueryView::ListOfAll(ids) => (table, Ok(AnswerView::Rows(links_of_any(table.rows, ids)))),
    }
}

/// The activities of a list of join rows, in the order of the rows.
pub open spec fn activities_of(rows: Seq<TrackingToActivity>) -> Seq<i32> {
    rows.map_values(|row: TrackingToActivity| row.activity_id)
}

impl TrackingToActivity {
    /// Starts removing every join row of the tracking `id`; the outcome is the number removed.
    pub fn delete_by_tracking_id(id: i32) -> (start: (Pending, LinkQuery))
        ensures
            start == (Pending::Removal, LinkQuery::RemoveOf(id)),
    {
        (Pending::Removal, LinkQuery::RemoveOf(id))
    }

    /// Starts listing the join rows of the tracking `id`; the outcome is the rows.
    pub fn from_tracking(id: i32) -> (start: (Pending, LinkQuery))
        ensures
            start == (Pending::Rows, LinkQuery::ListOf(id)),
    {
        (Pending::Rows, LinkQuery::ListOf(id))
    }

    /// The activity ids of a tracking, from the store's reply to the request of
    /// [`TrackingToActivity::from_tracking`]: the ids of the join rows, in their order.
    pub fn get_activity_ids(reply: Reply<TrackingToActivity>) -> (ids: Result<Vec<i32>, StoreError>)
        ensures
            match reply {
                Ok(Answer::Rows(rows)) => ids is Ok && ids->Ok_0@ == activities_of(rows@),
                Ok(_) => ids == Err::<Vec<i32>, StoreError>(StoreError::Failure),
                Err(e) => ids == Err::<Vec<i32>, StoreError>(e),
            },
    {
        match reply {
            Ok(Answer::Rows(rows)) => Ok(TrackingToActivity::activity_ids(&rows)),
            Ok(_) => Err(StoreError::Failure),
            Err(e) => Err(e),
        }
    }

    /// Starts gathering the activities of the tracking `id`: its join rows are
    /// listed, then the activity of each is read, in the order of the join rows.
    pub fn get_activities(id: i32) -> (start: (Gathering, GatherRequest))
        ensures
            start.0 is Listing,
            start.1@ == GatherRequestView::Link(LinkQueryView::ListOf(id)),
    {
        (Gathering::Listing, GatherRequest::Link(LinkQuery::ListOf(id)))
    }

    /// The activity ids of join rows, in the order of the rows.
    pub fn activity_ids(rows: &Vec<TrackingToActivity>) -> (ids: Vec<i32>)
        ensures
            ids@ == activities_of(rows@),
    {
        let mut ids: Vec<i32> = Vec::new();
        let mut i: usize = 0;
        while i < rows.len()
            invariant
                i <= rows.len(),
                ids@ == activities_of(rows@.take(i as int)),
            decreases rows.len() - i,
        {
            ids.push(rows[i].activity_id);
            proof {
                assert(rows@.take(i + 1) == rows@.take(i as int).push(rows@[i as int]));
            }
            i += 1;
        }
        proof {
            assert(rows@.take(rows.len() as int) == rows@);
        }
        ids
    }
}

/// A request made while the activities of a tracking are gathered.
#[derive(Clone, Debug, PartialEq)]
pub enum GatherRequest {
    Link(LinkQuery),
    Activity(Query<CreateActivity, UpdateActivity>),
}

/// [`GatherRequest`] over mathematical values.
pub ghost enum GatherRequestView {
    Link(LinkQueryView),
    Activity(Query<CreateActivity, UpdateActivity>),
}

impl View for GatherRequest {
    type V = GatherRequestView;

    open spec fn view(&self) -> GatherRequestView {
        match self {
            GatherRequest::Link(query) => GatherRequestView::Link(query@),
            GatherRequest::Activity(query) => GatherRequestView::Activity(*query),
        }
    }
}

/// The store's reply to a [`GatherRequest`], from the table that was asked.
#[derive(Debug, PartialEq)]
pub enum GatherResponse {
    Link(Reply<TrackingToActivity>),
    Activity(Reply<Activity>),
}

/// [`GatherResponse`] over mathematical values.
pub ghost enum GatherResponseView {
    Link(ReplyView<TrackingToActivity>),
    Activity(ReplyView<Activity>),
}

impl View for GatherResponse {
    type V = GatherResponseView;

    open spec fn view(&self) -> GatherResponseView {
        match self {
            GatherResponse::Link(reply) => GatherResponseView::Link(reply_view(*reply)),
            GatherResponse::Activity(reply) => GatherResponseView::Activity(reply_view(*reply)),
        }
    }
}

/// Where the gathering of activities stands while the store works.
#[derive(Clone, Debug, PartialEq)]
pub enum Gathering {
    /// The join rows of the tracking are being listed.
    Listing,
    /// The activity of the join row at index `found.len()` is being read; those
    /// before it are in `found`.
    Reading { links: Vec<TrackingToActivity>, found: Vec<Activity> },
}

/// [`Gathering`] over mathematical values.
pub ghost enum GatheringView {
    Listing,
    Reading { links: Seq<TrackingToActivity>, found: Seq<Activity> },
}

impl View for Gathering {
    type V = GatheringView;

    open spec fn view(&self) -> GatheringView {
        match self {
            Gathering::Listing => GatheringView::Listing,
            Gathering::Reading { links, found } => GatheringView::Reading {
                links: links@,
                found: found@,
            },
        }
    }
}

/// A step of the gathering over mathematical values.
pub type GatherStepView = Step<GatheringView, GatherRequestView, Result<Seq<Activity>, StoreError>>;

/// The reading of a step of the gathering.
pub open spec fn gather_step_view(
    step: Step<Gathering, GatherRequest, Result<Vec<Activity>, StoreError>>,
) -> GatherStepView {
    match step {
        Step::Ask(state, request) => Step::Ask(state@, request@),
        Step::Done(Ok(found)) => Step::Done(Ok(found@)),
        Step::Done(Err(e)) => Step::Done(Err(e)),
    }
}

/// The step that reads the activity of the next join row, or ends with the
/// activities found where no join row is left.
pub open spec fn reading_from(links: Seq<TrackingToActivity>, found: Seq<Activity>) -> GatherStepView {
    if found.len() < links.len() {
        Step::Ask(
            GatheringView::Reading { links, found },
            GatherRequestView::Activity(Query::Get(links[found.len() as int].activity_id)),
        )
    } else {
        Step::Done(Ok(found))
    }
}

/// What follows when the store answers `response` to the gathering standing at
/// `state`. A failure of the store ends it with that failure; an answer from
/// the other table or of the wrong kind ends it with [`StoreError::Failure`].
pub open spec fn gather_next(state: GatheringView, response: GatherResponseView) -> GatherStepView {
    match state {
        GatheringView::Listing => match response {
            GatherResponseView::Link(Ok(AnswerView::Rows(links))) => reading_from(
                links,
                Seq::empty(),
            ),
            GatherResponseView::Link(Err(e)) => Step::Done(Err(e)),
            _ => Step::Done(Err(StoreError::Failure)),
        },
        GatheringView::Reading { links, found } => match response {
            GatherResponseView::Activity(Ok(AnswerView::Row(activity))) => reading_from(
                links,
                found.push(activity),
            ),
            GatherResponseView::Activity(Err(e)) => Step::Done(Err(e)),
            _ => Step::Done(Err(StoreError::Failure)),
        },
    }
}

/// Reads the activity of the next join row, or ends with the activities found.
fn read_next(links: Vec<TrackingToActivity>, found: Vec<Activity>) -> (step: Step<
    Gathering,
    GatherRequest,
    Result<Vec<Activity>, StoreError>,
>)
    ensures
        gather_step_view(step) == reading_from(links@, found@),
{
    if found.len() < links.len() {
        let id = links[found.len()].activity_id;
        Step::Ask(Gathering::Reading { links, found }, GatherRequest::Activity(Query::Get(id)))
    } else {
        Step::Done(Ok(found))
    }
}

/// Takes the store's response while activities are gathered and says what follows.
pub fn gather(state: Gathering, response: GatherResponse) -> (step: Step<
    Gathering,
    GatherRequest,
    Result<Vec<Activity>, StoreError>,
>)
    ensures
        gather_step_view(step) == gather_next(state@, response@),
{
    match state {
        Gathering::Listing => match response {
            GatherResponse::Link(Ok(Answer::Rows(links))) => read_next(links, Vec::new()),
            GatherResponse::Link(Err(e)) => Step::Done(Err(e)),
            _ => Step::Done(Err(StoreError::Failure)),
        },
        Gathering::Reading { links, found } => match response {
            GatherResponse::Activity(Ok(Answer::Row(activity))) => {
                let mut found = found;
                found.push(activity);
                read_next(links, found)
            },
            GatherResponse::Activity(Err(e)) => Step::Done(Err(e)),
            _ => Step::Done(Err(StoreError::Failure)),
        },
    }
}

} // verus!
