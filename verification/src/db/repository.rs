//! The operations every table offers: create, read, update, delete, paginate, last page.
//!
//! An operation runs as a short exchange with the store. [`begin`] gives the
//! first query, [`resume`] takes each reply and either asks again or stops with
//! the result. [`Table::run`] is the same exchange held against the model of
//! the store.

use vstd::prelude::*;
use crate::db::pagination::{
    clamp_page_size, last_page_for, last_page_index, num_pages, offset_for, page_size_in_use,
    pages_needed, rows_to_skip, PageView, PaginationResult,
};
use crate::db::store::{reply_view, Answer, AnswerView, Query, Record, Reply, ReplyView, Table};
use crate::error::StoreError;

verus! {

/// What an exchange does next.
#[derive(Clone, Debug, PartialEq)]
pub enum Step<S, Q, T> {
    /// Run the query and come back with the reply, keeping the state until then.
    Ask(S, Q),
    /// The exchange is over.
    Done(T),
}

/// An operation on one table.
#[derive(Clone, Debug, PartialEq)]
pub enum Operation<C, P> {
    /// Insert a row and return it as stored.
    Create(C),
    /// Return the row with this primary key.
    Read(i32),
    /// Write the fields of the patch into the row with this primary key and return the row.
    Update(i32, P),
    /// Remove the row with this primary key and return how many rows went.
    Delete(i32),
    /// Return one page of the table; `page` counts from 0.
    Paginate { page: i64, page_size: i64 },
    /// Return the index of the last page.
    LastPage { page_size: i64 },
}

/// What an operation returns when it went well.
#[derive(Clone, Debug, PartialEq)]
pub enum Outcome<R> {
    /// The row created, read or updated.
    Row(R),
    /// The rows asked for.
    Rows(Vec<R>),
    /// The number of rows removed.
    Removed(usize),
    /// The page asked for.
    Page(PaginationResult<R>),
    /// The index of the last page.
    LastPage(i64),
}

/// [`Outcome`] over mathematical values.
pub ghost enum OutcomeView<R> {
    Row(R),
    Rows(Seq<R>),
    Removed(nat),
    Page(PageView<R>),
    LastPage(int),
}

impl<R> View for Outcome<R> {
    type V = OutcomeView<R>;

    open spec fn view(&self) -> OutcomeView<R> {
        match self {
            Outcome::Row(row) => OutcomeView::Row(*row),
            Outcome::Rows(rows) => OutcomeView::Rows(rows@),
            Outcome::Removed(n) => OutcomeView::Removed(*n as nat),
            Outcome::Page(page) => OutcomeView::Page(page@),
            Outcome::LastPage(index) => OutcomeView::LastPage(*index as int),
        }
    }
}

/// Where an operation stands while the store works on its query.
#[derive(Clone, Copy, Debug, PartialEq, Eq)]
pub enum Pending {
    /// A single row is awaited.
    Row,
    /// A list of rows is awaited.
    Rows,
    /// The number of removed rows is awaited.
    Removal,
    /// The row count is awaited, to list `page` at `page_size` rows a page.
    Counting { page: i64, page_size: i64 },
    /// The rows of `page` are awaited; the table holds `total_items` rows.
    Fetching { page: i64, page_size: i64, total_items: i64 },
    /// The row count is awaited, to name the last page at `page_size` rows a page.
    LastPage { page_size: i64 },
}

/// The result of an operation.
pub type Finished<R> = Result<Outcome<R>, StoreError>;

/// The mathematical reading of a [`Finished`].
pub type FinishedView<R> = Result<OutcomeView<R>, StoreError>;

/// The reading of a step that may end an operation.
pub open spec fn step_view<Q, R>(step: Step<Pending, Q, Finished<R>>) -> Step<Pending, Q, FinishedView<R>> {
    match step {
        Step::Ask(pending, query) => Step::Ask(pending, query),
        Step::Done(Ok(outcome)) => Step::Done(Ok(outcome@)),
        Step::Done(Err(e)) => Step::Done(Err(e)),
    }
}

/// The state and first query of an operation.
pub open spec fn first<C, P>(operation: Operation<C, P>) -> (Pending, Query<C, P>) {
    match operation {
        Operation::Create(item) => (Pending::Row, Query::Insert(item)),
        Operation::Read(id) => (Pending::Row, Query::Get(id)),
        Operation::Update(id, patch) => (Pending::Row, Query::Patch(id, patch)),
        Operation::Delete(id) => (Pending::Removal, Query::Remove(id)),
        Operation::Paginate { page, page_size } => (
            Pending::Counting { page, page_size: page_size_in_use(page_size as int) as i64 },
            Query::Count,
        ),
        Operation::LastPage { page_size } => (
            Pending::LastPage { page_size: page_size_in_use(page_size as int) as i64 },
            Query::Count,
        ),
    }
}

/// What follows when the store answers `reply` to an operation standing at `pending`.
///
/// A failure of the store ends the operation with that failure. An answer of
/// the wrong kind, or a negative row count, ends it with [`StoreError::Failure`].
pub open spec fn next<R, C, P>(pending: Pending, reply: ReplyView<R>) -> Step<
    Pending,
    Query<C, P>,
    FinishedView<R>,
> {
    match (pending, reply) {
        (_, Err(e)) => Step::Done(Err(e)),
        (Pending::Row, Ok(AnswerView::Row(row))) => Step::Done(Ok(OutcomeView::Row(row))),
        (Pending::Rows, Ok(AnswerView::Rows(rows))) => Step::Done(Ok(OutcomeView::Rows(rows))),
        (Pending::Removal, Ok(AnswerView::Removed(n))) => Step::Done(Ok(OutcomeView::Removed(n))),
        (Pending::Counting { page, page_size }, Ok(AnswerView::Count(n))) => if 0 <= n <= i64::MAX {
            Step::Ask(
                Pending::Fetching { page, page_size, total_items: n as i64 },
                Query::Page {
                    limit: page_size,
                    offset: rows_to_skip(page as int, page_size as int) as i64,
                },
            )
        } else {
            Step::Done(Err(StoreError::Failure))
        },
        (Pending::Fetching { page, page_size, total_items }, Ok(AnswerView::Rows(rows))) => Step::Done(
            Ok(
                OutcomeView::Page(
                    PageView {
                        items: rows,
                        total_items: total_items as int,
                        page: page as int,
                        page_size: page_size as int,
                        num_pages: pages_needed(total_items as int, page_size as int),
                    },
                ),
            ),
        ),
        (Pending::LastPage { page_size }, Ok(AnswerView::Count(n))) => if 0 <= n <= i64::MAX {
            Step::Done(Ok(OutcomeView::LastPage(last_page_index(n, page_size as int))))
        } else {
            Step::Done(Err(StoreError::Failure))
        },
        _ => Step::Done(Err(StoreError::Failure)),
    }
}

/// Starts an operation: the state to keep and the first query for the store.
pub fn begin<C, P>(operation: Operation<C, P>) -> (start: (Pending, Query<C, P>))
    ensures
        start == first(operation),
{
    match operation {
        Operation::Create(item) => (Pending::Row, Query::Insert(item)),
        Operation::Read(id) => (Pending::Row, Query::Get(id)),
        Operation::Update(id, patch) => (Pending::Row, Query::Patch(id, patch)),
        Operation::Delete(id) => (Pending::Removal, Query::Remove(id)),
        Operation::Paginate { page, page_size } => (
            Pending::Counting { page, page_size: clamp_page_size(page_size) },
            Query::Count,
        ),
        Operation::LastPage { page_size } => (
            Pending::LastPage { page_size: clamp_page_size(page_size) },
            Query::Count,
        ),
    }
}

/// Takes the store's reply to the query last asked and says what follows.
pub fn resume<R, C, P>(pending: Pending, reply: Reply<R>) -> (step: Step<
    Pending,
    Query<C, P>,
    Finished<R>,
>)
    ensures
        step_view(step) == next::<R, C, P>(pending, reply_view(reply)),
{
    let answer = match reply {
        Ok(answer) => answer,
        Err(e) => { return Step::Done(Err(e)); },
    };
    match (pending, answer) {
        (Pending::Row, Answer::Row(row)) => Step::Done(Ok(Outcome::Row(row))),
        (Pending::Rows, Answer::Rows(rows)) => Step::Done(Ok(Outcome::Rows(rows))),
        (Pending::Removal, Answer::Removed(n)) => Step::Done(Ok(Outcome::Removed(n))),
        (Pending::Counting { page, page_size }, Answer::Count(n)) => {
            if n < 0 {
                Step::Done(Err(StoreError::Failure))
            } else {
                Step::Ask(
                    Pending::Fetching { page, page_size, total_items: n },
                    Query::Page { limit: page_size, offset: offset_for(page, page_size) },
                )
            }
        },
        (Pending::Fetching { page, page_size, total_items }, Answer::Rows(rows)) => {
            let pages = num_pages(total_items, page_size);
            Step::Done(
                Ok(
                    Outcome::Page(
                        PaginationResult {
                            items: rows,
                            total_items,
                            page,
                            page_size,
                            num_pages: pages,
                        },
                    ),
                ),
            )
        },
        (Pending::LastPage { page_size }, Answer::Count(n)) => {
            if n < 0 {
                Step::Done(Err(StoreError::Failure))
            } else {
                Step::Done(Ok(Outcome::LastPage(last_page_for(n, page_size))))
            }
        },
        _ => Step::Done(Err(StoreError::Failure)),
    }
}

impl<R: Record> Table<R> {
    /// The whole exchange of an operation with this table at time `now`: the
    /// table afterwards and the result.
    pub open spec fn run(self, operation: Operation<R::Create, R::Patch>, now: i64) -> (
        Self,
        FinishedView<R>,
    ) {
        let (pending, query) = first(operation);
        let (table, reply) = self.serve(query, now);
        match next::<R, R::Create, R::Patch>(pending, reply) {
            Step::Done(finished) => (table, finished),
            Step::Ask(pending, query) => {
                let (table, reply) = table.serve(query, now);
                match next::<R, R::Create, R::Patch>(pending, reply) {
                    Step::Done(finished) => (table, finished),
                    Step::Ask(_, _) => (table, Err(StoreError::Failure)),
                }
            },
        }
    }
}

} // verus!
