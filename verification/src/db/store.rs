//! The conversation with the relational store.
//!
//! The backend never touches the store itself. It says what it wants as a
//! [`Query`], the caller runs that on a connection and hands back the
//! [`Reply`]. What a well-behaved store answers is fixed here as a
//! mathematical model, [`Table`], so that the rest of the crate can be proved
//! against it.

use vstd::prelude::*;
use crate::db::repository::{begin, first, Operation, Pending};
use crate::error::StoreError;

verus! {

/// One request on a single table whose insert payload is `C` and whose patch is `P`.
#[derive(Clone, Debug, PartialEq)]
pub enum Query<C, P> {
    /// Insert one row and hand the stored row back. Insert and fetch are one
    /// transaction on one connection: where the store names the new row by its
    /// last inserted id, that id must be the connection's own, or the row of a
    /// concurrent insert could be handed back instead.
    Insert(C),
    /// The row with this primary key.
    Get(i32),
    /// Write the fields the patch holds into the row with this primary key, then
    /// hand the row back, both inside one transaction.
    Patch(i32, P),
    /// Remove the row with this primary key and say how many rows went.
    Remove(i32),
    /// The number of rows in the table.
    Count,
    /// At most `limit` rows after skipping `offset`, in primary-key order.
    Page { limit: i64, offset: i64 },
}

/// What the store hands back when a request went well.
#[derive(Clone, Debug, PartialEq)]
pub enum Answer<R> {
    /// A single row.
    Row(R),
    /// Several rows, in the order the store produced them.
    Rows(Vec<R>),
    /// The number of rows removed.
    Removed(usize),
    /// A row count.
    Count(i64),
}

/// [`Answer`] with its rows as a sequence.
pub ghost enum AnswerView<R> {
    Row(R),
    Rows(Seq<R>),
    Removed(nat),
    Count(int),
}

impl<R> View for Answer<R> {
    type V = AnswerView<R>;

    open spec fn view(&self) -> AnswerView<R> {
        match self {
            Answer::Row(r) => AnswerView::Row(*r),
            Answer::Rows(rows) => AnswerView::Rows(rows@),
            Answer::Removed(n) => AnswerView::Removed(*n as nat),
            Answer::Count(n) => AnswerView::Count(*n as int),
        }
    }
}

/// The store's reply to one request.
pub type Reply<R> = Result<Answer<R>, StoreError>;

/// The mathematical reading of a [`Reply`].
pub type ReplyView<R> = Result<AnswerView<R>, StoreError>;

/// The reading of a reply.
pub open spec fn reply_view<R>(reply: Reply<R>) -> ReplyView<R> {
    match reply {
        Ok(answer) => Ok(answer@),
        Err(e) => Err(e),
    }
}

/// A kind of row, with what the store does to it.
pub trait Record: Sized {
    /// The payload from which a row is inserted.
    type Create;

    /// The partial update of a row.
    type Patch;

    /// The primary key of the row.
    spec fn key(&self) -> int;

    /// The row the store keeps for `item` when it assigns it `id` at time `now`.
    spec fn stored(item: Self::Create, id: i32, now: i64) -> Self;

    /// The row after the store wrote `patch` into it at time `now`.
    spec fn patched(&self, patch: Self::Patch, now: i64) -> Self;

    /// Whether the row holds every field of the payload.
    spec fn carries(&self, item: Self::Create) -> bool;

    /// Whether inserting `item` beside this row would break a uniqueness rule.
    spec fn clashes(&self, item: Self::Create) -> bool;

    /// Starts inserting a row from `item`; the outcome is the row as stored.
    fn create(item: Self::Create) -> (start: (Pending, Query<Self::Create, Self::Patch>))
        ensures
            start == first::<Self::Create, Self::Patch>(Operation::Create(item)),
    {
        begin(Operation::Create(item))
    }

    /// Starts reading the row with primary key `id`.
    fn read(id: i32) -> (start: (Pending, Query<Self::Create, Self::Patch>))
        ensures
            start == first::<Self::Create, Self::Patch>(Operation::Read(id)),
    {
        begin(Operation::Read(id))
    }

    /// Starts writing the fields of `patch` into the row with primary key `id`;
    /// the outcome is the row as it stands afterwards.
    fn update(id: i32, patch: Self::Patch) -> (start: (Pending, Query<Self::Create, Self::Patch>))
        ensures
            start == first::<Self::Create, Self::Patch>(Operation::Update(id, patch)),
    {
        begin(Operation::Update(id, patch))
    }

    /// Starts removing the row with primary key `id`; the outcome is the number of rows removed.
    fn delete(id: i32) -> (start: (Pending, Query<Self::Create, Self::Patch>))
        ensures
            start == first::<Self::Create, Self::Patch>(Operation::Delete(id)),
    {
        begin(Operation::Delete(id))
    }

    /// Starts listing page `page`, counted from 0, at `page_size` rows a page.
    fn paginate(page: i64, page_size: i64) -> (start: (Pending, Query<Self::Create, Self::Patch>))
        ensures
            start == first::<Self::Create, Self::Patch>(Operation::Paginate { page, page_size }),
    {
        begin(Operation::Paginate { page, page_size })
    }

    /// Starts finding the index of the last page at `page_size` rows a page.
    fn last_page(page_size: i64) -> (start: (Pending, Query<Self::Create, Self::Patch>))
        ensures
            start == first::<Self::Create, Self::Patch>(Operation::LastPage { page_size }),
    {
        begin(Operation::LastPage { page_size })
    }

    /// A primary key fits the integer type of its column.
    proof fn key_fits(&self)
        ensures
            i32::MIN <= self.key() <= i32::MAX,
    ;

    /// The store assigns the key it was told to.
    proof fn stored_has_key(item: Self::Create, id: i32, now: i64)
        ensures
            Self::stored(item, id, now).key() == id,
    ;

    /// A stored row holds the payload it was made from.
    proof fn stored_carries(item: Self::Create, id: i32, now: i64)
        ensures
            Self::stored(item, id, now).carries(item),
    ;

    /// A patch never changes the primary key.
    proof fn patched_keeps_key(&self, patch: Self::Patch, now: i64)
        ensures
            self.patched(patch, now).key() == self.key(),
    ;
}

/// One table of a well-behaved store.
pub ghost struct Table<R> {
    /// The rows, in primary-key order.
    pub rows: Seq<R>,
    /// The last primary key the table handed out.
    pub last_id: int,
}

impl<R: Record> Table<R> {
    /// Keys are positive, handed out already, and strictly increasing along the rows.
    pub open spec fn wf(self) -> bool {
        &&& 0 <= self.last_id
        &&& forall|i: int| 0 <= i < self.rows.len() ==> 0 < (#[trigger] self.rows[i]).key() <= self.last_id
        &&& forall|i: int, j: int|
            0 <= i < j < self.rows.len() ==> (#[trigger] self.rows[i]).key() < (#[trigger] self.rows[j]).key()
    }

    /// Whether a row with this key is in the table.
    pub open spec fn has(self, id: int) -> bool {
        exists|i: int| 0 <= i < self.rows.len() && (#[trigger] self.rows[i]).key() == id
    }

    /// The position of the row with this key.
    pub open spec fn position(self, id: int) -> int {
        choose|i: int| 0 <= i < self.rows.len() && (#[trigger] self.rows[i]).key() == id
    }

    /// The row with this key.
    pub open spec fn row(self, id: int) -> R {
        self.rows[self.position(id)]
    }

    /// Whether inserting `item` would break a uniqueness rule.
    pub open spec fn rejects(self, item: R::Create) -> bool {
        exists|i: int| 0 <= i < self.rows.len() && (#[trigger] self.rows[i]).clashes(item)
    }

    /// The rows of one page.
    pub open spec fn page(self, limit: int, offset: int) -> Seq<R> {
        let from = if offset < self.rows.len() { offset } else { self.rows.len() as int };
        let to = if from + limit < self.rows.len() { from + limit } else { self.rows.len() as int };
        self.rows.subrange(from, to)
    }

    /// What the table answers to `query` at time `now`, and the table afterwards.
    pub open spec fn serve(self, query: Query<R::Create, R::Patch>, now: i64) -> (Self, ReplyView<R>) {
        match query {
            Query::Insert(item) => {
                if self.rejects(item) {
                    (self, Err(StoreError::Conflict))
                } else if self.last_id >= i32::MAX {
                    (self, Err(StoreError::Failure))
                } else {
                    let row = R::stored(item, (self.last_id + 1) as i32, now);
                    (
                        Table { rows: self.rows.push(row), last_id: self.last_id + 1 },
                        Ok(AnswerView::Row(row)),
                    )
                }
            },
            Query::Get(id) => {
                if self.has(id as int) {
                    (self, Ok(AnswerView::Row(self.row(id as int))))
                } else {
                    (self, Err(StoreError::NotFound))
                }
            },
            Query::Patch(id, patch) => {
                if self.has(id as int) {
                    let at = self.position(id as int);
                    let row = self.rows[at].patched(patch, now);
                    (Table { rows: self.rows.update(at, row), ..self }, Ok(AnswerView::Row(row)))
                } else {
                    (self, Err(StoreError::NotFound))
                }
            },
            Query::Remove(id) => {
                if self.has(id as int) {
                    (
                        Table { rows: self.rows.remove(self.position(id as int)), ..self },
                        Ok(AnswerView::Removed(1)),
                    )
                } else {
                    (self, Ok(AnswerView::Removed(0)))
                }
            },
            Query::Count => (self, Ok(AnswerView::Count(self.rows.len() as int))),
            Query::Page { limit, offset } => {
                if limit < 0 || offset < 0 {
                    (self, Err(StoreError::Failure))
                } else {
                    (self, Ok(AnswerView::Rows(self.page(limit as int, offset as int))))
                }
            },
        }
    }
}

impl<R: Record> Table<R> {
    /// In a well-formed table a key is found exactly where its row stands.
    pub proof fn lemma_position(self, at: int)
        requires
            self.wf(),
            0 <= at < self.rows.len(),
        ensures
            self.has(self.rows[at].key()),
            self.position(self.rows[at].key()) == at,
            self.row(self.rows[at].key()) == self.rows[at],
    {
        let id = self.rows[at].key();
        let found = self.position(id);
        assert(0 <= found < self.rows.len() && self.rows[found].key() == id);
        if found < at {
            assert(self.rows[found].key() < self.rows[at].key());
        } else if at < found {
            assert(self.rows[at].key() < self.rows[found].key());
        }
    }

    /// A well-formed table holds no more rows than there are positive keys.
    pub proof fn lemma_size(self)
        requires
            self.wf(),
        ensures
            self.rows.len() <= i32::MAX,
    {
        if self.rows.len() > 0 {
            self.lemma_keys_grow(self.rows.len() - 1);
            self.rows[self.rows.len() - 1].key_fits();
        }
    }

    /// The key of a row is greater than the number of rows before it.
    proof fn lemma_keys_grow(self, at: int)
        requires
            self.wf(),
            0 <= at < self.rows.len(),
        ensures
            self.rows[at].key() > at,
        decreases at,
    {
        if at > 0 {
            self.lemma_keys_grow(at - 1);
            assert(self.rows[at - 1].key() < self.rows[at].key());
        }
    }

    /// A well-formed table stays well-formed whatever it is asked.
    pub proof fn lemma_serve_keeps_wf(self, query: Query<R::Create, R::Patch>, now: i64)
        requires
            self.wf(),
        ensures
            self.serve(query, now).0.wf(),
    {
        let after = self.serve(query, now).0;
        match query {
            Query::Insert(item) => {
                if !self.rejects(item) && self.last_id < i32::MAX {
                    R::stored_has_key(item, (self.last_id + 1) as i32, now);
                    assert forall|i: int| 0 <= i < after.rows.len() implies 0 < (
                    #[trigger] after.rows[i]).key() <= after.last_id by {
                        if i < self.rows.len() {
                            assert(after.rows[i] == self.rows[i]);
                        }
                    }
                    assert forall|i: int, j: int| 0 <= i < j < after.rows.len() implies (
                    #[trigger] after.rows[i]).key() < (#[trigger] after.rows[j]).key() by {
                        assert(after.rows[i] == self.rows[i]);
                        if j < self.rows.len() {
                            assert(after.rows[j] == self.rows[j]);
                        }
                    }
                }
            },
            Query::Patch(id, patch) => {
                if self.has(id as int) {
                    let at = self.position(id as int);
                    self.rows[at].patched_keeps_key(patch, now);
                    assert forall|i: int| 0 <= i < after.rows.len() implies 0 < (
                    #[trigger] after.rows[i]).key() <= after.last_id by {
                        assert(after.rows[i].key() == self.rows[i].key());
                    }
                    assert forall|i: int, j: int| 0 <= i < j < after.rows.len() implies (
                    #[trigger] after.rows[i]).key() < (#[trigger] after.rows[j]).key() by {
                        assert(after.rows[i].key() == self.rows[i].key());
                        assert(after.rows[j].key() == self.rows[j].key());
                    }
                }
            },
            Query::Remove(id) => {
                if self.has(id as int) {
                    let at = self.position(id as int);
                    assert forall|i: int| 0 <= i < after.rows.len() implies 0 < (
                    #[trigger] after.rows[i]).key() <= after.last_id by {
                        assert(after.rows[i] == self.rows[if i < at { i } else { i + 1 }]);
                    }
                    assert forall|i: int, j: int| 0 <= i < j < after.rows.len() implies (
                    #[trigger] after.rows[i]).key() < (#[trigger] after.rows[j]).key() by {
                        assert(after.rows[i] == self.rows[if i < at { i } else { i + 1 }]);
                        assert(after.rows[j] == self.rows[if j < at { j } else { j + 1 }]);
                    }
                }
            },
            _ => {},
        }
    }
}

} // verus!
