//! What holds of every table, whatever its rows: the laws of the repository,
//! proved of the operations as they run against a well-behaved store.

use vstd::prelude::*;
use crate::db::pagination::{
    last_page_index, lemma_pages_needed_bounds, page_size_in_use, pages_needed, rows_to_skip,
};
use crate::db::repository::{Operation, OutcomeView};
use crate::db::store::{Query, Record, Table};
use crate::error::StoreError;

verus! {

/// Creating succeeds exactly where no uniqueness rule is broken and a key is
/// left. The row it returns holds every field of the payload, and reading the
/// returned key afterwards, at any time, returns that same row.
pub proof fn law_create_then_read<R: Record>(table: Table<R>, item: R::Create, now: i64, later: i64)
    requires
        table.wf(),
    ensures
        ({
            let (after, created) = table.run(Operation::Create(item), now);
            &&& after.wf()
            &&& created is Ok <==> !table.rejects(item) && table.last_id < i32::MAX
            &&& created is Err ==> after == table
            &&& created matches Ok(outcome) ==> {
                &&& outcome matches OutcomeView::Row(row)
                &&& row.carries(item)
                &&& i32::MIN <= row.key() <= i32::MAX
                &&& !table.has(row.key())
                &&& after.run(Operation::Read(row.key() as i32), later) == (
                    after,
                    Ok::<OutcomeView<R>, StoreError>(OutcomeView::Row(row)),
                )
            }
        }),
{
    table.lemma_serve_keeps_wf(Query::Insert(item), now);
    let (after, created) = table.run(Operation::Create(item), now);
    if !table.rejects(item) && table.last_id < i32::MAX {
        let id = (table.last_id + 1) as i32;
        let row = R::stored(item, id, now);
        R::stored_has_key(item, id, now);
        R::stored_carries(item, id, now);
        assert(after.rows[table.rows.len() as int] == row);
        after.lemma_position(table.rows.len() as int);
        if table.has(row.key()) {
            let at = table.position(row.key());
            assert(table.rows[at].key() <= table.last_id);
        }
    }
}

/// Reading changes nothing: two reads of the same key with no write between
/// them return the same, whenever they are made.
pub proof fn law_read_twice<R: Record>(table: Table<R>, id: i32, now: i64, later: i64)
    ensures
        ({
            let (after, once) = table.run(Operation::Read(id), now);
            let (last, twice) = after.run(Operation::Read(id), later);
            &&& after == table
            &&& last == table
            &&& once == twice
            &&& once is Ok <==> table.has(id as int)
            &&& once is Err ==> once == Err::<OutcomeView<R>, StoreError>(StoreError::NotFound)
        }),
{
}

/// Updating returns the row with the fields of the patch written into it, and
/// reading the key afterwards returns that same row. No other row changes and
/// none comes or goes. Where no row has the key, the update fails with "not
/// found" and changes nothing.
pub proof fn law_update_then_read<R: Record>(
    table: Table<R>,
    id: i32,
    patch: R::Patch,
    now: i64,
    later: i64,
)
    requires
        table.wf(),
    ensures
        ({
            let (after, updated) = table.run(Operation::Update(id, patch), now);
            &&& after.wf()
            &&& updated is Ok <==> table.has(id as int)
            &&& updated is Err ==> after == table && updated == Err::<OutcomeView<R>, StoreError>(
                StoreError::NotFound,
            )
            &&& updated is Ok ==> {
                &&& updated == Ok::<OutcomeView<R>, StoreError>(
                    OutcomeView::Row(table.row(id as int).patched(patch, now)),
                )
                &&& after.run(Operation::Read(id), later) == (after, updated)
                &&& after.rows.len() == table.rows.len()
                &&& forall|other: int| other != id ==> after.has(other) == table.has(other)
                &&& forall|other: int|
                    other != id && table.has(other) ==> #[trigger] after.row(other) == table.row(
                        other,
                    )
            }
        }),
{
    table.lemma_serve_keeps_wf(Query::Patch(id, patch), now);
    let (after, updated) = table.run(Operation::Update(id, patch), now);
    if table.has(id as int) {
        let at = table.position(id as int);
        table.rows[at].patched_keeps_key(patch, now);
        after.lemma_position(at);
        assert forall|other: int| other != id implies after.has(other) == table.has(other) by {
            if table.has(other) {
                let k = table.position(other);
                assert(after.rows[k] == table.rows[k]);
            }
            if after.has(other) {
                let k = after.position(other);
                assert(after.rows[k] == table.rows[k]);
            }
        }
        assert forall|other: int| other != id && table.has(other) implies #[trigger] after.row(
            other,
        ) == table.row(other) by {
            let k = table.position(other);
            assert(after.rows[k] == table.rows[k]);
            after.lemma_position(k);
        }
    }
}

/// Deleting removes the row with the key and no other, and returns 1; where no
/// row has the key it changes nothing and returns 0. It never fails.
pub proof fn law_delete<R: Record>(table: Table<R>, id: i32, now: i64)
    requires
        table.wf(),
    ensures
        ({
            let (after, deleted) = table.run(Operation::Delete(id), now);
            &&& after.wf()
            &&& deleted == Ok::<OutcomeView<R>, StoreError>(
                OutcomeView::Removed(
                    if table.has(id as int) {
                        1
                    } else {
                        0
                    },
                ),
            )
            &&& !after.has(id as int)
            &&& forall|other: int| other != id ==> after.has(other) == table.has(other)
        }),
{
    table.lemma_serve_keeps_wf(Query::Remove(id), now);
    let (after, deleted) = table.run(Operation::Delete(id), now);
    if table.has(id as int) {
        let at = table.position(id as int);
        if after.has(id as int) {
            let k = after.position(id as int);
            let origin = if k < at { k } else { k + 1 };
            assert(after.rows[k] == table.rows[origin]);
            table.lemma_position(origin);
        }
        assert forall|other: int| other != id implies after.has(other) == table.has(other) by {
            if table.has(other) {
                let k = table.position(other);
                let target = if k < at { k } else { k - 1 };
                assert(after.rows[target] == table.rows[k]);
            }
            if after.has(other) {
                let k = after.position(other);
                assert(after.rows[k] == table.rows[if k < at { k } else { k + 1 }]);
            }
        }
    } else {
        assert(after == table);
    }
}

/// The rows of page `page` of a table at `page_size` rows a page.
pub open spec fn page_rows<R: Record>(table: Table<R>, page: int, page_size: int) -> Seq<R> {
    table.page(page_size_in_use(page_size), rows_to_skip(page, page_size))
}

/// The rows of the pages before `pages`, one page after the other.
pub open spec fn pages_before<R: Record>(table: Table<R>, pages: nat, page_size: int) -> Seq<R>
    decreases pages,
{
    if pages == 0 {
        Seq::empty()
    } else {
        pages_before(table, (pages - 1) as nat, page_size) + page_rows(
            table,
            pages - 1,
            page_size,
        )
    }
}

/// The sum of the lengths of the pages before `pages`.
pub open spec fn rows_on_pages_before<R: Record>(table: Table<R>, pages: nat, page_size: int) -> nat
    decreases pages,
{
    if pages == 0 {
        0
    } else {
        rows_on_pages_before(table, (pages - 1) as nat, page_size) + page_rows(
            table,
            pages - 1,
            page_size,
        ).len()
    }
}

/// Listing a page from 0 on changes nothing and returns the rows of that page,
/// at most a page size of them, with the figures of the whole table.
pub proof fn law_paginate<R: Record>(table: Table<R>, page: i64, page_size: i64, now: i64)
    requires
        table.wf(),
        0 <= page,
    ensures
        ({
            let (after, listed) = table.run(Operation::Paginate { page, page_size }, now);
            &&& after == table
            &&& listed matches Ok(OutcomeView::Page(result))
            &&& result.items == page_rows(table, page as int, page_size as int)
            &&& result.items.len() <= page_size_in_use(page_size as int)
            &&& result.total_items == table.rows.len()
            &&& result.page == page
            &&& result.page_size == page_size_in_use(page_size as int)
            &&& result.num_pages == pages_needed(table.rows.len() as int, page_size as int)
        }),
{
    let size = page_size_in_use(page_size as int);
    table.lemma_size();
    assert(page * size >= 0) by (nonlinear_arith)
        requires
            page >= 0,
            size >= 1,
    ;
}

/// The pages of a table, taken in order from page 0 to the last, hold every
/// row of the table once and in order; so their lengths add up to the number
/// of rows.
pub proof fn law_pages_cover_table<R: Record>(table: Table<R>, page_size: i64)
    requires
        table.wf(),
    ensures
        ({
            let pages = pages_needed(table.rows.len() as int, page_size as int);
            &&& pages >= 0
            &&& pages_before(table, pages as nat, page_size as int) == table.rows
            &&& rows_on_pages_before(table, pages as nat, page_size as int) == table.rows.len()
        }),
{
    let total = table.rows.len() as int;
    let size = page_size_in_use(page_size as int);
    let pages = pages_needed(total, page_size as int);
    table.lemma_size();
    lemma_pages_needed_bounds(total, page_size as int);
    lemma_pages_before(table, pages as nat, page_size as int);
    assert(pages * size >= total);
    assert(table.rows.subrange(0, total) == table.rows);
}

/// The pages before `pages` hold the first `pages * size` rows, or all rows if fewer.
proof fn lemma_pages_before<R: Record>(table: Table<R>, pages: nat, page_size: int)
    requires
        table.rows.len() <= i64::MAX,
    ensures
        ({
            let reach = pages * page_size_in_use(page_size);
            let end = if reach < table.rows.len() { reach } else { table.rows.len() as int };
            &&& pages_before(table, pages, page_size) == table.rows.subrange(0, end)
            &&& rows_on_pages_before(table, pages, page_size) == end
        }),
    decreases pages,
{
    let size = page_size_in_use(page_size);
    let total = table.rows.len() as int;
    if pages == 0 {
        assert(pages * size == 0) by (nonlinear_arith)
            requires
                pages == 0,
        ;
        assert(table.rows.subrange(0, 0) == Seq::<R>::empty());
    } else {
        let before = (pages - 1) as nat;
        lemma_pages_before(table, before, page_size);
        let start = before * size;
        assert(start >= 0 && pages * size == start + size) by (nonlinear_arith)
            requires
                start == before * size,
                pages == before + 1,
                size >= 1,
        ;
        let skip = rows_to_skip(before as int, page_size);
        let from = if skip < total { skip } else { total };
        let to = if from + size < total { from + size } else { total };
        assert(page_rows(table, before as int, page_size) == table.rows.subrange(from, to));
        let old_end = if start < total { start } else { total };
        assert(from == old_end);
        assert(table.rows.subrange(0, old_end) + table.rows.subrange(from, to)
            == table.rows.subrange(0, to));
        let reach = pages * size;
        assert(to == if reach < total { reach } else { total });
    }
}

/// The last page of a table that holds a row is not empty: asking for the
/// index of the last page and then for the page with that index returns at
/// least one row, as long as no row comes or goes in between.
pub proof fn law_last_page_is_not_empty<R: Record>(table: Table<R>, page_size: i64, now: i64, later: i64)
    requires
        table.wf(),
        0 < table.rows.len(),
    ensures
        ({
            let (after, found) = table.run(Operation::LastPage { page_size }, now);
            &&& after == table
            &&& found matches Ok(OutcomeView::LastPage(index))
            &&& index == last_page_index(table.rows.len() as int, page_size as int)
            &&& 0 <= index <= i64::MAX
            &&& table.run(Operation::Paginate { page: index as i64, page_size }, later).1 matches Ok(
                OutcomeView::Page(result),
            )
            &&& 0 < result.items.len()
        }),
{
    let total = table.rows.len() as int;
    let size = page_size_in_use(page_size as int);
    table.lemma_size();
    lemma_pages_needed_bounds(total, page_size as int);
    let index = last_page_index(total, page_size as int);
    assert(size == page_size_in_use(size));
    assert(last_page_index(total, size) == index);
    assert(0 <= index * size) by (nonlinear_arith)
        requires
            index >= 0,
            size >= 1,
    ;
    law_paginate(table, index as i64, page_size, later);
}

} // verus!
