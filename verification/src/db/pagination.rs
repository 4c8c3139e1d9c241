//! Page arithmetic: page sizes, page counts, offsets.

use vstd::prelude::*;

verus! {

/// One page of a table together with the figures of the whole listing.
#[derive(Clone, Debug, PartialEq)]
pub struct PaginationResult<T> {
    /// The rows of the page asked for.
    pub items: Vec<T>,
    /// The number of rows in the whole table.
    pub total_items: i64,
    /// The page asked for, counted from 0.
    pub page: i64,
    /// The page size in use, at least 1.
    pub page_size: i64,
    /// The number of pages the table fills at this page size.
    pub num_pages: i64,
}

/// [`PaginationResult`] with its rows as a sequence and its figures as integers.
pub ghost struct PageView<T> {
    pub items: Seq<T>,
    pub total_items: int,
    pub page: int,
    pub page_size: int,
    pub num_pages: int,
}

impl<T> View for PaginationResult<T> {
    type V = PageView<T>;

    open spec fn view(&self) -> PageView<T> {
        PageView {
            items: self.items@,
            total_items: self.total_items as int,
            page: self.page as int,
            page_size: self.page_size as int,
            num_pages: self.num_pages as int,
        }
    }
}

/// The page size in use for a requested one: at least 1.
pub open spec fn page_size_in_use(page_size: int) -> int {
    if page_size < 1 {
        1
    } else {
        page_size
    }
}

/// The least number of pages of `page_size_in_use(page_size)` rows that hold `total_items` rows.
pub open spec fn pages_needed(total_items: int, page_size: int) -> int {
    let size = page_size_in_use(page_size);
    if total_items % size == 0 {
        total_items / size
    } else {
        total_items / size + 1
    }
}

/// The index of the last page, counted from 0; it is -1 for an empty table.
pub open spec fn last_page_index(total_items: int, page_size: int) -> int {
    pages_needed(total_items, page_size) - 1
}

/// The number of rows to skip before `page`, kept within what an `i64` holds.
pub open spec fn rows_to_skip(page: int, page_size: int) -> int {
    let exact = page * page_size_in_use(page_size);
    if exact > i64::MAX {
        i64::MAX as int
    } else if exact < i64::MIN {
        i64::MIN as int
    } else {
        exact
    }
}

/// Raises a requested page size to 1 where it is less.
pub fn clamp_page_size(page_size: i64) -> (size: i64)
    ensures
        size == page_size_in_use(page_size as int),
{
    if page_size < 1 {
        1
    } else {
        page_size
    }
}

/// The number of pages for a table of `total_items` rows, rounding up.
pub fn num_pages(total_items: i64, page_size: i64) -> (pages: i64)
    ensures
        pages == pages_needed(total_items as int, page_size as int),
{
    let size = clamp_page_size(page_size);
    let full = total_items / size;
    let rest = total_items % size;
    proof {
        lemma_truncated_division(total_items as int, size as int, full as int, rest as int);
    }
    if rest > 0 {
        full + 1
    } else {
        full
    }
}

/// The index of the last page of a table of `total_items` rows, counted from 0.
pub fn last_page_for(total_items: i64, page_size: i64) -> (page: i64)
    requires
        0 <= total_items,
    ensures
        page == last_page_index(total_items as int, page_size as int),
{
    let pages = num_pages(total_items, page_size);
    proof {
        lemma_pages_needed_bounds(total_items as int, page_size as int);
    }
    pages - 1
}

/// The offset at which `page` starts, kept within what an `i64` holds.
pub fn offset_for(page: i64, page_size: i64) -> (offset: i64)
    ensures
        offset == rows_to_skip(page as int, page_size as int),
{
    let size = clamp_page_size(page_size);
    match page.checked_mul(size) {
        Some(offset) => offset,
        None => {
            proof {
                assert(page < 0 ==> page * size < 0) by (nonlinear_arith)
                    requires
                        size >= 1,
                ;
                assert(page >= 0 ==> page * size >= 0) by (nonlinear_arith)
                    requires
                        size >= 1,
                ;
            }
            if page > 0 {
                i64::MAX
            } else {
                i64::MIN
            }
        },
    }
}

/// A table without rows fills no page, one with rows at least one, and never
/// more pages than it has rows.
pub proof fn lemma_pages_needed_bounds(total_items: int, page_size: int)
    requires
        0 <= total_items,
    ensures
        0 <= pages_needed(total_items, page_size) <= total_items,
        total_items > 0 ==> pages_needed(total_items, page_size) >= 1,
        (pages_needed(total_items, page_size) - 1) * page_size_in_use(page_size) < total_items
            || total_items == 0,
        total_items <= pages_needed(total_items, page_size) * page_size_in_use(page_size),
{
    let size = page_size_in_use(page_size);
    vstd::arithmetic::div_mod::lemma_fundamental_div_mod(total_items, size);
    let q = total_items / size;
    let r = total_items % size;
    assert(0 <= q <= total_items && (total_items > 0 && r == 0 ==> q >= 1) && (r > 0 ==> q < total_items)) by (nonlinear_arith)
        requires
            total_items == size * q + r,
            0 <= r < size,
            total_items >= 0,
    ;
    assert((q - 1) * size == size * q - size && (q + 1) * size == size * q + size && q * size == size * q) by (nonlinear_arith);
}

/// Ties the quotient and remainder that round towards zero to the ones that round down.
proof fn lemma_truncated_division(a: int, d: int, q: int, r: int)
    requires
        d >= 1,
        q == (if a >= 0 { a / d } else { -((-a) / d) }),
        r == (if a >= 0 { a % d } else { -((-a) % d) }),
    ensures
        r > 0 ==> a % d != 0 && a / d == q,
        r == 0 ==> a % d == 0 && a / d == q,
        r < 0 ==> a % d != 0 && a / d + 1 == q,
        r > 0 ==> q < a,
{
    if a >= 0 {
        vstd::arithmetic::div_mod::lemma_fundamental_div_mod(a, d);
        assert(r > 0 ==> q < a) by (nonlinear_arith)
            requires
                a == d * q + r,
                0 <= r < d,
                a >= 0,
        ;
    } else {
        let b = -a;
        let bq = b / d;
        let br = b % d;
        vstd::arithmetic::div_mod::lemma_fundamental_div_mod(b, d);
        if br == 0 {
            assert(a == (-bq) * d + 0) by (nonlinear_arith)
                requires
                    -a == d * bq + br,
                    br == 0,
            ;
            vstd::arithmetic::div_mod::lemma_fundamental_div_mod_converse(a, d, -bq, 0);
        } else {
            assert(a == (-bq - 1) * d + (d - br)) by (nonlinear_arith)
                requires
                    -a == d * bq + br,
            ;
            vstd::arithmetic::div_mod::lemma_fundamental_div_mod_converse(a, d, -bq - 1, d - br);
        }
    }
}

} // verus!
