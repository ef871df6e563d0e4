//! The pagination utility: one page of an already filtered and ordered
//! row sequence, together with the total row count before windowing.
//!
//! The page window starts at `page_index * page_size` (pages are
//! 0-based) and holds at most `page_size` rows; the page count is the
//! ceiling of `total / page_size`, and a page size of zero is a client
//! error. Pages of a fixed row sequence are disjoint and exhaustive:
//! enumerating every page yields each row exactly once.
use vstd::prelude::*;

use crate::error::Error;

verus! {

/// How many rows page `page_index` holds out of `total` rows at
/// `page_size` rows per page.
pub open spec fn window_len(total: nat, page_index: nat, page_size: nat) -> nat {
    let offset = page_index * page_size;
    if offset >= total {
        0
    } else if offset + page_size >= total {
        (total - offset) as nat
    } else {
        page_size
    }
}

/// The rows of page `page_index`: the window of `page_size` rows at
/// offset `page_index * page_size`, clipped to the end of the sequence.
pub open spec fn page_window<T>(s: Seq<T>, page_index: nat, page_size: nat) -> Seq<T> {
    let offset = page_index * page_size;
    if offset >= s.len() {
        Seq::empty()
    } else if offset + page_size >= s.len() {
        s.subrange(offset as int, s.len() as int)
    } else {
        s.subrange(offset as int, (offset + page_size) as int)
    }
}

/// The number of pages: the ceiling of `total / page_size`.
pub open spec fn page_count(total: nat, page_size: nat) -> nat
    recommends
        page_size >= 1,
{
    (total / page_size + if total % page_size != 0 {
        1nat
    } else {
        0nat
    }) as nat
}

/// Returns one page of `rows` and the total row count before windowing.
///
/// A zero or negative page size, or a negative page index, is a client
/// error; a page index at or beyond the page count yields an empty item
/// sequence with the correct total.
pub fn paginate<T>(rows: Vec<T>, page_index: i32, page_size: i32) -> (r: Result<
    (Vec<T>, usize),
    Error,
>)
    ensures
        page_index < 0 || page_size < 1 ==> r == Err::<(Vec<T>, usize), Error>(Error::BadRequest),
        page_index >= 0 && page_size >= 1 ==> (r matches Ok(page) && {
            &&& page.1 == rows@.len()
            &&& page.0@ == page_window(rows@, page_index as nat, page_size as nat)
            &&& page.0@.len() == window_len(rows@.len(), page_index as nat, page_size as nat)
            &&& page.0@.len() <= page_size
        }),
{
    if page_index < 0 || page_size < 1 {
        return Err(Error::BadRequest);
    }
    let total: usize = rows.len();
    proof {
        assert((page_index as int) * (page_size as int) < 0x10000000000000000int)
            by (nonlinear_arith)
            requires
                0 <= page_index < 0x80000000,
                0 <= page_size < 0x80000000,
        ;
    }
    let offset: u128 = (page_index as u128) * (page_size as u128);
    if offset >= total as u128 {
        let items: Vec<T> = Vec::new();
        assert(items@ =~= page_window(rows@, page_index as nat, page_size as nat));
        return Ok((items, total));
    }
    let start: usize = offset as usize;
    let mut v = rows;
    let mut items = v.split_off(start);
    items.truncate(page_size as usize);
    proof {
        let ps = page_size as nat;
        let pw = page_window(v@ + items@, page_index as nat, ps);
        assert(items@ =~= pw);
    }
    Ok((items, total))
}

/// The sum of the window lengths of the first `pages` pages.
pub open spec fn sum_window_lens(total: nat, page_size: nat, pages: nat) -> nat
    decreases pages,
{
    if pages == 0 {
        0
    } else {
        sum_window_lens(total, page_size, (pages - 1) as nat) + window_len(
            total,
            (pages - 1) as nat,
            page_size,
        )
    }
}

/// The first `pages` pages hold `pages * page_size` rows, clipped to the
/// total.
pub proof fn lemma_sum_window_lens(total: nat, page_size: nat, pages: nat)
    requires
        page_size >= 1,
    ensures
        sum_window_lens(total, page_size, pages) == if pages * page_size >= total {
            total
        } else {
            (pages * page_size) as nat
        },
    decreases pages,
{
    if pages == 0 {
        assert(pages * page_size == 0) by (nonlinear_arith)
            requires
                pages == 0,
        ;
    } else {
        let prev = (pages - 1) as nat;
        lemma_sum_window_lens(total, page_size, prev);
        assert(pages * page_size == prev * page_size + page_size) by (nonlinear_arith)
            requires
                prev == pages - 1,
                pages >= 1,
        ;
        assert(prev * page_size >= 0) by (nonlinear_arith);
        assert(sum_window_lens(total, page_size, pages) == sum_window_lens(
            total,
            page_size,
            prev,
        ) + window_len(total, prev, page_size));
    }
}

/// Enumerating every page of a fixed row sequence yields each row
/// exactly once: the window lengths of all `page_count` pages sum to the
/// total row count.
pub proof fn lemma_pages_exhaustive(total: nat, page_size: nat, pages: nat)
    requires
        page_size >= 1,
        pages >= page_count(total, page_size),
    ensures
        sum_window_lens(total, page_size, pages) == total,
{
    lemma_sum_window_lens(total, page_size, pages);
    let pc = page_count(total, page_size);
    assert(pc * page_size >= total) by {
        vstd::arithmetic::div_mod::lemma_fundamental_div_mod(total as int, page_size as int);
        assert((total / page_size + if total % page_size != 0 { 1int } else { 0int })
            * page_size >= total) by (nonlinear_arith)
            requires
                total == page_size * (total / page_size) + total % page_size,
                0 <= total % page_size < page_size,
        ;
    }
    assert(pages * page_size >= pc * page_size) by (nonlinear_arith)
        requires
            pages >= pc,
            page_size >= 1,
    ;
}

/// A page's window holds exactly its window length of rows, so summing
/// the window lengths of all pages counts each row of the sequence
/// exactly once.
pub proof fn lemma_page_window_len<T>(s: Seq<T>, page_index: nat, page_size: nat)
    ensures
        page_window(s, page_index, page_size).len() == window_len(
            s.len(),
            page_index,
            page_size,
        ),
{
}

/// Any two distinct pages of a fixed row sequence are disjoint: an
/// earlier page's whole index window ends before a later page's begins.
pub proof fn lemma_pages_disjoint(i: nat, j: nat, page_size: nat)
    requires
        page_size >= 1,
        i < j,
    ensures
        i * page_size + page_size <= j * page_size,
{
    assert(i * page_size + page_size <= j * page_size) by (nonlinear_arith)
        requires
            i < j,
            page_size >= 1,
    ;
}

} // verus!
