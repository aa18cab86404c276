//! Walking a listing page by page: every record is met once, in order.

use vstd::prelude::*;
use crate::cursor::descending;
use crate::cursor::has_more;
use crate::cursor::is_behind;
use crate::cursor::lemma_first_behind;
use crate::cursor::lemma_key_below_asymmetric;
use crate::cursor::listing;
use crate::cursor::next_mark;
use crate::cursor::page_end;
use crate::cursor::page_start;
use crate::cursor::Key;
use crate::cursor::Mark;

verus! {

/// The position at which a page starts is the only one whose key is behind
/// the mark while no key before it is.
pub proof fn lemma_page_start_is(keys: Seq<Key>, from: Mark, at: int)
    requires
        0 <= at <= keys.len(),
        forall|i: int| 0 <= i < at ==> !is_behind(#[trigger] keys[i], from),
        at < keys.len() ==> is_behind(keys[at], from),
    ensures
        page_start(keys, from) == at,
{
    lemma_first_behind(keys, from, 0);
    let start = page_start(keys, from);
    if start < at {
        assert(!is_behind(keys[start], from));
    }
}

/// Behind a page that leaves records over, the next page starts where that
/// page ended.
pub proof fn lemma_page_advances(keys: Seq<Key>, from: Mark, size: int)
    requires
        descending(keys),
        size > 0,
        has_more(keys, from, size),
    ensures
        page_start(keys, next_mark(keys, from, size)) == page_end(keys, from, size),
        page_start(keys, from) < page_end(keys, from, size) < keys.len(),
{
    lemma_first_behind(keys, from, 0);
    let end = page_end(keys, from, size);
    let next = next_mark(keys, from, size);
    assert(next == Mark::After(keys[end - 1]));
    assert forall|i: int| 0 <= i < end implies !is_behind(#[trigger] keys[i], next) by {
        lemma_key_below_asymmetric(keys[i], keys[end - 1]);
    }
    lemma_page_start_is(keys, next, end);
}

/// The records met by asking for the page behind `from`, then for the page
/// behind the token that came back, and so on until a page says that
/// nothing is left. `keys` are the records' keys.
pub open spec fn walk<V>(records: Seq<V>, keys: Seq<Key>, from: Mark, size: int) -> Seq<V>
    decreases keys.len() - page_start(keys, from),
    when descending(keys) && size > 0
{
    let page = listing(records, keys, from, size);
    if page.has_next {
        proof {
            lemma_page_advances(keys, from, size);
        }
        page.items + walk(records, keys, page.next, size)
    } else {
        page.items
    }
}

/// A walk from any token meets every record behind it once, in listing
/// order.
pub proof fn lemma_walk_from<V>(records: Seq<V>, keys: Seq<Key>, from: Mark, size: int)
    requires
        records.len() == keys.len(),
        descending(keys),
        size > 0,
    ensures
        walk(records, keys, from, size) == records.skip(page_start(keys, from)),
    decreases keys.len() - page_start(keys, from),
{
    lemma_first_behind(keys, from, 0);
    let start = page_start(keys, from);
    let end = page_end(keys, from, size);
    if has_more(keys, from, size) {
        lemma_page_advances(keys, from, size);
        lemma_walk_from(records, keys, next_mark(keys, from, size), size);
        assert(records.subrange(start, end) + records.skip(end) =~= records.skip(start));
    } else {
        assert(records.subrange(start, end) =~= records.skip(start));
    }
}

/// Walking a listing from the top until a page says that nothing is left
/// meets every record exactly once, the latest first: the pages, put end to
/// end, are the listing.
pub proof fn walk_is_complete<V>(records: Seq<V>, keys: Seq<Key>, size: int)
    requires
        records.len() == keys.len(),
        descending(keys),
        size > 0,
    ensures
        walk(records, keys, Mark::Start, size) == records,
{
    lemma_walk_from(records, keys, Mark::Start, size);
    assert(records.skip(0) =~= records);
}

} // verus!
