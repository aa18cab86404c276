//! Keyset pagination: where a listing resumes, and which stretch of an
//! ordered catalog makes the next page.

use vstd::prelude::*;
use crate::text::lemma_precedes_total;
use crate::text::lemma_precedes_transitive;
use crate::text::precedes;
use crate::text::text_equal;
use crate::text::text_precedes;

verus! {

/// What a record is ordered by: its timestamp, and its identifier where two
/// timestamps are the same.
pub ghost struct Key {
    pub stamp: Seq<char>,
    pub id: Seq<char>,
}

/// Whether the record with key `a` is listed after the one with key `b`:
/// listings run from the latest timestamp to the earliest.
pub open spec fn key_below(a: Key, b: Key) -> bool {
    precedes(a.stamp, b.stamp) || (a.stamp == b.stamp && precedes(a.id, b.id))
}

/// No key is below itself, and of two keys at most one is below the other.
pub proof fn lemma_key_below_asymmetric(a: Key, b: Key)
    ensures
        !(key_below(a, b) && key_below(b, a)),
        a == b ==> !key_below(a, b),
{
    lemma_precedes_total(a.stamp, b.stamp);
    lemma_precedes_total(a.id, b.id);
}

/// Of two different keys one is below the other.
pub proof fn lemma_key_below_total(a: Key, b: Key)
    ensures
        a != b ==> key_below(a, b) || key_below(b, a),
{
    lemma_precedes_total(a.stamp, b.stamp);
    lemma_precedes_total(a.id, b.id);
}

/// The order of keys is transitive.
pub proof fn lemma_key_below_transitive(a: Key, b: Key, c: Key)
    requires
        key_below(a, b),
        key_below(b, c),
    ensures
        key_below(a, c),
{
    lemma_precedes_total(a.stamp, b.stamp);
    lemma_precedes_total(b.stamp, c.stamp);
    if precedes(a.stamp, b.stamp) && precedes(b.stamp, c.stamp) {
        lemma_precedes_transitive(a.stamp, b.stamp, c.stamp);
    }
    if a.stamp == b.stamp && b.stamp == c.stamp {
        lemma_precedes_transitive(a.id, b.id, c.id);
    }
}

/// Whether keys run strictly downward: each is below all that stand before it.
pub open spec fn descending(keys: Seq<Key>) -> bool {
    forall|i: int, j: int| 0 <= i < j < keys.len() ==> key_below(#[trigger] keys[j], #[trigger] keys[i])
}

/// Where a listing resumes.
#[derive(Debug)]
pub enum Token {
    /// At the top: with the latest record.
    Start,
    /// Behind the record with this timestamp and identifier.
    After { stamp: String, id: String },
}

/// The contents of a `Token`.
pub ghost enum Mark {
    Start,
    After(Key),
}

impl View for Token {
    type V = Mark;

    open spec fn view(&self) -> Mark {
        match self {
            Token::Start => Mark::Start,
            Token::After { stamp, id } => Mark::After(Key { stamp: stamp@, id: id@ }),
        }
    }
}

impl Clone for Token {
    fn clone(&self) -> (copy: Self)
        ensures
            copy == *self,
    {
        match self {
            Token::Start => Token::Start,
            Token::After { stamp, id } => Token::After { stamp: stamp.clone(), id: id.clone() },
        }
    }
}

/// Whether a record with key `key` is still to come behind `from`.
pub open spec fn is_behind(key: Key, from: Mark) -> bool {
    match from {
        Mark::Start => true,
        Mark::After(last) => key_below(key, last),
    }
}

/// The first position at or after `at` whose key is behind `from`, or the
/// length of `keys` where there is none.
pub open spec fn first_behind(keys: Seq<Key>, from: Mark, at: int) -> int
    decreases keys.len() - at,
{
    if at < 0 || at >= keys.len() || is_behind(keys[at], from) {
        at
    } else {
        first_behind(keys, from, at + 1)
    }
}

/// The position at which the page behind `from` starts.
pub open spec fn page_start(keys: Seq<Key>, from: Mark) -> int {
    first_behind(keys, from, 0)
}

/// The position before which the page behind `from` ends: it holds `size`
/// records, or those that are left.
pub open spec fn page_end(keys: Seq<Key>, from: Mark, size: int) -> int {
    if page_start(keys, from) + size < keys.len() {
        page_start(keys, from) + size
    } else {
        keys.len() as int
    }
}

/// Whether records are left behind the page that starts behind `from`.
pub open spec fn has_more(keys: Seq<Key>, from: Mark, size: int) -> bool {
    page_start(keys, from) + size < keys.len()
}

/// Where the listing resumes after the page behind `from`: behind the last
/// record of that page, or at `from` again where the page is empty.
pub open spec fn next_mark(keys: Seq<Key>, from: Mark, size: int) -> Mark {
    if page_start(keys, from) < page_end(keys, from, size) {
        Mark::After(keys[page_end(keys, from, size) - 1])
    } else {
        from
    }
}

/// The start of a page lies within the keys; every key before it is not
/// behind the mark, and the key at it is.
pub proof fn lemma_first_behind(keys: Seq<Key>, from: Mark, at: int)
    requires
        0 <= at <= keys.len(),
    ensures
        at <= first_behind(keys, from, at) <= keys.len(),
        forall|i: int| at <= i < first_behind(keys, from, at) ==> !is_behind(#[trigger] keys[i], from),
        first_behind(keys, from, at) < keys.len() ==> is_behind(
            keys[first_behind(keys, from, at)],
            from,
        ),
    decreases keys.len() - at,
{
    if at < keys.len() && !is_behind(keys[at], from) {
        lemma_first_behind(keys, from, at + 1);
    }
}

impl Token {
    /// Decides whether the record with the given timestamp and identifier is
    /// still to come behind this token.
    pub fn admits(&self, stamp: &str, id: &str) -> (r: bool)
        ensures
            r == is_behind(Key { stamp: stamp@, id: id@ }, self@),
    {
        match self {
            Token::Start => true,
            Token::After { stamp: last_stamp, id: last_id } => {
                if text_precedes(stamp, last_stamp.as_str()) {
                    true
                } else if text_equal(stamp, last_stamp.as_str()) {
                    text_precedes(id, last_id.as_str())
                } else {
                    false
                }
            },
        }
    }
}

/// Where a listing stands after a page, and whether it goes on.
#[derive(Debug)]
pub struct Cursor {
    pub has_next: bool,
    pub next: Token,
}

/// A stretch of a listing.
#[derive(Debug)]
pub struct Page<T> {
    pub cursor: Cursor,
    pub items: Vec<T>,
}

/// A record that has its place in a listing.
pub trait Keyed {
    /// The key by which the record is ordered.
    spec fn key(&self) -> Key;

    /// The timestamp by which the record is ordered.
    fn stamp(&self) -> (stamp: &String)
        ensures
            stamp@ == self.key().stamp,
    ;

    /// The identifier that orders records of one timestamp.
    fn ident(&self) -> (id: &String)
        ensures
            id@ == self.key().id,
    ;
}

/// The keys of a list of records.
pub open spec fn keys_of<T: Keyed>(records: Seq<T>) -> Seq<Key> {
    records.map_values(|r: T| r.key())
}

/// What a page holds and where the listing stands after it.
pub ghost struct Listing<V> {
    pub items: Seq<V>,
    pub has_next: bool,
    pub next: Mark,
}

/// The page of `records` that follows `from`: up to `size` records in
/// listing order, whether more are left, and where to resume. `keys` are the
/// records' keys.
pub open spec fn listing<V>(records: Seq<V>, keys: Seq<Key>, from: Mark, size: int) -> Listing<V> {
    Listing {
        items: records.subrange(page_start(keys, from), page_end(keys, from, size)),
        has_next: has_more(keys, from, size),
        next: next_mark(keys, from, size),
    }
}

/// The stretch of a list that makes a page, and what the cursor says after it.
pub struct Span {
    pub start: usize,
    pub end: usize,
    pub has_next: bool,
}

/// Finds the page that follows `from` in `records`: where it starts, where
/// it ends, and whether records are left behind it.
pub fn span_of<T: Keyed>(records: &Vec<T>, from: &Token, size: usize) -> (span: Span)
    ensures
        span.start == page_start(keys_of(records@), from@),
        span.end == page_end(keys_of(records@), from@, size as int),
        span.has_next == has_more(keys_of(records@), from@, size as int),
        span.start <= span.end <= records.len(),
{
    let ghost keys = keys_of(records@);
    let mut start: usize = 0;
    while start < records.len() && !from.admits(records[start].stamp().as_str(), records[start].ident().as_str())
        invariant
            keys == keys_of(records@),
            0 <= start <= records.len(),
            first_behind(keys, from@, 0) == first_behind(keys, from@, start as int),
        decreases records.len() - start,
    {
        start = start + 1;
    }
    let left: usize = records.len() - start;
    if size < left {
        Span { start, end: start + size, has_next: true }
    } else {
        Span { start, end: records.len(), has_next: false }
    }
}

/// Makes the page of `records` that follows `from`: copies of up to `size`
/// records in listing order, and the cursor behind them.
pub fn page_of<T: Keyed + Clone>(records: &Vec<T>, from: &Token, size: usize) -> (page: Page<T>)
    ensures
        page.items@.len() == page_end(keys_of(records@), from@, size as int) - page_start(
            keys_of(records@),
            from@,
        ),
        forall|i: int|
            0 <= i < page.items@.len() ==> cloned(
                #[trigger] records@[page_start(keys_of(records@), from@) + i],
                page.items@[i],
            ),
        page.cursor.has_next == has_more(keys_of(records@), from@, size as int),
        page.cursor.next@ == next_mark(keys_of(records@), from@, size as int),
        0 <= page_start(keys_of(records@), from@) <= page_end(keys_of(records@), from@, size as int)
            <= records.len(),
{
    let span = span_of(records, from, size);
    let mut items: Vec<T> = Vec::new();
    let mut at: usize = span.start;
    while at < span.end
        invariant
            span.start <= at <= span.end <= records.len(),
            items@.len() == at - span.start,
            forall|i: int|
                0 <= i < items@.len() ==> cloned(#[trigger] records@[span.start + i], items@[i]),
        decreases span.end - at,
    {
        items.push(records[at].clone());
        at = at + 1;
    }
    let next = if span.start < span.end {
        let last = &records[span.end - 1];
        Token::After { stamp: last.stamp().clone(), id: last.ident().clone() }
    } else {
        from.clone()
    };
    Page { cursor: Cursor { has_next: span.has_next, next }, items }
}

} // verus!
