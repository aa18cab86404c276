//! An ordered catalog of records: each identifier at most once, the latest
//! timestamp first.

use vstd::prelude::*;
use crate::cursor::descending;
use crate::cursor::is_behind;
use crate::cursor::key_below;
use crate::cursor::keys_of;
use crate::cursor::lemma_first_behind;
use crate::cursor::lemma_key_below_total;
use crate::cursor::lemma_key_below_transitive;
use crate::cursor::page_start;
use crate::cursor::span_of;
use crate::cursor::Key;
use crate::cursor::Keyed;
use crate::cursor::Mark;
use crate::cursor::Token;
use crate::text::text_equal;

verus! {

/// Whether no identifier occurs twice among the keys.
pub open spec fn distinct_ids(keys: Seq<Key>) -> bool {
    forall|i: int, j: int|
        0 <= i < keys.len() && 0 <= j < keys.len() && i != j ==> (#[trigger] keys[i]).id != (
        #[trigger] keys[j]).id
}

/// Whether the keys are those of a catalog: in listing order, each
/// identifier once.
pub open spec fn ordered(keys: Seq<Key>) -> bool {
    descending(keys) && distinct_ids(keys)
}

/// The first position at or after `at` of a record with identifier `id`, or
/// the length of `keys` where there is none.
pub open spec fn first_with_id(keys: Seq<Key>, id: Seq<char>, at: int) -> int
    decreases keys.len() - at,
{
    if at < 0 || at >= keys.len() || keys[at].id == id {
        at
    } else {
        first_with_id(keys, id, at + 1)
    }
}

/// The position of the record with identifier `id`, or the length of `keys`
/// where the catalog holds none.
pub open spec fn position_of(keys: Seq<Key>, id: Seq<char>) -> int {
    first_with_id(keys, id, 0)
}

/// Whether the catalog holds a record with identifier `id`.
pub open spec fn holds(keys: Seq<Key>, id: Seq<char>) -> bool {
    position_of(keys, id) < keys.len()
}

/// The position at which a record with key `key` enters the catalog: behind
/// every record that is listed before it.
pub open spec fn rank_of(keys: Seq<Key>, key: Key) -> int {
    page_start(keys, Mark::After(key))
}

/// The position of an identifier lies within the keys or at their end; no
/// record before it has the identifier, and the record at it has.
pub proof fn lemma_first_with_id(keys: Seq<Key>, id: Seq<char>, at: int)
    requires
        0 <= at <= keys.len(),
    ensures
        at <= first_with_id(keys, id, at) <= keys.len(),
        forall|i: int| at <= i < first_with_id(keys, id, at) ==> (#[trigger] keys[i]).id != id,
        first_with_id(keys, id, at) < keys.len() ==> keys[first_with_id(keys, id, at)].id == id,
    decreases keys.len() - at,
{
    if at < keys.len() && keys[at].id != id {
        lemma_first_with_id(keys, id, at + 1);
    }
}

/// A catalog holds an identifier exactly if one of its records has it, and
/// then `position_of` is where that record stands.
pub proof fn lemma_position_of(keys: Seq<Key>, id: Seq<char>)
    ensures
        0 <= position_of(keys, id) <= keys.len(),
        holds(keys, id) <==> exists|i: int| 0 <= i < keys.len() && (#[trigger] keys[i]).id == id,
        holds(keys, id) ==> keys[position_of(keys, id)].id == id,
        forall|i: int| 0 <= i < position_of(keys, id) ==> (#[trigger] keys[i]).id != id,
        distinct_ids(keys) ==> forall|i: int|
            0 <= i < keys.len() && (#[trigger] keys[i]).id == id ==> i == position_of(keys, id),
{
    lemma_first_with_id(keys, id, 0);
}

/// A record that enters a catalog at its rank leaves the catalog ordered,
/// provided its identifier is new.
pub proof fn lemma_insert_keeps_order(keys: Seq<Key>, key: Key)
    requires
        ordered(keys),
        !holds(keys, key.id),
    ensures
        0 <= rank_of(keys, key) <= keys.len(),
        ordered(keys.insert(rank_of(keys, key), key)),
{
    let rank = rank_of(keys, key);
    let after = keys.insert(rank, key);
    lemma_first_behind(keys, Mark::After(key), 0);
    lemma_position_of(keys, key.id);
    assert forall|i: int, j: int| 0 <= i < j < after.len() implies key_below(
        #[trigger] after[j],
        #[trigger] after[i],
    ) by {
        if j < rank {
            assert(after[i] == keys[i] && after[j] == keys[j]);
        } else if j == rank {
            assert(after[i] == keys[i]);
            assert(!is_behind(keys[i], Mark::After(key)));
            assert(keys[i].id != key.id);
            lemma_key_below_total(keys[i], key);
        } else if i < rank {
            assert(after[i] == keys[i] && after[j] == keys[j - 1]);
        } else if i == rank {
            assert(after[j] == keys[j - 1]);
            assert(is_behind(keys[rank], Mark::After(key)));
            if j - 1 > rank {
                lemma_key_below_transitive(keys[j - 1], keys[rank], key);
            }
        } else {
            assert(after[i] == keys[i - 1] && after[j] == keys[j - 1]);
        }
    }
    assert forall|i: int, j: int|
        0 <= i < after.len() && 0 <= j < after.len() && i != j implies (#[trigger] after[i]).id != (
    #[trigger] after[j]).id by {
        let a = if i < rank { i } else { i - 1 };
        let b = if j < rank { j } else { j - 1 };
        if i != rank {
            assert(after[i] == keys[a]);
        }
        if j != rank {
            assert(after[j] == keys[b]);
        }
    }
}

/// A catalog stays ordered when one of its records leaves.
pub proof fn lemma_remove_keeps_order(keys: Seq<Key>, at: int)
    requires
        ordered(keys),
        0 <= at < keys.len(),
    ensures
        ordered(keys.remove(at)),
        !holds(keys.remove(at), keys[at].id),
{
    let after = keys.remove(at);
    assert forall|i: int, j: int| 0 <= i < j < after.len() implies key_below(
        #[trigger] after[j],
        #[trigger] after[i],
    ) by {
        let a = if i < at { i } else { i + 1 };
        let b = if j < at { j } else { j + 1 };
        assert(after[i] == keys[a] && after[j] == keys[b]);
    }
    assert forall|i: int, j: int|
        0 <= i < after.len() && 0 <= j < after.len() && i != j implies (#[trigger] after[i]).id != (
    #[trigger] after[j]).id by {
        let a = if i < at { i } else { i + 1 };
        let b = if j < at { j } else { j + 1 };
        assert(after[i] == keys[a] && after[j] == keys[b]);
    }
    lemma_position_of(after, keys[at].id);
    if holds(after, keys[at].id) {
        let i = position_of(after, keys[at].id);
        let a = if i < at { i } else { i + 1 };
        assert(after[i] == keys[a]);
    }
}

/// Finds the record with identifier `id`: its position, or the number of
/// records where there is none.
pub fn find<T: Keyed>(records: &Vec<T>, id: &str) -> (position: usize)
    ensures
        position == position_of(keys_of(records@), id@),
        position <= records.len(),
{
    let ghost keys = keys_of(records@);
    let mut position: usize = 0;
    while position < records.len() && !text_equal(records[position].ident().as_str(), id)
        invariant
            keys == keys_of(records@),
            0 <= position <= records.len(),
            first_with_id(keys, id@, 0) == first_with_id(keys, id@, position as int),
        decreases records.len() - position,
    {
        position = position + 1;
    }
    position
}

/// Finds the position at which a record with the given timestamp and
/// identifier enters the catalog.
pub fn rank<T: Keyed>(records: &Vec<T>, stamp: &String, id: &String) -> (position: usize)
    ensures
        position == rank_of(keys_of(records@), Key { stamp: stamp@, id: id@ }),
        position <= records.len(),
{
    let behind = Token::After { stamp: stamp.clone(), id: id.clone() };
    span_of(records, &behind, 0).start
}

} // verus!
