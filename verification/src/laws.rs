//! What holds of the map builder, whatever is submitted to it.
//!
//! The laws are stated over [`MapModel`], in whose terms the contracts of
//! the map, struct and struct variant calls are written.

use crate::ser::MapModel;
use crate::tree::{lemma_put_fresh_key, lemma_put_into_empty, put_entry, Tree};
use vstd::prelude::*;

verus! {

/// The map after the pairs of `pairs` are submitted in order, each as a key
/// followed by its value.
pub open spec fn with_entries(map: MapModel, pairs: Seq<(Tree, Tree)>) -> MapModel
    decreases pairs.len(),
{
    if pairs.len() == 0 {
        MapModel { key: None, entries: map.entries }
    } else {
        with_entries(map, pairs.drop_last()).with_entry(pairs.last().0, pairs.last().1)
    }
}

/// No two of the pairs have the same key.
pub open spec fn distinct_keys(pairs: Seq<(Tree, Tree)>) -> bool {
    forall|i: int, j: int| 0 <= i < j < pairs.len() ==> pairs[i].0 != pairs[j].0
}

/// A value is accepted exactly where a key waits for it.
pub proof fn law_value_needs_key(map: MapModel, value: Tree)
    ensures
        map.with_value(value) is Some <==> map.key is Some,
{
}

/// A value consumes the key it is paired with: of two values submitted one
/// right after the other, the second is refused, whether the first was
/// accepted or not.
pub proof fn law_second_value_is_refused(map: MapModel, first: Tree, second: Tree)
    ensures
        (match map.with_value(first) {
            Some(next) => next.with_value(second) is None,
            None => map.with_value(second) is None,
        }),
{
}

/// A key followed by a value is always accepted, puts the pair into the
/// hash, and leaves no key waiting.
pub proof fn law_key_then_value(map: MapModel, key: Tree, value: Tree)
    ensures
        map.with_key(key).with_value(value) == Some(map.with_entry(key, value)),
        map.with_entry(key, value).key is None,
        map.with_entry(key, value).entries == put_entry(map.entries, key, value),
{
}

/// Key, value, key, value on a map just opened is accepted throughout. With
/// two different keys the hash then holds both pairs in the order of
/// submission; with the same key twice it holds the second pair alone.
pub proof fn law_two_pairs(k1: Tree, v1: Tree, k2: Tree, v2: Tree)
    ensures
        MapModel::empty().with_key(k1).with_value(v1) matches Some(first)
            && first.with_key(k2).with_value(v2) matches Some(second) && second.key is None
            && second.entries == if k1 == k2 {
            seq![(k2, v2)]
        } else {
            seq![(k1, v1), (k2, v2)]
        },
{
    lemma_put_into_empty(k1, v1);
    let first = seq![(k1, v1)];
    if k1 == k2 {
        reveal_with_fuel(Seq::filter, 2);
        assert(first.drop_last() =~= Seq::empty());
        assert(put_entry(first, k2, v2) =~= seq![(k2, v2)]);
    } else {
        lemma_put_fresh_key(first, k2, v2);
        assert(first.push((k2, v2)) =~= seq![(k1, v1), (k2, v2)]);
    }
}

/// Insertion order is kept: pairs with different keys, submitted in order to
/// a map just opened, are the entries of the hash in that same order.
pub proof fn law_insertion_order(pairs: Seq<(Tree, Tree)>)
    requires
        distinct_keys(pairs),
    ensures
        with_entries(MapModel::empty(), pairs).entries == pairs,
        with_entries(MapModel::empty(), pairs).key is None,
    decreases pairs.len(),
{
    if pairs.len() > 0 {
        let front = pairs.drop_last();
        law_insertion_order(front);
        lemma_put_fresh_key(front, pairs.last().0, pairs.last().1);
        assert(front.push(pairs.last()) =~= pairs);
    } else {
        assert(pairs =~= Seq::empty());
    }
}

} // verus!
