//! Laws that relate the operations of the containers to one another.
use vstd::prelude::*;

use crate::key::{into_specified, key_of, keys_round_trip, lookup, position_of};
use crate::slice::enumeration;

verus! {

/// The values that `start` holds after `vals` were pushed onto it one after
/// another, as `push` states each step.
pub open spec fn pushed_all<V>(start: Seq<V>, vals: Seq<V>) -> Seq<V>
    decreases vals.len(),
{
    if vals.len() == 0 {
        start
    } else {
        pushed_all(start, vals.drop_last()).push(vals.last())
    }
}

/// The items that repeated calls of `next` hand out, one after another, from a
/// traversal that has `r` still to come, as `next` states each step.
pub open spec fn taken_from_front<T>(r: Seq<T>) -> Seq<T>
    decreases r.len(),
{
    if r.len() == 0 {
        Seq::empty()
    } else {
        seq![r[0]] + taken_from_front(r.drop_first())
    }
}

/// The items that repeated calls of `next_back` hand out, one after another,
/// from a traversal that has `r` still to come, as `next_back` states each step.
pub open spec fn taken_from_back<T>(r: Seq<T>) -> Seq<T>
    decreases r.len(),
{
    if r.len() == 0 {
        Seq::empty()
    } else {
        seq![r.last()] + taken_from_back(r.drop_last())
    }
}

/// After a sequence of pushes onto an empty container, the container holds the
/// pushed values in order: its length is their number, and the key built from
/// position `i` finds the `i`-th of them.
pub proof fn lemma_pushes_then_get<K: Into<usize> + From<usize>, V>(vals: Seq<V>, i: usize)
    requires
        keys_round_trip::<K>(),
        i < vals.len(),
    ensures
        pushed_all(Seq::<V>::empty(), vals).len() == vals.len(),
        lookup(pushed_all(Seq::<V>::empty(), vals), position_of(key_of::<K>(i))) == Some(&vals[i as int]),
{
    lemma_pushed_all_empty(vals);
    assert(position_of(key_of::<K>(i)) == i as int);
}

/// Pushing a sequence of values onto an empty container leaves exactly those
/// values, in order.
pub proof fn lemma_pushed_all_empty<V>(vals: Seq<V>)
    ensures
        pushed_all(Seq::<V>::empty(), vals) == vals,
    decreases vals.len(),
{
    if vals.len() > 0 {
        lemma_pushed_all_empty(vals.drop_last());
        assert(vals.drop_last().push(vals.last()) =~= vals);
    }
}

/// A checked read at a position that is not below the length finds nothing,
/// whatever the values are.
pub proof fn lemma_get_past_end<V>(values: Seq<V>, p: int)
    requires
        p >= values.len(),
    ensures
        lookup(values, p) is None,
{
}

/// A traversal from the front hands out each value with its position, in
/// position order; one from the back hands out the very same pairs in reverse.
pub proof fn lemma_enumeration_order<V>(values: Seq<V>)
    ensures
        taken_from_front(enumeration(values)).len() == values.len(),
        forall|i: int| 0 <= i < values.len() ==> #[trigger] taken_from_front(enumeration(values))[i]
            == (i as usize, values[i]),
        taken_from_back(enumeration(values)) == taken_from_front(enumeration(values)).reverse(),
{
    lemma_taken_from_front(enumeration(values));
    lemma_taken_from_back(enumeration(values));
}

/// Repeated calls of `next` hand out what was still to come, in order.
pub proof fn lemma_taken_from_front<T>(r: Seq<T>)
    ensures
        taken_from_front(r) == r,
    decreases r.len(),
{
    if r.len() > 0 {
        lemma_taken_from_front(r.drop_first());
        assert(seq![r[0]] + r.drop_first() =~= r);
    }
}

/// Repeated calls of `next_back` hand out what was still to come, in reverse.
pub proof fn lemma_taken_from_back<T>(r: Seq<T>)
    ensures
        taken_from_back(r) == r.reverse(),
    decreases r.len(),
{
    if r.len() > 0 {
        lemma_taken_from_back(r.drop_last());
        assert(seq![r.last()] + r.drop_last().reverse() =~= r.reverse());
    }
}

/// After `fill(v)`, a checked read at any position below the length finds a
/// clone of `v`.
pub proof fn lemma_fill_then_get<V: Clone>(values: Seq<V>, v: V, p: int)
    requires
        forall|i: int| 0 <= i < values.len() ==> cloned(v, #[trigger] values[i]),
        0 <= p < values.len(),
    ensures
        lookup(values, p) is Some,
        cloned(v, *lookup(values, p).unwrap()),
{
}

/// Taking the values out of a container (`into_vec`) and handing them to a
/// container of any other key type (`from_vec`) keeps the values and their
/// order: a key of the new type finds what a key of the old type for the same
/// position found. The key type is not part of what is kept.
pub proof fn lemma_values_round_trip<K1: Into<usize>, K2: Into<usize>, V>(
    kept: Seq<V>,
    taken_out: Seq<V>,
    brought_back: Seq<V>,
    old_key: K1,
    new_key: K2,
)
    requires
        into_specified::<K1>(),
        into_specified::<K2>(),
        taken_out == kept,
        brought_back == taken_out,
        position_of(old_key) == position_of(new_key),
    ensures
        brought_back.len() == kept.len(),
        lookup(brought_back, position_of(new_key)) == lookup(kept, position_of(old_key)),
{
}

/// Splitting a view into two parts at any position, handing the parts to
/// separate workers and putting what they saw together gives the same multiset
/// of values as one traversal of the whole.
pub proof fn lemma_split_keeps_values<V>(values: Seq<V>, mid: int)
    requires
        0 <= mid <= values.len(),
    ensures
        values.subrange(0, mid).to_multiset().add(
            values.subrange(mid, values.len() as int).to_multiset(),
        ) == values.to_multiset(),
        values.subrange(0, mid) + values.subrange(mid, values.len() as int) == values,
{
    vstd::seq_lib::lemma_multiset_commutative(
        values.subrange(0, mid),
        values.subrange(mid, values.len() as int),
    );
    assert(values.subrange(0, mid) + values.subrange(mid, values.len() as int) =~= values);
}

} // verus!
