//! The conversion between keys and positions.
//!
//! A key type converts into a position through `Into<usize>`, used by every keyed
//! read and write, and may be built from a position through `From<usize>`, used
//! only where a traversal hands keys back. Neither conversion is checked against
//! the length of a container: a key that stands for a position past the end is
//! simply not found.
use vstd::prelude::*;
use vstd::std_specs::convert::{FromSpec, IntoSpec};

verus! {

/// Verus knows what the `Into<usize>` conversion of `K` returns.
pub open spec fn into_specified<K: Into<usize>>() -> bool {
    <K as IntoSpec<usize>>::obeys_into_spec()
}

/// Verus knows what the `From<usize>` conversion of `K` returns.
pub open spec fn from_specified<K: From<usize>>() -> bool {
    <K as FromSpec<usize>>::obeys_from_spec()
}

/// The position that `key` stands for, as its `Into<usize>` conversion states it.
pub open spec fn position_of<K: Into<usize>>(key: K) -> int {
    <K as IntoSpec<usize>>::into_spec(key) as int
}

/// The key that position `p` gives, as its `From<usize>` conversion states it.
pub open spec fn key_of<K: From<usize>>(p: usize) -> K {
    <K as FromSpec<usize>>::from_spec(p)
}

/// What a checked keyed read of `values` at position `p` finds: the value there,
/// or `None` where `p` is not below the length.
pub open spec fn lookup<'a, V>(values: Seq<V>, p: int) -> Option<&'a V> {
    if 0 <= p < values.len() {
        Some(&values[p])
    } else {
        None
    }
}

/// Both conversions of `K` are specified, and a key built from a position
/// converts back to that position.
pub open spec fn keys_round_trip<K: Into<usize> + From<usize>>() -> bool {
    &&& into_specified::<K>()
    &&& from_specified::<K>()
    &&& forall|p: usize| #[trigger] position_of::<K>(key_of::<K>(p)) == p as int
}

} // verus!
