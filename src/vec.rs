//! The owning container.
use vstd::prelude::*;

use vstd::std_specs::slice::into_iter_elts;

use crate::key::{into_specified, lookup, position_of};
use crate::slice::{enumeration, Enumerate, TypeKeySlice};

verus! {

/// A growable sequence of values that is indexed by keys of type `K` only.
///
/// The key type is a marker: it takes no room and carries no value at run time.
/// Position `p` of the sequence is reached by any key that converts into `p`.
pub struct TypeKeyVec<K, V> {
    inner: Vec<V>,
    phantom: std::marker::PhantomData<K>,
}

impl<K, V> View for TypeKeyVec<K, V> {
    type V = Seq<V>;

    /// The values, in position order.
    closed spec fn view(&self) -> Seq<V> {
        self.inner@
    }
}

impl<K, V> TypeKeyVec<K, V> {
    /// An empty container.
    pub fn new() -> (r: Self)
        ensures
            r@ == Seq::<V>::empty(),
    {
        TypeKeyVec { inner: Vec::new(), phantom: std::marker::PhantomData }
    }

    /// An empty container; `capacity` only sizes the first allocation.
    pub fn with_capacity(capacity: usize) -> (r: Self)
        ensures
            r@ == Seq::<V>::empty(),
    {
        TypeKeyVec { inner: Vec::with_capacity(capacity), phantom: std::marker::PhantomData }
    }

    /// Takes over the values of `inner`: position `p` of `inner` becomes the
    /// value of every key that converts into `p`. Nothing is copied.
    pub fn from_vec(inner: Vec<V>) -> (r: Self)
        ensures
            r@ == inner@,
    {
        TypeKeyVec { inner, phantom: std::marker::PhantomData }
    }

    /// The number of values.
    pub fn len(&self) -> (r: usize)
        ensures
            r == self@.len(),
    {
        self.inner.len()
    }

    /// Whether there is no value.
    pub fn is_empty(&self) -> (r: bool)
        ensures
            r == (self@.len() == 0),
    {
        self.inner.len() == 0
    }

    /// Appends `value` at the position that equals the current length.
    ///
    /// This may move the values to a new allocation; a view taken earlier borrows
    /// the container, so none can be alive across this call.
    pub fn push(&mut self, value: V)
        ensures
            final(self)@ == old(self)@.push(value),
    {
        self.inner.push(value);
    }

    /// Drops every value; the allocation is kept.
    pub fn clear(&mut self)
        ensures
            final(self)@ == Seq::<V>::empty(),
    {
        self.inner.clear();
    }

    /// The values, in position order.
    pub fn iter(&self) -> (r: std::slice::Iter<'_, V>)
        ensures
            into_iter_elts(r) == self@,
    {
        self.inner.iter()
    }

    /// The values, each with the key of its position, in position order.
    pub fn enumerate(&self) -> (r: Enumerate<'_, K, V>)
        ensures
            r.remaining() == enumeration(self@),
    {
        Enumerate::new(self.inner.as_slice())
    }

    /// The values, in position order, without the key type.
    pub fn as_slice(&self) -> (r: &[V])
        ensures
            r@ == self@,
    {
        self.inner.as_slice()
    }

    /// A keyed view of the values, for the operations on the whole of them.
    /// What is written through the view is what the container holds after it.
    pub fn as_type_key_slice(&mut self) -> (r: TypeKeySlice<'_, K, V>)
        ensures
            r@ == old(self)@,
            final(self)@ == final(r.inner)@,
    {
        TypeKeySlice::from_mut_slice(self.inner.as_mut_slice())
    }

    /// Gives the values back, in position order, without the key type.
    pub fn into_vec(self) -> (r: Vec<V>)
        ensures
            r@ == self@,
    {
        self.inner
    }
}

impl<K: Into<usize>, V> TypeKeyVec<K, V> {
    /// The value at the position that `key` converts into, or `None` where that
    /// position is not below the length.
    pub fn get(&self, key: K) -> (r: Option<&V>)
        ensures
            into_specified::<K>() ==> r == lookup(self@, position_of(key)),
    {
        let p: usize = key.into();
        if p < self.inner.len() {
            Some(&self.inner[p])
        } else {
            None
        }
    }

    /// The value at the position that `key` converts into. The caller owes a
    /// key below the length: this is the access for keys already known to be
    /// in range, where `get` is the one that checks.
    pub fn index(&self, key: K) -> (r: &V)
        requires
            into_specified::<K>(),
            position_of(key) < self@.len(),
        ensures
            *r == self@[position_of(key)],
    {
        let p: usize = key.into();
        &self.inner[p]
    }

    /// A mutable reference to the value at the position that `key` converts
    /// into. The caller owes a key below the length.
    pub fn index_mut(&mut self, key: K) -> (r: &mut V)
        requires
            into_specified::<K>(),
            position_of(key) < old(self)@.len(),
        ensures
            *r == old(self)@[position_of(key)],
            final(self)@ == old(self)@.update(position_of(key), *final(r)),
    {
        let p: usize = key.into();
        &mut self.inner[p]
    }

    /// A mutable reference to the value at the position that `key` converts
    /// into, or `None` where that position is not below the length.
    pub fn get_mut(&mut self, key: K) -> (r: Option<&mut V>)
        ensures
            r is None ==> final(self)@ == old(self)@,
            into_specified::<K>() && position_of(key) < old(self)@.len() ==> {
                &&& r is Some
                &&& *r->0 == old(self)@[position_of(key)]
                &&& final(self)@ == old(self)@.update(position_of(key), *final(r->0))
            },
            into_specified::<K>() && position_of(key) >= old(self)@.len() ==> r is None,
    {
        let p: usize = key.into();
        if p < self.inner.len() {
            Some(&mut self.inner[p])
        } else {
            None
        }
    }
}

impl<K, V> Default for TypeKeyVec<K, V> {
    /// An empty container.
    fn default() -> (r: Self)
        ensures
            r@ == Seq::<V>::empty(),
    {
        Self::new()
    }
}

impl<K, V: Clone> Clone for TypeKeyVec<K, V> {
    /// A container of clones of the values, in the same order.
    fn clone(&self) -> (r: Self)
        ensures
            r@.len() == self@.len(),
            forall|i: int| 0 <= i < self@.len() ==> cloned(self@[i], #[trigger] r@[i]),
    {
        TypeKeyVec { inner: self.inner.clone(), phantom: std::marker::PhantomData }
    }
}

impl<K, V> From<Vec<V>> for TypeKeyVec<K, V> {
    /// Takes over the values of `inner`, as `from_vec` does.
    fn from(inner: Vec<V>) -> (r: Self)
        ensures
            r@ == inner@,
    {
        TypeKeyVec { inner, phantom: std::marker::PhantomData }
    }
}

impl<K, V> IntoIterator for TypeKeyVec<K, V> {
    type Item = V;
    type IntoIter = std::vec::IntoIter<V>;

    /// Hands out the values, in position order.
    fn into_iter(self) -> (r: std::vec::IntoIter<V>)
        ensures
            vstd::std_specs::vec::into_iter_elts(r) == self@,
    {
        self.inner.into_iter()
    }
}

impl<K, V> vstd::std_specs::convert::FromSpecImpl<Vec<V>> for TypeKeyVec<K, V> {
    open spec fn obeys_from_spec() -> bool {
        true
    }

    closed spec fn from_spec(v: Vec<V>) -> Self {
        TypeKeyVec { inner: v, phantom: std::marker::PhantomData }
    }
}

} // verus!
