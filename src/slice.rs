//! The borrowed view and its keyed traversal.
use vstd::prelude::*;

use vstd::std_specs::slice::into_iter_elts;

use crate::key::{from_specified, into_specified, key_of, lookup, position_of};

verus! {

/// A window over values that are stored elsewhere, read and written through keys
/// of type `K` only.
///
/// The view holds the borrow of the values and copies nothing: what is written
/// through it is what the lender sees once the view is gone. While it lives the
/// lender cannot grow, shrink or move the values.
///
/// The view is a struct that holds the borrow, not a reinterpretation of the
/// memory of the values: making one moves a single reference, with no copy and
/// no cast. The fields are public so that contracts can follow the borrow to the
/// lender; the view keeps no invariant of its own over them.
pub struct TypeKeySlice<'a, K, V> {
    pub inner: &'a mut [V],
    pub phantom: std::marker::PhantomData<K>,
}

impl<'a, K, V> View for TypeKeySlice<'a, K, V> {
    type V = Seq<V>;

    /// The values, in position order, as they stand now.
    open spec fn view(&self) -> Seq<V> {
        self.inner@
    }
}

impl<'a, K, V> TypeKeySlice<'a, K, V> {
    /// Views the values of `values` through keys of type `K`. Nothing is copied:
    /// the values that `values` holds once the view is gone are those of the view.
    pub fn from_mut_slice(values: &'a mut [V]) -> (r: Self)
        ensures
            r@ == old(values)@,
            final(r.inner)@ == final(values)@,
    {
        TypeKeySlice { inner: values, phantom: std::marker::PhantomData }
    }

    /// The number of values.
    pub fn len(&self) -> (r: usize)
        ensures
            r == self@.len(),
    {
        self.inner.len()
    }

    /// Whether there is no value.
    pub fn is_empty(&self) -> (r: bool)
        ensures
            r == (self@.len() == 0),
    {
        self.inner.len() == 0
    }

    /// Splits the view at position `mid` into two views over disjoint parts,
    /// positions below `mid` and the others, which can be handed to separate
    /// workers. What is written through the parts is what the lender sees.
    pub fn split_at(self, mid: usize) -> (r: (Self, Self))
        requires
            mid <= self@.len(),
        ensures
            r.0@ == self@.subrange(0, mid as int),
            r.1@ == self@.subrange(mid as int, self@.len() as int),
            final(self.inner)@ == final(r.0.inner)@ + final(r.1.inner)@,
    {
        let (left, right) = self.inner.split_at_mut(mid);
        (
            TypeKeySlice { inner: left, phantom: std::marker::PhantomData },
            TypeKeySlice { inner: right, phantom: std::marker::PhantomData },
        )
    }

    /// The values, in position order.
    pub fn iter(&self) -> (r: std::slice::Iter<'_, V>)
        ensures
            into_iter_elts(r) == self@,
    {
        self.inner.iter()
    }

    /// The values, each with the key of its position, in position order.
    pub fn enumerate(&self) -> (r: Enumerate<'_, K, V>)
        ensures
            r.remaining() == enumeration(self@),
    {
        Enumerate::new(&*self.inner)
    }

    /// The values, writable, in position order. What is written through them is
    /// what the view holds afterwards.
    pub fn iter_mut(&mut self) -> (r: IterMut<'_, V>)
        ensures
            r@ == old(self)@,
            final(self)@ == final(r.rest)@,
            final(final(self).inner)@ == final(old(self).inner)@,
    {
        IterMut { rest: &mut *self.inner }
    }

    /// The values, writable, each with the key of its position, in position
    /// order. What is written through them is what the view holds afterwards.
    pub fn enumerate_mut(&mut self) -> (r: EnumerateMut<'_, K, V>)
        ensures
            r@ == old(self)@,
            r.front == 0,
            final(self)@ == final(r.rest)@,
            final(final(self).inner)@ == final(old(self).inner)@,
    {
        EnumerateMut::new(&mut *self.inner)
    }

    /// The values, in position order, without the key type.
    pub fn as_slice(&self) -> (r: &[V])
        ensures
            r@ == self@,
    {
        &*self.inner
    }

    /// The values, in position order and writable, without the key type.
    pub fn as_mut_slice(&mut self) -> (r: &mut [V])
        ensures
            r@ == old(self)@,
            final(self)@ == final(r)@,
            final(final(self).inner)@ == final(old(self).inner)@,
    {
        &mut *self.inner
    }
}

impl<'a, K: Into<usize>, V> TypeKeySlice<'a, K, V> {
    /// The value at the position that `key` converts into, or `None` where that
    /// position is not below the length.
    pub fn get(&self, key: K) -> (r: Option<&V>)
        ensures
            into_specified::<K>() ==> r == lookup(self@, position_of(key)),
    {
        let p: usize = key.into();
        if p < self.inner.len() {
            Some(&self.inner[p])
        } else {
            None
        }
    }

    /// A mutable reference to the value at the position that `key` converts
    /// into, or `None` where that position is not below the length.
    pub fn get_mut(&mut self, key: K) -> (r: Option<&mut V>)
        ensures
            r is None ==> final(self)@ == old(self)@,
            into_specified::<K>() && position_of(key) < old(self)@.len() ==> {
                &&& r is Some
                &&& *r->0 == old(self)@[position_of(key)]
                &&& final(self)@ == old(self)@.update(position_of(key), *final(r->0))
            },
            into_specified::<K>() && position_of(key) >= old(self)@.len() ==> r is None,
            final(final(self).inner)@ == final(old(self).inner)@,
    {
        let p: usize = key.into();
        if p < self.inner.len() {
            Some(&mut self.inner[p])
        } else {
            None
        }
    }

    /// The value at the position that `key` converts into. The caller owes a
    /// key below the length: this is the access for keys already known to be
    /// in range, where `get` is the one that checks.
    pub fn index(&self, key: K) -> (r: &V)
        requires
            into_specified::<K>(),
            position_of(key) < self@.len(),
        ensures
            *r == self@[position_of(key)],
    {
        let p: usize = key.into();
        &self.inner[p]
    }

    /// A mutable reference to the value at the position that `key` converts
    /// into. The caller owes a key below the length.
    pub fn index_mut(&mut self, key: K) -> (r: &mut V)
        requires
            into_specified::<K>(),
            position_of(key) < old(self)@.len(),
        ensures
            *r == old(self)@[position_of(key)],
            final(self)@ == old(self)@.update(position_of(key), *final(r)),
            final(final(self).inner)@ == final(old(self).inner)@,
    {
        let p: usize = key.into();
        &mut self.inner[p]
    }
}

impl<'a, K, V: Clone> TypeKeySlice<'a, K, V> {
    /// Writes a clone of `value` at every position; the length stays.
    pub fn fill(&mut self, value: V)
        ensures
            final(self)@.len() == old(self)@.len(),
            forall|i: int| 0 <= i < final(self)@.len() ==> cloned(value, #[trigger] final(self)@[i]),
            final(final(self).inner)@ == final(old(self).inner)@,
    {
        let n: usize = self.inner.len();
        let mut i: usize = 0;
        while i < n
            invariant
                i <= n,
                n == old(self)@.len(),
                self@.len() == n,
                forall|j: int| 0 <= j < i ==> cloned(value, #[trigger] self@[j]),
                final(self.inner)@ == final(old(self).inner)@,
            decreases n - i,
        {
            self.inner[i] = value.clone();
            i = i + 1;
        }
    }
}

/// Each value of `s` with its position, in position order.
pub open spec fn enumeration<V>(s: Seq<V>) -> Seq<(usize, V)> {
    Seq::new(s.len(), |i: int| (i as usize, s[i]))
}

/// A traversal of borrowed values that hands out each value with the key of its
/// position, from the front, from the back, or from both ends.
pub struct Enumerate<'a, K, V> {
    items: &'a [V],
    front: usize,
    back: usize,
    phantom: std::marker::PhantomData<K>,
}

impl<'a, K, V> Enumerate<'a, K, V> {
    #[verifier::type_invariant]
    spec fn inv(&self) -> bool {
        self.front <= self.back <= self.items@.len()
    }

    /// The positions and values that are still to come, in position order.
    pub closed spec fn remaining(&self) -> Seq<(usize, V)> {
        enumeration(self.items@).subrange(self.front as int, self.back as int)
    }

    /// A traversal of all of `items`.
    pub fn new(items: &'a [V]) -> (r: Self)
        ensures
            r.remaining() == enumeration(items@),
    {
        let r = Enumerate { items, front: 0, back: items.len(), phantom: std::marker::PhantomData };
        assert(r.remaining() =~= enumeration(items@));
        r
    }

    /// The number of values still to come.
    pub fn len(&self) -> (r: usize)
        ensures
            r == self.remaining().len(),
    {
        proof {
            use_type_invariant(self);
        }
        self.back - self.front
    }

    /// The exact number of values still to come, as a lower and an upper bound.
    pub fn size_hint(&self) -> (r: (usize, Option<usize>))
        ensures
            r.0 == self.remaining().len(),
            r.1 == Some(r.0),
    {
        let n = self.len();
        (n, Some(n))
    }
}

impl<'a, K: From<usize>, V> Enumerate<'a, K, V> {
    /// The first value still to come, with the key of its position.
    pub fn next(&mut self) -> (r: Option<(K, &'a V)>)
        ensures
            old(self).remaining().len() == 0 ==> r is None && final(self).remaining()
                == old(self).remaining(),
            old(self).remaining().len() > 0 ==> {
                &&& r is Some
                &&& r.unwrap().1 == old(self).remaining()[0].1
                &&& from_specified::<K>() ==> r.unwrap().0 == key_of::<K>(
                    old(self).remaining()[0].0,
                )
                &&& final(self).remaining() == old(self).remaining().drop_first()
            },
    {
        proof {
            use_type_invariant(&*self);
        }
        if self.front < self.back {
            let p = self.front;
            self.front = self.front + 1;
            assert(self.remaining() =~= old(self).remaining().drop_first());
            Some((K::from(p), &self.items[p]))
        } else {
            None
        }
    }

    /// The last value still to come, with the key of its position.
    pub fn next_back(&mut self) -> (r: Option<(K, &'a V)>)
        ensures
            old(self).remaining().len() == 0 ==> r is None && final(self).remaining()
                == old(self).remaining(),
            old(self).remaining().len() > 0 ==> {
                &&& r is Some
                &&& r.unwrap().1 == old(self).remaining().last().1
                &&& from_specified::<K>() ==> r.unwrap().0 == key_of::<K>(
                    old(self).remaining().last().0,
                )
                &&& final(self).remaining() == old(self).remaining().drop_last()
            },
    {
        proof {
            use_type_invariant(&*self);
        }
        if self.front < self.back {
            let p = self.back - 1;
            self.back = p;
            assert(self.remaining() =~= old(self).remaining().drop_last());
            Some((K::from(p), &self.items[p]))
        } else {
            None
        }
    }
}

/// A traversal of borrowed values that hands out each value, writable, in
/// position order.
pub struct IterMut<'a, V> {
    pub rest: &'a mut [V],
}

impl<'a, V> View for IterMut<'a, V> {
    type V = Seq<V>;

    /// The values still to come, as they stand now.
    open spec fn view(&self) -> Seq<V> {
        self.rest@
    }
}

impl<'a, V> IterMut<'a, V> {
    /// The next value, writable.
    pub fn next(&mut self) -> (r: Option<&'a mut V>)
        ensures
            old(self)@.len() == 0 ==> r is None && final(self)@ == old(self)@,
            old(self)@.len() > 0 ==> {
                &&& r is Some
                &&& *r.unwrap() == old(self)@[0]
                &&& final(self)@ == old(self)@.drop_first()
                &&& final(old(self).rest)@ == seq![*final(r.unwrap())] + final(final(self).rest)@
            },
    {
        let mut rest: &'a mut [V] = &mut [];
        std::mem::swap(&mut rest, &mut self.rest);
        if rest.len() == 0 {
            self.rest = rest;
            None
        } else {
            let (first, tail) = rest.split_at_mut(1);
            self.rest = tail;
            Some(&mut first[0])
        }
    }
}

/// A traversal of borrowed values that hands out each value, writable, with
/// the key of its position, in position order.
///
/// Each value is handed out once; what is written through it is what the lender
/// sees once the traversal and the handed-out references are gone.
pub struct EnumerateMut<'a, K, V> {
    pub rest: &'a mut [V],
    pub front: usize,
    pub phantom: std::marker::PhantomData<K>,
}

impl<'a, K, V> View for EnumerateMut<'a, K, V> {
    type V = Seq<V>;

    /// The values still to come, as they stand now.
    open spec fn view(&self) -> Seq<V> {
        self.rest@
    }
}

impl<'a, K, V> EnumerateMut<'a, K, V> {
    /// A traversal of all of `items`, from position 0.
    pub fn new(items: &'a mut [V]) -> (r: Self)
        ensures
            r.rest@ == old(items)@,
            r.front == 0,
            final(r.rest)@ == final(items)@,
    {
        EnumerateMut { rest: items, front: 0, phantom: std::marker::PhantomData }
    }

    /// The number of values still to come.
    pub fn len(&self) -> (r: usize)
        ensures
            r == self@.len(),
    {
        self.rest.len()
    }
}

impl<'a, K: From<usize>, V> EnumerateMut<'a, K, V> {
    /// The next value, writable, with the key of its position.
    pub fn next(&mut self) -> (r: Option<(K, &'a mut V)>)
        requires
            old(self).front + old(self).rest@.len() <= usize::MAX,
        ensures
            old(self).rest@.len() == 0 ==> r is None && final(self).rest@ == old(self).rest@,
            old(self).rest@.len() > 0 ==> {
                &&& r is Some
                &&& *r.unwrap().1 == old(self).rest@[0]
                &&& from_specified::<K>() ==> r.unwrap().0 == key_of::<K>(old(self).front)
                &&& final(self).rest@ == old(self).rest@.drop_first()
                &&& final(self).front == old(self).front + 1
                &&& final(old(self).rest)@ == seq![*final(r.unwrap().1)] + final(final(self).rest)@
            },
    {
        let mut rest: &'a mut [V] = &mut [];
        std::mem::swap(&mut rest, &mut self.rest);
        if rest.len() == 0 {
            self.rest = rest;
            None
        } else {
            let (first, tail) = rest.split_at_mut(1);
            self.rest = tail;
            let p = self.front;
            self.front = p + 1;
            Some((K::from(p), &mut first[0]))
        }
    }
}

} // verus!
