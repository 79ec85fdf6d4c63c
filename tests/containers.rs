use type_key::{Enumerate, TypeKeySlice, TypeKeyVec};

#[derive(Clone, Copy, Debug, PartialEq)]
struct NodeIdx(usize);

impl From<NodeIdx> for usize {
    fn from(k: NodeIdx) -> usize {
        k.0
    }
}

impl From<usize> for NodeIdx {
    fn from(p: usize) -> NodeIdx {
        NodeIdx(p)
    }
}

#[derive(Clone, Copy, Debug, PartialEq)]
struct EdgeIdx(u32);

impl From<EdgeIdx> for usize {
    fn from(k: EdgeIdx) -> usize {
        k.0 as usize
    }
}

impl From<usize> for EdgeIdx {
    fn from(p: usize) -> EdgeIdx {
        EdgeIdx(p as u32)
    }
}

#[test]
fn push_three_then_get() {
    let mut v: TypeKeyVec<NodeIdx, &str> = TypeKeyVec::new();
    v.push("a");
    v.push("b");
    v.push("c");
    assert_eq!(v.len(), 3);
    assert_eq!(v.get(NodeIdx(1)), Some(&"b"));
}

#[test]
fn new_container_is_empty() {
    let v: TypeKeyVec<NodeIdx, String> = TypeKeyVec::new();
    assert!(v.is_empty());
    assert_eq!(v.len(), 0);
    assert_eq!(v.get(NodeIdx(0)), None);
}

#[test]
fn checked_read_past_end_finds_nothing() {
    let v: TypeKeyVec<NodeIdx, i32> = TypeKeyVec::from_vec(vec![1, 2, 3]);
    assert_eq!(v.get(NodeIdx(5)), None);
    assert_eq!(v.get(NodeIdx(3)), None);
    assert_eq!(v.get(NodeIdx(2)), Some(&3));
}

#[test]
fn write_through_key_in_raw_sequence() {
    let mut v: TypeKeyVec<NodeIdx, i32> = TypeKeyVec::from(vec![10, 20, 30]);
    *v.index_mut(NodeIdx(1)) = 99;
    assert_eq!(*v.index(NodeIdx(1)), 99);
    assert_eq!(v.into_vec(), vec![10, 99, 30]);
}

#[test]
fn pushes_are_found_in_order() {
    let mut v: TypeKeyVec<NodeIdx, u64> = TypeKeyVec::with_capacity(2);
    for i in 0..50u64 {
        v.push(i * 7);
    }
    assert_eq!(v.len(), 50);
    for i in 0..50usize {
        assert_eq!(v.get(NodeIdx::from(i)), Some(&(i as u64 * 7)));
    }
}

#[test]
fn reads_past_end_in_every_state() {
    let mut v: TypeKeyVec<NodeIdx, u8> = TypeKeyVec::default();
    assert_eq!(v.get(NodeIdx(0)), None);
    v.push(1);
    v.push(2);
    assert_eq!(v.get(NodeIdx(2)), None);
    assert_eq!(v.get(NodeIdx(usize::MAX)), None);
    v.clear();
    assert!(v.is_empty());
    assert_eq!(v.get(NodeIdx(0)), None);
    assert_eq!(v.get_mut(NodeIdx(0)), None);
}

#[test]
fn enumeration_in_order_and_reverse() {
    let v: TypeKeyVec<EdgeIdx, char> = TypeKeyVec::from_vec(vec!['x', 'y', 'z']);
    let mut e = v.enumerate();
    assert_eq!(e.len(), 3);
    assert_eq!(e.size_hint(), (3, Some(3)));
    assert_eq!(e.next(), Some((EdgeIdx(0), &'x')));
    assert_eq!(e.next(), Some((EdgeIdx(1), &'y')));
    assert_eq!(e.next(), Some((EdgeIdx(2), &'z')));
    assert_eq!(e.next(), None);
    assert_eq!(e.len(), 0);

    let mut b = v.enumerate();
    assert_eq!(b.next_back(), Some((EdgeIdx(2), &'z')));
    assert_eq!(b.next_back(), Some((EdgeIdx(1), &'y')));
    assert_eq!(b.next_back(), Some((EdgeIdx(0), &'x')));
    assert_eq!(b.next_back(), None);
}

#[test]
fn enumeration_from_both_ends() {
    let items = [5u8, 6, 7, 8];
    let mut e: Enumerate<NodeIdx, u8> = Enumerate::new(&items);
    assert_eq!(e.next(), Some((NodeIdx(0), &5)));
    assert_eq!(e.next_back(), Some((NodeIdx(3), &8)));
    assert_eq!(e.len(), 2);
    assert_eq!(e.next_back(), Some((NodeIdx(2), &7)));
    assert_eq!(e.next(), Some((NodeIdx(1), &6)));
    assert_eq!(e.next(), None);
    assert_eq!(e.next_back(), None);
}

#[test]
fn view_over_buffer_aliases_it() {
    let mut buf = vec![1i64, 2, 3, 4];
    {
        let mut s: TypeKeySlice<NodeIdx, i64> = TypeKeySlice::from_mut_slice(&mut buf);
        assert_eq!(s.len(), 4);
        assert!(!s.is_empty());
        assert_eq!(s.as_slice(), &[1, 2, 3, 4]);
        assert_eq!(s.get(NodeIdx(3)), Some(&4));
        if let Some(x) = s.get_mut(NodeIdx(2)) {
            *x = 30;
        }
        *s.index_mut(NodeIdx(0)) = 10;
        assert_eq!(*s.index(NodeIdx(0)), 10);
        s.as_mut_slice()[1] = 20;
    }
    assert_eq!(buf, vec![10, 20, 30, 4]);
}

#[test]
fn view_of_container_writes_back() {
    let mut v: TypeKeyVec<NodeIdx, i32> = TypeKeyVec::from_vec(vec![1, 2, 3]);
    {
        let mut s = v.as_type_key_slice();
        *s.index_mut(NodeIdx(2)) = -3;
    }
    assert_eq!(v.into_vec(), vec![1, 2, -3]);
}

#[test]
fn fill_sets_every_position() {
    let mut buf = vec![String::from("p"), String::from("q"), String::from("r")];
    {
        let mut s: TypeKeySlice<NodeIdx, String> = TypeKeySlice::from_mut_slice(&mut buf);
        s.fill(String::from("z"));
        assert_eq!(s.len(), 3);
        for i in 0..3 {
            assert_eq!(s.get(NodeIdx(i)), Some(&String::from("z")));
        }
        assert_eq!(s.get(NodeIdx(3)), None);
    }
    assert_eq!(buf, vec!["z", "z", "z"]);
}

#[test]
fn fill_on_empty_view() {
    let mut buf: Vec<u8> = Vec::new();
    let mut s: TypeKeySlice<NodeIdx, u8> = TypeKeySlice::from_mut_slice(&mut buf);
    s.fill(3);
    assert!(s.is_empty());
}

#[test]
fn values_survive_a_change_of_key_type() {
    let mut v: TypeKeyVec<NodeIdx, u16> = TypeKeyVec::new();
    v.push(4);
    v.push(5);
    let values = v.clone().into_vec();
    let w: TypeKeyVec<EdgeIdx, u16> = TypeKeyVec::from_vec(values);
    assert_eq!(w.len(), v.len());
    assert_eq!(w.get(EdgeIdx(0)), v.get(NodeIdx(0)));
    assert_eq!(w.get(EdgeIdx(1)), Some(&5));
}

#[test]
fn split_parts_cover_the_whole() {
    let mut buf = vec![9u32, 3, 7, 1, 5];
    let whole: Vec<u32> = buf.clone();
    {
        let s: TypeKeySlice<NodeIdx, u32> = TypeKeySlice::from_mut_slice(&mut buf);
        let (mut left, right) = s.split_at(2);
        assert_eq!(left.as_slice(), &[9, 3]);
        assert_eq!(right.as_slice(), &[7, 1, 5]);
        let mut merged: Vec<u32> = right.iter().copied().collect();
        merged.extend(left.iter().copied());
        merged.sort();
        let mut sorted = whole.clone();
        sorted.sort();
        assert_eq!(merged, sorted);
        *left.index_mut(NodeIdx(1)) = 0;
    }
    assert_eq!(buf, vec![9, 0, 7, 1, 5]);
}

#[test]
fn split_at_the_ends() {
    let mut buf = vec![1u8, 2];
    let s: TypeKeySlice<NodeIdx, u8> = TypeKeySlice::from_mut_slice(&mut buf);
    let (left, right) = s.split_at(0);
    assert!(left.is_empty());
    assert_eq!(right.len(), 2);
    let (l2, r2) = right.split_at(2);
    assert_eq!(l2.len(), 2);
    assert!(r2.is_empty());
}

#[test]
fn iteration_in_position_order() {
    let v: TypeKeyVec<NodeIdx, i32> = TypeKeyVec::from_vec(vec![3, 1, 2]);
    let seen: Vec<i32> = v.iter().copied().collect();
    assert_eq!(seen, vec![3, 1, 2]);
    let owned: Vec<i32> = v.into_iter().collect();
    assert_eq!(owned, vec![3, 1, 2]);
}

#[test]
fn view_enumeration_and_iteration() {
    let mut buf = vec!['a', 'b'];
    let s: TypeKeySlice<EdgeIdx, char> = TypeKeySlice::from_mut_slice(&mut buf);
    let seen: Vec<char> = s.iter().copied().collect();
    assert_eq!(seen, vec!['a', 'b']);
    let mut e = s.enumerate();
    assert_eq!(e.next(), Some((EdgeIdx(0), &'a')));
    assert_eq!(e.next_back(), Some((EdgeIdx(1), &'b')));
    assert_eq!(e.next(), None);
}

#[test]
fn get_mut_updates_in_place() {
    let mut v: TypeKeyVec<NodeIdx, i32> = TypeKeyVec::from_vec(vec![1, 2]);
    if let Some(x) = v.get_mut(NodeIdx(0)) {
        *x += 40;
    }
    assert_eq!(v.get_mut(NodeIdx(2)), None);
    assert_eq!(v.into_vec(), vec![41, 2]);
}

#[test]
fn clone_is_independent() {
    let mut v: TypeKeyVec<NodeIdx, String> = TypeKeyVec::new();
    v.push(String::from("k"));
    let mut c = v.clone();
    c.push(String::from("m"));
    assert_eq!(v.len(), 1);
    assert_eq!(c.len(), 2);
    assert_eq!(c.get(NodeIdx(0)), Some(&String::from("k")));
}

#[test]
fn writable_traversals_write_back() {
    let mut buf = vec![1u32, 2, 3];
    {
        let mut s: TypeKeySlice<NodeIdx, u32> = TypeKeySlice::from_mut_slice(&mut buf);
        {
            let mut it = s.iter_mut();
            while let Some(x) = it.next() {
                *x *= 10;
            }
            assert!(it.next().is_none());
        }
        let mut e = s.enumerate_mut();
        assert_eq!(e.len(), 3);
        while let Some((k, x)) = e.next() {
            *x += k.0 as u32;
        }
        assert_eq!(e.len(), 0);
    }
    assert_eq!(buf, vec![10, 21, 32]);
}

#[test]
fn writable_enumeration_hands_out_keys() {
    let mut buf = vec!['m', 'n'];
    let mut s: TypeKeySlice<EdgeIdx, char> = TypeKeySlice::from_mut_slice(&mut buf);
    let mut e = s.enumerate_mut();
    let (k0, v0) = e.next().unwrap();
    assert_eq!((k0, *v0), (EdgeIdx(0), 'm'));
    let (k1, v1) = e.next().unwrap();
    assert_eq!((k1, *v1), (EdgeIdx(1), 'n'));
    assert!(e.next().is_none());
}

#[test]
fn container_as_plain_slice() {
    let v: TypeKeyVec<NodeIdx, u8> = TypeKeyVec::from_vec(vec![4, 5, 6]);
    assert_eq!(v.as_slice(), &[4, 5, 6]);
    let empty: TypeKeyVec<NodeIdx, u8> = TypeKeyVec::new();
    assert!(empty.as_slice().is_empty());
}
