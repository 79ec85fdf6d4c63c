//! Containers that can only be indexed by one chosen key type.
//!
//! A `TypeKeyVec<K, V>` owns its values and is read and written through keys of
//! type `K` (a newtype over a position, for instance), so that a key of one index
//! domain cannot be used by mistake on a container of another.
//! A `TypeKeySlice<K, V>` is a borrowed window over values that are stored
//! elsewhere, with the same keyed access.
pub mod key;
pub mod laws;
pub mod slice;
pub mod vec;

pub use key::{key_of, position_of};
pub use slice::{enumeration, Enumerate, EnumerateMut, IterMut, TypeKeySlice};
pub use vec::TypeKeyVec;
