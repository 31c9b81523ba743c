//! Interning and memoization on an explicit store.
//!
//! A [`Store`] canonicalizes values: interning hands back an [`Interned<T>`]
//! handle, and two values of one type with the same content hash always
//! resolve to the one record that was stored first. Handles are small and
//! freely copied; they are compared by the cached content hash, never by
//! content. On top of that, [`Memoized<I, T>`] caches what a generator
//! produces for an input and a scope, and interns the result, so that the
//! generator runs at most once for each key.
//!
//! Records are never freed: every distinct value that was interned, and every
//! key that was memoized, stays until the store itself is dropped.
//!
//! Content equality is taken to be hash equality. Two unequal values of one
//! type whose content hashes collide are treated as one value: the first of
//! them that is stored wins.
//!
//! The modules, from the leaves up:
//!
//! - [`scalar`]: the scalars that a record can hold, and the scalar types;
//! - [`hashing`]: content hashes, as digests of the bytes that a value writes;
//! - [`heap`]: the append-only arena that owns the records;
//! - [`record`]: the copyable references to records;
//! - [`staticize`] and [`datatype`]: the identity and the storage kind of a
//!   storable type, and how its values are stored and read back;
//! - [`store`]: the heap with the interning and the memoization table;
//! - [`interned`], [`memoized`] and [`unsized_types`]: the typed handles;
//! - [`compare`] and [`text`]: equality, order and diagnostic texts of
//!   references and handles;
//! - [`laws`]: what holds of every store.

pub mod compare;
pub mod datatype;
pub mod hashing;
pub mod heap;
pub mod interned;
pub mod laws;
pub mod memoized;
pub mod record;
pub mod scalar;
pub mod staticize;
pub mod store;
pub mod text;
pub mod unsized_types;

pub use datatype::{DataType, DataTypeTypeMarker, OsBytes, PathBytes, Reference, Slice, Value};
pub use hashing::{hash_of, Hashable};
pub use heap::{Heap, Kind, Payload};
pub use interned::Interned;
pub use memoized::Memoized;
pub use record::{Static, StaticOsStr, StaticPath, StaticSlice, StaticStr, StaticValue};
pub use scalar::{Scalar, ScalarType};
pub use staticize::{static_type_id, static_type_name, Staticize, FIRST_SLICE_ID};
pub use store::{num_interned, num_memoized, Store};
pub use unsized_types::{InOsStr, InPath, InStr};
