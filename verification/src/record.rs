//! References to records.
//!
//! A [`Static`] names a record of a [`Heap`] by its address, and caches the
//! record's content hash and its storage kind. It is small and freely copied;
//! the payload stays in the heap and is read through it.

use crate::hashing::{content_hash, hash_of, scalar_writes, Hashable};
use crate::heap::{Heap, Payload, PayloadView, RecordView};
use crate::scalar::{
    all_hold, read_scalars, scalars_of, values_of, write_scalars, Scalar, ScalarType,
};
use crate::staticize::Staticize;
use std::collections::hash_map::DefaultHasher;
use vstd::prelude::*;
use vstd::slice::slice_to_vec;

verus! {

/// A reference to a record that holds a single scalar.
#[derive(Clone, Copy, Debug)]
pub struct StaticValue {
    pub ptr: usize,
    pub hash: u64,
}

/// A reference to a record that holds a sequence of scalars, with its length.
#[derive(Clone, Copy, Debug)]
pub struct StaticSlice {
    pub ptr: usize,
    pub len: usize,
    pub hash: u64,
}

/// A reference to a record that holds a character string.
#[derive(Clone, Copy, Debug)]
pub struct StaticStr {
    pub ptr: usize,
    pub hash: u64,
}

/// A reference to a record that holds the bytes of an OS string.
#[derive(Clone, Copy, Debug)]
pub struct StaticOsStr {
    pub ptr: usize,
    pub hash: u64,
}

/// A reference to a record that holds the bytes of a path.
#[derive(Clone, Copy, Debug)]
pub struct StaticPath {
    pub ptr: usize,
    pub hash: u64,
}

/// A reference to a record of any storage kind.
#[derive(Clone, Copy, Debug)]
pub enum Static {
    Value(StaticValue),
    Slice(StaticSlice),
    Str(StaticStr),
    OsStr(StaticOsStr),
    Path(StaticPath),
}

/// The hash that a record gets: the one supplied, or else the content hash of
/// the value.
pub open spec fn hash_or<T: Hashable + ?Sized>(hash: Option<u64>, value: &T) -> u64 {
    match hash {
        Some(h) => h,
        None => content_hash(value),
    }
}

impl StaticValue {
    /// Holds if `heap` has a scalar record with this hash at this address.
    pub open spec fn valid(self, heap: Seq<RecordView>) -> bool {
        Static::Value(self).valid(heap)
    }

    /// Copies `value` into a new record of `heap`, under its content hash.
    pub fn from<T: ScalarType>(heap: &mut Heap, value: T) -> (record: StaticValue)
        ensures
            record.ptr == old(heap)@.len(),
            record.hash == content_hash(&value),
            final(heap)@ == old(heap)@.push(
                RecordView { payload: PayloadView::Value(value.scalar()), hash: record.hash },
            ),
            record.valid(final(heap)@),
    {
        Self::with_hash(heap, value, None)
    }

    /// Copies `value` into a new record of `heap`, under `hash` if one is
    /// given and under the content hash of `value` if none is.
    pub fn with_hash<T: ScalarType>(heap: &mut Heap, value: T, hash: Option<u64>) -> (record:
        StaticValue)
        ensures
            record.ptr == old(heap)@.len(),
            record.hash == hash_or(hash, &value),
            final(heap)@ == old(heap)@.push(
                RecordView { payload: PayloadView::Value(value.scalar()), hash: record.hash },
            ),
            record.valid(final(heap)@),
    {
        Self::copy_of(heap, &value, hash)
    }

    /// Copies the value behind `value` into a new record of `heap`, under
    /// `hash` if one is given and under the content hash of the value if none
    /// is.
    pub fn copy_of<T: ScalarType>(heap: &mut Heap, value: &T, hash: Option<u64>) -> (record:
        StaticValue)
        ensures
            record.ptr == old(heap)@.len(),
            record.hash == hash_or(hash, value),
            final(heap)@ == old(heap)@.push(
                RecordView { payload: PayloadView::Value(value.scalar()), hash: record.hash },
            ),
            record.valid(final(heap)@),
    {
        let hash = match hash {
            Some(h) => h,
            None => hash_of(value),
        };
        let ptr = heap.allocate(Payload::Value(value.to_scalar()), hash);
        StaticValue { ptr, hash }
    }

    /// Reads the scalar of this record back as a `T`.
    pub fn as_value<T: ScalarType>(&self, heap: &Heap) -> (value: T)
        requires
            self.valid(heap@),
            T::holds(heap@[self.ptr as int].payload->Value_0),
        ensures
            value == T::from_scalar(heap@[self.ptr as int].payload->Value_0),
    {
        match heap.payload(self.ptr) {
            Payload::Value(scalar) => T::of_scalar(*scalar),
            _ => vstd::pervasive::unreached(),
        }
    }
}

impl StaticSlice {
    /// Holds if `heap` has a slice record with this hash and this length at
    /// this address.
    pub open spec fn valid(self, heap: Seq<RecordView>) -> bool {
        Static::Slice(self).valid(heap)
    }

    /// Reads the scalars of this record back as a vector of `T`.
    pub fn as_slice<T: ScalarType>(&self, heap: &Heap) -> (items: Vec<T>)
        requires
            self.valid(heap@),
            all_hold::<T>(heap@[self.ptr as int].payload->Slice_0),
        ensures
            items@ == values_of::<T>(heap@[self.ptr as int].payload->Slice_0),
    {
        match heap.payload(self.ptr) {
            Payload::Slice(scalars) => read_scalars::<T>(scalars),
            _ => vstd::pervasive::unreached(),
        }
    }

    /// The number of items of this record.
    pub fn len(&self) -> (len: usize)
        ensures
            len == self.len,
    {
        self.len
    }

    /// Copies the items of `slice` into a new record of `heap`, under the
    /// content hash of the slice.
    pub fn from<T: ScalarType>(heap: &mut Heap, slice: &[T]) -> (record: StaticSlice)
        ensures
            record.ptr == old(heap)@.len(),
            record.len == slice@.len(),
            record.hash == content_hash(slice),
            final(heap)@ == old(heap)@.push(
                RecordView {
                    payload: PayloadView::Slice(scalars_of(slice@)),
                    hash: record.hash,
                },
            ),
            record.valid(final(heap)@),
    {
        Self::with_hash(heap, slice, None)
    }

    /// Copies the items of `slice` into a new record of `heap`, under `hash`
    /// if one is given and under the content hash of the slice if none is.
    pub fn with_hash<T: ScalarType>(heap: &mut Heap, slice: &[T], hash: Option<u64>) -> (record:
        StaticSlice)
        ensures
            record.ptr == old(heap)@.len(),
            record.len == slice@.len(),
            record.hash == hash_or(hash, slice),
            final(heap)@ == old(heap)@.push(
                RecordView {
                    payload: PayloadView::Slice(scalars_of(slice@)),
                    hash: record.hash,
                },
            ),
            record.valid(final(heap)@),
    {
        let hash = match hash {
            Some(h) => h,
            None => hash_of(slice),
        };
        let len = slice.len();
        let scalars = write_scalars(slice);
        let ptr = heap.allocate(Payload::Slice(scalars), hash);
        StaticSlice { ptr, len, hash }
    }
}

impl StaticStr {
    /// Holds if `heap` has a string record with this hash at this address.
    pub open spec fn valid(self, heap: Seq<RecordView>) -> bool {
        Static::Str(self).valid(heap)
    }

    /// The string of this record.
    pub fn as_str<'a>(&self, heap: &'a Heap) -> (text: &'a str)
        requires
            self.valid(heap@),
        ensures
            text@ == heap@[self.ptr as int].payload->Str_0,
    {
        match heap.payload(self.ptr) {
            Payload::Str(text) => text.as_str(),
            _ => vstd::pervasive::unreached(),
        }
    }

    /// Copies `value` into a new record of `heap`, under its content hash.
    pub fn from(heap: &mut Heap, value: &str) -> (record: StaticStr)
        ensures
            record.ptr == old(heap)@.len(),
            record.hash == content_hash(value),
            final(heap)@ == old(heap)@.push(
                RecordView { payload: PayloadView::Str(value@), hash: record.hash },
            ),
            record.valid(final(heap)@),
    {
        Self::with_hash(heap, value, None)
    }

    /// Copies `value` into a new record of `heap`, under `hash` if one is
    /// given and under the content hash of `value` if none is.
    pub fn with_hash(heap: &mut Heap, value: &str, hash: Option<u64>) -> (record: StaticStr)
        ensures
            record.ptr == old(heap)@.len(),
            record.hash == hash_or(hash, value),
            final(heap)@ == old(heap)@.push(
                RecordView { payload: PayloadView::Str(value@), hash: record.hash },
            ),
            record.valid(final(heap)@),
    {
        let hash = match hash {
            Some(h) => h,
            None => hash_of(value),
        };
        let ptr = heap.allocate(Payload::Str(value.to_owned()), hash);
        StaticStr { ptr, hash }
    }
}

impl StaticOsStr {
    /// Holds if `heap` has an OS string record with this hash at this address.
    pub open spec fn valid(self, heap: Seq<RecordView>) -> bool {
        Static::OsStr(self).valid(heap)
    }

    /// The bytes of the OS string of this record.
    pub fn as_os_str<'a>(&self, heap: &'a Heap) -> (bytes: &'a [u8])
        requires
            self.valid(heap@),
        ensures
            bytes@ == heap@[self.ptr as int].payload->OsStr_0,
    {
        match heap.payload(self.ptr) {
            Payload::OsStr(bytes) => bytes.as_slice(),
            _ => vstd::pervasive::unreached(),
        }
    }

    /// Copies the bytes of an OS string into a new record of `heap`, under
    /// their content hash.
    pub fn from(heap: &mut Heap, value: &[u8]) -> (record: StaticOsStr)
        ensures
            record.ptr == old(heap)@.len(),
            record.hash == content_hash(value),
            final(heap)@ == old(heap)@.push(
                RecordView { payload: PayloadView::OsStr(value@), hash: record.hash },
            ),
            record.valid(final(heap)@),
    {
        Self::with_hash(heap, value, None)
    }

    /// Copies the bytes of an OS string into a new record of `heap`, under
    /// `hash` if one is given and under their content hash if none is.
    pub fn with_hash(heap: &mut Heap, value: &[u8], hash: Option<u64>) -> (record: StaticOsStr)
        ensures
            record.ptr == old(heap)@.len(),
            record.hash == hash_or(hash, value),
            final(heap)@ == old(heap)@.push(
                RecordView { payload: PayloadView::OsStr(value@), hash: record.hash },
            ),
            record.valid(final(heap)@),
    {
        let hash = match hash {
            Some(h) => h,
            None => hash_of(value),
        };
        let ptr = heap.allocate(Payload::OsStr(slice_to_vec(value)), hash);
        StaticOsStr { ptr, hash }
    }
}

impl StaticPath {
    /// Holds if `heap` has a path record with this hash at this address.
    pub open spec fn valid(self, heap: Seq<RecordView>) -> bool {
        Static::Path(self).valid(heap)
    }

    /// The bytes of the path of this record.
    pub fn as_path<'a>(&self, heap: &'a Heap) -> (bytes: &'a [u8])
        requires
            self.valid(heap@),
        ensures
            bytes@ == heap@[self.ptr as int].payload->Path_0,
    {
        match heap.payload(self.ptr) {
            Payload::Path(bytes) => bytes.as_slice(),
            _ => vstd::pervasive::unreached(),
        }
    }

    /// Copies the bytes of a path into a new record of `heap`, under their
    /// content hash.
    pub fn from(heap: &mut Heap, value: &[u8]) -> (record: StaticPath)
        ensures
            record.ptr == old(heap)@.len(),
            record.hash == content_hash(value),
            final(heap)@ == old(heap)@.push(
                RecordView { payload: PayloadView::Path(value@), hash: record.hash },
            ),
            record.valid(final(heap)@),
    {
        Self::with_hash(heap, value, None)
    }

    /// Copies the bytes of a path into a new record of `heap`, under `hash` if
    /// one is given and under their content hash if none is.
    pub fn with_hash(heap: &mut Heap, value: &[u8], hash: Option<u64>) -> (record: StaticPath)
        ensures
            record.ptr == old(heap)@.len(),
            record.hash == hash_or(hash, value),
            final(heap)@ == old(heap)@.push(
                RecordView { payload: PayloadView::Path(value@), hash: record.hash },
            ),
            record.valid(final(heap)@),
    {
        let hash = match hash {
            Some(h) => h,
            None => hash_of(value),
        };
        let ptr = heap.allocate(Payload::Path(slice_to_vec(value)), hash);
        StaticPath { ptr, hash }
    }
}

impl Hashable for StaticValue {
    open spec fn hash_writes(&self) -> Seq<Seq<u8>> {
        scalar_writes(Scalar::U64(self.hash))
    }

    fn hash(&self, state: &mut DefaultHasher) {
        self.hash.hash(state)
    }
}

impl Hashable for StaticSlice {
    open spec fn hash_writes(&self) -> Seq<Seq<u8>> {
        scalar_writes(Scalar::U64(self.hash))
    }

    fn hash(&self, state: &mut DefaultHasher) {
        self.hash.hash(state)
    }
}

impl Hashable for StaticStr {
    open spec fn hash_writes(&self) -> Seq<Seq<u8>> {
        scalar_writes(Scalar::U64(self.hash))
    }

    fn hash(&self, state: &mut DefaultHasher) {
        self.hash.hash(state)
    }
}

impl Hashable for StaticOsStr {
    open spec fn hash_writes(&self) -> Seq<Seq<u8>> {
        scalar_writes(Scalar::U64(self.hash))
    }

    fn hash(&self, state: &mut DefaultHasher) {
        self.hash.hash(state)
    }
}

impl Hashable for StaticPath {
    open spec fn hash_writes(&self) -> Seq<Seq<u8>> {
        scalar_writes(Scalar::U64(self.hash))
    }

    fn hash(&self, state: &mut DefaultHasher) {
        self.hash.hash(state)
    }
}

impl Static {
    /// The address of the record.
    pub open spec fn spec_as_ptr(&self) -> usize {
        match *self {
            Static::Value(value) => value.ptr,
            Static::Slice(slice) => slice.ptr,
            Static::Str(string) => string.ptr,
            Static::OsStr(os_str) => os_str.ptr,
            Static::Path(path) => path.ptr,
        }
    }

    /// The cached content hash of the record.
    pub open spec fn spec_hash_code(&self) -> u64 {
        match *self {
            Static::Value(value) => value.hash,
            Static::Slice(slice) => slice.hash,
            Static::Str(string) => string.hash,
            Static::OsStr(os_str) => os_str.hash,
            Static::Path(path) => path.hash,
        }
    }

    /// The reference to `record`, when it stands at address `ptr`.
    pub open spec fn of(record: RecordView, ptr: usize) -> Static {
        match record.payload {
            PayloadView::Value(_) => Static::Value(StaticValue { ptr, hash: record.hash }),
            PayloadView::Slice(items) => Static::Slice(
                StaticSlice { ptr, len: items.len() as usize, hash: record.hash },
            ),
            PayloadView::Str(_) => Static::Str(StaticStr { ptr, hash: record.hash }),
            PayloadView::OsStr(_) => Static::OsStr(StaticOsStr { ptr, hash: record.hash }),
            PayloadView::Path(_) => Static::Path(StaticPath { ptr, hash: record.hash }),
        }
    }

    /// Holds if `heap` has, at this address, a record of this storage kind
    /// with this hash and, for a slice, this length.
    pub open spec fn valid(self, heap: Seq<RecordView>) -> bool {
        &&& self.as_ptr() < heap.len()
        &&& self == Static::of(heap[self.as_ptr() as int], self.as_ptr())
    }

    /// Tells whether `heap` has, at this address, a record of this storage
    /// kind with this hash and, for a slice, this length.
    pub fn stands_in(&self, heap: &Heap) -> (stands: bool)
        ensures
            stands == self.valid(heap@),
    {
        let ptr = self.as_ptr();
        if ptr >= heap.len() {
            return false;
        }
        if heap.hash_code(ptr) != self.hash_code() {
            return false;
        }
        match (self, heap.payload(ptr)) {
            (Static::Value(_), Payload::Value(_)) => true,
            (Static::Slice(slice), Payload::Slice(items)) => items.len() == slice.len,
            (Static::Str(_), Payload::Str(_)) => true,
            (Static::OsStr(_), Payload::OsStr(_)) => true,
            (Static::Path(_), Payload::Path(_)) => true,
            _ => false,
        }
    }

    /// Returns the address of the record. It tells records apart; the payload
    /// is read with the `as_` methods.
    #[verifier::when_used_as_spec(spec_as_ptr)]
    pub fn as_ptr(&self) -> (ptr: usize)
        ensures
            ptr == self.spec_as_ptr(),
    {
        match self {
            Static::Value(value) => value.ptr,
            Static::Slice(slice) => slice.ptr,
            Static::Str(string) => string.ptr,
            Static::OsStr(os_str) => os_str.ptr,
            Static::Path(path) => path.ptr,
        }
    }

    /// Returns the cached content hash of the record.
    #[verifier::when_used_as_spec(spec_hash_code)]
    pub fn hash_code(&self) -> (hash: u64)
        ensures
            hash == self.spec_hash_code(),
    {
        match self {
            Static::Value(value) => value.hash,
            Static::Slice(slice) => slice.hash,
            Static::Str(string) => string.hash,
            Static::OsStr(os_str) => os_str.hash,
            Static::Path(path) => path.hash,
        }
    }

    /// Makes a slice record of `slice` in `heap`.
    pub fn from<T: ScalarType>(heap: &mut Heap, slice: &[T], hash: Option<u64>) -> (record: Static)
        ensures
            record is Slice,
            record.as_ptr() == old(heap)@.len(),
            record.hash_code() == hash_or(hash, slice),
            final(heap)@ == old(heap)@.push(
                RecordView {
                    payload: PayloadView::Slice(scalars_of(slice@)),
                    hash: record.hash_code(),
                },
            ),
            record.valid(final(heap)@),
    {
        Static::Slice(StaticSlice::with_hash(heap, slice, hash))
    }

    /// Makes a scalar record of `value` in `heap`.
    pub fn from_value<T: ScalarType>(heap: &mut Heap, value: T, hash: Option<u64>) -> (record:
        Static)
        ensures
            record is Value,
            record.as_ptr() == old(heap)@.len(),
            record.hash_code() == hash_or(hash, &value),
            final(heap)@ == old(heap)@.push(
                RecordView {
                    payload: PayloadView::Value(value.scalar()),
                    hash: record.hash_code(),
                },
            ),
            record.valid(final(heap)@),
    {
        Static::Value(StaticValue::with_hash(heap, value, hash))
    }

    /// Makes a string record of `value` in `heap`.
    pub fn from_str(heap: &mut Heap, value: &str, hash: Option<u64>) -> (record: Static)
        ensures
            record is Str,
            record.as_ptr() == old(heap)@.len(),
            record.hash_code() == hash_or(hash, value),
            final(heap)@ == old(heap)@.push(
                RecordView { payload: PayloadView::Str(value@), hash: record.hash_code() },
            ),
            record.valid(final(heap)@),
    {
        Static::Str(StaticStr::with_hash(heap, value, hash))
    }

    /// Makes an OS string record of the bytes `value` in `heap`.
    pub fn from_os_str(heap: &mut Heap, value: &[u8], hash: Option<u64>) -> (record: Static)
        ensures
            record is OsStr,
            record.as_ptr() == old(heap)@.len(),
            record.hash_code() == hash_or(hash, value),
            final(heap)@ == old(heap)@.push(
                RecordView { payload: PayloadView::OsStr(value@), hash: record.hash_code() },
            ),
            record.valid(final(heap)@),
    {
        Static::OsStr(StaticOsStr::with_hash(heap, value, hash))
    }

    /// Makes a path record of the bytes `value` in `heap`.
    pub fn from_path(heap: &mut Heap, value: &[u8], hash: Option<u64>) -> (record: Static)
        ensures
            record is Path,
            record.as_ptr() == old(heap)@.len(),
            record.hash_code() == hash_or(hash, value),
            final(heap)@ == old(heap)@.push(
                RecordView { payload: PayloadView::Path(value@), hash: record.hash_code() },
            ),
            record.valid(final(heap)@),
    {
        Static::Path(StaticPath::with_hash(heap, value, hash))
    }

    /// Reads a slice record back as a vector of `T`. The record must be a
    /// slice record whose scalars were made from `T`.
    pub fn as_slice<T: ScalarType>(&self, heap: &Heap) -> (items: Vec<T>)
        requires
            *self is Slice,
            self.valid(heap@),
            all_hold::<T>(heap@[self.as_ptr() as int].payload->Slice_0),
        ensures
            items@ == values_of::<T>(heap@[self.as_ptr() as int].payload->Slice_0),
    {
        match self {
            Static::Slice(static_slice) => static_slice.as_slice::<T>(heap),
            _ => vstd::pervasive::unreached(),
        }
    }

    /// Reads a scalar record back as a `T`. The record must be a scalar record
    /// whose scalar was made from a `T`.
    pub fn as_value<T: ScalarType>(&self, heap: &Heap) -> (value: T)
        requires
            *self is Value,
            self.valid(heap@),
            T::holds(heap@[self.as_ptr() as int].payload->Value_0),
        ensures
            value == T::from_scalar(heap@[self.as_ptr() as int].payload->Value_0),
    {
        match self {
            Static::Value(static_value) => static_value.as_value::<T>(heap),
            _ => vstd::pervasive::unreached(),
        }
    }

    /// The string of a string record.
    pub fn as_str<'a>(&self, heap: &'a Heap) -> (text: &'a str)
        requires
            *self is Str,
            self.valid(heap@),
        ensures
            text@ == heap@[self.as_ptr() as int].payload->Str_0,
    {
        match self {
            Static::Str(static_str) => static_str.as_str(heap),
            _ => vstd::pervasive::unreached(),
        }
    }

    /// The bytes of an OS string record.
    pub fn as_os_str<'a>(&self, heap: &'a Heap) -> (bytes: &'a [u8])
        requires
            *self is OsStr,
            self.valid(heap@),
        ensures
            bytes@ == heap@[self.as_ptr() as int].payload->OsStr_0,
    {
        match self {
            Static::OsStr(static_os_str) => static_os_str.as_os_str(heap),
            _ => vstd::pervasive::unreached(),
        }
    }

    /// The bytes of a path record.
    pub fn as_path<'a>(&self, heap: &'a Heap) -> (bytes: &'a [u8])
        requires
            *self is Path,
            self.valid(heap@),
        ensures
            bytes@ == heap@[self.as_ptr() as int].payload->Path_0,
    {
        match self {
            Static::Path(static_path) => static_path.as_path(heap),
            _ => vstd::pervasive::unreached(),
        }
    }

    /// Two references are equal when their content hashes are.
    pub fn _partial_eq(&self, other: &Static) -> (equal: bool)
        ensures
            equal == (self.hash_code() == other.hash_code()),
    {
        self.hash_code() == other.hash_code()
    }

    /// Hashes a reference as a record of type `T`: the identity of `T`, then
    /// the content hash.
    pub fn _hash<T: Staticize>(&self, state: &mut DefaultHasher)
        ensures
            final(state)@ == old(state)@ + scalar_writes(Scalar::U64(T::static_id()))
                + scalar_writes(Scalar::U64(self.hash_code())),
    {
        let type_id = T::static_type_id();
        type_id.hash(state);
        self.hash_code().hash(state);
    }
}

} // verus!
