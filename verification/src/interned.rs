//! Handles to interned values.

use crate::datatype::{DataType, OsBytes, PathBytes, Slice, Value};
use crate::hashing::{content_hash, scalar_writes, Hashable};
use crate::record::Static;
use crate::scalar::{all_hold, values_of, Scalar, ScalarType};
use crate::staticize::Staticize;
use crate::store::{Store, StoreState};
use std::collections::hash_map::DefaultHasher;
use std::marker::PhantomData;
use vstd::prelude::*;

verus! {

/// A handle to a value of type `T` that was interned in a [`Store`].
///
/// Two handles that were made from the same value in one store name the same
/// record. A handle is small and freely copied; the value stays in the store
/// and is read through it.
#[derive(Debug)]
pub struct Interned<T> {
    pub _value: PhantomData<T>,
    pub value: Static,
}

impl<T> Clone for Interned<T> {
    fn clone(&self) -> (copy: Self)
        ensures
            copy == *self,
    {
        Interned { _value: PhantomData, value: self.value }
    }
}

impl<T> Copy for Interned<T> {

}

impl<T> Interned<T> {
    /// The address of the record of this handle.
    pub open spec fn spec_as_ptr(&self) -> usize {
        self.value.as_ptr()
    }

    /// Returns the address of the record of this handle. Handles of one store
    /// that name the same record have the same address.
    #[verifier::when_used_as_spec(spec_as_ptr)]
    pub fn as_ptr(&self) -> (ptr: usize)
        ensures
            ptr == self.spec_as_ptr(),
    {
        self.value.as_ptr()
    }

    /// The payload that this handle names in `store`.
    pub open spec fn payload(self, store: StoreState) -> crate::heap::PayloadView {
        store.heap[self.value.as_ptr() as int].payload
    }
}

impl<T: Staticize> Interned<T> {
    /// Holds if the record of this handle stands in the heap of `store` and
    /// is the one interned for `T` under its content hash.
    pub open spec fn interned_in(self, store: StoreState) -> bool {
        &&& self.value.valid(store.heap)
        &&& store.interned_record(T::static_id(), self.value.hash_code()) == Some(self.value)
    }

    /// Interns `value` in `store`. If a value of this type with the same
    /// content hash was interned before, the handle names the record of that
    /// first value; else `value` is copied into a new record.
    pub fn from<U: DataType + Staticize<Static = T>>(store: &mut Store, value: U) -> (handle:
        Interned<T>)
        requires
            old(store)@.wf(),
        ensures
            final(store)@.wf(),
            (final(store)@, handle.value) == old(store)@.intern(
                T::static_id(),
                content_hash(&value),
                value.payload(),
            ),
            handle.interned_in(final(store)@),
            handle.value.hash_code() == content_hash(&value),
    {
        let record = store.intern(T::static_type_id(), &value, None);
        Interned { _value: PhantomData, value: record }
    }

    /// Interns a record that stands in the heap of `store` as a value of this
    /// type. If a record with the same content hash was interned for this type
    /// before, the handle names that first record.
    pub fn from_static(store: &mut Store, value: Static) -> (handle: Interned<T>)
        requires
            old(store)@.wf(),
            value.valid(old(store)@.heap),
        ensures
            final(store)@.wf(),
            (final(store)@, handle.value) == old(store)@.intern_static(T::static_id(), value),
            handle.interned_in(final(store)@),
            handle.value.hash_code() == value.hash_code(),
    {
        let record = store.intern_static(T::static_type_id(), value);
        Interned { _value: PhantomData, value: record }
    }
}

impl<T: DataType> Interned<T> {
    /// Reads the value of this handle in the shape that `T` declares: a
    /// scalar, a vector of items, or a string.
    pub fn deref(&self, store: &Store) -> (target: T::DerefTargetType)
        requires
            self.value.valid(store@.heap),
            T::readable(self.payload(store@)),
        ensures
            target@ == T::read_back(self.payload(store@)),
    {
        T::read(store.heap().payload(self.value.as_ptr()))
    }

    /// Reads the value of this handle, after checking that the handle names a
    /// record of `store` that reads as a `T`. Gives `None` where it does not.
    pub fn try_deref(&self, store: &Store) -> (target: Option<T::DerefTargetType>)
        ensures
            target is Some <==> self.value.valid(store@.heap) && T::readable(
                self.payload(store@),
            ),
            target matches Some(target) ==> target@ == T::read_back(self.payload(store@)),
    {
        if !self.value.stands_in(store.heap()) {
            return None;
        }
        if !T::accepts(store.heap().payload(self.value.as_ptr())) {
            return None;
        }
        Some(self.deref(store))
    }
}

impl<T: DataType<Type = Slice>> Interned<T> {
    /// Returns the items of the slice that this handle names.
    pub fn interned_slice(&self, store: &Store) -> (items: Vec<T::SliceValueType>)
        requires
            self.value is Slice,
            self.value.valid(store@.heap),
            all_hold::<T::SliceValueType>(self.payload(store@)->Slice_0),
        ensures
            items@ == values_of::<T::SliceValueType>(self.payload(store@)->Slice_0),
    {
        self.value.as_slice::<T::SliceValueType>(store.heap())
    }
}

impl<'s> Interned<&'s str> {
    /// Returns the string that this handle names.
    pub fn interned_str<'a>(&self, store: &'a Store) -> (text: &'a str)
        requires
            self.value is Str,
            self.value.valid(store@.heap),
        ensures
            text@ == self.payload(store@)->Str_0,
    {
        self.value.as_str(store.heap())
    }
}

impl<'s> Interned<OsBytes<'s>> {
    /// Returns the bytes of the OS string that this handle names.
    pub fn interned_os_str<'a>(&self, store: &'a Store) -> (bytes: &'a [u8])
        requires
            self.value is OsStr,
            self.value.valid(store@.heap),
        ensures
            bytes@ == self.payload(store@)->OsStr_0,
    {
        self.value.as_os_str(store.heap())
    }
}

impl<'s> Interned<PathBytes<'s>> {
    /// Returns the bytes of the path that this handle names.
    pub fn interned_path<'a>(&self, store: &'a Store) -> (bytes: &'a [u8])
        requires
            self.value is Path,
            self.value.valid(store@.heap),
        ensures
            bytes@ == self.payload(store@)->Path_0,
    {
        self.value.as_path(store.heap())
    }
}

impl<T: DataType<Type = Value> + ScalarType> Interned<T> {
    /// Returns the scalar value that this handle names.
    pub fn interned_value(&self, store: &Store) -> (value: T)
        requires
            self.value is Value,
            self.value.valid(store@.heap),
            T::holds(self.payload(store@)->Value_0),
        ensures
            value == T::from_scalar(self.payload(store@)->Value_0),
    {
        self.value.as_value::<T>(store.heap())
    }
}

impl<T: Staticize> Hashable for Interned<T> {
    open spec fn hash_writes(&self) -> Seq<Seq<u8>> {
        scalar_writes(Scalar::U64(T::static_id())) + scalar_writes(
            Scalar::U64(self.value.hash_code()),
        )
    }

    fn hash(&self, state: &mut DefaultHasher) {
        self.value._hash::<T>(state);
        assert(old(state)@ + scalar_writes(Scalar::U64(T::static_id())) + scalar_writes(
            Scalar::U64(self.value.hash_code()),
        ) =~= old(state)@ + self.hash_writes());
    }
}

} // verus!
