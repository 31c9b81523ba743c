//! Memoization on top of interning.
//!
//! A [`Memoized`] is the result of a computation, cached under the input of
//! the computation and a scope, and interned. The computation runs at most
//! once for each key; results that are equal share one record, whatever their
//! keys.

use crate::datatype::{DataType, Reference, Slice, Value};
use crate::hashing::{content_hash, digest, scalar_writes, Hashable};
use crate::interned::Interned;
use crate::scalar::{all_hold, values_of, Scalar, ScalarType};
use crate::staticize::Staticize;
use crate::store::{Store, StoreState};
use std::collections::hash_map::DefaultHasher;
use std::hash::Hasher;
use std::marker::PhantomData;
use vstd::prelude::*;

verus! {

/// A handle to a memoized result of type `T`, computed from an input of type
/// `I`.
#[derive(Debug)]
pub struct Memoized<I, T> {
    pub _input: PhantomData<I>,
    pub interned: Interned<T>,
}

impl<I, T> Clone for Memoized<I, T> {
    fn clone(&self) -> (copy: Self)
        ensures
            copy == *self,
    {
        Memoized { _input: PhantomData, interned: self.interned }
    }
}

impl<I, T> Copy for Memoized<I, T> {

}

/// The key under which a result of the type with identity `type_id` is
/// memoized for `input` and `scope`: the digest of the input, then the scope,
/// then the identity.
pub open spec fn memo_key<I: Hashable, S: Hashable>(input: &I, scope: &S, type_id: u64) -> u64 {
    digest(input.hash_writes() + scope.hash_writes() + scalar_writes(Scalar::U64(type_id)))
}

impl<I, T> Memoized<I, T> {
    /// Returns the handle to the interned result.
    pub fn interned(&self) -> (handle: Interned<T>)
        ensures
            handle == self.interned,
    {
        Interned { _value: PhantomData, value: self.interned.value }
    }

    /// The payload that this handle names in `store`.
    pub open spec fn payload(self, store: StoreState) -> crate::heap::PayloadView {
        self.interned.payload(store)
    }
}

impl<I, T: DataType<Type = Slice>> Memoized<I, T> {
    /// Returns the items of the memoized slice.
    pub fn as_slice(&self, store: &Store) -> (items: Vec<T::SliceValueType>)
        requires
            self.interned.value is Slice,
            self.interned.value.valid(store@.heap),
            all_hold::<T::SliceValueType>(self.payload(store@)->Slice_0),
        ensures
            items@ == values_of::<T::SliceValueType>(self.payload(store@)->Slice_0),
    {
        self.interned.value.as_slice::<T::SliceValueType>(store.heap())
    }
}

impl<I, T: DataType<Type = Reference>> Memoized<I, T> {
    /// Returns the memoized string.
    pub fn as_str<'a>(&self, store: &'a Store) -> (text: &'a str)
        requires
            self.interned.value is Str,
            self.interned.value.valid(store@.heap),
        ensures
            text@ == self.payload(store@)->Str_0,
    {
        self.interned.value.as_str(store.heap())
    }
}

impl<I, T: DataType<Type = Value> + ScalarType> Memoized<I, T> {
    /// Returns the memoized scalar value.
    pub fn as_value(&self, store: &Store) -> (value: T)
        requires
            self.interned.value is Value,
            self.interned.value.valid(store@.heap),
            T::holds(self.payload(store@)->Value_0),
        ensures
            value == T::from_scalar(self.payload(store@)->Value_0),
    {
        self.interned.value.as_value::<T>(store.heap())
    }
}

impl<I: Hashable, T: Staticize> Memoized<I, T> {
    /// Memoizes `generator` for `input` in `scope`.
    ///
    /// The key is the hash of the input, the scope and the identity of `T`.
    /// If the key was memoized before, the handle names the record that was
    /// filed then, and `generator` is not called: nothing is asked of it. Else
    /// `generator` is called on `input`, its result is interned, and the
    /// record is filed under the key. The generator is taken by value and can
    /// run once at most.
    pub fn from<S: Hashable, U: DataType + Staticize<Static = T>, G: FnOnce(I) -> U>(
        store: &mut Store,
        scope: S,
        input: I,
        generator: G,
    ) -> (memoized: Memoized<I, T>)
        requires
            old(store)@.wf(),
            old(store)@.memoized_record(T::static_id(), memo_key(&input, &scope, T::static_id()))
                is None ==> call_requires(generator, (input,)),
        ensures
            final(store)@.wf(),
            memoized.interned.interned_in(final(store)@),
            final(store)@.memoized_record(
                T::static_id(),
                memo_key(&input, &scope, T::static_id()),
            ) == Some(memoized.interned.value),
            match old(store)@.memoized_record(
                T::static_id(),
                memo_key(&input, &scope, T::static_id()),
            ) {
                Some(record) => final(store)@ == old(store)@ && memoized.interned.value == record,
                None => exists|output: U|
                    {
                        &&& call_ensures(generator, (input,), output)
                        &&& (final(store)@, memoized.interned.value) == old(store)@.memo(
                            T::static_id(),
                            memo_key(&input, &scope, T::static_id()),
                            content_hash(&output),
                            output.payload(),
                        )
                    },
            },
    {
        let mut state = DefaultHasher::new();
        let type_id = T::static_type_id();
        input.hash(&mut state);
        scope.hash(&mut state);
        type_id.hash(&mut state);
        let key = state.finish();
        assert(state@ =~= input.hash_writes() + scope.hash_writes() + scalar_writes(
            Scalar::U64(type_id),
        ));
        let record = match store.memoized(type_id, key) {
            Some(record) => record,
            None => {
                let output = generator(input);
                let record = store.intern(type_id, &output, None);
                store.remember(type_id, key, record)
            },
        };
        Memoized { _input: PhantomData, interned: Interned { _value: PhantomData, value: record } }
    }
}

impl<I, T: DataType> Memoized<I, T> {
    /// Reads the memoized result in the shape that `T` declares.
    pub fn deref(&self, store: &Store) -> (target: T::DerefTargetType)
        requires
            self.interned.value.valid(store@.heap),
            T::readable(self.payload(store@)),
        ensures
            target@ == T::read_back(self.payload(store@)),
    {
        self.interned.deref(store)
    }
}

impl<I, T: Staticize> Hashable for Memoized<I, T> {
    open spec fn hash_writes(&self) -> Seq<Seq<u8>> {
        self.interned.hash_writes()
    }

    fn hash(&self, state: &mut DefaultHasher) {
        self.interned().hash(state)
    }
}

} // verus!
