//! What holds of every store.
//!
//! The laws are stated over the mathematical content of a store and the
//! transitions [`StoreState::intern`], [`StoreState::intern_static`] and
//! [`StoreState::memo`], which the contracts of the executable functions are
//! stated over too.

use crate::datatype::{DataType, DataTypeTypeMarker};
use crate::hashing::content_hash;
use crate::heap::{extends, Kind, PayloadView, RecordView};
use crate::record::Static;
use crate::scalar::ScalarType;
use crate::staticize::{lemma_slice_ids_differ, Staticize};
use crate::store::{
    lemma_wf_with_interned, lemma_wf_with_memoized, lemma_wf_with_record, StoreState,
};
use vstd::prelude::*;

verus! {

/// Interning keeps the invariant of the store, as long as the heap has room
/// for one more record. The record that is returned stands in the heap, is
/// filed under the hash, and has that hash.
pub proof fn lemma_intern_wf(store: StoreState, type_id: u64, hash: u64, payload: PayloadView)
    requires
        store.wf(),
        store.heap.len() < usize::MAX,
    ensures
        store.intern(type_id, hash, payload).0.wf(),
        store.intern(type_id, hash, payload).0.interned_record(type_id, hash) == Some(
            store.intern(type_id, hash, payload).1,
        ),
        store.intern(type_id, hash, payload).1.valid(store.intern(type_id, hash, payload).0.heap),
        store.intern(type_id, hash, payload).1.hash_code() == hash,
        extends(store.intern(type_id, hash, payload).0.heap, store.heap),
{
    if store.interned_record(type_id, hash) is None {
        let stored = RecordView { payload, hash };
        let record = Static::of(stored, store.heap.len() as usize);
        lemma_wf_with_record(store, stored);
        lemma_wf_with_interned(store.with_record(stored), type_id, record);
    } else {
        assert(store.bucket(type_id).contains_key(hash));
    }
}

/// Memoizing keeps the invariant of the store, as long as the heap has room
/// for one more record. The record that is returned is filed under the key.
pub proof fn lemma_memo_wf(
    store: StoreState,
    type_id: u64,
    key: u64,
    hash: u64,
    payload: PayloadView,
)
    requires
        store.wf(),
        store.heap.len() < usize::MAX,
    ensures
        store.memo(type_id, key, hash, payload).0.wf(),
        store.memo(type_id, key, hash, payload).0.memoized_record(type_id, key) == Some(
            store.memo(type_id, key, hash, payload).1,
        ),
        extends(store.memo(type_id, key, hash, payload).0.heap, store.heap),
{
    if store.memoized_record(type_id, key) is None {
        lemma_intern_wf(store, type_id, hash, payload);
        let (interned, record) = store.intern(type_id, hash, payload);
        lemma_wf_with_memoized(interned, type_id, key, record);
    }
}

/// Interning is idempotent: interning a value a second time gives the record
/// of the first time, at the same address, and changes nothing.
pub proof fn lemma_intern_idempotent<T: DataType>(store: StoreState, type_id: u64, value: T)
    ensures
        ({
            let (first_store, first) = store.intern(
                type_id,
                content_hash(&value),
                value.payload(),
            );
            let (second_store, second) = first_store.intern(
                type_id,
                content_hash(&value),
                value.payload(),
            );
            &&& second == first
            &&& second.as_ptr() == first.as_ptr()
            &&& second_store == first_store
        }),
{
}

/// Among the records of one type in a store, identity of address is identity
/// of content hash: two records stand at one address exactly when they are
/// filed under one hash, and then they are one record.
pub proof fn lemma_bucket_separates(store: StoreState, type_id: u64, hash: u64, other: u64)
    requires
        store.wf(),
        store.bucket(type_id).contains_key(hash),
        store.bucket(type_id).contains_key(other),
    ensures
        store.bucket(type_id)[hash].as_ptr() == store.bucket(type_id)[other].as_ptr() <==> hash
            == other,
        store.bucket(type_id)[hash] == store.bucket(type_id)[other] <==> hash == other,
        store.bucket(type_id)[hash].hash_code() == hash,
{
}

/// Interning separates: two values of one type with different content hashes
/// never share a record, in whatever state they are interned one after the
/// other. The heap is taken to have room for both.
pub proof fn lemma_intern_separates<T: DataType>(
    store: StoreState,
    type_id: u64,
    value: T,
    other: T,
)
    requires
        store.wf(),
        store.heap.len() + 1 < usize::MAX,
        content_hash(&value) != content_hash(&other),
    ensures
        ({
            let (first_store, first) = store.intern(
                type_id,
                content_hash(&value),
                value.payload(),
            );
            let (second_store, second) = first_store.intern(
                type_id,
                content_hash(&other),
                other.payload(),
            );
            &&& second.as_ptr() != first.as_ptr()
            &&& second != first
        }),
{
    lemma_intern_wf(store, type_id, content_hash(&value), value.payload());
    let (first_store, first) = store.intern(type_id, content_hash(&value), value.payload());
    lemma_intern_wf(first_store, type_id, content_hash(&other), other.payload());
    let (second_store, second) = first_store.intern(
        type_id,
        content_hash(&other),
        other.payload(),
    );
    assert(second_store.interned_record(type_id, content_hash(&value)) == Some(first));
    lemma_bucket_separates(second_store, type_id, content_hash(&value), content_hash(&other));
}

/// Memoization is exact: after a key was memoized, memoizing it again gives
/// the record of the first time and changes nothing, whatever the generator
/// would produce the second time. The key is then in the table, so the second
/// call asks nothing of its generator and does not run it.
pub proof fn lemma_memo_exact(
    store: StoreState,
    type_id: u64,
    key: u64,
    hash: u64,
    payload: PayloadView,
    later_hash: u64,
    later_payload: PayloadView,
)
    ensures
        ({
            let (first_store, first) = store.memo(type_id, key, hash, payload);
            let (second_store, second) = first_store.memo(
                type_id,
                key,
                later_hash,
                later_payload,
            );
            &&& first_store.memoized_record(type_id, key) == Some(first)
            &&& second == first
            &&& second_store == first_store
        }),
{
}

/// Results are shared across keys: where two keys are memoized for the first
/// time and the generators produce the same value, both handles name one
/// record, at one address.
pub proof fn lemma_memo_shares<T: DataType>(
    store: StoreState,
    type_id: u64,
    key: u64,
    other: u64,
    output: T,
)
    requires
        store.memoized_record(type_id, key) is None,
        store.memoized_record(type_id, other) is None,
    ensures
        ({
            let (first_store, first) = store.memo(
                type_id,
                key,
                content_hash(&output),
                output.payload(),
            );
            let (second_store, second) = first_store.memo(
                type_id,
                other,
                content_hash(&output),
                output.payload(),
            );
            &&& second == first
            &&& second.as_ptr() == first.as_ptr()
        }),
{
}

/// Interning counts: the number of distinct records of the value's type goes
/// up by one if no record was filed under the value's hash, and stays as it is
/// if one was. The numbers of the other types stay as they are.
pub proof fn lemma_intern_counts<T: DataType>(store: StoreState, type_id: u64, value: T)
    requires
        store.wf(),
    ensures
        ({
            let after = store.intern(type_id, content_hash(&value), value.payload()).0;
            &&& store.interned_record(type_id, content_hash(&value)) is None
                ==> after.num_interned(type_id) == store.num_interned(type_id) + 1
            &&& store.interned_record(type_id, content_hash(&value)) is Some
                ==> after.num_interned(type_id) == store.num_interned(type_id)
            &&& forall|other: u64|
                other != type_id ==> after.num_interned(other) == store.num_interned(other)
            &&& forall|other: u64| after.num_memoized(other) == store.num_memoized(other)
        }),
{
    assert(store.bucket(type_id).dom().finite());
}

/// A slice type never shares its identity, and so its buckets and counters,
/// with a type of another storage kind.
pub proof fn lemma_slices_keep_apart<T: DataType, U: DataType>()
    requires
        T::Type::kind() == Kind::Slice,
        U::Type::kind() != Kind::Slice,
    ensures
        T::static_id() != U::static_id(),
{
    T::lemma_identity();
    U::lemma_identity();
}

/// Types keep to their own buckets: interning a scalar changes no counter of
/// a slice type, interning a slice changes no counter of a scalar type, and
/// interning a value of one scalar type, or a slice over it, changes no
/// counter of another scalar type or of the slices over another. The same
/// holds of memoizing.
pub proof fn lemma_other_types_keep_counts<T: ScalarType + 'static, U: ScalarType + 'static>(
    store: StoreState,
    key: u64,
    hash: u64,
    payload: PayloadView,
)
    ensures
        ({
            let scalar = T::static_id();
            let slice = <&'static [T] as Staticize>::static_id();
            let other = U::static_id();
            let other_slice = <&'static [U] as Staticize>::static_id();
            let after_scalar = store.intern(scalar, hash, payload).0;
            let after_slice = store.intern(slice, hash, payload).0;
            let memo_scalar = store.memo(scalar, key, hash, payload).0;
            let memo_slice = store.memo(slice, key, hash, payload).0;
            &&& after_scalar.num_interned(other_slice) == store.num_interned(other_slice)
            &&& after_scalar.num_memoized(other_slice) == store.num_memoized(other_slice)
            &&& after_slice.num_interned(other) == store.num_interned(other)
            &&& after_slice.num_memoized(other) == store.num_memoized(other)
            &&& memo_scalar.num_interned(other_slice) == store.num_interned(other_slice)
            &&& memo_scalar.num_memoized(other_slice) == store.num_memoized(other_slice)
            &&& memo_slice.num_interned(other) == store.num_interned(other)
            &&& memo_slice.num_memoized(other) == store.num_memoized(other)
            &&& scalar != other ==> {
                &&& after_scalar.num_interned(other) == store.num_interned(other)
                &&& after_slice.num_interned(other_slice) == store.num_interned(other_slice)
                &&& memo_scalar.num_interned(other) == store.num_interned(other)
                &&& memo_scalar.num_memoized(other) == store.num_memoized(other)
                &&& memo_slice.num_interned(other_slice) == store.num_interned(other_slice)
                &&& memo_slice.num_memoized(other_slice) == store.num_memoized(other_slice)
            }
        }),
{
    lemma_slice_ids_differ::<T, U>();
    lemma_slice_ids_differ::<U, T>();
}

/// Memoizing counts: the number of memoized keys of the type goes up by one
/// if the key was not memoized, and stays as it is if it was.
pub proof fn lemma_memo_counts(
    store: StoreState,
    type_id: u64,
    key: u64,
    hash: u64,
    payload: PayloadView,
)
    requires
        store.wf(),
    ensures
        ({
            let after = store.memo(type_id, key, hash, payload).0;
            &&& store.memoized_record(type_id, key) is None ==> after.num_memoized(type_id)
                == store.num_memoized(type_id) + 1
            &&& store.memoized_record(type_id, key) is Some ==> after.num_memoized(type_id)
                == store.num_memoized(type_id)
        }),
{
    assert(store.memo_bucket(type_id).dom().finite());
}

/// A value that is interned under a free hash can be read back: its record
/// stands in the heap, reads as its type, and gives the value's content.
pub proof fn lemma_intern_reads_back<T: DataType>(store: StoreState, type_id: u64, value: T)
    requires
        store.wf(),
        store.heap.len() < usize::MAX,
        store.interned_record(type_id, content_hash(&value)) is None,
    ensures
        ({
            let (after, record) = store.intern(
                type_id,
                content_hash(&value),
                value.payload(),
            );
            &&& record.valid(after.heap)
            &&& T::readable(after.heap[record.as_ptr() as int].payload)
            &&& T::read_back(after.heap[record.as_ptr() as int].payload) == value.target()
        }),
{
    value.lemma_read_back();
    lemma_intern_wf(store, type_id, content_hash(&value), value.payload());
}

/// Nothing is ever freed or changed by interning: a record that stands in the
/// heap stands there afterwards with the same payload, and an entry of either
/// table is there afterwards with the same record.
pub proof fn lemma_intern_keeps(
    store: StoreState,
    type_id: u64,
    hash: u64,
    payload: PayloadView,
    record: Static,
    other_type: u64,
    other: u64,
)
    ensures
        ({
            let after = store.intern(type_id, hash, payload).0;
            &&& extends(after.heap, store.heap)
            &&& record.valid(store.heap) ==> record.valid(after.heap)
                && after.heap[record.as_ptr() as int] == store.heap[record.as_ptr() as int]
            &&& store.interned_record(other_type, other) is Some ==> after.interned_record(
                other_type,
                other,
            ) == store.interned_record(other_type, other)
            &&& after.memoized_record(other_type, other) == store.memoized_record(
                other_type,
                other,
            )
        }),
{
}

/// Nothing is ever freed or changed by memoizing: a record that stands in the
/// heap stands there afterwards with the same payload, and an entry of either
/// table is there afterwards with the same record.
pub proof fn lemma_memo_keeps(
    store: StoreState,
    type_id: u64,
    key: u64,
    hash: u64,
    payload: PayloadView,
    record: Static,
    other_type: u64,
    other: u64,
)
    ensures
        ({
            let after = store.memo(type_id, key, hash, payload).0;
            &&& extends(after.heap, store.heap)
            &&& record.valid(store.heap) ==> record.valid(after.heap)
                && after.heap[record.as_ptr() as int] == store.heap[record.as_ptr() as int]
            &&& store.interned_record(other_type, other) is Some ==> after.interned_record(
                other_type,
                other,
            ) == store.interned_record(other_type, other)
            &&& store.memoized_record(other_type, other) is Some ==> after.memoized_record(
                other_type,
                other,
            ) == store.memoized_record(other_type, other)
        }),
{
}

/// Handles of one type that are equal name one record: in a store, two
/// records that are interned for one type and have equal content hashes are
/// one record, at one address.
pub proof fn lemma_equal_handles_share(
    store: StoreState,
    type_id: u64,
    record: Static,
    other: Static,
)
    requires
        store.wf(),
        store.interned_record(type_id, record.hash_code()) == Some(record),
        store.interned_record(type_id, other.hash_code()) == Some(other),
        record.hash_code() == other.hash_code(),
    ensures
        record == other,
        record.as_ptr() == other.as_ptr(),
{
}

} // verus!
