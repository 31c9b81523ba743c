//! The canonical store.
//!
//! A [`Store`] owns the heap of records and two tables over it, both
//! partitioned by type identity. The interning table maps a content hash to
//! the record that was first stored under it. The memoization table maps the
//! hash of a memoization key to the record of the result. An entry, once made,
//! is never changed or removed.

use crate::datatype::DataType;
use crate::hashing::{content_hash, hash_of};
use crate::heap::{extends, Heap, PayloadView, RecordView};
use crate::record::Static;
use crate::staticize::Staticize;
use std::collections::HashMap;
use vstd::prelude::*;

verus! {

/// The store: the heap, the interning table and the memoization table.
pub struct Store {
    heap: Heap,
    interned: HashMap<u64, HashMap<u64, Static>>,
    memoized: HashMap<u64, HashMap<u64, Static>>,
}

/// The mathematical content of a [`Store`]: the records of its heap, and for
/// each table the buckets by type identity.
pub struct StoreState {
    pub heap: Seq<RecordView>,
    pub interned: Map<u64, Map<u64, Static>>,
    pub memoized: Map<u64, Map<u64, Static>>,
}

/// The bucket of `type_id` in `table`; empty where the table has none.
pub open spec fn bucket_of(table: Map<u64, Map<u64, Static>>, type_id: u64) -> Map<u64, Static> {
    if table.contains_key(type_id) {
        table[type_id]
    } else {
        Map::empty()
    }
}

impl StoreState {
    /// The store with no record and with empty tables.
    pub open spec fn empty() -> StoreState {
        StoreState { heap: Seq::empty(), interned: Map::empty(), memoized: Map::empty() }
    }

    /// The interning bucket of a type: the records by content hash.
    pub open spec fn bucket(self, type_id: u64) -> Map<u64, Static> {
        bucket_of(self.interned, type_id)
    }

    /// The memoization bucket of a type: the records by key hash.
    pub open spec fn memo_bucket(self, type_id: u64) -> Map<u64, Static> {
        bucket_of(self.memoized, type_id)
    }

    /// The record interned for `type_id` under `hash`, if there is one.
    pub open spec fn interned_record(self, type_id: u64, hash: u64) -> Option<Static> {
        if self.bucket(type_id).contains_key(hash) {
            Some(self.bucket(type_id)[hash])
        } else {
            None
        }
    }

    /// The record memoized for `type_id` under `key`, if there is one.
    pub open spec fn memoized_record(self, type_id: u64, key: u64) -> Option<Static> {
        if self.memo_bucket(type_id).contains_key(key) {
            Some(self.memo_bucket(type_id)[key])
        } else {
            None
        }
    }

    /// The number of distinct records interned for a type.
    pub open spec fn num_interned(self, type_id: u64) -> nat {
        self.bucket(type_id).len()
    }

    /// The number of distinct keys memoized for a type.
    pub open spec fn num_memoized(self, type_id: u64) -> nat {
        self.memo_bucket(type_id).len()
    }

    /// The invariant of a store. Every bucket is finite. An interned record
    /// stands in the heap and is filed under its own content hash. A memoized
    /// record stands in the heap and is the record interned for its type under
    /// its content hash.
    pub open spec fn wf(self) -> bool {
        &&& self.heap.len() <= usize::MAX
        &&& forall|type_id: u64| #[trigger] self.bucket(type_id).dom().finite()
        &&& forall|type_id: u64| #[trigger] self.memo_bucket(type_id).dom().finite()
        &&& forall|type_id: u64, hash: u64| #[trigger]
            self.bucket(type_id).contains_key(hash) ==> {
                &&& self.bucket(type_id)[hash].valid(self.heap)
                &&& self.bucket(type_id)[hash].hash_code() == hash
            }
        &&& forall|type_id: u64, key: u64| #[trigger]
            self.memo_bucket(type_id).contains_key(key) ==> {
                let record = self.memo_bucket(type_id)[key];
                &&& record.valid(self.heap)
                &&& self.interned_record(type_id, record.hash_code()) == Some(record)
            }
    }

    /// The store with `record` filed in the interning table.
    pub open spec fn with_interned(self, type_id: u64, hash: u64, record: Static) -> StoreState {
        StoreState {
            interned: self.interned.insert(type_id, self.bucket(type_id).insert(hash, record)),
            ..self
        }
    }

    /// The store with `record` filed in the memoization table.
    pub open spec fn with_memoized(self, type_id: u64, key: u64, record: Static) -> StoreState {
        StoreState {
            memoized: self.memoized.insert(type_id, self.memo_bucket(type_id).insert(key, record)),
            ..self
        }
    }

    /// The store with one more record at the end of its heap.
    pub open spec fn with_record(self, record: RecordView) -> StoreState {
        StoreState { heap: self.heap.push(record), ..self }
    }

    /// Interning a value of type `type_id` with content hash `hash` and the
    /// given payload: the store afterwards and the record that the handle
    /// gets. If a record is filed under `hash` already, it is returned and
    /// nothing changes, whatever the payload. Otherwise the payload is copied
    /// into a new record, which is filed under `hash` and returned.
    pub open spec fn intern(self, type_id: u64, hash: u64, payload: PayloadView) -> (
        StoreState,
        Static,
    ) {
        match self.interned_record(type_id, hash) {
            Some(record) => (self, record),
            None => {
                let stored = RecordView { payload, hash };
                let record = Static::of(stored, self.heap.len() as usize);
                (self.with_record(stored).with_interned(type_id, hash, record), record)
            },
        }
    }

    /// Interning a record that stands in the heap already: the store
    /// afterwards and the record that the handle gets. If a record is filed
    /// under the same content hash already, that one is returned and nothing
    /// changes. Otherwise `record` is filed and returned.
    pub open spec fn intern_static(self, type_id: u64, record: Static) -> (StoreState, Static) {
        match self.interned_record(type_id, record.hash_code()) {
            Some(first) => (self, first),
            None => (self.with_interned(type_id, record.hash_code(), record), record),
        }
    }

    /// Memoizing under `key` a computation whose result, if it is computed,
    /// has content hash `hash` and the given payload: the store afterwards and
    /// the record that the handle gets. If `key` is memoized already, its
    /// record is returned and nothing changes, whatever the result would be.
    /// Otherwise the result is interned and its record is filed under `key`.
    pub open spec fn memo(self, type_id: u64, key: u64, hash: u64, payload: PayloadView) -> (
        StoreState,
        Static,
    ) {
        match self.memoized_record(type_id, key) {
            Some(record) => (self, record),
            None => {
                let (store, record) = self.intern(type_id, hash, payload);
                (store.with_memoized(type_id, key, record), record)
            },
        }
    }
}

/// The buckets of a table of hash maps.
pub open spec fn table_view(table: HashMap<u64, HashMap<u64, Static>>) -> Map<
    u64,
    Map<u64, Static>,
> {
    Map::new(|type_id: u64| table@.contains_key(type_id), |type_id: u64| table@[type_id]@)
}

impl View for Store {
    type V = StoreState;

    closed spec fn view(&self) -> StoreState {
        StoreState {
            heap: self.heap@,
            interned: table_view(self.interned),
            memoized: table_view(self.memoized),
        }
    }
}

/// Looks `key` up in the bucket of `type_id`.
fn table_get(table: &HashMap<u64, HashMap<u64, Static>>, type_id: u64, key: u64) -> (found: Option<
    Static,
>)
    ensures
        found == (if bucket_of(table_view(*table), type_id).contains_key(key) {
            Some(bucket_of(table_view(*table), type_id)[key])
        } else {
            None
        }),
{
    match table.get(&type_id) {
        Some(bucket) => match bucket.get(&key) {
            Some(record) => Some(*record),
            None => None,
        },
        None => None,
    }
}

/// Files `record` under `key` in the bucket of `type_id`, unless the key is
/// taken, and returns the record that the key then has.
fn table_insert(
    table: &mut HashMap<u64, HashMap<u64, Static>>,
    type_id: u64,
    key: u64,
    record: Static,
) -> (filed: Static)
    ensures
        filed == (if bucket_of(table_view(*old(table)), type_id).contains_key(key) {
            bucket_of(table_view(*old(table)), type_id)[key]
        } else {
            record
        }),
        table_view(*final(table)) == table_view(*old(table)).insert(
            type_id,
            bucket_of(table_view(*old(table)), type_id).insert(key, filed),
        ),
{
    let filed = *table.entry(type_id).or_insert(HashMap::new()).entry(key).or_insert(record);
    assert(table_view(*table) =~~= table_view(*old(table)).insert(
        type_id,
        bucket_of(table_view(*old(table)), type_id).insert(key, filed),
    ));
    filed
}

/// Counts the entries of the bucket of `type_id`.
fn table_count(table: &HashMap<u64, HashMap<u64, Static>>, type_id: u64) -> (count: usize)
    ensures
        count == bucket_of(table_view(*table), type_id).len(),
{
    match table.get(&type_id) {
        Some(bucket) => bucket.len(),
        None => 0,
    }
}

impl Store {
    /// An empty store: no record, and nothing interned or memoized.
    pub fn new() -> (store: Store)
        ensures
            store@ == StoreState::empty(),
            store@.wf(),
    {
        let store = Store { heap: Heap::new(), interned: HashMap::new(), memoized: HashMap::new() };
        assert(store@.interned =~= Map::empty());
        assert(store@.memoized =~= Map::empty());
        store
    }

    /// The heap of this store, to read records with.
    pub fn heap(&self) -> (heap: &Heap)
        ensures
            heap@ == self@.heap,
    {
        &self.heap
    }

    /// Copies `value` into a new record of the heap, under `hash` if one is
    /// given and under the content hash of `value` if none is. The record is
    /// not filed in any table.
    pub fn allocate<T: DataType>(&mut self, value: &T, hash: Option<u64>) -> (record: Static)
        requires
            old(self)@.wf(),
        ensures
            final(self)@.wf(),
            final(self)@ == old(self)@.with_record(
                RecordView { payload: value.payload(), hash: record.hash_code() },
            ),
            record == Static::of(
                RecordView { payload: value.payload(), hash: record.hash_code() },
                old(self)@.heap.len() as usize,
            ),
            record.hash_code() == (match hash {
                Some(h) => h,
                None => content_hash(value),
            }),
    {
        let record = value.to_static_with_hash(&mut self.heap, hash);
        let len = self.heap.len();
        proof {
            lemma_wf_with_record(
                old(self)@,
                RecordView { payload: value.payload(), hash: record.hash_code() },
            );
        }
        record
    }

    /// Looks up the record interned for `type_id` under `hash`.
    pub fn interned(&self, type_id: u64, hash: u64) -> (found: Option<Static>)
        ensures
            found == self@.interned_record(type_id, hash),
    {
        table_get(&self.interned, type_id, hash)
    }

    /// Interns `value` as a value of the type with identity `type_id`, under
    /// `hash` if one is given and under the content hash of `value` if none
    /// is. Where a record is filed under that hash already, it is returned and
    /// nothing is allocated or copied.
    pub fn intern<T: DataType>(&mut self, type_id: u64, value: &T, hash: Option<u64>) -> (record:
        Static)
        requires
            old(self)@.wf(),
        ensures
            final(self)@.wf(),
            (final(self)@, record) == old(self)@.intern(
                type_id,
                match hash {
                    Some(h) => h,
                    None => content_hash(value),
                },
                value.payload(),
            ),
    {
        let hash = match hash {
            Some(h) => h,
            None => hash_of(value),
        };
        match table_get(&self.interned, type_id, hash) {
            Some(record) => record,
            None => {
                let record = self.allocate(value, Some(hash));
                let filed = self.intern_static(type_id, record);
                filed
            },
        }
    }

    /// Interns a record that stands in the heap of this store. Where a record
    /// is filed under the same content hash already, that one is returned.
    pub fn intern_static(&mut self, type_id: u64, record: Static) -> (filed: Static)
        requires
            old(self)@.wf(),
            record.valid(old(self)@.heap),
        ensures
            final(self)@.wf(),
            (final(self)@, filed) == old(self)@.intern_static(type_id, record),
    {
        let filed = table_insert(&mut self.interned, type_id, record.hash_code(), record);
        proof {
            if old(self)@.interned_record(type_id, record.hash_code()) is None {
                lemma_wf_with_interned(old(self)@, type_id, record);
            } else {
                assert(self@.interned =~~= old(self)@.interned);
            }
        }
        filed
    }

    /// Looks up the record memoized for `type_id` under `key`.
    pub fn memoized(&self, type_id: u64, key: u64) -> (found: Option<Static>)
        ensures
            found == self@.memoized_record(type_id, key),
    {
        table_get(&self.memoized, type_id, key)
    }

    /// Files `record`, which is interned for `type_id`, under `key` in the
    /// memoization table. Where the key is taken already, nothing changes. The
    /// record that the key then has is returned.
    pub fn remember(&mut self, type_id: u64, key: u64, record: Static) -> (filed: Static)
        requires
            old(self)@.wf(),
            old(self)@.interned_record(type_id, record.hash_code()) == Some(record),
        ensures
            final(self)@.wf(),
            filed == (match old(self)@.memoized_record(type_id, key) {
                Some(first) => first,
                None => record,
            }),
            final(self)@ == (match old(self)@.memoized_record(type_id, key) {
                Some(first) => old(self)@,
                None => old(self)@.with_memoized(type_id, key, record),
            }),
    {
        let filed = table_insert(&mut self.memoized, type_id, key, record);
        proof {
            if old(self)@.memoized_record(type_id, key) is None {
                lemma_wf_with_memoized(old(self)@, type_id, key, record);
            } else {
                assert(self@.memoized =~~= old(self)@.memoized);
            }
        }
        filed
    }
}

/// Returns the number of distinct records interned in `store` for the type
/// `T`.
pub fn num_interned<T: Staticize>(store: &Store) -> (count: usize)
    ensures
        count == store@.num_interned(T::static_id()),
{
    table_count(&store.interned, T::static_type_id())
}

/// Returns the number of distinct keys memoized in `store` for the type `T`.
pub fn num_memoized<T: Staticize>(store: &Store) -> (count: usize)
    ensures
        count == store@.num_memoized(T::static_id()),
{
    table_count(&store.memoized, T::static_type_id())
}

/// A record that stands in a heap stands in every heap that extends it.
pub proof fn lemma_valid_extends(record: Static, earlier: Seq<RecordView>, later: Seq<RecordView>)
    requires
        record.valid(earlier),
        extends(later, earlier),
    ensures
        record.valid(later),
{
}

/// Allocating a record keeps the invariant of the store.
pub proof fn lemma_wf_with_record(store: StoreState, record: RecordView)
    requires
        store.wf(),
        store.heap.len() < usize::MAX,
    ensures
        store.with_record(record).wf(),
{
    let after = store.with_record(record);
    assert(extends(after.heap, store.heap));
    assert forall|type_id: u64, hash: u64| #[trigger]
        after.bucket(type_id).contains_key(hash) implies after.bucket(type_id)[hash].valid(
        after.heap,
    ) && after.bucket(type_id)[hash].hash_code() == hash by {
        assert(store.bucket(type_id).contains_key(hash));
        lemma_valid_extends(store.bucket(type_id)[hash], store.heap, after.heap);
    }
    assert forall|type_id: u64, key: u64| #[trigger]
        after.memo_bucket(type_id).contains_key(key) implies ({
        let record = after.memo_bucket(type_id)[key];
        &&& record.valid(after.heap)
        &&& after.interned_record(type_id, record.hash_code()) == Some(record)
    }) by {
        assert(store.memo_bucket(type_id).contains_key(key));
        lemma_valid_extends(store.memo_bucket(type_id)[key], store.heap, after.heap);
    }
    assert forall|type_id: u64| #[trigger] after.bucket(type_id).dom().finite() by {
        assert(store.bucket(type_id).dom().finite());
    }
    assert forall|type_id: u64| #[trigger] after.memo_bucket(type_id).dom().finite() by {
        assert(store.memo_bucket(type_id).dom().finite());
    }
}

/// Filing a record of the heap under its own hash, where that hash is free,
/// keeps the invariant of the store.
pub proof fn lemma_wf_with_interned(store: StoreState, type_id: u64, record: Static)
    requires
        store.wf(),
        record.valid(store.heap),
        store.interned_record(type_id, record.hash_code()) is None,
    ensures
        store.with_interned(type_id, record.hash_code(), record).wf(),
{
    let hash = record.hash_code();
    let after = store.with_interned(type_id, hash, record);
    assert forall|other: u64| #[trigger] after.bucket(other).dom().finite() by {
        assert(store.bucket(other).dom().finite());
    }
    assert forall|other: u64| #[trigger] after.memo_bucket(other).dom().finite() by {
        assert(store.memo_bucket(other).dom().finite());
    }
    assert forall|other: u64, h: u64| #[trigger]
        after.bucket(other).contains_key(h) implies after.bucket(other)[h].valid(after.heap)
        && after.bucket(other)[h].hash_code() == h by {
        if other != type_id || h != hash {
            assert(store.bucket(other).contains_key(h));
        }
    }
    assert forall|other: u64, key: u64| #[trigger]
        after.memo_bucket(other).contains_key(key) implies ({
        let found = after.memo_bucket(other)[key];
        &&& found.valid(after.heap)
        &&& after.interned_record(other, found.hash_code()) == Some(found)
    }) by {
        assert(store.memo_bucket(other).contains_key(key));
    }
}

/// Filing an interned record under a free key of the memoization table keeps
/// the invariant of the store.
pub proof fn lemma_wf_with_memoized(store: StoreState, type_id: u64, key: u64, record: Static)
    requires
        store.wf(),
        store.interned_record(type_id, record.hash_code()) == Some(record),
    ensures
        store.with_memoized(type_id, key, record).wf(),
{
    let after = store.with_memoized(type_id, key, record);
    assert(store.bucket(type_id).contains_key(record.hash_code()));
    assert forall|other: u64| #[trigger] after.bucket(other).dom().finite() by {
        assert(store.bucket(other).dom().finite());
    }
    assert forall|other: u64| #[trigger] after.memo_bucket(other).dom().finite() by {
        assert(store.memo_bucket(other).dom().finite());
    }
    assert forall|other: u64, h: u64| #[trigger]
        after.bucket(other).contains_key(h) implies after.bucket(other)[h].valid(after.heap)
        && after.bucket(other)[h].hash_code() == h by {
        assert(store.bucket(other).contains_key(h));
    }
    assert forall|other: u64, k: u64| #[trigger]
        after.memo_bucket(other).contains_key(k) implies ({
        let found = after.memo_bucket(other)[k];
        &&& found.valid(after.heap)
        &&& after.interned_record(other, found.hash_code()) == Some(found)
    }) by {
        if other != type_id || k != key {
            assert(store.memo_bucket(other).contains_key(k));
        }
    }
}

} // verus!
