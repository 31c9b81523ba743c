//! The heap that owns every record.
//!
//! Records are kept in an append-only arena. The index of a record is its
//! address: it is given out once, when the record is allocated, and stays valid
//! for as long as the heap lives. Nothing is ever removed or overwritten.

use crate::scalar::Scalar;
use vstd::prelude::*;

verus! {

/// The storage kinds of a record.
#[derive(Clone, Copy, Debug, PartialEq, Eq, Structural)]
pub enum Kind {
    /// A single scalar instance.
    Value,
    /// A sequence of scalars with its length.
    Slice,
    /// An immutable character or byte buffer.
    Reference,
}

/// What a record owns: one scalar, a sequence of scalars, a character string,
/// or the bytes of an OS string or of a path.
#[derive(Debug)]
pub enum Payload {
    Value(Scalar),
    Slice(Vec<Scalar>),
    Str(String),
    OsStr(Vec<u8>),
    Path(Vec<u8>),
}

/// The mathematical content of a [`Payload`].
pub enum PayloadView {
    Value(Scalar),
    Slice(Seq<Scalar>),
    Str(Seq<char>),
    OsStr(Seq<u8>),
    Path(Seq<u8>),
}

impl PayloadView {
    /// The storage kind of this payload.
    pub open spec fn kind(self) -> Kind {
        match self {
            PayloadView::Value(_) => Kind::Value,
            PayloadView::Slice(_) => Kind::Slice,
            _ => Kind::Reference,
        }
    }
}

impl View for Payload {
    type V = PayloadView;

    open spec fn view(&self) -> PayloadView {
        match *self {
            Payload::Value(scalar) => PayloadView::Value(scalar),
            Payload::Slice(items) => PayloadView::Slice(items@),
            Payload::Str(text) => PayloadView::Str(text@),
            Payload::OsStr(bytes) => PayloadView::OsStr(bytes@),
            Payload::Path(bytes) => PayloadView::Path(bytes@),
        }
    }
}

/// A canonical record: a payload with its content hash.
#[derive(Debug)]
pub struct Record {
    payload: Payload,
    hash: u64,
}

/// The mathematical content of a [`Record`].
pub struct RecordView {
    pub payload: PayloadView,
    pub hash: u64,
}

impl View for Record {
    type V = RecordView;

    closed spec fn view(&self) -> RecordView {
        RecordView { payload: self.payload@, hash: self.hash }
    }
}

/// The arena of records. Its view is the sequence of the records allocated so
/// far, in the order of their addresses.
#[derive(Debug)]
pub struct Heap {
    records: Vec<Record>,
}

impl View for Heap {
    type V = Seq<RecordView>;

    closed spec fn view(&self) -> Seq<RecordView> {
        Seq::new(self.records@.len(), |i: int| self.records@[i]@)
    }
}

/// `later` holds every record of `earlier` at the same address, and maybe more.
pub open spec fn extends(later: Seq<RecordView>, earlier: Seq<RecordView>) -> bool {
    &&& earlier.len() <= later.len()
    &&& forall|ptr: int| 0 <= ptr < earlier.len() ==> later[ptr] == earlier[ptr]
}

impl Heap {
    /// An empty heap.
    pub fn new() -> (heap: Heap)
        ensures
            heap@ == Seq::<RecordView>::empty(),
    {
        let heap = Heap { records: Vec::new() };
        assert(heap@ =~= Seq::<RecordView>::empty());
        heap
    }

    /// The number of records allocated so far.
    pub fn len(&self) -> (len: usize)
        ensures
            len == self@.len(),
    {
        self.records.len()
    }

    /// Moves `payload` into a new record with the given hash, and returns the
    /// record's address. Every record allocated before keeps its address and
    /// its content.
    pub fn allocate(&mut self, payload: Payload, hash: u64) -> (ptr: usize)
        ensures
            ptr == old(self)@.len(),
            final(self)@ == old(self)@.push(RecordView { payload: payload@, hash }),
    {
        let ptr = self.records.len();
        self.records.push(Record { payload, hash });
        assert(self@ =~= old(self)@.push(RecordView { payload: payload@, hash }));
        ptr
    }

    /// The payload of the record at `ptr`.
    pub fn payload(&self, ptr: usize) -> (payload: &Payload)
        requires
            ptr < self@.len(),
        ensures
            payload@ == self@[ptr as int].payload,
    {
        &self.records[ptr].payload
    }

    /// The content hash of the record at `ptr`.
    pub fn hash_code(&self, ptr: usize) -> (hash: u64)
        requires
            ptr < self@.len(),
        ensures
            hash == self@[ptr as int].hash,
    {
        self.records[ptr].hash
    }
}

} // verus!
