//! The classification of storable types.
//!
//! Every storable type says, once and for all, which storage kind its values
//! have, how a value looks as a scalar or as a slice, how to make a record of
//! it, and what reading a record back gives.

use crate::hashing::Hashable;
use crate::heap::{Heap, Kind, Payload, PayloadView, RecordView};
use crate::record::{hash_or, Static, StaticValue};
use crate::scalar::{
    all_hold, lemma_scalars_read_back, read_scalars, scalars_fit, scalars_of, values_of, Scalar,
    ScalarType,
};
use crate::staticize::{Staticize, FIRST_SLICE_ID};
use vstd::prelude::*;

verus! {

/// Marks the types whose values are stored as a sequence of scalars. It only
/// marks: its one value carries nothing.
pub enum Slice {
    Marker,
}

/// Marks the types whose values are stored as a single scalar. It only marks:
/// its one value carries nothing.
pub enum Value {
    Marker,
}

/// Marks the types whose values are stored as a character or byte buffer. It
/// only marks: its one value carries nothing.
pub enum Reference {
    Marker,
}

/// The bytes of an OS string, as a storable value.
#[derive(Clone, Copy, Debug)]
pub struct OsBytes<'a>(pub &'a [u8]);

/// The bytes of a path, as a storable value.
#[derive(Clone, Copy, Debug)]
pub struct PathBytes<'a>(pub &'a [u8]);

/// Tells [`Slice`], [`Value`] and [`Reference`] apart.
pub trait DataTypeTypeMarker {
    /// The storage kind that this marker stands for.
    spec fn kind() -> Kind;

    /// Returns the storage kind that this marker stands for.
    fn storage_kind() -> (kind: Kind)
        ensures
            kind == Self::kind(),
    ;
}

impl DataTypeTypeMarker for Slice {
    open spec fn kind() -> Kind {
        Kind::Slice
    }

    fn storage_kind() -> (kind: Kind) {
        Kind::Slice
    }
}

impl DataTypeTypeMarker for Value {
    open spec fn kind() -> Kind {
        Kind::Value
    }

    fn storage_kind() -> (kind: Kind) {
        Kind::Value
    }
}

impl DataTypeTypeMarker for Reference {
    open spec fn kind() -> Kind {
        Kind::Reference
    }

    fn storage_kind() -> (kind: Kind) {
        Kind::Reference
    }
}

/// A storable type: the descriptor by which a type takes part in interning.
///
/// A type of this crate's own is a scalar type (every [`ScalarType`] with an
/// identity), a slice or a vector of scalars, a string, or the bytes of an OS
/// string or of a path. Another type takes part by implementing this trait,
/// [`Staticize`] and [`Hashable`]; its identity lies in the half that its
/// storage kind has.
pub trait DataType: Staticize + Hashable + Sized {
    /// The storage kind of this type.
    type Type: DataTypeTypeMarker;

    /// The item type, for a slice type; `()` for the others.
    type SliceValueType: ScalarType;

    /// What a handle exposes when it is read.
    type DerefTargetType: View;

    /// What a record of this value holds.
    spec fn payload(&self) -> PayloadView;

    /// Whether `payload` can be read back as this type.
    spec fn readable(payload: PayloadView) -> bool;

    /// What reading `payload` back as this type gives.
    spec fn read_back(payload: PayloadView) -> <Self::DerefTargetType as View>::V;

    /// What reading a record of this value gives.
    spec fn target(&self) -> <Self::DerefTargetType as View>::V;

    /// The identity of a slice type is not below [`FIRST_SLICE_ID`], and the
    /// identity of a type of another storage kind is below it.
    proof fn lemma_identity()
        ensures
            Self::Type::kind() == Kind::Slice <==> Self::static_id() >= FIRST_SLICE_ID,
    ;

    /// The payload of a value has the storage kind that the type declares.
    /// It can be read back as the type, and then gives the value's content.
    proof fn lemma_read_back(&self)
        ensures
            self.payload().kind() == Self::Type::kind(),
            Self::readable(self.payload()),
            Self::read_back(self.payload()) == self.target(),
    ;

    /// This value as a slice: the items that its record holds. A type of
    /// another storage kind has no such view and gives `None`.
    fn as_slice(&self) -> (items: Option<&[Self::SliceValueType]>)
        ensures
            items is Some <==> Self::Type::kind() == Kind::Slice,
            items matches Some(items) ==> self.payload() == PayloadView::Slice(
                scalars_of(items@),
            ),
    ;

    /// This value as a scalar: the scalar that its record holds. A type of
    /// another storage kind has no such view and gives `None`.
    fn as_value(&self) -> (scalar: Option<Scalar>)
        ensures
            scalar is Some <==> Self::Type::kind() == Kind::Value,
            scalar matches Some(scalar) ==> self.payload() == PayloadView::Value(scalar),
    ;

    /// Copies this value into a new record of `heap`, under `hash` if one is
    /// given and under the content hash of the value if none is.
    fn to_static_with_hash(&self, heap: &mut Heap, hash: Option<u64>) -> (record: Static)
        ensures
            final(heap)@ == old(heap)@.push(
                RecordView { payload: self.payload(), hash: hash_or(hash, self) },
            ),
            record.as_ptr() == old(heap)@.len(),
            record.valid(final(heap)@),
    ;

    /// Copies this value into a new record of `heap`, under its content hash.
    fn to_static(&self, heap: &mut Heap) -> (record: Static)
        ensures
            final(heap)@ == old(heap)@.push(
                RecordView { payload: self.payload(), hash: hash_or(None, self) },
            ),
            record.as_ptr() == old(heap)@.len(),
            record.valid(final(heap)@),
    {
        self.to_static_with_hash(heap, None)
    }

    /// Tells whether `payload` can be read back as this type.
    fn accepts(payload: &Payload) -> (accepted: bool)
        ensures
            accepted == Self::readable(payload@),
    ;

    /// Reads `payload` back as this type.
    fn read(payload: &Payload) -> (target: Self::DerefTargetType)
        requires
            Self::readable(payload@),
        ensures
            target@ == Self::read_back(payload@),
    ;
}

/// Every scalar type with an identity is a storable type, stored as a single
/// scalar.
impl<T: ScalarType + View> DataType for T {
    type Type = Value;

    type SliceValueType = ();

    type DerefTargetType = T;

    open spec fn payload(&self) -> PayloadView {
        PayloadView::Value(self.scalar())
    }

    open spec fn readable(payload: PayloadView) -> bool {
        payload matches PayloadView::Value(scalar) && T::holds(scalar)
    }

    open spec fn read_back(payload: PayloadView) -> <T as View>::V {
        T::from_scalar(payload->Value_0)@
    }

    open spec fn target(&self) -> <T as View>::V {
        self@
    }

    proof fn lemma_identity() {
        T::lemma_scalar_id();
    }

    proof fn lemma_read_back(&self) {
        self.lemma_scalar_read_back();
    }

    fn as_slice(&self) -> (items: Option<&[()]>) {
        None
    }

    fn as_value(&self) -> (scalar: Option<Scalar>) {
        Some(self.to_scalar())
    }

    fn to_static_with_hash(&self, heap: &mut Heap, hash: Option<u64>) -> (record: Static) {
        Static::Value(StaticValue::copy_of(heap, self, hash))
    }

    fn accepts(payload: &Payload) -> (accepted: bool) {
        match payload {
            Payload::Value(scalar) => T::fits(scalar),
            _ => false,
        }
    }

    fn read(payload: &Payload) -> (target: T) {
        match payload {
            Payload::Value(scalar) => T::of_scalar(*scalar),
            _ => vstd::pervasive::unreached(),
        }
    }
}

/// Tells whether `payload` is a slice payload whose scalars were all made
/// from a `T`.
fn accepts_items<T: ScalarType>(payload: &Payload) -> (accepted: bool)
    ensures
        accepted == (payload@ is Slice && all_hold::<T>(payload@->Slice_0)),
{
    match payload {
        Payload::Slice(scalars) => scalars_fit::<T>(scalars),
        _ => false,
    }
}

/// Reads the scalars of a slice payload back as a vector of `T`.
fn read_items<T: ScalarType>(payload: &Payload) -> (items: Vec<T>)
    requires
        payload@ is Slice,
        all_hold::<T>(payload@->Slice_0),
    ensures
        items@ == values_of::<T>(payload@->Slice_0),
{
    match payload {
        Payload::Slice(scalars) => read_scalars::<T>(scalars),
        _ => vstd::pervasive::unreached(),
    }
}

impl<'a, T: ScalarType + 'static> DataType for &'a [T] {
    type Type = Slice;

    type SliceValueType = T;

    type DerefTargetType = Vec<T>;

    open spec fn payload(&self) -> PayloadView {
        PayloadView::Slice(scalars_of(self@))
    }

    open spec fn readable(payload: PayloadView) -> bool {
        payload matches PayloadView::Slice(scalars) && all_hold::<T>(scalars)
    }

    open spec fn read_back(payload: PayloadView) -> Seq<T> {
        values_of::<T>(payload->Slice_0)
    }

    open spec fn target(&self) -> Seq<T> {
        self@
    }

    proof fn lemma_identity() {
        T::lemma_scalar_id();
    }

    proof fn lemma_read_back(&self) {
        lemma_scalars_read_back(self@);
    }

    fn as_slice(&self) -> (items: Option<&[T]>) {
        Some(*self)
    }

    fn as_value(&self) -> (scalar: Option<Scalar>) {
        None
    }

    fn to_static_with_hash(&self, heap: &mut Heap, hash: Option<u64>) -> (record: Static) {
        Static::from(heap, *self, hash)
    }

    fn accepts(payload: &Payload) -> (accepted: bool) {
        accepts_items::<T>(payload)
    }

    fn read(payload: &Payload) -> (target: Vec<T>) {
        read_items::<T>(payload)
    }
}

impl<T: ScalarType + 'static> DataType for Vec<T> {
    type Type = Slice;

    type SliceValueType = T;

    type DerefTargetType = Vec<T>;

    open spec fn payload(&self) -> PayloadView {
        PayloadView::Slice(scalars_of(self@))
    }

    open spec fn readable(payload: PayloadView) -> bool {
        payload matches PayloadView::Slice(scalars) && all_hold::<T>(scalars)
    }

    open spec fn read_back(payload: PayloadView) -> Seq<T> {
        values_of::<T>(payload->Slice_0)
    }

    open spec fn target(&self) -> Seq<T> {
        self@
    }

    proof fn lemma_identity() {
        T::lemma_scalar_id();
    }

    proof fn lemma_read_back(&self) {
        lemma_scalars_read_back(self@);
    }

    fn as_slice(&self) -> (items: Option<&[T]>) {
        Some(self.as_slice())
    }

    fn as_value(&self) -> (scalar: Option<Scalar>) {
        None
    }

    fn to_static_with_hash(&self, heap: &mut Heap, hash: Option<u64>) -> (record: Static) {
        Static::from(heap, self.as_slice(), hash)
    }

    fn accepts(payload: &Payload) -> (accepted: bool) {
        accepts_items::<T>(payload)
    }

    fn read(payload: &Payload) -> (target: Vec<T>) {
        read_items::<T>(payload)
    }
}

impl<'a> DataType for &'a str {
    type Type = Reference;

    type SliceValueType = ();

    type DerefTargetType = String;

    open spec fn payload(&self) -> PayloadView {
        PayloadView::Str(self@)
    }

    open spec fn readable(payload: PayloadView) -> bool {
        payload is Str
    }

    open spec fn read_back(payload: PayloadView) -> Seq<char> {
        payload->Str_0
    }

    open spec fn target(&self) -> Seq<char> {
        self@
    }

    proof fn lemma_identity() {
    }

    proof fn lemma_read_back(&self) {
    }

    fn as_slice(&self) -> (items: Option<&[()]>) {
        None
    }

    fn as_value(&self) -> (scalar: Option<Scalar>) {
        None
    }

    fn to_static_with_hash(&self, heap: &mut Heap, hash: Option<u64>) -> (record: Static) {
        Static::from_str(heap, *self, hash)
    }

    fn accepts(payload: &Payload) -> (accepted: bool) {
        match payload {
            Payload::Str(_) => true,
            _ => false,
        }
    }

    fn read(payload: &Payload) -> (target: String) {
        match payload {
            Payload::Str(text) => text.clone(),
            _ => vstd::pervasive::unreached(),
        }
    }
}

impl DataType for String {
    type Type = Reference;

    type SliceValueType = ();

    type DerefTargetType = String;

    open spec fn payload(&self) -> PayloadView {
        PayloadView::Str(self@)
    }

    open spec fn readable(payload: PayloadView) -> bool {
        payload is Str
    }

    open spec fn read_back(payload: PayloadView) -> Seq<char> {
        payload->Str_0
    }

    open spec fn target(&self) -> Seq<char> {
        self@
    }

    proof fn lemma_identity() {
    }

    proof fn lemma_read_back(&self) {
    }

    fn as_slice(&self) -> (items: Option<&[()]>) {
        None
    }

    fn as_value(&self) -> (scalar: Option<Scalar>) {
        None
    }

    fn to_static_with_hash(&self, heap: &mut Heap, hash: Option<u64>) -> (record: Static) {
        Static::from_str(heap, self.as_str(), hash)
    }

    fn accepts(payload: &Payload) -> (accepted: bool) {
        match payload {
            Payload::Str(_) => true,
            _ => false,
        }
    }

    fn read(payload: &Payload) -> (target: String) {
        match payload {
            Payload::Str(text) => text.clone(),
            _ => vstd::pervasive::unreached(),
        }
    }
}

impl<'a> DataType for OsBytes<'a> {
    type Type = Reference;

    type SliceValueType = ();

    type DerefTargetType = Vec<u8>;

    open spec fn payload(&self) -> PayloadView {
        PayloadView::OsStr(self.0@)
    }

    open spec fn readable(payload: PayloadView) -> bool {
        payload is OsStr
    }

    open spec fn read_back(payload: PayloadView) -> Seq<u8> {
        payload->OsStr_0
    }

    open spec fn target(&self) -> Seq<u8> {
        self.0@
    }

    proof fn lemma_identity() {
    }

    proof fn lemma_read_back(&self) {
    }

    fn as_slice(&self) -> (items: Option<&[()]>) {
        None
    }

    fn as_value(&self) -> (scalar: Option<Scalar>) {
        None
    }

    fn to_static_with_hash(&self, heap: &mut Heap, hash: Option<u64>) -> (record: Static) {
        Static::from_os_str(heap, self.0, hash)
    }

    fn accepts(payload: &Payload) -> (accepted: bool) {
        match payload {
            Payload::OsStr(_) => true,
            _ => false,
        }
    }

    fn read(payload: &Payload) -> (target: Vec<u8>) {
        match payload {
            Payload::OsStr(bytes) => bytes.clone(),
            _ => vstd::pervasive::unreached(),
        }
    }
}

impl<'a> DataType for PathBytes<'a> {
    type Type = Reference;

    type SliceValueType = ();

    type DerefTargetType = Vec<u8>;

    open spec fn payload(&self) -> PayloadView {
        PayloadView::Path(self.0@)
    }

    open spec fn readable(payload: PayloadView) -> bool {
        payload is Path
    }

    open spec fn read_back(payload: PayloadView) -> Seq<u8> {
        payload->Path_0
    }

    open spec fn target(&self) -> Seq<u8> {
        self.0@
    }

    proof fn lemma_identity() {
    }

    proof fn lemma_read_back(&self) {
    }

    fn as_slice(&self) -> (items: Option<&[()]>) {
        None
    }

    fn as_value(&self) -> (scalar: Option<Scalar>) {
        None
    }

    fn to_static_with_hash(&self, heap: &mut Heap, hash: Option<u64>) -> (record: Static) {
        Static::from_path(heap, self.0, hash)
    }

    fn accepts(payload: &Payload) -> (accepted: bool) {
        match payload {
            Payload::Path(_) => true,
            _ => false,
        }
    }

    fn read(payload: &Payload) -> (target: Vec<u8>) {
        match payload {
            Payload::Path(bytes) => bytes.clone(),
            _ => vstd::pervasive::unreached(),
        }
    }
}

} // verus!
