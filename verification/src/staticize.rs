//! Type identity.
//!
//! The store is partitioned by type: every storable type has an identity, a
//! number that no other storable type uses, and a name for diagnostics. A
//! borrowed type, whatever it borrows for how long, and its owned form (`&str`
//! and `String`, `&[T]` and `Vec<T>`) are one type to the store: they have one
//! static form, and share identity and name.
//!
//! The identities are laid out in two halves. A scalar type or a text type has
//! an identity below [`FIRST_SLICE_ID`]. The slices over a scalar type with
//! identity `item` have the identity [`slice_id`]`(item)`, which is not below
//! it. Only slices of scalars have an identity: there are no slices of slices.

use crate::datatype::{OsBytes, PathBytes};
use crate::scalar::ScalarType;
use vstd::prelude::*;
use vstd::string::StringExecFns;

verus! {

/// The least identity of a slice type. The identities below it are those of
/// the scalar types and of the text types.
pub const FIRST_SLICE_ID: u64 = 0x8000_0000_0000_0000;

/// A type with a stable identity.
///
/// An implementation picks an identity that no other implementation uses:
/// two types with one identity share their records. The scalar and text types
/// of this crate take the identities `0` to `16`, in the order of
/// [`own_ids`]. An implementation for another scalar or text type picks an
/// identity above `16` and below [`FIRST_SLICE_ID`]; the identities from
/// there on belong to the slice types.
pub trait Staticize {
    /// The form of this type that borrows nothing: the type itself for a
    /// scalar type, and the `'static` borrowed form for a slice or a text.
    /// Handles are handles to this form.
    type Static;

    /// The identity of this type.
    spec fn static_id() -> u64;

    /// The name of this type.
    spec fn static_name() -> Seq<char>;

    /// Returns the identity of this type.
    fn static_type_id() -> (id: u64)
        ensures
            id == Self::static_id(),
    ;

    /// Returns the name of this type.
    fn static_type_name() -> (name: String)
        ensures
            name@ == Self::static_name(),
    ;
}

/// Returns the identity of `T`.
pub fn static_type_id<T: Staticize>() -> (id: u64)
    ensures
        id == T::static_id(),
{
    T::static_type_id()
}

/// Returns the name of `T`.
pub fn static_type_name<T: Staticize>() -> (name: String)
    ensures
        name@ == T::static_name(),
{
    T::static_type_name()
}

/// The identity of the slices over a type with identity `item`: the
/// identities of the slice types count down from the largest `u64`.
pub open spec fn slice_id(item: u64) -> u64 {
    (u64::MAX - item) as u64
}

/// The identities of the scalar types and of the text types of this crate:
/// `()`, `char`, `bool`, `usize`, the unsigned and the signed integers by
/// width, strings, OS strings and paths.
pub open spec fn own_ids() -> Seq<u64> {
    seq![
        <() as Staticize>::static_id(),
        <char as Staticize>::static_id(),
        <bool as Staticize>::static_id(),
        <usize as Staticize>::static_id(),
        <u8 as Staticize>::static_id(),
        <u16 as Staticize>::static_id(),
        <u32 as Staticize>::static_id(),
        <u64 as Staticize>::static_id(),
        <u128 as Staticize>::static_id(),
        <i8 as Staticize>::static_id(),
        <i16 as Staticize>::static_id(),
        <i32 as Staticize>::static_id(),
        <i64 as Staticize>::static_id(),
        <i128 as Staticize>::static_id(),
        <&'static str as Staticize>::static_id(),
        <OsBytes<'static> as Staticize>::static_id(),
        <PathBytes<'static> as Staticize>::static_id(),
    ]
}

/// The identities of slice types never meet the others: slices over items
/// with different identities have different identities, and the slices over
/// an item with an identity below [`FIRST_SLICE_ID`] have one that is not
/// below it.
pub proof fn lemma_slice_id_apart(item: u64, other: u64)
    ensures
        slice_id(item) == slice_id(other) ==> item == other,
        item < FIRST_SLICE_ID ==> slice_id(item) >= FIRST_SLICE_ID,
        item < FIRST_SLICE_ID && other < FIRST_SLICE_ID ==> slice_id(item) != other,
{
}

/// The scalar types and the text types of this crate have identities of their
/// own: no two of them share one, and each is below [`FIRST_SLICE_ID`]. An
/// owned form has the identity of its borrowed form.
pub proof fn lemma_own_ids_differ()
    ensures
        own_ids().len() == 17,
        own_ids().no_duplicates(),
        forall|i: int| 0 <= i < own_ids().len() ==> #[trigger] own_ids()[i] < FIRST_SLICE_ID,
        <String as Staticize>::static_id() == <&'static str as Staticize>::static_id(),
{
    let ids = own_ids();
    assert forall|i: int| 0 <= i < ids.len() implies #[trigger] ids[i] == i by {
        assert(ids[0] == 0 && ids[1] == 1 && ids[2] == 2 && ids[3] == 3 && ids[4] == 4);
        assert(ids[5] == 5 && ids[6] == 6 && ids[7] == 7 && ids[8] == 8 && ids[9] == 9);
        assert(ids[10] == 10 && ids[11] == 11 && ids[12] == 12 && ids[13] == 13);
        assert(ids[14] == 14 && ids[15] == 15 && ids[16] == 16);
    }
}

/// The slices over a scalar type have an identity of their own. It is that of
/// no scalar type and of no text type of this crate, and the slices over
/// another scalar type have it only if the two scalar types share their
/// identity. A vector has the identity of the slices over its items.
pub proof fn lemma_slice_ids_differ<T: ScalarType + 'static, U: ScalarType + 'static>()
    ensures
        <&'static [T] as Staticize>::static_id() >= FIRST_SLICE_ID,
        <&'static [T] as Staticize>::static_id() != U::static_id(),
        forall|i: int|
            0 <= i < own_ids().len() ==> <&'static [T] as Staticize>::static_id()
                != #[trigger] own_ids()[i],
        <&'static [T] as Staticize>::static_id() == <&'static [U] as Staticize>::static_id()
            ==> T::static_id() == U::static_id(),
        <Vec<T> as Staticize>::static_id() == <&'static [T] as Staticize>::static_id(),
{
    T::lemma_scalar_id();
    U::lemma_scalar_id();
    lemma_own_ids_differ();
}

/// The name of the slices over a type named `item`.
pub open spec fn slice_name(item: Seq<char>) -> Seq<char> {
    "&["@ + item + "]"@
}

impl Staticize for () {
    type Static = ();

    open spec fn static_id() -> u64 {
        0
    }

    open spec fn static_name() -> Seq<char> {
        "()"@
    }

    fn static_type_id() -> (id: u64) {
        0
    }

    fn static_type_name() -> (name: String) {
        "()".to_owned()
    }
}

impl Staticize for char {
    type Static = char;

    open spec fn static_id() -> u64 {
        1
    }

    open spec fn static_name() -> Seq<char> {
        "char"@
    }

    fn static_type_id() -> (id: u64) {
        1
    }

    fn static_type_name() -> (name: String) {
        "char".to_owned()
    }
}

impl Staticize for bool {
    type Static = bool;

    open spec fn static_id() -> u64 {
        2
    }

    open spec fn static_name() -> Seq<char> {
        "bool"@
    }

    fn static_type_id() -> (id: u64) {
        2
    }

    fn static_type_name() -> (name: String) {
        "bool".to_owned()
    }
}

impl Staticize for usize {
    type Static = usize;

    open spec fn static_id() -> u64 {
        3
    }

    open spec fn static_name() -> Seq<char> {
        "usize"@
    }

    fn static_type_id() -> (id: u64) {
        3
    }

    fn static_type_name() -> (name: String) {
        "usize".to_owned()
    }
}

impl Staticize for u8 {
    type Static = u8;

    open spec fn static_id() -> u64 {
        4
    }

    open spec fn static_name() -> Seq<char> {
        "u8"@
    }

    fn static_type_id() -> (id: u64) {
        4
    }

    fn static_type_name() -> (name: String) {
        "u8".to_owned()
    }
}

impl Staticize for u16 {
    type Static = u16;

    open spec fn static_id() -> u64 {
        5
    }

    open spec fn static_name() -> Seq<char> {
        "u16"@
    }

    fn static_type_id() -> (id: u64) {
        5
    }

    fn static_type_name() -> (name: String) {
        "u16".to_owned()
    }
}

impl Staticize for u32 {
    type Static = u32;

    open spec fn static_id() -> u64 {
        6
    }

    open spec fn static_name() -> Seq<char> {
        "u32"@
    }

    fn static_type_id() -> (id: u64) {
        6
    }

    fn static_type_name() -> (name: String) {
        "u32".to_owned()
    }
}

impl Staticize for u64 {
    type Static = u64;

    open spec fn static_id() -> u64 {
        7
    }

    open spec fn static_name() -> Seq<char> {
        "u64"@
    }

    fn static_type_id() -> (id: u64) {
        7
    }

    fn static_type_name() -> (name: String) {
        "u64".to_owned()
    }
}

impl Staticize for u128 {
    type Static = u128;

    open spec fn static_id() -> u64 {
        8
    }

    open spec fn static_name() -> Seq<char> {
        "u128"@
    }

    fn static_type_id() -> (id: u64) {
        8
    }

    fn static_type_name() -> (name: String) {
        "u128".to_owned()
    }
}

impl Staticize for i8 {
    type Static = i8;

    open spec fn static_id() -> u64 {
        9
    }

    open spec fn static_name() -> Seq<char> {
        "i8"@
    }

    fn static_type_id() -> (id: u64) {
        9
    }

    fn static_type_name() -> (name: String) {
        "i8".to_owned()
    }
}

impl Staticize for i16 {
    type Static = i16;

    open spec fn static_id() -> u64 {
        10
    }

    open spec fn static_name() -> Seq<char> {
        "i16"@
    }

    fn static_type_id() -> (id: u64) {
        10
    }

    fn static_type_name() -> (name: String) {
        "i16".to_owned()
    }
}

impl Staticize for i32 {
    type Static = i32;

    open spec fn static_id() -> u64 {
        11
    }

    open spec fn static_name() -> Seq<char> {
        "i32"@
    }

    fn static_type_id() -> (id: u64) {
        11
    }

    fn static_type_name() -> (name: String) {
        "i32".to_owned()
    }
}

impl Staticize for i64 {
    type Static = i64;

    open spec fn static_id() -> u64 {
        12
    }

    open spec fn static_name() -> Seq<char> {
        "i64"@
    }

    fn static_type_id() -> (id: u64) {
        12
    }

    fn static_type_name() -> (name: String) {
        "i64".to_owned()
    }
}

impl Staticize for i128 {
    type Static = i128;

    open spec fn static_id() -> u64 {
        13
    }

    open spec fn static_name() -> Seq<char> {
        "i128"@
    }

    fn static_type_id() -> (id: u64) {
        13
    }

    fn static_type_name() -> (name: String) {
        "i128".to_owned()
    }
}

impl<'a, T: ScalarType + 'static> Staticize for &'a [T] {
    type Static = &'static [T];

    open spec fn static_id() -> u64 {
        slice_id(T::static_id())
    }

    open spec fn static_name() -> Seq<char> {
        slice_name(T::static_name())
    }

    fn static_type_id() -> (id: u64) {
        u64::MAX - T::static_type_id()
    }

    fn static_type_name() -> (name: String) {
        let item = T::static_type_name();
        "&[".to_owned().concat(item.as_str()).concat("]")
    }
}

impl<T: ScalarType + 'static> Staticize for Vec<T> {
    type Static = &'static [T];

    open spec fn static_id() -> u64 {
        slice_id(T::static_id())
    }

    open spec fn static_name() -> Seq<char> {
        slice_name(T::static_name())
    }

    fn static_type_id() -> (id: u64) {
        u64::MAX - T::static_type_id()
    }

    fn static_type_name() -> (name: String) {
        let item = T::static_type_name();
        "&[".to_owned().concat(item.as_str()).concat("]")
    }
}

impl<'a> Staticize for &'a str {
    type Static = &'static str;

    open spec fn static_id() -> u64 {
        14
    }

    open spec fn static_name() -> Seq<char> {
        "&str"@
    }

    fn static_type_id() -> (id: u64) {
        14
    }

    fn static_type_name() -> (name: String) {
        "&str".to_owned()
    }
}

impl Staticize for String {
    type Static = &'static str;

    open spec fn static_id() -> u64 {
        14
    }

    open spec fn static_name() -> Seq<char> {
        "&str"@
    }

    fn static_type_id() -> (id: u64) {
        14
    }

    fn static_type_name() -> (name: String) {
        "&str".to_owned()
    }
}

impl<'a> Staticize for OsBytes<'a> {
    type Static = OsBytes<'static>;

    open spec fn static_id() -> u64 {
        15
    }

    open spec fn static_name() -> Seq<char> {
        "&OsStr"@
    }

    fn static_type_id() -> (id: u64) {
        15
    }

    fn static_type_name() -> (name: String) {
        "&OsStr".to_owned()
    }
}

impl<'a> Staticize for PathBytes<'a> {
    type Static = PathBytes<'static>;

    open spec fn static_id() -> u64 {
        16
    }

    open spec fn static_name() -> Seq<char> {
        "&Path"@
    }

    fn static_type_id() -> (id: u64) {
        16
    }

    fn static_type_name() -> (name: String) {
        "&Path".to_owned()
    }
}

} // verus!
