//! The scalar instances that a record can hold.

use crate::hashing::Hashable;
use crate::staticize::{Staticize, FIRST_SLICE_ID};
use vstd::prelude::*;

verus! {

/// A single scalar instance. A value record holds one of these, and a slice
/// record holds a sequence of them. The variant tells at run time which type
/// the scalar was made from.
#[derive(Clone, Copy, Debug, PartialEq, Eq, Structural)]
pub enum Scalar {
    Unit,
    Char(char),
    Bool(bool),
    Usize(usize),
    U8(u8),
    U16(u16),
    U32(u32),
    U64(u64),
    U128(u128),
    I8(i8),
    I16(i16),
    I32(i32),
    I64(i64),
    I128(i128),
}

/// A type whose values are single scalars.
///
/// The integers, `bool`, `char` and `()` are scalar types, each with a variant
/// of [`Scalar`] of its own. Another type is one by saying which scalar
/// stands for each of its values, and by taking an identity below
/// [`FIRST_SLICE_ID`]: the slices over a scalar type are a type of their own,
/// whose identity is made from that of the items.
pub trait ScalarType: Hashable + Staticize + Sized {
    /// The scalar that this value is stored as.
    spec fn scalar(&self) -> Scalar;

    /// Whether `scalar` was made from a value of this type.
    spec fn holds(scalar: Scalar) -> bool;

    /// The value that `scalar` was made from.
    spec fn from_scalar(scalar: Scalar) -> Self;

    /// The identity of a scalar type is below the identities of the slice
    /// types.
    proof fn lemma_scalar_id()
        ensures
            Self::static_id() < FIRST_SLICE_ID,
    ;

    /// The scalar of a value was made from a value of this type, and reading
    /// it back gives the value again.
    proof fn lemma_scalar_read_back(&self)
        ensures
            Self::holds(self.scalar()),
            Self::from_scalar(self.scalar()) == *self,
    ;

    /// Returns the scalar that this value is stored as.
    fn to_scalar(&self) -> (scalar: Scalar)
        ensures
            scalar == self.scalar(),
    ;

    /// Tells whether `scalar` was made from a value of this type.
    fn fits(scalar: &Scalar) -> (fits: bool)
        ensures
            fits == Self::holds(*scalar),
    ;

    /// Returns the value that `scalar` was made from.
    fn of_scalar(scalar: Scalar) -> (value: Self)
        requires
            Self::holds(scalar),
        ensures
            value == Self::from_scalar(scalar),
    ;
}

/// The scalars that the items of a slice are stored as.
pub open spec fn scalars_of<T: ScalarType>(items: Seq<T>) -> Seq<Scalar> {
    Seq::new(items.len(), |i: int| items[i].scalar())
}

/// Whether every scalar of `scalars` was made from a `T`.
pub open spec fn all_hold<T: ScalarType>(scalars: Seq<Scalar>) -> bool {
    forall|i: int| 0 <= i < scalars.len() ==> T::holds(#[trigger] scalars[i])
}

/// The values that `scalars` were made from.
pub open spec fn values_of<T: ScalarType>(scalars: Seq<Scalar>) -> Seq<T> {
    Seq::new(scalars.len(), |i: int| T::from_scalar(scalars[i]))
}

/// The scalars of a slice were all made from its item type, and reading them
/// back gives the slice again.
pub proof fn lemma_scalars_read_back<T: ScalarType>(items: Seq<T>)
    ensures
        all_hold::<T>(scalars_of(items)),
        values_of::<T>(scalars_of(items)) == items,
{
    assert forall|i: int| 0 <= i < items.len() implies T::holds(#[trigger] items[i].scalar())
        && T::from_scalar(items[i].scalar()) == items[i] by {
        items[i].lemma_scalar_read_back();
    }
    assert(values_of::<T>(scalars_of(items)) =~= items);
}

/// Returns the scalars that the items of `slice` are stored as.
pub fn write_scalars<T: ScalarType>(slice: &[T]) -> (scalars: Vec<Scalar>)
    ensures
        scalars@ == scalars_of(slice@),
{
    let len = slice.len();
    let mut scalars: Vec<Scalar> = Vec::new();
    let mut i: usize = 0;
    while i < len
        invariant
            len == slice@.len(),
            i <= len,
            scalars@ == scalars_of(slice@.take(i as int)),
        decreases len - i,
    {
        scalars.push(slice[i].to_scalar());
        assert(scalars@ =~= scalars_of(slice@.take(i + 1)));
        i += 1;
    }
    assert(slice@.take(len as int) =~= slice@);
    scalars
}

/// Tells whether every scalar of `scalars` was made from a `T`.
pub fn scalars_fit<T: ScalarType>(scalars: &Vec<Scalar>) -> (fit: bool)
    ensures
        fit == all_hold::<T>(scalars@),
{
    let mut i: usize = 0;
    while i < scalars.len()
        invariant
            i <= scalars@.len(),
            all_hold::<T>(scalars@.take(i as int)),
        decreases scalars@.len() - i,
    {
        if !T::fits(&scalars[i]) {
            assert(!T::holds(scalars@[i as int]));
            return false;
        }
        assert forall|j: int| 0 <= j < i + 1 implies T::holds(
            #[trigger] scalars@.take(i + 1)[j],
        ) by {
            if j < i {
                assert(scalars@.take(i as int)[j] == scalars@[j]);
            }
        }
        i += 1;
    }
    assert(scalars@.take(i as int) =~= scalars@);
    true
}

/// Reads a sequence of scalars back as a vector of `T`.
pub fn read_scalars<T: ScalarType>(scalars: &Vec<Scalar>) -> (items: Vec<T>)
    requires
        all_hold::<T>(scalars@),
    ensures
        items@ == values_of::<T>(scalars@),
{
    let mut items: Vec<T> = Vec::new();
    let mut i: usize = 0;
    while i < scalars.len()
        invariant
            i <= scalars@.len(),
            all_hold::<T>(scalars@),
            items@ == values_of::<T>(scalars@.take(i as int)),
        decreases scalars@.len() - i,
    {
        items.push(T::of_scalar(scalars[i]));
        assert(items@ =~= values_of::<T>(scalars@.take(i + 1)));
        i += 1;
    }
    assert(scalars@.take(i as int) =~= scalars@);
    items
}

impl ScalarType for () {
    open spec fn scalar(&self) -> Scalar {
        Scalar::Unit
    }

    open spec fn holds(scalar: Scalar) -> bool {
        scalar is Unit
    }

    open spec fn from_scalar(scalar: Scalar) -> () {
        ()
    }

    proof fn lemma_scalar_id() {
    }

    proof fn lemma_scalar_read_back(&self) {
    }

    fn to_scalar(&self) -> (scalar: Scalar) {
        Scalar::Unit
    }

    fn fits(scalar: &Scalar) -> (fits: bool) {
        match scalar {
            Scalar::Unit => true,
            _ => false,
        }
    }

    fn of_scalar(scalar: Scalar) -> (value: ()) {
        ()
    }
}

impl ScalarType for char {
    open spec fn scalar(&self) -> Scalar {
        Scalar::Char(*self)
    }

    open spec fn holds(scalar: Scalar) -> bool {
        scalar is Char
    }

    open spec fn from_scalar(scalar: Scalar) -> char {
        scalar->Char_0
    }

    proof fn lemma_scalar_id() {
    }

    proof fn lemma_scalar_read_back(&self) {
    }

    fn to_scalar(&self) -> (scalar: Scalar) {
        Scalar::Char(*self)
    }

    fn fits(scalar: &Scalar) -> (fits: bool) {
        match scalar {
            Scalar::Char(_) => true,
            _ => false,
        }
    }

    fn of_scalar(scalar: Scalar) -> (value: char) {
        match scalar {
            Scalar::Char(x) => x,
            _ => vstd::pervasive::unreached(),
        }
    }
}

impl ScalarType for bool {
    open spec fn scalar(&self) -> Scalar {
        Scalar::Bool(*self)
    }

    open spec fn holds(scalar: Scalar) -> bool {
        scalar is Bool
    }

    open spec fn from_scalar(scalar: Scalar) -> bool {
        scalar->Bool_0
    }

    proof fn lemma_scalar_id() {
    }

    proof fn lemma_scalar_read_back(&self) {
    }

    fn to_scalar(&self) -> (scalar: Scalar) {
        Scalar::Bool(*self)
    }

    fn fits(scalar: &Scalar) -> (fits: bool) {
        match scalar {
            Scalar::Bool(_) => true,
            _ => false,
        }
    }

    fn of_scalar(scalar: Scalar) -> (value: bool) {
        match scalar {
            Scalar::Bool(x) => x,
            _ => vstd::pervasive::unreached(),
        }
    }
}

impl ScalarType for usize {
    open spec fn scalar(&self) -> Scalar {
        Scalar::Usize(*self)
    }

    open spec fn holds(scalar: Scalar) -> bool {
        scalar is Usize
    }

    open spec fn from_scalar(scalar: Scalar) -> usize {
        scalar->Usize_0
    }

    proof fn lemma_scalar_id() {
    }

    proof fn lemma_scalar_read_back(&self) {
    }

    fn to_scalar(&self) -> (scalar: Scalar) {
        Scalar::Usize(*self)
    }

    fn fits(scalar: &Scalar) -> (fits: bool) {
        match scalar {
            Scalar::Usize(_) => true,
            _ => false,
        }
    }

    fn of_scalar(scalar: Scalar) -> (value: usize) {
        match scalar {
            Scalar::Usize(x) => x,
            _ => vstd::pervasive::unreached(),
        }
    }
}

impl ScalarType for u8 {
    open spec fn scalar(&self) -> Scalar {
        Scalar::U8(*self)
    }

    open spec fn holds(scalar: Scalar) -> bool {
        scalar is U8
    }

    open spec fn from_scalar(scalar: Scalar) -> u8 {
        scalar->U8_0
    }

    proof fn lemma_scalar_id() {
    }

    proof fn lemma_scalar_read_back(&self) {
    }

    fn to_scalar(&self) -> (scalar: Scalar) {
        Scalar::U8(*self)
    }

    fn fits(scalar: &Scalar) -> (fits: bool) {
        match scalar {
            Scalar::U8(_) => true,
            _ => false,
        }
    }

    fn of_scalar(scalar: Scalar) -> (value: u8) {
        match scalar {
            Scalar::U8(x) => x,
            _ => vstd::pervasive::unreached(),
        }
    }
}

impl ScalarType for u16 {
    open spec fn scalar(&self) -> Scalar {
        Scalar::U16(*self)
    }

    open spec fn holds(scalar: Scalar) -> bool {
        scalar is U16
    }

    open spec fn from_scalar(scalar: Scalar) -> u16 {
        scalar->U16_0
    }

    proof fn lemma_scalar_id() {
    }

    proof fn lemma_scalar_read_back(&self) {
    }

    fn to_scalar(&self) -> (scalar: Scalar) {
        Scalar::U16(*self)
    }

    fn fits(scalar: &Scalar) -> (fits: bool) {
        match scalar {
            Scalar::U16(_) => true,
            _ => false,
        }
    }

    fn of_scalar(scalar: Scalar) -> (value: u16) {
        match scalar {
            Scalar::U16(x) => x,
            _ => vstd::pervasive::unreached(),
        }
    }
}

impl ScalarType for u32 {
    open spec fn scalar(&self) -> Scalar {
        Scalar::U32(*self)
    }

    open spec fn holds(scalar: Scalar) -> bool {
        scalar is U32
    }

    open spec fn from_scalar(scalar: Scalar) -> u32 {
        scalar->U32_0
    }

    proof fn lemma_scalar_id() {
    }

    proof fn lemma_scalar_read_back(&self) {
    }

    fn to_scalar(&self) -> (scalar: Scalar) {
        Scalar::U32(*self)
    }

    fn fits(scalar: &Scalar) -> (fits: bool) {
        match scalar {
            Scalar::U32(_) => true,
            _ => false,
        }
    }

    fn of_scalar(scalar: Scalar) -> (value: u32) {
        match scalar {
            Scalar::U32(x) => x,
            _ => vstd::pervasive::unreached(),
        }
    }
}

impl ScalarType for u64 {
    open spec fn scalar(&self) -> Scalar {
        Scalar::U64(*self)
    }

    open spec fn holds(scalar: Scalar) -> bool {
        scalar is U64
    }

    open spec fn from_scalar(scalar: Scalar) -> u64 {
        scalar->U64_0
    }

    proof fn lemma_scalar_id() {
    }

    proof fn lemma_scalar_read_back(&self) {
    }

    fn to_scalar(&self) -> (scalar: Scalar) {
        Scalar::U64(*self)
    }

    fn fits(scalar: &Scalar) -> (fits: bool) {
        match scalar {
            Scalar::U64(_) => true,
            _ => false,
        }
    }

    fn of_scalar(scalar: Scalar) -> (value: u64) {
        match scalar {
            Scalar::U64(x) => x,
            _ => vstd::pervasive::unreached(),
        }
    }
}

impl ScalarType for u128 {
    open spec fn scalar(&self) -> Scalar {
        Scalar::U128(*self)
    }

    open spec fn holds(scalar: Scalar) -> bool {
        scalar is U128
    }

    open spec fn from_scalar(scalar: Scalar) -> u128 {
        scalar->U128_0
    }

    proof fn lemma_scalar_id() {
    }

    proof fn lemma_scalar_read_back(&self) {
    }

    fn to_scalar(&self) -> (scalar: Scalar) {
        Scalar::U128(*self)
    }

    fn fits(scalar: &Scalar) -> (fits: bool) {
        match scalar {
            Scalar::U128(_) => true,
            _ => false,
        }
    }

    fn of_scalar(scalar: Scalar) -> (value: u128) {
        match scalar {
            Scalar::U128(x) => x,
            _ => vstd::pervasive::unreached(),
        }
    }
}

impl ScalarType for i8 {
    open spec fn scalar(&self) -> Scalar {
        Scalar::I8(*self)
    }

    open spec fn holds(scalar: Scalar) -> bool {
        scalar is I8
    }

    open spec fn from_scalar(scalar: Scalar) -> i8 {
        scalar->I8_0
    }

    proof fn lemma_scalar_id() {
    }

    proof fn lemma_scalar_read_back(&self) {
    }

    fn to_scalar(&self) -> (scalar: Scalar) {
        Scalar::I8(*self)
    }

    fn fits(scalar: &Scalar) -> (fits: bool) {
        match scalar {
            Scalar::I8(_) => true,
            _ => false,
        }
    }

    fn of_scalar(scalar: Scalar) -> (value: i8) {
        match scalar {
            Scalar::I8(x) => x,
            _ => vstd::pervasive::unreached(),
        }
    }
}

impl ScalarType for i16 {
    open spec fn scalar(&self) -> Scalar {
        Scalar::I16(*self)
    }

    open spec fn holds(scalar: Scalar) -> bool {
        scalar is I16
    }

    open spec fn from_scalar(scalar: Scalar) -> i16 {
        scalar->I16_0
    }

    proof fn lemma_scalar_id() {
    }

    proof fn lemma_scalar_read_back(&self) {
    }

    fn to_scalar(&self) -> (scalar: Scalar) {
        Scalar::I16(*self)
    }

    fn fits(scalar: &Scalar) -> (fits: bool) {
        match scalar {
            Scalar::I16(_) => true,
            _ => false,
        }
    }

    fn of_scalar(scalar: Scalar) -> (value: i16) {
        match scalar {
            Scalar::I16(x) => x,
            _ => vstd::pervasive::unreached(),
        }
    }
}

impl ScalarType for i32 {
    open spec fn scalar(&self) -> Scalar {
        Scalar::I32(*self)
    }

    open spec fn holds(scalar: Scalar) -> bool {
        scalar is I32
    }

    open spec fn from_scalar(scalar: Scalar) -> i32 {
        scalar->I32_0
    }

    proof fn lemma_scalar_id() {
    }

    proof fn lemma_scalar_read_back(&self) {
    }

    fn to_scalar(&self) -> (scalar: Scalar) {
        Scalar::I32(*self)
    }

    fn fits(scalar: &Scalar) -> (fits: bool) {
        match scalar {
            Scalar::I32(_) => true,
            _ => false,
        }
    }

    fn of_scalar(scalar: Scalar) -> (value: i32) {
        match scalar {
            Scalar::I32(x) => x,
            _ => vstd::pervasive::unreached(),
        }
    }
}

impl ScalarType for i64 {
    open spec fn scalar(&self) -> Scalar {
        Scalar::I64(*self)
    }

    open spec fn holds(scalar: Scalar) -> bool {
        scalar is I64
    }

    open spec fn from_scalar(scalar: Scalar) -> i64 {
        scalar->I64_0
    }

    proof fn lemma_scalar_id() {
    }

    proof fn lemma_scalar_read_back(&self) {
    }

    fn to_scalar(&self) -> (scalar: Scalar) {
        Scalar::I64(*self)
    }

    fn fits(scalar: &Scalar) -> (fits: bool) {
        match scalar {
            Scalar::I64(_) => true,
            _ => false,
        }
    }

    fn of_scalar(scalar: Scalar) -> (value: i64) {
        match scalar {
            Scalar::I64(x) => x,
            _ => vstd::pervasive::unreached(),
        }
    }
}

impl ScalarType for i128 {
    open spec fn scalar(&self) -> Scalar {
        Scalar::I128(*self)
    }

    open spec fn holds(scalar: Scalar) -> bool {
        scalar is I128
    }

    open spec fn from_scalar(scalar: Scalar) -> i128 {
        scalar->I128_0
    }

    proof fn lemma_scalar_id() {
    }

    proof fn lemma_scalar_read_back(&self) {
    }

    fn to_scalar(&self) -> (scalar: Scalar) {
        Scalar::I128(*self)
    }

    fn fits(scalar: &Scalar) -> (fits: bool) {
        match scalar {
            Scalar::I128(_) => true,
            _ => false,
        }
    }

    fn of_scalar(scalar: Scalar) -> (value: i128) {
        match scalar {
            Scalar::I128(x) => x,
            _ => vstd::pervasive::unreached(),
        }
    }
}

} // verus!
