//! Content hashing.
//!
//! A value is hashed by writing byte blocks to a
//! [`DefaultHasher`](std::collections::hash_map::DefaultHasher) that starts
//! empty. Which blocks a value writes is fixed by [`Hashable::hash_writes`], so
//! the hash of a value is a function of the value alone.

use std::collections::hash_map::DefaultHasher;
use std::hash::Hasher;
use vstd::bytes::{
    spec_u128_to_le_bytes, spec_u16_to_le_bytes, spec_u32_to_le_bytes, spec_u64_to_le_bytes,
    u128_to_le_bytes, u16_to_le_bytes, u32_to_le_bytes, u64_to_le_bytes,
};
use vstd::prelude::*;
use vstd::std_specs::hash::DefaultHasherAdditionalSpecFns;
use vstd::string::StringSliceAdditionalSpecFns;
use crate::datatype::{OsBytes, PathBytes};
use crate::scalar::Scalar;

verus! {

/// A value that can be hashed: it writes a fixed sequence of byte blocks to a
/// hasher.
pub trait Hashable {
    /// The byte blocks that hashing this value writes, in order.
    spec fn hash_writes(&self) -> Seq<Seq<u8>>;

    /// Writes the value's byte blocks to `state`, after what was written before.
    fn hash(&self, state: &mut DefaultHasher)
        ensures
            final(state)@ == old(state)@ + self.hash_writes(),
    ;
}

/// The digest of a hasher that started empty and was given `writes`.
pub open spec fn digest(writes: Seq<Seq<u8>>) -> u64 {
    DefaultHasher::spec_finish(writes)
}

/// The content hash of a value: the digest of its byte blocks.
pub open spec fn content_hash<T: Hashable + ?Sized>(value: &T) -> u64 {
    digest(value.hash_writes())
}

/// Computes the content hash of `value`.
pub fn hash_of<T: Hashable + ?Sized>(value: &T) -> (hash: u64)
    ensures
        hash == content_hash(value),
{
    let mut state = DefaultHasher::new();
    value.hash(&mut state);
    state.finish()
}

/// The byte blocks that a scalar writes: nothing for the unit value, one byte
/// for a boolean or an 8-bit integer, and the little-endian bytes of wider
/// integers, with a `char` taken as its code point and a `usize` as 64 bits.
pub open spec fn scalar_writes(scalar: Scalar) -> Seq<Seq<u8>> {
    match scalar {
        Scalar::Unit => Seq::empty(),
        Scalar::Char(c) => seq![spec_u32_to_le_bytes(c as u32)],
        Scalar::Bool(b) => seq![seq![if b { 1u8 } else { 0u8 }]],
        Scalar::Usize(x) => seq![spec_u64_to_le_bytes(x as u64)],
        Scalar::U8(x) => seq![seq![x]],
        Scalar::U16(x) => seq![spec_u16_to_le_bytes(x)],
        Scalar::U32(x) => seq![spec_u32_to_le_bytes(x)],
        Scalar::U64(x) => seq![spec_u64_to_le_bytes(x)],
        Scalar::U128(x) => seq![spec_u128_to_le_bytes(x)],
        Scalar::I8(x) => seq![seq![x as u8]],
        Scalar::I16(x) => seq![spec_u16_to_le_bytes(x as u16)],
        Scalar::I32(x) => seq![spec_u32_to_le_bytes(x as u32)],
        Scalar::I64(x) => seq![spec_u64_to_le_bytes(x as u64)],
        Scalar::I128(x) => seq![spec_u128_to_le_bytes(x as u128)],
    }
}

/// Writes one block to the hasher.
fn write_block(state: &mut DefaultHasher, block: Vec<u8>)
    ensures
        final(state)@ == old(state)@ + seq![block@],
{
    state.write(block.as_slice());
    assert(old(state)@.push(block@) =~= old(state)@ + seq![block@]);
}

/// Writes a single byte, as a block of its own.
fn write_byte(state: &mut DefaultHasher, byte: u8)
    ensures
        final(state)@ == old(state)@ + seq![seq![byte]],
{
    let mut block: Vec<u8> = Vec::new();
    block.push(byte);
    assert(block@ =~= seq![byte]);
    write_block(state, block);
}

impl Hashable for Scalar {
    open spec fn hash_writes(&self) -> Seq<Seq<u8>> {
        scalar_writes(*self)
    }

    fn hash(&self, state: &mut DefaultHasher) {
        match *self {
            Scalar::Unit => {
                assert(self.hash_writes() =~= Seq::<Seq<u8>>::empty());
                assert(state@ + Seq::<Seq<u8>>::empty() =~= state@);
            },
            Scalar::Char(c) => write_block(state, u32_to_le_bytes(c as u32)),
            Scalar::Bool(b) => write_byte(state, if b { 1u8 } else { 0u8 }),
            Scalar::Usize(x) => write_block(state, u64_to_le_bytes(x as u64)),
            Scalar::U8(x) => write_byte(state, x),
            Scalar::U16(x) => write_block(state, u16_to_le_bytes(x)),
            Scalar::U32(x) => write_block(state, u32_to_le_bytes(x)),
            Scalar::U64(x) => write_block(state, u64_to_le_bytes(x)),
            Scalar::U128(x) => write_block(state, u128_to_le_bytes(x)),
            Scalar::I8(x) => write_byte(state, #[verifier::truncate] (x as u8)),
            Scalar::I16(x) => write_block(state, u16_to_le_bytes(#[verifier::truncate] (x as u16))),
            Scalar::I32(x) => write_block(state, u32_to_le_bytes(#[verifier::truncate] (x as u32))),
            Scalar::I64(x) => write_block(state, u64_to_le_bytes(#[verifier::truncate] (x as u64))),
            Scalar::I128(x) => write_block(
                state,
                u128_to_le_bytes(#[verifier::truncate] (x as u128)),
            ),
        }
    }
}

impl Hashable for () {
    open spec fn hash_writes(&self) -> Seq<Seq<u8>> {
        scalar_writes(Scalar::Unit)
    }

    fn hash(&self, state: &mut DefaultHasher) {
        Scalar::Unit.hash(state)
    }
}

impl Hashable for char {
    open spec fn hash_writes(&self) -> Seq<Seq<u8>> {
        scalar_writes(Scalar::Char(*self))
    }

    fn hash(&self, state: &mut DefaultHasher) {
        Scalar::Char(*self).hash(state)
    }
}

impl Hashable for bool {
    open spec fn hash_writes(&self) -> Seq<Seq<u8>> {
        scalar_writes(Scalar::Bool(*self))
    }

    fn hash(&self, state: &mut DefaultHasher) {
        Scalar::Bool(*self).hash(state)
    }
}

impl Hashable for usize {
    open spec fn hash_writes(&self) -> Seq<Seq<u8>> {
        scalar_writes(Scalar::Usize(*self))
    }

    fn hash(&self, state: &mut DefaultHasher) {
        Scalar::Usize(*self).hash(state)
    }
}

impl Hashable for u8 {
    open spec fn hash_writes(&self) -> Seq<Seq<u8>> {
        scalar_writes(Scalar::U8(*self))
    }

    fn hash(&self, state: &mut DefaultHasher) {
        Scalar::U8(*self).hash(state)
    }
}

impl Hashable for u16 {
    open spec fn hash_writes(&self) -> Seq<Seq<u8>> {
        scalar_writes(Scalar::U16(*self))
    }

    fn hash(&self, state: &mut DefaultHasher) {
        Scalar::U16(*self).hash(state)
    }
}

impl Hashable for u32 {
    open spec fn hash_writes(&self) -> Seq<Seq<u8>> {
        scalar_writes(Scalar::U32(*self))
    }

    fn hash(&self, state: &mut DefaultHasher) {
        Scalar::U32(*self).hash(state)
    }
}

impl Hashable for u64 {
    open spec fn hash_writes(&self) -> Seq<Seq<u8>> {
        scalar_writes(Scalar::U64(*self))
    }

    fn hash(&self, state: &mut DefaultHasher) {
        Scalar::U64(*self).hash(state)
    }
}

impl Hashable for u128 {
    open spec fn hash_writes(&self) -> Seq<Seq<u8>> {
        scalar_writes(Scalar::U128(*self))
    }

    fn hash(&self, state: &mut DefaultHasher) {
        Scalar::U128(*self).hash(state)
    }
}

impl Hashable for i8 {
    open spec fn hash_writes(&self) -> Seq<Seq<u8>> {
        scalar_writes(Scalar::I8(*self))
    }

    fn hash(&self, state: &mut DefaultHasher) {
        Scalar::I8(*self).hash(state)
    }
}

impl Hashable for i16 {
    open spec fn hash_writes(&self) -> Seq<Seq<u8>> {
        scalar_writes(Scalar::I16(*self))
    }

    fn hash(&self, state: &mut DefaultHasher) {
        Scalar::I16(*self).hash(state)
    }
}

impl Hashable for i32 {
    open spec fn hash_writes(&self) -> Seq<Seq<u8>> {
        scalar_writes(Scalar::I32(*self))
    }

    fn hash(&self, state: &mut DefaultHasher) {
        Scalar::I32(*self).hash(state)
    }
}

impl Hashable for i64 {
    open spec fn hash_writes(&self) -> Seq<Seq<u8>> {
        scalar_writes(Scalar::I64(*self))
    }

    fn hash(&self, state: &mut DefaultHasher) {
        Scalar::I64(*self).hash(state)
    }
}

impl Hashable for i128 {
    open spec fn hash_writes(&self) -> Seq<Seq<u8>> {
        scalar_writes(Scalar::I128(*self))
    }

    fn hash(&self, state: &mut DefaultHasher) {
        Scalar::I128(*self).hash(state)
    }
}

/// The byte blocks that the items of a sequence write, one item after another.
pub open spec fn items_writes<T: Hashable>(items: Seq<T>) -> Seq<Seq<u8>>
    decreases items.len(),
{
    if items.len() == 0 {
        Seq::empty()
    } else {
        items_writes(items.drop_last()) + items.last().hash_writes()
    }
}

/// The byte blocks that a slice writes: its length as 64 bits, then its items.
pub open spec fn slice_writes<T: Hashable>(items: Seq<T>) -> Seq<Seq<u8>> {
    seq![spec_u64_to_le_bytes(items.len() as u64)] + items_writes(items)
}

/// The byte blocks that a string writes: its UTF-8 bytes, then one byte `0xff`
/// that ends it.
pub open spec fn str_writes(text: Seq<char>) -> Seq<Seq<u8>> {
    seq![vstd::utf8::encode_utf8(text), seq![0xffu8]]
}

impl<T: Hashable> Hashable for [T] {
    open spec fn hash_writes(&self) -> Seq<Seq<u8>> {
        slice_writes(self@)
    }

    fn hash(&self, state: &mut DefaultHasher) {
        let n = self.len();
        write_block(state, u64_to_le_bytes(n as u64));
        let mut i: usize = 0;
        while i < n
            invariant
                n == self@.len(),
                i <= n,
                state@ == old(state)@ + seq![spec_u64_to_le_bytes(n as u64)] + items_writes(
                    self@.take(i as int),
                ),
            decreases n - i,
        {
            self[i].hash(state);
            proof {
                let next = self@.take(i + 1);
                assert(next.drop_last() =~= self@.take(i as int));
                assert(next.last() == self@[i as int]);
            }
            i += 1;
        }
        assert(self@.take(n as int) =~= self@);
    }
}

impl<T: Hashable> Hashable for Vec<T> {
    open spec fn hash_writes(&self) -> Seq<Seq<u8>> {
        slice_writes(self@)
    }

    fn hash(&self, state: &mut DefaultHasher) {
        self.as_slice().hash(state)
    }
}

impl Hashable for str {
    open spec fn hash_writes(&self) -> Seq<Seq<u8>> {
        str_writes(self@)
    }

    fn hash(&self, state: &mut DefaultHasher) {
        state.write(self.as_bytes());
        write_byte(state, 0xffu8);
        assert(old(state)@.push(self.spec_bytes()) + seq![seq![0xffu8]] =~= old(state)@
            + str_writes(self@));
    }
}

impl Hashable for String {
    open spec fn hash_writes(&self) -> Seq<Seq<u8>> {
        str_writes(self@)
    }

    fn hash(&self, state: &mut DefaultHasher) {
        self.as_str().hash(state)
    }
}

impl<'a, T: Hashable + ?Sized> Hashable for &'a T {
    open spec fn hash_writes(&self) -> Seq<Seq<u8>> {
        (**self).hash_writes()
    }

    fn hash(&self, state: &mut DefaultHasher) {
        (**self).hash(state)
    }
}

impl<A: Hashable, B: Hashable> Hashable for (A, B) {
    open spec fn hash_writes(&self) -> Seq<Seq<u8>> {
        self.0.hash_writes() + self.1.hash_writes()
    }

    fn hash(&self, state: &mut DefaultHasher) {
        self.0.hash(state);
        self.1.hash(state);
        assert(old(state)@ + self.0.hash_writes() + self.1.hash_writes() =~= old(state)@ + (
        self.0.hash_writes() + self.1.hash_writes()));
    }
}

impl<A: Hashable, B: Hashable, C: Hashable> Hashable for (A, B, C) {
    open spec fn hash_writes(&self) -> Seq<Seq<u8>> {
        self.0.hash_writes() + self.1.hash_writes() + self.2.hash_writes()
    }

    fn hash(&self, state: &mut DefaultHasher) {
        self.0.hash(state);
        self.1.hash(state);
        self.2.hash(state);
        assert(old(state)@ + self.0.hash_writes() + self.1.hash_writes() + self.2.hash_writes()
            =~= old(state)@ + (self.0.hash_writes() + self.1.hash_writes()
            + self.2.hash_writes()));
    }
}

impl<'a> Hashable for OsBytes<'a> {
    open spec fn hash_writes(&self) -> Seq<Seq<u8>> {
        slice_writes(self.0@)
    }

    fn hash(&self, state: &mut DefaultHasher) {
        self.0.hash(state)
    }
}

impl<'a> Hashable for PathBytes<'a> {
    open spec fn hash_writes(&self) -> Seq<Seq<u8>> {
        slice_writes(self.0@)
    }

    fn hash(&self, state: &mut DefaultHasher) {
        self.0.hash(state)
    }
}

} // verus!
