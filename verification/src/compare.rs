//! Equality and order of references and handles.
//!
//! References and handles are compared by the cached content hash alone, in
//! constant time whatever the size of the payload. Two values of one type are
//! therefore taken for equal exactly when their content hashes are equal.

use crate::interned::Interned;
use crate::memoized::Memoized;
use crate::record::{Static, StaticOsStr, StaticPath, StaticSlice, StaticStr, StaticValue};
use crate::unsized_types::{InOsStr, InPath, InStr};
use std::cmp::Ordering;
use vstd::prelude::*;
use vstd::std_specs::cmp::{PartialEqSpecImpl, PartialOrdSpecImpl};

verus! {

/// The order of two content hashes.
pub open spec fn hash_order(hash: u64, other: u64) -> Ordering {
    if hash < other {
        Ordering::Less
    } else if hash == other {
        Ordering::Equal
    } else {
        Ordering::Greater
    }
}

/// Compares two content hashes.
pub fn compare_hashes(hash: u64, other: u64) -> (order: Ordering)
    ensures
        order == hash_order(hash, other),
{
    if hash < other {
        Ordering::Less
    } else if hash == other {
        Ordering::Equal
    } else {
        Ordering::Greater
    }
}

impl PartialEq for StaticValue {
    fn eq(&self, other: &Self) -> (equal: bool) {
        self.hash == other.hash
    }
}

impl PartialEqSpecImpl for StaticValue {
    open spec fn obeys_eq_spec() -> bool {
        true
    }

    open spec fn eq_spec(&self, other: &Self) -> bool {
        self.hash == other.hash
    }
}

impl Eq for StaticValue {

}

impl PartialOrd for StaticValue {
    fn partial_cmp(&self, other: &Self) -> (order: Option<Ordering>) {
        Some(compare_hashes(self.hash, other.hash))
    }
}

impl PartialOrdSpecImpl for StaticValue {
    open spec fn obeys_partial_cmp_spec() -> bool {
        true
    }

    open spec fn partial_cmp_spec(&self, other: &Self) -> Option<Ordering> {
        Some(hash_order(self.hash, other.hash))
    }
}

impl StaticValue {
    /// Orders two references by their content hashes.
    pub fn cmp(&self, other: &Self) -> (order: Ordering)
        ensures
            order == hash_order(self.hash, other.hash),
    {
        compare_hashes(self.hash, other.hash)
    }
}

impl PartialEq for StaticSlice {
    fn eq(&self, other: &Self) -> (equal: bool) {
        self.hash == other.hash
    }
}

impl PartialEqSpecImpl for StaticSlice {
    open spec fn obeys_eq_spec() -> bool {
        true
    }

    open spec fn eq_spec(&self, other: &Self) -> bool {
        self.hash == other.hash
    }
}

impl Eq for StaticSlice {

}

impl PartialOrd for StaticSlice {
    fn partial_cmp(&self, other: &Self) -> (order: Option<Ordering>) {
        Some(compare_hashes(self.hash, other.hash))
    }
}

impl PartialOrdSpecImpl for StaticSlice {
    open spec fn obeys_partial_cmp_spec() -> bool {
        true
    }

    open spec fn partial_cmp_spec(&self, other: &Self) -> Option<Ordering> {
        Some(hash_order(self.hash, other.hash))
    }
}

impl StaticSlice {
    /// Orders two references by their content hashes.
    pub fn cmp(&self, other: &Self) -> (order: Ordering)
        ensures
            order == hash_order(self.hash, other.hash),
    {
        compare_hashes(self.hash, other.hash)
    }
}

impl PartialEq for StaticStr {
    fn eq(&self, other: &Self) -> (equal: bool) {
        self.hash == other.hash
    }
}

impl PartialEqSpecImpl for StaticStr {
    open spec fn obeys_eq_spec() -> bool {
        true
    }

    open spec fn eq_spec(&self, other: &Self) -> bool {
        self.hash == other.hash
    }
}

impl Eq for StaticStr {

}

impl PartialOrd for StaticStr {
    fn partial_cmp(&self, other: &Self) -> (order: Option<Ordering>) {
        Some(compare_hashes(self.hash, other.hash))
    }
}

impl PartialOrdSpecImpl for StaticStr {
    open spec fn obeys_partial_cmp_spec() -> bool {
        true
    }

    open spec fn partial_cmp_spec(&self, other: &Self) -> Option<Ordering> {
        Some(hash_order(self.hash, other.hash))
    }
}

impl StaticStr {
    /// Orders two references by their content hashes.
    pub fn cmp(&self, other: &Self) -> (order: Ordering)
        ensures
            order == hash_order(self.hash, other.hash),
    {
        compare_hashes(self.hash, other.hash)
    }
}

impl PartialEq for StaticOsStr {
    fn eq(&self, other: &Self) -> (equal: bool) {
        self.hash == other.hash
    }
}

impl PartialEqSpecImpl for StaticOsStr {
    open spec fn obeys_eq_spec() -> bool {
        true
    }

    open spec fn eq_spec(&self, other: &Self) -> bool {
        self.hash == other.hash
    }
}

impl Eq for StaticOsStr {

}

impl PartialOrd for StaticOsStr {
    fn partial_cmp(&self, other: &Self) -> (order: Option<Ordering>) {
        Some(compare_hashes(self.hash, other.hash))
    }
}

impl PartialOrdSpecImpl for StaticOsStr {
    open spec fn obeys_partial_cmp_spec() -> bool {
        true
    }

    open spec fn partial_cmp_spec(&self, other: &Self) -> Option<Ordering> {
        Some(hash_order(self.hash, other.hash))
    }
}

impl StaticOsStr {
    /// Orders two references by their content hashes.
    pub fn cmp(&self, other: &Self) -> (order: Ordering)
        ensures
            order == hash_order(self.hash, other.hash),
    {
        compare_hashes(self.hash, other.hash)
    }
}

impl PartialEq for StaticPath {
    fn eq(&self, other: &Self) -> (equal: bool) {
        self.hash == other.hash
    }
}

impl PartialEqSpecImpl for StaticPath {
    open spec fn obeys_eq_spec() -> bool {
        true
    }

    open spec fn eq_spec(&self, other: &Self) -> bool {
        self.hash == other.hash
    }
}

impl Eq for StaticPath {

}

impl PartialOrd for StaticPath {
    fn partial_cmp(&self, other: &Self) -> (order: Option<Ordering>) {
        Some(compare_hashes(self.hash, other.hash))
    }
}

impl PartialOrdSpecImpl for StaticPath {
    open spec fn obeys_partial_cmp_spec() -> bool {
        true
    }

    open spec fn partial_cmp_spec(&self, other: &Self) -> Option<Ordering> {
        Some(hash_order(self.hash, other.hash))
    }
}

impl StaticPath {
    /// Orders two references by their content hashes.
    pub fn cmp(&self, other: &Self) -> (order: Ordering)
        ensures
            order == hash_order(self.hash, other.hash),
    {
        compare_hashes(self.hash, other.hash)
    }
}

impl Static {
    /// The place of the storage kind among the kinds of references.
    pub open spec fn rank(self) -> u8 {
        match self {
            Static::Value(_) => 0,
            Static::Slice(_) => 1,
            Static::Str(_) => 2,
            Static::OsStr(_) => 3,
            Static::Path(_) => 4,
        }
    }

    /// The order of two references of any kinds: by the kind first, and among
    /// references of one kind by the content hash.
    pub open spec fn order(self, other: Static) -> Ordering {
        if self.rank() < other.rank() {
            Ordering::Less
        } else if self.rank() > other.rank() {
            Ordering::Greater
        } else {
            hash_order(self.hash_code(), other.hash_code())
        }
    }

    /// Returns the place of the storage kind among the kinds of references.
    fn kind_rank(&self) -> (rank: u8)
        ensures
            rank == self.rank(),
    {
        match self {
            Static::Value(_) => 0,
            Static::Slice(_) => 1,
            Static::Str(_) => 2,
            Static::OsStr(_) => 3,
            Static::Path(_) => 4,
        }
    }

    /// Orders two references as records of one type: by their content hashes.
    pub fn _partial_cmp(&self, other: &Self) -> (order: Option<Ordering>)
        ensures
            order == Some(hash_order(self.hash_code(), other.hash_code())),
    {
        Some(compare_hashes(self.hash_code(), other.hash_code()))
    }

    /// Orders two references as records of one type: by their content hashes.
    pub fn _cmp(&self, other: &Self) -> (order: Ordering)
        ensures
            order == hash_order(self.hash_code(), other.hash_code()),
    {
        compare_hashes(self.hash_code(), other.hash_code())
    }

    /// Orders two references of any kinds.
    pub fn cmp(&self, other: &Self) -> (order: Ordering)
        ensures
            order == self.order(*other),
    {
        let rank = self.kind_rank();
        let other_rank = other.kind_rank();
        if rank < other_rank {
            Ordering::Less
        } else if rank > other_rank {
            Ordering::Greater
        } else {
            compare_hashes(self.hash_code(), other.hash_code())
        }
    }
}

impl PartialEq for Static {
    fn eq(&self, other: &Self) -> (equal: bool) {
        self.kind_rank() == other.kind_rank() && self.hash_code() == other.hash_code()
    }
}

impl PartialEqSpecImpl for Static {
    open spec fn obeys_eq_spec() -> bool {
        true
    }

    open spec fn eq_spec(&self, other: &Self) -> bool {
        self.rank() == other.rank() && self.hash_code() == other.hash_code()
    }
}

impl Eq for Static {

}

impl PartialOrd for Static {
    fn partial_cmp(&self, other: &Self) -> (order: Option<Ordering>) {
        Some(self.cmp(other))
    }
}

impl PartialOrdSpecImpl for Static {
    open spec fn obeys_partial_cmp_spec() -> bool {
        true
    }

    open spec fn partial_cmp_spec(&self, other: &Self) -> Option<Ordering> {
        Some(self.order(*other))
    }
}

impl<T> PartialEq for Interned<T> {
    fn eq(&self, other: &Self) -> (equal: bool) {
        self.value._partial_eq(&other.value)
    }
}

impl<T> PartialEqSpecImpl for Interned<T> {
    open spec fn obeys_eq_spec() -> bool {
        true
    }

    open spec fn eq_spec(&self, other: &Self) -> bool {
        self.value.hash_code() == other.value.hash_code()
    }
}

impl<T> Eq for Interned<T> {

}

impl<T> PartialOrd for Interned<T> {
    fn partial_cmp(&self, other: &Self) -> (order: Option<Ordering>) {
        self.value._partial_cmp(&other.value)
    }
}

impl<T> PartialOrdSpecImpl for Interned<T> {
    open spec fn obeys_partial_cmp_spec() -> bool {
        true
    }

    open spec fn partial_cmp_spec(&self, other: &Self) -> Option<Ordering> {
        Some(hash_order(self.value.hash_code(), other.value.hash_code()))
    }
}

impl<T> Interned<T> {
    /// Orders two handles by the content hashes of their records.
    pub fn cmp(&self, other: &Self) -> (order: Ordering)
        ensures
            order == hash_order(self.value.hash_code(), other.value.hash_code()),
    {
        self.value._cmp(&other.value)
    }
}

impl<I, T> PartialEq for Memoized<I, T> {
    fn eq(&self, other: &Self) -> (equal: bool) {
        self.interned() == other.interned()
    }
}

impl<I, T> PartialEqSpecImpl for Memoized<I, T> {
    open spec fn obeys_eq_spec() -> bool {
        true
    }

    open spec fn eq_spec(&self, other: &Self) -> bool {
        self.interned.value.hash_code() == other.interned.value.hash_code()
    }
}

impl<I, T> Eq for Memoized<I, T> {

}

impl<I, T> PartialOrd for Memoized<I, T> {
    fn partial_cmp(&self, other: &Self) -> (order: Option<Ordering>) {
        self.interned().partial_cmp(&other.interned())
    }
}

impl<I, T> PartialOrdSpecImpl for Memoized<I, T> {
    open spec fn obeys_partial_cmp_spec() -> bool {
        true
    }

    open spec fn partial_cmp_spec(&self, other: &Self) -> Option<Ordering> {
        Some(hash_order(self.interned.value.hash_code(), other.interned.value.hash_code()))
    }
}

impl<I, T> Memoized<I, T> {
    /// Orders two handles by the content hashes of their records.
    pub fn cmp(&self, other: &Self) -> (order: Ordering)
        ensures
            order == hash_order(
                self.interned.value.hash_code(),
                other.interned.value.hash_code(),
            ),
    {
        self.interned().cmp(&other.interned())
    }
}

impl PartialEq for InStr {
    fn eq(&self, other: &Self) -> (equal: bool) {
        self.0 == other.0
    }
}

impl PartialEqSpecImpl for InStr {
    open spec fn obeys_eq_spec() -> bool {
        true
    }

    open spec fn eq_spec(&self, other: &Self) -> bool {
        self.0.value.hash_code() == other.0.value.hash_code()
    }
}

impl Eq for InStr {

}

impl PartialOrd for InStr {
    fn partial_cmp(&self, other: &Self) -> (order: Option<Ordering>) {
        self.0.partial_cmp(&other.0)
    }
}

impl PartialOrdSpecImpl for InStr {
    open spec fn obeys_partial_cmp_spec() -> bool {
        true
    }

    open spec fn partial_cmp_spec(&self, other: &Self) -> Option<Ordering> {
        Some(hash_order(self.0.value.hash_code(), other.0.value.hash_code()))
    }
}

impl InStr {
    /// Orders two handles by the content hashes of their records.
    pub fn cmp(&self, other: &Self) -> (order: Ordering)
        ensures
            order == hash_order(self.0.value.hash_code(), other.0.value.hash_code()),
    {
        self.0.cmp(&other.0)
    }
}

impl PartialEq for InOsStr {
    fn eq(&self, other: &Self) -> (equal: bool) {
        self.0 == other.0
    }
}

impl PartialEqSpecImpl for InOsStr {
    open spec fn obeys_eq_spec() -> bool {
        true
    }

    open spec fn eq_spec(&self, other: &Self) -> bool {
        self.0.value.hash_code() == other.0.value.hash_code()
    }
}

impl Eq for InOsStr {

}

impl PartialOrd for InOsStr {
    fn partial_cmp(&self, other: &Self) -> (order: Option<Ordering>) {
        self.0.partial_cmp(&other.0)
    }
}

impl PartialOrdSpecImpl for InOsStr {
    open spec fn obeys_partial_cmp_spec() -> bool {
        true
    }

    open spec fn partial_cmp_spec(&self, other: &Self) -> Option<Ordering> {
        Some(hash_order(self.0.value.hash_code(), other.0.value.hash_code()))
    }
}

impl InOsStr {
    /// Orders two handles by the content hashes of their records.
    pub fn cmp(&self, other: &Self) -> (order: Ordering)
        ensures
            order == hash_order(self.0.value.hash_code(), other.0.value.hash_code()),
    {
        self.0.cmp(&other.0)
    }
}

impl PartialEq for InPath {
    fn eq(&self, other: &Self) -> (equal: bool) {
        self.0 == other.0
    }
}

impl PartialEqSpecImpl for InPath {
    open spec fn obeys_eq_spec() -> bool {
        true
    }

    open spec fn eq_spec(&self, other: &Self) -> bool {
        self.0.value.hash_code() == other.0.value.hash_code()
    }
}

impl Eq for InPath {

}

impl PartialOrd for InPath {
    fn partial_cmp(&self, other: &Self) -> (order: Option<Ordering>) {
        self.0.partial_cmp(&other.0)
    }
}

impl PartialOrdSpecImpl for InPath {
    open spec fn obeys_partial_cmp_spec() -> bool {
        true
    }

    open spec fn partial_cmp_spec(&self, other: &Self) -> Option<Ordering> {
        Some(hash_order(self.0.value.hash_code(), other.0.value.hash_code()))
    }
}

impl InPath {
    /// Orders two handles by the content hashes of their records.
    pub fn cmp(&self, other: &Self) -> (order: Ordering)
        ensures
            order == hash_order(self.0.value.hash_code(), other.0.value.hash_code()),
    {
        self.0.cmp(&other.0)
    }
}

} // verus!
