//! Handles to interned strings, OS strings and paths.
//!
//! These wrap an [`Interned`] of a text type. An OS string and a path are
//! interned as their bytes.

use crate::datatype::{OsBytes, PathBytes};
use crate::hashing::content_hash;
use crate::heap::PayloadView;
use crate::interned::Interned;
use crate::staticize::Staticize;
use crate::store::Store;
use vstd::prelude::*;

verus! {

/// A handle to an interned string.
#[derive(Clone, Copy, Debug)]
pub struct InStr(pub Interned<&'static str>);

/// A handle to an interned OS string.
#[derive(Clone, Copy, Debug)]
pub struct InOsStr(pub Interned<OsBytes<'static>>);

/// A handle to an interned path.
#[derive(Clone, Copy, Debug)]
pub struct InPath(pub Interned<PathBytes<'static>>);

impl InStr {
    /// Interns `value` in `store`.
    pub fn from(store: &mut Store, value: &str) -> (handle: InStr)
        requires
            old(store)@.wf(),
        ensures
            final(store)@.wf(),
            (final(store)@, handle.0.value) == old(store)@.intern(
                <&'static str as Staticize>::static_id(),
                content_hash(value),
                PayloadView::Str(value@),
            ),
    {
        InStr(Interned::from(store, value))
    }

    /// Returns the interned string.
    pub fn as_str<'a>(&self, store: &'a Store) -> (text: &'a str)
        requires
            self.0.value is Str,
            self.0.value.valid(store@.heap),
        ensures
            text@ == self.0.payload(store@)->Str_0,
    {
        self.0.interned_str(store)
    }

    /// Returns the address of the record of this handle.
    pub fn as_ptr(&self) -> (ptr: usize)
        ensures
            ptr == self.0.as_ptr(),
    {
        self.0.as_ptr()
    }
}

impl InOsStr {
    /// Interns the bytes of an OS string in `store`.
    pub fn from(store: &mut Store, value: &[u8]) -> (handle: InOsStr)
        requires
            old(store)@.wf(),
        ensures
            final(store)@.wf(),
            (final(store)@, handle.0.value) == old(store)@.intern(
                <OsBytes<'static> as Staticize>::static_id(),
                content_hash(value),
                PayloadView::OsStr(value@),
            ),
    {
        InOsStr(Interned::from(store, OsBytes(value)))
    }

    /// Returns the bytes of the interned OS string.
    pub fn as_os_str<'a>(&self, store: &'a Store) -> (bytes: &'a [u8])
        requires
            self.0.value is OsStr,
            self.0.value.valid(store@.heap),
        ensures
            bytes@ == self.0.payload(store@)->OsStr_0,
    {
        self.0.interned_os_str(store)
    }

    /// Returns the address of the record of this handle.
    pub fn as_ptr(&self) -> (ptr: usize)
        ensures
            ptr == self.0.as_ptr(),
    {
        self.0.as_ptr()
    }
}

impl InPath {
    /// Interns the bytes of a path in `store`.
    pub fn from(store: &mut Store, value: &[u8]) -> (handle: InPath)
        requires
            old(store)@.wf(),
        ensures
            final(store)@.wf(),
            (final(store)@, handle.0.value) == old(store)@.intern(
                <PathBytes<'static> as Staticize>::static_id(),
                content_hash(value),
                PayloadView::Path(value@),
            ),
    {
        InPath(Interned::from(store, PathBytes(value)))
    }

    /// Returns the bytes of the interned path.
    pub fn as_path<'a>(&self, store: &'a Store) -> (bytes: &'a [u8])
        requires
            self.0.value is Path,
            self.0.value.valid(store@.heap),
        ensures
            bytes@ == self.0.payload(store@)->Path_0,
    {
        self.0.interned_path(store)
    }

    /// Returns the address of the record of this handle.
    pub fn as_ptr(&self) -> (ptr: usize)
        ensures
            ptr == self.0.as_ptr(),
    {
        self.0.as_ptr()
    }
}

} // verus!
