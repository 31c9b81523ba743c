//! Diagnostic texts of handles.
//!
//! The text of a handle names the type and shows the value, as in
//! `Interned<i32> { value: 1289 }`. How a value is shown is up to the caller,
//! who passes the value's text in.

use crate::interned::Interned;
use crate::memoized::Memoized;
use crate::record::Static;
use crate::staticize::Staticize;
use vstd::prelude::*;
use vstd::string::StringExecFns;

verus! {

/// The label of the payload of a record in a diagnostic text.
pub open spec fn field_label(record: Static) -> Seq<char> {
    match record {
        Static::Value(_) => "value"@,
        Static::Slice(_) => "slice"@,
        Static::Str(_) => "str"@,
        Static::OsStr(_) => "OsStr"@,
        Static::Path(_) => "Path"@,
    }
}

/// The diagnostic text of a handle to a record of the type named `named`,
/// where `text` shows the payload.
pub open spec fn interned_text(named: Seq<char>, record: Static, text: Seq<char>) -> Seq<char> {
    "Interned<"@ + named + "> { "@ + field_label(record) + ": "@ + text + " }"@
}

/// The diagnostic text of a memoized handle, where `inner` is the text of its
/// interned handle.
pub open spec fn memoized_text(inner: Seq<char>) -> Seq<char> {
    "Memoized { interned_value: "@ + inner + " }"@
}

/// Returns the label of the payload of a record in a diagnostic text.
pub fn label_of(record: &Static) -> (label: &'static str)
    ensures
        label@ == field_label(*record),
{
    match record {
        Static::Value(_) => "value",
        Static::Slice(_) => "slice",
        Static::Str(_) => "str",
        Static::OsStr(_) => "OsStr",
        Static::Path(_) => "Path",
    }
}

impl<T: Staticize> Interned<T> {
    /// Returns the diagnostic text of this handle, where `text` shows the
    /// value.
    pub fn fmt(&self, text: &str) -> (out: String)
        ensures
            out@ == interned_text(T::static_name(), self.value, text@),
    {
        let named = T::static_type_name();
        "Interned<".to_owned().concat(named.as_str()).concat("> { ").concat(
            label_of(&self.value),
        ).concat(": ").concat(text).concat(" }")
    }
}

impl<I, T: Staticize> Memoized<I, T> {
    /// Returns the diagnostic text of this handle, where `text` shows the
    /// value.
    pub fn fmt(&self, text: &str) -> (out: String)
        ensures
            out@ == memoized_text(interned_text(T::static_name(), self.interned.value, text@)),
    {
        let inner = self.interned.fmt(text);
        "Memoized { interned_value: ".to_owned().concat(inner.as_str()).concat(" }")
    }
}

} // verus!
