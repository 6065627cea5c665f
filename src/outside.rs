//! The outside types this library carries, and the outside functions it calls.
use anyhow::Error as AnyhowError;
use serde_json::Error as JsonError;
use std::io::Error as IoError;
use vstd::prelude::*;

verus! {

#[verifier::external_type_specification]
#[verifier::external_body]
pub struct ExJsonError(JsonError);

#[verifier::external_type_specification]
#[verifier::external_body]
pub struct ExJsonValue(serde_json::Value);

#[verifier::external_type_specification]
#[verifier::external_body]
pub struct ExAnyhowError(AnyhowError);

#[verifier::external_type_specification]
#[verifier::external_body]
pub struct ExIoError(IoError);

/// What `serde_json::Value`'s `Debug` impl writes for a value.
pub uninterp spec fn value_debug_of(v: serde_json::Value) -> Seq<char>;

/// What `str`'s `Debug` impl writes for a string: the quoted, escaped text.
pub uninterp spec fn str_debug_of(s: Seq<char>) -> Seq<char>;

/// Whether `serde_json::Value`'s `PartialEq` holds of two values.
pub uninterp spec fn value_eq_of(a: serde_json::Value, b: serde_json::Value) -> bool;

/// Relies on the derived `PartialEq` of `serde_json::Value`: its answer
/// depends on the two values alone, and a value equals itself (the type is
/// `Eq`; a JSON number never holds a NaN).
pub assume_specification[ <serde_json::Value as PartialEq>::eq ](
    a: &serde_json::Value,
    b: &serde_json::Value,
) -> (r: bool)
    ensures
        r == value_eq_of(*a, *b),
        *a == *b ==> r,
;

/// Relies on `Display` of `serde_json::Error`. Nothing is stated of the text:
/// an error that wraps an I/O error shows the operating system's message.
#[verifier::external_body]
pub(crate) fn json_error_text(e: &JsonError) -> (r: String) {
    e.to_string()
}

/// Relies on `Display` of `std::io::Error`. Nothing is stated of the text,
/// which may come from the operating system.
#[verifier::external_body]
pub(crate) fn io_error_text(e: &IoError) -> (r: String) {
    e.to_string()
}

/// Relies on `Display` of `anyhow::Error`. Nothing is stated of the text,
/// which comes from whatever error the value wraps.
#[verifier::external_body]
pub(crate) fn anyhow_text(e: &AnyhowError) -> (r: String) {
    e.to_string()
}

/// Relies on `Debug` of `str`: the text depends on the characters alone.
#[verifier::external_body]
pub(crate) fn str_debug(s: &str) -> (r: String)
    ensures
        r@ == str_debug_of(s@),
{
    format!("{s:?}")
}

/// Relies on `Debug` of `serde_json::Value`: the text depends on the value alone.
#[verifier::external_body]
pub(crate) fn value_debug(v: &serde_json::Value) -> (r: String)
    ensures
        r@ == value_debug_of(*v),
{
    format!("{v:?}")
}

} // verus!
