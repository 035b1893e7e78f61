//! The shape of a value in the settings store.
//!
//! The store maps string keys to JSON-like values. The shell only ever
//! distinguishes strings, booleans, integers and "anything else": a stored
//! field of the wrong shape is treated exactly like a missing one.

use vstd::prelude::*;

verus! {

/// A JSON-like value as the settings logic sees it.
///
/// `Other` stands for any value the shell never inspects (arrays, objects,
/// non-integer numbers): the logic treats such a value like any other
/// ill-typed field.
#[derive(Clone, Debug, PartialEq)]
pub enum JsonValue {
    Null,
    Bool(bool),
    Str(String),
    Int(i64),
    Other,
}

/// The mathematical shape of a [`JsonValue`].
pub enum JsonValueView {
    Null,
    Bool(bool),
    Str(Seq<char>),
    Int(int),
    Other,
}

impl View for JsonValue {
    type V = JsonValueView;

    open spec fn view(&self) -> JsonValueView {
        match self {
            JsonValue::Null => JsonValueView::Null,
            JsonValue::Bool(b) => JsonValueView::Bool(*b),
            JsonValue::Str(s) => JsonValueView::Str(s@),
            JsonValue::Int(n) => JsonValueView::Int(*n as int),
            JsonValue::Other => JsonValueView::Other,
        }
    }
}

} // verus!
