//! Structured values that this library carries but does not interpret.

use vstd::prelude::*;

verus! {

/// The shape of a structured value.
#[derive(Clone, Copy, Debug, PartialEq, Eq, Structural)]
pub enum JsonKind {
    Null,
    Bool,
    Number,
    String,
    Array,
    Object,
}

/// A structured value: its shape, and its text in the encoding it arrived in.
#[derive(Clone, Debug, PartialEq, Eq)]
pub struct JsonValue {
    pub kind: JsonKind,
    pub text: String,
}

/// The mathematical content of a [`JsonValue`].
pub struct JsonValueView {
    pub kind: JsonKind,
    pub text: Seq<char>,
}

impl View for JsonValue {
    type V = JsonValueView;

    open spec fn view(&self) -> JsonValueView {
        JsonValueView { kind: self.kind, text: self.text@ }
    }
}

impl JsonValue {
    /// Whether the value is an object.
    pub fn is_object(&self) -> (b: bool)
        ensures
            b == (self.kind == JsonKind::Object),
    {
        self.kind == JsonKind::Object
    }
}

} // verus!
