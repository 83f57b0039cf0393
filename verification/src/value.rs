//! The values that properties have.

use vstd::prelude::*;

verus! {

/// A property value as it is handed to the query engine.
///
/// The engine also knows floating point numbers and lists; this adapter
/// neither produces nor reads them, so they have no counterpart here.
#[derive(Debug, Clone, PartialEq, Eq)]
pub enum Value {
    Null,
    Int64(i64),
    Uint64(u64),
    String(String),
    Boolean(bool),
}

/// A property value as a mathematical value.
pub enum ValueView {
    Null,
    Int64(i64),
    Uint64(u64),
    String(Seq<char>),
    Boolean(bool),
}

impl View for Value {
    type V = ValueView;

    open spec fn view(&self) -> ValueView {
        match self {
            Value::Null => ValueView::Null,
            Value::Int64(n) => ValueView::Int64(*n),
            Value::Uint64(n) => ValueView::Uint64(*n),
            Value::String(s) => ValueView::String(s@),
            Value::Boolean(b) => ValueView::Boolean(*b),
        }
    }
}

impl Value {
    /// The value of optional text: the text, or null where there is none.
    pub open spec fn of_text(text: Option<Seq<char>>) -> ValueView {
        match text {
            Some(s) => ValueView::String(s),
            None => ValueView::Null,
        }
    }

    /// The value of optional text: the text, or null where there is none.
    pub fn from_text(text: Option<String>) -> (value: Self)
        ensures
            value@ == Self::of_text(crate::text::opt_text(text)),
    {
        match text {
            Some(s) => Value::String(s),
            None => Value::Null,
        }
    }
}

} // verus!
