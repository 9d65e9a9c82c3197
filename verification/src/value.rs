//! The dynamically typed values that filters receive and return.

use vstd::prelude::*;

verus! {

/// A number held by a [`Value`].
#[derive(Clone, Copy, Debug, PartialEq, Eq)]
pub enum Number {
    /// A non-negative integer.
    PosInt(u64),
    /// A negative integer.
    NegInt(i64),
    /// Any other number, as the 64 bits of its IEEE 754 binary form.
    Real(u64),
}

/// A value of a template: one of six kinds, told apart by its variant.
#[derive(Debug, PartialEq, Eq)]
pub enum Value {
    /// The absent value.
    Null,
    /// A truth value.
    Bool(bool),
    /// A number.
    Number(Number),
    /// A text.
    String(String),
    /// A list of values.
    Array(Vec<Value>),
    /// Named values, as a list of pairs of a name and its value.
    Object(Vec<(String, Value)>),
}

/// What a [`Value`] holds, with texts as sequences of characters and lists
/// as sequences.
pub enum ValueView {
    /// The absent value.
    Null,
    /// A truth value.
    Bool(bool),
    /// A number.
    Number(Number),
    /// A text.
    String(Seq<char>),
    /// A list of values.
    Array(Seq<ValueView>),
    /// Named values, each name with its value.
    Object(Seq<(Seq<char>, ValueView)>),
}

impl View for Value {
    type V = ValueView;

    open spec fn view(&self) -> ValueView
        decreases self,
    {
        match self {
            Value::Null => ValueView::Null,
            Value::Bool(flag) => ValueView::Bool(*flag),
            Value::Number(number) => ValueView::Number(*number),
            Value::String(text) => ValueView::String(text@),
            Value::Array(items) => ValueView::Array(
                Seq::new(
                    items@.len(),
                    |i: int|
                        if 0 <= i < items@.len() {
                            items@[i].view()
                        } else {
                            ValueView::Null
                        },
                ),
            ),
            Value::Object(fields) => ValueView::Object(
                Seq::new(
                    fields@.len(),
                    |i: int|
                        if 0 <= i < fields@.len() {
                            (fields@[i].0@, fields@[i].1.view())
                        } else {
                            (Seq::empty(), ValueView::Null)
                        },
                ),
            ),
        }
    }
}

impl Value {
    /// The text of a string value; `None` for a value of any other kind.
    pub fn as_str(&self) -> (r: Option<&str>)
        ensures
            match self@ {
                ValueView::String(text) => r matches Some(s) && s@ == text,
                _ => r is None,
            },
    {
        match self {
            Value::String(s) => Some(s.as_str()),
            _ => None,
        }
    }

    /// Whether the value is a string.
    pub fn is_string(&self) -> (r: bool)
        ensures
            r == (self@ is String),
    {
        match self {
            Value::String(_) => true,
            _ => false,
        }
    }
}

/// Wraps a text as a string value.
pub fn to_value(text: String) -> (v: Value)
    ensures
        v@ == ValueView::String(text@),
{
    Value::String(text)
}

} // verus!
