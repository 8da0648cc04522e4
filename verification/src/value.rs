//! Values that cross the invocation channel.

use vstd::prelude::*;
use vstd::string::*;

verus! {

/// The mathematical content of a [`Value`].
pub ghost enum ValueView {
    Unit,
    Bool(bool),
    Int(i64),
    Text(Seq<char>),
}

/// An argument or a payload. `Unit` is what a command without a meaningful
/// result answers with.
#[derive(Debug, PartialEq, Eq)]
pub enum Value {
    Unit,
    Bool(bool),
    Int(i64),
    Text(String),
}

impl View for Value {
    type V = ValueView;

    open spec fn view(&self) -> ValueView {
        match self {
            Value::Unit => ValueView::Unit,
            Value::Bool(b) => ValueView::Bool(*b),
            Value::Int(n) => ValueView::Int(*n),
            Value::Text(s) => ValueView::Text(s@),
        }
    }
}

impl Clone for Value {
    fn clone(&self) -> (copy: Self)
        ensures
            copy@ == self@,
    {
        match self {
            Value::Unit => Value::Unit,
            Value::Bool(b) => Value::Bool(*b),
            Value::Int(n) => Value::Int(*n),
            Value::Text(s) => Value::Text(s.clone()),
        }
    }
}

impl Value {
    pub fn text(s: &str) -> (v: Value)
        ensures
            v@ == ValueView::Text(s@),
    {
        Value::Text(String::from_str(s))
    }

    /// The text held, if this is a text value.
    pub fn as_text(&self) -> (t: Option<&String>)
        ensures
            match self@ {
                ValueView::Text(s) => t.is_some() && t.unwrap()@ == s,
                _ => t.is_none(),
            },
    {
        match self {
            Value::Text(s) => Some(s),
            _ => None,
        }
    }
}

} // verus!
