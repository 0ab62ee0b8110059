//! Argument and result values carried across the command bridge.
//!
//! Invocations hand the bridge a sequence of JSON-like values, and a
//! successful response carries one back. `Value` is the executable
//! representation; `ValueModel` is its mathematical counterpart, used by
//! every contract.

use vstd::prelude::*;

verus! {

/// Mathematical model of a bridge value: integers are unbounded, text is a
/// sequence of characters.
pub enum ValueModel {
    Null,
    Bool(bool),
    Int(int),
    Text(Seq<char>),
}

/// A JSON-like value, the unit of data exchanged across the bridge.
#[derive(Debug)]
pub enum Value {
    Null,
    Bool(bool),
    Int(i64),
    Text(String),
}

impl View for Value {
    type V = ValueModel;

    open spec fn view(&self) -> ValueModel {
        match self {
            Value::Null => ValueModel::Null,
            Value::Bool(b) => ValueModel::Bool(*b),
            Value::Int(i) => ValueModel::Int(*i as int),
            Value::Text(s) => ValueModel::Text(s@),
        }
    }
}

} // verus!
