//! Plain values exchanged with the embedded relational store.
//!
//! A fetched row is a `Vec<SqlValue>`, one entry per column; the same type
//! carries statement parameters. The store's dynamic typing is narrowed to
//! what the schema uses: text, integers and null. Anything else (the store
//! can hold reals and blobs) comes through as `Other` and is rejected by the
//! row decoders.

use vstd::prelude::*;

verus! {

/// One column value, as stored: text, integer, null, or a value of a kind the
/// schema never writes.
#[derive(Debug, Clone, PartialEq, Eq)]
pub enum SqlValue {
    Null,
    Int(i64),
    Text(String),
    Other,
}

impl SqlValue {
    /// The characters of a text value; the empty sequence on every other kind.
    pub open spec fn text(self) -> Seq<char> {
        match self {
            SqlValue::Text(s) => s@,
            _ => Seq::empty(),
        }
    }

    /// The integer of an `Int` value; `0` on every other kind.
    pub open spec fn int_value(self) -> int {
        match self {
            SqlValue::Int(i) => i as int,
            _ => 0,
        }
    }
}

} // verus!
