//! Custom scalars of the tracker's schema. Both travel as text.

use vstd::prelude::*;

verus! {

/// A point in time as the service writes it: RFC 3339 text with an offset.
/// Query variables may also hold a duration relative to the present, such
/// as `-P4D`.
#[derive(Debug, Clone, PartialEq, Eq)]
pub struct DateTime(pub String);

impl View for DateTime {
    type V = Seq<char>;

    open spec fn view(&self) -> Seq<char> {
        self.0@
    }
}

/// A JSON object carried as its source text.
#[derive(Debug, Clone, PartialEq, Eq)]
pub struct Jsonobject(pub String);

impl View for Jsonobject {
    type V = Seq<char>;

    open spec fn view(&self) -> Seq<char> {
        self.0@
    }
}

} // verus!
