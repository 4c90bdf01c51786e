//! Source-span model: every syntax node carries a `Diagnostic` recording the
//! exact source extent (line, column, byte offset) it covers.
//!
//! Diagnostics are immutable value types: a synthesized node's span is built
//! by replacing one boundary of an existing span (`set_start_as`,
//! `set_end_as`), never by mutation in place.

use vstd::prelude::*;

verus! {

/// The exact source extent covered by a syntax node.
///
/// A reserved "test" diagnostic (all fields zero, in particular
/// `end_offset == 0`) compares equal to any diagnostic; it is meant for test
/// fixtures only and never appears in trees built by the parser.
#[derive(Debug, Clone, Copy)]
pub struct Diagnostic {
    pub start_line: usize,
    pub start_col: usize,
    pub start_offset: usize,

    pub end_line: usize,
    pub end_col: usize,
    pub end_offset: usize,
}

impl Diagnostic {
    /// What equality on diagnostics means: either side with a zero end
    /// offset is the reserved test diagnostic and matches anything;
    /// otherwise all six fields must agree.
    pub open spec fn eq_diag(self, other: Self) -> bool {
        if self.end_offset == 0 || other.end_offset == 0 {
            true
        } else {
            &&& self.start_line == other.start_line
            &&& self.start_col == other.start_col
            &&& self.start_offset == other.start_offset
            &&& self.end_line == other.end_line
            &&& self.end_col == other.end_col
            &&& self.end_offset == other.end_offset
        }
    }

    /// A new diagnostic whose start boundary is taken from `other` and whose
    /// end boundary is kept from `self`.
    pub fn set_start_as(self, other: &Self) -> (r: Self)
        ensures
            r.start_line == other.start_line,
            r.start_col == other.start_col,
            r.start_offset == other.start_offset,
            r.end_line == self.end_line,
            r.end_col == self.end_col,
            r.end_offset == self.end_offset,
    {
        Self {
            start_line: other.start_line,
            start_col: other.start_col,
            start_offset: other.start_offset,
            end_line: self.end_line,
            end_col: self.end_col,
            end_offset: self.end_offset,
        }
    }

    /// A new diagnostic whose end boundary is taken from `other` and whose
    /// start boundary is kept from `self`.
    pub fn set_end_as(self, other: &Self) -> (r: Self)
        ensures
            r.start_line == self.start_line,
            r.start_col == self.start_col,
            r.start_offset == self.start_offset,
            r.end_line == other.end_line,
            r.end_col == other.end_col,
            r.end_offset == other.end_offset,
    {
        Self {
            start_line: self.start_line,
            start_col: self.start_col,
            start_offset: self.start_offset,
            end_line: other.end_line,
            end_col: other.end_col,
            end_offset: other.end_offset,
        }
    }

    /// The reserved test diagnostic: all fields zero.  It compares equal to
    /// every diagnostic and is used only in test fixtures.
    pub fn test() -> (r: Self)
        ensures
            r.start_line == 0,
            r.start_col == 0,
            r.start_offset == 0,
            r.end_line == 0,
            r.end_col == 0,
            r.end_offset == 0,
    {
        Diagnostic {
            start_line: 0,
            start_col: 0,
            start_offset: 0,
            end_line: 0,
            end_col: 0,
            end_offset: 0,
        }
    }
}

impl PartialEq for Diagnostic {
    fn eq(&self, other: &Self) -> (r: bool)
        ensures
            r == self.eq_diag(*other),
    {
        if self.end_offset == 0 || other.end_offset == 0 {
            true
        } else {
            self.start_line == other.start_line && self.start_col == other.start_col
                && self.start_offset == other.start_offset && self.end_line == other.end_line
                && self.end_col == other.end_col && self.end_offset == other.end_offset
        }
    }
}

impl vstd::std_specs::cmp::PartialEqSpecImpl for Diagnostic {
    open spec fn obeys_eq_spec() -> bool {
        true
    }

    open spec fn eq_spec(&self, other: &Diagnostic) -> bool {
        self.eq_diag(*other)
    }
}

} // verus!
