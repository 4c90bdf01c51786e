//! Object literals: keyed elements whose values are optional expressions.

use vstd::prelude::*;

use crate::expr::Expr;
use crate::id::Id;
use crate::strings::SapString;

verus! {

/// A key of an object element: an identifier or a string.
#[derive(Debug, Clone)]
pub enum ObjectKey {
    Id(Id),
    String(SapString),
}

impl ObjectKey {
    /// The key's text, whichever kind it is.
    pub open spec fn value_spec(&self) -> Seq<char> {
        match self {
            ObjectKey::Id(id) => id.value_spec(),
            ObjectKey::String(string) => string.value_spec(),
        }
    }

    /// The key's text, whichever kind it is.
    pub fn value(&self) -> (r: String)
        ensures
            r@ == self.value_spec(),
    {
        match self {
            ObjectKey::Id(id) => id.value(),
            ObjectKey::String(string) => string.value(),
        }
    }
}

/// One element of an object literal: a key with an optional value.
#[derive(Debug)]
pub struct ObjectElemKv {
    pub key: ObjectKey,
    pub value: Option<Expr>,
}

/// The elements of an object literal.
#[derive(Debug)]
pub struct ObjectBody {
    pub body: Vec<ObjectElemKv>,
}

} // verus!
