//! Literal leaves: booleans, the void literal `()`, strings, numbers, and
//! the compound array/object literals.

use vstd::prelude::*;

use crate::diagnostics::Diagnostic;
use crate::expr::Expr;
use crate::number::SapNumber;
use crate::object::ObjectBody;
use crate::strings::SapString;

verus! {

/// A boolean literal.
#[derive(Debug, Clone, PartialEq)]
pub struct Boolean {
    pub value: bool,
}

/// The void literal, `()`.
#[derive(Debug, Clone, PartialEq)]
pub struct Void;

/// Any simple literal.
#[derive(Debug, Clone, PartialEq)]
pub enum Literal {
    Boolean(Boolean),
    Void(Void),
    String(SapString),
    Number(SapNumber),
}

/// The elements of an array literal, with the extent they cover.
#[derive(Debug)]
pub struct ArrayBody {
    pub diag: Diagnostic,
    pub elems: Vec<Expr>,
}

/// A literal, possibly compound.
#[derive(Debug)]
pub enum CompoundLiteral {
    ArrayLiteral(ArrayBody),
    ObjectLiteral(ObjectBody),
    Literal(Literal),
}

} // verus!
