//! Patterns, in their role as atomic expression leaves.

use vstd::prelude::*;

use crate::diagnostics::Diagnostic;
use crate::id::Id;
use crate::literal::Literal;
use crate::object::ObjectKey;

verus! {

/// A rest pattern, `...id`.
#[derive(Debug, Clone)]
pub struct EclipsePattern {
    pub diag: Diagnostic,
    pub value: Id,
}

/// One element of an array pattern.
#[derive(Debug)]
pub enum ArrayPatternElem {
    EclipsePattern(EclipsePattern),
    Pattern(Pattern),
}

/// The elements of an array pattern.
#[derive(Debug)]
pub struct ArrayPatternBody {
    pub elems: Vec<ArrayPatternElem>,
}

/// An array pattern, `^[...]`.
#[derive(Debug)]
pub struct ArrayPattern {
    pub diag: Diagnostic,
    pub body: ArrayPatternBody,
}

/// A keyed element of an object pattern, with an optional sub-pattern.
#[derive(Debug)]
pub struct ObjectPatternKv {
    pub key: ObjectKey,
    pub value: Option<Box<Pattern>>,
}

/// One element of an object pattern.
#[derive(Debug)]
pub enum ObjectPatternElem {
    ObjectPatternKv(ObjectPatternKv),
    EclipsePattern(EclipsePattern),
}

/// The elements of an object pattern.
#[derive(Debug)]
pub struct ObjectPatternBody {
    pub body: Vec<ObjectPatternElem>,
}

/// An object pattern, `^{...}`.
#[derive(Debug)]
pub struct ObjectPattern {
    pub body: ObjectPatternBody,
}

/// Any pattern.
#[derive(Debug)]
pub enum Pattern {
    Id(Id),
    Literal(Literal),
    ArrayPattern(ArrayPattern),
    ObjectPattern(ObjectPattern),
}

} // verus!
