//! Postfix operators.  `CAppParams` and `MlAppParam` are ephemeral: they
//! exist only between the climbing step that recognizes them and the
//! normalization pass that rewrites them into `CApply`/`MLApply`; a finished
//! tree never contains either.

use vstd::prelude::*;

use crate::expr::Expr;
use crate::id::Id;

verus! {

/// The argument list of a call-style application, `(a, b, c)`.
#[derive(Debug)]
pub struct CParamsBody(pub Vec<Expr>);

/// A call-style parameter postfix; `None` is an empty parameter list `()`.
#[derive(Debug)]
pub struct CAppParams(pub Option<CParamsBody>);

/// An index postfix, `[e]`.
#[derive(Debug)]
pub struct Index {
    pub postfix_index: Box<Expr>,
}

/// A slice postfix, `[start : end : step]`, each part optional.
#[derive(Debug)]
pub struct Slice {
    pub start: Option<Box<Expr>>,
    pub end: Option<Box<Expr>>,
    pub step: Option<Box<Expr>>,
}

/// A juxtaposition-application postfix holding the one argument the grammar
/// captured.
#[derive(Debug)]
pub struct MlAppParam(pub Box<Expr>);

/// A member-access postfix, `.id`.
#[derive(Debug)]
pub struct Access {
    pub id: Id,
}

/// A ternary postfix, `? true_expr : false_expr`.
#[derive(Debug)]
pub struct Trinary {
    pub true_expr: Box<Expr>,
    pub false_expr: Box<Expr>,
}

/// A classified postfix operator.
#[derive(Debug)]
pub enum Postfix {
    Trinary(Trinary),
    Slice(Slice),
    Index(Index),
    Access(Access),
    /// Ephemeral: never present in a finished tree.
    CAppParams(CAppParams),
    /// Ephemeral: never present in a finished tree.
    MlAppParam(MlAppParam),
}

} // verus!
