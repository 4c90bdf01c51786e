//! Lambda expressions: pattern lambdas with optional implicit parameters and
//! guards, and parameterless lambdas.

use vstd::prelude::*;

use crate::expr::Expr;
use crate::id::Id;
use crate::pattern::Pattern;

verus! {

/// The implicit parameters of a lambda.
#[derive(Debug)]
pub struct ImplicitParams {
    pub params: Vec<Id>,
}

/// A guard expression on a lambda clause.
#[derive(Debug)]
pub struct Guard {
    pub expr: Box<Expr>,
}

/// A lambda with patterns, optional implicit parameters and an optional
/// guard.
#[derive(Debug)]
pub struct TrLambda {
    pub patterns: Vec<Pattern>,
    pub implicit_params: Option<ImplicitParams>,
    pub guard: Option<Guard>,
    pub body: Box<Expr>,
}

/// A lambda without parameters.
#[derive(Debug)]
pub struct NoParamLambdaExpr {
    pub body: Vec<Expr>,
}

/// Any lambda expression.
#[derive(Debug)]
pub enum LambdaExpr {
    TrLambda(TrLambda),
    NoParamLambdaExpr(NoParamLambdaExpr),
}

} // verus!
