//! Quoted sub-expressions: parenthesized expressions and blocks.

use vstd::prelude::*;

use crate::expr::Expr;

verus! {

/// A parenthesized sub-expression, `( e )`.
#[derive(Debug)]
pub struct ParenExpr {
    pub expr: Box<Expr>,
}

/// A block of expressions, `{ e1 e2 ... }`.
#[derive(Debug)]
pub struct Block {
    pub exprs: Vec<Expr>,
}

} // verus!
