//! The typed expression tree.
//!
//! An `Expr` owns its `ExprInner` exclusively; children are owned by their
//! parent, so the tree has no sharing and no cycles.  Every node carries the
//! diagnostic extent it covers.  The `is_finished` predicate states the
//! central structural invariant: a finished tree contains no ephemeral
//! `CAppParams` or `MlAppParam` postfix anywhere.

use vstd::prelude::*;

use crate::diagnostics::Diagnostic;
use crate::function::{LambdaExpr, TrLambda, NoParamLambdaExpr};
use crate::id::Id;
use crate::infix::Infix;
use crate::literal::{CompoundLiteral, Literal};
use crate::object::{ObjectBody, ObjectElemKv};
use crate::pattern::Pattern;
use crate::postfix::{Postfix, Trinary, Slice, Index, Access, CAppParams, CParamsBody, MlAppParam};
use crate::prefix::Prefix;
use crate::quotations::{Block, ParenExpr};

verus! {

broadcast use vstd::std_specs::vec::axiom_vec_index_decreases;

/// An atomic expression leaf.
#[derive(Debug)]
pub enum Primary {
    Block(Block),
    LambdaExpr(LambdaExpr),
    ParenExpr(ParenExpr),
    CompoundLiteral(CompoundLiteral),
    Id(Id),
    Pattern(Pattern),
}

/// A typed expression node with its source extent.
///
/// Equality of expressions is structural on `inner` only (see
/// `equality::expr_eq`): trees of equal shape built from different source
/// spans compare equal.
#[derive(Debug)]
pub struct Expr {
    pub inner: ExprInner,
    pub diag: Diagnostic,
}

/// The variants of an expression node.
#[derive(Debug)]
pub enum ExprInner {
    Prefix(Prefix, Box<Expr>),
    Primary(Primary),
    Postfix(Postfix, Box<Expr>),
    Infix(Infix, Box<Expr>, Box<Expr>),
    /// Call-style application; arity explicit from the source.
    CApply(Box<Expr>, Vec<Expr>),
    /// Juxtaposition application; arity discovered by normalization.
    MLApply(Box<Expr>, Vec<Expr>),
}

impl Expr {
    /// Wraps an operand in a prefix operator.
    #[allow(non_snake_case)]
    pub fn Prefix(prefix: Prefix, expr: Box<Expr>, diag: Diagnostic) -> (r: Self)
        ensures
            r == (Expr { inner: ExprInner::Prefix(prefix, expr), diag }),
    {
        Expr { inner: ExprInner::Prefix(prefix, expr), diag }
    }

    /// Wraps an operand in a postfix operator.
    #[allow(non_snake_case)]
    pub fn Postfix(postfix: Postfix, expr: Box<Expr>, diag: Diagnostic) -> (r: Self)
        ensures
            r == (Expr { inner: ExprInner::Postfix(postfix, expr), diag }),
    {
        Expr { inner: ExprInner::Postfix(postfix, expr), diag }
    }

    /// Combines two operands under an infix operator.
    #[allow(non_snake_case)]
    pub fn Infix(infix: Infix, lhs: Box<Expr>, rhs: Box<Expr>, diag: Diagnostic) -> (r: Self)
        ensures
            r == (Expr { inner: ExprInner::Infix(infix, lhs, rhs), diag }),
    {
        Expr { inner: ExprInner::Infix(infix, lhs, rhs), diag }
    }

    /// A call-style application node.
    #[allow(non_snake_case)]
    pub fn CApply(expr: Box<Expr>, params: Vec<Expr>, diag: Diagnostic) -> (r: Self)
        ensures
            r == (Expr { inner: ExprInner::CApply(expr, params), diag }),
    {
        Expr { inner: ExprInner::CApply(expr, params), diag }
    }

    /// A juxtaposition application node.
    #[allow(non_snake_case)]
    pub fn MLApply(expr: Box<Expr>, params: Vec<Expr>, diag: Diagnostic) -> (r: Self)
        ensures
            r == (Expr { inner: ExprInner::MLApply(expr, params), diag }),
    {
        Expr { inner: ExprInner::MLApply(expr, params), diag }
    }

    /// A leaf node.
    #[allow(non_snake_case)]
    pub fn Primary(primary: Primary, diag: Diagnostic) -> (r: Self)
        ensures
            r == (Expr { inner: ExprInner::Primary(primary), diag }),
    {
        Expr { inner: ExprInner::Primary(primary), diag }
    }
}

/// The structural invariant of a finished tree: no node anywhere is the
/// ephemeral `CAppParams` or `MlAppParam` postfix.
pub open spec fn is_finished(e: Expr) -> bool
    decreases e,
{
    match e.inner {
        ExprInner::Prefix(p, operand) => prefix_finished(p) && is_finished(*operand),
        ExprInner::Primary(p) => primary_finished(p),
        ExprInner::Postfix(p, operand) => postfix_finished(p) && is_finished(*operand),
        ExprInner::Infix(_, lhs, rhs) => is_finished(*lhs) && is_finished(*rhs),
        ExprInner::CApply(callee, args) => is_finished(*callee) && (forall|i: int|
            0 <= i < args@.len() ==> is_finished(#[trigger] args@[i])),
        ExprInner::MLApply(callee, args) => is_finished(*callee) && (forall|i: int|
            0 <= i < args@.len() ==> is_finished(#[trigger] args@[i])),
    }
}

/// Finishedness of a prefix operator's own payload.
pub open spec fn prefix_finished(p: Prefix) -> bool
    decreases p,
{
    match p {
        Prefix::AnnotativeMacroCall(_, arg) => match arg {
            Some(e) => is_finished(*e),
            None => true,
        },
        _ => true,
    }
}

/// Finishedness of a postfix operator's own payload.  The two ephemeral
/// variants are never finished: that is the invariant itself.
pub open spec fn postfix_finished(p: Postfix) -> bool
    decreases p,
{
    match p {
        Postfix::Trinary(t) => is_finished(*t.true_expr) && is_finished(*t.false_expr),
        Postfix::Slice(s) => opt_finished(s.start) && opt_finished(s.end) && opt_finished(s.step),
        Postfix::Index(ix) => is_finished(*ix.postfix_index),
        Postfix::Access(_) => true,
        Postfix::CAppParams(_) => false,
        Postfix::MlAppParam(_) => false,
    }
}

/// Finishedness of an optional boxed sub-expression.
pub open spec fn opt_finished(o: Option<Box<Expr>>) -> bool
    decreases o,
{
    match o {
        Some(e) => is_finished(*e),
        None => true,
    }
}

/// Finishedness of a leaf.  Leaves embed sub-expressions in parentheses,
/// blocks, lambdas, compound literals and object values; all of them must be
/// finished too.
pub open spec fn primary_finished(p: Primary) -> bool
    decreases p,
{
    match p {
        Primary::Block(b) => block_finished(b),
        Primary::LambdaExpr(l) => lambda_finished(l),
        Primary::ParenExpr(pe) => is_finished(*pe.expr),
        Primary::CompoundLiteral(c) => compound_finished(c),
        Primary::Id(_) => true,
        Primary::Pattern(_) => true,
    }
}

/// Finishedness of a block's expressions.
pub open spec fn block_finished(b: Block) -> bool
    decreases b,
{
    forall|i: int| 0 <= i < b.exprs@.len() ==> is_finished(#[trigger] b.exprs@[i])
}

/// Finishedness of a lambda's guard and body.
pub open spec fn lambda_finished(l: LambdaExpr) -> bool
    decreases l,
{
    match l {
        LambdaExpr::TrLambda(t) => tr_lambda_finished(t),
        LambdaExpr::NoParamLambdaExpr(n) => no_param_lambda_finished(n),
    }
}

/// Finishedness of a pattern lambda.
pub open spec fn tr_lambda_finished(t: TrLambda) -> bool
    decreases t,
{
    &&& match t.guard {
        Some(g) => is_finished(*g.expr),
        None => true,
    }
    &&& is_finished(*t.body)
}

/// Finishedness of a parameterless lambda.
pub open spec fn no_param_lambda_finished(n: NoParamLambdaExpr) -> bool
    decreases n,
{
    forall|i: int| 0 <= i < n.body@.len() ==> is_finished(#[trigger] n.body@[i])
}

/// Finishedness of a compound literal's element expressions.
pub open spec fn compound_finished(c: CompoundLiteral) -> bool
    decreases c,
{
    match c {
        CompoundLiteral::ArrayLiteral(a) => forall|i: int|
            0 <= i < a.elems@.len() ==> is_finished(#[trigger] a.elems@[i]),
        CompoundLiteral::ObjectLiteral(o) => forall|i: int|
            0 <= i < o.body@.len() ==> elem_kv_finished(#[trigger] o.body@[i]),
        CompoundLiteral::Literal(_) => true,
    }
}

/// Finishedness of one object element's optional value.
pub open spec fn elem_kv_finished(kv: ObjectElemKv) -> bool
    decreases kv,
{
    match kv.value {
        Some(e) => is_finished(e),
        None => true,
    }
}


} // verus!
