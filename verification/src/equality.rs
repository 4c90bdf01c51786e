//! Structural equality of syntax trees.
//!
//! Expression equality ignores the diagnostics carried by `Expr` nodes, so
//! trees of equal shape built from different source spans compare equal.
//! Types that embed a diagnostic of their own (array bodies, patterns)
//! compare it under the test-diagnostic wildcard rule of `Diagnostic`.
//! String literals compare by their decoded text, and integer literals by
//! their value, whichever radix they were written in.

use vstd::prelude::*;

use crate::expr::{Expr, ExprInner, Primary};
use crate::function::{LambdaExpr, TrLambda, NoParamLambdaExpr, ImplicitParams, Guard};
use crate::id::Id;
use crate::infix::Infix;
use crate::literal::{ArrayBody, Boolean, CompoundLiteral, Literal, Void};
use crate::object::{ObjectBody, ObjectElemKv, ObjectKey};
use crate::number::SapNumber;
use crate::pattern::{
    ArrayPattern,
    ArrayPatternBody,
    ArrayPatternElem,
    EclipsePattern,
    ObjectPattern,
    ObjectPatternBody,
    ObjectPatternElem,
    ObjectPatternKv,
    Pattern,
};
use crate::postfix::Postfix;
use crate::prefix::Prefix;
use crate::quotations::{Block, ParenExpr};
use crate::strings::SapString;

verus! {

broadcast use vstd::std_specs::vec::axiom_vec_index_decreases;

/// Structural equality of expressions: shapes and leaf values must agree;
/// the diagnostics of the two nodes are ignored.
pub open spec fn spec_expr_eq(a: Expr, b: Expr) -> bool
    decreases a,
{
    spec_inner_eq(a.inner, b.inner)
}

/// Structural equality of expression variants.
pub open spec fn spec_inner_eq(a: ExprInner, b: ExprInner) -> bool
    decreases a,
{
    match (a, b) {
        (ExprInner::Prefix(p1, e1), ExprInner::Prefix(p2, e2)) => spec_prefix_eq(p1, p2)
            && spec_expr_eq(*e1, *e2),
        (ExprInner::Primary(p1), ExprInner::Primary(p2)) => spec_primary_eq(p1, p2),
        (ExprInner::Postfix(p1, e1), ExprInner::Postfix(p2, e2)) => spec_postfix_eq(p1, p2)
            && spec_expr_eq(*e1, *e2),
        (ExprInner::Infix(i1, l1, r1), ExprInner::Infix(i2, l2, r2)) => spec_infix_eq(i1, i2)
            && spec_expr_eq(*l1, *l2) && spec_expr_eq(*r1, *r2),
        (ExprInner::CApply(c1, a1), ExprInner::CApply(c2, a2)) => spec_expr_eq(*c1, *c2)
            && spec_exprs_eq(a1, a2),
        (ExprInner::MLApply(c1, a1), ExprInner::MLApply(c2, a2)) => spec_expr_eq(*c1, *c2)
            && spec_exprs_eq(a1, a2),
        _ => false,
    }
}

/// Pointwise structural equality of expression lists.
pub open spec fn spec_exprs_eq(a: Vec<Expr>, b: Vec<Expr>) -> bool
    decreases a,
{
    a@.len() == b@.len() && (forall|i: int|
        0 <= i < a@.len() ==> spec_expr_eq(#[trigger] a@[i], b@[i]))
}

/// Equality of optional boxed expressions.
pub open spec fn spec_opt_expr_eq(a: Option<Box<Expr>>, b: Option<Box<Expr>>) -> bool
    decreases a,
{
    match (a, b) {
        (None, None) => true,
        (Some(e1), Some(e2)) => spec_expr_eq(*e1, *e2),
        _ => false,
    }
}

/// Equality of prefix operators.
pub open spec fn spec_prefix_eq(a: Prefix, b: Prefix) -> bool
    decreases a,
{
    match (a, b) {
        (Prefix::Not, Prefix::Not) => true,
        (Prefix::BitNot, Prefix::BitNot) => true,
        (Prefix::Neg, Prefix::Neg) => true,
        (Prefix::Yield, Prefix::Yield) => true,
        (
            Prefix::AnnotativeMacroCall(m1, o1),
            Prefix::AnnotativeMacroCall(m2, o2),
        ) => m1.value@ == m2.value@ && spec_opt_expr_eq(o1, o2),
        _ => false,
    }
}

/// Equality of postfix operators.
pub open spec fn spec_postfix_eq(a: Postfix, b: Postfix) -> bool
    decreases a,
{
    match (a, b) {
        (Postfix::Trinary(t1), Postfix::Trinary(t2)) => spec_expr_eq(*t1.true_expr, *t2.true_expr)
            && spec_expr_eq(*t1.false_expr, *t2.false_expr),
        (Postfix::Slice(s1), Postfix::Slice(s2)) => spec_opt_expr_eq(s1.start, s2.start)
            && spec_opt_expr_eq(s1.end, s2.end) && spec_opt_expr_eq(s1.step, s2.step),
        (Postfix::Index(i1), Postfix::Index(i2)) => spec_expr_eq(
            *i1.postfix_index,
            *i2.postfix_index,
        ),
        (Postfix::Access(a1), Postfix::Access(a2)) => spec_id_eq(a1.id, a2.id),
        (Postfix::CAppParams(c1), Postfix::CAppParams(c2)) => match (c1.0, c2.0) {
            (None, None) => true,
            (Some(b1), Some(b2)) => spec_exprs_eq(b1.0, b2.0),
            _ => false,
        },
        (Postfix::MlAppParam(m1), Postfix::MlAppParam(m2)) => spec_expr_eq(*m1.0, *m2.0),
        _ => false,
    }
}

/// Equality of identifiers: same kind, same text.
pub open spec fn spec_id_eq(a: Id, b: Id) -> bool {
    match (a, b) {
        (Id::NormalId(n1), Id::NormalId(n2)) => n1.value@ == n2.value@,
        (Id::MacroId(m1), Id::MacroId(m2)) => m1.value@ == m2.value@,
        (Id::MagicFnId(g1), Id::MagicFnId(g2)) => g1.value@ == g2.value@,
        _ => false,
    }
}

/// Equality of infix operators.
pub open spec fn spec_infix_eq(a: Infix, b: Infix) -> bool {
    match (a, b) {
        (Infix::Add, Infix::Add) => true,
        (Infix::AssignYield, Infix::AssignYield) => true,
        (Infix::Sub, Infix::Sub) => true,
        (Infix::Mul, Infix::Mul) => true,
        (Infix::Div, Infix::Div) => true,
        (Infix::Mod, Infix::Mod) => true,
        (Infix::Eq, Infix::Eq) => true,
        (Infix::Neq, Infix::Neq) => true,
        (Infix::Extends, Infix::Extends) => true,
        (Infix::Le, Infix::Le) => true,
        (Infix::Ge, Infix::Ge) => true,
        (Infix::Lt, Infix::Lt) => true,
        (Infix::Gt, Infix::Gt) => true,
        (Infix::And, Infix::And) => true,
        (Infix::Pipe, Infix::Pipe) => true,
        (Infix::FindAndCallWithThis, Infix::FindAndCallWithThis) => true,
        (Infix::Or, Infix::Or) => true,
        (Infix::BitOr, Infix::BitOr) => true,
        (Infix::BitAnd, Infix::BitAnd) => true,
        (Infix::BitXor, Infix::BitXor) => true,
        (Infix::BitShiftL, Infix::BitShiftL) => true,
        (Infix::BitShiftR, Infix::BitShiftR) => true,
        (Infix::Function(i1), Infix::Function(i2)) => spec_id_eq(i1, i2),
        (Infix::Assign, Infix::Assign) => true,
        (Infix::MatchEquals, Infix::MatchEquals) => true,
        (Infix::AssignSlot, Infix::AssignSlot) => true,
        _ => false,
    }
}

/// Equality of leaves.
pub open spec fn spec_primary_eq(a: Primary, b: Primary) -> bool
    decreases a,
{
    match (a, b) {
        (Primary::Block(b1), Primary::Block(b2)) => spec_exprs_eq(b1.exprs, b2.exprs),
        (Primary::LambdaExpr(l1), Primary::LambdaExpr(l2)) => spec_lambda_eq(l1, l2),
        (Primary::ParenExpr(p1), Primary::ParenExpr(p2)) => spec_expr_eq(*p1.expr, *p2.expr),
        (Primary::CompoundLiteral(c1), Primary::CompoundLiteral(c2)) => spec_compound_eq(c1, c2),
        (Primary::Id(i1), Primary::Id(i2)) => spec_id_eq(i1, i2),
        (Primary::Pattern(p1), Primary::Pattern(p2)) => spec_pattern_eq(p1, p2),
        _ => false,
    }
}

/// Equality of lambdas.
pub open spec fn spec_lambda_eq(a: LambdaExpr, b: LambdaExpr) -> bool
    decreases a,
{
    match (a, b) {
        (LambdaExpr::TrLambda(t1), LambdaExpr::TrLambda(t2)) => spec_tr_lambda_eq(t1, t2),
        (
            LambdaExpr::NoParamLambdaExpr(n1),
            LambdaExpr::NoParamLambdaExpr(n2),
        ) => spec_exprs_eq(n1.body, n2.body),
        _ => false,
    }
}

/// Equality of pattern lambdas.
pub open spec fn spec_tr_lambda_eq(a: TrLambda, b: TrLambda) -> bool
    decreases a,
{
    &&& spec_patterns_eq(a.patterns, b.patterns)
    &&& match (a.implicit_params, b.implicit_params) {
        (None, None) => true,
        (Some(p1), Some(p2)) => spec_ids_eq(p1.params, p2.params),
        _ => false,
    }
    &&& match (a.guard, b.guard) {
        (None, None) => true,
        (Some(g1), Some(g2)) => spec_expr_eq(*g1.expr, *g2.expr),
        _ => false,
    }
    &&& spec_expr_eq(*a.body, *b.body)
}

/// Pointwise equality of identifier lists.
pub open spec fn spec_ids_eq(a: Vec<Id>, b: Vec<Id>) -> bool {
    a@.len() == b@.len() && (forall|i: int| 0 <= i < a@.len() ==> spec_id_eq(#[trigger] a@[i], b@[i]))
}

/// Equality of compound literals.
pub open spec fn spec_compound_eq(a: CompoundLiteral, b: CompoundLiteral) -> bool
    decreases a,
{
    match (a, b) {
        (CompoundLiteral::ArrayLiteral(a1), CompoundLiteral::ArrayLiteral(a2)) => a1.diag.eq_diag(
            a2.diag,
        ) && spec_exprs_eq(a1.elems, a2.elems),
        (CompoundLiteral::ObjectLiteral(o1), CompoundLiteral::ObjectLiteral(o2)) => spec_object_body_eq(
            o1,
            o2,
        ),
        (CompoundLiteral::Literal(l1), CompoundLiteral::Literal(l2)) => spec_literal_eq(l1, l2),
        _ => false,
    }
}

/// Equality of object literal bodies.
pub open spec fn spec_object_body_eq(a: ObjectBody, b: ObjectBody) -> bool
    decreases a,
{
    a.body@.len() == b.body@.len() && (forall|i: int|
        0 <= i < a.body@.len() ==> spec_elem_kv_eq(#[trigger] a.body@[i], b.body@[i]))
}

/// Equality of one object element.
pub open spec fn spec_elem_kv_eq(a: ObjectElemKv, b: ObjectElemKv) -> bool
    decreases a,
{
    &&& spec_object_key_eq(a.key, b.key)
    &&& match (a.value, b.value) {
        (None, None) => true,
        (Some(e1), Some(e2)) => spec_expr_eq(e1, e2),
        _ => false,
    }
}

/// Equality of object keys: an identifier and a string key never compare
/// equal, strings compare by decoded text.
pub open spec fn spec_object_key_eq(a: ObjectKey, b: ObjectKey) -> bool {
    match (a, b) {
        (ObjectKey::Id(i1), ObjectKey::Id(i2)) => spec_id_eq(i1, i2),
        (ObjectKey::String(s1), ObjectKey::String(s2)) => spec_sap_string_eq(s1, s2),
        _ => false,
    }
}

/// Equality of simple literals.
pub open spec fn spec_literal_eq(a: Literal, b: Literal) -> bool {
    match (a, b) {
        (Literal::Boolean(b1), Literal::Boolean(b2)) => b1.value == b2.value,
        (Literal::Void(_), Literal::Void(_)) => true,
        (Literal::String(s1), Literal::String(s2)) => spec_sap_string_eq(s1, s2),
        (Literal::Number(n1), Literal::Number(n2)) => spec_number_eq(n1, n2),
        _ => false,
    }
}

/// Strings compare by their text: a normal string equals another whose
/// joined fragments spell the same characters, raw strings by their body; a
/// raw and a normal string never compare equal.
pub open spec fn spec_sap_string_eq(a: SapString, b: SapString) -> bool {
    match (a, b) {
        (SapString::NormalString(_), SapString::NormalString(_)) => a.value_spec() == b.value_spec(),
        (SapString::RawString(_), SapString::RawString(_)) => a.value_spec() == b.value_spec(),
        _ => false,
    }
}

/// Numbers compare by value for integers, whichever radix they were written
/// in, and componentwise for floats; an integer and a float never compare
/// equal.
pub open spec fn spec_number_eq(a: SapNumber, b: SapNumber) -> bool {
    match (a, b) {
        (SapNumber::Int(i1), SapNumber::Int(i2)) => i1.value_spec() == i2.value_spec(),
        (SapNumber::Float(f1), SapNumber::Float(f2)) => spec_float_eq(f1, f2),
        _ => false,
    }
}

/// Componentwise equality of float literals.
pub open spec fn spec_float_eq(a: crate::number::Float, b: crate::number::Float) -> bool {
    match (a, b) {
        (crate::number::Float::Float1(f1), crate::number::Float::Float1(f2)) => f1.value.value_spec()
            == f2.value.value_spec() && f1.exponent_part.value == f2.exponent_part.value,
        (crate::number::Float::Float2(f1), crate::number::Float::Float2(f2)) => f1.value.value_spec()
            == f2.value.value_spec() && f1.sub.value_spec() == f2.sub.value_spec()
            && spec_exp_eq(f1.exponent_part, f2.exponent_part),
        (crate::number::Float::Float3(f1), crate::number::Float::Float3(f2)) => f1.sub.value_spec()
            == f2.sub.value_spec() && spec_exp_eq(f1.exponent_part, f2.exponent_part),
        _ => false,
    }
}

/// Equality of optional exponent parts.
pub open spec fn spec_exp_eq(
    a: Option<crate::number::ExponentPart>,
    b: Option<crate::number::ExponentPart>,
) -> bool {
    match (a, b) {
        (None, None) => true,
        (Some(e1), Some(e2)) => e1.value == e2.value,
        _ => false,
    }
}

/// Equality of patterns.
pub open spec fn spec_pattern_eq(a: Pattern, b: Pattern) -> bool
    decreases a,
{
    match (a, b) {
        (Pattern::Id(i1), Pattern::Id(i2)) => spec_id_eq(i1, i2),
        (Pattern::Literal(l1), Pattern::Literal(l2)) => spec_literal_eq(l1, l2),
        (Pattern::ArrayPattern(a1), Pattern::ArrayPattern(a2)) => a1.diag.eq_diag(a2.diag)
            && spec_array_pattern_body_eq(a1.body, a2.body),
        (Pattern::ObjectPattern(o1), Pattern::ObjectPattern(o2)) => spec_object_pattern_body_eq(
            o1.body,
            o2.body,
        ),
        _ => false,
    }
}

/// Pointwise equality of pattern lists.
pub open spec fn spec_patterns_eq(a: Vec<Pattern>, b: Vec<Pattern>) -> bool
    decreases a,
{
    a@.len() == b@.len() && (forall|i: int|
        0 <= i < a@.len() ==> spec_pattern_eq(#[trigger] a@[i], b@[i]))
}

/// Equality of array pattern bodies.
pub open spec fn spec_array_pattern_body_eq(a: ArrayPatternBody, b: ArrayPatternBody) -> bool
    decreases a,
{
    a.elems@.len() == b.elems@.len() && (forall|i: int|
        0 <= i < a.elems@.len() ==> spec_array_pattern_elem_eq(#[trigger] a.elems@[i], b.elems@[i]))
}

/// Equality of one array pattern element.
pub open spec fn spec_array_pattern_elem_eq(a: ArrayPatternElem, b: ArrayPatternElem) -> bool
    decreases a,
{
    match (a, b) {
        (
            ArrayPatternElem::EclipsePattern(e1),
            ArrayPatternElem::EclipsePattern(e2),
        ) => spec_eclipse_eq(e1, e2),
        (ArrayPatternElem::Pattern(p1), ArrayPatternElem::Pattern(p2)) => spec_pattern_eq(p1, p2),
        _ => false,
    }
}

/// Equality of rest patterns, under the test-diagnostic wildcard.
pub open spec fn spec_eclipse_eq(a: EclipsePattern, b: EclipsePattern) -> bool {
    a.diag.eq_diag(b.diag) && spec_id_eq(a.value, b.value)
}

/// Equality of object pattern bodies.
pub open spec fn spec_object_pattern_body_eq(a: ObjectPatternBody, b: ObjectPatternBody) -> bool
    decreases a,
{
    a.body@.len() == b.body@.len() && (forall|i: int|
        0 <= i < a.body@.len() ==> spec_object_pattern_elem_eq(#[trigger] a.body@[i], b.body@[i]))
}

/// Equality of one object pattern element.
pub open spec fn spec_object_pattern_elem_eq(a: ObjectPatternElem, b: ObjectPatternElem) -> bool
    decreases a,
{
    match (a, b) {
        (
            ObjectPatternElem::ObjectPatternKv(k1),
            ObjectPatternElem::ObjectPatternKv(k2),
        ) => spec_object_key_eq(k1.key, k2.key) && match (k1.value, k2.value) {
            (None, None) => true,
            (Some(p1), Some(p2)) => spec_pattern_eq(*p1, *p2),
            _ => false,
        },
        (
            ObjectPatternElem::EclipsePattern(e1),
            ObjectPatternElem::EclipsePattern(e2),
        ) => spec_eclipse_eq(e1, e2),
        _ => false,
    }
}

/// Decides structural equality of two expressions.
pub fn expr_eq(a: &Expr, b: &Expr) -> (r: bool)
    ensures
        r == spec_expr_eq(*a, *b),
    decreases a,
{
    inner_eq(&a.inner, &b.inner)
}

/// Decides structural equality of two expression variants.
pub fn inner_eq(a: &ExprInner, b: &ExprInner) -> (r: bool)
    ensures
        r == spec_inner_eq(*a, *b),
    decreases a,
{
    match (a, b) {
        (ExprInner::Prefix(p1, e1), ExprInner::Prefix(p2, e2)) => prefix_eq(p1, p2) && expr_eq(
            e1,
            e2,
        ),
        (ExprInner::Primary(p1), ExprInner::Primary(p2)) => primary_eq(p1, p2),
        (ExprInner::Postfix(p1, e1), ExprInner::Postfix(p2, e2)) => postfix_eq(p1, p2) && expr_eq(
            e1,
            e2,
        ),
        (ExprInner::Infix(i1, l1, r1), ExprInner::Infix(i2, l2, r2)) => infix_eq(i1, i2) && expr_eq(
            l1,
            l2,
        ) && expr_eq(r1, r2),
        (ExprInner::CApply(c1, a1), ExprInner::CApply(c2, a2)) => expr_eq(c1, c2) && exprs_eq(
            a1,
            a2,
        ),
        (ExprInner::MLApply(c1, a1), ExprInner::MLApply(c2, a2)) => expr_eq(c1, c2) && exprs_eq(
            a1,
            a2,
        ),
        _ => false,
    }
}

/// Decides pointwise structural equality of two expression lists.
pub fn exprs_eq(a: &Vec<Expr>, b: &Vec<Expr>) -> (r: bool)
    ensures
        r == spec_exprs_eq(*a, *b),
    decreases a,
{
    if a.len() != b.len() {
        return false;
    }
    let mut i: usize = 0;
    while i < a.len()
        invariant
            a@.len() == b@.len(),
            i <= a@.len(),
            forall|j: int| 0 <= j < i ==> spec_expr_eq(#[trigger] a@[j], b@[j]),
        decreases a@.len() - i,
    {
        if !expr_eq(&a[i], &b[i]) {
            return false;
        }
        i = i + 1;
    }
    true
}

/// Decides equality of optional boxed expressions.
pub fn opt_expr_eq(a: &Option<Box<Expr>>, b: &Option<Box<Expr>>) -> (r: bool)
    ensures
        r == spec_opt_expr_eq(*a, *b),
    decreases a,
{
    match (a, b) {
        (Option::None, Option::None) => true,
        (Option::Some(e1), Option::Some(e2)) => expr_eq(e1, e2),
        _ => false,
    }
}

/// Decides equality of prefix operators.
pub fn prefix_eq(a: &Prefix, b: &Prefix) -> (r: bool)
    ensures
        r == spec_prefix_eq(*a, *b),
    decreases a,
{
    match (a, b) {
        (Prefix::Not, Prefix::Not) => true,
        (Prefix::BitNot, Prefix::BitNot) => true,
        (Prefix::Neg, Prefix::Neg) => true,
        (Prefix::Yield, Prefix::Yield) => true,
        (Prefix::AnnotativeMacroCall(m1, o1), Prefix::AnnotativeMacroCall(m2, o2)) => m1.value
            == m2.value && opt_expr_eq(o1, o2),
        _ => false,
    }
}

/// Decides equality of postfix operators.
pub fn postfix_eq(a: &Postfix, b: &Postfix) -> (r: bool)
    ensures
        r == spec_postfix_eq(*a, *b),
    decreases a,
{
    match (a, b) {
        (Postfix::Trinary(t1), Postfix::Trinary(t2)) => expr_eq(&t1.true_expr, &t2.true_expr)
            && expr_eq(&t1.false_expr, &t2.false_expr),
        (Postfix::Slice(s1), Postfix::Slice(s2)) => opt_expr_eq(&s1.start, &s2.start) && opt_expr_eq(
            &s1.end,
            &s2.end,
        ) && opt_expr_eq(&s1.step, &s2.step),
        (Postfix::Index(i1), Postfix::Index(i2)) => expr_eq(&i1.postfix_index, &i2.postfix_index),
        (Postfix::Access(a1), Postfix::Access(a2)) => id_eq(&a1.id, &a2.id),
        (Postfix::CAppParams(c1), Postfix::CAppParams(c2)) => match (&c1.0, &c2.0) {
            (Option::None, Option::None) => true,
            (Option::Some(b1), Option::Some(b2)) => exprs_eq(&b1.0, &b2.0),
            _ => false,
        },
        (Postfix::MlAppParam(m1), Postfix::MlAppParam(m2)) => expr_eq(&m1.0, &m2.0),
        _ => false,
    }
}

/// Decides equality of identifiers.
pub fn id_eq(a: &Id, b: &Id) -> (r: bool)
    ensures
        r == spec_id_eq(*a, *b),
{
    match (a, b) {
        (Id::NormalId(n1), Id::NormalId(n2)) => n1.value == n2.value,
        (Id::MacroId(m1), Id::MacroId(m2)) => m1.value == m2.value,
        (Id::MagicFnId(g1), Id::MagicFnId(g2)) => g1.value == g2.value,
        _ => false,
    }
}

/// Decides equality of infix operators.
pub fn infix_eq(a: &Infix, b: &Infix) -> (r: bool)
    ensures
        r == spec_infix_eq(*a, *b),
{
    match (a, b) {
        (Infix::Add, Infix::Add) => true,
        (Infix::AssignYield, Infix::AssignYield) => true,
        (Infix::Sub, Infix::Sub) => true,
        (Infix::Mul, Infix::Mul) => true,
        (Infix::Div, Infix::Div) => true,
        (Infix::Mod, Infix::Mod) => true,
        (Infix::Eq, Infix::Eq) => true,
        (Infix::Neq, Infix::Neq) => true,
        (Infix::Extends, Infix::Extends) => true,
        (Infix::Le, Infix::Le) => true,
        (Infix::Ge, Infix::Ge) => true,
        (Infix::Lt, Infix::Lt) => true,
        (Infix::Gt, Infix::Gt) => true,
        (Infix::And, Infix::And) => true,
        (Infix::Pipe, Infix::Pipe) => true,
        (Infix::FindAndCallWithThis, Infix::FindAndCallWithThis) => true,
        (Infix::Or, Infix::Or) => true,
        (Infix::BitOr, Infix::BitOr) => true,
        (Infix::BitAnd, Infix::BitAnd) => true,
        (Infix::BitXor, Infix::BitXor) => true,
        (Infix::BitShiftL, Infix::BitShiftL) => true,
        (Infix::BitShiftR, Infix::BitShiftR) => true,
        (Infix::Function(i1), Infix::Function(i2)) => id_eq(i1, i2),
        (Infix::Assign, Infix::Assign) => true,
        (Infix::MatchEquals, Infix::MatchEquals) => true,
        (Infix::AssignSlot, Infix::AssignSlot) => true,
        _ => false,
    }
}

/// Decides equality of leaves.
pub fn primary_eq(a: &Primary, b: &Primary) -> (r: bool)
    ensures
        r == spec_primary_eq(*a, *b),
    decreases a,
{
    match (a, b) {
        (Primary::Block(b1), Primary::Block(b2)) => exprs_eq(&b1.exprs, &b2.exprs),
        (Primary::LambdaExpr(l1), Primary::LambdaExpr(l2)) => lambda_eq(l1, l2),
        (Primary::ParenExpr(p1), Primary::ParenExpr(p2)) => expr_eq(&p1.expr, &p2.expr),
        (Primary::CompoundLiteral(c1), Primary::CompoundLiteral(c2)) => compound_eq(c1, c2),
        (Primary::Id(i1), Primary::Id(i2)) => id_eq(i1, i2),
        (Primary::Pattern(p1), Primary::Pattern(p2)) => pattern_eq(p1, p2),
        _ => false,
    }
}

/// Decides equality of lambdas.
pub fn lambda_eq(a: &LambdaExpr, b: &LambdaExpr) -> (r: bool)
    ensures
        r == spec_lambda_eq(*a, *b),
    decreases a,
{
    match (a, b) {
        (LambdaExpr::TrLambda(t1), LambdaExpr::TrLambda(t2)) => tr_lambda_eq(t1, t2),
        (LambdaExpr::NoParamLambdaExpr(n1), LambdaExpr::NoParamLambdaExpr(n2)) => exprs_eq(
            &n1.body,
            &n2.body,
        ),
        _ => false,
    }
}

/// Decides equality of pattern lambdas.
pub fn tr_lambda_eq(a: &TrLambda, b: &TrLambda) -> (r: bool)
    ensures
        r == spec_tr_lambda_eq(*a, *b),
    decreases a,
{
    if !patterns_eq(&a.patterns, &b.patterns) {
        return false;
    }
    let params_ok = match (&a.implicit_params, &b.implicit_params) {
        (Option::None, Option::None) => true,
        (Option::Some(p1), Option::Some(p2)) => ids_eq(&p1.params, &p2.params),
        _ => false,
    };
    if !params_ok {
        return false;
    }
    let guard_ok = match (&a.guard, &b.guard) {
        (Option::None, Option::None) => true,
        (Option::Some(g1), Option::Some(g2)) => expr_eq(&g1.expr, &g2.expr),
        _ => false,
    };
    guard_ok && expr_eq(&a.body, &b.body)
}

/// Decides pointwise equality of identifier lists.
pub fn ids_eq(a: &Vec<Id>, b: &Vec<Id>) -> (r: bool)
    ensures
        r == spec_ids_eq(*a, *b),
{
    if a.len() != b.len() {
        return false;
    }
    let mut i: usize = 0;
    while i < a.len()
        invariant
            a@.len() == b@.len(),
            i <= a@.len(),
            forall|j: int| 0 <= j < i ==> spec_id_eq(#[trigger] a@[j], b@[j]),
        decreases a@.len() - i,
    {
        if !id_eq(&a[i], &b[i]) {
            return false;
        }
        i = i + 1;
    }
    true
}

/// Decides equality of compound literals.
pub fn compound_eq(a: &CompoundLiteral, b: &CompoundLiteral) -> (r: bool)
    ensures
        r == spec_compound_eq(*a, *b),
    decreases a,
{
    match (a, b) {
        (CompoundLiteral::ArrayLiteral(a1), CompoundLiteral::ArrayLiteral(a2)) => a1.diag.eq(
            &a2.diag,
        ) && exprs_eq(&a1.elems, &a2.elems),
        (CompoundLiteral::ObjectLiteral(o1), CompoundLiteral::ObjectLiteral(o2)) => object_body_eq(
            o1,
            o2,
        ),
        (CompoundLiteral::Literal(l1), CompoundLiteral::Literal(l2)) => literal_eq(l1, l2),
        _ => false,
    }
}

/// Decides equality of object literal bodies.
pub fn object_body_eq(a: &ObjectBody, b: &ObjectBody) -> (r: bool)
    ensures
        r == spec_object_body_eq(*a, *b),
    decreases a,
{
    if a.body.len() != b.body.len() {
        return false;
    }
    let mut i: usize = 0;
    while i < a.body.len()
        invariant
            a.body@.len() == b.body@.len(),
            i <= a.body@.len(),
            forall|j: int| 0 <= j < i ==> spec_elem_kv_eq(#[trigger] a.body@[j], b.body@[j]),
        decreases a.body@.len() - i,
    {
        if !elem_kv_eq(&a.body[i], &b.body[i]) {
            return false;
        }
        i = i + 1;
    }
    true
}

/// Decides equality of one object element.
pub fn elem_kv_eq(a: &ObjectElemKv, b: &ObjectElemKv) -> (r: bool)
    ensures
        r == spec_elem_kv_eq(*a, *b),
    decreases a,
{
    if !object_key_eq(&a.key, &b.key) {
        return false;
    }
    match (&a.value, &b.value) {
        (Option::None, Option::None) => true,
        (Option::Some(e1), Option::Some(e2)) => expr_eq(e1, e2),
        _ => false,
    }
}

/// Decides equality of object keys.
pub fn object_key_eq(a: &ObjectKey, b: &ObjectKey) -> (r: bool)
    ensures
        r == spec_object_key_eq(*a, *b),
{
    match (a, b) {
        (ObjectKey::Id(i1), ObjectKey::Id(i2)) => id_eq(i1, i2),
        (ObjectKey::String(s1), ObjectKey::String(s2)) => sap_string_eq(s1, s2),
        _ => false,
    }
}

/// Decides equality of simple literals.
pub fn literal_eq(a: &Literal, b: &Literal) -> (r: bool)
    ensures
        r == spec_literal_eq(*a, *b),
{
    match (a, b) {
        (Literal::Boolean(b1), Literal::Boolean(b2)) => b1.value == b2.value,
        (Literal::Void(_), Literal::Void(_)) => true,
        (Literal::String(s1), Literal::String(s2)) => sap_string_eq(s1, s2),
        (Literal::Number(n1), Literal::Number(n2)) => number_eq(n1, n2),
        _ => false,
    }
}

/// Decides equality of strings, by their text.
pub fn sap_string_eq(a: &SapString, b: &SapString) -> (r: bool)
    ensures
        r == spec_sap_string_eq(*a, *b),
{
    match (a, b) {
        (SapString::NormalString(_), SapString::NormalString(_)) => a.value() == b.value(),
        (SapString::RawString(_), SapString::RawString(_)) => a.value() == b.value(),
        _ => false,
    }
}

/// Decides equality of numbers: integers by value, floats componentwise.
pub fn number_eq(a: &SapNumber, b: &SapNumber) -> (r: bool)
    ensures
        r == spec_number_eq(*a, *b),
{
    match (a, b) {
        (SapNumber::Int(i1), SapNumber::Int(i2)) => i1.value() == i2.value(),
        (SapNumber::Float(f1), SapNumber::Float(f2)) => float_eq(f1, f2),
        _ => false,
    }
}

/// Decides componentwise equality of float literals.
pub fn float_eq(a: &crate::number::Float, b: &crate::number::Float) -> (r: bool)
    ensures
        r == spec_float_eq(*a, *b),
{
    match (a, b) {
        (crate::number::Float::Float1(f1), crate::number::Float::Float1(f2)) => f1.value.value()
            == f2.value.value() && f1.exponent_part.value == f2.exponent_part.value,
        (crate::number::Float::Float2(f1), crate::number::Float::Float2(f2)) => f1.value.value()
            == f2.value.value() && f1.sub.value() == f2.sub.value() && exp_eq(
            &f1.exponent_part,
            &f2.exponent_part,
        ),
        (crate::number::Float::Float3(f1), crate::number::Float::Float3(f2)) => f1.sub.value()
            == f2.sub.value() && exp_eq(&f1.exponent_part, &f2.exponent_part),
        _ => false,
    }
}

/// Decides equality of optional exponent parts.
pub fn exp_eq(
    a: &Option<crate::number::ExponentPart>,
    b: &Option<crate::number::ExponentPart>,
) -> (r: bool)
    ensures
        r == spec_exp_eq(*a, *b),
{
    match (a, b) {
        (Option::None, Option::None) => true,
        (Option::Some(e1), Option::Some(e2)) => e1.value == e2.value,
        _ => false,
    }
}

/// Decides equality of patterns.
pub fn pattern_eq(a: &Pattern, b: &Pattern) -> (r: bool)
    ensures
        r == spec_pattern_eq(*a, *b),
    decreases a,
{
    match (a, b) {
        (Pattern::Id(i1), Pattern::Id(i2)) => id_eq(i1, i2),
        (Pattern::Literal(l1), Pattern::Literal(l2)) => literal_eq(l1, l2),
        (Pattern::ArrayPattern(a1), Pattern::ArrayPattern(a2)) => a1.diag.eq(&a2.diag)
            && array_pattern_body_eq(&a1.body, &a2.body),
        (Pattern::ObjectPattern(o1), Pattern::ObjectPattern(o2)) => object_pattern_body_eq(
            &o1.body,
            &o2.body,
        ),
        _ => false,
    }
}

/// Decides pointwise equality of pattern lists.
pub fn patterns_eq(a: &Vec<Pattern>, b: &Vec<Pattern>) -> (r: bool)
    ensures
        r == spec_patterns_eq(*a, *b),
    decreases a,
{
    if a.len() != b.len() {
        return false;
    }
    let mut i: usize = 0;
    while i < a.len()
        invariant
            a@.len() == b@.len(),
            i <= a@.len(),
            forall|j: int| 0 <= j < i ==> spec_pattern_eq(#[trigger] a@[j], b@[j]),
        decreases a@.len() - i,
    {
        if !pattern_eq(&a[i], &b[i]) {
            return false;
        }
        i = i + 1;
    }
    true
}

/// Decides equality of array pattern bodies.
pub fn array_pattern_body_eq(a: &ArrayPatternBody, b: &ArrayPatternBody) -> (r: bool)
    ensures
        r == spec_array_pattern_body_eq(*a, *b),
    decreases a,
{
    if a.elems.len() != b.elems.len() {
        return false;
    }
    let mut i: usize = 0;
    while i < a.elems.len()
        invariant
            a.elems@.len() == b.elems@.len(),
            i <= a.elems@.len(),
            forall|j: int|
                0 <= j < i ==> spec_array_pattern_elem_eq(#[trigger] a.elems@[j], b.elems@[j]),
        decreases a.elems@.len() - i,
    {
        if !array_pattern_elem_eq(&a.elems[i], &b.elems[i]) {
            return false;
        }
        i = i + 1;
    }
    true
}

/// Decides equality of one array pattern element.
pub fn array_pattern_elem_eq(a: &ArrayPatternElem, b: &ArrayPatternElem) -> (r: bool)
    ensures
        r == spec_array_pattern_elem_eq(*a, *b),
    decreases a,
{
    match (a, b) {
        (ArrayPatternElem::EclipsePattern(e1), ArrayPatternElem::EclipsePattern(e2)) => eclipse_eq(
            e1,
            e2,
        ),
        (ArrayPatternElem::Pattern(p1), ArrayPatternElem::Pattern(p2)) => pattern_eq(p1, p2),
        _ => false,
    }
}

/// Decides equality of rest patterns.
pub fn eclipse_eq(a: &EclipsePattern, b: &EclipsePattern) -> (r: bool)
    ensures
        r == spec_eclipse_eq(*a, *b),
{
    a.diag.eq(&b.diag) && id_eq(&a.value, &b.value)
}

/// Decides equality of object pattern bodies.
pub fn object_pattern_body_eq(a: &ObjectPatternBody, b: &ObjectPatternBody) -> (r: bool)
    ensures
        r == spec_object_pattern_body_eq(*a, *b),
    decreases a,
{
    if a.body.len() != b.body.len() {
        return false;
    }
    let mut i: usize = 0;
    while i < a.body.len()
        invariant
            a.body@.len() == b.body@.len(),
            i <= a.body@.len(),
            forall|j: int|
                0 <= j < i ==> spec_object_pattern_elem_eq(#[trigger] a.body@[j], b.body@[j]),
        decreases a.body@.len() - i,
    {
        if !object_pattern_elem_eq(&a.body[i], &b.body[i]) {
            return false;
        }
        i = i + 1;
    }
    true
}

/// Decides equality of one object pattern element.
pub fn object_pattern_elem_eq(a: &ObjectPatternElem, b: &ObjectPatternElem) -> (r: bool)
    ensures
        r == spec_object_pattern_elem_eq(*a, *b),
    decreases a,
{
    match (a, b) {
        (ObjectPatternElem::ObjectPatternKv(k1), ObjectPatternElem::ObjectPatternKv(k2)) => {
            if !object_key_eq(&k1.key, &k2.key) {
                return false;
            }
            match (&k1.value, &k2.value) {
                (Option::None, Option::None) => true,
                (Option::Some(p1), Option::Some(p2)) => pattern_eq(p1, p2),
                _ => false,
            }
        },
        (ObjectPatternElem::EclipsePattern(e1), ObjectPatternElem::EclipsePattern(e2)) => eclipse_eq(
            e1,
            e2,
        ),
        _ => false,
    }
}

} // verus!
