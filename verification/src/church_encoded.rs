//! The application normalization pass ("Church-encoding" normalizer).
//!
//! The grammar encodes juxtaposition application as a generic one-argument
//! postfix production, so at parse time "one more juxtaposed argument to an
//! ongoing application" and "a brand-new one-argument application" look the
//! same.  This pass restores the invariant that consecutive juxtaposed
//! arguments belong to one flat n-ary `MLApply`, and that application binds
//! tighter than any infix or ternary operator even when the mechanical climb
//! has already nested the new application inside an infix or ternary node.
//!
//! Every node this pass produces gets its diagnostic recomputed to span from
//! the callee's start to the end of the outermost consumed operand.

use vstd::prelude::*;

use crate::diagnostics::Diagnostic;
use crate::expr::{Expr, ExprInner, is_finished, postfix_finished};
use crate::postfix::{CParamsBody, MlAppParam, Postfix};

verus! {

broadcast use vstd::std_specs::vec::axiom_vec_index_decreases;

/// The diagnostic spanning from `a`'s start to `b`'s end.
pub open spec fn spec_span(a: Diagnostic, b: Diagnostic) -> Diagnostic {
    Diagnostic {
        start_line: a.start_line,
        start_col: a.start_col,
        start_offset: a.start_offset,
        end_line: b.end_line,
        end_col: b.end_col,
        end_offset: b.end_offset,
    }
}

/// What normalizing `applied ⟨pending⟩` produces, by the shape of `pending`:
///
/// - `pending` is itself `MLApply(head, args)`: the chain continues — the
///   result is the flat `MLApply(applied, [head] ++ args)`;
/// - `pending` is `Infix(op, left, right)`: the new argument attaches to
///   `left` only, because application outbinds every infix — `left` itself
///   being an `MLApply` is flattened into, any other `left` becomes the one
///   argument of a fresh `MLApply`;
/// - `pending` is a ternary postfix over `cond`: the argument attaches to
///   `cond`, not to the ternary as a whole — normalize against `cond` by
///   this same rule and rewrap;
/// - anything else: the result is `MLApply(applied, [pending])`.
pub open spec fn church_rel(applied: Expr, pe: Expr, r: Expr) -> bool
    decreases pe,
{
    match pe.inner {
        ExprInner::Postfix(op, cond) => match op {
            Postfix::Trinary(t) => match cond.inner {
                ExprInner::MLApply(head, args) => {
                    &&& r.diag == spec_span(applied.diag, pe.diag)
                    &&& r.inner matches ExprInner::Postfix(rop, rcond)
                    &&& rop == Postfix::Trinary(t)
                    &&& rcond.diag == spec_span(applied.diag, cond.diag)
                    &&& rcond.inner matches ExprInner::MLApply(rc, rargs)
                    &&& *rc == applied
                    &&& rargs@ == seq![*head] + args@
                },
                _ => {
                    &&& r.diag == spec_span(applied.diag, pe.diag)
                    &&& r.inner matches ExprInner::Postfix(rop, rcond)
                    &&& rop == Postfix::Trinary(t)
                    &&& church_rel(applied, *cond, *rcond)
                },
            },
            _ => plain_mlapply_rel(applied, pe, r),
        },
        ExprInner::Infix(op, left, right) => match left.inner {
            ExprInner::MLApply(head, args) => {
                &&& r.diag == spec_span(applied.diag, pe.diag)
                &&& r.inner matches ExprInner::Infix(rop, rl, rr)
                &&& rop == op
                &&& *rr == *right
                &&& rl.diag == spec_span(applied.diag, left.diag)
                &&& rl.inner matches ExprInner::MLApply(rc, rargs)
                &&& *rc == applied
                &&& rargs@ == seq![*head] + args@
            },
            _ => {
                &&& r.diag == spec_span(applied.diag, pe.diag)
                &&& r.inner matches ExprInner::Infix(rop, rl, rr)
                &&& rop == op
                &&& *rr == *right
                &&& rl.diag == spec_span(applied.diag, left.diag)
                &&& rl.inner matches ExprInner::MLApply(rc, rargs)
                &&& *rc == applied
                &&& rargs@ == seq![*left]
            },
        },
        ExprInner::MLApply(head, args) => {
            &&& r.diag == spec_span(applied.diag, pe.diag)
            &&& r.inner matches ExprInner::MLApply(rc, rargs)
            &&& *rc == applied
            &&& rargs@ == seq![*head] + args@
        },
        _ => plain_mlapply_rel(applied, pe, r),
    }
}

/// The default shape: `MLApply(applied, [pending])`, spanning from
/// `applied`'s start to `pending`'s end.
pub open spec fn plain_mlapply_rel(applied: Expr, pe: Expr, r: Expr) -> bool {
    &&& r.diag == spec_span(applied.diag, pe.diag)
    &&& r.inner matches ExprInner::MLApply(rc, rargs)
    &&& *rc == applied
    &&& rargs@ == seq![pe]
}

/// Merges `expr` with a pending juxtaposed argument whose shape carries no
/// infix or ternary wrapper: a pending `MLApply` chain is flattened into one
/// n-ary application, anything else becomes the single argument.
pub fn handle_mlapply(expr: Expr, pe: Expr) -> (r: Expr)
    ensures
        match pe.inner {
            ExprInner::MLApply(head, args) => {
                &&& r.diag == spec_span(expr.diag, pe.diag)
                &&& r.inner matches ExprInner::MLApply(rc, rargs)
                &&& *rc == expr
                &&& rargs@ == seq![*head] + args@
            },
            _ => plain_mlapply_rel(expr, pe, r),
        },
{
    let diag = expr.diag.set_end_as(&pe.diag);
    let pe_diag = pe.diag;
    match pe.inner {
        ExprInner::MLApply(c, p) => {
            let mut np = p;
            np.insert(0, *c);
            proof {
                assert(np@ =~= seq![*c] + p@);
            }
            Expr::MLApply(Box::new(expr), np, diag)
        },
        inner => {
            let arg = Expr { inner, diag: pe_diag };
            let mut np: Vec<Expr> = Vec::new();
            np.push(arg);
            proof {
                assert(np@ =~= seq![Expr { inner: pe.inner, diag: pe.diag }]);
            }
            Expr::MLApply(Box::new(expr), np, diag)
        },
    }
}

/// If the pending argument is an infix node, attaches `expr` to its left
/// operand — flattening when that operand is already an `MLApply` — and
/// rewraps; `None` when the pending argument is not an infix node.
pub fn handle_infix(expr: Expr, pe: Expr) -> (r: Option<Expr>)
    ensures
        match pe.inner {
            ExprInner::Infix(_, _, _) => r matches Some(e) && church_rel(expr, pe, e),
            _ => r is None,
        },
{
    let diag = expr.diag.set_end_as(&pe.diag);
    match pe.inner {
        ExprInner::Infix(i, c, ce) => {
            let ml_diag = expr.diag.set_end_as(&c.diag);
            match c.inner {
                ExprInner::MLApply(cc, p) => {
                    let mut np = p;
                    np.insert(0, *cc);
                    proof {
                        assert(np@ =~= seq![*cc] + p@);
                    }
                    let ml = Expr::MLApply(Box::new(expr), np, ml_diag);
                    Some(Expr::Infix(i, Box::new(ml), ce, diag))
                },
                c_inner => {
                    let c_diag = c.diag;
                    let mut np: Vec<Expr> = Vec::new();
                    np.push(Expr { inner: c_inner, diag: c_diag });
                    let ml = Expr::MLApply(Box::new(expr), np, ml_diag);
                    Some(Expr::Infix(i, Box::new(ml), ce, diag))
                },
            }
        },
        _ => None,
    }
}

/// If the pending argument is a ternary postfix, attaches `expr` to the
/// ternary's condition — flattening a condition that is already an
/// `MLApply`, normalizing any other condition recursively — and rewraps;
/// `None` when the pending argument is not a ternary postfix.
pub fn handle_postfix_trinary(expr: Expr, pe: Expr) -> (r: Option<Expr>)
    ensures
        match pe.inner {
            ExprInner::Postfix(op, _) => match op {
                Postfix::Trinary(_) => r matches Some(e) && church_rel(expr, pe, e),
                _ => r is None,
            },
            _ => r is None,
        },
    decreases pe, 0nat,
{
    let diag = expr.diag.set_end_as(&pe.diag);
    match pe.inner {
        ExprInner::Postfix(op, c) => match op {
            Postfix::Trinary(t) => match c.inner {
                ExprInner::MLApply(cc, p) => {
                    let ml_diag = expr.diag.set_end_as(&c.diag);
                    let mut np = p;
                    np.insert(0, *cc);
                    proof {
                        assert(np@ =~= seq![*cc] + p@);
                    }
                    let ml = Expr::MLApply(Box::new(expr), np, ml_diag);
                    Some(Expr::Postfix(Postfix::Trinary(t), Box::new(ml), diag))
                },
                c_inner => {
                    let cond = Expr { inner: c_inner, diag: c.diag };
                    let normalized = handle_expr_church_encoded(expr, MlAppParam(Box::new(cond)));
                    Some(Expr::Postfix(Postfix::Trinary(t), Box::new(normalized), diag))
                },
            },
            _ => None,
        },
        _ => None,
    }
}

/// Normalizes one juxtaposition-application reduction: `expr` is the callee
/// just finished, `p` carries the pending argument; the result is the
/// correctly shaped application node (see `church_rel`).
pub fn handle_expr_church_encoded(expr: Expr, p: MlAppParam) -> (r: Expr)
    ensures
        church_rel(expr, *p.0, r),
    decreases *p.0, 1nat,
{
    let MlAppParam(pe_box) = p;
    let pe = *pe_box;
    let is_trinary = match &pe.inner {
        ExprInner::Postfix(op, _) => match op {
            Postfix::Trinary(_) => true,
            _ => false,
        },
        _ => false,
    };
    if is_trinary {
        match handle_postfix_trinary(expr, pe) {
            Some(e) => e,
            None => {
                // Unreachable: the shape was just tested.
                proof {
                    assert(false);
                }
                Expr { inner: ExprInner::Primary(crate::expr::Primary::Id(crate::id::Id::NormalId(
                    crate::id::NormalId { value: String::new() },
                ))), diag: Diagnostic::test() }
            },
        }
    } else {
        let is_infix = match &pe.inner {
            ExprInner::Infix(_, _, _) => true,
            _ => false,
        };
        if is_infix {
            match handle_infix(expr, pe) {
                Some(e) => e,
                None => {
                    // Unreachable: the shape was just tested.
                    proof {
                        assert(false);
                    }
                    Expr { inner: ExprInner::Primary(crate::expr::Primary::Id(
                        crate::id::Id::NormalId(crate::id::NormalId { value: String::new() }),
                    )), diag: Diagnostic::test() }
                },
            }
        } else {
            handle_mlapply(expr, pe)
        }
    }
}

/// Lifts a call-style parameter postfix to a `CApply` node: parentheses make
/// arity explicit, so no re-association is needed.  `diag` is the extent the
/// finished call covers, from the callee's start to the closing parenthesis.
pub fn handle_expr_lift_c_params(expr: Expr, params: CParamsBody, diag: Diagnostic) -> (r: Expr)
    ensures
        r == (Expr { inner: ExprInner::CApply(Box::new(expr), params.0), diag }),
{
    let CParamsBody(ps) = params;
    Expr::CApply(Box::new(expr), ps, diag)
}

/// Every node the pass produces spans from the callee's start to the
/// pending operand's end.
pub proof fn lemma_church_diag(applied: Expr, pe: Expr, r: Expr)
    requires
        church_rel(applied, pe, r),
    ensures
        r.diag == spec_span(applied.diag, pe.diag),
{
    reveal_with_fuel(church_rel, 2);
}

/// Normalization preserves finishedness: if the callee and the pending
/// argument are finished, so is every node the pass produces.
pub proof fn lemma_church_finished(applied: Expr, pe: Expr, r: Expr)
    requires
        is_finished(applied),
        is_finished(pe),
        church_rel(applied, pe, r),
    ensures
        is_finished(r),
    decreases pe,
{
    match pe.inner {
        ExprInner::Postfix(op, cond) => match op {
            Postfix::Trinary(t) => {
                assert(postfix_finished(Postfix::Trinary(t)));
                assert(is_finished(*cond));
                match cond.inner {
                    ExprInner::MLApply(head, args) => {
                        assert(is_finished(*head));
                        assert(forall|i: int|
                            0 <= i < args@.len() ==> is_finished(#[trigger] args@[i]));
                        match r.inner {
                            ExprInner::Postfix(rop, rcond) => {
                                lemma_flat_finished(applied, *head, args@, *rcond);
                            },
                            _ => {},
                        }
                    },
                    _ => {
                        match r.inner {
                            ExprInner::Postfix(rop, rcond) => {
                                lemma_church_finished(applied, *cond, *rcond);
                            },
                            _ => {},
                        }
                    },
                }
            },
            _ => {
                lemma_plain_finished(applied, pe, r);
            },
        },
        ExprInner::Infix(op, left, right) => {
            assert(is_finished(*left));
            assert(is_finished(*right));
            match left.inner {
                ExprInner::MLApply(head, args) => {
                    assert(is_finished(*head));
                    assert(forall|i: int|
                        0 <= i < args@.len() ==> is_finished(#[trigger] args@[i]));
                    match r.inner {
                        ExprInner::Infix(rop, rl, rr) => {
                            lemma_flat_finished(applied, *head, args@, *rl);
                        },
                        _ => {},
                    }
                },
                _ => {
                    match r.inner {
                        ExprInner::Infix(rop, rl, rr) => {
                            match rl.inner {
                                ExprInner::MLApply(rc, rargs) => {
                                    assert(rargs@ == seq![*left]);
                                    assert forall|i: int|
                                        0 <= i < rargs@.len() implies is_finished(
                                        #[trigger] rargs@[i],
                                    ) by {
                                        assert(rargs@[i] == *left);
                                    }
                                    assert(is_finished(*rl));
                                },
                                _ => {},
                            }
                        },
                        _ => {},
                    }
                },
            }
        },
        ExprInner::MLApply(head, args) => {
            assert(is_finished(*head));
            assert(forall|i: int| 0 <= i < args@.len() ==> is_finished(#[trigger] args@[i]));
            lemma_flat_finished(applied, *head, args@, r);
        },
        _ => {
            lemma_plain_finished(applied, pe, r);
        },
    }
}

/// The flattened application `MLApply(applied, [head] ++ args)` is finished
/// when its parts are.
proof fn lemma_flat_finished(applied: Expr, head: Expr, args: Seq<Expr>, r: Expr)
    requires
        is_finished(applied),
        is_finished(head),
        forall|i: int| 0 <= i < args.len() ==> is_finished(#[trigger] args[i]),
        r.inner matches ExprInner::MLApply(rc, rargs) && *rc == applied && rargs@ == seq![head]
            + args,
    ensures
        is_finished(r),
{
    match r.inner {
        ExprInner::MLApply(rc, rargs) => {
            assert forall|i: int| 0 <= i < rargs@.len() implies is_finished(
                #[trigger] rargs@[i],
            ) by {
                if i == 0 {
                    assert(rargs@[0] == head);
                } else {
                    assert(rargs@[i] == args[i - 1]);
                }
            }
        },
        _ => {},
    }
}

/// The default shape `MLApply(applied, [pending])` is finished when its
/// parts are.
proof fn lemma_plain_finished(applied: Expr, pe: Expr, r: Expr)
    requires
        is_finished(applied),
        is_finished(pe),
        plain_mlapply_rel(applied, pe, r),
    ensures
        is_finished(r),
{
    match r.inner {
        ExprInner::MLApply(rc, rargs) => {
            assert(*rc == applied);
            assert(is_finished(*rc));
            assert(rargs@ == seq![pe]);
            assert forall|i: int| 0 <= i < rargs@.len() implies is_finished(
                #[trigger] rargs@[i],
            ) by {
                assert(rargs@[i] == pe);
            }
        },
        _ => {},
    }
}

} // verus!
