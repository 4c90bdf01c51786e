//! The expression climbing algorithm: standard precedence climbing over the
//! token stream, with single-token lookahead.
//!
//! A primary leaf seeds the result; each prefix operator wraps the following
//! expression, widening its extent to start at the operator; each infix
//! operator combines operands per its level and associativity; each postfix
//! operator wraps the preceding expression with the extent pulled back to
//! the operand's start.  When the postfix being reduced is a juxtaposition
//! argument or a call-parameter list, the climb does not build a plain
//! `Postfix` node: it hands the reduction to the normalization pass
//! (`church_encoded`), which returns the correctly shaped `CApply`/`MLApply`
//! node in its place.
//!
//! A call-parameter, index, slice or access postfix attaches only when its
//! opening token is directly adjacent to the preceding expression; a
//! detached `(` or `[` starts a new juxtaposed operand instead.

use vstd::prelude::*;

use crate::ParseFailure;
use crate::church_encoded::{handle_expr_church_encoded, handle_expr_lift_c_params,
    lemma_church_finished, lemma_church_diag};
use crate::expr::{Expr, ExprInner, Primary, is_finished};
use crate::id::{Id, NormalId, MacroId};
use crate::infix::Infix;
use crate::lexer::{Token, TokenKind};
use crate::literal::{ArrayBody, Boolean, CompoundLiteral, Literal, Void};
use crate::number::{DecInt, Int, SapNumber};
use crate::operator_precedence::{LEVEL_JUXT, LEVEL_TERNARY, infix_level, prefix_level};
use crate::postfix::{Access, CParamsBody, MlAppParam, Postfix, Slice, Trinary};
use crate::postfix::Index as IndexPostfix;
use crate::prefix::Prefix;
use crate::quotations::ParenExpr;

verus! {

/// Whether the token at `i` is a comma.
fn comma_at(toks: &Vec<Token>, i: usize) -> (r: bool)
    requires
        i < toks@.len(),
    ensures
        r == (toks@[i as int].kind is Comma),
{
    matches!(&toks[i].kind, TokenKind::Comma)
}

/// Parses a comma-separated, possibly empty expression list terminated by
/// `)` (when `close_paren`) or `]`.  `pos` stands just after the opening
/// token; on success the returned position stands just after the closing
/// one, which is the token before it.
fn parse_expr_list(toks: &Vec<Token>, pos: usize, close_paren: bool) -> (r: Result<
    (Vec<Expr>, usize),
    ParseFailure,
>)
    requires
        pos <= toks@.len(),
    ensures
        match r {
            Ok(ep) => {
                &&& pos < ep.1 <= toks@.len()
                &&& forall|i: int| 0 <= i < ep.0@.len() ==> is_finished(#[trigger] ep.0@[i])
                &&& toks@[ep.1 - 1].kind == (if close_paren {
                    TokenKind::RParen
                } else {
                    TokenKind::RBracket
                })
            },
            Err(f) => f == ParseFailure::NoMatch,
        },
    decreases toks@.len() - pos, 1nat,
{
    let n = toks.len();
    if pos >= n {
        return Err(ParseFailure::NoMatch);
    }
    let closed_here = if close_paren {
        matches!(&toks[pos].kind, TokenKind::RParen)
    } else {
        matches!(&toks[pos].kind, TokenKind::RBracket)
    };
    if closed_here {
        return Ok((Vec::new(), pos + 1));
    }
    let mut es: Vec<Expr> = Vec::new();
    let first = climb(toks, pos, 0);
    let mut cur: usize;
    match first {
        Ok((e, p)) => {
            es.push(e);
            cur = p;
        },
        Err(f) => {
            return Err(f);
        },
    }
    while cur < n && comma_at(toks, cur)
        invariant
            pos < cur <= n == toks@.len(),
            forall|i: int| 0 <= i < es@.len() ==> is_finished(#[trigger] es@[i]),
        decreases n - cur,
    {
        let next = climb(toks, cur + 1, 0);
        match next {
            Ok((e, p)) => {
                es.push(e);
                cur = p;
            },
            Err(f) => {
                return Err(f);
            },
        }
    }
    if cur >= n {
        return Err(ParseFailure::NoMatch);
    }
    let closed = if close_paren {
        matches!(&toks[cur].kind, TokenKind::RParen)
    } else {
        matches!(&toks[cur].kind, TokenKind::RBracket)
    };
    if closed {
        Ok((es, cur + 1))
    } else {
        Err(ParseFailure::NoMatch)
    }
}

/// Precedence climbing from `pos`: parses one expression whose operators all
/// bind at least as tightly as `min_bp`.
///
/// On success the expression is finished (no ephemeral postfix survives: the
/// normalization pass runs inline on every juxtaposition or call-parameter
/// reduction), it covers exactly the consumed tokens — its extent runs from
/// the first consumed token's start to the last one's end — and parsing
/// consumed at least one token.  Every failure is `NoMatch`: the classifier
/// desynchronization failure cannot arise from this token set, and this is
/// proved, not assumed.
pub fn climb(toks: &Vec<Token>, pos: usize, min_bp: u32) -> (r: Result<(Expr, usize), ParseFailure>)
    requires
        pos <= toks@.len(),
    ensures
        match r {
            Ok(ep) => {
                &&& pos < ep.1 <= toks@.len()
                &&& is_finished(ep.0)
                &&& ep.0.diag.start_offset == toks@[pos as int].diag.start_offset
                &&& ep.0.diag.end_offset == toks@[ep.1 - 1].diag.end_offset
            },
            Err(f) => f == ParseFailure::NoMatch,
        },
        (pos + 1 == toks@.len() && (toks@[pos as int].kind is Ident || toks@[pos as int].kind
            is BoolLit || toks@[pos as int].kind is IntLit)) ==> r is Ok,
        pos + 1 == toks@.len() ==> match toks@[pos as int].kind {
            TokenKind::Ident(s) => r matches Ok(ep) && ep.0.inner == ExprInner::Primary(
                Primary::Id(Id::NormalId(NormalId { value: s })),
            ) && ep.0.diag == toks@[pos as int].diag,
            TokenKind::IntLit(v) => r matches Ok(ep) && ep.0.inner == ExprInner::Primary(
                Primary::CompoundLiteral(
                    CompoundLiteral::Literal(
                        Literal::Number(SapNumber::Int(Int::DecInt(DecInt { value: v }))),
                    ),
                ),
            ) && ep.0.diag == toks@[pos as int].diag,
            TokenKind::BoolLit(b) => r matches Ok(ep) && ep.0.inner == ExprInner::Primary(
                Primary::CompoundLiteral(
                    CompoundLiteral::Literal(Literal::Boolean(Boolean { value: b })),
                ),
            ) && ep.0.diag == toks@[pos as int].diag,
            _ => true,
        },
    decreases toks@.len() - pos, 0nat,
{
    proof {
        reveal_with_fuel(is_finished, 4);
    }
    let n = toks.len();
    if pos >= n {
        return Err(ParseFailure::NoMatch);
    }
    let tok0_diag = toks[pos].diag;
    let mut lhs: Expr;
    let mut p: usize;
    let pfx = prefix_level(&toks[pos].kind);
    match pfx {
        Some(level) => {
            // A prefix operator; parse its operand at the operator's level.
            let mut prefix: Prefix = match Prefix::from_kind(&toks[pos].kind) {
                Ok(op) => op,
                Err(_) => {
                    // Unreachable: every kind with a prefix level classifies.
                    proof {
                        assert(false);
                    }
                    return Err(ParseFailure::NoMatch);
                },
            };
            let mut operand_start = pos + 1;
            // An annotative macro call may carry its own parenthesized
            // argument before the operand.
            if matches!(&toks[pos].kind, TokenKind::MacroIdent(_)) && operand_start < n && matches!(
                &toks[operand_start].kind,
                TokenKind::LParen,
            ) {
                let sub = climb(toks, operand_start + 1, 0);
                match sub {
                    Ok((arg, pa)) => {
                        if pa < n && matches!(&toks[pa].kind, TokenKind::RParen) {
                            let mid = match prefix {
                                Prefix::AnnotativeMacroCall(mid, _) => mid,
                                _ => {
                                    // Unreachable: a macro-ident kind
                                    // classifies to a macro call.
                                    proof {
                                        assert(false);
                                    }
                                    MacroId { value: String::new() }
                                },
                            };
                            prefix = Prefix::AnnotativeMacroCall(mid, Some(Box::new(arg)));
                            operand_start = pa + 1;
                        } else {
                            return Err(ParseFailure::NoMatch);
                        }
                    },
                    Err(f) => {
                        return Err(f);
                    },
                }
            }
            proof {
                crate::prefix::lemma_prefix_of_kind_finished(toks@[pos as int].kind);
            }
            let operand = climb(toks, operand_start, level);
            match operand {
                Ok((e, pe)) => {
                    let d = tok0_diag.set_end_as(&e.diag);
                    lhs = Expr::Prefix(prefix, Box::new(e), d);
                    p = pe;
                },
                Err(f) => {
                    return Err(f);
                },
            }
        },
        None => {
            // A primary leaf.
            match &toks[pos].kind {
                TokenKind::Ident(s) => {
                    lhs = Expr::Primary(
                        Primary::Id(Id::NormalId(NormalId { value: s.clone() })),
                        tok0_diag,
                    );
                    p = pos + 1;
                },
                TokenKind::IntLit(v) => {
                    lhs = Expr::Primary(
                        Primary::CompoundLiteral(
                            CompoundLiteral::Literal(
                                Literal::Number(SapNumber::Int(Int::DecInt(DecInt { value: *v }))),
                            ),
                        ),
                        tok0_diag,
                    );
                    p = pos + 1;
                },
                TokenKind::BoolLit(b) => {
                    lhs = Expr::Primary(
                        Primary::CompoundLiteral(
                            CompoundLiteral::Literal(Literal::Boolean(Boolean { value: *b })),
                        ),
                        tok0_diag,
                    );
                    p = pos + 1;
                },
                TokenKind::LParen => {
                    if pos + 1 < n && matches!(&toks[pos + 1].kind, TokenKind::RParen) {
                        // The void literal `()`.
                        let d = tok0_diag.set_end_as(&toks[pos + 1].diag);
                        lhs = Expr::Primary(
                            Primary::CompoundLiteral(CompoundLiteral::Literal(Literal::Void(Void))),
                            d,
                        );
                            p = pos + 2;
                    } else {
                        let sub = climb(toks, pos + 1, 0);
                        match sub {
                            Ok((e, pe)) => {
                                if pe < n && matches!(&toks[pe].kind, TokenKind::RParen) {
                                    let d = tok0_diag.set_end_as(&toks[pe].diag);
                                    lhs = Expr::Primary(
                                        Primary::ParenExpr(ParenExpr { expr: Box::new(e) }),
                                        d,
                                    );
                                                    p = pe + 1;
                                } else {
                                    return Err(ParseFailure::NoMatch);
                                }
                            },
                            Err(f) => {
                                return Err(f);
                            },
                        }
                    }
                },
                TokenKind::LBracket => {
                    // An array literal.
                    let body = parse_expr_list(toks, pos + 1, false);
                    match body {
                        Ok((elems, pe)) => {
                            let d = tok0_diag.set_end_as(&toks[pe - 1].diag);
                            lhs = Expr::Primary(
                                Primary::CompoundLiteral(
                                    CompoundLiteral::ArrayLiteral(ArrayBody { diag: d, elems }),
                                ),
                                d,
                            );
                                    p = pe;
                        },
                        Err(f) => {
                            return Err(f);
                        },
                    }
                },
                _ => {
                    return Err(ParseFailure::NoMatch);
                },
            }
        },
    }
    // The infix/postfix loop: extend `lhs` while the next operator binds at
    // least as tightly as `min_bp`.
    loop
        invariant
            pos < p <= n,
            n == toks@.len(),
            pos < n,
            is_finished(lhs),
            lhs.diag.start_offset == toks@[pos as int].diag.start_offset,
            lhs.diag.end_offset == toks@[p - 1].diag.end_offset,
            pos + 1 == n ==> match toks@[pos as int].kind {
                TokenKind::Ident(s) => p == n && lhs.inner == ExprInner::Primary(
                    Primary::Id(Id::NormalId(NormalId { value: s })),
                ) && lhs.diag == toks@[pos as int].diag,
                TokenKind::IntLit(v) => p == n && lhs.inner == ExprInner::Primary(
                    Primary::CompoundLiteral(
                        CompoundLiteral::Literal(
                            Literal::Number(SapNumber::Int(Int::DecInt(DecInt { value: v }))),
                        ),
                    ),
                ) && lhs.diag == toks@[pos as int].diag,
                TokenKind::BoolLit(b) => p == n && lhs.inner == ExprInner::Primary(
                    Primary::CompoundLiteral(
                        CompoundLiteral::Literal(Literal::Boolean(Boolean { value: b })),
                    ),
                ) && lhs.diag == toks@[pos as int].diag,
                _ => true,
            },
        ensures
            pos < p <= n,
            is_finished(lhs),
            lhs.diag.start_offset == toks@[pos as int].diag.start_offset,
            lhs.diag.end_offset == toks@[p - 1].diag.end_offset,
            pos + 1 == n ==> match toks@[pos as int].kind {
                TokenKind::Ident(s) => p == n && lhs.inner == ExprInner::Primary(
                    Primary::Id(Id::NormalId(NormalId { value: s })),
                ) && lhs.diag == toks@[pos as int].diag,
                TokenKind::IntLit(v) => p == n && lhs.inner == ExprInner::Primary(
                    Primary::CompoundLiteral(
                        CompoundLiteral::Literal(
                            Literal::Number(SapNumber::Int(Int::DecInt(DecInt { value: v }))),
                        ),
                    ),
                ) && lhs.diag == toks@[pos as int].diag,
                TokenKind::BoolLit(b) => p == n && lhs.inner == ExprInner::Primary(
                    Primary::CompoundLiteral(
                        CompoundLiteral::Literal(Literal::Boolean(Boolean { value: b })),
                    ),
                ) && lhs.diag == toks@[pos as int].diag,
                _ => true,
            },
        decreases n - p,
    {
        proof {
            reveal_with_fuel(is_finished, 4);
        }
        if p >= n {
            break ;
        }
        let infx = infix_level(&toks[p].kind);
        match infx {
            Some((l, right_assoc)) => {
                if l < min_bp {
                    break ;
                }
                let op = match Infix::from_kind(&toks[p].kind) {
                    Ok(op) => op,
                    Err(_) => {
                        // Unreachable: every kind with an infix level
                        // classifies.
                        proof {
                            assert(false);
                        }
                        return Err(ParseFailure::NoMatch);
                    },
                };
                let rhs_bp = if right_assoc {
                    l
                } else {
                    l + 1
                };
                let rhs = climb(toks, p + 1, rhs_bp);
                match rhs {
                    Ok((e, pe)) => {
                        let d = lhs.diag.set_end_as(&e.diag);
                        lhs = Expr::Infix(op, Box::new(lhs), Box::new(e), d);
                        p = pe;
                    },
                    Err(f) => {
                        return Err(f);
                    },
                }
            },
            None => {
                if matches!(&toks[p].kind, TokenKind::Question) {
                    // The ternary postfix `? t : f`.
                    if LEVEL_TERNARY < min_bp {
                        break ;
                    }
                    let t = climb(toks, p + 1, 0);
                    match t {
                        Ok((te, pt)) => {
                            if pt < n && matches!(&toks[pt].kind, TokenKind::Colon) {
                                let f = climb(toks, pt + 1, LEVEL_TERNARY);
                                match f {
                                    Ok((fe, pf)) => {
                                        let d = lhs.diag.set_end_as(&fe.diag);
                                        lhs = Expr::Postfix(
                                            Postfix::Trinary(
                                                Trinary {
                                                    true_expr: Box::new(te),
                                                    false_expr: Box::new(fe),
                                                },
                                            ),
                                            Box::new(lhs),
                                            d,
                                        );
                                        p = pf;
                                    },
                                    Err(f) => {
                                        return Err(f);
                                    },
                                }
                            } else {
                                return Err(ParseFailure::NoMatch);
                            }
                        },
                        Err(f) => {
                            return Err(f);
                        },
                    }
                } else if matches!(&toks[p].kind, TokenKind::Dot) && toks[p].diag.start_offset
                    == lhs.diag.end_offset {
                    // The member-access postfix `.id`, attached directly.
                    if p + 1 < n {
                        match &toks[p + 1].kind {
                            TokenKind::Ident(s) => {
                                let d = lhs.diag.set_end_as(&toks[p + 1].diag);
                                lhs = Expr::Postfix(
                                    Postfix::Access(
                                        Access { id: Id::NormalId(NormalId { value: s.clone() }) },
                                    ),
                                    Box::new(lhs),
                                    d,
                                );
                                p = p + 2;
                            },
                            _ => {
                                return Err(ParseFailure::NoMatch);
                            },
                        }
                    } else {
                        return Err(ParseFailure::NoMatch);
                    }
                } else if matches!(&toks[p].kind, TokenKind::LBracket) && toks[p].diag.start_offset
                    == lhs.diag.end_offset {
                    // The index or slice postfix, attached directly.
                    let mut q = p + 1;
                    let mut start: Option<Box<Expr>> = None;
                    if q < n && !matches!(&toks[q].kind, TokenKind::Colon) && !matches!(
                        &toks[q].kind,
                        TokenKind::RBracket,
                    ) {
                        let e1 = climb(toks, q, 0);
                        match e1 {
                            Ok((e, pe)) => {
                                start = Some(Box::new(e));
                                q = pe;
                            },
                            Err(f) => {
                                return Err(f);
                            },
                        }
                    }
                    if q < n && matches!(&toks[q].kind, TokenKind::RBracket) {
                        // `[e]` is an index; a bare `[]` is refused.
                        match start {
                            Some(e) => {
                                let d = lhs.diag.set_end_as(&toks[q].diag);
                                lhs = Expr::Postfix(
                                    Postfix::Index(IndexPostfix { postfix_index: e }),
                                    Box::new(lhs),
                                    d,
                                );
                                p = q + 1;
                            },
                            None => {
                                return Err(ParseFailure::NoMatch);
                            },
                        }
                    } else if q < n && matches!(&toks[q].kind, TokenKind::Colon) {
                        q = q + 1;
                        let mut end: Option<Box<Expr>> = None;
                        let mut step: Option<Box<Expr>> = None;
                        if q < n && !matches!(&toks[q].kind, TokenKind::Colon) && !matches!(
                            &toks[q].kind,
                            TokenKind::RBracket,
                        ) {
                            let e2 = climb(toks, q, 0);
                            match e2 {
                                Ok((e, pe)) => {
                                    end = Some(Box::new(e));
                                    q = pe;
                                },
                                Err(f) => {
                                    return Err(f);
                                },
                            }
                        }
                        if q < n && matches!(&toks[q].kind, TokenKind::Colon) {
                            q = q + 1;
                            if q < n && !matches!(&toks[q].kind, TokenKind::RBracket) {
                                let e3 = climb(toks, q, 0);
                                match e3 {
                                    Ok((e, pe)) => {
                                        step = Some(Box::new(e));
                                        q = pe;
                                    },
                                    Err(f) => {
                                        return Err(f);
                                    },
                                }
                            }
                        }
                        if q < n && matches!(&toks[q].kind, TokenKind::RBracket) {
                            let d = lhs.diag.set_end_as(&toks[q].diag);
                            lhs = Expr::Postfix(
                                Postfix::Slice(Slice { start, end, step }),
                                Box::new(lhs),
                                d,
                            );
                            p = q + 1;
                        } else {
                            return Err(ParseFailure::NoMatch);
                        }
                    } else {
                        return Err(ParseFailure::NoMatch);
                    }
                } else if matches!(&toks[p].kind, TokenKind::LParen) && toks[p].diag.start_offset
                    == lhs.diag.end_offset {
                    // Call parameters, attached directly; the normalization
                    // pass shapes the application node.
                    let body = parse_expr_list(toks, p + 1, true);
                    match body {
                        Ok((args, pe)) => {
                            let d = lhs.diag.set_end_as(&toks[pe - 1].diag);
                            if args.len() == 0 {
                                lhs = Expr::CApply(Box::new(lhs), Vec::new(), d);
                            } else {
                                lhs = handle_expr_lift_c_params(lhs, CParamsBody(args), d);
                            }
                            p = pe;
                        },
                        Err(f) => {
                            return Err(f);
                        },
                    }
                } else if matches!(
                    &toks[p].kind,
                    TokenKind::Ident(_) | TokenKind::IntLit(_) | TokenKind::BoolLit(_)
                        | TokenKind::LParen | TokenKind::LBracket,
                ) {
                    // A juxtaposed argument: parse it greedily at the
                    // application level, then normalize the reduction.
                    if LEVEL_JUXT < min_bp {
                        break ;
                    }
                    let arg = climb(toks, p, LEVEL_JUXT);
                    match arg {
                        Ok((e, pe)) => {
                            let ghost glhs = lhs;
                            let ghost garg = e;
                            lhs = handle_expr_church_encoded(lhs, MlAppParam(Box::new(e)));
                            proof {
                                lemma_church_finished(glhs, garg, lhs);
                                lemma_church_diag(glhs, garg, lhs);
                            }
                            p = pe;
                        },
                        Err(f) => {
                            return Err(f);
                        },
                    }
                } else {
                    break ;
                }
            },
        }
    }
    Ok((lhs, p))
}

} // verus!
