//! Expression-parsing core of the Sap language front end.
//!
//! The crate turns source text into a typed expression tree annotated with
//! exact source positions.  The language supports two function-application
//! notations, juxtaposition (`f a b`) and parenthesized call (`f(a, b)`),
//! plus a full set of prefix, infix and postfix operators.  Juxtaposition is
//! parsed as a generic one-argument postfix production; a small
//! normalization pass (`church_encoded`) re-flattens chains of these into
//! n-ary application nodes.

pub mod church_encoded;
pub mod climb;
pub mod diagnostics;
pub mod equality;
pub mod expr;
pub mod formatter;
pub mod function;
pub mod id;
pub mod infix;
pub mod lexer;
pub mod literal;
pub mod number;
pub mod object;
pub mod op_expr;
pub mod operator_precedence;
pub mod pattern;
pub mod postfix;
pub mod prefix;
pub mod quotations;
pub mod strings;

use vstd::prelude::*;

verus! {

/// How a parse can fail.
///
/// `NoMatch` means no expression could be recognized (empty input, a dangling
/// operator, an unclosed bracket).  `InternalDesync` signals a contract
/// violation between the token layer and the classifier — a rule kind with no
/// mapping — and never a user syntax error.
#[derive(Debug, Clone, Copy, PartialEq, Eq, Structural)]
pub enum ParseFailure {
    NoMatch,
    InternalDesync,
}

/// The expression parser.  Parsing is a pure function of the input text:
/// one call of `parse_expr` either returns a tree or fails with an error
/// value, and no state survives the call.
pub struct SapParser;

/// Parses one self-contained expression.
///
/// On success the tree is finished — no ephemeral `CAppParams` or
/// `MlAppParam` postfix survives anywhere in it — and, when the input
/// neither starts nor ends with whitespace, the root node's extent is
/// exactly `0..len(input)`.  Empty input, input of whitespace only, a
/// dangling operator and unconsumed trailing input all fail with `NoMatch`;
/// the `InternalDesync` failure never escapes this entry point, because the
/// token layer produces only rule kinds the classifier knows (this is
/// proved, not assumed).  Success is owed at least to every plain word: an
/// input that is one identifier-shaped token parses.
///
/// The length bound is a machine limit: positions are counted in `usize`.
pub fn parse_expr(input: &str) -> (r: Result<expr::Expr, ParseFailure>)
    requires
        input@.len() <= usize::MAX - 2,
    ensures
        match r {
            Ok(e) => {
                &&& expr::is_finished(e)
                &&& input@.len() > 0
                &&& (!lexer::is_ws(input@[0]) ==> e.diag.start_offset == 0)
                &&& (!lexer::is_ws(input@[input@.len() - 1]) ==> e.diag.end_offset == input@.len())
            },
            Err(f) => f == ParseFailure::NoMatch,
        },
        input@.len() == 0 ==> r == Err::<expr::Expr, ParseFailure>(ParseFailure::NoMatch),
        (input@.len() > 0 && lexer::is_ident_start(input@[0]) && (forall|j: int|
            0 <= j < input@.len() ==> lexer::is_ident_char(#[trigger] input@[j]))) ==> r is Ok,
        (input@.len() > 0 && lexer::is_ident_start(input@[0]) && (forall|j: int|
            0 <= j < input@.len() ==> lexer::is_ident_char(#[trigger] input@[j])) && input@ != seq![
            't',
            'r',
            'u',
            'e',
        ] && input@ != seq!['f', 'a', 'l', 's', 'e']) ==> (r matches Ok(e) && exists|nid:
            id::NormalId|
            e.inner == expr::ExprInner::Primary(
                expr::Primary::Id(id::Id::NormalId(nid)),
            ) && nid.value@ == input@),
{
    let ghost word_input = input@.len() > 0 && lexer::is_ident_start(input@[0]) && (forall|j: int|
        0 <= j < input@.len() ==> lexer::is_ident_char(#[trigger] input@[j]));
    let chars = lexer::chars_of(input);
    let toks = match lexer::lex(&chars) {
        Ok(toks) => toks,
        Err(f) => {
            proof {
                assert(!word_input);
            }
            return Err(f);
        },
    };
    proof {
        if word_input {
            assert(toks@.len() == 1);
            assert(toks@[0].kind is Ident || toks@[0].kind is BoolLit);
        }
    }
    if toks.len() == 0 {
        proof {
            assert(!word_input);
        }
        return Err(ParseFailure::NoMatch);
    }
    match climb::climb(&toks, 0, 0) {
        Ok((e, p)) => {
            if p == toks.len() {
                proof {
                    if !lexer::is_ws(input@[0]) {
                        assert(toks@[0].diag.start_offset == 0) by {
                            if toks@[0].diag.start_offset > 0 {
                                assert(lexer::is_ws(chars@[0]));
                            }
                        }
                    }
                    if !lexer::is_ws(input@[input@.len() - 1]) {
                        let last = toks@[toks@.len() - 1];
                        assert(last.diag.end_offset == input@.len()) by {
                            if last.diag.end_offset < input@.len() {
                                assert(lexer::is_ws(chars@[chars@.len() - 1]));
                            }
                        }
                    }
                    if word_input && input@ != seq!['t', 'r', 'u', 'e'] && input@ != seq![
                        'f',
                        'a',
                        'l',
                        's',
                        'e',
                    ] {
                        match toks@[0].kind {
                            lexer::TokenKind::Ident(s) => {
                                assert(s@ == input@);
                                let nid = id::NormalId { value: s };
                                assert(e.inner == expr::ExprInner::Primary(
                                    expr::Primary::Id(id::Id::NormalId(nid)),
                                ) && nid.value@ == input@);
                            },
                            _ => {
                                assert(false);
                            },
                        }
                    }
                }
                Ok(e)
            } else {
                proof {
                    assert(!word_input);
                }
                Err(ParseFailure::NoMatch)
            }
        },
        Err(f) => {
            proof {
                assert(!word_input);
            }
            Err(f)
        },
    }
}


} // verus!
