//! Prefix operators and their classifier.

use vstd::prelude::*;

use crate::ParseFailure;
use crate::expr::Expr;
use crate::id::MacroId;
use crate::lexer::TokenKind;

verus! {

/// A classified prefix operator.  An annotative macro call carries the macro
/// identifier and, optionally, its own parenthesized argument.
#[derive(Debug)]
pub enum Prefix {
    Not,
    BitNot,
    Neg,
    Yield,
    AnnotativeMacroCall(MacroId, Option<Box<Expr>>),
}

/// The prefix operator a token kind classifies to, if it is a prefix kind.
/// A macro-call kind classifies with no argument attached; the climbing
/// algorithm attaches one when the source supplies it.
pub open spec fn prefix_of_kind(k: TokenKind) -> Option<Prefix> {
    match k {
        TokenKind::OpNot => Some(Prefix::Not),
        TokenKind::OpBitNot => Some(Prefix::BitNot),
        TokenKind::OpSub => Some(Prefix::Neg),
        TokenKind::OpYield => Some(Prefix::Yield),
        TokenKind::MacroIdent(id) => Some(
            Prefix::AnnotativeMacroCall(MacroId { value: id }, None),
        ),
        _ => None,
    }
}

impl Prefix {
    /// Classifies a rule kind as a prefix operator.  A kind with no prefix
    /// mapping is an internal grammar/classifier desynchronization, reported
    /// loudly as `InternalDesync`, never guessed around.
    pub fn from_kind(kind: &TokenKind) -> (r: Result<Prefix, ParseFailure>)
        ensures
            match prefix_of_kind(*kind) {
                Some(op) => r == Ok::<Prefix, ParseFailure>(op),
                None => r == Err::<Prefix, ParseFailure>(ParseFailure::InternalDesync),
            },
    {
        match kind {
            TokenKind::OpNot => Ok(Prefix::Not),
            TokenKind::OpBitNot => Ok(Prefix::BitNot),
            TokenKind::OpSub => Ok(Prefix::Neg),
            TokenKind::OpYield => Ok(Prefix::Yield),
            TokenKind::MacroIdent(id) => Ok(
                Prefix::AnnotativeMacroCall(MacroId { value: id.clone() }, None),
            ),
            _ => Err(ParseFailure::InternalDesync),
        }
    }
}

/// Every prefix operator the classifier yields is finished: no classified
/// kind carries a macro-call argument.
pub proof fn lemma_prefix_of_kind_finished(k: TokenKind)
    ensures
        match prefix_of_kind(k) {
            Some(op) => crate::expr::prefix_finished(op),
            None => true,
        },
{
}

} // verus!
