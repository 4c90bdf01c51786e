//! Infix operators and their classifier.

use vstd::prelude::*;

use crate::ParseFailure;
use crate::id::{Id, NormalId};
use crate::lexer::TokenKind;

verus! {

/// A classified infix operator.
#[derive(Debug, Clone, PartialEq)]
pub enum Infix {
    Add,
    AssignYield,
    Sub,
    Mul,
    Div,
    Mod,
    Eq,
    Neq,
    Extends,
    Le,
    Ge,
    Lt,
    Gt,
    And,
    Pipe,
    FindAndCallWithThis,
    Or,
    BitOr,
    BitAnd,
    BitXor,
    BitShiftL,
    BitShiftR,
    Function(Id),
    Assign,
    MatchEquals,
    AssignSlot,
}

/// The infix operator a token kind classifies to, if it is an infix kind.
pub open spec fn infix_of_kind(k: TokenKind) -> Option<Infix> {
    match k {
        TokenKind::OpAdd => Some(Infix::Add),
        TokenKind::OpAssignYield => Some(Infix::AssignYield),
        TokenKind::OpSub => Some(Infix::Sub),
        TokenKind::OpMul => Some(Infix::Mul),
        TokenKind::OpDiv => Some(Infix::Div),
        TokenKind::OpMod => Some(Infix::Mod),
        TokenKind::OpEq => Some(Infix::Eq),
        TokenKind::OpNeq => Some(Infix::Neq),
        TokenKind::OpExtends => Some(Infix::Extends),
        TokenKind::OpLe => Some(Infix::Le),
        TokenKind::OpGe => Some(Infix::Ge),
        TokenKind::OpLt => Some(Infix::Lt),
        TokenKind::OpGt => Some(Infix::Gt),
        TokenKind::OpAnd => Some(Infix::And),
        TokenKind::OpPipe => Some(Infix::Pipe),
        TokenKind::OpFindAndCallWithThis => Some(Infix::FindAndCallWithThis),
        TokenKind::OpOr => Some(Infix::Or),
        TokenKind::OpBitOr => Some(Infix::BitOr),
        TokenKind::OpBitAnd => Some(Infix::BitAnd),
        TokenKind::OpBitXor => Some(Infix::BitXor),
        TokenKind::OpBitShiftL => Some(Infix::BitShiftL),
        TokenKind::OpBitShiftR => Some(Infix::BitShiftR),
        TokenKind::OpInfixFunction(id) => Some(
            Infix::Function(Id::NormalId(NormalId { value: id })),
        ),
        TokenKind::OpAssign => Some(Infix::Assign),
        TokenKind::OpMatchEquals => Some(Infix::MatchEquals),
        TokenKind::OpAssignSlot => Some(Infix::AssignSlot),
        _ => None,
    }
}

impl Infix {
    /// Classifies a rule kind as an infix operator.  A kind with no infix
    /// mapping is an internal grammar/classifier desynchronization, reported
    /// loudly as `InternalDesync`, never guessed around.
    pub fn from_kind(kind: &TokenKind) -> (r: Result<Infix, ParseFailure>)
        ensures
            match infix_of_kind(*kind) {
                Some(op) => r == Ok::<Infix, ParseFailure>(op),
                None => r == Err::<Infix, ParseFailure>(ParseFailure::InternalDesync),
            },
    {
        match kind {
            TokenKind::OpAdd => Ok(Infix::Add),
            TokenKind::OpAssignYield => Ok(Infix::AssignYield),
            TokenKind::OpSub => Ok(Infix::Sub),
            TokenKind::OpMul => Ok(Infix::Mul),
            TokenKind::OpDiv => Ok(Infix::Div),
            TokenKind::OpMod => Ok(Infix::Mod),
            TokenKind::OpEq => Ok(Infix::Eq),
            TokenKind::OpNeq => Ok(Infix::Neq),
            TokenKind::OpExtends => Ok(Infix::Extends),
            TokenKind::OpLe => Ok(Infix::Le),
            TokenKind::OpGe => Ok(Infix::Ge),
            TokenKind::OpLt => Ok(Infix::Lt),
            TokenKind::OpGt => Ok(Infix::Gt),
            TokenKind::OpAnd => Ok(Infix::And),
            TokenKind::OpPipe => Ok(Infix::Pipe),
            TokenKind::OpFindAndCallWithThis => Ok(Infix::FindAndCallWithThis),
            TokenKind::OpOr => Ok(Infix::Or),
            TokenKind::OpBitOr => Ok(Infix::BitOr),
            TokenKind::OpBitAnd => Ok(Infix::BitAnd),
            TokenKind::OpBitXor => Ok(Infix::BitXor),
            TokenKind::OpBitShiftL => Ok(Infix::BitShiftL),
            TokenKind::OpBitShiftR => Ok(Infix::BitShiftR),
            TokenKind::OpInfixFunction(id) => Ok(
                Infix::Function(Id::NormalId(NormalId { value: id.clone() })),
            ),
            TokenKind::OpAssign => Ok(Infix::Assign),
            TokenKind::OpMatchEquals => Ok(Infix::MatchEquals),
            TokenKind::OpAssignSlot => Ok(Infix::AssignSlot),
            _ => Err(ParseFailure::InternalDesync),
        }
    }
}

} // verus!
