//! The precedence table: one immutable, process-wide assignment of binding
//! levels to operators, pure functions of the operator kind.  Higher numbers
//! bind tighter.  The order, weakest to tightest:
//!
//! | level | operators                                          | assoc |
//! |-------|----------------------------------------------------|-------|
//! | 0     | `@@id` annotative macro-call prefix                |       |
//! | 1     | `=`, `=<-`, `:=`, `?=` assignment class            | right |
//! | 2     | `? :` ternary postfix                              |       |
//! | 3     | `\|>`, `$` pipe class                              | left  |
//! | 4     | `~id~` named infix function                        | left  |
//! | 5     | `<-` yield prefix                                  |       |
//! | 6     | `<:` extends                                       | right |
//! | 7     | `\|\|` logical or                                  | left  |
//! | 8     | `&&` logical and                                   | left  |
//! | 9     | `\|` bitwise or                                    | left  |
//! | 10    | `^` bitwise xor                                    | left  |
//! | 11    | `&` bitwise and                                    | left  |
//! | 12    | `==`, `!=` equality class                          | left  |
//! | 13    | `<`, `>`, `<=`, `>=` relational class              | left  |
//! | 14    | `<<`, `>>` shift class                             | left  |
//! | 15    | `+`, `-` additive                                  | left  |
//! | 16    | `*`, `/`, `%` multiplicative                       | left  |
//! | 17    | `!`, `-`, `~` unary prefixes                       |       |
//! | 18    | juxtaposition, index, slice, access, call postfixes|       |

use vstd::prelude::*;

use crate::lexer::TokenKind;

verus! {

/// Binding level of the annotative macro-call prefix: the weakest of all.
pub const LEVEL_MACRO_CALL: u32 = 0;

/// Binding level of the ternary postfix.
pub const LEVEL_TERNARY: u32 = 2;

/// Binding level of the yield prefix.
pub const LEVEL_YIELD: u32 = 5;

/// Binding level of the unary prefixes `!`, `-`, `~`.
pub const LEVEL_UNARY_PREFIX: u32 = 17;

/// Binding level of juxtaposition application and of the index, slice,
/// access and call-parameter postfixes: the tightest.
pub const LEVEL_JUXT: u32 = 18;

/// The binding level and associativity of an infix token kind: `Some((level,
/// right_assoc))` for infix kinds, `None` for every other kind.
pub open spec fn spec_infix_level(k: TokenKind) -> Option<(u32, bool)> {
    match k {
        TokenKind::OpAssign => Some((1u32, true)),
        TokenKind::OpAssignYield => Some((1u32, true)),
        TokenKind::OpAssignSlot => Some((1u32, true)),
        TokenKind::OpMatchEquals => Some((1u32, true)),
        TokenKind::OpPipe => Some((3u32, false)),
        TokenKind::OpFindAndCallWithThis => Some((3u32, false)),
        TokenKind::OpInfixFunction(_) => Some((4u32, false)),
        TokenKind::OpExtends => Some((6u32, true)),
        TokenKind::OpOr => Some((7u32, false)),
        TokenKind::OpAnd => Some((8u32, false)),
        TokenKind::OpBitOr => Some((9u32, false)),
        TokenKind::OpBitXor => Some((10u32, false)),
        TokenKind::OpBitAnd => Some((11u32, false)),
        TokenKind::OpEq => Some((12u32, false)),
        TokenKind::OpNeq => Some((12u32, false)),
        TokenKind::OpLt => Some((13u32, false)),
        TokenKind::OpGt => Some((13u32, false)),
        TokenKind::OpLe => Some((13u32, false)),
        TokenKind::OpGe => Some((13u32, false)),
        TokenKind::OpBitShiftL => Some((14u32, false)),
        TokenKind::OpBitShiftR => Some((14u32, false)),
        TokenKind::OpAdd => Some((15u32, false)),
        TokenKind::OpSub => Some((15u32, false)),
        TokenKind::OpMul => Some((16u32, false)),
        TokenKind::OpDiv => Some((16u32, false)),
        TokenKind::OpMod => Some((16u32, false)),
        _ => None,
    }
}

/// The binding level and associativity of an infix token kind.
pub fn infix_level(k: &TokenKind) -> (r: Option<(u32, bool)>)
    ensures
        r == spec_infix_level(*k),
{
    match k {
        TokenKind::OpAssign => Some((1, true)),
        TokenKind::OpAssignYield => Some((1, true)),
        TokenKind::OpAssignSlot => Some((1, true)),
        TokenKind::OpMatchEquals => Some((1, true)),
        TokenKind::OpPipe => Some((3, false)),
        TokenKind::OpFindAndCallWithThis => Some((3, false)),
        TokenKind::OpInfixFunction(_) => Some((4, false)),
        TokenKind::OpExtends => Some((6, true)),
        TokenKind::OpOr => Some((7, false)),
        TokenKind::OpAnd => Some((8, false)),
        TokenKind::OpBitOr => Some((9, false)),
        TokenKind::OpBitXor => Some((10, false)),
        TokenKind::OpBitAnd => Some((11, false)),
        TokenKind::OpEq => Some((12, false)),
        TokenKind::OpNeq => Some((12, false)),
        TokenKind::OpLt => Some((13, false)),
        TokenKind::OpGt => Some((13, false)),
        TokenKind::OpLe => Some((13, false)),
        TokenKind::OpGe => Some((13, false)),
        TokenKind::OpBitShiftL => Some((14, false)),
        TokenKind::OpBitShiftR => Some((14, false)),
        TokenKind::OpAdd => Some((15, false)),
        TokenKind::OpSub => Some((15, false)),
        TokenKind::OpMul => Some((16, false)),
        TokenKind::OpDiv => Some((16, false)),
        TokenKind::OpMod => Some((16, false)),
        _ => None,
    }
}

/// The binding level of a prefix token kind: `Some(level)` for the prefix
/// kinds, `None` for every other kind.  `-` is both the subtraction infix
/// and the negation prefix; position decides, so it appears in both tables.
pub open spec fn spec_prefix_level(k: TokenKind) -> Option<u32> {
    match k {
        TokenKind::OpNot => Some(LEVEL_UNARY_PREFIX),
        TokenKind::OpBitNot => Some(LEVEL_UNARY_PREFIX),
        TokenKind::OpSub => Some(LEVEL_UNARY_PREFIX),
        TokenKind::OpYield => Some(LEVEL_YIELD),
        TokenKind::MacroIdent(_) => Some(LEVEL_MACRO_CALL),
        _ => None,
    }
}

/// The binding level of a prefix token kind.
pub fn prefix_level(k: &TokenKind) -> (r: Option<u32>)
    ensures
        r == spec_prefix_level(*k),
{
    match k {
        TokenKind::OpNot => Some(LEVEL_UNARY_PREFIX),
        TokenKind::OpBitNot => Some(LEVEL_UNARY_PREFIX),
        TokenKind::OpSub => Some(LEVEL_UNARY_PREFIX),
        TokenKind::OpYield => Some(LEVEL_YIELD),
        TokenKind::MacroIdent(_) => Some(LEVEL_MACRO_CALL),
        _ => None,
    }
}

} // verus!
