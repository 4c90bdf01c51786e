//! The operand forms an operator expression can take.

use vstd::prelude::*;

use crate::function::LambdaExpr;
use crate::id::Id;
use crate::literal::CompoundLiteral;
use crate::quotations::{Block, ParenExpr};

verus! {

/// An operand leaf of the operator grammar.
#[derive(Debug)]
pub enum OpExpr {
    Block(Block),
    LambdaExpr(LambdaExpr),
    ParenExpr(ParenExpr),
    CompoundLiteral(CompoundLiteral),
    Id(Id),
}

} // verus!
