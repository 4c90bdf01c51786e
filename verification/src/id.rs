//! Identifier leaves: ordinary identifiers, macro identifiers (spelled with a
//! leading `@`), and the reserved "magic" function identifiers.

use vstd::prelude::*;

verus! {

/// A macro identifier; `value` keeps the single leading `@` of its spelling.
#[derive(Debug, Clone, PartialEq)]
pub struct MacroId {
    pub value: String,
}

/// An ordinary identifier.
#[derive(Debug, Clone, PartialEq)]
pub struct NormalId {
    pub value: String,
}

/// A reserved function identifier.
#[derive(Debug, Clone, PartialEq)]
pub struct MagicFnId {
    pub value: String,
}

/// Any identifier leaf.
#[derive(Debug, Clone, PartialEq)]
pub enum Id {
    NormalId(NormalId),
    MacroId(MacroId),
    MagicFnId(MagicFnId),
}

impl Id {
    /// The identifier's text, whichever kind it is.
    pub open spec fn value_spec(&self) -> Seq<char> {
        match self {
            Id::NormalId(normal_id) => normal_id.value@,
            Id::MacroId(macro_id) => macro_id.value@,
            Id::MagicFnId(magic_fn_id) => magic_fn_id.value@,
        }
    }

    /// The identifier's text, whichever kind it is.
    pub fn value(&self) -> (r: String)
        ensures
            r@ == self.value_spec(),
    {
        match self {
            Id::NormalId(normal_id) => normal_id.value.clone(),
            Id::MacroId(macro_id) => macro_id.value.clone(),
            Id::MagicFnId(magic_fn_id) => magic_fn_id.value.clone(),
        }
    }
}

} // verus!
