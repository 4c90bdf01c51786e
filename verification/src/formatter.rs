//! Options and context for downstream pretty-printers.  The printers
//! themselves are external consumers of the tree; only their configuration
//! surface lives here.

use vstd::prelude::*;

verus! {

/// Which application notation a printer should prefer.
#[derive(Debug, Clone, PartialEq)]
pub enum FunctionApplicationStyle {
    CStyle,
    MLStyle,
}

/// Global printing options.
pub struct GlobalOptions {
    pub indent_size: u32,
    pub screen_width: u32,

    pub function_application_style: FunctionApplicationStyle,

    /// Transform a small index `a["b"]` into an access `a.b`.
    pub small_postfix_index_to_postfix_access: bool,

    /// Transform a small block body into an inline body.
    pub small_block_to_inline: bool,

    /// Transform a lambda without parameters into the parameterless form.
    pub lambda_no_parameter: bool,

    /// Always print a trailing comma in arrays and objects.
    pub always_tailing_comma: bool,

    /// Print a binary juxtaposition application `a b c` as `b ~a~ c`.
    pub binary_function_to_infix: bool,
}

/// Per-call printing context.
pub struct Context {
    pub indent_level: u32,
}

/// Implemented by printable nodes; printers are external to this crate.
pub trait PrettyPrint {
    fn pretty_print(&self, context: &Context, options: &GlobalOptions) -> String;

    /// For nodes that can span several lines; `None` when the node cannot.
    fn multiline_pretty_print(&self, _context: &Context, _options: &GlobalOptions) -> Option<
        String,
    > {
        None
    }
}

} // verus!
