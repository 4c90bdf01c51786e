//! Lexical layer: turns source text into a sequence of classified tokens,
//! each carrying its exact source extent.
//!
//! The token set is the closed enumeration of rule kinds the expression core
//! consumes (identifiers, integer and boolean literals, punctuation, and the
//! operator spellings of the precedence table).

use vstd::prelude::*;
use vstd::string::StrSliceExecFns;

use crate::ParseFailure;

verus! {

/// The closed enumeration of rule kinds the expression core consumes.
///
/// Operator spellings, weakest-binding first (see
/// `operator_precedence`): `=` assign, `=<-` assign-yield, `:=`
/// assign-to-slot, `?=` match-equals, `? :` ternary, `|>` pipe, `$`
/// find-and-call-with-this, `~id~` named infix function, `<-` yield prefix,
/// `<:` extends, `||`, `&&`, `|`, `^`, `&`, `==`, `!=`, `<`, `>`, `<=`, `>=`,
/// `<<`, `>>`, `+`, `-`, `*`, `/`, `%`, prefix `!`, `-`, `~`, and the
/// postfix group `[e]` index, `[a:b:c]` slice, `.id` access, `(args)` call
/// parameters.  `@@id` spells an annotative macro-call prefix.
#[derive(Debug, Clone, PartialEq)]
pub enum TokenKind {
    /// An ordinary identifier; its text is the payload.
    Ident(String),
    /// A macro identifier `@@id`; the payload keeps one leading `@`.
    MacroIdent(String),
    /// A decimal integer literal and its value.
    IntLit(i64),
    /// `true` or `false`.
    BoolLit(bool),
    LParen,
    RParen,
    LBracket,
    RBracket,
    Comma,
    Colon,
    Question,
    Dot,
    OpAdd,
    OpSub,
    OpMul,
    OpDiv,
    OpMod,
    OpEq,
    OpNeq,
    OpLe,
    OpGe,
    OpLt,
    OpGt,
    OpBitShiftL,
    OpBitShiftR,
    OpAnd,
    OpOr,
    OpBitAnd,
    OpBitOr,
    OpBitXor,
    OpExtends,
    OpPipe,
    OpFindAndCallWithThis,
    /// `~id~`; the payload is the identifier between the tildes.
    OpInfixFunction(String),
    OpAssign,
    OpAssignYield,
    OpAssignSlot,
    OpMatchEquals,
    OpNot,
    OpBitNot,
    OpYield,
}

/// One classified token with its exact source extent.
#[derive(Debug, Clone, PartialEq)]
pub struct Token {
    pub kind: TokenKind,
    pub diag: crate::diagnostics::Diagnostic,
}

/// Whitespace: space, tab, newline, carriage return.
pub open spec fn is_ws(c: char) -> bool {
    c == ' ' || c == '\t' || c == '\n' || c == '\r'
}

/// Identifier start: a letter or underscore.
pub open spec fn is_ident_start(c: char) -> bool {
    ('a' <= c && c <= 'z') || ('A' <= c && c <= 'Z') || c == '_'
}

/// Identifier continuation: a letter, digit or underscore.
pub open spec fn is_ident_char(c: char) -> bool {
    is_ident_start(c) || ('0' <= c && c <= '9')
}

/// A token covers a non-empty extent inside the input.
pub open spec fn token_wf(t: Token, n: int) -> bool {
    t.diag.start_offset < t.diag.end_offset <= n
}

/// Tokens cover non-empty, non-overlapping extents in source order.
pub open spec fn tokens_wf(toks: Seq<Token>, n: int) -> bool {
    &&& forall|k: int| 0 <= k < toks.len() ==> token_wf(#[trigger] toks[k], n)
    &&& forall|k: int|
        0 <= k && k + 1 < toks.len() ==> (#[trigger] toks[k].diag.end_offset)
            <= toks[k + 1].diag.start_offset
}

/// The characters of `s`, in order.
pub fn chars_of(s: &str) -> (r: Vec<char>)
    ensures
        r@ == s@,
{
    let n = s.unicode_len();
    let mut out: Vec<char> = Vec::new();
    let mut i: usize = 0;
    while i < n
        invariant
            i <= n,
            n == s@.len(),
            out@ == s@.subrange(0, i as int),
        decreases n - i,
    {
        let c = s.get_char(i);
        out.push(c);
        proof {
            assert(out@ =~= s@.subrange(0, i + 1 as int));
        }
        i = i + 1;
    }
    proof {
        assert(out@ =~= s@);
    }
    out
}

/// Builds a `String` holding exactly the given characters.
///
/// Relies on `String`'s `FromIterator<char>` implementation: collecting an
/// iterator of characters yields the string of those characters in order.
#[verifier::external_body]
pub(crate) fn string_from_chars(v: &Vec<char>) -> (s: String)
    ensures
        s@ == v@,
{
    v.iter().collect()
}

/// The string of `chars[lo..hi]`.
fn string_from_range(chars: &Vec<char>, lo: usize, hi: usize) -> (s: String)
    requires
        lo <= hi <= chars@.len(),
    ensures
        s@ == chars@.subrange(lo as int, hi as int),
{
    let mut out: Vec<char> = Vec::new();
    let mut i: usize = lo;
    while i < hi
        invariant
            lo <= i <= hi <= chars@.len(),
            out@ == chars@.subrange(lo as int, i as int),
        decreases hi - i,
    {
        out.push(chars[i]);
        proof {
            assert(out@ =~= chars@.subrange(lo as int, i + 1 as int));
        }
        i = i + 1;
    }
    string_from_chars(&out)
}

/// Whether the character at `j` can continue an identifier.
fn ident_char_at(chars: &Vec<char>, j: usize) -> (r: bool)
    requires
        j < chars@.len(),
    ensures
        r == is_ident_char(chars@[j as int]),
{
    let c = chars[j];
    ('a' <= c && c <= 'z') || ('A' <= c && c <= 'Z') || c == '_' || ('0' <= c && c <= '9')
}

/// Whether the character at `j` can continue an integer literal.
fn digit_or_underscore_at(chars: &Vec<char>, j: usize) -> (r: bool)
    requires
        j < chars@.len(),
    ensures
        r == (('0' <= chars@[j as int] && chars@[j as int] <= '9') || chars@[j as int] == '_'),
{
    let d = chars[j];
    ('0' <= d && d <= '9') || d == '_'
}

/// Scans the identifier run starting at `pos`.
fn scan_ident(chars: &Vec<char>, pos: usize) -> (j: usize)
    requires
        pos <= chars@.len(),
    ensures
        pos <= j <= chars@.len(),
        forall|k: int| pos <= k < j ==> is_ident_char(#[trigger] chars@[k]),
        j < chars@.len() ==> !is_ident_char(chars@[j as int]),
{
    let n = chars.len();
    let mut j = pos;
    while j < n && ident_char_at(chars, j)
        invariant
            pos <= j <= n == chars@.len(),
            forall|k: int| pos <= k < j ==> is_ident_char(#[trigger] chars@[k]),
        decreases n - j,
    {
        j = j + 1;
    }
    j
}

/// Turns the characters of one expression into tokens.
///
/// On success the tokens cover non-empty, non-overlapping extents in source
/// order, everything before the first and after the last token is
/// whitespace, and an empty token list means the input was all whitespace.
/// `NoMatch` reports a character no token starts with, a stray `@`, or an
/// integer literal that overflows.
pub fn lex(chars: &Vec<char>) -> (r: Result<Vec<Token>, ParseFailure>)
    requires
        chars@.len() <= usize::MAX - 2,
    ensures
        match r {
            Ok(toks) => {
                &&& tokens_wf(toks@, chars@.len() as int)
                &&& toks@.len() == 0 ==> (forall|j: int|
                    0 <= j < chars@.len() ==> is_ws(#[trigger] chars@[j]))
                &&& toks@.len() > 0 ==> (forall|j: int|
                    0 <= j < toks@[0].diag.start_offset ==> is_ws(#[trigger] chars@[j]))
                    && (forall|j: int|
                    toks@[toks@.len() - 1].diag.end_offset <= j < chars@.len() ==> is_ws(
                        #[trigger] chars@[j],
                    ))
            },
            Err(f) => f == ParseFailure::NoMatch,
        },
        (chars@.len() > 0 && is_ident_start(chars@[0]) && (forall|j: int|
            0 <= j < chars@.len() ==> is_ident_char(#[trigger] chars@[j]))) ==> (r matches Ok(toks)
            && toks@.len() == 1 && toks@[0].diag.start_offset == 0 && toks@[0].diag.end_offset
            == chars@.len() && ((toks@[0].kind matches TokenKind::Ident(s) && s@ == chars@) || (
        toks@[0].kind is BoolLit && (chars@ == seq!['t', 'r', 'u', 'e'] || chars@ == seq![
            'f',
            'a',
            'l',
            's',
            'e',
        ])))),
{
    let ghost word_input = chars@.len() > 0 && is_ident_start(chars@[0]) && (forall|j: int|
        0 <= j < chars@.len() ==> is_ident_char(#[trigger] chars@[j]));
    let n = chars.len();
    let mut toks: Vec<Token> = Vec::new();
    let mut pos: usize = 0;
    let mut line: usize = 1;
    let mut col: usize = 1;
    while pos < n
        invariant
            pos <= n == chars@.len(),
            n <= usize::MAX - 2,
            line >= 1,
            col >= 1,
            line + col <= pos + 2,
            tokens_wf(toks@, n as int),
            toks@.len() == 0 ==> (forall|j: int| 0 <= j < pos ==> is_ws(#[trigger] chars@[j])),
            toks@.len() > 0 ==> (forall|j: int|
                0 <= j < toks@[0].diag.start_offset ==> is_ws(#[trigger] chars@[j]))
                && toks@[toks@.len() - 1].diag.end_offset <= pos
                && (forall|j: int|
                toks@[toks@.len() - 1].diag.end_offset <= j < pos ==> is_ws(#[trigger] chars@[j])),
            word_input == (chars@.len() > 0 && is_ident_start(chars@[0]) && (forall|j: int|
                0 <= j < chars@.len() ==> is_ident_char(#[trigger] chars@[j]))),
            word_input ==> (pos == 0 && toks@.len() == 0) || (pos == n && toks@.len() == 1
                && toks@[0].diag.start_offset == 0 && toks@[0].diag.end_offset == chars@.len() && ((
            toks@[0].kind matches TokenKind::Ident(s) && s@ == chars@) || (toks@[0].kind is BoolLit
                && (chars@ == seq!['t', 'r', 'u', 'e'] || chars@ == seq![
                'f',
                'a',
                'l',
                's',
                'e',
            ])))),
        decreases n - pos,
    {
        let c = chars[pos];
        if c == ' ' || c == '\t' || c == '\r' {
            pos = pos + 1;
            col = col + 1;
        } else if c == '\n' {
            pos = pos + 1;
            line = line + 1;
            col = 1;
        } else {
            // One token starts here; find its kind and length.
            let kind: TokenKind;
            let tok_len: usize;
            if ('a' <= c && c <= 'z') || ('A' <= c && c <= 'Z') || c == '_' {
                let j = scan_ident(chars, pos);
                proof {
                    if word_input {
                        assert(pos == 0);
                        assert(j == n) by {
                            if j < n {
                                assert(is_ident_char(chars@[j as int]));
                            }
                        }
                        if j - pos == 4 && chars@[0] == 't' && chars@[1] == 'r' && chars@[2] == 'u'
                            && chars@[3] == 'e' {
                            assert(chars@ =~= seq!['t', 'r', 'u', 'e']);
                        }
                        if j - pos == 5 && chars@[0] == 'f' && chars@[1] == 'a' && chars@[2] == 'l'
                            && chars@[3] == 's' && chars@[4] == 'e' {
                            assert(chars@ =~= seq!['f', 'a', 'l', 's', 'e']);
                        }
                        assert(chars@.subrange(0, n as int) =~= chars@);
                    }
                }
                if j - pos == 4 && chars[pos] == 't' && chars[pos + 1] == 'r' && chars[pos + 2]
                    == 'u' && chars[pos + 3] == 'e' {
                    kind = TokenKind::BoolLit(true);
                } else if j - pos == 5 && chars[pos] == 'f' && chars[pos + 1] == 'a' && chars[pos
                    + 2] == 'l' && chars[pos + 3] == 's' && chars[pos + 4] == 'e' {
                    kind = TokenKind::BoolLit(false);
                } else {
                    kind = TokenKind::Ident(string_from_range(chars, pos, j));
                }
                tok_len = j - pos;
            } else if '0' <= c && c <= '9' {
                let mut j = pos;
                let mut value: i64 = 0;
                let mut ok = true;
                while j < n && digit_or_underscore_at(chars, j)
                    invariant
                        pos <= j <= n == chars@.len(),
                        0 <= value,
                    decreases n - j,
                {
                    let d = chars[j];
                    if d != '_' {
                        let dv = (d as u32 - '0' as u32) as i64;
                        if value > (i64::MAX - dv) / 10 {
                            ok = false;
                            value = 0;
                        } else {
                            value = value * 10 + dv;
                        }
                    }
                    j = j + 1;
                }
                if !ok {
                    return Err(ParseFailure::NoMatch);
                }
                kind = TokenKind::IntLit(value);
                tok_len = j - pos;
            } else if c == '(' {
                kind = TokenKind::LParen;
                tok_len = 1;
            } else if c == ')' {
                kind = TokenKind::RParen;
                tok_len = 1;
            } else if c == '[' {
                kind = TokenKind::LBracket;
                tok_len = 1;
            } else if c == ']' {
                kind = TokenKind::RBracket;
                tok_len = 1;
            } else if c == ',' {
                kind = TokenKind::Comma;
                tok_len = 1;
            } else if c == '.' {
                kind = TokenKind::Dot;
                tok_len = 1;
            } else if c == ':' {
                if pos + 1 < n && chars[pos + 1] == '=' {
                    kind = TokenKind::OpAssignSlot;
                    tok_len = 2;
                } else {
                    kind = TokenKind::Colon;
                    tok_len = 1;
                }
            } else if c == '?' {
                if pos + 1 < n && chars[pos + 1] == '=' {
                    kind = TokenKind::OpMatchEquals;
                    tok_len = 2;
                } else {
                    kind = TokenKind::Question;
                    tok_len = 1;
                }
            } else if c == '+' {
                kind = TokenKind::OpAdd;
                tok_len = 1;
            } else if c == '-' {
                kind = TokenKind::OpSub;
                tok_len = 1;
            } else if c == '*' {
                kind = TokenKind::OpMul;
                tok_len = 1;
            } else if c == '/' {
                kind = TokenKind::OpDiv;
                tok_len = 1;
            } else if c == '%' {
                kind = TokenKind::OpMod;
                tok_len = 1;
            } else if c == '=' {
                if pos + 1 < n && chars[pos + 1] == '=' {
                    kind = TokenKind::OpEq;
                    tok_len = 2;
                } else if pos + 2 < n && chars[pos + 1] == '<' && chars[pos + 2] == '-' {
                    kind = TokenKind::OpAssignYield;
                    tok_len = 3;
                } else {
                    kind = TokenKind::OpAssign;
                    tok_len = 1;
                }
            } else if c == '!' {
                if pos + 1 < n && chars[pos + 1] == '=' {
                    kind = TokenKind::OpNeq;
                    tok_len = 2;
                } else {
                    kind = TokenKind::OpNot;
                    tok_len = 1;
                }
            } else if c == '<' {
                if pos + 1 < n && chars[pos + 1] == '<' {
                    kind = TokenKind::OpBitShiftL;
                    tok_len = 2;
                } else if pos + 1 < n && chars[pos + 1] == '=' {
                    kind = TokenKind::OpLe;
                    tok_len = 2;
                } else if pos + 1 < n && chars[pos + 1] == ':' {
                    kind = TokenKind::OpExtends;
                    tok_len = 2;
                } else if pos + 1 < n && chars[pos + 1] == '-' {
                    kind = TokenKind::OpYield;
                    tok_len = 2;
                } else {
                    kind = TokenKind::OpLt;
                    tok_len = 1;
                }
            } else if c == '>' {
                if pos + 1 < n && chars[pos + 1] == '>' {
                    kind = TokenKind::OpBitShiftR;
                    tok_len = 2;
                } else if pos + 1 < n && chars[pos + 1] == '=' {
                    kind = TokenKind::OpGe;
                    tok_len = 2;
                } else {
                    kind = TokenKind::OpGt;
                    tok_len = 1;
                }
            } else if c == '&' {
                if pos + 1 < n && chars[pos + 1] == '&' {
                    kind = TokenKind::OpAnd;
                    tok_len = 2;
                } else {
                    kind = TokenKind::OpBitAnd;
                    tok_len = 1;
                }
            } else if c == '|' {
                if pos + 1 < n && chars[pos + 1] == '|' {
                    kind = TokenKind::OpOr;
                    tok_len = 2;
                } else if pos + 1 < n && chars[pos + 1] == '>' {
                    kind = TokenKind::OpPipe;
                    tok_len = 2;
                } else {
                    kind = TokenKind::OpBitOr;
                    tok_len = 1;
                }
            } else if c == '^' {
                kind = TokenKind::OpBitXor;
                tok_len = 1;
            } else if c == '$' {
                kind = TokenKind::OpFindAndCallWithThis;
                tok_len = 1;
            } else if c == '~' {
                // `~id~` is a named infix function; a bare `~` is bit-not.
                let j = scan_ident(chars, pos + 1);
                if j > pos + 1 && j < n && chars[j] == '~' {
                    let start1 = chars[pos + 1];
                    if ('a' <= start1 && start1 <= 'z') || ('A' <= start1 && start1 <= 'Z')
                        || start1 == '_' {
                        kind = TokenKind::OpInfixFunction(string_from_range(chars, pos + 1, j));
                        tok_len = j + 1 - pos;
                    } else {
                        kind = TokenKind::OpBitNot;
                        tok_len = 1;
                    }
                } else {
                    kind = TokenKind::OpBitNot;
                    tok_len = 1;
                }
            } else if c == '@' {
                // `@@id`; the token's payload keeps one `@`.
                if pos + 2 < n && chars[pos + 1] == '@' {
                    let start2 = chars[pos + 2];
                    if ('a' <= start2 && start2 <= 'z') || ('A' <= start2 && start2 <= 'Z')
                        || start2 == '_' {
                        let j = scan_ident(chars, pos + 2);
                        kind = TokenKind::MacroIdent(string_from_range(chars, pos + 1, j));
                        tok_len = j - pos;
                    } else {
                        return Err(ParseFailure::NoMatch);
                    }
                } else {
                    return Err(ParseFailure::NoMatch);
                }
            } else {
                return Err(ParseFailure::NoMatch);
            }
            assert(tok_len >= 1);
            assert(pos + tok_len <= n);
            let token = Token {
                kind,
                diag: crate::diagnostics::Diagnostic {
                    start_line: line,
                    start_col: col,
                    start_offset: pos,
                    end_line: line,
                    end_col: col + tok_len,
                    end_offset: pos + tok_len,
                },
            };
            toks.push(token);
            col = col + tok_len;
            pos = pos + tok_len;
        }
    }
    Ok(toks)
}

} // verus!
