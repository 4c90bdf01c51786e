//! Numeric literals: integers in four radixes, and the three float spellings
//! (kept as their integer components; evaluating a float literal to a machine
//! float is left to downstream consumers).

use vstd::prelude::*;

verus! {

/// Whether `c` is a digit of base `radix` (2, 8, 10 or 16; hex accepts both
/// cases).
pub open spec fn is_radix_digit(c: char, radix: int) -> bool {
    if radix == 16 {
        ('0' <= c && c <= '9') || ('a' <= c && c <= 'f') || ('A' <= c && c <= 'F')
    } else {
        '0' <= c && c as int <= '0' as int + (radix - 1)
    }
}

/// The numeric value of one digit.
pub open spec fn digit_value(c: char) -> int {
    if '0' <= c && c <= '9' {
        c as int - '0' as int
    } else if 'a' <= c && c <= 'f' {
        c as int - 'a' as int + 10
    } else if 'A' <= c && c <= 'F' {
        c as int - 'A' as int + 10
    } else {
        0
    }
}

/// The value of a digit string read in base `radix`, most significant digit
/// first.
pub open spec fn digits_value(s: Seq<char>, radix: int) -> int
    decreases s.len(),
{
    if s.len() == 0 {
        0
    } else {
        digits_value(s.drop_last(), radix) * radix + digit_value(s.last())
    }
}

/// Whether every character of `s` is a digit of base `radix`.
pub open spec fn all_radix_digits(s: Seq<char>, radix: int) -> bool {
    forall|i: int| 0 <= i < s.len() ==> is_radix_digit(#[trigger] s[i], radix)
}

/// `s` with every underscore removed.
pub open spec fn strip_underscores(s: Seq<char>) -> Seq<char>
    decreases s.len(),
{
    if s.len() == 0 {
        Seq::empty()
    } else {
        let p = strip_underscores(s.drop_last());
        if s.last() == '_' {
            p
        } else {
            p.push(s.last())
        }
    }
}

/// The radix selected by a literal's prefix: `0x`/`0X` is 16, `0b`/`0B` is 2,
/// `0o`/`0O` is 8, anything else is decimal.  Only literals longer than two
/// characters (after underscore removal) carry a prefix.
pub open spec fn literal_radix(t: Seq<char>) -> int {
    if t.len() > 2 && t[0] == '0' && (t[1] == 'x' || t[1] == 'X') {
        16
    } else if t.len() > 2 && t[0] == '0' && (t[1] == 'b' || t[1] == 'B') {
        2
    } else if t.len() > 2 && t[0] == '0' && (t[1] == 'o' || t[1] == 'O') {
        8
    } else {
        10
    }
}

/// The digit part of a literal: everything after the radix prefix, if any.
pub open spec fn literal_digits(t: Seq<char>) -> Seq<char> {
    if literal_radix(t) == 10 {
        t
    } else {
        t.subrange(2, t.len() as int)
    }
}

/// Whether `s` is a well-formed integer literal once underscores are removed:
/// a non-empty digit string, optionally preceded by a radix prefix.
pub open spec fn is_int_literal(s: Seq<char>) -> bool {
    let t = strip_underscores(s);
    let d = literal_digits(t);
    d.len() > 0 && all_radix_digits(d, literal_radix(t))
}

/// The value denoted by the integer literal `s` (underscores ignored).
pub open spec fn int_literal_value(s: Seq<char>) -> int {
    let t = strip_underscores(s);
    digits_value(literal_digits(t), literal_radix(t))
}

/// Appending one digit: the value of a digit string grows by one radix step.
proof fn lemma_digits_value_snoc(s: Seq<char>, c: char, radix: int)
    ensures
        digits_value(s.push(c), radix) == digits_value(s, radix) * radix + digit_value(c),
{
    assert(s.push(c).drop_last() =~= s);
    assert(s.push(c).last() == c);
}

/// The value of a digit string is non-negative and no digit prefix exceeds
/// the whole string's value.
proof fn lemma_digits_value_bounds(s: Seq<char>, radix: int)
    requires
        2 <= radix <= 16,
        all_radix_digits(s, radix),
    ensures
        0 <= digits_value(s, radix),
        forall|i: int|
            0 <= i <= s.len() ==> #[trigger] digits_value(s.subrange(0, i), radix) <= digits_value(
                s,
                radix,
            ),
    decreases s.len(),
{
    if s.len() == 0 {
        assert(forall|i: int|
            0 <= i <= s.len() ==> s.subrange(0, i) =~= s);
    } else {
        let p = s.drop_last();
        assert(all_radix_digits(p, radix)) by {
            assert(forall|i: int| 0 <= i < p.len() ==> p[i] == s[i]);
        }
        lemma_digits_value_bounds(p, radix);
        let vp = digits_value(p, radix);
        let d = digit_value(s.last());
        assert(is_radix_digit(s.last(), radix));
        assert(0 <= d);
        assert(vp * radix >= vp) by (nonlinear_arith)
            requires
                vp >= 0,
                radix >= 1,
        ;
        assert(digits_value(s, radix) >= vp);
        assert forall|i: int| 0 <= i <= s.len() implies #[trigger] digits_value(
            s.subrange(0, i),
            radix,
        ) <= digits_value(s, radix) by {
            if i == s.len() {
                assert(s.subrange(0, i) =~= s);
            } else {
                assert(s.subrange(0, i) =~= p.subrange(0, i));
            }
        }
    }
}

/// Reads the digit characters `chars[lo..hi]` in base `radix`.
pub(crate) fn parse_digits(chars: &Vec<char>, lo: usize, hi: usize, radix: u32) -> (r: i64)
    requires
        lo <= hi <= chars@.len(),
        radix == 2 || radix == 8 || radix == 10 || radix == 16,
        all_radix_digits(chars@.subrange(lo as int, hi as int), radix as int),
        digits_value(chars@.subrange(lo as int, hi as int), radix as int) <= i64::MAX,
    ensures
        r == digits_value(chars@.subrange(lo as int, hi as int), radix as int),
{
    let ghost whole = chars@.subrange(lo as int, hi as int);
    proof {
        lemma_digits_value_bounds(whole, radix as int);
    }
    let mut value: i64 = 0;
    let mut i: usize = lo;
    while i < hi
        invariant
            lo <= i <= hi <= chars@.len(),
            radix == 2 || radix == 8 || radix == 10 || radix == 16,
            all_radix_digits(whole, radix as int),
            digits_value(whole, radix as int) <= i64::MAX,
            whole =~= chars@.subrange(lo as int, hi as int),
            value == digits_value(whole.subrange(0, i - lo), radix as int),
            forall|k: int|
                0 <= k <= whole.len() ==> #[trigger] digits_value(whole.subrange(0, k), radix as int)
                    <= digits_value(whole, radix as int),
        decreases hi - i,
    {
        let c = chars[i];
        assert(c == whole[i - lo]);
        assert(is_radix_digit(c, radix as int));
        let d: i64 = digit_of_char(c);
        proof {
            let pre = whole.subrange(0, i - lo);
            let post = whole.subrange(0, i + 1 - lo);
            assert(post =~= pre.push(c));
            lemma_digits_value_snoc(pre, c, radix as int);
            lemma_digits_value_bounds(pre, radix as int);
        }
        value = value * (radix as i64) + d;
        i = i + 1;
    }
    assert(whole.subrange(0, hi - lo) =~= whole);
    value
}

/// The numeric value of one digit character.
fn digit_of_char(c: char) -> (r: i64)
    requires
        is_radix_digit(c, 16) || c == '8' || c == '9',
    ensures
        r == digit_value(c),
{
    if '0' <= c && c <= '9' {
        (c as u32 - '0' as u32) as i64
    } else if 'a' <= c && c <= 'f' {
        (c as u32 - 'a' as u32 + 10) as i64
    } else {
        (c as u32 - 'A' as u32 + 10) as i64
    }
}

/// Parses an integer literal: underscores are ignored, and a `0x`, `0b` or
/// `0o` prefix (either case) selects the radix, decimal otherwise.
///
/// The caller must pass a well-formed literal whose value fits in `i64`:
/// inputs on which an unchecked conversion would abort are excluded up
/// front.
pub fn helper_parse_int(s: &str) -> (r: i64)
    requires
        is_int_literal(s@),
        int_literal_value(s@) <= i64::MAX,
    ensures
        r == int_literal_value(s@),
{
    let chars = crate::lexer::chars_of(s);
    let stripped = strip_underscore_chars(&chars);
    let ghost t = strip_underscores(s@);
    let n = stripped.len();
    proof {
        assert(stripped@.subrange(0, n as int) =~= t);
    }
    if n > 2 && stripped[0] == '0' && (stripped[1] == 'x' || stripped[1] == 'X') {
        parse_digits(&stripped, 2, n, 16)
    } else if n > 2 && stripped[0] == '0' && (stripped[1] == 'b' || stripped[1] == 'B') {
        parse_digits(&stripped, 2, n, 2)
    } else if n > 2 && stripped[0] == '0' && (stripped[1] == 'o' || stripped[1] == 'O') {
        parse_digits(&stripped, 2, n, 8)
    } else {
        parse_digits(&stripped, 0, n, 10)
    }
}

/// Removes every underscore from `chars`.
fn strip_underscore_chars(chars: &Vec<char>) -> (r: Vec<char>)
    ensures
        r@ == strip_underscores(chars@),
{
    let mut out: Vec<char> = Vec::new();
    let mut i: usize = 0;
    while i < chars.len()
        invariant
            i <= chars@.len(),
            out@ == strip_underscores(chars@.subrange(0, i as int)),
        decreases chars@.len() - i,
    {
        let c = chars[i];
        proof {
            let pre = chars@.subrange(0, i as int);
            let post = chars@.subrange(0, i + 1 as int);
            assert(post.drop_last() =~= pre);
            assert(post.last() == c);
        }
        if c != '_' {
            out.push(c);
        }
        i = i + 1;
    }
    proof {
        assert(chars@.subrange(0, chars@.len() as int) =~= chars@);
    }
    out
}

/// A binary integer literal.
#[derive(Debug, Clone, PartialEq)]
pub struct BinInt {
    pub value: i64,
}

/// An octal integer literal.
#[derive(Debug, Clone, PartialEq)]
pub struct OctInt {
    pub value: i64,
}

/// A hexadecimal integer literal.
#[derive(Debug, Clone, PartialEq)]
pub struct HexInt {
    pub value: i64,
}

/// A decimal integer literal.
#[derive(Debug, Clone, PartialEq)]
pub struct DecInt {
    pub value: i64,
}

/// An integer literal in any radix.
#[derive(Debug, Clone, PartialEq)]
pub enum Int {
    BinInt(BinInt),
    OctInt(OctInt),
    HexInt(HexInt),
    DecInt(DecInt),
}

impl Int {
    /// The literal's value, whichever radix it was written in.
    pub open spec fn value_spec(&self) -> i64 {
        match self {
            Int::BinInt(bin_int) => bin_int.value,
            Int::OctInt(oct_int) => oct_int.value,
            Int::HexInt(hex_int) => hex_int.value,
            Int::DecInt(dec_int) => dec_int.value,
        }
    }

    /// The literal's value, whichever radix it was written in.
    pub fn value(&self) -> (r: i64)
        ensures
            r == self.value_spec(),
    {
        match self {
            Int::BinInt(bin_int) => bin_int.value,
            Int::OctInt(oct_int) => oct_int.value,
            Int::HexInt(hex_int) => hex_int.value,
            Int::DecInt(dec_int) => dec_int.value,
        }
    }
}

/// What the exponent text of a float literal denotes: the digits after the
/// marker and optional sign, negated when the sign is `-`.
pub open spec fn exponent_value(s: Seq<char>) -> int {
    if s.len() >= 2 && s[1] == '-' {
        -int_literal_value(s.subrange(2, s.len() as int))
    } else if s.len() >= 2 && s[1] == '+' {
        int_literal_value(s.subrange(2, s.len() as int))
    } else {
        int_literal_value(s.subrange(1, s.len() as int))
    }
}

/// Whether the exponent text is well formed: the marker, an optional sign,
/// then an integer literal.
pub open spec fn is_exponent_text(s: Seq<char>) -> bool {
    if s.len() >= 2 && (s[1] == '-' || s[1] == '+') {
        is_int_literal(s.subrange(2, s.len() as int))
    } else {
        s.len() >= 1 && is_int_literal(s.subrange(1, s.len() as int))
    }
}

/// Parses the exponent part of a float literal, `e10`, `e+10` or `e-10`,
/// sign applied to the digits' value.
pub fn parse_exponent_part(s: &str) -> (r: i64)
    requires
        is_exponent_text(s@),
        exponent_value(s@) <= i64::MAX,
        -(i64::MAX as int) <= exponent_value(s@),
    ensures
        r == exponent_value(s@),
{
    let chars = crate::lexer::chars_of(s);
    let n = chars.len();
    if n >= 2 && chars[1] == '-' {
        let tail = crate::lexer::string_from_chars(&tail_from(&chars, 2));
        let v = helper_parse_int(tail.as_str());
        -v
    } else if n >= 2 && chars[1] == '+' {
        let tail = crate::lexer::string_from_chars(&tail_from(&chars, 2));
        helper_parse_int(tail.as_str())
    } else {
        let tail = crate::lexer::string_from_chars(&tail_from(&chars, 1));
        helper_parse_int(tail.as_str())
    }
}

/// The characters of `chars` from `lo` on.
fn tail_from(chars: &Vec<char>, lo: usize) -> (r: Vec<char>)
    requires
        lo <= chars@.len(),
    ensures
        r@ == chars@.subrange(lo as int, chars@.len() as int),
{
    let mut out: Vec<char> = Vec::new();
    let mut i: usize = lo;
    while i < chars.len()
        invariant
            lo <= i <= chars@.len(),
            out@ == chars@.subrange(lo as int, i as int),
        decreases chars@.len() - i,
    {
        out.push(chars[i]);
        proof {
            assert(out@ =~= chars@.subrange(lo as int, i + 1 as int));
        }
        i = i + 1;
    }
    proof {
        assert(out@ =~= chars@.subrange(lo as int, chars@.len() as int));
    }
    out
}

/// The exponent of a float literal, sign already applied.
#[derive(Debug, Clone, PartialEq)]
pub struct ExponentPart {
    pub value: i64,
}

/// A float written as integer and exponent, `10e-2`.
#[derive(Debug, Clone, PartialEq)]
pub struct Float1 {
    pub value: Int,
    pub exponent_part: ExponentPart,
}

/// A float written with integer and fractional parts, `10.25e-2`.
#[derive(Debug, Clone, PartialEq)]
pub struct Float2 {
    pub value: Int,
    pub sub: Int,
    pub exponent_part: Option<ExponentPart>,
}

/// A float written with a fractional part only, `.25e-2`.
#[derive(Debug, Clone, PartialEq)]
pub struct Float3 {
    pub sub: Int,
    pub exponent_part: Option<ExponentPart>,
}

/// A float literal in any of the three spellings.
#[derive(Debug, Clone, PartialEq)]
pub enum Float {
    Float1(Float1),
    Float2(Float2),
    Float3(Float3),
}

/// A numeric literal.
#[derive(Debug, Clone, PartialEq)]
pub enum SapNumber {
    Float(Float),
    Int(Int),
}

} // verus!
