//! String literals and escape decoding.
//!
//! A normal string is a sequence of fragments, some plain text, some escaped.
//! Escape decoding happens in two layers, exactly mirrored by the spec
//! functions here: first the single-character C-style escapes (with `\\`
//! parked as the two-character marker `\r` so later layers cannot misread an
//! escaped backslash), then at most one family of numeric escapes (`\U` with
//! eight hex digits, else `\u` with four, else `\x` with two, else octal
//! `\nnn`), then the parked marker is restored to a single backslash.

use vstd::prelude::*;

use crate::lexer::chars_of;
use crate::number::{digits_value, is_radix_digit, digit_value};

verus! {

/// An escaped string fragment; `value` holds the decoded text.
#[derive(Debug, Clone, PartialEq)]
pub struct EscapedStringFragment {
    pub value: String,
}

/// A plain string fragment, kept as written.
#[derive(Debug, Clone, PartialEq)]
pub struct NormalStringFragment {
    pub value: String,
}

/// One fragment of a normal string.
#[derive(Debug, Clone, PartialEq)]
pub enum NormalStringInner {
    NormalStringFragment(NormalStringFragment),
    EscapedStringFragment(EscapedStringFragment),
}

/// A normal (escapable) string literal.
#[derive(Debug, Clone, PartialEq)]
pub struct NormalString {
    pub inner: Vec<NormalStringInner>,
}

/// The text of one fragment.
pub open spec fn fragment_text(f: NormalStringInner) -> Seq<char> {
    match f {
        NormalStringInner::NormalStringFragment(fragment) => fragment.value@,
        NormalStringInner::EscapedStringFragment(fragment) => fragment.value@,
    }
}

/// The texts of all fragments, concatenated in order.
pub open spec fn fragments_concat(s: Seq<NormalStringInner>) -> Seq<char>
    decreases s.len(),
{
    if s.len() == 0 {
        Seq::empty()
    } else {
        fragments_concat(s.drop_last()) + fragment_text(s.last())
    }
}

impl NormalString {
    /// The string's full text: its fragments joined in order.
    pub fn value(&self) -> (r: String)
        ensures
            r@ == fragments_concat(self.inner@),
    {
        let mut out = String::new();
        let mut i: usize = 0;
        while i < self.inner.len()
            invariant
                i <= self.inner@.len(),
                out@ == fragments_concat(self.inner@.subrange(0, i as int)),
            decreases self.inner@.len() - i,
        {
            proof {
                let pre = self.inner@.subrange(0, i as int);
                let post = self.inner@.subrange(0, i + 1 as int);
                assert(post.drop_last() =~= pre);
            }
            match &self.inner[i] {
                NormalStringInner::NormalStringFragment(fragment) => {
                    vstd::string::StringExecFns::append(&mut out, fragment.value.as_str());
                },
                NormalStringInner::EscapedStringFragment(fragment) => {
                    vstd::string::StringExecFns::append(&mut out, fragment.value.as_str());
                },
            }
            i = i + 1;
        }
        proof {
            assert(self.inner@.subrange(0, self.inner@.len() as int) =~= self.inner@);
        }
        out
    }
}

/// The body of a raw string, kept exactly as written.
#[derive(Debug, Clone, PartialEq)]
pub struct RawStringInner {
    pub value: String,
}

/// A raw string literal.
#[derive(Debug, Clone, PartialEq)]
pub struct RawString {
    pub inner: RawStringInner,
}

/// Any string literal.
#[derive(Debug, Clone, PartialEq)]
pub enum SapString {
    NormalString(NormalString),
    RawString(RawString),
}

impl SapString {
    /// The string's text: joined fragments for a normal string, the raw body
    /// for a raw string.
    pub open spec fn value_spec(&self) -> Seq<char> {
        match self {
            SapString::NormalString(normal_string) => fragments_concat(normal_string.inner@),
            SapString::RawString(raw_string) => raw_string.inner.value@,
        }
    }

    /// The string's text: joined fragments for a normal string, the raw body
    /// for a raw string.
    pub fn value(&self) -> (r: String)
        ensures
            r@ == self.value_spec(),
    {
        match self {
            SapString::NormalString(normal_string) => normal_string.value(),
            SapString::RawString(raw_string) => raw_string.inner.value.clone(),
        }
    }
}

/// Replaces every non-overlapping occurrence of `pat` in `s` with `rep`,
/// scanning left to right.
pub open spec fn replace_seq(s: Seq<char>, pat: Seq<char>, rep: Seq<char>) -> Seq<char>
    recommends
        pat.len() > 0,
    decreases s.len(),
{
    if s.len() == 0 {
        Seq::empty()
    } else if pat.len() > 0 && pat.len() <= s.len() && s.subrange(0, pat.len() as int) == pat {
        rep + replace_seq(s.skip(pat.len() as int), pat, rep)
    } else {
        seq![s[0]] + replace_seq(s.skip(1), pat, rep)
    }
}

/// Whether `pat` occurs in `v` at position `i`.
fn matches_at(v: &Vec<char>, pat: &Vec<char>, i: usize) -> (r: bool)
    requires
        i <= v@.len(),
        pat@.len() > 0,
    ensures
        r == (i + pat@.len() <= v@.len() && v@.subrange(i as int, i + pat@.len()) == pat@),
{
    if v.len() < pat.len() || i > v.len() - pat.len() {
        return false;
    }
    let mut k: usize = 0;
    let mut m = true;
    while k < pat.len() && m
        invariant
            k <= pat@.len(),
            i + pat@.len() <= v@.len(),
            v@.len() <= usize::MAX,
            m ==> v@.subrange(i as int, i + k) == pat@.subrange(0, k as int),
            !m ==> v@.subrange(i as int, i + pat@.len()) != pat@,
        decreases pat@.len() - k,
    {
        assert(i + k < v@.len());
        let vc = v[i + k];
        if vc != pat[k] {
            proof {
                assert(v@.subrange(i as int, i + pat@.len())[k as int] == v@[i + k]);
                assert(vc == v@[i + k]);
            }
            m = false;
        } else {
            proof {
                assert(vc == v@[i + k]);
                assert(v@.subrange(i as int, i + k + 1) =~= v@.subrange(i as int, i + k).push(
                    v@[i + k],
                ));
                assert(pat@.subrange(0, k + 1 as int) =~= pat@.subrange(0, k as int).push(
                    pat@[k as int],
                ));
            }
        }
        k = k + 1;
    }
    if m {
        proof {
            assert(v@.subrange(i as int, i + pat@.len()) == pat@.subrange(0, pat@.len() as int));
            assert(pat@.subrange(0, pat@.len() as int) =~= pat@);
        }
    }
    m
}

/// Replaces every non-overlapping occurrence of `pat` in `v` with `rep`.
fn replace_chars(v: &Vec<char>, pat: &Vec<char>, rep: &Vec<char>) -> (out: Vec<char>)
    requires
        pat@.len() > 0,
    ensures
        out@ == replace_seq(v@, pat@, rep@),
{
    let mut out: Vec<char> = Vec::new();
    let mut i: usize = 0;
    proof {
        assert(v@.skip(0) =~= v@);
        assert(Seq::<char>::empty() + replace_seq(v@, pat@, rep@) =~= replace_seq(v@, pat@, rep@));
    }
    while i < v.len()
        invariant
            i <= v@.len(),
            pat@.len() > 0,
            replace_seq(v@, pat@, rep@) == out@ + replace_seq(v@.skip(i as int), pat@, rep@),
        decreases v@.len() - i,
    {
        let ghost pre = out@;
        let ghost rest = v@.skip(i as int);
        if matches_at(v, pat, i) {
            proof {
                assert(rest.subrange(0, pat@.len() as int) =~= v@.subrange(
                    i as int,
                    i + pat@.len(),
                ));
                assert(rest.skip(pat@.len() as int) =~= v@.skip(i + pat@.len()));
            }
            let mut k: usize = 0;
            while k < rep.len()
                invariant
                    k <= rep@.len(),
                    out@ == pre + rep@.subrange(0, k as int),
                decreases rep@.len() - k,
            {
                out.push(rep[k]);
                proof {
                    assert(pre + rep@.subrange(0, k + 1 as int) =~= (pre + rep@.subrange(
                        0,
                        k as int,
                    )).push(rep@[k as int]));
                }
                k = k + 1;
            }
            proof {
                assert(rep@.subrange(0, rep@.len() as int) =~= rep@);
                assert(replace_seq(rest, pat@, rep@) == rep@ + replace_seq(
                    v@.skip(i + pat@.len()),
                    pat@,
                    rep@,
                ));
                assert(pre + (rep@ + replace_seq(v@.skip(i + pat@.len()), pat@, rep@)) =~= (pre
                    + rep@) + replace_seq(v@.skip(i + pat@.len()), pat@, rep@));
            }
            i = i + pat.len();
        } else {
            out.push(v[i]);
            proof {
                assert(rest.len() > 0);
                assert(rest[0] == v@[i as int]);
                if pat@.len() <= rest.len() {
                    assert(rest.subrange(0, pat@.len() as int) =~= v@.subrange(
                        i as int,
                        i + pat@.len(),
                    ));
                }
                assert(rest.skip(1) =~= v@.skip(i + 1));
                assert(replace_seq(rest, pat@, rep@) == seq![v@[i as int]] + replace_seq(
                    v@.skip(i + 1),
                    pat@,
                    rep@,
                ));
                assert(pre + (seq![v@[i as int]] + replace_seq(v@.skip(i + 1), pat@, rep@)) =~= (pre
                    + seq![v@[i as int]]) + replace_seq(v@.skip(i + 1), pat@, rep@));
                assert(pre + seq![v@[i as int]] =~= pre.push(v@[i as int]));
            }
            i = i + 1;
        }
    }
    proof {
        assert(v@.skip(v@.len() as int) =~= Seq::<char>::empty());
        assert(out@ + Seq::<char>::empty() =~= out@);
    }
    out
}

/// The single-character C-style escapes, applied in order.  `\\` is parked
/// as the two-character marker `\r` (every real `\r` was already replaced),
/// so the numeric-escape layer cannot misread an escaped backslash; the
/// marker is restored to a single backslash at the end of `handle_escape`.
pub open spec fn c_escape_spec(s: Seq<char>) -> Seq<char> {
    let s1 = replace_seq(s, seq!['\\', 'r'], seq!['\r']);
    let s2 = replace_seq(s1, seq!['\\', '\\'], seq!['\\', 'r']);
    let s3 = replace_seq(s2, seq!['\\', 'a'], seq!['\x07']);
    let s4 = replace_seq(s3, seq!['\\', 'b'], seq!['\x08']);
    let s5 = replace_seq(s4, seq!['\\', 'e'], seq!['\x1b']);
    let s6 = replace_seq(s5, seq!['\\', 'f'], seq!['\x0c']);
    let s7 = replace_seq(s6, seq!['\\', 'n'], seq!['\n']);
    let s8 = replace_seq(s7, seq!['\\', 't'], seq!['\t']);
    let s9 = replace_seq(s8, seq!['\\', 'v'], seq!['\x0b']);
    let s10 = replace_seq(s9, seq!['\\', '?'], seq!['?']);
    replace_seq(s10, seq!['\\', '"'], seq!['"'])
}

/// Decodes the single-character C-style escapes of `s`.
pub fn handle_c_escape(s: &str) -> (r: String)
    ensures
        r@ == c_escape_spec(s@),
{
    let chars = chars_of(s);
    let out = c_escape_chars(&chars);
    crate::lexer::string_from_chars(&out)
}

/// Decodes the single-character C-style escapes, character-vector form.
fn c_escape_chars(chars: &Vec<char>) -> (r: Vec<char>)
    ensures
        r@ == c_escape_spec(chars@),
{
    let pat1: Vec<char> = vec!['\\', 'r'];
    let rep1: Vec<char> = vec!['\r'];
    proof {
        assert(pat1@ =~= seq!['\\', 'r']);
        assert(rep1@ =~= seq!['\r']);
    }
    let s1 = replace_chars(chars, &pat1, &rep1);
    let pat2: Vec<char> = vec!['\\', '\\'];
    let rep2: Vec<char> = vec!['\\', 'r'];
    proof {
        assert(pat2@ =~= seq!['\\', '\\']);
        assert(rep2@ =~= seq!['\\', 'r']);
    }
    let s2 = replace_chars(&s1, &pat2, &rep2);
    let pat3: Vec<char> = vec!['\\', 'a'];
    let rep3: Vec<char> = vec!['\x07'];
    proof {
        assert(pat3@ =~= seq!['\\', 'a']);
        assert(rep3@ =~= seq!['\x07']);
    }
    let s3 = replace_chars(&s2, &pat3, &rep3);
    let pat4: Vec<char> = vec!['\\', 'b'];
    let rep4: Vec<char> = vec!['\x08'];
    proof {
        assert(pat4@ =~= seq!['\\', 'b']);
        assert(rep4@ =~= seq!['\x08']);
    }
    let s4 = replace_chars(&s3, &pat4, &rep4);
    let pat5: Vec<char> = vec!['\\', 'e'];
    let rep5: Vec<char> = vec!['\x1b'];
    proof {
        assert(pat5@ =~= seq!['\\', 'e']);
        assert(rep5@ =~= seq!['\x1b']);
    }
    let s5 = replace_chars(&s4, &pat5, &rep5);
    let pat6: Vec<char> = vec!['\\', 'f'];
    let rep6: Vec<char> = vec!['\x0c'];
    proof {
        assert(pat6@ =~= seq!['\\', 'f']);
        assert(rep6@ =~= seq!['\x0c']);
    }
    let s6 = replace_chars(&s5, &pat6, &rep6);
    let pat7: Vec<char> = vec!['\\', 'n'];
    let rep7: Vec<char> = vec!['\n'];
    proof {
        assert(pat7@ =~= seq!['\\', 'n']);
        assert(rep7@ =~= seq!['\n']);
    }
    let s7 = replace_chars(&s6, &pat7, &rep7);
    let pat8: Vec<char> = vec!['\\', 't'];
    let rep8: Vec<char> = vec!['\t'];
    proof {
        assert(pat8@ =~= seq!['\\', 't']);
        assert(rep8@ =~= seq!['\t']);
    }
    let s8 = replace_chars(&s7, &pat8, &rep8);
    let pat9: Vec<char> = vec!['\\', 'v'];
    let rep9: Vec<char> = vec!['\x0b'];
    proof {
        assert(pat9@ =~= seq!['\\', 'v']);
        assert(rep9@ =~= seq!['\x0b']);
    }
    let s9 = replace_chars(&s8, &pat9, &rep9);
    let pat10: Vec<char> = vec!['\\', '?'];
    let rep10: Vec<char> = vec!['?'];
    proof {
        assert(pat10@ =~= seq!['\\', '?']);
        assert(rep10@ =~= seq!['?']);
    }
    let s10 = replace_chars(&s9, &pat10, &rep10);
    let pat11: Vec<char> = vec!['\\', '"'];
    let rep11: Vec<char> = vec!['"'];
    proof {
        assert(pat11@ =~= seq!['\\', '"']);
        assert(rep11@ =~= seq!['"']);
    }
    replace_chars(&s10, &pat11, &rep11)
}

/// Whether `v` is a Unicode scalar value: a valid `char` code.
pub open spec fn is_scalar_value(v: int) -> bool {
    (0 <= v < 0xD800) || (0xE000 <= v <= 0x10FFFF)
}

/// The code of a character.
pub open spec fn char_code(c: char) -> int {
    c as int
}

/// The character with code `v`, for a valid scalar value.
pub open spec fn char_of_code(v: int) -> char {
    choose|c: char| char_code(c) == v
}

/// Builds the character with the given code.
///
/// Relies on `char::from_u32`: it returns `Some` exactly for Unicode scalar
/// values, and the returned character has the given code.
#[verifier::external_body]
fn char_from_u32(v: u32) -> (r: Option<char>)
    ensures
        (r is Some) <==> is_scalar_value(v as int),
        r matches Some(c) ==> c as u32 == v && c as int == v as int,
{
    char::from_u32(v)
}

/// Whether a numeric escape of the family `\<marker>` followed by `count`
/// hex digits sits at position `i` and decodes to a valid scalar value.
pub open spec fn is_hex_escape_at(s: Seq<char>, i: int, marker: char, count: int) -> bool {
    &&& 0 <= i
    &&& i + 2 + count <= s.len()
    &&& s[i] == '\\'
    &&& s[i + 1] == marker
    &&& all_hex(s.subrange(i + 2, i + 2 + count))
    &&& is_scalar_value(digits_value(s.subrange(i + 2, i + 2 + count), 16))
}

/// Whether every character of `s` is a hex digit.
pub open spec fn all_hex(s: Seq<char>) -> bool {
    forall|k: int| 0 <= k < s.len() ==> is_radix_digit(#[trigger] s[k], 16)
}

/// Whether `s` contains a valid escape of the family anywhere.
pub open spec fn has_hex_escape(s: Seq<char>, marker: char, count: int) -> bool {
    exists|i: int| is_hex_escape_at(s, i, marker, count)
}

/// Replaces every valid escape of the family with its character, scanning
/// left to right; invalid or foreign sequences are kept as they stand.
pub open spec fn replace_hex(s: Seq<char>, marker: char, count: int) -> Seq<char>
    recommends
        count >= 1,
    decreases s.len(),
{
    if s.len() == 0 {
        Seq::empty()
    } else if count >= 1 && is_hex_escape_at(s, 0, marker, count) {
        seq![char_of_code(digits_value(s.subrange(2, 2 + count), 16))] + replace_hex(
            s.skip(2 + count),
            marker,
            count,
        )
    } else {
        seq![s[0]] + replace_hex(s.skip(1), marker, count)
    }
}

/// Whether an octal escape (`\` and one to three octal digits) sits at
/// position `i`.
pub open spec fn is_oct_escape_at(s: Seq<char>, i: int) -> bool {
    0 <= i && i + 1 < s.len() && s[i] == '\\' && is_oct_digit(s[i + 1])
}

/// Whether `c` is an octal digit.
pub open spec fn is_oct_digit(c: char) -> bool {
    '0' <= c && c <= '7'
}

/// Whether `s` contains an octal escape anywhere.
pub open spec fn has_oct_escape(s: Seq<char>) -> bool {
    exists|i: int| is_oct_escape_at(s, i)
}

/// The length of the octal digit run at `i`, capped at three.
pub open spec fn oct_run(s: Seq<char>, i: int) -> int {
    if i < s.len() && is_oct_digit(s[i]) {
        if i + 1 < s.len() && is_oct_digit(s[i + 1]) {
            if i + 2 < s.len() && is_oct_digit(s[i + 2]) {
                3
            } else {
                2
            }
        } else {
            1
        }
    } else {
        0
    }
}

/// Replaces every octal escape with its character, scanning left to right,
/// each escape taking up to three octal digits greedily.  An octal escape's
/// value is at most 511, always a valid scalar value.
pub open spec fn replace_oct(s: Seq<char>) -> Seq<char>
    decreases s.len(),
{
    if s.len() == 0 {
        Seq::empty()
    } else if is_oct_escape_at(s, 0) {
        let k = oct_run(s, 1);
        seq![char_of_code(digits_value(s.subrange(1, 1 + k), 8))] + replace_oct(s.skip(1 + k))
    } else {
        seq![s[0]] + replace_oct(s.skip(1))
    }
}

/// At most one numeric-escape family applies, the first of `\U` with eight
/// hex digits, `\u` with four, `\x` with two, octal `\nnn`, whose valid
/// escapes occur in the string; a string with none is returned unchanged.
pub open spec fn special_escape_spec(s: Seq<char>) -> Seq<char> {
    if has_hex_escape(s, 'U', 8) {
        replace_hex(s, 'U', 8)
    } else if has_hex_escape(s, 'u', 4) {
        replace_hex(s, 'u', 4)
    } else if has_hex_escape(s, 'x', 2) {
        replace_hex(s, 'x', 2)
    } else if has_oct_escape(s) {
        replace_oct(s)
    } else {
        s
    }
}

/// What `handle_escape` returns: the C-style escapes first, then at most
/// one numeric-escape family, then the parked `\r` marker restored to a
/// single backslash.
pub open spec fn handle_escape_spec(s: Seq<char>) -> Seq<char> {
    replace_seq(special_escape_spec(c_escape_spec(s)), seq!['\\', 'r'], seq!['\\'])
}

/// Sixteen to the `n`th power.
pub open spec fn pow16(n: nat) -> int
    decreases n,
{
    if n == 0 {
        1
    } else {
        16 * pow16((n - 1) as nat)
    }
}

/// A hex digit string's value stays below sixteen to its length.
proof fn lemma_hex_pow_bound(s: Seq<char>)
    requires
        all_hex(s),
    ensures
        0 <= digits_value(s, 16) < pow16(s.len()),
    decreases s.len(),
{
    if s.len() == 0 {
    } else {
        let p = s.drop_last();
        assert(all_hex(p)) by {
            assert(forall|k: int| 0 <= k < p.len() ==> p[k] == s[k]);
        }
        lemma_hex_pow_bound(p);
        let vp = digits_value(p, 16);
        let d = digit_value(s.last());
        let bound = pow16(p.len());
        assert(is_radix_digit(s.last(), 16));
        assert(0 <= d < 16);
        assert(vp * 16 + d < 16 * bound) by (nonlinear_arith)
            requires
                0 <= vp,
                vp < bound,
                0 <= d < 16,
        ;
    }
}

/// A digit string of at most eight hex digits stays below `16^8`.
proof fn lemma_hex_value_bound(s: Seq<char>)
    requires
        all_hex(s),
        s.len() <= 8,
    ensures
        0 <= digits_value(s, 16) < 0x1_0000_0000,
    decreases 8 - s.len(),
{
    lemma_hex_pow_bound(s);
    if s.len() == 8 {
        assert(pow16(8) == 0x1_0000_0000) by {
            reveal_with_fuel(pow16, 9);
        }
    } else {
        let t = s.push('0');
        assert(all_hex(t)) by {
            assert(forall|k: int| 0 <= k < t.len() ==> #[trigger] t[k] == if k < s.len() {
                s[k]
            } else {
                '0'
            });
        }
        lemma_hex_value_bound(t);
        assert(t.drop_last() =~= s);
        assert(digits_value(t, 16) == digits_value(s, 16) * 16 + digit_value('0'));
        assert(digits_value(s, 16) <= digits_value(s, 16) * 16) by (nonlinear_arith)
            requires
                digits_value(s, 16) >= 0,
        ;
    }
}

/// Whether a valid hex escape of the family sits at `i`, and its value.
fn hex_escape_at(chars: &Vec<char>, i: usize, marker: char, count: usize) -> (r: Option<u32>)
    requires
        i <= chars@.len(),
        count == 2 || count == 4 || count == 8,
    ensures
        match r {
            Some(v) => is_hex_escape_at(chars@, i as int, marker, count as int) && v
                == digits_value(chars@.subrange(i + 2, i + 2 + count), 16),
            None => !is_hex_escape_at(chars@, i as int, marker, count as int),
        },
{
    let n = chars.len();
    if n < count + 2 || i > n - count - 2 {
        return None;
    }
    if chars[i] != '\\' || chars[i + 1] != marker {
        return None;
    }
    let mut k: usize = 0;
    while k < count
        invariant
            k <= count,
            i + 2 + count <= chars@.len(),
            chars@.len() <= usize::MAX,
            forall|j: int| 0 <= j < k ==> is_radix_digit(#[trigger] chars@[i + 2 + j], 16),
        decreases count - k,
    {
        let c = chars[i + 2 + k];
        let hex = ('0' <= c && c <= '9') || ('a' <= c && c <= 'f') || ('A' <= c && c <= 'F');
        if !hex {
            proof {
                assert(chars@.subrange(i + 2, i + 2 + count)[k as int] == chars@[i + 2 + k]);
            }
            return None;
        }
        k = k + 1;
    }
    let ghost digits = chars@.subrange(i + 2, i + 2 + count);
    proof {
        assert(forall|j: int| 0 <= j < digits.len() ==> digits[j] == chars@[i + 2 + j]);
        lemma_hex_value_bound(digits);
    }
    let value = crate::number::parse_digits(chars, i + 2, i + 2 + count, 16);
    let v32 = value as u32;
    if v32 < 0xD800 || (0xE000 <= v32 && v32 <= 0x10FFFF) {
        Some(v32)
    } else {
        None
    }
}

/// Whether any valid escape of the family occurs in `chars`.
fn find_hex_escape(chars: &Vec<char>, marker: char, count: usize) -> (r: bool)
    requires
        count == 2 || count == 4 || count == 8,
    ensures
        r == has_hex_escape(chars@, marker, count as int),
{
    let n = chars.len();
    let mut i: usize = 0;
    while i < n
        invariant
            i <= n == chars@.len(),
            count == 2 || count == 4 || count == 8,
            forall|j: int| 0 <= j < i ==> !is_hex_escape_at(chars@, j, marker, count as int),
        decreases n - i,
    {
        if hex_escape_at(chars, i, marker, count).is_some() {
            return true;
        }
        i = i + 1;
    }
    proof {
        assert forall|j: int| !is_hex_escape_at(chars@, j, marker, count as int) by {
            if 0 <= j < chars@.len() {
            } else {
            }
        }
    }
    false
}

/// Replaces every valid escape of the family, left to right.
fn replace_hex_chars(chars: &Vec<char>, marker: char, count: usize) -> (out: Vec<char>)
    requires
        count == 2 || count == 4 || count == 8,
    ensures
        out@ == replace_hex(chars@, marker, count as int),
{
    let n = chars.len();
    let mut out: Vec<char> = Vec::new();
    let mut i: usize = 0;
    proof {
        assert(chars@.skip(0) =~= chars@);
        assert(Seq::<char>::empty() + replace_hex(chars@, marker, count as int) =~= replace_hex(
            chars@,
            marker,
            count as int,
        ));
    }
    while i < n
        invariant
            i <= n == chars@.len(),
            count == 2 || count == 4 || count == 8,
            replace_hex(chars@, marker, count as int) == out@ + replace_hex(
                chars@.skip(i as int),
                marker,
                count as int,
            ),
        decreases n - i,
    {
        let ghost pre = out@;
        let ghost rest = chars@.skip(i as int);
        match hex_escape_at(chars, i, marker, count) {
            Some(v) => {
                proof {
                    assert(rest.subrange(2, 2 + count) =~= chars@.subrange(i + 2, i + 2 + count));
                    assert(forall|j: int|
                        0 <= j < rest.len() ==> rest[j] == chars@[i + j]);
                    assert(is_hex_escape_at(rest, 0, marker, count as int));
                    assert(rest.skip(2 + count) =~= chars@.skip(i + 2 + count));
                }
                let c = match char_from_u32(v) {
                    Some(c) => c,
                    None => {
                        proof {
                            assert(false);
                        }
                        ' '
                    },
                };
                proof {
                    let code = digits_value(rest.subrange(2, 2 + count), 16);
                    assert(c as int == code);
                    assert(char_of_code(code) == c) by {
                        assert(char_code(c) == code);
                        assert(exists|c2: char| char_code(c2) == code);
                        assert(char_code(char_of_code(code)) == code);
                    }
                    assert(pre + (seq![c] + replace_hex(chars@.skip(i + 2 + count), marker,
                    count as int)) =~= pre.push(c) + replace_hex(
                        chars@.skip(i + 2 + count),
                        marker,
                        count as int,
                    ));
                }
                out.push(c);
                i = i + 2 + count;
            },
            None => {
                proof {
                    assert(rest.len() > 0);
                    assert(rest[0] == chars@[i as int]);
                    if 0 + 2 + count <= rest.len() {
                        assert(rest.subrange(2, 2 + count) =~= chars@.subrange(
                            i + 2,
                            i + 2 + count,
                        ));
                        assert(forall|j: int| 0 <= j < rest.len() ==> rest[j] == chars@[i + j]);
                    }
                    assert(!is_hex_escape_at(rest, 0, marker, count as int));
                    assert(rest.skip(1) =~= chars@.skip(i + 1));
                    assert(pre + (seq![chars@[i as int]] + replace_hex(chars@.skip(i + 1), marker,
                    count as int)) =~= pre.push(chars@[i as int]) + replace_hex(
                        chars@.skip(i + 1),
                        marker,
                        count as int,
                    ));
                }
                out.push(chars[i]);
                i = i + 1;
            },
        }
    }
    proof {
        assert(chars@.skip(n as int) =~= Seq::<char>::empty());
        assert(out@ + Seq::<char>::empty() =~= out@);
    }
    out
}

/// Whether an octal escape starts at `i`.
fn oct_escape_at(chars: &Vec<char>, i: usize) -> (r: bool)
    requires
        i <= chars@.len(),
    ensures
        r == is_oct_escape_at(chars@, i as int),
{
    i < chars.len() && i + 1 < chars.len() && chars[i] == '\\' && '0' <= chars[i + 1] && chars[
        i + 1
    ] <= '7'
}

/// Whether any octal escape occurs in `chars`.
fn find_oct_escape(chars: &Vec<char>) -> (r: bool)
    ensures
        r == has_oct_escape(chars@),
{
    let n = chars.len();
    let mut i: usize = 0;
    while i < n
        invariant
            i <= n == chars@.len(),
            forall|j: int| 0 <= j < i ==> !is_oct_escape_at(chars@, j),
        decreases n - i,
    {
        if oct_escape_at(chars, i) {
            return true;
        }
        i = i + 1;
    }
    false
}

/// Replaces every octal escape, left to right, up to three digits each.
fn replace_oct_chars(chars: &Vec<char>) -> (out: Vec<char>)
    ensures
        out@ == replace_oct(chars@),
{
    let n = chars.len();
    let mut out: Vec<char> = Vec::new();
    let mut i: usize = 0;
    proof {
        assert(chars@.skip(0) =~= chars@);
        assert(Seq::<char>::empty() + replace_oct(chars@) =~= replace_oct(chars@));
    }
    while i < n
        invariant
            i <= n == chars@.len(),
            replace_oct(chars@) == out@ + replace_oct(chars@.skip(i as int)),
        decreases n - i,
    {
        let ghost pre = out@;
        let ghost rest = chars@.skip(i as int);
        proof {
            assert(forall|j: int| 0 <= j < rest.len() ==> rest[j] == chars@[i + j]);
        }
        if oct_escape_at(chars, i) {
            // Up to three octal digits, greedily.
            let mut k: usize = 1;
            if i + 2 < n && '0' <= chars[i + 2] && chars[i + 2] <= '7' {
                k = 2;
                if i + 3 < n && '0' <= chars[i + 3] && chars[i + 3] <= '7' {
                    k = 3;
                }
            }
            proof {
                assert(oct_run(rest, 1) == k);
                assert(rest.subrange(1, 1 + k) =~= chars@.subrange(i + 1, i + 1 + k));
                assert(all_radix_digits_oct(chars@.subrange(i + 1, i + 1 + k)));
                lemma_oct_value_bound(chars@.subrange(i + 1, i + 1 + k));
                assert(rest.skip(1 + k) =~= chars@.skip(i + 1 + k));
            }
            let value = crate::number::parse_digits(chars, i + 1, i + 1 + k, 8);
            let v32 = value as u32;
            let c = match char_from_u32(v32) {
                Some(c) => c,
                None => {
                    proof {
                        assert(false);
                    }
                    ' '
                },
            };
            proof {
                let code = digits_value(rest.subrange(1, 1 + k as int), 8);
                assert(c as int == code);
                assert(char_of_code(code) == c) by {
                    assert(char_code(c) == code);
                    assert(exists|c2: char| char_code(c2) == code);
                    assert(char_code(char_of_code(code)) == code);
                }
                assert(pre + (seq![c] + replace_oct(chars@.skip(i + 1 + k))) =~= pre.push(c)
                    + replace_oct(chars@.skip(i + 1 + k)));
            }
            out.push(c);
            i = i + 1 + k;
        } else {
            proof {
                assert(rest.len() > 0);
                assert(rest[0] == chars@[i as int]);
                assert(!is_oct_escape_at(rest, 0));
                assert(rest.skip(1) =~= chars@.skip(i + 1));
                assert(pre + (seq![chars@[i as int]] + replace_oct(chars@.skip(i + 1)))
                    =~= pre.push(chars@[i as int]) + replace_oct(chars@.skip(i + 1)));
            }
            out.push(chars[i]);
            i = i + 1;
        }
    }
    proof {
        assert(chars@.skip(n as int) =~= Seq::<char>::empty());
        assert(out@ + Seq::<char>::empty() =~= out@);
    }
    out
}

/// Whether every character of `s` is an octal digit (base-8 digit).
pub open spec fn all_radix_digits_oct(s: Seq<char>) -> bool {
    forall|k: int| 0 <= k < s.len() ==> is_radix_digit(#[trigger] s[k], 8)
}

/// The bound an octal digit string of the given length stays below.
pub open spec fn oct_bound(n: nat) -> int {
    if n == 0 {
        1
    } else if n == 1 {
        8
    } else if n == 2 {
        64
    } else {
        512
    }
}

/// An octal digit string of at most three digits stays at or below 511, a
/// valid scalar value.
proof fn lemma_oct_value_bound(s: Seq<char>)
    requires
        all_radix_digits_oct(s),
        s.len() <= 3,
    ensures
        0 <= digits_value(s, 8) < oct_bound(s.len()),
        is_scalar_value(digits_value(s, 8)),
    decreases s.len(),
{
    if s.len() == 0 {
    } else {
        let p = s.drop_last();
        assert(all_radix_digits_oct(p)) by {
            assert(forall|k: int| 0 <= k < p.len() ==> p[k] == s[k]);
        }
        lemma_oct_value_bound(p);
        let vp = digits_value(p, 8);
        let d = digit_value(s.last());
        assert(is_radix_digit(s.last(), 8));
        assert(0 <= d < 8);
        assert(vp * 8 + d < oct_bound(p.len()) * 8) by (nonlinear_arith)
            requires
                0 <= vp,
                vp < oct_bound(p.len()),
                0 <= d < 8,
        ;
        assert(oct_bound(p.len()) * 8 <= 512);
    }
}

/// Decodes at most one numeric-escape family: `\U` with eight hex digits if
/// any occurs, else `\u` with four, else `\x` with two, else octal `\nnn`.
pub fn handle_special_escape(s: String) -> (r: String)
    ensures
        r@ == special_escape_spec(s@),
{
    let chars = chars_of(s.as_str());
    let out: Vec<char>;
    if find_hex_escape(&chars, 'U', 8) {
        out = replace_hex_chars(&chars, 'U', 8);
    } else if find_hex_escape(&chars, 'u', 4) {
        out = replace_hex_chars(&chars, 'u', 4);
    } else if find_hex_escape(&chars, 'x', 2) {
        out = replace_hex_chars(&chars, 'x', 2);
    } else if find_oct_escape(&chars) {
        out = replace_oct_chars(&chars);
    } else {
        return s;
    }
    crate::lexer::string_from_chars(&out)
}

/// Decodes every escape of an escaped string fragment: the C-style escapes,
/// then at most one numeric family, then the parked `\r` marker becomes a
/// single backslash.
pub fn handle_escape(s: String) -> (r: String)
    ensures
        r@ == handle_escape_spec(s@),
{
    let c_escaped = handle_c_escape(s.as_str());
    let res = handle_special_escape(c_escaped);
    let chars = chars_of(res.as_str());
    let pat: Vec<char> = vec!['\\', 'r'];
    let rep: Vec<char> = vec!['\\'];
    proof {
        assert(pat@ =~= seq!['\\', 'r']);
        assert(rep@ =~= seq!['\\']);
    }
    let out = replace_chars(&chars, &pat, &rep);
    crate::lexer::string_from_chars(&out)
}

} // verus!
