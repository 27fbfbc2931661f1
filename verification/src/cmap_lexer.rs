//! Tokenizer for CMap streams, and the value conversions the CMap parser uses.

use vstd::prelude::*;
use crate::cos_helpers::{hex_digit, hex_value};
use crate::text_std::{
    char_from_u32, is_scalar_value, latin1, string_push, utf16_lossy, utf16_lossy_spec,
};
use crate::cos_helpers::be_units;

verus! {

/// A CMap token, as plain values.
pub enum Tok {
    Operator(Seq<u8>),
    Integer(i64),
    HexBytes(Seq<u8>),
    Name(Seq<u8>),
    LiteralString(Seq<u8>),
}

/// A CMap token.
#[derive(Debug)]
pub enum Token {
    /// An operator or keyword (also `<<` and `>>`).
    Operator(Vec<u8>),
    /// An integer.
    Integer(i64),
    /// The bytes of a hexadecimal string `<...>`.
    HexBytes(Vec<u8>),
    /// A name `/Name` (without the slash).
    Name(Vec<u8>),
    /// The bytes of a literal string `(...)`.
    LiteralString(Vec<u8>),
}

impl View for Token {
    type V = Tok;

    open spec fn view(&self) -> Tok {
        match self {
            Token::Operator(b) => Tok::Operator(b@),
            Token::Integer(n) => Tok::Integer(*n),
            Token::HexBytes(b) => Tok::HexBytes(b@),
            Token::Name(b) => Tok::Name(b@),
            Token::LiteralString(b) => Tok::LiteralString(b@),
        }
    }
}

/// CMap whitespace: space, tab, LF, CR, NUL, form feed.
pub open spec fn is_ws(b: u8) -> bool {
    b == 32 || b == 9 || b == 10 || b == 13 || b == 0 || b == 12
}

/// CMap delimiters: whitespace and `( ) < > [ ] { } / %`.
pub open spec fn is_delim(b: u8) -> bool {
    is_ws(b) || b == 40 || b == 41 || b == 60 || b == 62 || b == 91 || b == 93 || b == 123
        || b == 125 || b == 47 || b == 37
}

/// Whether `b` is a decimal digit.
pub open spec fn is_digit(b: u8) -> bool {
    48 <= b <= 57
}

/// First position at or after `p` that is not whitespace.
pub open spec fn skip_ws_spec(d: Seq<u8>, p: int) -> int
    decreases d.len() - p,
{
    if p < d.len() && p >= 0 && is_ws(d[p]) {
        skip_ws_spec(d, p + 1)
    } else {
        p
    }
}

/// First position at or after `p` that is a line feed (or the end).
pub open spec fn line_end(d: Seq<u8>, p: int) -> int
    decreases d.len() - p,
{
    if p < d.len() && p >= 0 && d[p] != 10 {
        line_end(d, p + 1)
    } else {
        p
    }
}

/// A comment runs at least to its own start, and past it unless it is empty.
pub proof fn lemma_line_end_ge(d: Seq<u8>, p: int)
    ensures
        line_end(d, p) >= p,
        0 <= p < d.len() && d[p] != 10 ==> line_end(d, p) > p,
        p <= d.len() ==> line_end(d, p) <= d.len(),
    decreases d.len() - p,
{
    if p < d.len() && p >= 0 && d[p] != 10 {
        lemma_line_end_ge(d, p + 1);
    }
}

/// Reading octal digits never moves backwards.
pub proof fn lemma_octal_tail_ge(d: Seq<u8>, q: int, val: nat, k: nat)
    ensures
        octal_tail(d, q, val, k).1 >= q,
        q <= d.len() ==> octal_tail(d, q, val, k).1 <= d.len(),
    decreases k,
{
    if !(k == 0 || q < 0 || q >= d.len() || !(48 <= d[q] <= 55)) {
        lemma_octal_tail_ge(d, q + 1, val * 8 + (d[q] - 48) as nat, (k - 1) as nat);
    }
}

/// First position at or after `p` outside whitespace and `%` comments
/// (a comment runs up to, not including, the line feed).
pub open spec fn skip_ws_comments_spec(d: Seq<u8>, p: int) -> int
    decreases d.len() - p,
{
    let q = skip_ws_spec(d, p);
    if 0 <= q < d.len() && d[q] == 37 && q >= p {
        proof {
            lemma_line_end_ge(d, q);
        }
        skip_ws_comments_spec(d, line_end(d, q))
    } else {
        q
    }
}

/// End of a run of non-delimiter bytes starting at `p`.
pub open spec fn regular_end(d: Seq<u8>, p: int) -> int
    decreases d.len() - p,
{
    if 0 <= p < d.len() && !is_delim(d[p]) {
        regular_end(d, p + 1)
    } else {
        p
    }
}

/// The bytes of a hex string body from `q`, where `hi` is a pending high
/// nibble; non-hex bytes are skipped, `>` ends the string, and a dangling
/// nibble is padded with zero. Returns the bytes and the position after.
pub open spec fn hex_scan(d: Seq<u8>, q: int, hi: Option<u8>) -> (Seq<u8>, int)
    decreases d.len() - q,
{
    if q < 0 || q >= d.len() {
        (if hi is Some { seq![(hi->0 * 16) as u8] } else { Seq::empty() }, q)
    } else if d[q] == 62 {
        (if hi is Some { seq![(hi->0 * 16) as u8] } else { Seq::empty() }, q + 1)
    } else if hex_value(d[q]) is Some {
        let n = hex_value(d[q])->0;
        if hi is Some {
            let (rest, e) = hex_scan(d, q + 1, None);
            (seq![(hi->0 * 16 + n) as u8] + rest, e)
        } else {
            hex_scan(d, q + 1, Some(n))
        }
    } else {
        hex_scan(d, q + 1, hi)
    }
}

/// Up to `k` further octal digits from `q` folded into `val`.
pub open spec fn octal_tail(d: Seq<u8>, q: int, val: nat, k: nat) -> (nat, int)
    decreases k,
{
    if k == 0 || q < 0 || q >= d.len() || !(48 <= d[q] <= 55) {
        (val, q)
    } else {
        octal_tail(d, q + 1, val * 8 + (d[q] - 48) as nat, (k - 1) as nat)
    }
}

/// The byte a one-character escape `\c` stands for in a CMap literal string.
pub open spec fn simple_escape(c: u8) -> u8 {
    if c == 110 {
        10
    } else if c == 114 {
        13
    } else if c == 116 {
        9
    } else {
        c
    }
}

/// The bytes of a literal string body from `q` at nesting `depth`, and the
/// position after it.
pub open spec fn lit_scan(d: Seq<u8>, q: int, depth: nat) -> (Seq<u8>, int)
    decreases d.len() - q,
{
    if q < 0 || q >= d.len() || depth == 0 {
        (Seq::empty(), q)
    } else if d[q] == 40 {
        let (rest, e) = lit_scan(d, q + 1, depth + 1);
        (seq![40u8] + rest, e)
    } else if d[q] == 41 {
        let (rest, e) = lit_scan(d, q + 1, (depth - 1) as nat);
        (if depth - 1 > 0 { seq![41u8] + rest } else { rest }, e)
    } else if d[q] == 92 {
        if q + 1 < d.len() {
            let esc = d[q + 1];
            if 48 <= esc <= 55 {
                let (val, q2) = octal_tail(d, q + 2, (esc - 48) as nat, 2);
                proof {
                    lemma_octal_tail_ge(d, q + 2, (esc - 48) as nat, 2);
                }
                let (rest, e) = lit_scan(d, q2, depth);
                (seq![(val % 256) as u8] + rest, e)
            } else {
                let (rest, e) = lit_scan(d, q + 2, depth);
                (seq![simple_escape(esc)] + rest, e)
            }
        } else {
            lit_scan(d, q + 1, depth)
        }
    } else {
        let (rest, e) = lit_scan(d, q + 1, depth);
        (seq![d[q]] + rest, e)
    }
}

/// Value of a run of decimal digits.
pub open spec fn digits_value(ds: Seq<u8>) -> nat
    decreases ds.len(),
{
    if ds.len() == 0 {
        0
    } else {
        digits_value(ds.drop_last()) * 10 + (ds.last() - 48) as nat
    }
}

/// `str::parse::<i64>` of an optional sign followed by digits, with 0 for a
/// string that does not parse (no digits, or out of range).
pub open spec fn parse_int_spec(s: Seq<u8>) -> i64 {
    let neg = s.len() > 0 && s[0] == 45;
    let signed = s.len() > 0 && (s[0] == 45 || s[0] == 43);
    let ds = if signed { s.subrange(1, s.len() as int) } else { s };
    if ds.len() == 0 {
        0
    } else if neg {
        if digits_value(ds) <= 0x8000_0000_0000_0000 { (-(digits_value(ds) as int)) as i64 } else { 0 }
    } else {
        if digits_value(ds) <= 0x7fff_ffff_ffff_ffff { digits_value(ds) as i64 } else { 0 }
    }
}

/// End of the digits after an optional sign at `p`.
pub open spec fn number_end(d: Seq<u8>, p: int) -> int {
    let q = if d[p] == 45 || d[p] == 43 { p + 1 } else { p };
    digits_end(d, q)
}

/// End of a run of digits starting at `q`.
pub open spec fn digits_end(d: Seq<u8>, q: int) -> int
    decreases d.len() - q,
{
    if 0 <= q < d.len() && is_digit(d[q]) {
        digits_end(d, q + 1)
    } else {
        q
    }
}

/// The next token at or after `p` and the position after it.
pub open spec fn next_token_spec(d: Seq<u8>, p: int) -> Option<(Tok, int)>
    decreases d.len() - p,
{
    let q = skip_ws_comments_spec(d, p);
    if q < 0 || q >= d.len() || q < p {
        None
    } else if d[q] == 60 {
        if q + 1 < d.len() && d[q + 1] == 60 {
            Some((Tok::Operator(seq![60u8, 60u8]), q + 2))
        } else {
            let (b, e) = hex_scan(d, q + 1, None);
            Some((Tok::HexBytes(b), e))
        }
    } else if d[q] == 62 {
        if q + 1 < d.len() && d[q + 1] == 62 {
            Some((Tok::Operator(seq![62u8, 62u8]), q + 2))
        } else {
            next_token_spec(d, q + 1)
        }
    } else if d[q] == 40 {
        let (b, e) = lit_scan(d, q + 1, 1);
        Some((Tok::LiteralString(b), e))
    } else if d[q] == 47 {
        let e = regular_end(d, q + 1);
        Some((Tok::Name(d.subrange(q + 1, e)), e))
    } else if is_digit(d[q]) || d[q] == 45 || d[q] == 43 {
        let e = number_end(d, q);
        Some((Tok::Integer(parse_int_spec(d.subrange(q, e))), e))
    } else {
        let e = regular_end(d, q);
        if e == q {
            next_token_spec(d, q + 1)
        } else {
            Some((Tok::Operator(d.subrange(q, e)), e))
        }
    }
}

/// Position bounds of the scanning functions.
pub proof fn lemma_scan_bounds(d: Seq<u8>, p: int)
    requires
        0 <= p <= d.len(),
    ensures
        p <= skip_ws_spec(d, p) <= d.len(),
        p <= skip_ws_comments_spec(d, p) <= d.len(),
        p <= regular_end(d, p) <= d.len(),
        p <= digits_end(d, p) <= d.len(),
    decreases d.len() - p,
{
    if p < d.len() {
        lemma_scan_bounds(d, p + 1);
    }
    lemma_skip_ws_comments_bounds(d, p);
}

pub proof fn lemma_skip_ws_bounds(d: Seq<u8>, p: int)
    requires
        0 <= p <= d.len(),
    ensures
        p <= skip_ws_spec(d, p) <= d.len(),
    decreases d.len() - p,
{
    if p < d.len() {
        lemma_skip_ws_bounds(d, p + 1);
    }
}

pub proof fn lemma_skip_ws_comments_bounds(d: Seq<u8>, p: int)
    requires
        0 <= p <= d.len(),
    ensures
        p <= skip_ws_comments_spec(d, p) <= d.len(),
    decreases d.len() - p,
{
    lemma_skip_ws_bounds(d, p);
    let q = skip_ws_spec(d, p);
    if 0 <= q < d.len() && d[q] == 37 && q >= p {
        lemma_line_end_ge(d, q);
        lemma_skip_ws_comments_bounds(d, line_end(d, q));
    }
}

/// The end position of a hex string body lies after its start.
pub proof fn lemma_hex_scan_bounds(d: Seq<u8>, q: int, hi: Option<u8>)
    requires
        0 <= q <= d.len(),
    ensures
        q <= hex_scan(d, q, hi).1 <= d.len(),
    decreases d.len() - q,
{
    if q < d.len() && d[q] != 62 {
        if hex_value(d[q]) is Some {
            if hi is Some {
                lemma_hex_scan_bounds(d, q + 1, None);
            } else {
                lemma_hex_scan_bounds(d, q + 1, Some(hex_value(d[q])->0));
            }
        } else {
            lemma_hex_scan_bounds(d, q + 1, hi);
        }
    }
}

/// The end position of a literal string body lies after its start.
pub proof fn lemma_lit_scan_bounds(d: Seq<u8>, q: int, depth: nat)
    requires
        0 <= q <= d.len(),
    ensures
        q <= lit_scan(d, q, depth).1 <= d.len(),
    decreases d.len() - q,
{
    if !(q >= d.len() || depth == 0) {
        if d[q] == 40 {
            lemma_lit_scan_bounds(d, q + 1, depth + 1);
        } else if d[q] == 41 {
            lemma_lit_scan_bounds(d, q + 1, (depth - 1) as nat);
        } else if d[q] == 92 {
            if q + 1 < d.len() {
                let esc = d[q + 1];
                if 48 <= esc <= 55 {
                    lemma_octal_tail_ge(d, q + 2, (esc - 48) as nat, 2);
                    let q2 = octal_tail(d, q + 2, (esc - 48) as nat, 2).1;
                    lemma_lit_scan_bounds(d, q2, depth);
                } else {
                    lemma_lit_scan_bounds(d, q + 2, depth);
                }
            } else {
                lemma_lit_scan_bounds(d, q + 1, depth);
            }
        } else {
            lemma_lit_scan_bounds(d, q + 1, depth);
        }
    }
}

/// A token ends after the position it was read from, within the data.
pub proof fn lemma_next_token_bounds(d: Seq<u8>, p: int)
    requires
        0 <= p <= d.len(),
    ensures
        next_token_spec(d, p) matches Some((t, e)) ==> p < e <= d.len(),
    decreases d.len() - p,
{
    lemma_scan_bounds(d, p);
    let q = skip_ws_comments_spec(d, p);
    if !(q < 0 || q >= d.len() || q < p) {
        lemma_scan_bounds(d, q + 1);
        lemma_scan_bounds(d, q);
        if d[q] == 60 {
            lemma_hex_scan_bounds(d, q + 1, None);
        } else if d[q] == 62 {
            lemma_next_token_bounds(d, q + 1);
        } else if d[q] == 40 {
            lemma_lit_scan_bounds(d, q + 1, 1);
        } else if is_digit(d[q]) || d[q] == 45 || d[q] == 43 {
            if d[q] == 45 || d[q] == 43 {
                lemma_scan_bounds(d, q + 1);
            }
        } else if d[q] != 47 {
            if regular_end(d, q) == q {
                lemma_next_token_bounds(d, q + 1);
            }
        }
    }
}

/// Big-endian value of the bytes, modulo 2^32.
pub open spec fn be_value(b: Seq<u8>) -> nat
    decreases b.len(),
{
    if b.len() == 0 {
        0
    } else {
        be_value(b.drop_last()) * 256 + b.last() as nat
    }
}

/// Big-endian bytes to `u32` (high bytes beyond four are shifted out).
pub fn bytes_to_u32(bytes: &[u8]) -> (r: u32)
    ensures
        r as nat == be_value(bytes@) % 0x1_0000_0000,
{
    let mut val: u32 = 0;
    let mut i: usize = 0;
    while i < bytes.len()
        invariant
            0 <= i <= bytes@.len(),
            val as nat == be_value(bytes@.subrange(0, i as int)) % 0x1_0000_0000,
        decreases bytes@.len() - i,
    {
        let ghost prev = be_value(bytes@.subrange(0, i as int));
        let next: u64 = (val as u64) * 256 + (bytes[i] as u64);
        val = (next % 0x1_0000_0000) as u32;
        proof {
            assert(bytes@.subrange(0, i + 1).drop_last() =~= bytes@.subrange(0, i as int));
            let m: int = 0x1_0000_0000;
            let pv: int = prev as int;
            let bv: int = bytes@[i as int] as int;
            vstd::arithmetic::div_mod::lemma_mul_mod_noop_left(pv, 256, m);
            vstd::arithmetic::div_mod::lemma_add_mod_noop(pv * 256, bv, m);
            vstd::arithmetic::div_mod::lemma_add_mod_noop((pv % m) * 256, bv, m);
            vstd::arithmetic::div_mod::lemma_mod_twice(pv * 256, m);
        }
        i = i + 1;
    }
    assert(bytes@.subrange(0, bytes@.len() as int) =~= bytes@);
    val
}

/// The text a hex string of a CMap stands for: nothing for no bytes, one
/// character per byte for an odd count, UTF-16BE otherwise.
pub open spec fn hex_text_spec(b: Seq<u8>) -> Seq<char> {
    if b.len() == 0 {
        Seq::empty()
    } else if b.len() % 2 != 0 {
        latin1(b)
    } else {
        utf16_lossy_spec(be_units(b))
    }
}

/// Converts the bytes of a CMap hex string to Unicode text.
pub fn hex_bytes_to_unicode(bytes: &[u8]) -> (r: String)
    ensures
        r@ == hex_text_spec(bytes@),
{
    let n = bytes.len();
    if n == 0 {
        return String::new();
    }
    if n % 2 != 0 {
        let mut out = String::new();
        let mut i: usize = 0;
        while i < n
            invariant
                n == bytes@.len(),
                0 <= i <= n,
                out@ =~= latin1(bytes@.subrange(0, i as int)),
            decreases n - i,
        {
            let c = char_from_u32(bytes[i] as u32);
            if let Some(ch) = c {
                assert(ch == bytes@[i as int] as char);
                string_push(&mut out, ch);
            }
            i = i + 1;
        }
        assert(bytes@.subrange(0, n as int) =~= bytes@);
        return out;
    }
    let mut units: Vec<u16> = Vec::new();
    let mut i: usize = 0;
    while i + 1 < n
        invariant
            n == bytes@.len(),
            n % 2 == 0,
            0 <= i <= n,
            i % 2 == 0,
            units@.len() == i / 2,
            forall|k: int| 0 <= k < units@.len() ==> units@[k] == be_units(bytes@)[k],
        decreases n - i,
    {
        let unit: u16 = (bytes[i] as u16) * 256 + (bytes[i + 1] as u16);
        units.push(unit);
        i = i + 2;
    }
    assert(units@ =~= be_units(bytes@));
    utf16_lossy(units.as_slice())
}

/// The text a sequential `bfrange` entry gives to a value: one character
/// for short codes, a UTF-16 pair (or a single character) for 4-byte codes.
pub open spec fn u32_text_spec(val: u32, byte_len: usize) -> Seq<char> {
    if byte_len <= 2 && is_scalar_value(val as int) {
        seq![val as char]
    } else if byte_len == 4 {
        let hi = (val as int / 0x10000) as u16;
        let lo = (val as int % 0x10000) as u16;
        if hi == 0 && is_scalar_value(lo as int) {
            seq![lo as char]
        } else {
            utf16_lossy_spec(seq![hi, lo])
        }
    } else if is_scalar_value(val as int) {
        seq![val as char]
    } else {
        Seq::empty()
    }
}

/// Converts a `bfrange` value to Unicode text, respecting its byte length.
pub fn u32_to_unicode(val: u32, byte_len: usize) -> (r: String)
    ensures
        r@ == u32_text_spec(val, byte_len),
{
    if byte_len <= 2 {
        if let Some(ch) = char_from_u32(val) {
            let mut s = String::new();
            string_push(&mut s, ch);
            assert(s@ =~= seq![val as char]);
            return s;
        }
    }
    if byte_len == 4 {
        let hi: u16 = (val / 0x10000) as u16;
        let lo: u16 = (val % 0x10000) as u16;
        if hi == 0 {
            if let Some(ch) = char_from_u32(lo as u32) {
                let mut s = String::new();
                string_push(&mut s, ch);
                assert(s@ =~= seq![lo as char]);
                return s;
            }
        }
        let units: Vec<u16> = vec![hi, lo];
        assert(units@ =~= seq![hi, lo]);
        return utf16_lossy(units.as_slice());
    }
    let mut s = String::new();
    if let Some(ch) = char_from_u32(val) {
        string_push(&mut s, ch);
        assert(s@ =~= seq![val as char]);
    }
    s
}

/// The zero-padded byte a dangling high nibble leaves at the end of a hex string.
pub open spec fn pad_nibble(hi: Option<u8>) -> Seq<u8> {
    if hi is Some {
        seq![(hi->0 * 16) as u8]
    } else {
        Seq::empty()
    }
}

/// Whether `b` is CMap whitespace.
pub fn is_whitespace(b: u8) -> (r: bool)
    ensures
        r == is_ws(b),
{
    b == 32 || b == 9 || b == 10 || b == 13 || b == 0 || b == 12
}

/// Whether `b` is a CMap delimiter (whitespace included).
pub fn is_delimiter(b: u8) -> (r: bool)
    ensures
        r == is_delim(b),
{
    is_whitespace(b) || b == 40 || b == 41 || b == 60 || b == 62 || b == 91 || b == 93 || b
        == 123 || b == 125 || b == 47 || b == 37
}

/// Copies `data[start..end]`.
pub fn sub_bytes(data: &[u8], start: usize, end: usize) -> (r: Vec<u8>)
    requires
        start <= end <= data@.len(),
    ensures
        r@ == data@.subrange(start as int, end as int),
{
    vstd::slice::slice_to_vec(vstd::slice::slice_subrange(data, start, end))
}

/// A cursor over the bytes of a CMap stream.
pub struct Parser<'a> {
    pub data: &'a [u8],
    pub pos: usize,
}

impl<'a> Parser<'a> {
    /// Whether the cursor lies within the data.
    pub open spec fn inv(&self) -> bool {
        self.pos <= self.data.len()
    }

    /// A cursor at the start of `data`.
    pub fn new(data: &'a [u8]) -> (r: Self)
        ensures
            r.data@ == data@,
            r.pos == 0,
    {
        Parser { data, pos: 0 }
    }

    /// Skips whitespace.
    pub fn skip_whitespace(&mut self)
        requires
            old(self).inv(),
        ensures
            final(self).data@ == old(self).data@,
            final(self).pos == skip_ws_spec(old(self).data@, old(self).pos as int),
            final(self).inv(),
    {
        let ghost d = self.data@;
        let ghost p0 = self.pos as int;
        while self.pos < self.data.len() && is_whitespace(self.data[self.pos])
            invariant
                self.data@ == d,
                p0 <= self.pos <= d.len(),
                skip_ws_spec(d, p0) == skip_ws_spec(d, self.pos as int),
            decreases d.len() - self.pos,
        {
            self.pos = self.pos + 1;
        }
    }

    /// Skips whitespace and `%` comments.
    pub fn skip_whitespace_and_comments(&mut self)
        requires
            old(self).inv(),
        ensures
            final(self).data@ == old(self).data@,
            final(self).pos == skip_ws_comments_spec(old(self).data@, old(self).pos as int),
            final(self).inv(),
    {
        let ghost d = self.data@;
        let ghost p0 = self.pos as int;
        loop
            invariant_except_break
                self.data@ == d,
                p0 <= self.pos <= d.len(),
                skip_ws_comments_spec(d, p0) == skip_ws_comments_spec(d, self.pos as int),
            ensures
                self.data@ == d,
                p0 <= self.pos <= d.len(),
                self.pos == skip_ws_comments_spec(d, p0),
            decreases d.len() - self.pos,
        {
            let ghost before = self.pos as int;
            proof {
                lemma_skip_ws_bounds(d, before);
            }
            self.skip_whitespace();
            if self.pos < self.data.len() && self.data[self.pos] == 37 {
                let ghost q = self.pos as int;
                while self.pos < self.data.len() && self.data[self.pos] != 10
                    invariant
                        self.data@ == d,
                        q <= self.pos <= d.len(),
                        line_end(d, q) == line_end(d, self.pos as int),
                    decreases d.len() - self.pos,
                {
                    self.pos = self.pos + 1;
                }
                proof {
                    lemma_line_end_ge(d, q);
                }
            } else {
                assert(skip_ws_comments_spec(d, before) == self.pos);
                break;
            }
        }
    }

    /// Reads a hex string; the cursor is on its `<`.
    pub fn read_hex_string(&mut self) -> (r: Token)
        requires
            old(self).inv(),
            old(self).pos < old(self).data.len(),
        ensures
            final(self).data@ == old(self).data@,
            final(self).inv(),
            (r@, final(self).pos as int) == ({
                let (b, e) = hex_scan(old(self).data@, old(self).pos + 1, None);
                (Tok::HexBytes(b), e)
            }),
    {
        let ghost d = self.data@;
        let ghost p1 = self.pos + 1;
        self.pos = self.pos + 1;
        let mut bytes: Vec<u8> = Vec::new();
        let mut hi: Option<u8> = None;
        loop
            invariant_except_break
                self.data@ == d,
                p1 <= self.pos <= d.len(),
                hi matches Some(h) ==> h < 16,
                hex_scan(d, p1, None) == (bytes@ + hex_scan(d, self.pos as int, hi).0, hex_scan(
                    d,
                    self.pos as int,
                    hi,
                ).1),
            ensures
                self.data@ == d,
                p1 <= self.pos <= d.len(),
                hi matches Some(h) ==> h < 16,
                hex_scan(d, p1, None) == (bytes@ + pad_nibble(hi), self.pos as int),
            decreases d.len() - self.pos,
        {
            if self.pos >= self.data.len() {
                break;
            }
            let ch = self.data[self.pos];
            if ch == 62 {
                self.pos = self.pos + 1;
                break;
            }
            self.pos = self.pos + 1;
            let ghost q = self.pos - 1;
            match hex_digit(ch) {
                Some(n) => {
                    match hi {
                        Some(h) => {
                            let ghost old_bytes = bytes@;
                            bytes.push(h * 16 + n);
                            hi = None;
                            assert(bytes@ == old_bytes + seq![(h * 16 + n) as u8]);
                            assert(old_bytes + hex_scan(d, q, Some(h)).0 == bytes@ + hex_scan(
                                d,
                                self.pos as int,
                                None,
                            ).0);
                        },
                        None => {
                            hi = Some(n);
                        },
                    }
                },
                None => {},
            }
        }
        match hi {
            Some(h) => {
                bytes.push(h * 16);
            },
            None => {},
        }
        assert(bytes@ == hex_scan(d, p1, None).0);
        Token::HexBytes(bytes)
    }

    /// Reads a literal string; the cursor is on its `(`.
    pub fn read_literal_string(&mut self) -> (r: Token)
        requires
            old(self).inv(),
            old(self).pos < old(self).data.len(),
        ensures
            final(self).data@ == old(self).data@,
            final(self).inv(),
            (r@, final(self).pos as int) == ({
                let (b, e) = lit_scan(old(self).data@, old(self).pos + 1, 1);
                (Tok::LiteralString(b), e)
            }),
    {
        let ghost d = self.data@;
        let ghost p1 = self.pos + 1;
        self.pos = self.pos + 1;
        let mut bytes: Vec<u8> = Vec::new();
        let mut depth: usize = 1;
        while self.pos < self.data.len() && depth > 0
            invariant
                self.data@ == d,
                p1 <= self.pos <= d.len(),
                depth <= self.pos,
                lit_scan(d, p1, 1) == (bytes@ + lit_scan(d, self.pos as int, depth as nat).0,
                lit_scan(d, self.pos as int, depth as nat).1),
            decreases d.len() - self.pos,
        {
            let ghost q = self.pos as int;
            let ghost old_bytes = bytes@;
            let ch = self.data[self.pos];
            self.pos = self.pos + 1;
            if ch == 40 {
                depth = depth + 1;
                bytes.push(ch);
                assert(bytes@ == old_bytes + seq![40u8]);
                assert(old_bytes + lit_scan(d, q, (depth - 1) as nat).0 == bytes@ + lit_scan(
                    d,
                    self.pos as int,
                    depth as nat,
                ).0);
            } else if ch == 41 {
                depth = depth - 1;
                if depth > 0 {
                    bytes.push(ch);
                    assert(bytes@ == old_bytes + seq![41u8]);
                    assert(old_bytes + lit_scan(d, q, (depth + 1) as nat).0 == bytes@ + lit_scan(
                        d,
                        self.pos as int,
                        depth as nat,
                    ).0);
                }
            } else if ch == 92 {
                if self.pos < self.data.len() {
                    let esc = self.data[self.pos];
                    self.pos = self.pos + 1;
                    if 48 <= esc && esc <= 55 {
                        let mut val: u32 = (esc - 48) as u32;
                        proof {
                            lemma_octal_tail_ge(d, q + 2, (esc - 48) as nat, 2);
                        }
                        let ghost o = octal_tail(d, q + 2, (esc - 48) as nat, 2);
                        if self.pos < self.data.len() && 48 <= self.data[self.pos]
                            && self.data[self.pos] <= 55 {
                            val = val * 8 + (self.data[self.pos] - 48) as u32;
                            self.pos = self.pos + 1;
                            assert(o == octal_tail(d, q + 3, val as nat, 1));
                            if self.pos < self.data.len() && 48 <= self.data[self.pos]
                                && self.data[self.pos] <= 55 {
                                val = val * 8 + (self.data[self.pos] - 48) as u32;
                                self.pos = self.pos + 1;
                                assert(o == octal_tail(d, q + 4, val as nat, 0));
                            } else {
                                assert(o == octal_tail(d, q + 3, val as nat, 1));
                            }
                        } else {
                            assert(o == octal_tail(d, q + 2, val as nat, 2));
                        }
                        assert(o == (val as nat, self.pos as int));
                        bytes.push((val % 256) as u8);
                        assert(bytes@ == old_bytes + seq![(val % 256) as u8]);
                    } else {
                        bytes.push(
                            if esc == 110 {
                                10u8
                            } else if esc == 114 {
                                13u8
                            } else if esc == 116 {
                                9u8
                            } else {
                                esc
                            },
                        );
                        assert(bytes@ == old_bytes + seq![simple_escape(esc)]);
                    }
                }
            } else {
                bytes.push(ch);
                assert(bytes@ == old_bytes + seq![ch]);
            }
        }
        assert(bytes@ == lit_scan(d, p1, 1).0);
        Token::LiteralString(bytes)
    }

    /// Reads a name; the cursor is on its `/`.
    pub fn read_name(&mut self) -> (r: Token)
        requires
            old(self).inv(),
            old(self).pos < old(self).data.len(),
        ensures
            final(self).data@ == old(self).data@,
            final(self).inv(),
            final(self).pos == regular_end(old(self).data@, old(self).pos + 1),
            r@ == Tok::Name(old(self).data@.subrange(old(self).pos + 1, final(self).pos as int)),
    {
        let ghost d = self.data@;
        self.pos = self.pos + 1;
        let start = self.pos;
        while self.pos < self.data.len() && !is_delimiter(self.data[self.pos])
            invariant
                self.data@ == d,
                start <= self.pos <= d.len(),
                regular_end(d, start as int) == regular_end(d, self.pos as int),
            decreases d.len() - self.pos,
        {
            self.pos = self.pos + 1;
        }
        Token::Name(sub_bytes(self.data, start, self.pos))
    }

    /// Reads an integer; the cursor is on a digit or a sign.
    pub fn read_number(&mut self) -> (r: Token)
        requires
            old(self).inv(),
            old(self).pos < old(self).data.len(),
            is_digit(old(self).data@[old(self).pos as int]) || old(self).data@[old(self).pos as int]
                == 45 || old(self).data@[old(self).pos as int] == 43,
        ensures
            final(self).data@ == old(self).data@,
            final(self).inv(),
            final(self).pos == number_end(old(self).data@, old(self).pos as int),
            r@ == Tok::Integer(
                parse_int_spec(old(self).data@.subrange(old(self).pos as int, final(self).pos as int)),
            ),
    {
        let ghost d = self.data@;
        let start = self.pos;
        if self.data[self.pos] == 45 || self.data[self.pos] == 43 {
            self.pos = self.pos + 1;
        }
        let dstart = self.pos;
        assert(dstart == if d[start as int] == 45 || d[start as int] == 43 {
            start + 1
        } else {
            start as int
        });
        while self.pos < self.data.len() && 48 <= self.data[self.pos] && self.data[self.pos] <= 57
            invariant
                self.data@ == d,
                dstart <= self.pos <= d.len(),
                digits_end(d, dstart as int) == digits_end(d, self.pos as int),
                forall|k: int| dstart <= k < self.pos ==> is_digit(#[trigger] d[k]),
            decreases d.len() - self.pos,
        {
            self.pos = self.pos + 1;
        }
        let end = self.pos;
        assert(end > start);
        let ghost s = d.subrange(start as int, end as int);
        let ghost ds = d.subrange(dstart as int, end as int);
        assert(ds =~= (if s[0] == 45 || s[0] == 43 { s.subrange(1, s.len() as int) } else { s }));
        if end == dstart {
            return Token::Integer(0);
        }
        let cap: u128 = 0x1_0000_0000_0000_0000;
        let mut acc: u128 = 0;
        let mut i: usize = dstart;
        while i < end
            invariant
                self.data@ == d,
                dstart <= i <= end <= d.len(),
                forall|k: int| dstart <= k < end ==> is_digit(#[trigger] d[k]),
                cap == 0x1_0000_0000_0000_0000u128,
                acc == if digits_value(d.subrange(dstart as int, i as int)) >= cap {
                    cap as nat
                } else {
                    digits_value(d.subrange(dstart as int, i as int))
                },
            decreases end - i,
        {
            let ghost prev = d.subrange(dstart as int, i as int);
            let dig: u128 = (self.data[i] - 48) as u128;
            assert(d.subrange(dstart as int, i + 1).drop_last() =~= prev);
            if acc < cap {
                let next = acc * 10 + dig;
                acc = if next >= cap {
                    cap
                } else {
                    next
                };
            }
            i = i + 1;
        }
        let neg = self.data[start] == 45;
        if neg {
            if acc <= 0x8000_0000_0000_0000 {
                Token::Integer((0i128 - (acc as i128)) as i64)
            } else {
                Token::Integer(0)
            }
        } else {
            if acc <= 0x7fff_ffff_ffff_ffff {
                Token::Integer(acc as i64)
            } else {
                Token::Integer(0)
            }
        }
    }

    /// Reads a keyword at the cursor; `None` (the cursor unmoved) where a
    /// delimiter stands there.
    pub fn read_keyword(&mut self) -> (r: Option<Token>)
        requires
            old(self).inv(),
        ensures
            final(self).data@ == old(self).data@,
            final(self).inv(),
            final(self).pos == regular_end(old(self).data@, old(self).pos as int),
            r is None <==> final(self).pos == old(self).pos,
            r matches Some(t) ==> t@ == Tok::Operator(
                old(self).data@.subrange(old(self).pos as int, final(self).pos as int),
            ),
    {
        let ghost d = self.data@;
        let start = self.pos;
        while self.pos < self.data.len() && !is_delimiter(self.data[self.pos])
            invariant
                self.data@ == d,
                start <= self.pos <= d.len(),
                regular_end(d, start as int) == regular_end(d, self.pos as int),
            decreases d.len() - self.pos,
        {
            self.pos = self.pos + 1;
        }
        if self.pos == start {
            None
        } else {
            Some(Token::Operator(sub_bytes(self.data, start, self.pos)))
        }
    }

    /// Reads the next token; `None` at the end of the data.
    pub fn next_token(&mut self) -> (r: Option<Token>)
        requires
            old(self).inv(),
        ensures
            final(self).data@ == old(self).data@,
            final(self).inv(),
            match r {
                Some(t) => next_token_spec(old(self).data@, old(self).pos as int) == Some(
                    (t@, final(self).pos as int),
                ),
                None => next_token_spec(old(self).data@, old(self).pos as int) is None
                    && final(self).pos == old(self).data@.len(),
            },
    {
        let ghost d = self.data@;
        let ghost p0 = self.pos as int;
        loop
            invariant
                self.data@ == d,
                d == old(self).data@,
                p0 == old(self).pos,
                p0 <= self.pos <= d.len(),
                next_token_spec(d, p0) == next_token_spec(d, self.pos as int),
            decreases d.len() - self.pos,
        {
            let ghost p = self.pos as int;
            proof {
                lemma_scan_bounds(d, p);
            }
            self.skip_whitespace_and_comments();
            let len = self.data.len();
            if self.pos >= len {
                return None;
            }
            let q = self.pos;
            let ch = self.data[q];
            if ch == 60 {
                if q + 1 < len && self.data[q + 1] == 60 {
                    self.pos = q + 2;
                    let v: Vec<u8> = vec![60u8, 60u8];
                    assert(v@ == seq![60u8, 60u8]);
                    return Some(Token::Operator(v));
                }
                let t = self.read_hex_string();
                return Some(t);
            } else if ch == 62 {
                if q + 1 < len && self.data[q + 1] == 62 {
                    self.pos = q + 2;
                    let v: Vec<u8> = vec![62u8, 62u8];
                    assert(v@ == seq![62u8, 62u8]);
                    return Some(Token::Operator(v));
                }
                self.pos = q + 1;
            } else if ch == 40 {
                let t = self.read_literal_string();
                return Some(t);
            } else if ch == 47 {
                let t = self.read_name();
                return Some(t);
            } else if (48 <= ch && ch <= 57) || ch == 45 || ch == 43 {
                let t = self.read_number();
                return Some(t);
            } else {
                match self.read_keyword() {
                    Some(t) => {
                        return Some(t);
                    },
                    None => {
                        self.pos = q + 1;
                    },
                }
            }
        }
    }
}

} // verus!
