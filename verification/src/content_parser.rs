//! Content stream tokenizing: operators with their operands.

use vstd::prelude::*;
use crate::cmap_lexer::{digits_value, hex_scan, is_digit, pad_nibble, sub_bytes};
use crate::cos_helpers::hex_digit;
use crate::cos_helpers::hex_value;

verus! {

/// A real number as written: sign, integer part and fraction digits.
#[derive(Clone, Copy, Debug, PartialEq, Eq, Structural)]
pub struct RealNumber {
    pub negative: bool,
    pub int_value: i64,
    pub frac_value: u64,
    pub frac_digits: usize,
}

/// An operand, as plain values.
pub enum Obj {
    Name(Seq<u8>),
    LiteralString(Seq<u8>),
    HexString(Seq<u8>),
    Dictionary(Seq<(Seq<u8>, Obj)>),
    Array(Seq<Obj>),
    Integer(i64),
    Real(RealNumber),
    Boolean(bool),
    Null,
}

/// An operand of a content stream operator.
#[derive(Debug)]
pub enum Operand {
    Name(Vec<u8>),
    LiteralString(Vec<u8>),
    HexString(Vec<u8>),
    Dictionary(Vec<(Vec<u8>, Operand)>),
    Array(Vec<Operand>),
    Integer(i64),
    Real(RealNumber),
    Boolean(bool),
    Null,
}

/// The plain value of an operand.
pub open spec fn obj_of(o: Operand) -> Obj
    decreases o, 0nat,
{
    match o {
        Operand::Name(b) => Obj::Name(b@),
        Operand::LiteralString(b) => Obj::LiteralString(b@),
        Operand::HexString(b) => Obj::HexString(b@),
        Operand::Dictionary(v) => Obj::Dictionary(entries_of(v@)),
        Operand::Array(v) => Obj::Array(objs_of(v@)),
        Operand::Integer(n) => Obj::Integer(n),
        Operand::Real(r) => Obj::Real(r),
        Operand::Boolean(b) => Obj::Boolean(b),
        Operand::Null => Obj::Null,
    }
}

/// The plain values of operands.
pub open spec fn objs_of(s: Seq<Operand>) -> Seq<Obj>
    decreases s, 1nat,
{
    if s.len() == 0 {
        Seq::empty()
    } else {
        objs_of(s.drop_last()).push(obj_of(s.last()))
    }
}

/// The plain values of dictionary entries.
pub open spec fn entries_of(s: Seq<(Vec<u8>, Operand)>) -> Seq<(Seq<u8>, Obj)>
    decreases s, 1nat,
{
    if s.len() == 0 {
        Seq::empty()
    } else {
        entries_of(s.drop_last()).push((s.last().0@, obj_of(s.last().1)))
    }
}

/// Content stream whitespace: space, tab, CR, LF, NUL, form feed.
pub open spec fn is_ws_c(b: u8) -> bool {
    b == 32 || b == 9 || b == 13 || b == 10 || b == 0 || b == 12
}

/// Bytes that may stand in a name: all but whitespace and delimiters.
pub open spec fn is_regular_c(b: u8) -> bool {
    !(is_ws_c(b) || b == 40 || b == 41 || b == 60 || b == 62 || b == 91 || b == 93 || b == 123
        || b == 125 || b == 47 || b == 37)
}

/// ASCII letters.
pub open spec fn is_alpha(b: u8) -> bool {
    (65 <= b <= 90) || (97 <= b <= 122)
}

/// Bytes that may continue an operator: letters, `*`, `'` and `"`.
pub open spec fn is_op_char(b: u8) -> bool {
    is_alpha(b) || b == 42 || b == 39 || b == 34
}

/// End of a comment: the first CR or LF at or after `p`.
pub open spec fn comment_end(d: Seq<u8>, p: int) -> int
    decreases d.len() - p,
{
    if 0 <= p < d.len() && d[p] != 13 && d[p] != 10 {
        comment_end(d, p + 1)
    } else {
        p
    }
}

/// First position at or after `p` outside whitespace and `%` comments.
pub open spec fn skip_ws_c(d: Seq<u8>, p: int) -> int
    decreases d.len() - p,
{
    if p < 0 || p >= d.len() {
        p
    } else if is_ws_c(d[p]) {
        skip_ws_c(d, p + 1)
    } else if d[p] == 37 {
        let e = comment_end(d, p + 1);
        if e <= p || e > d.len() {
            e
        } else {
            skip_ws_c(d, e)
        }
    } else {
        p
    }
}

/// The bytes of a name from `p` (after its `/`), with `#XX` escapes
/// decoded, and the position after it.
pub open spec fn name_scan(d: Seq<u8>, p: int) -> (Seq<u8>, int)
    decreases d.len() - p,
{
    if p < 0 || p >= d.len() {
        (Seq::empty(), p)
    } else if d[p] == 35 && p + 2 < d.len() && hex_value(d[p + 1]) is Some && hex_value(
        d[p + 2],
    ) is Some {
        let (rest, e) = name_scan(d, p + 3);
        (seq![(hex_value(d[p + 1])->0 * 16 + hex_value(d[p + 2])->0) as u8] + rest, e)
    } else if is_regular_c(d[p]) {
        let (rest, e) = name_scan(d, p + 1);
        (seq![d[p]] + rest, e)
    } else {
        (Seq::empty(), p)
    }
}

/// The byte a one-character escape `\c` of a content string stands for.
pub open spec fn content_escape(c: u8) -> u8 {
    if c == 110 {
        10
    } else if c == 114 {
        13
    } else if c == 116 {
        9
    } else if c == 98 {
        8
    } else if c == 102 {
        12
    } else {
        c
    }
}

/// Whether `b` is an octal digit.
pub open spec fn is_octal(b: u8) -> bool {
    48 <= b <= 55
}

/// The value and end of an octal escape of up to three digits at `q`.
pub open spec fn octal_escape(d: Seq<u8>, q: int) -> (nat, int) {
    let v1 = (d[q] - 48) as nat;
    if q + 1 < d.len() && is_octal(d[q + 1]) {
        let v2 = v1 * 8 + (d[q + 1] - 48) as nat;
        if q + 2 < d.len() && is_octal(d[q + 2]) {
            (v2 * 8 + (d[q + 2] - 48) as nat, q + 3)
        } else {
            (v2, q + 2)
        }
    } else {
        (v1, q + 1)
    }
}

/// The bytes of a literal string body from `q` at nesting `depth` (with
/// escapes decoded and CR / CRLF read as LF), and the position after it.
pub open spec fn lit_scan_c(d: Seq<u8>, q: int, depth: nat) -> (Seq<u8>, int)
    decreases d.len() - q,
{
    if q < 0 || q >= d.len() || depth == 0 {
        (Seq::empty(), q)
    } else if d[q] == 40 {
        let (rest, e) = lit_scan_c(d, q + 1, depth + 1);
        (seq![40u8] + rest, e)
    } else if d[q] == 41 {
        let (rest, e) = lit_scan_c(d, q + 1, (depth - 1) as nat);
        (if depth > 1 {
            seq![41u8] + rest
        } else {
            rest
        }, e)
    } else if d[q] == 92 {
        if q + 1 >= d.len() {
            (Seq::empty(), q + 1)
        } else {
            let c = d[q + 1];
            if c == 13 {
                if q + 2 < d.len() && d[q + 2] == 10 {
                    lit_scan_c(d, q + 3, depth)
                } else {
                    lit_scan_c(d, q + 2, depth)
                }
            } else if c == 10 {
                lit_scan_c(d, q + 2, depth)
            } else if is_octal(c) {
                let (v, e) = octal_escape(d, q + 1);
                let (rest, e2) = lit_scan_c(d, e, depth);
                (seq![(v % 256) as u8] + rest, e2)
            } else {
                let (rest, e) = lit_scan_c(d, q + 2, depth);
                (seq![content_escape(c)] + rest, e)
            }
        }
    } else if d[q] == 13 {
        let next = if q + 1 < d.len() && d[q + 1] == 10 {
            q + 2
        } else {
            q + 1
        };
        let (rest, e) = lit_scan_c(d, next, depth);
        (seq![10u8] + rest, e)
    } else {
        let (rest, e) = lit_scan_c(d, q + 1, depth);
        (seq![d[q]] + rest, e)
    }
}

/// End of a run of `ID`-searching from `p`: the position after `ID` and one
/// whitespace byte, where `ID` follows whitespace or the start of the data.
pub open spec fn id_scan(d: Seq<u8>, p: int) -> int
    decreases d.len() - p,
{
    if p < 0 || p + 1 >= d.len() {
        p
    } else if d[p] == 73 && d[p + 1] == 68 && (p == 0 || is_ws_c(d[p - 1])) {
        if p + 2 < d.len() && is_ws_c(d[p + 2]) {
            p + 3
        } else {
            p + 2
        }
    } else {
        id_scan(d, p + 1)
    }
}

/// The position after the first `EI` at or after `p` that stands between
/// whitespace (or the end of the data), or the end of the data.
pub open spec fn ei_scan(d: Seq<u8>, p: int) -> int
    decreases d.len() - p,
{
    if p < 0 || p + 1 >= d.len() {
        d.len() as int
    } else if d[p] == 69 && d[p + 1] == 73 && p > 0 && is_ws_c(d[p - 1]) && (p + 2 >= d.len()
        || is_ws_c(d[p + 2])) {
        p + 2
    } else {
        ei_scan(d, p + 1)
    }
}

/// Where an inline image that begins at `p` ends.
pub open spec fn inline_image_end(d: Seq<u8>, p: int) -> int {
    ei_scan(d, id_scan(d, p))
}

/// End of a run of decimal digits from `q`.
pub open spec fn digit_run_end(d: Seq<u8>, q: int) -> int
    decreases d.len() - q,
{
    if 0 <= q < d.len() && is_digit(d[q]) {
        digit_run_end(d, q + 1)
    } else {
        q
    }
}

/// The value of decimal digits taken modulo 2^64.
pub open spec fn wrap64(ds: Seq<u8>) -> u64 {
    (digits_value(ds) % 0x1_0000_0000_0000_0000) as u64
}

/// Two's complement negation on 64 bits.
pub open spec fn neg64(v: u64) -> u64 {
    if v == 0 {
        0
    } else {
        (0x1_0000_0000_0000_0000 - v) as u64
    }
}

/// A number at `p` (an optional sign, digits, and an optional fraction):
/// integers are taken modulo 2^64; a lone sign reads as 0.
pub open spec fn number_scan(d: Seq<u8>, p: int) -> (Obj, int) {
    let negative = p < d.len() && d[p] == 45;
    let int_start = if p < d.len() && (d[p] == 45 || d[p] == 43) {
        p + 1
    } else {
        p
    };
    let int_end = digit_run_end(d, int_start);
    let iv = wrap64(d.subrange(int_start, int_end));
    if int_end < d.len() && d[int_end] == 46 {
        let frac_end = digit_run_end(d, int_end + 1);
        (Obj::Real(
            RealNumber {
                negative,
                int_value: iv as i64,
                frac_value: wrap64(d.subrange(int_end + 1, frac_end)),
                frac_digits: (frac_end - (int_end + 1)) as usize,
            },
        ), frac_end)
    } else if int_end == int_start {
        (Obj::Integer(0), p + 1)
    } else {
        (Obj::Integer(
            if negative {
                neg64(iv) as i64
            } else {
                iv as i64
            },
        ), int_end)
    }
}

/// Whether the bytes at `p` spell `word`.
pub open spec fn starts_with_at(d: Seq<u8>, p: int, word: Seq<u8>) -> bool {
    0 <= p && p + word.len() <= d.len() && d.subrange(p, p + word.len()) == word
}

/// A keyword object `true`, `false` or `null` at `p`: the object when the
/// word is not followed by a letter, otherwise `Null` one byte on.
pub open spec fn keyword_scan(d: Seq<u8>, p: int, n: int, value: Obj) -> (Obj, int) {
    if p + n >= d.len() || !is_alpha(d[p + n]) {
        (value, p + n)
    } else {
        (Obj::Null, p + 1)
    }
}

/// Dictionary entries set in turn: a key set again keeps its place and takes
/// the new value.
pub open spec fn dict_set(entries: Seq<(Seq<u8>, Obj)>, key: Seq<u8>, value: Obj) -> Seq<
    (Seq<u8>, Obj),
> {
    if exists|i: int| 0 <= i < entries.len() && (#[trigger] entries[i]).0 == key {
        let i = choose|i: int| 0 <= i < entries.len() && (#[trigger] entries[i]).0 == key;
        entries.update(i, (key, value))
    } else {
        entries.push((key, value))
    }
}

/// Whether no key occurs twice.
pub open spec fn keys_unique(entries: Seq<(Seq<u8>, Obj)>) -> bool {
    forall|i: int, j: int|
        0 <= i < entries.len() && 0 <= j < entries.len() && i != j ==> (#[trigger] entries[i]).0
            != (#[trigger] entries[j]).0
}

/// The object at `p` and the position after it.
pub open spec fn object_scan(d: Seq<u8>, p: int) -> (Obj, int)
    decreases d.len() - p, 0nat,
{
    if p < 0 || p >= d.len() {
        (Obj::Null, p)
    } else {
        let b = d[p];
        if b == 47 {
            let (n, e) = name_scan(d, p + 1);
            (Obj::Name(n), e)
        } else if b == 40 {
            let (s, e) = lit_scan_c(d, p + 1, 1);
            (Obj::LiteralString(s), e)
        } else if b == 60 && p + 1 < d.len() && d[p + 1] == 60 {
            let (es, e) = dict_scan(d, p + 2, Seq::empty());
            (Obj::Dictionary(es), e)
        } else if b == 60 {
            let (s, e) = hex_scan(d, p + 1, None);
            (Obj::HexString(s), e)
        } else if b == 91 {
            let (items, e) = array_scan(d, p + 1);
            (Obj::Array(items), e)
        } else if is_digit(b) || b == 43 || b == 45 || (b == 46 && p + 1 < d.len() && is_digit(
            d[p + 1],
        )) {
            number_scan(d, p)
        } else if b == 116 && starts_with_at(d, p, seq![116u8, 114, 117, 101]) {
            keyword_scan(d, p, 4, Obj::Boolean(true))
        } else if b == 102 && starts_with_at(d, p, seq![102u8, 97, 108, 115, 101]) {
            keyword_scan(d, p, 5, Obj::Boolean(false))
        } else if b == 110 && starts_with_at(d, p, seq![110u8, 117, 108, 108]) {
            keyword_scan(d, p, 4, Obj::Null)
        } else {
            (Obj::Null, p + 1)
        }
    }
}

/// The items of an array from `p` (after its `[`) and the position after
/// its `]`; bytes that start no object are skipped.
pub open spec fn array_scan(d: Seq<u8>, p: int) -> (Seq<Obj>, int)
    decreases d.len() - p, 1nat,
{
    let q = skip_ws_c(d, p);
    if q < p || q >= d.len() {
        (Seq::empty(), q)
    } else if d[q] == 93 {
        (Seq::empty(), q + 1)
    } else {
        let (o, e) = object_scan(d, q);
        if e <= q || e > d.len() {
            array_scan(d, q + 1)
        } else {
            let (rest, e2) = array_scan(d, e);
            (seq![o] + rest, e2)
        }
    }
}

/// The entries of a dictionary from `p` (after its `<<`), set in turn into
/// `acc`, and the position after its `>>`; bytes that start no key are
/// skipped.
pub open spec fn dict_scan(d: Seq<u8>, p: int, acc: Seq<(Seq<u8>, Obj)>) -> (
    Seq<(Seq<u8>, Obj)>,
    int,
)
    decreases d.len() - p, 1nat,
{
    let q = skip_ws_c(d, p);
    if q < p || q >= d.len() {
        (acc, q)
    } else if d[q] == 62 && q + 1 < d.len() && d[q + 1] == 62 {
        (acc, q + 2)
    } else if d[q] != 47 {
        dict_scan(d, q + 1, acc)
    } else {
        let (key, ke) = name_scan(d, q + 1);
        let r = skip_ws_c(d, ke);
        if r <= q || r >= d.len() {
            (acc, r)
        } else {
            let (v, e) = object_scan(d, r);
            if e <= r || e > d.len() {
                dict_scan(d, r + 1, acc)
            } else {
                dict_scan(d, e, dict_set(acc, key, v))
            }
        }
    }
}

/// An operator with its operands.
pub open spec fn op_entry(word: Seq<u8>, operands: Seq<Obj>) -> (Seq<u8>, Seq<Obj>) {
    (word, operands)
}

/// End of an operator word from `p`.
pub open spec fn word_end_c(d: Seq<u8>, p: int) -> int
    decreases d.len() - p,
{
    if 0 <= p < d.len() && is_op_char(d[p]) {
        word_end_c(d, p + 1)
    } else {
        p
    }
}

/// The operations of a content stream from `p`, where `operands` are the
/// operands read since the last operator.
pub open spec fn content_ops(d: Seq<u8>, p: int, operands: Seq<Obj>) -> Seq<(Seq<u8>, Seq<Obj>)>
    decreases d.len() - p,
{
    let q = skip_ws_c(d, p);
    if q < p || q >= d.len() {
        Seq::empty()
    } else {
        let b = d[q];
        if b == 47 || b == 40 || b == 60 || b == 91 || is_digit(b) || b == 43 || b == 45 || (b
            == 46 && q + 1 < d.len() && is_digit(d[q + 1])) {
            let (o, e) = object_scan(d, q);
            if e <= q || e > d.len() {
                Seq::empty()
            } else {
                content_ops(d, e, operands.push(o))
            }
        } else if is_alpha(b) || b == 39 || b == 34 || b == 42 {
            let e = word_end_c(d, q + 1);
            let word = d.subrange(q, e);
            if e <= q || e > d.len() {
                Seq::empty()
            } else if word == seq![116u8, 114, 117, 101] {
                content_ops(d, e, operands.push(Obj::Boolean(true)))
            } else if word == seq![102u8, 97, 108, 115, 101] {
                content_ops(d, e, operands.push(Obj::Boolean(false)))
            } else if word == seq![110u8, 117, 108, 108] {
                content_ops(d, e, operands.push(Obj::Null))
            } else if word == seq![66u8, 73] {
                let ie = inline_image_end(d, e);
                if ie <= q || ie > d.len() {
                    Seq::empty()
                } else {
                    content_ops(d, ie, Seq::empty())
                }
            } else {
                seq![op_entry(word, operands)] + content_ops(d, e, Seq::empty())
            }
        } else {
            content_ops(d, q + 1, operands)
        }
    }
}

/// The plain values of operands, element by element.
pub proof fn lemma_objs_of(s: Seq<Operand>)
    ensures
        objs_of(s).len() == s.len(),
        forall|i: int| 0 <= i < s.len() ==> #[trigger] objs_of(s)[i] == obj_of(s[i]),
    decreases s.len(),
{
    if s.len() > 0 {
        lemma_objs_of(s.drop_last());
        assert forall|i: int| 0 <= i < s.len() implies #[trigger] objs_of(s)[i] == obj_of(s[i]) by {
            if i < s.len() - 1 {
                assert(s.drop_last()[i] == s[i]);
            }
        }
    }
}

/// The plain values of dictionary entries, element by element.
pub proof fn lemma_entries_of(s: Seq<(Vec<u8>, Operand)>)
    ensures
        entries_of(s).len() == s.len(),
        forall|i: int|
            0 <= i < s.len() ==> #[trigger] entries_of(s)[i] == (s[i].0@, obj_of(s[i].1)),
    decreases s.len(),
{
    if s.len() > 0 {
        lemma_entries_of(s.drop_last());
        assert forall|i: int| 0 <= i < s.len() implies #[trigger] entries_of(s)[i] == (
            s[i].0@,
            obj_of(s[i].1),
        ) by {
            if i < s.len() - 1 {
                assert(s.drop_last()[i] == s[i]);
            }
        }
    }
}

/// The plain values after pushing an operand.
pub proof fn lemma_objs_push(s: Seq<Operand>, o: Operand)
    ensures
        objs_of(s.push(o)) == objs_of(s).push(obj_of(o)),
{
    assert(s.push(o).drop_last() =~= s);
    assert(s.push(o).last() == o);
}

/// Whether `b` is content stream whitespace.
pub fn is_ws_byte(b: u8) -> (r: bool)
    ensures
        r == is_ws_c(b),
{
    b == 32 || b == 9 || b == 13 || b == 10 || b == 0 || b == 12
}

/// Whether `b` may stand in a name.
pub fn is_regular(b: u8) -> (r: bool)
    ensures
        r == is_regular_c(b),
{
    !(is_ws_byte(b) || b == 40 || b == 41 || b == 60 || b == 62 || b == 91 || b == 93 || b == 123
        || b == 125 || b == 47 || b == 37)
}

/// The value of a hexadecimal digit.
pub fn hex_val(b: u8) -> (r: Option<u8>)
    ensures
        r == hex_value(b),
{
    hex_digit(b)
}

fn is_alpha_byte(b: u8) -> (r: bool)
    ensures
        r == is_alpha(b),
{
    (65 <= b && b <= 90) || (97 <= b && b <= 122)
}

/// Skips whitespace and comments from `pos`.
pub fn skip_ws(data: &[u8], pos: usize) -> (r: usize)
    ensures
        r == skip_ws_c(data@, pos as int),
        pos <= data@.len() ==> pos <= r <= data@.len(),
        pos > data@.len() ==> r == pos,
{
    if pos > data.len() {
        return pos;
    }
    let ghost d = data@;
    let len = data.len();
    let mut pos = pos;
    let ghost p0 = pos as int;
    loop
        invariant_except_break
            len == d.len(),
            d == data@,
            p0 <= pos <= len,
            skip_ws_c(d, p0) == skip_ws_c(d, pos as int),
        ensures
            p0 <= pos <= len,
            skip_ws_c(d, p0) == pos,
        decreases len - pos,
    {
        if pos >= len {
            break;
        }
        let b = data[pos];
        if is_ws_byte(b) {
            pos = pos + 1;
        } else if b == 37 {
            let ghost q = pos as int;
            pos = pos + 1;
            while pos < len && data[pos] != 13 && data[pos] != 10
                invariant
                    len == d.len(),
                    d == data@,
                    q < pos <= len,
                    comment_end(d, q + 1) == comment_end(d, pos as int),
                decreases len - pos,
            {
                pos = pos + 1;
            }
        } else {
            break;
        }
    }
    pos
}

/// Reads a name from `pos` (after its `/`).
fn parse_name(data: &[u8], pos: usize) -> (r: (Vec<u8>, usize))
    requires
        pos <= data@.len(),
    ensures
        (r.0@, r.1 as int) == name_scan(data@, pos as int),
        pos <= r.1 <= data@.len(),
{
    let ghost d = data@;
    let len = data.len();
    let mut name: Vec<u8> = Vec::new();
    let mut pos = pos;
    let ghost p0 = pos as int;
    loop
        invariant_except_break
            len == d.len(),
            d == data@,
            p0 <= pos <= len,
            name_scan(d, p0) == (name@ + name_scan(d, pos as int).0, name_scan(d, pos as int).1),
        ensures
            len == d.len(),
            d == data@,
            p0 <= pos <= len,
            name_scan(d, p0) == (name@, pos as int),
        decreases len - pos,
    {
        if pos >= len {
            assert(name@ + Seq::<u8>::empty() =~= name@);
            break;
        }
        let b = data[pos];
        let ghost before = name@;
        if b == 35 && len - pos > 2 {
            match (hex_val(data[pos + 1]), hex_val(data[pos + 2])) {
                (Some(h), Some(l)) => {
                    let ghost rest = name_scan(d, pos + 3);
                    name.push(h * 16 + l);
                    pos = pos + 3;
                    assert(before + (seq![(h * 16 + l) as u8] + rest.0) =~= name@ + rest.0);
                    continue;
                },
                _ => {},
            }
        }
        if is_regular(b) {
            let ghost rest = name_scan(d, pos + 1);
            name.push(b);
            pos = pos + 1;
            assert(before + (seq![b] + rest.0) =~= name@ + rest.0);
        } else {
            assert(name@ + Seq::<u8>::empty() =~= name@);
            break;
        }
    }
    (name, pos)
}

/// Reads a literal string from `pos` (after its `(`).
pub fn parse_literal_string(data: &[u8], pos: usize) -> (r: (Vec<u8>, usize))
    requires
        pos <= data@.len(),
    ensures
        (r.0@, r.1 as int) == lit_scan_c(data@, pos as int, 1),
        pos <= r.1 <= data@.len(),
{
    let ghost d = data@;
    let len = data.len();
    let mut result: Vec<u8> = Vec::new();
    let mut depth: u128 = 1;
    let mut pos = pos;
    let ghost p0 = pos as int;
    loop
        invariant_except_break
            len == d.len(),
            d == data@,
            p0 <= pos <= len,
            depth <= pos - p0 + 1,
            lit_scan_c(d, p0, 1) == (result@ + lit_scan_c(d, pos as int, depth as nat).0, lit_scan_c(
                d,
                pos as int,
                depth as nat,
            ).1),
        ensures
            len == d.len(),
            d == data@,
            p0 <= pos <= len,
            lit_scan_c(d, p0, 1) == (result@, pos as int),
        decreases len - pos,
    {
        if pos >= len || depth == 0 {
            assert(result@ + Seq::<u8>::empty() =~= result@);
            break;
        }
        let b = data[pos];
        let ghost before = result@;
        let ghost q = pos as int;
        if b == 40 {
            let ghost rest = lit_scan_c(d, q + 1, (depth + 1) as nat);
            depth = depth + 1;
            result.push(40u8);
            pos = pos + 1;
            assert(before + (seq![40u8] + rest.0) =~= result@ + rest.0);
        } else if b == 41 {
            let ghost rest = lit_scan_c(d, q + 1, (depth - 1) as nat);
            depth = depth - 1;
            if depth > 0 {
                result.push(41u8);
                assert(before + (seq![41u8] + rest.0) =~= result@ + rest.0);
            }
            pos = pos + 1;
        } else if b == 92 {
            pos = pos + 1;
            if pos >= len {
                assert(result@ + Seq::<u8>::empty() =~= result@);
                break;
            }
            let c = data[pos];
            if c == 13 {
                pos = pos + 1;
                if pos < len && data[pos] == 10 {
                    pos = pos + 1;
                }
            } else if c == 10 {
                pos = pos + 1;
            } else if 48 <= c && c <= 55 {
                let ghost oe = octal_escape(d, q + 1);
                let mut val: u16 = (c - 48) as u16;
                pos = pos + 1;
                if pos < len && 48 <= data[pos] && data[pos] <= 55 {
                    val = val * 8 + (data[pos] - 48) as u16;
                    pos = pos + 1;
                    if pos < len && 48 <= data[pos] && data[pos] <= 55 {
                        val = val * 8 + (data[pos] - 48) as u16;
                        pos = pos + 1;
                    }
                }
                assert(oe == (val as nat, pos as int));
                let ghost rest = lit_scan_c(d, pos as int, depth as nat);
                result.push((val % 256) as u8);
                assert(before + (seq![(val % 256) as u8] + rest.0) =~= result@ + rest.0);
            } else {
                let e: u8 = if c == 110 {
                    10
                } else if c == 114 {
                    13
                } else if c == 116 {
                    9
                } else if c == 98 {
                    8
                } else if c == 102 {
                    12
                } else {
                    c
                };
                let ghost rest = lit_scan_c(d, q + 2, depth as nat);
                result.push(e);
                pos = pos + 1;
                assert(before + (seq![e] + rest.0) =~= result@ + rest.0);
            }
        } else if b == 13 {
            result.push(10u8);
            pos = pos + 1;
            if pos < len && data[pos] == 10 {
                pos = pos + 1;
            }
            let ghost rest = lit_scan_c(d, pos as int, depth as nat);
            assert(before + (seq![10u8] + rest.0) =~= result@ + rest.0);
        } else {
            let ghost rest = lit_scan_c(d, q + 1, depth as nat);
            result.push(b);
            pos = pos + 1;
            assert(before + (seq![b] + rest.0) =~= result@ + rest.0);
        }
    }
    (result, pos)
}

/// Reads a hex string from `pos` (after its `<`).
fn parse_hex_string(data: &[u8], pos: usize) -> (r: (Vec<u8>, usize))
    requires
        pos <= data@.len(),
    ensures
        (r.0@, r.1 as int) == hex_scan(data@, pos as int, None),
        pos <= r.1 <= data@.len(),
{
    let ghost d = data@;
    let len = data.len();
    let mut result: Vec<u8> = Vec::new();
    let mut high: Option<u8> = None;
    let mut pos = pos;
    let ghost p0 = pos as int;
    loop
        invariant_except_break
            len == d.len(),
            d == data@,
            p0 <= pos <= len,
            high matches Some(h) ==> h < 16,
            hex_scan(d, p0, None) == (result@ + hex_scan(d, pos as int, high).0, hex_scan(
                d,
                pos as int,
                high,
            ).1),
        ensures
            len == d.len(),
            d == data@,
            p0 <= pos <= len,
            high matches Some(h) ==> h < 16,
            hex_scan(d, p0, None) == (result@ + pad_nibble(high), pos as int),
        decreases len - pos,
    {
        if pos >= len {
            break;
        }
        let b = data[pos];
        pos = pos + 1;
        if b == 62 {
            break;
        }
        let ghost q = pos - 1;
        match hex_val(b) {
            Some(n) => {
                match high {
                    Some(h) => {
                        let ghost before = result@;
                        result.push(h * 16 + n);
                        high = None;
                        assert(before + hex_scan(d, q, Some(h)).0 == result@ + hex_scan(
                            d,
                            pos as int,
                            None,
                        ).0);
                    },
                    None => {
                        high = Some(n);
                    },
                }
            },
            None => {},
        }
    }
    match high {
        Some(h) => {
            result.push(h * 16);
        },
        None => {},
    }
    assert(result@ == hex_scan(d, p0, None).0);
    (result, pos)
}

/// Whether `data[from..to]` holds the bytes `w`.
fn range_eq(data: &[u8], from: usize, to: usize, w: &[u8]) -> (r: bool)
    requires
        from <= to <= data@.len(),
    ensures
        r == (data@.subrange(from as int, to as int) == w@),
{
    if to - from != w.len() {
        return false;
    }
    let mut i: usize = 0;
    while i < w.len()
        invariant
            from <= to <= data@.len(),
            to - from == w@.len(),
            0 <= i <= w@.len(),
            forall|j: int| 0 <= j < i ==> data@[from + j] == w@[j],
        decreases w@.len() - i,
    {
        if data[from + i] != w[i] {
            assert(data@.subrange(from as int, to as int)[i as int] != w@[i as int]);
            return false;
        }
        i = i + 1;
    }
    assert(data@.subrange(from as int, to as int) =~= w@);
    true
}

/// The value of the decimal digits `data[from..to]` modulo 2^64.
fn wrap_digits(data: &[u8], from: usize, to: usize) -> (r: u64)
    requires
        from <= to <= data@.len(),
        forall|k: int| from <= k < to ==> is_digit(#[trigger] data@[k]),
    ensures
        r == wrap64(data@.subrange(from as int, to as int)),
{
    let ghost d = data@;
    let mut val: u64 = 0;
    let mut i = from;
    while i < to
        invariant
            from <= i <= to <= d.len(),
            d == data@,
            forall|k: int| from <= k < to ==> is_digit(#[trigger] d[k]),
            val as nat == digits_value(d.subrange(from as int, i as int)) % 0x1_0000_0000_0000_0000,
        decreases to - i,
    {
        let ghost prev = digits_value(d.subrange(from as int, i as int));
        let dig = data[i] - 48;
        let next: u128 = (val as u128) * 10 + (dig as u128);
        val = (next % 0x1_0000_0000_0000_0000) as u64;
        proof {
            assert(d.subrange(from as int, i + 1).drop_last() =~= d.subrange(from as int, i as int));
            let m: int = 0x1_0000_0000_0000_0000;
            let pv: int = prev as int;
            let bv: int = dig as int;
            vstd::arithmetic::div_mod::lemma_mul_mod_noop_left(pv, 10, m);
            vstd::arithmetic::div_mod::lemma_add_mod_noop(pv * 10, bv, m);
            vstd::arithmetic::div_mod::lemma_add_mod_noop((pv % m) * 10, bv, m);
            vstd::arithmetic::div_mod::lemma_mod_twice(pv * 10, m);
        }
        i = i + 1;
    }
    val
}

/// End of a run of digits from `p`, with every byte of the run a digit.
fn digit_run(data: &[u8], p: usize) -> (r: usize)
    requires
        p <= data@.len(),
    ensures
        r == digit_run_end(data@, p as int),
        p <= r <= data@.len(),
        forall|k: int| p <= k < r ==> is_digit(#[trigger] data@[k]),
{
    let mut q = p;
    while q < data.len() && 48 <= data[q] && data[q] <= 57
        invariant
            p <= q <= data@.len(),
            digit_run_end(data@, p as int) == digit_run_end(data@, q as int),
            forall|k: int| p <= k < q ==> is_digit(#[trigger] data@[k]),
        decreases data@.len() - q,
    {
        q = q + 1;
    }
    q
}

/// Reads a number at `pos`.
fn parse_number(data: &[u8], pos: usize) -> (r: (Operand, usize))
    requires
        pos < data@.len(),
    ensures
        (obj_of(r.0), r.1 as int) == number_scan(data@, pos as int),
        pos < r.1 <= data@.len(),
{
    let len = data.len();
    let negative = data[pos] == 45;
    let int_start = if data[pos] == 45 || data[pos] == 43 {
        pos + 1
    } else {
        pos
    };
    let int_end = digit_run(data, int_start);
    let iv = wrap_digits(data, int_start, int_end);
    if int_end < len && data[int_end] == 46 {
        let frac_start = int_end + 1;
        let frac_end = digit_run(data, frac_start);
        let fv = wrap_digits(data, frac_start, frac_end);
        (
            Operand::Real(
                RealNumber {
                    negative,
                    int_value: iv as i64,
                    frac_value: fv,
                    frac_digits: frac_end - frac_start,
                },
            ),
            frac_end,
        )
    } else if int_end == int_start {
        (Operand::Integer(0), pos + 1)
    } else {
        let v: u64 = if negative {
            if iv == 0 {
                0
            } else {
                (0xffff_ffff_ffff_ffffu64 - iv) + 1
            }
        } else {
            iv
        };
        (Operand::Integer(v as i64), int_end)
    }
}

/// Whether `dict` holds the key `key`, and where.
fn find_key(dict: &Vec<(Vec<u8>, Operand)>, key: &Vec<u8>) -> (r: Option<usize>)
    ensures
        match r {
            Some(i) => i < dict@.len() && dict@[i as int].0@ == key@,
            None => forall|j: int| 0 <= j < dict@.len() ==> (#[trigger] dict@[j]).0@ != key@,
        },
{
    let mut i: usize = 0;
    while i < dict.len()
        invariant
            0 <= i <= dict@.len(),
            forall|j: int| 0 <= j < i ==> (#[trigger] dict@[j]).0@ != key@,
        decreases dict@.len() - i,
    {
        if range_eq(dict[i].0.as_slice(), 0, dict[i].0.len(), key.as_slice()) {
            assert(dict@[i as int].0@.subrange(0, dict@[i as int].0@.len() as int) =~= dict@[i as int].0@);
            return Some(i);
        }
        assert(dict@[i as int].0@.subrange(0, dict@[i as int].0@.len() as int) =~= dict@[i as int].0@);
        i = i + 1;
    }
    None
}

/// Sets `key` to `value`: an existing key keeps its place.
fn dict_set_exec(dict: &mut Vec<(Vec<u8>, Operand)>, key: Vec<u8>, value: Operand)
    requires
        keys_unique(entries_of(old(dict)@)),
    ensures
        entries_of(final(dict)@) == dict_set(entries_of(old(dict)@), key@, obj_of(value)),
        keys_unique(entries_of(final(dict)@)),
{
    let ghost old_e = entries_of(dict@);
    let ghost kv = key@;
    let ghost ov = obj_of(value);
    proof {
        lemma_entries_of(dict@);
    }
    match find_key(dict, &key) {
        Some(i) => {
            dict.set(i, (key, value));
            proof {
                lemma_entries_of(dict@);
                assert(old_e[i as int].0 == kv);
                let j = choose|j: int| 0 <= j < old_e.len() && (#[trigger] old_e[j]).0 == kv;
                assert(j == i);
                assert(entries_of(dict@) =~= old_e.update(i as int, (kv, ov)));
                assert forall|a: int, b: int|
                    0 <= a < entries_of(dict@).len() && 0 <= b < entries_of(dict@).len() && a
                        != b implies (#[trigger] entries_of(dict@)[a]).0 != (#[trigger] entries_of(
                    dict@,
                )[b]).0 by {
                    assert(entries_of(dict@)[a].0 == old_e[a].0);
                    assert(entries_of(dict@)[b].0 == old_e[b].0);
                }
            }
        },
        None => {
            dict.push((key, value));
            proof {
                lemma_entries_of(dict@);
                assert(entries_of(dict@) =~= old_e.push((kv, ov)));
                assert(!exists|j: int| 0 <= j < old_e.len() && (#[trigger] old_e[j]).0 == kv);
                assert forall|a: int, b: int|
                    0 <= a < entries_of(dict@).len() && 0 <= b < entries_of(dict@).len() && a
                        != b implies (#[trigger] entries_of(dict@)[a]).0 != (#[trigger] entries_of(
                    dict@,
                )[b]).0 by {
                    if a < old_e.len() && b < old_e.len() {
                        assert(entries_of(dict@)[a] == old_e[a]);
                        assert(entries_of(dict@)[b] == old_e[b]);
                    } else if a < old_e.len() {
                        assert(entries_of(dict@)[a] == old_e[a]);
                    } else {
                        assert(entries_of(dict@)[b] == old_e[b]);
                    }
                }
            }
        },
    }
}

/// Reads the object at `pos`.
fn parse_object(data: &[u8], pos: usize) -> (r: (Operand, usize))
    requires
        pos <= data@.len(),
    ensures
        (obj_of(r.0), r.1 as int) == object_scan(data@, pos as int),
        r.1 <= data@.len(),
        pos < data@.len() ==> pos < r.1,
    decreases data@.len() - pos, 0nat,
{
    let len = data.len();
    if pos >= len {
        return (Operand::Null, pos);
    }
    let b = data[pos];
    if b == 47 {
        let (name, e) = parse_name(data, pos + 1);
        (Operand::Name(name), e)
    } else if b == 40 {
        let (s, e) = parse_literal_string(data, pos + 1);
        (Operand::LiteralString(s), e)
    } else if b == 60 && pos + 1 < len && data[pos + 1] == 60 {
        let (dict, e) = parse_dictionary(data, pos + 2);
        (Operand::Dictionary(dict), e)
    } else if b == 60 {
        let (s, e) = parse_hex_string(data, pos + 1);
        (Operand::HexString(s), e)
    } else if b == 91 {
        let (arr, e) = parse_array(data, pos + 1);
        (Operand::Array(arr), e)
    } else if (48 <= b && b <= 57) || b == 43 || b == 45 || (b == 46 && pos + 1 < len && 48
        <= data[pos + 1] && data[pos + 1] <= 57) {
        parse_number(data, pos)
    } else if b == 116 && len - pos >= 4 && range_eq(data, pos, pos + 4, &[116u8, 114, 117, 101]) {
        proof {
            assert([116u8, 114, 117, 101]@ == seq![116u8, 114, 117, 101]);
        }
        let end = pos + 4;
        if end >= len || !is_alpha_byte(data[end]) {
            (Operand::Boolean(true), end)
        } else {
            (Operand::Null, pos + 1)
        }
    } else if b == 102 && len - pos >= 5 && range_eq(
        data,
        pos,
        pos + 5,
        &[102u8, 97, 108, 115, 101],
    ) {
        proof {
            assert([102u8, 97, 108, 115, 101]@ == seq![102u8, 97, 108, 115, 101]);
        }
        let end = pos + 5;
        if end >= len || !is_alpha_byte(data[end]) {
            (Operand::Boolean(false), end)
        } else {
            (Operand::Null, pos + 1)
        }
    } else if b == 110 && len - pos >= 4 && range_eq(data, pos, pos + 4, &[110u8, 117, 108, 108]) {
        proof {
            assert([110u8, 117, 108, 108]@ == seq![110u8, 117, 108, 108]);
        }
        let end = pos + 4;
        if end >= len || !is_alpha_byte(data[end]) {
            (Operand::Null, end)
        } else {
            (Operand::Null, pos + 1)
        }
    } else {
        (Operand::Null, pos + 1)
    }
}

/// Reads the items of an array from `pos` (after its `[`).
fn parse_array(data: &[u8], pos: usize) -> (r: (Vec<Operand>, usize))
    requires
        pos <= data@.len(),
    ensures
        (objs_of(r.0@), r.1 as int) == array_scan(data@, pos as int),
        pos <= r.1 <= data@.len(),
    decreases data@.len() - pos, 1nat,
{
    let ghost d = data@;
    let len = data.len();
    let mut items: Vec<Operand> = Vec::new();
    let mut cur = pos;
    let ghost p0 = pos as int;
    loop
        invariant_except_break
            len == d.len(),
            d == data@,
            p0 <= cur <= len,
            p0 == pos,
            array_scan(d, p0) == (objs_of(items@) + array_scan(d, cur as int).0, array_scan(
                d,
                cur as int,
            ).1),
        ensures
            p0 <= cur <= len,
            array_scan(d, p0) == (objs_of(items@), cur as int),
        decreases len - cur,
    {
        cur = skip_ws(data, cur);
        if cur >= len || data[cur] == 93 {
            if cur < len {
                cur = cur + 1;
            }
            assert(objs_of(items@) + Seq::<Obj>::empty() =~= objs_of(items@));
            break;
        }
        let q = cur;
        let (obj, new_pos) = parse_object(data, q);
        if new_pos <= q {
            cur = q + 1;
            continue;
        }
        let ghost ov = obj_of(obj);
        let ghost rest = array_scan(d, new_pos as int);
        let ghost before = items@;
        items.push(obj);
        proof {
            assert(items@.drop_last() =~= before);
            assert(objs_of(before) + (seq![ov] + rest.0) =~= objs_of(items@) + rest.0);
        }
        cur = new_pos;
    }
    (items, cur)
}

/// Reads the entries of a dictionary from `pos` (after its `<<`).
fn parse_dictionary(data: &[u8], pos: usize) -> (r: (Vec<(Vec<u8>, Operand)>, usize))
    requires
        pos <= data@.len(),
    ensures
        (entries_of(r.0@), r.1 as int) == dict_scan(data@, pos as int, Seq::empty()),
        keys_unique(entries_of(r.0@)),
        pos <= r.1 <= data@.len(),
    decreases data@.len() - pos, 1nat,
{
    let ghost d = data@;
    let len = data.len();
    let mut dict: Vec<(Vec<u8>, Operand)> = Vec::new();
    let mut cur = pos;
    let ghost p0 = pos as int;
    proof {
        assert(entries_of(dict@) =~= Seq::<(Seq<u8>, Obj)>::empty());
    }
    loop
        invariant_except_break
            len == d.len(),
            d == data@,
            p0 <= cur <= len,
            p0 == pos,
            keys_unique(entries_of(dict@)),
            dict_scan(d, p0, Seq::empty()) == dict_scan(d, cur as int, entries_of(dict@)),
        ensures
            p0 <= cur <= len,
            keys_unique(entries_of(dict@)),
            dict_scan(d, p0, Seq::empty()) == (entries_of(dict@), cur as int),
        decreases len - cur,
    {
        cur = skip_ws(data, cur);
        if cur >= len {
            break;
        }
        if data[cur] == 62 && cur + 1 < len && data[cur + 1] == 62 {
            cur = cur + 2;
            break;
        }
        if data[cur] != 47 {
            cur = cur + 1;
            continue;
        }
        let q = cur;
        let (key, key_end) = parse_name(data, q + 1);
        cur = skip_ws(data, key_end);
        if cur >= len {
            break;
        }
        let r = cur;
        let (value, new_pos) = parse_object(data, r);
        if new_pos <= r {
            cur = r + 1;
            continue;
        }
        dict_set_exec(&mut dict, key, value);
        cur = new_pos;
    }
    (dict, cur)
}

/// Skips an inline image whose `BI` ends at `pos`: up to and past `ID`,
/// then past the `EI` that ends the image data.
fn skip_inline_image(data: &[u8], pos: usize) -> (r: usize)
    requires
        pos <= data@.len(),
    ensures
        r == inline_image_end(data@, pos as int),
        pos <= r <= data@.len(),
{
    let ghost d = data@;
    let len = data.len();
    let mut cur = pos;
    let ghost p0 = pos as int;
    let mut found = false;
    while !found && len - cur > 1
        invariant
            len == d.len(),
            d == data@,
            p0 <= cur <= len,
            p0 == pos,
            found ==> cur == id_scan(d, p0),
            !found ==> id_scan(d, p0) == id_scan(d, cur as int),
        decreases len - cur, if found { 0int } else { 1int },
    {
        if data[cur] == 73 && data[cur + 1] == 68 && (cur == 0 || is_ws_byte(data[cur - 1])) {
            cur = cur + 2;
            if cur < len && is_ws_byte(data[cur]) {
                cur = cur + 1;
            }
            found = true;
        } else {
            cur = cur + 1;
        }
    }
    let ghost q = cur as int;
    while len - cur > 1
        invariant
            len == d.len(),
            d == data@,
            p0 <= q <= cur <= len,
            p0 == pos,
            q == id_scan(d, p0),
            ei_scan(d, q) == ei_scan(d, cur as int),
        decreases len - cur,
    {
        if data[cur] == 69 && data[cur + 1] == 73 {
            let preceded = cur > 0 && is_ws_byte(data[cur - 1]);
            let followed = cur + 2 >= len || is_ws_byte(data[cur + 2]);
            if preceded && followed {
                return cur + 2;
            }
        }
        cur = cur + 1;
    }
    len
}

/// An operator of a content stream with its operands.
pub struct Operation {
    /// The operator's name.
    pub operator: Vec<u8>,
    /// The operands that precede it.
    pub operands: Vec<Operand>,
}

/// The plain values of operations.
pub open spec fn ops_view(s: Seq<Operation>) -> Seq<(Seq<u8>, Seq<Obj>)> {
    s.map_values(|o: Operation| (o.operator@, objs_of(o.operands@)))
}

/// Reads the operations of a content stream. Operands are collected until
/// an operator; inline images (`BI` ... `ID` ... `EI`) are skipped with
/// their pending operands; bytes that start nothing are skipped.
pub fn parse_content_stream(data: &[u8]) -> (r: Vec<Operation>)
    ensures
        ops_view(r@) == content_ops(data@, 0, Seq::empty()),
{
    let ghost d = data@;
    let len = data.len();
    let mut ops: Vec<Operation> = Vec::new();
    let mut operands: Vec<Operand> = Vec::new();
    let mut pos: usize = 0;
    proof {
        assert(objs_of(operands@) =~= Seq::<Obj>::empty());
        assert(ops_view(ops@) =~= Seq::empty());
    }
    loop
        invariant_except_break
            len == d.len(),
            d == data@,
            pos <= len,
            content_ops(d, 0, Seq::empty()) == ops_view(ops@) + content_ops(
                d,
                pos as int,
                objs_of(operands@),
            ),
        ensures
            content_ops(d, 0, Seq::empty()) == ops_view(ops@),
        decreases len - pos,
    {
        let ghost before = pos as int;
        let ghost pending = objs_of(operands@);
        pos = skip_ws(data, pos);
        if pos >= len {
            assert(ops_view(ops@) + Seq::<(Seq<u8>, Seq<Obj>)>::empty() =~= ops_view(ops@));
            break;
        }
        let q = pos;
        let b = data[q];
        if b == 47 || b == 40 || b == 60 || b == 91 || (48 <= b && b <= 57) || b == 43 || b == 45
            || (b == 46 && q + 1 < len && 48 <= data[q + 1] && data[q + 1] <= 57) {
            let (obj, e) = parse_object(data, q);
            let ghost ov = obj_of(obj);
            let ghost prev = operands@;
            operands.push(obj);
            proof {
                assert(operands@.drop_last() =~= prev);
            }
            pos = e;
        } else if is_alpha_byte(b) || b == 39 || b == 34 || b == 42 {
            let mut e = q + 1;
            while e < len && (is_alpha_byte(data[e]) || data[e] == 42 || data[e] == 39 || data[e]
                == 34)
                invariant
                    len == d.len(),
                    d == data@,
                    q < e <= len,
                    word_end_c(d, q + 1) == word_end_c(d, e as int),
                decreases len - e,
            {
                e = e + 1;
            }
            proof {
                assert([116u8, 114, 117, 101]@ == seq![116u8, 114, 117, 101]);
                assert([102u8, 97, 108, 115, 101]@ == seq![102u8, 97, 108, 115, 101]);
                assert([110u8, 117, 108, 108]@ == seq![110u8, 117, 108, 108]);
                assert([66u8, 73]@ == seq![66u8, 73]);
            }
            if range_eq(data, q, e, &[116u8, 114, 117, 101]) {
                let ghost prev = operands@;
                operands.push(Operand::Boolean(true));
                proof {
                    lemma_objs_push(prev, Operand::Boolean(true));
                }
                pos = e;
            } else if range_eq(data, q, e, &[102u8, 97, 108, 115, 101]) {
                let ghost prev = operands@;
                operands.push(Operand::Boolean(false));
                proof {
                    lemma_objs_push(prev, Operand::Boolean(false));
                }
                pos = e;
            } else if range_eq(data, q, e, &[110u8, 117, 108, 108]) {
                let ghost prev = operands@;
                operands.push(Operand::Null);
                proof {
                    lemma_objs_push(prev, Operand::Null);
                }
                pos = e;
            } else if range_eq(data, q, e, &[66u8, 73]) {
                pos = skip_inline_image(data, e);
                operands = Vec::new();
                proof {
                    assert(objs_of(operands@) =~= Seq::<Obj>::empty());
                }
            } else {
                let word = sub_bytes(data, q, e);
                let ghost entry = (word@, pending);
                let ghost prev_ops = ops@;
                let ghost rest = content_ops(d, e as int, Seq::empty());
                ops.push(Operation { operator: word, operands });
                operands = Vec::new();
                proof {
                    assert(objs_of(operands@) =~= Seq::<Obj>::empty());
                    assert(ops_view(ops@) =~= ops_view(prev_ops).push(entry));
                    assert(ops_view(prev_ops) + (seq![entry] + rest) =~= ops_view(ops@) + rest);
                }
                pos = e;
            }
        } else {
            pos = q + 1;
        }
    }
    ops
}

} // verus!
