//! The decisions of the content stream engine that involve no geometry:
//! cleaning content bytes, splitting them at NUL runs, marked content with
//! `/ActualText`, decoding the glyphs of a string, and joining page texts.

use vstd::prelude::*;
use crate::content_parser::{obj_of, Obj, Operand};
use crate::cos_helpers::be_units;
use crate::font::{char_text, font_read_code, font_unicode, PdfFont};
use crate::glyph_list::{opt_string_view, GlyphList};
use crate::text_std::{
    char_from_u32, latin1, str_to_chars, str_to_string, string_push,
    utf16_lossy_spec, utf16_strict, utf16_well_formed,
};

verus! {

/// `u8::is_ascii_whitespace`: space, tab, LF, form feed, CR.
pub open spec fn is_ascii_ws(b: u8) -> bool {
    b == 32 || b == 9 || b == 10 || b == 12 || b == 13
}

fn ascii_ws(b: u8) -> (r: bool)
    ensures
        r == is_ascii_ws(b),
{
    b == 32 || b == 9 || b == 10 || b == 12 || b == 13
}

/// The position after the `EI` that ends inline image data from `i` on: an
/// `EI` after whitespace and before whitespace; the end of the data if none.
pub open spec fn ei_search(d: Seq<u8>, i: int) -> int
    decreases d.len() - i,
{
    if i < 1 || i + 2 >= d.len() {
        d.len() as int
    } else if d[i] == 69 && d[i + 1] == 73 && is_ascii_ws(d[i - 1]) && is_ascii_ws(d[i + 2]) {
        i + 2
    } else {
        ei_search(d, i + 1)
    }
}

/// Looks for `ID` (between whitespace) from `i` on; the end of the image
/// after it, or `None` when there is no `ID`.
pub open spec fn id_search(d: Seq<u8>, i: int) -> Option<int>
    decreases d.len() - i,
{
    if i < 0 || i + 2 >= d.len() {
        None
    } else if d[i] == 73 && d[i + 1] == 68 && (i == 0 || is_ascii_ws(d[i - 1])) && is_ascii_ws(
        d[i + 2],
    ) {
        Some(ei_search(d, i + 3))
    } else {
        id_search(d, i + 1)
    }
}

/// Where an inline image that starts with `BI` at the start of `d` ends.
pub open spec fn find_ei_spec(d: Seq<u8>) -> Option<int> {
    id_search(d, 2)
}

/// Finds the end of an inline image that starts at the start of `data`
/// (`BI`): after its `ID`, the position after the `EI` that follows
/// whitespace and precedes whitespace, or the end of the data; `None`
/// when there is no `ID`.
pub fn find_ei(data: &[u8]) -> (r: Option<usize>)
    ensures
        match r {
            Some(p) => find_ei_spec(data@) == Some(p as int),
            None => find_ei_spec(data@) is None,
        },
{
    let ghost d = data@;
    let len = data.len();
    let mut i: usize = 2;
    while len >= 3 && i < len - 2
        invariant
            d == data@,
            len == d.len(),
            2 <= i,
            id_search(d, 2) == id_search(d, i as int),
        decreases len - i,
    {
        if data[i] == 73 && data[i + 1] == 68 && ascii_ws(data[i - 1]) && ascii_ws(data[i + 2]) {
            let mut j = i + 3;
            assert(id_search(d, i as int) == Some(ei_search(d, i + 3)));
            while j < len - 2
                invariant
                    d == data@,
                    len == d.len(),
                    len >= 3,
                    i + 3 <= j,
                    id_search(d, 2) == Some(ei_search(d, i + 3)),
                    ei_search(d, i + 3) == ei_search(d, j as int),
                decreases len - j,
            {
                if data[j] == 69 && data[j + 1] == 73 && ascii_ws(data[j - 1]) && ascii_ws(
                    data[j + 2],
                ) {
                    return Some(j + 2);
                }
                j = j + 1;
            }
            return Some(len);
        }
        i = i + 1;
    }
    None
}

/// The content bytes kept from position `i` on, `depth` being the nesting
/// of the string literal being read: literals are kept whole (escapes
/// included), NUL bytes outside them are dropped, and inline images
/// (`BI` .. `EI` with the whitespace after) are dropped.
pub open spec fn strip_from(d: Seq<u8>, i: int, depth: nat) -> Seq<u8>
    decreases d.len() - i,
{
    if i < 0 || i >= d.len() {
        Seq::empty()
    } else {
        let b = d[i];
        if depth > 0 {
            if b == 92 {
                if i + 1 < d.len() {
                    seq![b, d[i + 1]] + strip_from(d, i + 2, depth)
                } else {
                    seq![b]
                }
            } else if b == 40 {
                seq![b] + strip_from(d, i + 1, depth + 1)
            } else if b == 41 {
                seq![b] + strip_from(d, i + 1, (depth - 1) as nat)
            } else {
                seq![b] + strip_from(d, i + 1, depth)
            }
        } else if b == 40 {
            seq![b] + strip_from(d, i + 1, 1)
        } else if b == 0 {
            strip_from(d, i + 1, 0)
        } else if b == 66 && i + 2 < d.len() && d[i + 1] == 73 && (i == 0 || is_ascii_ws(d[i - 1]))
            && is_ascii_ws(d[i + 2]) && find_ei_spec(d.subrange(i, d.len() as int)) is Some
            && find_ei_spec(d.subrange(i, d.len() as int))->0 > 0 {
            let j = i + find_ei_spec(d.subrange(i, d.len() as int))->0;
            let j2 = if j < d.len() && is_ascii_ws(d[j]) {
                j + 1
            } else {
                j
            };
            if j2 <= i || j2 > d.len() {
                Seq::empty()
            } else {
                strip_from(d, j2, 0)
            }
        } else {
            seq![b] + strip_from(d, i + 1, 0)
        }
    }
}

proof fn lemma_id_search(d: Seq<u8>, i: int)
    requires
        i >= 0,
    ensures
        id_search(d, i) matches Some(p) ==> i + 3 <= p <= d.len(),
    decreases d.len() - i,
{
    if !(i < 0 || i + 2 >= d.len()) {
        if d[i] == 73 && d[i + 1] == 68 && (i == 0 || is_ascii_ws(d[i - 1])) && is_ascii_ws(
            d[i + 2],
        ) {
            lemma_ei_search(d, i + 3);
        } else {
            lemma_id_search(d, i + 1);
        }
    }
}

proof fn lemma_ei_search(d: Seq<u8>, i: int)
    requires
        i >= 1,
    ensures
        i <= ei_search(d, i) <= d.len() || ei_search(d, i) == d.len(),
    decreases d.len() - i,
{
    if !(i + 2 >= d.len()) {
        if !(d[i] == 69 && d[i + 1] == 73 && is_ascii_ws(d[i - 1]) && is_ascii_ws(d[i + 2])) {
            lemma_ei_search(d, i + 1);
        }
    }
}

/// Removes inline images and the NUL bytes outside string literals.
pub fn strip_unparseable_content(content_bytes: &[u8]) -> (r: Vec<u8>)
    ensures
        r@ == strip_from(content_bytes@, 0, 0),
{
    let ghost d = content_bytes@;
    let len = content_bytes.len();
    let mut result: Vec<u8> = Vec::new();
    let mut i: usize = 0;
    let mut depth: usize = 0;
    while i < len
        invariant
            d == content_bytes@,
            len == d.len(),
            depth <= i,
            strip_from(d, 0, 0) == result@ + strip_from(d, i as int, depth as nat),
        decreases len - i,
    {
        let b = content_bytes[i];
        let ghost before = result@;
        let ghost q = i as int;
        if depth > 0 {
            result.push(b);
            if b == 92 {
                if len - i > 1 {
                    result.push(content_bytes[i + 1]);
                    assert(result@ =~= before + seq![b, d[q + 1]]);
                    assert(before + (seq![b, d[q + 1]] + strip_from(d, q + 2, depth as nat))
                        =~= result@ + strip_from(d, q + 2, depth as nat));
                    i = i + 2;
                } else {
                    assert(result@ =~= before + seq![b]);
                    assert(result@ + strip_from(d, len as int, depth as nat) =~= result@);
                    i = len;
                }
                continue;
            } else if b == 40 {
                depth = depth + 1;
                assert(before + (seq![b] + strip_from(d, q + 1, depth as nat)) =~= result@
                    + strip_from(d, q + 1, depth as nat));
            } else if b == 41 {
                depth = depth - 1;
                assert(before + (seq![b] + strip_from(d, q + 1, depth as nat)) =~= result@
                    + strip_from(d, q + 1, depth as nat));
            } else {
                assert(before + (seq![b] + strip_from(d, q + 1, depth as nat)) =~= result@
                    + strip_from(d, q + 1, depth as nat));
            }
            i = i + 1;
            continue;
        }
        if b == 40 {
            depth = 1;
            result.push(b);
            i = i + 1;
            assert(before + (seq![b] + strip_from(d, q + 1, 1)) =~= result@ + strip_from(
                d,
                q + 1,
                1,
            ));
            continue;
        }
        if b == 0 {
            i = i + 1;
            continue;
        }
        if len - i > 2 && b == 66 && content_bytes[i + 1] == 73 && (i == 0 || ascii_ws(
            content_bytes[i - 1],
        )) && ascii_ws(content_bytes[i + 2]) {
            let sub = vstd::slice::slice_subrange(content_bytes, i, len);
            match find_ei(sub) {
                Some(ei_pos) => {
                    proof {
                        lemma_id_search(sub@, 2);
                    }
                    i = i + ei_pos;
                    if i < len && ascii_ws(content_bytes[i]) {
                        i = i + 1;
                    }
                    continue;
                },
                None => {},
            }
        }
        result.push(b);
        i = i + 1;
        assert(before + (seq![b] + strip_from(d, q + 1, 0)) =~= result@ + strip_from(d, q + 1, 0));
    }
    assert(result@ + Seq::<u8>::empty() =~= result@);
    result
}

/// The number of NUL bytes in a row from `e`.
pub open spec fn zero_run(d: Seq<u8>, e: int) -> nat
    decreases d.len() - e,
{
    if 0 <= e < d.len() && d[e] == 0 {
        1 + zero_run(d, e + 1)
    } else {
        0
    }
}

/// The end of a chunk from `e` on: the first run of three or more NUL
/// bytes, or the end of the data.
pub open spec fn chunk_end(d: Seq<u8>, e: int) -> int
    decreases d.len() - e,
{
    if e < 0 || e >= d.len() {
        e
    } else if d[e] == 0 {
        if zero_run(d, e) >= 3 || zero_run(d, e) == 0 || e + zero_run(d, e) > d.len() {
            e
        } else {
            chunk_end(d, e + zero_run(d, e))
        }
    } else {
        chunk_end(d, e + 1)
    }
}

/// The chunks `[start, end)` of the data from `s` on: NUL bytes between
/// chunks are skipped, a chunk ends at a run of three or more NUL bytes.
pub open spec fn chunks_from(d: Seq<u8>, s: int) -> Seq<(int, int)>
    decreases d.len() - s,
{
    if s < 0 || s >= d.len() {
        Seq::empty()
    } else if d[s] == 0 {
        chunks_from(d, s + 1)
    } else {
        let e = chunk_end(d, s + 1);
        if e <= s || e > d.len() {
            Seq::empty()
        } else {
            seq![(s, e)] + chunks_from(d, e)
        }
    }
}

proof fn lemma_zero_run(d: Seq<u8>, e: int)
    requires
        0 <= e <= d.len(),
    ensures
        e + zero_run(d, e) <= d.len(),
        e < d.len() && d[e] == 0 ==> zero_run(d, e) >= 1,
    decreases d.len() - e,
{
    if e < d.len() && d[e] == 0 {
        lemma_zero_run(d, e + 1);
    }
}

proof fn lemma_chunk_end(d: Seq<u8>, e: int)
    requires
        0 <= e <= d.len(),
    ensures
        e <= chunk_end(d, e) <= d.len(),
    decreases d.len() - e,
{
    lemma_zero_run(d, e);
    if e < d.len() {
        if d[e] == 0 {
            if zero_run(d, e) < 3 {
                lemma_chunk_end(d, e + zero_run(d, e));
            }
        } else {
            lemma_chunk_end(d, e + 1);
        }
    }
}

/// Splits content bytes into the chunks between runs of three or more NUL
/// bytes (NUL bytes before a chunk are skipped).
pub fn content_chunks(content_bytes: &[u8]) -> (r: Vec<(usize, usize)>)
    ensures
        r@.map_values(|c: (usize, usize)| (c.0 as int, c.1 as int)) == chunks_from(
            content_bytes@,
            0,
        ),
{
    let ghost d = content_bytes@;
    let len = content_bytes.len();
    let mut out: Vec<(usize, usize)> = Vec::new();
    let mut start: usize = 0;
    while start < len
        invariant
            d == content_bytes@,
            len == d.len(),
            start <= len,
            chunks_from(d, 0) == out@.map_values(|c: (usize, usize)| (c.0 as int, c.1 as int))
                + chunks_from(d, start as int),
        decreases len - start,
    {
        if content_bytes[start] == 0 {
            start = start + 1;
            continue;
        }
        let mut end = start + 1;
        while end < len
            invariant
                d == content_bytes@,
                len == d.len(),
                start < end <= len,
                chunk_end(d, start + 1) == chunk_end(d, end as int),
            ensures
                start < end <= len,
                chunk_end(d, start + 1) == end,
            decreases len - end,
        {
            if content_bytes[end] == 0 {
                let mut run: usize = 0;
                while end + run < len && content_bytes[end + run] == 0
                    invariant
                        d == content_bytes@,
                        len == d.len(),
                        end < len,
                        end + run <= len,
                        zero_run(d, end as int) == run + zero_run(d, end + run),
                    decreases len - (end + run),
                {
                    run = run + 1;
                }
                if run >= 3 {
                    break;
                }
                proof {
                    lemma_zero_run(d, end as int);
                }
                end = end + run;
            } else {
                end = end + 1;
            }
        }
        proof {
            lemma_chunk_end(d, start + 1);
        }
        let ghost before = out@.map_values(|c: (usize, usize)| (c.0 as int, c.1 as int));
        out.push((start, end));
        assert(out@.map_values(|c: (usize, usize)| (c.0 as int, c.1 as int)) =~= before.push(
            (start as int, end as int),
        ));
        assert(before + (seq![(start as int, end as int)] + chunks_from(d, end as int)) =~= out@.map_values(
            |c: (usize, usize)| (c.0 as int, c.1 as int),
        ) + chunks_from(d, end as int));
        start = end;
    }
    assert(out@.map_values(|c: (usize, usize)| (c.0 as int, c.1 as int)) + Seq::<(int, int)>::empty()
        =~= out@.map_values(|c: (usize, usize)| (c.0 as int, c.1 as int)));
    out
}

/// The text with every soft hyphen (U+00AD) removed.
pub open spec fn without_soft_hyphens(s: Seq<char>) -> Seq<char>
    decreases s.len(),
{
    if s.len() == 0 {
        Seq::empty()
    } else {
        let rest = without_soft_hyphens(s.drop_last());
        if s.last() == '\u{ad}' {
            rest
        } else {
            rest.push(s.last())
        }
    }
}

/// Removes soft hyphens (U+00AD).
pub fn remove_soft_hyphens(text: &str) -> (r: String)
    ensures
        r@ == without_soft_hyphens(text@),
{
    let cs = str_to_chars(text);
    let mut out = String::new();
    let mut i: usize = 0;
    while i < cs.len()
        invariant
            cs@ == text@,
            0 <= i <= cs@.len(),
            out@ == without_soft_hyphens(cs@.subrange(0, i as int)),
        decreases cs@.len() - i,
    {
        assert(cs@.subrange(0, i + 1).drop_last() =~= cs@.subrange(0, i as int));
        if cs[i] != '\u{ad}' {
            string_push(&mut out, cs[i]);
        }
        i = i + 1;
    }
    assert(cs@.subrange(0, cs@.len() as int) =~= cs@);
    out
}

/// The UTF-16 units of the bytes after a byte order mark: big-endian
/// pairs, a trailing odd byte read as 0.
pub open spec fn bom_units(b: Seq<u8>) -> Seq<u16> {
    Seq::new(
        ((b.len() - 1) / 2) as nat,
        |k: int|
            if 2 + 2 * k + 1 < b.len() {
                (b[2 + 2 * k] as int * 256 + b[2 + 2 * k + 1] as int) as u16
            } else {
                0u16
            },
    )
}

/// The text of an `/ActualText` string: UTF-16BE after a byte order mark
/// (`None` when the units are not well formed), Latin-1 otherwise.
pub open spec fn actual_text_spec(b: Seq<u8>) -> Option<Seq<char>> {
    if b.len() >= 2 && b[0] == 0xFE && b[1] == 0xFF {
        if utf16_well_formed(bom_units(b)) {
            Some(utf16_lossy_spec(bom_units(b)))
        } else {
            None
        }
    } else {
        Some(latin1(b))
    }
}

/// Decodes an `/ActualText` string.
pub fn decode_actual_text(bytes: &[u8]) -> (r: Option<String>)
    ensures
        opt_string_view(r) == actual_text_spec(bytes@),
{
    let n = bytes.len();
    if n >= 2 && bytes[0] == 0xFE && bytes[1] == 0xFF {
        let mut units: Vec<u16> = Vec::new();
        let mut k: usize = 0;
        let count = (n - 1) / 2;
        while k < count
            invariant
                n == bytes@.len(),
                n >= 2,
                count == (n - 1) / 2,
                0 <= k <= count,
                units@.len() == k,
                forall|j: int| 0 <= j < k ==> units@[j] == bom_units(bytes@)[j],
            decreases count - k,
        {
            let u: u16 = if 2 + 2 * k + 1 < n {
                (bytes[2 + 2 * k] as u16) * 256 + (bytes[2 + 2 * k + 1] as u16)
            } else {
                0
            };
            units.push(u);
            k = k + 1;
        }
        assert(units@ =~= bom_units(bytes@));
        let r = utf16_strict(units.as_slice());
        return r;
    }
    let mut out = String::new();
    let mut i: usize = 0;
    while i < n
        invariant
            n == bytes@.len(),
            0 <= i <= n,
            out@ =~= latin1(bytes@.subrange(0, i as int)),
        decreases n - i,
    {
        match char_from_u32(bytes[i] as u32) {
            Some(c) => {
                string_push(&mut out, c);
            },
            None => {},
        }
        i = i + 1;
    }
    assert(bytes@.subrange(0, n as int) =~= bytes@);
    Some(out)
}

/// The index of the first entry with key `key` from `i` on, or -1.
pub open spec fn first_key(entries: Seq<(Seq<u8>, Obj)>, key: Seq<u8>, i: int) -> int
    decreases entries.len() - i,
{
    if i < 0 || i >= entries.len() {
        -1
    } else if entries[i].0 == key {
        i
    } else {
        first_key(entries, key, i + 1)
    }
}

/// The key `ActualText`.
pub open spec fn actual_text_key() -> Seq<u8> {
    seq![65u8, 99, 116, 117, 97, 108, 84, 101, 120, 116]
}

/// The `/ActualText` of a `BDC` operation's operands: the second operand,
/// when it is an inline dictionary whose (first) `/ActualText` entry is a
/// string.
pub open spec fn actual_text_of(operands: Seq<Obj>) -> Option<Seq<char>> {
    if operands.len() < 2 {
        None
    } else {
        match operands[1] {
            Obj::Dictionary(entries) => {
                let i = first_key(entries, actual_text_key(), 0);
                if 0 <= i < entries.len() {
                    match entries[i].1 {
                        Obj::LiteralString(b) => actual_text_spec(b),
                        Obj::HexString(b) => actual_text_spec(b),
                        _ => None,
                    }
                } else {
                    None
                }
            },
            _ => None,
        }
    }
}

/// Extracts the `/ActualText` of a `BDC` operation.
pub fn extract_actual_text(operands: &Vec<Operand>) -> (r: Option<String>)
    ensures
        opt_string_view(r) == actual_text_of(crate::content_parser::objs_of(operands@)),
{
    proof {
        crate::content_parser::lemma_objs_of(operands@);
    }
    if operands.len() < 2 {
        return None;
    }
    let key: Vec<u8> = vec![65u8, 99, 116, 117, 97, 108, 84, 101, 120, 116];
    assert(key@ == actual_text_key());
    match &operands[1] {
        Operand::Dictionary(entries) => {
            proof {
                crate::content_parser::lemma_entries_of(entries@);
            }
            let ghost es = crate::content_parser::entries_of(entries@);
            assert(crate::content_parser::objs_of(operands@)[1] == Obj::Dictionary(es));
            let mut i: usize = 0;
            while i < entries.len()
                invariant
                    0 <= i <= entries@.len(),
                    es == crate::content_parser::entries_of(entries@),
                    es.len() == entries@.len(),
                    forall|j: int| 0 <= j < entries@.len() ==> #[trigger] es[j] == (entries@[j].0@, obj_of(entries@[j].1)),
                    key@ == actual_text_key(),
                    operands@.len() >= 2,
                    crate::content_parser::objs_of(operands@).len() == operands@.len(),
                    crate::content_parser::objs_of(operands@)[1] == Obj::Dictionary(es),
                    first_key(es, actual_text_key(), 0) == first_key(es, actual_text_key(), i as int),
                decreases entries@.len() - i,
            {
                if bytes_equal(entries[i].0.as_slice(), key.as_slice()) {
                    assert(es[i as int].0 == actual_text_key());
                    assert(first_key(es, actual_text_key(), i as int) == i);
                    return match &entries[i].1 {
                        Operand::LiteralString(b) => {
                            assert(es[i as int].1 == Obj::LiteralString(b@));
                            decode_actual_text(b.as_slice())
                        },
                        Operand::HexString(b) => {
                            assert(es[i as int].1 == Obj::HexString(b@));
                            decode_actual_text(b.as_slice())
                        },
                        _ => {
                            assert(!(es[i as int].1 is LiteralString) && !(es[i as int].1 is HexString));
                            None
                        },
                    };
                }
                i = i + 1;
            }
            None
        },
        _ => None,
    }
}

/// Whether two byte strings are equal.
pub fn bytes_equal(a: &[u8], b: &[u8]) -> (r: bool)
    ensures
        r == (a@ == b@),
{
    if a.len() != b.len() {
        return false;
    }
    let mut i: usize = 0;
    while i < a.len()
        invariant
            a@.len() == b@.len(),
            0 <= i <= a@.len(),
            forall|j: int| 0 <= j < i ==> a@[j] == b@[j],
        decreases a@.len() - i,
    {
        if a[i] != b[i] {
            return false;
        }
        i = i + 1;
    }
    assert(a@ =~= b@);
    true
}

/// Marked content sections (`BMC`/`BDC` .. `EMC`) and the `/ActualText`
/// that replaces the text of the glyphs inside one.
pub struct MarkedContent {
    stack: Vec<(String, Option<String>)>,
    actual_text: Option<String>,
    first_actual_text_position: bool,
}

impl MarkedContent {
    /// The open sections: tag and `/ActualText` of each, innermost last.
    pub closed spec fn sections(&self) -> Seq<(Seq<char>, Option<Seq<char>>)> {
        self.stack@.map_values(|e: (String, Option<String>)| (e.0@, opt_string_view(e.1)))
    }

    /// The `/ActualText` in force (soft hyphens removed).
    pub closed spec fn actual(&self) -> Option<Seq<char>> {
        opt_string_view(self.actual_text)
    }

    /// Whether no glyph has yet taken the `/ActualText` in force.
    pub closed spec fn awaiting_first(&self) -> bool {
        self.first_actual_text_position
    }

    /// No open section.
    pub fn new() -> (r: Self)
        ensures
            r.sections() == Seq::<(Seq<char>, Option<Seq<char>>)>::empty(),
            r.actual() is None,
            !r.awaiting_first(),
    {
        let r = MarkedContent { stack: Vec::new(), actual_text: None, first_actual_text_position: false };
        assert(r.sections() =~= Seq::<(Seq<char>, Option<Seq<char>>)>::empty());
        r
    }

    /// Opens a section (`BMC`, or `BDC` with its `/ActualText`): an
    /// `/ActualText` comes into force, soft hyphens removed.
    pub fn begin(&mut self, tag: String, actual_text: Option<String>)
        ensures
            final(self).sections() == old(self).sections().push((tag@, opt_string_view(actual_text))),
            match actual_text {
                Some(t) => final(self).actual() == Some(without_soft_hyphens(t@))
                    && final(self).awaiting_first(),
                None => final(self).actual() == old(self).actual() && final(self).awaiting_first()
                    == old(self).awaiting_first(),
            },
    {
        let ghost before = self.sections();
        let ghost av = opt_string_view(actual_text);
        match &actual_text {
            Some(t) => {
                self.actual_text = Some(remove_soft_hyphens(t.as_str()));
                self.first_actual_text_position = true;
            },
            None => {},
        }
        self.stack.push((tag, actual_text));
        assert(self.sections() =~= before.push((tag@, av)));
    }

    /// Closes the innermost section (nothing when none is open); closing one
    /// with an `/ActualText` takes that text out of force.
    pub fn end(&mut self)
        ensures
            old(self).sections().len() == 0 ==> final(self).sections() == old(self).sections()
                && final(self).actual() == old(self).actual() && final(self).awaiting_first()
                == old(self).awaiting_first(),
            old(self).sections().len() > 0 ==> final(self).sections() == old(self).sections().drop_last()
                && if old(self).sections().last().1 is Some {
                final(self).actual() is None && !final(self).awaiting_first()
            } else {
                final(self).actual() == old(self).actual() && final(self).awaiting_first()
                    == old(self).awaiting_first()
            },
    {
        let ghost before = self.sections();
        match self.stack.pop() {
            Some(entry) => {
                assert(self.sections() =~= before.drop_last());
                if entry.1.is_some() {
                    self.actual_text = None;
                    self.first_actual_text_position = false;
                }
            },
            None => {},
        }
    }

    /// The text that replaces a glyph's own text: the `/ActualText` for the
    /// first glyph of its section, nothing for the others; `None` when no
    /// `/ActualText` is in force.
    pub fn take_replacement(&mut self) -> (r: Option<String>)
        ensures
            final(self).sections() == old(self).sections(),
            final(self).actual() == old(self).actual(),
            match old(self).actual() {
                Some(a) => opt_string_view(r) == Some(
                    if old(self).awaiting_first() {
                        a
                    } else {
                        Seq::<char>::empty()
                    },
                ) && !final(self).awaiting_first(),
                None => r is None && final(self).awaiting_first() == old(self).awaiting_first(),
            },
    {
        match &self.actual_text {
            Some(a) => {
                if self.first_actual_text_position {
                    self.first_actual_text_position = false;
                    Some(str_to_string(a.as_str()))
                } else {
                    Some(String::new())
                }
            },
            None => None,
        }
    }
}

/// A glyph of a shown string: its code, the number of bytes it took, and
/// its text (empty when it shows none).
pub struct Glyph {
    pub code: u32,
    pub code_length: usize,
    pub unicode: String,
}

/// The text a code gives with a font, or without one (the code as a code
/// point); nothing when there is none.
pub open spec fn glyph_text<W: Copy>(
    font: Option<PdfFont<W>>,
    code: u32,
    glyphs: Map<Seq<char>, Seq<char>>,
    zapf: Map<Seq<char>, Seq<char>>,
) -> Seq<char> {
    match font {
        Some(f) => match font_unicode(f, code, glyphs, zapf) {
            Some(u) => u,
            None => Seq::empty(),
        },
        None => match char_text(code) {
            Some(u) => u,
            None => Seq::empty(),
        },
    }
}

/// The (code, length, text) of the glyphs of `d` from `offset` on, with
/// `actual` the `/ActualText` in force and `first` whether no glyph has
/// taken it yet.
pub open spec fn glyphs_from<W: Copy>(
    font: Option<PdfFont<W>>,
    d: Seq<u8>,
    offset: int,
    glyphs: Map<Seq<char>, Seq<char>>,
    zapf: Map<Seq<char>, Seq<char>>,
    actual: Option<Seq<char>>,
    first: bool,
) -> Seq<(u32, usize, Seq<char>)>
    decreases d.len() - offset,
{
    if offset < 0 || offset >= d.len() {
        Seq::empty()
    } else {
        let (code, len) = match font {
            Some(f) => font_read_code(f, d, offset),
            None => (d[offset] as u32, 1usize),
        };
        if len == 0 || offset + len > d.len() {
            Seq::empty()
        } else {
            let text = match actual {
                Some(a) => if first {
                    a
                } else {
                    Seq::empty()
                },
                None => glyph_text(font, code, glyphs, zapf),
            };
            seq![(code, len, text)] + glyphs_from(
                font,
                d,
                offset + len,
                glyphs,
                zapf,
                actual,
                if actual is Some {
                    false
                } else {
                    first
                },
            )
        }
    }
}

/// One step of `glyphs_from`.
pub proof fn lemma_glyphs_step<W: Copy>(
    font: Option<PdfFont<W>>,
    d: Seq<u8>,
    offset: int,
    glyphs: Map<Seq<char>, Seq<char>>,
    zapf: Map<Seq<char>, Seq<char>>,
    actual: Option<Seq<char>>,
    first: bool,
)
    requires
        0 <= offset < d.len(),
        ({
            let (code, len) = match font {
                Some(f) => font_read_code(f, d, offset),
                None => (d[offset] as u32, 1usize),
            };
            len > 0 && offset + len <= d.len()
        }),
    ensures
        ({
            let (code, len) = match font {
                Some(f) => font_read_code(f, d, offset),
                None => (d[offset] as u32, 1usize),
            };
            let text = match actual {
                Some(a) => if first {
                    a
                } else {
                    Seq::empty()
                },
                None => glyph_text(font, code, glyphs, zapf),
            };
            glyphs_from(font, d, offset, glyphs, zapf, actual, first) == seq![(code, len, text)]
                + glyphs_from(
                font,
                d,
                offset + len,
                glyphs,
                zapf,
                actual,
                if actual is Some {
                    false
                } else {
                    first
                },
            )
        }),
{
}

/// The view of glyphs.
pub open spec fn glyphs_view(v: Seq<Glyph>) -> Seq<(u32, usize, Seq<char>)> {
    v.map_values(|g: Glyph| (g.code, g.code_length, g.unicode@))
}

/// The text of one glyph: the `/ActualText` replacement when one is in
/// force, otherwise the text the font (or the code point) gives.
fn glyph_unicode_text<W: Copy>(
    font: Option<&PdfFont<W>>,
    code: u32,
    glyphs: &GlyphList,
    zapf: &GlyphList,
    marked: &mut MarkedContent,
) -> (r: String)
    requires
        font matches Some(f) ==> f.wf(),
    ensures
        r@ == match old(marked).actual() {
            Some(a) => if old(marked).awaiting_first() {
                a
            } else {
                Seq::empty()
            },
            None => glyph_text(
                match font {
                    Some(f) => Some(*f),
                    None => None,
                },
                code,
                glyphs.names(),
                zapf.names(),
            ),
        },
        final(marked).sections() == old(marked).sections(),
        final(marked).actual() == old(marked).actual(),
        old(marked).actual() is Some ==> !final(marked).awaiting_first(),
        old(marked).actual() is None ==> final(marked).awaiting_first() == old(marked).awaiting_first(),
{
    match marked.take_replacement() {
        Some(t) => t,
        None => {
            let u = match font {
                Some(f) => f.to_unicode(code, glyphs, zapf),
                None => crate::font::char_to_string(code),
            };
            match u {
                Some(s) => s,
                None => String::new(),
            }
        },
    }
}

/// Decodes the glyphs of a shown string: codes read by the font (one byte
/// each without a font), text by the font (the code as a code point
/// without one) or by the `/ActualText` in force.
pub fn decode_glyphs<W: Copy>(
    font: Option<&PdfFont<W>>,
    bytes: &[u8],
    glyphs: &GlyphList,
    zapf: &GlyphList,
    marked: &mut MarkedContent,
) -> (r: Vec<Glyph>)
    requires
        font matches Some(f) ==> f.wf(),
    ensures
        glyphs_view(r@) == glyphs_from(
            match font {
                Some(f) => Some(*f),
                None => None,
            },
            bytes@,
            0,
            glyphs.names(),
            zapf.names(),
            old(marked).actual(),
            old(marked).awaiting_first(),
        ),
        final(marked).sections() == old(marked).sections(),
        final(marked).actual() == old(marked).actual(),
        old(marked).actual() is Some && r@.len() > 0 ==> !final(marked).awaiting_first(),
        old(marked).actual() is None || r@.len() == 0 ==> final(marked).awaiting_first() == old(
            marked,
        ).awaiting_first(),
{
    let ghost fo = match font {
        Some(f) => Some(*f),
        None => None,
    };
    let ghost d = bytes@;
    let ghost g = glyphs.names();
    let ghost z = zapf.names();
    let ghost actual0 = marked.actual();
    let ghost first0 = marked.awaiting_first();
    let mut out: Vec<Glyph> = Vec::new();
    let mut offset: usize = 0;
    let len = bytes.len();
    loop
        invariant_except_break
            d == bytes@,
            len == d.len(),
            offset <= len,
            fo == match font {
                Some(f) => Some(*f),
                None => None,
            },
            g == glyphs.names(),
            z == zapf.names(),
            font matches Some(f) ==> f.wf(),
            marked.sections() == old(marked).sections(),
            marked.actual() == actual0,
            actual0 == old(marked).actual(),
            first0 == old(marked).awaiting_first(),
            actual0 is Some && out@.len() > 0 ==> !marked.awaiting_first(),
            actual0 is None || out@.len() == 0 ==> marked.awaiting_first() == first0,
            glyphs_from(fo, d, 0, g, z, actual0, first0) == glyphs_view(out@) + glyphs_from(
                fo,
                d,
                offset as int,
                g,
                z,
                actual0,
                marked.awaiting_first(),
            ),
        ensures
            marked.sections() == old(marked).sections(),
            marked.actual() == actual0,
            actual0 is Some && out@.len() > 0 ==> !marked.awaiting_first(),
            actual0 is None || out@.len() == 0 ==> marked.awaiting_first() == first0,
            glyphs_from(fo, d, 0, g, z, actual0, first0) == glyphs_view(out@),
        decreases len - offset,
    {
        if offset >= len {
            assert(glyphs_view(out@) + Seq::<(u32, usize, Seq<char>)>::empty() =~= glyphs_view(out@));
            break;
        }
        let (code, code_length) = match font {
            Some(f) => f.read_code(bytes, offset),
            None => (bytes[offset] as u32, 1usize),
        };
        assert((code, code_length) == match fo {
            Some(f) => font_read_code(f, d, offset as int),
            None => (d[offset as int] as u32, 1usize),
        });
        if code_length == 0 {
            assert(glyphs_view(out@) + Seq::<(u32, usize, Seq<char>)>::empty() =~= glyphs_view(out@));
            break;
        }
        assert(code_length <= len - offset) by {
            match font {
                Some(f) => {
                    if let PdfFont::Type0(t) = f {
                        crate::font::lemma_read_code_bounds(t.encoding_map(), d, offset as int);
                    }
                },
                None => {},
            }
        }
        let ghost first_now = marked.awaiting_first();
        proof {
            lemma_glyphs_step(fo, d, offset as int, g, z, actual0, first_now);
        }
        let unicode = glyph_unicode_text(font, code, glyphs, zapf, marked);
        let ghost entry = (code, code_length, unicode@);
        let ghost before = glyphs_view(out@);
        let ghost rest = glyphs_from(fo, d, offset + code_length, g, z, actual0, marked.awaiting_first());
        out.push(Glyph { code, code_length, unicode });
        assert(glyphs_view(out@) =~= before.push(entry));
        assert(before + (seq![entry] + rest) =~= glyphs_view(out@) + rest);
        offset = offset + code_length;
    }
    out
}

/// The text of a document: the non-empty page texts joined by `separator`.
pub open spec fn join_texts(pages: Seq<Seq<char>>, separator: Seq<char>) -> Seq<char>
    decreases pages.len(),
{
    if pages.len() == 0 {
        Seq::empty()
    } else {
        let prev = join_texts(pages.drop_last(), separator);
        if pages.last().len() == 0 {
            prev
        } else if prev.len() == 0 {
            pages.last()
        } else {
            prev + separator + pages.last()
        }
    }
}

/// Joins the texts of the pages of a document in page order, skipping
/// empty pages, with a line feed between pages.
pub fn extract_text(page_texts: &Vec<String>) -> (r: String)
    ensures
        r@ == join_texts(page_texts@.map_values(|s: String| s@), seq!['\n']),
{
    proof {
        reveal_strlit("\n");
        assert("\n"@ =~= seq!['\n']);
    }
    join_page_texts(page_texts, "\n")
}

/// Joins page texts in order, skipping empty pages, with `separator`
/// between pages.
pub fn join_page_texts(page_texts: &Vec<String>, separator: &str) -> (r: String)
    ensures
        r@ == join_texts(page_texts@.map_values(|s: String| s@), separator@),
{
    let ghost pv = page_texts@.map_values(|s: String| s@);
    let mut output = String::new();
    let mut i: usize = 0;
    while i < page_texts.len()
        invariant
            0 <= i <= page_texts@.len(),
            pv == page_texts@.map_values(|s: String| s@),
            output@ == join_texts(pv.subrange(0, i as int), separator@),
        decreases page_texts@.len() - i,
    {
        assert(pv.subrange(0, i + 1).drop_last() =~= pv.subrange(0, i as int));
        assert(pv.subrange(0, i + 1).last() == page_texts@[i as int]@);
        let page = page_texts[i].as_str();
        if !page.is_empty() {
            if !output.as_str().is_empty() {
                output.append(separator);
            }
            output.append(page);
        }
        i = i + 1;
    }
    assert(pv.subrange(0, page_texts@.len() as int) =~= pv);
    output
}

} // verus!
