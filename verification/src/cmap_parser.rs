//! The CMap parser: turns the tokens of a CMap stream into codespace
//! ranges, Unicode mappings and CID mappings.

use vstd::prelude::*;
use crate::cmap::{be_suffix, range_bucket, ranges_view, CMap, CidRange, CodespaceRange};
use crate::cmap_lexer::{
    be_value, hex_bytes_to_unicode, hex_text_spec, is_ws, lemma_next_token_bounds,
    lemma_scan_bounds, next_token_spec, skip_ws_spec, u32_text_spec, u32_to_unicode,
    bytes_to_u32, Parser, Tok, Token,
};
use crate::glyph_list::{glyph_unicode, GlyphList};
use crate::text_std::{ascii, bytes_eq_str, utf8_lossy, utf8_text};

verus! {

/// One change the parser makes to a CMap.
pub enum CMapOp {
    /// A codespace range with its two bounds.
    Codespace(Seq<u8>, Seq<u8>),
    /// A code of some length mapped to Unicode text.
    Char(u32, usize, Seq<char>),
    /// A code of some length mapped to a CID.
    Cid(u32, usize, u32),
    /// A CID range.
    Range(CidRange),
    /// The CMap's name.
    Name(Seq<char>),
    /// The writing mode.
    WMode(i32),
}

/// A code's value from its big-endian bytes (modulo 2^32).
pub open spec fn be32(b: Seq<u8>) -> u32 {
    (be_value(b) % 0x1_0000_0000) as u32
}

/// Where the cursor stands after reading a token at `p`.
pub open spec fn tok_end(d: Seq<u8>, p: int) -> int {
    match next_token_spec(d, p) {
        Some((_, e)) => e,
        None => d.len() as int,
    }
}

/// A token read within the data ends after its start.
pub proof fn lemma_tok_end(d: Seq<u8>, p: int)
    requires
        0 <= p <= d.len(),
    ensures
        p <= tok_end(d, p) <= d.len(),
        next_token_spec(d, p) is Some ==> p < tok_end(d, p),
{
    lemma_next_token_bounds(d, p);
}

/// Nothing is read at the end of the data.
pub proof fn lemma_no_token_at_end(d: Seq<u8>)
    ensures
        next_token_spec(d, d.len() as int) is None,
        tok_end(d, d.len() as int) == d.len(),
{
    lemma_scan_bounds(d, d.len() as int);
}

/// Entries of a `begincodespacerange` section: `count` pairs of hex strings.
pub open spec fn codespace_entries(d: Seq<u8>, p: int, k: nat) -> (Seq<CMapOp>, int)
    decreases k,
{
    if k == 0 {
        (Seq::empty(), p)
    } else {
        match next_token_spec(d, p) {
            Some((Tok::HexBytes(s), p1)) => match next_token_spec(d, p1) {
                Some((Tok::HexBytes(e), p2)) => {
                    let (ops, q) = codespace_entries(d, p2, (k - 1) as nat);
                    (if s.len() == e.len() && s.len() > 0 {
                        seq![CMapOp::Codespace(s, e)] + ops
                    } else {
                        ops
                    }, q)
                },
                _ => codespace_entries(d, tok_end(d, p1), (k - 1) as nat),
            },
            _ => codespace_entries(d, tok_end(d, p), (k - 1) as nat),
        }
    }
}

/// The text a `bfchar` destination token stands for: a hex string read as
/// UTF-16BE, or a glyph name looked up in the glyph list.
pub open spec fn bf_dest_text(names: Map<Seq<char>, Seq<char>>, t: Tok) -> Option<Seq<char>> {
    match t {
        Tok::HexBytes(b) => Some(hex_text_spec(b)),
        Tok::Name(n) => Some(
            match glyph_unicode(names, utf8_text(n)) {
                Some(u) => u,
                None => Seq::empty(),
            },
        ),
        _ => None,
    }
}

/// The mapping of a code to text, when the text is not empty.
pub open spec fn char_op(code: u32, length: usize, u: Seq<char>) -> Seq<CMapOp> {
    if u.len() > 0 {
        seq![CMapOp::Char(code, length, u)]
    } else {
        Seq::empty()
    }
}

/// Entries of a `beginbfchar` section.
pub open spec fn bfchar_entries(names: Map<Seq<char>, Seq<char>>, d: Seq<u8>, p: int, k: nat) -> (
    Seq<CMapOp>,
    int,
)
    decreases k,
{
    if k == 0 {
        (Seq::empty(), p)
    } else {
        match next_token_spec(d, p) {
            Some((Tok::HexBytes(inb), p1)) => match next_token_spec(d, p1) {
                Some((t, p2)) => match bf_dest_text(names, t) {
                    Some(u) => {
                        let (ops, q) = bfchar_entries(names, d, p2, (k - 1) as nat);
                        (char_op(be32(inb), inb.len() as usize, u) + ops, q)
                    },
                    None => bfchar_entries(names, d, p2, (k - 1) as nat),
                },
                None => bfchar_entries(names, d, d.len() as int, (k - 1) as nat),
            },
            _ => bfchar_entries(names, d, tok_end(d, p), (k - 1) as nat),
        }
    }
}

/// The value after `v` in a sequential range (wrapping at 2^32).
pub open spec fn next_value(v: u32) -> u32 {
    if v == 0xffff_ffff {
        0
    } else {
        (v + 1) as u32
    }
}

/// Mappings of a sequential `bfrange`: codes `code..=end` get the
/// successive values from `val`.
pub open spec fn bf_seq(code: int, end: int, val: u32, blen: usize, length: usize) -> Seq<CMapOp>
    decreases end + 1 - code,
{
    if code > end {
        Seq::empty()
    } else {
        char_op(code as u32, length, u32_text_spec(val, blen)) + bf_seq(
            code + 1,
            end,
            next_value(val),
            blen,
            length,
        )
    }
}

/// Mappings of an array `bfrange`: codes `code..=end` get the hex strings
/// of the array in turn, up to the first token that is not one (consumed).
pub open spec fn bf_array(d: Seq<u8>, p: int, code: int, end: int, length: usize) -> (
    Seq<CMapOp>,
    int,
)
    decreases end + 1 - code,
{
    if code > end {
        (Seq::empty(), p)
    } else {
        match next_token_spec(d, p) {
            Some((Tok::HexBytes(b), p1)) => {
                let (ops, q) = bf_array(d, p1, code + 1, end, length);
                (char_op(code as u32, length, hex_text_spec(b)) + ops, q)
            },
            _ => (Seq::empty(), tok_end(d, p)),
        }
    }
}

/// Entries of a `beginbfrange` section.
pub open spec fn bfrange_entries(d: Seq<u8>, p: int, k: nat) -> (Seq<CMapOp>, int)
    decreases k,
{
    if k == 0 {
        (Seq::empty(), p)
    } else {
        match next_token_spec(d, p) {
            Some((Tok::HexBytes(sb), p1)) => match next_token_spec(d, p1) {
                Some((Tok::HexBytes(eb), p2)) => {
                    let length = sb.len() as usize;
                    let start = be32(sb);
                    let end = be32(eb);
                    let q = skip_ws_spec(d, p2);
                    if 0 <= q < d.len() && d[q] == 91 {
                        let (ops, p4) = bf_array(d, q + 1, start as int, end as int, length);
                        let p5 = skip_ws_spec(d, p4);
                        let p6 = if 0 <= p5 < d.len() && d[p5] == 93 {
                            p5 + 1
                        } else {
                            p5
                        };
                        let (rest, r) = bfrange_entries(d, p6, (k - 1) as nat);
                        (ops + rest, r)
                    } else {
                        match next_token_spec(d, p2) {
                            Some((Tok::HexBytes(base), p3)) => {
                                let ops = bf_seq(
                                    start as int,
                                    end as int,
                                    be32(base),
                                    base.len() as usize,
                                    length,
                                );
                                let (rest, r) = bfrange_entries(d, p3, (k - 1) as nat);
                                (ops + rest, r)
                            },
                            _ => bfrange_entries(d, tok_end(d, p2), (k - 1) as nat),
                        }
                    }
                },
                _ => bfrange_entries(d, tok_end(d, p1), (k - 1) as nat),
            },
            _ => bfrange_entries(d, tok_end(d, p), (k - 1) as nat),
        }
    }
}

/// Entries of a `begincidchar` section.
pub open spec fn cidchar_entries(d: Seq<u8>, p: int, k: nat) -> (Seq<CMapOp>, int)
    decreases k,
{
    if k == 0 {
        (Seq::empty(), p)
    } else {
        match next_token_spec(d, p) {
            Some((Tok::HexBytes(inb), p1)) => match next_token_spec(d, p1) {
                Some((Tok::Integer(n), p2)) => {
                    let (ops, q) = cidchar_entries(d, p2, (k - 1) as nat);
                    (seq![CMapOp::Cid(be32(inb), inb.len() as usize, n as u32)] + ops, q)
                },
                _ => cidchar_entries(d, tok_end(d, p1), (k - 1) as nat),
            },
            _ => cidchar_entries(d, tok_end(d, p), (k - 1) as nat),
        }
    }
}

/// The change a CID range entry makes: a single mapping when it covers one code.
pub open spec fn cid_range_op(sb: Seq<u8>, eb: Seq<u8>, cid: u32) -> CMapOp {
    if be32(sb) == be32(eb) {
        CMapOp::Cid(be32(sb), sb.len() as usize, cid)
    } else {
        CMapOp::Range(
            CidRange {
                from: be32(sb),
                to: be32(eb),
                cid_start: cid,
                code_length: sb.len() as usize,
            },
        )
    }
}

/// Entries of a `begincidrange` section.
pub open spec fn cidrange_entries(d: Seq<u8>, p: int, k: nat) -> (Seq<CMapOp>, int)
    decreases k,
{
    if k == 0 {
        (Seq::empty(), p)
    } else {
        match next_token_spec(d, p) {
            Some((Tok::HexBytes(sb), p1)) => match next_token_spec(d, p1) {
                Some((Tok::HexBytes(eb), p2)) => match next_token_spec(d, p2) {
                    Some((Tok::Integer(n), p3)) => {
                        let (ops, q) = cidrange_entries(d, p3, (k - 1) as nat);
                        (seq![cid_range_op(sb, eb, n as u32)] + ops, q)
                    },
                    _ => cidrange_entries(d, tok_end(d, p2), (k - 1) as nat),
                },
                _ => cidrange_entries(d, tok_end(d, p1), (k - 1) as nat),
            },
            _ => cidrange_entries(d, tok_end(d, p), (k - 1) as nat),
        }
    }
}

/// Where the cursor stands after the operator `target` (the end of the data
/// if it does not occur).
pub open spec fn skip_to(d: Seq<u8>, p: int, target: Seq<u8>) -> int
    decreases d.len() - p,
{
    if p < 0 || p > d.len() {
        p
    } else {
        match next_token_spec(d, p) {
            None => d.len() as int,
            Some((t, e)) => {
                proof {
                    lemma_next_token_bounds(d, p);
                }
                if t == Tok::Operator(target) {
                    e
                } else {
                    skip_to(d, e, target)
                }
            },
        }
    }
}

/// The last integer among the operands, if any.
pub open spec fn prev_int_spec(prev: Seq<Tok>) -> Option<i64>
    decreases prev.len(),
{
    if prev.len() == 0 {
        None
    } else {
        match prev.last() {
            Tok::Integer(n) => Some(n),
            _ => prev_int_spec(prev.drop_last()),
        }
    }
}

/// The entry count of a section: the last integer operand (0 if none),
/// converted to `usize`.
pub open spec fn section_count(prev: Seq<Tok>) -> nat {
    match prev_int_spec(prev) {
        Some(n) => (n as usize) as nat,
        None => 0,
    }
}

/// The text of a token used as a value.
pub open spec fn token_text(t: Tok) -> Option<Seq<char>> {
    match t {
        Tok::Name(n) => Some(utf8_text(n)),
        Tok::LiteralString(b) => Some(utf8_text(b)),
        Tok::Operator(o) => Some(utf8_text(o)),
        _ => None,
    }
}

/// The change a `def` or `defineresource` makes: `/CMapName value` sets
/// the name, `/WMode n` the writing mode.
pub open spec fn metadata_ops(op: Seq<u8>, prev: Seq<Tok>) -> Seq<CMapOp> {
    if (op == ascii("def"@) || op == ascii("defineresource"@)) && prev.len() >= 2 {
        match prev[prev.len() - 2] {
            Tok::Name(n) => if n == ascii("CMapName"@) {
                match token_text(prev[prev.len() - 1]) {
                    Some(v) => seq![CMapOp::Name(v)],
                    None => Seq::empty(),
                }
            } else if n == ascii("WMode"@) {
                match prev[prev.len() - 1] {
                    Tok::Integer(w) => seq![CMapOp::WMode(w as i32)],
                    _ => Seq::empty(),
                }
            } else {
                Seq::empty()
            },
            _ => Seq::empty(),
        }
    } else {
        Seq::empty()
    }
}

/// The changes a section opened by `op` makes from `p` on, and where the
/// cursor stands after its closing operator.
pub open spec fn section(
    names: Map<Seq<char>, Seq<char>>,
    d: Seq<u8>,
    op: Seq<u8>,
    p: int,
    k: nat,
) -> Option<(Seq<CMapOp>, int)> {
    if op == ascii("begincodespacerange"@) {
        let (ops, q) = codespace_entries(d, p, k);
        Some((ops, skip_to(d, q, ascii("endcodespacerange"@))))
    } else if op == ascii("beginbfchar"@) {
        let (ops, q) = bfchar_entries(names, d, p, k);
        Some((ops, skip_to(d, q, ascii("endbfchar"@))))
    } else if op == ascii("beginbfrange"@) {
        let (ops, q) = bfrange_entries(d, p, k);
        Some((ops, skip_to(d, q, ascii("endbfrange"@))))
    } else if op == ascii("begincidchar"@) {
        let (ops, q) = cidchar_entries(d, p, k);
        Some((ops, skip_to(d, q, ascii("endcidchar"@))))
    } else if op == ascii("begincidrange"@) {
        let (ops, q) = cidrange_entries(d, p, k);
        Some((ops, skip_to(d, q, ascii("endcidrange"@))))
    } else {
        None
    }
}

/// The changes the parser makes reading from `p`, with `prev` the operands
/// seen since the last operator. Parsing stops at `endcmap`.
pub open spec fn parse_from(
    names: Map<Seq<char>, Seq<char>>,
    d: Seq<u8>,
    p: int,
    prev: Seq<Tok>,
) -> Seq<CMapOp>
    decreases d.len() - p,
{
    if p < 0 || p > d.len() {
        Seq::empty()
    } else {
        match next_token_spec(d, p) {
            None => Seq::empty(),
            Some((t, e)) => {
                proof {
                    lemma_next_token_bounds(d, p);
                }
                match t {
                    Tok::Operator(op) => match section(names, d, op, e, section_count(prev)) {
                        Some((ops, q)) => {
                            proof {
                                lemma_section_bounds(names, d, op, e, section_count(prev));
                            }
                            ops + parse_from(names, d, q, Seq::empty())
                        },
                        None => if op == ascii("endcmap"@) {
                            Seq::empty()
                        } else {
                            metadata_ops(op, prev) + parse_from(names, d, e, Seq::empty())
                        },
                    },
                    _ => parse_from(names, d, e, prev.push(t)),
                }
            },
        }
    }
}

/// The changes a whole CMap stream makes.
pub open spec fn cmap_ops(names: Map<Seq<char>, Seq<char>>, d: Seq<u8>) -> Seq<CMapOp> {
    parse_from(names, d, 0, Seq::empty())
}

/// Sections end within the data, after their start.
pub proof fn lemma_section_bounds(
    names: Map<Seq<char>, Seq<char>>,
    d: Seq<u8>,
    op: Seq<u8>,
    p: int,
    k: nat,
)
    requires
        0 <= p <= d.len(),
    ensures
        section(names, d, op, p, k) matches Some((_, q)) ==> p <= q <= d.len(),
{
    lemma_codespace_bounds(d, p, k);
    lemma_bfchar_bounds(names, d, p, k);
    lemma_bfrange_bounds(d, p, k);
    lemma_cidchar_bounds(d, p, k);
    lemma_cidrange_bounds(d, p, k);
    let targets = seq![
        ascii("endcodespacerange"@),
        ascii("endbfchar"@),
        ascii("endbfrange"@),
        ascii("endcidchar"@),
        ascii("endcidrange"@),
    ];
    lemma_skip_to_bounds(d, codespace_entries(d, p, k).1, targets[0]);
    lemma_skip_to_bounds(d, bfchar_entries(names, d, p, k).1, targets[1]);
    lemma_skip_to_bounds(d, bfrange_entries(d, p, k).1, targets[2]);
    lemma_skip_to_bounds(d, cidchar_entries(d, p, k).1, targets[3]);
    lemma_skip_to_bounds(d, cidrange_entries(d, p, k).1, targets[4]);
}

/// Skipping to an operator ends within the data, after the start.
pub proof fn lemma_skip_to_bounds(d: Seq<u8>, p: int, target: Seq<u8>)
    requires
        0 <= p <= d.len(),
    ensures
        p <= skip_to(d, p, target) <= d.len(),
    decreases d.len() - p,
{
    lemma_next_token_bounds(d, p);
    if let Some((t, e)) = next_token_spec(d, p) {
        if t != Tok::Operator(target) {
            lemma_skip_to_bounds(d, e, target);
        }
    }
}

/// Codespace entries end within the data, after their start.
pub proof fn lemma_codespace_bounds(d: Seq<u8>, p: int, k: nat)
    requires
        0 <= p <= d.len(),
    ensures
        p <= codespace_entries(d, p, k).1 <= d.len(),
    decreases k,
{
    if k > 0 {
        lemma_tok_end(d, p);
        match next_token_spec(d, p) {
            Some((Tok::HexBytes(s), p1)) => {
                lemma_tok_end(d, p1);
                match next_token_spec(d, p1) {
                    Some((Tok::HexBytes(e), p2)) => {
                        lemma_codespace_bounds(d, p2, (k - 1) as nat);
                    },
                    _ => {
                        lemma_codespace_bounds(d, tok_end(d, p1), (k - 1) as nat);
                    },
                }
            },
            _ => {
                lemma_codespace_bounds(d, tok_end(d, p), (k - 1) as nat);
            },
        }
    }
}

/// `bfchar` entries end within the data, after their start.
pub proof fn lemma_bfchar_bounds(names: Map<Seq<char>, Seq<char>>, d: Seq<u8>, p: int, k: nat)
    requires
        0 <= p <= d.len(),
    ensures
        p <= bfchar_entries(names, d, p, k).1 <= d.len(),
    decreases k,
{
    if k > 0 {
        lemma_tok_end(d, p);
        match next_token_spec(d, p) {
            Some((Tok::HexBytes(inb), p1)) => {
                lemma_tok_end(d, p1);
                match next_token_spec(d, p1) {
                    Some((t, p2)) => {
                        lemma_bfchar_bounds(names, d, p2, (k - 1) as nat);
                    },
                    None => {
                        lemma_bfchar_bounds(names, d, d.len() as int, (k - 1) as nat);
                    },
                }
            },
            _ => {
                lemma_bfchar_bounds(names, d, tok_end(d, p), (k - 1) as nat);
            },
        }
    }
}

/// Array `bfrange` mappings end within the data, after their start.
pub proof fn lemma_bf_array_bounds(d: Seq<u8>, p: int, code: int, end: int, length: usize)
    requires
        0 <= p <= d.len(),
    ensures
        p <= bf_array(d, p, code, end, length).1 <= d.len(),
    decreases end + 1 - code,
{
    lemma_tok_end(d, p);
    if code <= end {
        if let Some((Tok::HexBytes(b), p1)) = next_token_spec(d, p) {
            lemma_bf_array_bounds(d, p1, code + 1, end, length);
        }
    }
}

/// `bfrange` entries end within the data, after their start.
pub proof fn lemma_bfrange_bounds(d: Seq<u8>, p: int, k: nat)
    requires
        0 <= p <= d.len(),
    ensures
        p <= bfrange_entries(d, p, k).1 <= d.len(),
    decreases k,
{
    if k > 0 {
        lemma_tok_end(d, p);
        match next_token_spec(d, p) {
            Some((Tok::HexBytes(sb), p1)) => {
                lemma_tok_end(d, p1);
                match next_token_spec(d, p1) {
                    Some((Tok::HexBytes(eb), p2)) => {
                        lemma_tok_end(d, p2);
                        lemma_scan_bounds(d, p2);
                        let q = skip_ws_spec(d, p2);
                        if 0 <= q < d.len() && d[q] == 91 {
                            let length = sb.len() as usize;
                            lemma_bf_array_bounds(
                                d,
                                q + 1,
                                be32(sb) as int,
                                be32(eb) as int,
                                length,
                            );
                            let p4 = bf_array(d, q + 1, be32(sb) as int, be32(eb) as int, length).1;
                            lemma_scan_bounds(d, p4);
                            let p5 = skip_ws_spec(d, p4);
                            let p6 = if 0 <= p5 < d.len() && d[p5] == 93 {
                                p5 + 1
                            } else {
                                p5
                            };
                            lemma_bfrange_bounds(d, p6, (k - 1) as nat);
                        } else {
                            match next_token_spec(d, p2) {
                                Some((Tok::HexBytes(base), p3)) => {
                                    lemma_bfrange_bounds(d, p3, (k - 1) as nat);
                                },
                                _ => {
                                    lemma_bfrange_bounds(d, tok_end(d, p2), (k - 1) as nat);
                                },
                            }
                        }
                    },
                    _ => {
                        lemma_bfrange_bounds(d, tok_end(d, p1), (k - 1) as nat);
                    },
                }
            },
            _ => {
                lemma_bfrange_bounds(d, tok_end(d, p), (k - 1) as nat);
            },
        }
    }
}

/// `cidchar` entries end within the data, after their start.
pub proof fn lemma_cidchar_bounds(d: Seq<u8>, p: int, k: nat)
    requires
        0 <= p <= d.len(),
    ensures
        p <= cidchar_entries(d, p, k).1 <= d.len(),
    decreases k,
{
    if k > 0 {
        lemma_tok_end(d, p);
        match next_token_spec(d, p) {
            Some((Tok::HexBytes(inb), p1)) => {
                lemma_tok_end(d, p1);
                match next_token_spec(d, p1) {
                    Some((Tok::Integer(n), p2)) => {
                        lemma_cidchar_bounds(d, p2, (k - 1) as nat);
                    },
                    _ => {
                        lemma_cidchar_bounds(d, tok_end(d, p1), (k - 1) as nat);
                    },
                }
            },
            _ => {
                lemma_cidchar_bounds(d, tok_end(d, p), (k - 1) as nat);
            },
        }
    }
}

/// `cidrange` entries end within the data, after their start.
pub proof fn lemma_cidrange_bounds(d: Seq<u8>, p: int, k: nat)
    requires
        0 <= p <= d.len(),
    ensures
        p <= cidrange_entries(d, p, k).1 <= d.len(),
    decreases k,
{
    if k > 0 {
        lemma_tok_end(d, p);
        match next_token_spec(d, p) {
            Some((Tok::HexBytes(sb), p1)) => {
                lemma_tok_end(d, p1);
                match next_token_spec(d, p1) {
                    Some((Tok::HexBytes(eb), p2)) => {
                        lemma_tok_end(d, p2);
                        match next_token_spec(d, p2) {
                            Some((Tok::Integer(n), p3)) => {
                                lemma_cidrange_bounds(d, p3, (k - 1) as nat);
                            },
                            _ => {
                                lemma_cidrange_bounds(d, tok_end(d, p2), (k - 1) as nat);
                            },
                        }
                    },
                    _ => {
                        lemma_cidrange_bounds(d, tok_end(d, p1), (k - 1) as nat);
                    },
                }
            },
            _ => {
                lemma_cidrange_bounds(d, tok_end(d, p), (k - 1) as nat);
            },
        }
    }
}

/// The Unicode mappings of codes of `len` bytes the changes leave.
pub open spec fn unicode_after(ops: Seq<CMapOp>, len: int) -> Map<u32, Seq<char>>
    decreases ops.len(),
{
    if ops.len() == 0 {
        Map::empty()
    } else {
        let m = unicode_after(ops.drop_last(), len);
        match ops.last() {
            CMapOp::Char(c, l, u) => if l == len && 1 <= l <= 4 {
                m.insert(c, u)
            } else {
                m
            },
            _ => m,
        }
    }
}

/// The direct CID mappings of codes of `len` bytes the changes leave.
pub open spec fn cid_after(ops: Seq<CMapOp>, len: int) -> Map<u32, u32>
    decreases ops.len(),
{
    if ops.len() == 0 {
        Map::empty()
    } else {
        let m = cid_after(ops.drop_last(), len);
        match ops.last() {
            CMapOp::Cid(c, l, v) => if l == len {
                m.insert(c, v)
            } else {
                m
            },
            _ => m,
        }
    }
}

/// The CID ranges kept for codes of `len` bytes, in the order added.
pub open spec fn ranges_after(ops: Seq<CMapOp>, len: int) -> Seq<CidRange>
    decreases ops.len(),
{
    if ops.len() == 0 {
        Seq::empty()
    } else {
        let m = ranges_after(ops.drop_last(), len);
        match ops.last() {
            CMapOp::Range(r) => if len - 1 == range_bucket(r.code_length) {
                m.push(r)
            } else {
                m
            },
            _ => m,
        }
    }
}

/// The codespace ranges (start, end, code length) the changes add.
pub open spec fn codespace_after(ops: Seq<CMapOp>) -> Seq<(Seq<u8>, Seq<u8>, usize)>
    decreases ops.len(),
{
    if ops.len() == 0 {
        Seq::empty()
    } else {
        let m = codespace_after(ops.drop_last());
        match ops.last() {
            CMapOp::Codespace(s, e) => m.push((s, e, s.len() as usize)),
            _ => m,
        }
    }
}

/// The text → code map the changes leave (the first code of a text wins).
pub open spec fn reverse_after(ops: Seq<CMapOp>) -> Map<Seq<char>, Seq<u8>>
    decreases ops.len(),
{
    if ops.len() == 0 {
        Map::empty()
    } else {
        let m = reverse_after(ops.drop_last());
        match ops.last() {
            CMapOp::Char(c, l, u) => if 1 <= l <= 4 && !m.contains_key(u) {
                m.insert(u, be_suffix(c, l as int))
            } else {
                m
            },
            _ => m,
        }
    }
}

/// The name the changes leave (empty if none is set).
pub open spec fn name_after(ops: Seq<CMapOp>) -> Seq<char>
    decreases ops.len(),
{
    if ops.len() == 0 {
        Seq::empty()
    } else {
        match ops.last() {
            CMapOp::Name(v) => v,
            _ => name_after(ops.drop_last()),
        }
    }
}

/// The writing mode the changes leave (0 if none is set).
pub open spec fn wmode_after(ops: Seq<CMapOp>) -> i32
    decreases ops.len(),
{
    if ops.len() == 0 {
        0
    } else {
        match ops.last() {
            CMapOp::WMode(w) => w,
            _ => wmode_after(ops.drop_last()),
        }
    }
}

/// The smallest code length of the codespace ranges added (4 if none).
pub open spec fn min_len_after(ops: Seq<CMapOp>) -> usize
    decreases ops.len(),
{
    if ops.len() == 0 {
        4
    } else {
        let m = min_len_after(ops.drop_last());
        match ops.last() {
            CMapOp::Codespace(s, e) => if (s.len() as usize) < m {
                s.len() as usize
            } else {
                m
            },
            _ => m,
        }
    }
}

/// The largest code length of the codespace ranges added (0 if none).
pub open spec fn max_len_after(ops: Seq<CMapOp>) -> usize
    decreases ops.len(),
{
    if ops.len() == 0 {
        0
    } else {
        let m = max_len_after(ops.drop_last());
        match ops.last() {
            CMapOp::Codespace(s, e) => if (s.len() as usize) > m {
                s.len() as usize
            } else {
                m
            },
            _ => m,
        }
    }
}

/// Everything in `m` but the order of its CID ranges is what the changes
/// `ops` leave, applied in turn to an empty CMap.
pub open spec fn holds_ops_but_ranges(m: CMap, ops: Seq<CMapOp>) -> bool {
    &&& forall|len: int| 1 <= len <= 4 ==> #[trigger] m.unicode_map(len) == unicode_after(ops, len)
    &&& forall|len: int| 1 <= len <= 4 ==> #[trigger] m.cid_map(len) == cid_after(ops, len)
    &&& ranges_view(m.codespace()) == codespace_after(ops)
    &&& m.reverse_map() == reverse_after(ops)
    &&& m.name_view() == name_after(ops)
    &&& m.wmode_view() == wmode_after(ops)
    &&& m.min_len() == min_len_after(ops)
    &&& m.max_len() == max_len_after(ops)
    &&& m.wf()
}

/// `m` is exactly what the changes `ops` leave, applied in turn to an empty CMap.
pub open spec fn holds_ops(m: CMap, ops: Seq<CMapOp>) -> bool {
    &&& holds_ops_but_ranges(m, ops)
    &&& forall|len: int| 1 <= len <= 4 ==> #[trigger] m.cid_range_seq(len) == ranges_after(ops, len)
}

/// `m` is what the changes `ops` leave, its CID ranges ordered by first code.
pub open spec fn built_from(m: CMap, ops: Seq<CMapOp>) -> bool {
    &&& holds_ops_but_ranges(m, ops)
    &&& forall|len: int|
        1 <= len <= 4 ==> #[trigger] m.cid_range_seq(len).to_multiset() == ranges_after(
            ops,
            len,
        ).to_multiset()
    &&& m.ranges_sorted()
}

/// The view of tokens.
pub open spec fn toks(v: Seq<Token>) -> Seq<Tok> {
    v.map_values(|t: Token| t@)
}

/// Reads a CMap stream; names in `bfchar` entries are looked up in `glyphs`.
pub fn parse_cmap(data: &[u8], glyphs: &GlyphList) -> (r: CMap)
    ensures
        built_from(r, cmap_ops(glyphs.names(), data@)),
{
    let mut cmap = CMap::new();
    proof {
        assert forall|len: int| 1 <= len <= 4 implies #[trigger] cmap.unicode_map(len)
            == unicode_after(Seq::empty(), len) by {
            assert(cmap.unicode_map(len) =~= Map::empty());
        }
        assert forall|len: int| 1 <= len <= 4 implies #[trigger] cmap.cid_map(len) == cid_after(
            Seq::empty(),
            len,
        ) by {
            assert(cmap.cid_map(len) =~= Map::empty());
        }
        assert forall|len: int| 1 <= len <= 4 implies #[trigger] cmap.cid_range_seq(len)
            == ranges_after(Seq::empty(), len) by {
            assert(cmap.cid_range_seq(len) =~= Seq::empty());
        }
        assert(ranges_view(cmap.codespace()) =~= Seq::empty());
        assert(cmap.reverse_map() =~= Map::empty());
    }
    let mut parser = Parser::new(data);
    parser.parse(&mut cmap, glyphs, Ghost(Seq::empty()));
    assert(Seq::<CMapOp>::empty() + parse_from(glyphs.names(), data@, 0, Seq::empty())
        =~= cmap_ops(glyphs.names(), data@));
    cmap.finalize_cid_ranges();
    cmap
}

/// The last integer among the tokens.
fn prev_int(tokens: &Vec<Token>) -> (r: Option<i64>)
    ensures
        r == prev_int_spec(toks(tokens@)),
{
    let mut i = tokens.len();
    assert(tokens@.subrange(0, i as int) =~= tokens@);
    while i > 0
        invariant
            i <= tokens@.len(),
            prev_int_spec(toks(tokens@)) == prev_int_spec(toks(tokens@.subrange(0, i as int))),
        decreases i,
    {
        let ghost pre = tokens@.subrange(0, i as int);
        assert(toks(pre).drop_last() =~= toks(tokens@.subrange(0, i - 1)));
        assert(toks(pre).last() == tokens@[i - 1]@);
        match &tokens[i - 1] {
            Token::Integer(n) => {
                return Some(*n);
            },
            _ => {},
        }
        i = i - 1;
    }
    None
}

/// The text of a token used as a value.
fn token_to_string(token: &Token) -> (r: Option<String>)
    ensures
        crate::glyph_list::opt_string_view(r) == token_text(token@),
{
    match token {
        Token::Name(n) => Some(utf8_lossy(n.as_slice())),
        Token::LiteralString(b) => Some(utf8_lossy(b.as_slice())),
        Token::Operator(op) => Some(utf8_lossy(op.as_slice())),
        _ => None,
    }
}

/// Skipping whitespace twice is skipping it once.
pub proof fn lemma_skip_ws_idem(d: Seq<u8>, p: int)
    requires
        0 <= p <= d.len(),
    ensures
        skip_ws_spec(d, skip_ws_spec(d, p)) == skip_ws_spec(d, p),
    decreases d.len() - p,
{
    if p < d.len() && is_ws(d[p]) {
        lemma_skip_ws_idem(d, p + 1);
    }
}

/// At the end of the data a codespace section adds nothing.
proof fn lemma_codespace_at_end(d: Seq<u8>, k: nat)
    ensures
        codespace_entries(d, d.len() as int, k) == (Seq::<CMapOp>::empty(), d.len() as int),
    decreases k,
{
    lemma_no_token_at_end(d);
    if k > 0 {
        lemma_codespace_at_end(d, (k - 1) as nat);
    }
}

/// At the end of the data a `bfchar` section adds nothing.
proof fn lemma_bfchar_at_end(names: Map<Seq<char>, Seq<char>>, d: Seq<u8>, k: nat)
    ensures
        bfchar_entries(names, d, d.len() as int, k) == (Seq::<CMapOp>::empty(), d.len() as int),
    decreases k,
{
    lemma_no_token_at_end(d);
    if k > 0 {
        lemma_bfchar_at_end(names, d, (k - 1) as nat);
    }
}

/// At the end of the data a `bfrange` section adds nothing.
proof fn lemma_bfrange_at_end(d: Seq<u8>, k: nat)
    ensures
        bfrange_entries(d, d.len() as int, k) == (Seq::<CMapOp>::empty(), d.len() as int),
    decreases k,
{
    lemma_no_token_at_end(d);
    if k > 0 {
        lemma_bfrange_at_end(d, (k - 1) as nat);
    }
}

/// At the end of the data a `cidchar` section adds nothing.
proof fn lemma_cidchar_at_end(d: Seq<u8>, k: nat)
    ensures
        cidchar_entries(d, d.len() as int, k) == (Seq::<CMapOp>::empty(), d.len() as int),
    decreases k,
{
    lemma_no_token_at_end(d);
    if k > 0 {
        lemma_cidchar_at_end(d, (k - 1) as nat);
    }
}

/// At the end of the data a `cidrange` section adds nothing.
proof fn lemma_cidrange_at_end(d: Seq<u8>, k: nat)
    ensures
        cidrange_entries(d, d.len() as int, k) == (Seq::<CMapOp>::empty(), d.len() as int),
    decreases k,
{
    lemma_no_token_at_end(d);
    if k > 0 {
        lemma_cidrange_at_end(d, (k - 1) as nat);
    }
}

/// Adds a codespace range, one change further.
fn apply_codespace(cmap: &mut CMap, start: Vec<u8>, end: Vec<u8>, Ghost(ops): Ghost<Seq<CMapOp>>)
    requires
        holds_ops(*old(cmap), ops),
        start@.len() == end@.len(),
    ensures
        holds_ops(*final(cmap), ops.push(CMapOp::Codespace(start@, end@))),
{
    let ghost op = CMapOp::Codespace(start@, end@);
    let ghost before = ranges_view(cmap.codespace());
    let range = CodespaceRange::new(start, end);
    cmap.add_codespace_range(range);
    proof {
        let ops2 = ops.push(op);
        assert(ops2.drop_last() =~= ops);
        assert(ranges_view(cmap.codespace()) =~= before.push(
            (range.start@, range.end@, range.code_length),
        ));
        assert forall|len: int| 1 <= len <= 4 implies #[trigger] cmap.unicode_map(len)
            == unicode_after(ops2, len) by {}
        assert forall|len: int| 1 <= len <= 4 implies #[trigger] cmap.cid_map(len) == cid_after(
            ops2,
            len,
        ) by {}
        assert forall|len: int| 1 <= len <= 4 implies #[trigger] cmap.cid_range_seq(len)
            == ranges_after(ops2, len) by {}
    }
}

/// Maps a code to text, one change further.
fn apply_char(
    cmap: &mut CMap,
    code: u32,
    length: usize,
    unicode: String,
    Ghost(ops): Ghost<Seq<CMapOp>>,
)
    requires
        holds_ops(*old(cmap), ops),
    ensures
        holds_ops(*final(cmap), ops.push(CMapOp::Char(code, length, unicode@))),
{
    let ghost op = CMapOp::Char(code, length, unicode@);
    cmap.add_char_mapping(code, length, unicode);
    proof {
        let ops2 = ops.push(op);
        assert(ops2.drop_last() =~= ops);
        assert forall|len: int| 1 <= len <= 4 implies #[trigger] cmap.unicode_map(len)
            == unicode_after(ops2, len) by {}
        assert forall|len: int| 1 <= len <= 4 implies #[trigger] cmap.cid_map(len) == cid_after(
            ops2,
            len,
        ) by {}
        assert forall|len: int| 1 <= len <= 4 implies #[trigger] cmap.cid_range_seq(len)
            == ranges_after(ops2, len) by {}
    }
}

/// Maps a code to a CID, one change further.
fn apply_cid(cmap: &mut CMap, code: u32, length: usize, cid: u32, Ghost(ops): Ghost<Seq<CMapOp>>)
    requires
        holds_ops(*old(cmap), ops),
    ensures
        holds_ops(*final(cmap), ops.push(CMapOp::Cid(code, length, cid))),
{
    let ghost op = CMapOp::Cid(code, length, cid);
    cmap.add_cid_mapping(code, length, cid);
    proof {
        let ops2 = ops.push(op);
        assert(ops2.drop_last() =~= ops);
        assert forall|len: int| 1 <= len <= 4 implies #[trigger] cmap.unicode_map(len)
            == unicode_after(ops2, len) by {}
        assert forall|len: int| 1 <= len <= 4 implies #[trigger] cmap.cid_map(len) == cid_after(
            ops2,
            len,
        ) by {}
        assert forall|len: int| 1 <= len <= 4 implies #[trigger] cmap.cid_range_seq(len)
            == ranges_after(ops2, len) by {}
    }
}

/// Adds a CID range, one change further.
fn apply_range(cmap: &mut CMap, range: CidRange, Ghost(ops): Ghost<Seq<CMapOp>>)
    requires
        holds_ops(*old(cmap), ops),
    ensures
        holds_ops(*final(cmap), ops.push(CMapOp::Range(range))),
{
    let ghost op = CMapOp::Range(range);
    cmap.add_cid_range(range);
    proof {
        let ops2 = ops.push(op);
        assert(ops2.drop_last() =~= ops);
        assert forall|len: int| 1 <= len <= 4 implies #[trigger] cmap.unicode_map(len)
            == unicode_after(ops2, len) by {}
        assert forall|len: int| 1 <= len <= 4 implies #[trigger] cmap.cid_map(len) == cid_after(
            ops2,
            len,
        ) by {}
        assert forall|len: int| 1 <= len <= 4 implies #[trigger] cmap.cid_range_seq(len)
            == ranges_after(ops2, len) by {}
    }
}

/// Sets the name, one change further.
fn apply_name(cmap: &mut CMap, name: String, Ghost(ops): Ghost<Seq<CMapOp>>)
    requires
        holds_ops(*old(cmap), ops),
    ensures
        holds_ops(*final(cmap), ops.push(CMapOp::Name(name@))),
{
    let ghost op = CMapOp::Name(name@);
    cmap.set_name(name);
    proof {
        let ops2 = ops.push(op);
        assert(ops2.drop_last() =~= ops);
        assert forall|len: int| 1 <= len <= 4 implies #[trigger] cmap.unicode_map(len)
            == unicode_after(ops2, len) by {}
        assert forall|len: int| 1 <= len <= 4 implies #[trigger] cmap.cid_map(len) == cid_after(
            ops2,
            len,
        ) by {}
        assert forall|len: int| 1 <= len <= 4 implies #[trigger] cmap.cid_range_seq(len)
            == ranges_after(ops2, len) by {}
    }
}

/// Sets the writing mode, one change further.
fn apply_wmode(cmap: &mut CMap, wmode: i32, Ghost(ops): Ghost<Seq<CMapOp>>)
    requires
        holds_ops(*old(cmap), ops),
    ensures
        holds_ops(*final(cmap), ops.push(CMapOp::WMode(wmode))),
{
    let ghost op = CMapOp::WMode(wmode);
    cmap.set_wmode(wmode);
    proof {
        let ops2 = ops.push(op);
        assert(ops2.drop_last() =~= ops);
        assert forall|len: int| 1 <= len <= 4 implies #[trigger] cmap.unicode_map(len)
            == unicode_after(ops2, len) by {}
        assert forall|len: int| 1 <= len <= 4 implies #[trigger] cmap.cid_map(len) == cid_after(
            ops2,
            len,
        ) by {}
        assert forall|len: int| 1 <= len <= 4 implies #[trigger] cmap.cid_range_seq(len)
            == ranges_after(ops2, len) by {}
    }
}

impl<'a> Parser<'a> {
    /// The next non-whitespace byte, without moving.
    pub fn peek_byte(&self) -> (r: Option<u8>)
        requires
            self.inv(),
        ensures
            r == (if skip_ws_spec(self.data@, self.pos as int) < self.data@.len() {
                Some(self.data@[skip_ws_spec(self.data@, self.pos as int)])
            } else {
                None
            }),
    {
        let ghost d = self.data@;
        let mut i = self.pos;
        while i < self.data.len() && crate::cmap_lexer::is_whitespace(self.data[i])
            invariant
                self.pos <= i <= d.len(),
                d == self.data@,
                skip_ws_spec(d, self.pos as int) == skip_ws_spec(d, i as int),
            decreases d.len() - i,
        {
            i = i + 1;
        }
        if i < self.data.len() {
            Some(self.data[i])
        } else {
            None
        }
    }

    /// Skips whitespace, then one byte.
    pub fn advance(&mut self)
        requires
            old(self).inv(),
        ensures
            final(self).data@ == old(self).data@,
            final(self).inv(),
            final(self).pos == if skip_ws_spec(old(self).data@, old(self).pos as int) < old(
                self,
            ).data@.len() {
                skip_ws_spec(old(self).data@, old(self).pos as int) + 1
            } else {
                skip_ws_spec(old(self).data@, old(self).pos as int)
            },
    {
        self.skip_whitespace();
        if self.pos < self.data.len() {
            self.pos = self.pos + 1;
        }
    }

    /// Reads tokens up to and including the operator `target`.
    pub fn skip_to_operator(&mut self, target: &str)
        requires
            old(self).inv(),
            vstd::string::is_ascii(target),
        ensures
            final(self).data@ == old(self).data@,
            final(self).inv(),
            final(self).pos == skip_to(old(self).data@, old(self).pos as int, ascii(target@)),
    {
        let ghost d = self.data@;
        let ghost p0 = self.pos as int;
        let ghost tg = ascii(target@);
        loop
            invariant
                self.data@ == d,
                d == old(self).data@,
                p0 == old(self).pos,
                tg == ascii(target@),
                vstd::string::is_ascii(target),
                self.inv(),
                skip_to(d, p0, tg) == skip_to(d, self.pos as int, tg),
            decreases d.len() - self.pos,
        {
            let ghost p = self.pos as int;
            proof {
                lemma_next_token_bounds(d, p);
            }
            match self.next_token() {
                None => {
                    return;
                },
                Some(t) => {
                    match t {
                        Token::Operator(op) => {
                            if bytes_eq_str(op.as_slice(), target) {
                                return;
                            }
                        },
                        _ => {},
                    }
                },
            }
        }
    }

    /// Reads a `begincodespacerange` section of `count` entries.
    fn parse_codespace_range(&mut self, cmap: &mut CMap, count: usize, Ghost(ops0): Ghost<Seq<CMapOp>>)
        requires
            old(self).inv(),
            holds_ops(*old(cmap), ops0),
        ensures
            final(self).data@ == old(self).data@,
            final(self).inv(),
            old(self).pos <= final(self).pos,
            holds_ops(
                *final(cmap),
                ops0 + codespace_entries(old(self).data@, old(self).pos as int, count as nat).0,
            ),
            final(self).pos == skip_to(
                old(self).data@,
                codespace_entries(old(self).data@, old(self).pos as int, count as nat).1,
                ascii("endcodespacerange"@),
            ),
    {
        let ghost d = self.data@;
        let ghost p0 = self.pos as int;
        let ghost mut acc: Seq<CMapOp> = Seq::empty();
        let mut i: usize = 0;
        while i < count && self.pos < self.data.len()
            invariant
                self.data@ == d,
                self.inv(),
                i <= count,
                holds_ops(*cmap, ops0 + acc),
                codespace_entries(d, p0, count as nat) == (acc + codespace_entries(
                    d,
                    self.pos as int,
                    (count - i) as nat,
                ).0, codespace_entries(d, self.pos as int, (count - i) as nat).1),
            decreases count - i,
        {
            let ghost p = self.pos as int;
            let ghost k = (count - i) as nat;
            let t1 = self.next_token();
            match t1 {
                Some(Token::HexBytes(start)) => {
                    let t2 = self.next_token();
                    match t2 {
                        Some(Token::HexBytes(end)) => {
                            let ghost rest = codespace_entries(d, self.pos as int, (k - 1) as nat);
                            if start.len() == end.len() && start.len() > 0 {
                                let ghost op = CMapOp::Codespace(start@, end@);
                                apply_codespace(cmap, start, end, Ghost(ops0 + acc));
                                proof {
                                    assert((ops0 + acc).push(op) =~= ops0 + (acc + seq![op]));
                                    assert(acc + (seq![op] + rest.0) =~= (acc + seq![op])
                                        + rest.0);
                                    acc = acc + seq![op];
                                }
                            }
                        },
                        _ => {},
                    }
                },
                _ => {},
            }
            i = i + 1;
        }
        proof {
            if i < count {
                lemma_codespace_at_end(d, (count - i) as nat);
            }
            assert(acc + Seq::<CMapOp>::empty() =~= acc);
            lemma_codespace_bounds(d, p0, count as nat);
            lemma_skip_to_bounds(d, self.pos as int, ascii("endcodespacerange"@));
            reveal_strlit("endcodespacerange");
        }
        self.skip_to_operator("endcodespacerange");
    }

    /// Reads a `beginbfchar` section of `count` entries.
    fn parse_bf_char(
        &mut self,
        cmap: &mut CMap,
        glyphs: &GlyphList,
        count: usize,
        Ghost(ops0): Ghost<Seq<CMapOp>>,
    )
        requires
            old(self).inv(),
            holds_ops(*old(cmap), ops0),
        ensures
            final(self).data@ == old(self).data@,
            final(self).inv(),
            old(self).pos <= final(self).pos,
            holds_ops(
                *final(cmap),
                ops0 + bfchar_entries(
                    glyphs.names(),
                    old(self).data@,
                    old(self).pos as int,
                    count as nat,
                ).0,
            ),
            final(self).pos == skip_to(
                old(self).data@,
                bfchar_entries(glyphs.names(), old(self).data@, old(self).pos as int, count as nat).1,
                ascii("endbfchar"@),
            ),
    {
        let ghost d = self.data@;
        let ghost g = glyphs.names();
        let ghost p0 = self.pos as int;
        let ghost mut acc: Seq<CMapOp> = Seq::empty();
        let mut i: usize = 0;
        while i < count && self.pos < self.data.len()
            invariant
                self.data@ == d,
                g == glyphs.names(),
                self.inv(),
                i <= count,
                holds_ops(*cmap, ops0 + acc),
                bfchar_entries(g, d, p0, count as nat) == (acc + bfchar_entries(
                    g,
                    d,
                    self.pos as int,
                    (count - i) as nat,
                ).0, bfchar_entries(g, d, self.pos as int, (count - i) as nat).1),
            decreases count - i,
        {
            let ghost k = (count - i) as nat;
            let t1 = self.next_token();
            match t1 {
                Some(Token::HexBytes(input)) => {
                    let t2 = self.next_token();
                    let ghost rest = bfchar_entries(g, d, self.pos as int, (k - 1) as nat);
                    let unicode: Option<String> = match t2 {
                        Some(Token::HexBytes(b)) => Some(hex_bytes_to_unicode(b.as_slice())),
                        Some(Token::Name(n)) => {
                            let s = utf8_lossy(n.as_slice());
                            match glyphs.to_unicode(s.as_str()) {
                                Some(u) => Some(u),
                                None => Some(String::new()),
                            }
                        },
                        _ => None,
                    };
                    match unicode {
                        Some(u) => {
                            let code = bytes_to_u32(input.as_slice());
                            let length = input.len();
                            let ghost ops = char_op(code, length, u@);
                            if !u.as_str().is_empty() {
                                let ghost op = CMapOp::Char(code, length, u@);
                                apply_char(cmap, code, length, u, Ghost(ops0 + acc));
                                proof {
                                    assert((ops0 + acc).push(op) =~= ops0 + (acc + seq![op]));
                                    acc = acc + seq![op];
                                }
                            }
                            proof {
                                assert(acc + rest.0 =~= (acc.subrange(0, acc.len() - ops.len()))
                                    + (ops + rest.0)) by {
                                    if ops.len() == 0 {
                                        assert(acc.subrange(0, acc.len() as int) =~= acc);
                                    }
                                }
                            }
                        },
                        None => {},
                    }
                },
                _ => {},
            }
            i = i + 1;
        }
        proof {
            if i < count {
                lemma_bfchar_at_end(g, d, (count - i) as nat);
            }
            assert(acc + Seq::<CMapOp>::empty() =~= acc);
            lemma_bfchar_bounds(g, d, p0, count as nat);
            lemma_skip_to_bounds(d, self.pos as int, ascii("endbfchar"@));
            reveal_strlit("endbfchar");
        }
        self.skip_to_operator("endbfchar");
    }

    /// Maps the codes `start..=end` to the successive values from `base`.
    fn bf_range_seq(
        cmap: &mut CMap,
        start: u32,
        end: u32,
        base: u32,
        blen: usize,
        length: usize,
        Ghost(ops0): Ghost<Seq<CMapOp>>,
    )
        requires
            holds_ops(*old(cmap), ops0),
        ensures
            holds_ops(
                *final(cmap),
                ops0 + bf_seq(start as int, end as int, base, blen, length),
            ),
    {
        let ghost mut acc: Seq<CMapOp> = Seq::empty();
        let mut code: u64 = start as u64;
        let mut val: u32 = base;
        while code <= end as u64
            invariant
                start <= code,
                code <= end as int + 1 || code == start,
                holds_ops(*cmap, ops0 + acc),
                bf_seq(start as int, end as int, base, blen, length) == acc + bf_seq(
                    code as int,
                    end as int,
                    val,
                    blen,
                    length,
                ),
            decreases end as int + 1 - code,
        {
            let u = u32_to_unicode(val, blen);
            let ghost rest = bf_seq(code + 1, end as int, next_value(val), blen, length);
            let ghost ops = char_op(code as u32, length, u@);
            if !u.as_str().is_empty() {
                let ghost op = CMapOp::Char(code as u32, length, u@);
                apply_char(cmap, code as u32, length, u, Ghost(ops0 + acc));
                proof {
                    assert((ops0 + acc).push(op) =~= ops0 + (acc + seq![op]));
                    assert(acc + (seq![op] + rest) =~= (acc + seq![op]) + rest);
                    acc = acc + seq![op];
                }
            } else {
                assert(ops + rest =~= rest);
            }
            val = if val == 0xffff_ffff {
                0
            } else {
                val + 1
            };
            code = code + 1;
        }
        assert(acc + Seq::<CMapOp>::empty() =~= acc);
    }

    /// Maps the codes `start..=end` to the hex strings of an array.
    fn bf_range_array(
        &mut self,
        cmap: &mut CMap,
        start: u32,
        end: u32,
        length: usize,
        Ghost(ops0): Ghost<Seq<CMapOp>>,
    )
        requires
            old(self).inv(),
            holds_ops(*old(cmap), ops0),
        ensures
            final(self).data@ == old(self).data@,
            final(self).inv(),
            holds_ops(
                *final(cmap),
                ops0 + bf_array(old(self).data@, old(self).pos as int, start as int, end as int, length).0,
            ),
            final(self).pos == bf_array(
                old(self).data@,
                old(self).pos as int,
                start as int,
                end as int,
                length,
            ).1,
    {
        let ghost d = self.data@;
        let ghost p0 = self.pos as int;
        let ghost mut acc: Seq<CMapOp> = Seq::empty();
        let mut code: u64 = start as u64;
        loop
            invariant_except_break
                self.data@ == d,
                self.inv(),
                start <= code,
                code <= end as int + 1 || code == start,
                holds_ops(*cmap, ops0 + acc),
                bf_array(d, p0, start as int, end as int, length) == (acc + bf_array(
                    d,
                    self.pos as int,
                    code as int,
                    end as int,
                    length,
                ).0, bf_array(d, self.pos as int, code as int, end as int, length).1),
            ensures
                self.data@ == d,
                self.inv(),
                holds_ops(*cmap, ops0 + acc),
                bf_array(d, p0, start as int, end as int, length) == (acc, self.pos as int),
            decreases end as int + 1 - code,
        {
            if code > end as u64 {
                assert(acc + Seq::<CMapOp>::empty() =~= acc);
                break;
            }
            let ghost p = self.pos as int;
            match self.next_token() {
                Some(Token::HexBytes(b)) => {
                    let u = hex_bytes_to_unicode(b.as_slice());
                    let ghost rest = bf_array(d, self.pos as int, code + 1, end as int, length);
                    let ghost ops = char_op(code as u32, length, u@);
                    if !u.as_str().is_empty() {
                        let ghost op = CMapOp::Char(code as u32, length, u@);
                        apply_char(cmap, code as u32, length, u, Ghost(ops0 + acc));
                        proof {
                            assert((ops0 + acc).push(op) =~= ops0 + (acc + seq![op]));
                            assert(acc + (seq![op] + rest.0) =~= (acc + seq![op]) + rest.0);
                            acc = acc + seq![op];
                        }
                    } else {
                        assert(ops + rest.0 =~= rest.0);
                    }
                    code = code + 1;
                },
                _ => {
                    assert(acc + Seq::<CMapOp>::empty() =~= acc);
                    break;
                },
            }
        }
    }

    /// Reads a `beginbfrange` section of `count` entries.
    fn parse_bf_range(&mut self, cmap: &mut CMap, count: usize, Ghost(ops0): Ghost<Seq<CMapOp>>)
        requires
            old(self).inv(),
            holds_ops(*old(cmap), ops0),
        ensures
            final(self).data@ == old(self).data@,
            final(self).inv(),
            old(self).pos <= final(self).pos,
            holds_ops(
                *final(cmap),
                ops0 + bfrange_entries(old(self).data@, old(self).pos as int, count as nat).0,
            ),
            final(self).pos == skip_to(
                old(self).data@,
                bfrange_entries(old(self).data@, old(self).pos as int, count as nat).1,
                ascii("endbfrange"@),
            ),
    {
        let ghost d = self.data@;
        let ghost p0 = self.pos as int;
        let ghost mut acc: Seq<CMapOp> = Seq::empty();
        let mut i: usize = 0;
        while i < count && self.pos < self.data.len()
            invariant
                self.data@ == d,
                self.inv(),
                i <= count,
                holds_ops(*cmap, ops0 + acc),
                bfrange_entries(d, p0, count as nat) == (acc + bfrange_entries(
                    d,
                    self.pos as int,
                    (count - i) as nat,
                ).0, bfrange_entries(d, self.pos as int, (count - i) as nat).1),
            decreases count - i,
        {
            let ghost k = (count - i) as nat;
            let t1 = self.next_token();
            match t1 {
                Some(Token::HexBytes(sb)) => {
                    let t2 = self.next_token();
                    match t2 {
                        Some(Token::HexBytes(eb)) => {
                            let ghost p2 = self.pos as int;
                            let length = sb.len();
                            let start = bytes_to_u32(sb.as_slice());
                            let end = bytes_to_u32(eb.as_slice());
                            proof {
                                lemma_scan_bounds(d, p2);
                                lemma_skip_ws_idem(d, p2);
                            }
                            if self.peek_byte() == Some(91u8) {
                                self.advance();
                                let ghost p3 = self.pos as int;
                                let ghost before = acc;
                                self.bf_range_array(cmap, start, end, length, Ghost(ops0 + acc));
                                let ghost arr = bf_array(d, p3, start as int, end as int, length);
                                proof {
                                    lemma_bf_array_bounds(d, p3, start as int, end as int, length);
                                    lemma_scan_bounds(d, arr.1);
                                    lemma_skip_ws_idem(d, arr.1);
                                }
                                self.skip_whitespace();
                                if self.peek_byte() == Some(93u8) {
                                    self.advance();
                                }
                                let ghost rest = bfrange_entries(d, self.pos as int, (k - 1) as nat);
                                proof {
                                    assert(ops0 + acc + arr.0 =~= ops0 + (acc + arr.0));
                                    assert(acc + (arr.0 + rest.0) =~= (acc + arr.0) + rest.0);
                                    acc = acc + arr.0;
                                }
                            } else {
                                let t3 = self.next_token();
                                match t3 {
                                    Some(Token::HexBytes(base)) => {
                                        let v = bytes_to_u32(base.as_slice());
                                        let ghost sq = bf_seq(
                                            start as int,
                                            end as int,
                                            v,
                                            base.len(),
                                            length,
                                        );
                                        let ghost rest = bfrange_entries(
                                            d,
                                            self.pos as int,
                                            (k - 1) as nat,
                                        );
                                        Self::bf_range_seq(
                                            cmap,
                                            start,
                                            end,
                                            v,
                                            base.len(),
                                            length,
                                            Ghost(ops0 + acc),
                                        );
                                        proof {
                                            assert(ops0 + acc + sq =~= ops0 + (acc + sq));
                                            assert(acc + (sq + rest.0) =~= (acc + sq) + rest.0);
                                            acc = acc + sq;
                                        }
                                    },
                                    _ => {},
                                }
                            }
                        },
                        _ => {},
                    }
                },
                _ => {},
            }
            i = i + 1;
        }
        proof {
            if i < count {
                lemma_bfrange_at_end(d, (count - i) as nat);
            }
            assert(acc + Seq::<CMapOp>::empty() =~= acc);
            lemma_bfrange_bounds(d, p0, count as nat);
            lemma_skip_to_bounds(d, self.pos as int, ascii("endbfrange"@));
            reveal_strlit("endbfrange");
        }
        self.skip_to_operator("endbfrange");
    }

    /// Reads a `begincidchar` section of `count` entries.
    fn parse_cid_char(&mut self, cmap: &mut CMap, count: usize, Ghost(ops0): Ghost<Seq<CMapOp>>)
        requires
            old(self).inv(),
            holds_ops(*old(cmap), ops0),
        ensures
            final(self).data@ == old(self).data@,
            final(self).inv(),
            old(self).pos <= final(self).pos,
            holds_ops(
                *final(cmap),
                ops0 + cidchar_entries(old(self).data@, old(self).pos as int, count as nat).0,
            ),
            final(self).pos == skip_to(
                old(self).data@,
                cidchar_entries(old(self).data@, old(self).pos as int, count as nat).1,
                ascii("endcidchar"@),
            ),
    {
        let ghost d = self.data@;
        let ghost p0 = self.pos as int;
        let ghost mut acc: Seq<CMapOp> = Seq::empty();
        let mut i: usize = 0;
        while i < count && self.pos < self.data.len()
            invariant
                self.data@ == d,
                self.inv(),
                i <= count,
                holds_ops(*cmap, ops0 + acc),
                cidchar_entries(d, p0, count as nat) == (acc + cidchar_entries(
                    d,
                    self.pos as int,
                    (count - i) as nat,
                ).0, cidchar_entries(d, self.pos as int, (count - i) as nat).1),
            decreases count - i,
        {
            let ghost k = (count - i) as nat;
            let t1 = self.next_token();
            match t1 {
                Some(Token::HexBytes(input)) => {
                    let t2 = self.next_token();
                    match t2 {
                        Some(Token::Integer(n)) => {
                            let ghost rest = cidchar_entries(d, self.pos as int, (k - 1) as nat);
                            let code = bytes_to_u32(input.as_slice());
                            let ghost op = CMapOp::Cid(code, input.len(), n as u32);
                            apply_cid(cmap, code, input.len(), n as u32, Ghost(ops0 + acc));
                            proof {
                                assert((ops0 + acc).push(op) =~= ops0 + (acc + seq![op]));
                                assert(acc + (seq![op] + rest.0) =~= (acc + seq![op]) + rest.0);
                                acc = acc + seq![op];
                            }
                        },
                        _ => {},
                    }
                },
                _ => {},
            }
            i = i + 1;
        }
        proof {
            if i < count {
                lemma_cidchar_at_end(d, (count - i) as nat);
            }
            assert(acc + Seq::<CMapOp>::empty() =~= acc);
            lemma_cidchar_bounds(d, p0, count as nat);
            lemma_skip_to_bounds(d, self.pos as int, ascii("endcidchar"@));
            reveal_strlit("endcidchar");
        }
        self.skip_to_operator("endcidchar");
    }

    /// Reads a `begincidrange` section of `count` entries.
    fn parse_cid_range(&mut self, cmap: &mut CMap, count: usize, Ghost(ops0): Ghost<Seq<CMapOp>>)
        requires
            old(self).inv(),
            holds_ops(*old(cmap), ops0),
        ensures
            final(self).data@ == old(self).data@,
            final(self).inv(),
            old(self).pos <= final(self).pos,
            holds_ops(
                *final(cmap),
                ops0 + cidrange_entries(old(self).data@, old(self).pos as int, count as nat).0,
            ),
            final(self).pos == skip_to(
                old(self).data@,
                cidrange_entries(old(self).data@, old(self).pos as int, count as nat).1,
                ascii("endcidrange"@),
            ),
    {
        let ghost d = self.data@;
        let ghost p0 = self.pos as int;
        let ghost mut acc: Seq<CMapOp> = Seq::empty();
        let mut i: usize = 0;
        while i < count && self.pos < self.data.len()
            invariant
                self.data@ == d,
                self.inv(),
                i <= count,
                holds_ops(*cmap, ops0 + acc),
                cidrange_entries(d, p0, count as nat) == (acc + cidrange_entries(
                    d,
                    self.pos as int,
                    (count - i) as nat,
                ).0, cidrange_entries(d, self.pos as int, (count - i) as nat).1),
            decreases count - i,
        {
            let ghost k = (count - i) as nat;
            let t1 = self.next_token();
            match t1 {
                Some(Token::HexBytes(sb)) => {
                    let t2 = self.next_token();
                    match t2 {
                        Some(Token::HexBytes(eb)) => {
                            let t3 = self.next_token();
                            match t3 {
                                Some(Token::Integer(n)) => {
                                    let ghost rest = cidrange_entries(
                                        d,
                                        self.pos as int,
                                        (k - 1) as nat,
                                    );
                                    let ghost op = cid_range_op(sb@, eb@, n as u32);
                                    let length = sb.len();
                                    let from = bytes_to_u32(sb.as_slice());
                                    let to = bytes_to_u32(eb.as_slice());
                                    if from == to {
                                        apply_cid(cmap, from, length, n as u32, Ghost(ops0 + acc));
                                    } else {
                                        apply_range(
                                            cmap,
                                            CidRange { from, to, cid_start: n as u32, code_length: length },
                                            Ghost(ops0 + acc),
                                        );
                                    }
                                    proof {
                                        assert((ops0 + acc).push(op) =~= ops0 + (acc + seq![op]));
                                        assert(acc + (seq![op] + rest.0) =~= (acc + seq![op])
                                            + rest.0);
                                        acc = acc + seq![op];
                                    }
                                },
                                _ => {},
                            }
                        },
                        _ => {},
                    }
                },
                _ => {},
            }
            i = i + 1;
        }
        proof {
            if i < count {
                lemma_cidrange_at_end(d, (count - i) as nat);
            }
            assert(acc + Seq::<CMapOp>::empty() =~= acc);
            lemma_cidrange_bounds(d, p0, count as nat);
            lemma_skip_to_bounds(d, self.pos as int, ascii("endcidrange"@));
            reveal_strlit("endcidrange");
        }
        self.skip_to_operator("endcidrange");
    }

    /// Applies a `def` or `defineresource` of `/CMapName` or `/WMode`.
    fn handle_metadata(
        &self,
        cmap: &mut CMap,
        op: &Vec<u8>,
        prev: &Vec<Token>,
        Ghost(ops0): Ghost<Seq<CMapOp>>,
    )
        requires
            holds_ops(*old(cmap), ops0),
        ensures
            holds_ops(*final(cmap), ops0 + metadata_ops(op@, toks(prev@))),
    {
        let ghost pv = toks(prev@);
        proof {
            reveal_strlit("def");
            reveal_strlit("defineresource");
            reveal_strlit("CMapName");
            reveal_strlit("WMode");
        }
        let n = prev.len();
        if (bytes_eq_str(op.as_slice(), "def") || bytes_eq_str(op.as_slice(), "defineresource"))
            && n >= 2 {
            assert(pv[n - 2] == prev@[n - 2]@);
            assert(pv[n - 1] == prev@[n - 1]@);
            match &prev[n - 2] {
                Token::Name(name) => {
                    if bytes_eq_str(name.as_slice(), "CMapName") {
                        match token_to_string(&prev[n - 1]) {
                            Some(v) => {
                                let ghost op = CMapOp::Name(v@);
                                apply_name(cmap, v, Ghost(ops0));
                                assert(ops0.push(op) =~= ops0 + seq![op]);
                                return;
                            },
                            None => {},
                        }
                    } else if bytes_eq_str(name.as_slice(), "WMode") {
                        match &prev[n - 1] {
                            Token::Integer(w) => {
                                let ghost op = CMapOp::WMode(*w as i32);
                                apply_wmode(cmap, *w as i32, Ghost(ops0));
                                assert(ops0.push(op) =~= ops0 + seq![op]);
                                return;
                            },
                            _ => {},
                        }
                    }
                },
                _ => {},
            }
        }
        assert(ops0 + Seq::<CMapOp>::empty() =~= ops0);
    }

    /// Reads the sections of a CMap up to `endcmap`.
    fn parse(&mut self, cmap: &mut CMap, glyphs: &GlyphList, Ghost(ops0): Ghost<Seq<CMapOp>>)
        requires
            old(self).inv(),
            holds_ops(*old(cmap), ops0),
        ensures
            holds_ops(
                *final(cmap),
                ops0 + parse_from(glyphs.names(), old(self).data@, old(self).pos as int, Seq::empty()),
            ),
    {
        let ghost d = self.data@;
        let ghost g = glyphs.names();
        let ghost p0 = self.pos as int;
        let ghost mut acc: Seq<CMapOp> = Seq::empty();
        let mut prev: Vec<Token> = Vec::new();
        proof {
            reveal_strlit("begincodespacerange");
            reveal_strlit("beginbfchar");
            reveal_strlit("beginbfrange");
            reveal_strlit("begincidchar");
            reveal_strlit("begincidrange");
            reveal_strlit("endcmap");
            assert(toks(prev@) =~= Seq::<Tok>::empty());
        }
        loop
            invariant_except_break
                self.data@ == d,
                g == glyphs.names(),
                self.inv(),
                holds_ops(*cmap, ops0 + acc),
                parse_from(g, d, p0, Seq::empty()) == acc + parse_from(
                    g,
                    d,
                    self.pos as int,
                    toks(prev@),
                ),
            ensures
                holds_ops(*cmap, ops0 + acc),
                parse_from(g, d, p0, Seq::empty()) == acc,
            decreases d.len() - self.pos,
        {
            let ghost p = self.pos as int;
            let ghost pv = toks(prev@);
            proof {
                lemma_next_token_bounds(d, p);
                reveal_strlit("begincodespacerange");
                reveal_strlit("beginbfchar");
                reveal_strlit("beginbfrange");
                reveal_strlit("begincidchar");
                reveal_strlit("begincidrange");
                reveal_strlit("endcmap");
            }
            match self.next_token() {
                None => {
                    assert(acc + Seq::<CMapOp>::empty() =~= acc);
                    break;
                },
                Some(t) => {
                    match t {
                        Token::Operator(op) => {
                            let ghost e = self.pos as int;
                            let count: usize = match prev_int(&prev) {
                                Some(n) => n as usize,
                                None => 0,
                            };
                            let ghost sect = section(g, d, op@, e, section_count(pv));
                            proof {
                                lemma_section_bounds(g, d, op@, e, section_count(pv));
                            }
                            if bytes_eq_str(op.as_slice(), "begincodespacerange") {
                                self.parse_codespace_range(cmap, count, Ghost(ops0 + acc));
                            } else if bytes_eq_str(op.as_slice(), "beginbfchar") {
                                self.parse_bf_char(cmap, glyphs, count, Ghost(ops0 + acc));
                            } else if bytes_eq_str(op.as_slice(), "beginbfrange") {
                                self.parse_bf_range(cmap, count, Ghost(ops0 + acc));
                            } else if bytes_eq_str(op.as_slice(), "begincidchar") {
                                self.parse_cid_char(cmap, count, Ghost(ops0 + acc));
                            } else if bytes_eq_str(op.as_slice(), "begincidrange") {
                                self.parse_cid_range(cmap, count, Ghost(ops0 + acc));
                            } else if bytes_eq_str(op.as_slice(), "endcmap") {
                                assert(acc + Seq::<CMapOp>::empty() =~= acc);
                                break;
                            } else {
                                self.handle_metadata(cmap, &op, &prev, Ghost(ops0 + acc));
                                let ghost m = metadata_ops(op@, pv);
                                proof {
                                    assert(ops0 + acc + m =~= ops0 + (acc + m));
                                    assert(acc + (m + parse_from(g, d, e, Seq::empty())) =~= (acc
                                        + m) + parse_from(g, d, e, Seq::empty()));
                                    acc = acc + m;
                                }
                            }
                            proof {
                                if let Some((ops, q)) = sect {
                                    assert(ops0 + acc + ops =~= ops0 + (acc + ops));
                                    assert(acc + (ops + parse_from(g, d, q, Seq::empty())) =~= (acc
                                        + ops) + parse_from(g, d, q, Seq::empty()));
                                    acc = acc + ops;
                                }
                            }
                            prev = Vec::new();
                            proof {
                                assert(toks(prev@) =~= Seq::<Tok>::empty());
                            }
                        },
                        other => {
                            let ghost ot = other@;
                            prev.push(other);
                            proof {
                                assert(toks(prev@) =~= pv.push(ot));
                            }
                        },
                    }
                },
            }
        }
    }
}

} // verus!
