//! Properties of the library that hold for all inputs.

use vstd::prelude::*;
use crate::cmap::{be_suffix, CMap};
use crate::font::cid_of;
use crate::cmap_lexer::{be_value, lit_scan, octal_tail, u32_text_spec};
use crate::cmap_parser::{bf_seq, char_op, next_value, reverse_after, unicode_after, CMapOp};
use crate::content_parser::{
    content_ops, is_op_char, lit_scan_c, object_scan, skip_ws_c, word_end_c, Obj,
};
use crate::cos_helpers::{pdf_doc_char, text_string_chars, unescape_name};
use crate::engine::{chunk_end, chunks_from, join_texts, strip_from, without_soft_hyphens};
use crate::glyph_list::{glyph_unicode, insert_absent, load_from, notdef};
use crate::normalizer::{
    combining_code, combining_mark_spec, decompose_ligatures_spec, ligature_expansion, merge_pass,
    merged_any, nfc_chars,
};

verus! {

/// A CMap maps a code to the text given last to it, among codes of the
/// same length: a read gives back the last write.
pub proof fn law_cmap_last_mapping_wins(ops: Seq<CMapOp>, code: u32, len: usize, text: Seq<char>)
    requires
        1 <= len <= 4,
    ensures
        unicode_after(ops.push(CMapOp::Char(code, len, text)), len as int).contains_key(code),
        unicode_after(ops.push(CMapOp::Char(code, len, text)), len as int)[code] == text,
{
    assert(ops.push(CMapOp::Char(code, len, text)).drop_last() =~= ops);
}

/// Mapping a code of one length leaves the mappings of the other lengths
/// untouched.
pub proof fn law_cmap_lengths_independent(
    ops: Seq<CMapOp>,
    code: u32,
    len: usize,
    text: Seq<char>,
    other: int,
)
    requires
        other != len,
    ensures
        unicode_after(ops.push(CMapOp::Char(code, len, text)), other) == unicode_after(ops, other),
{
    assert(ops.push(CMapOp::Char(code, len, text)).drop_last() =~= ops);
}

/// The reverse lookup of a text keeps the first code mapped to it.
pub proof fn law_cmap_reverse_first_wins(ops: Seq<CMapOp>, code: u32, len: usize, text: Seq<char>)
    requires
        1 <= len <= 4,
    ensures
        reverse_after(ops).contains_key(text) ==> reverse_after(
            ops.push(CMapOp::Char(code, len, text)),
        )[text] == reverse_after(ops)[text],
        !reverse_after(ops).contains_key(text) ==> reverse_after(
            ops.push(CMapOp::Char(code, len, text)),
        )[text] == be_suffix(code, len as int),
{
    assert(ops.push(CMapOp::Char(code, len, text)).drop_last() =~= ops);
}

/// The value a sequential `bfrange` gives the `k`-th code after its start.
pub open spec fn nth_value(base: u32, k: nat) -> u32
    decreases k,
{
    if k == 0 {
        base
    } else {
        next_value(nth_value(base, (k - 1) as nat))
    }
}

/// In a sequential `bfrange`, the `k`-th code after the start maps to the
/// text of the `k`-th value after the base (when that text is not empty).
pub proof fn law_bf_range_consecutive(
    start: int,
    end: int,
    base: u32,
    blen: usize,
    length: usize,
    k: nat,
)
    requires
        start + k <= end,
        u32_text_spec(nth_value(base, k), blen).len() > 0,
    ensures
        bf_seq(start, end, base, blen, length).contains(
            CMapOp::Char((start + k) as u32, length, u32_text_spec(nth_value(base, k), blen)),
        ),
    decreases k,
{
    let op = CMapOp::Char((start + k) as u32, length, u32_text_spec(nth_value(base, k), blen));
    let head = char_op(start as u32, length, u32_text_spec(base, blen));
    let tail = bf_seq(start + 1, end, next_value(base), blen, length);
    assert(bf_seq(start, end, base, blen, length) == head + tail);
    if k == 0 {
        assert(head == seq![op]);
        assert((head + tail)[0] == op);
    } else {
        lemma_nth_value_shift(base, (k - 1) as nat);
        law_bf_range_consecutive(start + 1, end, next_value(base), blen, length, (k - 1) as nat);
        let i = choose|i: int| 0 <= i < tail.len() && tail[i] == op;
        assert((head + tail)[head.len() + i] == op);
    }
}

proof fn lemma_nth_value_shift(base: u32, k: nat)
    ensures
        nth_value(next_value(base), k) == nth_value(base, k + 1),
    decreases k,
{
    if k > 0 {
        lemma_nth_value_shift(base, (k - 1) as nat);
        assert(nth_value(next_value(base), k) == next_value(nth_value(next_value(base), (k - 1) as nat)));
        assert(nth_value(base, k + 1) == next_value(nth_value(base, k)));
    } else {
        assert(nth_value(base, 1) == next_value(nth_value(base, 0)));
    }
}

/// A name without `#` escapes is its own bytes.
pub proof fn law_name_without_escapes(n: Seq<u8>)
    requires
        forall|i: int| 0 <= i < n.len() ==> n[i] != 35,
    ensures
        unescape_name(n) == n,
    decreases n.len(),
{
    if n.len() > 0 {
        let rest = n.subrange(1, n.len() as int);
        assert forall|i: int| 0 <= i < rest.len() implies rest[i] != 35 by {
            assert(rest[i] == n[i + 1]);
        }
        law_name_without_escapes(rest);
        assert(n =~= seq![n[0]] + rest);
    }
}

/// Codes of at most four bytes read exactly: no byte is shifted out.
pub proof fn law_short_codes_exact(b: Seq<u8>)
    requires
        b.len() <= 4,
    ensures
        be_value(b) < 0x1_0000_0000,
        be_value(b) % 0x1_0000_0000 == be_value(b),
{
    lemma_be_value_bound(b);
}

proof fn lemma_be_value_bound(b: Seq<u8>)
    ensures
        b.len() == 0 ==> be_value(b) == 0,
        b.len() == 1 ==> be_value(b) < 0x100,
        b.len() == 2 ==> be_value(b) < 0x1_0000,
        b.len() == 3 ==> be_value(b) < 0x100_0000,
        b.len() == 4 ==> be_value(b) < 0x1_0000_0000,
    decreases b.len(),
{
    if b.len() > 0 {
        lemma_be_value_bound(b.drop_last());
    }
}

/// A non-empty word of letters, `*`, `'` and `"`.
pub open spec fn is_op_word(w: Seq<u8>) -> bool {
    w.len() > 0 && forall|j: int| 0 <= j < w.len() ==> is_op_char(#[trigger] w[j])
}

/// Every operator a content stream yields is a non-empty word of letters,
/// `*`, `'` and `"`.
pub proof fn law_operator_words(d: Seq<u8>, p: int, operands: Seq<Obj>)
    requires
        0 <= p,
    ensures
        forall|i: int|
            0 <= i < content_ops(d, p, operands).len() ==> is_op_word(
                (#[trigger] content_ops(d, p, operands)[i]).0,
            ),
    decreases d.len() - p,
{
    let q = skip_ws_c(d, p);
    if !(q < p || q >= d.len()) {
        let b = d[q];
        if b == 47 || b == 40 || b == 60 || b == 91 || crate::cmap_lexer::is_digit(b) || b == 43
            || b == 45 || (b == 46 && q + 1 < d.len() && crate::cmap_lexer::is_digit(d[q + 1])) {
            let (o, e) = object_scan(d, q);
            if !(e <= q || e > d.len()) {
                law_operator_words(d, e, operands.push(o));
                assert(content_ops(d, p, operands) == content_ops(d, e, operands.push(o)));
            }
        } else if crate::content_parser::is_alpha(b) || b == 39 || b == 34 || b == 42 {
            let e = word_end_c(d, q + 1);
            let word = d.subrange(q, e);
            if !(e <= q || e > d.len()) {
                if word == seq![116u8, 114, 117, 101] {
                    law_operator_words(d, e, operands.push(Obj::Boolean(true)));
                    assert(content_ops(d, p, operands) == content_ops(d, e, operands.push(Obj::Boolean(true))));
                } else if word == seq![102u8, 97, 108, 115, 101] {
                    law_operator_words(d, e, operands.push(Obj::Boolean(false)));
                    assert(content_ops(d, p, operands) == content_ops(d, e, operands.push(Obj::Boolean(false))));
                } else if word == seq![110u8, 117, 108, 108] {
                    law_operator_words(d, e, operands.push(Obj::Null));
                    assert(content_ops(d, p, operands) == content_ops(d, e, operands.push(Obj::Null)));
                } else if word == seq![66u8, 73] {
                    let ie = crate::content_parser::inline_image_end(d, e);
                    if !(ie <= q || ie > d.len()) {
                        law_operator_words(d, ie, Seq::empty());
                        assert(content_ops(d, p, operands) == content_ops(d, ie, Seq::<Obj>::empty()));
                    }
                } else {
                    law_operator_words(d, e, Seq::empty());
                    lemma_word_chars(d, q + 1);
                    let rest = content_ops(d, e, Seq::empty());
                    let all = content_ops(d, p, operands);
                    assert(all == seq![(word, operands)] + rest);
                    assert forall|j: int| 0 <= j < word.len() implies is_op_char(#[trigger] word[j]) by {
                        assert(word[j] == d[q + j]);
                    }
                    assert(is_op_word(word));
                    assert forall|i: int| 0 <= i < all.len() implies is_op_word(
                        (#[trigger] all[i]).0,
                    ) by {
                        if i > 0 {
                            assert(all[i] == rest[i - 1]);
                        }
                    }
                }
            }
        } else {
            law_operator_words(d, q + 1, operands);
            assert(content_ops(d, p, operands) == content_ops(d, q + 1, operands));
        }
    }
}

proof fn lemma_word_chars(d: Seq<u8>, p: int)
    requires
        0 <= p,
    ensures
        p <= word_end_c(d, p),
        forall|j: int| p <= j < word_end_c(d, p) ==> is_op_char(d[j]),
    decreases d.len() - p,
{
    if 0 <= p < d.len() && is_op_char(d[p]) {
        lemma_word_chars(d, p + 1);
    }
}

/// Removing soft hyphens leaves none, and removing them again changes
/// nothing.
pub proof fn law_soft_hyphens_removed(s: Seq<char>)
    ensures
        forall|i: int| 0 <= i < without_soft_hyphens(s).len() ==> without_soft_hyphens(s)[i]
            != '\u{ad}',
        without_soft_hyphens(without_soft_hyphens(s)) == without_soft_hyphens(s),
    decreases s.len(),
{
    if s.len() > 0 {
        law_soft_hyphens_removed(s.drop_last());
        let r = without_soft_hyphens(s.drop_last());
        if s.last() != '\u{ad}' {
            assert(r.push(s.last()).drop_last() =~= r);
        }
    }
}

/// Decomposing ligatures leaves no ligature, so decomposing again changes
/// nothing.
pub proof fn law_ligatures_decomposed_once(s: Seq<char>)
    ensures
        decompose_ligatures_spec(decompose_ligatures_spec(s)) == decompose_ligatures_spec(s),
    decreases s.len(),
{
    if s.len() > 0 {
        law_ligatures_decomposed_once(s.drop_last());
        let a = decompose_ligatures_spec(s.drop_last());
        let e = ligature_expansion(s.last());
        lemma_decompose_concat(a, e);
        lemma_expansion_fixed(s.last());
    }
}

proof fn lemma_expansion_fixed(c: char)
    ensures
        decompose_ligatures_spec(ligature_expansion(c)) == ligature_expansion(c),
{
    let e = ligature_expansion(c);
    reveal_with_fuel(decompose_ligatures_spec, 4);
    if e.len() == 1 {
        assert(e.drop_last() =~= Seq::<char>::empty());
    } else if e.len() == 2 {
        assert(e.drop_last() =~= seq![e[0]]);
        assert(seq![e[0]].drop_last() =~= Seq::<char>::empty());
    } else {
        assert(e.drop_last() =~= seq![e[0], e[1]]);
        assert(seq![e[0], e[1]].drop_last() =~= seq![e[0]]);
        assert(seq![e[0]].drop_last() =~= Seq::<char>::empty());
    }
}

proof fn lemma_decompose_concat(a: Seq<char>, b: Seq<char>)
    ensures
        decompose_ligatures_spec(a + b) == decompose_ligatures_spec(a) + decompose_ligatures_spec(
            b,
        ),
    decreases b.len(),
{
    if b.len() == 0 {
        assert(a + b =~= a);
    } else {
        assert((a + b).drop_last() =~= a + b.drop_last());
        lemma_decompose_concat(a, b.drop_last());
        assert(decompose_ligatures_spec(a) + (decompose_ligatures_spec(b.drop_last())
            + ligature_expansion(b.last())) =~= (decompose_ligatures_spec(a)
            + decompose_ligatures_spec(b.drop_last())) + ligature_expansion(b.last()));
    }
}

/// A glyph list gives a listed name its own text (`.notdef` excepted).
pub proof fn law_glyph_list_reads_back(names: Map<Seq<char>, Seq<char>>, name: Seq<char>)
    requires
        names.contains_key(name),
        name.len() > 0,
        name != notdef(),
    ensures
        glyph_unicode(names, name) == Some(names[name]),
{
}

/// Loading glyph list lines never replaces an entry already present.
pub proof fn law_glyph_list_load_keeps_entries(
    names: Map<Seq<char>, Seq<char>>,
    glyphs: Map<Seq<char>, Seq<char>>,
    data: Seq<char>,
    i: int,
    k: Seq<char>,
)
    requires
        names.contains_key(k),
    ensures
        load_from(names, glyphs, data, i).0.contains_key(k),
        load_from(names, glyphs, data, i).0[k] == names[k],
    decreases data.len() - i,
{
    if !(i < 0 || i >= data.len()) {
        let j = crate::glyph_list::index_of_from(data, '\n', i);
        crate::glyph_list::lemma_index_of_from(data, '\n', i);
        let e = if j < 0 {
            data.len() as int
        } else {
            j
        };
        match crate::glyph_list::line_entry(data.subrange(i, e)) {
            Some((name, u)) => {
                let n2 = insert_absent(names, name, u);
                let g2 = insert_absent(glyphs, u, name);
                if j >= 0 {
                    law_glyph_list_load_keeps_entries(n2, g2, data, j + 1, k);
                }
            },
            None => {
                if j >= 0 {
                    law_glyph_list_load_keeps_entries(names, glyphs, data, j + 1, k);
                }
            },
        }
    }
}

/// Joining page texts skips empty pages: a document of empty pages has an
/// empty text, and each non-empty page's text appears at the end when it
/// is the last page.
pub proof fn law_join_skips_empty_pages(pages: Seq<Seq<char>>, sep: Seq<char>)
    ensures
        (forall|i: int| 0 <= i < pages.len() ==> (#[trigger] pages[i]).len() == 0) ==> join_texts(
            pages,
            sep,
        ).len() == 0,
        pages.len() > 0 && pages.last().len() > 0 ==> join_texts(pages, sep).subrange(
            join_texts(pages, sep).len() - pages.last().len(),
            join_texts(pages, sep).len() as int,
        ) == pages.last(),
    decreases pages.len(),
{
    if pages.len() > 0 {
        law_join_skips_empty_pages(pages.drop_last(), sep);
        if forall|i: int| 0 <= i < pages.len() ==> (#[trigger] pages[i]).len() == 0 {
            assert forall|i: int| 0 <= i < pages.drop_last().len() implies (#[trigger] pages.drop_last()[i]).len()
                == 0 by {
                assert(pages.drop_last()[i] == pages[i]);
            }
        }
        let prev = join_texts(pages.drop_last(), sep);
        if pages.last().len() > 0 && prev.len() > 0 {
            let j = prev + sep + pages.last();
            assert(j.subrange(j.len() - pages.last().len(), j.len() as int) =~= pages.last());
        }
        if pages.last().len() > 0 && prev.len() == 0 {
            assert(pages.last().subrange(0, pages.last().len() as int) =~= pages.last());
        }
    }
}

/// Content without NUL bytes and without a `B` followed by `I` passes
/// through cleaning unchanged, whatever string nesting it starts in.
pub proof fn law_clean_content_unchanged(d: Seq<u8>, i: int, depth: nat)
    requires
        0 <= i <= d.len(),
        forall|k: int| 0 <= k < d.len() ==> d[k] != 0,
        forall|k: int| 0 <= k < d.len() - 1 ==> !(#[trigger] d[k] == 66 && d[k + 1] == 73),
    ensures
        strip_from(d, i, depth) == d.subrange(i, d.len() as int),
    decreases d.len() - i,
{
    if i < d.len() {
        let b = d[i];
        if depth > 0 {
            if b == 92 {
                if i + 1 < d.len() {
                    law_clean_content_unchanged(d, i + 2, depth);
                    assert(d.subrange(i, d.len() as int) =~= seq![b, d[i + 1]] + d.subrange(
                        i + 2,
                        d.len() as int,
                    ));
                } else {
                    assert(d.subrange(i, d.len() as int) =~= seq![b]);
                }
            } else if b == 40 {
                law_clean_content_unchanged(d, i + 1, depth + 1);
                assert(d.subrange(i, d.len() as int) =~= seq![b] + d.subrange(i + 1, d.len() as int));
            } else if b == 41 {
                law_clean_content_unchanged(d, i + 1, (depth - 1) as nat);
                assert(d.subrange(i, d.len() as int) =~= seq![b] + d.subrange(i + 1, d.len() as int));
            } else {
                law_clean_content_unchanged(d, i + 1, depth);
                assert(d.subrange(i, d.len() as int) =~= seq![b] + d.subrange(i + 1, d.len() as int));
            }
        } else if b == 40 {
            law_clean_content_unchanged(d, i + 1, 1);
            assert(d.subrange(i, d.len() as int) =~= seq![b] + d.subrange(i + 1, d.len() as int));
        } else {
            assert(!(b == 66 && i + 2 < d.len() && d[i + 1] == 73));
            law_clean_content_unchanged(d, i + 1, 0);
            assert(d.subrange(i, d.len() as int) =~= seq![b] + d.subrange(i + 1, d.len() as int));
        }
    } else {
        assert(d.subrange(i, d.len() as int) =~= Seq::<u8>::empty());
    }
}

/// The chunks that content is split into lie in order within the data from
/// `s` on, each non-empty and starting with a byte other than NUL.
pub proof fn law_chunks_ordered(d: Seq<u8>, s: int)
    requires
        0 <= s,
    ensures
        forall|k: int|
            0 <= k < chunks_from(d, s).len() ==> s <= (#[trigger] chunks_from(d, s)[k]).0
                < chunks_from(d, s)[k].1 <= d.len() && d[chunks_from(d, s)[k].0] != 0,
        forall|k: int|
            0 <= k < chunks_from(d, s).len() - 1 ==> (#[trigger] chunks_from(d, s)[k]).1
                <= chunks_from(d, s)[k + 1].0,
    decreases d.len() - s,
{
    if s < d.len() {
        if d[s] == 0 {
            law_chunks_ordered(d, s + 1);
            assert(chunks_from(d, s) == chunks_from(d, s + 1));
        } else {
            let e = chunk_end(d, s + 1);
            if !(e <= s || e > d.len()) {
                law_chunks_ordered(d, e);
                let rest = chunks_from(d, e);
                let all = chunks_from(d, s);
                assert(all == seq![(s, e)] + rest);
                assert forall|k: int| 0 <= k < all.len() implies s <= (#[trigger] all[k]).0
                    < all[k].1 <= d.len() && d[all[k].0] != 0 by {
                    if k > 0 {
                        assert(all[k] == rest[k - 1]);
                    }
                }
                assert forall|k: int| 0 <= k < all.len() - 1 implies (#[trigger] all[k]).1
                    <= all[k + 1].0 by {
                    assert(all[k + 1] == rest[k]);
                    if k > 0 {
                        assert(all[k] == rest[k - 1]);
                    }
                }
            }
        }
    }
}

/// A composite font whose encoding CMap maps no code reads every code as
/// its own CID.
pub proof fn law_unmapped_code_is_its_cid(enc: CMap, code: u32)
    requires
        forall|len: int| 1 <= len <= 4 ==> (#[trigger] enc.cid_map(len)).dom() == Set::<u32>::empty(),
        forall|len: int| 1 <= len <= 4 ==> (#[trigger] enc.cid_range_seq(len)).len() == 0,
    ensures
        cid_of(enc, code) == code,
{
    assert(!enc.cid_map(1).contains_key(code));
    assert(!enc.cid_map(2).contains_key(code));
    assert(!enc.cid_map(3).contains_key(code));
    assert(!enc.cid_map(4).contains_key(code));
    assert(enc.cid_range_seq(1).len() == 0);
    assert(enc.cid_range_seq(2).len() == 0);
    assert(enc.cid_range_seq(3).len() == 0);
    assert(enc.cid_range_seq(4).len() == 0);
}

/// A composite font reads a code through a two-byte mapping of its
/// encoding CMap before any other: where the code has a CID among two-byte
/// codes (given directly or by a range), that is its CID. A code is its own
/// CID only where no code length from one to four maps it.
pub proof fn law_two_byte_cid_first(enc: CMap, code: u32)
    ensures
        enc.cid_map(2).contains_key(code) ==> cid_of(enc, code) == enc.cid_map(2)[code],
        enc.lookup_cid(code, 2) matches Some(n) ==> cid_of(enc, code) == n,
        enc.lookup_cid(code, 2) is None ==> (enc.lookup_cid(code, 1) matches Some(n) ==> cid_of(
            enc,
            code,
        ) == n),
        enc.lookup_cid(code, 2) is None && enc.lookup_cid(code, 1) is None ==> (enc.lookup_cid(
            code,
            3,
        ) matches Some(n) ==> cid_of(enc, code) == n),
        enc.lookup_cid(code, 2) is None && enc.lookup_cid(code, 1) is None && enc.lookup_cid(
            code,
            3,
        ) is None ==> (enc.lookup_cid(code, 4) matches Some(n) ==> cid_of(enc, code) == n),
        (forall|len: int| 1 <= len <= 4 ==> #[trigger] enc.lookup_cid(code, len) is None) ==> cid_of(
            enc,
            code,
        ) == code,
        cid_of(enc, code) != code ==> exists|len: int|
            1 <= len <= 4 && #[trigger] enc.lookup_cid(code, len) == Some(cid_of(enc, code)),
{
    if cid_of(enc, code) != code {
        if enc.lookup_cid(code, 2) is Some {
            assert(enc.lookup_cid(code, 2) == Some(cid_of(enc, code)));
        } else if enc.lookup_cid(code, 1) is Some {
            assert(enc.lookup_cid(code, 1) == Some(cid_of(enc, code)));
        } else if enc.lookup_cid(code, 3) is Some {
            assert(enc.lookup_cid(code, 3) == Some(cid_of(enc, code)));
        } else {
            assert(enc.lookup_cid(code, 4) == Some(cid_of(enc, code)));
        }
    }
    if forall|len: int| 1 <= len <= 4 ==> #[trigger] enc.lookup_cid(code, len) is None {
        assert(enc.lookup_cid(code, 1) is None);
        assert(enc.lookup_cid(code, 2) is None);
        assert(enc.lookup_cid(code, 3) is None);
        assert(enc.lookup_cid(code, 4) is None);
    }
}

/// In a literal string of a content stream the escapes `\n`, `\r`, `\t`,
/// `\b`, `\f` stand for the bytes 10, 13, 9, 8, 12, and `\(`, `\)`,
/// `\\` for the parenthesis or backslash itself; the rest of the string
/// is read on after the two escape bytes.
pub proof fn law_content_string_escapes(d: Seq<u8>, q: int, depth: nat)
    requires
        0 <= q,
        q + 1 < d.len(),
        d[q] == 92,
        depth > 0,
    ensures
        ({
            let rest = lit_scan_c(d, q + 2, depth);
            &&& d[q + 1] == 110 ==> lit_scan_c(d, q, depth) == (seq![10u8] + rest.0, rest.1)
            &&& d[q + 1] == 114 ==> lit_scan_c(d, q, depth) == (seq![13u8] + rest.0, rest.1)
            &&& d[q + 1] == 116 ==> lit_scan_c(d, q, depth) == (seq![9u8] + rest.0, rest.1)
            &&& d[q + 1] == 98 ==> lit_scan_c(d, q, depth) == (seq![8u8] + rest.0, rest.1)
            &&& d[q + 1] == 102 ==> lit_scan_c(d, q, depth) == (seq![12u8] + rest.0, rest.1)
            &&& d[q + 1] == 40 ==> lit_scan_c(d, q, depth) == (seq![40u8] + rest.0, rest.1)
            &&& d[q + 1] == 41 ==> lit_scan_c(d, q, depth) == (seq![41u8] + rest.0, rest.1)
            &&& d[q + 1] == 92 ==> lit_scan_c(d, q, depth) == (seq![92u8] + rest.0, rest.1)
            &&& !(48 <= d[q + 1] <= 55) && d[q + 1] != 10 && d[q + 1] != 13 && d[q + 1] != 110
                && d[q + 1] != 114 && d[q + 1] != 116 && d[q + 1] != 98 && d[q + 1] != 102
                ==> lit_scan_c(d, q, depth) == (seq![d[q + 1]] + rest.0, rest.1)
        }),
{
}

/// In a literal string of a content stream an escape of three octal digits
/// stands for the byte of that value (modulo 256), a backslash before an
/// end of line (LF, CR or CR LF) is dropped with it, and an unescaped CR or
/// CR LF is read as one LF.
pub proof fn law_content_string_octal_and_lines(d: Seq<u8>, q: int, depth: nat)
    requires
        0 <= q,
        depth > 0,
    ensures
        q + 3 < d.len() && d[q] == 92 && 48 <= d[q + 1] <= 55 && 48 <= d[q + 2] <= 55 && 48
            <= d[q + 3] <= 55 ==> lit_scan_c(d, q, depth) == (seq![
            (((d[q + 1] - 48) * 64 + (d[q + 2] - 48) * 8 + (d[q + 3] - 48)) % 256) as u8,
        ] + lit_scan_c(d, q + 4, depth).0, lit_scan_c(d, q + 4, depth).1),
        q + 1 < d.len() && d[q] == 92 && d[q + 1] == 10 ==> lit_scan_c(d, q, depth) == lit_scan_c(
            d,
            q + 2,
            depth,
        ),
        q + 2 < d.len() && d[q] == 92 && d[q + 1] == 13 && d[q + 2] == 10 ==> lit_scan_c(d, q, depth)
            == lit_scan_c(d, q + 3, depth),
        q + 1 < d.len() && d[q] == 13 && d[q + 1] == 10 ==> lit_scan_c(d, q, depth) == (seq![10u8]
            + lit_scan_c(d, q + 2, depth).0, lit_scan_c(d, q + 2, depth).1),
        q + 1 < d.len() && d[q] == 13 && d[q + 1] != 10 ==> lit_scan_c(d, q, depth) == (seq![10u8]
            + lit_scan_c(d, q + 1, depth).0, lit_scan_c(d, q + 1, depth).1),
{
}

/// In a literal string of a CMap the escapes `\n`, `\r`, `\t` stand for
/// the bytes 10, 13, 9, and `\(`, `\)`, `\\` for the parenthesis or
/// backslash itself; the rest of the string is read on after the two
/// escape bytes.
pub proof fn law_cmap_string_escapes(d: Seq<u8>, q: int, depth: nat)
    requires
        0 <= q,
        q + 1 < d.len(),
        d[q] == 92,
        depth > 0,
    ensures
        ({
            let rest = lit_scan(d, q + 2, depth);
            &&& d[q + 1] == 110 ==> lit_scan(d, q, depth) == (seq![10u8] + rest.0, rest.1)
            &&& d[q + 1] == 114 ==> lit_scan(d, q, depth) == (seq![13u8] + rest.0, rest.1)
            &&& d[q + 1] == 116 ==> lit_scan(d, q, depth) == (seq![9u8] + rest.0, rest.1)
            &&& d[q + 1] == 40 ==> lit_scan(d, q, depth) == (seq![40u8] + rest.0, rest.1)
            &&& d[q + 1] == 41 ==> lit_scan(d, q, depth) == (seq![41u8] + rest.0, rest.1)
            &&& d[q + 1] == 92 ==> lit_scan(d, q, depth) == (seq![92u8] + rest.0, rest.1)
            &&& !(48 <= d[q + 1] <= 55) && d[q + 1] != 110 && d[q + 1] != 114 && d[q + 1] != 116
                ==> lit_scan(d, q, depth) == (seq![d[q + 1]] + rest.0, rest.1)
        }),
{
}

/// In a literal string of a CMap an escape of three octal digits stands
/// for the byte of that value (modulo 256).
pub proof fn law_cmap_string_octal(d: Seq<u8>, q: int, depth: nat)
    requires
        0 <= q,
        q + 3 < d.len(),
        d[q] == 92,
        48 <= d[q + 1] <= 55,
        48 <= d[q + 2] <= 55,
        48 <= d[q + 3] <= 55,
        depth > 0,
    ensures
        lit_scan(d, q, depth) == (seq![
            (((d[q + 1] - 48) * 64 + (d[q + 2] - 48) * 8 + (d[q + 3] - 48)) % 256) as u8,
        ] + lit_scan(d, q + 4, depth).0, lit_scan(d, q + 4, depth).1),
{
    reveal_with_fuel(octal_tail, 3);
}

/// Parentheses nest in the literal strings of content streams and of
/// CMaps: an opening one is kept and deepens the nesting, a closing one is
/// kept while it closes an inner pair and ends the string otherwise.
pub proof fn law_string_parentheses_nest(d: Seq<u8>, q: int, depth: nat)
    requires
        0 <= q < d.len(),
        depth > 0,
    ensures
        d[q] == 40 ==> lit_scan_c(d, q, depth) == (seq![40u8] + lit_scan_c(d, q + 1, depth + 1).0,
        lit_scan_c(d, q + 1, depth + 1).1),
        d[q] == 41 && depth > 1 ==> lit_scan_c(d, q, depth) == (seq![41u8] + lit_scan_c(
            d,
            q + 1,
            (depth - 1) as nat,
        ).0, lit_scan_c(d, q + 1, (depth - 1) as nat).1),
        d[q] == 41 && depth == 1 ==> lit_scan_c(d, q, depth) == (Seq::<u8>::empty(), q + 1),
        d[q] == 40 ==> lit_scan(d, q, depth) == (seq![40u8] + lit_scan(d, q + 1, depth + 1).0,
        lit_scan(d, q + 1, depth + 1).1),
        d[q] == 41 && depth > 1 ==> lit_scan(d, q, depth) == (seq![41u8] + lit_scan(
            d,
            q + 1,
            (depth - 1) as nat,
        ).0, lit_scan(d, q + 1, (depth - 1) as nat).1),
        d[q] == 41 && depth == 1 ==> lit_scan(d, q, depth) == (Seq::<u8>::empty(), q + 1),
{
    if d[q] == 41 && depth == 1 {
        assert(lit_scan_c(d, q + 1, 0) == (Seq::<u8>::empty(), q + 1));
        assert(lit_scan(d, q + 1, 0) == (Seq::<u8>::empty(), q + 1));
    }
}

/// Every code point of the Combining Diacritical Marks block (U+0300 to
/// U+036F) is a combining mark, and no code point below that block is.
pub proof fn law_diacritical_block_combining(c: char)
    ensures
        0x0300 <= c as int <= 0x036F ==> combining_code(c as int),
        (c as int) < 0x0300 ==> !combining_code(c as int),
        0x1AB0 <= c as int <= 0x1AFF ==> combining_code(c as int),
        0x1DC0 <= c as int <= 0x1DFF ==> combining_code(c as int),
        0x20D0 <= c as int <= 0x20FF ==> combining_code(c as int),
        0xFE20 <= c as int <= 0xFE2F ==> combining_code(c as int),
        !(0x0300 <= c as int <= 0x036F) && !(0x1AB0 <= c as int <= 0x1AFF) && !(0x1DC0 <= c as int
            <= 0x1DFF) && !(0x20D0 <= c as int <= 0x20FF) && !(0xFE20 <= c as int <= 0xFE2F)
            ==> !combining_code(c as int),
{
}

/// A non-empty text made only of code points of the Combining Diacritical
/// Marks block is a combining mark.
pub proof fn law_diacritical_text_is_mark(s: Seq<char>)
    requires
        s.len() > 0,
        forall|k: int| 0 <= k < s.len() ==> 0x0300 <= #[trigger] s[k] as int <= 0x036F,
    ensures
        combining_mark_spec(s),
{
    assert forall|k: int| 0 <= k < s.len() implies combining_code(#[trigger] s[k] as int) by {
        assert(0x0300 <= s[k] as int <= 0x036F);
    }
}

/// A glyph text made of Combining Diacritical Marks that follows a
/// non-empty text which is no mark itself is merged into it: the merge
/// reports a change, the preceding entry becomes the NFC composition of the
/// two texts, and the mark's own entry is left empty.
pub proof fn law_diacritic_merges_into_base(v: Seq<Seq<char>>, j: int)
    requires
        1 <= j < v.len(),
        v[j - 1].len() > 0,
        !combining_mark_spec(v[j - 1]),
        v[j].len() > 0,
        forall|k: int| 0 <= k < v[j].len() ==> 0x0300 <= #[trigger] v[j][k] as int <= 0x036F,
    ensures
        merged_any(v, v.len() as int),
        merge_pass(v, v.len() as int)[j - 1] == nfc_chars(v[j - 1] + v[j]),
        merge_pass(v, v.len() as int)[j] == Seq::<char>::empty(),
{
    law_diacritical_text_is_mark(v[j]);
    lemma_merge_pass_before(v, j, j);
    lemma_merge_pass_after(v, j, v.len() as int);
}

proof fn lemma_merge_pass_before(v: Seq<Seq<char>>, j: int, i: int)
    requires
        1 <= j < v.len(),
        i <= j,
        !combining_mark_spec(v[j - 1]),
    ensures
        merge_pass(v, i).len() == v.len(),
        merge_pass(v, i)[j - 1] == v[j - 1],
        merge_pass(v, i)[j] == v[j],
    decreases i,
{
    if i > 1 {
        lemma_merge_pass_before(v, j, i - 1);
    }
}

proof fn lemma_merge_pass_after(v: Seq<Seq<char>>, j: int, i: int)
    requires
        1 <= j < v.len(),
        j < i <= v.len(),
        merge_pass(v, j).len() == v.len(),
        merge_pass(v, j)[j - 1] == v[j - 1],
        merge_pass(v, j)[j] == v[j],
        combining_mark_spec(v[j]),
        v[j - 1].len() > 0,
    ensures
        merge_pass(v, i).len() == v.len(),
        merged_any(v, i),
        merge_pass(v, i)[j - 1] == nfc_chars(v[j - 1] + v[j]),
        merge_pass(v, i)[j] == Seq::<char>::empty(),
    decreases i,
{
    if i > j + 1 {
        lemma_merge_pass_after(v, j, i - 1);
    }
}

/// Without a byte-order mark a text string is read byte for byte, and every
/// byte outside 0x18 to 0x1F, 0x7F to 0xA0 and 0xAD stands for the
/// character with the same number (PDFDocEncoding agrees with Latin-1
/// there).
pub proof fn law_text_string_latin1(b: Seq<u8>)
    requires
        !(b.len() >= 2 && b[0] == 0xFE && b[1] == 0xFF),
        !(b.len() >= 3 && b[0] == 0xEF && b[1] == 0xBB && b[2] == 0xBF),
    ensures
        text_string_chars(b).len() == b.len(),
        forall|k: int|
            0 <= k < b.len() && !(0x18 <= b[k] <= 0x1F) && !(0x7F <= b[k] <= 0xA0) && b[k] != 0xAD
                ==> #[trigger] text_string_chars(b)[k] as int == b[k] as int,
{
    assert forall|k: int|
        0 <= k < b.len() && !(0x18 <= b[k] <= 0x1F) && !(0x7F <= b[k] <= 0xA0) && b[k]
            != 0xAD implies #[trigger] text_string_chars(b)[k] as int == b[k] as int by {
        law_pdf_doc_latin1(b[k]);
    }
}

/// A byte outside 0x18 to 0x1F, 0x7F to 0xA0 and 0xAD is, in
/// PDFDocEncoding, the character with the same number.
pub proof fn law_pdf_doc_latin1(b: u8)
    requires
        !(0x18 <= b <= 0x1F),
        !(0x7F <= b <= 0xA0),
        b != 0xAD,
    ensures
        pdf_doc_char(b) as int == b as int,
{
}

/// The bytes where PDFDocEncoding departs from Latin-1: spacing accents at
/// 0x18 to 0x1F, punctuation and letters at 0x80 to 0x9E, the euro sign at
/// 0xA0, and U+FFFD at the undefined 0x7F, 0x9F and 0xAD.
pub proof fn law_pdf_doc_special_bytes()
    ensures
        pdf_doc_char(0x18) == '\u{02D8}',
        pdf_doc_char(0x19) == '\u{02C7}',
        pdf_doc_char(0x1A) == '\u{02C6}',
        pdf_doc_char(0x1B) == '\u{02D9}',
        pdf_doc_char(0x1C) == '\u{02DD}',
        pdf_doc_char(0x1D) == '\u{02DB}',
        pdf_doc_char(0x1E) == '\u{02DA}',
        pdf_doc_char(0x1F) == '\u{02DC}',
        pdf_doc_char(0x7F) == '\u{FFFD}',
        pdf_doc_char(0x80) == '\u{2022}',
        pdf_doc_char(0x81) == '\u{2020}',
        pdf_doc_char(0x82) == '\u{2021}',
        pdf_doc_char(0x83) == '\u{2026}',
        pdf_doc_char(0x84) == '\u{2014}',
        pdf_doc_char(0x85) == '\u{2013}',
        pdf_doc_char(0x86) == '\u{0192}',
        pdf_doc_char(0x87) == '\u{2044}',
        pdf_doc_char(0x88) == '\u{2039}',
        pdf_doc_char(0x89) == '\u{203A}',
        pdf_doc_char(0x8A) == '\u{2212}',
        pdf_doc_char(0x8B) == '\u{2030}',
        pdf_doc_char(0x8C) == '\u{201E}',
        pdf_doc_char(0x8D) == '\u{201C}',
        pdf_doc_char(0x8E) == '\u{201D}',
        pdf_doc_char(0x8F) == '\u{2018}',
        pdf_doc_char(0x90) == '\u{2019}',
        pdf_doc_char(0x91) == '\u{201A}',
        pdf_doc_char(0x92) == '\u{2122}',
        pdf_doc_char(0x93) == '\u{FB01}',
        pdf_doc_char(0x94) == '\u{FB02}',
        pdf_doc_char(0x95) == '\u{0141}',
        pdf_doc_char(0x96) == '\u{0152}',
        pdf_doc_char(0x97) == '\u{0160}',
        pdf_doc_char(0x98) == '\u{0178}',
        pdf_doc_char(0x99) == '\u{017D}',
        pdf_doc_char(0x9A) == '\u{0131}',
        pdf_doc_char(0x9B) == '\u{0142}',
        pdf_doc_char(0x9C) == '\u{0153}',
        pdf_doc_char(0x9D) == '\u{0161}',
        pdf_doc_char(0x9E) == '\u{017E}',
        pdf_doc_char(0x9F) == '\u{FFFD}',
        pdf_doc_char(0xA0) == '\u{20AC}',
        pdf_doc_char(0xAD) == '\u{FFFD}',
{
}

} // verus!
