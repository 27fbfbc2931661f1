//! Unicode normalization of extracted text: ligature decomposition, NFC,
//! and merging of combining diacritical marks with their base characters.

use vstd::prelude::*;
use crate::text_std::string_push;
use unicode_normalization::UnicodeNormalization;
use vstd::std_specs::iter::IteratorSpec;

verus! {

/// What `unicode_normalization`'s NFC composition yields for the given text.
pub uninterp spec fn nfc_chars(s: Seq<char>) -> Seq<char>;

/// NFC composition through `unicode_normalization::UnicodeNormalization::nfc`.
#[verifier::external_body]
fn nfc(s: &str) -> (r: String)
    ensures
        r@ == nfc_chars(s@),
{
    s.nfc().collect::<String>()
}

/// The characters a ligature code point stands for (itself for any other character).
pub open spec fn ligature_expansion(c: char) -> Seq<char> {
    if c == '\u{FB00}' {
        seq!['f', 'f']
    } else if c == '\u{FB01}' {
        seq!['f', 'i']
    } else if c == '\u{FB02}' {
        seq!['f', 'l']
    } else if c == '\u{FB03}' {
        seq!['f', 'f', 'i']
    } else if c == '\u{FB04}' {
        seq!['f', 'f', 'l']
    } else if c == '\u{FB05}' || c == '\u{FB06}' {
        seq!['s', 't']
    } else {
        seq![c]
    }
}

/// Text with every ligature replaced by its letters.
pub open spec fn decompose_ligatures_spec(s: Seq<char>) -> Seq<char>
    decreases s.len(),
{
    if s.len() == 0 {
        Seq::empty()
    } else {
        decompose_ligatures_spec(s.drop_last()) + ligature_expansion(s.last())
    }
}

/// The normalized form of extracted text.
pub open spec fn normalize_spec(s: Seq<char>) -> Seq<char> {
    nfc_chars(decompose_ligatures_spec(s))
}

/// Normalizes extracted text: ligatures are decomposed, then NFC is applied.
pub fn normalize_text(text: &str) -> (r: String)
    ensures
        r@ == normalize_spec(text@),
{
    let decomposed = decompose_ligatures(text);
    nfc(decomposed.as_str())
}

fn push_expansion(out: &mut String, ch: char)
    ensures
        final(out)@ == old(out)@ + ligature_expansion(ch),
{
    if ch == '\u{FB00}' {
        string_push(out, 'f');
        string_push(out, 'f');
    } else if ch == '\u{FB01}' {
        string_push(out, 'f');
        string_push(out, 'i');
    } else if ch == '\u{FB02}' {
        string_push(out, 'f');
        string_push(out, 'l');
    } else if ch == '\u{FB03}' {
        string_push(out, 'f');
        string_push(out, 'f');
        string_push(out, 'i');
    } else if ch == '\u{FB04}' {
        string_push(out, 'f');
        string_push(out, 'f');
        string_push(out, 'l');
    } else if ch == '\u{FB05}' || ch == '\u{FB06}' {
        string_push(out, 's');
        string_push(out, 't');
    } else {
        string_push(out, ch);
    }
    assert(final(out)@ =~= old(out)@ + ligature_expansion(ch));
}

/// Replaces the common Latin ligature code points by their letters.
fn decompose_ligatures(text: &str) -> (r: String)
    ensures
        r@ == decompose_ligatures_spec(text@),
{
    let mut result = String::new();
    let ghost chars = text@;
    let mut it = text.chars();
    let ghost mut k: int = 0;
    loop
        invariant
            chars == text@,
            0 <= k <= chars.len(),
            it.obeys_prophetic_iter_laws(),
            it.remaining() == chars.subrange(k, chars.len() as int),
            result@ == decompose_ligatures_spec(chars.subrange(0, k)),
        decreases chars.len() - k,
    {
        let next = it.next();
        match next {
            Some(ch) => {
                assert(chars.subrange(0, k + 1).drop_last() =~= chars.subrange(0, k));
                push_expansion(&mut result, ch);
                proof {
                    k = k + 1;
                }
                assert(it.remaining() =~= chars.subrange(k, chars.len() as int));
            },
            None => {
                assert(chars.subrange(0, k) =~= chars);
                return result;
            },
        }
    }
}

/// Whether a code point lies in one of the blocks of combining marks.
pub open spec fn combining_code(cp: int) -> bool {
    (0x0300 <= cp <= 0x036F) || (0x1AB0 <= cp <= 0x1AFF) || (0x1DC0 <= cp <= 0x1DFF)
        || (0xFE20 <= cp <= 0xFE2F) || (0x20D0 <= cp <= 0x20FF)
}

/// Whether a text is made only of combining marks (and is not empty).
pub open spec fn combining_mark_spec(s: Seq<char>) -> bool {
    s.len() > 0 && forall|k: int| 0 <= k < s.len() ==> combining_code(#[trigger] s[k] as int)
}

/// Whether `ch` is a combining character.
fn is_combining_char(ch: char) -> (r: bool)
    ensures
        r == combining_code(ch as int),
{
    let cp = ch as u32;
    (0x0300 <= cp && cp <= 0x036F) || (0x1AB0 <= cp && cp <= 0x1AFF) || (0x1DC0 <= cp && cp
        <= 0x1DFF) || (0xFE20 <= cp && cp <= 0xFE2F) || (0x20D0 <= cp && cp <= 0x20FF)
}

/// Whether `s` is non-empty and consists only of combining marks.
pub fn is_combining_mark(s: &str) -> (r: bool)
    ensures
        r == combining_mark_spec(s@),
{
    let ghost chars = s@;
    let mut it = s.chars();
    let ghost mut k: int = 0;
    let mut seen = false;
    loop
        invariant
            chars == s@,
            0 <= k <= chars.len(),
            it.obeys_prophetic_iter_laws(),
            it.remaining() == chars.subrange(k, chars.len() as int),
            seen == (k > 0),
            forall|j: int| 0 <= j < k ==> combining_code(#[trigger] chars[j] as int),
        decreases chars.len() - k,
    {
        let next = it.next();
        match next {
            Some(ch) => {
                assert(ch == chars[k]);
                if !is_combining_char(ch) {
                    return false;
                }
                seen = true;
                proof {
                    k = k + 1;
                }
                assert(it.remaining() =~= chars.subrange(k, chars.len() as int));
            },
            None => {
                assert(k == chars.len());
                return seen;
            },
        }
    }
}

/// Whether the pass merges the entry at `j` into the one before it.
pub open spec fn merges_at(w: Seq<Seq<char>>, j: int) -> bool {
    combining_mark_spec(w[j]) && w[j - 1].len() > 0
}

/// The unicode values after the merge pass has looked at indices `1..i`:
/// a combining-mark entry is appended to a non-empty predecessor, the pair
/// is NFC-composed there, and the mark's own entry is emptied.
pub open spec fn merge_pass(v: Seq<Seq<char>>, i: int) -> Seq<Seq<char>>
    decreases i,
{
    if i <= 1 {
        v
    } else {
        let w = merge_pass(v, i - 1);
        let j = i - 1;
        if merges_at(w, j) {
            w.update(j - 1, nfc_chars(w[j - 1] + w[j])).update(j, Seq::empty())
        } else {
            w
        }
    }
}

/// Whether the merge pass over indices `1..i` merged anything.
pub open spec fn merged_any(v: Seq<Seq<char>>, i: int) -> bool
    decreases i,
{
    if i <= 1 {
        false
    } else {
        merged_any(v, i - 1) || merges_at(merge_pass(v, i - 1), i - 1)
    }
}

proof fn lemma_merge_pass_len(v: Seq<Seq<char>>, i: int)
    requires
        i <= v.len(),
    ensures
        merge_pass(v, i).len() == v.len(),
    decreases i,
{
    if i > 1 {
        lemma_merge_pass_len(v, i - 1);
    }
}

/// The views of a vector of strings.
pub open spec fn views(v: Seq<String>) -> Seq<Seq<char>> {
    v.map_values(|s: String| s@)
}

fn merge_pass_exec(values: &mut Vec<String>) -> (merged: bool)
    ensures
        views(final(values)@) == merge_pass(views(old(values)@), old(values)@.len() as int),
        merged == merged_any(views(old(values)@), old(values)@.len() as int),
{
    let ghost orig = views(values@);
    let n = values.len();
    let mut merged = false;
    if n < 2 {
        assert(views(values@) =~= merge_pass(orig, n as int));
        return false;
    }
    let mut i: usize = 1;
    while i < n
        invariant
            n == values@.len(),
            orig.len() == n,
            1 <= i <= n,
            views(values@) == merge_pass(orig, i as int),
            merged == merged_any(orig, i as int),
        decreases n - i,
    {
        proof {
            lemma_merge_pass_len(orig, i as int);
        }
        let ghost w = views(values@);
        let is_mark = is_combining_mark(values[i].as_str());
        if is_mark && !values[i - 1].as_str().is_empty() {
            assert(values@[i - 1 as int]@.len() > 0);
            let mut joined = values[i - 1].clone();
            joined.append(values[i].as_str());
            let composed = nfc(joined.as_str());
            values.set(i - 1, composed);
            values.set(i, String::new());
            merged = true;
            assert(views(values@) =~= w.update(i - 1, nfc_chars(w[i - 1] + w[i as int])).update(
                i as int,
                Seq::empty(),
            ));
        } else {
            assert(!merges_at(w, i as int)) by {
                if values@[i - 1 as int]@.len() == 0 {
                    assert(w[i - 1].len() == 0);
                }
            }
        }
        i = i + 1;
    }
    merged
}

/// Merges combining diacritical marks into the preceding non-empty value;
/// merged entries are left empty. Returns whether anything was merged.
pub fn merge_diacritics(unicode_values: &mut Vec<String>) -> (merged: bool)
    ensures
        views(final(unicode_values)@) == merge_pass(
            views(old(unicode_values)@),
            old(unicode_values)@.len() as int,
        ),
        merged == merged_any(views(old(unicode_values)@), old(unicode_values)@.len() as int),
{
    merge_pass_exec(unicode_values)
}

/// Whether some value is a combining mark.
pub open spec fn has_combining(v: Seq<Seq<char>>) -> bool {
    exists|k: int| 0 <= k < v.len() && combining_mark_spec(#[trigger] v[k])
}

/// The indices below `n` whose value is non-empty, in increasing order.
pub open spec fn nonempty_indices(w: Seq<Seq<char>>, n: int) -> Seq<usize>
    decreases n,
{
    if n <= 0 {
        Seq::empty()
    } else if w[n - 1].len() > 0 {
        nonempty_indices(w, n - 1).push((n - 1) as usize)
    } else {
        nonempty_indices(w, n - 1)
    }
}

/// The values found at the given indices.
pub open spec fn values_at(w: Seq<Seq<char>>, idx: Seq<usize>) -> Seq<Seq<char>> {
    idx.map_values(|i: usize| w[i as int])
}

/// Merges combining marks as `merge_diacritics` does, then drops the
/// entries left empty, for a sequence of glyph texts.
///
/// Returns `None` (and leaves the values untouched) when there are fewer
/// than two values or none of them is a combining mark. Otherwise the values
/// become the non-empty merged texts and the result lists, in order, the
/// index each remaining entry had before the call.
pub fn merge_diacritics_in_place(unicode_values: &mut Vec<String>) -> (kept: Option<Vec<usize>>)
    ensures
        ({
            let v = views(old(unicode_values)@);
            if v.len() < 2 || !has_combining(v) {
                &&& kept is None
                &&& final(unicode_values)@ == old(unicode_values)@
            } else {
                let w = merge_pass(v, v.len() as int);
                let idx = nonempty_indices(w, v.len() as int);
                &&& kept matches Some(k) && k@ == idx
                &&& views(final(unicode_values)@) == values_at(w, idx)
            }
        }),
{
    let ghost v = views(unicode_values@);
    let n = unicode_values.len();
    if n < 2 {
        return None;
    }
    let mut found = false;
    let mut i: usize = 0;
    while i < n
        invariant
            n == unicode_values@.len(),
            v == views(unicode_values@),
            0 <= i <= n,
            found == exists|k: int| 0 <= k < i && combining_mark_spec(#[trigger] v[k]),
        decreases n - i,
    {
        if is_combining_mark(unicode_values[i].as_str()) {
            assert(combining_mark_spec(v[i as int]));
            found = true;
        }
        i = i + 1;
    }
    if !found {
        return None;
    }
    merge_pass_exec(unicode_values);
    let ghost w = merge_pass(v, n as int);
    proof {
        lemma_merge_pass_len(v, n as int);
    }
    let mut out: Vec<String> = Vec::new();
    let mut kept: Vec<usize> = Vec::new();
    let mut j: usize = 0;
    while j < n
        invariant
            n == unicode_values@.len(),
            w.len() == n,
            views(unicode_values@) == w,
            0 <= j <= n,
            kept@ == nonempty_indices(w, j as int),
            views(out@) == values_at(w, kept@),
        decreases n - j,
    {
        let ghost old_out = out@;
        let ghost old_kept = kept@;
        if !unicode_values[j].as_str().is_empty() {
            assert(w[j as int].len() > 0);
            out.push(unicode_values[j].clone());
            kept.push(j);
            assert(views(out@) =~= views(old_out).push(w[j as int]));
            assert(values_at(w, kept@) =~= values_at(w, old_kept).push(w[j as int]));
        } else {
            assert(w[j as int].len() == 0);
        }
        j = j + 1;
    }
    *unicode_values = out;
    Some(kept)
}

} // verus!
