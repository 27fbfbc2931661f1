//! Specifications of the standard library's text conversions that the
//! library relies on, and thin trusted wrappers around them.

use vstd::prelude::*;
use vstd::utf8::{decode_utf8, valid_utf8};
use vstd::std_specs::iter::IteratorSpec;

verus! {

/// The characters of `s` read as ASCII bytes.
pub open spec fn ascii(s: Seq<char>) -> Seq<u8> {
    s.map_values(|c: char| c as u8)
}

/// Latin-1 reading: every byte is the character with the same number.
pub open spec fn latin1(bytes: Seq<u8>) -> Seq<char> {
    bytes.map_values(|b: u8| b as char)
}

/// What `String::from_utf8_lossy` produces for the given bytes.
pub uninterp spec fn utf8_lossy_chars(bytes: Seq<u8>) -> Seq<char>;

/// Whether `u` is a UTF-16 surrogate code unit.
pub open spec fn is_surrogate(u: u16) -> bool {
    0xD800 <= u <= 0xDFFF
}

/// Whether `u` is a leading (high) surrogate.
pub open spec fn is_high_surrogate(u: u16) -> bool {
    0xD800 <= u <= 0xDBFF
}

/// Whether `u` is a trailing (low) surrogate.
pub open spec fn is_low_surrogate(u: u16) -> bool {
    0xDC00 <= u <= 0xDFFF
}

/// Whether a valid surrogate pair starts at the front of `u`.
pub open spec fn pair_at_front(u: Seq<u16>) -> bool {
    u.len() >= 2 && is_high_surrogate(u[0]) && is_low_surrogate(u[1])
}

/// The supplementary-plane scalar that a surrogate pair encodes.
pub open spec fn pair_scalar(hi: u16, lo: u16) -> int {
    0x10000 + (hi - 0xD800) * 0x400 + (lo - 0xDC00)
}

/// UTF-16 decoding in which every unpaired surrogate becomes U+FFFD,
/// as `char::decode_utf16` followed by replacement documents it.
pub open spec fn utf16_lossy_spec(u: Seq<u16>) -> Seq<char>
    decreases u.len(),
{
    if u.len() == 0 {
        Seq::empty()
    } else if !is_surrogate(u[0]) {
        seq![u[0] as char] + utf16_lossy_spec(u.subrange(1, u.len() as int))
    } else if pair_at_front(u) {
        seq![pair_scalar(u[0], u[1]) as char] + utf16_lossy_spec(u.subrange(2, u.len() as int))
    } else {
        seq!['\u{FFFD}'] + utf16_lossy_spec(u.subrange(1, u.len() as int))
    }
}

/// Whether the UTF-16 units hold no unpaired surrogate.
pub open spec fn utf16_well_formed(u: Seq<u16>) -> bool
    decreases u.len(),
{
    if u.len() == 0 {
        true
    } else if !is_surrogate(u[0]) {
        utf16_well_formed(u.subrange(1, u.len() as int))
    } else if pair_at_front(u) {
        utf16_well_formed(u.subrange(2, u.len() as int))
    } else {
        false
    }
}

/// Whether `v` is a Unicode scalar value (a value a `char` can hold).
pub open spec fn is_scalar_value(v: int) -> bool {
    (0 <= v < 0xD800) || (0xE000 <= v <= 0x10FFFF)
}

/// The text of UTF-8 bytes: decoded exactly when they are valid UTF-8,
/// otherwise the lossy decoding (invalid sequences become U+FFFD).
pub open spec fn utf8_text(bytes: Seq<u8>) -> Seq<char> {
    if valid_utf8(bytes) {
        decode_utf8(bytes)
    } else {
        utf8_lossy_chars(bytes)
    }
}

/// `String::from_utf8_lossy`: valid UTF-8 decodes exactly; otherwise the
/// result is the named lossy decoding.
#[verifier::external_body]
pub(crate) fn utf8_lossy(bytes: &[u8]) -> (r: String)
    ensures
        r@ == utf8_lossy_chars(bytes@),
        valid_utf8(bytes@) ==> r@ == decode_utf8(bytes@),
{
    String::from_utf8_lossy(bytes).into_owned()
}

/// `String::from_utf16_lossy`: decodes UTF-16 replacing unpaired surrogates
/// with U+FFFD.
#[verifier::external_body]
pub(crate) fn utf16_lossy(units: &[u16]) -> (r: String)
    ensures
        r@ == utf16_lossy_spec(units@),
{
    String::from_utf16_lossy(units)
}

/// `String::from_utf16`: fails exactly when an unpaired surrogate occurs.
#[verifier::external_body]
pub(crate) fn utf16_strict(units: &[u16]) -> (r: Option<String>)
    ensures
        r is Some <==> utf16_well_formed(units@),
        r matches Some(s) ==> s@ == utf16_lossy_spec(units@),
{
    String::from_utf16(units).ok()
}

/// `char::from_u32`: `Some` exactly for Unicode scalar values.
#[verifier::external_body]
pub(crate) fn char_from_u32(v: u32) -> (r: Option<char>)
    ensures
        r is Some <==> is_scalar_value(v as int),
        r matches Some(c) ==> c as int == v as int,
{
    char::from_u32(v)
}

/// `String::push`.
#[verifier::external_body]
pub(crate) fn string_push(s: &mut String, c: char)
    ensures
        final(s)@ == old(s)@.push(c),
{
    s.push(c)
}



/// Compares bytes with the ASCII spelling of a keyword.
pub fn bytes_eq_str(t: &[u8], kw: &str) -> (r: bool)
    requires
        vstd::string::is_ascii(kw),
    ensures
        r == (t@ == ascii(kw@)),
{
    broadcast use vstd::string::is_ascii_spec_bytes;
    let k = kw.as_bytes();
    assert(k@ =~= ascii(kw@));
    if t.len() != k.len() {
        return false;
    }
    let mut i: usize = 0;
    while i < t.len()
        invariant
            t@.len() == k@.len(),
            k@ == ascii(kw@),
            0 <= i <= t@.len(),
            forall|j: int| 0 <= j < i ==> t@[j] == k@[j],
        decreases t@.len() - i,
    {
        if t[i] != k[i] {
            assert(t@[i as int] != ascii(kw@)[i as int]);
            return false;
        }
        i = i + 1;
    }
    assert(t@ =~= k@);
    true
}

/// The characters of `s`, in order.
pub fn str_to_chars(s: &str) -> (r: Vec<char>)
    ensures
        r@ == s@,
{
    let mut out: Vec<char> = Vec::new();
    let ghost chars = s@;
    let mut it = s.chars();
    let ghost mut k: int = 0;
    loop
        invariant
            chars == s@,
            0 <= k <= chars.len(),
            it.obeys_prophetic_iter_laws(),
            it.remaining() == chars.subrange(k, chars.len() as int),
            out@ == chars.subrange(0, k),
        decreases chars.len() - k,
    {
        match it.next() {
            Some(ch) => {
                out.push(ch);
                proof {
                    k = k + 1;
                }
                assert(out@ =~= chars.subrange(0, k));
                assert(it.remaining() =~= chars.subrange(k, chars.len() as int));
            },
            None => {
                assert(chars.subrange(0, k) =~= chars);
                return out;
            },
        }
    }
}

/// The string holding the characters `cs[from..to]`.
pub fn chars_to_string(cs: &[char], from: usize, to: usize) -> (r: String)
    requires
        from <= to <= cs@.len(),
    ensures
        r@ == cs@.subrange(from as int, to as int),
{
    let mut out = String::new();
    let mut i = from;
    while i < to
        invariant
            from <= i <= to <= cs@.len(),
            out@ == cs@.subrange(from as int, i as int),
        decreases to - i,
    {
        string_push(&mut out, cs[i]);
        i = i + 1;
        assert(out@ =~= cs@.subrange(from as int, i as int));
    }
    out
}

/// A copy of `s` as an owned string.
pub fn str_to_string(s: &str) -> (r: String)
    ensures
        r@ == s@,
{
    let mut out = String::new();
    out.append(s);
    assert(out@ =~= s@);
    out
}

/// Whether two character sequences are equal.
pub fn chars_eq(a: &[char], b: &[char]) -> (r: bool)
    ensures
        r == (a@ == b@),
{
    if a.len() != b.len() {
        return false;
    }
    let mut i: usize = 0;
    while i < a.len()
        invariant
            a@.len() == b@.len(),
            0 <= i <= a@.len(),
            forall|j: int| 0 <= j < i ==> a@[j] == b@[j],
        decreases a@.len() - i,
    {
        if a[i] != b[i] {
            return false;
        }
        i = i + 1;
    }
    assert(a@ =~= b@);
    true
}

/// Whether `needle` occurs in `hay` at position `i`.
pub open spec fn occurs_at(hay: Seq<char>, needle: Seq<char>, i: int) -> bool {
    0 <= i && i + needle.len() <= hay.len() && hay.subrange(i, i + needle.len()) == needle
}

/// `str::contains` with a string pattern.
pub fn str_contains(hay: &str, needle: &str) -> (r: bool)
    ensures
        r == exists|i: int| occurs_at(hay@, needle@, i),
{
    let h = str_to_chars(hay);
    let n = str_to_chars(needle);
    if n.len() > h.len() {
        assert forall|i: int| !occurs_at(hay@, needle@, i) by {}
        return false;
    }
    let mut i: usize = 0;
    while i <= h.len() - n.len()
        invariant
            h@ == hay@,
            n@ == needle@,
            n@.len() <= h@.len(),
            h@.len() == h.len(),
            n@.len() == n.len(),
            i <= h@.len() - n@.len() + 1,
            forall|k: int| 0 <= k < i ==> !occurs_at(hay@, needle@, k),
        decreases h@.len() - i,
    {
        let mut j: usize = 0;
        let mut all = true;
        while j < n.len()
            invariant
                h@ == hay@,
                n@ == needle@,
                i + n@.len() <= h@.len(),
                h@.len() == h.len(),
                0 <= j <= n@.len(),
                all == forall|k: int| 0 <= k < j ==> h@[i + k] == n@[k],
            decreases n@.len() - j,
        {
            if h[i + j] != n[j] {
                all = false;
            }
            j = j + 1;
        }
        if all {
            assert(h@.subrange(i as int, i + n@.len()) =~= n@);
            assert(occurs_at(hay@, needle@, i as int));
            return true;
        }
        assert(!occurs_at(hay@, needle@, i as int)) by {
            let k = choose|k: int| 0 <= k < n@.len() && h@[i + k] != n@[k];
            assert(h@.subrange(i as int, i + n@.len())[k] != n@[k]);
        }
        i = i + 1;
    }
    assert forall|k: int| !occurs_at(hay@, needle@, k) by {
        if 0 <= k && k + needle@.len() <= hay@.len() {
            assert(k < i);
        }
    }
    false
}

/// `str::starts_with` with a string pattern, on characters.
pub open spec fn starts_with_chars(s: Seq<char>, prefix: Seq<char>) -> bool {
    prefix.len() <= s.len() && s.subrange(0, prefix.len() as int) == prefix
}

} // verus!
