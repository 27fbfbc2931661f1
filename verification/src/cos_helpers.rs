//! Decoding of PDF names and PDF text strings.

use vstd::prelude::*;
use crate::text_std::{latin1, string_push, utf16_lossy, utf16_lossy_spec, utf8_lossy, utf8_text};

verus! {

/// The value of an ASCII hexadecimal digit (either case).
pub open spec fn hex_value(b: u8) -> Option<u8> {
    if 48 <= b <= 57 {
        Some((b - 48) as u8)
    } else if 97 <= b <= 102 {
        Some((b - 97 + 10) as u8)
    } else if 65 <= b <= 70 {
        Some((b - 65 + 10) as u8)
    } else {
        None
    }
}

/// Whether a `#XX` escape starts at the front of the name bytes.
pub open spec fn escape_at_front(n: Seq<u8>) -> bool {
    n.len() > 2 && n[0] == 35 && hex_value(n[1]) is Some && hex_value(n[2]) is Some
}

/// The bytes a PDF name denotes once each `#XX` escape is replaced by its byte.
pub open spec fn unescape_name(n: Seq<u8>) -> Seq<u8>
    decreases n.len(),
{
    if n.len() == 0 {
        Seq::empty()
    } else if escape_at_front(n) {
        seq![(hex_value(n[1])->0 * 16 + hex_value(n[2])->0) as u8]
            + unescape_name(n.subrange(3, n.len() as int))
    } else {
        seq![n[0]] + unescape_name(n.subrange(1, n.len() as int))
    }
}

/// Value of one hexadecimal digit.
pub fn hex_digit(b: u8) -> (r: Option<u8>)
    ensures
        r == hex_value(b),
{
    if 48 <= b && b <= 57 {
        Some(b - 48)
    } else if 97 <= b && b <= 102 {
        Some(b - 97 + 10)
    } else if 65 <= b && b <= 70 {
        Some(b - 65 + 10)
    } else {
        None
    }
}

/// Converts a PDF name to text: `#XX` escapes are decoded, then the bytes
/// are read as UTF-8 (exactly when valid; invalid sequences become U+FFFD).
pub fn name_to_string(name: &[u8]) -> (r: String)
    ensures
        r@ == utf8_text(unescape_name(name@)),
{
    let mut result: Vec<u8> = Vec::new();
    let mut i: usize = 0;
    let n = name.len();
    assert(name@.subrange(0, n as int) =~= name@);
    while i < n
        invariant
            n == name@.len(),
            0 <= i <= n,
            result@ + unescape_name(name@.subrange(i as int, n as int)) == unescape_name(name@),
        decreases n - i,
    {
        let ghost rest = name@.subrange(i as int, n as int);
        if name[i] == 35 && 2 < n - i {
            let hi = hex_digit(name[i + 1]);
            let lo = hex_digit(name[i + 2]);
            if let (Some(h), Some(l)) = (hi, lo) {
                assert(escape_at_front(rest));
                assert(rest.subrange(3, rest.len() as int) =~= name@.subrange(i + 3, n as int));
                result.push(h * 16 + l);
                i = i + 3;
                assert(result@ + unescape_name(name@.subrange(i as int, n as int))
                    =~= unescape_name(name@));
                continue;
            }
        }
        assert(!escape_at_front(rest));
        assert(rest.subrange(1, rest.len() as int) =~= name@.subrange(i + 1, n as int));
        result.push(name[i]);
        i = i + 1;
        assert(result@ + unescape_name(name@.subrange(i as int, n as int)) =~= unescape_name(name@));
    }
    assert(name@.subrange(n as int, n as int) =~= Seq::<u8>::empty());
    assert(result@ =~= unescape_name(name@));
    utf8_lossy(result.as_slice())
}

/// Big-endian 16-bit units from consecutive byte pairs; an odd last byte is dropped.
pub open spec fn be_units(b: Seq<u8>) -> Seq<u16> {
    Seq::new(b.len() / 2, |k: int| (b[2 * k] as int * 256 + b[2 * k + 1] as int) as u16)
}

/// PDFDocEncoding: the character of a byte. It agrees with Latin-1 but at
/// 0x18–0x1F and 0x80–0xA0 (accents, punctuation, ligatures, the euro sign);
/// the codes it leaves undefined (0x7F, 0x9F, 0xAD) give U+FFFD.
pub open spec fn pdf_doc_char(b: u8) -> char {
    match b {
        24u8 => '\u{02D8}',
        25u8 => '\u{02C7}',
        26u8 => '\u{02C6}',
        27u8 => '\u{02D9}',
        28u8 => '\u{02DD}',
        29u8 => '\u{02DB}',
        30u8 => '\u{02DA}',
        31u8 => '\u{02DC}',
        127u8 => '\u{FFFD}',
        128u8 => '\u{2022}',
        129u8 => '\u{2020}',
        130u8 => '\u{2021}',
        131u8 => '\u{2026}',
        132u8 => '\u{2014}',
        133u8 => '\u{2013}',
        134u8 => '\u{0192}',
        135u8 => '\u{2044}',
        136u8 => '\u{2039}',
        137u8 => '\u{203A}',
        138u8 => '\u{2212}',
        139u8 => '\u{2030}',
        140u8 => '\u{201E}',
        141u8 => '\u{201C}',
        142u8 => '\u{201D}',
        143u8 => '\u{2018}',
        144u8 => '\u{2019}',
        145u8 => '\u{201A}',
        146u8 => '\u{2122}',
        147u8 => '\u{FB01}',
        148u8 => '\u{FB02}',
        149u8 => '\u{0141}',
        150u8 => '\u{0152}',
        151u8 => '\u{0160}',
        152u8 => '\u{0178}',
        153u8 => '\u{017D}',
        154u8 => '\u{0131}',
        155u8 => '\u{0142}',
        156u8 => '\u{0153}',
        157u8 => '\u{0161}',
        158u8 => '\u{017E}',
        159u8 => '\u{FFFD}',
        160u8 => '\u{20AC}',
        173u8 => '\u{FFFD}',
        _ => b as char,
    }
}

/// Bytes read as PDFDocEncoding.
pub open spec fn pdf_doc_text(b: Seq<u8>) -> Seq<char> {
    b.map_values(|x: u8| pdf_doc_char(x))
}

/// The PDFDocEncoding character of a byte.
pub fn pdf_doc_byte(b: u8) -> (r: char)
    ensures
        r == pdf_doc_char(b),
{
    match b {
        24u8 => '\u{02D8}',
        25u8 => '\u{02C7}',
        26u8 => '\u{02C6}',
        27u8 => '\u{02D9}',
        28u8 => '\u{02DD}',
        29u8 => '\u{02DB}',
        30u8 => '\u{02DA}',
        31u8 => '\u{02DC}',
        127u8 => '\u{FFFD}',
        128u8 => '\u{2022}',
        129u8 => '\u{2020}',
        130u8 => '\u{2021}',
        131u8 => '\u{2026}',
        132u8 => '\u{2014}',
        133u8 => '\u{2013}',
        134u8 => '\u{0192}',
        135u8 => '\u{2044}',
        136u8 => '\u{2039}',
        137u8 => '\u{203A}',
        138u8 => '\u{2212}',
        139u8 => '\u{2030}',
        140u8 => '\u{201E}',
        141u8 => '\u{201C}',
        142u8 => '\u{201D}',
        143u8 => '\u{2018}',
        144u8 => '\u{2019}',
        145u8 => '\u{201A}',
        146u8 => '\u{2122}',
        147u8 => '\u{FB01}',
        148u8 => '\u{FB02}',
        149u8 => '\u{0141}',
        150u8 => '\u{0152}',
        151u8 => '\u{0160}',
        152u8 => '\u{0178}',
        153u8 => '\u{017D}',
        154u8 => '\u{0131}',
        155u8 => '\u{0142}',
        156u8 => '\u{0153}',
        157u8 => '\u{0161}',
        158u8 => '\u{017E}',
        159u8 => '\u{FFFD}',
        160u8 => '\u{20AC}',
        173u8 => '\u{FFFD}',
        _ => b as char,
    }
}

/// The text a PDF text string denotes: UTF-16BE after a `FE FF` mark,
/// UTF-8 after an `EF BB BF` mark, otherwise PDFDocEncoding.
pub open spec fn text_string_chars(b: Seq<u8>) -> Seq<char> {
    if b.len() >= 2 && b[0] == 0xFE && b[1] == 0xFF {
        utf16_lossy_spec(be_units(b.subrange(2, b.len() as int)))
    } else if b.len() >= 3 && b[0] == 0xEF && b[1] == 0xBB && b[2] == 0xBF {
        utf8_text(b.subrange(3, b.len() as int))
    } else {
        pdf_doc_text(b)
    }
}

/// Decodes a PDF text string (UTF-16BE or UTF-8 with a byte-order mark,
/// PDFDocEncoding otherwise).
pub fn decode_text_string(bytes: &[u8]) -> (r: String)
    ensures
        r@ == text_string_chars(bytes@),
{
    let n = bytes.len();
    if n >= 2 && bytes[0] == 0xFE && bytes[1] == 0xFF {
        let mut units: Vec<u16> = Vec::new();
        let ghost body = bytes@.subrange(2, n as int);
        let mut i: usize = 2;
        while i + 1 < n
            invariant
                n == bytes@.len(),
                n >= 2,
                body == bytes@.subrange(2, n as int),
                2 <= i <= n,
                (i - 2) % 2 == 0,
                units@.len() == (i - 2) / 2,
                forall|k: int| 0 <= k < units@.len() ==> units@[k] == be_units(body)[k],
                i + 1 >= n ==> units@.len() == be_units(body).len(),
            decreases n - i,
        {
            let unit: u16 = (bytes[i] as u16) * 256 + (bytes[i + 1] as u16);
            units.push(unit);
            i = i + 2;
        }
        assert(units@ =~= be_units(body));
        utf16_lossy(units.as_slice())
    } else if n >= 3 && bytes[0] == 0xEF && bytes[1] == 0xBB && bytes[2] == 0xBF {
        let mut rest: Vec<u8> = Vec::new();
        let mut i: usize = 3;
        while i < n
            invariant
                n == bytes@.len(),
                3 <= i <= n,
                rest@ =~= bytes@.subrange(3, i as int),
            decreases n - i,
        {
            rest.push(bytes[i]);
            i = i + 1;
        }
        utf8_lossy(rest.as_slice())
    } else {
        let mut out = String::new();
        let mut i: usize = 0;
        while i < n
            invariant
                n == bytes@.len(),
                0 <= i <= n,
                out@ =~= pdf_doc_text(bytes@.subrange(0, i as int)),
            decreases n - i,
        {
            string_push(&mut out, pdf_doc_byte(bytes[i]));
            i = i + 1;
        }
        assert(bytes@.subrange(0, n as int) =~= bytes@);
        out
    }
}

} // verus!
