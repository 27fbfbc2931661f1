//! Encodings given by a font's `/Encoding` entry: a predefined encoding by
//! name, or a dictionary with a base encoding and a `/Differences` array.

use vstd::prelude::*;
use crate::cos_helpers::{name_to_string, unescape_name};
use crate::encoding::{pairs_from, pairs_view, Encoding};
use crate::predefined::{get_encoding, is_predefined_name, predefined_codes, predefined_names};
use crate::text_std::utf8_text;

verus! {

/// An item of a `/Differences` array, references resolved.
pub enum DiffItem {
    /// An integer: the code the following names start at.
    Code(i64),
    /// A glyph name (raw bytes of the PDF name).
    Name(Vec<u8>),
    /// Anything else (ignored).
    Other,
}

/// A `/Differences` item as plain values.
pub enum Diff {
    Code(i64),
    Name(Seq<u8>),
    Other,
}

impl View for DiffItem {
    type V = Diff;

    open spec fn view(&self) -> Diff {
        match self {
            DiffItem::Code(n) => Diff::Code(*n),
            DiffItem::Name(b) => Diff::Name(b@),
            DiffItem::Other => Diff::Other,
        }
    }
}

/// What a font's `/Encoding` entry holds, references resolved.
pub enum EncodingEntry {
    /// A name such as `/WinAnsiEncoding` (raw bytes).
    Name(Vec<u8>),
    /// A dictionary (or the dictionary of a stream): its `/BaseEncoding`
    /// when that is a name, and its `/Differences` items when that is an
    /// array.
    Dictionary { base_encoding: Option<Vec<u8>>, differences: Option<Vec<DiffItem>> },
    /// Anything else, or a reference that does not resolve.
    Other,
}

/// The text of a PDF name.
pub open spec fn name_text(b: Seq<u8>) -> Seq<char> {
    utf8_text(unescape_name(b))
}

/// The maps after adding (code, name) pairs in turn.
pub open spec fn add_pairs(
    codes: Map<u16, Seq<char>>,
    names: Map<Seq<char>, u16>,
    pairs: Seq<(u16, Seq<char>)>,
) -> (Map<u16, Seq<char>>, Map<Seq<char>, u16>)
    decreases pairs.len(),
{
    if pairs.len() == 0 {
        (codes, names)
    } else {
        let (c, n) = add_pairs(codes, names, pairs.drop_last());
        (c.insert(pairs.last().0, pairs.last().1), n.insert(pairs.last().1, pairs.last().0))
    }
}

/// The maps after applying `/Differences` items from `i` on, with `cur`
/// the code the next name gets: an integer sets it, a name is mapped to it
/// and moves it on by one (wrapping at 2^16).
pub open spec fn diffs_apply(
    codes: Map<u16, Seq<char>>,
    names: Map<Seq<char>, u16>,
    items: Seq<Diff>,
    i: int,
    cur: u16,
) -> (Map<u16, Seq<char>>, Map<Seq<char>, u16>)
    decreases items.len() - i,
{
    if i < 0 || i >= items.len() {
        (codes, names)
    } else {
        match items[i] {
            Diff::Code(n) => diffs_apply(codes, names, items, i + 1, n as u16),
            Diff::Name(b) => diffs_apply(
                codes.insert(cur, name_text(b)),
                names.insert(name_text(b), cur),
                items,
                i + 1,
                if cur == 0xffff {
                    0
                } else {
                    (cur + 1) as u16
                },
            ),
            Diff::Other => diffs_apply(codes, names, items, i + 1, cur),
        }
    }
}

/// The maps of the encoding a name selects: a predefined one, or none.
pub open spec fn named_maps(name: Seq<char>) -> (Map<u16, Seq<char>>, Map<Seq<char>, u16>) {
    if is_predefined_name(name) {
        (predefined_codes(name), predefined_names(name))
    } else {
        (Map::empty(), Map::empty())
    }
}

/// The maps of the base encoding of a dictionary: the named one, else
/// nothing for a symbolic font and StandardEncoding otherwise.
pub open spec fn base_maps(base: Option<Seq<u8>>, is_symbolic: bool) -> (
    Map<u16, Seq<char>>,
    Map<Seq<char>, u16>,
) {
    match base {
        Some(b) => named_maps(name_text(b)),
        None => if is_symbolic {
            (Map::empty(), Map::empty())
        } else {
            named_maps("StandardEncoding"@)
        },
    }
}

/// The maps of a dictionary encoding: the base encoding's pairs added by
/// increasing code, then the differences applied.
pub open spec fn dict_maps(base: Option<Seq<u8>>, diffs: Option<Seq<Diff>>, is_symbolic: bool) -> (
    Map<u16, Seq<char>>,
    Map<Seq<char>, u16>,
) {
    let (c, n) = add_pairs(
        Map::empty(),
        Map::empty(),
        pairs_from(base_maps(base, is_symbolic).0, 0),
    );
    match diffs {
        Some(items) => diffs_apply(c, n, items, 0, 0),
        None => (c, n),
    }
}

/// The view of optional bytes.
pub open spec fn opt_bytes(o: Option<Vec<u8>>) -> Option<Seq<u8>> {
    match o {
        Some(b) => Some(b@),
        None => None,
    }
}

/// The view of optional differences.
pub open spec fn opt_diffs(o: Option<Vec<DiffItem>>) -> Option<Seq<Diff>> {
    match o {
        Some(v) => Some(v@.map_values(|d: DiffItem| d@)),
        None => None,
    }
}

/// The name of the encoding an `/Encoding` entry gives.
pub open spec fn entry_name(e: EncodingEntry) -> Seq<char> {
    match e {
        EncodingEntry::Name(b) => name_text(b@),
        EncodingEntry::Dictionary { .. } => "DictionaryEncoding"@,
        EncodingEntry::Other => "Unknown"@,
    }
}

/// The maps of the encoding an `/Encoding` entry gives.
pub open spec fn entry_maps(e: EncodingEntry, is_symbolic: bool) -> (
    Map<u16, Seq<char>>,
    Map<Seq<char>, u16>,
) {
    match e {
        EncodingEntry::Name(b) => named_maps(name_text(b@)),
        EncodingEntry::Dictionary { base_encoding, differences } => dict_maps(
            opt_bytes(base_encoding),
            opt_diffs(differences),
            is_symbolic,
        ),
        EncodingEntry::Other => (Map::empty(), Map::empty()),
    }
}

/// The encoding a name selects: the predefined one, or an empty encoding
/// with that name.
fn named_encoding(name: &str) -> (r: Encoding)
    ensures
        r.wf(),
        r.name_view() == name@,
        (r.codes(), r.names()) == named_maps(name@),
{
    match get_encoding(name) {
        Some(e) => e,
        None => Encoding::new(name),
    }
}

/// The base encoding when the dictionary names none: empty for a symbolic
/// font, StandardEncoding otherwise.
pub fn default_base_encoding(is_symbolic: bool) -> (r: Encoding)
    ensures
        r.wf(),
        r.name_view() == if is_symbolic {
            "BuiltIn"@
        } else {
            "StandardEncoding"@
        },
        (r.codes(), r.names()) == if is_symbolic {
            (Map::<u16, Seq<char>>::empty(), Map::<Seq<char>, u16>::empty())
        } else {
            named_maps("StandardEncoding"@)
        },
{
    if is_symbolic {
        Encoding::new("BuiltIn")
    } else {
        named_encoding("StandardEncoding")
    }
}

/// Applies `/Differences` items to an encoding.
pub fn apply_differences(enc: &mut Encoding, items: &Vec<DiffItem>)
    requires
        old(enc).wf(),
    ensures
        final(enc).wf(),
        final(enc).name_view() == old(enc).name_view(),
        (final(enc).codes(), final(enc).names()) == diffs_apply(
            old(enc).codes(),
            old(enc).names(),
            items@.map_values(|d: DiffItem| d@),
            0,
            0,
        ),
{
    let ghost its = items@.map_values(|d: DiffItem| d@);
    let mut current_code: u16 = 0;
    let mut i: usize = 0;
    while i < items.len()
        invariant
            its == items@.map_values(|d: DiffItem| d@),
            0 <= i <= items@.len(),
            enc.wf(),
            enc.name_view() == old(enc).name_view(),
            diffs_apply(old(enc).codes(), old(enc).names(), its, 0, 0) == diffs_apply(
                enc.codes(),
                enc.names(),
                its,
                i as int,
                current_code,
            ),
        decreases items@.len() - i,
    {
        assert(its[i as int] == items@[i as int]@);
        match &items[i] {
            DiffItem::Code(n) => {
                current_code = *n as u16;
            },
            DiffItem::Name(b) => {
                let name = name_to_string(b.as_slice());
                enc.add(current_code, name.as_str());
                current_code = if current_code == 0xffff {
                    0
                } else {
                    current_code + 1
                };
            },
            DiffItem::Other => {},
        }
        i = i + 1;
    }
}

/// A dictionary encoding: the base encoding's pairs copied by increasing
/// code into an encoding named `DictionaryEncoding`, then the differences.
fn build_from_dict(
    base_encoding: &Option<Vec<u8>>,
    differences: &Option<Vec<DiffItem>>,
    is_symbolic: bool,
) -> (r: Encoding)
    ensures
        r.wf(),
        r.name_view() == "DictionaryEncoding"@,
        (r.codes(), r.names()) == dict_maps(
            opt_bytes(*base_encoding),
            opt_diffs(*differences),
            is_symbolic,
        ),
{
    let base = match base_encoding {
        Some(b) => {
            let name = name_to_string(b.as_slice());
            named_encoding(name.as_str())
        },
        None => default_base_encoding(is_symbolic),
    };
    assert((base.codes(), base.names()) == base_maps(opt_bytes(*base_encoding), is_symbolic));
    let pairs = base.iter();
    let ghost pv = pairs_view(pairs@);
    let mut enc = Encoding::new("DictionaryEncoding");
    let mut i: usize = 0;
    while i < pairs.len()
        invariant
            pv == pairs_view(pairs@),
            0 <= i <= pairs@.len(),
            enc.wf(),
            enc.name_view() == "DictionaryEncoding"@,
            (enc.codes(), enc.names()) == add_pairs(
                Map::empty(),
                Map::empty(),
                pv.subrange(0, i as int),
            ),
        decreases pairs@.len() - i,
    {
        enc.add(pairs[i].0, pairs[i].1.as_str());
        assert(pv.subrange(0, i + 1).drop_last() =~= pv.subrange(0, i as int));
        i = i + 1;
    }
    assert(pv.subrange(0, pairs@.len() as int) =~= pv);
    match differences {
        Some(items) => {
            apply_differences(&mut enc, items);
        },
        None => {},
    }
    enc
}

/// The encoding a font's `/Encoding` entry gives: a predefined encoding by
/// name (an empty one with that name when the name is unknown), a
/// dictionary encoding, or an empty encoding named `Unknown`.
pub fn build_encoding(entry: &EncodingEntry, is_symbolic: bool) -> (r: Encoding)
    ensures
        r.wf(),
        r.name_view() == entry_name(*entry),
        (r.codes(), r.names()) == entry_maps(*entry, is_symbolic),
        match entry {
            EncodingEntry::Name(b) => r.name_view() == name_text(b@) && (r.codes(), r.names())
                == named_maps(name_text(b@)),
            EncodingEntry::Dictionary { base_encoding, differences } => r.name_view()
                == "DictionaryEncoding"@ && (r.codes(), r.names()) == dict_maps(
                opt_bytes(*base_encoding),
                opt_diffs(*differences),
                is_symbolic,
            ),
            EncodingEntry::Other => r.name_view() == "Unknown"@ && r.codes() == Map::<
                u16,
                Seq<char>,
            >::empty() && r.names() == Map::<Seq<char>, u16>::empty(),
        },
{
    match entry {
        EncodingEntry::Name(b) => {
            let name = name_to_string(b.as_slice());
            named_encoding(name.as_str())
        },
        EncodingEntry::Dictionary { base_encoding, differences } => {
            build_from_dict(base_encoding, differences, is_symbolic)
        },
        EncodingEntry::Other => Encoding::new("Unknown"),
    }
}

} // verus!
