//! Fonts: decoding character codes to Unicode text, reading character
//! codes from strings, and glyph widths (of any copyable width type).

use vstd::prelude::*;
use crate::cmap::CMap;
use crate::cmap_lexer::be_value;
use crate::cmap_manager::{first_named, get_predefined_cmap};
use crate::cmap_parser::{built_from, cmap_ops, parse_cmap, unicode_after};
use crate::cos_helpers::name_to_string;
use crate::dictionary::{build_encoding, entry_maps, name_text, EncodingEntry};
use crate::encoding::Encoding;
use crate::glyph_list::{glyph_unicode, notdef, opt_string_view, GlyphList};
use crate::predefined::{get_encoding, predefined_codes, predefined_names};
use crate::text_std::{
    char_from_u32, chars_eq, is_scalar_value, occurs_at, starts_with_chars, str_contains,
    str_to_chars, str_to_string, string_push,
};
use crate::widths::{disjoint_ranges, range_covers, range_holds, sorted_by_start, width_in_array, CidWidths};

verus! {

/// The text of a code point, when it is a Unicode scalar value.
pub open spec fn char_text(code: u32) -> Option<Seq<char>> {
    if is_scalar_value(code as int) {
        Some(seq![code as char])
    } else {
        None
    }
}

/// The text a code point gives, when it is a Unicode scalar value.
pub fn char_to_string(code: u32) -> (r: Option<String>)
    ensures
        opt_string_view(r) == char_text(code),
{
    match char_from_u32(code) {
        Some(c) => {
            let mut s = String::new();
            string_push(&mut s, c);
            assert(s@ =~= seq![code as char]);
            Some(s)
        },
        None => None,
    }
}

/// Whether the changes of a CMap stream map some code to Unicode.
pub open spec fn maps_some_code(names: Map<Seq<char>, Seq<char>>, d: Seq<u8>) -> bool {
    exists|len: int| 1 <= len <= 4 && #[trigger] unicode_after(cmap_ops(names, d), len).dom().len() > 0
}

/// A ToUnicode CMap read from its stream, kept only when it maps some code.
pub fn read_to_unicode(data: &[u8], glyphs: &GlyphList) -> (r: Option<CMap>)
    ensures
        r is Some <==> maps_some_code(glyphs.names(), data@),
        r matches Some(c) ==> built_from(c, cmap_ops(glyphs.names(), data@)),
{
    let cmap = parse_cmap(data, glyphs);
    if cmap.has_unicode_mappings() {
        Some(cmap)
    } else {
        proof {
            assert forall|len: int| 1 <= len <= 4 implies #[trigger] unicode_after(
                cmap_ops(glyphs.names(), data@),
                len,
            ).dom().len() == 0 by {
                assert(cmap.unicode_map(len) == unicode_after(cmap_ops(glyphs.names(), data@), len));
            }
        }
        None
    }
}

/// The text a simple font's ToUnicode CMap gives a code: one-byte codes
/// first, then two-byte codes.
pub open spec fn cmap_text_1_2(c: CMap, code: u32) -> Option<Seq<char>> {
    if c.lookup_unicode(code, 1) is Some {
        c.lookup_unicode(code, 1)
    } else {
        c.lookup_unicode(code, 2)
    }
}

/// The text an encoding and a glyph list give a code: the glyph name of
/// the code (its low 16 bits) looked up; `.notdef` gives none.
pub open spec fn encoding_text(
    codes: Map<u16, Seq<char>>,
    names: Map<Seq<char>, Seq<char>>,
    code: u32,
) -> Option<Seq<char>> {
    let c = code as u16;
    if !codes.contains_key(c) || codes[c] == notdef() {
        None
    } else {
        glyph_unicode(names, codes[c])
    }
}

/// The text a simple font gives a code: its ToUnicode CMap, then its
/// encoding and glyph list.
pub open spec fn simple_text(
    to_unicode: Option<CMap>,
    codes: Map<u16, Seq<char>>,
    names: Map<Seq<char>, Seq<char>>,
    code: u32,
) -> Option<Seq<char>> {
    match to_unicode {
        Some(c) => if cmap_text_1_2(c, code) is Some {
            cmap_text_1_2(c, code)
        } else {
            encoding_text(codes, names, code)
        },
        None => encoding_text(codes, names, code),
    }
}

/// Decodes a code through a ToUnicode CMap (one, then two bytes) and then an
/// encoding and a glyph list.
fn decode_simple(
    to_unicode: &Option<CMap>,
    encoding: &Encoding,
    glyphs: &GlyphList,
    code: u32,
) -> (r: Option<String>)
    ensures
        opt_string_view(r) == simple_text(*to_unicode, encoding.codes(), glyphs.names(), code),
{
    match to_unicode {
        Some(cmap) => {
            match cmap.to_unicode(code, 1) {
                Some(u) => {
                    return Some(str_to_string(u));
                },
                None => {},
            }
            match cmap.to_unicode(code, 2) {
                Some(u) => {
                    return Some(str_to_string(u));
                },
                None => {},
            }
        },
        None => {},
    }
    match encoding.get_name(code as u16) {
        Some(name) => {
            let cs = str_to_chars(name);
            let nd: Vec<char> = vec!['.', 'n', 'o', 't', 'd', 'e', 'f'];
            assert(nd@ == notdef());
            if chars_eq(cs.as_slice(), nd.as_slice()) {
                return None;
            }
            glyphs.to_unicode(name)
        },
        None => None,
    }
}

/// The encoding of a simple font: for ZapfDingbats and Symbol the entry read
/// as symbolic (their own encodings when there is none), otherwise the entry
/// (StandardEncoding when there is none).
pub open spec fn simple_font_encoding(
    entry: Option<EncodingEntry>,
    is_symbolic: bool,
    base_font: Seq<char>,
) -> (Map<u16, Seq<char>>, Map<Seq<char>, u16>) {
    if is_dingbats_name(base_font) {
        match entry {
            Some(e) => entry_maps(e, true),
            None => (
                predefined_codes("ZapfDingbatsEncoding"@),
                predefined_names("ZapfDingbatsEncoding"@),
            ),
        }
    } else if base_font == "Symbol"@ {
        match entry {
            Some(e) => entry_maps(e, true),
            None => (predefined_codes("SymbolEncoding"@), predefined_names("SymbolEncoding"@)),
        }
    } else {
        match entry {
            Some(e) => entry_maps(e, is_symbolic),
            None => (predefined_codes("StandardEncoding"@), predefined_names("StandardEncoding"@)),
        }
    }
}

/// Whether a base font name names ZapfDingbats (it contains `Dingbats`).
pub open spec fn is_dingbats_name(base_font: Seq<char>) -> bool {
    (exists|i: int| occurs_at(base_font, "ZapfDingbats"@, i)) || (exists|i: int|
        occurs_at(base_font, "Dingbats"@, i))
}

/// A predefined encoding known to exist.
fn predefined(name: &str) -> (r: Encoding)
    requires
        name@ == "StandardEncoding"@ || name@ == "SymbolEncoding"@ || name@
            == "ZapfDingbatsEncoding"@,
    ensures
        r.wf(),
        r.codes() == predefined_codes(name@),
        r.names() == predefined_names(name@),
{
    match get_encoding(name) {
        Some(e) => e,
        None => {
            assert(false);
            Encoding::new(name)
        },
    }
}

/// Reads the encoding of a simple font (see `simple_font_encoding`).
pub fn read_encoding(entry: Option<&EncodingEntry>, is_symbolic: bool, base_font: &str) -> (r: Encoding)
    ensures
        r.wf(),
        (r.codes(), r.names()) == simple_font_encoding(
            match entry {
                Some(e) => Some(*e),
                None => None,
            },
            is_symbolic,
            base_font@,
        ),
{
    let zapf = str_contains(base_font, "ZapfDingbats") || str_contains(base_font, "Dingbats");
    if zapf {
        return match entry {
            Some(e) => build_encoding(e, true),
            None => predefined("ZapfDingbatsEncoding"),
        };
    }
    let sym = str_to_chars("Symbol");
    let bf = str_to_chars(base_font);
    if chars_eq(bf.as_slice(), sym.as_slice()) {
        return match entry {
            Some(e) => build_encoding(e, true),
            None => predefined("SymbolEncoding"),
        };
    }
    match entry {
        Some(e) => build_encoding(e, is_symbolic),
        None => predefined("StandardEncoding"),
    }
}

/// Whether the symbolic flag (bit 3) is set in a font descriptor's flags.
pub fn is_symbolic_flags(flags: i64) -> (r: bool)
    ensures
        r == ((flags as int / 4) % 2 != 0),
{
    let f = flags as u64;
    let r = (f / 4) % 2 != 0;
    proof {
        assert((flags as u64 as int / 4) % 2 == (flags as int / 4) % 2) by {
            assert(flags as u64 as int == flags as int + if flags < 0 {
                0x1_0000_0000_0000_0000int
            } else {
                0
            }) by (bit_vector);
        }
    }
    r
}

/// A simple (single-byte) font: Type1, TrueType or MMType1.
pub struct SimpleFont<W> {
    subtype: String,
    base_font: String,
    encoding: Encoding,
    to_unicode_cmap: Option<CMap>,
    widths: Vec<W>,
    first_char: u16,
    missing_width: W,
    is_symbolic: bool,
    use_zapf_dingbats_glyph_list: bool,
}

impl<W: Copy> SimpleFont<W> {
    /// The font's encoding maps.
    pub closed spec fn encoding_codes(&self) -> Map<u16, Seq<char>> {
        self.encoding.codes()
    }

    /// The font's ToUnicode CMap.
    pub closed spec fn to_unicode_map(&self) -> Option<CMap> {
        self.to_unicode_cmap
    }

    /// Whether the font decodes glyph names with the ZapfDingbats list.
    pub closed spec fn uses_dingbats(&self) -> bool {
        self.use_zapf_dingbats_glyph_list
    }

    /// The widths, the first code they start at, and the width of other codes.
    pub closed spec fn width_table(&self) -> (Seq<W>, u16, W) {
        (self.widths@, self.first_char, self.missing_width)
    }

    /// The base font name.
    pub closed spec fn base_font_view(&self) -> Seq<char> {
        self.base_font@
    }

    /// The subtype.
    pub closed spec fn subtype_view(&self) -> Seq<char> {
        self.subtype@
    }

    /// Whether the font is symbolic.
    pub closed spec fn symbolic(&self) -> bool {
        self.is_symbolic
    }

    /// A simple font from the parts of its dictionary.
    pub fn new(
        subtype: &str,
        base_font: &str,
        encoding: Option<&EncodingEntry>,
        is_symbolic: bool,
        to_unicode_cmap: Option<CMap>,
        widths: Vec<W>,
        first_char: u16,
        missing_width: W,
    ) -> (r: Self)
        ensures
            r.subtype_view() == subtype@,
            r.base_font_view() == base_font@,
            r.symbolic() == is_symbolic,
            r.uses_dingbats() == is_dingbats_name(base_font@),
            r.encoding_codes() == simple_font_encoding(
                match encoding {
                    Some(e) => Some(*e),
                    None => None,
                },
                is_symbolic,
                base_font@,
            ).0,
            r.to_unicode_map() == to_unicode_cmap,
            r.width_table() == (widths@, first_char, missing_width),
    {
        let use_zapf = str_contains(base_font, "ZapfDingbats") || str_contains(base_font, "Dingbats");
        let enc = read_encoding(encoding, is_symbolic, base_font);
        SimpleFont {
            subtype: str_to_string(subtype),
            base_font: str_to_string(base_font),
            encoding: enc,
            to_unicode_cmap,
            widths,
            first_char,
            missing_width,
            is_symbolic,
            use_zapf_dingbats_glyph_list: use_zapf,
        }
    }

    /// The text of a code: ToUnicode CMap, then encoding and glyph list
    /// (`zapf` for ZapfDingbats fonts, `glyphs` otherwise).
    pub fn to_unicode(&self, code: u32, glyphs: &GlyphList, zapf: &GlyphList) -> (r: Option<String>)
        ensures
            opt_string_view(r) == simple_text(
                self.to_unicode_map(),
                self.encoding_codes(),
                if self.uses_dingbats() {
                    zapf.names()
                } else {
                    glyphs.names()
                },
                code,
            ),
    {
        if self.use_zapf_dingbats_glyph_list {
            decode_simple(&self.to_unicode_cmap, &self.encoding, zapf, code)
        } else {
            decode_simple(&self.to_unicode_cmap, &self.encoding, glyphs, code)
        }
    }

    /// The width of a code.
    pub fn get_width(&self, code: u32) -> (r: W)
        ensures
            r == if code >= self.width_table().1 && code - self.width_table().1
                < self.width_table().0.len() {
                self.width_table().0[code - self.width_table().1]
            } else {
                self.width_table().2
            },
    {
        width_in_array(&self.widths, self.first_char, self.missing_width, code)
    }

    /// The base font name.
    pub fn base_font(&self) -> (r: &str)
        ensures
            r@ == self.base_font_view(),
    {
        self.base_font.as_str()
    }

    /// The subtype.
    pub fn subtype(&self) -> (r: &str)
        ensures
            r@ == self.subtype_view(),
    {
        self.subtype.as_str()
    }

    /// Whether the font is symbolic.
    pub fn is_symbolic(&self) -> (r: bool)
        ensures
            r == self.symbolic(),
    {
        self.is_symbolic
    }
}

/// A Type3 font: decoding through its ToUnicode CMap or its encoding.
pub struct Type3Font<W> {
    base_font: String,
    encoding: Encoding,
    to_unicode_cmap: Option<CMap>,
    widths: Vec<W>,
    first_char: u16,
    zero_width: W,
}

impl<W: Copy> Type3Font<W> {
    /// The font's encoding maps.
    pub closed spec fn encoding_codes(&self) -> Map<u16, Seq<char>> {
        self.encoding.codes()
    }

    /// The font's ToUnicode CMap.
    pub closed spec fn to_unicode_map(&self) -> Option<CMap> {
        self.to_unicode_cmap
    }

    /// The widths, the first code they start at, and the width of other codes.
    pub closed spec fn width_table(&self) -> (Seq<W>, u16, W) {
        (self.widths@, self.first_char, self.zero_width)
    }

    /// The base font name.
    pub closed spec fn base_font_view(&self) -> Seq<char> {
        self.base_font@
    }

    /// A Type3 font from the parts of its dictionary; without an encoding
    /// entry it uses StandardEncoding.
    pub fn new(
        base_font: &str,
        encoding: Option<&EncodingEntry>,
        to_unicode_cmap: Option<CMap>,
        widths: Vec<W>,
        first_char: u16,
        zero_width: W,
    ) -> (r: Self)
        ensures
            r.base_font_view() == base_font@,
            r.encoding_codes() == match encoding {
                Some(e) => entry_maps(*e, false).0,
                None => predefined_codes("StandardEncoding"@),
            },
            r.to_unicode_map() == to_unicode_cmap,
            r.width_table() == (widths@, first_char, zero_width),
    {
        let enc = match encoding {
            Some(e) => build_encoding(e, false),
            None => predefined("StandardEncoding"),
        };
        Type3Font {
            base_font: str_to_string(base_font),
            encoding: enc,
            to_unicode_cmap,
            widths,
            first_char,
            zero_width,
        }
    }

    /// The text of a code: ToUnicode CMap, then encoding and glyph list.
    pub fn to_unicode(&self, code: u32, glyphs: &GlyphList) -> (r: Option<String>)
        ensures
            opt_string_view(r) == simple_text(
                self.to_unicode_map(),
                self.encoding_codes(),
                glyphs.names(),
                code,
            ),
    {
        decode_simple(&self.to_unicode_cmap, &self.encoding, glyphs, code)
    }

    /// The width of a code.
    pub fn get_width(&self, code: u32) -> (r: W)
        ensures
            r == if code >= self.width_table().1 && code - self.width_table().1
                < self.width_table().0.len() {
                self.width_table().0[code - self.width_table().1]
            } else {
                self.width_table().2
            },
    {
        width_in_array(&self.widths, self.first_char, self.zero_width, code)
    }

    /// The base font name.
    pub fn base_font(&self) -> (r: &str)
        ensures
            r@ == self.base_font_view(),
    {
        self.base_font.as_str()
    }
}

/// What a composite font's `/Encoding` entry holds, references resolved.
pub enum CMapEntry {
    /// The name of a predefined CMap (raw bytes).
    Name(Vec<u8>),
    /// The data of an embedded CMap stream.
    Stream(Vec<u8>),
    /// No entry, or one that cannot be read.
    Other,
}

/// Reads the encoding CMap of a composite font: a predefined CMap by name
/// (flagged predefined, empty when unknown), an embedded stream, or none.
pub fn read_encoding_cmap(
    entry: &CMapEntry,
    predefined_cmaps: &Vec<(String, Vec<u8>)>,
    glyphs: &GlyphList,
) -> (r: (CMap, bool))
    ensures
        r.0.wf(),
        r.0.ranges_sorted(),
        match entry {
            CMapEntry::Name(b) => r.1 && (first_named(predefined_cmaps@, name_text(b@)) >= 0
                ==> built_from(
                r.0,
                cmap_ops(
                    glyphs.names(),
                    predefined_cmaps@[first_named(predefined_cmaps@, name_text(b@))].1@,
                ),
            )) && (first_named(predefined_cmaps@, name_text(b@)) < 0 ==> is_empty_cmap(r.0)),
            CMapEntry::Stream(d) => !r.1 && built_from(r.0, cmap_ops(glyphs.names(), d@)),
            CMapEntry::Other => !r.1 && is_empty_cmap(r.0),
        },
{
    match entry {
        CMapEntry::Name(b) => {
            let name = name_to_string(b.as_slice());
            match get_predefined_cmap(predefined_cmaps, name.as_str(), glyphs) {
                Some(c) => (c, true),
                None => (CMap::new(), true),
            }
        },
        CMapEntry::Stream(d) => (parse_cmap(d.as_slice(), glyphs), false),
        CMapEntry::Other => (CMap::new(), false),
    }
}

/// A CMap with no name, no codespace range and no mapping.
pub open spec fn is_empty_cmap(c: CMap) -> bool {
    &&& c.name_view() == Seq::<char>::empty()
    &&& c.codespace().len() == 0
    &&& c.min_len() == 4
    &&& c.max_len() == 0
    &&& forall|len: int| 1 <= len <= 4 ==> (#[trigger] c.unicode_map(len)).dom() == Set::<u32>::empty()
    &&& forall|len: int| 1 <= len <= 4 ==> (#[trigger] c.cid_map(len)).dom() == Set::<u32>::empty()
    &&& forall|len: int| 1 <= len <= 4 ==> (#[trigger] c.cid_range_seq(len)).len() == 0
}

/// Whether a CIDSystemInfo names one of Adobe's CJK collections.
pub fn is_cjk_collection(registry: &str, ordering: &str) -> (r: bool)
    ensures
        r == (registry@ == "Adobe"@ && (ordering@ == "Korea1"@ || ordering@ == "GB1"@ || ordering@
            == "CNS1"@ || ordering@ == "Japan1"@)),
{
    let reg = str_to_chars(registry);
    let ord = str_to_chars(ordering);
    let adobe = str_to_chars("Adobe");
    let korea = str_to_chars("Korea1");
    let gb = str_to_chars("GB1");
    let cns = str_to_chars("CNS1");
    let japan = str_to_chars("Japan1");
    chars_eq(reg.as_slice(), adobe.as_slice()) && (chars_eq(ord.as_slice(), korea.as_slice())
        || chars_eq(ord.as_slice(), gb.as_slice()) || chars_eq(ord.as_slice(), cns.as_slice())
        || chars_eq(ord.as_slice(), japan.as_slice()))
}

/// The name of the UCS2 CMap of a character collection: `Registry-Ordering-UCS2`.
pub open spec fn ucs2_name(registry: Seq<char>, ordering: Seq<char>) -> Seq<char> {
    registry + "-"@ + ordering + "-UCS2"@
}

/// The UCS2 CMap of a character collection, when both parts are given and
/// it is predefined.
pub fn fetch_ucs2_cmap(
    registry: &str,
    ordering: &str,
    predefined_cmaps: &Vec<(String, Vec<u8>)>,
    glyphs: &GlyphList,
) -> (r: Option<CMap>)
    ensures
        (registry@.len() == 0 || ordering@.len() == 0) ==> r is None,
        registry@.len() > 0 && ordering@.len() > 0 ==> (r is Some <==> first_named(
            predefined_cmaps@,
            ucs2_name(registry@, ordering@),
        ) >= 0),
        r matches Some(c) ==> built_from(
            c,
            cmap_ops(
                glyphs.names(),
                predefined_cmaps@[first_named(predefined_cmaps@, ucs2_name(registry@, ordering@))].1@,
            ),
        ),
{
    if registry.is_empty() || ordering.is_empty() {
        return None;
    }
    let mut name = str_to_string(registry);
    name.append("-");
    name.append(ordering);
    name.append("-UCS2");
    get_predefined_cmap(predefined_cmaps, name.as_str(), glyphs)
}

/// The CID a composite font's encoding CMap gives a code (lengths 2, 1, 3,
/// 4 in turn), the code itself when none does.
pub open spec fn cid_of(enc: CMap, code: u32) -> u32 {
    if enc.lookup_cid(code, 2) is Some {
        enc.lookup_cid(code, 2)->0
    } else if enc.lookup_cid(code, 1) is Some {
        enc.lookup_cid(code, 1)->0
    } else if enc.lookup_cid(code, 3) is Some {
        enc.lookup_cid(code, 3)->0
    } else if enc.lookup_cid(code, 4) is Some {
        enc.lookup_cid(code, 4)->0
    } else {
        code
    }
}

/// The text a ToUnicode CMap of a composite font gives a code (lengths 2,
/// 1, 3, 4 in turn).
pub open spec fn cmap_text_2134(c: CMap, code: u32) -> Option<Seq<char>> {
    if c.lookup_unicode(code, 2) is Some {
        c.lookup_unicode(code, 2)
    } else if c.lookup_unicode(code, 1) is Some {
        c.lookup_unicode(code, 1)
    } else if c.lookup_unicode(code, 3) is Some {
        c.lookup_unicode(code, 3)
    } else {
        c.lookup_unicode(code, 4)
    }
}

/// The text a composite font gives a code: its ToUnicode CMap; then, for a
/// predefined CMap or a CJK collection, the UCS2 CMap at the code's CID
/// (lengths 2, 1); then, with a ToUnicode CMap and an embedded encoding
/// CMap, the code as a code point; then, for an `Identity` encoding CMap,
/// the CID as a code point.
pub open spec fn type0_text(
    enc: CMap,
    is_cmap_predefined: bool,
    to_unicode: Option<CMap>,
    ucs2: Option<CMap>,
    is_cjk: bool,
    code: u32,
) -> Option<Seq<char>> {
    let t1 = match to_unicode {
        Some(c) => cmap_text_2134(c, code),
        None => None,
    };
    let t2 = if is_cmap_predefined || is_cjk {
        match ucs2 {
            Some(u) => if u.lookup_unicode(cid_of(enc, code), 2) is Some {
                u.lookup_unicode(cid_of(enc, code), 2)
            } else {
                u.lookup_unicode(cid_of(enc, code), 1)
            },
            None => None,
        }
    } else {
        None
    };
    if t1 is Some {
        t1
    } else if t2 is Some {
        t2
    } else if to_unicode is Some && !is_cmap_predefined {
        char_text(code)
    } else if starts_with_chars(enc.name_view(), "Identity"@) {
        char_text(cid_of(enc, code))
    } else {
        None
    }
}

/// The first length from `len` up to `max_len` whose bytes at `offset` lie
/// in a codespace range of the CMap.
pub open spec fn first_matching_len(c: CMap, d: Seq<u8>, offset: int, len: int, max_len: int) -> Option<int>
    decreases max_len + 1 - len,
{
    if len > max_len {
        None
    } else if exists|k: int|
        0 <= k < c.codespace().len() && (#[trigger] c.codespace()[k]).matches_spec(
            d.subrange(offset, offset + len),
        ) {
        Some(len)
    } else {
        first_matching_len(c, d, offset, len + 1, max_len)
    }
}

/// The code a composite font reads at `offset`, and its length: the
/// shortest byte run (between the CMap's shortest and longest code lengths,
/// at least one byte, within the data) that lies in a codespace range;
/// otherwise the single byte at `offset`; nothing at the end of the data.
pub open spec fn read_code_spec(c: CMap, d: Seq<u8>, offset: int) -> (u32, usize) {
    let remaining = d.len() - offset;
    let min_len = if c.min_len() < 1 {
        1
    } else {
        c.min_len() as int
    };
    let max_len = if c.max_len() < remaining {
        c.max_len() as int
    } else {
        remaining
    };
    if remaining == 0 {
        (0, 0)
    } else {
        match first_matching_len(c, d, offset, min_len, max_len) {
            Some(len) => (
                (be_value(d.subrange(offset, offset + len)) % 0x1_0000_0000) as u32,
                len as usize,
            ),
            None => (d[offset] as u32, 1),
        }
    }
}

/// A matching length lies between the bounds searched.
pub proof fn lemma_first_matching_len(c: CMap, d: Seq<u8>, offset: int, len: int, max_len: int)
    ensures
        first_matching_len(c, d, offset, len, max_len) matches Some(l) ==> len <= l <= max_len,
    decreases max_len + 1 - len,
{
    if len <= max_len {
        lemma_first_matching_len(c, d, offset, len + 1, max_len);
    }
}

/// A code read within the data takes at least one byte and no more than remain.
pub proof fn lemma_read_code_bounds(c: CMap, d: Seq<u8>, offset: int)
    requires
        0 <= offset < d.len(),
    ensures
        1 <= read_code_spec(c, d, offset).1 <= d.len() - offset,
{
    let remaining = d.len() - offset;
    let min_len = if c.min_len() < 1 {
        1
    } else {
        c.min_len() as int
    };
    let max_len = if c.max_len() < remaining {
        c.max_len() as int
    } else {
        remaining
    };
    lemma_first_matching_len(c, d, offset, min_len, max_len);
}

/// What the width of a CID can be: its single width when it has one;
/// otherwise the width of a range holding it or the default width, and,
/// once the ranges are ordered by first CID and disjoint, exactly the
/// width of the range covering it, or the default when none does.
pub open spec fn cid_width<W: Copy>(ws: CidWidths<W>, default_width: W, cid: u32, r: W) -> bool {
    if ws.singles().contains_key(cid) {
        r == ws.singles()[cid]
    } else {
        &&& (r == default_width || range_holds(ws.range_seq(), cid, r))
        &&& (sorted_by_start(ws.range_seq()) && disjoint_ranges(ws.range_seq())) ==> if range_covers(
            ws.range_seq(),
            cid,
        ) {
            range_holds(ws.range_seq(), cid, r)
        } else {
            r == default_width
        }
    }
}

/// A composite (Type0) font.
pub struct Type0Font<W> {
    base_font: String,
    encoding_cmap: CMap,
    is_cmap_predefined: bool,
    to_unicode_cmap: Option<CMap>,
    ucs2_cmap: Option<CMap>,
    is_descendant_cjk: bool,
    default_width: W,
    widths: CidWidths<W>,
}

impl<W: Copy> Type0Font<W> {
    /// The encoding CMap.
    pub closed spec fn encoding_map(&self) -> CMap {
        self.encoding_cmap
    }

    /// Whether the encoding CMap is a predefined one.
    pub closed spec fn cmap_predefined(&self) -> bool {
        self.is_cmap_predefined
    }

    /// The ToUnicode CMap.
    pub closed spec fn to_unicode_map(&self) -> Option<CMap> {
        self.to_unicode_cmap
    }

    /// The UCS2 CMap (CID → Unicode).
    pub closed spec fn ucs2_map(&self) -> Option<CMap> {
        self.ucs2_cmap
    }

    /// Whether the descendant font uses a CJK collection.
    pub closed spec fn descendant_cjk(&self) -> bool {
        self.is_descendant_cjk
    }

    /// The default width and the per-CID widths.
    pub closed spec fn width_parts(&self) -> (W, CidWidths<W>) {
        (self.default_width, self.widths)
    }

    /// The base font name.
    pub closed spec fn base_font_view(&self) -> Seq<char> {
        self.base_font@
    }

    /// The encoding CMap's codespace ranges are well formed and its CID
    /// ranges ordered.
    pub open spec fn wf(&self) -> bool {
        self.encoding_map().wf() && self.encoding_map().ranges_sorted()
    }

    /// A composite font from the parts of its dictionary.
    pub fn new(
        base_font: &str,
        encoding_cmap: CMap,
        is_cmap_predefined: bool,
        to_unicode_cmap: Option<CMap>,
        ucs2_cmap: Option<CMap>,
        is_descendant_cjk: bool,
        default_width: W,
        widths: CidWidths<W>,
    ) -> (r: Self)
        requires
            encoding_cmap.wf(),
            encoding_cmap.ranges_sorted(),
        ensures
            r.wf(),
            r.base_font_view() == base_font@,
            r.encoding_map() == encoding_cmap,
            r.cmap_predefined() == is_cmap_predefined,
            r.to_unicode_map() == to_unicode_cmap,
            r.ucs2_map() == ucs2_cmap,
            r.descendant_cjk() == is_descendant_cjk,
            r.width_parts() == (default_width, widths),
    {
        Type0Font {
            base_font: str_to_string(base_font),
            encoding_cmap,
            is_cmap_predefined,
            to_unicode_cmap,
            ucs2_cmap,
            is_descendant_cjk,
            default_width,
            widths,
        }
    }

    /// The CID of a code (see `cid_of`).
    pub fn code_to_cid(&self, code: u32) -> (r: u32)
        requires
            self.wf(),
        ensures
            r == cid_of(self.encoding_map(), code),
    {
        match self.encoding_cmap.to_cid(code, 2) {
            Some(c) => {
                return c;
            },
            None => {},
        }
        match self.encoding_cmap.to_cid(code, 1) {
            Some(c) => {
                return c;
            },
            None => {},
        }
        match self.encoding_cmap.to_cid(code, 3) {
            Some(c) => {
                return c;
            },
            None => {},
        }
        match self.encoding_cmap.to_cid(code, 4) {
            Some(c) => {
                return c;
            },
            None => {},
        }
        code
    }

    /// The text of a code (see `type0_text`).
    pub fn to_unicode(&self, code: u32) -> (r: Option<String>)
        requires
            self.wf(),
        ensures
            opt_string_view(r) == type0_text(
                self.encoding_map(),
                self.cmap_predefined(),
                self.to_unicode_map(),
                self.ucs2_map(),
                self.descendant_cjk(),
                code,
            ),
    {
        match &self.to_unicode_cmap {
            Some(cmap) => {
                match cmap.to_unicode(code, 2) {
                    Some(u) => {
                        return Some(str_to_string(u));
                    },
                    None => {},
                }
                match cmap.to_unicode(code, 1) {
                    Some(u) => {
                        return Some(str_to_string(u));
                    },
                    None => {},
                }
                match cmap.to_unicode(code, 3) {
                    Some(u) => {
                        return Some(str_to_string(u));
                    },
                    None => {},
                }
                match cmap.to_unicode(code, 4) {
                    Some(u) => {
                        return Some(str_to_string(u));
                    },
                    None => {},
                }
            },
            None => {},
        }
        if self.is_cmap_predefined || self.is_descendant_cjk {
            match &self.ucs2_cmap {
                Some(ucs2) => {
                    let cid = self.code_to_cid(code);
                    match ucs2.to_unicode(cid, 2) {
                        Some(u) => {
                            return Some(str_to_string(u));
                        },
                        None => {},
                    }
                    match ucs2.to_unicode(cid, 1) {
                        Some(u) => {
                            return Some(str_to_string(u));
                        },
                        None => {},
                    }
                },
                None => {},
            }
        }
        if self.to_unicode_cmap.is_some() && !self.is_cmap_predefined {
            return char_to_string(code);
        }
        let name = str_to_chars(self.encoding_cmap.cmap_name());
        let identity = str_to_chars("Identity");
        if name.len() >= identity.len() {
            let prefix = crate::text_std::chars_to_string(name.as_slice(), 0, identity.len());
            let pc = str_to_chars(prefix.as_str());
            if chars_eq(pc.as_slice(), identity.as_slice()) {
                let cid = self.code_to_cid(code);
                return char_to_string(cid);
            }
        }
        None
    }

    /// The width of a code: the width of its CID, else the default width.
    pub fn get_width(&self, code: u32) -> (r: W)
        requires
            self.wf(),
        ensures
            cid_width(self.width_parts().1, self.width_parts().0, cid_of(self.encoding_map(), code), r),
    {
        let cid = self.code_to_cid(code);
        match self.widths.get(cid) {
            Some(w) => w,
            None => self.default_width,
        }
    }

    /// Reads a character code at `offset` (see `read_code_spec`).
    pub fn read_code(&self, data: &[u8], offset: usize) -> (r: (u32, usize))
        requires
            self.wf(),
            offset <= data@.len(),
        ensures
            r == read_code_spec(self.encoding_map(), data@, offset as int),
    {
        let remaining = data.len() - offset;
        if remaining == 0 {
            return (0, 0);
        }
        let min_len = if self.encoding_cmap.min_code_length() < 1 {
            1
        } else {
            self.encoding_cmap.min_code_length()
        };
        let max_len = if self.encoding_cmap.max_code_length() < remaining {
            self.encoding_cmap.max_code_length()
        } else {
            remaining
        };
        let ghost c = self.encoding_map();
        if min_len > max_len {
            return (data[offset] as u32, 1);
        }
        let mut len = min_len;
        loop
            invariant_except_break
                c == self.encoding_map(),
                self.wf(),
                1 <= min_len <= len <= max_len,
                max_len <= remaining,
                min_len == (if c.min_len() < 1 {
                    1
                } else {
                    c.min_len()
                }),
                max_len == (if c.max_len() < remaining {
                    c.max_len()
                } else {
                    remaining
                }),
                remaining == data.len() - offset,
                offset + remaining == data.len(),
                first_matching_len(c, data@, offset as int, min_len as int, max_len as int)
                    == first_matching_len(c, data@, offset as int, len as int, max_len as int),
            ensures
                first_matching_len(c, data@, offset as int, min_len as int, max_len as int) is None,
            decreases max_len - len,
        {
            let bytes = vstd::slice::slice_subrange(data, offset, offset + len);
            assert(bytes@ == data@.subrange(offset as int, offset + len));
            if self.encoding_cmap.matches_codespace(bytes) {
                let code = crate::cmap_lexer::bytes_to_u32(bytes);
                assert(first_matching_len(c, data@, offset as int, len as int, max_len as int) == Some(
                    len as int,
                ));
                return (code, len);
            }
            assert(first_matching_len(c, data@, offset as int, len as int, max_len as int)
                == first_matching_len(c, data@, offset as int, len + 1, max_len as int));
            if len == max_len {
                assert(first_matching_len(c, data@, offset as int, len + 1, max_len as int) is None);
                break;
            }
            len = len + 1;
        }
        (data[offset] as u32, 1)
    }

    /// The base font name.
    pub fn base_font(&self) -> (r: &str)
        ensures
            r@ == self.base_font_view(),
    {
        self.base_font.as_str()
    }
}

/// The kind of font a `/Subtype` selects.
#[derive(Clone, Copy, Debug, PartialEq, Eq, Structural)]
pub enum FontKind {
    Simple,
    Type0,
    Type3,
}

/// The kind of font of a subtype: `Type0` and `Type3` are their own kinds,
/// everything else (`Type1`, `TrueType`, `MMType1`, unknown) is read as a
/// simple font.
pub fn font_kind(subtype: &str) -> (r: FontKind)
    ensures
        r == if subtype@ == "Type0"@ {
            FontKind::Type0
        } else if subtype@ == "Type3"@ {
            FontKind::Type3
        } else {
            FontKind::Simple
        },
{
    let s = str_to_chars(subtype);
    let t0 = str_to_chars("Type0");
    let t3 = str_to_chars("Type3");
    if chars_eq(s.as_slice(), t0.as_slice()) {
        FontKind::Type0
    } else if chars_eq(s.as_slice(), t3.as_slice()) {
        FontKind::Type3
    } else {
        FontKind::Simple
    }
}

/// A font that can decode character codes to Unicode text.
pub enum PdfFont<W> {
    /// Simple fonts: Type1, TrueType, MMType1.
    Simple(SimpleFont<W>),
    /// Composite fonts.
    Type0(Type0Font<W>),
    /// Type3 fonts.
    Type3(Type3Font<W>),
}

/// The text a font gives a code.
pub open spec fn font_unicode<W: Copy>(
    f: PdfFont<W>,
    code: u32,
    glyphs: Map<Seq<char>, Seq<char>>,
    zapf: Map<Seq<char>, Seq<char>>,
) -> Option<Seq<char>> {
    match f {
        PdfFont::Simple(s) => simple_text(
            s.to_unicode_map(),
            s.encoding_codes(),
            if s.uses_dingbats() {
                zapf
            } else {
                glyphs
            },
            code,
        ),
        PdfFont::Type0(t) => type0_text(
            t.encoding_map(),
            t.cmap_predefined(),
            t.to_unicode_map(),
            t.ucs2_map(),
            t.descendant_cjk(),
            code,
        ),
        PdfFont::Type3(t) => simple_text(t.to_unicode_map(), t.encoding_codes(), glyphs, code),
    }
}

/// The code a font reads at `offset`, and its length.
pub open spec fn font_read_code<W: Copy>(f: PdfFont<W>, d: Seq<u8>, offset: int) -> (u32, usize) {
    match f {
        PdfFont::Type0(t) => read_code_spec(t.encoding_map(), d, offset),
        _ => if 0 <= offset < d.len() {
            (d[offset] as u32, 1usize)
        } else {
            (0u32, 0usize)
        },
    }
}

impl<W: Copy> PdfFont<W> {
    /// The font is well formed (a composite font's encoding CMap is).
    pub open spec fn wf(&self) -> bool {
        match self {
            PdfFont::Type0(f) => f.wf(),
            _ => true,
        }
    }

    /// The text of a code, by the font's own rules (`glyphs` and `zapf` are
    /// the default and the ZapfDingbats glyph lists).
    pub fn to_unicode(&self, code: u32, glyphs: &GlyphList, zapf: &GlyphList) -> (r: Option<String>)
        requires
            self.wf(),
        ensures
            opt_string_view(r) == font_unicode(*self, code, glyphs.names(), zapf.names()),
    {
        match self {
            PdfFont::Simple(f) => f.to_unicode(code, glyphs, zapf),
            PdfFont::Type0(f) => f.to_unicode(code),
            PdfFont::Type3(f) => f.to_unicode(code, glyphs),
        }
    }

    /// The width of a code.
    pub fn get_width(&self, code: u32) -> (r: W)
        requires
            self.wf(),
        ensures
            match self {
                PdfFont::Simple(f) => r == if code >= f.width_table().1 && code - f.width_table().1
                    < f.width_table().0.len() {
                    f.width_table().0[code - f.width_table().1]
                } else {
                    f.width_table().2
                },
                PdfFont::Type3(f) => r == if code >= f.width_table().1 && code - f.width_table().1
                    < f.width_table().0.len() {
                    f.width_table().0[code - f.width_table().1]
                } else {
                    f.width_table().2
                },
                PdfFont::Type0(f) => cid_width(f.width_parts().1, f.width_parts().0, cid_of(f.encoding_map(), code), r),
            },
    {
        match self {
            PdfFont::Simple(f) => f.get_width(code),
            PdfFont::Type0(f) => f.get_width(code),
            PdfFont::Type3(f) => f.get_width(code),
        }
    }

    /// Reads a character code at `offset`: one byte for simple and Type3
    /// fonts (nothing past the end), by codespace ranges for composite fonts.
    pub fn read_code(&self, data: &[u8], offset: usize) -> (r: (u32, usize))
        requires
            self.wf(),
            self is Type0 ==> offset <= data@.len(),
        ensures
            r == font_read_code(*self, data@, offset as int),
    {
        match self {
            PdfFont::Type0(f) => f.read_code(data, offset),
            _ => {
                if offset < data.len() {
                    (data[offset] as u32, 1)
                } else {
                    (0, 0)
                }
            },
        }
    }

    /// Whether the font cannot decode codes (never: every kind decodes).
    pub fn is_stub(&self) -> (r: bool)
        ensures
            !r,
    {
        false
    }

    /// The base font name.
    pub fn base_font_name(&self) -> (r: &str)
        ensures
            r@ == match self {
                PdfFont::Simple(f) => f.base_font_view(),
                PdfFont::Type0(f) => f.base_font_view(),
                PdfFont::Type3(f) => f.base_font_view(),
            },
    {
        match self {
            PdfFont::Simple(f) => f.base_font(),
            PdfFont::Type0(f) => f.base_font(),
            PdfFont::Type3(f) => f.base_font(),
        }
    }
}

} // verus!
