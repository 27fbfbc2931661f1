//! Character maps (CMaps): character codes of one to four bytes mapped to
//! Unicode text and to CIDs.

use vstd::prelude::*;
use crate::tables::{
    cid_entries, reverse_entries, unicode_entries, CidTable, ReverseTable, UnicodeTable,
};

verus! {

/// The valid byte boundaries of character codes of one length.
#[derive(Clone, Debug)]
pub struct CodespaceRange {
    /// Lowest value of each byte position.
    pub start: Vec<u8>,
    /// Highest value of each byte position.
    pub end: Vec<u8>,
    /// Number of bytes in a code of this range.
    pub code_length: usize,
}

impl CodespaceRange {
    /// Both bounds cover every byte position of the code length.
    pub open spec fn wf(&self) -> bool {
        self.start@.len() >= self.code_length && self.end@.len() >= self.code_length
    }

    /// Whether `code` has this range's length and each byte lies within its bounds.
    pub open spec fn matches_spec(&self, code: Seq<u8>) -> bool {
        &&& code.len() == self.code_length
        &&& forall|i: int|
            0 <= i < code.len() ==> self.start@[i] <= #[trigger] code[i] <= self.end@[i]
    }

    /// A range whose code length is the length of `start`.
    pub fn new(start: Vec<u8>, end: Vec<u8>) -> (r: Self)
        ensures
            r.start@ == start@,
            r.end@ == end@,
            r.code_length == start@.len(),
    {
        let code_length = start.len();
        CodespaceRange { start, end, code_length }
    }

    /// Whether a byte sequence lies within this range.
    pub fn matches(&self, code: &[u8]) -> (r: bool)
        requires
            self.wf(),
        ensures
            r == self.matches_spec(code@),
    {
        if code.len() != self.code_length {
            return false;
        }
        let mut i: usize = 0;
        while i < self.code_length
            invariant
                self.wf(),
                code@.len() == self.code_length,
                0 <= i <= self.code_length,
                forall|j: int| 0 <= j < i ==> self.start@[j] <= #[trigger] code@[j] <= self.end@[j],
            decreases self.code_length - i,
        {
            if code[i] < self.start[i] || code[i] > self.end[i] {
                assert(!(self.start@[i as int] <= code@[i as int] <= self.end@[i as int]));
                return false;
            }
            i = i + 1;
        }
        true
    }

    /// A copy of this range with the same bounds.
    pub fn duplicate(&self) -> (r: Self)
        ensures
            r.start@ == self.start@,
            r.end@ == self.end@,
            r.code_length == self.code_length,
    {
        CodespaceRange {
            start: copy_bytes(&self.start),
            end: copy_bytes(&self.end),
            code_length: self.code_length,
        }
    }
}

/// A copy of a byte vector.
pub fn copy_bytes(v: &Vec<u8>) -> (r: Vec<u8>)
    ensures
        r@ == v@,
{
    let mut out: Vec<u8> = Vec::new();
    let mut i: usize = 0;
    while i < v.len()
        invariant
            0 <= i <= v@.len(),
            out@ == v@.subrange(0, i as int),
        decreases v@.len() - i,
    {
        out.push(v[i]);
        i = i + 1;
        assert(out@ =~= v@.subrange(0, i as int));
    }
    assert(v@.subrange(0, v@.len() as int) =~= v@);
    out
}

/// A range of codes mapped to consecutive CIDs.
#[derive(Clone, Copy, Debug)]
pub struct CidRange {
    /// First code of the range.
    pub from: u32,
    /// Last code of the range (inclusive).
    pub to: u32,
    /// CID of the first code.
    pub cid_start: u32,
    /// Byte length of the codes.
    pub code_length: usize,
}

/// `a + b` modulo 2^32, as the addition of two `u32` values wraps.
pub open spec fn wrap_add(a: u32, b: u32) -> u32 {
    ((a as int + b as int) % 0x1_0000_0000) as u32
}

/// The CID a range gives to one of its codes.
pub open spec fn range_cid(r: CidRange, code: u32) -> u32 {
    wrap_add(r.cid_start, (code - r.from) as u32)
}

/// How many ranges start at or below `code`.
pub open spec fn count_from_le(rs: Seq<CidRange>, code: u32) -> nat
    decreases rs.len(),
{
    if rs.len() == 0 {
        0
    } else {
        count_from_le(rs.drop_last(), code) + if rs.last().from <= code {
            1nat
        } else {
            0nat
        }
    }
}

/// Ranges ordered by their first code.
pub open spec fn sorted_by_from(rs: Seq<CidRange>) -> bool {
    forall|i: int, j: int| 0 <= i <= j < rs.len() ==> rs[i].from <= rs[j].from
}

/// The CID that the ranges give to `code`: the last range (in order) whose
/// first code is at most `code` is used when it also covers `code`.
pub open spec fn ranges_cid(rs: Seq<CidRange>, code: u32) -> Option<u32> {
    let idx = count_from_le(rs, code) as int;
    if idx > 0 && code <= rs[idx - 1].to {
        Some(range_cid(rs[idx - 1], code))
    } else {
        None
    }
}

/// The bucket that a range of the given code length is kept in.
pub open spec fn range_bucket(code_length: usize) -> int {
    if code_length == 0 {
        0
    } else if code_length > 4 {
        3
    } else {
        code_length - 1
    }
}

/// The big-endian bytes of a 32-bit code.
pub open spec fn be_bytes4(code: u32) -> Seq<u8> {
    seq![
        ((code as int / 0x1000000) % 256) as u8,
        ((code as int / 0x10000) % 256) as u8,
        ((code as int / 0x100) % 256) as u8,
        (code as int % 256) as u8,
    ]
}

/// The last `len` big-endian bytes of a 32-bit code.
pub open spec fn be_suffix(code: u32, len: int) -> Seq<u8> {
    be_bytes4(code).subrange(4 - len, 4)
}

/// Total of the sizes of four maps.
pub open spec fn total_len(a: nat, b: nat, c: nat, d: nat) -> nat {
    a + b + c + d
}

/// Unicode text as an optional character sequence.
pub open spec fn opt_chars(o: Option<&str>) -> Option<Seq<char>> {
    match o {
        Some(s) => Some(s@),
        None => None,
    }
}

/// The smallest code length among the ranges, starting from `m`.
pub open spec fn fold_min_len(m: usize, rs: Seq<CodespaceRange>) -> usize
    decreases rs.len(),
{
    if rs.len() == 0 {
        m
    } else {
        let prev = fold_min_len(m, rs.drop_last());
        if rs.last().code_length < prev {
            rs.last().code_length
        } else {
            prev
        }
    }
}

/// The largest code length among the ranges, starting from `m`.
pub open spec fn fold_max_len(m: usize, rs: Seq<CodespaceRange>) -> usize
    decreases rs.len(),
{
    if rs.len() == 0 {
        m
    } else {
        let prev = fold_max_len(m, rs.drop_last());
        if rs.last().code_length > prev {
            rs.last().code_length
        } else {
            prev
        }
    }
}

/// The bounds and length of a codespace range, as plain values.
pub open spec fn range_view(r: CodespaceRange) -> (Seq<u8>, Seq<u8>, usize) {
    (r.start@, r.end@, r.code_length)
}

/// The views of a sequence of codespace ranges.
pub open spec fn ranges_view(rs: Seq<CodespaceRange>) -> Seq<(Seq<u8>, Seq<u8>, usize)> {
    rs.map_values(|r: CodespaceRange| range_view(r))
}

/// A character map: codespace ranges and code → Unicode / code → CID mappings,
/// kept per code length (one to four bytes).
#[derive(Clone)]
pub struct CMap {
    /// CMap name.
    pub name: String,
    /// Writing mode: 0 horizontal, 1 vertical.
    pub wmode: i32,
    codespace_ranges: Vec<CodespaceRange>,
    char_to_unicode: [UnicodeTable; 4],
    code_to_cid: [CidTable; 4],
    cid_ranges: [Vec<CidRange>; 4],
    unicode_to_code: ReverseTable,
    min_code_length: usize,
    max_code_length: usize,
}

impl CMap {
    /// The CMap's name.
    pub closed spec fn name_view(&self) -> Seq<char> {
        self.name@
    }

    /// The writing mode.
    pub closed spec fn wmode_view(&self) -> i32 {
        self.wmode
    }

    /// Code → Unicode mappings for codes of `len` bytes (1 to 4).
    pub closed spec fn unicode_map(&self, len: int) -> Map<u32, Seq<char>> {
        unicode_entries(self.char_to_unicode[len - 1])
    }

    /// Direct code → CID mappings for codes of `len` bytes (1 to 4).
    pub closed spec fn cid_map(&self, len: int) -> Map<u32, u32> {
        cid_entries(self.code_to_cid[len - 1])
    }

    /// CID ranges kept for codes of `len` bytes (1 to 4).
    pub closed spec fn cid_range_seq(&self, len: int) -> Seq<CidRange> {
        self.cid_ranges[len - 1]@
    }

    /// Unicode text → code bytes (the first code registered for a text).
    pub closed spec fn reverse_map(&self) -> Map<Seq<char>, Seq<u8>> {
        reverse_entries(self.unicode_to_code)
    }

    /// The codespace ranges, in the order they were added.
    pub closed spec fn codespace(&self) -> Seq<CodespaceRange> {
        self.codespace_ranges@
    }

    /// Smallest code length seen (4 when there is no range).
    pub closed spec fn min_len(&self) -> usize {
        self.min_code_length
    }

    /// Largest code length seen (0 when there is no range).
    pub closed spec fn max_len(&self) -> usize {
        self.max_code_length
    }

    /// Every codespace range covers its code length.
    pub open spec fn wf(&self) -> bool {
        forall|k: int| 0 <= k < self.codespace().len() ==> (#[trigger] self.codespace()[k]).wf()
    }

    /// The Unicode text mapped to `code` among codes of `len` bytes.
    pub open spec fn lookup_unicode(&self, code: u32, len: int) -> Option<Seq<char>> {
        if 1 <= len <= 4 && self.unicode_map(len).contains_key(code) {
            Some(self.unicode_map(len)[code])
        } else {
            None
        }
    }

    /// The first Unicode mapping of `code` trying lengths 1, 2, 3, 4.
    pub open spec fn lookup_unicode_any(&self, code: u32) -> Option<Seq<char>> {
        if self.lookup_unicode(code, 1) is Some {
            self.lookup_unicode(code, 1)
        } else if self.lookup_unicode(code, 2) is Some {
            self.lookup_unicode(code, 2)
        } else if self.lookup_unicode(code, 3) is Some {
            self.lookup_unicode(code, 3)
        } else {
            self.lookup_unicode(code, 4)
        }
    }

    /// The CID of `code` among codes of `len` bytes: a direct mapping wins,
    /// then the ranges as ordered by their first code.
    pub open spec fn lookup_cid(&self, code: u32, len: int) -> Option<u32> {
        if !(1 <= len <= 4) {
            None
        } else if self.cid_map(len).contains_key(code) {
            Some(self.cid_map(len)[code])
        } else {
            ranges_cid(self.cid_range_seq(len), code)
        }
    }

    /// Whether every CID range bucket is ordered by first code.
    pub open spec fn ranges_sorted(&self) -> bool {
        forall|len: int| 1 <= len <= 4 ==> sorted_by_from(#[trigger] self.cid_range_seq(len))
    }

    /// Everything but the name and the writing mode is unchanged.
    pub open spec fn same_mappings(&self, other: &CMap) -> bool {
        &&& forall|len: int| 1 <= len <= 4 ==> #[trigger] self.unicode_map(len) == other.unicode_map(len)
        &&& forall|len: int| 1 <= len <= 4 ==> #[trigger] self.cid_map(len) == other.cid_map(len)
        &&& forall|len: int| 1 <= len <= 4 ==> #[trigger] self.cid_range_seq(len) == other.cid_range_seq(len)
        &&& self.reverse_map() == other.reverse_map()
        &&& self.codespace() == other.codespace()
        &&& self.min_len() == other.min_len()
        &&& self.max_len() == other.max_len()
    }

    /// An empty CMap with an empty name and horizontal writing mode.
    pub fn new() -> (r: Self)
        ensures
            r.name_view() == Seq::<char>::empty(),
            r.wmode_view() == 0,
            r.wf(),
            r.ranges_sorted(),
            r.codespace().len() == 0,
            r.min_len() == 4,
            r.max_len() == 0,
            r.reverse_map().dom() == Set::<Seq<char>>::empty(),
            forall|len: int| 1 <= len <= 4 ==> (#[trigger] r.unicode_map(len)).dom() == Set::<u32>::empty(),
            forall|len: int| 1 <= len <= 4 ==> (#[trigger] r.cid_map(len)).dom() == Set::<u32>::empty(),
            forall|len: int| 1 <= len <= 4 ==> (#[trigger] r.cid_range_seq(len)).len() == 0,
    {
        CMap {
            name: String::new(),
            wmode: 0,
            codespace_ranges: Vec::new(),
            char_to_unicode: [UnicodeTable::new(), UnicodeTable::new(), UnicodeTable::new(), UnicodeTable::new()],
            code_to_cid: [CidTable::new(), CidTable::new(), CidTable::new(), CidTable::new()],
            cid_ranges: [Vec::new(), Vec::new(), Vec::new(), Vec::new()],
            unicode_to_code: ReverseTable::new(),
            min_code_length: 4,
            max_code_length: 0,
        }
    }

    /// Whether some code of some length is mapped to Unicode.
    pub fn has_unicode_mappings(&self) -> (r: bool)
        ensures
            r == exists|len: int| 1 <= len <= 4 && #[trigger] self.unicode_map(len).dom().len() > 0,
    {
        let mut k: usize = 0;
        while k < 4
            invariant
                0 <= k <= 4,
                forall|len: int| 1 <= len <= k ==> #[trigger] self.unicode_map(len).dom().len() == 0,
            decreases 4 - k,
        {
            if self.char_to_unicode[k].len() > 0 {
                assert(self.unicode_map(k + 1).dom().len() > 0);
                return true;
            }
            k = k + 1;
        }
        false
    }

    /// The CMap's name.
    pub fn cmap_name(&self) -> (r: &str)
        ensures
            r@ == self.name_view(),
    {
        self.name.as_str()
    }

    /// Sets the CMap's name.
    pub fn set_name(&mut self, name: String)
        ensures
            final(self).name_view() == name@,
            final(self).wmode_view() == old(self).wmode_view(),
            final(self).same_mappings(old(self)),
            final(self).wf() == old(self).wf(),
            final(self).ranges_sorted() == old(self).ranges_sorted(),
    {
        let ghost before = *self;
        self.name = name;
        proof {
            lemma_same_ranges(&before, self);
        }
    }

    /// Sets the writing mode.
    pub fn set_wmode(&mut self, wmode: i32)
        ensures
            final(self).wmode_view() == wmode,
            final(self).name_view() == old(self).name_view(),
            final(self).same_mappings(old(self)),
            final(self).wf() == old(self).wf(),
            final(self).ranges_sorted() == old(self).ranges_sorted(),
    {
        let ghost before = *self;
        self.wmode = wmode;
        proof {
            lemma_same_ranges(&before, self);
        }
    }

    /// The Unicode text of a code of `length` bytes.
    pub fn to_unicode(&self, code: u32, length: usize) -> (r: Option<&str>)
        ensures
            opt_chars(r) == self.lookup_unicode(code, length as int),
    {
        if length == 0 || length > 4 {
            return None;
        }
        self.char_to_unicode[length - 1].get(code)
    }

    /// The Unicode text of a code, trying code lengths 1 to 4 in turn.
    pub fn to_unicode_any(&self, code: u32) -> (r: Option<&str>)
        ensures
            opt_chars(r) == self.lookup_unicode_any(code),
    {
        let mut len: usize = 0;
        while len < 4
            invariant
                0 <= len <= 4,
                forall|l: int| 1 <= l <= len ==> self.lookup_unicode(code, l) is None,
            decreases 4 - len,
        {
            let found = self.char_to_unicode[len].get(code);
            if let Some(s) = found {
                assert(self.lookup_unicode(code, len + 1) == Some(s@));
                return Some(s);
            }
            len = len + 1;
        }
        None
    }

    /// The CID of a code of `length` bytes. Direct mappings are tried first,
    /// then the ranges by binary search on their first codes (exact once the
    /// ranges are ordered, see `finalize_cid_ranges`).
    pub fn to_cid(&self, code: u32, length: usize) -> (r: Option<u32>)
        ensures
            self.ranges_sorted() ==> r == self.lookup_cid(code, length as int),
            !(1 <= length <= 4) ==> r is None,
            1 <= length <= 4 && self.cid_map(length as int).contains_key(code) ==> r == Some(
                self.cid_map(length as int)[code],
            ),
            r is Some && 1 <= length <= 4 && !self.cid_map(length as int).contains_key(code)
                ==> exists|k: int|
                0 <= k < self.cid_range_seq(length as int).len() && #[trigger] self.cid_range_seq(
                    length as int,
                )[k].from <= code <= self.cid_range_seq(length as int)[k].to && r->0 == range_cid(
                    self.cid_range_seq(length as int)[k],
                    code,
                ),
    {
        if length == 0 || length > 4 {
            return None;
        }
        if let Some(cid) = self.code_to_cid[length - 1].get(code) {
            return Some(cid);
        }
        let ranges = &self.cid_ranges[length - 1];
        let idx = partition_point_from_le(ranges, code);
        if idx > 0 {
            let range = ranges[idx - 1];
            if code >= range.from && code <= range.to {
                let cid = add_wrapping(range.cid_start, code - range.from);
                return Some(cid);
            } else if code <= range.to {
                assert(self.ranges_sorted() ==> sorted_by_from(ranges@));
                return None;
            }
        }
        None
    }

    /// Orders each CID range bucket by first code, as `to_cid` expects.
    pub fn finalize_cid_ranges(&mut self)
        ensures
            final(self).ranges_sorted(),
            final(self).name_view() == old(self).name_view(),
            final(self).wmode_view() == old(self).wmode_view(),
            forall|len: int| 1 <= len <= 4 ==> #[trigger] final(self).cid_range_seq(len).to_multiset()
                == old(self).cid_range_seq(len).to_multiset(),
            forall|len: int| 1 <= len <= 4 ==> #[trigger] final(self).unicode_map(len) == old(self).unicode_map(len),
            forall|len: int| 1 <= len <= 4 ==> #[trigger] final(self).cid_map(len) == old(self).cid_map(len),
            final(self).reverse_map() == old(self).reverse_map(),
            final(self).codespace() == old(self).codespace(),
            final(self).min_len() == old(self).min_len(),
            final(self).max_len() == old(self).max_len(),
    {
        let mut i: usize = 0;
        while i < 4
            invariant
                0 <= i <= 4,
                self.name == old(self).name,
                self.wmode == old(self).wmode,
                forall|k: int| 0 <= k < i ==> sorted_by_from(#[trigger] self.cid_ranges[k]@),
                forall|k: int| 0 <= k < 4 ==> (#[trigger] self.cid_ranges[k]@).to_multiset()
                    == old(self).cid_ranges[k]@.to_multiset(),
                forall|k: int| i <= k < 4 ==> #[trigger] self.cid_ranges[k] == old(self).cid_ranges[k],
                self.char_to_unicode == old(self).char_to_unicode,
                self.code_to_cid == old(self).code_to_cid,
                self.unicode_to_code == old(self).unicode_to_code,
                self.codespace_ranges == old(self).codespace_ranges,
                self.min_code_length == old(self).min_code_length,
                self.max_code_length == old(self).max_code_length,
            decreases 4 - i,
        {
            sort_ranges_by_from(&mut self.cid_ranges[i]);
            i = i + 1;
        }
        assert forall|len: int| 1 <= len <= 4 implies sorted_by_from(
            #[trigger] self.cid_range_seq(len),
        ) by {
            assert(sorted_by_from(self.cid_ranges[len - 1]@));
        }
    }

    /// The code bytes first registered for a Unicode text.
    pub fn get_codes_from_unicode(&self, unicode: &str) -> (r: Option<&[u8]>)
        ensures
            r is Some <==> self.reverse_map().contains_key(unicode@),
            r matches Some(b) ==> b@ == self.reverse_map()[unicode@],
    {
        self.unicode_to_code.get(unicode)
    }

    /// Adds a codespace range and widens the known code lengths to include it.
    pub fn add_codespace_range(&mut self, range: CodespaceRange)
        ensures
            final(self).codespace() == old(self).codespace().push(range),
            final(self).min_len() == if range.code_length < old(self).min_len() {
                range.code_length
            } else {
                old(self).min_len()
            },
            final(self).max_len() == if range.code_length > old(self).max_len() {
                range.code_length
            } else {
                old(self).max_len()
            },
            old(self).wf() && range.wf() ==> final(self).wf(),
            final(self).name_view() == old(self).name_view(),
            final(self).wmode_view() == old(self).wmode_view(),
            final(self).ranges_sorted() == old(self).ranges_sorted(),
            forall|len: int| 1 <= len <= 4 ==> #[trigger] final(self).unicode_map(len) == old(self).unicode_map(len),
            forall|len: int| 1 <= len <= 4 ==> #[trigger] final(self).cid_map(len) == old(self).cid_map(len),
            forall|len: int| 1 <= len <= 4 ==> #[trigger] final(self).cid_range_seq(len) == old(self).cid_range_seq(len),
            final(self).reverse_map() == old(self).reverse_map(),
    {
        let len = range.code_length;
        if len < self.min_code_length {
            self.min_code_length = len;
        }
        if len > self.max_code_length {
            self.max_code_length = len;
        }
        self.codespace_ranges.push(range);
        assert(self.cid_ranges == old(self).cid_ranges);
        proof {
            lemma_same_ranges(self, old(self));
        }
        assert(old(self).wf() && range.wf() ==> self.wf()) by {
            if old(self).wf() && range.wf() {
                assert forall|k: int| 0 <= k < self.codespace().len() implies (
                #[trigger] self.codespace()[k]).wf() by {
                    if k < old(self).codespace().len() {
                        assert(self.codespace()[k] == old(self).codespace()[k]);
                    }
                }
            }
        }
    }

    /// Maps a code of `length` bytes (1 to 4) to Unicode text; the code's
    /// bytes are also recorded for the text unless the text already has some.
    /// Other lengths are ignored.
    pub fn add_char_mapping(&mut self, code: u32, length: usize, unicode: String)
        ensures
            final(self).name_view() == old(self).name_view(),
            final(self).wmode_view() == old(self).wmode_view(),
            final(self).codespace() == old(self).codespace(),
            final(self).min_len() == old(self).min_len(),
            final(self).max_len() == old(self).max_len(),
            forall|len: int| 1 <= len <= 4 ==> #[trigger] final(self).cid_map(len) == old(self).cid_map(len),
            forall|len: int| 1 <= len <= 4 ==> #[trigger] final(self).cid_range_seq(len) == old(self).cid_range_seq(len),
            final(self).ranges_sorted() == old(self).ranges_sorted(),
            final(self).wf() == old(self).wf(),
            !(1 <= length <= 4) ==> final(self).reverse_map() == old(self).reverse_map()
                && forall|len: int| 1 <= len <= 4 ==> #[trigger] final(self).unicode_map(len) == old(self).unicode_map(len),
            1 <= length <= 4 ==> final(self).reverse_map() == if old(self).reverse_map().contains_key(unicode@) {
                old(self).reverse_map()
            } else {
                old(self).reverse_map().insert(unicode@, be_suffix(code, length as int))
            },
            1 <= length <= 4 ==> forall|len: int| 1 <= len <= 4 ==> #[trigger] final(self).unicode_map(len) == if len == length {
                old(self).unicode_map(len).insert(code, unicode@)
            } else {
                old(self).unicode_map(len)
            },
    {
        if length == 0 || length > 4 {
            return;
        }
        let b0 = ((code / 0x1000000) % 256) as u8;
        let b1 = ((code / 0x10000) % 256) as u8;
        let b2 = ((code / 0x100) % 256) as u8;
        let b3 = (code % 256) as u8;
        let all: [u8; 4] = [b0, b1, b2, b3];
        let mut code_bytes: Vec<u8> = Vec::new();
        let mut i: usize = 4 - length;
        while i < 4
            invariant
                1 <= length <= 4,
                4 - length <= i <= 4,
                all@ == be_bytes4(code),
                code_bytes@ == all@.subrange(4 - length, i as int),
            decreases 4 - i,
        {
            code_bytes.push(all[i]);
            i = i + 1;
            assert(code_bytes@ =~= all@.subrange(4 - length, i as int));
        }
        self.unicode_to_code.insert_if_absent(unicode.as_str(), code_bytes.as_slice());
        self.char_to_unicode[length - 1].insert(code, unicode.as_str());
        assert(self.cid_ranges == old(self).cid_ranges);
        assert(self.codespace_ranges == old(self).codespace_ranges);
        proof {
            lemma_same_ranges(self, old(self));
            lemma_same_codespace(self, old(self));
        }
    }

    /// Maps a code of `length` bytes (1 to 4) directly to a CID; other
    /// lengths are ignored.
    pub fn add_cid_mapping(&mut self, code: u32, length: usize, cid: u32)
        ensures
            final(self).name_view() == old(self).name_view(),
            final(self).wmode_view() == old(self).wmode_view(),
            final(self).codespace() == old(self).codespace(),
            final(self).min_len() == old(self).min_len(),
            final(self).max_len() == old(self).max_len(),
            final(self).reverse_map() == old(self).reverse_map(),
            forall|len: int| 1 <= len <= 4 ==> #[trigger] final(self).unicode_map(len) == old(self).unicode_map(len),
            forall|len: int| 1 <= len <= 4 ==> #[trigger] final(self).cid_range_seq(len) == old(self).cid_range_seq(len),
            final(self).ranges_sorted() == old(self).ranges_sorted(),
            final(self).wf() == old(self).wf(),
            forall|len: int| 1 <= len <= 4 ==> #[trigger] final(self).cid_map(len) == if len == length {
                old(self).cid_map(len).insert(code, cid)
            } else {
                old(self).cid_map(len)
            },
    {
        if length == 0 || length > 4 {
            return;
        }
        self.code_to_cid[length - 1].insert(code, cid);
        assert(self.cid_ranges == old(self).cid_ranges);
        assert(self.codespace_ranges == old(self).codespace_ranges);
        proof {
            lemma_same_ranges(self, old(self));
            lemma_same_codespace(self, old(self));
        }
    }

    /// Appends a CID range to the bucket of its code length (lengths below 1
    /// go to the first bucket, above 4 to the last).
    pub fn add_cid_range(&mut self, range: CidRange)
        ensures
            final(self).name_view() == old(self).name_view(),
            final(self).wmode_view() == old(self).wmode_view(),
            final(self).codespace() == old(self).codespace(),
            final(self).min_len() == old(self).min_len(),
            final(self).max_len() == old(self).max_len(),
            final(self).reverse_map() == old(self).reverse_map(),
            final(self).wf() == old(self).wf(),
            forall|len: int| 1 <= len <= 4 ==> #[trigger] final(self).unicode_map(len) == old(self).unicode_map(len),
            forall|len: int| 1 <= len <= 4 ==> #[trigger] final(self).cid_map(len) == old(self).cid_map(len),
            forall|len: int| 1 <= len <= 4 ==> #[trigger] final(self).cid_range_seq(len) == if len - 1 == range_bucket(range.code_length) {
                old(self).cid_range_seq(len).push(range)
            } else {
                old(self).cid_range_seq(len)
            },
    {
        let idx: usize = if range.code_length == 0 {
            0
        } else if range.code_length - 1 > 3 {
            3
        } else {
            range.code_length - 1
        };
        self.cid_ranges[idx].push(range);
        assert(self.codespace_ranges == old(self).codespace_ranges);
    }

    /// The codespace ranges, in the order they were added.
    pub fn codespace_ranges(&self) -> (r: &[CodespaceRange])
        ensures
            r@ == self.codespace(),
    {
        self.codespace_ranges.as_slice()
    }

    /// Whether a byte sequence lies within some codespace range.
    pub fn matches_codespace(&self, code: &[u8]) -> (r: bool)
        requires
            self.wf(),
        ensures
            r == exists|k: int|
                0 <= k < self.codespace().len() && (#[trigger] self.codespace()[k]).matches_spec(code@),
    {
        let mut k: usize = 0;
        while k < self.codespace_ranges.len()
            invariant
                self.wf(),
                0 <= k <= self.codespace().len(),
                forall|j: int| 0 <= j < k ==> !(#[trigger] self.codespace()[j]).matches_spec(code@),
            decreases self.codespace().len() - k,
        {
            assert(self.codespace()[k as int].wf());
            if self.codespace_ranges[k].matches(code) {
                return true;
            }
            k = k + 1;
        }
        false
    }

    /// The smallest code length among the codespace ranges (4 when none).
    pub fn min_code_length(&self) -> (r: usize)
        ensures
            r == self.min_len(),
    {
        self.min_code_length
    }

    /// The largest code length among the codespace ranges (0 when none).
    pub fn max_code_length(&self) -> (r: usize)
        ensures
            r == self.max_len(),
    {
        self.max_code_length
    }

    /// Number of code → Unicode mappings over all code lengths.
    pub fn unicode_mapping_count(&self) -> (r: usize)
        requires
            total_len(
                self.unicode_map(1).dom().len(),
                self.unicode_map(2).dom().len(),
                self.unicode_map(3).dom().len(),
                self.unicode_map(4).dom().len(),
            ) <= usize::MAX,
        ensures
            r == total_len(
                self.unicode_map(1).dom().len(),
                self.unicode_map(2).dom().len(),
                self.unicode_map(3).dom().len(),
                self.unicode_map(4).dom().len(),
            ),
    {
        let a = self.char_to_unicode[0].len();
        let b = self.char_to_unicode[1].len();
        let c = self.char_to_unicode[2].len();
        let d = self.char_to_unicode[3].len();
        a + b + c + d
    }

    /// Number of CID mappings: direct mappings plus ranges, over all lengths.
    pub fn cid_mapping_count(&self) -> (r: usize)
        requires
            total_len(
                self.cid_map(1).dom().len(),
                self.cid_map(2).dom().len(),
                self.cid_map(3).dom().len(),
                self.cid_map(4).dom().len(),
            ) + total_len(
                self.cid_range_seq(1).len(),
                self.cid_range_seq(2).len(),
                self.cid_range_seq(3).len(),
                self.cid_range_seq(4).len(),
            ) <= usize::MAX,
        ensures
            r == total_len(
                self.cid_map(1).dom().len(),
                self.cid_map(2).dom().len(),
                self.cid_map(3).dom().len(),
                self.cid_map(4).dom().len(),
            ) + total_len(
                self.cid_range_seq(1).len(),
                self.cid_range_seq(2).len(),
                self.cid_range_seq(3).len(),
                self.cid_range_seq(4).len(),
            ),
    {
        let a = self.code_to_cid[0].len();
        let b = self.code_to_cid[1].len();
        let c = self.code_to_cid[2].len();
        let d = self.code_to_cid[3].len();
        let e = self.cid_ranges[0].len();
        let f = self.cid_ranges[1].len();
        let g = self.cid_ranges[2].len();
        let h = self.cid_ranges[3].len();
        (a + b + c + d) + (e + f + g + h)
    }
    /// Adds another CMap's codespace ranges, CID ranges and the mappings
    /// for codes (and texts) this CMap does not map yet; existing mappings
    /// win. The CID ranges may need `finalize_cid_ranges` afterwards.
    pub fn merge(&mut self, other: &CMap)
        ensures
            final(self).name_view() == old(self).name_view(),
            final(self).wmode_view() == old(self).wmode_view(),
            ranges_view(final(self).codespace()) == ranges_view(old(self).codespace()) + ranges_view(
                other.codespace(),
            ),
            final(self).min_len() == fold_min_len(old(self).min_len(), other.codespace()),
            final(self).max_len() == fold_max_len(old(self).max_len(), other.codespace()),
            old(self).wf() && other.wf() ==> final(self).wf(),
            forall|len: int| 1 <= len <= 4 ==> #[trigger] final(self).unicode_map(len) == other.unicode_map(len).union_prefer_right(old(self).unicode_map(len)),
            forall|len: int| 1 <= len <= 4 ==> #[trigger] final(self).cid_map(len) == other.cid_map(len).union_prefer_right(old(self).cid_map(len)),
            forall|len: int| 1 <= len <= 4 ==> #[trigger] final(self).cid_range_seq(len) == old(self).cid_range_seq(len) + other.cid_range_seq(len),
            final(self).reverse_map() == other.reverse_map().union_prefer_right(old(self).reverse_map()),
    {
        let n = other.codespace_ranges.len();
        let mut i: usize = 0;
        while i < n
            invariant
                n == other.codespace().len(),
                0 <= i <= n,
                ranges_view(self.codespace()) == ranges_view(old(self).codespace()) + ranges_view(
                    other.codespace().subrange(0, i as int),
                ),
                self.min_len() == fold_min_len(old(self).min_len(), other.codespace().subrange(0, i as int)),
                self.max_len() == fold_max_len(old(self).max_len(), other.codespace().subrange(0, i as int)),
                old(self).wf() && other.wf() ==> self.wf(),
                self.name@ == old(self).name@,
                self.wmode == old(self).wmode,
                forall|k: int| 0 <= k < 4 ==> #[trigger] unicode_entries(self.char_to_unicode[k]) == unicode_entries(old(self).char_to_unicode[k]),
                forall|k: int| 0 <= k < 4 ==> #[trigger] cid_entries(self.code_to_cid[k]) == cid_entries(old(self).code_to_cid[k]),
                forall|k: int| 0 <= k < 4 ==> #[trigger] self.cid_ranges[k]@ == old(self).cid_ranges[k]@,
                reverse_entries(self.unicode_to_code) == reverse_entries(old(self).unicode_to_code),
            decreases n - i,
        {
            let r = other.codespace_ranges[i].duplicate();
            let ghost before = self.codespace();
            proof {
                if other.wf() {
                    assert(other.codespace()[i as int].wf());
                }
            }
            self.add_codespace_range(r);
            proof {
                let sub = other.codespace().subrange(0, i as int);
                let sub1 = other.codespace().subrange(0, i + 1);
                assert(sub1.drop_last() =~= sub);
                assert(sub1.last() == other.codespace()[i as int]);
                assert(range_view(r) == range_view(other.codespace()[i as int]));
                assert(ranges_view(self.codespace()) =~= ranges_view(before).push(range_view(r)));
                assert(ranges_view(sub1) =~= ranges_view(sub).push(range_view(r)));
                assert forall|k: int| 0 <= k < 4 implies #[trigger] unicode_entries(self.char_to_unicode[k]) == unicode_entries(old(self).char_to_unicode[k]) by {
                    assert(self.unicode_map(k + 1) == old(self).unicode_map(k + 1));
                }
                assert forall|k: int| 0 <= k < 4 implies #[trigger] cid_entries(self.code_to_cid[k]) == cid_entries(old(self).code_to_cid[k]) by {
                    assert(self.cid_map(k + 1) == old(self).cid_map(k + 1));
                }
                assert forall|k: int| 0 <= k < 4 implies #[trigger] self.cid_ranges[k]@ == old(self).cid_ranges[k]@ by {
                    assert(self.cid_range_seq(k + 1) == old(self).cid_range_seq(k + 1));
                }
            }
            i = i + 1;
        }
        assert(other.codespace().subrange(0, n as int) =~= other.codespace());
        let ghost mid = *self;
        let mut b: usize = 0;
        while b < 4
            invariant
                0 <= b <= 4,
                forall|k: int| 0 <= k < b ==> #[trigger] unicode_entries(self.char_to_unicode[k]) == unicode_entries(other.char_to_unicode[k]).union_prefer_right(unicode_entries(old(self).char_to_unicode[k])),
                forall|k: int| b <= k < 4 ==> #[trigger] unicode_entries(self.char_to_unicode[k]) == unicode_entries(old(self).char_to_unicode[k]),
                forall|k: int| 0 <= k < b ==> #[trigger] cid_entries(self.code_to_cid[k]) == cid_entries(other.code_to_cid[k]).union_prefer_right(cid_entries(old(self).code_to_cid[k])),
                forall|k: int| b <= k < 4 ==> #[trigger] cid_entries(self.code_to_cid[k]) == cid_entries(old(self).code_to_cid[k]),
                forall|k: int| 0 <= k < b ==> #[trigger] self.cid_ranges[k]@ == old(self).cid_ranges[k]@ + other.cid_ranges[k]@,
                forall|k: int| b <= k < 4 ==> #[trigger] self.cid_ranges[k]@ == old(self).cid_ranges[k]@,
                reverse_entries(self.unicode_to_code) == reverse_entries(old(self).unicode_to_code),
                self.codespace_ranges == mid.codespace_ranges,
                self.min_code_length == mid.min_code_length,
                self.max_code_length == mid.max_code_length,
                self.name == mid.name,
                self.wmode == mid.wmode,
            decreases 4 - b,
        {
            merge_unicode_into(&mut self.char_to_unicode[b], &other.char_to_unicode[b]);
            merge_cid_into(&mut self.code_to_cid[b], &other.code_to_cid[b]);
            append_ranges(&mut self.cid_ranges[b], &other.cid_ranges[b]);
            b = b + 1;
        }
        merge_reverse_into(&mut self.unicode_to_code, &other.unicode_to_code);
    }
}

/// Appends copies of `src`'s ranges to `dst`.
fn append_ranges(dst: &mut Vec<CidRange>, src: &Vec<CidRange>)
    ensures
        final(dst)@ == old(dst)@ + src@,
{
    let m = src.len();
    let mut j: usize = 0;
    while j < m
        invariant
            m == src@.len(),
            0 <= j <= m,
            dst@ == old(dst)@ + src@.subrange(0, j as int),
        decreases m - j,
    {
        dst.push(src[j]);
        j = j + 1;
        assert(dst@ =~= old(dst)@ + src@.subrange(0, j as int));
    }
    assert(src@.subrange(0, m as int) =~= src@);
}

/// Adds the entries of `src` whose codes `dst` lacks.
fn merge_unicode_into(dst: &mut UnicodeTable, src: &UnicodeTable)
    ensures
        unicode_entries(*final(dst)) == unicode_entries(*src).union_prefer_right(unicode_entries(*old(dst))),
{
    let entries = src.entries();
    let ghost orig = unicode_entries(*dst);
    let ghost other = unicode_entries(*src);
    let mut i: usize = 0;
    while i < entries.len()
        invariant
            0 <= i <= entries@.len(),
            other == unicode_entries(*src),
            forall|j: int| 0 <= j < entries@.len() ==> other.contains_key(#[trigger] entries@[j].0)
                && other[entries@[j].0] == entries@[j].1@,
            forall|k: u32| #[trigger] unicode_entries(*dst).contains_key(k) <==> (orig.contains_key(k) || exists|j: int| 0 <= j < i && entries@[j].0 == k),
            forall|k: u32| #[trigger] unicode_entries(*dst).contains_key(k) ==> unicode_entries(*dst)[k] == if orig.contains_key(k) { orig[k] } else { other[k] },
        decreases entries@.len() - i,
    {
        let code = entries[i].0;
        if dst.get(code).is_none() {
            dst.insert(code, entries[i].1.as_str());
        }
        i = i + 1;
    }
    assert(unicode_entries(*dst) =~= other.union_prefer_right(orig)) by {
        assert forall|k: u32| other.contains_key(k) implies unicode_entries(*dst).contains_key(k) by {
            let j = choose|j: int| 0 <= j < entries@.len() && #[trigger] entries@[j].0 == k;
            assert(entries@[j].0 == k);
        }
    }
}

/// Adds the entries of `src` whose codes `dst` lacks.
fn merge_cid_into(dst: &mut CidTable, src: &CidTable)
    ensures
        cid_entries(*final(dst)) == cid_entries(*src).union_prefer_right(cid_entries(*old(dst))),
{
    let entries = src.entries();
    let ghost orig = cid_entries(*dst);
    let ghost other = cid_entries(*src);
    let mut i: usize = 0;
    while i < entries.len()
        invariant
            0 <= i <= entries@.len(),
            other == cid_entries(*src),
            forall|j: int| 0 <= j < entries@.len() ==> other.contains_key(#[trigger] entries@[j].0)
                && other[entries@[j].0] == entries@[j].1,
            forall|k: u32| #[trigger] cid_entries(*dst).contains_key(k) <==> (orig.contains_key(k) || exists|j: int| 0 <= j < i && entries@[j].0 == k),
            forall|k: u32| #[trigger] cid_entries(*dst).contains_key(k) ==> cid_entries(*dst)[k] == if orig.contains_key(k) { orig[k] } else { other[k] },
        decreases entries@.len() - i,
    {
        let code = entries[i].0;
        if dst.get(code).is_none() {
            dst.insert(code, entries[i].1);
        }
        i = i + 1;
    }
    assert(cid_entries(*dst) =~= other.union_prefer_right(orig)) by {
        assert forall|k: u32| other.contains_key(k) implies cid_entries(*dst).contains_key(k) by {
            let j = choose|j: int| 0 <= j < entries@.len() && #[trigger] entries@[j].0 == k;
            assert(entries@[j].0 == k);
        }
    }
}

/// Adds the entries of `src` whose texts `dst` lacks.
fn merge_reverse_into(dst: &mut ReverseTable, src: &ReverseTable)
    ensures
        reverse_entries(*final(dst)) == reverse_entries(*src).union_prefer_right(reverse_entries(*old(dst))),
{
    let entries = src.entries();
    let ghost orig = reverse_entries(*dst);
    let ghost other = reverse_entries(*src);
    let mut i: usize = 0;
    while i < entries.len()
        invariant
            0 <= i <= entries@.len(),
            other == reverse_entries(*src),
            forall|j: int| 0 <= j < entries@.len() ==> other.contains_key(#[trigger] entries@[j].0@)
                && other[entries@[j].0@] == entries@[j].1@,
            forall|k: Seq<char>| #[trigger] reverse_entries(*dst).contains_key(k) <==> (orig.contains_key(k) || exists|j: int| 0 <= j < i && entries@[j].0@ == k),
            forall|k: Seq<char>| #[trigger] reverse_entries(*dst).contains_key(k) ==> reverse_entries(*dst)[k] == if orig.contains_key(k) { orig[k] } else { other[k] },
        decreases entries@.len() - i,
    {
        dst.insert_if_absent(entries[i].0.as_str(), entries[i].1.as_slice());
        i = i + 1;
    }
    assert(reverse_entries(*dst) =~= other.union_prefer_right(orig)) by {
        assert forall|k: Seq<char>| other.contains_key(k) implies reverse_entries(*dst).contains_key(k) by {
            let j = choose|j: int| 0 <= j < entries@.len() && #[trigger] entries@[j].0@ == k;
            assert(entries@[j].0@ == k);
        }
    }
}


/// Two CMaps with the same range buckets agree on whether they are ordered.
proof fn lemma_same_ranges(a: &CMap, b: &CMap)
    requires
        a.cid_ranges == b.cid_ranges,
    ensures
        a.ranges_sorted() == b.ranges_sorted(),
{
    assert forall|len: int| 1 <= len <= 4 implies #[trigger] a.cid_range_seq(len)
        == b.cid_range_seq(len) by {}
    if a.ranges_sorted() {
        assert forall|len: int| 1 <= len <= 4 implies sorted_by_from(#[trigger] b.cid_range_seq(len)) by {
            assert(sorted_by_from(a.cid_range_seq(len)));
        }
    }
    if b.ranges_sorted() {
        assert forall|len: int| 1 <= len <= 4 implies sorted_by_from(#[trigger] a.cid_range_seq(len)) by {
            assert(sorted_by_from(b.cid_range_seq(len)));
        }
    }
}

/// Two CMaps with the same codespace ranges agree on well-formedness.
proof fn lemma_same_codespace(a: &CMap, b: &CMap)
    requires
        a.codespace_ranges@ == b.codespace_ranges@,
    ensures
        a.wf() == b.wf(),
{
    assert(a.codespace() == b.codespace());
}

/// `a + b` with wrap-around at 2^32.
fn add_wrapping(a: u32, b: u32) -> (r: u32)
    ensures
        r == wrap_add(a, b),
{
    let s: u64 = a as u64 + b as u64;
    (s % 0x1_0000_0000) as u32
}

/// In ranges ordered by first code, those starting at or below `code` form a prefix.
proof fn lemma_count_sorted(rs: Seq<CidRange>, code: u32, idx: int)
    requires
        sorted_by_from(rs),
        0 <= idx <= rs.len(),
        forall|j: int| 0 <= j < idx ==> rs[j].from <= code,
        forall|j: int| idx <= j < rs.len() ==> rs[j].from > code,
    ensures
        count_from_le(rs, code) == idx,
    decreases rs.len(),
{
    if rs.len() > 0 {
        if idx == rs.len() {
            lemma_count_sorted(rs.drop_last(), code, idx - 1);
        } else {
            lemma_count_sorted(rs.drop_last(), code, idx);
        }
    }
}

/// Binary search for the first range whose first code exceeds `code`.
fn partition_point_from_le(ranges: &Vec<CidRange>, code: u32) -> (idx: usize)
    ensures
        idx <= ranges@.len(),
        sorted_by_from(ranges@) ==> idx == count_from_le(ranges@, code),
        sorted_by_from(ranges@) ==> forall|j: int| 0 <= j < idx ==> ranges@[j].from <= code,
{
    let mut lo: usize = 0;
    let mut hi: usize = ranges.len();
    while lo < hi
        invariant
            0 <= lo <= hi <= ranges@.len(),
            sorted_by_from(ranges@) ==> forall|j: int| 0 <= j < lo ==> ranges@[j].from <= code,
            sorted_by_from(ranges@) ==> forall|j: int| hi <= j < ranges@.len() ==> ranges@[j].from > code,
        decreases hi - lo,
    {
        let mid = lo + (hi - lo) / 2;
        if ranges[mid].from <= code {
            lo = mid + 1;
        } else {
            hi = mid;
        }
    }
    proof {
        if sorted_by_from(ranges@) {
            lemma_count_sorted(ranges@, code, lo as int);
        }
    }
    lo
}

/// Stable insertion sort of ranges by first code.
fn sort_ranges_by_from(v: &mut Vec<CidRange>)
    ensures
        sorted_by_from(final(v)@),
        final(v)@.to_multiset() == old(v)@.to_multiset(),
{
    broadcast use vstd::seq_lib::group_to_multiset_ensures;
    let mut out: Vec<CidRange> = Vec::new();
    let mut i: usize = 0;
    while i < v.len()
        invariant
            0 <= i <= v@.len(),
            v@ == old(v)@,
            sorted_by_from(out@),
            out@.to_multiset() == v@.subrange(0, i as int).to_multiset(),
        decreases v@.len() - i,
    {
        let x = v[i];
        let mut pos: usize = out.len();
        while pos > 0 && out[pos - 1].from > x.from
            invariant
                0 <= pos <= out@.len(),
                sorted_by_from(out@),
                forall|j: int| pos <= j < out@.len() ==> out@[j].from > x.from,
            decreases pos,
        {
            pos = pos - 1;
        }
        let ghost before = out@;
        out.insert(pos, x);
        assert(out@ == before.insert(pos as int, x));
        proof {
            vstd::seq_lib::to_multiset_insert(before, pos as int, x);
            vstd::seq_lib::to_multiset_build(v@.subrange(0, i as int), x);
        }
        assert(sorted_by_from(out@)) by {
            assert forall|a: int, b: int| 0 <= a <= b < out@.len() implies out@[a].from
                <= out@[b].from by {
                if a < pos && b > pos {
                    assert(out@[a] == before[a]);
                    assert(out@[b] == before[b - 1]);
                } else if a < pos && b == pos {
                    assert(out@[a] == before[a]);
                    assert(before[pos - 1].from <= x.from);
                    if a < pos - 1 {
                        assert(before[a].from <= before[pos - 1].from);
                    }
                } else if a == pos && b > pos {
                    assert(out@[b] == before[b - 1]);
                } else if a > pos {
                    assert(out@[a] == before[a - 1]);
                    assert(out@[b] == before[b - 1]);
                } else if b < pos {
                    assert(out@[a] == before[a]);
                    assert(out@[b] == before[b]);
                }
            }
        }
        assert(v@.subrange(0, i + 1) =~= v@.subrange(0, i as int).push(x));
        i = i + 1;
    }
    assert(v@.subrange(0, v@.len() as int) =~= v@);
    *v = out;
}

impl Default for CMap {
    /// The empty CMap of `CMap::new`.
    fn default() -> (r: Self)
        ensures
            r.name_view() == Seq::<char>::empty(),
            r.wmode_view() == 0,
            r.wf(),
            r.ranges_sorted(),
            r.codespace().len() == 0,
            r.min_len() == 4,
            r.max_len() == 0,
            r.reverse_map().dom() == Set::<Seq<char>>::empty(),
            forall|len: int| 1 <= len <= 4 ==> (#[trigger] r.unicode_map(len)).dom() == Set::<u32>::empty(),
            forall|len: int| 1 <= len <= 4 ==> (#[trigger] r.cid_map(len)).dom() == Set::<u32>::empty(),
            forall|len: int| 1 <= len <= 4 ==> (#[trigger] r.cid_range_seq(len)).len() == 0,
    {
        CMap::new()
    }
}

} // verus!
