//! Glyph widths: per-code width arrays of simple fonts and per-CID widths
//! of composite fonts. Widths are opaque values of any copyable type.

use std::collections::HashMap;
use vstd::prelude::*;

verus! {

broadcast use vstd::std_specs::hash::group_hash_axioms;

/// The CIDs `start..=end` all have the same width.
#[derive(Clone, Copy, Debug)]
pub struct WidthRange<W> {
    pub start: u32,
    pub end: u32,
    pub width: W,
}

/// Whether ranges are ordered by first CID.
pub open spec fn sorted_by_start<W>(rs: Seq<WidthRange<W>>) -> bool {
    forall|a: int, b: int| 0 <= a <= b < rs.len() ==> rs[a].start <= rs[b].start
}

/// Whether every range is non-empty and no two ranges share a CID.
pub open spec fn disjoint_ranges<W>(rs: Seq<WidthRange<W>>) -> bool {
    &&& forall|a: int| 0 <= a < rs.len() ==> #[trigger] rs[a].start <= rs[a].end
    &&& forall|a: int, b: int|
        0 <= a < b < rs.len() ==> rs[a].end < rs[b].start || rs[b].end < rs[a].start
}

/// Whether some range holds `cid` with width `w`.
pub open spec fn range_holds<W>(rs: Seq<WidthRange<W>>, cid: u32, w: W) -> bool {
    exists|i: int| 0 <= i < rs.len() && rs[i].start <= cid <= rs[i].end && #[trigger] rs[i].width == w
}

/// Whether some range covers `cid`.
pub open spec fn range_covers<W>(rs: Seq<WidthRange<W>>, cid: u32) -> bool {
    exists|i: int| 0 <= i < rs.len() && #[trigger] rs[i].start <= cid <= rs[i].end
}

/// Widths per CID: single CIDs, and ranges of CIDs sharing one width.
pub struct CidWidths<W> {
    individual: HashMap<u32, W>,
    ranges: Vec<WidthRange<W>>,
}

impl<W: Copy> CidWidths<W> {
    /// The widths of single CIDs.
    pub closed spec fn singles(&self) -> Map<u32, W> {
        self.individual@
    }

    /// The ranges, in their current order.
    pub closed spec fn range_seq(&self) -> Seq<WidthRange<W>> {
        self.ranges@
    }

    /// No widths.
    pub fn new() -> (r: Self)
        ensures
            r.singles() == Map::<u32, W>::empty(),
            r.range_seq() == Seq::<WidthRange<W>>::empty(),
    {
        let r = CidWidths { individual: HashMap::new(), ranges: Vec::new() };
        assert(r.range_seq() =~= Seq::<WidthRange<W>>::empty());
        r
    }

    /// Gives one CID a width.
    pub fn insert_individual(&mut self, cid: u32, width: W)
        ensures
            final(self).singles() == old(self).singles().insert(cid, width),
            final(self).range_seq() == old(self).range_seq(),
    {
        self.individual.insert(cid, width);
    }

    /// Gives the CIDs `start..=end` a width: up to 33 CIDs are stored one by
    /// one, more as a range.
    pub fn insert_range(&mut self, start: u32, end: u32, width: W)
        ensures
            start <= end && end - start <= 32 ==> final(self).singles() == old(self).singles().union_prefer_right(
                Map::new(|c: u32| start <= c <= end, |c: u32| width),
            ) && final(self).range_seq() == old(self).range_seq(),
            !(start <= end && end - start <= 32) ==> final(self).singles() == old(self).singles()
                && final(self).range_seq() == old(self).range_seq().push(
                WidthRange { start, end, width },
            ),
    {
        if start <= end && end - start <= 32 {
            let ghost base = self.individual@;
            let mut cid: u64 = start as u64;
            while cid <= end as u64
                invariant
                    start <= cid <= end as int + 1,
                    end - start <= 32,
                    self.ranges@ == old(self).ranges@,
                    self.individual@ == base.union_prefer_right(
                        Map::new(|c: u32| start <= c < cid, |c: u32| width),
                    ),
                decreases end as int + 1 - cid,
            {
                self.individual.insert(cid as u32, width);
                assert(self.individual@ =~= base.union_prefer_right(
                    Map::new(|c: u32| start <= c < cid + 1, |c: u32| width),
                ));
                cid = cid + 1;
            }
            assert(self.individual@ =~= base.union_prefer_right(
                Map::new(|c: u32| start <= c <= end, |c: u32| width),
            ));
        } else {
            self.ranges.push(WidthRange { start, end, width });
        }
    }

    /// Orders the ranges by first CID, as `get` expects.
    pub fn finalize(&mut self)
        ensures
            final(self).singles() == old(self).singles(),
            sorted_by_start(final(self).range_seq()),
            final(self).range_seq().to_multiset() == old(self).range_seq().to_multiset(),
    {
        broadcast use vstd::seq_lib::group_to_multiset_ensures;

        let mut v: Vec<WidthRange<W>> = Vec::new();
        std::mem::swap(&mut v, &mut self.ranges);
        let ghost orig = v@;
        let mut out: Vec<WidthRange<W>> = Vec::new();
        let mut i: usize = 0;
        while i < v.len()
            invariant
                0 <= i <= v@.len(),
                v@ == orig,
                self.individual@ == old(self).individual@,
                orig == old(self).ranges@,
                sorted_by_start(out@),
                out@.to_multiset() == v@.subrange(0, i as int).to_multiset(),
            decreases v@.len() - i,
        {
            let x = v[i];
            let mut pos: usize = out.len();
            while pos > 0 && out[pos - 1].start > x.start
                invariant
                    0 <= pos <= out@.len(),
                    sorted_by_start(out@),
                    forall|j: int| pos <= j < out@.len() ==> out@[j].start > x.start,
                decreases pos,
            {
                pos = pos - 1;
            }
            let ghost before = out@;
            out.insert(pos, x);
            assert(out@ == before.insert(pos as int, x));
            proof {
                vstd::seq_lib::to_multiset_insert(before, pos as int, x);
                vstd::seq_lib::to_multiset_build(v@.subrange(0, i as int), x);
            }
            assert(sorted_by_start(out@)) by {
                assert forall|a: int, b: int| 0 <= a <= b < out@.len() implies out@[a].start
                    <= out@[b].start by {
                    if a < pos && b > pos {
                        assert(out@[a] == before[a]);
                        assert(out@[b] == before[b - 1]);
                    } else if a < pos && b == pos {
                        assert(out@[a] == before[a]);
                        assert(before[pos - 1].start <= x.start);
                        if a < pos - 1 {
                            assert(before[a].start <= before[pos - 1].start);
                        }
                    } else if a == pos && b > pos {
                        assert(out@[b] == before[b - 1]);
                    } else if a > pos {
                        assert(out@[a] == before[a - 1]);
                        assert(out@[b] == before[b - 1]);
                    } else if b < pos {
                        assert(out@[a] == before[a]);
                        assert(out@[b] == before[b]);
                    }
                }
            }
            assert(v@.subrange(0, i + 1) =~= v@.subrange(0, i as int).push(x));
            i = i + 1;
        }
        assert(v@.subrange(0, v@.len() as int) =~= v@);
        self.ranges = out;
    }

    /// The width of a CID: a single entry first, then a range found by binary
    /// search on first CIDs (any range holding it when ranges overlap).
    pub fn get(&self, cid: u32) -> (r: Option<W>)
        ensures
            self.singles().contains_key(cid) ==> r == Some(self.singles()[cid]),
            !self.singles().contains_key(cid) ==> (r matches Some(w) ==> range_holds(
                self.range_seq(),
                cid,
                w,
            )),
            !self.singles().contains_key(cid) && sorted_by_start(self.range_seq())
                && disjoint_ranges(self.range_seq()) ==> (r is Some <==> range_covers(
                self.range_seq(),
                cid,
            )),
    {
        match self.individual.get(&cid) {
            Some(w) => {
                return Some(*w);
            },
            None => {},
        }
        let ghost rs = self.ranges@;
        let mut lo: usize = 0;
        let mut hi: usize = self.ranges.len();
        while lo < hi
            invariant
                rs == self.ranges@,
                0 <= lo <= hi <= rs.len(),
                sorted_by_start(rs) ==> forall|j: int| 0 <= j < lo ==> rs[j].start <= cid,
                sorted_by_start(rs) ==> forall|j: int| hi <= j < rs.len() ==> rs[j].start > cid,
            decreases hi - lo,
        {
            let mid = lo + (hi - lo) / 2;
            if self.ranges[mid].start <= cid {
                lo = mid + 1;
            } else {
                hi = mid;
            }
        }
        if lo > 0 {
            let r = self.ranges[lo - 1];
            if r.start <= cid && cid <= r.end {
                assert(rs[lo - 1] == r);
                return Some(r.width);
            }
            proof {
                if sorted_by_start(rs) && disjoint_ranges(rs) && range_covers(rs, cid) {
                    let i = choose|i: int| 0 <= i < rs.len() && #[trigger] rs[i].start <= cid <= rs[i].end;
                    assert(i < lo);
                    if i < lo - 1 {
                        assert(rs[i].start <= rs[lo - 1].start);
                        assert(rs[lo - 1].start <= rs[lo - 1].end);
                        assert(rs[i].end < rs[lo - 1].start || rs[lo - 1].end < rs[i].start);
                    }
                }
            }
        }
        None
    }
}

/// The width of a code in a simple font's widths array starting at
/// `first_char`, else `missing_width`.
pub fn width_in_array<W: Copy>(widths: &Vec<W>, first_char: u16, missing_width: W, code: u32) -> (r: W)
    ensures
        r == if code >= first_char && code - first_char < widths@.len() {
            widths@[code - first_char]
        } else {
            missing_width
        },
{
    if code >= first_char as u32 {
        let idx = (code - first_char as u32) as usize;
        if idx < widths.len() {
            return widths[idx];
        }
    }
    missing_width
}

/// How an item of a `/W` array reads.
pub enum WKind<W> {
    /// An array of widths.
    Array(Vec<W>),
    /// A number.
    Number,
    /// Anything else.
    Other,
}

/// An item of a CIDFont `/W` array, references resolved: what it reads as a
/// CID (if it is a number), as a width (0 if it is not a number), and its kind.
pub struct WItem<W> {
    pub as_cid: Option<u32>,
    pub as_width: W,
    pub kind: WKind<W>,
}

/// The single widths after giving the CIDs from `cid` on the widths `ws[j..]`
/// (CIDs wrap at 2^32).
pub open spec fn singles_from_array<W>(m: Map<u32, W>, cid: u32, ws: Seq<W>, j: int) -> Map<u32, W>
    decreases ws.len() - j,
{
    if j < 0 || j >= ws.len() {
        m
    } else {
        singles_from_array(
            m.insert(((cid as int + j) % 0x1_0000_0000) as u32, ws[j]),
            cid,
            ws,
            j + 1,
        )
    }
}

/// The widths after a range entry `start end width`.
pub open spec fn range_entry<W>(m: Map<u32, W>, rs: Seq<WidthRange<W>>, start: u32, end: u32, w: W) -> (
    Map<u32, W>,
    Seq<WidthRange<W>>,
) {
    if start <= end && end - start <= 32 {
        (m.union_prefer_right(Map::new(|c: u32| start <= c <= end, |c: u32| w)), rs)
    } else {
        (m, rs.push(WidthRange { start, end, width: w }))
    }
}

/// The widths after reading a `/W` array from item `i` on: `c [w1 w2 ...]`
/// gives consecutive CIDs their widths, `c1 c2 w` a range one width (1000
/// units, `absent_width`, when the width is missing); items that start
/// neither are skipped.
pub open spec fn w_array_from<W>(
    items: Seq<WItem<W>>,
    i: int,
    m: Map<u32, W>,
    rs: Seq<WidthRange<W>>,
    absent_width: W,
) -> (Map<u32, W>, Seq<WidthRange<W>>)
    decreases items.len() - i,
{
    if i < 0 || i >= items.len() {
        (m, rs)
    } else {
        match items[i].as_cid {
            None => w_array_from(items, i + 1, m, rs, absent_width),
            Some(start) => if i + 1 >= items.len() {
                (m, rs)
            } else {
                match items[i + 1].kind {
                    WKind::Array(ws) => w_array_from(
                        items,
                        i + 2,
                        singles_from_array(m, start, ws@, 0),
                        rs,
                        absent_width,
                    ),
                    WKind::Number => {
                        let end = match items[i + 1].as_cid {
                            Some(e) => e,
                            None => start,
                        };
                        if i + 2 < items.len() {
                            let (m2, rs2) = range_entry(m, rs, start, end, items[i + 2].as_width);
                            w_array_from(items, i + 3, m2, rs2, absent_width)
                        } else {
                            range_entry(m, rs, start, end, absent_width)
                        }
                    },
                    WKind::Other => w_array_from(items, i + 2, m, rs, absent_width),
                }
            },
        }
    }
}

/// Reads a CIDFont `/W` array into `widths`.
pub fn parse_w_array<W: Copy>(items: &Vec<WItem<W>>, widths: &mut CidWidths<W>, absent_width: W)
    ensures
        (final(widths).singles(), final(widths).range_seq()) == w_array_from(
            items@,
            0,
            old(widths).singles(),
            old(widths).range_seq(),
            absent_width,
        ),
{
    let n = items.len();
    let mut i: usize = 0;
    while i < n
        invariant
            n == items@.len(),
            0 <= i <= n,
            w_array_from(items@, 0, old(widths).singles(), old(widths).range_seq(), absent_width)
                == w_array_from(items@, i as int, widths.singles(), widths.range_seq(), absent_width),
        ensures
            w_array_from(items@, 0, old(widths).singles(), old(widths).range_seq(), absent_width)
                == (widths.singles(), widths.range_seq()),
        decreases n - i,
    {
        let start = match items[i].as_cid {
            Some(v) => v,
            None => {
                i = i + 1;
                continue;
            },
        };
        if i + 1 >= n {
            assert(w_array_from(items@, i as int, widths.singles(), widths.range_seq(), absent_width)
                == (widths.singles(), widths.range_seq()));
            break;
        }
        match &items[i + 1].kind {
            WKind::Array(ws) => {
                let mut j: usize = 0;
                let ghost m0 = widths.singles();
                let ghost rs0 = widths.range_seq();
                while j < ws.len()
                    invariant
                        0 <= j <= ws@.len(),
                        widths.range_seq() == rs0,
                        singles_from_array(m0, start, ws@, 0) == singles_from_array(
                            widths.singles(),
                            start,
                            ws@,
                            j as int,
                        ),
                    decreases ws@.len() - j,
                {
                    let cid: u32 = ((start as u128 + j as u128) % 0x1_0000_0000) as u32;
                    widths.insert_individual(cid, ws[j]);
                    j = j + 1;
                }
                i = i + 2;
            },
            WKind::Number => {
                let end = match items[i + 1].as_cid {
                    Some(e) => e,
                    None => start,
                };
                if i + 2 < n {
                    widths.insert_range(start, end, items[i + 2].as_width);
                    i = i + 3;
                } else {
                    widths.insert_range(start, end, absent_width);
                    i = n;
                }
            },
            WKind::Other => {
                i = i + 2;
            },
        }
    }
}

} // verus!
