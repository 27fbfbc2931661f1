//! Predefined CMaps: CMap streams known by name.

use vstd::prelude::*;
use crate::cmap::CMap;
use crate::cmap_parser::{built_from, cmap_ops, parse_cmap};
use crate::glyph_list::GlyphList;
use crate::text_std::{chars_eq, str_to_chars, str_to_string};

verus! {

/// The index of the first entry named `name`, or -1.
pub open spec fn first_named(table: Seq<(String, Vec<u8>)>, name: Seq<char>) -> int
    decreases table.len(),
{
    if table.len() == 0 {
        -1
    } else {
        let k = first_named(table.drop_last(), name);
        if k >= 0 {
            k
        } else if table.last().0@ == name {
            table.len() - 1
        } else {
            -1
        }
    }
}

/// The index of the entry named `name` among the predefined CMaps.
fn find_named(predefined: &Vec<(String, Vec<u8>)>, name: &str) -> (r: Option<usize>)
    ensures
        match r {
            Some(i) => first_named(predefined@, name@) == i && i < predefined@.len(),
            None => first_named(predefined@, name@) == -1,
        },
{
    let key = str_to_chars(name);
    let mut i: usize = 0;
    while i < predefined.len()
        invariant
            0 <= i <= predefined@.len(),
            key@ == name@,
            first_named(predefined@.subrange(0, i as int), name@) == -1,
        decreases predefined@.len() - i,
    {
        let entry = str_to_chars(predefined[i].0.as_str());
        assert(predefined@.subrange(0, i + 1).drop_last() =~= predefined@.subrange(0, i as int));
        if chars_eq(entry.as_slice(), key.as_slice()) {
            proof {
                lemma_first_named_prefix(predefined@, name@, i + 1);
            }
            return Some(i);
        }
        i = i + 1;
    }
    assert(predefined@.subrange(0, i as int) =~= predefined@);
    None
}

/// Once found in a prefix, the first entry of a name stays the first.
proof fn lemma_first_named_prefix(table: Seq<(String, Vec<u8>)>, name: Seq<char>, n: int)
    requires
        0 <= n <= table.len(),
        first_named(table.subrange(0, n), name) >= 0,
    ensures
        first_named(table, name) == first_named(table.subrange(0, n), name),
    decreases table.len() - n,
{
    if n < table.len() {
        assert(table.subrange(0, n + 1).drop_last() =~= table.subrange(0, n));
        lemma_first_named_prefix(table, name, n + 1);
    } else {
        assert(table.subrange(0, n) =~= table);
    }
}

/// Whether a predefined CMap of that name exists.
pub fn has_predefined_cmap(predefined: &Vec<(String, Vec<u8>)>, name: &str) -> (r: bool)
    ensures
        r == (first_named(predefined@, name@) >= 0),
{
    find_named(predefined, name).is_some()
}

/// The predefined CMap of that name, read from its stream (the first entry
/// of that name); `None` when there is none.
pub fn get_predefined_cmap(
    predefined: &Vec<(String, Vec<u8>)>,
    name: &str,
    glyphs: &GlyphList,
) -> (r: Option<CMap>)
    ensures
        r is Some <==> first_named(predefined@, name@) >= 0,
        r matches Some(c) ==> built_from(
            c,
            cmap_ops(glyphs.names(), predefined@[first_named(predefined@, name@)].1@),
        ),
{
    match find_named(predefined, name) {
        Some(i) => Some(parse_cmap(predefined[i].1.as_slice(), glyphs)),
        None => None,
    }
}

/// The `Identity-H` CMap: the predefined one, else an empty CMap of that name.
pub fn identity_h(predefined: &Vec<(String, Vec<u8>)>, glyphs: &GlyphList) -> (r: CMap)
    ensures
        first_named(predefined@, "Identity-H"@) >= 0 ==> built_from(
            r,
            cmap_ops(glyphs.names(), predefined@[first_named(predefined@, "Identity-H"@)].1@),
        ),
        first_named(predefined@, "Identity-H"@) < 0 ==> r.name_view() == "Identity-H"@
            && r.wf() && r.ranges_sorted() && r.codespace().len() == 0
            && forall|len: int| 1 <= len <= 4 ==> (#[trigger] r.unicode_map(len)).dom()
                == Set::<u32>::empty() && r.cid_map(len).dom() == Set::<u32>::empty()
                && r.cid_range_seq(len).len() == 0,
{
    match get_predefined_cmap(predefined, "Identity-H", glyphs) {
        Some(c) => c,
        None => {
            let mut cmap = CMap::new();
            cmap.set_name(str_to_string("Identity-H"));
            cmap
        },
    }
}

} // verus!
