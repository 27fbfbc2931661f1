//! Character encodings of simple fonts: character codes to glyph names.

use std::collections::HashMap;
use vstd::prelude::*;
use crate::glyph_list::opt_str_view;
use crate::text_std::{chars_eq, str_to_chars, str_to_string};

verus! {

broadcast use vstd::std_specs::hash::group_hash_axioms;

/// The view of a code → name table.
pub open spec fn name_table_view(m: Map<u16, String>) -> Map<u16, Seq<char>> {
    m.map_values(|s: String| s@)
}

/// Whether no name occurs twice in an association list.
pub open spec fn unique_names(v: Seq<(String, u16)>) -> bool {
    forall|i: int, j: int|
        0 <= i < v.len() && 0 <= j < v.len() && i != j ==> (#[trigger] v[i]).0@ != (
        #[trigger] v[j]).0@
}

/// The map an association list of names to codes stands for.
pub open spec fn assoc_view(v: Seq<(String, u16)>) -> Map<Seq<char>, u16> {
    Map::new(
        |k: Seq<char>| exists|i: int| 0 <= i < v.len() && (#[trigger] v[i]).0@ == k,
        |k: Seq<char>| v[choose|i: int| 0 <= i < v.len() && (#[trigger] v[i]).0@ == k].1,
    )
}

/// The (code, name) pairs of a code → name map from code `c` on, by
/// increasing code.
pub open spec fn pairs_from(codes: Map<u16, Seq<char>>, c: int) -> Seq<(u16, Seq<char>)>
    decreases 0x10000 - c,
{
    if c < 0 || c > 0xffff {
        Seq::empty()
    } else if codes.contains_key(c as u16) {
        seq![(c as u16, codes[c as u16])] + pairs_from(codes, c + 1)
    } else {
        pairs_from(codes, c + 1)
    }
}

/// The mapped codes from `c` on.
pub open spec fn codes_from(codes: Map<u16, Seq<char>>, c: int) -> Set<u16> {
    codes.dom().filter(|k: u16| k >= c)
}

/// The pairs from code `c` on are the mapped codes from `c` on, each with
/// its name, by strictly increasing code; so there are as many as codes.
pub proof fn lemma_pairs_from(codes: Map<u16, Seq<char>>, c: int)
    requires
        0 <= c <= 0x10000,
    ensures
        codes_from(codes, c).finite(),
        pairs_from(codes, c).len() == codes_from(codes, c).len(),
        forall|i: int|
            0 <= i < pairs_from(codes, c).len() ==> c <= (#[trigger] pairs_from(codes, c)[i]).0
                && codes.contains_key(pairs_from(codes, c)[i].0) && codes[pairs_from(codes, c)[i].0]
                == pairs_from(codes, c)[i].1,
        forall|i: int, j: int|
            0 <= i < j < pairs_from(codes, c).len() ==> (#[trigger] pairs_from(codes, c)[i]).0
                < (#[trigger] pairs_from(codes, c)[j]).0,
    decreases 0x10000 - c,
{
    if c == 0x10000 {
        assert(codes_from(codes, c) =~= Set::<u16>::empty());
    } else {
        lemma_pairs_from(codes, c + 1);
        let rest = pairs_from(codes, c + 1);
        let k = c as u16;
        assert(!codes_from(codes, c + 1).contains(k));
        if codes.contains_key(k) {
            assert(codes_from(codes, c) =~= codes_from(codes, c + 1).insert(k));
            let all = pairs_from(codes, c);
            assert(all == seq![(k, codes[k])] + rest);
            assert forall|i: int| 0 <= i < all.len() implies c <= (#[trigger] all[i]).0
                && codes.contains_key(all[i].0) && codes[all[i].0] == all[i].1 by {
                if i > 0 {
                    assert(all[i] == rest[i - 1]);
                }
            }
            assert forall|i: int, j: int| 0 <= i < j < all.len() implies (#[trigger] all[i]).0
                < (#[trigger] all[j]).0 by {
                assert(all[j] == rest[j - 1]);
                if i > 0 {
                    assert(all[i] == rest[i - 1]);
                }
            }
        } else {
            assert(codes_from(codes, c) =~= codes_from(codes, c + 1));
        }
    }
}

/// Every code map of an encoding is finite, and its pairs by increasing
/// code are as many as its codes, distinct, each code with its own name.
pub proof fn law_encoding_pairs(codes: Map<u16, Seq<char>>)
    ensures
        codes.dom().finite(),
        pairs_from(codes, 0).len() == codes.dom().len(),
        forall|i: int|
            0 <= i < pairs_from(codes, 0).len() ==> codes.contains_key(
                (#[trigger] pairs_from(codes, 0)[i]).0,
            ) && codes[pairs_from(codes, 0)[i].0] == pairs_from(codes, 0)[i].1,
        forall|i: int, j: int|
            0 <= i < j < pairs_from(codes, 0).len() ==> (#[trigger] pairs_from(codes, 0)[i]).0
                != (#[trigger] pairs_from(codes, 0)[j]).0,
{
    lemma_pairs_from(codes, 0);
    assert(codes_from(codes, 0) =~= codes.dom());
}

/// The view of (code, name) pairs.
pub open spec fn pairs_view(v: Seq<(u16, String)>) -> Seq<(u16, Seq<char>)> {
    v.map_values(|p: (u16, String)| (p.0, p.1@))
}

/// A character encoding: a name, character codes mapped to glyph names,
/// and glyph names mapped back to the code last given to them.
pub struct Encoding {
    name: String,
    code_to_name: HashMap<u16, String>,
    name_to_code: Vec<(String, u16)>,
}

impl Encoding {
    /// No glyph name is listed twice.
    pub closed spec fn wf(&self) -> bool {
        unique_names(self.name_to_code@)
    }

    /// The encoding's name.
    pub closed spec fn name_view(&self) -> Seq<char> {
        self.name@
    }

    /// The glyph name of each mapped code.
    pub closed spec fn codes(&self) -> Map<u16, Seq<char>> {
        name_table_view(self.code_to_name@)
    }

    /// The code of each glyph name (the one given last).
    pub closed spec fn names(&self) -> Map<Seq<char>, u16> {
        assoc_view(self.name_to_code@)
    }

    /// An empty encoding with the given name.
    pub fn new(name: &str) -> (r: Self)
        ensures
            r.wf(),
            r.name_view() == name@,
            r.codes() == Map::<u16, Seq<char>>::empty(),
            r.names() == Map::<Seq<char>, u16>::empty(),
    {
        let r = Encoding {
            name: str_to_string(name),
            code_to_name: HashMap::new(),
            name_to_code: Vec::new(),
        };
        assert(r.codes() =~= Map::<u16, Seq<char>>::empty());
        assert(r.names() =~= Map::<Seq<char>, u16>::empty());
        r
    }

    /// Maps `code` to the glyph `name`, and `name` back to `code`.
    pub fn add(&mut self, code: u16, name: &str)
        requires
            old(self).wf(),
        ensures
            final(self).wf(),
            final(self).name_view() == old(self).name_view(),
            final(self).codes() == old(self).codes().insert(code, name@),
            final(self).names() == old(self).names().insert(name@, code),
    {
        let ghost old_codes = self.codes();
        let ghost old_v = self.name_to_code@;
        self.code_to_name.insert(code, str_to_string(name));
        assert(self.codes() =~= old_codes.insert(code, name@));
        let key = str_to_chars(name);
        let mut i: usize = 0;
        let n = self.name_to_code.len();
        while i < n
            invariant
                n == self.name_to_code@.len(),
                self.name_to_code@ == old_v,
                old_v == old(self).name_to_code@,
                self.name@ == old(self).name@,
                self.codes() == old(self).codes().insert(code, name@),
                unique_names(old_v),
                key@ == name@,
                0 <= i <= n,
                forall|j: int| 0 <= j < i ==> (#[trigger] old_v[j]).0@ != name@,
            decreases n - i,
        {
            let entry_chars = str_to_chars(self.name_to_code[i].0.as_str());
            if chars_eq(entry_chars.as_slice(), key.as_slice()) {
                let mut v: Vec<(String, u16)> = Vec::new();
                std::mem::swap(&mut v, &mut self.name_to_code);
                v.set(i, (str_to_string(name), code));
                proof {
                    let nv = v@;
                    assert(nv =~= old_v.update(i as int, (nv[i as int].0, code)));
                    assert forall|a: int, b: int|
                        0 <= a < nv.len() && 0 <= b < nv.len() && a != b implies (#[trigger] nv[a]).0@
                        != (#[trigger] nv[b]).0@ by {
                        if a != i {
                            assert(nv[a] == old_v[a]);
                        }
                        if b != i {
                            assert(nv[b] == old_v[b]);
                        }
                    }
                    assert(assoc_view(nv) =~= assoc_view(old_v).insert(name@, code)) by {
                        assert forall|k: Seq<char>| #[trigger] assoc_view(nv).contains_key(k) <==> assoc_view(
                            old_v,
                        ).insert(name@, code).contains_key(k) by {
                            if k != name@ && assoc_view(old_v).contains_key(k) {
                                let j = choose|j: int| 0 <= j < old_v.len() && (#[trigger] old_v[j]).0@ == k;
                                assert(nv[j].0@ == k);
                            }
                            if assoc_view(nv).contains_key(k) {
                                let j = choose|j: int| 0 <= j < nv.len() && (#[trigger] nv[j]).0@ == k;
                                if j != i {
                                    assert(old_v[j].0@ == k);
                                }
                            }
                            assert(nv[i as int].0@ == name@);
                        }
                        assert forall|k: Seq<char>| #[trigger] assoc_view(nv).contains_key(k) implies assoc_view(nv)[k]
                            == assoc_view(old_v).insert(name@, code)[k] by {
                            let j = choose|j: int| 0 <= j < nv.len() && (#[trigger] nv[j]).0@ == k;
                            if k == name@ {
                                assert(nv[i as int].0@ == name@);
                                assert(j == i);
                            } else {
                                assert(j != i);
                                assert(old_v[j].0@ == k);
                                let j2 = choose|j2: int| 0 <= j2 < old_v.len() && (#[trigger] old_v[j2]).0@ == k;
                                assert(j2 == j);
                            }
                        }
                    }
                }
                self.name_to_code = v;
                return;
            }
            i = i + 1;
        }
        self.name_to_code.push((str_to_string(name), code));
        proof {
            let nv = self.name_to_code@;
            assert(nv.len() == old_v.len() + 1);
            assert forall|a: int, b: int|
                0 <= a < nv.len() && 0 <= b < nv.len() && a != b implies (#[trigger] nv[a]).0@ != (
                #[trigger] nv[b]).0@ by {
                if a < old_v.len() {
                    assert(nv[a] == old_v[a]);
                }
                if b < old_v.len() {
                    assert(nv[b] == old_v[b]);
                }
            }
            assert(self.names() =~= assoc_view(old_v).insert(name@, code)) by {
                assert forall|k: Seq<char>| #[trigger] self.names().contains_key(k) <==> assoc_view(
                    old_v,
                ).insert(name@, code).contains_key(k) by {
                    if k != name@ && assoc_view(old_v).contains_key(k) {
                        let j = choose|j: int| 0 <= j < old_v.len() && (#[trigger] old_v[j]).0@ == k;
                        assert(nv[j] == old_v[j]);
                    }
                    if self.names().contains_key(k) && k != name@ {
                        let j = choose|j: int| 0 <= j < nv.len() && (#[trigger] nv[j]).0@ == k;
                        assert(j < old_v.len());
                        assert(old_v[j] == nv[j]);
                    }
                    assert(nv[old_v.len() as int].0@ == name@);
                }
                assert forall|k: Seq<char>| #[trigger] self.names().contains_key(k) implies self.names()[k]
                    == assoc_view(old_v).insert(name@, code)[k] by {
                    let j = choose|j: int| 0 <= j < nv.len() && (#[trigger] nv[j]).0@ == k;
                    if k == name@ {
                        assert(nv[old_v.len() as int].0@ == name@);
                        assert(j == old_v.len());
                    } else {
                        assert(j < old_v.len());
                        assert(old_v[j] == nv[j]);
                        let j2 = choose|j2: int| 0 <= j2 < old_v.len() && (#[trigger] old_v[j2]).0@ == k;
                        assert(j2 == j);
                    }
                }
            }
        }
    }

    /// Whether `code` is mapped.
    pub fn has_code(&self, code: u16) -> (r: bool)
        ensures
            r == self.codes().contains_key(code),
    {
        self.code_to_name.contains_key(&code)
    }

    /// The glyph name of `code`.
    pub fn get_name(&self, code: u16) -> (r: Option<&str>)
        ensures
            opt_str_view(r) == if self.codes().contains_key(code) {
                Some(self.codes()[code])
            } else {
                None
            },
    {
        match self.code_to_name.get(&code) {
            Some(s) => Some(s.as_str()),
            None => None,
        }
    }

    /// The code given last to the glyph `name`.
    pub fn get_code(&self, name: &str) -> (r: Option<u16>)
        requires
            self.wf(),
        ensures
            r == if self.names().contains_key(name@) {
                Some(self.names()[name@])
            } else {
                None
            },
    {
        let key = str_to_chars(name);
        let ghost v = self.name_to_code@;
        let mut i: usize = 0;
        while i < self.name_to_code.len()
            invariant
                v == self.name_to_code@,
                unique_names(v),
                key@ == name@,
                0 <= i <= v.len(),
                forall|j: int| 0 <= j < i ==> (#[trigger] v[j]).0@ != name@,
            decreases v.len() - i,
        {
            let entry_chars = str_to_chars(self.name_to_code[i].0.as_str());
            if chars_eq(entry_chars.as_slice(), key.as_slice()) {
                proof {
                    assert(v[i as int].0@ == name@);
                    let j = choose|j: int| 0 <= j < v.len() && (#[trigger] v[j]).0@ == name@;
                    assert(j == i);
                }
                return Some(self.name_to_code[i].1);
            }
            i = i + 1;
        }
        None
    }

    /// The encoding's name.
    pub fn name(&self) -> (r: &str)
        ensures
            r@ == self.name_view(),
    {
        self.name.as_str()
    }

    /// Number of mapped codes.
    pub fn len(&self) -> (r: usize)
        ensures
            r == self.codes().dom().len(),
            self.codes().dom().finite(),
    {
        proof {
            law_encoding_pairs(self.codes());
        }
        proof {
            assert(self.codes().dom() =~= self.code_to_name@.dom());
        }
        self.code_to_name.len()
    }

    /// Whether no code is mapped.
    pub fn is_empty(&self) -> (r: bool)
        ensures
            r == (self.codes().dom().len() == 0),
    {
        proof {
            assert(self.codes().dom() =~= self.code_to_name@.dom());
        }
        self.code_to_name.is_empty()
    }

    /// The (code, glyph name) pairs, by increasing code.
    pub fn iter(&self) -> (r: Vec<(u16, String)>)
        ensures
            pairs_view(r@) == pairs_from(self.codes(), 0),
            r@.len() == self.codes().dom().len(),
    {
        proof {
            law_encoding_pairs(self.codes());
        }
        let mut out: Vec<(u16, String)> = Vec::new();
        let mut c: u32 = 0;
        while c <= 0xffff
            invariant
                c <= 0x10000,
                pairs_from(self.codes(), 0) == pairs_view(out@) + pairs_from(self.codes(), c as int),
            decreases 0x10000 - c,
        {
            let code = c as u16;
            let ghost rest = pairs_from(self.codes(), c + 1);
            match self.code_to_name.get(&code) {
                Some(s) => {
                    let ghost before = out@;
                    out.push((code, str_to_string(s.as_str())));
                    proof {
                        assert(pairs_view(out@) =~= pairs_view(before).push((code, s@)));
                        assert(pairs_view(before) + (seq![(code, s@)] + rest) =~= pairs_view(out@)
                            + rest);
                    }
                },
                None => {},
            }
            c = c + 1;
        }
        assert(pairs_view(out@) + Seq::<(u16, Seq<char>)>::empty() =~= pairs_view(out@));
        out
    }
}

} // verus!
