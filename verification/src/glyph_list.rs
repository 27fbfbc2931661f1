//! Glyph lists: the mapping between glyph names and Unicode text.

use vstd::prelude::*;
use crate::tables::{name_entries, NameTable};
use crate::text_std::{
    char_from_u32, chars_to_string, is_scalar_value, str_to_chars, str_to_string, string_push,
};

verus! {

/// Whether `c` is an ASCII hexadecimal digit.
pub open spec fn is_hex_char(c: char) -> bool {
    (48 <= c as int <= 57) || (97 <= c as int <= 102) || (65 <= c as int <= 70)
}

/// The value of a hexadecimal digit.
pub open spec fn hex_char_value(c: char) -> nat {
    if 48 <= c as int <= 57 {
        (c as int - 48) as nat
    } else if 97 <= c as int <= 102 {
        (c as int - 87) as nat
    } else {
        (c as int - 55) as nat
    }
}

/// Whether every character of `s` is a hexadecimal digit.
pub open spec fn all_hex(s: Seq<char>) -> bool {
    forall|i: int| 0 <= i < s.len() ==> is_hex_char(#[trigger] s[i])
}

/// The value of a run of hexadecimal digits.
pub open spec fn hex_run_value(s: Seq<char>) -> nat
    decreases s.len(),
{
    if s.len() == 0 {
        0
    } else {
        hex_run_value(s.drop_last()) * 16 + hex_char_value(s.last())
    }
}

/// `u32::from_str_radix(s, 16)`: an optional `+`, then at least one
/// hexadecimal digit, with a value below 2^32.
pub open spec fn parse_hex_u32(s: Seq<char>) -> Option<u32> {
    let ds = if s.len() > 0 && s[0] == '+' {
        s.subrange(1, s.len() as int)
    } else {
        s
    };
    if ds.len() > 0 && all_hex(ds) && hex_run_value(ds) < 0x1_0000_0000 {
        Some(hex_run_value(ds) as u32)
    } else {
        None
    }
}

/// The character a hexadecimal number names, when it names one.
pub open spec fn hex_scalar(s: Seq<char>) -> Option<char> {
    match parse_hex_u32(s) {
        Some(v) => if is_scalar_value(v as int) {
            Some(v as char)
        } else {
            None
        },
        None => None,
    }
}

/// The characters named by the groups of four hexadecimal digits of `s`
/// from position `k` on; `None` when a group names no character.
pub open spec fn uni_chunks_from(s: Seq<char>, k: int) -> Option<Seq<char>>
    decreases s.len() - k,
{
    if k < 0 || k >= s.len() {
        Some(Seq::empty())
    } else if k + 4 >= s.len() {
        match hex_scalar(s.subrange(k, s.len() as int)) {
            Some(c) => Some(seq![c]),
            None => None,
        }
    } else {
        match hex_scalar(s.subrange(k, k + 4)) {
            Some(c) => match uni_chunks_from(s, k + 4) {
                Some(rest) => Some(seq![c] + rest),
                None => None,
            },
            None => None,
        }
    }
}

/// Position of the first `.` at or after `i`, or -1.
pub open spec fn dot_index(s: Seq<char>, i: int) -> int
    decreases s.len() - i,
{
    if i < 0 || i >= s.len() {
        -1
    } else if s[i] == '.' {
        i
    } else {
        dot_index(s, i + 1)
    }
}

/// Whether every character of `s` is ASCII.
pub open spec fn all_ascii(s: Seq<char>) -> bool {
    forall|i: int| 0 <= i < s.len() ==> (#[trigger] s[i]) as int <= 127
}

/// Whether `s` begins with `uni`.
pub open spec fn starts_uni(s: Seq<char>) -> bool {
    s.len() >= 3 && s[0] == 'u' && s[1] == 'n' && s[2] == 'i'
}

/// The name `.notdef`.
pub open spec fn notdef() -> Seq<char> {
    seq!['.', 'n', 'o', 't', 'd', 'e', 'f']
}

/// The Unicode text a glyph name stands for, given a table of names: the
/// table's entry; else a `uniXXXX`, `uniXXXXYYYY...` or `uXXXX[XX]` code;
/// else the entry of the part before the first dot.
pub open spec fn glyph_unicode(names: Map<Seq<char>, Seq<char>>, name: Seq<char>) -> Option<
    Seq<char>,
> {
    let dot = dot_index(name, 0);
    if name.len() == 0 || name == notdef() {
        None
    } else if names.contains_key(name) {
        Some(names[name])
    } else if all_ascii(name) && name.len() == 7 && starts_uni(name) && hex_scalar(
        name.subrange(3, 7),
    ) is Some {
        Some(seq![hex_scalar(name.subrange(3, 7))->0])
    } else if all_ascii(name) && starts_uni(name) && name.len() > 7 && (name.len() - 3) % 4 == 0
        && uni_chunks_from(name, 3) is Some {
        uni_chunks_from(name, 3)
    } else if all_ascii(name) && name.len() >= 5 && name.len() <= 7 && name[0] == 'u' && all_hex(
        name.subrange(1, name.len() as int),
    ) && hex_scalar(name.subrange(1, name.len() as int)) is Some {
        Some(seq![hex_scalar(name.subrange(1, name.len() as int))->0])
    } else if dot >= 0 && names.contains_key(name.subrange(0, dot)) {
        Some(names[name.subrange(0, dot)])
    } else {
        None
    }
}

/// `char::is_whitespace`: the Unicode `White_Space` characters.
pub open spec fn is_unicode_ws(c: char) -> bool {
    let v = c as int;
    (9 <= v <= 13) || v == 32 || v == 0x85 || v == 0xA0 || v == 0x1680 || (0x2000 <= v <= 0x200A)
        || v == 0x2028 || v == 0x2029 || v == 0x202F || v == 0x205F || v == 0x3000
}

/// End of the run of non-whitespace characters starting at `i`.
pub open spec fn word_end(s: Seq<char>, i: int) -> int
    decreases s.len() - i,
{
    if 0 <= i < s.len() && !is_unicode_ws(s[i]) {
        word_end(s, i + 1)
    } else {
        i
    }
}

/// A word ends after its first character and within the text.
pub proof fn lemma_word_end(s: Seq<char>, i: int)
    requires
        0 <= i <= s.len(),
    ensures
        i <= word_end(s, i) <= s.len(),
        i < s.len() && !is_unicode_ws(s[i]) ==> word_end(s, i) > i,
    decreases s.len() - i,
{
    if i < s.len() && !is_unicode_ws(s[i]) {
        lemma_word_end(s, i + 1);
    }
}

/// The characters named by the whitespace-separated hexadecimal words of
/// `s` from position `i` on; words that name no character are dropped.
pub open spec fn hex_words_text(s: Seq<char>, i: int) -> Seq<char>
    decreases s.len() - i,
{
    if i < 0 || i >= s.len() {
        Seq::empty()
    } else if is_unicode_ws(s[i]) {
        hex_words_text(s, i + 1)
    } else {
        let e = word_end(s, i);
        proof {
            lemma_word_end(s, i);
        }
        let w = match hex_scalar(s.subrange(i, e)) {
            Some(c) => seq![c],
            None => Seq::empty(),
        };
        w + hex_words_text(s, e)
    }
}

/// First position at or after `i` that is not whitespace.
pub open spec fn trim_start_at(s: Seq<char>, i: int) -> int
    decreases s.len() - i,
{
    if 0 <= i < s.len() && is_unicode_ws(s[i]) {
        trim_start_at(s, i + 1)
    } else {
        i
    }
}

/// The end of `s[lo..j]` with trailing whitespace removed.
pub open spec fn trim_end_at(s: Seq<char>, lo: int, j: int) -> int
    decreases j - lo,
{
    if j > lo && j <= s.len() && is_unicode_ws(s[j - 1]) {
        trim_end_at(s, lo, j - 1)
    } else {
        j
    }
}

/// `str::trim`.
pub open spec fn trim_spec(s: Seq<char>) -> Seq<char> {
    let a = trim_start_at(s, 0);
    s.subrange(a, trim_end_at(s, a, s.len() as int))
}

/// Position of the first `c` in `s` at or after `i`, or -1.
pub open spec fn index_of_from(s: Seq<char>, c: char, i: int) -> int
    decreases s.len() - i,
{
    if i < 0 || i >= s.len() {
        -1
    } else if s[i] == c {
        i
    } else {
        index_of_from(s, c, i + 1)
    }
}

/// A found character lies at or after the start of the search.
pub proof fn lemma_index_of_from(s: Seq<char>, c: char, i: int)
    requires
        0 <= i,
    ensures
        index_of_from(s, c, i) == -1 || (i <= index_of_from(s, c, i) < s.len() && s[index_of_from(
            s,
            c,
            i,
        )] == c),
    decreases s.len() - i,
{
    if i < s.len() && s[i] != c {
        lemma_index_of_from(s, c, i + 1);
    }
}

/// Appending an ASCII character keeps a text ASCII.
pub proof fn lemma_all_ascii_push(s: Seq<char>, c: char)
    ensures
        all_ascii(s.push(c)) == (all_ascii(s) && c as int <= 127),
{
    if all_ascii(s.push(c)) {
        assert forall|i: int| 0 <= i < s.len() implies (#[trigger] s[i]) as int <= 127 by {
            assert(s.push(c)[i] == s[i]);
        }
        assert(s.push(c)[s.len() as int] == c);
    }
}

/// Appending a hexadecimal digit keeps a text hexadecimal.
pub proof fn lemma_all_hex_push(s: Seq<char>, c: char)
    ensures
        all_hex(s.push(c)) == (all_hex(s) && is_hex_char(c)),
{
    if all_hex(s.push(c)) {
        assert forall|i: int| 0 <= i < s.len() implies is_hex_char(#[trigger] s[i]) by {
            assert(s.push(c)[i] == s[i]);
        }
        assert(s.push(c)[s.len() as int] == c);
    }
}

/// The entry a line of a glyph list file holds: `name;XXXX YYYY`, where
/// blank lines, `#` comments, lines without `;` and entries naming no
/// character hold none.
pub open spec fn line_entry(line: Seq<char>) -> Option<(Seq<char>, Seq<char>)> {
    let t = trim_spec(line);
    let k = index_of_from(t, ';', 0);
    if t.len() == 0 || t[0] == '#' || k < 0 {
        None
    } else {
        let u = hex_words_text(t.subrange(k + 1, t.len() as int), 0);
        if u.len() == 0 {
            None
        } else {
            Some((t.subrange(0, k), u))
        }
    }
}

/// A map with `k` set to `v` unless it already holds `k`.
pub open spec fn insert_absent(m: Map<Seq<char>, Seq<char>>, k: Seq<char>, v: Seq<char>) -> Map<
    Seq<char>,
    Seq<char>,
> {
    if m.contains_key(k) {
        m
    } else {
        m.insert(k, v)
    }
}

/// The tables after loading the lines of `data` from position `i` on
/// (earlier entries win).
pub open spec fn load_from(
    names: Map<Seq<char>, Seq<char>>,
    glyphs: Map<Seq<char>, Seq<char>>,
    data: Seq<char>,
    i: int,
) -> (Map<Seq<char>, Seq<char>>, Map<Seq<char>, Seq<char>>)
    decreases data.len() - i,
{
    if i < 0 || i >= data.len() {
        (names, glyphs)
    } else {
        let j = index_of_from(data, '\n', i);
        proof {
            lemma_index_of_from(data, '\n', i);
        }
        let e = if j < 0 {
            data.len() as int
        } else {
            j
        };
        let (n2, g2) = match line_entry(data.subrange(i, e)) {
            Some((name, u)) => (insert_absent(names, name, u), insert_absent(glyphs, u, name)),
            None => (names, glyphs),
        };
        if j < 0 {
            (n2, g2)
        } else {
            load_from(n2, g2, data, j + 1)
        }
    }
}

/// The view of an optional string.
pub open spec fn opt_string_view(o: Option<String>) -> Option<Seq<char>> {
    match o {
        Some(s) => Some(s@),
        None => None,
    }
}

/// The view of an optional borrowed string.
pub open spec fn opt_str_view(o: Option<&str>) -> Option<Seq<char>> {
    match o {
        Some(s) => Some(s@),
        None => None,
    }
}

/// The value of a hexadecimal digit, if `c` is one.
pub fn hex_char(c: char) -> (r: Option<u32>)
    ensures
        r is Some <==> is_hex_char(c),
        r matches Some(v) ==> v == hex_char_value(c),
{
    let v = c as u32;
    if 48 <= v && v <= 57 {
        Some(v - 48)
    } else if 97 <= v && v <= 102 {
        Some(v - 87)
    } else if 65 <= v && v <= 70 {
        Some(v - 55)
    } else {
        None
    }
}

/// `u32::from_str_radix(&cs[from..to], 16)`.
pub fn parse_hex(cs: &[char], from: usize, to: usize) -> (r: Option<u32>)
    requires
        from <= to <= cs@.len(),
    ensures
        r == parse_hex_u32(cs@.subrange(from as int, to as int)),
{
    let ghost s = cs@.subrange(from as int, to as int);
    let mut start = from;
    if start < to && cs[start] == '+' {
        start = start + 1;
    }
    let ghost ds = cs@.subrange(start as int, to as int);
    assert(ds =~= (if s.len() > 0 && s[0] == '+' {
        s.subrange(1, s.len() as int)
    } else {
        s
    }));
    if start == to {
        return None;
    }
    let cap: u64 = 0x1_0000_0000;
    let mut acc: u64 = 0;
    let mut i = start;
    while i < to
        invariant
            from <= start <= i <= to <= cs@.len(),
            ds == cs@.subrange(start as int, to as int),
            s == cs@.subrange(from as int, to as int),
            ds == (if s.len() > 0 && s[0] == '+' {
                s.subrange(1, s.len() as int)
            } else {
                s
            }),
            cap == 0x1_0000_0000u64,
            all_hex(cs@.subrange(start as int, i as int)),
            acc == if hex_run_value(cs@.subrange(start as int, i as int)) >= cap {
                cap as nat
            } else {
                hex_run_value(cs@.subrange(start as int, i as int))
            },
        decreases to - i,
    {
        let ghost prev = cs@.subrange(start as int, i as int);
        match hex_char(cs[i]) {
            Some(v) => {
                assert(cs@.subrange(start as int, i + 1).drop_last() =~= prev);
                if acc < cap {
                    let next = acc * 16 + v as u64;
                    acc = if next >= cap {
                        cap
                    } else {
                        next
                    };
                }
                i = i + 1;
                assert forall|k: int| 0 <= k < cs@.subrange(start as int, i as int).len() implies is_hex_char(
                    #[trigger] cs@.subrange(start as int, i as int)[k],
                ) by {
                    if k < prev.len() {
                        assert(cs@.subrange(start as int, i as int)[k] == prev[k]);
                    }
                }
            },
            None => {
                assert(ds[i - start] == cs@[i as int]);
                assert(!is_hex_char(ds[i - start]));
                return None;
            },
        }
    }
    assert(cs@.subrange(start as int, i as int) =~= ds);
    if acc >= cap {
        None
    } else {
        Some(acc as u32)
    }
}

/// The character `cs[from..to]` names as a hexadecimal number.
fn hex_scalar_exec(cs: &[char], from: usize, to: usize) -> (r: Option<char>)
    requires
        from <= to <= cs@.len(),
    ensures
        r == hex_scalar(cs@.subrange(from as int, to as int)),
{
    match parse_hex(cs, from, to) {
        Some(v) => char_from_u32(v),
        None => None,
    }
}

/// The string holding one character.
fn char_string(c: char) -> (r: String)
    ensures
        r@ == seq![c],
{
    let mut s = String::new();
    string_push(&mut s, c);
    assert(s@ =~= seq![c]);
    s
}

/// A table from glyph names to Unicode text, and back.
pub struct GlyphList {
    name_to_unicode: NameTable,
    unicode_to_name: NameTable,
}

impl GlyphList {
    /// The text of each glyph name.
    pub closed spec fn names(&self) -> Map<Seq<char>, Seq<char>> {
        name_entries(self.name_to_unicode)
    }

    /// The glyph name of each text.
    pub closed spec fn glyph_names(&self) -> Map<Seq<char>, Seq<char>> {
        name_entries(self.unicode_to_name)
    }

    /// An empty glyph list.
    pub fn new() -> (r: Self)
        ensures
            r.names().dom() == Set::<Seq<char>>::empty(),
            r.glyph_names().dom() == Set::<Seq<char>>::empty(),
    {
        GlyphList { name_to_unicode: NameTable::new(), unicode_to_name: NameTable::new() }
    }

    /// Converts whitespace-separated hexadecimal code points to text;
    /// words that name no character are dropped.
    pub fn hex_to_string(hex_codes: &str) -> (r: String)
        ensures
            r@ == hex_words_text(hex_codes@, 0),
    {
        let cs = str_to_chars(hex_codes);
        assert(cs@.subrange(0, cs@.len() as int) =~= hex_codes@);
        Self::hex_chars_to_string(&cs, 0, cs.len())
    }

    fn hex_chars_to_string(cs: &[char], from: usize, to: usize) -> (r: String)
        requires
            from <= to <= cs@.len(),
        ensures
            r@ == hex_words_text(cs@.subrange(from as int, to as int), 0),
    {
        let ghost s = cs@.subrange(from as int, to as int);
        let mut out = String::new();
        let mut i = from;
        while i < to
            invariant
                from <= i <= to <= cs@.len(),
                s == cs@.subrange(from as int, to as int),
                hex_words_text(s, 0) == out@ + hex_words_text(s, i - from),
            decreases to - i,
        {
            let ghost k = i - from;
            if is_unicode_whitespace(cs[i]) {
                i = i + 1;
            } else {
                let start = i;
                while i < to && !is_unicode_whitespace(cs[i])
                    invariant
                        from <= start <= i <= to <= cs@.len(),
                        s == cs@.subrange(from as int, to as int),
                        word_end(s, start - from) == word_end(s, i - from),
                    decreases to - i,
                {
                    i = i + 1;
                }
                proof {
                    lemma_word_end(s, start - from);
                }
                assert(s.subrange(start - from, i - from) =~= cs@.subrange(start as int, i as int));
                match hex_scalar_exec(cs, start, i) {
                    Some(c) => {
                        string_push(&mut out, c);
                    },
                    None => {},
                }
            }
        }
        out
    }

    /// Loads the entries of a glyph list file (lines `name;XXXX YYYY`,
    /// `#` comments); entries already present are kept.
    pub fn load_from_str(&mut self, data: &str)
        ensures
            (final(self).names(), final(self).glyph_names()) == load_from(
                old(self).names(),
                old(self).glyph_names(),
                data@,
                0,
            ),
    {
        let cs = str_to_chars(data);
        let ghost d = cs@;
        let len = cs.len();
        let mut i: usize = 0;
        while i < len
            invariant
                d == cs@,
                d == data@,
                len == d.len(),
                i <= len,
                load_from(old(self).names(), old(self).glyph_names(), d, 0) == load_from(
                    self.names(),
                    self.glyph_names(),
                    d,
                    i as int,
                ),
            decreases len - i,
        {
            let mut j = i;
            while j < len && cs[j] != '\n'
                invariant
                    i <= j <= len,
                    len == d.len(),
                    d == cs@,
                    index_of_from(d, '\n', i as int) == index_of_from(d, '\n', j as int),
                decreases len - j,
            {
                j = j + 1;
            }
            self.load_line(&cs, i, j);
            if j >= len {
                i = len;
            } else {
                i = j + 1;
            }
        }
    }

    /// Loads the entry of the line `cs[from..to]`.
    fn load_line(&mut self, cs: &[char], from: usize, to: usize)
        requires
            from <= to <= cs@.len(),
        ensures
            (final(self).names(), final(self).glyph_names()) == match line_entry(
                cs@.subrange(from as int, to as int),
            ) {
                Some((name, u)) => (
                    insert_absent(old(self).names(), name, u),
                    insert_absent(old(self).glyph_names(), u, name),
                ),
                None => (old(self).names(), old(self).glyph_names()),
            },
    {
        let ghost line = cs@.subrange(from as int, to as int);
        let mut a = from;
        while a < to && is_unicode_whitespace(cs[a])
            invariant
                from <= a <= to <= cs@.len(),
                line == cs@.subrange(from as int, to as int),
                trim_start_at(line, 0) == trim_start_at(line, a - from),
            decreases to - a,
        {
            a = a + 1;
        }
        let mut b = to;
        while b > a && is_unicode_whitespace(cs[b - 1])
            invariant
                from <= a <= b <= to <= cs@.len(),
                line == cs@.subrange(from as int, to as int),
                trim_end_at(line, a - from, to - from) == trim_end_at(line, a - from, b - from),
            decreases b - a,
        {
            b = b - 1;
        }
        let ghost t = line.subrange(a - from, b - from);
        assert(t =~= trim_spec(line));
        assert(t =~= cs@.subrange(a as int, b as int));
        if a == b || cs[a] == '#' {
            return;
        }
        let mut k = a;
        while k < b && cs[k] != ';'
            invariant
                a <= k <= b <= cs@.len(),
                t == cs@.subrange(a as int, b as int),
                index_of_from(t, ';', 0) == index_of_from(t, ';', k - a),
            decreases b - k,
        {
            k = k + 1;
        }
        if k >= b {
            return;
        }
        assert(t.subrange(k - a + 1, t.len() as int) =~= cs@.subrange(k + 1, b as int));
        let unicode = Self::hex_chars_to_string(cs, k + 1, b);
        if unicode.as_str().is_empty() {
            return;
        }
        assert(t.subrange(0, k - a) =~= cs@.subrange(a as int, k as int));
        let name = chars_to_string(cs, a, k);
        self.name_to_unicode.insert_if_absent(name.as_str(), unicode.as_str());
        self.unicode_to_name.insert_if_absent(unicode.as_str(), name.as_str());
    }

    /// The Unicode text of a glyph name (see `glyph_unicode`).
    pub fn to_unicode(&self, name: &str) -> (r: Option<String>)
        ensures
            opt_string_view(r) == glyph_unicode(self.names(), name@),
    {
        let cs = str_to_chars(name);
        let n = cs.len();
        let nd: Vec<char> = vec!['.', 'n', 'o', 't', 'd', 'e', 'f'];
        assert(nd@ == notdef());
        if n == 0 || crate::text_std::chars_eq(&cs, &nd) {
            return None;
        }
        match self.name_to_unicode.get(name) {
            Some(u) => {
                return Some(str_to_string(u));
            },
            None => {},
        }
        let mut ascii = true;
        let mut i: usize = 0;
        while i < n
            invariant
                n == cs@.len(),
                i <= n,
                ascii == all_ascii(cs@.subrange(0, i as int)),
            decreases n - i,
        {
            let ghost prev = cs@.subrange(0, i as int);
            let c = cs[i];
            proof {
                lemma_all_ascii_push(prev, c);
                assert(cs@.subrange(0, i + 1) =~= prev.push(c));
            }
            let big = c > '\u{7f}';
            assert(big == (c as int > 127));
            if big {
                ascii = false;
            }
            i = i + 1;
        }
        assert(cs@.subrange(0, n as int) =~= cs@);
        let uni = n >= 3 && cs[0] == 'u' && cs[1] == 'n' && cs[2] == 'i';
        if ascii && n == 7 && uni {
            match hex_scalar_exec(&cs, 3, 7) {
                Some(c) => {
                    return Some(char_string(c));
                },
                None => {},
            }
        }
        if ascii && uni && n > 7 && (n - 3) % 4 == 0 {
            match self.uni_chunks(&cs) {
                Some(s) => {
                    return Some(s);
                },
                None => {},
            }
        }
        if ascii && n >= 5 && n <= 7 && cs[0] == 'u' {
            let mut all = true;
            let mut k: usize = 1;
            while k < n
                invariant
                    n == cs@.len(),
                    1 <= k <= n,
                    all == all_hex(cs@.subrange(1, k as int)),
                decreases n - k,
            {
                let ghost prev = cs@.subrange(1, k as int);
                let c = cs[k];
                proof {
                    lemma_all_hex_push(prev, c);
                    assert(cs@.subrange(1, k + 1) =~= prev.push(c));
                }
                if hex_char(c).is_none() {
                    all = false;
                }
                k = k + 1;
            }
            if all {
                match hex_scalar_exec(&cs, 1, n) {
                    Some(c) => {
                        return Some(char_string(c));
                    },
                    None => {},
                }
            }
        }
        let mut d: usize = 0;
        while d < n && cs[d] != '.'
            invariant
                n == cs@.len(),
                d <= n,
                dot_index(cs@, 0) == dot_index(cs@, d as int),
            decreases n - d,
        {
            d = d + 1;
        }
        if d < n {
            let base = chars_to_string(&cs, 0, d);
            match self.name_to_unicode.get(base.as_str()) {
                Some(u) => {
                    return Some(str_to_string(u));
                },
                None => {},
            }
        }
        None
    }

    /// The text of the groups of four hexadecimal digits after `uni`.
    fn uni_chunks(&self, cs: &Vec<char>) -> (r: Option<String>)
        requires
            cs@.len() >= 3,
        ensures
            opt_string_view(r) == uni_chunks_from(cs@, 3),
    {
        let n = cs.len();
        let mut out = String::new();
        let mut k: usize = 3;
        while k < n
            invariant
                n == cs@.len(),
                3 <= k,
                uni_chunks_from(cs@, 3) == match uni_chunks_from(cs@, k as int) {
                    Some(rest) => Some(out@ + rest),
                    None => None,
                },
            decreases n - k,
        {
            let e = if n - k <= 4 {
                n
            } else {
                k + 4
            };
            match hex_scalar_exec(cs.as_slice(), k, e) {
                Some(c) => {
                    let ghost before = out@;
                    string_push(&mut out, c);
                    assert(out@ == before + seq![c]);
                    assert forall|rest: Seq<char>| true implies before + (seq![c] + rest) == out@ + rest by {
                        assert(before + (seq![c] + rest) =~= out@ + rest);
                    }
                },
                None => {
                    return None;
                },
            }
            k = e;
        }
        assert(out@ + Seq::<char>::empty() =~= out@);
        Some(out)
    }

    /// The glyph name of a code point.
    pub fn code_point_to_name(&self, cp: u32) -> (r: Option<&str>)
        ensures
            opt_str_view(r) == if is_scalar_value(cp as int) && self.glyph_names().contains_key(
                seq![cp as char],
            ) {
                Some(self.glyph_names()[seq![cp as char]])
            } else {
                None
            },
    {
        match char_from_u32(cp) {
            Some(c) => {
                let s = char_string(c);
                self.unicode_to_name.get(s.as_str())
            },
            None => None,
        }
    }

    /// The glyph name of a text.
    pub fn sequence_to_name(&self, unicode: &str) -> (r: Option<&str>)
        ensures
            opt_str_view(r) == if self.glyph_names().contains_key(unicode@) {
                Some(self.glyph_names()[unicode@])
            } else {
                None
            },
    {
        self.unicode_to_name.get(unicode)
    }

    /// Number of glyph names.
    pub fn len(&self) -> (r: usize)
        ensures
            r == self.names().dom().len(),
    {
        self.name_to_unicode.len()
    }

    /// Whether the list holds no glyph name.
    pub fn is_empty(&self) -> (r: bool)
        ensures
            r == (self.names().dom().len() == 0),
    {
        self.name_to_unicode.len() == 0
    }
}

/// `char::is_whitespace`.
pub fn is_unicode_whitespace(c: char) -> (r: bool)
    ensures
        r == is_unicode_ws(c),
{
    let v = c as u32;
    (9 <= v && v <= 13) || v == 32 || v == 0x85 || v == 0xA0 || v == 0x1680 || (0x2000 <= v && v
        <= 0x200A) || v == 0x2028 || v == 0x2029 || v == 0x202F || v == 0x205F || v == 0x3000
}

} // verus!
