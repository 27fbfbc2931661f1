//! Hash tables backed by `hashbrown`, with the strings stored as
//! `compact_str::CompactString` where the lookups are hot.
//!
//! Each table is opaque to the verifier; its contents are named by a spec
//! function and every operation states what it does to those contents.

use vstd::prelude::*;
use compact_str::CompactString;

verus! {

/// Character code → Unicode text.
#[verifier::external_body]
pub struct UnicodeTable {
    map: hashbrown::HashMap<u32, CompactString>,
}

/// The mappings a `UnicodeTable` holds.
pub uninterp spec fn unicode_entries(t: UnicodeTable) -> Map<u32, Seq<char>>;

impl Clone for UnicodeTable {
    /// `hashbrown::HashMap::clone`: a table with the same mappings.
    #[verifier::external_body]
    fn clone(&self) -> (r: Self)
        ensures
            unicode_entries(r) == unicode_entries(*self),
    {
        UnicodeTable { map: self.map.clone() }
    }
}

impl UnicodeTable {
    /// `hashbrown::HashMap::new`: an empty table.
    #[verifier::external_body]
    pub(crate) fn new() -> (r: Self)
        ensures
            unicode_entries(r).dom() == Set::<u32>::empty(),
    {
        UnicodeTable { map: hashbrown::HashMap::new() }
    }

    /// `hashbrown::HashMap::get`, handing out the stored text.
    #[verifier::external_body]
    pub(crate) fn get(&self, code: u32) -> (r: Option<&str>)
        ensures
            r is Some <==> unicode_entries(*self).contains_key(code),
            r matches Some(s) ==> s@ == unicode_entries(*self)[code],
    {
        self.map.get(&code).map(|s| s.as_str())
    }

    /// `hashbrown::HashMap::insert` of a `CompactString` built from `text`.
    #[verifier::external_body]
    pub(crate) fn insert(&mut self, code: u32, text: &str)
        ensures
            unicode_entries(*final(self)) == unicode_entries(*old(self)).insert(code, text@),
    {
        self.map.insert(code, CompactString::from(text));
    }

    /// `hashbrown::HashMap::len`.
    #[verifier::external_body]
    pub(crate) fn len(&self) -> (r: usize)
        ensures
            r == unicode_entries(*self).dom().len(),
    {
        self.map.len()
    }

    /// `hashbrown::HashMap::iter`, each entry converted to owned values.
    #[verifier::external_body]
    pub(crate) fn entries(&self) -> (r: Vec<(u32, String)>)
        ensures
            forall|i: int, j: int| 0 <= i < j < r@.len() ==> r@[i].0 != r@[j].0,
            forall|i: int|
                0 <= i < r@.len() ==> unicode_entries(*self).contains_key(#[trigger] r@[i].0)
                    && unicode_entries(*self)[r@[i].0] == r@[i].1@,
            forall|k: u32|
                unicode_entries(*self).contains_key(k) ==> exists|i: int|
                    0 <= i < r@.len() && #[trigger] r@[i].0 == k,
    {
        self.map.iter().map(|(k, v)| (*k, v.as_str().to_string())).collect()
    }
}

/// Character code → CID.
#[verifier::external_body]
pub struct CidTable {
    map: hashbrown::HashMap<u32, u32>,
}

/// The mappings a `CidTable` holds.
pub uninterp spec fn cid_entries(t: CidTable) -> Map<u32, u32>;

impl Clone for CidTable {
    /// `hashbrown::HashMap::clone`: a table with the same mappings.
    #[verifier::external_body]
    fn clone(&self) -> (r: Self)
        ensures
            cid_entries(r) == cid_entries(*self),
    {
        CidTable { map: self.map.clone() }
    }
}

impl CidTable {
    /// `hashbrown::HashMap::new`: an empty table.
    #[verifier::external_body]
    pub(crate) fn new() -> (r: Self)
        ensures
            cid_entries(r).dom() == Set::<u32>::empty(),
    {
        CidTable { map: hashbrown::HashMap::new() }
    }

    /// `hashbrown::HashMap::get`.
    #[verifier::external_body]
    pub(crate) fn get(&self, code: u32) -> (r: Option<u32>)
        ensures
            r is Some <==> cid_entries(*self).contains_key(code),
            r matches Some(c) ==> c == cid_entries(*self)[code],
    {
        self.map.get(&code).copied()
    }

    /// `hashbrown::HashMap::insert`.
    #[verifier::external_body]
    pub(crate) fn insert(&mut self, code: u32, cid: u32)
        ensures
            cid_entries(*final(self)) == cid_entries(*old(self)).insert(code, cid),
    {
        self.map.insert(code, cid);
    }

    /// `hashbrown::HashMap::len`.
    #[verifier::external_body]
    pub(crate) fn len(&self) -> (r: usize)
        ensures
            r == cid_entries(*self).dom().len(),
    {
        self.map.len()
    }

    /// `hashbrown::HashMap::iter`, each entry copied out.
    #[verifier::external_body]
    pub(crate) fn entries(&self) -> (r: Vec<(u32, u32)>)
        ensures
            forall|i: int, j: int| 0 <= i < j < r@.len() ==> r@[i].0 != r@[j].0,
            forall|i: int|
                0 <= i < r@.len() ==> cid_entries(*self).contains_key(#[trigger] r@[i].0)
                    && cid_entries(*self)[r@[i].0] == r@[i].1,
            forall|k: u32|
                cid_entries(*self).contains_key(k) ==> exists|i: int|
                    0 <= i < r@.len() && #[trigger] r@[i].0 == k,
    {
        self.map.iter().map(|(k, v)| (*k, *v)).collect()
    }
}

/// Unicode text → character code bytes.
#[verifier::external_body]
pub struct ReverseTable {
    map: hashbrown::HashMap<String, Vec<u8>>,
}

/// The mappings a `ReverseTable` holds.
pub uninterp spec fn reverse_entries(t: ReverseTable) -> Map<Seq<char>, Seq<u8>>;

impl Clone for ReverseTable {
    /// `hashbrown::HashMap::clone`: a table with the same mappings.
    #[verifier::external_body]
    fn clone(&self) -> (r: Self)
        ensures
            reverse_entries(r) == reverse_entries(*self),
    {
        ReverseTable { map: self.map.clone() }
    }
}

impl ReverseTable {
    /// `hashbrown::HashMap::new`: an empty table.
    #[verifier::external_body]
    pub(crate) fn new() -> (r: Self)
        ensures
            reverse_entries(r).dom() == Set::<Seq<char>>::empty(),
    {
        ReverseTable { map: hashbrown::HashMap::new() }
    }

    /// `hashbrown::HashMap::get` by string key.
    #[verifier::external_body]
    pub(crate) fn get(&self, key: &str) -> (r: Option<&[u8]>)
        ensures
            r is Some <==> reverse_entries(*self).contains_key(key@),
            r matches Some(b) ==> b@ == reverse_entries(*self)[key@],
    {
        self.map.get(key).map(|v| v.as_slice())
    }

    /// `hashbrown::HashMap::entry(..).or_insert_with(..)`: stores the bytes
    /// only when the key is absent.
    #[verifier::external_body]
    pub(crate) fn insert_if_absent(&mut self, key: &str, bytes: &[u8])
        ensures
            reverse_entries(*final(self)) == if reverse_entries(*old(self)).contains_key(key@) {
                reverse_entries(*old(self))
            } else {
                reverse_entries(*old(self)).insert(key@, bytes@)
            },
    {
        self.map.entry(key.to_string()).or_insert_with(|| bytes.to_vec());
    }

    /// `hashbrown::HashMap::iter`, each entry converted to owned values.
    #[verifier::external_body]
    pub(crate) fn entries(&self) -> (r: Vec<(String, Vec<u8>)>)
        ensures
            forall|i: int, j: int| 0 <= i < j < r@.len() ==> r@[i].0@ != r@[j].0@,
            forall|i: int|
                0 <= i < r@.len() ==> reverse_entries(*self).contains_key(#[trigger] r@[i].0@)
                    && reverse_entries(*self)[r@[i].0@] == r@[i].1@,
            forall|k: Seq<char>|
                reverse_entries(*self).contains_key(k) ==> exists|i: int|
                    0 <= i < r@.len() && #[trigger] r@[i].0@ == k,
    {
        self.map.iter().map(|(k, v)| (k.clone(), v.clone())).collect()
    }
}

/// Text → text, used in both directions of a glyph list.
#[verifier::external_body]
pub struct NameTable {
    map: hashbrown::HashMap<String, String>,
}

/// The mappings a `NameTable` holds.
pub uninterp spec fn name_entries(t: NameTable) -> Map<Seq<char>, Seq<char>>;

impl Clone for NameTable {
    /// `hashbrown::HashMap::clone`: a table with the same mappings.
    #[verifier::external_body]
    fn clone(&self) -> (r: Self)
        ensures
            name_entries(r) == name_entries(*self),
    {
        NameTable { map: self.map.clone() }
    }
}

impl NameTable {
    /// `hashbrown::HashMap::new`: an empty table.
    #[verifier::external_body]
    pub(crate) fn new() -> (r: Self)
        ensures
            name_entries(r).dom() == Set::<Seq<char>>::empty(),
    {
        NameTable { map: hashbrown::HashMap::new() }
    }

    /// `hashbrown::HashMap::get` by string key.
    #[verifier::external_body]
    pub(crate) fn get(&self, key: &str) -> (r: Option<&str>)
        ensures
            r is Some <==> name_entries(*self).contains_key(key@),
            r matches Some(s) ==> s@ == name_entries(*self)[key@],
    {
        self.map.get(key).map(|s| s.as_str())
    }

    /// `hashbrown::HashMap::entry(..).or_insert_with(..)`: stores the value
    /// only when the key is absent.
    #[verifier::external_body]
    pub(crate) fn insert_if_absent(&mut self, key: &str, value: &str)
        ensures
            name_entries(*final(self)) == if name_entries(*old(self)).contains_key(key@) {
                name_entries(*old(self))
            } else {
                name_entries(*old(self)).insert(key@, value@)
            },
    {
        self.map.entry(key.to_string()).or_insert_with(|| value.to_string());
    }

    /// `hashbrown::HashMap::len`.
    #[verifier::external_body]
    pub(crate) fn len(&self) -> (r: usize)
        ensures
            r == name_entries(*self).dom().len(),
    {
        self.map.len()
    }
}

} // verus!
