//! PDF documents loaded with `lopdf`: the pages in order and the content
//! bytes of a page.

use lopdf::Object;
use vstd::prelude::*;

verus! {

#[verifier::external_type_specification]
#[verifier::external_body]
pub struct ExDocument(lopdf::Document);

/// Whether `lopdf` reads the bytes as a PDF document.
pub uninterp spec fn pdf_loads(data: Seq<u8>) -> bool;

/// The object ids of the pages of the document the bytes hold, in page order.
pub uninterp spec fn pdf_page_ids(data: Seq<u8>) -> Seq<(u32, u16)>;

/// What a page's `/Contents` entry is, a reference followed to its object.
pub enum ContentsShape {
    /// The page object is missing or not a dictionary.
    NoPage,
    /// The page has no `/Contents`.
    Missing,
    /// A reference that leads to no object.
    Unresolved,
    /// A stream.
    Stream,
    /// An array with this many items.
    Array(usize),
    /// Anything else.
    Other,
}

/// What an item of a `/Contents` array is, a reference followed to its object.
pub enum ItemShape {
    /// Not there, or a reference that leads to no object.
    Unresolved,
    /// A stream.
    Stream,
    /// Anything else.
    Other,
}

/// The shape of a page's `/Contents` in the document the bytes hold.
pub uninterp spec fn pdf_contents_shape(data: Seq<u8>, page: (u32, u16)) -> ContentsShape;

/// The shape of item `i` of a page's `/Contents` array.
pub uninterp spec fn pdf_contents_item(data: Seq<u8>, page: (u32, u16), i: int) -> ItemShape;

/// The decompressed data of a page's `/Contents` stream (`None` for the
/// entry itself, `Some(i)` for item `i` of its array); `None` when it is no
/// stream or does not decompress.
pub uninterp spec fn pdf_stream_data(data: Seq<u8>, page: (u32, u16), item: Option<int>) -> Option<Seq<u8>>;

/// A loaded document, with the bytes it was read from.
pub struct PdfDoc {
    doc: lopdf::Document,
    source: Ghost<Seq<u8>>,
}

impl PdfDoc {
    /// The bytes the document was read from.
    pub closed spec fn source(&self) -> Seq<u8> {
        self.source@
    }

    /// The `lopdf` document.
    pub closed spec fn inner(&self) -> lopdf::Document {
        self.doc
    }

    /// The `lopdf` document, for reading fonts and resources.
    pub fn document(&self) -> (r: &lopdf::Document)
        ensures
            *r == self.inner(),
    {
        &self.doc
    }
}

/// `lopdf::Document::load_mem`, and `Document::get_pages` of the loaded
/// document (its page object ids in page order).
#[verifier::external_body]
fn load_mem(data: &[u8]) -> (r: Option<(lopdf::Document, Vec<(u32, u16)>)>)
    ensures
        r is Some <==> pdf_loads(data@),
        r matches Some(p) ==> p.1@ == pdf_page_ids(data@),
{
    match lopdf::Document::load_mem(data) {
        Ok(doc) => {
            let ids = doc.get_pages().into_values().collect();
            Some((doc, ids))
        },
        Err(_) => None,
    }
}

/// `Document::get_object` of the page and `Dictionary::get` of its
/// `/Contents`, followed by `Document::dereference`; the object is told
/// apart by variant. A `PdfDoc` is only made by `load_pdf`, from its
/// `source`, which the claim relies on.
#[verifier::external_body]
fn contents_shape(doc: &PdfDoc, page: (u32, u16)) -> (r: ContentsShape)
    ensures
        r == pdf_contents_shape(doc.source(), page),
{
    let dict = match doc.doc.get_object(page).and_then(|o| o.as_dict()) {
        Ok(d) => d,
        Err(_) => return ContentsShape::NoPage,
    };
    let c = match dict.get(b"Contents") {
        Ok(c) => c,
        Err(_) => return ContentsShape::Missing,
    };
    match doc.doc.dereference(c) {
        Ok((_, Object::Stream(_))) => ContentsShape::Stream,
        Ok((_, Object::Array(a))) => ContentsShape::Array(a.len()),
        Ok(_) => ContentsShape::Other,
        Err(_) => ContentsShape::Unresolved,
    }
}

/// Item `i` of the page's `/Contents` array (reached as in
/// `contents_shape`), followed by `Document::dereference` and told apart by
/// variant.
#[verifier::external_body]
fn contents_item(doc: &PdfDoc, page: (u32, u16), i: usize) -> (r: ItemShape)
    ensures
        r == pdf_contents_item(doc.source(), page, i as int),
{
    let d = &doc.doc;
    let arr = d.get_object(page).and_then(|o| o.as_dict()).and_then(|o| o.get(b"Contents"));
    let item = arr.and_then(|c| d.dereference(c)).and_then(|(_, c)| c.as_array()).ok().and_then(|a| a.get(i));
    match item.map(|o| d.dereference(o)) {
        Some(Ok((_, Object::Stream(_)))) => ItemShape::Stream,
        Some(Ok(_)) => ItemShape::Other,
        _ => ItemShape::Unresolved,
    }
}

/// The position an optional item index stands for.
pub open spec fn item_pos(item: Option<usize>) -> Option<int> {
    match item {
        Some(i) => Some(i as int),
        None => None,
    }
}

/// `Stream::decompressed_content` of the page's `/Contents` stream, or of
/// item `i` of its array (reached as in `contents_item`).
#[verifier::external_body]
fn stream_data(doc: &PdfDoc, page: (u32, u16), item: Option<usize>) -> (r: Option<Vec<u8>>)
    ensures
        r matches Some(v) ==> pdf_stream_data(doc.source(), page, item_pos(item)) == Some(v@),
        r is None ==> pdf_stream_data(doc.source(), page, item_pos(item)) is None,
{
    let d = &doc.doc;
    let c = d.get_object(page).and_then(|o| o.as_dict()).and_then(|o| o.get(b"Contents")).ok()?;
    let c = d.dereference(c).ok()?.1;
    let o = match item {
        Some(i) => d.dereference(c.as_array().ok()?.get(i)?).ok()?.1,
        None => c,
    };
    o.as_stream().ok()?.decompressed_content().ok()
}

/// The streams a page's `/Contents` gives, in order: none when it is
/// missing or neither a stream nor an array; the stream itself; the stream
/// items of an array, other items skipped. `None` when the page cannot be
/// read, a reference leads nowhere, or a stream does not decompress.
pub open spec fn page_streams_spec(data: Seq<u8>, page: (u32, u16)) -> Option<Seq<Seq<u8>>> {
    match pdf_contents_shape(data, page) {
        ContentsShape::NoPage => None,
        ContentsShape::Unresolved => None,
        ContentsShape::Missing => Some(Seq::empty()),
        ContentsShape::Other => Some(Seq::empty()),
        ContentsShape::Stream => match pdf_stream_data(data, page, None) {
            Some(b) => Some(seq![b]),
            None => None,
        },
        ContentsShape::Array(n) => item_streams(data, page, 0, n as int),
    }
}

/// The streams of items `i..n` of a page's `/Contents` array.
pub open spec fn item_streams(data: Seq<u8>, page: (u32, u16), i: int, n: int) -> Option<Seq<Seq<u8>>>
    decreases n - i,
{
    if i < 0 || i >= n {
        Some(Seq::empty())
    } else {
        match pdf_contents_item(data, page, i) {
            ItemShape::Unresolved => None,
            ItemShape::Other => item_streams(data, page, i + 1, n),
            ItemShape::Stream => match (pdf_stream_data(data, page, Some(i)), item_streams(data, page, i + 1, n)) {
                (Some(b), Some(rest)) => Some(seq![b] + rest),
                _ => None,
            },
        }
    }
}

/// `acc` put before the streams of a result, when there is one.
pub open spec fn prefixed(acc: Seq<Seq<u8>>, r: Option<Seq<Seq<u8>>>) -> Option<Seq<Seq<u8>>> {
    match r {
        Some(rest) => Some(acc + rest),
        None => None,
    }
}

/// The decompressed streams of a page's `/Contents` (see `page_streams_spec`).
pub fn page_streams(doc: &PdfDoc, page: (u32, u16)) -> (r: Option<Vec<Vec<u8>>>)
    ensures
        match r {
            Some(v) => page_streams_spec(doc.source(), page) == Some(v@.map_values(|s: Vec<u8>| s@)),
            None => page_streams_spec(doc.source(), page) is None,
        },
{
    let ghost src = doc.source();
    match contents_shape(doc, page) {
        ContentsShape::NoPage => None,
        ContentsShape::Unresolved => None,
        ContentsShape::Missing => {
            assert(Seq::<Vec<u8>>::empty().map_values(|s: Vec<u8>| s@) =~= Seq::<Seq<u8>>::empty());
            Some(Vec::new())
        },
        ContentsShape::Other => {
            assert(Seq::<Vec<u8>>::empty().map_values(|s: Vec<u8>| s@) =~= Seq::<Seq<u8>>::empty());
            Some(Vec::new())
        },
        ContentsShape::Stream => match stream_data(doc, page, None) {
            Some(b) => {
                let v = vec![b];
                assert(v@.map_values(|s: Vec<u8>| s@) =~= seq![v@[0]@]);
                Some(v)
            },
            None => None,
        },
        ContentsShape::Array(n) => {
            let mut out: Vec<Vec<u8>> = Vec::new();
            let mut i: usize = 0;
            while i < n
                invariant
                    0 <= i <= n,
                    src == doc.source(),
                    pdf_contents_shape(src, page) == ContentsShape::Array(n),
                    item_streams(src, page, 0, n as int) == prefixed(
                        out@.map_values(|s: Vec<u8>| s@),
                        item_streams(src, page, i as int, n as int),
                    ),
                decreases n - i,
            {
                let ghost before = out@.map_values(|s: Vec<u8>| s@);
                match contents_item(doc, page, i) {
                    ItemShape::Unresolved => {
                        assert(item_streams(src, page, i as int, n as int) is None);
                        return None;
                    },
                    ItemShape::Other => {},
                    ItemShape::Stream => {
                        match stream_data(doc, page, Some(i)) {
                            Some(b) => {
                                let ghost bv = b@;
                                out.push(b);
                                proof {
                                    assert(out@.map_values(|s: Vec<u8>| s@) =~= before.push(bv));
                                    match item_streams(src, page, i + 1, n as int) {
                                        Some(rest) => {
                                            assert(before + (seq![bv] + rest) =~= before.push(bv)
                                                + rest);
                                        },
                                        None => {},
                                    }
                                }
                            },
                            None => {
                                assert(item_streams(src, page, i as int, n as int) is None);
                                return None;
                            },
                        }
                    },
                }
                i = i + 1;
            }
            proof {
                assert(out@.map_values(|s: Vec<u8>| s@) + Seq::<Seq<u8>>::empty() =~= out@.map_values(
                    |s: Vec<u8>| s@,
                ));
            }
            Some(out)
        },
    }
}

/// Reads a PDF document from its bytes: the document and its page ids in
/// page order, `None` when `lopdf` cannot read it.
pub fn load_pdf(data: &[u8]) -> (r: Option<(PdfDoc, Vec<(u32, u16)>)>)
    ensures
        r is Some <==> pdf_loads(data@),
        r matches Some(p) ==> p.1@ == pdf_page_ids(data@) && p.0.source() == data@,
{
    match load_mem(data) {
        Some((doc, ids)) => Some((PdfDoc { doc, source: Ghost(data@) }, ids)),
        None => None,
    }
}

/// The id of the page at `index`, if there is one.
pub fn page_id(ids: &Vec<(u32, u16)>, index: u32) -> (r: Option<(u32, u16)>)
    ensures
        r == if (index as int) < ids@.len() {
            Some(ids@[index as int])
        } else {
            None
        },
{
    if (index as usize) < ids.len() {
        Some(ids[index as usize])
    } else {
        None
    }
}

/// Content streams joined in order, a line feed before each stream but the
/// first that comes after some bytes.
pub open spec fn joined_streams(parts: Seq<Seq<u8>>) -> Seq<u8>
    decreases parts.len(),
{
    if parts.len() == 0 {
        Seq::empty()
    } else {
        let prev = joined_streams(parts.drop_last());
        if prev.len() == 0 {
            parts.last()
        } else {
            prev + seq![10u8] + parts.last()
        }
    }
}

/// Joins content streams (see `joined_streams`).
pub fn join_content_streams(parts: &Vec<Vec<u8>>) -> (r: Vec<u8>)
    ensures
        r@ == joined_streams(parts@.map_values(|s: Vec<u8>| s@)),
{
    let ghost pv = parts@.map_values(|s: Vec<u8>| s@);
    let mut out: Vec<u8> = Vec::new();
    let mut i: usize = 0;
    while i < parts.len()
        invariant
            0 <= i <= parts@.len(),
            pv == parts@.map_values(|s: Vec<u8>| s@),
            out@ == joined_streams(pv.subrange(0, i as int)),
        decreases parts@.len() - i,
    {
        assert(pv.subrange(0, i + 1).drop_last() =~= pv.subrange(0, i as int));
        assert(pv.subrange(0, i + 1).last() == parts@[i as int]@);
        let ghost before = out@;
        if out.len() > 0 {
            out.push(10u8);
        }
        let part = &parts[i];
        let mut j: usize = 0;
        let ghost mid = out@;
        while j < part.len()
            invariant
                0 <= j <= part@.len(),
                out@ == mid + part@.subrange(0, j as int),
            decreases part@.len() - j,
        {
            out.push(part[j]);
            j = j + 1;
            assert(out@ =~= mid + part@.subrange(0, j as int));
        }
        assert(part@.subrange(0, part@.len() as int) =~= part@);
        proof {
            if before.len() > 0 {
                assert(mid =~= before + seq![10u8]);
            } else {
                assert(mid =~= Seq::<u8>::empty());
                assert(out@ =~= part@);
            }
        }
        i = i + 1;
    }
    assert(pv.subrange(0, parts@.len() as int) =~= pv);
    out
}

/// The content bytes of a page: its `/Contents` streams joined by line
/// feeds (no streams, no bytes); `None` when they cannot be read.
pub fn page_content(doc: &PdfDoc, page: (u32, u16)) -> (r: Option<Vec<u8>>)
    ensures
        match r {
            Some(b) => page_streams_spec(doc.source(), page) matches Some(ps) && b@ == joined_streams(ps),
            None => page_streams_spec(doc.source(), page) is None,
        },
{
    match page_streams(doc, page) {
        Some(parts) => Some(join_content_streams(&parts)),
        None => None,
    }
}

} // verus!
