use lopdf::{Dictionary, Object, Stream};
use parang::document::{join_content_streams, load_pdf, page_content, page_id, page_streams};

/// A one-page document whose page has the given content streams.
fn minimal_pdf(contents: Vec<Vec<u8>>) -> Vec<u8> {
    pdf_with_contents(|doc| {
        if contents.is_empty() {
            None
        } else {
            let ids: Vec<Object> = contents
                .into_iter()
                .map(|c| Object::Reference(doc.add_object(Stream::new(Dictionary::new(), c))))
                .collect();
            Some(Object::Array(ids))
        }
    })
}

/// A one-page document whose `/Contents` is what `contents` makes.
fn pdf_with_contents(contents: impl FnOnce(&mut lopdf::Document) -> Option<Object>) -> Vec<u8> {
    let mut doc = lopdf::Document::with_version("1.5");
    let pages_id = doc.new_object_id();
    let page_id = doc.new_object_id();
    let catalog_id = doc.new_object_id();

    let mut page = Dictionary::new();
    page.set("Type", "Page");
    page.set("Parent", pages_id);
    page.set("MediaBox", vec![Object::Integer(0), Object::Integer(0), Object::Integer(612), Object::Integer(792)]);
    if let Some(c) = contents(&mut doc) {
        page.set("Contents", c);
    }
    doc.objects.insert(page_id, Object::Dictionary(page));

    let mut pages = Dictionary::new();
    pages.set("Type", "Pages");
    pages.set("Kids", vec![Object::Reference(page_id)]);
    pages.set("Count", Object::Integer(1));
    doc.objects.insert(pages_id, Object::Dictionary(pages));

    let mut catalog = Dictionary::new();
    catalog.set("Type", "Catalog");
    catalog.set("Pages", pages_id);
    doc.objects.insert(catalog_id, Object::Dictionary(catalog));
    doc.trailer.set("Root", catalog_id);

    let mut buf = Vec::new();
    doc.save_to(&mut buf).expect("save minimal pdf");
    buf
}

#[test]
fn test_from_bytes_invalid() {
    assert!(load_pdf(b"not a pdf").is_none());
}

#[test]
fn test_from_bytes_minimal_pdf() {
    let bytes = minimal_pdf(Vec::new());
    let (_doc, ids) = load_pdf(&bytes).expect("should parse minimal PDF");
    assert_eq!(ids.len(), 1);
}

#[test]
fn test_invalid_page_index() {
    let bytes = minimal_pdf(Vec::new());
    let (_doc, ids) = load_pdf(&bytes).unwrap();
    assert!(page_id(&ids, 999).is_none());
    assert_eq!(page_id(&ids, 0), Some(ids[0]));
}

#[test]
fn page_content_joins_streams_with_line_feeds() {
    let bytes = minimal_pdf(vec![b"BT (a) Tj".to_vec(), b"ET".to_vec()]);
    let (doc, ids) = load_pdf(&bytes).unwrap();
    let id = page_id(&ids, 0).unwrap();
    assert_eq!(page_content(&doc, id), Some(b"BT (a) Tj\nET".to_vec()));
}

#[test]
fn page_without_contents_has_no_bytes() {
    let bytes = minimal_pdf(Vec::new());
    let (doc, ids) = load_pdf(&bytes).unwrap();
    assert_eq!(page_content(&doc, ids[0]), Some(Vec::new()));
    assert_eq!(page_content(&doc, (9999, 0)), None);
}

#[test]
fn join_puts_line_feeds_after_bytes_only() {
    assert_eq!(join_content_streams(&vec![]), Vec::<u8>::new());
    assert_eq!(join_content_streams(&vec![vec![], b"q".to_vec(), b"Q".to_vec()]), b"q\nQ".to_vec());
    assert_eq!(join_content_streams(&vec![b"q".to_vec(), vec![]]), b"q\n".to_vec());
}

#[test]
fn contents_shapes() {
    // a reference to a single stream
    let bytes = pdf_with_contents(|doc| Some(Object::Reference(doc.add_object(Stream::new(Dictionary::new(), b"q Q".to_vec())))));
    let (doc, ids) = load_pdf(&bytes).unwrap();
    assert_eq!(page_content(&doc, ids[0]), Some(b"q Q".to_vec()));
    // a reference to an array, with an item that is not a stream
    let bytes = pdf_with_contents(|doc| {
        let s1 = doc.add_object(Stream::new(Dictionary::new(), b"BT".to_vec()));
        let s2 = doc.add_object(Stream::new(Dictionary::new(), b"ET".to_vec()));
        let arr = vec![Object::Reference(s1), Object::Integer(7), Object::Reference(s2)];
        Some(Object::Reference(doc.add_object(arr)))
    });
    let (doc, ids) = load_pdf(&bytes).unwrap();
    assert_eq!(page_streams(&doc, ids[0]), Some(vec![b"BT".to_vec(), b"ET".to_vec()]));
    assert_eq!(page_content(&doc, ids[0]), Some(b"BT\nET".to_vec()));
    // neither a stream nor an array
    let bytes = pdf_with_contents(|_| Some(Object::Integer(3)));
    let (doc, ids) = load_pdf(&bytes).unwrap();
    assert_eq!(page_content(&doc, ids[0]), Some(Vec::new()));
    // a reference that leads nowhere
    let bytes = pdf_with_contents(|_| Some(Object::Reference((777, 0))));
    let (doc, ids) = load_pdf(&bytes).unwrap();
    assert_eq!(page_content(&doc, ids[0]), None);
}
