use akashic::{chunk_document, chunk_tags, ChromaDbStore, Chunk, MetadataShape, TagValue};

fn texts(chunks: &[Chunk]) -> Vec<String> {
    chunks.iter().map(|c| c.text.clone()).collect()
}

fn ids(chunks: &[Chunk]) -> Vec<String> {
    chunks.iter().map(|c| c.id.clone()).collect()
}

#[test]
fn three_paragraphs_make_three_chunks() {
    let chunks = chunk_document("doc", "alpha\n\nbeta\n\ngamma");
    assert_eq!(texts(&chunks), vec!["alpha", "beta", "gamma"]);
    assert_eq!(ids(&chunks), vec!["doc_0", "doc_1", "doc_2"]);
    assert_eq!(chunks.iter().map(|c| c.index).collect::<Vec<_>>(), vec![0, 1, 2]);
}

#[test]
fn blank_pieces_are_dropped() {
    let chunks = chunk_document("7", "\n\n  \n\nfirst\n\n\t\n\nsecond line\nstill second\n\n");
    assert_eq!(texts(&chunks), vec!["first", "second line\nstill second"]);
    assert_eq!(ids(&chunks), vec!["7_0", "7_1"]);
}

#[test]
fn empty_text_has_no_chunks() {
    assert!(chunk_document("doc", "").is_empty());
    assert!(chunk_document("doc", " \n\n \n").is_empty());
}

#[test]
fn three_newlines_leave_one_with_the_next_paragraph() {
    let chunks = chunk_document("d", "a\n\n\nb");
    assert_eq!(texts(&chunks), vec!["a", "\nb"]);
}

#[test]
fn many_paragraphs_count_past_nine() {
    let text = (0..12).map(|i| format!("p{}", i)).collect::<Vec<_>>().join("\n\n");
    let chunks = chunk_document("doc", &text);
    assert_eq!(chunks.len(), 12);
    assert_eq!(chunks[10].id, "doc_10");
    assert_eq!(chunks[11].text, "p11");
}

#[test]
fn vector_store_urls() {
    let s = ChromaDbStore::new("http://localhost:8000//", "akashic");
    assert_eq!(s.base_url, "http://localhost:8000");
    assert_eq!(s.collections_url(), "http://localhost:8000/api/v1/collections");
    assert_eq!(s.add_url(), "http://localhost:8000/api/v1/collections/akashic/add");
    let t = ChromaDbStore::new("http://h", "c");
    assert_eq!(t.add_url(), "http://h/api/v1/collections/c/add");
}

#[test]
fn chunk_tags_by_metadata_shape() {
    for shape in [MetadataShape::Absent, MetadataShape::Object] {
        let tags = chunk_tags(shape, 3, "doc");
        assert_eq!(tags.len(), 2);
        assert_eq!(tags[0].key, "chunk_index");
        assert_eq!(tags[0].value, TagValue::Number(3));
        assert_eq!(tags[1].key, "document_id");
        assert_eq!(tags[1].value, TagValue::Text("doc".to_string()));
    }
    assert!(chunk_tags(MetadataShape::Other, 0, "doc").is_empty());
}

#[test]
fn unicode_white_space_is_blank() {
    let chunks = chunk_document("u", "\u{3000}\u{a0}\n\nword\n\n\u{200b}");
    assert_eq!(texts(&chunks), vec!["word", "\u{200b}"]);
    assert_eq!(ids(&chunks), vec!["u_0", "u_1"]);
}
