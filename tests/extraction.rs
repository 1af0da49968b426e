use akashic::{
    after_action, epub_text, first_action, get_extractor, ocr_text, select_for_lowercase, strip_html_tags,
    DocExtractor, EpubExtractor, ExtractAction, ExtractError, ExtractNext, Extractor,
    ExtractorKind, MarkdownExtractor, PdfExtractor, TextExtractor,
};

#[test]
fn selects_extractor_for_each_supported_extension() {
    assert_eq!(get_extractor("paper.pdf"), Some(ExtractorKind::Pdf));
    assert_eq!(get_extractor("notes.md"), Some(ExtractorKind::Markdown));
    assert_eq!(get_extractor("notes.markdown"), Some(ExtractorKind::Markdown));
    assert_eq!(get_extractor("readme.txt"), Some(ExtractorKind::Text));
    assert_eq!(get_extractor("book.epub"), Some(ExtractorKind::Epub));
    assert_eq!(get_extractor("letter.doc"), Some(ExtractorKind::Doc));
    assert_eq!(get_extractor("letter.docx"), Some(ExtractorKind::Doc));
}

#[test]
fn selection_ignores_case() {
    assert_eq!(get_extractor("SCAN.PDF"), Some(ExtractorKind::Pdf));
    assert_eq!(get_extractor("Notes.MarkDown"), Some(ExtractorKind::Markdown));
    assert_eq!(get_extractor("/tmp/Dir.pdf/Book.EPUB"), Some(ExtractorKind::Epub));
}

#[test]
fn unsupported_extension_selects_nothing() {
    assert_eq!(get_extractor("report.xyz"), None);
    assert_eq!(get_extractor(""), None);
    assert_eq!(get_extractor("pdf"), None);
    assert_eq!(get_extractor("archive.pdf.zip"), None);
}

#[test]
fn extractor_structs_report_their_formats() {
    assert!(PdfExtractor.supports("a.pdf"));
    assert!(!PdfExtractor.supports("a.txt"));
    assert!(MarkdownExtractor.supports("a.MD"));
    assert!(TextExtractor.supports("a.txt"));
    assert!(EpubExtractor.supports("a.epub"));
    assert!(DocExtractor.supports("a.DOCX"));
    assert!(!DocExtractor.supports("a.pdf"));
    assert_eq!(PdfExtractor.kind(), ExtractorKind::Pdf);
    assert_eq!(DocExtractor.kind(), ExtractorKind::Doc);
}

#[test]
fn failed_pdf_read_falls_back_to_ocr_once() {
    assert_eq!(first_action(ExtractorKind::Pdf), ExtractAction::ReadPdf);
    match after_action(ExtractAction::ReadPdf, Err(ExtractError::Read("broken xref".to_string()))) {
        ExtractNext::Then(a) => assert_eq!(a, ExtractAction::RunOcr),
        other => panic!("unexpected {:?}", other),
    }
    match after_action(ExtractAction::RunOcr, Err(ExtractError::OcrLaunch)) {
        ExtractNext::Finished(Err(e)) => assert_eq!(e, ExtractError::OcrLaunch),
        other => panic!("unexpected {:?}", other),
    }
    match after_action(ExtractAction::ReadPdf, Ok("text".to_string())) {
        ExtractNext::Finished(Ok(t)) => assert_eq!(t, "text"),
        other => panic!("unexpected {:?}", other),
    }
}

#[test]
fn first_actions_by_kind() {
    assert_eq!(first_action(ExtractorKind::Markdown), ExtractAction::ReadFile);
    assert_eq!(first_action(ExtractorKind::Text), ExtractAction::ReadFile);
    assert_eq!(first_action(ExtractorKind::Epub), ExtractAction::ReadEpub);
    assert_eq!(first_action(ExtractorKind::Doc), ExtractAction::RunOcr);
}

#[test]
fn ocr_failures_name_the_tool() {
    let e = ocr_text(false, false, vec![], &vec![]).unwrap_err();
    assert_eq!(e, ExtractError::OcrLaunch);
    assert!(e.message().contains("tesseract"));
    let e = ocr_text(true, false, vec![], &b"no such file".to_vec()).unwrap_err();
    assert_eq!(e, ExtractError::OcrFailed("no such file".to_string()));
    assert_eq!(e.message(), "Tesseract failed: no such file");
    let e = ocr_text(true, false, vec![], &vec![b'b', b'a', b'd', 0xff]).unwrap_err();
    assert_eq!(e.message(), "Tesseract failed: bad\u{FFFD}");
    let e = ocr_text(true, true, vec![0xff, 0xfe], &vec![]).unwrap_err();
    assert_eq!(e, ExtractError::OcrInvalidUtf8);
    assert_eq!(e.message(), "Invalid UTF-8 from tesseract");
}

#[test]
fn ocr_output_is_the_text() {
    let t = ocr_text(true, true, "héllo\nworld".as_bytes().to_vec(), &vec![]).unwrap();
    assert_eq!(t, "héllo\nworld");
}

#[test]
fn no_extractor_message() {
    assert_eq!(ExtractError::NoExtractor.message(), "No extractor found for this file type");
    assert_eq!(ExtractError::Read("gone".to_string()).message(), "Failed to read file: gone");
}

#[test]
fn strips_markup_tags() {
    assert_eq!(strip_html_tags("<p>Hello <b>world</b></p>"), "Hello world");
    assert_eq!(strip_html_tags("a &amp; b"), "a &amp; b");
    assert_eq!(strip_html_tags("a < b"), "a < b");
    assert_eq!(strip_html_tags("x<br/>y<>z"), "xyz");
}

#[test]
fn epub_chapters_are_joined() {
    let chapters = vec![
        Some("<h1>One</h1>".to_string()),
        None,
        Some("<p>Two &amp; more</p>".to_string()),
    ];
    assert_eq!(epub_text(&chapters), "One\nTwo &amp; more\n");
    assert_eq!(epub_text(&vec![]), "");
}

#[test]
fn selection_on_lowercase_paths() {
    assert_eq!(select_for_lowercase("scan.pdf"), Some(ExtractorKind::Pdf));
    assert_eq!(select_for_lowercase("scan.PDF"), None);
    assert_eq!(select_for_lowercase("a.docx"), Some(ExtractorKind::Doc));
    assert_eq!(select_for_lowercase("report.xyz"), None);
    assert!(ExtractorKind::Text.accepts_lowercase("a.txt"));
    assert!(!ExtractorKind::Text.accepts_lowercase("a.TXT"));
}
