use vstd::prelude::*;
use crate::text::{chars_of, ends_with_chars, has_suffix, lower_of, lowercase};

verus! {

/// The text formats the registry knows, one extractor each.
#[derive(Debug, Clone, Copy, PartialEq, Eq, Structural)]
pub enum ExtractorKind {
    Pdf,
    Markdown,
    Text,
    Epub,
    Doc,
}

pub open spec fn pdf_suffix() -> Seq<char> { seq!['.', 'p', 'd', 'f'] }
pub open spec fn md_suffix() -> Seq<char> { seq!['.', 'm', 'd'] }
pub open spec fn markdown_suffix() -> Seq<char> {
    seq!['.', 'm', 'a', 'r', 'k', 'd', 'o', 'w', 'n']
}
pub open spec fn txt_suffix() -> Seq<char> { seq!['.', 't', 'x', 't'] }
pub open spec fn epub_suffix() -> Seq<char> { seq!['.', 'e', 'p', 'u', 'b'] }
pub open spec fn doc_suffix() -> Seq<char> { seq!['.', 'd', 'o', 'c'] }
pub open spec fn docx_suffix() -> Seq<char> { seq!['.', 'd', 'o', 'c', 'x'] }

/// Whether an extractor of kind `k` accepts a path whose lower-case form is `lower`.
pub open spec fn kind_supports(k: ExtractorKind, lower: Seq<char>) -> bool {
    match k {
        ExtractorKind::Pdf => has_suffix(lower, pdf_suffix()),
        ExtractorKind::Markdown => has_suffix(lower, md_suffix()) || has_suffix(lower, markdown_suffix()),
        ExtractorKind::Text => has_suffix(lower, txt_suffix()),
        ExtractorKind::Epub => has_suffix(lower, epub_suffix()),
        ExtractorKind::Doc => has_suffix(lower, doc_suffix()) || has_suffix(lower, docx_suffix()),
    }
}

/// The registry's priority order.
pub open spec fn registry_order() -> Seq<ExtractorKind> {
    seq![
        ExtractorKind::Pdf,
        ExtractorKind::Markdown,
        ExtractorKind::Text,
        ExtractorKind::Epub,
        ExtractorKind::Doc,
    ]
}

/// The first kind of `kinds` that accepts `lower`, if any.
pub open spec fn first_supporting(kinds: Seq<ExtractorKind>, lower: Seq<char>) -> Option<ExtractorKind>
    decreases kinds.len(),
{
    if kinds.len() == 0 {
        None
    } else if kind_supports(kinds[0], lower) {
        Some(kinds[0])
    } else {
        first_supporting(kinds.drop_first(), lower)
    }
}

/// The extractor that the registry selects for `path`.
pub open spec fn selected_extractor(path: Seq<char>) -> Option<ExtractorKind> {
    first_supporting(registry_order(), lower_of(path))
}

impl ExtractorKind {
    /// Whether this extractor accepts `file_path`, by its extension, ignoring case.
    pub fn supports(self, file_path: &str) -> (r: bool)
        ensures
            r == kind_supports(self, lower_of(file_path@)),
    {
        let lower = lowercase(file_path);
        self.accepts_lowercase(lower.as_str())
    }

    /// Whether this extractor accepts a path already in lower case.
    pub fn accepts_lowercase(self, lower: &str) -> (r: bool)
        ensures
            r == kind_supports(self, lower@),
    {
        let s = chars_of(lower);
        match self {
            ExtractorKind::Pdf => ends_with_chars(&s, &vec!['.', 'p', 'd', 'f']),
            ExtractorKind::Markdown => {
                ends_with_chars(&s, &vec!['.', 'm', 'd'])
                    || ends_with_chars(&s, &vec!['.', 'm', 'a', 'r', 'k', 'd', 'o', 'w', 'n'])
            },
            ExtractorKind::Text => ends_with_chars(&s, &vec!['.', 't', 'x', 't']),
            ExtractorKind::Epub => ends_with_chars(&s, &vec!['.', 'e', 'p', 'u', 'b']),
            ExtractorKind::Doc => {
                ends_with_chars(&s, &vec!['.', 'd', 'o', 'c'])
                    || ends_with_chars(&s, &vec!['.', 'd', 'o', 'c', 'x'])
            },
        }
    }

    /// The registry's extractors, in the order in which they are tried.
    pub fn registry() -> (r: Vec<ExtractorKind>)
        ensures
            r@ == registry_order(),
    {
        let r = vec![
            ExtractorKind::Pdf,
            ExtractorKind::Markdown,
            ExtractorKind::Text,
            ExtractorKind::Epub,
            ExtractorKind::Doc,
        ];
        assert(r@ =~= registry_order());
        r
    }
}

/// A text extractor for one file format.
pub trait Extractor {
    spec fn spec_kind(&self) -> ExtractorKind;

    /// The format this extractor handles.
    fn kind(&self) -> (r: ExtractorKind)
        ensures
            r == self.spec_kind(),
    ;

    /// Whether this extractor accepts `file_path`.
    fn supports(&self, file_path: &str) -> (r: bool)
        ensures
            r == kind_supports(self.spec_kind(), lower_of(file_path@)),
    ;
}

/// Extracts the text layer of PDF files, with OCR as the fallback.
pub struct PdfExtractor;

/// Reads Markdown files verbatim.
pub struct MarkdownExtractor;

/// Reads plain text files verbatim.
pub struct TextExtractor;

/// Reads EPUB books chapter by chapter, erasing markup tags.
pub struct EpubExtractor;

/// Routes DOC and DOCX files to OCR.
pub struct DocExtractor;

impl Extractor for PdfExtractor {
    open spec fn spec_kind(&self) -> ExtractorKind { ExtractorKind::Pdf }

    fn kind(&self) -> (r: ExtractorKind) { ExtractorKind::Pdf }

    fn supports(&self, file_path: &str) -> (r: bool) { ExtractorKind::Pdf.supports(file_path) }
}

impl Extractor for MarkdownExtractor {
    open spec fn spec_kind(&self) -> ExtractorKind { ExtractorKind::Markdown }

    fn kind(&self) -> (r: ExtractorKind) { ExtractorKind::Markdown }

    fn supports(&self, file_path: &str) -> (r: bool) { ExtractorKind::Markdown.supports(file_path) }
}

impl Extractor for TextExtractor {
    open spec fn spec_kind(&self) -> ExtractorKind { ExtractorKind::Text }

    fn kind(&self) -> (r: ExtractorKind) { ExtractorKind::Text }

    fn supports(&self, file_path: &str) -> (r: bool) { ExtractorKind::Text.supports(file_path) }
}

impl Extractor for EpubExtractor {
    open spec fn spec_kind(&self) -> ExtractorKind { ExtractorKind::Epub }

    fn kind(&self) -> (r: ExtractorKind) { ExtractorKind::Epub }

    fn supports(&self, file_path: &str) -> (r: bool) { ExtractorKind::Epub.supports(file_path) }
}

impl Extractor for DocExtractor {
    open spec fn spec_kind(&self) -> ExtractorKind { ExtractorKind::Doc }

    fn kind(&self) -> (r: ExtractorKind) { ExtractorKind::Doc }

    fn supports(&self, file_path: &str) -> (r: bool) { ExtractorKind::Doc.supports(file_path) }
}

/// Selection by extension, ignoring case: a supported extension selects its
/// extractor, and a name with none of them selects nothing.
pub proof fn selection_by_extension(path: Seq<char>)
    ensures
        ({
            let l = lower_of(path);
            &&& kind_supports(ExtractorKind::Pdf, l) ==> selected_extractor(path) == Some(ExtractorKind::Pdf)
            &&& kind_supports(ExtractorKind::Markdown, l) ==> selected_extractor(path) == Some(ExtractorKind::Markdown)
            &&& kind_supports(ExtractorKind::Text, l) ==> selected_extractor(path) == Some(ExtractorKind::Text)
            &&& kind_supports(ExtractorKind::Epub, l) ==> selected_extractor(path) == Some(ExtractorKind::Epub)
            &&& kind_supports(ExtractorKind::Doc, l) ==> selected_extractor(path) == Some(ExtractorKind::Doc)
            &&& (forall|k: ExtractorKind| !kind_supports(k, l)) ==> selected_extractor(path) is None
        }),
{
    let l = lower_of(path);
    let r = registry_order();
    reveal_with_fuel(first_supporting, 6);
    assert(r.drop_first() =~= seq![ExtractorKind::Markdown, ExtractorKind::Text, ExtractorKind::Epub, ExtractorKind::Doc]);
    assert(r.drop_first().drop_first() =~= seq![ExtractorKind::Text, ExtractorKind::Epub, ExtractorKind::Doc]);
    assert(r.drop_first().drop_first().drop_first() =~= seq![ExtractorKind::Epub, ExtractorKind::Doc]);
    assert(r.drop_first().drop_first().drop_first().drop_first() =~= seq![ExtractorKind::Doc]);
    assert(r.drop_first().drop_first().drop_first().drop_first().drop_first() =~= Seq::<ExtractorKind>::empty());
    lemma_suffixes_exclusive(l);
}

/// No name ends with two of the registry's extensions of different formats.
proof fn lemma_suffixes_exclusive(l: Seq<char>)
    ensures
        forall|a: ExtractorKind, b: ExtractorKind| kind_supports(a, l) && kind_supports(b, l) ==> a == b,
{
    assert forall|a: ExtractorKind, b: ExtractorKind| kind_supports(a, l) && kind_supports(b, l) implies a == b by {
        let n = l.len();
        if kind_supports(a, l) && kind_supports(b, l) && a != b {
            assert(l[n - 1] == kind_last(a, l));
            assert(l[n - 1] == kind_last(b, l));
            assert(l[n - 2] == kind_second_last(a, l));
            assert(l[n - 2] == kind_second_last(b, l));
        }
    };
}

/// The last character of the extension that `k` matched in `l`.
spec fn kind_last(k: ExtractorKind, l: Seq<char>) -> char {
    match k {
        ExtractorKind::Pdf => 'f',
        ExtractorKind::Markdown => if has_suffix(l, md_suffix()) { 'd' } else { 'n' },
        ExtractorKind::Text => 't',
        ExtractorKind::Epub => 'b',
        ExtractorKind::Doc => if has_suffix(l, doc_suffix()) { 'c' } else { 'x' },
    }
}

/// The second-to-last character of the extension that `k` matched in `l`.
spec fn kind_second_last(k: ExtractorKind, l: Seq<char>) -> char {
    match k {
        ExtractorKind::Pdf => 'd',
        ExtractorKind::Markdown => if has_suffix(l, md_suffix()) { 'm' } else { 'w' },
        ExtractorKind::Text => 'x',
        ExtractorKind::Epub => 'u',
        ExtractorKind::Doc => if has_suffix(l, doc_suffix()) { 'o' } else { 'c' },
    }
}

/// Selects the first extractor, in the registry's order, that accepts a path
/// already in lower case; `None` when no extractor handles its extension.
pub fn select_for_lowercase(lower: &str) -> (r: Option<ExtractorKind>)
    ensures
        r == first_supporting(registry_order(), lower@),
{
    let kinds = ExtractorKind::registry();
    let mut i: usize = 0;
    assert(kinds@.skip(0) =~= kinds@);
    while i < kinds.len()
        invariant
            kinds@ == registry_order(),
            i <= kinds@.len(),
            first_supporting(registry_order(), lower@) == first_supporting(kinds@.skip(i as int), lower@),
        decreases kinds@.len() - i,
    {
        let k = kinds[i];
        assert(kinds@.skip(i as int)[0] == k);
        if k.accepts_lowercase(lower) {
            return Some(k);
        }
        assert(kinds@.skip(i as int).drop_first() =~= kinds@.skip(i as int + 1));
        i = i + 1;
    }
    assert(kinds@.skip(i as int).len() == 0);
    None
}

/// Selects the first extractor, in the registry's order, that accepts `file_path`
/// (ignoring case); `None` when no extractor handles its extension.
pub fn get_extractor(file_path: &str) -> (r: Option<ExtractorKind>)
    ensures
        r == selected_extractor(file_path@),
{
    let lower = lowercase(file_path);
    select_for_lowercase(lower.as_str())
}

} // verus!
