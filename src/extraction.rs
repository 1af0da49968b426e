use vstd::prelude::*;
use vstd::string::StringExecFns;
use vstd::utf8::{decode_utf8, valid_utf8};
use crate::extractors::ExtractorKind;
use crate::text::{lossy_of, utf8_text, utf8_text_lossy};

verus! {

/// What `pattern` leaves of `text` once every match is replaced by nothing,
/// as `regex::Regex::replace_all` gives it.
pub uninterp spec fn regex_erased(pattern: Seq<char>, text: Seq<char>) -> Seq<char>;

/// Why text could not be extracted from a file.
#[derive(Debug, Clone, PartialEq, Eq)]
pub enum ExtractError {
    /// No extractor accepts the file's extension.
    NoExtractor,
    /// The file could not be read or parsed; the reader's own words.
    Read(String),
    /// The OCR tool could not be started.
    OcrLaunch,
    /// The OCR tool exited with failure; what it wrote to standard error.
    OcrFailed(String),
    /// The OCR tool's output is not UTF-8.
    OcrInvalidUtf8,
}

impl ExtractError {
    pub open spec fn spec_message(&self) -> Seq<char> {
        match self {
            ExtractError::NoExtractor => "No extractor found for this file type"@,
            ExtractError::Read(m) => "Failed to read file: "@ + m@,
            ExtractError::OcrLaunch => "Failed to run tesseract. Make sure it's installed."@,
            ExtractError::OcrFailed(m) => "Tesseract failed: "@ + m@,
            ExtractError::OcrInvalidUtf8 => "Invalid UTF-8 from tesseract"@,
        }
    }

    /// Whether the error comes from the OCR tool.
    pub open spec fn spec_is_ocr(&self) -> bool {
        self is OcrLaunch || self is OcrFailed || self is OcrInvalidUtf8
    }

    /// The human-readable message recorded on a failed job.
    pub fn message(&self) -> (r: String)
        ensures
            r@ == self.spec_message(),
    {
        let mut r = String::new();
        match self {
            ExtractError::NoExtractor => r.append("No extractor found for this file type"),
            ExtractError::Read(m) => {
                r.append("Failed to read file: ");
                r.append(m.as_str());
            },
            ExtractError::OcrLaunch => r.append("Failed to run tesseract. Make sure it's installed."),
            ExtractError::OcrFailed(m) => {
                r.append("Tesseract failed: ");
                r.append(m.as_str());
            },
            ExtractError::OcrInvalidUtf8 => r.append("Invalid UTF-8 from tesseract"),
        }
        r
    }
}

/// One unit of outside work while extracting a file.
#[derive(Debug, Clone, Copy, PartialEq, Eq, Structural)]
pub enum ExtractAction {
    /// Read the file's contents verbatim.
    ReadFile,
    /// Read the text layer of a PDF file.
    ReadPdf,
    /// Run the OCR tool on the file.
    RunOcr,
    /// Read the chapters of an EPUB book.
    ReadEpub,
}

/// What follows an extraction action.
#[derive(Debug)]
pub enum ExtractNext {
    /// Extraction is over, with this result.
    Finished(Result<String, ExtractError>),
    /// Perform this action next.
    Then(ExtractAction),
}

pub open spec fn spec_first_action(kind: ExtractorKind) -> ExtractAction {
    match kind {
        ExtractorKind::Pdf => ExtractAction::ReadPdf,
        ExtractorKind::Markdown => ExtractAction::ReadFile,
        ExtractorKind::Text => ExtractAction::ReadFile,
        ExtractorKind::Epub => ExtractAction::ReadEpub,
        ExtractorKind::Doc => ExtractAction::RunOcr,
    }
}

/// The first action that extracting a file of this kind performs.
pub fn first_action(kind: ExtractorKind) -> (r: ExtractAction)
    ensures
        r == spec_first_action(kind),
{
    match kind {
        ExtractorKind::Pdf => ExtractAction::ReadPdf,
        ExtractorKind::Markdown => ExtractAction::ReadFile,
        ExtractorKind::Text => ExtractAction::ReadFile,
        ExtractorKind::Epub => ExtractAction::ReadEpub,
        ExtractorKind::Doc => ExtractAction::RunOcr,
    }
}

pub open spec fn spec_after_action(action: ExtractAction, outcome: Result<String, ExtractError>) -> ExtractNext {
    if action is ReadPdf && outcome is Err {
        ExtractNext::Then(ExtractAction::RunOcr)
    } else {
        ExtractNext::Finished(outcome)
    }
}

/// Decides what follows `action` given its outcome: a failed PDF text read
/// falls back to OCR; every other outcome ends the extraction as it is.
pub fn after_action(action: ExtractAction, outcome: Result<String, ExtractError>) -> (r: ExtractNext)
    ensures
        r == spec_after_action(action, outcome),
{
    match (action, outcome) {
        (ExtractAction::ReadPdf, Err(_)) => ExtractNext::Then(ExtractAction::RunOcr),
        (_, outcome) => ExtractNext::Finished(outcome),
    }
}

/// A failing PDF text read leads to exactly one OCR run, and whatever that run
/// gives ends the extraction with no further attempt.
pub proof fn pdf_falls_back_to_ocr_once(
    primary_error: ExtractError,
    ocr_outcome: Result<String, ExtractError>,
)
    ensures
        spec_first_action(ExtractorKind::Pdf) == ExtractAction::ReadPdf,
        spec_after_action(ExtractAction::ReadPdf, Err(primary_error))
            == ExtractNext::Then(ExtractAction::RunOcr),
        spec_after_action(ExtractAction::RunOcr, ocr_outcome) == ExtractNext::Finished(ocr_outcome),
{
}

/// `m` names the OCR tool: it holds `tesseract` or `Tesseract`.
pub open spec fn names_ocr_tool(m: Seq<char>) -> bool {
    exists|i: int| 0 <= i && i + 9 <= m.len()
        && (#[trigger] m.subrange(i, i + 9) == "tesseract"@ || m.subrange(i, i + 9) == "Tesseract"@)
}

/// Every error that the OCR tool causes carries a message that names it.
pub proof fn ocr_errors_name_the_tool(e: ExtractError)
    requires
        e.spec_is_ocr(),
    ensures
        names_ocr_tool(e.spec_message()),
{
    reveal_strlit("tesseract");
    reveal_strlit("Tesseract");
    let m = e.spec_message();
    match e {
        ExtractError::OcrLaunch => {
            reveal_strlit("Failed to run tesseract. Make sure it's installed.");
            assert(m.len() == 50);
            assert(m.subrange(14, 14int + 9) =~= "tesseract"@);
        },
        ExtractError::OcrFailed(out) => {
            reveal_strlit("Tesseract failed: ");
            assert(m.subrange(0, 0int + 9) =~= "Tesseract"@);
        },
        ExtractError::OcrInvalidUtf8 => {
            reveal_strlit("Invalid UTF-8 from tesseract");
            assert(m.subrange(19, 19int + 9) =~= "tesseract"@);
        },
        _ => {},
    }
}

/// Interprets a run of the OCR tool: the tool must have started and exited with
/// success, and its standard output must be UTF-8, which is the extracted text.
pub fn ocr_text(launched: bool, success: bool, stdout: Vec<u8>, stderr: &Vec<u8>) -> (r: Result<String, ExtractError>)
    ensures
        !launched ==> r == Err::<String, ExtractError>(ExtractError::OcrLaunch),
        launched && !success ==> (r matches Err(ExtractError::OcrFailed(m)) && m@ == lossy_of(stderr@)),
        launched && success && !valid_utf8(stdout@) ==> r == Err::<String, ExtractError>(ExtractError::OcrInvalidUtf8),
        launched && success && valid_utf8(stdout@) ==> (r matches Ok(t) && t@ == decode_utf8(stdout@)),
{
    if !launched {
        return Err(ExtractError::OcrLaunch);
    }
    if !success {
        return Err(ExtractError::OcrFailed(utf8_text_lossy(stderr)));
    }
    match utf8_text(stdout) {
        Some(t) => Ok(t),
        None => Err(ExtractError::OcrInvalidUtf8),
    }
}

/// Relies on `regex::Regex::new` and `regex::Regex::replace_all`: `None` when the
/// pattern is refused, else `text` with every match of `pattern` erased. The
/// result depends on `pattern` and `text` alone, and `<[^>]*>` (a literal, a
/// negated class under a star, a literal) is a valid pattern.
#[verifier::external_body]
fn erase_matches(pattern: &str, text: &str) -> (r: Option<String>)
    ensures
        r matches Some(s) ==> s@ == regex_erased(pattern@, text@),
        pattern@ == "<[^>]*>"@ ==> r is Some,
{
    regex::Regex::new(pattern).ok().map(|re| re.replace_all(text, "").into_owned())
}

/// The pattern of one markup tag: everything from `<` to the next `>`.
pub open spec fn tag_pattern() -> Seq<char> {
    "<[^>]*>"@
}

/// `html` with every `<...>` tag erased; entities and stray brackets stay.
pub fn strip_html_tags(html: &str) -> (r: String)
    ensures
        r@ == regex_erased(tag_pattern(), html@),
{
    erase_matches("<[^>]*>", html).unwrap()
}

/// The text of a book whose chapters hold `chapters`: each chapter, tags erased,
/// followed by a newline; a chapter that could not be read adds nothing.
pub open spec fn book_text(chapters: Seq<Option<String>>) -> Seq<char>
    decreases chapters.len(),
{
    if chapters.len() == 0 {
        Seq::empty()
    } else {
        let rest = book_text(chapters.drop_last());
        match chapters.last() {
            Some(c) => rest + regex_erased(tag_pattern(), c@).push('\n'),
            None => rest,
        }
    }
}

/// Joins the chapters of an EPUB book in reading order, erasing markup tags
/// and ending each chapter with a newline.
pub fn epub_text(chapters: &Vec<Option<String>>) -> (r: String)
    ensures
        r@ == book_text(chapters@),
{
    let mut text = String::new();
    let mut i: usize = 0;
    while i < chapters.len()
        invariant
            i <= chapters@.len(),
            text@ == book_text(chapters@.take(i as int)),
        decreases chapters@.len() - i,
    {
        assert(chapters@.take(i as int + 1).drop_last() =~= chapters@.take(i as int));
        assert(chapters@.take(i as int + 1).last() == chapters@[i as int]);
        let ghost prev = text@;
        match &chapters[i] {
            Some(content) => {
                let stripped = strip_html_tags(content.as_str());
                text.append(stripped.as_str());
                text.append("\n");
                proof {
                    reveal_strlit("\n");
                    assert(text@ =~= prev + stripped@.push('\n'));
                }
            },
            None => {},
        }
        i = i + 1;
    }
    assert(chapters@.take(chapters@.len() as int) =~= chapters@);
    text
}

} // verus!
