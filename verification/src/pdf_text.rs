//! The text of a PDF file, as `pdf_extract` finds it.

use vstd::prelude::*;
use vstd::string::StringExecFns;

use crate::decode::option_string_view;
use crate::error::FileProcessingError;
use crate::text::{is_blank, is_blank_text, starts_with};

verus! {

/// The content reported for a PDF whose extracted text is `text`; a PDF
/// never reports an encoding.
pub open spec fn pdf_outcome(text: Seq<char>) -> (Seq<char>, Option<Seq<char>>) {
    if is_blank_text(text) {
        (
            "PDF file processed but no text content was extracted. This may be a scanned document or contain only images."@,
            None,
        )
    } else {
        (text, None)
    }
}

pub open spec fn pdf_error_prefix() -> Seq<char> {
    "Failed to extract text from PDF: "@
}

/// What `pdf_extract::extract_text_from_mem` does with `bytes`: nothing,
/// when it panics; else the extracted text, or the text that its error
/// displays.
pub uninterp spec fn pdf_extraction(bytes: Seq<u8>) -> Option<Result<Seq<char>, Seq<char>>>;

/// `pdf_extract::extract_text_from_mem`, its error read back through
/// `Display`.  The contract names the outcome.  The extraction panics on
/// some documents that parse but use an encoding or a character map that
/// it does not support; the `requires` leaves those out.  An error text
/// starts with the prefix of one of `OutputError`'s variants.
#[verifier::external_body]
fn extract_pdf_text(bytes: &[u8]) -> (r: Result<String, String>)
    requires
        pdf_extraction(bytes@) is Some,
    ensures
        r matches Ok(s) ==> pdf_extraction(bytes@) == Some(Ok::<Seq<char>, Seq<char>>(s@)),
        r matches Err(t) ==> pdf_extraction(bytes@) == Some(Err::<Seq<char>, Seq<char>>(t@)),
        r matches Err(t) ==> starts_with(t@, "PDF error: "@) || starts_with(t@, "IO error: "@)
            || starts_with(t@, "Formating error: "@),
{
    match pdf_extract::extract_text_from_mem(bytes) {
        Ok(text) => Ok(text),
        Err(e) => Err(e.to_string()),
    }
}

/// The `Display` text of the `pdf_extract::OutputError` made from the
/// `lopdf` error for an I/O error, as `pdf_extract::extract_text` reports
/// a file that cannot be read (`lopdf::Document::load` wraps it as
/// `lopdf::Error::IO`).  The contract claims the two prefixes that the
/// sources' `Display` impls write before the I/O error's own text.
#[verifier::external_body]
pub(crate) fn pdf_io_error_text(e: std::io::Error) -> (r: String)
    ensures
        starts_with(r@, "PDF error: IO error: "@),
{
    pdf_extract::OutputError::from(pdf_extract::Error::from(e)).to_string()
}

/// The message of a failed extraction whose error reads `detail`.
pub fn pdf_error_message(detail: &str) -> (r: String)
    ensures
        r@ == pdf_error_prefix() + detail@,
{
    let mut message = "Failed to extract text from PDF: ".to_owned();
    message.append(detail);
    message
}

/// The content for a PDF whose extracted text is `text`.
pub fn pdf_result(text: String) -> (r: (String, Option<String>))
    ensures
        (r.0@, option_string_view(r.1)) == pdf_outcome(text@),
{
    if is_blank(text.as_str()) {
        (
            "PDF file processed but no text content was extracted. This may be a scanned document or contain only images.".to_owned(),
            None,
        )
    } else {
        (text, None)
    }
}

/// What the PDF handler gives for `bytes` whose extraction returns.
pub open spec fn pdf_handled(
    bytes: Seq<u8>,
    r: Result<(String, Option<String>), FileProcessingError>,
) -> bool {
    match pdf_extraction(bytes) {
        Some(Ok(t)) => r matches Ok(o) && (o.0@, option_string_view(o.1)) == pdf_outcome(t),
        Some(Err(d)) => r matches Err(FileProcessingError::PdfError(m)) && m@ == pdf_error_prefix()
            + d,
        None => true,
    }
}

/// The content of a PDF file given its bytes: the outcome for the
/// extracted text, or a `PdfError` with the extraction error's text.
pub fn process_pdf(bytes: &[u8]) -> (r: Result<(String, Option<String>), FileProcessingError>)
    requires
        pdf_extraction(bytes@) is Some,
    ensures
        pdf_handled(bytes@, r),
{
    match extract_pdf_text(bytes) {
        Ok(text) => Ok(pdf_result(text)),
        Err(detail) => Err(FileProcessingError::PdfError(pdf_error_message(detail.as_str()))),
    }
}

} // verus!
