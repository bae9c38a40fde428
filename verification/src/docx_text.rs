//! The text of a DOCX document: the text runs of its top-level paragraphs,
//! one line per paragraph.

use vstd::prelude::*;
use vstd::string::StringExecFns;

use crate::decode::option_string_view;
use crate::error::FileProcessingError;
use crate::text::{is_blank, is_blank_text};

verus! {

/// A child of a run: its text, or something else (a tab, a break, a
/// drawing, ...).
#[derive(Debug)]
pub enum RunItem {
    Text(String),
    Other,
}

/// A child of a paragraph: a run with its children, or something else
/// (a hyperlink, an insertion, a bookmark, ...).
#[derive(Debug)]
pub enum ParagraphItem {
    Run(Vec<RunItem>),
    Other,
}

/// A top-level child of the document body: a paragraph with its children,
/// or something else (a table, a section, ...).
#[derive(Debug)]
pub enum DocBlock {
    Paragraph(Vec<ParagraphItem>),
    Other,
}

/// What `docx_rs::read_docx` does with `bytes`: nothing, when it panics;
/// else the document body it reads, or the text that its error displays.
pub uninterp spec fn docx_read(bytes: Seq<u8>) -> Option<Result<Seq<DocBlock>, Seq<char>>>;

pub open spec fn run_text(items: Seq<RunItem>) -> Seq<char>
    decreases items.len(),
{
    if items.len() == 0 {
        Seq::empty()
    } else {
        run_text(items.drop_last()) + match items.last() {
            RunItem::Text(t) => t@,
            RunItem::Other => Seq::empty(),
        }
    }
}

pub open spec fn paragraph_text(items: Seq<ParagraphItem>) -> Seq<char>
    decreases items.len(),
{
    if items.len() == 0 {
        Seq::empty()
    } else {
        paragraph_text(items.drop_last()) + match items.last() {
            ParagraphItem::Run(children) => run_text(children@),
            ParagraphItem::Other => Seq::empty(),
        }
    }
}

/// Each paragraph's text followed by a line break; other blocks give
/// nothing.
pub open spec fn document_text(blocks: Seq<DocBlock>) -> Seq<char>
    decreases blocks.len(),
{
    if blocks.len() == 0 {
        Seq::empty()
    } else {
        document_text(blocks.drop_last()) + match blocks.last() {
            DocBlock::Paragraph(items) => paragraph_text(items@) + "\n"@,
            DocBlock::Other => Seq::empty(),
        }
    }
}

/// The content and encoding name reported for a document whose text is
/// `text`.
pub open spec fn docx_outcome(text: Seq<char>) -> (Seq<char>, Option<Seq<char>>) {
    if is_blank_text(text) {
        ("DOCX file processed but no text content was found."@, None)
    } else {
        (text, Some("UTF-8"@))
    }
}

pub open spec fn docx_error_prefix() -> Seq<char> {
    "Failed to read DOCX file: "@
}

/// The texts that a `docx_rs::ReaderError` displays, one per variant.
pub open spec fn reader_error_texts() -> Seq<Seq<char>> {
    seq![
        "Failed to read from zip."@,
        "Failed to parse int."@,
        "Failed to parse float."@,
        "Failed to convert type."@,
        "Failed to read xml."@,
        "Failed to find document."@,
        "Failed to find document rels."@,
        "Failed to find styles."@,
        "Failed to find numberings."@,
        "Failed to find header or footer rels."@,
        "Unknown error"@,
    ]
}



/// `docx_rs::read_docx`, with the document body read back child by child
/// (`DocumentChild::Paragraph`, `ParagraphChild::Run`, `RunChild::Text`
/// kept, every other variant marked as other) and its error read back
/// through `Display`.  The contract names the outcome and claims that an
/// error text is one of the fixed texts of `ReaderError`'s variants.  The
/// reader panics on some malformed archives (it unwraps the read of an
/// archive entry, and indexes the attributes of a `pStyle` element in the
/// numbering part without a bounds check); the `requires` leaves those
/// out.
#[verifier::external_body]
fn read_docx_body(bytes: &[u8]) -> (r: Result<Vec<DocBlock>, String>)
    requires
        docx_read(bytes@) is Some,
    ensures
        r matches Ok(b) ==> docx_read(bytes@) == Some(Ok::<Seq<DocBlock>, Seq<char>>(b@)),
        r matches Err(t) ==> docx_read(bytes@) == Some(Err::<Seq<DocBlock>, Seq<char>>(t@))
            && reader_error_texts().contains(t@),
{
    let docx = docx_rs::read_docx(bytes).map_err(|e| e.to_string())?;
    Ok(docx.document.children.into_iter().map(|child| match child {
        docx_rs::DocumentChild::Paragraph(p) => DocBlock::Paragraph(p.children.into_iter().map(|c| match c {
            docx_rs::ParagraphChild::Run(run) => ParagraphItem::Run(run.children.into_iter().map(|k| match k {
                docx_rs::RunChild::Text(t) => RunItem::Text(t.text),
                _ => RunItem::Other,
            }).collect()),
            _ => ParagraphItem::Other,
        }).collect()),
        _ => DocBlock::Other,
    }).collect())
}

/// The message for a DOCX that cannot be read, whose error reads `detail`.
pub fn docx_error_message(detail: &str) -> (r: String)
    ensures
        r@ == docx_error_prefix() + detail@,
{
    let mut message = "Failed to read DOCX file: ".to_owned();
    message.append(detail);
    message
}

/// Appends the text of the runs of one paragraph.
fn append_paragraph(out: &mut String, items: &Vec<ParagraphItem>)
    ensures
        final(out)@ == old(out)@ + paragraph_text(items@),
{
    let n = items.len();
    for i in 0..n
        invariant
            n == items.len(),
            out@ == old(out)@ + paragraph_text(items@.take(i as int)),
    {
        assert(items@.take(i + 1).drop_last() == items@.take(i as int));
        match &items[i] {
            ParagraphItem::Run(children) => {
                let ghost before = out@;
                let m = children.len();
                for j in 0..m
                    invariant
                        m == children.len(),
                        out@ == before + run_text(children@.take(j as int)),
                {
                    assert(children@.take(j + 1).drop_last() == children@.take(j as int));
                    match &children[j] {
                        RunItem::Text(t) => {
                            out.append(t.as_str());
                        },
                        RunItem::Other => {},
                    }
                }
                assert(children@.take(m as int) == children@);
            },
            ParagraphItem::Other => {},
        }
    }
    assert(items@.take(n as int) == items@);
}

/// The text of a document body.
pub fn document_text_of(blocks: &Vec<DocBlock>) -> (r: String)
    ensures
        r@ == document_text(blocks@),
{
    let mut out = String::new();
    let n = blocks.len();
    for i in 0..n
        invariant
            n == blocks.len(),
            out@ == document_text(blocks@.take(i as int)),
    {
        assert(blocks@.take(i + 1).drop_last() == blocks@.take(i as int));
        match &blocks[i] {
            DocBlock::Paragraph(items) => {
                append_paragraph(&mut out, items);
                out.append("\n");
            },
            DocBlock::Other => {},
        }
    }
    assert(blocks@.take(n as int) == blocks@);
    out
}

/// The content and encoding name for a document whose text is `text`.
pub fn docx_result(text: String) -> (r: (String, Option<String>))
    ensures
        (r.0@, option_string_view(r.1)) == docx_outcome(text@),
{
    if is_blank(text.as_str()) {
        ("DOCX file processed but no text content was found.".to_owned(), None)
    } else {
        (text, Some("UTF-8".to_owned()))
    }
}

/// What the DOCX handler gives for `bytes` whose reading returns.
pub open spec fn docx_handled(
    bytes: Seq<u8>,
    r: Result<(String, Option<String>), FileProcessingError>,
) -> bool {
    match docx_read(bytes) {
        Some(Ok(b)) => r matches Ok(o) && (o.0@, option_string_view(o.1)) == docx_outcome(
            document_text(b),
        ),
        Some(Err(d)) => r matches Err(FileProcessingError::DocxError(m)) && m@
            == docx_error_prefix() + d,
        None => true,
    }
}

/// The content of a DOCX file given its bytes, with its encoding name, or
/// a `DocxError` with the reader error's text.
pub fn process_docx(bytes: &[u8]) -> (r: Result<(String, Option<String>), FileProcessingError>)
    requires
        docx_read(bytes@) is Some,
    ensures
        docx_handled(bytes@, r),
{
    match read_docx_body(bytes) {
        Ok(blocks) => {
            let text = document_text_of(&blocks);
            Ok(docx_result(text))
        },
        Err(detail) => Err(FileProcessingError::DocxError(docx_error_message(detail.as_str()))),
    }
}

} // verus!
