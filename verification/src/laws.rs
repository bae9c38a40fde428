//! Properties of the processor as a whole.

use vstd::prelude::*;
use vstd::utf8::{decode_utf8, valid_utf8};

use crate::csv_report::{csv_report, listed_records, omitted_note, record_lines};
use crate::decode::decoded_text;
use crate::docx_text::{
    docx_error_prefix, docx_handled, docx_outcome, docx_read, document_text, paragraph_text,
    run_text, DocBlock, ParagraphItem, RunItem,
};
use crate::decode::option_string_view;
use crate::error::FileProcessingError;
use crate::job::{advanced, FileEvent, FileJob};
use crate::path::{stated_extension, stated_file_name};
use crate::pdf_text::{pdf_error_prefix, pdf_extraction, pdf_handled, pdf_outcome};
use crate::processor::{
    byte_length, classified, FileKind, lowered_text, lowered_type, size_limit, spec_file_kind, supported_list,
    PreparedFile, MAX_MEMORY_USAGE, MAX_TEXT_FILE_SIZE,
};
use crate::text::{decimal, ends_with, is_blank_text, join, lemma_starts_with_concat, starts_with};

verus! {

/// A file type is listed as supported exactly when the processor has a
/// handler for it, so `is_supported_file` and `process_file` agree on
/// which types are accepted.
pub proof fn law_supported_types_have_handlers(file_type: Seq<char>)
    ensures
        supported_list().contains(file_type) <==> spec_file_kind(file_type) is Some,
{
    if spec_file_kind(file_type) is Some {
        if file_type == "txt"@ {
            assert(supported_list()[0] == file_type);
        } else if file_type == "md"@ {
            assert(supported_list()[1] == file_type);
        } else if file_type == "json"@ {
            assert(supported_list()[2] == file_type);
        } else if file_type == "csv"@ {
            assert(supported_list()[3] == file_type);
        } else if file_type == "pdf"@ {
            assert(supported_list()[4] == file_type);
        } else {
            assert(supported_list()[5] == file_type);
        }
    }
}

/// A file within the plain-text limit is classified successfully exactly
/// when it has an extension whose lowercase form is a supported type.
pub proof fn law_supported_extension_is_classified(
    name: Option<Seq<char>>,
    extension: Option<Seq<char>>,
    size: u64,
    r: Result<PreparedFile, FileProcessingError>,
)
    requires
        size <= MAX_TEXT_FILE_SIZE,
        classified(name, extension, size, r),
    ensures
        r is Ok <==> (extension matches Some(e) && supported_list().contains(lowered_text(e))),
{
    law_supported_types_have_handlers(lowered_type(extension));
    if extension is None {
        lemma_empty_type_unsupported();
        law_supported_types_have_handlers(Seq::<char>::empty());
    }
}

/// The empty file type has no handler.
proof fn lemma_empty_type_unsupported()
    ensures
        spec_file_kind(Seq::<char>::empty()) is None,
{
    reveal_strlit("txt");
    reveal_strlit("md");
    reveal_strlit("json");
    reveal_strlit("csv");
    reveal_strlit("pdf");
    reveal_strlit("docx");
    assert("txt"@.len() == 3);
    assert("md"@.len() == 2);
    assert("json"@.len() == 4);
    assert("csv"@.len() == 3);
    assert("pdf"@.len() == 3);
    assert("docx"@.len() == 4);
}

/// Every type's size limit is at least the plain-text limit: a file of
/// at most 5 MiB never fails the size check.
pub proof fn law_plain_text_limit_is_smallest(file_type: Seq<char>)
    ensures
        size_limit(file_type) >= MAX_TEXT_FILE_SIZE,
{
}

/// The size check comes before the type check: a file too large for the
/// plain-text limit whose type is unsupported is refused as too large.
pub proof fn law_size_checked_before_type(
    name: Option<Seq<char>>,
    extension: Option<Seq<char>>,
    size: u64,
    r: Result<PreparedFile, FileProcessingError>,
)
    requires
        classified(name, extension, size, r),
        spec_file_kind(lowered_type(extension)) is None,
        size > MAX_TEXT_FILE_SIZE,
    ensures
        r == Err::<PreparedFile, FileProcessingError>(
            FileProcessingError::FileTooLarge { size, max: MAX_TEXT_FILE_SIZE },
        ),
{
}

/// A text file that is valid UTF-8 is returned unchanged, labelled UTF-8.
pub proof fn law_utf8_text_is_kept(bytes: Seq<u8>)
    requires
        valid_utf8(bytes),
    ensures
        decoded_text(bytes) == (decode_utf8(bytes), Some("UTF-8"@)),
{
}

/// A PDF or DOCX whose text is blank is reported with a fixed notice and
/// no encoding; a text that is not blank is kept as it is.
pub proof fn law_blank_documents_get_a_notice(text: Seq<char>)
    ensures
        is_blank_text(text) ==> pdf_outcome(text).1 is None && docx_outcome(text).1 is None,
        !is_blank_text(text) ==> pdf_outcome(text).0 == text && docx_outcome(text).0 == text,
{
}

/// A CSV preview starts with the header row and ends with the number of
/// records.
pub proof fn law_csv_report_frame(headers: Seq<Seq<char>>, rows: Seq<Seq<Seq<char>>>)
    ensures
        starts_with(csv_report(headers, rows), "Headers: "@ + join(headers, ", "@) + "\n\n"@),
        ends_with(csv_report(headers, rows), "\n\nTotal records: "@ + decimal(rows.len())),
{
    let head = "Headers: "@ + join(headers, ", "@) + "\n\n"@;
    let tail = "\n\nTotal records: "@ + decimal(rows.len());
    let report = csv_report(headers, rows);
    let middle = crate::csv_report::record_lines(rows, crate::csv_report::listed_records(rows.len()))
        + crate::csv_report::omitted_note(rows.len());
    assert(report =~= head + (middle + tail));
    lemma_starts_with_concat(head, middle + tail);
    assert(report =~= (head + middle) + tail);
    assert(report.subrange(report.len() - tail.len(), report.len() as int) =~= tail);
}

/// A job asks for a file's bytes only after it has learnt the file's size,
/// and only for a file whose type is supported and whose size is within
/// the limit for that type.
pub proof fn law_bytes_read_only_after_checks(job: FileJob, event: FileEvent, r: FileJob)
    requires
        advanced(job, event, r),
        r is AwaitingBytes,
        !(job is AwaitingBytes),
    ensures
        job is AwaitingSize,
        event matches FileEvent::Size(Ok(size)) && (r matches FileJob::AwaitingBytes { prepared }
            && prepared.size == size && size <= size_limit(prepared.file_type@)
            && supported_list().contains(prepared.file_type@)),
{
    if let (FileJob::AwaitingSize { path }, FileEvent::Size(Ok(size))) = (job, event) {
        let p = choose|p: Result<PreparedFile, FileProcessingError>|
            #[trigger] crate::processor::prepared_as(path@, size, p) && match p {
                Ok(prepared) => r == FileJob::AwaitingBytes { prepared },
                Err(e) => r == FileJob::Finished(Err(e)),
            };
        let (n, e) = choose|n: Option<Seq<char>>, e: Option<Seq<char>>| classified(n, e, size, p);
        let t = lowered_type(e);
        law_supported_types_have_handlers(t);
    }
}

/// Where every platform gives a path the same file name and extension, a
/// job classifies the file under them: it goes on to read the file with
/// that name and the extension lowercased as its type, or stops for the
/// reasons of `classified`.
pub proof fn law_job_classifies_by_path(job: FileJob, event: FileEvent, r: FileJob)
    requires
        advanced(job, event, r),
        job matches FileJob::AwaitingSize { path } && stated_file_name(path@) is Some
            && stated_extension(path@) is Some,
        event matches FileEvent::Size(Ok(_)),
    ensures
        job matches FileJob::AwaitingSize { path } && event matches FileEvent::Size(Ok(size))
            && exists|p: Result<PreparedFile, FileProcessingError>|
            classified(stated_file_name(path@)->0, stated_extension(path@)->0, size, p)
                && match p {
                Ok(prepared) => r == FileJob::AwaitingBytes { prepared },
                Err(e) => r == FileJob::Finished(Err(e)),
            },
{
    if let (FileJob::AwaitingSize { path }, FileEvent::Size(Ok(size))) = (job, event) {
        let p = choose|p: Result<PreparedFile, FileProcessingError>|
            #[trigger] crate::processor::prepared_as(path@, size, p) && match p {
                Ok(prepared) => r == FileJob::AwaitingBytes { prepared },
                Err(e) => r == FileJob::Finished(Err(e)),
            };
        assert(classified(stated_file_name(path@)->0, stated_extension(path@)->0, size, p));
    }
}

/// A job that finishes with a processed file has content within the
/// memory limit.
pub proof fn law_finished_content_within_memory_limit(job: FileJob, event: FileEvent, r: FileJob)
    requires
        advanced(job, event, r),
        r matches FileJob::Finished(Ok(_)),
        !(job is Finished),
    ensures
        r matches FileJob::Finished(Ok(f)) && byte_length(f.content@) <= MAX_MEMORY_USAGE,
{
}

/// Which handler each lowercased file type gets: the text handler
/// exactly for txt, md and json, the CSV reader exactly for csv, the PDF
/// extractor exactly for pdf and the DOCX reader exactly for docx; every
/// other type gets none.
pub proof fn law_handler_of_each_type(t: Seq<char>)
    ensures
        spec_file_kind(t) == Some(FileKind::Text) <==> (t == "txt"@ || t == "md"@ || t == "json"@),
        spec_file_kind(t) == Some(FileKind::Csv) <==> t == "csv"@,
        spec_file_kind(t) == Some(FileKind::Pdf) <==> t == "pdf"@,
        spec_file_kind(t) == Some(FileKind::Docx) <==> t == "docx"@,
        spec_file_kind(t) is None <==> !(t == "txt"@ || t == "md"@ || t == "json"@ || t == "csv"@
            || t == "pdf"@ || t == "docx"@),
{
    reveal_strlit("txt");
    reveal_strlit("md");
    reveal_strlit("json");
    reveal_strlit("csv");
    reveal_strlit("pdf");
    reveal_strlit("docx");
    assert("txt"@.len() == 3 && "txt"@[0] == 't');
    assert("md"@.len() == 2 && "md"@[0] == 'm');
    assert("json"@.len() == 4 && "json"@[0] == 'j');
    assert("csv"@.len() == 3 && "csv"@[0] == 'c');
    assert("pdf"@.len() == 3 && "pdf"@[0] == 'p');
    assert("docx"@.len() == 4 && "docx"@[0] == 'd');
}

/// The size limit of each lowercased file type, in bytes: 5 MiB for txt,
/// md and json, 10 MiB for csv, 20 MiB for pdf, 15 MiB for docx, and the
/// 5 MiB plain-text limit for every other type.
pub proof fn law_size_limit_of_each_type(t: Seq<char>)
    ensures
        (t == "txt"@ || t == "md"@ || t == "json"@) ==> size_limit(t) == 5_242_880,
        t == "csv"@ ==> size_limit(t) == 10_485_760,
        t == "pdf"@ ==> size_limit(t) == 20_971_520,
        t == "docx"@ ==> size_limit(t) == 15_728_640,
        spec_file_kind(t) is None ==> size_limit(t) == 5_242_880,
{
    law_handler_of_each_type(t);
}

/// Joining one text gives that text.
pub proof fn law_join_one(a: Seq<char>, sep: Seq<char>)
    ensures
        join(seq![a], sep) == a,
{
}

/// Joining one more text (empty or not) appends the separator and that
/// text to the join of the others, when there is at least one other.
pub proof fn law_join_push(list: Seq<Seq<char>>, x: Seq<char>, sep: Seq<char>)
    requires
        list.len() >= 1,
    ensures
        join(list.push(x), sep) == join(list, sep) + sep + x,
{
    assert(list.push(x).drop_last() =~= list);
}

/// Empty texts are kept in a join: the join of `a`, an empty text and
/// `c` has two separators between `a` and `c`.
pub proof fn law_join_keeps_empty_items(a: Seq<char>, c: Seq<char>, sep: Seq<char>)
    ensures
        join(seq![a, Seq::<char>::empty(), c], sep) == a + sep + sep + c,
{
    law_join_push(seq![a], Seq::<char>::empty(), sep);
    law_join_push(seq![a, Seq::<char>::empty()], c, sep);
    assert(seq![a].push(Seq::<char>::empty()) =~= seq![a, Seq::<char>::empty()]);
    assert(seq![a, Seq::<char>::empty()].push(c) =~= seq![a, Seq::<char>::empty(), c]);
    assert(a + sep + Seq::<char>::empty() =~= a + sep);
}

/// The sum of the lengths of some texts.
pub open spec fn total_length(list: Seq<Seq<char>>) -> nat
    decreases list.len(),
{
    if list.len() == 0 {
        0
    } else {
        total_length(list.drop_last()) + list.last().len()
    }
}

/// Joining `n >= 1` texts gives all their characters and exactly `n - 1`
/// separators.
pub proof fn law_join_length(list: Seq<Seq<char>>, sep: Seq<char>)
    requires
        list.len() >= 1,
    ensures
        join(list, sep).len() == total_length(list) + (list.len() - 1) * sep.len(),
    decreases list.len(),
{
    if list.len() == 1 {
        assert(list.drop_last().len() == 0);
        assert(total_length(list.drop_last()) == 0);
        assert(list.last() == list[0]);
    } else {
        law_join_length(list.drop_last(), sep);
        let n = list.len() as int;
        assert(join(list, sep) == join(list.drop_last(), sep) + sep + list.last());
        assert(join(list, sep).len() == join(list.drop_last(), sep).len() + sep.len()
            + list.last().len());
        assert(total_length(list) == total_length(list.drop_last()) + list.last().len());
        assert(list.drop_last().len() == n - 1);
        assert((n - 1 - 1) * sep.len() + sep.len() == (n - 1) * sep.len()) by (nonlinear_arith);
    }
}

/// The text of a run is the concatenation of the texts of its parts: the
/// text of two sequences of children one after the other is the text of
/// the first followed by that of the second.
pub proof fn law_run_text_concat(s: Seq<RunItem>, t: Seq<RunItem>)
    ensures
        run_text(s + t) == run_text(s) + run_text(t),
    decreases t.len(),
{
    if t.len() == 0 {
        assert(s + t =~= s);
        assert(run_text(s) + Seq::<char>::empty() =~= run_text(s));
    } else {
        law_run_text_concat(s, t.drop_last());
        assert((s + t).drop_last() =~= s + t.drop_last());
        assert((s + t).last() == t.last());
        assert(run_text(s) + run_text(t.drop_last()) + run_text(seq![t.last()]) =~= run_text(s) + (
        run_text(t.drop_last()) + run_text(seq![t.last()])));
        assert(seq![t.last()].drop_last() =~= Seq::<RunItem>::empty());
    }
}

/// A text child contributes its text; any other child contributes
/// nothing.
pub proof fn law_run_text_of_one_child(x: RunItem)
    ensures
        x matches RunItem::Text(a) ==> run_text(seq![x]) == a@,
        x is Other ==> run_text(seq![x]) == Seq::<char>::empty(),
{
    assert(seq![x].len() == 1 && seq![x].last() == x);
    assert(seq![x].drop_last() =~= Seq::<RunItem>::empty());
    assert(run_text(Seq::<RunItem>::empty()) == Seq::<char>::empty());
    assert(Seq::<char>::empty() + Seq::<char>::empty() =~= Seq::<char>::empty());
    if let RunItem::Text(a) = x {
        assert(Seq::<char>::empty() + a@ =~= a@);
    }
}

/// A run of a text, another child and a text reads as the two texts
/// joined: a child that is not text does not hide the texts after it.
pub proof fn law_run_text_skips_other_children(a: String, b: String)
    ensures
        run_text(seq![RunItem::Text(a), RunItem::Other, RunItem::Text(b)]) == a@ + b@,
{
    let x = RunItem::Text(a);
    let y = RunItem::Text(b);
    law_run_text_of_one_child(x);
    law_run_text_of_one_child(RunItem::Other);
    law_run_text_of_one_child(y);
    law_run_text_concat(seq![x], seq![RunItem::Other]);
    law_run_text_concat(seq![x, RunItem::Other], seq![y]);
    assert(seq![x] + seq![RunItem::Other] =~= seq![x, RunItem::Other]);
    assert(seq![x, RunItem::Other] + seq![y] =~= seq![x, RunItem::Other, y]);
    assert(a@ + Seq::<char>::empty() =~= a@);
}

/// The text of a paragraph is the concatenation of the texts of its
/// parts.
pub proof fn law_paragraph_text_concat(s: Seq<ParagraphItem>, t: Seq<ParagraphItem>)
    ensures
        paragraph_text(s + t) == paragraph_text(s) + paragraph_text(t),
    decreases t.len(),
{
    if t.len() == 0 {
        assert(s + t =~= s);
        assert(paragraph_text(s) + Seq::<char>::empty() =~= paragraph_text(s));
    } else {
        law_paragraph_text_concat(s, t.drop_last());
        assert((s + t).drop_last() =~= s + t.drop_last());
        assert((s + t).last() == t.last());
        assert(seq![t.last()].drop_last() =~= Seq::<ParagraphItem>::empty());
        assert(paragraph_text(s) + paragraph_text(t.drop_last()) + paragraph_text(seq![t.last()])
            =~= paragraph_text(s) + (paragraph_text(t.drop_last()) + paragraph_text(
            seq![t.last()],
        )));
    }
}

/// A run in a paragraph contributes the text of the run; any other child
/// of a paragraph contributes nothing.
pub proof fn law_paragraph_text_of_one_child(x: ParagraphItem)
    ensures
        x matches ParagraphItem::Run(children) ==> paragraph_text(seq![x]) == run_text(children@),
        x is Other ==> paragraph_text(seq![x]) == Seq::<char>::empty(),
{
    assert(seq![x].len() == 1 && seq![x].last() == x);
    assert(seq![x].drop_last() =~= Seq::<ParagraphItem>::empty());
    assert(paragraph_text(Seq::<ParagraphItem>::empty()) == Seq::<char>::empty());
    assert(Seq::<char>::empty() + Seq::<char>::empty() =~= Seq::<char>::empty());
    if let ParagraphItem::Run(children) = x {
        assert(Seq::<char>::empty() + run_text(children@) =~= run_text(children@));
    }
}

/// The text of a document is the concatenation of the texts of its
/// parts.
pub proof fn law_document_text_concat(s: Seq<DocBlock>, t: Seq<DocBlock>)
    ensures
        document_text(s + t) == document_text(s) + document_text(t),
    decreases t.len(),
{
    if t.len() == 0 {
        assert(s + t =~= s);
        assert(document_text(s) + Seq::<char>::empty() =~= document_text(s));
    } else {
        law_document_text_concat(s, t.drop_last());
        assert((s + t).drop_last() =~= s + t.drop_last());
        assert((s + t).last() == t.last());
        assert(seq![t.last()].drop_last() =~= Seq::<DocBlock>::empty());
        assert(document_text(s) + document_text(t.drop_last()) + document_text(seq![t.last()])
            =~= document_text(s) + (document_text(t.drop_last()) + document_text(
            seq![t.last()],
        )));
    }
}

/// A top-level paragraph gives its text and a line break; any other
/// top-level block gives nothing.
pub proof fn law_document_text_of_one_block(x: DocBlock)
    ensures
        x matches DocBlock::Paragraph(items) ==> document_text(seq![x]) == paragraph_text(items@)
            + "\n"@,
        x is Other ==> document_text(seq![x]) == Seq::<char>::empty(),
{
    assert(seq![x].len() == 1 && seq![x].last() == x);
    assert(seq![x].drop_last() =~= Seq::<DocBlock>::empty());
    assert(document_text(Seq::<DocBlock>::empty()) == Seq::<char>::empty());
    assert(Seq::<char>::empty() + Seq::<char>::empty() =~= Seq::<char>::empty());
    if let DocBlock::Paragraph(items) = x {
        assert(Seq::<char>::empty() + (paragraph_text(items@) + "\n"@) =~= paragraph_text(items@)
            + "\n"@);
    }
}

/// A PDF whose extracted text `t` is not blank gives exactly `t`, with
/// no encoding; one whose text is blank gives the fixed notice; a failed
/// extraction with error text `t` gives a `PdfError` with the prefix and
/// `t`.
pub proof fn law_pdf_content_is_the_extracted_text(
    bytes: Seq<u8>,
    r: Result<(String, Option<String>), FileProcessingError>,
    t: Seq<char>,
)
    requires
        pdf_handled(bytes, r),
    ensures
        pdf_extraction(bytes) == Some(Ok::<Seq<char>, Seq<char>>(t)) && !is_blank_text(t) ==> (r is Ok
            && r->Ok_0.0@ == t && r->Ok_0.1 is None),
        pdf_extraction(bytes) == Some(Ok::<Seq<char>, Seq<char>>(t)) && is_blank_text(t) ==> (r is Ok
            && r->Ok_0.0@
            == "PDF file processed but no text content was extracted. This may be a scanned document or contain only images."@
            && r->Ok_0.1 is None),
        pdf_extraction(bytes) == Some(Err::<Seq<char>, Seq<char>>(t)) ==> (r matches Err(
            FileProcessingError::PdfError(m),
        ) && m@ == "Failed to extract text from PDF: "@ + t),
{
    if let Ok(o) = r {
        if o.1 is Some {
            assert(option_string_view(o.1) is Some);
        }
    }
}

/// A DOCX whose document text is not blank gives exactly that text,
/// labelled UTF-8; one whose text is blank gives the fixed notice; a
/// reader error with text `d` gives a `DocxError` with the prefix and `d`.
pub proof fn law_docx_content_is_the_document_text(
    bytes: Seq<u8>,
    r: Result<(String, Option<String>), FileProcessingError>,
    b: Seq<DocBlock>,
    d: Seq<char>,
)
    requires
        docx_handled(bytes, r),
    ensures
        docx_read(bytes) == Some(Ok::<Seq<DocBlock>, Seq<char>>(b)) && !is_blank_text(
            document_text(b),
        ) ==> (r is Ok && r->Ok_0.0@ == document_text(b) && r->Ok_0.1 is Some && r->Ok_0.1->0@
            == "UTF-8"@),
        docx_read(bytes) == Some(Ok::<Seq<DocBlock>, Seq<char>>(b)) && is_blank_text(
            document_text(b),
        ) ==> (r is Ok && r->Ok_0.0@ == "DOCX file processed but no text content was found."@
            && r->Ok_0.1 is None),
        docx_read(bytes) == Some(Err::<Seq<DocBlock>, Seq<char>>(d)) ==> (r matches Err(
            FileProcessingError::DocxError(m),
        ) && m@ == "Failed to read DOCX file: "@ + d),
{
    if let Ok(o) = r {
        if o.1 is None {
            assert(option_string_view(o.1) is None);
        }
    }
}

/// The preview of records `0..k+1` is that of records `0..k` followed by
/// the line of record `k`: "Row ", its number counted from 1, ": ", all
/// its fields (empty ones included) separated by commas, a line break.
pub proof fn law_csv_row_line(rows: Seq<Seq<Seq<char>>>, k: nat)
    requires
        k < rows.len(),
    ensures
        record_lines(rows, k + 1) == record_lines(rows, k) + "Row "@ + decimal(k + 1) + ": "@
            + join(rows[k as int], ","@) + "\n"@,
{
}

/// The preview lists every record of a table of at most 100 records and
/// the first 100 of a longer one; only a longer one gets the note on the
/// records left out, which gives their number.
pub proof fn law_csv_preview_count(n: nat)
    ensures
        n <= 100 ==> listed_records(n) == n && omitted_note(n) == Seq::<char>::empty(),
        n > 100 ==> listed_records(n) == 100 && omitted_note(n) == "\n... and "@ + decimal(
            (n - 100) as nat,
        ) + " more records"@,
{
}

/// The number that a string of decimal digits denotes.
pub open spec fn numeral_value(s: Seq<char>) -> int
    decreases s.len(),
{
    if s.len() == 0 {
        0
    } else {
        numeral_value(s.drop_last()) * 10 + (s.last() as int - '0' as int)
    }
}

/// The decimal numeral of `n` is made of digits, has no leading zero
/// (unless it is "0") and denotes `n`.
pub proof fn law_decimal_denotes_its_number(n: nat)
    ensures
        decimal(n).len() >= 1,
        forall|i: int| 0 <= i < decimal(n).len() ==> '0' <= #[trigger] decimal(n)[i] <= '9',
        decimal(n)[0] == '0' ==> n == 0,
        numeral_value(decimal(n)) == n,
    decreases n,
{
    if n < 10 {
        let s = decimal(n);
        assert(s.drop_last() =~= Seq::<char>::empty());
        assert(numeral_value(s.drop_last()) == 0);
    } else {
        law_decimal_denotes_its_number(n / 10);
        let s = decimal(n);
        assert(s.drop_last() =~= decimal(n / 10));
        assert(n / 10 >= 1);
        assert((n / 10) * 10 + n % 10 == n);
    }
}

} // verus!
