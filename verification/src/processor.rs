//! The file processor: which paths and files it accepts, how it
//! classifies a file, and how it turns the bytes of a file into a
//! processed file.

use vstd::prelude::*;
use vstd::utf8::encode_utf8;

use crate::csv_report::{csv_error_from_io, csv_report, csv_table, process_csv};
use crate::decode::{decode_text, decoded_text, option_string_view, MAX_DECODE_LEN};
use crate::docx_text::{docx_handled, docx_read, process_docx};
use crate::error::FileProcessingError;
use crate::path::{
    after_drive, components_have_relative_step, has_dot_piece, has_parent_piece,
    has_slash_parent_piece, leading_double_separator, may_start_with_current_piece,
    path_components, path_extension, path_file_name, starts_with_current_piece,
    stated_extension, stated_file_name, str_option_view, PathComponent,
};
use crate::pdf_text::{
    pdf_error_message, pdf_error_prefix, pdf_extraction, pdf_handled, pdf_io_error_text, process_pdf,
};
use crate::text::{
    ascii_lower, is_ascii_text, lemma_starts_with_concat_prefix, lowercase_of, starts_with, str_eq,
    to_lowercase,
};

verus! {

/// Largest plain-text file (`txt`, `md`, `json`, and any other type) in bytes.
pub const MAX_TEXT_FILE_SIZE: u64 = 5 * 1024 * 1024;

/// Largest CSV file in bytes.
pub const MAX_CSV_FILE_SIZE: u64 = 10 * 1024 * 1024;

/// Largest PDF file in bytes.
pub const MAX_PDF_FILE_SIZE: u64 = 20 * 1024 * 1024;

/// Largest DOCX file in bytes.
pub const MAX_DOCX_FILE_SIZE: u64 = 15 * 1024 * 1024;

/// Largest extracted content in bytes.
pub const MAX_MEMORY_USAGE: usize = 50 * 1024 * 1024;

/// The handler that a file type gets.
#[derive(Clone, Copy, Debug, PartialEq, Eq)]
pub enum FileKind {
    Text,
    Csv,
    Pdf,
    Docx,
}

/// What is known of a processed file besides its content.
#[derive(Debug)]
pub struct FileMetadata {
    pub name: String,
    pub size: usize,
    pub file_type: String,
    pub encoding: Option<String>,
}

/// A processed file: its extracted content, its metadata and how long the
/// processing took in milliseconds.
#[derive(Debug)]
pub struct ProcessedFile {
    pub content: String,
    pub metadata: FileMetadata,
    pub processing_time: u64,
}

/// A file that passed the checks made before it is read: its name, its
/// lowercased type, its size and its handler.
#[derive(Debug)]
pub struct PreparedFile {
    pub name: String,
    pub file_type: String,
    pub size: u64,
    pub kind: FileKind,
}

/// The processor.  It holds no state.
#[derive(Debug)]
pub struct FileProcessor;

/// The handler for a lowercased file type, if it has one.
pub open spec fn spec_file_kind(file_type: Seq<char>) -> Option<FileKind> {
    if file_type == "txt"@ || file_type == "md"@ || file_type == "json"@ {
        Some(FileKind::Text)
    } else if file_type == "csv"@ {
        Some(FileKind::Csv)
    } else if file_type == "pdf"@ {
        Some(FileKind::Pdf)
    } else if file_type == "docx"@ {
        Some(FileKind::Docx)
    } else {
        None
    }
}

/// The size limit for a file type; types without a handler get the limit
/// of plain text.
pub open spec fn size_limit(file_type: Seq<char>) -> u64 {
    match spec_file_kind(file_type) {
        Some(FileKind::Csv) => MAX_CSV_FILE_SIZE,
        Some(FileKind::Pdf) => MAX_PDF_FILE_SIZE,
        Some(FileKind::Docx) => MAX_DOCX_FILE_SIZE,
        _ => MAX_TEXT_FILE_SIZE,
    }
}

/// The supported file types, in the order in which they are listed.
pub open spec fn supported_list() -> Seq<Seq<char>> {
    seq!["txt"@, "md"@, "json"@, "csv"@, "pdf"@, "docx"@]
}

/// A text lowercased: ASCII capitals made small when the text is ASCII,
/// else the Unicode lowercase mapping.
pub open spec fn lowered_text(e: Seq<char>) -> Seq<char> {
    if is_ascii_text(e) {
        ascii_lower(e)
    } else {
        lowercase_of(e)
    }
}

/// The file type that a file is classified under: its extension
/// lowercased, or the empty text when it has none.
pub open spec fn lowered_type(extension: Option<Seq<char>>) -> Seq<char> {
    match extension {
        Some(e) => lowered_text(e),
        None => Seq::empty(),
    }
}

/// The name that a file is recorded under.
pub open spec fn recorded_name(name: Option<Seq<char>>) -> Seq<char> {
    match name {
        Some(n) => n,
        None => "unknown"@,
    }
}

/// The outcome of classifying a file with the given name, extension and
/// size: too large for its type (checked first, so an unsupported type
/// gets the plain-text limit), else unsupported, else prepared.
pub open spec fn classified(
    name: Option<Seq<char>>,
    extension: Option<Seq<char>>,
    size: u64,
    r: Result<PreparedFile, FileProcessingError>,
) -> bool {
    let t = lowered_type(extension);
    &&& size > size_limit(t) ==> r == Err::<PreparedFile, FileProcessingError>(
        FileProcessingError::FileTooLarge { size, max: size_limit(t) },
    )
    &&& size <= size_limit(t) && spec_file_kind(t) is None ==> (r matches Err(
        FileProcessingError::UnsupportedFileType(s),
    ) && s@ == t)
    &&& size <= size_limit(t) && spec_file_kind(t) is Some ==> (r matches Ok(p) && p.name@
        == recorded_name(name) && p.file_type@ == t && p.size == size && p.kind == spec_file_kind(
        t,
    )->0)
}

/// The byte length that `str::len` reports for a text.
pub open spec fn byte_length(s: Seq<char>) -> usize {
    encode_utf8(s).len() as usize
}

/// The error reported for a file of `kind` that could not be read.
pub open spec fn read_failed(kind: FileKind, error: std::io::Error, r: FileProcessingError) -> bool {
    match kind {
        FileKind::Text | FileKind::Docx => r == FileProcessingError::IoError(error),
        FileKind::Csv => r is CsvError,
        FileKind::Pdf => r matches FileProcessingError::PdfError(m) && starts_with(
            m@,
            pdf_error_prefix() + "PDF error: IO error: "@,
        ),
    }
}

/// What preparing the file at `path` of `size` bytes gives: a
/// classification under some name and extension (those that `std::path`
/// finds), and under the name and extension that every platform gives
/// the path, where they agree.
pub open spec fn prepared_as(
    path: Seq<char>,
    size: u64,
    r: Result<PreparedFile, FileProcessingError>,
) -> bool {
    &&& exists|n: Option<Seq<char>>, e: Option<Seq<char>>| classified(n, e, size, r)
    &&& stated_extension(path) matches Some(e) ==> exists|n: Option<Seq<char>>|
        classified(n, e, size, r)
    &&& stated_file_name(path) is Some && stated_extension(path) is Some ==> classified(
        stated_file_name(path)->0,
        stated_extension(path)->0,
        size,
        r,
    )
}

/// The processed file built from a prepared file and its content, or the
/// refusal of content over the memory limit.
pub open spec fn finished(
    prepared: PreparedFile,
    content: String,
    encoding: Option<String>,
    processing_time: u64,
    r: Result<ProcessedFile, FileProcessingError>,
) -> bool {
    if byte_length(content@) > MAX_MEMORY_USAGE {
        r matches Err(FileProcessingError::MemoryLimitExceeded)
    } else {
        r matches Ok(f) && {
            &&& f.content == content
            &&& f.metadata.name == prepared.name
            &&& f.metadata.size == prepared.size as usize
            &&& f.metadata.file_type == prepared.file_type
            &&& f.metadata.encoding == encoding
            &&& f.processing_time == processing_time
        }
    }
}

/// What the handler for `kind` gives for `bytes`.
pub open spec fn extracted(
    kind: FileKind,
    bytes: Seq<u8>,
    r: Result<(String, Option<String>), FileProcessingError>,
) -> bool {
    match kind {
        FileKind::Text => r matches Ok(o) && (o.0@, option_string_view(o.1)) == decoded_text(bytes),
        FileKind::Csv => match csv_table(bytes) {
            Some(t) => r matches Ok(o) && o.0@ == csv_report(t.0, t.1) && option_string_view(o.1)
                == Some("UTF-8"@),
            None => r matches Err(FileProcessingError::CsvError(_)),
        },
        FileKind::Pdf => pdf_handled(bytes, r),
        FileKind::Docx => docx_handled(bytes, r),
    }
}

/// What every platform says of whether `path` steps through `.` or `..`:
/// it does when it is `.` or starts with `./`, and when it has a `..`
/// piece between `/` separators without beginning with two separators; it
/// does not when it has no `.` or `..` piece and no drive colon, nor when
/// it has no `..` piece and no leading `.` piece (also after a leading
/// drive `X:`) and does not begin with two separators.
pub open spec fn traversal_facts(path: Seq<char>, traversal: bool) -> bool {
    &&& starts_with_current_piece(path) ==> traversal
    &&& has_slash_parent_piece(path) && !leading_double_separator(path) ==> traversal
    &&& !has_dot_piece(path) && !path.contains(':') ==> !traversal
    &&& !has_parent_piece(path) && !has_parent_piece(after_drive(path))
        && !may_start_with_current_piece(path) && !may_start_with_current_piece(after_drive(path))
        && !leading_double_separator(path) ==> !traversal
}

impl FileProcessor {
    /// A processor.
    pub fn new() -> (r: Self)
        ensures
            r == FileProcessor,
    {
        FileProcessor
    }

    /// The handler for a lowercased file type.
    pub fn file_kind(file_type: &str) -> (r: Option<FileKind>)
        ensures
            r == spec_file_kind(file_type@),
    {
        if str_eq(file_type, "txt") || str_eq(file_type, "md") || str_eq(file_type, "json") {
            Some(FileKind::Text)
        } else if str_eq(file_type, "csv") {
            Some(FileKind::Csv)
        } else if str_eq(file_type, "pdf") {
            Some(FileKind::Pdf)
        } else if str_eq(file_type, "docx") {
            Some(FileKind::Docx)
        } else {
            None
        }
    }

    /// Checks a file's size against the limit for its type.
    pub fn validate_file_size(size: u64, file_type: &str) -> (r: Result<(), FileProcessingError>)
        ensures
            r is Ok <==> size <= size_limit(file_type@),
            r is Err ==> r == Err::<(), FileProcessingError>(
                FileProcessingError::FileTooLarge { size, max: size_limit(file_type@) },
            ),
    {
        let max_size = match Self::file_kind(file_type) {
            Some(FileKind::Csv) => MAX_CSV_FILE_SIZE,
            Some(FileKind::Pdf) => MAX_PDF_FILE_SIZE,
            Some(FileKind::Docx) => MAX_DOCX_FILE_SIZE,
            _ => MAX_TEXT_FILE_SIZE,
        };
        if size > max_size {
            return Err(FileProcessingError::FileTooLarge { size, max: max_size });
        }
        Ok(())
    }

    /// The supported file types.
    pub fn get_supported_extensions() -> (r: Vec<&'static str>)
        ensures
            r@.map_values(|s: &str| s@) == supported_list(),
    {
        let r = vec!["txt", "md", "json", "csv", "pdf", "docx"];
        assert(r@.map_values(|s: &str| s@) =~= supported_list());
        r
    }

    /// Whether an extension, lowercased, is among the supported types.
    pub fn is_supported_extension(extension: &str) -> (r: bool)
        ensures
            r == supported_list().contains(lowercase_of(extension@)),
            is_ascii_text(extension@) ==> r == supported_list().contains(ascii_lower(extension@)),
            r == supported_list().contains(lowered_text(extension@)),
    {
        let lowered = to_lowercase(extension);
        let list = Self::get_supported_extensions();
        let ghost views = list@.map_values(|s: &str| s@);
        let n = list.len();
        for i in 0..n
            invariant
                n == list.len(),
                views == list@.map_values(|s: &str| s@),
                views == supported_list(),
                lowered@ == lowercase_of(extension@),
                is_ascii_text(extension@) ==> lowered@ == ascii_lower(extension@),
                forall|j: int| 0 <= j < i ==> views[j] != lowered@,
        {
            if str_eq(list[i], lowered.as_str()) {
                assert(views[i as int] == lowered@);
                return true;
            }
        }
        false
    }

    /// Whether a file's extension marks a supported type.  What a path's
    /// extension is depends on the platform; where every platform gives
    /// the same one (`stated_extension`), the answer is whether that
    /// extension, lowercased, is supported.
    pub fn is_supported_file(file_path: &str) -> (r: bool)
        ensures
            stated_extension(file_path@) matches Some(e) ==> r == (e matches Some(x)
                && supported_list().contains(lowered_text(x))),
    {
        match path_extension(file_path) {
            Some(extension) => Self::is_supported_extension(extension),
            None => false,
        }
    }

    /// Whether a path steps through `.` or `..`.  Which components a path
    /// has depends on the platform; `traversal_facts` states the answer
    /// where every platform gives the same one.
    pub fn has_path_traversal(path: &str) -> (r: bool)
        ensures
            traversal_facts(path@, r),
    {
        let parts = path_components(path);
        proof {
            if starts_with_current_piece(path@) {
                assert(crate::path::is_relative_step(parts@[0]));
            }
            if has_slash_parent_piece(path@) && !leading_double_separator(path@) {
                let i = choose|i: int| 0 <= i < parts@.len() && parts@[i] == PathComponent::ParentDir;
                assert(crate::path::is_relative_step(parts@[i]));
            }
        }
        components_have_relative_step(&parts)
    }

    /// Classifies a file by its name, extension and size.
    pub fn classify(name: Option<&str>, extension: Option<&str>, file_size: u64) -> (r: Result<
        PreparedFile,
        FileProcessingError,
    >)
        ensures
            classified(str_option_view(name), str_option_view(extension), file_size, r),
    {
        let file_type: String = match extension {
            Some(e) => to_lowercase(e),
            None => String::new(),
        };
        let name: String = match name {
            Some(n) => n.to_owned(),
            None => "unknown".to_owned(),
        };
        match Self::validate_file_size(file_size, file_type.as_str()) {
            Err(e) => return Err(e),
            Ok(()) => {},
        }
        match Self::file_kind(file_type.as_str()) {
            Some(kind) => Ok(PreparedFile { name, file_type, size: file_size, kind }),
            None => Err(FileProcessingError::UnsupportedFileType(file_type)),
        }
    }

    /// Classifies the file at `path`, whose size is `file_size`.  The name
    /// and extension are those that `std::path` finds; for a path whose
    /// final `/` piece is a plain name (and that holds no `\`, no drive
    /// colon and no two leading separators) they are that piece and what
    /// follows its last `.`.
    pub fn prepare(path: &str, file_size: u64) -> (r: Result<PreparedFile, FileProcessingError>)
        ensures
            prepared_as(path@, file_size, r),
    {
        let name = path_file_name(path);
        let extension = path_extension(path);
        Self::classify(name, extension, file_size)
    }

    /// Runs the handler for `kind` on the bytes of a file.
    pub fn extract(kind: FileKind, bytes: &[u8]) -> (r: Result<
        (String, Option<String>),
        FileProcessingError,
    >)
        requires
            kind == FileKind::Text ==> bytes@.len() <= MAX_DECODE_LEN,
            kind == FileKind::Pdf ==> pdf_extraction(bytes@) is Some,
            kind == FileKind::Docx ==> docx_read(bytes@) is Some,
        ensures
            extracted(kind, bytes@, r),
    {
        match kind {
            FileKind::Text => Ok(decode_text(bytes)),
            FileKind::Csv => process_csv(bytes),
            FileKind::Pdf => process_pdf(bytes),
            FileKind::Docx => process_docx(bytes),
        }
    }

    /// The error for a file of `kind` that could not be read, as each
    /// handler reports it: the I/O error itself for text and DOCX, wrapped
    /// by the CSV reader for CSV, and as a PDF error for PDF.
    pub fn read_failure(kind: FileKind, error: std::io::Error) -> (r: FileProcessingError)
        ensures
            read_failed(kind, error, r),
    {
        match kind {
            FileKind::Text | FileKind::Docx => FileProcessingError::IoError(error),
            FileKind::Csv => FileProcessingError::CsvError(csv_error_from_io(error)),
            FileKind::Pdf => {
                let detail = pdf_io_error_text(error);
                let message = pdf_error_message(detail.as_str());
                proof {
                    lemma_starts_with_concat_prefix(pdf_error_prefix(), "PDF error: IO error: "@, detail@);
                }
                FileProcessingError::PdfError(message)
            },
        }
    }

    /// Builds the processed file, refusing content over the memory limit.
    pub fn finish(
        prepared: PreparedFile,
        content: String,
        encoding: Option<String>,
        processing_time: u64,
    ) -> (r: Result<ProcessedFile, FileProcessingError>)
        ensures
            finished(prepared, content, encoding, processing_time, r),
    {
        if content.as_str().len() > MAX_MEMORY_USAGE {
            return Err(FileProcessingError::MemoryLimitExceeded);
        }
        Ok(
            ProcessedFile {
                content,
                metadata: FileMetadata {
                    name: prepared.name,
                    size: prepared.size as usize,
                    file_type: prepared.file_type,
                    encoding,
                },
                processing_time,
            },
        )
    }
}

} // verus!
