use vstd::prelude::*;

verus! {

#[verifier::external_type_specification]
#[verifier::external_body]
pub struct ExIoError(std::io::Error);

#[verifier::external_type_specification]
#[verifier::external_body]
pub struct ExFromUtf8Error(std::string::FromUtf8Error);

#[verifier::external_type_specification]
#[verifier::external_body]
pub struct ExCsvError(csv::Error);

/// Every way in which processing a file can fail.
#[derive(Debug)]
pub enum FileProcessingError {
    FileNotFound(String),
    UnsupportedFileType(String),
    FileTooLarge { size: u64, max: u64 },
    IoError(std::io::Error),
    Utf8Error(std::string::FromUtf8Error),
    PdfError(String),
    DocxError(String),
    CsvError(csv::Error),
    PathTraversal,
    MemoryLimitExceeded,
}

} // verus!
