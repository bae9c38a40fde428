//! Validation, classification and text extraction for uploaded documents.
//!
//! The library decides whether a path is acceptable, which handler a file
//! gets, whether its size is within the limit for its type, and how the
//! bytes of a text, CSV, PDF or DOCX file become a preview text.  Reading
//! the file from disk and timing the work are left to the caller.

pub mod csv_report;
pub mod decode;
pub mod docx_text;
pub mod error;
pub mod job;
pub mod laws;
pub mod path;
pub mod pdf_text;
pub mod processor;
pub mod text;

pub use error::FileProcessingError;
pub use job::{FileEvent, FileJob};
pub use processor::{FileKind, FileMetadata, FileProcessor, PreparedFile, ProcessedFile};
