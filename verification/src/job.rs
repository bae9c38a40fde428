//! Processing one file from start to end.  The steps that touch the file
//! system or the clock are the caller's: the job says what it needs next,
//! the caller does it and hands back what it found, and the job decides.
//! The order is the processor's: the path is checked before anything is
//! touched, the file must exist before its size is asked, and its bytes
//! are read only once its size and type have passed.

use vstd::prelude::*;

use crate::decode::MAX_DECODE_LEN;
use crate::docx_text::docx_read;
use crate::error::FileProcessingError;
use crate::pdf_text::pdf_extraction;
use crate::processor::{
    byte_length, extracted, finished, prepared_as, read_failed, traversal_facts, FileKind, FileProcessor, PreparedFile,
    ProcessedFile, MAX_MEMORY_USAGE,
};

verus! {

/// Where a job stands, and so what it needs next.
#[derive(Debug)]
pub enum FileJob {
    /// Needs to know whether the file exists.
    AwaitingExistence { path: String },
    /// Needs the size of the file in bytes.
    AwaitingSize { path: String },
    /// Needs the bytes of the file.
    AwaitingBytes { prepared: PreparedFile },
    /// Needs the milliseconds spent since the job started.
    AwaitingTime { prepared: PreparedFile, content: String, encoding: Option<String> },
    /// Done.
    Finished(Result<ProcessedFile, FileProcessingError>),
}

/// What the caller found out.
#[derive(Debug)]
pub enum FileEvent {
    Exists(bool),
    Size(Result<u64, std::io::Error>),
    Bytes(Result<Vec<u8>, std::io::Error>),
    ElapsedMillis(u64),
}

/// The job for `path`: refused at once when the path steps through `.`
/// or `..`, else waiting to learn whether the file exists.
pub open spec fn started(path: Seq<char>, traversal: bool, r: FileJob) -> bool {
    if traversal {
        r == FileJob::Finished(Err(FileProcessingError::PathTraversal))
    } else {
        r matches FileJob::AwaitingExistence { path: p } && p@ == path
    }
}

/// The job after `event`: each stage takes the event it waits for, and
/// any other event leaves the job as it was.
pub open spec fn advanced(job: FileJob, event: FileEvent, r: FileJob) -> bool {
    match (job, event) {
        (FileJob::AwaitingExistence { path }, FileEvent::Exists(exists)) => if exists {
            r == FileJob::AwaitingSize { path }
        } else {
            r == FileJob::Finished(Err(FileProcessingError::FileNotFound(path)))
        },
        (FileJob::AwaitingSize { path }, FileEvent::Size(size)) => match size {
            Err(e) => r == FileJob::Finished(Err(FileProcessingError::IoError(e))),
            Ok(size) => exists|p: Result<PreparedFile, FileProcessingError>|
                #[trigger] prepared_as(path@, size, p) && match p {
                    Ok(prepared) => r == FileJob::AwaitingBytes { prepared },
                    Err(e) => r == FileJob::Finished(Err(e)),
                },
        },
        (FileJob::AwaitingBytes { prepared }, FileEvent::Bytes(bytes)) => match bytes {
            Err(e) => r matches FileJob::Finished(Err(f)) && read_failed(prepared.kind, e, f),
            Ok(bytes) => exists|x: Result<(String, Option<String>), FileProcessingError>|
                #[trigger] extracted(prepared.kind, bytes@, x) && match x {
                    Err(e) => r == FileJob::Finished(Err(e)),
                    Ok((content, encoding)) => if byte_length(content@) > MAX_MEMORY_USAGE {
                        r == FileJob::Finished(Err(FileProcessingError::MemoryLimitExceeded))
                    } else {
                        r == FileJob::AwaitingTime { prepared, content, encoding }
                    },
                },
        },
        (
            FileJob::AwaitingTime { prepared, content, encoding },
            FileEvent::ElapsedMillis(millis),
        ) => r matches FileJob::Finished(f) && finished(prepared, content, encoding, millis, f),
        (job, _) => r == job,
    }
}

/// The bytes handed to a job must be ones its handler returns on: short
/// enough for the text decoder, and not among the documents on which the
/// PDF extractor or the DOCX reader panics.
pub open spec fn accepts(job: FileJob, event: FileEvent) -> bool {
    job matches FileJob::AwaitingBytes { prepared } ==> (event matches FileEvent::Bytes(Ok(b))
        ==> bytes_accepted(prepared.kind, b@))
}

/// Bytes on which the handler for `kind` returns.
pub open spec fn bytes_accepted(kind: FileKind, bytes: Seq<u8>) -> bool {
    &&& kind == FileKind::Text ==> bytes.len() <= MAX_DECODE_LEN
    &&& kind == FileKind::Pdf ==> pdf_extraction(bytes) is Some
    &&& kind == FileKind::Docx ==> docx_read(bytes) is Some
}

impl FileJob {
    /// Starts processing the file at `path`: refused at once exactly when
    /// `has_path_traversal` finds that the path steps through `.` or `..`.
    pub fn start(path: &str) -> (r: FileJob)
        ensures
            exists|traversal: bool| traversal_facts(path@, traversal) && started(path@, traversal, r),
    {
        let traversal = FileProcessor::has_path_traversal(path);
        let r = if traversal {
            FileJob::Finished(Err(FileProcessingError::PathTraversal))
        } else {
            FileJob::AwaitingExistence { path: path.to_owned() }
        };
        assert(started(path@, traversal, r));
        r
    }

    /// Takes what the caller found out and decides the next stage.
    pub fn advance(self, event: FileEvent) -> (r: FileJob)
        requires
            accepts(self, event),
        ensures
            advanced(self, event, r),
    {
        match (self, event) {
            (FileJob::AwaitingExistence { path }, FileEvent::Exists(exists)) => {
                if exists {
                    FileJob::AwaitingSize { path }
                } else {
                    FileJob::Finished(Err(FileProcessingError::FileNotFound(path)))
                }
            },
            (FileJob::AwaitingSize { path }, FileEvent::Size(size)) => match size {
                Err(e) => FileJob::Finished(Err(FileProcessingError::IoError(e))),
                Ok(size) => {
                    let p = FileProcessor::prepare(path.as_str(), size);
                    let ghost pg = p;
                    let r = match p {
                        Ok(prepared) => FileJob::AwaitingBytes { prepared },
                        Err(e) => FileJob::Finished(Err(e)),
                    };
                    assert(prepared_as(path@, size, pg));
                    r
                },
            },
            (FileJob::AwaitingBytes { prepared }, FileEvent::Bytes(bytes)) => match bytes {
                Err(e) => FileJob::Finished(Err(FileProcessor::read_failure(prepared.kind, e))),
                Ok(bytes) => {
                    let x = FileProcessor::extract(prepared.kind, bytes.as_slice());
                    let ghost xg = x;
                    let r = match x {
                        Err(e) => FileJob::Finished(Err(e)),
                        Ok((content, encoding)) => {
                            if content.as_str().len() > MAX_MEMORY_USAGE {
                                FileJob::Finished(Err(FileProcessingError::MemoryLimitExceeded))
                            } else {
                                FileJob::AwaitingTime { prepared, content, encoding }
                            }
                        },
                    };
                    assert(extracted(prepared.kind, bytes@, xg));
                    r
                },
            },
            (
                FileJob::AwaitingTime { prepared, content, encoding },
                FileEvent::ElapsedMillis(millis),
            ) => FileJob::Finished(FileProcessor::finish(prepared, content, encoding, millis)),
            (job, _) => job,
        }
    }
}

} // verus!
