# file_processor

Checks, classification and text extraction for documents uploaded to a
desktop application, verified with Verus.

- `src/` is the verified library. `processor.rs` holds the size limits,
  the supported types, path checks and classification; `job.rs` runs one
  file from path to processed file as a sequence of decisions, leaving the
  file system and the clock to the caller; `decode.rs`, `csv_report.rs`,
  `docx_text.rs` and `pdf_text.rs` turn the bytes of each kind of file into
  content; `path.rs` and `text.rs` hold the path and string facilities;
  `laws.rs` states properties of the library as a whole.
- `app/` answers the job's requests with the file system and the clock,
  and gives the results the `serde` and `thiserror` derives.
- `tests/` runs the library on concrete inputs.
