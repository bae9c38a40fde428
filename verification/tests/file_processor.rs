use file_processor::csv_report::format_csv_report;
use file_processor::decode::{choose_decoding, decode_text};
use file_processor::docx_text::{document_text_of, process_docx, DocBlock, ParagraphItem, RunItem};
use file_processor::path::{components_have_relative_step, PathComponent};
use file_processor::pdf_text::{pdf_result, process_pdf};
use file_processor::text::{is_blank, join_strings, str_eq};
use file_processor::{FileEvent, FileJob, FileKind, FileProcessingError, FileProcessor};

fn strings(items: &[&str]) -> Vec<String> {
    items.iter().map(|s| s.to_string()).collect()
}

#[test]
fn test_path_traversal_detection() {
    assert!(FileProcessor::has_path_traversal("../test.txt"));
    assert!(FileProcessor::has_path_traversal("./test.txt"));
    assert!(FileProcessor::has_path_traversal("folder/../test.txt"));
    assert!(!FileProcessor::has_path_traversal("test.txt"));
    assert!(!FileProcessor::has_path_traversal("folder/test.txt"));
}

#[test]
fn test_supported_extensions() {
    assert!(FileProcessor::is_supported_file("test.txt"));
    assert!(FileProcessor::is_supported_file("test.PDF"));
    assert!(!FileProcessor::is_supported_file("test.exe"));
    assert!(!FileProcessor::is_supported_file("test"));
}

const TEMP_DIR: &str = "/tmp/.tmpQ3xk9Z";

#[test]
fn test_process_text_file() {
    let file_path = format!("{}/test.txt", TEMP_DIR);
    match run_job(&file_path, true, b"Hello, World!\n") {
        FileJob::Finished(Ok(result)) => {
            assert_eq!(result.content.trim(), "Hello, World!");
            assert_eq!(result.metadata.file_type, "txt");
            assert_eq!(result.metadata.encoding, Some("UTF-8".to_string()));
        }
        other => panic!("unexpected {:?}", other),
    }
}

#[test]
fn test_unsupported_file_type() {
    let file_path = format!("{}/test.exe", TEMP_DIR);
    let result = run_job(&file_path, true, b"");
    assert!(matches!(result, FileJob::Finished(Err(FileProcessingError::UnsupportedFileType(_)))));
}

#[test]
fn test_csv_processing() {
    let file_path = format!("{}/test.csv", TEMP_DIR);
    let bytes = b"name,age,city\nJohn,30,New York\nJane,25,Los Angeles\n";
    match run_job(&file_path, true, bytes) {
        FileJob::Finished(Ok(result)) => {
            assert!(result.content.contains("Headers:"));
            assert!(result.content.contains("name, age, city"));
            assert!(result.content.contains("John,30,New York"));
            assert!(result.content.contains("Total records: 2"));
            assert_eq!(result.metadata.file_type, "csv");
        }
        other => panic!("unexpected {:?}", other),
    }
}

#[test]
fn relative_path_with_directory_is_classified_by_its_file_name() {
    match run_job("docs/Notes.TXT", true, b"hi") {
        FileJob::Finished(Ok(file)) => {
            assert_eq!(file.content, "hi");
            assert_eq!(file.metadata.name, "Notes.TXT");
            assert_eq!(file.metadata.size, 2);
            assert_eq!(file.metadata.file_type, "txt");
            assert_eq!(file.metadata.encoding, Some("UTF-8".to_string()));
        }
        other => panic!("unexpected {:?}", other),
    }
    assert!(FileProcessor::is_supported_file("a/b.Json"));
}

#[test]
fn csv_report_exact_text() {
    let bytes = b"name,age,city\nJohn,30,New York\nJane,25,Los Angeles\n";
    let (content, encoding) = FileProcessor::extract(FileKind::Csv, bytes).unwrap();
    assert_eq!(
        content,
        "Headers: name, age, city\n\nRow 1: John,30,New York\nRow 2: Jane,25,Los Angeles\n\n\nTotal records: 2"
    );
    assert_eq!(encoding, Some("UTF-8".to_string()));
}

#[test]
fn csv_report_lists_at_most_one_hundred_records() {
    let headers = strings(&["n"]);
    let rows: Vec<Vec<String>> = (0..103).map(|i| vec![i.to_string()]).collect();
    let report = format_csv_report(&headers, &rows);
    assert!(report.contains("Row 100: 99\n"));
    assert!(!report.contains("Row 101"));
    assert!(report.ends_with("\n... and 3 more records\n\nTotal records: 103"));
}

#[test]
fn csv_report_of_exactly_one_hundred_has_no_note() {
    let headers = strings(&["a", "b"]);
    let rows: Vec<Vec<String>> = (0..100).map(|i| vec![i.to_string(), "x".to_string()]).collect();
    let report = format_csv_report(&headers, &rows);
    assert!(report.starts_with("Headers: a, b\n\nRow 1: 0,x\n"));
    assert!(!report.contains("more records"));
    assert!(report.ends_with("Row 100: 99,x\n\n\nTotal records: 100"));
}

#[test]
fn csv_with_ragged_record_is_an_error() {
    let result = FileProcessor::extract(FileKind::Csv, b"a,b\n1,2,3\n");
    assert!(matches!(result, Err(FileProcessingError::CsvError(_))));
}

#[test]
fn size_limits_per_type() {
    assert!(FileProcessor::validate_file_size(5 * 1024 * 1024, "txt").is_ok());
    assert!(matches!(
        FileProcessor::validate_file_size(5 * 1024 * 1024 + 1, "md"),
        Err(FileProcessingError::FileTooLarge { size: 5242881, max: 5242880 })
    ));
    assert!(FileProcessor::validate_file_size(10 * 1024 * 1024, "csv").is_ok());
    assert!(matches!(
        FileProcessor::validate_file_size(10 * 1024 * 1024 + 1, "csv"),
        Err(FileProcessingError::FileTooLarge { max: 10485760, .. })
    ));
    assert!(matches!(
        FileProcessor::validate_file_size(20 * 1024 * 1024 + 1, "pdf"),
        Err(FileProcessingError::FileTooLarge { max: 20971520, .. })
    ));
    assert!(matches!(
        FileProcessor::validate_file_size(15 * 1024 * 1024 + 1, "docx"),
        Err(FileProcessingError::FileTooLarge { max: 15728640, .. })
    ));
    assert!(matches!(
        FileProcessor::validate_file_size(5 * 1024 * 1024 + 1, "exe"),
        Err(FileProcessingError::FileTooLarge { max: 5242880, .. })
    ));
}

#[test]
fn oversized_unsupported_file_is_too_large() {
    let result = FileProcessor::prepare("setup.exe", 6 * 1024 * 1024);
    assert!(matches!(
        result,
        Err(FileProcessingError::FileTooLarge { size: 6291456, max: 5242880 })
    ));
}

#[test]
fn prepare_records_name_and_lowercased_type() {
    let prepared = FileProcessor::prepare("Report.DOCX", 10).unwrap();
    assert_eq!(prepared.name, "Report.DOCX");
    assert_eq!(prepared.file_type, "docx");
    assert_eq!(prepared.size, 10);
    assert_eq!(prepared.kind, FileKind::Docx);
    match FileProcessor::prepare("notes.TXT2", 0) {
        Err(FileProcessingError::UnsupportedFileType(t)) => assert_eq!(t, "txt2"),
        other => panic!("unexpected {:?}", other),
    }
}

#[test]
fn classify_without_name_or_extension() {
    match FileProcessor::classify(None, None, 0) {
        Err(FileProcessingError::UnsupportedFileType(t)) => assert_eq!(t, ""),
        other => panic!("unexpected {:?}", other),
    }
    let prepared = FileProcessor::classify(None, Some("Md"), 1).unwrap();
    assert_eq!(prepared.name, "unknown");
    assert_eq!(prepared.file_type, "md");
    assert_eq!(prepared.kind, FileKind::Text);
}

#[test]
fn every_supported_extension_has_a_handler() {
    for ext in FileProcessor::get_supported_extensions() {
        assert!(FileProcessor::file_kind(ext).is_some());
        assert!(FileProcessor::is_supported_extension(ext));
    }
    assert_eq!(
        FileProcessor::get_supported_extensions(),
        vec!["txt", "md", "json", "csv", "pdf", "docx"]
    );
    assert_eq!(FileProcessor::file_kind("exe"), None);
}

#[test]
fn extension_case_is_ignored() {
    assert!(FileProcessor::is_supported_extension("JSON"));
    assert!(FileProcessor::is_supported_extension("Csv"));
    assert!(!FileProcessor::is_supported_extension("exe"));
    assert!(FileProcessor::is_supported_file("archive.tar.Md"));
    assert!(!FileProcessor::is_supported_file(".pdf"));
}

#[test]
fn traversal_edge_cases() {
    assert!(FileProcessor::has_path_traversal(".."));
    assert!(FileProcessor::has_path_traversal("."));
    assert!(FileProcessor::has_path_traversal("a/b/.."));
    assert!(!FileProcessor::has_path_traversal("a/.hidden/b..c"));
    assert!(FileProcessor::has_path_traversal("/tmp/../etc/x.txt"));
    assert!(!FileProcessor::has_path_traversal("a/./b.txt"));
    assert!(!FileProcessor::has_path_traversal("folder/./test.txt"));
    assert!(!FileProcessor::has_path_traversal("/tmp/.tmpQ3xk9Z/test.txt"));
    assert!(components_have_relative_step(&vec![PathComponent::Normal, PathComponent::ParentDir]));
    assert!(!components_have_relative_step(&vec![PathComponent::RootDir, PathComponent::Normal]));
}

#[test]
fn valid_utf8_text_is_kept() {
    let (content, encoding) = decode_text("héllo ✓\n".as_bytes());
    assert_eq!(content, "héllo ✓\n");
    assert_eq!(encoding, Some("UTF-8".to_string()));
}

#[test]
fn invalid_utf8_text_is_decoded_as_utf8_with_replacement() {
    let (content, encoding) = decode_text(&[0x66, 0xE9, 0x21]);
    assert_eq!(content, "f\u{FFFD}!");
    assert_eq!(encoding, Some("UTF-8".to_string()));
}

#[test]
fn utf16_marked_text_is_labelled_by_the_first_clean_candidate() {
    let (content, encoding) = decode_text(&[0xFF, 0xFE, 0x41, 0x00]);
    assert_eq!(content, "A");
    assert_eq!(encoding, Some("windows-1252".to_string()));
}

fn pass(text: &str, used: &str, errors: bool) -> (String, String, bool) {
    (text.to_string(), used.to_string(), errors)
}

#[test]
fn decoding_choice_prefers_strict_then_utf8_then_clean_passes() {
    let strict = choose_decoding(
        Some("s".to_string()),
        pass("u", "UTF-8", false),
        pass("w", "windows-1252", false),
        pass("l", "ISO-8859-2", false),
        "x".to_string(),
    );
    assert_eq!(strict, ("s".to_string(), Some("UTF-8".to_string())));
    let utf8 = choose_decoding(
        None,
        pass("u", "UTF-8", true),
        pass("w", "windows-1252", false),
        pass("l", "ISO-8859-2", false),
        "x".to_string(),
    );
    assert_eq!(utf8, ("u".to_string(), Some("UTF-8".to_string())));
    let windows = choose_decoding(
        None,
        pass("u", "UTF-16LE", false),
        pass("w", "UTF-16LE", false),
        pass("l", "UTF-16LE", false),
        "x".to_string(),
    );
    assert_eq!(windows, ("w".to_string(), Some("windows-1252".to_string())));
    let latin2 = choose_decoding(
        None,
        pass("u", "UTF-16BE", true),
        pass("w", "UTF-16BE", true),
        pass("l", "UTF-16BE", false),
        "x".to_string(),
    );
    assert_eq!(latin2, ("l".to_string(), Some("ISO-8859-2".to_string())));
    let lossy = choose_decoding(
        None,
        pass("u", "UTF-16BE", true),
        pass("w", "UTF-16BE", true),
        pass("l", "UTF-16BE", true),
        "x".to_string(),
    );
    assert_eq!(lossy, ("x".to_string(), Some("UTF-8 (with replacements)".to_string())));
}

#[test]
fn utf8_marked_invalid_text_is_still_utf8() {
    let (content, encoding) = decode_text(&[0xEF, 0xBB, 0xBF, 0x61, 0xFF]);
    assert_eq!(content, "a\u{FFFD}");
    assert_eq!(encoding, Some("UTF-8".to_string()));
}

#[test]
fn undecodable_text_falls_back_to_replacements() {
    let (content, encoding) = decode_text(&[0xFF, 0xFE, 0x41, 0x00, 0x80]);
    assert_eq!(content, String::from_utf8_lossy(&[0xFF, 0xFE, 0x41, 0x00, 0x80]));
    assert_eq!(encoding, Some("UTF-8 (with replacements)".to_string()));
}

#[test]
fn memory_limit_is_enforced() {
    let prepared = FileProcessor::prepare("big.txt", 0).unwrap();
    let content = "a".repeat(50 * 1024 * 1024 + 1);
    assert!(matches!(
        FileProcessor::finish(prepared, content, None, 0),
        Err(FileProcessingError::MemoryLimitExceeded)
    ));
    let prepared = FileProcessor::prepare("big.txt", 7).unwrap();
    let content = "a".repeat(50 * 1024 * 1024);
    let done = FileProcessor::finish(prepared, content, Some("UTF-8".to_string()), 3).unwrap();
    assert_eq!(done.metadata.name, "big.txt");
    assert_eq!(done.metadata.size, 7);
    assert_eq!(done.processing_time, 3);
}

#[test]
fn docx_text_joins_runs_and_ends_paragraphs() {
    let blocks = vec![
        DocBlock::Paragraph(vec![
            ParagraphItem::Run(vec![RunItem::Text("Hello".to_string()), RunItem::Other]),
            ParagraphItem::Other,
            ParagraphItem::Run(vec![RunItem::Text(", world".to_string())]),
        ]),
        DocBlock::Other,
        DocBlock::Paragraph(vec![]),
    ];
    assert_eq!(document_text_of(&blocks), "Hello, world\n\n");
}

#[test]
fn docx_file_is_read() {
    let mut buffer = std::io::Cursor::new(Vec::new());
    docx_rs::Docx::new()
        .add_paragraph(docx_rs::Paragraph::new().add_run(docx_rs::Run::new().add_text("First line")))
        .add_paragraph(docx_rs::Paragraph::new().add_run(docx_rs::Run::new().add_text("Second")))
        .build()
        .pack(&mut buffer)
        .unwrap();
    let (content, encoding) = process_docx(buffer.get_ref()).unwrap();
    assert_eq!(content, "First line\nSecond\n");
    assert_eq!(encoding, Some("UTF-8".to_string()));
}

#[test]
fn blank_docx_gets_a_notice() {
    let mut buffer = std::io::Cursor::new(Vec::new());
    docx_rs::Docx::new()
        .add_paragraph(docx_rs::Paragraph::new().add_run(docx_rs::Run::new().add_text("  ")))
        .build()
        .pack(&mut buffer)
        .unwrap();
    let (content, encoding) = process_docx(buffer.get_ref()).unwrap();
    assert_eq!(content, "DOCX file processed but no text content was found.");
    assert_eq!(encoding, None);
}

#[test]
fn broken_docx_is_a_docx_error() {
    match process_docx(b"not a zip archive") {
        Err(FileProcessingError::DocxError(m)) => {
            assert_eq!(m, "Failed to read DOCX file: Failed to read from zip.")
        }
        other => panic!("unexpected {:?}", other),
    }
}

#[test]
fn broken_pdf_is_a_pdf_error() {
    match process_pdf(b"not a pdf") {
        Err(FileProcessingError::PdfError(m)) => {
            assert!(m.starts_with("Failed to extract text from PDF: "))
        }
        other => panic!("unexpected {:?}", other),
    }
}

#[test]
fn pdf_text_outcomes() {
    let (content, encoding) = pdf_result(" \n\t".to_string());
    assert_eq!(
        content,
        "PDF file processed but no text content was extracted. This may be a scanned document or contain only images."
    );
    assert_eq!(encoding, None);
    let (content, encoding) = pdf_result("Page one".to_string());
    assert_eq!(content, "Page one");
    assert_eq!(encoding, None);
}

#[test]
fn read_failures_follow_each_handler() {
    let err = || std::io::Error::new(std::io::ErrorKind::PermissionDenied, "denied");
    assert!(matches!(FileProcessor::read_failure(FileKind::Text, err()), FileProcessingError::IoError(_)));
    assert!(matches!(FileProcessor::read_failure(FileKind::Docx, err()), FileProcessingError::IoError(_)));
    assert!(matches!(FileProcessor::read_failure(FileKind::Csv, err()), FileProcessingError::CsvError(_)));
    match FileProcessor::read_failure(FileKind::Pdf, err()) {
        FileProcessingError::PdfError(m) => {
            assert_eq!(m, "Failed to extract text from PDF: PDF error: IO error: denied")
        }
        other => panic!("unexpected {:?}", other),
    }
}

#[test]
fn text_helpers() {
    assert_eq!(join_strings(&strings(&["a", "b", "c"]), ", "), "a, b, c");
    assert_eq!(join_strings(&strings(&[]), ", "), "");
    assert!(is_blank(" \u{3000}\u{2028}\t"));
    assert!(!is_blank(" x "));
    assert!(str_eq("abc", "abc"));
    assert!(!str_eq("abc", "abd"));
    assert!(FileProcessor::is_supported_extension("DOCX"));
}

#[test]
fn record_numbers_are_decimal() {
    let headers = strings(&["n"]);
    let rows: Vec<Vec<String>> = (0..12).map(|i| vec![i.to_string()]).collect();
    let report = format_csv_report(&headers, &rows);
    assert!(report.contains("Row 10: 9\nRow 11: 10\nRow 12: 11\n"));
    assert!(report.ends_with("Total records: 12"));
    let empty: Vec<Vec<String>> = Vec::new();
    assert_eq!(format_csv_report(&headers, &empty), "Headers: n\n\n\n\nTotal records: 0");
}

#[test]
fn new_processor() {
    let _processor = FileProcessor::new();
}

fn run_job(path: &str, exists: bool, bytes: &[u8]) -> FileJob {
    let mut job = FileJob::start(path);
    loop {
        job = match job {
            done @ FileJob::Finished(_) => return done,
            waiting @ FileJob::AwaitingExistence { .. } => waiting.advance(FileEvent::Exists(exists)),
            waiting @ FileJob::AwaitingSize { .. } => {
                waiting.advance(FileEvent::Size(Ok(bytes.len() as u64)))
            }
            waiting @ FileJob::AwaitingBytes { .. } => waiting.advance(FileEvent::Bytes(Ok(bytes.to_vec()))),
            waiting @ FileJob::AwaitingTime { .. } => waiting.advance(FileEvent::ElapsedMillis(5)),
        };
    }
}

#[test]
fn job_processes_a_text_file() {
    match run_job("notes.md", true, b"# Title\n") {
        FileJob::Finished(Ok(file)) => {
            assert_eq!(file.content, "# Title\n");
            assert_eq!(file.metadata.name, "notes.md");
            assert_eq!(file.metadata.size, 8);
            assert_eq!(file.metadata.file_type, "md");
            assert_eq!(file.metadata.encoding, Some("UTF-8".to_string()));
            assert_eq!(file.processing_time, 5);
        }
        other => panic!("unexpected {:?}", other),
    }
}

#[test]
fn job_refuses_traversal_before_anything_else() {
    assert!(matches!(
        FileJob::start("../secret.txt"),
        FileJob::Finished(Err(FileProcessingError::PathTraversal))
    ));
}

#[test]
fn test_file_not_found() {
    match run_job("nonexistent.txt", false, b"") {
        FileJob::Finished(Err(FileProcessingError::FileNotFound(p))) => assert_eq!(p, "nonexistent.txt"),
        other => panic!("unexpected {:?}", other),
    }
}

#[test]
fn job_reports_unsupported_type_without_reading() {
    let job = FileJob::start("test.exe").advance(FileEvent::Exists(true));
    let job = job.advance(FileEvent::Size(Ok(0)));
    assert!(matches!(job, FileJob::Finished(Err(FileProcessingError::UnsupportedFileType(_)))));
}

#[test]
fn job_reports_size_and_read_errors() {
    let err = || std::io::Error::new(std::io::ErrorKind::Other, "gone");
    let job = FileJob::start("a.txt").advance(FileEvent::Exists(true));
    assert!(matches!(job.advance(FileEvent::Size(Err(err()))), FileJob::Finished(Err(FileProcessingError::IoError(_)))));
    let job = FileJob::start("a.csv").advance(FileEvent::Exists(true)).advance(FileEvent::Size(Ok(3)));
    assert!(matches!(job.advance(FileEvent::Bytes(Err(err()))), FileJob::Finished(Err(FileProcessingError::CsvError(_)))));
}

#[test]
fn job_ignores_events_it_does_not_wait_for() {
    let job = FileJob::start("a.txt").advance(FileEvent::ElapsedMillis(1));
    assert!(matches!(job, FileJob::AwaitingExistence { .. }));
}

#[test]
fn prepare_takes_the_final_component_as_name() {
    let prepared = FileProcessor::prepare("docs/2024/Report.Pdf", 42).unwrap();
    assert_eq!(prepared.name, "Report.Pdf");
    assert_eq!(prepared.file_type, "pdf");
    assert_eq!(prepared.kind, FileKind::Pdf);
    match FileProcessor::prepare("docs/..", 1) {
        Err(FileProcessingError::UnsupportedFileType(t)) => assert_eq!(t, ""),
        other => panic!("unexpected {:?}", other),
    }
}

fn tiny_pdf(text: &str) -> Vec<u8> {
    let content = format!("BT /F1 12 Tf 72 720 Td ({}) Tj ET", text);
    let objects = vec![
        "<< /Type /Catalog /Pages 2 0 R >>".to_string(),
        "<< /Type /Pages /Kids [3 0 R] /Count 1 >>".to_string(),
        "<< /Type /Page /Parent 2 0 R /MediaBox [0 0 612 792] /Contents 4 0 R /Resources << /Font << /F1 5 0 R >> >> >>".to_string(),
        format!("<< /Length {} >>\nstream\n{}\nendstream", content.len(), content),
        "<< /Type /Font /Subtype /Type1 /BaseFont /Helvetica /Encoding /WinAnsiEncoding >>".to_string(),
    ];
    let mut out = b"%PDF-1.4\n".to_vec();
    let mut offsets = Vec::new();
    for (i, body) in objects.iter().enumerate() {
        offsets.push(out.len());
        out.extend_from_slice(format!("{} 0 obj\n{}\nendobj\n", i + 1, body).as_bytes());
    }
    let xref = out.len();
    out.extend_from_slice(format!("xref\n0 {}\n0000000000 65535 f \n", objects.len() + 1).as_bytes());
    for off in offsets {
        out.extend_from_slice(format!("{:010} 00000 n \n", off).as_bytes());
    }
    out.extend_from_slice(
        format!("trailer\n<< /Size {} /Root 1 0 R >>\nstartxref\n{}\n%%EOF\n", objects.len() + 1, xref).as_bytes(),
    );
    out
}

#[test]
fn pdf_text_is_extracted() {
    let (content, encoding) = process_pdf(&tiny_pdf("Hello PDF")).unwrap();
    assert!(content.contains("Hello PDF"));
    assert_eq!(encoding, None);
}

#[test]
fn paths_with_drives_backslashes_and_trailing_slashes() {
    assert!(!FileProcessor::has_path_traversal("C:\\docs\\report.pdf"));
    assert!(!FileProcessor::has_path_traversal("a:b.txt"));
    assert!(!FileProcessor::has_path_traversal("x:/./y"));
    assert!(FileProcessor::is_supported_file("C:\\docs\\report.PDF"));
    assert!(!FileProcessor::is_supported_file("dir/"));
    assert!(FileProcessor::is_supported_file("docs/notes.md/"));
    let prepared = FileProcessor::prepare("C:\\docs\\report.pdf", 1).unwrap();
    assert_eq!(prepared.file_type, "pdf");
    let prepared = FileProcessor::prepare("docs/notes.md/", 1).unwrap();
    assert_eq!(prepared.name, "notes.md");
    assert_eq!(prepared.file_type, "md");
    match run_job("a:b.txt", false, b"") {
        FileJob::Finished(Err(FileProcessingError::FileNotFound(p))) => assert_eq!(p, "a:b.txt"),
        other => panic!("unexpected {:?}", other),
    }
}
