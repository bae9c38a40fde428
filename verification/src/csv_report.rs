//! The preview of a CSV file: its header row, at most the first hundred
//! records, and the number of records.

use vstd::prelude::*;
use vstd::string::StringExecFns;

use crate::decode::option_string_view;
use crate::error::FileProcessingError;
use crate::text::{decimal, decimal_string, join, join_strings, string_views};

verus! {

/// How many records the preview lists at most.
pub const PREVIEW_RECORDS: usize = 100;

/// What `csv::Reader` (default settings: a header row, records of equal
/// length) reads from `bytes`: the header fields and the fields of each
/// record, or nothing when reading fails anywhere.
pub uninterp spec fn csv_table(bytes: Seq<u8>) -> Option<(Seq<Seq<char>>, Seq<Seq<Seq<char>>>)>;

pub open spec fn record_views(rows: Seq<Vec<String>>) -> Seq<Seq<Seq<char>>> {
    rows.map_values(|row: Vec<String>| string_views(row@))
}

/// The preview line of the record at position `i` (counted from 0): its
/// fields as they stand in the file, separated by commas.
pub open spec fn record_line(i: nat, fields: Seq<Seq<char>>) -> Seq<char> {
    "Row "@ + decimal(i + 1) + ": "@ + join(fields, ","@) + "\n"@
}

/// The preview lines of the first `k` records.
pub open spec fn record_lines(rows: Seq<Seq<Seq<char>>>, k: nat) -> Seq<char>
    decreases k,
{
    if k == 0 {
        Seq::empty()
    } else {
        record_lines(rows, (k - 1) as nat) + record_line((k - 1) as nat, rows[k - 1])
    }
}

/// How many records the preview lists.
pub open spec fn listed_records(n: nat) -> nat {
    if n < PREVIEW_RECORDS {
        n
    } else {
        PREVIEW_RECORDS as nat
    }
}

/// The note on records left out of the preview.
pub open spec fn omitted_note(n: nat) -> Seq<char> {
    if n > PREVIEW_RECORDS {
        "\n... and "@ + decimal((n - PREVIEW_RECORDS) as nat) + " more records"@
    } else {
        Seq::empty()
    }
}

/// The whole preview of a table.
pub open spec fn csv_report(headers: Seq<Seq<char>>, rows: Seq<Seq<Seq<char>>>) -> Seq<char> {
    "Headers: "@ + join(headers, ", "@) + "\n\n"@ + record_lines(rows, listed_records(rows.len()))
        + omitted_note(rows.len()) + "\n\nTotal records: "@ + decimal(rows.len())
}

/// `csv::Reader::from_reader` over `bytes`, then `Reader::headers` and
/// `Reader::records`, each record read back as its fields.  The contract
/// names the result, and claims an error exactly where the name has none.
#[verifier::external_body]
fn read_csv(bytes: &[u8]) -> (r: Result<(Vec<String>, Vec<Vec<String>>), csv::Error>)
    ensures
        r is Ok <==> csv_table(bytes@) is Some,
        r matches Ok(t) ==> csv_table(bytes@) == Some((string_views(t.0@), record_views(t.1@))),
{
    let mut reader = csv::Reader::from_reader(bytes);
    let headers: Vec<String> = reader.headers()?.iter().map(String::from).collect();
    let mut rows: Vec<Vec<String>> = Vec::new();
    for record in reader.records() {
        rows.push(record?.iter().map(String::from).collect());
    }
    Ok((headers, rows))
}

/// `csv::Error::from` an I/O error, as `csv::Reader::from_path` reports a
/// file that cannot be read.
#[verifier::external_body]
pub(crate) fn csv_error_from_io(e: std::io::Error) -> (r: csv::Error) {
    csv::Error::from(e)
}

/// Renders the preview of a table.
pub fn format_csv_report(headers: &Vec<String>, rows: &Vec<Vec<String>>) -> (r: String)
    ensures
        r@ == csv_report(string_views(headers@), record_views(rows@)),
{
    let ghost hv = string_views(headers@);
    let ghost rv = record_views(rows@);
    let mut out = "Headers: ".to_owned();
    let joined = join_strings(headers, ", ");
    out.append(joined.as_str());
    out.append("\n\n");
    let ghost head = out@;
    let n = rows.len();
    let listed = if n < PREVIEW_RECORDS {
        n
    } else {
        PREVIEW_RECORDS
    };
    for i in 0..listed
        invariant
            n == rows.len(),
            listed == listed_records(n as nat),
            listed <= n,
            rv == record_views(rows@),
            out@ == head + record_lines(rv, i as nat),
    {
        let number = decimal_string((i + 1) as u64);
        let fields = join_strings(&rows[i], ",");
        let ghost before = out@;
        out.append("Row ");
        out.append(number.as_str());
        out.append(": ");
        out.append(fields.as_str());
        out.append("\n");
        assert(rv[i as int] == string_views(rows@[i as int]@));
        assert(out@ == before + record_line(i as nat, rv[i as int]));
        assert(record_lines(rv, (i + 1) as nat) == record_lines(rv, i as nat) + record_line(
            i as nat,
            rv[i as int],
        ));
    }
    let ghost lines = out@;
    if n > PREVIEW_RECORDS {
        let more = decimal_string((n - PREVIEW_RECORDS) as u64);
        out.append("\n... and ");
        out.append(more.as_str());
        out.append(" more records");
    }
    assert(out@ == lines + omitted_note(n as nat));
    let total = decimal_string(n as u64);
    out.append("\n\nTotal records: ");
    out.append(total.as_str());
    assert(rv.len() == n);
    out
}

/// The preview of a CSV file given its bytes, with its encoding name.
pub fn process_csv(bytes: &[u8]) -> (r: Result<(String, Option<String>), FileProcessingError>)
    ensures
        csv_table(bytes@) matches Some(t) ==> (r matches Ok(o) && o.0@ == csv_report(t.0, t.1)
            && option_string_view(o.1) == Some("UTF-8"@)),
        csv_table(bytes@) is None ==> r matches Err(FileProcessingError::CsvError(_)),
{
    match read_csv(bytes) {
        Ok((headers, rows)) => Ok((format_csv_report(&headers, &rows), Some("UTF-8".to_owned()))),
        Err(e) => Err(FileProcessingError::CsvError(e)),
    }
}

} // verus!
