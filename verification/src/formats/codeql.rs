//! CodeQL alerts: CSV without a header row, nine columns per alert.

use vstd::prelude::*;
use crate::parse::ReportError;
use crate::formats::lemma_map_take_push;

verus! {

/// The error of the `csv` crate.
#[verifier::external_type_specification]
#[verifier::external_body]
pub struct ExCsvError(csv::Error);

/// The records that the `csv` crate reads from `text` with no header row and the
/// default settings (comma, double quotes, records of equal length), each as its
/// fields; nothing where the crate reports an error.
pub uninterp spec fn csv_records(text: Seq<char>) -> Option<Seq<Seq<Seq<char>>>>;

/// Reads `text` as CSV with `csv::ReaderBuilder`, without a header row, collecting
/// the fields of every record of `Reader::records` and stopping at the first error.
/// The contract says that the outcome is a function of the text alone: the records,
/// or an error exactly where that function gives none.
#[verifier::external_body]
fn read_csv_records(text: &str) -> (res: Result<Vec<Vec<String>>, csv::Error>)
    ensures
        res is Ok <==> csv_records(text@) is Some,
        res matches Ok(records) ==> records.deep_view() == csv_records(text@)->0,
{
    let mut reader = csv::ReaderBuilder::new().has_headers(false).from_reader(text.as_bytes());
    let mut records: Vec<Vec<String>> = Vec::new();
    for record in reader.records() {
        records.push(record?.iter().map(String::from).collect());
    }
    Ok(records)
}

/// The names of the columns of a CodeQL alert.
pub open spec fn codeql_headers() -> Seq<Seq<char>> {
    seq![
        "Rule Name"@,
        "Rule Description"@,
        "Severity"@,
        "Detailed Message"@,
        "Location-file"@,
        "Location-start-line"@,
        "Location-start-col"@,
        "Location-end-line"@,
        "Location-end-col"@,
    ]
}

/// The report of one record: each field after the name of its column, as far as
/// there are both a field and a column.
pub open spec fn codeql_row(record: Seq<Seq<char>>) -> Seq<Seq<char>> {
    let n = if record.len() < codeql_headers().len() {
        record.len()
    } else {
        codeql_headers().len()
    };
    Seq::new(n, |i: int| codeql_headers()[i] + ": "@ + record[i])
}

fn header(i: usize) -> (res: &'static str)
    requires
        i < 9,
    ensures
        res@ == codeql_headers()[i as int],
{
    if i == 0 {
        "Rule Name"
    } else if i == 1 {
        "Rule Description"
    } else if i == 2 {
        "Severity"
    } else if i == 3 {
        "Detailed Message"
    } else if i == 4 {
        "Location-file"
    } else if i == 5 {
        "Location-start-line"
    } else if i == 6 {
        "Location-start-col"
    } else if i == 7 {
        "Location-end-line"
    } else {
        "Location-end-col"
    }
}

/// The report of one CodeQL record.
pub fn codeql_record_row(record: &Vec<String>) -> (res: Vec<String>)
    ensures
        res.deep_view() == codeql_row(record.deep_view()),
{
    let ghost rec = record.deep_view();
    let n: usize = if record.len() < 9 { record.len() } else { 9 };
    let mut row: Vec<String> = Vec::new();
    for i in 0..n
        invariant
            rec == record.deep_view(),
            n <= 9,
            n <= record.len(),
            row.deep_view() =~= codeql_row(rec).take(i as int),
            codeql_row(rec).len() == n,
    {
        let mut line = String::from_str(header(i));
        line.append(": ");
        line.append(record[i].as_str());
        let ghost before = row.deep_view();
        row.push(line);
        assert(row.deep_view() =~= before.push(line@));
    }
    assert(codeql_row(rec).take(n as int) =~= codeql_row(rec));
    row
}

/// The reports of CodeQL records, one per record.
pub fn codeql_rows(records: &Vec<Vec<String>>) -> (res: Vec<Vec<String>>)
    ensures
        res.deep_view() == records.deep_view().map_values(|r: Seq<Seq<char>>| codeql_row(r)),
{
    let ghost recs = records.deep_view();
    let ghost f = |r: Seq<Seq<char>>| codeql_row(r);
    let mut rows: Vec<Vec<String>> = Vec::new();
    for i in 0..records.len()
        invariant
            recs == records.deep_view(),
            forall|r: Seq<Seq<char>>| #[trigger] f(r) == codeql_row(r),
            rows.deep_view() =~= recs.take(i as int).map_values(f),
    {
        proof {
            lemma_map_take_push(recs, f, i as int);
        }
        let row = codeql_record_row(&records[i]);
        let ghost before = rows.deep_view();
        rows.push(row);
        assert(rows.deep_view() =~= before.push(row.deep_view()));
    }
    assert(recs.take(recs.len() as int) =~= recs);
    rows
}

/// Parses a CodeQL CSV report: one report per record; malformed CSV is refused.
pub fn parse_codeql_csv_report(text: &str) -> (res: Result<Vec<Vec<String>>, ReportError>)
    ensures
        res is Ok <==> csv_records(text@) is Some,
        res matches Ok(rows) ==> rows.deep_view() == csv_records(text@)->0.map_values(
            |r: Seq<Seq<char>>| codeql_row(r),
        ),
        res matches Err(e) ==> e == ReportError::Csv,
{
    match read_csv_records(text) {
        Ok(records) => Ok(codeql_rows(&records)),
        Err(_) => Err(ReportError::Csv),
    }
}

} // verus!
