//! Reading the report of a tool into its common textual representation: each
//! finding becomes a list of strings, each string a `"key: value"` pair.

use vstd::prelude::*;
use crate::formats::codeql::{codeql_row, csv_records, parse_codeql_csv_report};
use crate::formats::html::{html_rows, parse_html_reports};
use crate::formats::inferroi::{files_complete, inferroi_files_complete, inferroi_rows, parse_inferroi_report};
use crate::formats::iris::{iris_reports, parse_iris_report};
use crate::formats::llmdfa::{llmdfa_row, parse_llmdfa_report};
use crate::formats::markdown::{markdown_rows, parse_markdown_report};
use crate::formats::repoaudit::{parse_repoaudit_report, repoaudit_rows};
use crate::formats::sarif::{parse_sarif_report, sarif_results, sarif_row};
use crate::formats::spotbugs::{
    parse_spotbugs_report, spotbugs_rows, spotbugs_text_complete, spotbugs_text_is_complete,
};
use crate::json::{array_items, Json};
use crate::utils::config::SAST;
use crate::xml::xml_nodes;

verus! {

/// Why a report could not be read.
#[derive(Debug, Clone, Copy, PartialEq, Eq, Structural)]
pub enum ReportError {
    /// The CSV data is malformed.
    Csv,
    /// The XML document is malformed.
    Xml,
    /// A SARIF document has no array of results in its first run.
    MissingResults,
    /// A JSON document is not of the shape the format asks for.
    NotAnArray,
    /// The input is not in the form of the tool's layout, or could not be read.
    NotInLayout,
}

/// A report as read from disk, in the form its tool's layout asks for.
pub enum ReportInput {
    /// The text of a report file.
    Text(String),
    /// The texts of the HTML files of a report directory.
    Texts(Vec<String>),
    /// A report file parsed as JSON.
    Document(Json),
    /// The JSON files of a report directory, each parsed.
    Documents(Vec<Json>),
    /// The report could not be read, or a file of it could not be parsed as JSON.
    Unreadable,
}

/// Reports as lists of lines.
pub type Reports = Seq<Seq<Seq<char>>>;

/// The message with which the reports of a tool are refused.
pub open spec fn failure_message(sast: SAST) -> Seq<char> {
    match sast {
        SAST::CODEQL => "Failed to parse CodeQL report"@,
        SAST::SEMGREP => "Failed to parse Semgrep SARIF report"@,
        SAST::SPOTBUGS => "Failed to parse SpotBugs XML report"@,
        SAST::REPOAUDIT => "Failed to parse RepoAudit JSON report"@,
        SAST::INFERROI => "Failed to parse InferROI report"@,
        SAST::LLMDFA => "Failed to parse LLMDFA report"@,
        SAST::IRIS => "Failed to parse IRIS SARIF report"@,
        SAST::KNIGHTER => "Failed to parse KNighter HTML reports"@,
        SAST::CSA => "Failed to parse CSA HTML reports"@,
        SAST::Codex => "Failed to parse Codex Markdown report"@,
        SAST::ClaudeCode => "Failed to parse ClaudeCode Markdown report"@,
    }
}

/// The reports that `input` holds for `sast`, where its format reads them.
pub open spec fn format_reports(input: ReportInput, sast: SAST) -> Option<Reports> {
    match (sast, input) {
        (SAST::CODEQL, ReportInput::Text(t)) => match csv_records(t@) {
            Some(records) => Some(records.map_values(|r: Seq<Seq<char>>| codeql_row(r))),
            None => None,
        },
        (SAST::SEMGREP, ReportInput::Document(d)) => match sarif_results(d) {
            Some(results) => Some(results.map_values(|r: Json| sarif_row(r))),
            None => None,
        },
        (SAST::IRIS, ReportInput::Document(d)) => iris_reports(d),
        (SAST::SPOTBUGS, ReportInput::Text(t)) => match xml_nodes(t@) {
            Some(nodes) => Some(spotbugs_rows(nodes)),
            None => None,
        },
        (SAST::REPOAUDIT, ReportInput::Document(d)) => Some(repoaudit_rows(d)),
        (SAST::INFERROI, ReportInput::Documents(files)) => Some(inferroi_rows(files@)),
        (SAST::LLMDFA, ReportInput::Document(d)) => match array_items(Some(d)) {
            Some(items) => Some(items.map_values(|r: Json| llmdfa_row(r))),
            None => None,
        },
        (SAST::KNIGHTER, ReportInput::Texts(docs)) | (SAST::CSA, ReportInput::Texts(docs)) => Some(
            html_rows(docs.deep_view()),
        ),
        (SAST::Codex, ReportInput::Text(t)) | (SAST::ClaudeCode, ReportInput::Text(t)) => Some(
            markdown_rows(t@),
        ),
        _ => None,
    }
}

/// The outcome of reading `input` as the report of `sast`: its reports, or the
/// tool's failure message.
pub open spec fn sast_reports(input: ReportInput, sast: SAST) -> Result<Reports, Seq<char>> {
    match format_reports(input, sast) {
        Some(rows) => Ok(rows),
        None => Err(failure_message(sast)),
    }
}

/// Whether the tool's parser reads `input` at all: each bug instance of a SpotBugs
/// report has a source line, and each intention of an InferROI finding that is an
/// array has its four elements.
pub open spec fn input_complete(input: ReportInput, sast: SAST) -> bool {
    match (sast, input) {
        (SAST::INFERROI, ReportInput::Documents(files)) => files_complete(files@),
        (SAST::SPOTBUGS, ReportInput::Text(t)) => spotbugs_text_complete(t@),
        _ => true,
    }
}

/// Whether the tool's parser reads `input` at all.
pub fn is_input_complete(input: &ReportInput, sast: &SAST) -> (res: bool)
    ensures
        res == input_complete(*input, *sast),
{
    match (sast, input) {
        (SAST::INFERROI, ReportInput::Documents(files)) => inferroi_files_complete(files),
        (SAST::SPOTBUGS, ReportInput::Text(t)) => spotbugs_text_is_complete(t.as_str()),
        _ => true,
    }
}

fn failure(sast: &SAST) -> (res: String)
    ensures
        res@ == failure_message(*sast),
{
    let s = match sast {
        SAST::CODEQL => "Failed to parse CodeQL report",
        SAST::SEMGREP => "Failed to parse Semgrep SARIF report",
        SAST::SPOTBUGS => "Failed to parse SpotBugs XML report",
        SAST::REPOAUDIT => "Failed to parse RepoAudit JSON report",
        SAST::INFERROI => "Failed to parse InferROI report",
        SAST::LLMDFA => "Failed to parse LLMDFA report",
        SAST::IRIS => "Failed to parse IRIS SARIF report",
        SAST::KNIGHTER => "Failed to parse KNighter HTML reports",
        SAST::CSA => "Failed to parse CSA HTML reports",
        SAST::Codex => "Failed to parse Codex Markdown report",
        SAST::ClaudeCode => "Failed to parse ClaudeCode Markdown report",
    };
    String::from_str(s)
}

/// Reads the report of tool `sast` from `input`, which holds it in the form of the
/// tool's layout: every finding becomes a list of strings, each a `"key: value"`
/// pair. An input that the tool's parser refuses, or that is not in the form of its
/// layout, gives the tool's failure message. `vul`, the weakness under study, does
/// not enter the parsing.
pub fn parse_sast_reports(input: &ReportInput, sast: &SAST, vul: &str) -> (res: Result<
    Vec<Vec<String>>,
    String,
>)
    requires
        input_complete(*input, *sast),
    ensures
        res is Ok <==> sast_reports(*input, *sast) is Ok,
        res matches Ok(rows) ==> sast_reports(*input, *sast) == Ok::<Reports, Seq<char>>(
            rows.deep_view(),
        ),
        res matches Err(msg) ==> sast_reports(*input, *sast) == Err::<Reports, Seq<char>>(msg@),
{
    let rows = match (sast, input) {
        (SAST::CODEQL, ReportInput::Text(t)) => parse_codeql_csv_report(t.as_str()),
        (SAST::SEMGREP, ReportInput::Document(d)) => parse_sarif_report(d),
        (SAST::IRIS, ReportInput::Document(d)) => parse_iris_report(d),
        (SAST::SPOTBUGS, ReportInput::Text(t)) => parse_spotbugs_report(t.as_str()),
        (SAST::REPOAUDIT, ReportInput::Document(d)) => Ok(parse_repoaudit_report(d)),
        (SAST::INFERROI, ReportInput::Documents(files)) => Ok(parse_inferroi_report(files)),
        (SAST::LLMDFA, ReportInput::Document(d)) => parse_llmdfa_report(d),
        (SAST::KNIGHTER, ReportInput::Texts(docs)) => Ok(parse_html_reports(docs)),
        (SAST::CSA, ReportInput::Texts(docs)) => Ok(parse_html_reports(docs)),
        (SAST::Codex, ReportInput::Text(t)) => Ok(parse_markdown_report(t.as_str())),
        (SAST::ClaudeCode, ReportInput::Text(t)) => Ok(parse_markdown_report(t.as_str())),
        _ => Err(ReportError::NotInLayout),
    };
    match rows {
        Ok(rows) => Ok(rows),
        Err(_) => Err(failure(sast)),
    }
}

/// Reads the report of tool `sast` from `input` where its parser reads it at all
/// (see [`input_complete`]); none for an input on which it cannot proceed: a SpotBugs
/// bug instance without a source line, or an InferROI intention with fewer than
/// four elements.
pub fn read_reports(input: &ReportInput, sast: &SAST, vul: &str) -> (res: Option<
    Result<Vec<Vec<String>>, String>,
>)
    ensures
        res is None <==> !input_complete(*input, *sast),
        res matches Some(Ok(rows)) ==> sast_reports(*input, *sast) == Ok::<Reports, Seq<char>>(
            rows.deep_view(),
        ),
        res matches Some(Err(msg)) ==> sast_reports(*input, *sast) == Err::<Reports, Seq<char>>(
            msg@,
        ),
{
    if is_input_complete(input, sast) {
        Some(parse_sast_reports(input, sast, vul))
    } else {
        None
    }
}

} // verus!
