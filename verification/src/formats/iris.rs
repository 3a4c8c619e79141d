//! IRIS reports: a JSON array of objects whose `entry` is a SARIF result; a SARIF
//! document is read as well.

use vstd::prelude::*;
use crate::formats::lemma_map_take_push;
use crate::formats::sarif::{parse_sarif_report, sarif_result_row, sarif_results, sarif_row};
use crate::json::{array_items, field, get_array, get_field, Json};
use crate::parse::ReportError;

verus! {

/// The `entry` of an element, read as a SARIF result (nothing where it has none).
pub open spec fn iris_entry(element: Json) -> Json {
    match field(Some(element), "entry"@) {
        Some(entry) => entry,
        None => Json::Null,
    }
}

/// The reports of an IRIS document: one per element of a top-level array, from its
/// `entry`; a document that is no array is read as SARIF.
pub open spec fn iris_reports(doc: Json) -> Option<Seq<Seq<Seq<char>>>> {
    match array_items(Some(doc)) {
        Some(items) => Some(items.map_values(|e: Json| sarif_row(iris_entry(e)))),
        None => match sarif_results(doc) {
            Some(results) => Some(results.map_values(|r: Json| sarif_row(r))),
            None => None,
        },
    }
}

/// Parses an IRIS report: one report per element of the top-level array, or, for a
/// SARIF document, one per result of its first run. Anything else is refused.
pub fn parse_iris_report(doc: &Json) -> (res: Result<Vec<Vec<String>>, ReportError>)
    ensures
        res is Ok <==> iris_reports(*doc) is Some,
        res matches Ok(rows) ==> rows.deep_view() == iris_reports(*doc)->0,
        res matches Err(e) ==> e == ReportError::MissingResults,
{
    match get_array(Some(doc)) {
        Some(items) => {
            let ghost f = |e: Json| sarif_row(iris_entry(e));
            let mut rows: Vec<Vec<String>> = Vec::new();
            for i in 0..items.len()
                invariant
                    forall|e: Json| #[trigger] f(e) == sarif_row(iris_entry(e)),
                    rows.deep_view() =~= items@.take(i as int).map_values(f),
            {
                proof {
                    lemma_map_take_push(items@, f, i as int);
                }
                let row = match get_field(Some(&items[i]), "entry") {
                    Some(entry) => sarif_result_row(entry),
                    None => sarif_result_row(&Json::Null),
                };
                let ghost prev = rows.deep_view();
                rows.push(row);
                assert(rows.deep_view() =~= prev.push(row.deep_view()));
            }
            assert(items@.take(items@.len() as int) =~= items@);
            Ok(rows)
        },
        None => parse_sarif_report(doc),
    }
}

} // verus!
