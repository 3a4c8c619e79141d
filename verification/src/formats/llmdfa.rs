//! LLMDFA reports: a JSON array of report strings.

use vstd::prelude::*;
use crate::json::{array_items, get_array, text_of, text_or_empty, Json};
use crate::parse::ReportError;
use crate::text::labeled;
use crate::formats::lemma_map_take_push;

verus! {

/// The report of one element: its report string, labelled (empty where the element
/// is no string).
pub open spec fn llmdfa_row(report: Json) -> Seq<Seq<char>> {
    seq!["Report: "@ + text_or_empty(Some(report))]
}

/// Parses an LLMDFA report: one report per element of the top-level array.
/// A document whose top level is no array is refused.
pub fn parse_llmdfa_report(doc: &Json) -> (res: Result<Vec<Vec<String>>, ReportError>)
    ensures
        res is Ok <==> array_items(Some(*doc)) is Some,
        res matches Ok(rows) ==> rows.deep_view() == array_items(Some(*doc))->0.map_values(
            |r: Json| llmdfa_row(r),
        ),
        res matches Err(e) ==> e == ReportError::NotAnArray,
{
    match get_array(Some(doc)) {
        Some(reports) => {
            let ghost f = |r: Json| llmdfa_row(r);
            let mut rows: Vec<Vec<String>> = Vec::new();
            for i in 0..reports.len()
                invariant
                    forall|r: Json| #[trigger] f(r) == llmdfa_row(r),
                    rows.deep_view() =~= reports@.take(i as int).map_values(f),
            {
                proof {
                    lemma_map_take_push(reports@, f, i as int);
                }
                let mut row: Vec<String> = Vec::new();
                row.push(labeled("Report: ", text_of(Some(&reports[i])).as_str()));
                assert(row.deep_view() =~= llmdfa_row(reports@[i as int]));
                let ghost before = rows.deep_view();
                rows.push(row);
                assert(rows.deep_view() =~= before.push(row.deep_view()));
            }
            assert(reports@.take(reports@.len() as int) =~= reports@);
            Ok(rows)
        },
        None => Err(ReportError::NotAnArray),
    }
}

} // verus!
