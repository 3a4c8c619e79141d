//! KNighter and Clang Static Analyzer reports: a directory of HTML reports, each
//! carrying its bug's facts in comments such as `<!-- BUGTYPE Memory leak -->`.

use vstd::prelude::*;
use crate::text::{chars_of, find_from, find_in, labeled, lemma_find_from, string_of};

verus! {

/// The comment that introduces the fact `tag`: `<!-- TAG `.
pub open spec fn comment_marker(tag: Seq<char>) -> Seq<char> {
    "<!-- "@ + tag + " "@
}

/// The fact `tag` of a report: what follows the first `<!-- TAG ` up to the next
/// ` -->` (or to the end); `?` where the report does not have it.
pub open spec fn comment_value(s: Seq<char>, tag: Seq<char>) -> Seq<char> {
    match find_from(s, comment_marker(tag), 0) {
        Some(k) => {
            let a = k + comment_marker(tag).len();
            match find_from(s, " -->"@, a) {
                Some(e) => s.subrange(a, e),
                None => s.subrange(a, s.len() as int),
            }
        },
        None => "?"@,
    }
}

/// Whether an HTML file is a bug report: it names a bug type.
pub open spec fn is_bug_report(s: Seq<char>) -> bool {
    find_from(s, comment_marker("BUGTYPE"@), 0) is Some
}

/// The report of one HTML bug report.
pub open spec fn html_row(s: Seq<char>) -> Seq<Seq<char>> {
    seq![
        "Bug Type: "@ + comment_value(s, "BUGTYPE"@),
        "Bug Category: "@ + comment_value(s, "BUGCATEGORY"@),
        "Bug File: "@ + comment_value(s, "BUGFILE"@),
        "Bug Line: "@ + comment_value(s, "BUGLINE"@),
        "Function: "@ + comment_value(s, "FUNCTIONNAME"@),
        "Description: "@ + comment_value(s, "BUGDESC"@),
    ]
}

/// One report per bug report among the HTML files, in the order of the files; other
/// HTML files (an index page) give none.
pub open spec fn html_rows(docs: Seq<Seq<char>>) -> Seq<Seq<Seq<char>>>
    decreases docs.len(),
{
    if docs.len() == 0 {
        Seq::empty()
    } else if is_bug_report(docs.last()) {
        html_rows(docs.drop_last()).push(html_row(docs.last()))
    } else {
        html_rows(docs.drop_last())
    }
}

fn marker_chars(tag: &str) -> (res: Vec<char>)
    ensures
        res@ == comment_marker(tag@),
{
    let mut m = String::from_str("<!-- ");
    m.append(tag);
    m.append(" ");
    chars_of(m.as_str())
}

fn comment_value_of(doc: &str, cs: &Vec<char>, tag: &str) -> (res: String)
    requires
        cs@ == doc@,
    ensures
        res@ == comment_value(doc@, tag@),
{
    let m = marker_chars(tag);
    let n = cs.len();
    let close = chars_of(" -->");
    match find_in(cs, &m, 0) {
        Some(k) => {
            proof {
                lemma_find_from(doc@, m@, 0);
                assert(k + m@.len() <= n);
            }
            let a = k + m.len();
            match find_in(cs, &close, a) {
                Some(e) => {
                    proof {
                        lemma_find_from(doc@, close@, a as int);
                    }
                    string_of(doc, a, e)
                },
                None => string_of(doc, a, cs.len()),
            }
        },
        None => String::from_str("?"),
    }
}

/// The report of one HTML bug report.
pub fn html_report_row(doc: &str) -> (res: Vec<String>)
    ensures
        res.deep_view() == html_row(doc@),
{
    let cs = chars_of(doc);
    let mut row: Vec<String> = Vec::new();
    row.push(labeled("Bug Type: ", comment_value_of(doc, &cs, "BUGTYPE").as_str()));
    row.push(labeled("Bug Category: ", comment_value_of(doc, &cs, "BUGCATEGORY").as_str()));
    row.push(labeled("Bug File: ", comment_value_of(doc, &cs, "BUGFILE").as_str()));
    row.push(labeled("Bug Line: ", comment_value_of(doc, &cs, "BUGLINE").as_str()));
    row.push(labeled("Function: ", comment_value_of(doc, &cs, "FUNCTIONNAME").as_str()));
    row.push(labeled("Description: ", comment_value_of(doc, &cs, "BUGDESC").as_str()));
    assert(row.deep_view() =~= html_row(doc@));
    row
}

/// Parses the HTML files of a KNighter or Clang Static Analyzer report directory:
/// one report per file that is a bug report, in the order of the files.
pub fn parse_html_reports(docs: &Vec<String>) -> (res: Vec<Vec<String>>)
    ensures
        res.deep_view() == html_rows(docs.deep_view()),
{
    let ghost all = docs.deep_view();
    let mut rows: Vec<Vec<String>> = Vec::new();
    for i in 0..docs.len()
        invariant
            all == docs.deep_view(),
            rows.deep_view() =~= html_rows(all.take(i as int)),
    {
        assert(all.take(i + 1).drop_last() =~= all.take(i as int));
        assert(all.take(i + 1).last() == docs@[i as int]@);
        let cs = chars_of(docs[i].as_str());
        let m = marker_chars("BUGTYPE");
        if find_in(&cs, &m, 0).is_some() {
            let row = html_report_row(docs[i].as_str());
            let ghost prev = rows.deep_view();
            rows.push(row);
            assert(rows.deep_view() =~= prev.push(row.deep_view()));
        }
    }
    assert(all.take(docs.len() as int) =~= all);
    rows
}

} // verus!
