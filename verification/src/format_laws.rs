//! What each format's reports are, stated over the input document itself: how many
//! reports there are, which part of the input each comes from, and what its lines say.

use vstd::prelude::*;
use crate::formats::codeql::{codeql_row, csv_records};
use crate::formats::html::{comment_value, html_row, html_rows, is_bug_report};
use crate::formats::iris::iris_reports;
use crate::formats::llmdfa::llmdfa_row;
use crate::formats::markdown::{finding_row, finding_text, heading_at, headings_from, markdown_rows};
use crate::formats::repoaudit::{project_path, repoaudit_rows};
use crate::formats::spotbugs::{bug_rows, spotbugs_rows};
use crate::parse::{sast_reports, ReportInput};
use crate::utils::config::{spec_sast_name, SAST};
use crate::formats::inferroi::{inferroi_file_rows, inferroi_row, inferroi_rows, intentions_text, leaks_text};
use crate::formats::sarif::{code_flows_text, sarif_results, sarif_row};
use crate::formats::spotbugs::{
    is_child_tagged, source_line_text, source_lines, spotbugs_row, string_values,
};
use crate::json::{
    array_items, field, item, items_or_empty, lookup, object_entries, slot, text_or_empty,
    unsigned_or_zero, Json,
};
use crate::text::{
    after_first, before_first, decimal, find_from, last_piece_from, last_split_piece, matches_at,
    seq_concat, seq_join,
};
use crate::xml::{attribute, attribute_or, has_tag, XmlNodeView};

verus! {

/// The reports of a SARIF document (what `parse_sarif_report` returns) are one per
/// entry of `runs[0].results`, in order: report `i` names the rule and the message of
/// result `i`. A document without that array has no reports.
pub proof fn law_sarif_report_per_result(doc: Json)
    ensures
        array_items(field(item(field(Some(doc), "runs"@), 0), "results"@)) is None
            ==> sarif_results(doc) is None,
        array_items(field(item(field(Some(doc), "runs"@), 0), "results"@)) is Some ==> {
            let results = array_items(field(item(field(Some(doc), "runs"@), 0), "results"@))->0;
            let rows = sarif_results(doc)->0.map_values(|r: Json| sarif_row(r));
            &&& sarif_results(doc) is Some
            &&& rows.len() == results.len()
            &&& forall|i: int|
                0 <= i < results.len() ==> {
                    &&& (#[trigger] rows[i]).len() >= 3
                    &&& rows[i][0] == "Rule ID: "@ + text_or_empty(field(Some(results[i]), "ruleId"@))
                    &&& rows[i][1] == "Message: "@ + text_or_empty(
                        field(field(Some(results[i]), "message"@), "text"@),
                    )
                }
        },
{
}

/// The number of elements in the top-level arrays of `files`, file after file.
pub open spec fn elements_before(files: Seq<Json>, f: int) -> int
    decreases f,
{
    if f <= 0 {
        0
    } else {
        elements_before(files, f - 1) + items_or_empty(Some(files[f - 1])).len()
    }
}

proof fn lemma_elements_before_mono(files: Seq<Json>, f: int, g: int)
    requires
        0 <= f <= g,
    ensures
        elements_before(files, f) <= elements_before(files, g),
    decreases g - f,
{
    if f < g {
        lemma_elements_before_mono(files, f, g - 1);
    }
}

proof fn lemma_elements_before_prefix(files: Seq<Json>, n: int, f: int)
    requires
        0 <= f <= n <= files.len(),
    ensures
        elements_before(files.take(n), f) == elements_before(files, f),
    decreases f,
{
    if f > 0 {
        lemma_elements_before_prefix(files, n, f - 1);
        assert(files.take(n)[f - 1] == files[f - 1]);
    }
}

/// The reports of an InferROI directory (what `parse_inferroi_report` returns) are one
/// per element of each file's top-level array, file after file and element after
/// element: the element `k` of file `f` gives report `elements_before(files, f) + k`,
/// which names its method and holds its source code.
pub proof fn law_inferroi_report_per_element(files: Seq<Json>)
    ensures
        inferroi_rows(files).len() == elements_before(files, files.len() as int),
        forall|f: int, k: int|
            0 <= f < files.len() && 0 <= k < items_or_empty(Some(files[f])).len() ==> {
                let row = #[trigger] inferroi_rows(files)[elements_before(files, f) + k];
                let finding = items_or_empty(Some(files[f]))[k];
                &&& row.len() == 4
                &&& row[0] == "Method Name: "@ + text_or_empty(field(Some(finding), "method_name"@))
                &&& row[1] == "Source Code:\n"@ + text_or_empty(field(Some(finding), "source"@))
            },
    decreases files.len(),
{
    if files.len() > 0 {
        let init = files.drop_last();
        law_inferroi_report_per_element(init);
        let per = files.map_values(|d: Json| inferroi_file_rows(d));
        assert(per.drop_last() =~= init.map_values(|d: Json| inferroi_file_rows(d)));
        let head = inferroi_rows(init);
        let last = inferroi_file_rows(files.last());
        assert(inferroi_rows(files) == head + last);
        assert forall|f: int| 0 <= f <= init.len() implies elements_before(init, f)
            == elements_before(files, f) by {
            assert(init =~= files.take(init.len() as int));
            lemma_elements_before_prefix(files, init.len() as int, f);
        }
        assert forall|f: int, k: int|
            0 <= f < files.len() && 0 <= k < items_or_empty(Some(files[f])).len() implies {
                let row = #[trigger] inferroi_rows(files)[elements_before(files, f) + k];
                let finding = items_or_empty(Some(files[f]))[k];
                &&& row.len() == 4
                &&& row[0] == "Method Name: "@ + text_or_empty(field(Some(finding), "method_name"@))
                &&& row[1] == "Source Code:\n"@ + text_or_empty(field(Some(finding), "source"@))
            } by {
            if f < init.len() {
                assert(init[f] == files[f]);
                lemma_elements_before_mono(init, f + 1, init.len() as int);
                assert(elements_before(init, f + 1) == elements_before(init, f) + items_or_empty(
                    Some(init[f]),
                ).len());
                assert(elements_before(init, f) + k < head.len());
                lemma_elements_before_mono(init, 0, f);
                lemma_elements_before_prefix(files, init.len() as int, f);
                assert(elements_before(init, f) == elements_before(files, f));
                assert((head + last)[elements_before(init, f) + k] == head[elements_before(init, f) + k]);
                assert(inferroi_rows(files)[elements_before(files, f) + k] == head[elements_before(
                    init,
                    f,
                ) + k]);
            } else {
                assert(inferroi_rows(files)[elements_before(files, f) + k] == last[k]);
            }
        }
    }
}

/// The SourceLine children of a bug instance, in document order.
pub open spec fn source_line_nodes(nodes: Seq<XmlNodeView>, bug: usize) -> Seq<XmlNodeView> {
    nodes.filter(|n: XmlNodeView| is_child_tagged(n, bug, "SourceLine"@))
}

/// The String children of a bug instance with role `role` and a value, in document
/// order.
pub open spec fn method_nodes(nodes: Seq<XmlNodeView>, bug: usize, role: Seq<char>) -> Seq<
    XmlNodeView,
> {
    nodes.filter(
        |n: XmlNodeView|
            is_child_tagged(n, bug, "String"@) && attribute(n, "role"@) == Some(role) && attribute(
                n,
                "value"@,
            ) is Some,
    )
}

proof fn lemma_source_lines_filter(nodes: Seq<XmlNodeView>, bug: usize)
    ensures
        source_lines(nodes, bug) == source_line_nodes(nodes, bug).map_values(
            |n: XmlNodeView| source_line_text(n),
        ),
    decreases nodes.len(),
{
    reveal_with_fuel(Seq::filter, 1);
    if nodes.len() > 0 {
        lemma_source_lines_filter(nodes.drop_last(), bug);
        let prev = source_line_nodes(nodes.drop_last(), bug);
        if is_child_tagged(nodes.last(), bug, "SourceLine"@) {
            assert(source_line_nodes(nodes, bug) == prev.push(nodes.last()));
            assert(prev.push(nodes.last()).map_values(|n: XmlNodeView| source_line_text(n))
                =~= prev.map_values(|n: XmlNodeView| source_line_text(n)).push(
                source_line_text(nodes.last()),
            ));
        } else {
            assert(source_line_nodes(nodes, bug) == prev);
        }
    } else {
        assert(source_line_nodes(nodes, bug).map_values(|n: XmlNodeView| source_line_text(n))
            =~= Seq::<Seq<char>>::empty());
    }
}

proof fn lemma_string_values_filter(nodes: Seq<XmlNodeView>, bug: usize, role: Seq<char>)
    ensures
        string_values(nodes, bug, role) == method_nodes(nodes, bug, role).map_values(
            |n: XmlNodeView| attribute(n, "value"@)->0,
        ),
    decreases nodes.len(),
{
    reveal_with_fuel(Seq::filter, 1);
    if nodes.len() > 0 {
        lemma_string_values_filter(nodes.drop_last(), bug, role);
        let prev = method_nodes(nodes.drop_last(), bug, role);
        let n = nodes.last();
        if is_child_tagged(n, bug, "String"@) && attribute(n, "role"@) == Some(role) && attribute(
            n,
            "value"@,
        ) is Some {
            assert(method_nodes(nodes, bug, role) == prev.push(n));
            assert(prev.push(n).map_values(|m: XmlNodeView| attribute(m, "value"@)->0)
                =~= prev.map_values(|m: XmlNodeView| attribute(m, "value"@)->0).push(
                attribute(n, "value"@)->0,
            ));
        } else {
            assert(method_nodes(nodes, bug, role) == prev);
        }
    } else {
        assert(method_nodes(nodes, bug, role).map_values(|m: XmlNodeView| attribute(m, "value"@)->0)
            =~= Seq::<Seq<char>>::empty());
    }
}

/// The report of a bug instance with source lines: each SourceLine child reads
/// `file from Line#start-Line#end` (`?` for what it lacks); its first is the buggy
/// line; every further SourceLine child is a related line, in document order, one per
/// line of the Related Lines entry, which is there exactly where there are further
/// ones; the sink and source methods are the values of its String children of those
/// roles, in document order, or `None`.
pub proof fn law_spotbugs_bug_report(nodes: Seq<XmlNodeView>, bug: XmlNodeView)
    requires
        source_line_nodes(nodes, bug.id).len() > 0,
    ensures
        ({
            let lines = source_line_nodes(nodes, bug.id).map_values(
                |n: XmlNodeView|
                    attribute_or(n, "sourcefile"@, "?"@) + " from Line#"@ + attribute_or(n, "start"@, "?"@)
                        + "-Line#"@ + attribute_or(n, "end"@, "?"@),
            );
            let sinks = method_nodes(nodes, bug.id, "Sink method"@).map_values(
                |n: XmlNodeView| attribute(n, "value"@)->0,
            );
            let sources = method_nodes(nodes, bug.id, "Unknown source"@).map_values(
                |n: XmlNodeView| attribute(n, "value"@)->0,
            );
            let row = spotbugs_row(nodes, bug);
            let k = row.len() - 2;
            &&& row[1] == "Buggy Line: "@ + lines[0]
            &&& lines.len() >= 2 ==> row.len() == 5 && row[2] == "Related Lines: "@ + seq_join(
                lines.drop_first(),
                "\n"@,
            )
            &&& lines.len() == 1 ==> row.len() == 4
            &&& row[k] == "Sink methods: "@ + (if sinks.len() == 0 {
                "None"@
            } else {
                seq_join(sinks, "; "@)
            })
            &&& row[k + 1] == "Source methods: "@ + (if sources.len() == 0 {
                "None"@
            } else {
                seq_join(sources, "; "@)
            })
        }),
{
    lemma_source_lines_filter(nodes, bug.id);
    assert(source_line_nodes(nodes, bug.id).map_values(|n: XmlNodeView| source_line_text(n))
        =~= source_line_nodes(nodes, bug.id).map_values(
        |n: XmlNodeView|
            attribute_or(n, "sourcefile"@, "?"@) + " from Line#"@ + attribute_or(n, "start"@, "?"@)
                + "-Line#"@ + attribute_or(n, "end"@, "?"@),
    ));
    lemma_string_values_filter(nodes, bug.id, "Sink method"@);
    lemma_string_values_filter(nodes, bug.id, "Unknown source"@);
    crate::laws::lemma_related_lines(nodes, bug);
}

/// The report of a CodeQL record (one per record of the CSV text, in order): as many
/// lines as there are both fields and columns, line `k` being the name of column `k`,
/// `": "`, and field `k`.
pub proof fn law_codeql_columns(record: Seq<Seq<char>>)
    ensures
        codeql_row(record).len() == if record.len() < 9 { record.len() as int } else { 9 },
        forall|k: int|
            0 <= k < codeql_row(record).len() ==> #[trigger] codeql_row(record)[k] == seq![
                "Rule Name"@,
                "Rule Description"@,
                "Severity"@,
                "Detailed Message"@,
                "Location-file"@,
                "Location-start-line"@,
                "Location-start-col"@,
                "Location-end-line"@,
                "Location-end-col"@,
            ][k] + ": "@ + record[k],
{
}

/// The location line of a SARIF result: each of its locations as `uri:startLine:rule`
/// (the line 0 where it has none), joined by `"; "`.
pub proof fn law_sarif_locations(result: Json)
    ensures
        ({
            let rule = text_or_empty(field(Some(result), "ruleId"@));
            sarif_row(result)[2] == "Location: "@ + match array_items(field(Some(result), "locations"@)) {
                Some(locs) => seq_join(
                    Seq::new(
                        locs.len(),
                        |k: int|
                            text_or_empty(
                                field(
                                    field(field(Some(locs[k]), "physicalLocation"@), "artifactLocation"@),
                                    "uri"@,
                                ),
                            ) + ":"@ + decimal(
                                unsigned_or_zero(
                                    field(field(field(Some(locs[k]), "physicalLocation"@), "region"@), "startLine"@),
                                ) as nat,
                            ) + ":"@ + rule,
                    ),
                    "; "@,
                ),
                None => Seq::<char>::empty(),
            }
        }),
        sarif_row(result).len() == 4 ==> sarif_row(result)[3].subrange(0, 11) == "Code Flow:\n"@,
{
    let rule = text_or_empty(field(Some(result), "ruleId"@));
    if let Some(locs) = array_items(field(Some(result), "locations"@)) {
        assert(locs.map_values(|l: Json| crate::formats::sarif::location_text(l, rule)) =~= Seq::new(
            locs.len(),
            |k: int|
                text_or_empty(
                    field(field(field(Some(locs[k]), "physicalLocation"@), "artifactLocation"@), "uri"@),
                ) + ":"@ + decimal(
                    unsigned_or_zero(
                        field(field(field(Some(locs[k]), "physicalLocation"@), "region"@), "startLine"@),
                    ) as nat,
                ) + ":"@ + rule,
        ));
    }
    if sarif_row(result).len() == 4 {
        reveal_strlit("Code Flow:\n");
        let line = sarif_row(result)[3];
        assert(line.subrange(0, 11) =~= "Code Flow:\n"@);
    }
}

/// The reports of an IRIS array (what `parse_iris_report` returns for one) are one per
/// element, in order, read from the element's `entry` as a SARIF result: report `i`
/// names the rule and the message of the entry of element `i`. An IRIS document that
/// is no array is read as SARIF.
pub proof fn law_iris_report_per_element(doc: Json)
    ensures
        array_items(Some(doc)) matches Some(items) ==> {
            let rows = iris_reports(doc)->0;
            &&& iris_reports(doc) is Some
            &&& rows.len() == items.len()
            &&& forall|i: int|
                0 <= i < items.len() ==> {
                    let entry = field(Some(items[i]), "entry"@);
                    &&& (#[trigger] rows[i]).len() >= 3
                    &&& rows[i][0] == "Rule ID: "@ + text_or_empty(field(entry, "ruleId"@))
                    &&& rows[i][1] == "Message: "@ + text_or_empty(field(field(entry, "message"@), "text"@))
                }
        },
        array_items(Some(doc)) is None ==> iris_reports(doc) == match sarif_results(doc) {
            Some(results) => Some(results.map_values(|r: Json| sarif_row(r))),
            None => None,
        },
{
}

/// The reports of an LLMDFA array are one per element, in order: the element's
/// report string after `Report: `.
pub proof fn law_llmdfa_report_per_element(items: Seq<Json>)
    ensures
        items.map_values(|r: Json| llmdfa_row(r)).len() == items.len(),
        forall|i: int|
            #![trigger items[i]]
            0 <= i < items.len() ==> items.map_values(|r: Json| llmdfa_row(r))[i] == seq![
                "Report: "@ + text_or_empty(Some(items[i])),
            ],
{
}

/// The reports of a RepoAudit object (what `parse_repoaudit_report` returns) are one
/// per member, in the object's order, each read from the member its key finds: its
/// bug type, buggy value, one `File path: …, Func: …` line per relevant file (the
/// path relative to its project, and the function at the same place), and its
/// explanation. A document that is no object has none.
pub proof fn law_repoaudit_report_per_member(doc: Json)
    ensures
        object_entries(Some(doc)) is None ==> repoaudit_rows(doc).len() == 0,
        object_entries(Some(doc)) matches Some(entries) ==> {
            &&& repoaudit_rows(doc).len() == entries.len()
            &&& forall|i: int|
                0 <= i < entries.len() ==> {
                    let r = lookup(entries, entries[i].0@)->0;
                    let values = items_or_empty(field(Some(r), "relevant_functions"@));
                    let files = items_or_empty(slot(values, 0));
                    let funcs = items_or_empty(slot(values, 1));
                    let row = #[trigger] repoaudit_rows(doc)[i];
                    &&& row.len() == 4
                    &&& row[0] == "Reported Bug Type: "@ + text_or_empty(field(Some(r), "bug_type"@))
                    &&& row[1] == "Buggy Value: "@ + text_or_empty(field(Some(r), "buggy_value"@))
                    &&& row[2] == "Relevant Code:\n"@ + seq_concat(
                        Seq::new(
                            files.len(),
                            |k: int|
                                "File path: "@ + project_path(text_or_empty(slot(files, k)))
                                    + ", Func: "@ + text_or_empty(slot(funcs, k)) + "\n"@,
                        ),
                    )
                    &&& row[3] == "Explaination: "@ + text_or_empty(field(Some(r), "explanation"@))
                }
        },
{
    if let Some(entries) = object_entries(Some(doc)) {
        assert forall|i: int| #![trigger entries[i]] 0 <= i < entries.len() implies {
            let r = lookup(entries, entries[i].0@)->0;
            let values = items_or_empty(field(Some(r), "relevant_functions"@));
            let files = items_or_empty(slot(values, 0));
            let funcs = items_or_empty(slot(values, 1));
            crate::formats::repoaudit::relevant_code(r) == seq_concat(
                Seq::new(
                    files.len(),
                    |k: int|
                        "File path: "@ + project_path(text_or_empty(slot(files, k))) + ", Func: "@
                            + text_or_empty(slot(funcs, k)) + "\n"@,
                ),
            )
        } by {
            let r = lookup(entries, entries[i].0@)->0;
            let values = items_or_empty(field(Some(r), "relevant_functions"@));
            let files = items_or_empty(slot(values, 0));
            let funcs = items_or_empty(slot(values, 1));
            assert(Seq::new(
                files.len(),
                |k: int| crate::formats::repoaudit::relevant_line(files, funcs, k),
            ) =~= Seq::new(
                files.len(),
                |k: int|
                    "File path: "@ + project_path(text_or_empty(slot(files, k))) + ", Func: "@
                        + text_or_empty(slot(funcs, k)) + "\n"@,
            ));
        }
    }
}

/// What follows the first `c` in `s` is everything after the position `k` of that first
/// `c`.
pub proof fn law_after_first(s: Seq<char>, c: char, k: int)
    requires
        0 <= k < s.len(),
        s[k] == c,
        forall|j: int| 0 <= j < k ==> s[j] != c,
    ensures
        after_first(s, c) == s.skip(k + 1),
    decreases k,
{
    if k > 0 {
        law_after_first(s.drop_first(), c, k - 1);
        assert(s.drop_first().skip(k) =~= s.skip(k + 1));
    }
}

/// Where `c` does not occur in `s`, nothing follows it.
pub proof fn law_after_first_absent(s: Seq<char>, c: char)
    requires
        forall|j: int| 0 <= j < s.len() ==> s[j] != c,
    ensures
        after_first(s, c).len() == 0,
    decreases s.len(),
{
    if s.len() > 0 {
        law_after_first_absent(s.drop_first(), c);
    }
}

/// The bug instances of a SpotBugs document, in document order.
pub open spec fn bug_nodes(nodes: Seq<XmlNodeView>) -> Seq<XmlNodeView> {
    nodes.filter(|n: XmlNodeView| has_tag(n, "BugInstance"@))
}

proof fn lemma_bug_rows_filter(nodes: Seq<XmlNodeView>, upto: Seq<XmlNodeView>)
    ensures
        bug_rows(nodes, upto) == bug_nodes(upto).map_values(|b: XmlNodeView| spotbugs_row(nodes, b)),
    decreases upto.len(),
{
    reveal_with_fuel(Seq::filter, 1);
    if upto.len() > 0 {
        lemma_bug_rows_filter(nodes, upto.drop_last());
        let prev = bug_nodes(upto.drop_last());
        if has_tag(upto.last(), "BugInstance"@) {
            assert(bug_nodes(upto) == prev.push(upto.last()));
            assert(prev.push(upto.last()).map_values(|b: XmlNodeView| spotbugs_row(nodes, b))
                =~= prev.map_values(|b: XmlNodeView| spotbugs_row(nodes, b)).push(
                spotbugs_row(nodes, upto.last()),
            ));
        } else {
            assert(bug_nodes(upto) == prev);
        }
    } else {
        assert(bug_nodes(upto).map_values(|b: XmlNodeView| spotbugs_row(nodes, b)) =~= Seq::<
            Seq<Seq<char>>,
        >::empty());
    }
}

/// The reports of a SpotBugs document (what `parse_spotbugs_report` returns) are one
/// per `BugInstance` element, in document order, each naming its bug type (`?` where
/// it has none).
pub proof fn law_spotbugs_report_per_bug(nodes: Seq<XmlNodeView>)
    ensures
        spotbugs_rows(nodes).len() == bug_nodes(nodes).len(),
        forall|i: int|
            0 <= i < bug_nodes(nodes).len() ==> #[trigger] spotbugs_rows(nodes)[i] == spotbugs_row(
                nodes,
                bug_nodes(nodes)[i],
            ) && spotbugs_rows(nodes)[i][0] == "Reported Bug Type: "@ + attribute_or(
                bug_nodes(nodes)[i],
                "type"@,
                "?"@,
            ),
{
    lemma_bug_rows_filter(nodes, nodes);
}

proof fn lemma_headings_complete(s: Seq<char>, p: int, q: int)
    requires
        0 <= p <= q < s.len(),
        heading_at(s, q),
    ensures
        headings_from(s, p).contains(q),
    decreases q - p,
{
    if p == q {
        assert(headings_from(s, p)[0] == q);
    } else {
        lemma_headings_complete(s, p + 1, q);
        let rest = headings_from(s, p + 1);
        let k = choose|k: int| 0 <= k < rest.len() && rest[k] == q;
        if heading_at(s, p) {
            assert(headings_from(s, p)[k + 1] == q);
        } else {
            assert(headings_from(s, p)[k] == q);
        }
    }
}

/// The findings of a Markdown report (what `parse_markdown_report` returns) are the
/// lines that start with `## Report#`, every one of them, in file order: report `i`
/// begins at heading `i`, its first line being the heading without `## ` and its
/// second the lines below the heading, up to the next heading.
pub proof fn law_markdown_report_per_heading(s: Seq<char>)
    ensures
        ({
            let h = headings_from(s, 0);
            &&& markdown_rows(s).len() == h.len()
            &&& forall|p: int| 0 <= p < s.len() && heading_at(s, p) ==> #[trigger] h.contains(p)
            &&& forall|i: int| 0 <= i < h.len() ==> heading_at(s, #[trigger] h[i])
            &&& forall|i: int, j: int| 0 <= i < j < h.len() ==> #[trigger] h[i] < #[trigger] h[j]
            &&& forall|i: int|
                0 <= i < h.len() ==> {
                    let end = if i + 1 < h.len() { h[i + 1] } else { s.len() as int };
                    let text = s.subrange(h[i] + 3, end);
                    &&& (#[trigger] markdown_rows(s)[i]).len() == 2
                    &&& markdown_rows(s)[i][0] == "Finding: "@ + before_first(text, '\n')
                    &&& markdown_rows(s)[i][1] == "Details:\n"@ + after_first(text, '\n')
                }
        }),
{
    crate::formats::markdown::lemma_headings_public(s);
    assert forall|p: int| 0 <= p < s.len() && heading_at(s, p) implies #[trigger] headings_from(
        s,
        0,
    ).contains(p) by {
        lemma_headings_complete(s, 0, p);
    }
}

proof fn lemma_html_rows_filter(docs: Seq<Seq<char>>)
    ensures
        html_rows(docs) == docs.filter(|d: Seq<char>| is_bug_report(d)).map_values(
            |d: Seq<char>| html_row(d),
        ),
    decreases docs.len(),
{
    reveal_with_fuel(Seq::filter, 1);
    if docs.len() > 0 {
        lemma_html_rows_filter(docs.drop_last());
        let prev = docs.drop_last().filter(|d: Seq<char>| is_bug_report(d));
        if is_bug_report(docs.last()) {
            assert(docs.filter(|d: Seq<char>| is_bug_report(d)) == prev.push(docs.last()));
            assert(prev.push(docs.last()).map_values(|d: Seq<char>| html_row(d)) =~= prev.map_values(
                |d: Seq<char>| html_row(d),
            ).push(html_row(docs.last())));
        } else {
            assert(docs.filter(|d: Seq<char>| is_bug_report(d)) == prev);
        }
    } else {
        assert(docs.filter(|d: Seq<char>| is_bug_report(d)).map_values(|d: Seq<char>| html_row(d))
            =~= Seq::<Seq<Seq<char>>>::empty());
    }
}

/// The reports of a directory of HTML reports (what `parse_html_reports` returns) are
/// one per file that names a bug type, in the order of the files, each giving the
/// facts its comments record under their own labels.
pub proof fn law_html_report_per_bug_file(docs: Seq<Seq<char>>)
    ensures
        html_rows(docs) == docs.filter(|d: Seq<char>| is_bug_report(d)).map_values(
            |d: Seq<char>| html_row(d),
        ),
        forall|d: Seq<char>|
            #[trigger] html_row(d) == seq![
                "Bug Type: "@ + comment_value(d, "BUGTYPE"@),
                "Bug Category: "@ + comment_value(d, "BUGCATEGORY"@),
                "Bug File: "@ + comment_value(d, "BUGFILE"@),
                "Bug Line: "@ + comment_value(d, "BUGLINE"@),
                "Function: "@ + comment_value(d, "FUNCTIONNAME"@),
                "Description: "@ + comment_value(d, "BUGDESC"@),
            ],
{
    lemma_html_rows_filter(docs);
}

/// The name of each tool, as the configuration spells it.
pub proof fn law_sast_names()
    ensures
        spec_sast_name(SAST::REPOAUDIT) == "repoaudit"@,
        spec_sast_name(SAST::KNIGHTER) == "knighter"@,
        spec_sast_name(SAST::LLMDFA) == "llmdfa"@,
        spec_sast_name(SAST::IRIS) == "iris"@,
        spec_sast_name(SAST::INFERROI) == "inferroi"@,
        spec_sast_name(SAST::CODEQL) == "codeql"@,
        spec_sast_name(SAST::SEMGREP) == "semgrep"@,
        spec_sast_name(SAST::CSA) == "csa"@,
        spec_sast_name(SAST::SPOTBUGS) == "spotbugs"@,
        spec_sast_name(SAST::Codex) == "codex"@,
        spec_sast_name(SAST::ClaudeCode) == "claudecode"@,
{
}

/// Each tool's input is read by its own format: CodeQL text as CSV records, Semgrep
/// documents as SARIF, IRIS documents as IRIS, SpotBugs text as XML, RepoAudit and
/// LLMDFA documents, InferROI files, KNighter and CSA HTML files, codex and
/// claudecode Markdown text, each by the format of that name.
pub proof fn law_tools_use_their_formats(t: String, d: Json, files: Vec<Json>, docs: Vec<String>)
    ensures
        sast_reports(ReportInput::Text(t), SAST::CODEQL) is Ok <==> csv_records(t@) is Some,
        csv_records(t@) matches Some(records) ==> sast_reports(ReportInput::Text(t), SAST::CODEQL)
            == Ok::<Seq<Seq<Seq<char>>>, Seq<char>>(records.map_values(|r: Seq<Seq<char>>| codeql_row(r))),
        sast_reports(ReportInput::Document(d), SAST::SEMGREP) is Ok <==> sarif_results(d) is Some,
        sarif_results(d) matches Some(results) ==> sast_reports(ReportInput::Document(d), SAST::SEMGREP)
            == Ok::<Seq<Seq<Seq<char>>>, Seq<char>>(results.map_values(|r: Json| sarif_row(r))),
        iris_reports(d) matches Some(rows) ==> sast_reports(ReportInput::Document(d), SAST::IRIS)
            == Ok::<Seq<Seq<Seq<char>>>, Seq<char>>(rows),
        sast_reports(ReportInput::Document(d), SAST::IRIS) is Ok <==> iris_reports(d) is Some,
        crate::xml::xml_nodes(t@) matches Some(nodes) ==> sast_reports(ReportInput::Text(t), SAST::SPOTBUGS)
            == Ok::<Seq<Seq<Seq<char>>>, Seq<char>>(spotbugs_rows(nodes)),
        sast_reports(ReportInput::Document(d), SAST::REPOAUDIT) == Ok::<Seq<Seq<Seq<char>>>, Seq<char>>(
            repoaudit_rows(d),
        ),
        sast_reports(ReportInput::Documents(files), SAST::INFERROI) == Ok::<Seq<Seq<Seq<char>>>, Seq<char>>(
            inferroi_rows(files@),
        ),
        array_items(Some(d)) matches Some(items) ==> sast_reports(ReportInput::Document(d), SAST::LLMDFA)
            == Ok::<Seq<Seq<Seq<char>>>, Seq<char>>(items.map_values(|r: Json| llmdfa_row(r))),
        sast_reports(ReportInput::Texts(docs), SAST::KNIGHTER) == Ok::<Seq<Seq<Seq<char>>>, Seq<char>>(
            html_rows(docs.deep_view()),
        ),
        sast_reports(ReportInput::Texts(docs), SAST::CSA) == Ok::<Seq<Seq<Seq<char>>>, Seq<char>>(
            html_rows(docs.deep_view()),
        ),
        sast_reports(ReportInput::Text(t), SAST::Codex) == Ok::<Seq<Seq<Seq<char>>>, Seq<char>>(
            markdown_rows(t@),
        ),
        sast_reports(ReportInput::Text(t), SAST::ClaudeCode) == Ok::<Seq<Seq<Seq<char>>>, Seq<char>>(
            markdown_rows(t@),
        ),
{
}

/// Concatenation takes a list apart at any point: the concatenation of two lists is
/// the concatenation of the first followed by that of the second; a single piece is
/// itself, and no piece is nothing.
pub proof fn law_seq_concat<A>(a: Seq<Seq<A>>, b: Seq<Seq<A>>, x: Seq<A>)
    ensures
        seq_concat(a + b) == seq_concat(a) + seq_concat(b),
        seq_concat(seq![x]) == x,
        seq_concat(Seq::<Seq<A>>::empty()) == Seq::<A>::empty(),
    decreases b.len(),
{
    assert(seq![x].drop_last() =~= Seq::<Seq<A>>::empty());
    assert(seq_concat(seq![x].drop_last()) == Seq::<A>::empty());
    assert(Seq::<A>::empty() + x =~= x);
    assert(seq_concat(seq![x]) == x);
    if b.len() == 0 {
        assert(a + b =~= a);
        assert(seq_concat(a) + seq_concat(b) =~= seq_concat(a));
    } else {
        law_seq_concat(a, b.drop_last(), x);
        assert((a + b).drop_last() =~= a + b.drop_last());
        assert((a + b).last() == b.last());
        assert(seq_concat(a + b) =~= seq_concat(a) + seq_concat(b));
    }
}

/// Joining puts the separator before every item but the first: the first item, then
/// each further item after a separator.
pub proof fn law_seq_join(items: Seq<Seq<char>>, sep: Seq<char>)
    ensures
        items.len() == 0 ==> seq_join(items, sep) == Seq::<char>::empty(),
        items.len() > 0 ==> seq_join(items, sep) == items[0] + seq_concat(
            Seq::new((items.len() - 1) as nat, |k: int| sep + items[k + 1]),
        ),
    decreases items.len(),
{
    if items.len() == 1 {
        assert(Seq::new((items.len() - 1) as nat, |k: int| sep + items[k + 1]) =~= Seq::<
            Seq<char>,
        >::empty());
        assert(items[0] + Seq::<char>::empty() =~= items[0]);
    } else if items.len() > 1 {
        let init = items.drop_last();
        law_seq_join(init, sep);
        let tail = Seq::new((items.len() - 1) as nat, |k: int| sep + items[k + 1]);
        let init_tail = Seq::new((init.len() - 1) as nat, |k: int| sep + init[k + 1]);
        assert(tail =~= init_tail + seq![sep + items.last()]);
        law_seq_concat(init_tail, seq![sep + items.last()], sep + items.last());
        assert(seq_join(items, sep) =~= items[0] + seq_concat(tail));
    }
}

/// A lookup by key finds the first member with that key, and nothing where no member
/// has it.
pub proof fn law_lookup_first(entries: Seq<(String, Json)>, key: Seq<char>, k: int)
    ensures
        (forall|i: int| 0 <= i < entries.len() ==> (#[trigger] entries[i]).0@ != key) ==> lookup(
            entries,
            key,
        ) is None,
        (0 <= k < entries.len() && entries[k].0@ == key && forall|j: int|
            0 <= j < k ==> (#[trigger] entries[j]).0@ != key) ==> lookup(entries, key) == Some(
            entries[k].1,
        ),
    decreases entries.len(),
{
    if entries.len() > 0 {
        law_lookup_first(entries.drop_first(), key, k - 1);
        if forall|i: int| 0 <= i < entries.len() ==> (#[trigger] entries[i]).0@ != key {
            assert(entries[0].0@ != key);
            assert forall|i: int| 0 <= i < entries.drop_first().len() implies (
            #[trigger] entries.drop_first()[i]).0@ != key by {
                assert(entries.drop_first()[i] == entries[i + 1]);
            }
        }
        if 0 < k < entries.len() && entries[k].0@ == key && forall|j: int|
            0 <= j < k ==> (#[trigger] entries[j]).0@ != key {
            assert(entries[0].0@ != key);
            assert(entries.drop_first()[k - 1] == entries[k]);
            assert forall|j: int| 0 <= j < k - 1 implies (#[trigger] entries.drop_first()[j]).0@
                != key by {
                assert(entries.drop_first()[j] == entries[j + 1]);
            }
        }
    }
}

/// A search finds the first occurrence of the pattern at or after its start, and
/// nothing where there is none.
pub proof fn law_find_first(s: Seq<char>, pat: Seq<char>, i: int)
    requires
        0 <= i,
    ensures
        find_from(s, pat, i) matches Some(k) ==> i <= k && matches_at(s, pat, k) && forall|j: int|
            i <= j < k ==> !#[trigger] matches_at(s, pat, j),
        find_from(s, pat, i) is None ==> forall|j: int| i <= j ==> !#[trigger] matches_at(s, pat, j),
    decreases s.len() + 1 - i,
{
    if i + pat.len() <= s.len() && !matches_at(s, pat, i) {
        law_find_first(s, pat, i + 1);
        assert forall|j: int| i <= j && find_from(s, pat, i) is None implies !#[trigger] matches_at(
            s,
            pat,
            j,
        ) by {
            if j > i {
            }
        }
    }
}

/// What precedes the first `c` in `s` is everything before the position `k` of that
/// first `c`.
pub proof fn law_before_first(s: Seq<char>, c: char, k: int)
    requires
        0 <= k < s.len(),
        s[k] == c,
        forall|j: int| 0 <= j < k ==> s[j] != c,
    ensures
        before_first(s, c) == s.take(k),
    decreases k,
{
    if k > 0 {
        law_before_first(s.drop_first(), c, k - 1);
        assert(seq![s[0]] + s.drop_first().take(k - 1) =~= s.take(k));
    } else {
        assert(s.take(0) =~= Seq::<char>::empty());
    }
}

/// The intentions and leaks of an InferROI finding: one line
/// `Line: …, … resource, resource: …, resource type: …` per intention that is an array,
/// in order; and per member of `leaks`, in order, its key, type and path (the path's
/// steps one per line).
pub proof fn law_inferroi_intentions_and_leaks(report: Json)
    ensures
        ({
            let ints = items_or_empty(field(Some(report), "intensions"@));
            inferroi_row(report)[2] == "Intensions:\n"@ + seq_concat(
                Seq::new(
                    ints.len(),
                    |k: int|
                        match array_items(Some(ints[k])) {
                            Some(p) => "Line: "@ + text_or_empty(slot(p, 0)) + ", "@ + text_or_empty(
                                slot(p, 1),
                            ) + " resource, resource: "@ + text_or_empty(slot(p, 2))
                                + ", resource type: "@ + text_or_empty(slot(p, 3)) + "\n"@,
                            None => Seq::<char>::empty(),
                        },
                ),
            )
        }),
        inferroi_row(report)[3] == "Leaks:\n"@ + match object_entries(field(Some(report), "leaks"@)) {
            Some(es) => seq_concat(
                Seq::new(
                    es.len(),
                    |k: int|
                        "Leak Value: "@ + es[k].0@ + ", Leak Type: "@ + text_or_empty(
                            field(Some(es[k].1), "type"@),
                        ) + ", Leak Path:\n"@ + match array_items(field(Some(es[k].1), "path"@)) {
                            Some(st) => seq_join(
                                Seq::new(st.len(), |m: int| text_or_empty(Some(st[m]))),
                                "\n"@,
                            ),
                            None => Seq::<char>::empty(),
                        },
                ),
            ),
            None => Seq::<char>::empty(),
        },
{
    let ints = items_or_empty(field(Some(report), "intensions"@));
    assert(ints.map_values(|x: Json| crate::formats::inferroi::intention_text(x)) =~= Seq::new(
        ints.len(),
        |k: int|
            match array_items(Some(ints[k])) {
                Some(p) => "Line: "@ + text_or_empty(slot(p, 0)) + ", "@ + text_or_empty(slot(p, 1))
                    + " resource, resource: "@ + text_or_empty(slot(p, 2)) + ", resource type: "@
                    + text_or_empty(slot(p, 3)) + "\n"@,
                None => Seq::<char>::empty(),
            },
    ));
    if let Some(es) = object_entries(field(Some(report), "leaks"@)) {
        assert forall|k: int| 0 <= k < es.len() implies #[trigger] crate::formats::inferroi::leak_path(
            es[k].1,
        ) == match array_items(field(Some(es[k].1), "path"@)) {
            Some(st) => seq_join(Seq::new(st.len(), |m: int| text_or_empty(Some(st[m]))), "\n"@),
            None => Seq::<char>::empty(),
        } by {
            if let Some(st) = array_items(field(Some(es[k].1), "path"@)) {
                assert(st.map_values(|x: Json| text_or_empty(Some(x))) =~= Seq::new(
                    st.len(),
                    |m: int| text_or_empty(Some(st[m])),
                ));
            }
        }
        assert(es.map_values(
            |e: (String, Json)| crate::formats::inferroi::leak_text(e.0@, e.1),
        ) =~= Seq::new(
            es.len(),
            |k: int|
                "Leak Value: "@ + es[k].0@ + ", Leak Type: "@ + text_or_empty(
                    field(Some(es[k].1), "type"@),
                ) + ", Leak Path:\n"@ + match array_items(field(Some(es[k].1), "path"@)) {
                    Some(st) => seq_join(Seq::new(st.len(), |m: int| text_or_empty(Some(st[m]))), "\n"@),
                    None => Seq::<char>::empty(),
                },
        ));
    }
}

/// One step of a code flow: `uri:line - message` and a line break.
pub open spec fn flow_step_line(step: Json) -> Seq<char> {
    text_or_empty(
        field(field(field(field(Some(step), "location"@), "physicalLocation"@), "artifactLocation"@), "uri"@),
    ) + ":"@ + decimal(
        unsigned_or_zero(
            field(field(field(field(Some(step), "location"@), "physicalLocation"@), "region"@), "startLine"@),
        ) as nat,
    ) + " - "@ + text_or_empty(field(field(Some(step), "message"@), "text"@)) + "\n"@
}

/// The code flow of a SARIF result: one line per step, for every step of every thread
/// flow of every code flow, in order; the report carries it exactly where there is a
/// step.
pub proof fn law_sarif_code_flows(result: Json)
    ensures
        ({
            let cfs = items_or_empty(field(Some(result), "codeFlows"@));
            code_flows_text(result) == seq_concat(
                Seq::new(
                    cfs.len(),
                    |a: int|
                        {
                            let tfs = items_or_empty(field(Some(cfs[a]), "threadFlows"@));
                            seq_concat(
                                Seq::new(
                                    tfs.len(),
                                    |b: int|
                                        {
                                            let st = items_or_empty(field(Some(tfs[b]), "locations"@));
                                            seq_concat(Seq::new(st.len(), |c: int| flow_step_line(st[c])))
                                        },
                                ),
                            )
                        },
                ),
            )
        }),
        sarif_row(result).len() == 4 <==> code_flows_text(result).len() > 0,
        sarif_row(result).len() == 4 ==> sarif_row(result)[3] == "Code Flow:\n"@ + code_flows_text(result),
{
    let cfs = items_or_empty(field(Some(result), "codeFlows"@));
    assert forall|a: int| 0 <= a < cfs.len() implies #[trigger] crate::formats::sarif::code_flow_text(
        cfs[a],
    ) == {
        let tfs = items_or_empty(field(Some(cfs[a]), "threadFlows"@));
        seq_concat(
            Seq::new(
                tfs.len(),
                |b: int|
                    {
                        let st = items_or_empty(field(Some(tfs[b]), "locations"@));
                        seq_concat(Seq::new(st.len(), |c: int| flow_step_line(st[c])))
                    },
            ),
        )
    } by {
        let tfs = items_or_empty(field(Some(cfs[a]), "threadFlows"@));
        assert forall|b: int| 0 <= b < tfs.len() implies #[trigger] crate::formats::sarif::thread_flow_text(
            tfs[b],
        ) == {
            let st = items_or_empty(field(Some(tfs[b]), "locations"@));
            seq_concat(Seq::new(st.len(), |c: int| flow_step_line(st[c])))
        } by {
            let st = items_or_empty(field(Some(tfs[b]), "locations"@));
            assert(st.map_values(|x: Json| crate::formats::sarif::step_text(x)) =~= Seq::new(
                st.len(),
                |c: int| flow_step_line(st[c]),
            ));
        }
        assert(tfs.map_values(|t: Json| crate::formats::sarif::thread_flow_text(t)) =~= Seq::new(
            tfs.len(),
            |b: int|
                {
                    let st = items_or_empty(field(Some(tfs[b]), "locations"@));
                    seq_concat(Seq::new(st.len(), |c: int| flow_step_line(st[c])))
                },
        ));
    }
    assert(cfs.map_values(|c: Json| crate::formats::sarif::code_flow_text(c)) =~= Seq::new(
        cfs.len(),
        |a: int|
            {
                let tfs = items_or_empty(field(Some(cfs[a]), "threadFlows"@));
                seq_concat(
                    Seq::new(
                        tfs.len(),
                        |b: int|
                            {
                                let st = items_or_empty(field(Some(tfs[b]), "locations"@));
                                seq_concat(Seq::new(st.len(), |c: int| flow_step_line(st[c])))
                            },
                    ),
                )
            },
    ));
}

/// The fact `tag` of an HTML report: where `<!-- TAG ` first occurs, at `k`, it is
/// what follows up to the first ` -->` after it, or to the end where none follows;
/// `?` where `<!-- TAG ` does not occur.
pub proof fn law_comment_value(s: Seq<char>, tag: Seq<char>, k: int, e: int)
    ensures
        (forall|j: int| !#[trigger] matches_at(s, "<!-- "@ + tag + " "@, j)) ==> comment_value(s, tag)
            == "?"@,
        (matches_at(s, "<!-- "@ + tag + " "@, k) && forall|j: int|
            0 <= j < k ==> !#[trigger] matches_at(s, "<!-- "@ + tag + " "@, j)) ==> {
            let a = k + tag.len() + 6;
            &&& (a <= e && matches_at(s, " -->"@, e) && forall|j: int|
                a <= j < e ==> !#[trigger] matches_at(s, " -->"@, j)) ==> comment_value(s, tag)
                == s.subrange(a, e)
            &&& (forall|j: int| a <= j ==> !#[trigger] matches_at(s, " -->"@, j)) ==> comment_value(
                s,
                tag,
            ) == s.subrange(a, s.len() as int)
        },
{
    reveal_strlit("<!-- ");
    reveal_strlit(" ");
    let m = "<!-- "@ + tag + " "@;
    assert(m.len() == tag.len() + 6);
    law_find_first(s, m, 0);
    if matches_at(s, m, k) && forall|j: int| 0 <= j < k ==> !#[trigger] matches_at(s, m, j) {
        assert(find_from(s, m, 0) == Some(k));
        let a = k + tag.len() + 6;
        law_find_first(s, " -->"@, a);
        if a <= e && matches_at(s, " -->"@, e) && forall|j: int|
            a <= j < e ==> !#[trigger] matches_at(s, " -->"@, j) {
            assert(find_from(s, " -->"@, a) == Some(e));
        }
    }
}

/// An HTML file is a bug report exactly where `<!-- BUGTYPE ` occurs in it.
pub proof fn law_is_bug_report(s: Seq<char>)
    ensures
        is_bug_report(s) <==> exists|k: int| #[trigger] matches_at(s, "<!-- BUGTYPE "@, k),
{
    reveal_strlit("<!-- ");
    reveal_strlit("BUGTYPE");
    reveal_strlit(" ");
    reveal_strlit("<!-- BUGTYPE ");
    assert(crate::formats::html::comment_marker("BUGTYPE"@) =~= "<!-- BUGTYPE "@);
    law_find_first(s, "<!-- BUGTYPE "@, 0);
    if exists|k: int| #[trigger] matches_at(s, "<!-- BUGTYPE "@, k) {
        let k = choose|k: int| #[trigger] matches_at(s, "<!-- BUGTYPE "@, k);
        assert(0 <= k);
    }
}

proof fn lemma_piece_without_match(s: Seq<char>, pat: Seq<char>, ps: int, i: int)
    requires
        pat.len() > 0,
        0 <= ps <= s.len(),
        0 <= i,
        forall|j: int| i <= j ==> !#[trigger] matches_at(s, pat, j),
    ensures
        last_piece_from(s, pat, ps, i) == s.subrange(ps, s.len() as int),
    decreases s.len() - i,
{
    if i < s.len() {
        lemma_piece_without_match(s, pat, ps, i + 1);
    }
}

proof fn lemma_piece_up_to(s: Seq<char>, pat: Seq<char>, ps: int, i: int, p: int)
    requires
        pat.len() > 0,
        0 <= i <= p,
        matches_at(s, pat, p),
        forall|j: int| i <= j < p ==> !#[trigger] matches_at(s, pat, j),
    ensures
        last_piece_from(s, pat, ps, i) == last_piece_from(
            s,
            pat,
            p + pat.len(),
            p + pat.len(),
        ),
    decreases p - i,
{
    if i < p {
        lemma_piece_up_to(s, pat, ps, i + 1, p);
    }
}

/// The last piece of `s` split at a non-empty `pat`: all of `s` where `pat` does not
/// occur, and what follows it where it occurs once only.
pub proof fn law_last_split_piece(s: Seq<char>, pat: Seq<char>, p: int)
    requires
        pat.len() > 0,
    ensures
        (forall|j: int| !#[trigger] matches_at(s, pat, j)) ==> last_split_piece(s, pat) == s,
        (matches_at(s, pat, p) && forall|j: int| j != p ==> !#[trigger] matches_at(s, pat, j))
            ==> last_split_piece(s, pat) == s.skip(p + pat.len()),
{
    if forall|j: int| !#[trigger] matches_at(s, pat, j) {
        lemma_piece_without_match(s, pat, 0, 0);
        assert(s.subrange(0, s.len() as int) =~= s);
    }
    if matches_at(s, pat, p) && forall|j: int| j != p ==> !#[trigger] matches_at(s, pat, j) {
        lemma_piece_up_to(s, pat, 0, 0, p);
        lemma_piece_without_match(s, pat, p + pat.len(), p + pat.len());
        assert(s.subrange(p + pat.len(), s.len() as int) =~= s.skip(p + pat.len()));
    }
}

/// A RepoAudit file path relative to its project: where `/data/projects/` occurs once,
/// at `p`, and the first `/` after it is at `q`, what follows that `/`; nothing where
/// no `/` follows.
pub proof fn law_project_path(file: Seq<char>, p: int, q: int)
    requires
        matches_at(file, "/data/projects/"@, p),
        forall|j: int| j != p ==> !#[trigger] matches_at(file, "/data/projects/"@, j),
    ensures
        (p + 15 <= q < file.len() && file[q] == '/' && forall|j: int|
            p + 15 <= j < q ==> file[j] != '/') ==> project_path(file) == file.skip(q + 1),
        (forall|j: int| p + 15 <= j < file.len() ==> file[j] != '/') ==> project_path(file).len()
            == 0,
{
    reveal_strlit("/data/projects/");
    assert("/data/projects/"@.len() == 15);
    law_last_split_piece(file, "/data/projects/"@, p);
    let rest = file.skip(p + 15);
    if p + 15 <= q < file.len() && file[q] == '/' && forall|j: int| p + 15 <= j < q ==> file[j] != '/' {
        assert(rest[q - p - 15] == '/');
        assert forall|j: int| 0 <= j < q - p - 15 implies rest[j] != '/' by {
            assert(rest[j] == file[j + p + 15]);
        }
        law_after_first(rest, '/', q - p - 15);
        assert(rest.skip(q - p - 15 + 1) =~= file.skip(q + 1));
    }
    if forall|j: int| p + 15 <= j < file.len() ==> file[j] != '/' {
        assert forall|j: int| 0 <= j < rest.len() implies rest[j] != '/' by {
            assert(rest[j] == file[j + p + 15]);
        }
        law_after_first_absent(rest, '/');
    }
}

proof fn lemma_attr_lookup_first(attrs: Seq<(Seq<char>, Seq<char>)>, name: Seq<char>, k: int)
    ensures
        (forall|i: int| 0 <= i < attrs.len() ==> (#[trigger] attrs[i]).0 != name)
            ==> crate::xml::attr_lookup(attrs, name) is None,
        (0 <= k < attrs.len() && attrs[k].0 == name && forall|j: int|
            0 <= j < k ==> (#[trigger] attrs[j]).0 != name) ==> crate::xml::attr_lookup(attrs, name)
            == Some(attrs[k].1),
    decreases attrs.len(),
{
    if attrs.len() > 0 {
        lemma_attr_lookup_first(attrs.drop_first(), name, k - 1);
        if forall|i: int| 0 <= i < attrs.len() ==> (#[trigger] attrs[i]).0 != name {
            assert(attrs[0].0 != name);
            assert forall|i: int| 0 <= i < attrs.drop_first().len() implies (
            #[trigger] attrs.drop_first()[i]).0 != name by {
                assert(attrs.drop_first()[i] == attrs[i + 1]);
            }
        }
        if 0 < k < attrs.len() && attrs[k].0 == name && forall|j: int|
            0 <= j < k ==> (#[trigger] attrs[j]).0 != name {
            assert(attrs[0].0 != name);
            assert(attrs.drop_first()[k - 1] == attrs[k]);
            assert forall|j: int| 0 <= j < k - 1 implies (#[trigger] attrs.drop_first()[j]).0
                != name by {
                assert(attrs.drop_first()[j] == attrs[j + 1]);
            }
        }
    }
}

/// An attribute of an XML element is the value of its first attribute of that name,
/// and there is none where no attribute has the name; `attribute_or` gives the
/// default in that case.
pub proof fn law_attribute_first(node: XmlNodeView, name: Seq<char>, default: Seq<char>, k: int)
    ensures
        (forall|i: int| 0 <= i < node.attributes.len() ==> (#[trigger] node.attributes[i]).0 != name)
            ==> attribute(node, name) is None && attribute_or(node, name, default) == default,
        (0 <= k < node.attributes.len() && node.attributes[k].0 == name && forall|j: int|
            0 <= j < k ==> (#[trigger] node.attributes[j]).0 != name) ==> attribute(node, name)
            == Some(node.attributes[k].1) && attribute_or(node, name, default)
            == node.attributes[k].1,
{
    lemma_attr_lookup_first(node.attributes, name, k);
}

} // verus!
