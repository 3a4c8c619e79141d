//! Laws that the parsed reports obey, whatever the input.

use vstd::prelude::*;
use crate::formats::codeql::{codeql_headers, codeql_row, csv_records};
use crate::formats::html::{html_row, html_rows};
use crate::formats::inferroi::{inferroi_file_rows, inferroi_row};
use crate::formats::iris::{iris_entry, iris_reports};
use crate::formats::llmdfa::llmdfa_row;
use crate::formats::markdown::{finding_row, markdown_rows};
use crate::formats::repoaudit::repoaudit_row;
use crate::formats::sarif::{sarif_results, sarif_row};
use crate::formats::spotbugs::{bug_rows, source_line_text, source_lines, spotbugs_row};
use crate::json::{array_items, items_or_empty, lookup, object_entries, Json};
use crate::parse::{sast_reports, ReportInput, Reports};
use crate::text::{decimal, digit_char, seq_concat, seq_join};
use crate::utils::config::SAST;
use crate::xml::{xml_nodes, XmlNodeView};

verus! {

/// No colon among the first `k` characters of `s`.
pub open spec fn colon_free(s: Seq<char>, k: int) -> bool
    decreases k,
{
    if k <= 0 {
        true
    } else {
        s[k - 1] != ':' && colon_free(s, k - 1)
    }
}

/// The key of `line` ends at `k`: the first colon of the line stands at `k > 0`, and
/// a space or a line break follows it.
pub open spec fn key_ends_at(line: Seq<char>, k: int) -> bool {
    &&& 0 < k
    &&& k + 1 < line.len()
    &&& line[k] == ':'
    &&& line[k + 1] == ' ' || line[k + 1] == '\n'
    &&& forall|j: int| 0 <= j < k ==> line[j] != ':'
}

/// A line of a report: a non-empty key without a colon, a colon, and a space or a
/// line break before the value.
pub open spec fn is_key_value(line: Seq<char>) -> bool {
    exists|k: int| #[trigger] key_ends_at(line, k)
}

/// Every line of every report is a `key: value` pair.
pub open spec fn all_key_value(reports: Reports) -> bool {
    forall|i: int, j: int|
        0 <= i < reports.len() && 0 <= j < reports[i].len() ==> is_key_value(
            #[trigger] reports[i][j],
        )
}

/// Every report has a line.
pub open spec fn all_nonempty(reports: Reports) -> bool {
    forall|i: int| 0 <= i < reports.len() ==> #[trigger] reports[i].len() > 0
}

proof fn lemma_colon_free(s: Seq<char>, k: int)
    requires
        colon_free(s, k),
    ensures
        forall|j: int| 0 <= j < k ==> s[j] != ':',
    decreases k,
{
    if k > 0 {
        lemma_colon_free(s, k - 1);
    }
}

/// A label whose first colon stands at `k` (followed by a space or a line break)
/// makes a `key: value` line of any value.
proof fn lemma_label_key_value(label: Seq<char>, k: int)
    requires
        0 < k,
        k + 1 < label.len(),
        label[k] == ':',
        label[k + 1] == ' ' || label[k + 1] == '\n',
        colon_free(label, k),
    ensures
        forall|value: Seq<char>| #[trigger] is_key_value(label + value),
{
    lemma_colon_free(label, k);
    assert forall|value: Seq<char>| #[trigger] is_key_value(label + value) by {
        let line = label + value;
        assert forall|j: int| 0 <= j < k implies line[j] != ':' by {
            assert(line[j] == label[j]);
        }
        assert(line[k] == ':');
        assert(line[k + 1] == label[k + 1]);
        assert(key_ends_at(line, k));
    }
}

proof fn lemma_sarif_row(result: Json)
    ensures
        forall|j: int| 0 <= j < sarif_row(result).len() ==> is_key_value(#[trigger] sarif_row(result)[j]),
{
    reveal_with_fuel(colon_free, 20);
    reveal_strlit("Rule ID: ");
    reveal_strlit("Message: ");
    reveal_strlit("Location: ");
    reveal_strlit("Code Flow:\n");
    lemma_label_key_value("Rule ID: "@, 7);
    lemma_label_key_value("Message: "@, 7);
    lemma_label_key_value("Location: "@, 8);
    lemma_label_key_value("Code Flow:\n"@, 9);
}

proof fn lemma_spotbugs_row(nodes: Seq<XmlNodeView>, bug: XmlNodeView)
    ensures
        forall|j: int| 0 <= j < spotbugs_row(nodes, bug).len() ==> is_key_value(#[trigger] spotbugs_row(nodes, bug)[j]),
{
    reveal_with_fuel(colon_free, 20);
    reveal_strlit("Reported Bug Type: ");
    reveal_strlit("Buggy Line: ");
    reveal_strlit("Related Lines: ");
    reveal_strlit("Sink methods: ");
    reveal_strlit("Source methods: ");
    lemma_label_key_value("Reported Bug Type: "@, 17);
    lemma_label_key_value("Buggy Line: "@, 10);
    lemma_label_key_value("Related Lines: "@, 13);
    lemma_label_key_value("Sink methods: "@, 12);
    lemma_label_key_value("Source methods: "@, 14);
}

proof fn lemma_repoaudit_row(report: Json)
    ensures
        forall|j: int| 0 <= j < repoaudit_row(report).len() ==> is_key_value(#[trigger] repoaudit_row(report)[j]),
{
    reveal_with_fuel(colon_free, 20);
    reveal_strlit("Reported Bug Type: ");
    reveal_strlit("Buggy Value: ");
    reveal_strlit("Relevant Code:\n");
    reveal_strlit("Explaination: ");
    lemma_label_key_value("Reported Bug Type: "@, 17);
    lemma_label_key_value("Buggy Value: "@, 11);
    lemma_label_key_value("Relevant Code:\n"@, 13);
    lemma_label_key_value("Explaination: "@, 12);
}

proof fn lemma_inferroi_row(report: Json)
    ensures
        forall|j: int| 0 <= j < inferroi_row(report).len() ==> is_key_value(#[trigger] inferroi_row(report)[j]),
{
    reveal_with_fuel(colon_free, 20);
    reveal_strlit("Method Name: ");
    reveal_strlit("Source Code:\n");
    reveal_strlit("Intensions:\n");
    reveal_strlit("Leaks:\n");
    lemma_label_key_value("Method Name: "@, 11);
    lemma_label_key_value("Source Code:\n"@, 11);
    lemma_label_key_value("Intensions:\n"@, 10);
    lemma_label_key_value("Leaks:\n"@, 5);
}

proof fn lemma_html_row(doc: Seq<char>)
    ensures
        forall|j: int| 0 <= j < html_row(doc).len() ==> is_key_value(#[trigger] html_row(doc)[j]),
{
    reveal_with_fuel(colon_free, 20);
    reveal_strlit("Bug Type: ");
    reveal_strlit("Bug Category: ");
    reveal_strlit("Bug File: ");
    reveal_strlit("Bug Line: ");
    reveal_strlit("Function: ");
    reveal_strlit("Description: ");
    lemma_label_key_value("Bug Type: "@, 8);
    lemma_label_key_value("Bug Category: "@, 12);
    lemma_label_key_value("Bug File: "@, 8);
    lemma_label_key_value("Bug Line: "@, 8);
    lemma_label_key_value("Function: "@, 8);
    lemma_label_key_value("Description: "@, 11);
}

proof fn lemma_finding_row(text: Seq<char>)
    ensures
        forall|j: int| 0 <= j < finding_row(text).len() ==> is_key_value(#[trigger] finding_row(text)[j]),
{
    reveal_with_fuel(colon_free, 20);
    reveal_strlit("Finding: ");
    reveal_strlit("Details:\n");
    lemma_label_key_value("Finding: "@, 7);
    lemma_label_key_value("Details:\n"@, 7);
}

proof fn lemma_llmdfa_row(report: Json)
    ensures
        forall|j: int| 0 <= j < llmdfa_row(report).len() ==> is_key_value(#[trigger] llmdfa_row(report)[j]),
{
    reveal_with_fuel(colon_free, 20);
    reveal_strlit("Report: ");
    lemma_label_key_value("Report: "@, 6);
}

proof fn lemma_codeql_row(record: Seq<Seq<char>>)
    ensures
        forall|j: int| 0 <= j < codeql_row(record).len() ==> is_key_value(#[trigger] codeql_row(record)[j]),
{
    reveal_with_fuel(colon_free, 20);
    reveal_strlit("Rule Name");
    reveal_strlit("Rule Description");
    reveal_strlit("Severity");
    reveal_strlit("Detailed Message");
    reveal_strlit("Location-file");
    reveal_strlit("Location-start-line");
    reveal_strlit("Location-start-col");
    reveal_strlit("Location-end-line");
    reveal_strlit("Location-end-col");
    reveal_strlit(": ");
    lemma_label_key_value("Rule Name"@ + ": "@, 9);
    lemma_label_key_value("Rule Description"@ + ": "@, 16);
    lemma_label_key_value("Severity"@ + ": "@, 8);
    lemma_label_key_value("Detailed Message"@ + ": "@, 16);
    lemma_label_key_value("Location-file"@ + ": "@, 13);
    lemma_label_key_value("Location-start-line"@ + ": "@, 19);
    lemma_label_key_value("Location-start-col"@ + ": "@, 18);
    lemma_label_key_value("Location-end-line"@ + ": "@, 17);
    lemma_label_key_value("Location-end-col"@ + ": "@, 16);
    assert forall|j: int| 0 <= j < codeql_row(record).len() implies is_key_value(
        #[trigger] codeql_row(record)[j],
    ) by {
        assert(codeql_row(record)[j] == (codeql_headers()[j] + ": "@) + record[j]);
    }
}

proof fn lemma_bug_rows(nodes: Seq<XmlNodeView>, upto: Seq<XmlNodeView>)
    ensures
        all_key_value(bug_rows(nodes, upto)),
        all_nonempty(bug_rows(nodes, upto)),
    decreases upto.len(),
{
    if upto.len() > 0 {
        lemma_bug_rows(nodes, upto.drop_last());
        lemma_spotbugs_row(nodes, upto.last());
    }
}

proof fn lemma_html_rows(docs: Seq<Seq<char>>)
    ensures
        all_key_value(html_rows(docs)),
        all_nonempty(html_rows(docs)),
    decreases docs.len(),
{
    if docs.len() > 0 {
        lemma_html_rows(docs.drop_last());
        lemma_html_row(docs.last());
    }
}

proof fn lemma_concat_reports(files: Seq<Reports>)
    requires
        forall|f: int| 0 <= f < files.len() ==> all_key_value(#[trigger] files[f]) && all_nonempty(files[f]),
    ensures
        all_key_value(seq_concat(files)),
        all_nonempty(seq_concat(files)),
    decreases files.len(),
{
    if files.len() > 0 {
        lemma_concat_reports(files.drop_last());
        let head = seq_concat(files.drop_last());
        let last = files.last();
        assert(all_key_value(last) && all_nonempty(last));
        assert forall|i: int, j: int|
            0 <= i < (head + last).len() && 0 <= j < (head + last)[i].len() implies is_key_value(
            #[trigger] (head + last)[i][j],
        ) by {
            if i < head.len() {
                assert((head + last)[i] == head[i]);
            } else {
                assert((head + last)[i] == last[i - head.len()]);
            }
        }
        assert forall|i: int| 0 <= i < (head + last).len() implies #[trigger] (head + last)[i].len() > 0 by {
            if i < head.len() {
                assert((head + last)[i] == head[i]);
            } else {
                assert((head + last)[i] == last[i - head.len()]);
            }
        }
    }
}

/// Every line of every parsed report is a `key: value` pair: a non-empty key without
/// a colon, a colon, and a space or a line break before the value; and every report
/// has a line, but for a CodeQL record without fields, which gives an empty report.
pub proof fn lemma_reports_are_key_value(input: ReportInput, sast: SAST)
    requires
        sast_reports(input, sast) is Ok,
    ensures
        all_key_value(sast_reports(input, sast)->Ok_0),
        sast != SAST::CODEQL ==> all_nonempty(sast_reports(input, sast)->Ok_0),
{
    let reports = sast_reports(input, sast)->Ok_0;
    match (sast, input) {
        (SAST::CODEQL, ReportInput::Text(t)) => {
            assert forall|i: int, j: int|
                0 <= i < reports.len() && 0 <= j < reports[i].len() implies is_key_value(
                #[trigger] reports[i][j],
            ) by {
                lemma_codeql_row(csv_records(t@)->0[i]);
            }
        },
        (SAST::SEMGREP, ReportInput::Document(d)) => {
            assert forall|i: int, j: int|
                0 <= i < reports.len() && 0 <= j < reports[i].len() implies is_key_value(
                #[trigger] reports[i][j],
            ) by {
                lemma_sarif_row(sarif_results(d)->0[i]);
            }
        },
        (SAST::IRIS, ReportInput::Document(d)) => {
            assert forall|i: int, j: int|
                0 <= i < reports.len() && 0 <= j < reports[i].len() implies is_key_value(
                #[trigger] reports[i][j],
            ) by {
                match array_items(Some(d)) {
                    Some(items) => lemma_sarif_row(iris_entry(items[i])),
                    None => lemma_sarif_row(sarif_results(d)->0[i]),
                }
            }
        },
        (SAST::SPOTBUGS, ReportInput::Text(t)) => {
            let nodes = xml_nodes(t@)->0;
            lemma_bug_rows(nodes, nodes);
        },
        (SAST::REPOAUDIT, ReportInput::Document(d)) => {
            match object_entries(Some(d)) {
                Some(entries) => {
                    assert forall|i: int, j: int|
                        0 <= i < reports.len() && 0 <= j < reports[i].len() implies is_key_value(
                        #[trigger] reports[i][j],
                    ) by {
                        lemma_repoaudit_row(lookup(entries, entries[i].0@)->0);
                    }
                },
                None => {},
            }
        },
        (SAST::INFERROI, ReportInput::Documents(files)) => {
            let per_file = files@.map_values(|d: Json| inferroi_file_rows(d));
            assert forall|f: int| 0 <= f < per_file.len() implies all_key_value(#[trigger] per_file[f])
                && all_nonempty(per_file[f]) by {
                let rows = inferroi_file_rows(files@[f]);
                assert forall|i: int, j: int|
                    0 <= i < rows.len() && 0 <= j < rows[i].len() implies is_key_value(
                    #[trigger] rows[i][j],
                ) by {
                    lemma_inferroi_row(items_or_empty(Some(files@[f]))[i]);
                }
            }
            lemma_concat_reports(per_file);
        },
        (SAST::LLMDFA, ReportInput::Document(d)) => {
            assert forall|i: int, j: int|
                0 <= i < reports.len() && 0 <= j < reports[i].len() implies is_key_value(
                #[trigger] reports[i][j],
            ) by {
                lemma_llmdfa_row(array_items(Some(d))->0[i]);
            }
        },
        (SAST::KNIGHTER, ReportInput::Texts(docs)) | (SAST::CSA, ReportInput::Texts(docs)) => {
            lemma_html_rows(docs.deep_view());
        },
        (SAST::Codex, ReportInput::Text(t)) | (SAST::ClaudeCode, ReportInput::Text(t)) => {
            let starts = crate::formats::markdown::headings_from(t@, 0);
            assert forall|i: int, j: int|
                0 <= i < reports.len() && 0 <= j < reports[i].len() implies is_key_value(
                #[trigger] reports[i][j],
            ) by {
                lemma_finding_row(crate::formats::markdown::finding_text(t@, starts, i));
            }
        },
        _ => {},
    }
}

/// The value of a decimal numeral.
pub open spec fn numeral_value(s: Seq<char>) -> int
    decreases s.len(),
{
    if s.len() == 0 {
        0
    } else {
        numeral_value(s.drop_last()) * 10 + (s.last() as int - '0' as int)
    }
}

/// The decimal numeral of a number is made of digits, has no leading zero (unless it
/// is `0` itself), and denotes the number.
pub proof fn lemma_decimal_denotes(n: nat)
    ensures
        numeral_value(decimal(n)) == n,
        decimal(n).len() > 0,
        forall|i: int| 0 <= i < decimal(n).len() ==> '0' <= #[trigger] decimal(n)[i] <= '9',
        decimal(n)[0] == '0' ==> n == 0,
    decreases n,
{
    lemma_digit((n % 10) as int);
    if n >= 10 {
        lemma_decimal_denotes(n / 10);
        let d = decimal(n);
        assert(d.drop_last() =~= decimal(n / 10));
        assert(d[0] == decimal(n / 10)[0]);
        assert(d.last() == digit_char((n % 10) as int));
        assert(numeral_value(d) == numeral_value(decimal(n / 10)) * 10 + (n % 10));
        assert(n == (n / 10) * 10 + n % 10) by (nonlinear_arith);
        assert forall|i: int| 0 <= i < d.len() implies '0' <= #[trigger] d[i] <= '9' by {
            if i < d.len() - 1 {
                assert(d[i] == decimal(n / 10)[i]);
            }
        }
    } else {
        let d = decimal(n);
        assert(d.drop_last() =~= Seq::<char>::empty());
        assert(numeral_value(d.drop_last()) == 0);
    }
}

proof fn lemma_digit(d: int)
    requires
        0 <= d < 10,
    ensures
        digit_char(d) as int - '0' as int == d,
        '0' <= digit_char(d) <= '9',
{
}

/// A bug instance's report has a line of related source lines exactly where the bug
/// has more than one source line.
pub proof fn lemma_related_lines(nodes: Seq<XmlNodeView>, bug: XmlNodeView)
    requires
        source_lines(nodes, bug.id).len() > 0,
    ensures
        spotbugs_row(nodes, bug).len() == 5 <==> source_lines(nodes, bug.id).len() >= 2,
        spotbugs_row(nodes, bug).len() == 4 <==> source_lines(nodes, bug.id).len() == 1,
{
    let lines = source_lines(nodes, bug.id);
    lemma_source_lines_nonempty(nodes, bug.id);
    let rest = lines.drop_first();
    if rest.len() > 0 {
        lemma_join_nonempty(rest, "\n"@);
    } else {
        assert(seq_join(rest, "\n"@).len() == 0);
    }
}

/// Each source line says something.
proof fn lemma_source_lines_nonempty(nodes: Seq<XmlNodeView>, bug: usize)
    ensures
        forall|i: int|
            0 <= i < source_lines(nodes, bug).len() ==> #[trigger] source_lines(nodes, bug)[i].len() > 0,
    decreases nodes.len(),
{
    reveal_strlit(" from Line#");
    if nodes.len() > 0 {
        lemma_source_lines_nonempty(nodes.drop_last(), bug);
        let t = source_line_text(nodes.last());
        assert(t.len() >= " from Line#"@.len());
        let rest = source_lines(nodes.drop_last(), bug);
        assert forall|i: int|
            0 <= i < source_lines(nodes, bug).len() implies #[trigger] source_lines(
            nodes,
            bug,
        )[i].len() > 0 by {
            if i < rest.len() {
                assert(source_lines(nodes, bug)[i] == rest[i]);
            }
        }
    }
}

/// Joining items of which the last says something says something.
proof fn lemma_join_nonempty(items: Seq<Seq<char>>, sep: Seq<char>)
    requires
        items.len() > 0,
        forall|i: int| 0 <= i < items.len() ==> #[trigger] items[i].len() > 0,
    ensures
        seq_join(items, sep).len() > 0,
{
    assert(items[items.len() - 1].len() > 0);
}

} // verus!
