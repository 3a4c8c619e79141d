//! Reports of the codex and claudecode tools: a Markdown file whose findings each begin with a
//! line that starts with `## Report#`.

use vstd::prelude::*;
use crate::text::{
    after_first, after_first_of, before_first, before_first_of, chars_of, labeled, matches_at,
    string_of,
};

verus! {

/// Whether a finding's heading begins at `p`: a line that starts with `## Report#`.
pub open spec fn heading_at(s: Seq<char>, p: int) -> bool {
    (p == 0 || (0 < p <= s.len() && s[p - 1] == '\n')) && matches_at(s, "## Report#"@, p)
}

/// Where the headings at or after `p` begin, in order.
pub open spec fn headings_from(s: Seq<char>, p: int) -> Seq<int>
    decreases s.len() - p,
{
    if p < 0 || p >= s.len() {
        Seq::empty()
    } else if heading_at(s, p) {
        seq![p] + headings_from(s, p + 1)
    } else {
        headings_from(s, p + 1)
    }
}

/// Where finding `i` ends: where the next one begins, or at the end of the file.
pub open spec fn finding_end(s: Seq<char>, starts: Seq<int>, i: int) -> int {
    if i + 1 < starts.len() {
        starts[i + 1]
    } else {
        s.len() as int
    }
}

/// The text of finding `i`: its heading line without the leading `## `, and what
/// follows up to the next finding.
pub open spec fn finding_text(s: Seq<char>, starts: Seq<int>, i: int) -> Seq<char> {
    s.subrange(starts[i] + 3, finding_end(s, starts, i))
}

/// The report of one finding: its heading line and the lines below it.
pub open spec fn finding_row(text: Seq<char>) -> Seq<Seq<char>> {
    seq!["Finding: "@ + before_first(text, '\n'), "Details:\n"@ + after_first(text, '\n')]
}

/// One report per finding, in file order; what precedes the first finding is no
/// finding.
pub open spec fn markdown_rows(s: Seq<char>) -> Seq<Seq<Seq<char>>> {
    let starts = headings_from(s, 0);
    Seq::new(starts.len(), |i: int| finding_row(finding_text(s, starts, i)))
}

/// The headings found from `p` on lie in `[p, len)`, are headings, and ascend.
proof fn lemma_headings(s: Seq<char>, p: int)
    requires
        0 <= p,
    ensures
        forall|i: int|
            0 <= i < headings_from(s, p).len() ==> p <= #[trigger] headings_from(s, p)[i] < s.len()
                && heading_at(s, headings_from(s, p)[i]),
        forall|i: int, j: int|
            0 <= i < j < headings_from(s, p).len() ==> #[trigger] headings_from(s, p)[i]
                < #[trigger] headings_from(s, p)[j],
    decreases s.len() - p,
{
    if p < s.len() {
        lemma_headings(s, p + 1);
        let h = headings_from(s, p);
        let t = headings_from(s, p + 1);
        if heading_at(s, p) {
            assert(h == seq![p] + t);
            assert forall|i: int| 0 <= i < h.len() implies p <= #[trigger] h[i] < s.len()
                && heading_at(s, h[i]) by {
                if i > 0 {
                    assert(h[i] == t[i - 1]);
                }
            }
            assert forall|i: int, j: int| 0 <= i < j < h.len() implies #[trigger] h[i]
                < #[trigger] h[j] by {
                assert(h[j] == t[j - 1]);
                if i > 0 {
                    assert(h[i] == t[i - 1]);
                }
            }
        } else {
            assert(h == t);
        }
    }
}

/// A heading is followed by at least four more characters before the next one begins,
/// and by its whole marker before the end.
proof fn lemma_heading_room(s: Seq<char>, k: int, k2: int)
    requires
        0 <= k,
        heading_at(s, k),
        k < k2 <= s.len(),
        k2 == s.len() || heading_at(s, k2),
    ensures
        k + 3 < k2,
{
    reveal_strlit("## Report#");
    let pat = "## Report#"@;
    assert(pat.len() == 10);
    assert(s.subrange(k, k + 10) == pat);
    assert(s[k] == s.subrange(k, k + 10)[0]);
    assert(s[k + 1] == s.subrange(k, k + 10)[1]);
    assert(s[k + 2] == s.subrange(k, k + 10)[2]);
    assert(s[k + 3] == s.subrange(k, k + 10)[3]);
}

/// The headings of a report are headings, lie within it, and ascend.
pub proof fn lemma_headings_public(s: Seq<char>)
    ensures
        forall|i: int|
            0 <= i < headings_from(s, 0).len() ==> 0 <= #[trigger] headings_from(s, 0)[i] < s.len()
                && heading_at(s, headings_from(s, 0)[i]),
        forall|i: int, j: int|
            0 <= i < j < headings_from(s, 0).len() ==> #[trigger] headings_from(s, 0)[i]
                < #[trigger] headings_from(s, 0)[j],
{
    lemma_headings(s, 0);
}

/// Parses a Markdown report of the codex or claudecode tool: one report per finding.
pub fn parse_markdown_report(text: &str) -> (res: Vec<Vec<String>>)
    ensures
        res.deep_view() == markdown_rows(text@),
{
    let cs = chars_of(text);
    let pat = chars_of("## Report#");
    let n = cs.len();
    let ghost s = text@;
    let mut starts: Vec<usize> = Vec::new();
    for p in 0..n
        invariant
            cs@ == s,
            s == text@,
            n == s.len(),
            pat@ == "## Report#"@,
            starts@.map_values(|x: usize| x as int) + headings_from(s, p as int) == headings_from(
                s,
                0,
            ),
    {
        let ghost before = starts@.map_values(|x: usize| x as int);
        let at_line_start = p == 0 || cs[p - 1] == '\n';
        if at_line_start && crate::text::matches_at_exec(&cs, &pat, p) {
            starts.push(p);
            assert(starts@.map_values(|x: usize| x as int) =~= before.push(p as int));
            assert(before.push(p as int) + headings_from(s, p + 1) =~= before + headings_from(
                s,
                p as int,
            ));
        }
    }
    let ghost hs = headings_from(s, 0);
    assert(starts@.map_values(|x: usize| x as int) =~= hs);
    proof {
        lemma_headings(s, 0);
    }
    let mut rows: Vec<Vec<String>> = Vec::new();
    for i in 0..starts.len()
        invariant
            s == text@,
            n == s.len(),
            hs == headings_from(s, 0),
            starts@.map_values(|x: usize| x as int) == hs,
            forall|k: int| 0 <= k < hs.len() ==> 0 <= #[trigger] hs[k] < s.len() && heading_at(s, hs[k]),
            forall|a: int, b: int| 0 <= a < b < hs.len() ==> #[trigger] hs[a] < #[trigger] hs[b],
            rows.deep_view() =~= markdown_rows(s).take(i as int),
    {
        assert(hs[i as int] == starts@[i as int] as int);
        let start = starts[i];
        let end = if i + 1 < starts.len() {
            assert(hs[i + 1] == starts@[i + 1] as int);
            starts[i + 1]
        } else {
            n
        };
        proof {
            lemma_heading_room(s, start as int, end as int);
        }
        let finding = string_of(text, start + 3, end);
        assert(finding@ == finding_text(s, hs, i as int));
        let mut row: Vec<String> = Vec::new();
        row.push(labeled("Finding: ", before_first_of(finding.as_str(), '\n').as_str()));
        row.push(labeled("Details:\n", after_first_of(finding.as_str(), '\n').as_str()));
        assert(row.deep_view() =~= finding_row(finding@));
        let ghost prev = rows.deep_view();
        rows.push(row);
        assert(rows.deep_view() =~= prev.push(row.deep_view()));
    }
    assert(markdown_rows(s).take(starts@.len() as int) =~= markdown_rows(s));
    rows
}

} // verus!
