//! RepoAudit reports: a JSON object with one member per finding.

use vstd::prelude::*;
use crate::json::{
    field, get_array, get_field, get_object, get_slot, items_or_empty, lookup, lookup_entry,
    object_entries, slot, text_of, text_or_empty, Json,
};
use crate::text::{after_first, after_first_of, labeled, last_split_piece, last_split_piece_of, seq_concat};
use crate::formats::lemma_concat_push;

verus! {

/// A file path as RepoAudit records it, made relative to its project: what follows
/// the last `/data/projects/`, without the first directory of that rest.
pub open spec fn project_path(file: Seq<char>) -> Seq<char> {
    after_first(last_split_piece(file, "/data/projects/"@), '/')
}

/// The line of the `i`-th relevant file and the function at the same place.
pub open spec fn relevant_line(files: Seq<Json>, funcs: Seq<Json>, i: int) -> Seq<char> {
    "File path: "@ + project_path(text_or_empty(slot(files, i))) + ", Func: "@ + text_or_empty(
        slot(funcs, i),
    ) + "\n"@
}

/// `relevant_functions`: a list whose first element lists files and whose second
/// lists the functions in them.
pub open spec fn relevant_values(report: Json) -> Seq<Json> {
    items_or_empty(field(Some(report), "relevant_functions"@))
}

/// The relevant code of a finding, one line per relevant file.
pub open spec fn relevant_code(report: Json) -> Seq<char> {
    let files = items_or_empty(slot(relevant_values(report), 0));
    let funcs = items_or_empty(slot(relevant_values(report), 1));
    seq_concat(Seq::new(files.len(), |i: int| relevant_line(files, funcs, i)))
}

/// The report of one finding.
pub open spec fn repoaudit_row(report: Json) -> Seq<Seq<char>> {
    seq![
        "Reported Bug Type: "@ + text_or_empty(field(Some(report), "bug_type"@)),
        "Buggy Value: "@ + text_or_empty(field(Some(report), "buggy_value"@)),
        "Relevant Code:\n"@ + relevant_code(report),
        "Explaination: "@ + text_or_empty(field(Some(report), "explanation"@)),
    ]
}

/// One report per member of the top-level object, in the object's order, each read
/// from the member that the key finds; nothing where the document is no object.
pub open spec fn repoaudit_rows(doc: Json) -> Seq<Seq<Seq<char>>> {
    match object_entries(Some(doc)) {
        Some(entries) => Seq::new(
            entries.len(),
            |i: int| repoaudit_row(lookup(entries, entries[i].0@)->0),
        ),
        None => Seq::empty(),
    }
}

/// A key of an object finds a member.
pub proof fn lemma_lookup_present(entries: Seq<(String, Json)>, i: int)
    requires
        0 <= i < entries.len(),
    ensures
        lookup(entries, entries[i].0@) is Some,
    decreases i,
{
    if i > 0 && entries[0].0@ != entries[i].0@ {
        assert(entries.drop_first()[i - 1] == entries[i]);
        lemma_lookup_present(entries.drop_first(), i - 1);
    }
}

/// The path of a file relative to its project.
pub fn project_path_of(file: &str) -> (res: String)
    ensures
        res@ == project_path(file@),
{
    let rest = last_split_piece_of(file, "/data/projects/");
    after_first_of(rest.as_str(), '/')
}

fn relevant_code_of(report: &Json) -> (res: String)
    ensures
        res@ == relevant_code(*report),
{
    let ghost values = relevant_values(*report);
    let ghost files = items_or_empty(slot(values, 0));
    let ghost funcs = items_or_empty(slot(values, 1));
    let ghost lines = Seq::new(files.len(), |i: int| relevant_line(files, funcs, i));
    let empty: Vec<Json> = Vec::new();
    let values_v = match get_array(get_field(Some(report), "relevant_functions")) {
        Some(v) => v,
        None => &empty,
    };
    assert(values_v@ == values);
    let files_v = match get_array(get_slot(values_v, 0)) {
        Some(v) => v,
        None => &empty,
    };
    let funcs_v = match get_array(get_slot(values_v, 1)) {
        Some(v) => v,
        None => &empty,
    };
    assert(files_v@ == files);
    assert(funcs_v@ == funcs);
    let mut res = String::new();
    for i in 0..files_v.len()
        invariant
            files_v@ == files,
            funcs_v@ == funcs,
            lines.len() == files.len(),
            forall|k: int| 0 <= k < lines.len() ==> #[trigger] lines[k] == relevant_line(files, funcs, k),
            res@ == seq_concat(lines.take(i as int)),
    {
        let file = text_of(get_slot(files_v, i));
        let mut line = labeled("File path: ", project_path_of(file.as_str()).as_str());
        line.append(", Func: ");
        line.append(text_of(get_slot(funcs_v, i)).as_str());
        line.append("\n");
        proof {
            assert(lines.take(i + 1) =~= lines.take(i as int).push(lines[i as int]));
            lemma_concat_push(lines.take(i as int), line@);
        }
        res.append(line.as_str());
    }
    assert(lines.take(lines.len() as int) =~= lines);
    res
}

/// The report of one RepoAudit finding.
pub fn repoaudit_finding_row(report: &Json) -> (res: Vec<String>)
    ensures
        res.deep_view() == repoaudit_row(*report),
{
    let mut row: Vec<String> = Vec::new();
    row.push(labeled("Reported Bug Type: ", text_of(get_field(Some(report), "bug_type")).as_str()));
    row.push(labeled("Buggy Value: ", text_of(get_field(Some(report), "buggy_value")).as_str()));
    row.push(labeled("Relevant Code:\n", relevant_code_of(report).as_str()));
    row.push(labeled("Explaination: ", text_of(get_field(Some(report), "explanation")).as_str()));
    assert(row.deep_view() =~= repoaudit_row(*report));
    row
}

/// Parses a RepoAudit report: one report per member of the top-level object.
pub fn parse_repoaudit_report(doc: &Json) -> (res: Vec<Vec<String>>)
    ensures
        res.deep_view() == repoaudit_rows(*doc),
{
    let mut rows: Vec<Vec<String>> = Vec::new();
    if let Some(entries) = get_object(Some(doc)) {
        let ghost all = repoaudit_rows(*doc);
        for i in 0..entries.len()
            invariant
                object_entries(Some(*doc)) == Some(entries@),
                all == repoaudit_rows(*doc),
                rows.deep_view() =~= all.take(i as int),
        {
            proof {
                lemma_lookup_present(entries@, i as int);
            }
            if let Some(report) = lookup_entry(entries, entries[i].0.as_str()) {
                let row = repoaudit_finding_row(report);
                let ghost before = rows.deep_view();
                rows.push(row);
                assert(rows.deep_view() =~= before.push(row.deep_view()));
                assert(all.take(i + 1) =~= all.take(i as int).push(all[i as int]));
            }
        }
        assert(all.take(entries@.len() as int) =~= all);
    } else {
        assert(repoaudit_rows(*doc) =~= Seq::<Seq<Seq<char>>>::empty());
    }
    rows
}

} // verus!
