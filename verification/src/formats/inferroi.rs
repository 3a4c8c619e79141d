//! InferROI reports: a directory of JSON files, each an array of findings.

use vstd::prelude::*;
use crate::json::{
    array_items, field, get_array, get_field, get_object, get_slot, items_or_empty, object_entries,
    slot, text_of, text_or_empty, Json,
};
use crate::text::{join, labeled, seq_concat, seq_join};
use crate::formats::{lemma_concat_push, lemma_map_take_push};

verus! {

/// The line of one resource intention `[line, action, resource, type]`; elements
/// that are no strings read as empty.
pub open spec fn intention_line(parts: Seq<Json>) -> Seq<char> {
    "Line: "@ + text_or_empty(slot(parts, 0)) + ", "@ + text_or_empty(slot(parts, 1))
        + " resource, resource: "@ + text_or_empty(slot(parts, 2)) + ", resource type: "@
        + text_or_empty(slot(parts, 3)) + "\n"@
}

/// An intention that is an array has its four elements.
pub open spec fn intention_complete(intention: Json) -> bool {
    match array_items(Some(intention)) {
        Some(parts) => parts.len() >= 4,
        None => true,
    }
}

/// Every intention of a finding that is an array has its four elements.
pub open spec fn report_complete(report: Json) -> bool {
    let items = items_or_empty(field(Some(report), "intensions"@));
    forall|i: int| 0 <= i < items.len() ==> intention_complete(#[trigger] items[i])
}

/// Every intention of every finding of a file that is an array has its four elements.
pub open spec fn file_complete(doc: Json) -> bool {
    let items = items_or_empty(Some(doc));
    forall|i: int| 0 <= i < items.len() ==> report_complete(#[trigger] items[i])
}

/// Every intention in the files that is an array has its four elements.
pub open spec fn files_complete(files: Seq<Json>) -> bool {
    forall|i: int| 0 <= i < files.len() ==> file_complete(#[trigger] files[i])
}

/// The line of an intention; an intention that is no array gives nothing.
pub open spec fn intention_text(intention: Json) -> Seq<char> {
    match array_items(Some(intention)) {
        Some(parts) => intention_line(parts),
        None => Seq::<char>::empty(),
    }
}

/// The intentions of a finding, one line each.
pub open spec fn intentions_text(report: Json) -> Seq<char> {
    seq_concat(
        items_or_empty(field(Some(report), "intensions"@)).map_values(|x: Json| intention_text(x)),
    )
}

/// The path of a leak: its steps, one per line; nothing where it has none.
pub open spec fn leak_path(info: Json) -> Seq<char> {
    match array_items(field(Some(info), "path"@)) {
        Some(steps) => seq_join(steps.map_values(|s: Json| text_or_empty(Some(s))), "\n"@),
        None => Seq::<char>::empty(),
    }
}

/// One leak: the leaked value (the member's key), its type and its path.
pub open spec fn leak_text(value: Seq<char>, info: Json) -> Seq<char> {
    "Leak Value: "@ + value + ", Leak Type: "@ + text_or_empty(field(Some(info), "type"@))
        + ", Leak Path:\n"@ + leak_path(info)
}

/// The leaks of a finding, in the order of the `leaks` object.
pub open spec fn leaks_text(report: Json) -> Seq<char> {
    match object_entries(field(Some(report), "leaks"@)) {
        Some(entries) => seq_concat(
            entries.map_values(|e: (String, Json)| leak_text(e.0@, e.1)),
        ),
        None => Seq::<char>::empty(),
    }
}

/// The report of one finding.
pub open spec fn inferroi_row(report: Json) -> Seq<Seq<char>> {
    seq![
        "Method Name: "@ + text_or_empty(field(Some(report), "method_name"@)),
        "Source Code:\n"@ + text_or_empty(field(Some(report), "source"@)),
        "Intensions:\n"@ + intentions_text(report),
        "Leaks:\n"@ + leaks_text(report),
    ]
}

/// The reports of one file: one per element of its top-level array.
pub open spec fn inferroi_file_rows(doc: Json) -> Seq<Seq<Seq<char>>> {
    items_or_empty(Some(doc)).map_values(|r: Json| inferroi_row(r))
}

/// The reports of all files, file after file.
pub open spec fn inferroi_rows(files: Seq<Json>) -> Seq<Seq<Seq<char>>> {
    seq_concat(files.map_values(|d: Json| inferroi_file_rows(d)))
}

fn intention_text_of(intention: &Json) -> (res: String)
    ensures
        res@ == intention_text(*intention),
{
    match get_array(Some(intention)) {
        Some(parts) => {
            let mut res = labeled("Line: ", text_of(get_slot(parts, 0)).as_str());
            res.append(", ");
            res.append(text_of(get_slot(parts, 1)).as_str());
            res.append(" resource, resource: ");
            res.append(text_of(get_slot(parts, 2)).as_str());
            res.append(", resource type: ");
            res.append(text_of(get_slot(parts, 3)).as_str());
            res.append("\n");
            res
        },
        None => String::new(),
    }
}

fn intentions_text_of(report: &Json) -> (res: String)
    ensures
        res@ == intentions_text(*report),
{
    let ghost items = items_or_empty(field(Some(*report), "intensions"@));
    let ghost f = |x: Json| intention_text(x);
    let mut res = String::new();
    if let Some(intentions) = get_array(get_field(Some(report), "intensions")) {
        for i in 0..intentions.len()
            invariant
                forall|x: Json| #[trigger] f(x) == intention_text(x),
                intentions@ == items,
                res@ == seq_concat(items.take(i as int).map_values(f)),
        {
            proof {
                lemma_map_take_push(items, f, i as int);
            }
            let piece = intention_text_of(&intentions[i]);
            proof {
                lemma_concat_push(items.take(i as int).map_values(f), piece@);
            }
            res.append(piece.as_str());
        }
        assert(items.take(items.len() as int) =~= items);
    } else {
        assert(items.map_values(f) =~= Seq::<Seq<char>>::empty());
    }
    res
}

fn leak_path_of(info: &Json) -> (res: String)
    ensures
        res@ == leak_path(*info),
{
    match get_array(get_field(Some(info), "path")) {
        Some(steps) => {
            let ghost f = |s: Json| text_or_empty(Some(s));
            let mut parts: Vec<String> = Vec::new();
            for i in 0..steps.len()
                invariant
                    forall|s: Json| #[trigger] f(s) == text_or_empty(Some(s)),
                    parts.deep_view() =~= steps@.take(i as int).map_values(f),
            {
                proof {
                    lemma_map_take_push(steps@, f, i as int);
                }
                let part = text_of(Some(&steps[i]));
                let ghost before = parts.deep_view();
                parts.push(part);
                assert(parts.deep_view() =~= before.push(part@));
            }
            assert(steps@.take(steps@.len() as int) =~= steps@);
            join(&parts, "\n")
        },
        None => String::new(),
    }
}

fn leaks_text_of(report: &Json) -> (res: String)
    ensures
        res@ == leaks_text(*report),
{
    match get_object(get_field(Some(report), "leaks")) {
        Some(entries) => {
            let ghost f = |e: (String, Json)| leak_text(e.0@, e.1);
            let mut res = String::new();
            for i in 0..entries.len()
                invariant
                    forall|e: (String, Json)| #[trigger] f(e) == leak_text(e.0@, e.1),
                    res@ == seq_concat(entries@.take(i as int).map_values(f)),
            {
                proof {
                    lemma_map_take_push(entries@, f, i as int);
                }
                let mut piece = labeled("Leak Value: ", entries[i].0.as_str());
                piece.append(", Leak Type: ");
                piece.append(text_of(get_field(Some(&entries[i].1), "type")).as_str());
                piece.append(", Leak Path:\n");
                piece.append(leak_path_of(&entries[i].1).as_str());
                proof {
                    lemma_concat_push(entries@.take(i as int).map_values(f), piece@);
                }
                res.append(piece.as_str());
            }
            assert(entries@.take(entries@.len() as int) =~= entries@);
            res
        },
        None => String::new(),
    }
}

/// The report of one InferROI finding.
pub fn inferroi_finding_row(report: &Json) -> (res: Vec<String>)
    ensures
        res.deep_view() == inferroi_row(*report),
{
    let mut row: Vec<String> = Vec::new();
    row.push(labeled("Method Name: ", text_of(get_field(Some(report), "method_name")).as_str()));
    row.push(labeled("Source Code:\n", text_of(get_field(Some(report), "source")).as_str()));
    row.push(labeled("Intensions:\n", intentions_text_of(report).as_str()));
    row.push(labeled("Leaks:\n", leaks_text_of(report).as_str()));
    assert(row.deep_view() =~= inferroi_row(*report));
    row
}

/// The reports of one InferROI file, appended to `rows`.
fn push_file_rows(doc: &Json, rows: &mut Vec<Vec<String>>)
    ensures
        final(rows).deep_view() == old(rows).deep_view() + inferroi_file_rows(*doc),
{
    let ghost start = rows.deep_view();
    let ghost items = items_or_empty(Some(*doc));
    let ghost f = |r: Json| inferroi_row(r);
    if let Some(findings) = get_array(Some(doc)) {
        for i in 0..findings.len()
            invariant
                forall|r: Json| #[trigger] f(r) == inferroi_row(r),
                findings@ == items,
                rows.deep_view() =~= start + items.take(i as int).map_values(f),
        {
            proof {
                lemma_map_take_push(items, f, i as int);
            }
            let row = inferroi_finding_row(&findings[i]);
            let ghost before = rows.deep_view();
            rows.push(row);
            assert(rows.deep_view() =~= before.push(row.deep_view()));
        }
        assert(items.take(items.len() as int) =~= items);
    } else {
        assert(items.map_values(f) =~= Seq::<Seq<Seq<char>>>::empty());
        assert(rows.deep_view() =~= start + items.map_values(f));
    }
}

fn report_complete_exec(report: &Json) -> (res: bool)
    ensures
        res == report_complete(*report),
{
    let ghost items = items_or_empty(field(Some(*report), "intensions"@));
    if let Some(intentions) = get_array(get_field(Some(report), "intensions")) {
        for i in 0..intentions.len()
            invariant
                intentions@ == items,
                items == items_or_empty(field(Some(*report), "intensions"@)),
                forall|k: int| 0 <= k < i ==> intention_complete(#[trigger] items[k]),
        {
            if let Some(parts) = get_array(Some(&intentions[i])) {
                if parts.len() < 4 {
                    assert(!intention_complete(items[i as int]));
                    return false;
                }
            }
        }
    }
    true
}

fn file_complete_exec(doc: &Json) -> (res: bool)
    ensures
        res == file_complete(*doc),
{
    let ghost items = items_or_empty(Some(*doc));
    if let Some(findings) = get_array(Some(doc)) {
        for i in 0..findings.len()
            invariant
                findings@ == items,
                items == items_or_empty(Some(*doc)),
                forall|k: int| 0 <= k < i ==> report_complete(#[trigger] items[k]),
        {
            if !report_complete_exec(&findings[i]) {
                assert(!report_complete(items[i as int]));
                return false;
            }
        }
    }
    true
}

/// Whether every intention in the files that is an array has its four elements.
pub fn inferroi_files_complete(files: &Vec<Json>) -> (res: bool)
    ensures
        res == files_complete(files@),
{
    for i in 0..files.len()
        invariant
            forall|k: int| 0 <= k < i ==> file_complete(#[trigger] files@[k]),
    {
        if !file_complete_exec(&files[i]) {
            return false;
        }
    }
    true
}

/// Parses the JSON files of an InferROI report directory: the reports of each file,
/// file after file, one per element of the file's top-level array (a file whose
/// top level is no array gives none).
pub fn parse_inferroi_report(files: &Vec<Json>) -> (res: Vec<Vec<String>>)
    requires
        files_complete(files@),
    ensures
        res.deep_view() == inferroi_rows(files@),
{
    let ghost f = |d: Json| inferroi_file_rows(d);
    let mut rows: Vec<Vec<String>> = Vec::new();
    for i in 0..files.len()
        invariant
            forall|d: Json| #[trigger] f(d) == inferroi_file_rows(d),
            rows.deep_view() =~= seq_concat(files@.take(i as int).map_values(f)),
    {
        proof {
            lemma_map_take_push(files@, f, i as int);
            lemma_concat_push(files@.take(i as int).map_values(f), inferroi_file_rows(files@[i as int]));
        }
        push_file_rows(&files[i], &mut rows);
    }
    assert(files@.take(files@.len() as int) =~= files@);
    rows
}

} // verus!
