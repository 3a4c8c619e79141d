//! SARIF documents (Semgrep and IRIS): one report per result of the first run.

use vstd::prelude::*;
use crate::json::{
    array_items, field, get_array, get_field, get_item, item, items_or_empty, text_of, text_or_empty,
    unsigned_text, unsigned_text_of, Json,
};
use crate::parse::ReportError;
use crate::text::{join, labeled, seq_concat, seq_join};
use crate::formats::{lemma_concat_push, lemma_map_take_push};

verus! {

/// `file:line:rule` for one location of a result.
pub open spec fn location_text(loc: Json, rule_id: Seq<char>) -> Seq<char> {
    let phys = field(Some(loc), "physicalLocation"@);
    text_or_empty(field(field(phys, "artifactLocation"@), "uri"@)) + ":"@ + unsigned_text(
        field(field(phys, "region"@), "startLine"@),
    ) + ":"@ + rule_id
}

/// The locations of a result joined by `"; "`, or nothing where it lists none.
pub open spec fn locations_text(result: Json, rule_id: Seq<char>) -> Seq<char> {
    match array_items(field(Some(result), "locations"@)) {
        Some(locs) => seq_join(locs.map_values(|l: Json| location_text(l, rule_id)), "; "@),
        None => Seq::<char>::empty(),
    }
}

/// One step of a thread flow: `file:line - message` and a line break.
pub open spec fn step_text(step: Json) -> Seq<char> {
    let phys = field(field(Some(step), "location"@), "physicalLocation"@);
    text_or_empty(field(field(phys, "artifactLocation"@), "uri"@)) + ":"@ + unsigned_text(
        field(field(phys, "region"@), "startLine"@),
    ) + " - "@ + text_or_empty(field(field(Some(step), "message"@), "text"@)) + "\n"@
}

/// The steps of one thread flow.
pub open spec fn thread_flow_text(flow: Json) -> Seq<char> {
    seq_concat(items_or_empty(field(Some(flow), "locations"@)).map_values(|s: Json| step_text(s)))
}

/// The thread flows of one code flow.
pub open spec fn code_flow_text(flow: Json) -> Seq<char> {
    seq_concat(
        items_or_empty(field(Some(flow), "threadFlows"@)).map_values(|t: Json| thread_flow_text(t)),
    )
}

/// All code-flow steps of a result, in order.
pub open spec fn code_flows_text(result: Json) -> Seq<char> {
    seq_concat(
        items_or_empty(field(Some(result), "codeFlows"@)).map_values(|c: Json| code_flow_text(c)),
    )
}

/// The report of one result: rule, message and locations, and the code flow where
/// the result has a step in one.
pub open spec fn sarif_row(result: Json) -> Seq<Seq<char>> {
    let rule_id = text_or_empty(field(Some(result), "ruleId"@));
    let message = text_or_empty(field(field(Some(result), "message"@), "text"@));
    let flows = code_flows_text(result);
    let base = seq![
        "Rule ID: "@ + rule_id,
        "Message: "@ + message,
        "Location: "@ + locations_text(result, rule_id),
    ];
    if flows.len() == 0 {
        base
    } else {
        base.push("Code Flow:\n"@ + flows)
    }
}

/// The results of the first run, where the document has them as an array.
pub open spec fn sarif_results(doc: Json) -> Option<Seq<Json>> {
    array_items(field(item(field(Some(doc), "runs"@), 0), "results"@))
}

fn location_text_of(loc: &Json, rule_id: &str) -> (res: String)
    ensures
        res@ == location_text(*loc, rule_id@),
{
    let phys = get_field(Some(loc), "physicalLocation");
    let mut res = text_of(get_field(get_field(phys, "artifactLocation"), "uri"));
    res.append(":");
    res.append(unsigned_text_of(get_field(get_field(phys, "region"), "startLine")).as_str());
    res.append(":");
    res.append(rule_id);
    res
}

fn locations_text_of(result: &Json, rule_id: &str) -> (res: String)
    ensures
        res@ == locations_text(*result, rule_id@),
{
    match get_array(get_field(Some(result), "locations")) {
        Some(locs) => {
            let ghost f = |l: Json| location_text(l, rule_id@);
            let mut parts: Vec<String> = Vec::new();
            for i in 0..locs.len()
                invariant
                    forall|l: Json| #[trigger] f(l) == location_text(l, rule_id@),
                    parts.deep_view() =~= locs@.take(i as int).map_values(f),
            {
                proof {
                    lemma_map_take_push(locs@, f, i as int);
                }
                let part = location_text_of(&locs[i], rule_id);
                let ghost before = parts.deep_view();
                parts.push(part);
                assert(parts.deep_view() =~= before.push(part@));
            }
            assert(locs@.take(locs@.len() as int) =~= locs@);
            join(&parts, "; ")
        },
        None => String::new(),
    }
}

fn step_text_of(step: &Json) -> (res: String)
    ensures
        res@ == step_text(*step),
{
    let phys = get_field(get_field(Some(step), "location"), "physicalLocation");
    let mut res = text_of(get_field(get_field(phys, "artifactLocation"), "uri"));
    res.append(":");
    res.append(unsigned_text_of(get_field(get_field(phys, "region"), "startLine")).as_str());
    res.append(" - ");
    res.append(text_of(get_field(get_field(Some(step), "message"), "text")).as_str());
    res.append("\n");
    res
}

fn thread_flow_text_of(flow: &Json) -> (res: String)
    ensures
        res@ == thread_flow_text(*flow),
{
    let ghost items = items_or_empty(field(Some(*flow), "locations"@));
    let ghost f = |s: Json| step_text(s);
    let mut res = String::new();
    if let Some(steps) = get_array(get_field(Some(flow), "locations")) {
        for i in 0..steps.len()
            invariant
                forall|s: Json| #[trigger] f(s) == step_text(s),
                steps@ == items,
                res@ == seq_concat(items.take(i as int).map_values(f)),
        {
            proof {
                lemma_map_take_push(items, f, i as int);
            }
            let piece = step_text_of(&steps[i]);
            proof {
                lemma_concat_push(items.take(i as int).map_values(f), piece@);
            }
            res.append(piece.as_str());
        }
        assert(items.take(items.len() as int) =~= items);
    } else {
        assert(items.map_values(f) =~= Seq::<Seq<char>>::empty());
    }
    res
}

fn code_flow_text_of(flow: &Json) -> (res: String)
    ensures
        res@ == code_flow_text(*flow),
{
    let ghost items = items_or_empty(field(Some(*flow), "threadFlows"@));
    let ghost f = |t: Json| thread_flow_text(t);
    let mut res = String::new();
    if let Some(flows) = get_array(get_field(Some(flow), "threadFlows")) {
        for i in 0..flows.len()
            invariant
                forall|t: Json| #[trigger] f(t) == thread_flow_text(t),
                flows@ == items,
                res@ == seq_concat(items.take(i as int).map_values(f)),
        {
            proof {
                lemma_map_take_push(items, f, i as int);
            }
            let piece = thread_flow_text_of(&flows[i]);
            proof {
                lemma_concat_push(items.take(i as int).map_values(f), piece@);
            }
            res.append(piece.as_str());
        }
        assert(items.take(items.len() as int) =~= items);
    } else {
        assert(items.map_values(f) =~= Seq::<Seq<char>>::empty());
    }
    res
}

fn code_flows_text_of(result: &Json) -> (res: String)
    ensures
        res@ == code_flows_text(*result),
{
    let ghost items = items_or_empty(field(Some(*result), "codeFlows"@));
    let ghost f = |c: Json| code_flow_text(c);
    let mut res = String::new();
    if let Some(flows) = get_array(get_field(Some(result), "codeFlows")) {
        for i in 0..flows.len()
            invariant
                forall|c: Json| #[trigger] f(c) == code_flow_text(c),
                flows@ == items,
                res@ == seq_concat(items.take(i as int).map_values(f)),
        {
            proof {
                lemma_map_take_push(items, f, i as int);
            }
            let piece = code_flow_text_of(&flows[i]);
            proof {
                lemma_concat_push(items.take(i as int).map_values(f), piece@);
            }
            res.append(piece.as_str());
        }
        assert(items.take(items.len() as int) =~= items);
    } else {
        assert(items.map_values(f) =~= Seq::<Seq<char>>::empty());
    }
    res
}

/// The report of one SARIF result.
pub fn sarif_result_row(result: &Json) -> (res: Vec<String>)
    ensures
        res.deep_view() == sarif_row(*result),
{
    let rule_id = text_of(get_field(Some(result), "ruleId"));
    let message = text_of(get_field(get_field(Some(result), "message"), "text"));
    let locations = locations_text_of(result, rule_id.as_str());
    let flows = code_flows_text_of(result);
    let mut row: Vec<String> = Vec::new();
    row.push(labeled("Rule ID: ", rule_id.as_str()));
    row.push(labeled("Message: ", message.as_str()));
    row.push(labeled("Location: ", locations.as_str()));
    if !flows.as_str().is_empty() {
        row.push(labeled("Code Flow:\n", flows.as_str()));
    }
    assert(row.deep_view() =~= sarif_row(*result));
    row
}

/// Parses a SARIF document: one report per entry of `results` in the first run.
/// The document is refused where the first run has no `results` array.
pub fn parse_sarif_report(doc: &Json) -> (res: Result<Vec<Vec<String>>, ReportError>)
    ensures
        res is Ok <==> sarif_results(*doc) is Some,
        res matches Ok(rows) ==> rows.deep_view() == sarif_results(*doc)->0.map_values(
            |r: Json| sarif_row(r),
        ),
        res matches Err(e) ==> e == ReportError::MissingResults,
{
    let runs = get_field(Some(doc), "runs");
    let results = get_array(get_field(get_item(runs, 0), "results"));
    match results {
        Some(results) => {
            let ghost f = |r: Json| sarif_row(r);
            let mut rows: Vec<Vec<String>> = Vec::new();
            for i in 0..results.len()
                invariant
                    forall|r: Json| #[trigger] f(r) == sarif_row(r),
                    rows.deep_view() =~= results@.take(i as int).map_values(f),
            {
                proof {
                    lemma_map_take_push(results@, f, i as int);
                }
                let row = sarif_result_row(&results[i]);
                let ghost before = rows.deep_view();
                rows.push(row);
                assert(rows.deep_view() =~= before.push(row.deep_view()));
            }
            assert(results@.take(results@.len() as int) =~= results@);
            Ok(rows)
        },
        None => Err(ReportError::MissingResults),
    }
}

} // verus!
