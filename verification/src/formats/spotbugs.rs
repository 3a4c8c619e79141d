//! SpotBugs XML reports: one report per `BugInstance` element.

use vstd::prelude::*;
use crate::parse::ReportError;
use crate::text::{join, labeled, seq_join};
use crate::xml::{
    attribute, attribute_or, has_tag, node_attribute, node_attribute_or, node_has_tag, nodes_view,
    parse_xml, xml_nodes, XmlNode, XmlNodeView,
};

verus! {

/// Whether `node` is a child of the node numbered `parent` with tag `tag`.
pub open spec fn is_child_tagged(node: XmlNodeView, parent: usize, tag: Seq<char>) -> bool {
    node.parent == Some(parent) && has_tag(node, tag)
}

/// The `value`s of the `String` children of node `bug` whose `role` is `role`, in
/// document order (children without a value are passed over).
pub open spec fn string_values(nodes: Seq<XmlNodeView>, bug: usize, role: Seq<char>) -> Seq<
    Seq<char>,
>
    decreases nodes.len(),
{
    if nodes.len() == 0 {
        Seq::empty()
    } else {
        let rest = string_values(nodes.drop_last(), bug, role);
        let n = nodes.last();
        if is_child_tagged(n, bug, "String"@) && attribute(n, "role"@) == Some(role) && attribute(
            n,
            "value"@,
        ) is Some {
            rest.push(attribute(n, "value"@)->0)
        } else {
            rest
        }
    }
}

/// The line of a `SourceLine` element: `file from Line#start-Line#end`, with `?`
/// for a missing attribute.
pub open spec fn source_line_text(n: XmlNodeView) -> Seq<char> {
    attribute_or(n, "sourcefile"@, "?"@) + " from Line#"@ + attribute_or(n, "start"@, "?"@)
        + "-Line#"@ + attribute_or(n, "end"@, "?"@)
}

/// The lines of the `SourceLine` children of node `bug`, in document order.
pub open spec fn source_lines(nodes: Seq<XmlNodeView>, bug: usize) -> Seq<Seq<char>>
    decreases nodes.len(),
{
    if nodes.len() == 0 {
        Seq::empty()
    } else {
        let rest = source_lines(nodes.drop_last(), bug);
        let n = nodes.last();
        if is_child_tagged(n, bug, "SourceLine"@) {
            rest.push(source_line_text(n))
        } else {
            rest
        }
    }
}

/// A list of methods joined by `"; "`, or `None` where there is none.
pub open spec fn methods_text(methods: Seq<Seq<char>>) -> Seq<char> {
    if methods.len() == 0 {
        "None"@
    } else {
        seq_join(methods, "; "@)
    }
}

/// The report of one bug instance: its type, its first source line, the further
/// source lines where there are any, and its sink and source methods.
pub open spec fn spotbugs_row(nodes: Seq<XmlNodeView>, bug: XmlNodeView) -> Seq<Seq<char>> {
    let lines = source_lines(nodes, bug.id);
    let related = seq_join(lines.drop_first(), "\n"@);
    let head = seq![
        "Reported Bug Type: "@ + attribute_or(bug, "type"@, "?"@),
        "Buggy Line: "@ + lines[0],
    ];
    let tail = seq![
        "Sink methods: "@ + methods_text(string_values(nodes, bug.id, "Sink method"@)),
        "Source methods: "@ + methods_text(string_values(nodes, bug.id, "Unknown source"@)),
    ];
    if related.len() != 0 {
        head.push("Related Lines: "@ + related) + tail
    } else {
        head + tail
    }
}

/// The reports of the bug instances among `upto`, in document order, read in the
/// whole document `nodes`.
pub open spec fn bug_rows(nodes: Seq<XmlNodeView>, upto: Seq<XmlNodeView>) -> Seq<Seq<Seq<char>>>
    decreases upto.len(),
{
    if upto.len() == 0 {
        Seq::empty()
    } else {
        let rest = bug_rows(nodes, upto.drop_last());
        if has_tag(upto.last(), "BugInstance"@) {
            rest.push(spotbugs_row(nodes, upto.last()))
        } else {
            rest
        }
    }
}

/// The reports of all bug instances of the document.
pub open spec fn spotbugs_rows(nodes: Seq<XmlNodeView>) -> Seq<Seq<Seq<char>>> {
    bug_rows(nodes, nodes)
}

/// Every bug instance has a source line.
pub open spec fn bugs_have_lines(nodes: Seq<XmlNodeView>) -> bool {
    forall|i: int|
        0 <= i < nodes.len() && has_tag(#[trigger] nodes[i], "BugInstance"@) ==> source_lines(
            nodes,
            nodes[i].id,
        ).len() > 0
}

/// The source lines and the sink and source methods of node `bug`.
fn bug_children(nodes: &Vec<XmlNode>, bug: usize) -> (res: (Vec<String>, Vec<String>, Vec<String>))
    ensures
        res.0.deep_view() == source_lines(nodes_view(nodes@), bug),
        res.1.deep_view() == string_values(nodes_view(nodes@), bug, "Sink method"@),
        res.2.deep_view() == string_values(nodes_view(nodes@), bug, "Unknown source"@),
{
    let ghost all = nodes_view(nodes@);
    let string_tag = String::from_str("String");
    let line_tag = String::from_str("SourceLine");
    let role = String::from_str("role");
    let value = String::from_str("value");
    let sink = String::from_str("Sink method");
    let source = String::from_str("Unknown source");
    let sourcefile = String::from_str("sourcefile");
    let start = String::from_str("start");
    let end = String::from_str("end");
    let mut lines: Vec<String> = Vec::new();
    let mut sinks: Vec<String> = Vec::new();
    let mut sources: Vec<String> = Vec::new();
    for j in 0..nodes.len()
        invariant
            all == nodes_view(nodes@),
            all.len() == nodes@.len(),
            string_tag@ == "String"@,
            line_tag@ == "SourceLine"@,
            role@ == "role"@,
            value@ == "value"@,
            sink@ == "Sink method"@,
            source@ == "Unknown source"@,
            sourcefile@ == "sourcefile"@,
            start@ == "start"@,
            end@ == "end"@,
            lines.deep_view() =~= source_lines(all.take(j as int), bug),
            sinks.deep_view() =~= string_values(all.take(j as int), bug, "Sink method"@),
            sources.deep_view() =~= string_values(all.take(j as int), bug, "Unknown source"@),
    {
        let node = &nodes[j];
        assert(all[j as int] == node@);
        assert(all.take(j + 1).drop_last() =~= all.take(j as int));
        assert(all.take(j + 1).last() == node@);
        if node.parent == Some(bug) && node_has_tag(node, &string_tag) {
            let r = node_attribute(node, &role);
            let is_sink = match r {
                Some(r) => *r == sink,
                None => false,
            };
            let is_source = match r {
                Some(r) => *r == source,
                None => false,
            };
            if is_sink {
                if let Some(v) = node_attribute(node, &value) {
                    let ghost before = sinks.deep_view();
                    sinks.push(v.clone());
                    assert(sinks.deep_view() =~= before.push(v@));
                }
            }
            if is_source {
                if let Some(v) = node_attribute(node, &value) {
                    let ghost before = sources.deep_view();
                    sources.push(v.clone());
                    assert(sources.deep_view() =~= before.push(v@));
                }
            }
        }
        if node.parent == Some(bug) && node_has_tag(node, &line_tag) {
            let mut line = node_attribute_or(node, &sourcefile, "?");
            line.append(" from Line#");
            line.append(node_attribute_or(node, &start, "?").as_str());
            line.append("-Line#");
            line.append(node_attribute_or(node, &end, "?").as_str());
            let ghost before = lines.deep_view();
            lines.push(line);
            assert(lines.deep_view() =~= before.push(line@));
        }
    }
    assert(all.take(nodes@.len() as int) =~= all);
    (lines, sinks, sources)
}

/// The report of one bug instance of the document.
pub fn spotbugs_bug_row(nodes: &Vec<XmlNode>, bug: &XmlNode) -> (res: Vec<String>)
    requires
        source_lines(nodes_view(nodes@), bug.id).len() > 0,
    ensures
        res.deep_view() == spotbugs_row(nodes_view(nodes@), bug@),
{
    let (lines, sinks, sources) = bug_children(nodes, bug.id);
    let ghost ls = lines.deep_view();
    let mut rest: Vec<String> = Vec::new();
    for k in 1..lines.len()
        invariant
            ls == lines.deep_view(),
            ls.len() > 0,
            rest.deep_view() =~= ls.drop_first().take(k - 1),
    {
        let ghost before = rest.deep_view();
        rest.push(lines[k].clone());
        assert(rest.deep_view() =~= before.push(ls[k as int]));
    }
    assert(ls.drop_first().take(ls.len() - 1) =~= ls.drop_first());
    let related = join(&rest, "\n");
    let sinks_text = if sinks.len() == 0 {
        String::from_str("None")
    } else {
        join(&sinks, "; ")
    };
    let sources_text = if sources.len() == 0 {
        String::from_str("None")
    } else {
        join(&sources, "; ")
    };
    let mut row: Vec<String> = Vec::new();
    let type_key = String::from_str("type");
    row.push(labeled("Reported Bug Type: ", node_attribute_or(bug, &type_key, "?").as_str()));
    row.push(labeled("Buggy Line: ", lines[0].as_str()));
    if !related.as_str().is_empty() {
        row.push(labeled("Related Lines: ", related.as_str()));
    }
    row.push(labeled("Sink methods: ", sinks_text.as_str()));
    row.push(labeled("Source methods: ", sources_text.as_str()));
    assert(row.deep_view() =~= spotbugs_row(nodes_view(nodes@), bug@));
    row
}

/// Whether every bug instance of the document has a source line.
pub fn all_bugs_have_lines(nodes: &Vec<XmlNode>) -> (res: bool)
    ensures
        res == bugs_have_lines(nodes_view(nodes@)),
{
    let ghost all = nodes_view(nodes@);
    let bug_tag = String::from_str("BugInstance");
    for i in 0..nodes.len()
        invariant
            all == nodes_view(nodes@),
            all.len() == nodes@.len(),
            bug_tag@ == "BugInstance"@,
            forall|k: int|
                0 <= k < i && has_tag(#[trigger] all[k], "BugInstance"@) ==> source_lines(
                    all,
                    all[k].id,
                ).len() > 0,
    {
        assert(all[i as int] == nodes@[i as int]@);
        if node_has_tag(&nodes[i], &bug_tag) {
            let (lines, _, _) = bug_children(nodes, nodes[i].id);
            if lines.len() == 0 {
                return false;
            }
        }
    }
    true
}

/// The reports of all bug instances of a document in which each has a source line.
pub fn spotbugs_report_rows(nodes: &Vec<XmlNode>) -> (res: Vec<Vec<String>>)
    requires
        bugs_have_lines(nodes_view(nodes@)),
    ensures
        res.deep_view() == spotbugs_rows(nodes_view(nodes@)),
{
    let ghost all = nodes_view(nodes@);
    let bug_tag = String::from_str("BugInstance");
    let mut rows: Vec<Vec<String>> = Vec::new();
    for i in 0..nodes.len()
        invariant
            all == nodes_view(nodes@),
            all.len() == nodes@.len(),
            bugs_have_lines(all),
            bug_tag@ == "BugInstance"@,
            rows.deep_view() =~= bug_rows(all, all.take(i as int)),
    {
        assert(all[i as int] == nodes@[i as int]@);
        assert(all.take(i + 1).drop_last() =~= all.take(i as int));
        assert(all.take(i + 1).last() == all[i as int]);
        if node_has_tag(&nodes[i], &bug_tag) {
            let row = spotbugs_bug_row(nodes, &nodes[i]);
            let ghost before = rows.deep_view();
            rows.push(row);
            assert(rows.deep_view() =~= before.push(row.deep_view()));
        }
    }
    assert(all.take(nodes@.len() as int) =~= all);
    rows
}

/// A SpotBugs report that parses has a source line for each bug instance.
pub open spec fn spotbugs_text_complete(text: Seq<char>) -> bool {
    match xml_nodes(text) {
        Some(nodes) => bugs_have_lines(nodes),
        None => true,
    }
}

/// Whether each bug instance of a SpotBugs report that parses has a source line.
pub fn spotbugs_text_is_complete(text: &str) -> (res: bool)
    ensures
        res == spotbugs_text_complete(text@),
{
    match parse_xml(text) {
        Ok(nodes) => all_bugs_have_lines(&nodes),
        Err(_) => true,
    }
}

/// The source lines of the bug instances among `upto`, bug after bug, read in the
/// whole document `nodes`.
pub open spec fn bug_lines(nodes: Seq<XmlNodeView>, upto: Seq<XmlNodeView>) -> Seq<Seq<Seq<char>>>
    decreases upto.len(),
{
    if upto.len() == 0 {
        Seq::empty()
    } else {
        let rest = bug_lines(nodes, upto.drop_last());
        if has_tag(upto.last(), "BugInstance"@) {
            rest.push(source_lines(nodes, upto.last().id))
        } else {
            rest
        }
    }
}

/// The source lines of each bug instance of a SpotBugs report, bug after bug; none
/// for malformed XML.
pub fn spotbugs_bug_lines(text: &str) -> (res: Option<Vec<Vec<String>>>)
    ensures
        res is Some <==> xml_nodes(text@) is Some,
        res matches Some(lines) ==> lines.deep_view() == bug_lines(
            xml_nodes(text@)->0,
            xml_nodes(text@)->0,
        ),
{
    match parse_xml(text) {
        Ok(nodes) => {
            let ghost all = nodes_view(nodes@);
            let bug_tag = String::from_str("BugInstance");
            let mut res: Vec<Vec<String>> = Vec::new();
            for i in 0..nodes.len()
                invariant
                    all == nodes_view(nodes@),
                    all.len() == nodes@.len(),
                    bug_tag@ == "BugInstance"@,
                    res.deep_view() =~= bug_lines(all, all.take(i as int)),
            {
                assert(all[i as int] == nodes@[i as int]@);
                assert(all.take(i + 1).drop_last() =~= all.take(i as int));
                assert(all.take(i + 1).last() == all[i as int]);
                if node_has_tag(&nodes[i], &bug_tag) {
                    let (lines, _, _) = bug_children(&nodes, nodes[i].id);
                    let ghost prev = res.deep_view();
                    res.push(lines);
                    assert(res.deep_view() =~= prev.push(lines.deep_view()));
                }
            }
            assert(all.take(nodes@.len() as int) =~= all);
            Some(res)
        },
        Err(_) => None,
    }
}

/// Parses a SpotBugs XML report: one report per `BugInstance` element, in document
/// order. Malformed XML is refused.
pub fn parse_spotbugs_report(text: &str) -> (res: Result<Vec<Vec<String>>, ReportError>)
    requires
        spotbugs_text_complete(text@),
    ensures
        res is Ok <==> xml_nodes(text@) is Some,
        res matches Ok(rows) ==> rows.deep_view() == spotbugs_rows(xml_nodes(text@)->0),
        res matches Err(e) ==> e == ReportError::Xml,
{
    match parse_xml(text) {
        Ok(nodes) => Ok(spotbugs_report_rows(&nodes)),
        Err(_) => Err(ReportError::Xml),
    }
}

} // verus!
