use reports_filter::formats::codeql::parse_codeql_csv_report;
use reports_filter::formats::inferroi::{inferroi_files_complete, parse_inferroi_report};
use reports_filter::formats::llmdfa::parse_llmdfa_report;
use reports_filter::formats::repoaudit::{parse_repoaudit_report, project_path_of};
use reports_filter::formats::sarif::parse_sarif_report;
use reports_filter::formats::html::parse_html_reports;
use reports_filter::formats::iris::parse_iris_report;
use reports_filter::formats::markdown::parse_markdown_report;
use reports_filter::formats::spotbugs::{parse_spotbugs_report, spotbugs_bug_lines, spotbugs_text_is_complete};
use reports_filter::json::{Json, JsonNumber};
use reports_filter::parse::{is_input_complete, parse_sast_reports, read_reports, ReportError, ReportInput};
use reports_filter::utils::config::{ReportLayout, SAST};

fn s(x: &str) -> Json {
    Json::Str(x.to_string())
}

fn n(x: u64) -> Json {
    Json::Number(JsonNumber::Unsigned(x))
}

fn arr(items: Vec<Json>) -> Json {
    Json::Array(items)
}

fn obj(entries: Vec<(&str, Json)>) -> Json {
    Json::Object(entries.into_iter().map(|(k, v)| (k.to_string(), v)).collect())
}

fn lines(rows: &[&[&str]]) -> Vec<Vec<String>> {
    rows.iter().map(|r| r.iter().map(|x| x.to_string()).collect()).collect()
}

const ALL: [SAST; 11] = [
    SAST::REPOAUDIT,
    SAST::KNIGHTER,
    SAST::LLMDFA,
    SAST::IRIS,
    SAST::INFERROI,
    SAST::CODEQL,
    SAST::SEMGREP,
    SAST::CSA,
    SAST::SPOTBUGS,
    SAST::Codex,
    SAST::ClaudeCode,
];

#[test]
fn sast_names_are_lowercase_variant_names() {
    let names: Vec<String> = ALL.iter().map(|t| t.name()).collect();
    assert_eq!(
        names,
        vec![
            "repoaudit", "knighter", "llmdfa", "iris", "inferroi", "codeql", "semgrep", "csa",
            "spotbugs", "codex", "claudecode"
        ]
    );
}

#[test]
fn sast_name_round_trip() {
    for t in ALL.iter() {
        assert_eq!(SAST::from_name(&t.name()), Some(*t));
    }
    assert_eq!(SAST::from_name("CodeQL"), None);
    assert_eq!(SAST::from_name(""), None);
}

#[test]
fn sast_layouts() {
    assert_eq!(SAST::CODEQL.layout(), ReportLayout::TextFile);
    assert_eq!(SAST::SPOTBUGS.layout(), ReportLayout::TextFile);
    assert_eq!(SAST::Codex.layout(), ReportLayout::TextFile);
    assert_eq!(SAST::ClaudeCode.layout(), ReportLayout::TextFile);
    assert_eq!(SAST::SEMGREP.layout(), ReportLayout::JsonFile);
    assert_eq!(SAST::IRIS.layout(), ReportLayout::JsonFile);
    assert_eq!(SAST::REPOAUDIT.layout(), ReportLayout::JsonFile);
    assert_eq!(SAST::LLMDFA.layout(), ReportLayout::JsonFile);
    assert_eq!(SAST::INFERROI.layout(), ReportLayout::JsonDirectory);
    assert_eq!(SAST::KNIGHTER.layout(), ReportLayout::HtmlDirectory);
    assert_eq!(SAST::CSA.layout(), ReportLayout::HtmlDirectory);
}

#[test]
fn codeql_rows_pair_headers_with_fields() {
    let text = "java/leak,Resource leak,warning,\"Stream, not closed\",/src/A.java,10,5,10,20\n";
    let rows = parse_codeql_csv_report(text).unwrap();
    assert_eq!(
        rows,
        lines(&[&[
            "Rule Name: java/leak",
            "Rule Description: Resource leak",
            "Severity: warning",
            "Detailed Message: Stream, not closed",
            "Location-file: /src/A.java",
            "Location-start-line: 10",
            "Location-start-col: 5",
            "Location-end-line: 10",
            "Location-end-col: 20",
        ]])
    );
}

#[test]
fn codeql_short_and_long_records() {
    let rows = parse_codeql_csv_report("a,b\nc,d\n").unwrap();
    assert_eq!(
        rows,
        lines(&[&["Rule Name: a", "Rule Description: b"], &["Rule Name: c", "Rule Description: d"]])
    );
    let rows = parse_codeql_csv_report("1,2,3,4,5,6,7,8,9,10\n").unwrap();
    assert_eq!(rows[0].len(), 9);
    assert_eq!(rows[0][8], "Location-end-col: 9");
    assert_eq!(parse_codeql_csv_report("").unwrap(), Vec::<Vec<String>>::new());
}

#[test]
fn codeql_unequal_records_are_refused() {
    assert_eq!(parse_codeql_csv_report("a,b\nc\n"), Err(ReportError::Csv));
}

fn sarif_doc(results: Vec<Json>) -> Json {
    obj(vec![("runs", arr(vec![obj(vec![("results", arr(results))])]))])
}

fn location(uri: &str, line: Json) -> Json {
    obj(vec![(
        "physicalLocation",
        obj(vec![
            ("artifactLocation", obj(vec![("uri", s(uri))])),
            ("region", obj(vec![("startLine", line)])),
        ]),
    )])
}

#[test]
fn sarif_result_without_code_flow() {
    let doc = sarif_doc(vec![obj(vec![
        ("ruleId", s("java.leak")),
        ("message", obj(vec![("text", s("leaked"))])),
        ("locations", arr(vec![location("A.java", n(12)), location("B.java", s("x"))])),
    ])]);
    let rows = parse_sarif_report(&doc).unwrap();
    assert_eq!(
        rows,
        lines(&[&[
            "Rule ID: java.leak",
            "Message: leaked",
            "Location: A.java:12:java.leak; B.java:0:java.leak",
        ]])
    );
}

#[test]
fn sarif_result_with_code_flow() {
    let step = |uri: &str, line: u64, msg: &str| {
        obj(vec![
            ("location", location(uri, n(line))),
            ("message", obj(vec![("text", s(msg))])),
        ])
    };
    let flow = obj(vec![(
        "threadFlows",
        arr(vec![obj(vec![("locations", arr(vec![step("A.java", 3, "open"), step("A.java", 9, "return")]))])]),
    )]);
    let doc = sarif_doc(vec![obj(vec![("ruleId", s("r")), ("codeFlows", arr(vec![flow]))])]);
    let rows = parse_sarif_report(&doc).unwrap();
    assert_eq!(
        rows,
        lines(&[&[
            "Rule ID: r",
            "Message: ",
            "Location: ",
            "Code Flow:\nA.java:3 - open\nA.java:9 - return\n",
        ]])
    );
}

#[test]
fn sarif_without_results_is_refused() {
    assert_eq!(parse_sarif_report(&obj(vec![("runs", arr(vec![]))])), Err(ReportError::MissingResults));
    assert_eq!(parse_sarif_report(&s("x")), Err(ReportError::MissingResults));
    assert_eq!(parse_sarif_report(&sarif_doc(vec![])).unwrap(), Vec::<Vec<String>>::new());
}

const SPOTBUGS: &str = r#"<?xml version="1.0"?>
<BugCollection>
  <BugInstance type="OBL_UNSATISFIED_OBLIGATION">
    <Class classname="A"/>
    <SourceLine sourcefile="A.java" start="10" end="12"/>
    <String role="Sink method" value="java.io.FileInputStream.close"/>
    <SourceLine sourcefile="A.java" start="20"/>
    <String role="Unknown source" value="a()"/>
    <String role="Unknown source" value="b()"/>
  </BugInstance>
  <BugInstance>
    <SourceLine sourcefile="B.java" start="1" end="2"/>
  </BugInstance>
</BugCollection>
"#;

#[test]
fn spotbugs_bug_instances() {
    let rows = parse_spotbugs_report(SPOTBUGS).unwrap();
    assert_eq!(
        rows,
        lines(&[
            &[
                "Reported Bug Type: OBL_UNSATISFIED_OBLIGATION",
                "Buggy Line: A.java from Line#10-Line#12",
                "Related Lines: A.java from Line#20-Line#?",
                "Sink methods: java.io.FileInputStream.close",
                "Source methods: a(); b()",
            ],
            &[
                "Reported Bug Type: ?",
                "Buggy Line: B.java from Line#1-Line#2",
                "Sink methods: None",
                "Source methods: None",
            ],
        ])
    );
}

#[test]
fn spotbugs_without_source_line_is_incomplete() {
    let text = "<BugCollection><BugInstance type=\"X\"/></BugCollection>";
    assert!(!spotbugs_text_is_complete(text));
    assert!(spotbugs_text_is_complete(SPOTBUGS));
    assert!(spotbugs_text_is_complete("<unclosed>"));
    let input = ReportInput::Text(text.to_string());
    assert!(!is_input_complete(&input, &SAST::SPOTBUGS));
    assert_eq!(read_reports(&input, &SAST::SPOTBUGS, ""), None);
    assert!(is_input_complete(&input, &SAST::CODEQL));
}

#[test]
fn spotbugs_source_lines_per_bug() {
    assert_eq!(
        spotbugs_bug_lines(SPOTBUGS),
        Some(lines(&[
            &["A.java from Line#10-Line#12", "A.java from Line#20-Line#?"],
            &["B.java from Line#1-Line#2"],
        ]))
    );
    assert_eq!(spotbugs_bug_lines("<a>"), None);
}

#[test]
fn spotbugs_malformed_xml_is_refused() {
    assert_eq!(parse_spotbugs_report("<BugCollection>"), Err(ReportError::Xml));
}

#[test]
fn repoaudit_project_paths() {
    assert_eq!(project_path_of("/data/projects/jsoup/src/main/A.java"), "src/main/A.java");
    assert_eq!(project_path_of("/x/data/projects/vim/src/a.c"), "src/a.c");
    assert_eq!(project_path_of("plain"), "");
    assert_eq!(project_path_of("proj/file.c"), "file.c");
    assert_eq!(project_path_of("/data/projects/data/projects/"), "projects/");
    assert_eq!(project_path_of(""), "");
}

#[test]
fn repoaudit_findings() {
    let finding = obj(vec![
        ("bug_type", s("MLK")),
        ("buggy_value", s("buf")),
        (
            "relevant_functions",
            arr(vec![
                arr(vec![s("/data/projects/vim/src/a.c"), s("/data/projects/vim/src/b.c")]),
                arr(vec![s("f")]),
            ]),
        ),
        ("explanation", s("never freed")),
    ]);
    let doc = obj(vec![("0", finding), ("1", obj(vec![]))]);
    let rows = parse_repoaudit_report(&doc);
    assert_eq!(
        rows,
        lines(&[
            &[
                "Reported Bug Type: MLK",
                "Buggy Value: buf",
                "Relevant Code:\nFile path: src/a.c, Func: f\nFile path: src/b.c, Func: \n",
                "Explaination: never freed",
            ],
            &["Reported Bug Type: ", "Buggy Value: ", "Relevant Code:\n", "Explaination: "],
        ])
    );
    assert_eq!(parse_repoaudit_report(&arr(vec![])), Vec::<Vec<String>>::new());
}

#[test]
fn inferroi_findings() {
    let finding = obj(vec![
        ("method_name", s("open")),
        ("source", s("void open() {}")),
        (
            "intensions",
            arr(vec![arr(vec![s("3"), s("acquire"), s("fis"), s("FileInputStream")]), s("x"), arr(vec![s("7"), n(1), s("r"), s("R"), s("extra")])]),
        ),
        (
            "leaks",
            obj(vec![
                ("fis", obj(vec![("type", s("exception")), ("path", arr(vec![s("3"), s("5")]))])),
                ("r", obj(vec![])),
            ]),
        ),
    ]);
    let files = vec![arr(vec![finding]), obj(vec![]), arr(vec![obj(vec![])])];
    let rows = parse_inferroi_report(&files);
    assert_eq!(
        rows,
        lines(&[
            &[
                "Method Name: open",
                "Source Code:\nvoid open() {}",
                "Intensions:\nLine: 3, acquire resource, resource: fis, resource type: FileInputStream\nLine: 7,  resource, resource: r, resource type: R\n",
                "Leaks:\nLeak Value: fis, Leak Type: exception, Leak Path:\n3\n5Leak Value: r, Leak Type: , Leak Path:\n",
            ],
            &["Method Name: ", "Source Code:\n", "Intensions:\n", "Leaks:\n"],
        ])
    );
}

#[test]
fn llmdfa_report_strings() {
    let rows = parse_llmdfa_report(&arr(vec![s("first"), s("second"), n(3)])).unwrap();
    assert_eq!(rows, lines(&[&["Report: first"], &["Report: second"], &["Report: "]]));
    assert_eq!(parse_llmdfa_report(&obj(vec![])), Err(ReportError::NotAnArray));
}

#[test]
fn parse_sast_reports_dispatches_on_the_tool() {
    let csv = ReportInput::Text("a,b\n".to_string());
    assert_eq!(
        parse_sast_reports(&csv, &SAST::CODEQL, "CWE-772"),
        Ok(lines(&[&["Rule Name: a", "Rule Description: b"]]))
    );
    let doc = ReportInput::Document(arr(vec![s("r")]));
    assert_eq!(parse_sast_reports(&doc, &SAST::LLMDFA, "CWE-772"), Ok(lines(&[&["Report: r"]])));
    let sarif = ReportInput::Document(sarif_doc(vec![obj(vec![("ruleId", s("x"))])]));
    assert_eq!(
        parse_sast_reports(&sarif, &SAST::IRIS, "CWE-22"),
        parse_sast_reports(&sarif, &SAST::SEMGREP, "CWE-22")
    );
    assert_eq!(
        parse_sast_reports(&doc, &SAST::LLMDFA, "CWE-772"),
        parse_sast_reports(&doc, &SAST::LLMDFA, "CWE-22")
    );
    let dir = ReportInput::Documents(vec![]);
    assert_eq!(parse_sast_reports(&dir, &SAST::INFERROI, ""), Ok(vec![]));
}

#[test]
fn parse_sast_reports_failure_messages() {
    let bad = ReportInput::Unreadable;
    let expected = [
        (SAST::CODEQL, "Failed to parse CodeQL report"),
        (SAST::SEMGREP, "Failed to parse Semgrep SARIF report"),
        (SAST::SPOTBUGS, "Failed to parse SpotBugs XML report"),
        (SAST::REPOAUDIT, "Failed to parse RepoAudit JSON report"),
        (SAST::INFERROI, "Failed to parse InferROI report"),
        (SAST::LLMDFA, "Failed to parse LLMDFA report"),
        (SAST::IRIS, "Failed to parse IRIS SARIF report"),
        (SAST::KNIGHTER, "Failed to parse KNighter HTML reports"),
        (SAST::CSA, "Failed to parse CSA HTML reports"),
        (SAST::Codex, "Failed to parse Codex Markdown report"),
        (SAST::ClaudeCode, "Failed to parse ClaudeCode Markdown report"),
    ];
    for (tool, msg) in expected.iter() {
        assert_eq!(parse_sast_reports(&bad, tool, "CWE-772"), Err(msg.to_string()));
    }
    let csv = ReportInput::Text("a,b\nc\n".to_string());
    assert_eq!(parse_sast_reports(&csv, &SAST::CODEQL, ""), Err("Failed to parse CodeQL report".to_string()));
    let text = ReportInput::Text("[]".to_string());
    assert_eq!(parse_sast_reports(&text, &SAST::LLMDFA, ""), Err("Failed to parse LLMDFA report".to_string()));
    let xml = ReportInput::Text("<a><BugInstance>".to_string());
    assert_eq!(parse_sast_reports(&xml, &SAST::SPOTBUGS, ""), Err("Failed to parse SpotBugs XML report".to_string()));
    let html = ReportInput::Text("<html/>".to_string());
    assert_eq!(parse_sast_reports(&html, &SAST::CSA, ""), Err("Failed to parse CSA HTML reports".to_string()));
}

#[test]
fn inferroi_short_intentions_are_incomplete() {
    let finding = |intention: Json| obj(vec![("intensions", arr(vec![intention]))]);
    let complete = vec![arr(vec![finding(arr(vec![s("1"), s("2"), s("3"), s("4")]))])];
    let short = vec![arr(vec![finding(arr(vec![s("1"), s("2"), s("3")]))])];
    let not_array = vec![arr(vec![finding(s("1"))])];
    assert!(inferroi_files_complete(&complete));
    assert!(!inferroi_files_complete(&short));
    assert!(inferroi_files_complete(&not_array));
    assert!(!is_input_complete(&ReportInput::Documents(short), &SAST::INFERROI));
    assert!(is_input_complete(&ReportInput::Documents(complete), &SAST::INFERROI));
    assert!(is_input_complete(&ReportInput::Unreadable, &SAST::INFERROI));
}

fn is_key_value(line: &str) -> bool {
    let chars: Vec<char> = line.chars().collect();
    match chars.iter().position(|c| *c == ':') {
        Some(k) => k > 0 && k + 1 < chars.len() && (chars[k + 1] == ' ' || chars[k + 1] == '\n'),
        None => false,
    }
}

#[test]
fn parsed_lines_are_key_value_pairs() {
    let mut all = parse_spotbugs_report(SPOTBUGS).unwrap();
    all.extend(parse_codeql_csv_report(",,\n").unwrap());
    all.extend(parse_sarif_report(&sarif_doc(vec![obj(vec![])])).unwrap());
    all.extend(parse_repoaudit_report(&obj(vec![("k", obj(vec![]))])));
    all.extend(parse_inferroi_report(&vec![arr(vec![obj(vec![])])]));
    all.extend(parse_llmdfa_report(&arr(vec![s("a: b")])).unwrap());
    all.extend(parse_iris_report(&arr(vec![obj(vec![])])).unwrap());
    all.extend(parse_html_reports(&vec![HTML.to_string()]));
    all.extend(parse_markdown_report(MARKDOWN));
    assert!(all.len() == 11);
    for row in all.iter() {
        assert!(!row.is_empty());
        for line in row.iter() {
            assert!(is_key_value(line), "{line:?}");
        }
    }
}

#[test]
fn iris_entries_are_sarif_results() {
    let entry = obj(vec![
        ("ruleId", s("java/path-injection")),
        ("message", obj(vec![("text", s("tainted path"))])),
        ("locations", arr(vec![location("F.java", n(7))])),
    ]);
    let doc = arr(vec![obj(vec![("entry", entry)]), obj(vec![("other", n(1))])]);
    let rows = parse_iris_report(&doc).unwrap();
    assert_eq!(
        rows,
        lines(&[
            &[
                "Rule ID: java/path-injection",
                "Message: tainted path",
                "Location: F.java:7:java/path-injection",
            ],
            &["Rule ID: ", "Message: ", "Location: "],
        ])
    );
    let input = ReportInput::Document(doc);
    assert_eq!(parse_sast_reports(&input, &SAST::IRIS, "CWE-22"), Ok(rows));
}

#[test]
fn iris_sarif_documents_are_read_too() {
    let doc = sarif_doc(vec![obj(vec![("ruleId", s("x"))])]);
    assert_eq!(parse_iris_report(&doc), parse_sarif_report(&doc));
    assert_eq!(parse_iris_report(&obj(vec![])), Err(ReportError::MissingResults));
}

const MARKDOWN: &str = "# Findings\nintro\n## Report#1 Null dereference\nIn `f`, `p` may be null.\nSee line 3.\n## Report#2 Leak\n## Reported elsewhere\n";

#[test]
fn markdown_findings() {
    let rows = parse_markdown_report(MARKDOWN);
    assert_eq!(
        rows,
        lines(&[
            &["Finding: Report#1 Null dereference", "Details:\nIn `f`, `p` may be null.\nSee line 3.\n"],
            &["Finding: Report#2 Leak", "Details:\n## Reported elsewhere\n"],
        ])
    );
    assert_eq!(parse_markdown_report("no findings\n"), Vec::<Vec<String>>::new());
    assert_eq!(parse_markdown_report("## Report#9"), lines(&[&["Finding: Report#9", "Details:\n"]]));
    assert_eq!(parse_markdown_report("x ## Report#9"), Vec::<Vec<String>>::new());
    let input = ReportInput::Text(MARKDOWN.to_string());
    assert_eq!(parse_sast_reports(&input, &SAST::ClaudeCode, ""), Ok(rows.clone()));
    assert_eq!(parse_sast_reports(&input, &SAST::Codex, ""), Ok(rows));
}

const HTML: &str = "<!-- BUGTYPE Memory leak -->\n<!-- BUGFILE /src/a.c -->\n<!-- BUGLINE 42 -->\n<!-- BUGDESC Potential leak of memory pointed to by 'p' -->\n<!-- FUNCTIONNAME main -->\n<html></html>";

#[test]
fn html_bug_reports() {
    let docs = vec![HTML.to_string(), "<html>index</html>".to_string(), "<!-- BUGTYPE X".to_string()];
    let rows = parse_html_reports(&docs);
    assert_eq!(
        rows,
        lines(&[
            &[
                "Bug Type: Memory leak",
                "Bug Category: ?",
                "Bug File: /src/a.c",
                "Bug Line: 42",
                "Function: main",
                "Description: Potential leak of memory pointed to by 'p'",
            ],
            &["Bug Type: X", "Bug Category: ?", "Bug File: ?", "Bug Line: ?", "Function: ?", "Description: ?"],
        ])
    );
    let input = ReportInput::Texts(docs);
    assert_eq!(parse_sast_reports(&input, &SAST::KNIGHTER, ""), Ok(rows));
}
