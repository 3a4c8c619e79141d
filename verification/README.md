# reports_filter

A verified library that reads the reports of static-analysis and LLM-based
vulnerability finders (CodeQL, Semgrep and IRIS, SpotBugs, RepoAudit, InferROI,
LLMDFA, KNighter and the Clang Static Analyzer, codex and claudecode) into one
textual form: each finding becomes a list of `key: value` lines.
Every parser states, over a model of its input, exactly which lines it produces;
`src/laws.rs` proves properties that hold of every parsed report.

- `src/` — the library, verified with Verus. CSV and XML are read through the `csv`
  and `roxmltree` crates behind small trusted wrappers; JSON documents come in as
  the library's own `Json` values.
- `app/` — the command-line program: configuration, logging, reading the report
  files and the Codex validation runs; the sampling of findings is in `src/`
  (`pipeline::sample_reports`), with the random draw behind a trusted wrapper.
- `tests/` — tests of the library on concrete reports.
