//! Normalises vulnerability reports of static-analysis and LLM-based tools into one
//! textual representation: each finding becomes a list of `"key: value"` lines.
//!
//! - [`parse`]: reading a tool's report, whatever the tool ([`parse::parse_sast_reports`]).
//! - [`formats`]: the report formats (CodeQL CSV, SARIF and IRIS, SpotBugs XML,
//!   RepoAudit, InferROI and LLMDFA JSON, KNighter/CSA HTML, codex/claudecode Markdown).
//! - [`json`], [`xml`]: the documents the formats are read from.
//! - [`text`]: joining, numerals and the splitting of paths.
//! - [`pipeline`]: the decisions of a validation run (revisions, sampling, file names).
//! - [`laws`]: what holds of every parsed report.
//! - [`utils::config`]: the tools and how their reports are laid out.

pub mod format_laws;
pub mod formats;
pub mod json;
pub mod laws;
pub mod parse;
pub mod pipeline;
pub mod text;
pub mod utils;
pub mod xml;
