use vstd::prelude::*;

verus! {

/// The tools whose reports the pipeline knows of, as named in the configuration file.
#[allow(non_camel_case_types)]
#[derive(Debug, Clone, Copy, PartialEq, Eq, Structural)]
pub enum SAST {
    REPOAUDIT,
    KNIGHTER,
    LLMDFA,
    IRIS,
    INFERROI,
    CODEQL,
    SEMGREP,
    CSA,
    SPOTBUGS,
    Codex,
    ClaudeCode,
}

/// The name of a tool in the configuration file (and in its display form):
/// the variant's name in lower case.
pub open spec fn spec_sast_name(sast: SAST) -> Seq<char> {
    match sast {
        SAST::REPOAUDIT => "repoaudit"@,
        SAST::KNIGHTER => "knighter"@,
        SAST::LLMDFA => "llmdfa"@,
        SAST::IRIS => "iris"@,
        SAST::INFERROI => "inferroi"@,
        SAST::CODEQL => "codeql"@,
        SAST::SEMGREP => "semgrep"@,
        SAST::CSA => "csa"@,
        SAST::SPOTBUGS => "spotbugs"@,
        SAST::Codex => "codex"@,
        SAST::ClaudeCode => "claudecode"@,
    }
}

/// How a tool's report is laid out on disk.
#[derive(Debug, Clone, Copy, PartialEq, Eq, Structural)]
pub enum ReportLayout {
    /// One text file (CSV, XML, Markdown).
    TextFile,
    /// One JSON file.
    JsonFile,
    /// A directory of JSON files.
    JsonDirectory,
    /// A directory of HTML files.
    HtmlDirectory,
}

/// The layout of the report of each tool.
pub open spec fn spec_layout(sast: SAST) -> ReportLayout {
    match sast {
        SAST::CODEQL | SAST::SPOTBUGS | SAST::Codex | SAST::ClaudeCode => ReportLayout::TextFile,
        SAST::SEMGREP | SAST::IRIS | SAST::REPOAUDIT | SAST::LLMDFA => ReportLayout::JsonFile,
        SAST::INFERROI => ReportLayout::JsonDirectory,
        SAST::KNIGHTER | SAST::CSA => ReportLayout::HtmlDirectory,
    }
}

/// The tool that a configuration names, where it names one.
pub open spec fn spec_sast_from_name(name: Seq<char>) -> Option<SAST> {
    if name == "repoaudit"@ {
        Some(SAST::REPOAUDIT)
    } else if name == "knighter"@ {
        Some(SAST::KNIGHTER)
    } else if name == "llmdfa"@ {
        Some(SAST::LLMDFA)
    } else if name == "iris"@ {
        Some(SAST::IRIS)
    } else if name == "inferroi"@ {
        Some(SAST::INFERROI)
    } else if name == "codeql"@ {
        Some(SAST::CODEQL)
    } else if name == "semgrep"@ {
        Some(SAST::SEMGREP)
    } else if name == "csa"@ {
        Some(SAST::CSA)
    } else if name == "spotbugs"@ {
        Some(SAST::SPOTBUGS)
    } else if name == "codex"@ {
        Some(SAST::Codex)
    } else if name == "claudecode"@ {
        Some(SAST::ClaudeCode)
    } else {
        None
    }
}

impl SAST {
    /// The tool that a configuration names (`sast: codeql` and the like); none for a
    /// name of no tool.
    pub fn from_name(name: &str) -> (res: Option<SAST>)
        ensures
            res == spec_sast_from_name(name@),
    {
        let n = String::from_str(name);
        if n == String::from_str("repoaudit") {
            Some(SAST::REPOAUDIT)
        } else if n == String::from_str("knighter") {
            Some(SAST::KNIGHTER)
        } else if n == String::from_str("llmdfa") {
            Some(SAST::LLMDFA)
        } else if n == String::from_str("iris") {
            Some(SAST::IRIS)
        } else if n == String::from_str("inferroi") {
            Some(SAST::INFERROI)
        } else if n == String::from_str("codeql") {
            Some(SAST::CODEQL)
        } else if n == String::from_str("semgrep") {
            Some(SAST::SEMGREP)
        } else if n == String::from_str("csa") {
            Some(SAST::CSA)
        } else if n == String::from_str("spotbugs") {
            Some(SAST::SPOTBUGS)
        } else if n == String::from_str("codex") {
            Some(SAST::Codex)
        } else if n == String::from_str("claudecode") {
            Some(SAST::ClaudeCode)
        } else {
            None
        }
    }

    /// How the report of this tool is laid out.
    pub fn layout(&self) -> (res: ReportLayout)
        ensures
            res == spec_layout(*self),
    {
        match self {
            SAST::CODEQL | SAST::SPOTBUGS | SAST::Codex | SAST::ClaudeCode => ReportLayout::TextFile,
            SAST::SEMGREP | SAST::IRIS | SAST::REPOAUDIT | SAST::LLMDFA => ReportLayout::JsonFile,
            SAST::INFERROI => ReportLayout::JsonDirectory,
            SAST::KNIGHTER | SAST::CSA => ReportLayout::HtmlDirectory,
        }
    }

    /// The tool's name, as the configuration file spells it.
    pub fn name(&self) -> (res: String)
        ensures
            res@ == spec_sast_name(*self),
    {
        let s = match self {
            SAST::REPOAUDIT => "repoaudit",
            SAST::KNIGHTER => "knighter",
            SAST::LLMDFA => "llmdfa",
            SAST::IRIS => "iris",
            SAST::INFERROI => "inferroi",
            SAST::CODEQL => "codeql",
            SAST::SEMGREP => "semgrep",
            SAST::CSA => "csa",
            SAST::SPOTBUGS => "spotbugs",
            SAST::Codex => "codex",
            SAST::ClaudeCode => "claudecode",
        };
        String::from_str(s)
    }
}

/// A tool's name names that tool, and no other: the names of the tools are told
/// apart, and the configuration reads back what the display form writes.
pub proof fn lemma_name_round_trip(sast: SAST)
    ensures
        spec_sast_from_name(spec_sast_name(sast)) == Some(sast),
{
    reveal_strlit("repoaudit");
    reveal_strlit("knighter");
    reveal_strlit("llmdfa");
    reveal_strlit("iris");
    reveal_strlit("inferroi");
    reveal_strlit("codeql");
    reveal_strlit("semgrep");
    reveal_strlit("csa");
    reveal_strlit("spotbugs");
    reveal_strlit("codex");
    reveal_strlit("claudecode");
    let n = spec_sast_name(sast);
    assert(n.len() > 0);
    // Names of equal length differ in their first character, or in the second.
    assert("repoaudit"@[0] == 'r' && "knighter"@[0] == 'k' && "llmdfa"@[0] == 'l');
    assert("iris"@[0] == 'i' && "inferroi"@[0] == 'i' && "codeql"@[0] == 'c');
    assert("semgrep"@[0] == 's' && "csa"@[0] == 'c' && "spotbugs"@[0] == 's');
    assert("codex"@[0] == 'c' && "claudecode"@[0] == 'c');
    assert("inferroi"@[1] == 'n' && "knighter"@[1] == 'n' && "spotbugs"@[1] == 'p');
    assert("codeql"@[0] != "llmdfa"@[0]);
}

/// Two tools with the same name are the same tool.
pub proof fn lemma_names_distinct(a: SAST, b: SAST)
    requires
        spec_sast_name(a) == spec_sast_name(b),
    ensures
        a == b,
{
    lemma_name_round_trip(a);
    lemma_name_round_trip(b);
}

} // verus!
