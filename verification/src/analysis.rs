//! The parts of an analysis result that the issue export reads.
use vstd::prelude::*;

verus! {

/// How serious an issue is.
#[derive(Clone, Copy, Debug, PartialEq, Eq, Structural)]
pub enum Severity {
    Error,
    Warning,
    Info,
}

/// The analysis that raised a lint issue.
#[derive(Clone, Copy, Debug, PartialEq, Eq, Structural)]
pub enum LintEngine {
    Semantic,
    Lexical,
    Document,
}

/// How sure the linter is of a lint issue.
#[derive(Clone, Copy, Debug, PartialEq, Eq, Structural)]
pub enum LintConfidence {
    High,
    Medium,
    Low,
}

/// What a lint fell back to when the full analysis was not available.
#[derive(Clone, Copy, Debug, PartialEq, Eq, Structural)]
pub enum LintFallbackSource {
    ParserFallback,
    TokenizerFallback,
    HeuristicRule,
}

/// When an automatic fix may be applied.
#[derive(Clone, Copy, Debug, PartialEq, Eq, Structural)]
pub enum IssueAutofixApplicability {
    Safe,
    Unsafe,
    DisplayOnly,
}

/// A byte range of the analysed SQL.
#[derive(Clone, Copy, Debug, PartialEq, Eq, Structural)]
pub struct Span {
    pub start: usize,
    pub end: usize,
}

/// One replacement of an automatic fix.
#[derive(Clone, Debug)]
pub struct IssueAutofixEdit {
    pub span: Span,
    pub replacement: String,
}

/// An automatic fix for an issue.
#[derive(Clone, Debug)]
pub struct IssueAutofix {
    pub applicability: IssueAutofixApplicability,
    pub edits: Vec<IssueAutofixEdit>,
}

/// A problem found in the analysed SQL.
#[derive(Clone, Debug)]
pub struct Issue {
    pub severity: Severity,
    pub code: String,
    pub message: String,
    /// The position of the statement that the issue is about, if any.
    pub statement_index: Option<usize>,
    pub span: Option<Span>,
    /// The file or buffer the issue comes from, where the issue knows it.
    pub source_name: Option<String>,
    pub sqlfluff_name: Option<String>,
    pub lint_engine: Option<LintEngine>,
    pub lint_confidence: Option<LintConfidence>,
    pub lint_fallback_source: Option<LintFallbackSource>,
    pub autofix: Option<IssueAutofix>,
}

/// What the result knows of one analysed statement.
#[derive(Clone, Debug)]
pub struct StatementLineage {
    pub statement_index: usize,
    pub source_name: Option<String>,
}

/// The result of an analysis: its statements and the issues found.
#[derive(Clone, Debug)]
pub struct AnalyzeResult {
    pub statements: Vec<StatementLineage>,
    pub issues: Vec<Issue>,
}

} // verus!
