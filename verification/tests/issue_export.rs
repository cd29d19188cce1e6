use flowscope::analysis::{
    AnalyzeResult, Issue, IssueAutofix, IssueAutofixApplicability, IssueAutofixEdit,
    LintConfidence, LintEngine, LintFallbackSource, Severity, Span, StatementLineage,
};
use flowscope::decimal::decimal_string;
use flowscope::issue_export::{
    autofix_applicability, issue_row, issue_rows, lint_confidence, lint_engine,
    lint_fallback_source, severity, ISSUE_HEADERS,
};

fn bare_issue() -> Issue {
    Issue {
        severity: Severity::Warning,
        code: "LT01".to_string(),
        message: "Trailing whitespace".to_string(),
        statement_index: None,
        span: None,
        source_name: None,
        sqlfluff_name: None,
        lint_engine: None,
        lint_confidence: None,
        lint_fallback_source: None,
        autofix: None,
    }
}

fn statement(index: usize, source_name: Option<&str>) -> StatementLineage {
    StatementLineage { statement_index: index, source_name: source_name.map(|s| s.to_string()) }
}

#[test]
fn labels() {
    assert_eq!(severity(Severity::Error), "error");
    assert_eq!(severity(Severity::Warning), "warning");
    assert_eq!(severity(Severity::Info), "info");
    assert_eq!(lint_engine(LintEngine::Semantic), "semantic");
    assert_eq!(lint_engine(LintEngine::Lexical), "lexical");
    assert_eq!(lint_engine(LintEngine::Document), "document");
    assert_eq!(lint_confidence(LintConfidence::High), "high");
    assert_eq!(lint_confidence(LintConfidence::Medium), "medium");
    assert_eq!(lint_confidence(LintConfidence::Low), "low");
    assert_eq!(lint_fallback_source(LintFallbackSource::ParserFallback), "parser_fallback");
    assert_eq!(lint_fallback_source(LintFallbackSource::TokenizerFallback), "tokenizer_fallback");
    assert_eq!(lint_fallback_source(LintFallbackSource::HeuristicRule), "heuristic_rule");
    assert_eq!(autofix_applicability(IssueAutofixApplicability::Safe), "safe");
    assert_eq!(autofix_applicability(IssueAutofixApplicability::Unsafe), "unsafe");
    assert_eq!(autofix_applicability(IssueAutofixApplicability::DisplayOnly), "displayOnly");
}

#[test]
fn labels_tell_values_apart() {
    let severities = [Severity::Error, Severity::Warning, Severity::Info];
    for a in severities {
        assert!(!severity(a).is_empty());
        for b in severities {
            assert_eq!(severity(a) == severity(b), a == b);
        }
    }
    let engines = [LintEngine::Semantic, LintEngine::Lexical, LintEngine::Document];
    for a in engines {
        for b in engines {
            assert_eq!(lint_engine(a) == lint_engine(b), a == b);
        }
    }
}

#[test]
fn headers() {
    assert_eq!(ISSUE_HEADERS.len(), 14);
    assert_eq!(ISSUE_HEADERS[0], "Severity");
    assert_eq!(ISSUE_HEADERS[6], "Source Name");
    assert_eq!(ISSUE_HEADERS[13], "Autofix JSON");
}

#[test]
fn decimal_rendering() {
    assert_eq!(decimal_string(0), "0");
    assert_eq!(decimal_string(9), "9");
    assert_eq!(decimal_string(10), "10");
    assert_eq!(decimal_string(305), "305");
    assert_eq!(decimal_string(usize::MAX), usize::MAX.to_string());
}

#[test]
fn bare_issue_gives_empty_fields() {
    let result = AnalyzeResult { statements: vec![], issues: vec![] };
    let row = issue_row(&result, &bare_issue(), "{\"ignored\":true}");
    assert_eq!(row.severity, "warning");
    assert_eq!(row.code, "LT01");
    assert_eq!(row.message, "Trailing whitespace");
    assert_eq!(row.statement, "");
    assert_eq!(row.span_start, "");
    assert_eq!(row.span_end, "");
    assert_eq!(row.source_name, "");
    assert_eq!(row.sqlfluff_name, "");
    assert_eq!(row.lint_engine, "");
    assert_eq!(row.lint_confidence, "");
    assert_eq!(row.lint_fallback_source, "");
    assert_eq!(row.autofix_applicability, "");
    assert_eq!(row.autofix_edit_count, "");
    assert_eq!(row.autofix_json, "");
}

#[test]
fn full_issue_row() {
    let result = AnalyzeResult { statements: vec![statement(2, Some("q.sql"))], issues: vec![] };
    let mut issue = bare_issue();
    issue.severity = Severity::Error;
    issue.statement_index = Some(2);
    issue.span = Some(Span { start: 7, end: 42 });
    issue.sqlfluff_name = Some("layout.spacing".to_string());
    issue.lint_engine = Some(LintEngine::Lexical);
    issue.lint_confidence = Some(LintConfidence::Medium);
    issue.lint_fallback_source = Some(LintFallbackSource::TokenizerFallback);
    issue.autofix = Some(IssueAutofix {
        applicability: IssueAutofixApplicability::DisplayOnly,
        edits: vec![
            IssueAutofixEdit { span: Span { start: 7, end: 8 }, replacement: String::new() },
            IssueAutofixEdit { span: Span { start: 9, end: 10 }, replacement: " ".to_string() },
        ],
    });
    let row = issue_row(&result, &issue, "{\"edits\":2}");
    assert_eq!(row.severity, "error");
    assert_eq!(row.statement, "2");
    assert_eq!(row.span_start, "7");
    assert_eq!(row.span_end, "42");
    assert_eq!(row.source_name, "q.sql");
    assert_eq!(row.sqlfluff_name, "layout.spacing");
    assert_eq!(row.lint_engine, "lexical");
    assert_eq!(row.lint_confidence, "medium");
    assert_eq!(row.lint_fallback_source, "tokenizer_fallback");
    assert_eq!(row.autofix_applicability, "displayOnly");
    assert_eq!(row.autofix_edit_count, "2");
    assert_eq!(row.autofix_json, "{\"edits\":2}");
}

#[test]
fn issue_source_name_comes_first() {
    let result = AnalyzeResult { statements: vec![statement(0, Some("stmt.sql"))], issues: vec![] };
    let mut issue = bare_issue();
    issue.statement_index = Some(0);
    issue.source_name = Some("own.sql".to_string());
    assert_eq!(issue_row(&result, &issue, "").source_name, "own.sql");
}

#[test]
fn source_name_of_the_first_matching_statement() {
    let result = AnalyzeResult {
        statements: vec![statement(1, Some("one.sql")), statement(3, None), statement(3, Some("three.sql"))],
        issues: vec![],
    };
    let mut issue = bare_issue();
    issue.statement_index = Some(1);
    assert_eq!(issue_row(&result, &issue, "").source_name, "one.sql");
    // The first statement with index 3 has no source name; a later one is not consulted.
    issue.statement_index = Some(3);
    assert_eq!(issue_row(&result, &issue, "").source_name, "");
    // No statement has index 5.
    issue.statement_index = Some(5);
    assert_eq!(issue_row(&result, &issue, "").source_name, "");
    assert_eq!(issue_row(&result, &issue, "").statement, "5");
}

#[test]
fn rows_follow_the_issues() {
    let mut second = bare_issue();
    second.severity = Severity::Info;
    second.code = "AM01".to_string();
    second.autofix = Some(IssueAutofix { applicability: IssueAutofixApplicability::Safe, edits: vec![] });
    let result = AnalyzeResult { statements: vec![], issues: vec![bare_issue(), second] };
    let json = vec!["unused".to_string(), "{}".to_string()];
    let rows = issue_rows(&result, &json);
    assert_eq!(rows.len(), 2);
    assert_eq!(rows[0].code, "LT01");
    assert_eq!(rows[0].autofix_json, "");
    assert_eq!(rows[1].code, "AM01");
    assert_eq!(rows[1].severity, "info");
    assert_eq!(rows[1].autofix_applicability, "safe");
    assert_eq!(rows[1].autofix_edit_count, "0");
    assert_eq!(rows[1].autofix_json, "{}");
}

#[test]
fn no_issues_no_rows() {
    let result = AnalyzeResult { statements: vec![statement(0, None)], issues: vec![] };
    assert!(issue_rows(&result, &vec![]).is_empty());
}
