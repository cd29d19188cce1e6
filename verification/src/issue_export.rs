//! The rows of the issue export: one row of text fields per issue.
use vstd::prelude::*;
use crate::analysis::{
    AnalyzeResult, Issue, IssueAutofixApplicability, LintConfidence, LintEngine,
    LintFallbackSource, Severity, StatementLineage,
};
use crate::decimal::{
    decimal, decimal_string, decimal_value, is_decimal_text, lemma_decimal_reads_back,
};

verus! {

/// The column headers of the issue export, in the order of the row's fields.
pub const ISSUE_HEADERS: [&'static str; 14] = [
    "Severity",
    "Code",
    "Message",
    "Statement",
    "Span Start",
    "Span End",
    "Source Name",
    "SQLFluff Name",
    "Lint Engine",
    "Lint Confidence",
    "Lint Fallback Source",
    "Autofix Applicability",
    "Autofix Edit Count",
    "Autofix JSON",
];

/// One exported issue, as text.
#[derive(Clone, Debug)]
pub struct IssueExportRow {
    pub severity: &'static str,
    pub code: String,
    pub message: String,
    pub statement: String,
    pub span_start: String,
    pub span_end: String,
    pub source_name: String,
    pub sqlfluff_name: String,
    pub lint_engine: String,
    pub lint_confidence: String,
    pub lint_fallback_source: String,
    pub autofix_applicability: String,
    pub autofix_edit_count: String,
    pub autofix_json: String,
}

/// The text of each field of an [`IssueExportRow`].
pub struct IssueExportRowView {
    pub severity: Seq<char>,
    pub code: Seq<char>,
    pub message: Seq<char>,
    pub statement: Seq<char>,
    pub span_start: Seq<char>,
    pub span_end: Seq<char>,
    pub source_name: Seq<char>,
    pub sqlfluff_name: Seq<char>,
    pub lint_engine: Seq<char>,
    pub lint_confidence: Seq<char>,
    pub lint_fallback_source: Seq<char>,
    pub autofix_applicability: Seq<char>,
    pub autofix_edit_count: Seq<char>,
    pub autofix_json: Seq<char>,
}

impl View for IssueExportRow {
    type V = IssueExportRowView;

    open spec fn view(&self) -> IssueExportRowView {
        IssueExportRowView {
            severity: self.severity@,
            code: self.code@,
            message: self.message@,
            statement: self.statement@,
            span_start: self.span_start@,
            span_end: self.span_end@,
            source_name: self.source_name@,
            sqlfluff_name: self.sqlfluff_name@,
            lint_engine: self.lint_engine@,
            lint_confidence: self.lint_confidence@,
            lint_fallback_source: self.lint_fallback_source@,
            autofix_applicability: self.autofix_applicability@,
            autofix_edit_count: self.autofix_edit_count@,
            autofix_json: self.autofix_json@,
        }
    }
}

/// The export's word for a severity.
pub open spec fn severity_label(value: Severity) -> Seq<char> {
    match value {
        Severity::Error => "error"@,
        Severity::Warning => "warning"@,
        Severity::Info => "info"@,
    }
}

/// The export's word for a lint engine.
pub open spec fn lint_engine_label(value: LintEngine) -> Seq<char> {
    match value {
        LintEngine::Semantic => "semantic"@,
        LintEngine::Lexical => "lexical"@,
        LintEngine::Document => "document"@,
    }
}

/// The export's word for a lint confidence.
pub open spec fn lint_confidence_label(value: LintConfidence) -> Seq<char> {
    match value {
        LintConfidence::High => "high"@,
        LintConfidence::Medium => "medium"@,
        LintConfidence::Low => "low"@,
    }
}

/// The export's word for a lint fallback source.
pub open spec fn lint_fallback_source_label(value: LintFallbackSource) -> Seq<char> {
    match value {
        LintFallbackSource::ParserFallback => "parser_fallback"@,
        LintFallbackSource::TokenizerFallback => "tokenizer_fallback"@,
        LintFallbackSource::HeuristicRule => "heuristic_rule"@,
    }
}

/// The export's word for an autofix applicability.
pub open spec fn autofix_applicability_label(value: IssueAutofixApplicability) -> Seq<char> {
    match value {
        IssueAutofixApplicability::Safe => "safe"@,
        IssueAutofixApplicability::Unsafe => "unsafe"@,
        IssueAutofixApplicability::DisplayOnly => "displayOnly"@,
    }
}

/// The text of an optional string; empty where there is none.
pub open spec fn text_or_empty(value: Option<String>) -> Seq<char> {
    match value {
        Some(s) => s@,
        None => seq![],
    }
}

/// The source name of the first statement, from position `from` on, whose
/// index is `index`: `None` where no statement has that index, and where the
/// first that has it has no source name.
pub open spec fn statement_source_name(statements: Seq<StatementLineage>, index: usize, from: int) -> Option<Seq<char>>
    decreases statements.len() - from,
{
    if from < 0 || from >= statements.len() {
        None
    } else if statements[from].statement_index == index {
        match statements[from].source_name {
            Some(s) => Some(s@),
            None => None,
        }
    } else {
        statement_source_name(statements, index, from + 1)
    }
}

/// The source name exported for `issue`: its own where it has one, else that
/// of the statement it points to.
pub open spec fn issue_source_name(result: AnalyzeResult, issue: Issue) -> Seq<char> {
    match issue.source_name {
        Some(s) => s@,
        None => match issue.statement_index {
            Some(index) => match statement_source_name(result.statements@, index, 0) {
                Some(s) => s,
                None => seq![],
            },
            None => seq![],
        },
    }
}

/// The row exported for `issue` of `result`, where `autofix_json` is the JSON
/// text of the issue's autofix (empty where it could not be written).
pub open spec fn expected_row(result: AnalyzeResult, issue: Issue, autofix_json: Seq<char>) -> IssueExportRowView {
    IssueExportRowView {
        severity: severity_label(issue.severity),
        code: issue.code@,
        message: issue.message@,
        statement: match issue.statement_index {
            Some(index) => decimal(index as nat),
            None => seq![],
        },
        span_start: match issue.span {
            Some(span) => decimal(span.start as nat),
            None => seq![],
        },
        span_end: match issue.span {
            Some(span) => decimal(span.end as nat),
            None => seq![],
        },
        source_name: issue_source_name(result, issue),
        sqlfluff_name: text_or_empty(issue.sqlfluff_name),
        lint_engine: match issue.lint_engine {
            Some(v) => lint_engine_label(v),
            None => seq![],
        },
        lint_confidence: match issue.lint_confidence {
            Some(v) => lint_confidence_label(v),
            None => seq![],
        },
        lint_fallback_source: match issue.lint_fallback_source {
            Some(v) => lint_fallback_source_label(v),
            None => seq![],
        },
        autofix_applicability: match issue.autofix {
            Some(a) => autofix_applicability_label(a.applicability),
            None => seq![],
        },
        autofix_edit_count: match issue.autofix {
            Some(a) => decimal(a.edits.len() as nat),
            None => seq![],
        },
        autofix_json: match issue.autofix {
            Some(_) => autofix_json,
            None => seq![],
        },
    }
}

/// The export's word for a severity.
pub fn severity(value: Severity) -> (label: &'static str)
    ensures
        label@ == severity_label(value),
{
    match value {
        Severity::Error => "error",
        Severity::Warning => "warning",
        Severity::Info => "info",
    }
}

/// The export's word for a lint engine.
pub fn lint_engine(value: LintEngine) -> (label: &'static str)
    ensures
        label@ == lint_engine_label(value),
{
    match value {
        LintEngine::Semantic => "semantic",
        LintEngine::Lexical => "lexical",
        LintEngine::Document => "document",
    }
}

/// The export's word for a lint confidence.
pub fn lint_confidence(value: LintConfidence) -> (label: &'static str)
    ensures
        label@ == lint_confidence_label(value),
{
    match value {
        LintConfidence::High => "high",
        LintConfidence::Medium => "medium",
        LintConfidence::Low => "low",
    }
}

/// The export's word for a lint fallback source.
pub fn lint_fallback_source(value: LintFallbackSource) -> (label: &'static str)
    ensures
        label@ == lint_fallback_source_label(value),
{
    match value {
        LintFallbackSource::ParserFallback => "parser_fallback",
        LintFallbackSource::TokenizerFallback => "tokenizer_fallback",
        LintFallbackSource::HeuristicRule => "heuristic_rule",
    }
}

/// The export's word for an autofix applicability.
pub fn autofix_applicability(value: IssueAutofixApplicability) -> (label: &'static str)
    ensures
        label@ == autofix_applicability_label(value),
{
    match value {
        IssueAutofixApplicability::Safe => "safe",
        IssueAutofixApplicability::Unsafe => "unsafe",
        IssueAutofixApplicability::DisplayOnly => "displayOnly",
    }
}

/// The source name of the first statement of `statements` whose index is
/// `index`, as in [`statement_source_name`].
fn find_statement_source_name(statements: &Vec<StatementLineage>, index: usize) -> (name: Option<String>)
    ensures
        match name {
            Some(s) => statement_source_name(statements@, index, 0) == Some(s@),
            None => statement_source_name(statements@, index, 0) is None,
        },
{
    let mut i: usize = 0;
    while i < statements.len()
        invariant
            i <= statements.len(),
            statement_source_name(statements@, index, 0) == statement_source_name(
                statements@,
                index,
                i as int,
            ),
        decreases statements.len() - i,
    {
        if statements[i].statement_index == index {
            return match &statements[i].source_name {
                Some(s) => Some(s.clone()),
                None => None,
            };
        }
        i = i + 1;
    }
    None
}

/// The row exported for `issue` of `result`. `autofix_json` is the JSON text
/// of the issue's autofix (empty where it could not be written); it stands in
/// the row only where the issue has an autofix.
pub fn issue_row(result: &AnalyzeResult, issue: &Issue, autofix_json: &str) -> (row: IssueExportRow)
    ensures
        row@ == expected_row(*result, *issue, autofix_json@),
{
    let statement = match issue.statement_index {
        Some(index) => decimal_string(index),
        None => String::new(),
    };
    let source_name = match &issue.source_name {
        Some(name) => name.clone(),
        None => match issue.statement_index {
            Some(index) => match find_statement_source_name(&result.statements, index) {
                Some(name) => name,
                None => String::new(),
            },
            None => String::new(),
        },
    };
    let (span_start, span_end) = match issue.span {
        Some(span) => (decimal_string(span.start), decimal_string(span.end)),
        None => (String::new(), String::new()),
    };
    let (autofix_applicability_text, autofix_edit_count, autofix_json_text) = match &issue.autofix {
        Some(autofix) => (
            String::from_str(autofix_applicability(autofix.applicability)),
            decimal_string(autofix.edits.len()),
            String::from_str(autofix_json),
        ),
        None => (String::new(), String::new(), String::new()),
    };
    let sqlfluff_name = match &issue.sqlfluff_name {
        Some(name) => name.clone(),
        None => String::new(),
    };
    let lint_engine_text = match issue.lint_engine {
        Some(value) => String::from_str(lint_engine(value)),
        None => String::new(),
    };
    let lint_confidence_text = match issue.lint_confidence {
        Some(value) => String::from_str(lint_confidence(value)),
        None => String::new(),
    };
    let lint_fallback_source_text = match issue.lint_fallback_source {
        Some(value) => String::from_str(lint_fallback_source(value)),
        None => String::new(),
    };
    IssueExportRow {
        severity: severity(issue.severity),
        code: issue.code.clone(),
        message: issue.message.clone(),
        statement,
        span_start,
        span_end,
        source_name,
        sqlfluff_name,
        lint_engine: lint_engine_text,
        lint_confidence: lint_confidence_text,
        lint_fallback_source: lint_fallback_source_text,
        autofix_applicability: autofix_applicability_text,
        autofix_edit_count,
        autofix_json: autofix_json_text,
    }
}

/// One row per issue of `result`, in the order of the issues.
/// `autofix_json[i]` is the JSON text of the autofix of the `i`-th issue
/// (empty where it could not be written, and not read where the issue has
/// no autofix).
pub fn issue_rows(result: &AnalyzeResult, autofix_json: &Vec<String>) -> (rows: Vec<IssueExportRow>)
    requires
        autofix_json.len() == result.issues.len(),
    ensures
        rows.len() == result.issues.len(),
        forall|i: int|
            0 <= i < rows.len() ==> #[trigger] rows[i]@ == expected_row(
                *result,
                result.issues[i],
                autofix_json[i]@,
            ),
{
    let mut rows: Vec<IssueExportRow> = Vec::new();
    let mut i: usize = 0;
    while i < result.issues.len()
        invariant
            i <= result.issues.len(),
            autofix_json.len() == result.issues.len(),
            rows.len() == i,
            forall|j: int|
                0 <= j < i ==> #[trigger] rows[j]@ == expected_row(
                    *result,
                    result.issues[j],
                    autofix_json[j]@,
                ),
        decreases result.issues.len() - i,
    {
        let row = issue_row(result, &result.issues[i], autofix_json[i].as_str());
        rows.push(row);
        i = i + 1;
    }
    rows
}

/// Every severity is exported as a word that is not empty, and no two
/// severity values share one, so the word gives the value back.
pub proof fn lemma_severity_label_identifies(a: Severity, b: Severity)
    ensures
        severity_label(a).len() > 0,
        severity_label(a) == severity_label(b) ==> a == b,
{
    reveal_strlit("error");
    reveal_strlit("warning");
    reveal_strlit("info");
    if severity_label(a) == severity_label(b) && a != b {
        assert(severity_label(a)[0] != severity_label(b)[0]);
    }
}

/// Every lint engine is exported as a word that is not empty, and no two
/// lint engine values share one, so the word gives the value back.
pub proof fn lemma_lint_engine_label_identifies(a: LintEngine, b: LintEngine)
    ensures
        lint_engine_label(a).len() > 0,
        lint_engine_label(a) == lint_engine_label(b) ==> a == b,
{
    reveal_strlit("semantic");
    reveal_strlit("lexical");
    reveal_strlit("document");
    if lint_engine_label(a) == lint_engine_label(b) && a != b {
        assert(lint_engine_label(a)[0] != lint_engine_label(b)[0]);
    }
}

/// Every lint confidence is exported as a word that is not empty, and no two
/// lint confidence values share one, so the word gives the value back.
pub proof fn lemma_lint_confidence_label_identifies(a: LintConfidence, b: LintConfidence)
    ensures
        lint_confidence_label(a).len() > 0,
        lint_confidence_label(a) == lint_confidence_label(b) ==> a == b,
{
    reveal_strlit("high");
    reveal_strlit("medium");
    reveal_strlit("low");
    if lint_confidence_label(a) == lint_confidence_label(b) && a != b {
        assert(lint_confidence_label(a)[0] != lint_confidence_label(b)[0]);
    }
}

/// Every lint fallback source is exported as a word that is not empty, and no two
/// lint fallback source values share one, so the word gives the value back.
pub proof fn lemma_lint_fallback_source_label_identifies(a: LintFallbackSource, b: LintFallbackSource)
    ensures
        lint_fallback_source_label(a).len() > 0,
        lint_fallback_source_label(a) == lint_fallback_source_label(b) ==> a == b,
{
    reveal_strlit("parser_fallback");
    reveal_strlit("tokenizer_fallback");
    reveal_strlit("heuristic_rule");
    if lint_fallback_source_label(a) == lint_fallback_source_label(b) && a != b {
        assert(lint_fallback_source_label(a)[0] != lint_fallback_source_label(b)[0]);
    }
}

/// Every autofix applicability is exported as a word that is not empty, and no two
/// autofix applicability values share one, so the word gives the value back.
pub proof fn lemma_autofix_applicability_label_identifies(a: IssueAutofixApplicability, b: IssueAutofixApplicability)
    ensures
        autofix_applicability_label(a).len() > 0,
        autofix_applicability_label(a) == autofix_applicability_label(b) ==> a == b,
{
    reveal_strlit("safe");
    reveal_strlit("unsafe");
    reveal_strlit("displayOnly");
    if autofix_applicability_label(a) == autofix_applicability_label(b) && a != b {
        assert(autofix_applicability_label(a)[0] != autofix_applicability_label(b)[0]);
    }
}

/// Every number in a row reads back: the statement field is empty exactly
/// when the issue has no statement index, and otherwise is decimal text that
/// spells the index (`0` included); likewise the span fields for the span and
/// the edit count for the number of edits of the autofix.
pub proof fn lemma_row_numbers_read_back(result: AnalyzeResult, issue: Issue, autofix_json: Seq<char>)
    ensures
        ({
            let row = expected_row(result, issue, autofix_json);
            &&& (row.statement.len() == 0 <==> issue.statement_index is None)
            &&& (issue.statement_index matches Some(i) ==> is_decimal_text(row.statement)
                && decimal_value(row.statement) == i)
            &&& (row.span_start.len() == 0 <==> issue.span is None)
            &&& (row.span_end.len() == 0 <==> issue.span is None)
            &&& (issue.span matches Some(span) ==> is_decimal_text(row.span_start)
                && decimal_value(row.span_start) == span.start && is_decimal_text(row.span_end)
                && decimal_value(row.span_end) == span.end)
            &&& (row.autofix_edit_count.len() == 0 <==> issue.autofix is None)
            &&& (issue.autofix matches Some(autofix) ==> is_decimal_text(row.autofix_edit_count)
                && decimal_value(row.autofix_edit_count) == autofix.edits.len())
        }),
{
    if let Some(i) = issue.statement_index {
        lemma_decimal_reads_back(i as nat);
    }
    if let Some(span) = issue.span {
        lemma_decimal_reads_back(span.start as nat);
        lemma_decimal_reads_back(span.end as nat);
    }
    if let Some(autofix) = issue.autofix {
        lemma_decimal_reads_back(autofix.edits.len() as nat);
    }
}

/// The first statement, from position `from` on, with index `index` decides
/// the lookup: its source name, if it has one.
proof fn lemma_first_statement_decides(
    statements: Seq<StatementLineage>,
    index: usize,
    from: int,
    k: int,
)
    requires
        0 <= from <= k < statements.len(),
        statements[k].statement_index == index,
        forall|j: int| from <= j < k ==> #[trigger] statements[j].statement_index != index,
    ensures
        statement_source_name(statements, index, from) == match statements[k].source_name {
            Some(s) => Some(s@),
            None => None,
        },
    decreases k - from,
{
    if from < k {
        lemma_first_statement_decides(statements, index, from + 1, k);
    }
}

/// Where no statement from position `from` on has index `index`, the lookup
/// finds nothing.
proof fn lemma_no_statement_found(statements: Seq<StatementLineage>, index: usize, from: int)
    requires
        0 <= from,
        forall|j: int| from <= j < statements.len() ==> #[trigger] statements[j].statement_index
            != index,
    ensures
        statement_source_name(statements, index, from) is None,
    decreases statements.len() - from,
{
    if from < statements.len() {
        lemma_no_statement_found(statements, index, from + 1);
    }
}

/// The source name of a row: the issue's own whenever it has one, whatever
/// its statement index; else, for an issue on statement `i`, the source name
/// of the first statement of the result whose index is `i` (empty where that
/// statement has none, or no statement has index `i`); else empty.
pub proof fn lemma_row_source_name(result: AnalyzeResult, issue: Issue, autofix_json: Seq<char>)
    ensures
        ({
            let row = expected_row(result, issue, autofix_json);
            let statements = result.statements@;
            &&& (issue.source_name matches Some(s) ==> row.source_name == s@)
            &&& (issue.source_name is None && issue.statement_index is None
                ==> row.source_name.len() == 0)
            &&& (issue.source_name is None ==> (issue.statement_index matches Some(i) ==> {
                &&& (forall|k: int| 0 <= k < statements.len()
                    ==> #[trigger] statements[k].statement_index != i) ==> row.source_name.len() == 0
                &&& forall|k: int|
                    0 <= k < statements.len() && #[trigger] statements[k].statement_index == i
                        && (forall|j: int| 0 <= j < k ==> statements[j].statement_index != i)
                        ==> row.source_name == text_or_empty(statements[k].source_name)
            }))
        }),
{
    let statements = result.statements@;
    if issue.source_name is None {
        if let Some(i) = issue.statement_index {
            if forall|k: int| 0 <= k < statements.len() ==> #[trigger] statements[k].statement_index != i {
                lemma_no_statement_found(statements, i, 0);
            }
            assert forall|k: int|
                0 <= k < statements.len() && #[trigger] statements[k].statement_index == i
                    && (forall|j: int| 0 <= j < k ==> statements[j].statement_index != i) implies
                expected_row(result, issue, autofix_json).source_name == text_or_empty(statements[k].source_name) by {
                lemma_first_statement_decides(statements, i, 0, k);
            }
        }
    }
}

/// The text fields of a row: code and message are the issue's, each
/// optional field is empty exactly when the issue lacks it, and the autofix
/// JSON stands in the row exactly when the issue has an autofix.
pub proof fn lemma_row_text_fields(result: AnalyzeResult, issue: Issue, autofix_json: Seq<char>)
    ensures
        ({
            let row = expected_row(result, issue, autofix_json);
            &&& row.code == issue.code@
            &&& row.message == issue.message@
            &&& row.severity.len() > 0
            &&& (row.sqlfluff_name == match issue.sqlfluff_name {
                Some(s) => s@,
                None => Seq::<char>::empty(),
            })
            &&& (row.lint_engine.len() == 0 <==> issue.lint_engine is None)
            &&& (row.lint_confidence.len() == 0 <==> issue.lint_confidence is None)
            &&& (row.lint_fallback_source.len() == 0 <==> issue.lint_fallback_source is None)
            &&& (row.autofix_applicability.len() == 0 <==> issue.autofix is None)
            &&& (issue.autofix is Some ==> row.autofix_json == autofix_json)
            &&& (issue.autofix is None ==> row.autofix_json.len() == 0)
        }),
{
    lemma_severity_label_identifies(issue.severity, issue.severity);
    if let Some(v) = issue.lint_engine {
        lemma_lint_engine_label_identifies(v, v);
    }
    if let Some(v) = issue.lint_confidence {
        lemma_lint_confidence_label_identifies(v, v);
    }
    if let Some(v) = issue.lint_fallback_source {
        lemma_lint_fallback_source_label_identifies(v, v);
    }
    if let Some(a) = issue.autofix {
        lemma_autofix_applicability_label_identifies(a.applicability, a.applicability);
    }
}

} // verus!
