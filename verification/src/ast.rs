//! The parts of a parsed SQL statement that table extraction reads.
//!
//! Names of relations are held as they print (`schema.table`, quoted
//! identifiers with their quotes); every form that can hold no relation is
//! one variant without fields.
use vstd::prelude::*;

verus! {

/// A top-level SQL statement.
pub enum Statement {
    Query(Box<Query>),
    Insert(Insert),
    Update(Update),
    Delete(Delete),
    Merge(Merge),
    /// Any other statement (DDL, `SET`, `SHOW`, ...).
    Other,
}

/// A query: its body, without `WITH`, `ORDER BY` or `LIMIT`.
pub struct Query {
    pub body: Box<SetExpr>,
}

/// `INSERT INTO <table> <source>`.
pub struct Insert {
    /// The target table, as it prints.
    pub table: String,
    /// The `SELECT` or `VALUES` the rows come from, where there is one.
    pub source: Option<Box<Query>>,
}

/// `UPDATE <table> ... [FROM ...]`.
pub struct Update {
    pub table: TableWithJoins,
    pub from: Option<UpdateTableFromKind>,
}

/// Where the `FROM` of an `UPDATE` stands relative to its `SET`.
pub enum UpdateTableFromKind {
    BeforeSet(Vec<TableWithJoins>),
    AfterSet(Vec<TableWithJoins>),
}

/// `DELETE [<tables>] FROM ... [USING ...]`.
pub struct Delete {
    /// The tables named between `DELETE` and `FROM`, as they print.
    pub tables: Vec<String>,
    pub from: FromTable,
    pub using: Option<Vec<TableWithJoins>>,
}

/// The tables of a `DELETE`, written with or without the `FROM` keyword.
pub enum FromTable {
    WithFromKeyword(Vec<TableWithJoins>),
    WithoutKeyword(Vec<TableWithJoins>),
}

/// `MERGE INTO <table> USING <source> ...`.
pub struct Merge {
    pub table: TableFactor,
    pub source: TableFactor,
}

/// A relation followed by the relations joined to it.
pub struct TableWithJoins {
    pub relation: TableFactor,
    pub joins: Vec<Join>,
}

/// One `JOIN` clause.
pub struct Join {
    pub relation: TableFactor,
}

/// The `FROM` clause of a `SELECT`.
pub struct Select {
    pub from: Vec<TableWithJoins>,
}

/// The body of a query.
pub enum SetExpr {
    Select(Box<Select>),
    Query(Box<Query>),
    /// `UNION`, `EXCEPT`, `INTERSECT`.
    SetOperation { left: Box<SetExpr>, right: Box<SetExpr> },
    Values,
    Insert(Box<Statement>),
    Update(Box<Statement>),
    /// `TABLE <name>`.
    Table(Box<Table>),
    Delete(Box<Statement>),
    Merge(Box<Statement>),
}

/// The operand of a `TABLE` query.
pub struct Table {
    pub table_name: Option<String>,
}

/// A relation in a `FROM` clause.
pub enum TableFactor {
    /// A named table, as its name prints.
    Table { name: String },
    /// A subquery in `FROM`.
    Derived { subquery: Box<Query> },
    TableFunction,
    Function,
    Unnest,
    /// A parenthesized join.
    NestedJoin { table_with_joins: Box<TableWithJoins> },
    Pivot,
    Unpivot,
    MatchRecognize,
    JsonTable,
    /// `OPENJSON(<json_expr>)`.
    OpenJsonTable { json_expr: Expr },
    /// `XMLTABLE(... PASSING <arguments>)`: the expressions passed.
    XmlTable { passing: Vec<Expr> },
    SemanticView,
}

/// An expression, as far as it can hold a relation.
pub enum Expr {
    /// `a.b.c`: the identifiers' values in order.
    CompoundIdentifier(Vec<String>),
    Function(Box<Function>),
    Nested(Box<Expr>),
    Subquery(Box<Query>),
    BinaryOp { left: Box<Expr>, right: Box<Expr> },
    UnaryOp { expr: Box<Expr> },
    Cast { expr: Box<Expr> },
    Extract { expr: Box<Expr> },
    Case { operand: Option<Box<Expr>>, conditions: Vec<CaseWhen>, else_result: Option<Box<Expr>> },
    Exists { subquery: Box<Query> },
    InSubquery { expr: Box<Expr>, subquery: Box<Query> },
    /// Literals, plain identifiers and every other form.
    Other,
}

/// One `WHEN <condition> THEN <result>` of a `CASE`.
pub struct CaseWhen {
    pub condition: Expr,
    pub result: Expr,
}

/// A function call.
pub struct Function {
    pub args: FunctionArguments,
}

/// The arguments of a function call.
pub enum FunctionArguments {
    /// A parenthesized argument list.
    List(Vec<FunctionArg>),
    /// No parentheses, or a subquery in their place.
    Other,
}

/// One argument of a function call.
pub enum FunctionArg {
    /// An unnamed argument that is an expression.
    UnnamedExpr(Expr),
    /// A named argument, or a wildcard.
    Other,
}

} // verus!
