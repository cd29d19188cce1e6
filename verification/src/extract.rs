//! Collecting the names of the relations that SQL statements read or write.
use vstd::prelude::*;
use crate::ast::{
    CaseWhen, Expr, FromTable, FunctionArg, FunctionArguments, Join, SetExpr, Statement,
    TableFactor, TableWithJoins, UpdateTableFromKind,
};

verus! {

/// The printed forms of a list of names.
pub open spec fn name_views(names: Seq<String>) -> Seq<Seq<char>> {
    names.map_values(|s: String| s@)
}

/// `parts` joined with `.` between each two.
pub open spec fn dotted(parts: Seq<Seq<char>>) -> Seq<char>
    decreases parts.len(),
{
    if parts.len() == 0 {
        seq![]
    } else if parts.len() == 1 {
        parts[0]
    } else {
        dotted(parts.drop_last()) + seq!['.'] + parts.last()
    }
}

/// The relations of an `INSERT`, `UPDATE`, `DELETE` or `MERGE`, in the order
/// in which they are visited; no relation for any other statement.
pub open spec fn dml_tables(s: Statement) -> Seq<Seq<char>>
    decreases s,
{
    match s {
        Statement::Insert(ins) => seq![ins.table@] + match ins.source {
            Some(q) => set_expr_tables(*q.body),
            None => seq![],
        },
        Statement::Update(u) => twj_tables(u.table) + match u.from {
            Some(UpdateTableFromKind::BeforeSet(ts)) => twjs_tables(ts@),
            Some(UpdateTableFromKind::AfterSet(ts)) => twjs_tables(ts@),
            None => seq![],
        },
        Statement::Delete(d) => name_views(d.tables@) + (match d.from {
            FromTable::WithFromKeyword(ts) => twjs_tables(ts@),
            FromTable::WithoutKeyword(ts) => twjs_tables(ts@),
        }) + (match d.using {
            Some(ts) => twjs_tables(ts@),
            None => seq![],
        }),
        Statement::Merge(m) => factor_tables(m.table) + factor_tables(m.source),
        _ => seq![],
    }
}

/// The relations of a query body.
pub open spec fn set_expr_tables(e: SetExpr) -> Seq<Seq<char>>
    decreases e,
{
    match e {
        SetExpr::Select(sel) => twjs_tables(sel.from@),
        SetExpr::Query(q) => set_expr_tables(*q.body),
        SetExpr::SetOperation { left, right } => set_expr_tables(*left) + set_expr_tables(*right),
        SetExpr::Values => seq![],
        SetExpr::Insert(st) => match *st {
            Statement::Insert(_) => dml_tables(*st),
            _ => seq![],
        },
        SetExpr::Update(st) => match *st {
            Statement::Update(_) => dml_tables(*st),
            _ => seq![],
        },
        SetExpr::Table(t) => match t.table_name {
            Some(n) => seq![n@],
            None => seq![],
        },
        SetExpr::Delete(st) => match *st {
            Statement::Delete(_) => dml_tables(*st),
            _ => seq![],
        },
        SetExpr::Merge(st) => match *st {
            Statement::Merge(_) => dml_tables(*st),
            _ => seq![],
        },
    }
}

/// The relations of a relation followed by its joins.
pub open spec fn twj_tables(t: TableWithJoins) -> Seq<Seq<char>>
    decreases t,
{
    factor_tables(t.relation) + joins_tables(t.joins@)
}

/// The relations of a list of relations with joins, in order.
pub open spec fn twjs_tables(ts: Seq<TableWithJoins>) -> Seq<Seq<char>>
    decreases ts,
{
    if ts.len() == 0 {
        seq![]
    } else {
        twjs_tables(ts.drop_last()) + twj_tables(ts.last())
    }
}

/// The relations of a list of joins, in order.
pub open spec fn joins_tables(js: Seq<Join>) -> Seq<Seq<char>>
    decreases js,
{
    if js.len() == 0 {
        seq![]
    } else {
        joins_tables(js.drop_last()) + factor_tables(js.last().relation)
    }
}

/// The relations of one relation in a `FROM` clause.
pub open spec fn factor_tables(f: TableFactor) -> Seq<Seq<char>>
    decreases f,
{
    match f {
        TableFactor::Table { name } => seq![name@],
        TableFactor::Derived { subquery } => set_expr_tables(*subquery.body),
        TableFactor::NestedJoin { table_with_joins } => twj_tables(*table_with_joins),
        TableFactor::OpenJsonTable { json_expr } => expr_tables(json_expr),
        TableFactor::XmlTable { passing } => exprs_tables(passing@),
        _ => seq![],
    }
}

/// The relations named in an expression: the qualifier of a compound
/// identifier, and those of subqueries and of the operands that can hold one.
pub open spec fn expr_tables(e: Expr) -> Seq<Seq<char>>
    decreases e,
{
    match e {
        Expr::CompoundIdentifier(parts) => if parts.len() > 1 {
            seq![dotted(name_views(parts@).drop_last())]
        } else {
            seq![]
        },
        Expr::Function(f) => match f.args {
            FunctionArguments::List(args) => args_tables(args@),
            FunctionArguments::Other => seq![],
        },
        Expr::Nested(inner) => expr_tables(*inner),
        Expr::Subquery(q) => set_expr_tables(*q.body),
        Expr::BinaryOp { left, right } => expr_tables(*left) + expr_tables(*right),
        Expr::UnaryOp { expr } => expr_tables(*expr),
        Expr::Cast { expr } => expr_tables(*expr),
        Expr::Extract { expr } => expr_tables(*expr),
        Expr::Case { operand, conditions, else_result } => (match operand {
            Some(o) => expr_tables(*o),
            None => seq![],
        }) + cases_tables(conditions@) + (match else_result {
            Some(r) => expr_tables(*r),
            None => seq![],
        }),
        Expr::Exists { subquery } => set_expr_tables(*subquery.body),
        Expr::InSubquery { expr, subquery } => expr_tables(*expr) + set_expr_tables(*subquery.body),
        Expr::Other => seq![],
    }
}

/// The relations of a list of expressions, in order.
pub open spec fn exprs_tables(es: Seq<Expr>) -> Seq<Seq<char>>
    decreases es,
{
    if es.len() == 0 {
        seq![]
    } else {
        exprs_tables(es.drop_last()) + expr_tables(es.last())
    }
}

/// The relations of the `WHEN ... THEN ...` arms of a `CASE`, in order.
pub open spec fn cases_tables(cs: Seq<CaseWhen>) -> Seq<Seq<char>>
    decreases cs,
{
    if cs.len() == 0 {
        seq![]
    } else {
        cases_tables(cs.drop_last()) + expr_tables(cs.last().condition) + expr_tables(
            cs.last().result,
        )
    }
}

/// The relations of the unnamed expression arguments of a call, in order.
pub open spec fn args_tables(args: Seq<FunctionArg>) -> Seq<Seq<char>>
    decreases args,
{
    if args.len() == 0 {
        seq![]
    } else {
        args_tables(args.drop_last()) + match args.last() {
            FunctionArg::UnnamedExpr(e) => expr_tables(e),
            FunctionArg::Other => seq![],
        }
    }
}

/// The relations of one statement.
pub open spec fn statement_tables(s: Statement) -> Seq<Seq<char>> {
    match s {
        Statement::Query(q) => set_expr_tables(*q.body),
        _ => dml_tables(s),
    }
}

/// The relations of a list of statements, statement after statement.
pub open spec fn statements_tables(ss: Seq<Statement>) -> Seq<Seq<char>>
    decreases ss.len(),
{
    if ss.len() == 0 {
        seq![]
    } else {
        statements_tables(ss.drop_last()) + statement_tables(ss.last())
    }
}

/// Appends `name` to `tables`.
fn push_name(tables: &mut Vec<String>, name: String)
    ensures
        name_views(final(tables)@) == name_views(old(tables)@).push(name@),
{
    tables.push(name);
    assert(name_views(tables@) =~= name_views(old(tables)@).push(name@));
}

/// The identifiers of `parts` but the last, joined with `.`.
fn qualifier_of(parts: &Vec<String>) -> (s: String)
    requires
        parts.len() > 1,
    ensures
        s@ == dotted(name_views(parts@).drop_last()),
{
    let ghost views = name_views(parts@);
    let mut s = parts[0].clone();
    proof {
        assert(views.take(1) =~= seq![parts@[0]@]);
    }
    let mut i: usize = 1;
    while i < parts.len() - 1
        invariant
            1 <= i <= parts.len() - 1,
            views == name_views(parts@),
            s@ == dotted(views.take(i as int)),
        decreases parts.len() - i,
    {
        proof {
            reveal_strlit(".");
        }
        s.append(".");
        s.append(parts[i].as_str());
        assert(views.take(i + 1).drop_last() =~= views.take(i as int));
        assert(views.take(i + 1).last() == parts@[i as int]@);
        i = i + 1;
    }
    assert(views.take(i as int) =~= views.drop_last());
    s
}

/// Appends the relations of `table_with_joins` to `tables`.
fn extract_tables_from_table_with_joins(table_with_joins: &TableWithJoins, tables: &mut Vec<String>)
    ensures
        name_views(final(tables)@) == name_views(old(tables)@) + twj_tables(*table_with_joins),
    decreases table_with_joins,
{
    let ghost start = name_views(tables@);
    extract_tables_from_table_factor(&table_with_joins.relation, tables);
    let ghost mid = name_views(tables@);
    let joins = &table_with_joins.joins;
    let mut i: usize = 0;
    while i < joins.len()
        invariant
            i <= joins.len(),
            joins == table_with_joins.joins,
            mid == start + factor_tables(table_with_joins.relation),
            name_views(tables@) == mid + joins_tables(joins@.take(i as int)),
        decreases joins.len() - i,
    {
        extract_tables_from_table_factor(&joins[i].relation, tables);
        assert(joins@.take(i + 1).drop_last() =~= joins@.take(i as int));
        i = i + 1;
    }
    assert(joins@.take(i as int) =~= joins@);
}

/// Appends the relations of each of `items` to `tables`, in order.
fn extract_tables_from_tables_with_joins(items: &Vec<TableWithJoins>, tables: &mut Vec<String>)
    ensures
        name_views(final(tables)@) == name_views(old(tables)@) + twjs_tables(items@),
    decreases items,
{
    let ghost start = name_views(tables@);
    let mut i: usize = 0;
    while i < items.len()
        invariant
            i <= items.len(),
            name_views(tables@) == start + twjs_tables(items@.take(i as int)),
        decreases items.len() - i,
    {
        extract_tables_from_table_with_joins(&items[i], tables);
        assert(items@.take(i + 1).drop_last() =~= items@.take(i as int));
        i = i + 1;
    }
    assert(items@.take(i as int) =~= items@);
}

/// Appends the relations of an `INSERT`, `UPDATE`, `DELETE` or `MERGE` to
/// `tables`; leaves `tables` as it is for any other statement.
fn extract_tables_from_dml(statement: &Statement, tables: &mut Vec<String>)
    ensures
        name_views(final(tables)@) == name_views(old(tables)@) + dml_tables(*statement),
    decreases statement,
{
    match statement {
        Statement::Insert(insert) => {
            push_name(tables, insert.table.clone());
            if let Some(source) = &insert.source {
                extract_tables_from_query_body(&source.body, tables);
            }
        },
        Statement::Update(update) => {
            extract_tables_from_table_with_joins(&update.table, tables);
            if let Some(from_kind) = &update.from {
                match from_kind {
                    UpdateTableFromKind::BeforeSet(items) => {
                        extract_tables_from_tables_with_joins(items, tables);
                    },
                    UpdateTableFromKind::AfterSet(items) => {
                        extract_tables_from_tables_with_joins(items, tables);
                    },
                }
            }
        },
        Statement::Delete(delete) => {
            let ghost start = name_views(tables@);
            let names = &delete.tables;
            let mut i: usize = 0;
            while i < names.len()
                invariant
                    i <= names.len(),
                    names == delete.tables,
                    name_views(tables@) == start + name_views(names@.take(i as int)),
                decreases names.len() - i,
            {
                push_name(tables, names[i].clone());
                assert(name_views(names@.take(i + 1)) =~= name_views(names@.take(i as int)).push(
                    names@[i as int]@,
                ));
                i = i + 1;
            }
            assert(names@.take(i as int) =~= names@);
            match &delete.from {
                FromTable::WithFromKeyword(items) => {
                    extract_tables_from_tables_with_joins(items, tables);
                },
                FromTable::WithoutKeyword(items) => {
                    extract_tables_from_tables_with_joins(items, tables);
                },
            }
            if let Some(using) = &delete.using {
                extract_tables_from_tables_with_joins(using, tables);
            }
        },
        Statement::Merge(merge) => {
            extract_tables_from_table_factor(&merge.table, tables);
            extract_tables_from_table_factor(&merge.source, tables);
        },
        _ => {},
    }
}

/// Appends the relations of a query body to `tables`.
fn extract_tables_from_query_body(body: &SetExpr, tables: &mut Vec<String>)
    ensures
        name_views(final(tables)@) == name_views(old(tables)@) + set_expr_tables(*body),
    decreases body,
{
    match body {
        SetExpr::Select(select) => {
            extract_tables_from_tables_with_joins(&select.from, tables);
        },
        SetExpr::Query(query) => {
            extract_tables_from_query_body(&query.body, tables);
        },
        SetExpr::SetOperation { left, right } => {
            extract_tables_from_query_body(left, tables);
            extract_tables_from_query_body(right, tables);
        },
        SetExpr::Values => {},
        SetExpr::Insert(statement) => {
            if let Statement::Insert(_) = &**statement {
                extract_tables_from_dml(statement, tables);
            }
        },
        SetExpr::Update(statement) => {
            if let Statement::Update(_) = &**statement {
                extract_tables_from_dml(statement, tables);
            }
        },
        SetExpr::Table(table) => {
            if let Some(name) = &table.table_name {
                push_name(tables, name.clone());
            }
        },
        SetExpr::Delete(statement) => {
            if let Statement::Delete(_) = &**statement {
                extract_tables_from_dml(statement, tables);
            }
        },
        SetExpr::Merge(statement) => {
            if let Statement::Merge(_) = &**statement {
                extract_tables_from_dml(statement, tables);
            }
        },
    }
}

/// Appends the relations of one relation in a `FROM` clause to `tables`.
fn extract_tables_from_table_factor(table_factor: &TableFactor, tables: &mut Vec<String>)
    ensures
        name_views(final(tables)@) == name_views(old(tables)@) + factor_tables(*table_factor),
    decreases table_factor,
{
    match table_factor {
        TableFactor::Table { name } => {
            push_name(tables, name.clone());
        },
        TableFactor::Derived { subquery } => {
            extract_tables_from_query_body(&subquery.body, tables);
        },
        TableFactor::NestedJoin { table_with_joins } => {
            extract_tables_from_table_with_joins(table_with_joins, tables);
        },
        TableFactor::OpenJsonTable { json_expr } => {
            extract_tables_from_expr(json_expr, tables);
        },
        TableFactor::XmlTable { passing } => {
            let ghost start = name_views(tables@);
            let mut i: usize = 0;
            while i < passing.len()
                invariant
                    i <= passing.len(),
                    *table_factor == (TableFactor::XmlTable { passing: *passing }),
                    name_views(tables@) == start + exprs_tables(passing@.take(i as int)),
                decreases passing.len() - i,
            {
                proof {
                    assert(decreases_to!(*table_factor => table_factor->passing));
                }
                extract_tables_from_expr(&passing[i], tables);
                assert(passing@.take(i + 1).drop_last() =~= passing@.take(i as int));
                i = i + 1;
            }
            assert(passing@.take(i as int) =~= passing@);
        },
        _ => {},
    }
}

/// Appends the relations named in an expression to `tables`.
fn extract_tables_from_expr(expr: &Expr, tables: &mut Vec<String>)
    ensures
        name_views(final(tables)@) == name_views(old(tables)@) + expr_tables(*expr),
    decreases expr,
{
    match expr {
        Expr::CompoundIdentifier(parts) => {
            if parts.len() > 1 {
                push_name(tables, qualifier_of(parts));
            }
        },
        Expr::Function(function) => {
            if let FunctionArguments::List(arguments) = &function.args {
                let ghost start = name_views(tables@);
                let mut i: usize = 0;
                while i < arguments.len()
                    invariant
                        i <= arguments.len(),
                        *expr == Expr::Function(*function),
                        function.args == FunctionArguments::List(*arguments),
                        name_views(tables@) == start + args_tables(arguments@.take(i as int)),
                    decreases arguments.len() - i,
                {
                    if let FunctionArg::UnnamedExpr(argument) = &arguments[i] {
                        proof {
                            assert(decreases_to!(*expr => expr->Function_0));
                            assert(decreases_to!(*function => function.args->List_0));
                            assert(decreases_to!(
                                arguments@[i as int] => arguments@[i as int]->UnnamedExpr_0
                            ));
                        }
                        extract_tables_from_expr(argument, tables);
                    }
                    assert(arguments@.take(i + 1).drop_last() =~= arguments@.take(i as int));
                    i = i + 1;
                }
                assert(arguments@.take(i as int) =~= arguments@);
            }
        },
        Expr::Nested(inner) => {
            extract_tables_from_expr(inner, tables);
        },
        Expr::Subquery(query) => {
            extract_tables_from_query_body(&query.body, tables);
        },
        Expr::BinaryOp { left, right } => {
            extract_tables_from_expr(left, tables);
            extract_tables_from_expr(right, tables);
        },
        Expr::UnaryOp { expr } => {
            extract_tables_from_expr(expr, tables);
        },
        Expr::Cast { expr } => {
            extract_tables_from_expr(expr, tables);
        },
        Expr::Extract { expr } => {
            extract_tables_from_expr(expr, tables);
        },
        Expr::Case { operand, conditions, else_result } => {
            if let Some(operand) = operand {
                extract_tables_from_expr(operand, tables);
            }
            let ghost start = name_views(tables@);
            let mut i: usize = 0;
            while i < conditions.len()
                invariant
                    i <= conditions.len(),
                    *expr == (Expr::Case {
                        operand: *operand,
                        conditions: *conditions,
                        else_result: *else_result,
                    }),
                    name_views(tables@) == start + cases_tables(conditions@.take(i as int)),
                decreases conditions.len() - i,
            {
                proof {
                    assert(decreases_to!(*expr => expr->conditions));
                }
                extract_tables_from_expr(&conditions[i].condition, tables);
                extract_tables_from_expr(&conditions[i].result, tables);
                assert(conditions@.take(i + 1).drop_last() =~= conditions@.take(i as int));
                i = i + 1;
            }
            assert(conditions@.take(i as int) =~= conditions@);
            if let Some(else_result) = else_result {
                extract_tables_from_expr(else_result, tables);
            }
        },
        Expr::Exists { subquery } => {
            extract_tables_from_query_body(&subquery.body, tables);
        },
        Expr::InSubquery { subquery, expr } => {
            extract_tables_from_expr(expr, tables);
            extract_tables_from_query_body(&subquery.body, tables);
        },
        Expr::Other => {},
    }
}

/// The names of the relations that `statements` read or write, statement
/// after statement, each in the order in which the statement names it.
///
/// A query gives the tables of its `FROM` clauses and joins, of its
/// subqueries and of the operands of `UNION` and the like; `INSERT` gives its
/// target and then the relations of its source; `UPDATE` its table, joins and
/// `FROM`; `DELETE` the tables it names, then those of `FROM` and `USING`;
/// `MERGE` its target and its source. Expressions give the qualifier of a
/// compound identifier (`a.b.c` gives `a.b`) and the relations of the
/// subqueries in them. Names repeat as often as they occur; any other
/// statement gives none.
pub fn extract_tables(statements: &[Statement]) -> (tables: Vec<String>)
    ensures
        name_views(tables@) == statements_tables(statements@),
{
    let mut tables: Vec<String> = Vec::new();
    let mut i: usize = 0;
    proof {
        assert(name_views(tables@) =~= seq![]);
    }
    while i < statements.len()
        invariant
            i <= statements.len(),
            name_views(tables@) == statements_tables(statements@.take(i as int)),
        decreases statements.len() - i,
    {
        match &statements[i] {
            Statement::Query(query) => {
                extract_tables_from_query_body(&query.body, &mut tables);
            },
            other => {
                extract_tables_from_dml(other, &mut tables);
            },
        }
        assert(statements@.take(i + 1).drop_last() =~= statements@.take(i as int));
        i = i + 1;
    }
    assert(statements@.take(i as int) =~= statements@);
    tables
}

/// Extraction works statement by statement: the relations of two lists of
/// statements, one after the other, are those of the first list followed by
/// those of the second.
pub proof fn lemma_statements_tables_concat(first: Seq<Statement>, second: Seq<Statement>)
    ensures
        statements_tables(first + second) == statements_tables(first) + statements_tables(second),
    decreases second.len(),
{
    if second.len() == 0 {
        assert(first + second =~= first);
        assert(statements_tables(first) + statements_tables(second) =~= statements_tables(first));
    } else {
        lemma_statements_tables_concat(first, second.drop_last());
        assert((first + second).drop_last() =~= first + second.drop_last());
        assert((first + second).last() == second.last());
        assert(statements_tables(first + second) =~= statements_tables(first) + statements_tables(
            second,
        ));
    }
}

/// A single statement gives its own relations, and no statements give none.
pub proof fn lemma_single_statement(statement: Statement)
    ensures
        statements_tables(seq![statement]) == statement_tables(statement),
        statements_tables(Seq::<Statement>::empty()) == Seq::<Seq<char>>::empty(),
{
    let single = seq![statement];
    assert(single.drop_last() =~= Seq::<Statement>::empty());
    assert(single.last() == statement);
    assert(statements_tables(Seq::<Statement>::empty()) =~= Seq::<Seq<char>>::empty());
    assert(statements_tables(single) =~= statement_tables(statement));
}

} // verus!
