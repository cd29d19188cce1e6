//! What table extraction keeps, stated as relations between the forms of a
//! statement: each clause contributes its relations, in order, the same way
//! wherever the clause stands.
use vstd::prelude::*;
use crate::ast::{
    CaseWhen, Delete, Expr, FromTable, FunctionArg, FunctionArguments, Insert, Join, Merge,
    Query, Select, SetExpr, Statement, TableFactor, TableWithJoins, Update, UpdateTableFromKind,
};
use crate::extract::{
    args_tables, cases_tables, dotted, expr_tables, exprs_tables, factor_tables, joins_tables,
    name_views, statement_tables, twj_tables, twjs_tables,
};

verus! {

/// The statement `SELECT * FROM <from>`.
pub open spec fn select_from(from: Vec<TableWithJoins>) -> Statement {
    Statement::Query(Box::new(Query { body: Box::new(SetExpr::Select(Box::new(Select { from }))) }))
}

/// The statement whose whole body is `body`.
pub open spec fn query_statement(body: SetExpr) -> Statement {
    Statement::Query(Box::new(Query { body: Box::new(body) }))
}

/// The relations of a `SELECT` are those of its `FROM` items, item after
/// item: adding an item at the end adds exactly that item's relations at the
/// end, and no item gives none.
pub proof fn lemma_select_lists_from_items(
    from: Vec<TableWithJoins>,
    longer: Vec<TableWithJoins>,
    item: TableWithJoins,
)
    requires
        longer@ == from@.push(item),
    ensures
        statement_tables(select_from(longer)) == statement_tables(select_from(from)) + twj_tables(
            item,
        ),
        from@.len() == 0 ==> statement_tables(select_from(from)) == Seq::<Seq<char>>::empty(),
{
    assert(longer@.drop_last() =~= from@);
    assert(twjs_tables(longer@) == twjs_tables(from@) + twj_tables(item));
    if from@.len() == 0 {
        assert(twjs_tables(from@) =~= Seq::<Seq<char>>::empty());
    }
}

/// A `FROM` item gives the relations of its first relation and then those of
/// every join, in order: adding a join at the end adds exactly the joined
/// relation's relations at the end, and an item without joins gives just
/// those of its relation.
pub proof fn lemma_joins_add_their_relations(
    item: TableWithJoins,
    longer: TableWithJoins,
    join: Join,
)
    requires
        longer.relation == item.relation,
        longer.joins@ == item.joins@.push(join),
    ensures
        twj_tables(longer) == twj_tables(item) + factor_tables(join.relation),
        item.joins@.len() == 0 ==> twj_tables(item) == factor_tables(item.relation),
{
    assert(longer.joins@.drop_last() =~= item.joins@);
    assert(twj_tables(longer) =~= twj_tables(item) + factor_tables(join.relation));
    if item.joins@.len() == 0 {
        assert(joins_tables(item.joins@) =~= Seq::<Seq<char>>::empty());
        assert(twj_tables(item) =~= factor_tables(item.relation));
    }
}

/// A table in `FROM` gives its own name and nothing else.
pub proof fn lemma_table_gives_its_name(name: String)
    ensures
        factor_tables(TableFactor::Table { name }) == seq![name@],
{
}

/// A relation that is a subquery, a parenthesized join, or `OPENJSON(e)`,
/// gives what the subquery gives as a statement of its own, what the join
/// gives as a `FROM` item, and what `e` gives.
pub proof fn lemma_nested_relations(subquery: Box<Query>, nested: Box<TableWithJoins>, json_expr: Expr)
    ensures
        factor_tables(TableFactor::Derived { subquery }) == statement_tables(
            Statement::Query(subquery),
        ),
        factor_tables(TableFactor::NestedJoin { table_with_joins: nested }) == twj_tables(*nested),
        factor_tables(TableFactor::OpenJsonTable { json_expr }) == expr_tables(json_expr),
{
}

/// The expressions passed to `XMLTABLE` give their relations in order:
/// passing one more expression adds exactly its relations at the end.
pub proof fn lemma_xmltable_passes_expressions(passing: Vec<Expr>, longer: Vec<Expr>, e: Expr)
    requires
        longer@ == passing@.push(e),
    ensures
        factor_tables(TableFactor::XmlTable { passing: longer }) == factor_tables(
            TableFactor::XmlTable { passing },
        ) + expr_tables(e),
        passing@.len() == 0 ==> factor_tables(TableFactor::XmlTable { passing }) == Seq::<
            Seq<char>,
        >::empty(),
{
    assert(longer@.drop_last() =~= passing@);
    if passing@.len() == 0 {
        assert(exprs_tables(passing@) =~= Seq::<Seq<char>>::empty());
    }
}

/// `UNION`, `EXCEPT` and `INTERSECT` give the relations of their left
/// operand, as a query of its own, followed by those of the right one; a
/// parenthesized query gives what it gives alone.
pub proof fn lemma_set_operations_concatenate(left: Box<SetExpr>, right: Box<SetExpr>, inner: Box<Query>)
    ensures
        statement_tables(query_statement(SetExpr::SetOperation { left, right })) == statement_tables(
            query_statement(*left),
        ) + statement_tables(query_statement(*right)),
        statement_tables(query_statement(SetExpr::Query(inner))) == statement_tables(
            Statement::Query(inner),
        ),
{
}

/// `TABLE x` gives `x`; `VALUES` gives nothing.
pub proof fn lemma_table_query(name: String)
    ensures
        statement_tables(query_statement(SetExpr::Table(Box::new(crate::ast::Table { table_name: Some(name) })))) == seq![name@],
        statement_tables(query_statement(SetExpr::Table(Box::new(crate::ast::Table { table_name: None })))) == Seq::<Seq<char>>::empty(),
        statement_tables(query_statement(SetExpr::Values)) == Seq::<Seq<char>>::empty(),
{
}

/// A statement standing as a query body gives what it gives as a statement
/// of its own, where its kind is the body's kind; a body of one kind holding
/// a statement of another gives nothing.
pub proof fn lemma_statements_in_query_bodies(st: Statement)
    ensures
        st is Insert ==> statement_tables(query_statement(SetExpr::Insert(Box::new(st))))
            == statement_tables(st),
        st is Update ==> statement_tables(query_statement(SetExpr::Update(Box::new(st))))
            == statement_tables(st),
        st is Delete ==> statement_tables(query_statement(SetExpr::Delete(Box::new(st))))
            == statement_tables(st),
        st is Merge ==> statement_tables(query_statement(SetExpr::Merge(Box::new(st))))
            == statement_tables(st),
        !(st is Insert) ==> statement_tables(query_statement(SetExpr::Insert(Box::new(st))))
            == Seq::<Seq<char>>::empty(),
        !(st is Update) ==> statement_tables(query_statement(SetExpr::Update(Box::new(st))))
            == Seq::<Seq<char>>::empty(),
        !(st is Delete) ==> statement_tables(query_statement(SetExpr::Delete(Box::new(st))))
            == Seq::<Seq<char>>::empty(),
        !(st is Merge) ==> statement_tables(query_statement(SetExpr::Merge(Box::new(st))))
            == Seq::<Seq<char>>::empty(),
{
}

/// The relations of FROM items split at any point: those of the first part
/// followed by those of the second.
proof fn lemma_twjs_concat(first: Seq<TableWithJoins>, second: Seq<TableWithJoins>)
    ensures
        twjs_tables(first + second) == twjs_tables(first) + twjs_tables(second),
    decreases second.len(),
{
    if second.len() == 0 {
        assert(first + second =~= first);
        assert(twjs_tables(second) =~= Seq::<Seq<char>>::empty());
        assert(twjs_tables(first + second) =~= twjs_tables(first) + twjs_tables(second));
    } else {
        lemma_twjs_concat(first, second.drop_last());
        assert((first + second).drop_last() =~= first + second.drop_last());
        assert((first + second).last() == second.last());
        assert(twjs_tables(first + second) =~= twjs_tables(first) + twjs_tables(second));
    }
}

/// `INSERT INTO t <source>` gives `t` and then what the source gives as a
/// query of its own; without a source it gives just `t`.
pub proof fn lemma_insert_target_then_source(table: String, source: Box<Query>)
    ensures
        statement_tables(Statement::Insert(Insert { table, source: Some(source) })) == seq![table@]
            + statement_tables(Statement::Query(source)),
        statement_tables(Statement::Insert(Insert { table, source: None })) == seq![table@],
{
}

/// `UPDATE <t> ... FROM <items>` gives what `SELECT * FROM <t>, <items>`
/// gives, whether `FROM` stands before or after `SET`; without `FROM` it
/// gives what `SELECT * FROM <t>` gives.
pub proof fn lemma_update_reads_like_select(
    table: TableWithJoins,
    items: Vec<TableWithJoins>,
    select_items: Vec<TableWithJoins>,
    table_only: Vec<TableWithJoins>,
)
    requires
        select_items@ == seq![table] + items@,
        table_only@ == seq![table],
    ensures
        statement_tables(
            Statement::Update(
                Update { table, from: Some(UpdateTableFromKind::BeforeSet(items)) },
            ),
        ) == statement_tables(select_from(select_items)),
        statement_tables(
            Statement::Update(Update { table, from: Some(UpdateTableFromKind::AfterSet(items)) }),
        ) == statement_tables(select_from(select_items)),
        statement_tables(Statement::Update(Update { table, from: None })) == statement_tables(
            select_from(table_only),
        ),
{
    lemma_twjs_concat(seq![table], items@);
    let single = seq![table];
    assert(single.drop_last() =~= Seq::<TableWithJoins>::empty());
    assert(single.last() == table);
    assert(twjs_tables(Seq::<TableWithJoins>::empty()) =~= Seq::<Seq<char>>::empty());
    assert(twjs_tables(single) =~= twj_tables(table));
    assert(table_only@ =~= single);
}

/// `DELETE <names> FROM <items> USING <more>` gives the named tables, in
/// order, and then what `SELECT * FROM <items>, <more>` gives, whether or not
/// the `FROM` keyword is written; without `USING` the select lists `<items>`
/// alone.
pub proof fn lemma_delete_names_then_reads_like_select(
    tables: Vec<String>,
    items: Vec<TableWithJoins>,
    using: Vec<TableWithJoins>,
    select_items: Vec<TableWithJoins>,
)
    requires
        select_items@ == items@ + using@,
    ensures
        statement_tables(
            Statement::Delete(
                Delete { tables, from: FromTable::WithFromKeyword(items), using: Some(using) },
            ),
        ) == name_views(tables@) + statement_tables(select_from(select_items)),
        statement_tables(
            Statement::Delete(
                Delete { tables, from: FromTable::WithoutKeyword(items), using: Some(using) },
            ),
        ) == name_views(tables@) + statement_tables(select_from(select_items)),
        statement_tables(
            Statement::Delete(Delete { tables, from: FromTable::WithFromKeyword(items), using: None }),
        ) == name_views(tables@) + statement_tables(select_from(items)),
        statement_tables(
            Statement::Delete(Delete { tables, from: FromTable::WithoutKeyword(items), using: None }),
        ) == name_views(tables@) + statement_tables(select_from(items)),
{
    lemma_twjs_concat(items@, using@);
}

/// The named tables of a `DELETE` stand in the result one for one, in order.
pub proof fn lemma_named_tables_in_order(tables: Seq<String>)
    ensures
        name_views(tables).len() == tables.len(),
        forall|i: int| 0 <= i < tables.len() ==> #[trigger] name_views(tables)[i] == tables[i]@,
{
}

/// `MERGE INTO <target> USING <source>` gives what
/// `SELECT * FROM <target>, <source>` gives: the target's relations, then the
/// source's, whatever kind of relation each is.
pub proof fn lemma_merge_reads_like_select(merge: Merge, select_items: Vec<TableWithJoins>)
    requires
        select_items@.len() == 2,
        select_items@[0].relation == merge.table,
        select_items@[0].joins@.len() == 0,
        select_items@[1].relation == merge.source,
        select_items@[1].joins@.len() == 0,
    ensures
        statement_tables(Statement::Merge(merge)) == statement_tables(select_from(select_items)),
{
    let ts = select_items@;
    assert(ts.drop_last().drop_last() =~= Seq::<TableWithJoins>::empty());
    assert(ts.drop_last().last() == ts[0]);
    assert(joins_tables(ts[0].joins@) =~= Seq::<Seq<char>>::empty());
    assert(joins_tables(ts[1].joins@) =~= Seq::<Seq<char>>::empty());
    assert(twj_tables(ts[0]) =~= factor_tables(merge.table));
    assert(twj_tables(ts[1]) =~= factor_tables(merge.source));
    assert(twjs_tables(Seq::<TableWithJoins>::empty()) =~= Seq::<Seq<char>>::empty());
    assert(twjs_tables(ts.drop_last()) =~= factor_tables(merge.table));
    assert(twjs_tables(ts) =~= factor_tables(merge.table) + factor_tables(merge.source));
}

/// Any other statement gives nothing.
pub proof fn lemma_other_statements_give_nothing()
    ensures
        statement_tables(Statement::Other) == Seq::<Seq<char>>::empty(),
{
}

/// The relations named in an expression can be seen through `OPENJSON`:
/// the statement `SELECT * FROM OPENJSON(<e>)`.
pub open spec fn in_openjson(e: Expr, from: Vec<TableWithJoins>) -> bool {
    &&& from@.len() == 1
    &&& from@[0].relation == (TableFactor::OpenJsonTable { json_expr: e })
    &&& from@[0].joins@.len() == 0
}

/// A query reading `OPENJSON(<e>)` gives exactly the relations named in `e`.
pub proof fn lemma_openjson_query_gives_expression_tables(e: Expr, from: Vec<TableWithJoins>)
    requires
        in_openjson(e, from),
    ensures
        statement_tables(select_from(from)) == expr_tables(e),
{
    let ts = from@;
    assert(ts.drop_last() =~= Seq::<TableWithJoins>::empty());
    assert(joins_tables(ts[0].joins@) =~= Seq::<Seq<char>>::empty());
    assert(twjs_tables(Seq::<TableWithJoins>::empty()) =~= Seq::<Seq<char>>::empty());
    assert(ts.last() == ts[0]);
    assert(factor_tables(ts[0].relation) == expr_tables(e));
    assert(twj_tables(ts[0]) =~= expr_tables(e));
    assert(twjs_tables(ts) =~= expr_tables(e));
}

/// The `WHEN`/`THEN` arms of a `CASE` give their relations whether or not the
/// `CASE` has an operand: the operand's relations come first, the `ELSE`
/// result's last, and the arms' stand between them unchanged.
pub proof fn lemma_case_operand_and_else_frame_the_arms(
    operand: Expr,
    conditions: Vec<CaseWhen>,
    else_result: Expr,
)
    ensures
        expr_tables(
            Expr::Case { operand: Some(Box::new(operand)), conditions, else_result: None },
        ) == expr_tables(operand) + expr_tables(
            Expr::Case { operand: None, conditions, else_result: None },
        ),
        expr_tables(
            Expr::Case { operand: None, conditions, else_result: Some(Box::new(else_result)) },
        ) == expr_tables(Expr::Case { operand: None, conditions, else_result: None })
            + expr_tables(else_result),
{
    let arms = expr_tables(Expr::Case { operand: None, conditions, else_result: None });
    assert(arms =~= cases_tables(conditions@));
    assert(expr_tables(
        Expr::Case { operand: Some(Box::new(operand)), conditions, else_result: None },
    ) =~= expr_tables(operand) + arms);
    assert(expr_tables(
        Expr::Case { operand: None, conditions, else_result: Some(Box::new(else_result)) },
    ) =~= arms + expr_tables(else_result));
}

/// Each arm of a `CASE` gives the relations of its condition and then those
/// of its result: adding an arm at the end adds exactly those at the end, and
/// a `CASE` without arms, operand or `ELSE` gives nothing.
pub proof fn lemma_case_arm_adds_condition_then_result(
    conditions: Vec<CaseWhen>,
    longer: Vec<CaseWhen>,
    arm: CaseWhen,
)
    requires
        longer@ == conditions@.push(arm),
    ensures
        expr_tables(Expr::Case { operand: None, conditions: longer, else_result: None })
            == expr_tables(Expr::Case { operand: None, conditions, else_result: None })
            + expr_tables(arm.condition) + expr_tables(arm.result),
        conditions@.len() == 0 ==> expr_tables(
            Expr::Case { operand: None, conditions, else_result: None },
        ) == Seq::<Seq<char>>::empty(),
{
    assert(longer@.drop_last() =~= conditions@);
    assert(expr_tables(Expr::Case { operand: None, conditions: longer, else_result: None })
        =~= cases_tables(longer@));
    assert(expr_tables(Expr::Case { operand: None, conditions, else_result: None })
        =~= cases_tables(conditions@));
    if conditions@.len() == 0 {
        assert(cases_tables(conditions@) =~= Seq::<Seq<char>>::empty());
    }
}

/// The unnamed expression arguments of a call give their relations in order:
/// adding an argument at the end adds its relations (none for a named
/// argument or a wildcard); a call without an argument list gives nothing.
pub proof fn lemma_call_arguments_in_order(
    args: Vec<FunctionArg>,
    longer_with_expr: Vec<FunctionArg>,
    longer_with_other: Vec<FunctionArg>,
    e: Expr,
)
    requires
        longer_with_expr@ == args@.push(FunctionArg::UnnamedExpr(e)),
        longer_with_other@ == args@.push(FunctionArg::Other),
    ensures
        expr_tables(Expr::Function(Box::new(crate::ast::Function {
            args: FunctionArguments::List(longer_with_expr),
        }))) == expr_tables(Expr::Function(Box::new(crate::ast::Function {
            args: FunctionArguments::List(args),
        }))) + expr_tables(e),
        expr_tables(Expr::Function(Box::new(crate::ast::Function {
            args: FunctionArguments::List(longer_with_other),
        }))) == expr_tables(Expr::Function(Box::new(crate::ast::Function {
            args: FunctionArguments::List(args),
        }))),
        args@.len() == 0 ==> expr_tables(Expr::Function(Box::new(crate::ast::Function {
            args: FunctionArguments::List(args),
        }))) == Seq::<Seq<char>>::empty(),
        expr_tables(Expr::Function(Box::new(crate::ast::Function {
            args: FunctionArguments::Other,
        }))) == Seq::<Seq<char>>::empty(),
{
    assert(longer_with_expr@.drop_last() =~= args@);
    assert(longer_with_other@.drop_last() =~= args@);
    assert(args_tables(longer_with_expr@) =~= args_tables(args@) + expr_tables(e));
    assert(args_tables(longer_with_other@) =~= args_tables(args@));
    if args@.len() == 0 {
        assert(args_tables(args@) =~= Seq::<Seq<char>>::empty());
    }
}

/// Operators give the relations of their operands, left before right;
/// parentheses, unary operators, casts and `EXTRACT` give those of their
/// operand; a subquery or `EXISTS` gives what the subquery gives as a
/// statement of its own; `x IN (<subquery>)` gives those of `x`, then the
/// subquery's; literals and plain identifiers give nothing.
pub proof fn lemma_operands_and_subqueries(left: Expr, right: Expr, q: Box<Query>)
    ensures
        expr_tables(Expr::BinaryOp { left: Box::new(left), right: Box::new(right) })
            == expr_tables(left) + expr_tables(right),
        expr_tables(Expr::Nested(Box::new(left))) == expr_tables(left),
        expr_tables(Expr::UnaryOp { expr: Box::new(left) }) == expr_tables(left),
        expr_tables(Expr::Cast { expr: Box::new(left) }) == expr_tables(left),
        expr_tables(Expr::Extract { expr: Box::new(left) }) == expr_tables(left),
        expr_tables(Expr::Subquery(q)) == statement_tables(Statement::Query(q)),
        expr_tables(Expr::Exists { subquery: q }) == statement_tables(Statement::Query(q)),
        expr_tables(Expr::InSubquery { expr: Box::new(left), subquery: q })
            == expr_tables(left) + statement_tables(Statement::Query(q)),
        expr_tables(Expr::Other) == Seq::<Seq<char>>::empty(),
{
}

/// A compound identifier `a.b.c` gives one name, its qualifier `a.b`: that
/// name, a dot and the last identifier spell the whole identifier. A single
/// identifier gives nothing.
pub proof fn lemma_compound_identifier_gives_qualifier(parts: Vec<String>)
    ensures
        parts@.len() > 1 ==> ({
            let found = expr_tables(Expr::CompoundIdentifier(parts));
            &&& found.len() == 1
            &&& found[0] + seq!['.'] + parts@.last()@ == dotted(name_views(parts@))
        }),
        parts@.len() <= 1 ==> expr_tables(Expr::CompoundIdentifier(parts))
            == Seq::<Seq<char>>::empty(),
{
    if parts@.len() > 1 {
        let views = name_views(parts@);
        assert(views.last() == parts@.last()@);
    }
}

/// Identifiers join with a dot between each two: one identifier is itself,
/// and adding one at the end adds a dot and it.
pub proof fn lemma_dotted_joins_with_dots(parts: Seq<Seq<char>>, part: Seq<char>)
    ensures
        dotted(seq![part]) == part,
        parts.len() > 0 ==> dotted(parts.push(part)) == dotted(parts) + seq!['.'] + part,
{
    assert(parts.push(part).drop_last() =~= parts);
}

} // verus!
