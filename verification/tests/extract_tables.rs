use flowscope::ast::{
    CaseWhen, Delete, Expr, FromTable, Function, FunctionArg, FunctionArguments, Insert, Join,
    Merge, Query, Select, SetExpr, Statement, Table, TableFactor, TableWithJoins, Update,
    UpdateTableFromKind,
};
use flowscope::extract::extract_tables;

fn table(name: &str) -> TableFactor {
    TableFactor::Table { name: name.to_string() }
}

fn plain(relation: TableFactor) -> TableWithJoins {
    TableWithJoins { relation, joins: vec![] }
}

fn with_joins(relation: TableFactor, joined: Vec<TableFactor>) -> TableWithJoins {
    TableWithJoins {
        relation,
        joins: joined.into_iter().map(|relation| Join { relation }).collect(),
    }
}

fn query(body: SetExpr) -> Box<Query> {
    Box::new(Query { body: Box::new(body) })
}

fn select(from: Vec<TableWithJoins>) -> SetExpr {
    SetExpr::Select(Box::new(Select { from }))
}

fn compound(parts: &[&str]) -> Expr {
    Expr::CompoundIdentifier(parts.iter().map(|p| p.to_string()).collect())
}

fn in_openjson(expr: Expr) -> Statement {
    Statement::Query(query(select(vec![plain(TableFactor::OpenJsonTable { json_expr: expr })])))
}

// SELECT * FROM users
#[test]
fn test_extract_single_table() {
    let statements = vec![Statement::Query(query(select(vec![plain(table("users"))])))];
    let tables = extract_tables(&statements);
    assert_eq!(tables.len(), 1);
    assert_eq!(tables[0], "users");
}

// SELECT * FROM users JOIN orders ON users.id = orders.user_id
#[test]
fn test_extract_multiple_tables_join() {
    let statements = vec![Statement::Query(query(select(vec![with_joins(
        table("users"),
        vec![table("orders")],
    )])))];
    let tables = extract_tables(&statements);
    assert_eq!(tables.len(), 2);
    assert!(tables.contains(&"users".to_string()));
    assert!(tables.contains(&"orders".to_string()));
}

// SELECT * FROM public.users
#[test]
fn test_extract_with_schema() {
    let statements = vec![Statement::Query(query(select(vec![plain(table("public.users"))])))];
    let tables = extract_tables(&statements);
    assert_eq!(tables.len(), 1);
    assert_eq!(tables[0], "public.users");
}

// DELETE FROM users WHERE id = 1
#[test]
fn test_extract_delete() {
    let statements = vec![Statement::Delete(Delete {
        tables: vec![],
        from: FromTable::WithFromKeyword(vec![plain(table("users"))]),
        using: None,
    })];
    let tables = extract_tables(&statements);
    assert_eq!(tables.len(), 1);
    assert_eq!(tables[0], "users");
}

// MERGE INTO target t USING source s ON t.id = s.id WHEN MATCHED THEN UPDATE SET t.val = s.val
#[test]
fn test_extract_merge() {
    let statements = vec![Statement::Merge(Merge { table: table("target"), source: table("source") })];
    let tables = extract_tables(&statements);
    assert_eq!(tables.len(), 2);
    assert!(tables.contains(&"target".to_string()));
    assert!(tables.contains(&"source".to_string()));
}

#[test]
fn no_statements_no_tables() {
    let tables = extract_tables(&[]);
    assert!(tables.is_empty());
}

#[test]
fn other_statements_and_values_give_nothing() {
    let statements = vec![Statement::Other, Statement::Query(query(SetExpr::Values))];
    assert!(extract_tables(&statements).is_empty());
}

// SELECT * FROM a UNION SELECT * FROM (SELECT * FROM b) AS d, (c JOIN e)
#[test]
fn union_derived_and_nested_join_in_order() {
    let right = select(vec![
        plain(TableFactor::Derived { subquery: query(select(vec![plain(table("b"))])) }),
        plain(TableFactor::NestedJoin {
            table_with_joins: Box::new(with_joins(table("c"), vec![table("e")])),
        }),
    ]);
    let statements = vec![Statement::Query(query(SetExpr::SetOperation {
        left: Box::new(select(vec![plain(table("a"))])),
        right: Box::new(right),
    }))];
    assert_eq!(extract_tables(&statements), vec!["a", "b", "c", "e"]);
}

// INSERT INTO t SELECT * FROM s; TABLE x
#[test]
fn insert_target_comes_before_source() {
    let statements = vec![
        Statement::Insert(Insert {
            table: "t".to_string(),
            source: Some(query(select(vec![plain(table("s"))]))),
        }),
        Statement::Query(query(SetExpr::Table(Box::new(Table { table_name: Some("x".to_string()) })))),
        Statement::Query(query(SetExpr::Table(Box::new(Table { table_name: None })))),
    ];
    assert_eq!(extract_tables(&statements), vec!["t", "s", "x"]);
}

// UPDATE a JOIN b SET ... FROM c, d
#[test]
fn update_with_joins_and_from() {
    let statements = vec![Statement::Update(Update {
        table: with_joins(table("a"), vec![table("b")]),
        from: Some(UpdateTableFromKind::AfterSet(vec![plain(table("c")), plain(table("d"))])),
    })];
    assert_eq!(extract_tables(&statements), vec!["a", "b", "c", "d"]);
    let before = vec![Statement::Update(Update {
        table: plain(table("a")),
        from: Some(UpdateTableFromKind::BeforeSet(vec![plain(table("c"))])),
    })];
    assert_eq!(extract_tables(&before), vec!["a", "c"]);
}

// DELETE t1, t2 FROM t1 JOIN t2 USING u
#[test]
fn delete_named_tables_then_from_then_using() {
    let statements = vec![Statement::Delete(Delete {
        tables: vec!["t1".to_string(), "t2".to_string()],
        from: FromTable::WithoutKeyword(vec![with_joins(table("t1"), vec![table("t2")])]),
        using: Some(vec![plain(table("u"))]),
    })];
    assert_eq!(extract_tables(&statements), vec!["t1", "t2", "t1", "t2", "u"]);
}

#[test]
fn compound_identifier_gives_its_qualifier() {
    assert_eq!(extract_tables(&[in_openjson(compound(&["a", "b", "c"]))]), vec!["a.b"]);
    assert_eq!(extract_tables(&[in_openjson(compound(&["t", "col"]))]), vec!["t"]);
    assert!(extract_tables(&[in_openjson(compound(&["col"]))]).is_empty());
    assert!(extract_tables(&[in_openjson(Expr::Other)]).is_empty());
}

#[test]
fn expressions_are_walked_in_order() {
    let case = Expr::Case {
        operand: Some(Box::new(compound(&["o", "x"]))),
        conditions: vec![
            CaseWhen { condition: compound(&["c1", "x"]), result: compound(&["r1", "x"]) },
            CaseWhen { condition: Expr::Other, result: compound(&["r2", "x"]) },
        ],
        else_result: Some(Box::new(compound(&["e", "x"]))),
    };
    let function = Expr::Function(Box::new(Function {
        args: FunctionArguments::List(vec![
            FunctionArg::Other,
            FunctionArg::UnnamedExpr(Expr::Subquery(query(select(vec![plain(table("sq"))])))),
            FunctionArg::UnnamedExpr(Expr::Nested(Box::new(compound(&["n", "x"])))),
        ]),
    }));
    let expr = Expr::BinaryOp {
        left: Box::new(case),
        right: Box::new(Expr::UnaryOp {
            expr: Box::new(Expr::Cast { expr: Box::new(function) }),
        }),
    };
    assert_eq!(
        extract_tables(&[in_openjson(expr)]),
        vec!["o", "c1", "r1", "r2", "e", "sq", "n"]
    );
    let no_list = Expr::Function(Box::new(Function { args: FunctionArguments::Other }));
    assert!(extract_tables(&[in_openjson(no_list)]).is_empty());
}

#[test]
fn exists_in_subquery_extract_and_xmltable() {
    let exists = Expr::Exists { subquery: query(select(vec![plain(table("p"))])) };
    let in_subquery = Expr::InSubquery {
        expr: Box::new(Expr::Extract { expr: Box::new(compound(&["q", "d"])) }),
        subquery: query(select(vec![plain(table("r"))])),
    };
    let statements = vec![Statement::Query(query(select(vec![plain(TableFactor::XmlTable {
        passing: vec![exists, in_subquery],
    })])))];
    assert_eq!(extract_tables(&statements), vec!["p", "q", "r"]);
}

#[test]
fn relations_without_names_give_nothing() {
    let factors = vec![
        TableFactor::TableFunction,
        TableFactor::Function,
        TableFactor::Unnest,
        TableFactor::Pivot,
        TableFactor::Unpivot,
        TableFactor::MatchRecognize,
        TableFactor::JsonTable,
        TableFactor::SemanticView,
    ];
    let statements = vec![Statement::Query(query(select(factors.into_iter().map(plain).collect())))];
    assert!(extract_tables(&statements).is_empty());
}

#[test]
fn statements_inside_query_bodies() {
    let insert = Statement::Insert(Insert { table: "i".to_string(), source: None });
    let update = Statement::Update(Update { table: plain(table("u")), from: None });
    let delete = Statement::Delete(Delete {
        tables: vec![],
        from: FromTable::WithFromKeyword(vec![plain(table("d"))]),
        using: None,
    });
    let merge = Statement::Merge(Merge { table: table("m"), source: table("ms") });
    let bodies = vec![
        SetExpr::Insert(Box::new(insert)),
        SetExpr::Update(Box::new(update)),
        SetExpr::Delete(Box::new(delete)),
        SetExpr::Merge(Box::new(merge)),
        SetExpr::Query(query(select(vec![plain(table("nested"))]))),
    ];
    let statements: Vec<Statement> =
        bodies.into_iter().map(|b| Statement::Query(query(b))).collect();
    assert_eq!(extract_tables(&statements), vec!["i", "u", "d", "m", "ms", "nested"]);
}

#[test]
fn a_body_kind_with_another_statement_gives_nothing() {
    let update = Statement::Update(Update { table: plain(table("u")), from: None });
    let statements = vec![Statement::Query(query(SetExpr::Insert(Box::new(update))))];
    assert!(extract_tables(&statements).is_empty());
}

#[test]
fn statements_concatenate() {
    let first = vec![Statement::Query(query(select(vec![plain(table("a"))])))];
    let second = vec![Statement::Merge(Merge { table: table("b"), source: table("c") })];
    let mut both = vec![Statement::Query(query(select(vec![plain(table("a"))])))];
    both.push(Statement::Merge(Merge { table: table("b"), source: table("c") }));
    let mut expected = extract_tables(&first);
    expected.extend(extract_tables(&second));
    assert_eq!(extract_tables(&both), expected);
    assert_eq!(expected, vec!["a", "b", "c"]);
}
