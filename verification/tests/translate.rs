use rq_sql::dialect::Dialect;
use rq_sql::error::{Feature, TranslationError};
use rq_sql::rq::{
    AggOp, BinOp, ColumnDef, Expr, JoinKind, Pipeline, RelRef, SortItem, SourceCol, TakeRange,
    Transform,
};
use rq_sql::sql::{SqlExpr, SqlExprList, SqlRel, SqlSetExpr};
use rq_sql::translator::{translate, translate_with_columns};

fn orders() -> RelRef {
    RelRef::Table {
        name: "orders".to_string(),
        cols: vec![
            SourceCol { cid: 1, name: "id".to_string() },
            SourceCol { cid: 2, name: "amount".to_string() },
            SourceCol { cid: 3, name: "customer_id".to_string() },
        ],
    }
}

fn def(cid: u64, name: &str, expr: Expr) -> ColumnDef {
    ColumnDef { cid, name: name.to_string(), expr }
}

fn gt(a: Expr, b: Expr) -> Expr {
    Expr::Binary(BinOp::CmpGt, Box::new(a), Box::new(b))
}

fn no_distinct_on() -> Dialect {
    Dialect {
        supports_cte: true,
        supports_distinct_on: false,
        supports_window_functions: true,
        supports_qualify: false,
        supports_limit_offset: true,
    }
}

fn filter_select_pipeline() -> Pipeline {
    Pipeline {
        transforms: vec![
            Transform::From(orders()),
            Transform::Filter(gt(Expr::Col(2), Expr::Num(100))),
            Transform::Select(vec![def(10, "id", Expr::Col(1)), def(11, "amount", Expr::Col(2))]),
        ],
    }
}

#[test]
fn filter_then_select_is_one_stage() {
    // From(orders) -> Filter(amount > 100) -> Select(id, amount)
    // == SELECT id, amount FROM orders WHERE amount > 100
    let q = translate(filter_select_pipeline(), &Dialect::full()).unwrap();
    assert_eq!(q.ctes.len(), 0);
    match q.body {
        SqlSetExpr::Select(s) => {
            assert_eq!(s.projection.len(), 2);
            assert_eq!(s.projection[0].alias.base, "id");
            assert_eq!(s.projection[1].alias.base, "amount");
            match s.from.as_ref().unwrap() {
                SqlRel::Table { name, alias } => {
                    assert_eq!(name.base, "orders");
                    assert!(alias.is_none());
                }
                other => panic!("expected a table, got {:?}", other),
            }
            match s.selection.as_ref().unwrap() {
                SqlExpr::Binary(BinOp::CmpGt, l, r) => {
                    assert!(matches!(&**l, SqlExpr::Ident(i) if i.base == "amount"));
                    assert!(matches!(&**r, SqlExpr::Num(100)));
                }
                other => panic!("expected a comparison, got {:?}", other),
            }
            assert!(s.joins.is_empty());
            assert!(s.group_by.is_empty());
            assert!(s.having.is_none());
            assert!(s.order_by.is_empty());
            assert!(s.limit.is_none());
            assert!(!s.distinct);
        }
        other => panic!("expected a single select, got {:?}", other),
    }
}

#[test]
fn post_aggregate_filter_lowers_to_having() {
    // From(orders) -> Aggregate(by customer_id; sum(amount) as total)
    //              -> Filter(total > 1000)
    // == ... GROUP BY customer_id HAVING SUM(amount) > 1000
    let p = Pipeline {
        transforms: vec![
            Transform::From(orders()),
            Transform::Aggregate {
                by: vec![def(10, "customer_id", Expr::Col(3))],
                aggs: vec![def(11, "total", Expr::Agg(AggOp::Sum, Box::new(Expr::Col(2))))],
            },
            Transform::Filter(gt(Expr::Col(11), Expr::Num(1000))),
        ],
    };
    let q = translate(p, &Dialect::full()).unwrap();
    assert_eq!(q.ctes.len(), 0);
    match q.body {
        SqlSetExpr::Select(s) => {
            assert_eq!(s.projection.len(), 2);
            assert_eq!(s.projection[0].alias.base, "customer_id");
            assert_eq!(s.projection[1].alias.base, "total");
            assert_eq!(s.group_by.len(), 1);
            assert!(matches!(&s.group_by[0], SqlExpr::Ident(i) if i.base == "customer_id"));
            assert!(s.selection.is_none());
            match s.having.as_ref().unwrap() {
                SqlExpr::Binary(BinOp::CmpGt, l, r) => {
                    match &**l {
                        SqlExpr::Agg(AggOp::Sum, arg) => {
                            assert!(matches!(&**arg, SqlExpr::Ident(i) if i.base == "amount"));
                        }
                        other => panic!("expected SUM, got {:?}", other),
                    }
                    assert!(matches!(&**r, SqlExpr::Num(1000)));
                }
                other => panic!("expected a comparison, got {:?}", other),
            }
        }
        other => panic!("expected a single select, got {:?}", other),
    }
}

#[test]
fn sort_then_take_is_order_by_limit() {
    // From(orders) -> Sort(amount desc) -> Take(rows 1..10)
    // == ... ORDER BY amount DESC LIMIT 10
    let p = Pipeline {
        transforms: vec![
            Transform::From(orders()),
            Transform::Sort(vec![SortItem { expr: Expr::Col(2), desc: true }]),
            Transform::Take {
                range: TakeRange { start: 1, end: Some(10) },
                partition: vec![],
            },
        ],
    };
    let q = translate(p, &Dialect::full()).unwrap();
    assert_eq!(q.ctes.len(), 0);
    match q.body {
        SqlSetExpr::Select(s) => {
            assert_eq!(s.order_by.len(), 1);
            assert!(s.order_by[0].desc);
            assert!(matches!(&s.order_by[0].expr, SqlExpr::Ident(i) if i.base == "amount"));
            assert_eq!(s.limit, Some(10));
            assert_eq!(s.offset, None);
        }
        other => panic!("expected a single select, got {:?}", other),
    }
}

#[test]
fn take_with_offset() {
    let p = Pipeline {
        transforms: vec![
            Transform::From(orders()),
            Transform::Take {
                range: TakeRange { start: 3, end: Some(7) },
                partition: vec![],
            },
        ],
    };
    let q = translate(p, &Dialect::full()).unwrap();
    match q.body {
        SqlSetExpr::Select(s) => {
            assert_eq!(s.limit, Some(5));
            assert_eq!(s.offset, Some(2));
        }
        other => panic!("expected a single select, got {:?}", other),
    }
}

#[test]
fn distinct_by_key_emulated_with_row_number() {
    // From(orders) -> Distinct(by customer_id), no native key-distinct:
    // an inner stage computes ROW_NUMBER() OVER (PARTITION BY customer_id),
    // an outer stage filters row_number = 1 — and never a bare DISTINCT.
    let p = Pipeline {
        transforms: vec![
            Transform::From(orders()),
            Transform::Distinct { keys: Some(vec![3]) },
        ],
    };
    let q = translate(p, &no_distinct_on()).unwrap();
    assert_eq!(q.ctes.len(), 1);
    match &q.ctes[0].body {
        SqlSetExpr::Select(s) => {
            assert!(!s.distinct);
            assert!(s.distinct_on.is_empty());
            // passthrough of the three columns, then the row number
            assert_eq!(s.projection.len(), 4);
            let rn = &s.projection[3];
            assert_eq!(rn.alias.base, "rn");
            match &rn.expr {
                SqlExpr::RowNumberOver { partition, order } => {
                    match partition {
                        SqlExprList::Cons(head, rest) => {
                            assert!(
                                matches!(&**head, SqlExpr::Ident(i) if i.base == "customer_id")
                            );
                            assert!(matches!(&**rest, SqlExprList::Nil));
                        }
                        other => panic!("expected one partition key, got {:?}", other),
                    }
                    // no Sort in the pipeline: the keys are the tiebreak
                    assert!(!matches!(order, rq_sql::sql::SqlOrderList::Nil));
                }
                other => panic!("expected a row-number window, got {:?}", other),
            }
        }
        other => panic!("expected a select, got {:?}", other),
    }
    match q.body {
        SqlSetExpr::Select(s) => {
            assert!(!s.distinct);
            assert!(s.distinct_on.is_empty());
            match s.selection.as_ref().unwrap() {
                SqlExpr::Binary(BinOp::CmpEq, l, r) => {
                    assert!(matches!(&**l, SqlExpr::Ident(i) if i.base == "rn"));
                    assert!(matches!(&**r, SqlExpr::Num(1)));
                }
                other => panic!("expected rn = 1, got {:?}", other),
            }
        }
        other => panic!("expected an outer select, got {:?}", other),
    }
}

#[test]
fn distinct_by_key_without_cte_nests_a_subquery() {
    let mut d = no_distinct_on();
    d.supports_cte = false;
    let p = Pipeline {
        transforms: vec![
            Transform::From(orders()),
            Transform::Distinct { keys: Some(vec![3]) },
        ],
    };
    let q = translate(p, &d).unwrap();
    assert_eq!(q.ctes.len(), 0);
    match q.body {
        SqlSetExpr::Select(s) => {
            assert!(matches!(s.from.as_ref().unwrap(), SqlRel::SubQuery { .. }));
        }
        other => panic!("expected an outer select, got {:?}", other),
    }
}

#[test]
fn inline_literal_becomes_a_cte() {
    // A literal with columns a,b,c and rows [1,2,3],[4,5,6], referenced as
    // "sample", is spliced into the WITH clause.
    let lit = rq_sql::sample_data::data_of_csv("a,b,c\n1,2,3\n4,5,6").unwrap();
    let p = Pipeline {
        transforms: vec![Transform::From(RelRef::Literal {
            name: "sample".to_string(),
            cids: vec![1, 2, 3],
            lit,
        })],
    };
    let q = translate(p, &Dialect::full()).unwrap();
    assert_eq!(q.ctes.len(), 1);
    assert_eq!(q.ctes[0].name.base, "sample");
    match &q.ctes[0].body {
        SqlSetExpr::UnionAll(left, _) => match &**left {
            SqlSetExpr::Select(s) => {
                assert_eq!(s.projection.len(), 3);
                assert!(matches!(&s.projection[0].expr, SqlExpr::Lit(v) if v == "1"));
                assert_eq!(s.projection[0].alias.base, "a");
            }
            other => panic!("expected a select, got {:?}", other),
        },
        other => panic!("expected a union chain, got {:?}", other),
    }
    match q.body {
        SqlSetExpr::Select(s) => {
            assert_eq!(s.projection.len(), 3);
            assert_eq!(s.projection[0].alias.base, "a");
            assert_eq!(s.projection[1].alias.base, "b");
            assert_eq!(s.projection[2].alias.base, "c");
            match s.from.as_ref().unwrap() {
                SqlRel::Table { name, .. } => assert_eq!(name.base, "sample"),
                other => panic!("expected the cte by name, got {:?}", other),
            }
        }
        other => panic!("expected a select over the cte, got {:?}", other),
    }
}

#[test]
fn unresolved_reference_is_reported() {
    let p = Pipeline {
        transforms: vec![
            Transform::From(orders()),
            Transform::Filter(gt(Expr::Col(99), Expr::Num(100))),
        ],
    };
    let r = translate(p, &Dialect::full());
    assert_eq!(r.unwrap_err(), TranslationError::UnresolvedReference { cid: 99 });
}

#[test]
fn output_bindings_carry_the_select_cids() {
    let (q, cols) = translate_with_columns(filter_select_pipeline(), &Dialect::full()).unwrap();
    assert!(matches!(q.body, SqlSetExpr::Select(_)));
    assert_eq!(cols.len(), 2);
    assert_eq!(cols[0].cid, 10);
    assert_eq!(cols[1].cid, 11);
    assert_eq!(cols[0].column.base, "id");
    assert_eq!(cols[1].column.base, "amount");
}

#[test]
fn exhausted_cid_space_is_rejected() {
    // A declared cid at the top of the space leaves no room for the
    // emulator to draw fresh column identities.
    let p = Pipeline {
        transforms: vec![Transform::From(RelRef::Table {
            name: "orders".to_string(),
            cols: vec![SourceCol { cid: u64::MAX, name: "id".to_string() }],
        })],
    };
    let r = translate(p, &Dialect::full());
    assert_eq!(r.unwrap_err(), TranslationError::UnsupportedPipelineShape);
}

#[test]
fn translation_is_deterministic() {
    let a = translate(filter_select_pipeline(), &Dialect::full());
    let b = translate(filter_select_pipeline(), &Dialect::full());
    assert_eq!(a, b);
}

#[test]
fn colliding_aliases_are_suffixed_apart() {
    let p = Pipeline {
        transforms: vec![
            Transform::From(orders()),
            Transform::Select(vec![def(10, "x", Expr::Col(1)), def(11, "x", Expr::Col(2))]),
        ],
    };
    let q = translate(p, &Dialect::full()).unwrap();
    match q.body {
        SqlSetExpr::Select(s) => {
            assert_eq!(s.projection.len(), 2);
            let a = &s.projection[0].alias;
            let b = &s.projection[1].alias;
            assert!(a.base != b.base || a.n != b.n);
        }
        other => panic!("expected a select, got {:?}", other),
    }
}

#[test]
fn non_grouped_column_beside_aggregate_is_rejected() {
    let p = Pipeline {
        transforms: vec![
            Transform::From(orders()),
            Transform::Aggregate {
                by: vec![def(10, "customer_id", Expr::Col(3))],
                aggs: vec![def(11, "bad", Expr::Col(2))],
            },
        ],
    };
    let r = translate(p, &Dialect::full());
    assert_eq!(r.unwrap_err(), TranslationError::InvalidAggregateReference { cid: 2 });
}

#[test]
fn aggregate_call_outside_aggregate_is_rejected() {
    let p = Pipeline {
        transforms: vec![
            Transform::From(orders()),
            Transform::Filter(gt(
                Expr::Agg(AggOp::Sum, Box::new(Expr::Col(2))),
                Expr::Num(10),
            )),
        ],
    };
    let r = translate(p, &Dialect::full());
    assert_eq!(r.unwrap_err(), TranslationError::InvalidAggregateReference { cid: 0 });
}

#[test]
fn missing_window_functions_are_reported() {
    let d = Dialect {
        supports_cte: true,
        supports_distinct_on: false,
        supports_window_functions: false,
        supports_qualify: false,
        supports_limit_offset: true,
    };
    let p = Pipeline {
        transforms: vec![
            Transform::From(orders()),
            Transform::Distinct { keys: Some(vec![3]) },
        ],
    };
    let r = translate(p, &d);
    assert_eq!(
        r.unwrap_err(),
        TranslationError::UnsupportedByDialect { feature: Feature::WindowFunctions }
    );
}

#[test]
fn missing_limit_offset_is_reported() {
    let d = Dialect {
        supports_cte: true,
        supports_distinct_on: true,
        supports_window_functions: false,
        supports_qualify: false,
        supports_limit_offset: false,
    };
    let p = Pipeline {
        transforms: vec![
            Transform::From(orders()),
            Transform::Take {
                range: TakeRange { start: 1, end: Some(5) },
                partition: vec![],
            },
        ],
    };
    let r = translate(p, &d);
    assert_eq!(
        r.unwrap_err(),
        TranslationError::UnsupportedByDialect { feature: Feature::LimitOffset }
    );
}

#[test]
fn empty_pipeline_is_rejected() {
    let r = translate(Pipeline { transforms: vec![] }, &Dialect::full());
    assert_eq!(r.unwrap_err(), TranslationError::UnsupportedPipelineShape);
}

#[test]
fn deep_nesting_trips_the_depth_guard() {
    let mut p = Pipeline { transforms: vec![Transform::From(orders())] };
    for _ in 0..70 {
        p = Pipeline {
            transforms: vec![Transform::From(RelRef::Nested(Box::new(p)))],
        };
    }
    let r = translate(p, &Dialect::full());
    assert_eq!(r.unwrap_err(), TranslationError::PipelineTooDeep);
}

#[test]
fn join_qualifies_column_references() {
    let customers = RelRef::Table {
        name: "customers".to_string(),
        cols: vec![
            SourceCol { cid: 20, name: "id".to_string() },
            SourceCol { cid: 21, name: "name".to_string() },
        ],
    };
    let p = Pipeline {
        transforms: vec![
            Transform::From(orders()),
            Transform::Join {
                kind: JoinKind::Inner,
                with: customers,
                on: Expr::Binary(BinOp::CmpEq, Box::new(Expr::Col(3)), Box::new(Expr::Col(20))),
            },
        ],
    };
    let q = translate(p, &Dialect::full()).unwrap();
    match q.body {
        SqlSetExpr::Select(s) => {
            assert_eq!(s.joins.len(), 1);
            match &s.joins[0].on {
                SqlExpr::Binary(BinOp::CmpEq, l, r) => {
                    match &**l {
                        SqlExpr::Compound(t, c) => {
                            assert_eq!(t.base, "orders");
                            assert_eq!(c.base, "customer_id");
                        }
                        other => panic!("expected a qualified name, got {:?}", other),
                    }
                    match &**r {
                        SqlExpr::Compound(t, c) => {
                            assert_eq!(t.base, "customers");
                            assert_eq!(c.base, "id");
                        }
                        other => panic!("expected a qualified name, got {:?}", other),
                    }
                }
                other => panic!("expected an equality, got {:?}", other),
            }
            // the pass-through projection carries both relations' columns
            assert_eq!(s.projection.len(), 5);
        }
        other => panic!("expected a select, got {:?}", other),
    }
}

#[test]
fn join_with_nested_pipeline_becomes_a_cte() {
    let customers = RelRef::Table {
        name: "customers".to_string(),
        cols: vec![
            SourceCol { cid: 20, name: "id".to_string() },
            SourceCol { cid: 21, name: "vip".to_string() },
        ],
    };
    let sub = Pipeline {
        transforms: vec![
            Transform::From(customers),
            Transform::Filter(gt(Expr::Col(21), Expr::Num(0))),
            Transform::Select(vec![def(30, "cust", Expr::Col(20))]),
        ],
    };
    let p = Pipeline {
        transforms: vec![
            Transform::From(orders()),
            Transform::Join {
                kind: JoinKind::Left,
                with: RelRef::Nested(Box::new(sub)),
                on: Expr::Binary(BinOp::CmpEq, Box::new(Expr::Col(3)), Box::new(Expr::Col(30))),
            },
        ],
    };
    let q = translate(p, &Dialect::full()).unwrap();
    assert_eq!(q.ctes.len(), 1);
    match q.body {
        SqlSetExpr::Select(s) => {
            assert_eq!(s.joins.len(), 1);
            match &s.joins[0].rel {
                SqlRel::Table { name, .. } => assert_eq!(name, &q.ctes[0].name),
                other => panic!("expected the cte by name, got {:?}", other),
            }
            match &s.joins[0].on {
                SqlExpr::Binary(BinOp::CmpEq, _, r) => match &**r {
                    SqlExpr::Compound(_, c) => assert_eq!(c.base, "cust"),
                    other => panic!("expected a qualified name, got {:?}", other),
                },
                other => panic!("expected an equality, got {:?}", other),
            }
        }
        other => panic!("expected a select, got {:?}", other),
    }
}

#[test]
fn self_join_gets_a_suffixed_alias() {
    let orders_again = RelRef::Table {
        name: "orders".to_string(),
        cols: vec![
            SourceCol { cid: 40, name: "id".to_string() },
            SourceCol { cid: 41, name: "amount".to_string() },
        ],
    };
    let p = Pipeline {
        transforms: vec![
            Transform::From(orders()),
            Transform::Join {
                kind: JoinKind::Inner,
                with: orders_again,
                on: Expr::Binary(BinOp::CmpEq, Box::new(Expr::Col(1)), Box::new(Expr::Col(40))),
            },
        ],
    };
    let q = translate(p, &Dialect::full()).unwrap();
    match q.body {
        SqlSetExpr::Select(s) => {
            match s.from.as_ref().unwrap() {
                SqlRel::Table { name, alias } => {
                    assert_eq!(name.base, "orders");
                    assert!(alias.is_none());
                }
                other => panic!("expected a table, got {:?}", other),
            }
            match &s.joins[0].rel {
                SqlRel::Table { name, alias } => {
                    assert_eq!(name.base, "orders");
                    let a = alias.as_ref().unwrap();
                    assert_eq!(a.base, "orders");
                    assert!(a.n != 0);
                }
                other => panic!("expected a table, got {:?}", other),
            }
            // both sides of the condition are qualified differently
            match &s.joins[0].on {
                SqlExpr::Binary(BinOp::CmpEq, l, r) => match (&**l, &**r) {
                    (SqlExpr::Compound(t1, _), SqlExpr::Compound(t2, _)) => {
                        assert!(t1.base != t2.base || t1.n != t2.n);
                    }
                    other => panic!("expected qualified names, got {:?}", other),
                },
                other => panic!("expected an equality, got {:?}", other),
            }
        }
        other => panic!("expected a select, got {:?}", other),
    }
}

#[test]
fn sort_after_aggregate_orders_by_output_alias() {
    let p = Pipeline {
        transforms: vec![
            Transform::From(orders()),
            Transform::Aggregate {
                by: vec![def(10, "customer_id", Expr::Col(3))],
                aggs: vec![def(11, "total", Expr::Agg(AggOp::Sum, Box::new(Expr::Col(2))))],
            },
            Transform::Sort(vec![SortItem { expr: Expr::Col(11), desc: true }]),
        ],
    };
    let q = translate(p, &Dialect::full()).unwrap();
    assert_eq!(q.ctes.len(), 0);
    match q.body {
        SqlSetExpr::Select(s) => {
            assert_eq!(s.order_by.len(), 1);
            assert!(s.order_by[0].desc);
            assert!(matches!(&s.order_by[0].expr, SqlExpr::Ident(i) if i.base == "total"));
        }
        other => panic!("expected a single select, got {:?}", other),
    }
}

#[test]
fn append_unions_two_pipelines() {
    let second = Pipeline { transforms: vec![Transform::From(orders())] };
    let p = Pipeline {
        transforms: vec![
            Transform::From(orders()),
            Transform::Append(Box::new(second)),
        ],
    };
    let q = translate(p, &Dialect::full()).unwrap();
    assert!(matches!(q.body, SqlSetExpr::UnionAll(_, _)));
}

#[test]
fn filter_after_sort_opens_a_new_stage() {
    // A WHERE cannot stand after an ORDER BY already placed in the stage:
    // the filter moves into a second SELECT over the first.
    let p = Pipeline {
        transforms: vec![
            Transform::From(orders()),
            Transform::Sort(vec![SortItem { expr: Expr::Col(2), desc: false }]),
            Transform::Filter(gt(Expr::Col(2), Expr::Num(10))),
        ],
    };
    let q = translate(p, &Dialect::full()).unwrap();
    assert_eq!(q.ctes.len(), 1);
    match &q.ctes[0].body {
        SqlSetExpr::Select(s) => {
            assert_eq!(s.order_by.len(), 1);
            assert!(s.selection.is_none());
        }
        other => panic!("expected the sorted stage, got {:?}", other),
    }
    match q.body {
        SqlSetExpr::Select(s) => {
            assert!(s.order_by.is_empty());
            assert!(s.selection.is_some());
        }
        other => panic!("expected the filtering stage, got {:?}", other),
    }
}

#[test]
fn from_only_selects_all_columns() {
    let p = Pipeline { transforms: vec![Transform::From(orders())] };
    let q = translate(p, &Dialect::full()).unwrap();
    assert_eq!(q.ctes.len(), 0);
    match q.body {
        SqlSetExpr::Select(s) => {
            assert_eq!(s.projection.len(), 3);
            assert_eq!(s.projection[0].alias.base, "id");
            assert_eq!(s.projection[1].alias.base, "amount");
            assert_eq!(s.projection[2].alias.base, "customer_id");
            assert!(s.selection.is_none());
        }
        other => panic!("expected a trivial select, got {:?}", other),
    }
}

#[test]
fn full_row_distinct_stays_native() {
    let p = Pipeline {
        transforms: vec![
            Transform::From(orders()),
            Transform::Distinct { keys: None },
        ],
    };
    let q = translate(p, &no_distinct_on()).unwrap();
    assert_eq!(q.ctes.len(), 0);
    match q.body {
        SqlSetExpr::Select(s) => assert!(s.distinct),
        other => panic!("expected a select, got {:?}", other),
    }
}
