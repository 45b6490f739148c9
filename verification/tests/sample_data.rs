use rq_sql::sample_data::{data_of_csv, sql_of_sample_data};
use rq_sql::sql::{SqlExpr, SqlSetExpr};

#[test]
fn test_csv() {
    let csv = "a,b,c\n1,2,3\n4,5,6";
    let data = data_of_csv(csv).unwrap();
    assert_eq!(
        data.columns,
        vec!["a".to_string(), "b".to_string(), "c".to_string()]
    );
    assert_eq!(
        data.rows,
        vec![
            vec!["1".to_string(), "2".to_string(), "3".to_string()],
            vec!["4".to_string(), "5".to_string(), "6".to_string()],
        ]
    );

    let q = sql_of_sample_data(&data);
    assert_eq!(q.ctes.len(), 0);
    // SELECT 1 AS a, 2 AS b, 3 AS c UNION ALL SELECT 4 AS a, 5 AS b, 6 AS c
    match q.body {
        SqlSetExpr::UnionAll(left, right) => {
            match *left {
                SqlSetExpr::Select(s) => {
                    assert_eq!(s.projection.len(), 3);
                    let expected = [("1", "a"), ("2", "b"), ("3", "c")];
                    for (item, (value, col)) in s.projection.iter().zip(expected.iter()) {
                        match &item.expr {
                            SqlExpr::Lit(v) => assert_eq!(v, value),
                            other => panic!("expected a literal, got {:?}", other),
                        }
                        assert_eq!(item.alias.base, *col);
                        assert_eq!(item.alias.n, 0);
                    }
                    assert!(s.from.is_none());
                    assert!(!s.distinct);
                }
                other => panic!("expected a select, got {:?}", other),
            }
            match *right {
                SqlSetExpr::Select(s) => {
                    assert_eq!(s.projection.len(), 3);
                    let expected = [("4", "a"), ("5", "b"), ("6", "c")];
                    for (item, (value, col)) in s.projection.iter().zip(expected.iter()) {
                        match &item.expr {
                            SqlExpr::Lit(v) => assert_eq!(v, value),
                            other => panic!("expected a literal, got {:?}", other),
                        }
                        assert_eq!(item.alias.base, *col);
                    }
                }
                other => panic!("expected a select, got {:?}", other),
            }
        }
        other => panic!("expected a union, got {:?}", other),
    }
}

#[test]
fn csv_with_ragged_row_is_rejected() {
    // The second data row has one cell too many.
    assert!(data_of_csv("a,b\n1,2\n3,4,5").is_err());
}

#[test]
fn single_row_literal_is_one_select() {
    let data = data_of_csv("x,y\n7,8").unwrap();
    let q = sql_of_sample_data(&data);
    match q.body {
        SqlSetExpr::Select(s) => {
            assert_eq!(s.projection.len(), 2);
            assert_eq!(s.projection[0].alias.base, "x");
            assert_eq!(s.projection[1].alias.base, "y");
        }
        other => panic!("expected a single select, got {:?}", other),
    }
}
