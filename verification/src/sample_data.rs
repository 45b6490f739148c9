//! The sample-data encoder: turns a row-oriented literal into the
//! `UNION ALL`-of-single-row-`SELECT`s body a CTE can carry.
//!
//! Cell values are treated as opaque expression tokens — no type inference
//! is performed, and quoting is the caller's concern.

use vstd::prelude::*;
use crate::rq::RelationLiteral;
use crate::sql::{
    aliases_distinct, body_aliases_distinct, SqlExpr, SqlIdent, SqlQuery, SqlSelect,
    SqlSelectItem, SqlSetExpr,
};

verus! {

/// The CSV text could not be parsed into a table; `message` carries the
/// reader's own words.
#[derive(Clone, PartialEq, Eq, Debug)]
pub struct CsvError {
    pub message: String,
}

/// What parsing a CSV text yields: the header row and the data rows, or
/// nothing when the text is malformed. The result depends on the text
/// alone.
pub uninterp spec fn csv_table(s: Seq<char>) -> Option<(Seq<Seq<char>>, Seq<Seq<Seq<char>>>)>;

/// Relies on csv::Reader (headers, records): parses the text with the
/// default configuration — first row is the header, records are not
/// flexible — and hands every cell back as text. A non-flexible reader
/// rejects any record whose field count differs from the header's, so
/// every row handed back has exactly as many cells as there are columns.
/// The reader is consumed through its record iterator, so the whole parse
/// stands behind this one call site.
#[verifier::external_body]
fn read_csv(text: &str) -> (r: Result<(Vec<String>, Vec<Vec<String>>), CsvError>)
    ensures
        match r {
            Ok(t) => csv_table(text@) == Some(
                (t.0.deep_view(), t.1.deep_view()),
            ) && forall|i: int|
                0 <= i < t.1@.len() ==> (#[trigger] t.1@[i])@.len() == t.0@.len(),
            Err(_) => csv_table(text@) is None,
        },
{
    let mut rdr = csv::Reader::from_reader(text.as_bytes());
    let columns: Vec<String> = match rdr.headers() {
        Ok(h) => h.iter().map(|c| c.to_string()).collect(),
        Err(e) => return Err(CsvError { message: e.to_string() }),
    };
    let mut rows: Vec<Vec<String>> = Vec::new();
    for record in rdr.records() {
        match record {
            Ok(rec) => rows.push(rec.iter().map(|c| c.to_string()).collect()),
            Err(e) => return Err(CsvError { message: e.to_string() }),
        }
    }
    Ok((columns, rows))
}

/// Parses a CSV text into a relation literal: the header row names the
/// columns, every following row is a row of opaque cells, rectangular
/// with the header.
pub fn data_of_csv(csv: &str) -> (r: Result<RelationLiteral, CsvError>)
    ensures
        match r {
            Ok(rl) => csv_table(csv@) == Some(
                (rl.columns.deep_view(), rl.rows.deep_view()),
            ) && forall|i: int|
                0 <= i < rl.rows@.len() ==> (#[trigger] rl.rows@[i])@.len()
                    == rl.columns@.len(),
            Err(_) => csv_table(csv@) is None,
        },
{
    match read_csv(csv) {
        Ok((columns, rows)) => Ok(RelationLiteral { columns, rows }),
        Err(e) => Err(e),
    }
}

/// One single-row `SELECT` of the chain: its output list pairs the row's
/// cells, in order, with the column names as aliases, and every other
/// clause is empty. A short row or a short header truncates the pairing,
/// as a zip does.
pub open spec fn sample_select_ok(s: SqlSelect, cols: Seq<String>, row: Seq<String>) -> bool {
    &&& s.projection@.len() == if cols.len() <= row.len() {
        cols.len()
    } else {
        row.len()
    }
    &&& forall|i: int|
        0 <= i < s.projection@.len() ==> (#[trigger] s.projection@[i]) == (SqlSelectItem {
            expr: SqlExpr::Lit(row[i]),
            alias: SqlIdent { base: cols[i], n: 0 },
        })
    &&& !s.distinct
    &&& s.distinct_on@.len() == 0
    &&& s.from is None
    &&& s.joins@.len() == 0
    &&& s.selection is None
    &&& s.group_by@.len() == 0
    &&& s.having is None
    &&& s.order_by@.len() == 0
    &&& s.limit is None
    &&& s.offset is None
}

/// The body is the left-deep `UNION ALL` chain of one single-row `SELECT`
/// per row, in row order.
pub open spec fn sample_chain_ok(e: SqlSetExpr, cols: Seq<String>, rows: Seq<Vec<String>>) -> bool
    decreases rows.len(),
{
    if rows.len() <= 1 {
        rows.len() == 1 && match e {
            SqlSetExpr::Select(s) => sample_select_ok(*s, cols, rows[0]@),
            _ => false,
        }
    } else {
        match e {
            SqlSetExpr::UnionAll(a, b) => sample_chain_ok(*a, cols, rows.drop_last())
                && match *b {
                SqlSetExpr::Select(s) => sample_select_ok(*s, cols, rows.last()@),
                _ => false,
            },
            _ => false,
        }
    }
}

/// Builds the single-row `SELECT` for one row.
fn sample_select(data: &RelationLiteral, row: usize) -> (s: SqlSelect)
    requires
        row < data.rows@.len(),
    ensures
        sample_select_ok(s, data.columns@, data.rows@[row as int]@),
        (forall|i: int, j: int|
            0 <= i < j < data.columns@.len() ==> data.columns@[i]@ != data.columns@[j]@)
            ==> aliases_distinct(s.projection@),
{
    let cells = &data.rows[row];
    let n = if data.columns.len() <= cells.len() {
        data.columns.len()
    } else {
        cells.len()
    };
    let mut projection: Vec<SqlSelectItem> = Vec::new();
    let mut k: usize = 0;
    while k < n
        invariant
            n <= data.columns@.len(),
            n <= cells@.len(),
            cells == &data.rows@[row as int],
            k <= n,
            projection@.len() == k,
            forall|i: int|
                0 <= i < k ==> (#[trigger] projection@[i]) == (SqlSelectItem {
                    expr: SqlExpr::Lit(cells@[i]),
                    alias: SqlIdent { base: data.columns@[i], n: 0 },
                }),
        decreases n - k,
    {
        projection.push(
            SqlSelectItem {
                expr: SqlExpr::Lit(cells[k].clone()),
                alias: SqlIdent { base: data.columns[k].clone(), n: 0 },
            },
        );
        k = k + 1;
    }
    SqlSelect {
        distinct: false,
        distinct_on: Vec::new(),
        projection,
        from: None,
        joins: Vec::new(),
        selection: None,
        group_by: Vec::new(),
        having: None,
        order_by: Vec::new(),
        limit: None,
        offset: None,
    }
}

/// Encodes a non-empty relation literal as a query whose body is the
/// left-deep `UNION ALL` chain of one single-row `SELECT` per row, exactly
/// as `sample_chain_ok` lays it out. With pairwise-distinct column names,
/// every `SELECT` of the chain has a pairwise-distinct output list.
pub fn sql_of_sample_data(data: &RelationLiteral) -> (r: SqlQuery)
    requires
        data.rows@.len() >= 1,
    ensures
        r.ctes@.len() == 0,
        sample_chain_ok(r.body, data.columns@, data.rows@),
        (forall|i: int, j: int|
            0 <= i < j < data.columns@.len() ==> data.columns@[i]@ != data.columns@[j]@)
            ==> body_aliases_distinct(r.body),
{
    let ghost distinct_cols = forall|i: int, j: int|
        0 <= i < j < data.columns@.len() ==> data.columns@[i]@ != data.columns@[j]@;
    let first = sample_select(data, 0);
    let mut body = SqlSetExpr::Select(Box::new(first));
    proof {
        assert(data.rows@.subrange(0, 1).len() == 1);
        assert(data.rows@.subrange(0, 1)[0] == data.rows@[0]);
        assert(sample_chain_ok(body, data.columns@, data.rows@.subrange(0, 1)));
        if distinct_cols {
            assert(crate::sql::select_aliases_distinct(first));
            assert(body_aliases_distinct(body));
        }
    }
    let mut k: usize = 1;
    while k < data.rows.len()
        invariant
            1 <= k <= data.rows@.len(),
            sample_chain_ok(body, data.columns@, data.rows@.subrange(0, k as int)),
            distinct_cols == (forall|i: int, j: int|
                0 <= i < j < data.columns@.len() ==> data.columns@[i]@ != data.columns@[j]@),
            distinct_cols ==> body_aliases_distinct(body),
        decreases data.rows@.len() - k,
    {
        let s = sample_select(data, k);
        let ghost old_body = body;
        body = SqlSetExpr::UnionAll(Box::new(body), Box::new(SqlSetExpr::Select(Box::new(s))));
        proof {
            assert(data.rows@.subrange(0, k + 1 as int).drop_last() =~= data.rows@.subrange(
                0,
                k as int,
            ));
            assert(data.rows@.subrange(0, k + 1 as int).last() == data.rows@[k as int]);
            assert(sample_chain_ok(body, data.columns@, data.rows@.subrange(0, k + 1 as int)));
            if distinct_cols {
                assert(crate::sql::select_aliases_distinct(s));
                assert(body_aliases_distinct(SqlSetExpr::Select(Box::new(s))));
                assert(body_aliases_distinct(body));
            }
        }
        k = k + 1;
    }
    proof {
        assert(data.rows@.subrange(0, data.rows@.len() as int) =~= data.rows@);
    }
    SqlQuery { ctes: Vec::new(), body }
}

} // verus!
