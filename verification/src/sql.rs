//! The SQL abstract syntax emitted by the lowering engine.
//!
//! The tree is dialect-correct but textless: rendering (keyword casing,
//! identifier quoting, numeric formatting) is a separate concern, handled by
//! a generic SQL serializer outside this crate.

use vstd::prelude::*;
use crate::rq::{AggOp, BinOp, JoinKind, UnOp};

verus! {

/// A SQL identifier or alias: a base name plus a numeric de-duplication
/// suffix. A suffix of 0 renders as the bare base; a positive suffix renders
/// with the suffix appended. Two identifiers are the same name exactly when
/// both base and suffix agree.
#[derive(PartialEq, Eq, Debug)]
pub struct SqlIdent {
    pub base: String,
    pub n: u64,
}

/// When two identifiers denote the same name.
pub open spec fn ident_same(a: SqlIdent, b: SqlIdent) -> bool {
    a.base@ == b.base@ && a.n == b.n
}

impl Clone for SqlIdent {
    /// A copy equal to the original.
    fn clone(&self) -> (r: SqlIdent)
        ensures
            r == *self,
    {
        SqlIdent { base: self.base.clone(), n: self.n }
    }
}

/// A scalar SQL expression.
#[derive(PartialEq, Eq, Debug)]
pub enum SqlExpr {
    /// An opaque literal token, rendered verbatim.
    Lit(String),
    /// An unsigned integer literal.
    Num(u64),
    /// A bare column name.
    Ident(SqlIdent),
    /// A table-qualified column name.
    Compound(SqlIdent, SqlIdent),
    Unary(UnOp, Box<SqlExpr>),
    Binary(BinOp, Box<SqlExpr>, Box<SqlExpr>),
    /// A scalar function call.
    Call(String, SqlExprList),
    /// An aggregate call.
    Agg(AggOp, Box<SqlExpr>),
    /// `CASE WHEN c THEN v ... ELSE e END`; arms are (condition, value).
    Case(SqlWhens, Option<Box<SqlExpr>>),
    /// `ROW_NUMBER() OVER (PARTITION BY partition ORDER BY order)`.
    RowNumberOver { partition: SqlExprList, order: SqlOrderList },
}

/// A list of SQL expressions (call arguments, partition keys).
#[derive(PartialEq, Eq, Debug)]
pub enum SqlExprList {
    Nil,
    Cons(Box<SqlExpr>, Box<SqlExprList>),
}

/// The `WHEN cond THEN value` arms of a SQL case expression.
#[derive(PartialEq, Eq, Debug)]
pub enum SqlWhens {
    Nil,
    Cons(Box<SqlExpr>, Box<SqlExpr>, Box<SqlWhens>),
}

/// `ORDER BY` criteria inside an `OVER (...)` clause; the flag is
/// "descending".
#[derive(PartialEq, Eq, Debug)]
pub enum SqlOrderList {
    Nil,
    Cons(Box<SqlExpr>, bool, Box<SqlOrderList>),
}

/// One `ORDER BY` criterion.
#[derive(PartialEq, Eq, Debug)]
pub struct SqlOrderItem {
    pub expr: SqlExpr,
    pub desc: bool,
}

/// One item of a `SELECT` output list, always aliased.
#[derive(PartialEq, Eq, Debug)]
pub struct SqlSelectItem {
    pub expr: SqlExpr,
    pub alias: SqlIdent,
}

/// A relation in a `FROM` or `JOIN` clause. `alias` of `None` means the
/// relation is referenced by its own name.
#[derive(PartialEq, Eq, Debug)]
pub enum SqlRel {
    Table { name: SqlIdent, alias: Option<SqlIdent> },
    SubQuery { query: Box<SqlSetExpr>, alias: SqlIdent },
}

/// One `JOIN` of a `SELECT`.
#[derive(PartialEq, Eq, Debug)]
pub struct SqlJoin {
    pub kind: JoinKind,
    pub rel: SqlRel,
    pub on: SqlExpr,
}

/// One `SELECT`, with its clauses in SQL order.
#[derive(PartialEq, Eq, Debug)]
pub struct SqlSelect {
    /// `SELECT DISTINCT` over the whole row.
    pub distinct: bool,
    /// A native "distinct on these keys" list; empty when absent.
    pub distinct_on: Vec<SqlExpr>,
    pub projection: Vec<SqlSelectItem>,
    pub from: Option<SqlRel>,
    pub joins: Vec<SqlJoin>,
    /// The `WHERE` predicate.
    pub selection: Option<SqlExpr>,
    pub group_by: Vec<SqlExpr>,
    pub having: Option<SqlExpr>,
    pub order_by: Vec<SqlOrderItem>,
    pub limit: Option<u64>,
    pub offset: Option<u64>,
}

/// The body of a query: a `SELECT` or a `UNION ALL` of two bodies.
#[derive(PartialEq, Eq, Debug)]
pub enum SqlSetExpr {
    Select(Box<SqlSelect>),
    UnionAll(Box<SqlSetExpr>, Box<SqlSetExpr>),
}

/// One CTE of a `WITH` clause.
#[derive(PartialEq, Eq, Debug)]
pub struct SqlCte {
    pub name: SqlIdent,
    pub body: SqlSetExpr,
}

/// A complete query: an optional `WITH` list and a body.
#[derive(PartialEq, Eq, Debug)]
pub struct SqlQuery {
    pub ctes: Vec<SqlCte>,
    pub body: SqlSetExpr,
}

/// All aliases of one output list are pairwise distinct names.
pub open spec fn aliases_distinct(items: Seq<SqlSelectItem>) -> bool {
    forall|i: int, j: int|
        0 <= i < j < items.len() ==> !ident_same(items[i].alias, items[j].alias)
}

/// Every `SELECT` inside a body has a pairwise-distinct output list.
pub open spec fn body_aliases_distinct(e: SqlSetExpr) -> bool
    decreases e,
{
    match e {
        SqlSetExpr::Select(s) => select_aliases_distinct(*s),
        SqlSetExpr::UnionAll(a, b) => body_aliases_distinct(*a) && body_aliases_distinct(*b),
    }
}

/// A `SELECT` and every `SELECT` nested in its inputs have pairwise-distinct
/// output lists.
pub open spec fn select_aliases_distinct(s: SqlSelect) -> bool
    decreases s,
{
    &&& aliases_distinct(s.projection@)
    &&& match s.from {
        Some(r) => rel_aliases_distinct(r),
        None => true,
    }
    &&& forall|i: int|
        0 <= i < s.joins@.len() ==> #[trigger] rel_aliases_distinct(s.joins@[i].rel)
}

/// Every `SELECT` nested inside a relation has a pairwise-distinct output
/// list.
pub open spec fn rel_aliases_distinct(r: SqlRel) -> bool
    decreases r,
{
    match r {
        SqlRel::Table { .. } => true,
        SqlRel::SubQuery { query, .. } => body_aliases_distinct(*query),
    }
}

/// Every `SELECT` anywhere in a query — in the body or in a CTE — has a
/// pairwise-distinct output list.
pub open spec fn query_aliases_distinct(q: SqlQuery) -> bool {
    &&& body_aliases_distinct(q.body)
    &&& forall|i: int|
        0 <= i < q.ctes@.len() ==> #[trigger] body_aliases_distinct(q.ctes@[i].body)
}

} // verus!
