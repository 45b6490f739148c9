//! The relational-query intermediate representation (RQ) consumed by the
//! lowering engine: a pipeline of composable transforms over named columns.
//!
//! A column is identified by an opaque `u64` (a *cid*), unique within one
//! compilation and never reused once a transform redefines the column set.
//! Identity, not textual name, is the ground truth for "the same column".

use vstd::prelude::*;

verus! {

/// A row-oriented inline literal: column names and rows of opaque cell
/// tokens. No type inference is performed on cells; every value is carried
/// as an opaque expression token, and quoting is the caller's concern.
#[derive(PartialEq, Eq, Debug)]
pub struct RelationLiteral {
    pub columns: Vec<String>,
    pub rows: Vec<Vec<String>>,
}

/// A column produced by a source relation: its opaque identity and its
/// user-visible name.
#[derive(PartialEq, Eq, Debug)]
pub struct SourceCol {
    pub cid: u64,
    pub name: String,
}

/// A unary operator.
#[derive(Clone, Copy, PartialEq, Eq, Structural, Debug)]
pub enum UnOp {
    Negate,
    LogicNot,
}

/// A binary operator.
#[derive(Clone, Copy, PartialEq, Eq, Structural, Debug)]
pub enum BinOp {
    Plus,
    Minus,
    Times,
    Divide,
    CmpEq,
    CmpNe,
    CmpLt,
    CmpLe,
    CmpGt,
    CmpGe,
    LogicAnd,
    LogicOr,
}

/// An aggregate function.
#[derive(Clone, Copy, PartialEq, Eq, Structural, Debug)]
pub enum AggOp {
    Sum,
    Count,
    Min,
    Max,
    Avg,
}

/// A scalar RQ expression.
#[derive(PartialEq, Eq, Debug)]
pub enum Expr {
    /// An opaque literal token, rendered verbatim.
    Lit(String),
    /// An unsigned integer literal.
    Num(u64),
    /// A reference to the column with this cid.
    Col(u64),
    Unary(UnOp, Box<Expr>),
    Binary(BinOp, Box<Expr>, Box<Expr>),
    /// A scalar function call.
    Call(String, Args),
    /// An aggregate call; valid only inside an Aggregate transform.
    Agg(AggOp, Box<Expr>),
    /// `CASE WHEN c1 THEN v1 ... ELSE e END`; the `ELSE` arm is optional.
    Case(Whens, Option<Box<Expr>>),
}

/// The argument list of a scalar function call.
#[derive(PartialEq, Eq, Debug)]
pub enum Args {
    Nil,
    Cons(Box<Expr>, Box<Args>),
}

/// The `WHEN cond THEN value` arms of a case expression.
#[derive(PartialEq, Eq, Debug)]
pub enum Whens {
    Nil,
    Cons(Box<Expr>, Box<Expr>, Box<Whens>),
}

/// One output column defined by a Select or Aggregate transform: the fresh
/// cid it produces, its preferred user-visible name, and its defining
/// expression (over the cids of the preceding column set).
#[derive(PartialEq, Eq, Debug)]
pub struct ColumnDef {
    pub cid: u64,
    pub name: String,
    pub expr: Expr,
}

/// One sort criterion: an expression and a direction.
#[derive(PartialEq, Eq, Debug)]
pub struct SortItem {
    pub expr: Expr,
    pub desc: bool,
}

/// A join kind.
#[derive(Clone, Copy, PartialEq, Eq, Structural, Debug)]
pub enum JoinKind {
    Inner,
    Left,
    Right,
    Full,
}

/// A bounded range of row positions, 1-based and inclusive; `end` of `None`
/// means "to the end".
#[derive(Clone, Copy, PartialEq, Eq, Structural, Debug)]
pub struct TakeRange {
    pub start: u64,
    pub end: Option<u64>,
}

/// A source relation: a base table, an inline literal, or a nested pipeline.
#[derive(PartialEq, Eq, Debug)]
pub enum RelRef {
    /// A base table with its name and the columns it produces.
    Table { name: String, cols: Vec<SourceCol> },
    /// An inline literal, referenced by `name`; `cids` assigns one opaque
    /// identity to each of `lit.columns`, in order.
    Literal { name: String, cids: Vec<u64>, lit: RelationLiteral },
    /// A nested pipeline whose output is this source.
    Nested(Box<Pipeline>),
}

/// One relational transform. Each transform consumes the column set of its
/// predecessor and may restrict, reorder, group, or redefine it.
#[derive(PartialEq, Eq, Debug)]
pub enum Transform {
    /// The unique source-producing head of a pipeline.
    From(RelRef),
    /// Redefines the column set as the listed definitions, in order.
    Select(Vec<ColumnDef>),
    /// Keeps the rows satisfying the predicate.
    Filter(Expr),
    /// Groups by `by` and redefines the column set as `by` then `aggs`.
    Aggregate { by: Vec<ColumnDef>, aggs: Vec<ColumnDef> },
    /// Orders rows by the listed criteria.
    Sort(Vec<SortItem>),
    /// Keeps a bounded range of row positions; with a non-empty `partition`
    /// the range applies within each group of equal partition columns.
    Take { range: TakeRange, partition: Vec<u64> },
    /// Joins a second source; its columns extend the current column set.
    Join { kind: JoinKind, with: RelRef, on: Expr },
    /// Appends the rows of another pipeline with the same column shape.
    Append(Box<Pipeline>),
    /// Keeps unique rows: over the whole row (`keys` of `None`), or one row
    /// per distinct value of the key columns.
    Distinct { keys: Option<Vec<u64>> },
    /// Internal form produced by the distinct/take emulator: extends the
    /// column set with a `ROW_NUMBER() OVER (PARTITION BY partition ORDER BY
    /// order)` column identified by `cid`.
    RowNumber { cid: u64, partition: Vec<u64>, order: Vec<SortItem> },
}

/// An ordered pipeline of transforms. Well-formed pipelines begin with
/// exactly one `From` and contain no later one.
#[derive(PartialEq, Eq, Debug)]
pub struct Pipeline {
    pub transforms: Vec<Transform>,
}

impl Clone for Expr {
    /// A deep copy that is equal to the original.
    fn clone(&self) -> (r: Expr)
        ensures
            r == *self,
        decreases self,
    {
        match self {
            Expr::Lit(s) => Expr::Lit(s.clone()),
            Expr::Num(n) => Expr::Num(*n),
            Expr::Col(c) => Expr::Col(*c),
            Expr::Unary(op, e) => Expr::Unary(*op, Box::new((**e).clone())),
            Expr::Binary(op, a, b) => Expr::Binary(
                *op,
                Box::new((**a).clone()),
                Box::new((**b).clone()),
            ),
            Expr::Call(name, args) => Expr::Call(name.clone(), args.clone()),
            Expr::Agg(op, e) => Expr::Agg(*op, Box::new((**e).clone())),
            Expr::Case(whens, els) => Expr::Case(
                whens.clone(),
                match els {
                    Some(e) => Some(Box::new((**e).clone())),
                    None => None,
                },
            ),
        }
    }
}

impl Clone for Args {
    /// A deep copy that is equal to the original.
    fn clone(&self) -> (r: Args)
        ensures
            r == *self,
        decreases self,
    {
        match self {
            Args::Nil => Args::Nil,
            Args::Cons(e, rest) => Args::Cons(Box::new((**e).clone()), Box::new((**rest).clone())),
        }
    }
}

impl Clone for Whens {
    /// A deep copy that is equal to the original.
    fn clone(&self) -> (r: Whens)
        ensures
            r == *self,
        decreases self,
    {
        match self {
            Whens::Nil => Whens::Nil,
            Whens::Cons(c, v, rest) => Whens::Cons(
                Box::new((**c).clone()),
                Box::new((**v).clone()),
                Box::new((**rest).clone()),
            ),
        }
    }
}

impl Clone for SortItem {
    /// A deep copy that is equal to the original.
    fn clone(&self) -> (r: SortItem)
        ensures
            r == *self,
    {
        SortItem { expr: self.expr.clone(), desc: self.desc }
    }
}

} // verus!
