//! Codegen: lowering of RQ expressions into SQL expressions.
//!
//! Lowering is a structural recursion over the expression, using the scope
//! for all name resolution. Aggregate placement is checked here: an
//! aggregate call outside an Aggregate transform, a nested aggregate call,
//! and a bare reference to a non-grouped column beside an aggregation are
//! rejected with `InvalidAggregateReference` rather than silently emitted.

use vstd::prelude::*;
use crate::context::{resolve_spec, Binding, Scope};
use crate::error::TranslationError;
use crate::rq::{Args, ColumnDef, Expr, Whens};
use crate::sql::{SqlExpr, SqlExprList, SqlWhens};

verus! {

/// The input columns that an Aggregate groups by directly: the cids its
/// group-key definitions consist of, where a definition is a bare column.
pub open spec fn grouped_cids(by: Seq<ColumnDef>) -> Seq<u64>
    decreases by.len(),
{
    if by.len() == 0 {
        Seq::empty()
    } else {
        match by[0].expr {
            Expr::Col(c) => seq![c] + grouped_cids(by.drop_first()),
            _ => grouped_cids(by.drop_first()),
        }
    }
}

/// The first output definition that carries a cid.
pub open spec fn find_def(defs: Seq<ColumnDef>, cid: u64) -> Option<ColumnDef>
    decreases defs.len(),
{
    if defs.len() == 0 {
        None
    } else if defs[0].cid == cid {
        Some(defs[0])
    } else {
        find_def(defs.drop_first(), cid)
    }
}

/// What lowering an expression yields: the SQL expression, or the first
/// error found, scanning depth-first left to right. `qualify` requests
/// table-qualified column names; `allow_agg` is set inside an Aggregate's
/// value expressions, where a bare column must be one of `grouped`;
/// `in_agg` is set below an aggregate call.
pub open spec fn lower_spec(
    e: Expr,
    cols: Seq<Binding>,
    qualify: bool,
    allow_agg: bool,
    grouped: Seq<u64>,
    in_agg: bool,
) -> Result<SqlExpr, TranslationError>
    decreases e,
{
    match e {
        Expr::Lit(s) => Ok(SqlExpr::Lit(s)),
        Expr::Num(n) => Ok(SqlExpr::Num(n)),
        Expr::Col(c) => match resolve_spec(cols, c) {
            None => Err(TranslationError::UnresolvedReference { cid: c }),
            Some(b) => if allow_agg && !in_agg && !grouped.contains(c) {
                Err(TranslationError::InvalidAggregateReference { cid: c })
            } else if qualify {
                Ok(SqlExpr::Compound(b.table, b.column))
            } else {
                Ok(SqlExpr::Ident(b.column))
            },
        },
        Expr::Unary(op, a) => match lower_spec(*a, cols, qualify, allow_agg, grouped, in_agg) {
            Err(er) => Err(er),
            Ok(x) => Ok(SqlExpr::Unary(op, Box::new(x))),
        },
        Expr::Binary(op, a, b) => match lower_spec(*a, cols, qualify, allow_agg, grouped, in_agg) {
            Err(er) => Err(er),
            Ok(x) => match lower_spec(*b, cols, qualify, allow_agg, grouped, in_agg) {
                Err(er) => Err(er),
                Ok(y) => Ok(SqlExpr::Binary(op, Box::new(x), Box::new(y))),
            },
        },
        Expr::Call(name, args) => match lower_args_spec(
            args,
            cols,
            qualify,
            allow_agg,
            grouped,
            in_agg,
        ) {
            Err(er) => Err(er),
            Ok(xs) => Ok(SqlExpr::Call(name, xs)),
        },
        Expr::Agg(op, a) => if !allow_agg || in_agg {
            Err(TranslationError::InvalidAggregateReference { cid: 0 })
        } else {
            match lower_spec(*a, cols, qualify, allow_agg, grouped, true) {
                Err(er) => Err(er),
                Ok(x) => Ok(SqlExpr::Agg(op, Box::new(x))),
            }
        },
        Expr::Case(whens, els) => match lower_whens_spec(
            whens,
            cols,
            qualify,
            allow_agg,
            grouped,
            in_agg,
        ) {
            Err(er) => Err(er),
            Ok(ws) => match els {
                None => Ok(SqlExpr::Case(ws, None)),
                Some(el) => match lower_spec(*el, cols, qualify, allow_agg, grouped, in_agg) {
                    Err(er) => Err(er),
                    Ok(x) => Ok(SqlExpr::Case(ws, Some(Box::new(x)))),
                },
            },
        },
    }
}

/// `lower_spec` over an argument list, first error wins.
pub open spec fn lower_args_spec(
    args: Args,
    cols: Seq<Binding>,
    qualify: bool,
    allow_agg: bool,
    grouped: Seq<u64>,
    in_agg: bool,
) -> Result<SqlExprList, TranslationError>
    decreases args,
{
    match args {
        Args::Nil => Ok(SqlExprList::Nil),
        Args::Cons(e, rest) => match lower_spec(*e, cols, qualify, allow_agg, grouped, in_agg) {
            Err(er) => Err(er),
            Ok(x) => match lower_args_spec(*rest, cols, qualify, allow_agg, grouped, in_agg) {
                Err(er) => Err(er),
                Ok(xs) => Ok(SqlExprList::Cons(Box::new(x), Box::new(xs))),
            },
        },
    }
}

/// `lower_spec` over case arms, first error wins.
pub open spec fn lower_whens_spec(
    whens: Whens,
    cols: Seq<Binding>,
    qualify: bool,
    allow_agg: bool,
    grouped: Seq<u64>,
    in_agg: bool,
) -> Result<SqlWhens, TranslationError>
    decreases whens,
{
    match whens {
        Whens::Nil => Ok(SqlWhens::Nil),
        Whens::Cons(c, v, rest) => match lower_spec(*c, cols, qualify, allow_agg, grouped, in_agg) {
            Err(er) => Err(er),
            Ok(x) => match lower_spec(*v, cols, qualify, allow_agg, grouped, in_agg) {
                Err(er) => Err(er),
                Ok(y) => match lower_whens_spec(*rest, cols, qualify, allow_agg, grouped, in_agg) {
                    Err(er) => Err(er),
                    Ok(ws) => Ok(SqlWhens::Cons(Box::new(x), Box::new(y), Box::new(ws))),
                },
            },
        },
    }
}

/// What lowering a post-aggregation filter expression yields. The
/// expression speaks over the Aggregate's output cids; a reference to a
/// group key or an aggregate value is replaced by that definition's own
/// lowering over the pre-aggregation scope, so `HAVING` never names a
/// `SELECT`-list alias. A reference that resolves only in the
/// pre-aggregation scope mixes grouped and plain column access; a raw
/// aggregate call cannot refer to the output columns at all.
pub open spec fn lower_having_spec(
    e: Expr,
    by: Seq<ColumnDef>,
    aggs: Seq<ColumnDef>,
    cols: Seq<Binding>,
    qualify: bool,
) -> Result<SqlExpr, TranslationError>
    decreases e,
{
    match e {
        Expr::Lit(s) => Ok(SqlExpr::Lit(s)),
        Expr::Num(n) => Ok(SqlExpr::Num(n)),
        Expr::Col(c) => match find_def(by, c) {
            Some(d) => lower_spec(d.expr, cols, qualify, false, Seq::empty(), false),
            None => match find_def(aggs, c) {
                Some(d) => lower_spec(d.expr, cols, qualify, true, grouped_cids(by), false),
                None => if resolve_spec(cols, c) is Some {
                    Err(TranslationError::InvalidAggregateReference { cid: c })
                } else {
                    Err(TranslationError::UnresolvedReference { cid: c })
                },
            },
        },
        Expr::Unary(op, a) => match lower_having_spec(*a, by, aggs, cols, qualify) {
            Err(er) => Err(er),
            Ok(x) => Ok(SqlExpr::Unary(op, Box::new(x))),
        },
        Expr::Binary(op, a, b) => match lower_having_spec(*a, by, aggs, cols, qualify) {
            Err(er) => Err(er),
            Ok(x) => match lower_having_spec(*b, by, aggs, cols, qualify) {
                Err(er) => Err(er),
                Ok(y) => Ok(SqlExpr::Binary(op, Box::new(x), Box::new(y))),
            },
        },
        Expr::Call(name, args) => match lower_having_args_spec(args, by, aggs, cols, qualify) {
            Err(er) => Err(er),
            Ok(xs) => Ok(SqlExpr::Call(name, xs)),
        },
        Expr::Agg(_, _) => Err(TranslationError::InvalidAggregateReference { cid: 0 }),
        Expr::Case(whens, els) => match lower_having_whens_spec(whens, by, aggs, cols, qualify) {
            Err(er) => Err(er),
            Ok(ws) => match els {
                None => Ok(SqlExpr::Case(ws, None)),
                Some(el) => match lower_having_spec(*el, by, aggs, cols, qualify) {
                    Err(er) => Err(er),
                    Ok(x) => Ok(SqlExpr::Case(ws, Some(Box::new(x)))),
                },
            },
        },
    }
}

/// `lower_having_spec` over an argument list, first error wins.
pub open spec fn lower_having_args_spec(
    args: Args,
    by: Seq<ColumnDef>,
    aggs: Seq<ColumnDef>,
    cols: Seq<Binding>,
    qualify: bool,
) -> Result<SqlExprList, TranslationError>
    decreases args,
{
    match args {
        Args::Nil => Ok(SqlExprList::Nil),
        Args::Cons(e, rest) => match lower_having_spec(*e, by, aggs, cols, qualify) {
            Err(er) => Err(er),
            Ok(x) => match lower_having_args_spec(*rest, by, aggs, cols, qualify) {
                Err(er) => Err(er),
                Ok(xs) => Ok(SqlExprList::Cons(Box::new(x), Box::new(xs))),
            },
        },
    }
}

/// `lower_having_spec` over case arms, first error wins.
pub open spec fn lower_having_whens_spec(
    whens: Whens,
    by: Seq<ColumnDef>,
    aggs: Seq<ColumnDef>,
    cols: Seq<Binding>,
    qualify: bool,
) -> Result<SqlWhens, TranslationError>
    decreases whens,
{
    match whens {
        Whens::Nil => Ok(SqlWhens::Nil),
        Whens::Cons(c, v, rest) => match lower_having_spec(*c, by, aggs, cols, qualify) {
            Err(er) => Err(er),
            Ok(x) => match lower_having_spec(*v, by, aggs, cols, qualify) {
                Err(er) => Err(er),
                Ok(y) => match lower_having_whens_spec(*rest, by, aggs, cols, qualify) {
                    Err(er) => Err(er),
                    Ok(ws) => Ok(SqlWhens::Cons(Box::new(x), Box::new(y), Box::new(ws))),
                },
            },
        },
    }
}

/// Whether a cid list contains a cid.
pub fn cids_contain(v: &Vec<u64>, c: u64) -> (r: bool)
    ensures
        r == v@.contains(c),
{
    let mut k: usize = 0;
    while k < v.len()
        invariant
            k <= v@.len(),
            forall|i: int| 0 <= i < k ==> v@[i] != c,
        decreases v@.len() - k,
    {
        if v[k] == c {
            return true;
        }
        k = k + 1;
    }
    false
}

/// The grouped cids of an Aggregate, as `grouped_cids` gives them.
pub fn grouped_cids_x(by: &Vec<ColumnDef>) -> (r: Vec<u64>)
    ensures
        r@ == grouped_cids(by@),
{
    let mut r: Vec<u64> = Vec::new();
    let mut k: usize = 0;
    proof {
        assert(by@.skip(0) =~= by@);
    }
    while k < by.len()
        invariant
            k <= by@.len(),
            grouped_cids(by@) =~= r@ + grouped_cids(by@.skip(k as int)),
        decreases by@.len() - k,
    {
        let ghost pre = r@;
        proof {
            assert(by@.skip(k as int)[0] == by@[k as int]);
            assert(by@.skip(k as int).drop_first() =~= by@.skip(k + 1));
        }
        match &by[k].expr {
            Expr::Col(c) => {
                r.push(*c);
                proof {
                    assert(r@ =~= pre.push(by@[k as int].expr->Col_0));
                    assert(pre + (seq![by@[k as int].expr->Col_0] + grouped_cids(by@.skip(k + 1)))
                        =~= r@ + grouped_cids(by@.skip(k + 1)));
                }
            },
            _ => {},
        }
        k = k + 1;
    }
    proof {
        assert(grouped_cids(by@.skip(by@.len() as int)) =~= Seq::<u64>::empty());
        assert(r@ + Seq::<u64>::empty() =~= r@);
    }
    r
}

/// The first output definition carrying a cid, as `find_def` gives it.
pub fn find_def_x<'a>(defs: &'a Vec<ColumnDef>, cid: u64) -> (r: Option<&'a ColumnDef>)
    ensures
        match r {
            Some(d) => find_def(defs@, cid) == Some(*d),
            None => find_def(defs@, cid) is None,
        },
{
    let mut k: usize = 0;
    proof {
        assert(defs@.skip(0) =~= defs@);
    }
    while k < defs.len()
        invariant
            k <= defs@.len(),
            find_def(defs@, cid) == find_def(defs@.skip(k as int), cid),
        decreases defs@.len() - k,
    {
        proof {
            assert(defs@.skip(k as int)[0] == defs@[k as int]);
            assert(defs@.skip(k as int).drop_first() =~= defs@.skip(k + 1));
        }
        if defs[k].cid == cid {
            return Some(&defs[k]);
        }
        k = k + 1;
    }
    proof {
        assert(defs@.skip(defs@.len() as int).len() == 0);
    }
    None
}

/// Lowers one expression, as `lower_spec` says.
pub fn lower(
    e: &Expr,
    scope: &Scope,
    qualify: bool,
    allow_agg: bool,
    grouped: &Vec<u64>,
    in_agg: bool,
) -> (r: Result<SqlExpr, TranslationError>)
    ensures
        r == lower_spec(*e, scope.cols@, qualify, allow_agg, grouped@, in_agg),
        r matches Err(e) ==> e is UnresolvedReference || e is InvalidAggregateReference,
    decreases *e,
{
    match e {
        Expr::Lit(s) => Ok(SqlExpr::Lit(s.clone())),
        Expr::Num(n) => Ok(SqlExpr::Num(*n)),
        Expr::Col(c) => match scope.resolve(*c) {
            Err(er) => Err(er),
            Ok(b) => if allow_agg && !in_agg && !cids_contain(grouped, *c) {
                Err(TranslationError::InvalidAggregateReference { cid: *c })
            } else if qualify {
                Ok(SqlExpr::Compound(b.table.clone(), b.column.clone()))
            } else {
                Ok(SqlExpr::Ident(b.column.clone()))
            },
        },
        Expr::Unary(op, a) => match lower(a, scope, qualify, allow_agg, grouped, in_agg) {
            Err(er) => Err(er),
            Ok(x) => Ok(SqlExpr::Unary(*op, Box::new(x))),
        },
        Expr::Binary(op, a, b) => match lower(a, scope, qualify, allow_agg, grouped, in_agg) {
            Err(er) => Err(er),
            Ok(x) => match lower(b, scope, qualify, allow_agg, grouped, in_agg) {
                Err(er) => Err(er),
                Ok(y) => Ok(SqlExpr::Binary(*op, Box::new(x), Box::new(y))),
            },
        },
        Expr::Call(name, args) => match lower_args(args, scope, qualify, allow_agg, grouped, in_agg) {
            Err(er) => Err(er),
            Ok(xs) => Ok(SqlExpr::Call(name.clone(), xs)),
        },
        Expr::Agg(op, a) => if !allow_agg || in_agg {
            Err(TranslationError::InvalidAggregateReference { cid: 0 })
        } else {
            match lower(a, scope, qualify, allow_agg, grouped, true) {
                Err(er) => Err(er),
                Ok(x) => Ok(SqlExpr::Agg(*op, Box::new(x))),
            }
        },
        Expr::Case(whens, els) => match lower_whens(whens, scope, qualify, allow_agg, grouped, in_agg) {
            Err(er) => Err(er),
            Ok(ws) => match els {
                None => Ok(SqlExpr::Case(ws, None)),
                Some(el) => match lower(el, scope, qualify, allow_agg, grouped, in_agg) {
                    Err(er) => Err(er),
                    Ok(x) => Ok(SqlExpr::Case(ws, Some(Box::new(x)))),
                },
            },
        },
    }
}

/// Lowers a post-aggregation filter expression, as `lower_having_spec`
/// says. `grouped` must be the grouped cids of `by`.
pub fn lower_having(
    e: &Expr,
    by: &Vec<ColumnDef>,
    aggs: &Vec<ColumnDef>,
    scope: &Scope,
    qualify: bool,
    grouped: &Vec<u64>,
) -> (r: Result<SqlExpr, TranslationError>)
    requires
        grouped@ == grouped_cids(by@),
    ensures
        r == lower_having_spec(*e, by@, aggs@, scope.cols@, qualify),
        r matches Err(e) ==> e is UnresolvedReference || e is InvalidAggregateReference,
    decreases *e,
{
    match e {
        Expr::Lit(s) => Ok(SqlExpr::Lit(s.clone())),
        Expr::Num(n) => Ok(SqlExpr::Num(*n)),
        Expr::Col(c) => match find_def_x(by, *c) {
            Some(d) => {
                let empty: Vec<u64> = Vec::new();
                proof {
                    assert(empty@ =~= Seq::<u64>::empty());
                }
                lower(&d.expr, scope, qualify, false, &empty, false)
            },
            None => match find_def_x(aggs, *c) {
                Some(d) => lower(&d.expr, scope, qualify, true, grouped, false),
                None => match scope.resolve(*c) {
                    Ok(_) => Err(TranslationError::InvalidAggregateReference { cid: *c }),
                    Err(_) => Err(TranslationError::UnresolvedReference { cid: *c }),
                },
            },
        },
        Expr::Unary(op, a) => match lower_having(a, by, aggs, scope, qualify, grouped) {
            Err(er) => Err(er),
            Ok(x) => Ok(SqlExpr::Unary(*op, Box::new(x))),
        },
        Expr::Binary(op, a, b) => match lower_having(a, by, aggs, scope, qualify, grouped) {
            Err(er) => Err(er),
            Ok(x) => match lower_having(b, by, aggs, scope, qualify, grouped) {
                Err(er) => Err(er),
                Ok(y) => Ok(SqlExpr::Binary(*op, Box::new(x), Box::new(y))),
            },
        },
        Expr::Call(name, args) => match lower_having_args(args, by, aggs, scope, qualify, grouped) {
            Err(er) => Err(er),
            Ok(xs) => Ok(SqlExpr::Call(name.clone(), xs)),
        },
        Expr::Agg(_, _) => Err(TranslationError::InvalidAggregateReference { cid: 0 }),
        Expr::Case(whens, els) => match lower_having_whens(whens, by, aggs, scope, qualify, grouped) {
            Err(er) => Err(er),
            Ok(ws) => match els {
                None => Ok(SqlExpr::Case(ws, None)),
                Some(el) => match lower_having(el, by, aggs, scope, qualify, grouped) {
                    Err(er) => Err(er),
                    Ok(x) => Ok(SqlExpr::Case(ws, Some(Box::new(x)))),
                },
            },
        },
    }
}

/// Lowers a post-aggregation argument list, as `lower_having_args_spec`
/// says.
pub fn lower_having_args(
    args: &Args,
    by: &Vec<ColumnDef>,
    aggs: &Vec<ColumnDef>,
    scope: &Scope,
    qualify: bool,
    grouped: &Vec<u64>,
) -> (r: Result<SqlExprList, TranslationError>)
    requires
        grouped@ == grouped_cids(by@),
    ensures
        r == lower_having_args_spec(*args, by@, aggs@, scope.cols@, qualify),
        r matches Err(e) ==> e is UnresolvedReference || e is InvalidAggregateReference,
    decreases *args,
{
    match args {
        Args::Nil => Ok(SqlExprList::Nil),
        Args::Cons(e, rest) => match lower_having(e, by, aggs, scope, qualify, grouped) {
            Err(er) => Err(er),
            Ok(x) => match lower_having_args(rest, by, aggs, scope, qualify, grouped) {
                Err(er) => Err(er),
                Ok(xs) => Ok(SqlExprList::Cons(Box::new(x), Box::new(xs))),
            },
        },
    }
}

/// Lowers post-aggregation case arms, as `lower_having_whens_spec` says.
pub fn lower_having_whens(
    whens: &Whens,
    by: &Vec<ColumnDef>,
    aggs: &Vec<ColumnDef>,
    scope: &Scope,
    qualify: bool,
    grouped: &Vec<u64>,
) -> (r: Result<SqlWhens, TranslationError>)
    requires
        grouped@ == grouped_cids(by@),
    ensures
        r == lower_having_whens_spec(*whens, by@, aggs@, scope.cols@, qualify),
        r matches Err(e) ==> e is UnresolvedReference || e is InvalidAggregateReference,
    decreases *whens,
{
    match whens {
        Whens::Nil => Ok(SqlWhens::Nil),
        Whens::Cons(c, v, rest) => match lower_having(c, by, aggs, scope, qualify, grouped) {
            Err(er) => Err(er),
            Ok(x) => match lower_having(v, by, aggs, scope, qualify, grouped) {
                Err(er) => Err(er),
                Ok(y) => match lower_having_whens(rest, by, aggs, scope, qualify, grouped) {
                    Err(er) => Err(er),
                    Ok(ws) => Ok(SqlWhens::Cons(Box::new(x), Box::new(y), Box::new(ws))),
                },
            },
        },
    }
}

/// Lowers an argument list, as `lower_args_spec` says.
pub fn lower_args(
    args: &Args,
    scope: &Scope,
    qualify: bool,
    allow_agg: bool,
    grouped: &Vec<u64>,
    in_agg: bool,
) -> (r: Result<SqlExprList, TranslationError>)
    ensures
        r == lower_args_spec(*args, scope.cols@, qualify, allow_agg, grouped@, in_agg),
        r matches Err(e) ==> e is UnresolvedReference || e is InvalidAggregateReference,
    decreases *args,
{
    match args {
        Args::Nil => Ok(SqlExprList::Nil),
        Args::Cons(e, rest) => match lower(e, scope, qualify, allow_agg, grouped, in_agg) {
            Err(er) => Err(er),
            Ok(x) => match lower_args(rest, scope, qualify, allow_agg, grouped, in_agg) {
                Err(er) => Err(er),
                Ok(xs) => Ok(SqlExprList::Cons(Box::new(x), Box::new(xs))),
            },
        },
    }
}

/// Lowers case arms, as `lower_whens_spec` says.
pub fn lower_whens(
    whens: &Whens,
    scope: &Scope,
    qualify: bool,
    allow_agg: bool,
    grouped: &Vec<u64>,
    in_agg: bool,
) -> (r: Result<SqlWhens, TranslationError>)
    ensures
        r == lower_whens_spec(*whens, scope.cols@, qualify, allow_agg, grouped@, in_agg),
        r matches Err(e) ==> e is UnresolvedReference || e is InvalidAggregateReference,
    decreases *whens,
{
    match whens {
        Whens::Nil => Ok(SqlWhens::Nil),
        Whens::Cons(c, v, rest) => match lower(c, scope, qualify, allow_agg, grouped, in_agg) {
            Err(er) => Err(er),
            Ok(x) => match lower(v, scope, qualify, allow_agg, grouped, in_agg) {
                Err(er) => Err(er),
                Ok(y) => match lower_whens(rest, scope, qualify, allow_agg, grouped, in_agg) {
                    Err(er) => Err(er),
                    Ok(ws) => Ok(SqlWhens::Cons(Box::new(x), Box::new(y), Box::new(ws))),
                },
            },
        },
    }
}

} // verus!
