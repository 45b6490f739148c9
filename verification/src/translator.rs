//! The translator: orchestration of emulation, anchoring, naming and
//! codegen into one complete SQL query.
//!
//! Stages chain through CTEs by default, or through nested subqueries when
//! the dialect lacks CTE support. Join and Append sub-pipelines are
//! translated recursively, depth-first, under an explicit depth guard.

use vstd::prelude::*;
use crate::anchor::{anchor, cat_all, stages_views};
use crate::codegen::{grouped_cids, grouped_cids_x, lower, lower_having};
use crate::context::{Binding, NamePool, Scope};
use crate::dialect::Dialect;
use crate::emulate::emulate;
use crate::error::TranslationError;
use crate::rq::{ColumnDef, Expr, Pipeline, RelRef, SortItem, Transform};
use crate::sql::{
    aliases_distinct, body_aliases_distinct, ident_same, rel_aliases_distinct,
    select_aliases_distinct, SqlCte, SqlExpr, SqlExprList, SqlIdent, SqlJoin, SqlOrderItem,
    SqlOrderList, SqlQuery, SqlRel, SqlSelect, SqlSelectItem, SqlSetExpr,
};

verus! {

/// The recursion depth guard for nested join/append sub-pipelines.
pub const MAX_PIPELINE_DEPTH: u64 = 64;

/// The per-translation state: the pool of table and CTE aliases of the
/// outermost SQL scope, and the CTEs accumulated so far.
pub struct Ctx {
    pub tables: NamePool,
    pub ctes: Vec<SqlCte>,
}

/// The pool is well formed and every accumulated CTE has pairwise-distinct
/// output lists throughout.
pub open spec fn ctx_wf(c: Ctx) -> bool {
    &&& c.tables.wf()
    &&& forall|i: int|
        0 <= i < c.ctes@.len() ==> body_aliases_distinct(#[trigger] c.ctes@[i].body)
}

impl Ctx {
    /// Allocates a fresh table or CTE alias, preferring the given name and
    /// de-duplicating with a numeric suffix on collision. No two relations
    /// in the outermost SQL scope share an alias.
    pub fn declare_table(&mut self, preferred: &String) -> (r: SqlIdent)
        requires
            old(self).tables.wf(),
        ensures
            final(self).tables.wf(),
            final(self).ctes == old(self).ctes,
            r.base@ == preferred@,
            forall|i: int|
                0 <= i < old(self).tables.used@.len() ==> !crate::sql::ident_same(
                    r,
                    old(self).tables.used@[i],
                ),
    {
        self.tables.declare(preferred)
    }
}

/// A pipeline of exactly one `From` of a base table whose cids leave room
/// for fresh ones: the smallest input on which success is owed.
pub open spec fn single_table_pipeline(p: Pipeline) -> bool {
    &&& p.transforms@.len() == 1
    &&& (match p.transforms@[0] {
        Transform::From(rf) => match rf {
            RelRef::Table { cols, .. } => forall|i: int|
                0 <= i < cols@.len() ==> (#[trigger] cols@[i]).cid < u64::MAX - 1,
            _ => false,
        },
        _ => false,
    })
}

/// The widest cid mentioned by this pipeline's own transforms, so the
/// emulator can draw cids that collide with none of them.
fn expr_max_cid(e: &Expr) -> (r: u64)
    decreases *e,
{
    match e {
        Expr::Lit(_) => 0,
        Expr::Num(_) => 0,
        Expr::Col(c) => *c,
        Expr::Unary(_, a) => expr_max_cid(a),
        Expr::Binary(_, a, b) => {
            let x = expr_max_cid(a);
            let y = expr_max_cid(b);
            if x > y {
                x
            } else {
                y
            }
        },
        Expr::Call(_, args) => args_max_cid(args),
        Expr::Agg(_, a) => expr_max_cid(a),
        Expr::Case(whens, els) => {
            let x = whens_max_cid(whens);
            let y = match els {
                Some(el) => expr_max_cid(el),
                None => 0,
            };
            if x > y {
                x
            } else {
                y
            }
        },
    }
}

/// `expr_max_cid` over an argument list.
fn args_max_cid(args: &crate::rq::Args) -> (r: u64)
    decreases *args,
{
    match args {
        crate::rq::Args::Nil => 0,
        crate::rq::Args::Cons(e, rest) => {
            let x = expr_max_cid(e);
            let y = args_max_cid(rest);
            if x > y {
                x
            } else {
                y
            }
        },
    }
}

/// `expr_max_cid` over case arms.
fn whens_max_cid(whens: &crate::rq::Whens) -> (r: u64)
    decreases *whens,
{
    match whens {
        crate::rq::Whens::Nil => 0,
        crate::rq::Whens::Cons(c, v, rest) => {
            let x = expr_max_cid(c);
            let y = expr_max_cid(v);
            let z = whens_max_cid(rest);
            let xy = if x > y {
                x
            } else {
                y
            };
            if xy > z {
                xy
            } else {
                z
            }
        },
    }
}

/// The widest cid over a list of output definitions.
fn defs_max_cid(defs: &Vec<ColumnDef>) -> (r: u64) {
    let mut m: u64 = 0;
    let mut k: usize = 0;
    while k < defs.len()
        decreases defs@.len() - k,
    {
        if defs[k].cid > m {
            m = defs[k].cid;
        }
        let e = expr_max_cid(&defs[k].expr);
        if e > m {
            m = e;
        }
        k = k + 1;
    }
    m
}

/// The widest cid over a cid list.
fn cids_max(v: &Vec<u64>) -> (r: u64) {
    let mut m: u64 = 0;
    let mut k: usize = 0;
    while k < v.len()
        decreases v@.len() - k,
    {
        if v[k] > m {
            m = v[k];
        }
        k = k + 1;
    }
    m
}

/// The widest cid over sort criteria.
fn sorts_max_cid(items: &Vec<SortItem>) -> (r: u64) {
    let mut m: u64 = 0;
    let mut k: usize = 0;
    while k < items.len()
        decreases items@.len() - k,
    {
        let e = expr_max_cid(&items[k].expr);
        if e > m {
            m = e;
        }
        k = k + 1;
    }
    m
}

/// The widest cid a source declares directly; for a base table it is one
/// of the declared cids, or zero.
fn rel_max_cid(rf: &RelRef) -> (r: u64)
    ensures
        (match *rf {
            RelRef::Table { cols, .. } => r == 0 || exists|i: int|
                0 <= i < cols@.len() && (#[trigger] cols@[i]).cid == r,
            _ => true,
        }),
{
    match rf {
        RelRef::Table { cols, .. } => {
            let mut m: u64 = 0;
            let mut k: usize = 0;
            while k < cols.len()
                invariant
                    m == 0 || exists|i: int|
                        0 <= i < cols@.len() && (#[trigger] cols@[i]).cid == m,
                decreases cols@.len() - k,
            {
                if cols[k].cid > m {
                    m = cols[k].cid;
                }
                k = k + 1;
            }
            m
        },
        RelRef::Literal { cids, .. } => cids_max(cids),
        RelRef::Nested(_) => 0,
    }
}

/// The widest cid this pipeline's own transforms mention; nested pipelines
/// scan their own when they are translated.
fn pipeline_max_cid(p: &Pipeline) -> (r: u64)
    ensures
        single_table_pipeline(*p) ==> r < u64::MAX - 1,
{
    let mut m: u64 = 0;
    let mut k: usize = 0;
    while k < p.transforms.len()
        invariant
            k <= p.transforms@.len(),
            single_table_pipeline(*p) ==> (if k == 0 {
                m == 0
            } else {
                m < u64::MAX - 1
            }),
        decreases p.transforms@.len() - k,
    {
        let tm = match &p.transforms[k] {
            Transform::From(rf) => rel_max_cid(rf),
            Transform::Select(defs) => defs_max_cid(defs),
            Transform::Filter(e) => expr_max_cid(e),
            Transform::Aggregate { by, aggs } => {
                let x = defs_max_cid(by);
                let y = defs_max_cid(aggs);
                if x > y {
                    x
                } else {
                    y
                }
            },
            Transform::Sort(items) => sorts_max_cid(items),
            Transform::Take { partition, .. } => cids_max(partition),
            Transform::Join { with, on, .. } => {
                let x = rel_max_cid(with);
                let y = expr_max_cid(on);
                if x > y {
                    x
                } else {
                    y
                }
            },
            Transform::Append(_) => 0,
            Transform::Distinct { keys } => match keys {
                Some(ks) => cids_max(ks),
                None => 0,
            },
            Transform::RowNumber { cid, partition, order } => {
                let x = cids_max(partition);
                let y = sorts_max_cid(order);
                let xy = if x > y {
                    x
                } else {
                    y
                };
                if *cid > xy {
                    *cid
                } else {
                    xy
                }
            },
        };
        if tm > m {
            m = tm;
        }
        k = k + 1;
    }
    m
}

/// Whether the column names of a literal are pairwise distinct.
fn strings_distinct(v: &Vec<String>) -> (r: bool)
    ensures
        r == (forall|i: int, j: int| 0 <= i < j < v@.len() ==> v@[i]@ != v@[j]@),
{
    let mut a: usize = 0;
    while a < v.len()
        invariant
            a <= v@.len(),
            forall|i: int, j: int| 0 <= i < j < a ==> v@[i]@ != v@[j]@,
        decreases v@.len() - a,
    {
        let mut b: usize = 0;
        while b < a
            invariant
                b <= a < v@.len(),
                forall|i: int| 0 <= i < b ==> v@[i]@ != v@[a as int]@,
            decreases a - b,
        {
            if v[b] == v[a] {
                return false;
            }
            b = b + 1;
        }
        a = a + 1;
    }
    true
}

/// The name a stage's columns are qualified with: the relation's alias, or
/// its own name.
fn rel_ident(rel: &SqlRel) -> (r: SqlIdent) {
    match rel {
        SqlRel::Table { name, alias } => match alias {
            Some(a) => a.clone(),
            None => name.clone(),
        },
        SqlRel::SubQuery { alias, .. } => alias.clone(),
    }
}

/// Re-seats bindings on a new input relation, keeping cid and column alias.
fn rebind(cols: Vec<Binding>, t: &SqlIdent) -> (r: Vec<Binding>)
    ensures
        r@.len() == cols@.len(),
{
    let mut out: Vec<Binding> = Vec::new();
    let mut k: usize = 0;
    while k < cols.len()
        invariant
            k <= cols@.len(),
            out@.len() == k,
        decreases cols@.len() - k,
    {
        out.push(Binding { cid: cols[k].cid, table: t.clone(), column: cols[k].column.clone() });
        k = k + 1;
    }
    out
}

/// Appends the definitions' lowerings to a projection under construction,
/// drawing each alias from the stage's pool, so every alias is new.
fn project_defs(
    pool: &mut NamePool,
    proj: &mut Vec<SqlSelectItem>,
    nb: &mut Vec<Binding>,
    defs: &Vec<ColumnDef>,
    scope: &Scope,
    qualify: bool,
    allow_agg: bool,
    grouped: &Vec<u64>,
    tbl: &SqlIdent,
) -> (r: Result<(), TranslationError>)
    requires
        old(pool).wf(),
        old(proj)@.len() == old(pool).used@.len(),
        forall|i: int| 0 <= i < old(proj)@.len() ==> old(proj)@[i].alias == old(pool).used@[i],
        old(nb)@.len() == old(proj)@.len(),
    ensures
        final(pool).wf(),
        final(proj)@.len() == final(pool).used@.len(),
        forall|i: int| 0 <= i < final(proj)@.len() ==> final(proj)@[i].alias == final(pool).used@[i],
        final(nb)@.len() == final(proj)@.len(),
        r is Ok ==> final(proj)@.len() == old(proj)@.len() + defs@.len(),
        r is Ok ==> forall|i: int|
            0 <= i < defs@.len() ==> final(nb)@[old(nb)@.len() + i].cid == defs@[i].cid,
        forall|i: int| 0 <= i < old(nb)@.len() ==> final(nb)@[i] == old(nb)@[i],
        r matches Err(e) ==> e is UnresolvedReference || e is InvalidAggregateReference,
{
    let mut k: usize = 0;
    while k < defs.len()
        invariant
            k <= defs@.len(),
            pool.wf(),
            proj@.len() == pool.used@.len(),
            forall|i: int| 0 <= i < proj@.len() ==> proj@[i].alias == pool.used@[i],
            nb@.len() == proj@.len(),
            proj@.len() == old(proj)@.len() + k,
            old(nb)@.len() == old(proj)@.len(),
            forall|i: int| 0 <= i < k ==> nb@[old(nb)@.len() + i].cid == defs@[i].cid,
            forall|i: int| 0 <= i < old(nb)@.len() ==> nb@[i] == old(nb)@[i],
        decreases defs@.len() - k,
    {
        let x = match lower(&defs[k].expr, scope, qualify, allow_agg, grouped, false) {
            Ok(x) => x,
            Err(e) => return Err(e),
        };
        let alias = pool.declare(&defs[k].name);
        proj.push(SqlSelectItem { expr: x, alias: alias.clone() });
        nb.push(Binding { cid: defs[k].cid, table: tbl.clone(), column: alias });
        k = k + 1;
    }
    Ok(())
}

/// Appends a pass-through of the visible columns to a projection under
/// construction: each column referenced from the input and re-aliased from
/// the stage's pool.
fn project_scope(
    pool: &mut NamePool,
    proj: &mut Vec<SqlSelectItem>,
    nb: &mut Vec<Binding>,
    scope: &Scope,
    qualify: bool,
    tbl: &SqlIdent,
)
    requires
        old(pool).wf(),
        old(proj)@.len() == old(pool).used@.len(),
        forall|i: int| 0 <= i < old(proj)@.len() ==> old(proj)@[i].alias == old(pool).used@[i],
        old(nb)@.len() == old(proj)@.len(),
    ensures
        final(pool).wf(),
        final(proj)@.len() == final(pool).used@.len(),
        forall|i: int| 0 <= i < final(proj)@.len() ==> final(proj)@[i].alias == final(pool).used@[i],
        final(nb)@.len() == final(proj)@.len(),
        final(proj)@.len() == old(proj)@.len() + scope.cols@.len(),
{
    let mut k: usize = 0;
    while k < scope.cols.len()
        invariant
            k <= scope.cols@.len(),
            pool.wf(),
            proj@.len() == pool.used@.len(),
            forall|i: int| 0 <= i < proj@.len() ==> proj@[i].alias == pool.used@[i],
            nb@.len() == proj@.len(),
            proj@.len() == old(proj)@.len() + k,
        decreases scope.cols@.len() - k,
    {
        let b = &scope.cols[k];
        let x = if qualify {
            SqlExpr::Compound(b.table.clone(), b.column.clone())
        } else {
            SqlExpr::Ident(b.column.clone())
        };
        let alias = pool.declare(&b.column.base);
        proj.push(SqlSelectItem { expr: x, alias: alias.clone() });
        nb.push(Binding { cid: b.cid, table: tbl.clone(), column: alias });
        k = k + 1;
    }
}

/// A projection whose aliases all come, in order, from one pool is
/// pairwise distinct.
proof fn lemma_pool_proj_distinct(proj: Seq<SqlSelectItem>, used: Seq<SqlIdent>)
    requires
        proj.len() == used.len(),
        forall|i: int| 0 <= i < proj.len() ==> proj[i].alias == used[i],
        forall|i: int, j: int| 0 <= i < j < used.len() ==> !ident_same(used[i], used[j]),
    ensures
        aliases_distinct(proj),
{
    assert forall|i: int, j: int| 0 <= i < j < proj.len() implies !ident_same(
        proj[i].alias,
        proj[j].alias,
    ) by {
        assert(proj[i].alias == used[i]);
        assert(proj[j].alias == used[j]);
    }
}

/// Lowers a cid list as bare column references.
fn lower_keys(ks: &Vec<u64>, scope: &Scope, qualify: bool) -> (r: Result<
    Vec<SqlExpr>,
    TranslationError,
>)
    ensures
        r matches Err(e) ==> e is UnresolvedReference || e is InvalidAggregateReference,
{
    let empty: Vec<u64> = Vec::new();
    let mut out: Vec<SqlExpr> = Vec::new();
    let mut k: usize = 0;
    while k < ks.len()
        decreases ks@.len() - k,
    {
        let e = Expr::Col(ks[k]);
        match lower(&e, scope, qualify, false, &empty, false) {
            Ok(x) => out.push(x),
            Err(e) => return Err(e),
        }
        k = k + 1;
    }
    Ok(out)
}

/// Lowers sort criteria into `ORDER BY` items.
fn lower_sorts(items: &Vec<SortItem>, scope: &Scope, qualify: bool) -> (r: Result<
    Vec<SqlOrderItem>,
    TranslationError,
>)
    ensures
        r matches Err(e) ==> e is UnresolvedReference || e is InvalidAggregateReference,
{
    let empty: Vec<u64> = Vec::new();
    let mut out: Vec<SqlOrderItem> = Vec::new();
    let mut k: usize = 0;
    while k < items.len()
        decreases items@.len() - k,
    {
        match lower(&items[k].expr, scope, qualify, false, &empty, false) {
            Ok(x) => out.push(SqlOrderItem { expr: x, desc: items[k].desc }),
            Err(e) => return Err(e),
        }
        k = k + 1;
    }
    Ok(out)
}

/// Lowers a cid list into a window partition list.
fn build_expr_list(ks: &Vec<u64>, scope: &Scope, qualify: bool, k: usize) -> (r: Result<
    SqlExprList,
    TranslationError,
>)
    ensures
        r matches Err(e) ==> e is UnresolvedReference || e is InvalidAggregateReference,
    decreases ks@.len() - k,
{
    if k >= ks.len() {
        Ok(SqlExprList::Nil)
    } else {
        let empty: Vec<u64> = Vec::new();
        let e = Expr::Col(ks[k]);
        match lower(&e, scope, qualify, false, &empty, false) {
            Err(er) => Err(er),
            Ok(x) => match build_expr_list(ks, scope, qualify, k + 1) {
                Err(er) => Err(er),
                Ok(rest) => Ok(SqlExprList::Cons(Box::new(x), Box::new(rest))),
            },
        }
    }
}

/// Lowers sort criteria into a window order list.
fn build_order_list(items: &Vec<SortItem>, scope: &Scope, qualify: bool, k: usize) -> (r: Result<
    SqlOrderList,
    TranslationError,
>)
    ensures
        r matches Err(e) ==> e is UnresolvedReference || e is InvalidAggregateReference,
    decreases items@.len() - k,
{
    if k >= items.len() {
        Ok(SqlOrderList::Nil)
    } else {
        let empty: Vec<u64> = Vec::new();
        match lower(&items[k].expr, scope, qualify, false, &empty, false) {
            Err(er) => Err(er),
            Ok(x) => match build_order_list(items, scope, qualify, k + 1) {
                Err(er) => Err(er),
                Ok(rest) => Ok(SqlOrderList::Cons(Box::new(x), items[k].desc, Box::new(rest))),
            },
        }
    }
}

/// Whether a run of transforms contains a Join, which decides whether the
/// stage qualifies column references with table aliases.
fn has_join(ts: &Vec<Transform>) -> (r: bool) {
    let mut k: usize = 0;
    while k < ts.len()
        decreases ts@.len() - k,
    {
        if matches!(&ts[k], Transform::Join { .. }) {
            return true;
        }
        k = k + 1;
    }
    false
}

/// Copies bindings.
fn copy_bindings(v: &Vec<Binding>) -> (r: Vec<Binding>)
    ensures
        r@ == v@,
{
    let mut out: Vec<Binding> = Vec::new();
    let mut k: usize = 0;
    while k < v.len()
        invariant
            k <= v@.len(),
            out@ =~= v@.subrange(0, k as int),
        decreases v@.len() - k,
    {
        out.push(v[k].clone());
        proof {
            assert(out@ =~= v@.subrange(0, k + 1 as int));
        }
        k = k + 1;
    }
    proof {
        assert(out@ =~= v@);
    }
    out
}

/// `AND`s a predicate onto an optional one.
fn and_opt(prev: Option<SqlExpr>, x: SqlExpr) -> (r: SqlExpr) {
    match prev {
        Some(p) => SqlExpr::Binary(crate::rq::BinOp::LogicAnd, Box::new(p), Box::new(x)),
        None => x,
    }
}

/// The concatenation of non-empty runs ends with the last run's last
/// element.
proof fn lemma_cat_all_last(s: Seq<Seq<Transform>>)
    requires
        s.len() > 0,
        s.last().len() > 0,
    ensures
        cat_all(s).len() > 0,
        cat_all(s).last() == s.last().last(),
{
    assert(cat_all(s) == cat_all(s.drop_last()) + s.last());
}

/// Turns a source into the relation a stage reads from, with the bindings
/// it contributes. An inline literal becomes a CTE through the sample-data
/// encoder; a nested pipeline is translated recursively and becomes a CTE,
/// or an inline subquery where the dialect lacks CTEs.
fn source_rel(rf: RelRef, d: &Dialect, depth: u64, ctx: &mut Ctx) -> (r: Result<
    (SqlRel, Vec<Binding>),
    TranslationError,
>)
    requires
        ctx_wf(*old(ctx)),
    ensures
        ctx_wf(*final(ctx)),
        match r {
            Ok(p) => rel_aliases_distinct(p.0),
            Err(_) => true,
        },
        rf matches RelRef::Table { .. } ==> r is Ok,
        (r matches Err(e) && e is UnsupportedByDialect) ==> !d.supports_window_functions,
    decreases depth, 0int,
{
    match rf {
        RelRef::Table { name, cols } => {
            // The table is referenced by its own name while that name is
            // free; a second use of the same table (a self-join) gets a
            // suffixed alias, so qualified references stay unambiguous.
            let tbl = ctx.declare_table(&name);
            let alias = if tbl.n == 0 {
                None
            } else {
                Some(tbl.clone())
            };
            let mut bs: Vec<Binding> = Vec::new();
            let mut k: usize = 0;
            while k < cols.len()
                decreases cols@.len() - k,
            {
                bs.push(
                    Binding {
                        cid: cols[k].cid,
                        table: tbl.clone(),
                        column: SqlIdent { base: cols[k].name.clone(), n: 0 },
                    },
                );
                k = k + 1;
            }
            Ok((SqlRel::Table { name: SqlIdent { base: name, n: 0 }, alias }, bs))
        },
        RelRef::Literal { name, cids, lit } => {
            if lit.rows.len() == 0 || cids.len() != lit.columns.len() {
                return Err(TranslationError::UnsupportedPipelineShape);
            }
            if !strings_distinct(&lit.columns) {
                return Err(TranslationError::UnsupportedPipelineShape);
            }
            let q = crate::sample_data::sql_of_sample_data(&lit);
            let alias = ctx.declare_table(&name);
            ctx.ctes.push(SqlCte { name: alias.clone(), body: q.body });
            let mut bs: Vec<Binding> = Vec::new();
            let mut k: usize = 0;
            while k < cids.len()
                invariant
                    cids@.len() == lit.columns@.len(),
                decreases cids@.len() - k,
            {
                bs.push(
                    Binding {
                        cid: cids[k],
                        table: alias.clone(),
                        column: SqlIdent { base: lit.columns[k].clone(), n: 0 },
                    },
                );
                k = k + 1;
            }
            Ok((SqlRel::Table { name: alias, alias: None }, bs))
        },
        RelRef::Nested(bp) => {
            if depth == 0 {
                return Err(TranslationError::PipelineTooDeep);
            }
            let (body, cols) = match translate_rel(*bp, d, depth - 1, ctx) {
                Ok(p) => p,
                Err(e) => return Err(e),
            };
            let base = "t".to_owned();
            let alias = ctx.declare_table(&base);
            let bs = rebind(cols, &alias);
            if d.supports_cte {
                ctx.ctes.push(SqlCte { name: alias.clone(), body });
                Ok((SqlRel::Table { name: alias, alias: None }, bs))
            } else {
                Ok((SqlRel::SubQuery { query: Box::new(body), alias }, bs))
            }
        },
    }
}

/// Turns a finished stage body into the next stage's input: a CTE by
/// default, an inline subquery where the dialect lacks CTEs. The bindings
/// are re-seated on the new relation's alias.
fn stage_input(body: SqlSetExpr, cols: Vec<Binding>, d: &Dialect, ctx: &mut Ctx) -> (r: (
    SqlRel,
    Scope,
))
    requires
        ctx_wf(*old(ctx)),
        body_aliases_distinct(body),
    ensures
        ctx_wf(*final(ctx)),
        rel_aliases_distinct(r.0),
        r.1.cols@.len() == cols@.len(),
{
    let base = "t".to_owned();
    let alias = ctx.declare_table(&base);
    let bs = rebind(cols, &alias);
    if d.supports_cte {
        ctx.ctes.push(SqlCte { name: alias.clone(), body });
        (SqlRel::Table { name: alias, alias: None }, Scope { cols: bs })
    } else {
        (SqlRel::SubQuery { query: Box::new(body), alias }, Scope { cols: bs })
    }
}

/// Emits one stage's `SELECT` from its transforms (the leading `From`
/// already consumed by the caller), its input relation and the bindings
/// the input contributes.
///
/// The output list's aliases are all drawn from one fresh pool, so they
/// are pairwise distinct; the hand-back pairs each output column's cid
/// with its alias, one binding per output item. A stage shaped in a way
/// Anchor never produces (a second source, a second output list, a
/// stranded set operation) is refused with `UnsupportedPipelineShape`
/// rather than emitted wrongly.
#[verifier::rlimit(100)]
fn emit_select(
    stage: Vec<Transform>,
    from_rel: SqlRel,
    in_scope: Scope,
    d: &Dialect,
    depth: u64,
    ctx: &mut Ctx,
) -> (r: Result<(SqlSelect, Scope), TranslationError>)
    requires
        ctx_wf(*old(ctx)),
        rel_aliases_distinct(from_rel),
    ensures
        ctx_wf(*final(ctx)),
        match r {
            Ok(p) => {
                &&& select_aliases_distinct(p.0)
                &&& p.1.cols@.len() == p.0.projection@.len()
                &&& forall|k: int|
                    0 <= k < stage@.len() ==> (match #[trigger] stage@[k] {
                        Transform::Select(defs) => p.0.projection@.len() == defs@.len() && (forall|
                            i: int,
                        |
                            0 <= i < defs@.len() ==> p.1.cols@[i].cid == defs@[i].cid),
                        Transform::Aggregate { by, aggs } => p.0.projection@.len() == by@.len()
                            + aggs@.len() && (forall|i: int|
                            0 <= i < by@.len() ==> p.1.cols@[i].cid == by@[i].cid) && (forall|
                            i: int,
                        |
                            0 <= i < aggs@.len() ==> p.1.cols@[by@.len() + i].cid == aggs@[i].cid),
                        _ => true,
                    })
            },
            Err(_) => true,
        },
        stage@.len() == 0 ==> r is Ok,
        (r matches Err(e) && e is UnsupportedByDialect) ==> !d.supports_window_functions,
    decreases depth, 1int,
{
    let qualify = has_join(&stage);
    let tbl = rel_ident(&from_rel);
    let empty_cids: Vec<u64> = Vec::new();
    let mut cur_scope = in_scope;
    let mut pool = NamePool::new();
    let mut proj: Vec<SqlSelectItem> = Vec::new();
    let mut nb: Vec<Binding> = Vec::new();
    let mut definer = false;
    let mut agg_by: Option<Vec<ColumnDef>> = None;
    let mut agg_aggs: Option<Vec<ColumnDef>> = None;
    let mut grouped: Vec<u64> = Vec::new();
    let mut pre_agg_scope = Scope::new();
    let mut joins: Vec<SqlJoin> = Vec::new();
    let mut selection: Option<SqlExpr> = None;
    let mut having: Option<SqlExpr> = None;
    let mut group_by: Vec<SqlExpr> = Vec::new();
    let mut distinct = false;
    let mut distinct_on: Vec<SqlExpr> = Vec::new();
    let mut order_by: Vec<SqlOrderItem> = Vec::new();
    let mut limit: Option<u64> = None;
    let mut offset: Option<u64> = None;
    let ghost orig = stage@;
    let mut rest = stage;
    while rest.len() > 0
        invariant
            orig == stage@,
            ctx_wf(*ctx),
            rest@.len() <= orig.len(),
            rest@ =~= orig.subrange(orig.len() - rest@.len(), orig.len() as int),
            pool.wf(),
            proj@.len() == pool.used@.len(),
            forall|i: int| 0 <= i < proj@.len() ==> proj@[i].alias == pool.used@[i],
            nb@.len() == proj@.len(),
            !definer ==> proj@.len() == 0,
            forall|i: int| 0 <= i < joins@.len() ==> rel_aliases_distinct(#[trigger] joins@[i].rel),
            (match agg_by {
                Some(by) => agg_aggs is Some && grouped@ == grouped_cids(by@),
                None => agg_aggs is None,
            }),
            forall|k: int|
                0 <= k < orig.len() - rest@.len() ==> (match #[trigger] orig[k] {
                    Transform::Select(defs) => definer && proj@.len() == defs@.len() && (forall|
                        i: int,
                    |
                        0 <= i < defs@.len() ==> nb@[i].cid == defs@[i].cid),
                    Transform::Aggregate { by, aggs } => definer && proj@.len() == by@.len()
                        + aggs@.len() && (forall|i: int|
                        0 <= i < by@.len() ==> nb@[i].cid == by@[i].cid) && (forall|i: int|
                        0 <= i < aggs@.len() ==> nb@[by@.len() + i].cid == aggs@[i].cid),
                    _ => true,
                }),
        decreases rest@.len(),
    {
        let ghost k = orig.len() - rest@.len();
        let t = rest.remove(0);
        proof {
            assert(t == orig[k]);
            assert(rest@ =~= orig.subrange(orig.len() - rest@.len(), orig.len() as int));
        }
        match t {
            Transform::From(_) => {
                return Err(TranslationError::UnsupportedPipelineShape);
            },
            Transform::Append(_) => {
                return Err(TranslationError::UnsupportedPipelineShape);
            },
            Transform::Join { kind, with, on } => {
                if definer || matches!(agg_by, Some(_)) {
                    return Err(TranslationError::UnsupportedPipelineShape);
                }
                let (rel2, cols2) = match source_rel(with, d, depth, ctx) {
                    Ok(p) => p,
                    Err(e) => return Err(e),
                };
                let mut cols2 = cols2;
                while cols2.len() > 0
                    decreases cols2@.len(),
                {
                    cur_scope.cols.push(cols2.remove(0));
                }
                let on_sql = match lower(&on, &cur_scope, qualify, false, &empty_cids, false) {
                    Ok(x) => x,
                    Err(e) => return Err(e),
                };
                joins.push(SqlJoin { kind, rel: rel2, on: on_sql });
            },
            Transform::Filter(e) => {
                match (&agg_by, &agg_aggs) {
                    (Some(by), Some(aggs)) => {
                        let x = match lower_having(&e, by, aggs, &pre_agg_scope, qualify, &grouped) {
                            Ok(x) => x,
                            Err(er) => return Err(er),
                        };
                        having = Some(and_opt(having, x));
                    },
                    _ => {
                        if definer {
                            return Err(TranslationError::UnsupportedPipelineShape);
                        }
                        let x = match lower(&e, &cur_scope, qualify, false, &empty_cids, false) {
                            Ok(x) => x,
                            Err(er) => return Err(er),
                        };
                        selection = Some(and_opt(selection, x));
                    },
                }
            },
            Transform::Aggregate { by, aggs } => {
                if definer {
                    return Err(TranslationError::UnsupportedPipelineShape);
                }
                grouped = grouped_cids_x(&by);
                group_by = match lower_keys_exprs(&by, &cur_scope, qualify) {
                    Ok(x) => x,
                    Err(e) => return Err(e),
                };
                match project_defs(
                    &mut pool,
                    &mut proj,
                    &mut nb,
                    &by,
                    &cur_scope,
                    qualify,
                    false,
                    &empty_cids,
                    &tbl,
                ) {
                    Ok(_) => {},
                    Err(e) => return Err(e),
                }
                match project_defs(
                    &mut pool,
                    &mut proj,
                    &mut nb,
                    &aggs,
                    &cur_scope,
                    qualify,
                    true,
                    &grouped,
                    &tbl,
                ) {
                    Ok(_) => {},
                    Err(e) => return Err(e),
                }
                definer = true;
                pre_agg_scope = cur_scope;
                cur_scope = Scope { cols: copy_bindings(&nb) };
                agg_by = Some(by);
                agg_aggs = Some(aggs);
            },
            Transform::Select(defs) => {
                if definer || matches!(agg_by, Some(_)) {
                    return Err(TranslationError::UnsupportedPipelineShape);
                }
                match project_defs(
                    &mut pool,
                    &mut proj,
                    &mut nb,
                    &defs,
                    &cur_scope,
                    qualify,
                    false,
                    &empty_cids,
                    &tbl,
                ) {
                    Ok(_) => {},
                    Err(e) => return Err(e),
                }
                definer = true;
                cur_scope = Scope { cols: copy_bindings(&nb) };
            },
            Transform::Sort(items) => {
                let qeff = if definer {
                    false
                } else {
                    qualify
                };
                order_by = match lower_sorts(&items, &cur_scope, qeff) {
                    Ok(x) => x,
                    Err(e) => return Err(e),
                };
            },
            Transform::Distinct { keys } => {
                match keys {
                    None => {
                        distinct = true;
                    },
                    Some(ks) => {
                        let qeff = if definer {
                            false
                        } else {
                            qualify
                        };
                        distinct_on = match lower_keys(&ks, &cur_scope, qeff) {
                            Ok(x) => x,
                            Err(e) => return Err(e),
                        };
                    },
                }
            },
            Transform::RowNumber { cid, partition, order } => {
                if definer {
                    return Err(TranslationError::UnsupportedPipelineShape);
                }
                let parts = match build_expr_list(&partition, &cur_scope, qualify, 0) {
                    Ok(x) => x,
                    Err(e) => return Err(e),
                };
                let ord = match build_order_list(&order, &cur_scope, qualify, 0) {
                    Ok(x) => x,
                    Err(e) => return Err(e),
                };
                project_scope(&mut pool, &mut proj, &mut nb, &cur_scope, qualify, &tbl);
                let base = "rn".to_owned();
                let alias = pool.declare(&base);
                proj.push(
                    SqlSelectItem {
                        expr: SqlExpr::RowNumberOver { partition: parts, order: ord },
                        alias: alias.clone(),
                    },
                );
                nb.push(Binding { cid, table: tbl.clone(), column: alias });
                definer = true;
                cur_scope = Scope { cols: copy_bindings(&nb) };
            },
            Transform::Take { range, partition } => {
                if partition.len() > 0 {
                    return Err(TranslationError::UnsupportedPipelineShape);
                }
                let off = if range.start > 1 {
                    range.start - 1
                } else {
                    0
                };
                offset = if off > 0 {
                    Some(off)
                } else {
                    None
                };
                limit = match range.end {
                    Some(e) => {
                        let s1 = if range.start < 1 {
                            1
                        } else {
                            range.start
                        };
                        if e >= s1 {
                            Some(e - s1 + 1)
                        } else {
                            Some(0)
                        }
                    },
                    None => None,
                };
            },
        }
    }
    if !definer {
        project_scope(&mut pool, &mut proj, &mut nb, &cur_scope, qualify, &tbl);
    }
    proof {
        lemma_pool_proj_distinct(proj@, pool.used@);
    }
    let sel = SqlSelect {
        distinct,
        distinct_on,
        projection: proj,
        from: Some(from_rel),
        joins,
        selection,
        group_by,
        having,
        order_by,
        limit,
        offset,
    };
    proof {
        assert(select_aliases_distinct(sel));
    }
    Ok((sel, Scope { cols: nb }))
}

/// Lowers the group-key definitions' expressions into `GROUP BY` items.
fn lower_keys_exprs(defs: &Vec<ColumnDef>, scope: &Scope, qualify: bool) -> (r: Result<
    Vec<SqlExpr>,
    TranslationError,
>)
    ensures
        r matches Err(e) ==> e is UnresolvedReference || e is InvalidAggregateReference,
{
    let empty: Vec<u64> = Vec::new();
    let mut out: Vec<SqlExpr> = Vec::new();
    let mut k: usize = 0;
    while k < defs.len()
        decreases defs@.len() - k,
    {
        match lower(&defs[k].expr, scope, qualify, false, &empty, false) {
            Ok(x) => out.push(x),
            Err(e) => return Err(e),
        }
        k = k + 1;
    }
    Ok(out)
}

/// Translates one pipeline into a query body and its output bindings:
/// emulation for the dialect, anchoring into stages, then one `SELECT` per
/// stage, chained through CTEs or subqueries; an Append stage unions the
/// body built so far with its sub-pipeline's.
///
/// Every `SELECT` of the body has a pairwise-distinct output list, and a
/// pipeline ending in Select or Aggregate ends in a `SELECT` with exactly
/// that transform's number of output columns — one binding each, carrying
/// that column's cid. A single-`From` pipeline of a base table always
/// succeeds (given depth to spare); an empty pipeline never does; and
/// `UnsupportedByDialect` is reported only when the dialect truly lacks
/// window functions.
#[verifier::rlimit(100)]
pub fn translate_rel(p: Pipeline, d: &Dialect, depth: u64, ctx: &mut Ctx) -> (r: Result<
    (SqlSetExpr, Vec<Binding>),
    TranslationError,
>)
    requires
        ctx_wf(*old(ctx)),
    ensures
        ctx_wf(*final(ctx)),
        match r {
            Ok(q) => {
                &&& body_aliases_distinct(q.0)
                &&& (p.transforms@.len() > 0 ==> (match p.transforms@.last() {
                    Transform::Select(defs) => q.0 matches SqlSetExpr::Select(s)
                        && s.projection@.len() == defs@.len() && q.1@.len() == defs@.len()
                        && (forall|i: int|
                        0 <= i < defs@.len() ==> q.1@[i].cid == defs@[i].cid),
                    Transform::Aggregate { by, aggs } => q.0 matches SqlSetExpr::Select(s)
                        && s.projection@.len() == by@.len() + aggs@.len() && q.1@.len() == by@.len()
                        + aggs@.len() && (forall|i: int|
                        0 <= i < by@.len() ==> q.1@[i].cid == by@[i].cid) && (forall|i: int|
                        0 <= i < aggs@.len() ==> q.1@[by@.len() + i].cid == aggs@[i].cid),
                    _ => true,
                }))
            },
            Err(_) => true,
        },
        p.transforms@.len() == 0 ==> r is Err,
        single_table_pipeline(p) && depth >= 1 ==> r is Ok,
        (r matches Err(e) && e is UnsupportedByDialect) ==> !d.supports_window_functions,
    decreases depth, 2int,
{
    if depth == 0 {
        return Err(TranslationError::PipelineTooDeep);
    }
    let ghost pts = p.transforms@;
    proof {
        if single_table_pipeline(p) {
            assert(pts[0] is From);
            assert forall|i: int|
                0 <= i < pts.len() implies !((#[trigger] pts[i]) matches Transform::Distinct {
                keys: Some(_),
            } || pts[i] is Take) by {
                assert(i == 0);
            }
            assert(crate::emulate::rewrite_free(pts));
        }
    }
    let m = pipeline_max_cid(&p);
    if m == u64::MAX || p.transforms.len() as u64 > u64::MAX - 1 - m {
        // The cid space is exhausted: the emulator could not draw a fresh
        // column identity per transform without re-using one.
        proof {
            if single_table_pipeline(p) {
                assert(p.transforms@.len() == 1);
                assert(false);
            }
        }
        return Err(TranslationError::UnsupportedPipelineShape);
    }
    let first_cid = m + 1;
    let ts = match emulate(p.transforms, d, first_cid) {
        Ok(ts) => ts,
        Err(e) => return Err(e),
    };
    let ghost tsv = ts@;
    let stages = match anchor(ts) {
        Ok(s) => s,
        Err(e) => {
            proof {
                if single_table_pipeline(p) {
                    assert(tsv == pts);
                    assert(crate::anchor::anchor_ok(tsv));
                    assert(false);
                }
            }
            return Err(e);
        },
    };
    let ghost all = stages@;
    let ghost stv = stages_views(stages@);
    proof {
        if pts.len() > 0 && (pts.last() is Select || pts.last() is Aggregate) {
            assert(tsv.len() > 0 && tsv.last() == pts.last());
            assert(stv.last() == all.last().transforms@);
            assert(stv.len() == all.len());
            assert(all[all.len() - 1].transforms@.len() >= 1);
            lemma_cat_all_last(stv);
            assert(all.last().transforms@.last() == pts.last());
        }
        if single_table_pipeline(p) {
            assert(tsv == pts);
            assert(crate::anchor::no_split_needed(tsv)) by {
                assert(tsv.len() == 1);
            }
            assert(all.len() == 1);
            assert(cat_all(stv) == cat_all(stv.drop_last()) + stv.last());
            assert(stv.drop_last() =~= Seq::<Seq<Transform>>::empty());
            assert(cat_all(Seq::<Seq<Transform>>::empty()) =~= Seq::<Transform>::empty());
            assert(stv[0] == stv.last());
            assert(Seq::<Transform>::empty() + stv.last() =~= stv.last());
            assert(all[0].transforms@ == tsv);
        }
    }
    let mut rest_stages = stages;
    let stage0 = rest_stages.remove(0);
    let mut sts0 = stage0.transforms;
    let ghost s0v = all[0].transforms@;
    if sts0.len() == 0 {
        return Err(TranslationError::UnsupportedPipelineShape);
    }
    let first = sts0.remove(0);
    proof {
        assert(sts0@ =~= s0v.drop_first());
    }
    let rf = match first {
        Transform::From(rf) => rf,
        _ => {
            return Err(TranslationError::UnsupportedPipelineShape);
        },
    };
    let (rel0, cols0) = match source_rel(rf, d, depth, ctx) {
        Ok(p) => p,
        Err(e) => return Err(e),
    };
    let (sel0, out0) = match emit_select(sts0, rel0, Scope { cols: cols0 }, d, depth, ctx) {
        Ok(p) => p,
        Err(e) => return Err(e),
    };
    let mut body = SqlSetExpr::Select(Box::new(sel0));
    let mut cols = out0.cols;
    proof {
        assert(body_aliases_distinct(body));
        if s0v.len() >= 2 {
            assert(s0v.last() == sts0@.last());
        }
    }
    while rest_stages.len() > 0
        invariant
            single_table_pipeline(p) ==> all.len() == 1,
            depth >= 1,
            ctx_wf(*ctx),
            all.len() >= 1,
            rest_stages@.len() < all.len(),
            rest_stages@ =~= all.subrange(all.len() - rest_stages@.len(), all.len() as int),
            body_aliases_distinct(body),
            (match all[all.len() - rest_stages@.len() - 1].transforms@.last() {
                Transform::Select(defs) => body matches SqlSetExpr::Select(s)
                    && s.projection@.len() == defs@.len() && cols@.len() == defs@.len()
                    && (forall|i: int| 0 <= i < defs@.len() ==> cols@[i].cid == defs@[i].cid),
                Transform::Aggregate { by, aggs } => body matches SqlSetExpr::Select(s)
                    && s.projection@.len() == by@.len() + aggs@.len() && cols@.len() == by@.len()
                    + aggs@.len() && (forall|i: int|
                    0 <= i < by@.len() ==> cols@[i].cid == by@[i].cid) && (forall|i: int|
                    0 <= i < aggs@.len() ==> cols@[by@.len() + i].cid == aggs@[i].cid),
                _ => true,
            }),
        decreases rest_stages@.len(),
    {
        let ghost si = all.len() - rest_stages@.len();
        let stage = rest_stages.remove(0);
        proof {
            assert(stage == all[si]);
            assert(rest_stages@ =~= all.subrange(
                all.len() - rest_stages@.len(),
                all.len() as int,
            ));
        }
        let mut sts = stage.transforms;
        if sts.len() == 0 {
            return Err(TranslationError::UnsupportedPipelineShape);
        }
        if matches!(&sts[0], Transform::Append(_)) {
            if sts.len() != 1 {
                return Err(TranslationError::UnsupportedPipelineShape);
            }
            let t0 = sts.remove(0);
            match t0 {
                Transform::Append(sub) => {
                    let (b2, _) = match translate_rel(*sub, d, depth - 1, ctx) {
                        Ok(p) => p,
                        Err(e) => return Err(e),
                    };
                    body = SqlSetExpr::UnionAll(Box::new(body), Box::new(b2));
                },
                _ => {
                    return Err(TranslationError::UnsupportedPipelineShape);
                },
            }
        } else {
            let prev = body;
            let prev_cols = cols;
            let (rel, scope) = stage_input(prev, prev_cols, d, ctx);
            let (sel, out) = match emit_select(sts, rel, scope, d, depth, ctx) {
                Ok(p) => p,
                Err(e) => return Err(e),
            };
            body = SqlSetExpr::Select(Box::new(sel));
            cols = out.cols;
        }
    }
    proof {
        assert(all.len() - rest_stages@.len() - 1 == all.len() - 1);
        if pts.len() > 0 && (pts.last() is Select || pts.last() is Aggregate) {
            assert(all[all.len() - 1].transforms@.last() == pts.last());
        }
    }
    Ok((body, cols))
}

/// Translates a whole pipeline into one complete SQL query — the
/// accumulated CTEs under a `WITH` list and the final body — paired with
/// the output bindings: one per output column of the final `SELECT`, in
/// order, each carrying that column's opaque identity (cid) and its
/// emitted alias.
///
/// Every `SELECT` anywhere in the result has a pairwise-distinct output
/// list; a pipeline ending in Select or Aggregate yields a body with
/// exactly that transform's output columns, in count and in identity; a
/// single-`From` pipeline of a base table always succeeds; and a dialect
/// with window functions is never reported as lacking a feature.
pub fn translate_with_columns(p: Pipeline, d: &Dialect) -> (r: Result<
    (SqlQuery, Vec<Binding>),
    TranslationError,
>)
    ensures
        match r {
            Ok(q) => {
                &&& crate::sql::query_aliases_distinct(q.0)
                &&& (p.transforms@.len() > 0 ==> (match p.transforms@.last() {
                    Transform::Select(defs) => q.0.body matches SqlSetExpr::Select(s)
                        && s.projection@.len() == defs@.len() && q.1@.len() == defs@.len()
                        && (forall|i: int|
                        0 <= i < defs@.len() ==> q.1@[i].cid == defs@[i].cid),
                    Transform::Aggregate { by, aggs } => q.0.body matches SqlSetExpr::Select(s)
                        && s.projection@.len() == by@.len() + aggs@.len() && q.1@.len()
                        == by@.len() + aggs@.len() && (forall|i: int|
                        0 <= i < by@.len() ==> q.1@[i].cid == by@[i].cid) && (forall|i: int|
                        0 <= i < aggs@.len() ==> q.1@[by@.len() + i].cid == aggs@[i].cid),
                    _ => true,
                }))
            },
            Err(_) => true,
        },
        p.transforms@.len() == 0 ==> r is Err,
        single_table_pipeline(p) ==> r is Ok,
        (r matches Err(e) && e is UnsupportedByDialect) ==> !d.supports_window_functions,
{
    let mut ctx = Ctx { tables: NamePool::new(), ctes: Vec::new() };
    proof {
        assert(MAX_PIPELINE_DEPTH >= 1);
    }
    match translate_rel(p, d, MAX_PIPELINE_DEPTH, &mut ctx) {
        Ok(pair) => {
            let q = SqlQuery { ctes: ctx.ctes, body: pair.0 };
            proof {
                assert(crate::sql::query_aliases_distinct(q));
            }
            Ok((q, pair.1))
        },
        Err(e) => Err(e),
    }
}

/// Translates a whole pipeline, with a dialect capability set, into one
/// complete SQL query: `translate_with_columns` without the binding list.
///
/// Every `SELECT` anywhere in the result has a pairwise-distinct output
/// list; a pipeline ending in Select or Aggregate yields a body with
/// exactly that transform's number of output columns; a single-`From`
/// pipeline of a base table always succeeds; and a dialect with window
/// functions is never reported as lacking a feature.
pub fn translate(p: Pipeline, d: &Dialect) -> (r: Result<SqlQuery, TranslationError>)
    ensures
        match r {
            Ok(q) => {
                &&& crate::sql::query_aliases_distinct(q)
                &&& (p.transforms@.len() > 0 ==> (match p.transforms@.last() {
                    Transform::Select(defs) => q.body matches SqlSetExpr::Select(s)
                        && s.projection@.len() == defs@.len(),
                    Transform::Aggregate { by, aggs } => q.body matches SqlSetExpr::Select(s)
                        && s.projection@.len() == by@.len() + aggs@.len(),
                    _ => true,
                }))
            },
            Err(_) => true,
        },
        p.transforms@.len() == 0 ==> r is Err,
        single_table_pipeline(p) ==> r is Ok,
        (r matches Err(e) && e is UnsupportedByDialect) ==> !d.supports_window_functions,
{
    match translate_with_columns(p, d) {
        Ok(pair) => Ok(pair.0),
        Err(e) => Err(e),
    }
}

} // verus!
