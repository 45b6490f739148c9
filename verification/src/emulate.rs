//! The distinct/take emulator: lowering of "unique rows" and "bounded row
//! range" onto dialect capabilities.
//!
//! Distinct over the whole row stays a native `DISTINCT`. Distinct over a
//! key subset on a dialect lacking a native key-distinct, and any Take a
//! positional `LIMIT`/`OFFSET` cannot express, are rewritten into the
//! windowed pattern: a `ROW_NUMBER()` column partitioned by the keys,
//! followed by a filter on the row number. The filter's clause rank lies
//! before the window column's, so Anchor necessarily opens a new stage for
//! the filtering half: a row's own window value cannot be filtered in the
//! clause level that computes it.
//!
//! The window's order is the pipeline's most recent sort criteria; when
//! none are present, the partition keys themselves serve as the
//! implementation-defined stable tiebreak, so which row survives a
//! deduplication is fixed. `QUALIFY` is deliberately not exploited: the
//! two-stage pattern is the one form that works on every dialect with
//! window functions.

use vstd::prelude::*;
use crate::dialect::Dialect;
use crate::error::{Feature, TranslationError};
use crate::rq::{BinOp, Expr, SortItem, TakeRange, Transform};

verus! {

/// The window order used for an emulated transform: the current sort
/// criteria when there are any, else the partition keys, ascending.
pub open spec fn rownum_order_spec(cur_sort: Seq<SortItem>, partition: Seq<u64>) -> Seq<
    SortItem,
> {
    if cur_sort.len() > 0 {
        cur_sort
    } else {
        partition.map_values(|c: u64| SortItem { expr: Expr::Col(c), desc: false })
    }
}

/// The filter an emulated Distinct applies: row number equals one.
pub open spec fn rownum_eq_one_spec(cid: u64) -> Expr {
    Expr::Binary(BinOp::CmpEq, Box::new(Expr::Col(cid)), Box::new(Expr::Num(1)))
}

/// The filter an emulated Take applies: the row number lies in the range.
pub open spec fn take_pred_spec(cid: u64, range: TakeRange) -> Expr {
    match range.end {
        Some(e) => if range.start <= 1 {
            Expr::Binary(BinOp::CmpLe, Box::new(Expr::Col(cid)), Box::new(Expr::Num(e)))
        } else {
            Expr::Binary(
                BinOp::LogicAnd,
                Box::new(
                    Expr::Binary(
                        BinOp::CmpGe,
                        Box::new(Expr::Col(cid)),
                        Box::new(Expr::Num(range.start)),
                    ),
                ),
                Box::new(
                    Expr::Binary(BinOp::CmpLe, Box::new(Expr::Col(cid)), Box::new(Expr::Num(e))),
                ),
            )
        },
        None => Expr::Binary(BinOp::CmpGe, Box::new(Expr::Col(cid)), Box::new(Expr::Num(range.start))),
    }
}

/// Clones sort criteria.
fn clone_sort(v: &Vec<SortItem>) -> (r: Vec<SortItem>)
    ensures
        r@ == v@,
{
    let mut r: Vec<SortItem> = Vec::new();
    let mut k: usize = 0;
    while k < v.len()
        invariant
            k <= v@.len(),
            r@ =~= v@.subrange(0, k as int),
        decreases v@.len() - k,
    {
        r.push(v[k].clone());
        proof {
            assert(r@ =~= v@.subrange(0, k + 1 as int));
        }
        k = k + 1;
    }
    proof {
        assert(r@ =~= v@);
    }
    r
}

/// The partition keys as ascending sort criteria.
fn keys_order(ks: &Vec<u64>) -> (r: Vec<SortItem>)
    ensures
        r@ == ks@.map_values(|c: u64| SortItem { expr: Expr::Col(c), desc: false }),
{
    let mut r: Vec<SortItem> = Vec::new();
    let mut k: usize = 0;
    while k < ks.len()
        invariant
            k <= ks@.len(),
            r@ =~= ks@.subrange(0, k as int).map_values(
                |c: u64| SortItem { expr: Expr::Col(c), desc: false },
            ),
        decreases ks@.len() - k,
    {
        r.push(SortItem { expr: Expr::Col(ks[k]), desc: false });
        proof {
            assert(r@ =~= ks@.subrange(0, k + 1 as int).map_values(
                |c: u64| SortItem { expr: Expr::Col(c), desc: false },
            ));
        }
        k = k + 1;
    }
    proof {
        assert(ks@.subrange(0, ks@.len() as int) =~= ks@);
    }
    r
}

/// The executable form of `take_pred_spec`.
fn take_pred(cid: u64, range: &TakeRange) -> (r: Expr)
    ensures
        r == take_pred_spec(cid, *range),
{
    match range.end {
        Some(e) => if range.start <= 1 {
            Expr::Binary(BinOp::CmpLe, Box::new(Expr::Col(cid)), Box::new(Expr::Num(e)))
        } else {
            Expr::Binary(
                BinOp::LogicAnd,
                Box::new(
                    Expr::Binary(
                        BinOp::CmpGe,
                        Box::new(Expr::Col(cid)),
                        Box::new(Expr::Num(range.start)),
                    ),
                ),
                Box::new(
                    Expr::Binary(BinOp::CmpLe, Box::new(Expr::Col(cid)), Box::new(Expr::Num(e))),
                ),
            )
        },
        None => Expr::Binary(
            BinOp::CmpGe,
            Box::new(Expr::Col(cid)),
            Box::new(Expr::Num(range.start)),
        ),
    }
}

/// Rewrites one transform for the dialect: the transform itself when the
/// dialect expresses it natively, the windowed row-number pattern when an
/// emulation is needed, and `UnsupportedByDialect` when none exists.
///
/// A Distinct over a key subset on a dialect without a native key-distinct
/// becomes a `ROW_NUMBER()` column partitioned by the keys, followed by a
/// filter on row number one — never a bare `DISTINCT` over the whole row.
pub fn emulate_one(t: Transform, d: &Dialect, cur_sort: &Vec<SortItem>, cid: u64) -> (r: Result<
    (Transform, Option<Transform>),
    TranslationError,
>)
    ensures
        (match t {
            Transform::Distinct { keys: Some(ks) } => if d.supports_distinct_on {
                r == Ok::<_, TranslationError>((t, None::<Transform>))
            } else if d.supports_window_functions {
                r matches Ok((a, Some(b))) && a matches Transform::RowNumber {
                    cid: c2,
                    partition: p2,
                    order: o2,
                } && c2 == cid && p2 == ks && o2@ == rownum_order_spec(cur_sort@, ks@) && b
                    == Transform::Filter(rownum_eq_one_spec(cid))
            } else {
                r == Err::<(Transform, Option<Transform>), _>(
                    TranslationError::UnsupportedByDialect { feature: Feature::WindowFunctions },
                )
            },
            Transform::Take { range, partition } => if partition@.len() == 0
                && d.supports_limit_offset {
                r == Ok::<_, TranslationError>((t, None::<Transform>))
            } else if d.supports_window_functions {
                r matches Ok((a, Some(b))) && a matches Transform::RowNumber {
                    cid: c2,
                    partition: p2,
                    order: o2,
                } && c2 == cid && p2 == partition && o2@ == rownum_order_spec(
                    cur_sort@,
                    partition@,
                ) && b == Transform::Filter(take_pred_spec(cid, range))
            } else {
                r == Err::<(Transform, Option<Transform>), _>(
                    TranslationError::UnsupportedByDialect {
                        feature: if partition@.len() == 0 {
                            Feature::LimitOffset
                        } else {
                            Feature::WindowFunctions
                        },
                    },
                )
            },
            _ => r == Ok::<_, TranslationError>((t, None::<Transform>)),
        }),
        r matches Ok((a, b)) ==> ((a is From) <==> (t is From)) && (b matches Some(bb)
            ==> bb is Filter),
        r matches Err(e) ==> e is UnsupportedByDialect,
        d.supports_window_functions ==> r is Ok,
{
    match t {
        Transform::Distinct { keys: Some(ks) } => {
            if d.supports_distinct_on {
                Ok((Transform::Distinct { keys: Some(ks) }, None))
            } else if d.supports_window_functions {
                let order = if cur_sort.len() > 0 {
                    clone_sort(cur_sort)
                } else {
                    keys_order(&ks)
                };
                let rn = Transform::RowNumber { cid, partition: ks, order };
                let flt = Transform::Filter(
                    Expr::Binary(BinOp::CmpEq, Box::new(Expr::Col(cid)), Box::new(Expr::Num(1))),
                );
                Ok((rn, Some(flt)))
            } else {
                Err(TranslationError::UnsupportedByDialect { feature: Feature::WindowFunctions })
            }
        },
        Transform::Take { range, partition } => {
            if partition.len() == 0 && d.supports_limit_offset {
                Ok((Transform::Take { range, partition }, None))
            } else if d.supports_window_functions {
                let order = if cur_sort.len() > 0 {
                    clone_sort(cur_sort)
                } else {
                    keys_order(&partition)
                };
                let flt = Transform::Filter(take_pred(cid, &range));
                let rn = Transform::RowNumber { cid, partition, order };
                Ok((rn, Some(flt)))
            } else {
                Err(
                    TranslationError::UnsupportedByDialect {
                        feature: if partition.len() == 0 {
                            Feature::LimitOffset
                        } else {
                            Feature::WindowFunctions
                        },
                    },
                )
            }
        },
        other => Ok((other, None)),
    }
}

/// The sort criteria in effect after a transform: a Sort installs its
/// items, an Aggregate discards row order, everything else keeps them.
pub open spec fn sort_after(t: Transform, cur: Seq<SortItem>) -> Seq<SortItem> {
    match t {
        Transform::Sort(items) => items@,
        Transform::Aggregate { .. } => Seq::empty(),
        _ => cur,
    }
}

/// The cid supply after one draw; it never moves past the last cid.
pub open spec fn next_cid_spec(c: u64) -> u64 {
    if c < u64::MAX {
        (c + 1) as u64
    } else {
        c
    }
}

/// `out` is exactly the rewrite of `ts`: each input transform maps, in
/// order, to what `emulate_one` yields for it — itself when the dialect
/// expresses it natively, the row-number-and-filter pair when an emulation
/// is needed — under the threaded sort criteria and cid supply.
pub open spec fn emulated_rel(
    ts: Seq<Transform>,
    out: Seq<Transform>,
    d: Dialect,
    cur_sort: Seq<SortItem>,
    cid: u64,
) -> bool
    decreases ts.len(),
{
    if ts.len() == 0 {
        out.len() == 0
    } else {
        let t = ts[0];
        let sort2 = sort_after(t, cur_sort);
        match t {
            Transform::Distinct { keys: Some(ks) } => if d.supports_distinct_on {
                out.len() >= 1 && out[0] == t && emulated_rel(
                    ts.drop_first(),
                    out.drop_first(),
                    d,
                    sort2,
                    next_cid_spec(cid),
                )
            } else {
                &&& d.supports_window_functions
                &&& out.len() >= 2
                &&& (out[0] matches Transform::RowNumber { cid: c2, partition: p2, order: o2 }
                    && c2 == cid && p2 == ks && o2@ == rownum_order_spec(sort2, ks@))
                &&& out[1] == Transform::Filter(rownum_eq_one_spec(cid))
                &&& emulated_rel(ts.drop_first(), out.skip(2), d, sort2, next_cid_spec(cid))
            },
            Transform::Take { range, partition } => if partition@.len() == 0
                && d.supports_limit_offset {
                out.len() >= 1 && out[0] == t && emulated_rel(
                    ts.drop_first(),
                    out.drop_first(),
                    d,
                    sort2,
                    next_cid_spec(cid),
                )
            } else {
                &&& d.supports_window_functions
                &&& out.len() >= 2
                &&& (out[0] matches Transform::RowNumber { cid: c2, partition: p2, order: o2 }
                    && c2 == cid && p2 == partition && o2@ == rownum_order_spec(
                    sort2,
                    partition@,
                ))
                &&& out[1] == Transform::Filter(take_pred_spec(cid, range))
                &&& emulated_rel(ts.drop_first(), out.skip(2), d, sort2, next_cid_spec(cid))
            },
            _ => out.len() >= 1 && out[0] == t && emulated_rel(
                ts.drop_first(),
                out.drop_first(),
                d,
                sort2,
                next_cid_spec(cid),
            ),
        }
    }
}

/// Whether a body contains nothing the emulator may rewrite: no Distinct
/// over a key subset and no Take.
pub open spec fn rewrite_free(ts: Seq<Transform>) -> bool {
    forall|i: int|
        0 <= i < ts.len() ==> !((#[trigger] ts[i]) matches Transform::Distinct {
            keys: Some(_),
        } || ts[i] is Take)
}

/// Rewrites a whole pipeline body for the dialect, threading the most
/// recent sort criteria and drawing cids from `first_cid` up, one per
/// input transform.
///
/// On success the output is exactly the per-transform rewrite
/// (`emulated_rel`); a body with nothing to rewrite comes back unchanged.
/// The rewrite never invents or loses a source: a well-shaped body stays
/// well shaped, so Anchor can re-run on the rewritten sequence. A body
/// ending in Select or Aggregate keeps that transform, unchanged, at its
/// end. On a dialect with window functions the rewrite always succeeds;
/// when it fails, the error names the missing feature.
pub fn emulate(ts: Vec<Transform>, d: &Dialect, first_cid: u64) -> (r: Result<
    Vec<Transform>,
    TranslationError,
>)
    ensures
        match r {
            Ok(out) => {
                &&& emulated_rel(ts@, out@, *d, Seq::empty(), first_cid)
                &&& crate::anchor::anchor_ok(ts@) ==> crate::anchor::anchor_ok(out@)
                &&& (ts@.len() > 0 && (ts@.last() is Select || ts@.last() is Aggregate))
                    ==> (out@.len() > 0 && out@.last() == ts@.last())
                &&& ts@.len() == 0 ==> out@.len() == 0
                &&& rewrite_free(ts@) ==> out@ == ts@
            },
            Err(e) => {
                &&& e is UnsupportedByDialect
                &&& !d.supports_window_functions
            },
        },
        rewrite_free(ts@) ==> r is Ok,
{
    let ghost orig = ts@;
    let mut rest = ts;
    let mut out: Vec<Transform> = Vec::new();
    let mut cur_sort: Vec<SortItem> = Vec::new();
    let mut next_cid = first_cid;
    proof {
        assert forall|fut: Seq<Transform>|
            #[trigger] emulated_rel(rest@, fut, *d, cur_sort@, next_cid) implies emulated_rel(
            orig,
            out@ + fut,
            *d,
            Seq::empty(),
            first_cid,
        ) by {
            assert(out@ + fut =~= fut);
        }
        assert(out@ =~= orig.subrange(0, 0));
    }
    while rest.len() > 0
        invariant
            orig == ts@,
            orig.len() >= rest@.len(),
            rest@ =~= orig.subrange(orig.len() - rest@.len(), orig.len() as int),
            orig.len() - rest@.len() == 0 ==> out@.len() == 0,
            crate::anchor::anchor_ok(orig) && orig.len() - rest@.len() >= 1 ==> (out@.len() >= 1
                && out@[0] == orig[0]),
            crate::anchor::anchor_ok(orig) ==> forall|j: int|
                1 <= j < out@.len() ==> !(out@[j] is From),
            orig.len() - rest@.len() >= 1 && (orig[orig.len() - rest@.len() - 1] is Select
                || orig[orig.len() - rest@.len() - 1] is Aggregate) ==> (out@.len() >= 1
                && out@.last() == orig[orig.len() - rest@.len() - 1]),
            forall|fut: Seq<Transform>|
                #[trigger] emulated_rel(rest@, fut, *d, cur_sort@, next_cid) ==> emulated_rel(
                    orig,
                    out@ + fut,
                    *d,
                    Seq::empty(),
                    first_cid,
                ),
            rewrite_free(orig) ==> out@ =~= orig.subrange(0, orig.len() - rest@.len()),
        decreases rest@.len(),
    {
        let ghost k = orig.len() - rest@.len();
        let ghost old_sort = cur_sort@;
        let ghost old_cid = next_cid;
        let ghost old_out = out@;
        let ghost old_rest = rest@;
        let t = rest.remove(0);
        proof {
            assert(t == orig[k]);
            assert(rest@ =~= orig.subrange(orig.len() - rest@.len(), orig.len() as int));
            assert(old_rest.drop_first() =~= rest@);
        }
        match &t {
            Transform::Sort(items) => {
                cur_sort = clone_sort(items);
            },
            Transform::Aggregate { .. } => {
                // Grouping discards row order: the tiebreak falls back to
                // the partition keys until a later Sort.
                cur_sort = Vec::new();
            },
            _ => {},
        }
        let ghost gt = t;
        proof {
            assert(cur_sort@ == sort_after(gt, old_sort));
        }
        let one = emulate_one(t, d, &cur_sort, next_cid);
        if next_cid < u64::MAX {
            next_cid = next_cid + 1;
        }
        proof {
            assert(next_cid == next_cid_spec(old_cid));
            if rewrite_free(orig) {
                assert(!(gt matches Transform::Distinct { keys: Some(_) } || gt is Take));
            }
        }
        match one {
            Err(e) => {
                proof {
                    if rewrite_free(orig) {
                        assert(!((#[trigger] orig[k]) matches Transform::Distinct {
                            keys: Some(_),
                        } || orig[k] is Take));
                        assert(!(gt matches Transform::Distinct { keys: Some(_) }));
                        assert(!(gt is Take));
                        assert(false);
                    }
                }
                return Err(e);
            },
            Ok((a, b)) => {
                let ghost ga = a;
                let ghost gb = b;
                out.push(a);
                match b {
                    Some(bb) => {
                        let ghost gbb = bb;
                        out.push(bb);
                        proof {
                            assert(out@.skip(old_out.len() as int) =~= seq![ga, gbb]);
                        }
                    },
                    None => {
                        proof {
                            assert(out@.skip(old_out.len() as int) =~= seq![ga]);
                        }
                    },
                }
                proof {
                    let pieces = out@.skip(old_out.len() as int);
                    assert(out@ =~= old_out + pieces);
                    assert forall|fut: Seq<Transform>|
                        #[trigger] emulated_rel(rest@, fut, *d, cur_sort@, next_cid) implies
                        emulated_rel(orig, out@ + fut, *d, Seq::empty(), first_cid) by {
                        let big = pieces + fut;
                        assert(old_rest[0] == gt);
                        match gt {
                            Transform::Distinct { keys: Some(_) } => {
                                if d.supports_distinct_on {
                                    assert(pieces =~= seq![gt]);
                                    assert(big.drop_first() =~= fut);
                                } else {
                                    assert(gb matches Some(f) && pieces =~= seq![ga, f]);
                                    assert(big.skip(2) =~= fut);
                                }
                            },
                            Transform::Take { range: _, partition } => {
                                if partition@.len() == 0 && d.supports_limit_offset {
                                    assert(pieces =~= seq![gt]);
                                    assert(big.drop_first() =~= fut);
                                } else {
                                    assert(gb matches Some(f) && pieces =~= seq![ga, f]);
                                    assert(big.skip(2) =~= fut);
                                }
                            },
                            _ => {
                                assert(pieces =~= seq![gt]);
                                assert(big.drop_first() =~= fut);
                            },
                        }
                        assert(emulated_rel(old_rest, big, *d, old_sort, old_cid));
                        assert(old_out + big =~= out@ + fut);
                    }
                    if rewrite_free(orig) {
                        assert(pieces =~= seq![gt]);
                        assert(orig.subrange(0, k).push(orig[k]) =~= orig.subrange(0, k + 1));
                        assert(out@ =~= orig.subrange(0, k + 1));
                    }
                }
            },
        }
    }
    proof {
        assert(orig.len() - rest@.len() == orig.len());
        if orig.len() > 0 && (orig.last() is Select || orig.last() is Aggregate) {
            assert(orig[orig.len() - 1] is Select || orig[orig.len() - 1] is Aggregate);
        }
        assert(emulated_rel(rest@, Seq::empty(), *d, cur_sort@, next_cid));
        assert(out@ + Seq::<Transform>::empty() =~= out@);
        assert(emulated_rel(orig, out@, *d, Seq::empty(), first_cid));
        if rewrite_free(orig) {
            assert(out@ =~= orig.subrange(0, orig.len() as int));
            assert(out@ =~= orig);
        }
    }
    Ok(out)
}

} // verus!
