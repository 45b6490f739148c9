//! Anchor: the stage-splitting engine.
//!
//! A pipeline is partitioned left to right into *stages*, maximal runs of
//! transforms jointly expressible as one `SELECT`. A new stage is forced
//! exactly when a transform cannot join the current one: its required clause
//! would precede a clause already placed, it needs a second copy of a clause
//! the stage already uses (a second output list, a second `DISTINCT`), or
//! the stage was closed by a row-count restriction or a set operation. The
//! boundary is always placed at the latest valid position, so the number of
//! stages is minimal.

use vstd::prelude::*;
use crate::error::TranslationError;
use crate::rq::Transform;

verus! {

/// A maximal contiguous run of transforms assigned to one SQL `SELECT`.
pub struct Stage {
    pub transforms: Vec<Transform>,
}

/// What the current stage has accumulated so far.
#[derive(Clone, Copy, PartialEq, Eq, Structural, Debug)]
pub struct StageState {
    /// The highest clause rank already placed.
    pub max_rank: u64,
    /// An Aggregate was placed: a later Filter lowers to `HAVING`.
    pub has_agg: bool,
    /// The output list is already defined (Select, Aggregate or RowNumber).
    pub sel_list: bool,
    /// A Distinct was placed.
    pub has_distinct: bool,
    /// A Take or Append was placed: nothing more may join the stage.
    pub closed: bool,
}

/// The fixed clause order of one `SELECT`: FROM/JOIN (0), WHERE (1),
/// GROUP BY (2), HAVING (3), the SELECT list (4), DISTINCT (5),
/// ORDER BY (6), LIMIT/OFFSET (7). A Filter ranks as WHERE before an
/// Aggregate has been placed in the stage and as HAVING after.
pub open spec fn spec_rank(t: Transform, has_agg: bool) -> u64 {
    match t {
        Transform::From(_) => 0,
        Transform::Join { .. } => 0,
        Transform::Append(_) => 0,
        Transform::Filter(_) => if has_agg {
            3
        } else {
            1
        },
        Transform::Aggregate { .. } => 2,
        Transform::Select(_) => 4,
        Transform::RowNumber { .. } => 4,
        Transform::Distinct { .. } => 5,
        Transform::Sort(_) => 6,
        Transform::Take { .. } => 7,
    }
}

/// The clause rank of a transform, as `spec_rank` gives it.
pub fn rank_of(t: &Transform, has_agg: bool) -> (r: u64)
    ensures
        r == spec_rank(*t, has_agg),
{
    match t {
        Transform::From(_) => 0,
        Transform::Join { .. } => 0,
        Transform::Append(_) => 0,
        Transform::Filter(_) => if has_agg {
            3
        } else {
            1
        },
        Transform::Aggregate { .. } => 2,
        Transform::Select(_) => 4,
        Transform::RowNumber { .. } => 4,
        Transform::Distinct { .. } => 5,
        Transform::Sort(_) => 6,
        Transform::Take { .. } => 7,
    }
}

/// Whether a transform defines the stage's output list.
pub open spec fn defines_sel_list(t: Transform) -> bool {
    t is Select || t is Aggregate || t is RowNumber
}

/// The state of an empty stage.
pub open spec fn st_init() -> StageState {
    StageState { max_rank: 0, has_agg: false, sel_list: false, has_distinct: false, closed: false }
}

/// The state after placing one more transform.
pub open spec fn st_step(st: StageState, t: Transform) -> StageState {
    StageState {
        max_rank: if spec_rank(t, st.has_agg) > st.max_rank {
            spec_rank(t, st.has_agg)
        } else {
            st.max_rank
        },
        has_agg: st.has_agg || t is Aggregate,
        sel_list: st.sel_list || defines_sel_list(t),
        has_distinct: st.has_distinct || t is Distinct,
        closed: st.closed || t is Take || t is Append,
    }
}

/// A transform cannot join a stage in this state: a boundary is forced.
/// An Append always stands in a stage of its own, since a set operation
/// wraps whole queries rather than filling a clause.
pub open spec fn splits(st: StageState, t: Transform) -> bool {
    ||| st.closed
    ||| spec_rank(t, st.has_agg) < st.max_rank
    ||| (defines_sel_list(t) && st.sel_list)
    ||| (t is Distinct && st.has_distinct)
    ||| t is Append
}

/// The state a run of transforms accumulates, left to right.
pub open spec fn st_of(s: Seq<Transform>) -> StageState
    decreases s.len(),
{
    if s.len() == 0 {
        st_init()
    } else {
        st_step(st_of(s.drop_last()), s.last())
    }
}

/// The required clause rank of element `i` of a stage, under the
/// Filter-to-`HAVING` promotion the preceding elements cause.
pub open spec fn rank_at(s: Seq<Transform>, i: int) -> u64 {
    spec_rank(s[i], st_of(s.subrange(0, i)).has_agg)
}

/// The required clause ranks of a stage are non-decreasing in the fixed
/// clause order.
pub open spec fn clause_monotone(s: Seq<Transform>) -> bool {
    forall|i: int, j: int| 0 <= i <= j < s.len() ==> rank_at(s, i) <= rank_at(s, j)
}

/// A well-shaped pipeline body: non-empty, begins with its one
/// source-producing transform, and never re-introduces one.
pub open spec fn anchor_ok(s: Seq<Transform>) -> bool {
    &&& s.len() > 0
    &&& s[0] is From
    &&& forall|i: int| 1 <= i < s.len() ==> !(s[i] is From)
}

/// The partition Anchor produces, as a fold: `cur` is the stage being
/// grown, `st` its state, `acc` the finished stages.
pub open spec fn anchor_fold(
    s: Seq<Transform>,
    i: int,
    cur: Seq<Transform>,
    st: StageState,
    acc: Seq<Seq<Transform>>,
) -> Seq<Seq<Transform>>
    decreases s.len() - i,
{
    if i < 0 || i >= s.len() {
        acc.push(cur)
    } else if splits(st, s[i]) {
        anchor_fold(s, i + 1, seq![s[i]], st_step(st_init(), s[i]), acc.push(cur))
    } else {
        anchor_fold(s, i + 1, cur.push(s[i]), st_step(st, s[i]), acc)
    }
}

/// The stages of a well-shaped pipeline body.
pub open spec fn anchor_spec(s: Seq<Transform>) -> Seq<Seq<Transform>> {
    anchor_fold(s, 1, seq![s[0]], st_step(st_init(), s[0]), Seq::empty())
}

/// The transform runs of a stage list.
pub open spec fn stages_views(stages: Seq<Stage>) -> Seq<Seq<Transform>> {
    stages.map_values(|st: Stage| st.transforms@)
}

/// The concatenation of a list of runs, in order.
pub open spec fn cat_all(s: Seq<Seq<Transform>>) -> Seq<Transform>
    decreases s.len(),
{
    if s.len() == 0 {
        Seq::empty()
    } else {
        cat_all(s.drop_last()) + s.last()
    }
}

/// No transform of a well-shaped body ever forces a boundary.
pub open spec fn no_split_needed(s: Seq<Transform>) -> bool {
    forall|i: int| 1 <= i < s.len() ==> !splits(st_of(s.subrange(0, i)), s[i])
}

/// Anchor places boundaries only where forced: a body that needs none
/// yields exactly one stage.
proof fn lemma_fold_no_split(s: Seq<Transform>, i: int, acc: Seq<Seq<Transform>>)
    requires
        1 <= i <= s.len(),
        no_split_needed(s),
    ensures
        anchor_fold(s, i, s.subrange(0, i), st_of(s.subrange(0, i)), acc).len() == acc.len() + 1,
    decreases s.len() - i,
{
    if i < s.len() {
        assert(!splits(st_of(s.subrange(0, i)), s[i]));
        assert(s.subrange(0, i).push(s[i]) =~= s.subrange(0, i + 1));
        assert(s.subrange(0, i + 1).drop_last() =~= s.subrange(0, i));
        assert(st_of(s.subrange(0, i + 1)) == st_step(st_of(s.subrange(0, i)), s[i]));
        lemma_fold_no_split(s, i + 1, acc);
    }
}

/// Idempotent re-staging: a pipeline whose transforms already fit one
/// `SELECT` — none of them forces a boundary — is anchored into exactly
/// one stage.
pub proof fn lemma_no_split_one_stage(s: Seq<Transform>)
    requires
        s.len() > 0,
        no_split_needed(s),
    ensures
        anchor_spec(s).len() == 1,
{
    assert(s.subrange(0, 1) =~= seq![s[0]]);
    assert(s.subrange(0, 1).drop_last() =~= Seq::<Transform>::empty());
    assert(st_of(Seq::<Transform>::empty()) == st_init());
    assert(st_of(s.subrange(0, 1)) == st_step(st_init(), s[0]));
    lemma_fold_no_split(s, 1, Seq::empty());
}

/// A row's own window value cannot be filtered in the clause level that
/// computes it: in a clause-monotone stage no Filter stands after a
/// RowNumber, so the filtering half of the windowed emulation pattern
/// always opens a new stage.
pub proof fn lemma_window_filter_needs_new_stage(s: Seq<Transform>)
    requires
        clause_monotone(s),
    ensures
        forall|i: int, j: int|
            0 <= i <= j < s.len() && s[i] is RowNumber ==> !(s[j] is Filter),
{
    assert forall|i: int, j: int|
        0 <= i <= j < s.len() && s[i] is RowNumber implies !(s[j] is Filter) by {
        assert(rank_at(s, i) == 4);
        assert(rank_at(s, i) <= rank_at(s, j));
        if s[j] is Filter {
            assert(rank_at(s, j) <= 3);
        }
    }
}

/// Whether the accumulated state says an Aggregate was placed.
pub fn st_init_x() -> (r: StageState)
    ensures
        r == st_init(),
{
    StageState { max_rank: 0, has_agg: false, sel_list: false, has_distinct: false, closed: false }
}

/// `st_step`, executably.
pub fn st_step_x(st: StageState, t: &Transform) -> (r: StageState)
    ensures
        r == st_step(st, *t),
{
    let rank = rank_of(t, st.has_agg);
    StageState {
        max_rank: if rank > st.max_rank {
            rank
        } else {
            st.max_rank
        },
        has_agg: st.has_agg || matches!(t, Transform::Aggregate { .. }),
        sel_list: st.sel_list || matches!(
            t,
            Transform::Select(_) | Transform::Aggregate { .. } | Transform::RowNumber { .. }
        ),
        has_distinct: st.has_distinct || matches!(t, Transform::Distinct { .. }),
        closed: st.closed || matches!(t, Transform::Take { .. } | Transform::Append(_)),
    }
}

/// `splits`, executably.
pub fn splits_x(st: StageState, t: &Transform) -> (r: bool)
    ensures
        r == splits(st, *t),
{
    st.closed || rank_of(t, st.has_agg) < st.max_rank || (matches!(
        t,
        Transform::Select(_) | Transform::Aggregate { .. } | Transform::RowNumber { .. }
    ) && st.sel_list) || (matches!(t, Transform::Distinct { .. }) && st.has_distinct) || matches!(
        t,
        Transform::Append(_),
    )
}

/// Partitions a pipeline body into the minimal ordered list of stages,
/// each realizable as one `SELECT`.
///
/// Succeeds exactly on well-shaped bodies (one leading `From`, none later);
/// the result then is `anchor_spec(ts)`: the same body always partitions
/// the same way. Every produced stage is non-empty and clause-monotone,
/// and the stages concatenate back to the input, in order.
#[verifier::rlimit(100)]
pub fn anchor(ts: Vec<Transform>) -> (r: Result<Vec<Stage>, TranslationError>)
    ensures
        match r {
            Ok(stages) => {
                &&& anchor_ok(ts@)
                &&& stages_views(stages@) == anchor_spec(ts@)
                &&& stages@.len() >= 1
                &&& forall|k: int|
                    0 <= k < stages@.len() ==> (#[trigger] stages@[k].transforms@).len() >= 1
                &&& forall|k: int|
                    0 <= k < stages@.len() ==> clause_monotone(#[trigger] stages@[k].transforms@)
                &&& cat_all(stages_views(stages@)) == ts@
                &&& no_split_needed(ts@) ==> stages@.len() == 1
            },
            Err(e) => {
                &&& e == TranslationError::UnsupportedPipelineShape
                &&& !anchor_ok(ts@)
            },
        },
{
    let ghost orig = ts@;
    let mut rest = ts;
    if rest.len() == 0 {
        return Err(TranslationError::UnsupportedPipelineShape);
    }
    let first = rest.remove(0);
    if !matches!(first, Transform::From(_)) {
        return Err(TranslationError::UnsupportedPipelineShape);
    }
    let mut st = st_step_x(st_init_x(), &first);
    let mut cur: Vec<Transform> = Vec::new();
    cur.push(first);
    let mut done: Vec<Stage> = Vec::new();
    proof {
        assert(cur@ =~= seq![orig[0]]);
        assert(cur@.drop_last() =~= Seq::<Transform>::empty());
        assert(st_of(Seq::<Transform>::empty()) == st_init());
        assert(st_of(cur@) == st);
        assert(stages_views(done@) =~= Seq::<Seq<Transform>>::empty());
        assert(cat_all(stages_views(done@)) + cur@ =~= orig.subrange(0, 1));
    }
    while rest.len() > 0
        invariant
            orig == ts@,
            orig.len() >= 1,
            rest@.len() <= orig.len() - 1,
            rest@ =~= orig.subrange(orig.len() - rest@.len(), orig.len() as int),
            st == st_of(cur@),
            cur@.len() >= 1,
            clause_monotone(cur@),
            forall|i: int| 0 <= i < cur@.len() ==> rank_at(cur@, i) <= st.max_rank,
            forall|k: int| 0 <= k < done@.len() ==> (#[trigger] done@[k].transforms@).len() >= 1,
            forall|k: int|
                0 <= k < done@.len() ==> clause_monotone(#[trigger] done@[k].transforms@),
            cat_all(stages_views(done@)) + cur@ =~= orig.subrange(
                0,
                orig.len() - rest@.len(),
            ),
            anchor_fold(orig, orig.len() - rest@.len(), cur@, st, stages_views(done@))
                == anchor_spec(orig),
            orig[0] is From,
            forall|i: int| 1 <= i < orig.len() - rest@.len() ==> !(orig[i] is From),
        decreases rest@.len(),
    {
        let ghost k = orig.len() - rest@.len();
        let t = rest.remove(0);
        proof {
            assert(t == orig[k]);
            assert(rest@ =~= orig.subrange(orig.len() - rest@.len(), orig.len() as int));
        }
        if matches!(t, Transform::From(_)) {
            proof {
                assert(orig[k] is From);
                assert(!anchor_ok(orig));
            }
            return Err(TranslationError::UnsupportedPipelineShape);
        }
        if splits_x(st, &t) {
            let ghost old_done_views = stages_views(done@);
            let ghost old_cur = cur@;
            done.push(Stage { transforms: cur });
            cur = Vec::new();
            st = st_step_x(st_init_x(), &t);
            cur.push(t);
            proof {
                assert(stages_views(done@) =~= old_done_views.push(old_cur));
                assert(cur@ =~= seq![orig[k]]);
                assert(cur@.drop_last() =~= Seq::<Transform>::empty());
                assert(st_of(Seq::<Transform>::empty()) == st_init());
                assert(st_of(cur@) == st);
                assert(cur@.subrange(0, 0) =~= Seq::<Transform>::empty());
                assert(rank_at(cur@, 0) <= st.max_rank);
                assert(stages_views(done@).drop_last() =~= old_done_views);
                assert(stages_views(done@).last() == old_cur);
                assert(cat_all(stages_views(done@)) =~= cat_all(old_done_views) + old_cur);
                assert(cat_all(stages_views(done@)) + cur@ =~= orig.subrange(0, k + 1));
            }
        } else {
            let ghost old_cur = cur@;
            let ghost old_st = st;
            st = st_step_x(st, &t);
            cur.push(t);
            proof {
                assert(cur@ =~= old_cur.push(orig[k]));
                assert(cur@.drop_last() =~= old_cur);
                assert(st_of(cur@) == st);
                assert(cur@.subrange(0, old_cur.len() as int) =~= old_cur);
                assert(rank_at(cur@, old_cur.len() as int) == spec_rank(orig[k], old_st.has_agg));
                assert(spec_rank(orig[k], old_st.has_agg) >= old_st.max_rank);
                assert forall|i: int| 0 <= i < cur@.len() implies rank_at(cur@, i)
                    <= st.max_rank by {
                    if i < old_cur.len() {
                        assert(cur@.subrange(0, i) =~= old_cur.subrange(0, i));
                        assert(rank_at(cur@, i) == rank_at(old_cur, i));
                    }
                }
                assert forall|i: int, j: int| 0 <= i <= j < cur@.len() implies rank_at(cur@, i)
                    <= rank_at(cur@, j) by {
                    if j < old_cur.len() {
                        assert(cur@.subrange(0, i) =~= old_cur.subrange(0, i));
                        assert(cur@.subrange(0, j) =~= old_cur.subrange(0, j));
                        assert(rank_at(cur@, i) == rank_at(old_cur, i));
                        assert(rank_at(cur@, j) == rank_at(old_cur, j));
                        assert(rank_at(old_cur, i) <= rank_at(old_cur, j));
                    } else if i < old_cur.len() {
                        assert(cur@.subrange(0, i) =~= old_cur.subrange(0, i));
                        assert(rank_at(cur@, i) == rank_at(old_cur, i));
                        assert(rank_at(old_cur, i) <= old_st.max_rank);
                        assert(rank_at(cur@, j) == spec_rank(orig[k], old_st.has_agg));
                    }
                }
                assert(orig.subrange(0, k).push(orig[k]) =~= orig.subrange(0, k + 1));
                assert(cat_all(stages_views(done@)) + cur@ =~= (cat_all(stages_views(done@))
                    + old_cur).push(orig[k]));
                assert(cat_all(stages_views(done@)) + cur@ =~= orig.subrange(0, k + 1));
            }
        }
    }
    let ghost old_done_views = stages_views(done@);
    let ghost old_cur = cur@;
    proof {
        assert(orig.len() - rest@.len() == orig.len());
        assert(anchor_fold(orig, orig.len() as int, old_cur, st, old_done_views)
            == old_done_views.push(old_cur));
    }
    done.push(Stage { transforms: cur });
    proof {
        assert(stages_views(done@) =~= old_done_views.push(old_cur));
        assert(stages_views(done@).drop_last() =~= old_done_views);
        assert(stages_views(done@).last() == old_cur);
        assert(cat_all(stages_views(done@)) =~= cat_all(old_done_views) + old_cur);
        assert(orig.subrange(0, orig.len() as int) =~= orig);
        assert(cat_all(stages_views(done@)) =~= orig);
        if no_split_needed(orig) {
            lemma_no_split_one_stage(orig);
            assert(done@.len() == stages_views(done@).len());
        }
    }
    Ok(done)
}

} // verus!
