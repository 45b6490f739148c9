//! Capabilities of a target SQL dialect, consumed read-only.

use vstd::prelude::*;

verus! {

/// Which SQL features the target dialect supports. The record is fixed for
/// the duration of one translation; the lowering engine only reads it.
///
/// Identifier quoting is a rendering concern and is not part of this record:
/// the emitted tree carries bare identifiers, and the renderer quotes them.
#[derive(Clone, Copy, PartialEq, Eq, Structural, Debug)]
pub struct Dialect {
    /// `WITH name AS (...)` is available; otherwise stages nest as subqueries.
    pub supports_cte: bool,
    /// A native "distinct on these keys" construct is available.
    pub supports_distinct_on: bool,
    /// Window functions (`ROW_NUMBER() OVER (...)`) are available.
    pub supports_window_functions: bool,
    /// `QUALIFY` can filter on a window result in the same `SELECT`.
    pub supports_qualify: bool,
    /// `LIMIT`/`OFFSET` are available positionally at the end of a `SELECT`.
    pub supports_limit_offset: bool,
}

impl Dialect {
    /// A dialect that supports every feature natively.
    pub fn full() -> (r: Dialect)
        ensures
            r.supports_cte,
            r.supports_distinct_on,
            r.supports_window_functions,
            r.supports_qualify,
            r.supports_limit_offset,
    {
        Dialect {
            supports_cte: true,
            supports_distinct_on: true,
            supports_window_functions: true,
            supports_qualify: true,
            supports_limit_offset: true,
        }
    }
}

} // verus!
