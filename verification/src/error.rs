//! The error taxonomy of the lowering engine.
//!
//! Every internal step returns a typed result; any error aborts the whole
//! translation. The engine produces either a complete SQL tree or none.

use vstd::prelude::*;

verus! {

/// A SQL feature a dialect may lack, named in `UnsupportedByDialect`.
#[derive(Clone, Copy, PartialEq, Eq, Structural, Debug)]
pub enum Feature {
    /// Window functions such as `ROW_NUMBER() OVER (...)`.
    WindowFunctions,
    /// Positional `LIMIT`/`OFFSET`.
    LimitOffset,
}

/// Why a translation was aborted.
#[derive(Clone, Copy, PartialEq, Eq, Structural, Debug)]
pub enum TranslationError {
    /// A column reference was never declared in any visible scope: a
    /// contract violation by the producer of the pipeline, or a staging bug.
    UnresolvedReference { cid: u64 },
    /// The pipeline could not be partitioned into stages. For a well-formed
    /// pipeline this is always a defect in the staging rules, never a user
    /// input problem; in practice it reports a pipeline that violates the
    /// producer's contract (no single leading source, a source
    /// re-introduced mid-pipeline, an ill-formed inline literal, or a cid
    /// space too full to draw fresh identities from).
    UnsupportedPipelineShape,
    /// A required SQL feature is absent from the dialect and no emulation
    /// is available.
    UnsupportedByDialect { feature: Feature },
    /// An expression mixes grouped/aggregate and plain column access in a
    /// way no SQL dialect permits. `cid` is the offending reference, or 0
    /// when the offense is an aggregate call outside an Aggregate transform.
    InvalidAggregateReference { cid: u64 },
    /// The nesting depth guard tripped while recursing into join/append
    /// sub-pipelines.
    PipelineTooDeep,
}

} // verus!
