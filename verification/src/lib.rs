//! Lowering of a relational-query pipeline (RQ) into dialect-correct SQL.
//!
//! An RQ pipeline is a linear sequence of relational transforms (filter,
//! aggregate, sort, take, join, ...). SQL is not freely composable: a single
//! `SELECT` applies its clauses in a fixed order. This crate partitions a
//! pipeline into the minimal chain of `SELECT` stages, assigns unique aliases,
//! emulates operations a dialect lacks natively, and emits a SQL abstract
//! syntax tree. Rendering the tree to text is left to the caller.

pub mod anchor;
pub mod codegen;
pub mod context;
pub mod dialect;
pub mod emulate;
pub mod error;
pub mod rq;
pub mod sample_data;
pub mod sql;
pub mod translator;
