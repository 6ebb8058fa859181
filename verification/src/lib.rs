//! Null-aware columnar value model and expression-chain executor.
//!
//! The crate models columns of a vectorized query engine — including the
//! degenerate all-null column and nullable wrappers with validity bitmaps —
//! and executes linearized expression chains (inputs, scalar function calls,
//! constants, aliases) over batches of equal-length named columns.

pub mod error;
pub mod value;
pub mod types;
pub mod null_column;
pub mod column;
pub mod schema;
pub mod chain;
pub mod executor;
pub mod router;
