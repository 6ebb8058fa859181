//! Typed errors surfaced by column construction and chain execution.

use vstd::prelude::*;

verus! {

/// Deterministic error classes: internal-consistency defects of a chain or
/// schema (`LogicalError`), misuse of the type system (`BadDataValueType`),
/// and combinations the engine rejects (`UnImplement`).
#[derive(Debug)]
pub enum ErrorCode {
    LogicalError(String),
    BadDataValueType(String),
    UnImplement(String),
}

impl ErrorCode {
    /// The human-readable message carried by the error.
    pub fn message(&self) -> (r: &String)
        ensures
            r@ == self.spec_message(),
    {
        match self {
            ErrorCode::LogicalError(m) => m,
            ErrorCode::BadDataValueType(m) => m,
            ErrorCode::UnImplement(m) => m,
        }
    }

    pub open spec fn spec_message(&self) -> Seq<char> {
        match self {
            ErrorCode::LogicalError(m) => m@,
            ErrorCode::BadDataValueType(m) => m@,
            ErrorCode::UnImplement(m) => m@,
        }
    }
}

} // verus!
