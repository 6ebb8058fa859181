//! The degenerate all-null column and its append-only builder.
//!
//! A `NullColumn` is a column of N rows in which every row is logically
//! NULL; it stores only its row count, so its memory footprint is O(1)
//! regardless of N.

use vstd::prelude::*;
use crate::types::DataType;
use crate::value::DataValue;

verus! {

/// Column of `length` rows, every one null, with no physical payload.
#[derive(Debug)]
pub struct NullColumn {
    pub length: usize,
}

impl NullColumn {
    /// A column of `length` all-null rows.
    pub fn new(length: usize) -> (r: Self)
        ensures
            r.length == length,
    {
        NullColumn { length }
    }

    /// The all-null column's type is the degenerate `Null` type.
    pub fn data_type(&self) -> (r: DataType)
        ensures
            r is Null,
    {
        DataType::Null
    }

    pub fn is_nullable(&self) -> (r: bool)
        ensures
            r,
    {
        true
    }

    pub fn len(&self) -> (r: usize)
        ensures
            r == self.length,
    {
        self.length
    }

    /// Every row is null, whatever the row index.
    pub fn null_at(&self, _row: usize) -> (r: bool)
        ensures
            r,
    {
        true
    }

    /// Fast-path flag: every row of this column is null.
    pub fn only_null(&self) -> (r: bool)
        ensures
            r,
    {
        true
    }

    /// Nullability applies, but no explicit bitmap is carried: every row is
    /// null by construction.
    pub fn validity(&self) -> (r: (bool, Option<&Vec<bool>>))
        ensures
            r.0,
            r.1 is None,
    {
        (true, None)
    }

    /// Approximate footprint: one machine word, independent of the length.
    pub fn memory_size(&self) -> (r: usize)
        ensures
            r == vstd::layout::size_of::<usize>(),
    {
        core::mem::size_of::<usize>()
    }

    /// A contiguous view of `length` rows; all of them are null, so only
    /// the new length matters.
    pub fn slice(&self, _offset: usize, length: usize) -> (r: Self)
        ensures
            r.length == length,
    {
        NullColumn { length }
    }

    /// Row-wise repeat: `offsets[i]` is the cumulative output length after
    /// replicating row i, so the result has `offsets.last()` rows, all null.
    pub fn replicate(&self, offsets: &Vec<usize>) -> (r: Self)
        requires
            offsets@.len() == self.length,
            self.length > 0,
        ensures
            r.length == offsets@.last(),
    {
        NullColumn { length: offsets[offsets.len() - 1] }
    }

    /// Already in maximally compact normal form: materializing is identity.
    pub fn convert_full_column(&self) -> (r: Self)
        ensures
            r.length == self.length,
    {
        NullColumn { length: self.length }
    }

    /// The value at any row; the caller guarantees bounds. Always null.
    pub fn get_unchecked(&self, _index: usize) -> (r: DataValue)
        ensures
            r is Null,
    {
        DataValue::Null
    }
}

impl Clone for NullColumn {
    fn clone(&self) -> (r: Self)
        ensures
            r == *self,
    {
        NullColumn { length: self.length }
    }
}

impl Default for NullColumn {
    fn default() -> (r: Self)
        ensures
            r.length == 0,
    {
        NullColumn { length: 0 }
    }
}

/// Append-only builder for `NullColumn`. Appending a null and appending a
/// default are observationally identical: both only advance the row count.
#[derive(Debug)]
pub struct MutableNullColumn {
    pub length: usize,
}

impl MutableNullColumn {
    /// Yields the accumulated all-null column and resets the counter to
    /// zero, making the builder reusable.
    pub fn finish(&mut self) -> (r: NullColumn)
        ensures
            r.length == old(self).length,
            final(self).length == 0,
    {
        let length = self.length;
        self.length = 0;
        NullColumn { length }
    }

    pub fn data_type(&self) -> (r: DataType)
        ensures
            r is Null,
    {
        DataType::Null
    }

    /// Appends one defaulted row; for the null type the default is null.
    pub fn append_default(&mut self)
        requires
            old(self).length < usize::MAX,
        ensures
            final(self).length == old(self).length + 1,
    {
        self.length = self.length + 1;
    }

    /// Appends one null row. The `true` result reports that nulls are
    /// accepted.
    pub fn append_null(&mut self) -> (r: bool)
        requires
            old(self).length < usize::MAX,
        ensures
            final(self).length == old(self).length + 1,
            r,
    {
        self.length = self.length + 1;
        true
    }

    /// The accumulated rows as an immutable column; like `finish`, resets
    /// the builder.
    pub fn as_column(&mut self) -> (r: crate::column::Column)
        ensures
            r matches crate::column::Column::Null(c) && c.length == old(self).length,
            final(self).length == 0,
    {
        crate::column::Column::Null(self.finish())
    }

    /// Nothing is allocated, so there is nothing to shrink.
    pub fn shrink_to_fit(&mut self)
        ensures
            final(self).length == old(self).length,
    {
    }

    /// No validity bitmap is accumulated: every row is null by construction.
    pub fn validity(&self) -> (r: Option<&Vec<bool>>)
        ensures
            r is None,
    {
        None
    }
}

impl Default for MutableNullColumn {
    fn default() -> (r: Self)
        ensures
            r.length == 0,
    {
        MutableNullColumn { length: 0 }
    }
}

} // verus!
