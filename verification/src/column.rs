//! The closed set of column variants and their uniform capability
//! interface.
//!
//! A column's logical content is its sequence of cells, where a null cell
//! is the `Null` value; the spec function [`Column::cells`] is the model
//! every contract speaks of.

use vstd::prelude::*;
use crate::null_column::NullColumn;
use crate::types::{DataType, NullableType};
use crate::value::DataValue;

verus! {

/// Plain physical column: one stored value per row.
#[derive(Debug)]
pub struct ValueColumn {
    pub data_type: DataType,
    pub values: Vec<DataValue>,
}

/// A single value repeated `length` times.
#[derive(Debug)]
pub struct ConstantColumn {
    pub value: DataValue,
    pub length: usize,
}

/// An inner column paired with a validity bitmap; bit true means the row
/// is valid (non-null), bit false masks the inner payload to null.
#[derive(Debug)]
pub struct NullableColumn {
    pub inner: Box<Column>,
    pub validity: Vec<bool>,
}

/// Any concrete column. Every variant behaves uniformly through the
/// methods below.
#[derive(Debug)]
pub enum Column {
    Null(NullColumn),
    Array(ValueColumn),
    Constant(ConstantColumn),
    Nullable(NullableColumn),
}

/// The cells seen through a validity bitmap: the inner cell where the bit
/// is set, null where it is clear.
pub open spec fn mask_cells(inner: Seq<DataValue>, validity: Seq<bool>) -> Seq<DataValue> {
    Seq::new(
        validity.len(),
        |i: int| if validity[i] && 0 <= i < inner.len() {
            inner[i]
        } else {
            DataValue::Null
        },
    )
}

impl Column {
    /// The logical content: one cell per row, `Null` where the row is null.
    pub open spec fn cells(&self) -> Seq<DataValue>
        decreases *self,
    {
        match self {
            Column::Null(c) => Seq::new(c.length as nat, |i: int| DataValue::Null),
            Column::Array(c) => c.values@,
            Column::Constant(c) => Seq::new(c.length as nat, |i: int| c.value),
            Column::Nullable(c) => mask_cells((*c.inner).cells(), c.validity@),
        }
    }

    /// Structural well-formedness: a validity bitmap always has exactly one
    /// bit per inner row.
    pub open spec fn wf(&self) -> bool
        decreases *self,
    {
        match self {
            Column::Nullable(c) => (*c.inner).wf() && c.validity@.len() == (*c.inner).cells().len(),
            _ => true,
        }
    }

    /// The declared type of the column's cells.
    pub open spec fn spec_data_type(&self) -> DataType
        decreases *self,
    {
        match self {
            Column::Null(_) => DataType::Null,
            Column::Array(c) => c.data_type,
            Column::Constant(c) => spec_value_type(c.value),
            Column::Nullable(c) => DataType::Nullable(
                NullableType { inner: Box::new((*c.inner).spec_data_type()) },
            ),
        }
    }

    pub fn len(&self) -> (r: usize)
        ensures
            r == self.cells().len(),
    {
        match self {
            Column::Null(c) => c.len(),
            Column::Array(c) => c.values.len(),
            Column::Constant(c) => c.length,
            Column::Nullable(c) => c.validity.len(),
        }
    }

    /// Whether the cell at `row` is null.
    pub fn null_at(&self, row: usize) -> (r: bool)
        requires
            self.wf(),
            row < self.cells().len(),
        ensures
            r == (self.cells()[row as int] is Null),
        decreases *self,
    {
        match self {
            Column::Null(c) => c.null_at(row),
            Column::Array(c) => c.values[row].is_null(),
            Column::Constant(c) => c.value.is_null(),
            Column::Nullable(c) => {
                if !c.validity[row] {
                    true
                } else {
                    (*c.inner).null_at(row)
                }
            },
        }
    }

    /// Fast-path flag: true exactly when every row of the column is null.
    pub fn only_null(&self) -> (r: bool)
        requires
            self.wf(),
        ensures
            r == (forall|i: int| 0 <= i < self.cells().len() ==> self.cells()[i] is Null),
    {
        let n = self.len();
        let mut i: usize = 0;
        while i < n
            invariant
                self.wf(),
                i <= n,
                n == self.cells().len(),
                forall|j: int| 0 <= j < i ==> self.cells()[j] is Null,
            decreases n - i,
        {
            if !self.null_at(i) {
                return false;
            }
            i = i + 1;
        }
        true
    }

    /// The nullability notion and, for bitmap-bearing columns, the bitmap
    /// itself. The all-null column reports `(true, None)`: nullability
    /// applies but every row is null by construction.
    pub fn validity(&self) -> (r: (bool, Option<&Vec<bool>>))
        ensures
            r.0 == (self is Null || self is Nullable),
            match r.1 {
                Some(v) => self matches Column::Nullable(c) && v@ == c.validity@,
                None => !(self is Nullable),
            },
    {
        match self {
            Column::Null(_) => (true, None),
            Column::Nullable(c) => (true, Some(&c.validity)),
            Column::Array(_) => (false, None),
            Column::Constant(_) => (false, None),
        }
    }

    /// The per-row validity as one bit per cell: true exactly where the
    /// cell is non-null.
    pub fn get_validity(&self) -> (r: Vec<bool>)
        requires
            self.wf(),
        ensures
            r@.len() == self.cells().len(),
            forall|i: int| 0 <= i < r@.len() ==> r@[i] == !(self.cells()[i] is Null),
    {
        let n = self.len();
        let mut r: Vec<bool> = Vec::new();
        let mut i: usize = 0;
        while i < n
            invariant
                self.wf(),
                i <= n,
                n == self.cells().len(),
                r@.len() == i,
                forall|j: int| 0 <= j < i ==> r@[j] == !(self.cells()[j] is Null),
            decreases n - i,
        {
            let b = !self.null_at(i);
            r.push(b);
            i = i + 1;
        }
        r
    }

    /// Approximate memory footprint, for planning and accounting: one
    /// machine word for the payload-free all-null column, the cell count
    /// otherwise.
    pub fn memory_size(&self) -> (r: usize)
        ensures
            self is Null ==> r == vstd::layout::size_of::<usize>(),
            !(self is Null) ==> r == self.cells().len(),
    {
        match self {
            Column::Null(c) => c.memory_size(),
            Column::Array(c) => c.values.len(),
            Column::Constant(c) => c.length,
            Column::Nullable(c) => c.validity.len(),
        }
    }

    /// The cell at `index`; the caller guarantees bounds.
    pub fn get_unchecked(&self, index: usize) -> (r: DataValue)
        requires
            self.wf(),
            index < self.cells().len(),
        ensures
            r == self.cells()[index as int],
        decreases *self,
    {
        match self {
            Column::Null(c) => c.get_unchecked(index),
            Column::Array(c) => c.values[index].clone(),
            Column::Constant(c) => c.value.clone(),
            Column::Nullable(c) => {
                if !c.validity[index] {
                    DataValue::Null
                } else {
                    (*c.inner).get_unchecked(index)
                }
            },
        }
    }

    /// The declared type of the column.
    pub fn data_type(&self) -> (r: DataType)
        ensures
            r == self.spec_data_type(),
        decreases *self,
    {
        match self {
            Column::Null(c) => c.data_type(),
            Column::Array(c) => c.data_type.clone(),
            Column::Constant(c) => value_type(&c.value),
            Column::Nullable(c) => DataType::Nullable(
                NullableType { inner: Box::new((*c.inner).data_type()) },
            ),
        }
    }

    /// Whether the column has a notion of nullability at the type level.
    pub fn is_nullable(&self) -> (r: bool)
        ensures
            r == (self is Null || self is Nullable),
    {
        matches!(self, Column::Null(_) | Column::Nullable(_))
    }

    /// A cheap view over the contiguous range `[offset, offset + length)`.
    pub fn slice(&self, offset: usize, length: usize) -> (r: Column)
        requires
            self.wf(),
            offset + length <= self.cells().len(),
        ensures
            r.wf(),
            r.cells() == self.cells().subrange(offset as int, offset as int + length as int),
        decreases *self,
    {
        match self {
            Column::Null(_) => {
                let r = Column::Null(NullColumn::new(length));
                proof {
                    assert(r.cells() =~= self.cells().subrange(
                        offset as int,
                        offset as int + length as int,
                    ));
                }
                r
            },
            Column::Array(c) => {
                let values = clone_value_range(&c.values, offset, length);
                let r = Column::Array(ValueColumn { data_type: c.data_type.clone(), values });
                proof {
                    assert(r.cells() =~= self.cells().subrange(
                        offset as int,
                        offset as int + length as int,
                    ));
                }
                r
            },
            Column::Constant(c) => {
                let r = Column::Constant(ConstantColumn { value: c.value.clone(), length });
                proof {
                    assert(r.cells() =~= self.cells().subrange(
                        offset as int,
                        offset as int + length as int,
                    ));
                }
                r
            },
            Column::Nullable(c) => {
                let inner = (*c.inner).slice(offset, length);
                let validity = clone_bool_range(&c.validity, offset, length);
                let r = Column::Nullable(NullableColumn { inner: Box::new(inner), validity });
                proof {
                    assert(r.cells() =~= self.cells().subrange(
                        offset as int,
                        offset as int + length as int,
                    ));
                }
                r
            },
        }
    }

    /// Row-wise repeat. `offsets` is non-decreasing with one entry per row;
    /// `offsets[i]` is the cumulative output length after replicating row
    /// i, so row i appears in the output at positions
    /// `[offsets[i-1], offsets[i])` and the output has `offsets.last()`
    /// rows.
    pub fn replicate(&self, offsets: &Vec<usize>) -> (r: Column)
        requires
            self.wf(),
            offsets@.len() == self.cells().len(),
            offsets@.len() > 0,
            forall|i: int, j: int| 0 <= i <= j < offsets@.len() ==> offsets@[i] <= offsets@[j],
        ensures
            r.wf(),
            r.cells().len() == offsets@.last(),
            forall|i: int, j: int|
                0 <= i < offsets@.len()
                && (if i == 0 { 0int } else { offsets@[i - 1] as int }) <= j < offsets@[i]
                ==> r.cells()[j] == self.cells()[i],
    {
        match self {
            Column::Null(c) => Column::Null(c.replicate(offsets)),
            Column::Constant(c) => Column::Constant(ConstantColumn {
                value: c.value.clone(),
                length: offsets[offsets.len() - 1],
            }),
            _ => {
                let n = offsets.len();
                let mut out: Vec<DataValue> = Vec::new();
                let mut i: usize = 0;
                while i < n
                    invariant
                        self.wf(),
                        i <= n,
                        n == offsets@.len(),
                        n == self.cells().len(),
                        forall|a: int, b: int| 0 <= a <= b < n ==> offsets@[a] <= offsets@[b],
                        out@.len() == if i == 0 { 0int } else { offsets@[i - 1] as int },
                        forall|a: int, j: int|
                            0 <= a < i
                            && (if a == 0 { 0int } else { offsets@[a - 1] as int }) <= j < offsets@[a]
                            ==> out@[j] == self.cells()[a],
                    decreases n - i,
                {
                    let target = offsets[i];
                    while out.len() < target
                        invariant
                            self.wf(),
                            i < n,
                            n == offsets@.len(),
                            n == self.cells().len(),
                            forall|a: int, b: int| 0 <= a <= b < n ==> offsets@[a] <= offsets@[b],
                            target == offsets@[i as int],
                            (if i == 0 { 0int } else { offsets@[i - 1] as int }) <= out@.len() <= target,
                            forall|a: int, j: int|
                                0 <= a < i
                                && (if a == 0 { 0int } else { offsets@[a - 1] as int }) <= j < offsets@[a]
                                ==> out@[j] == self.cells()[a],
                            forall|j: int|
                                (if i == 0 { 0int } else { offsets@[i - 1] as int }) <= j < out@.len()
                                ==> out@[j] == self.cells()[i as int],
                        decreases target - out.len(),
                    {
                        let v = self.get_unchecked(i);
                        out.push(v);
                    }
                    proof {
                        assert forall|a: int, j: int|
                            0 <= a < i + 1
                            && (if a == 0 { 0int } else { offsets@[a - 1] as int }) <= j
                            && j < offsets@[a]
                            implies out@[j] == self.cells()[a]
                        by {
                            if a < i {
                            } else {
                                assert(a == i as int);
                            }
                        }
                    }
                    i = i + 1;
                }
                let r = Column::Array(ValueColumn { data_type: self.data_type(), values: out });
                proof {
                    assert(r.cells().len() == offsets@.last());
                }
                r
            },
        }
    }

    /// Materializes any degenerate or constant form into a plain column
    /// with the same cells; bitmap-bearing and all-null columns are already
    /// normal.
    pub fn convert_full_column(&self) -> (r: Column)
        requires
            self.wf(),
        ensures
            r.wf(),
            r.cells() == self.cells(),
        decreases *self,
    {
        match self {
            Column::Null(c) => {
                let r = Column::Null(c.convert_full_column());
                proof {
                    assert(r.cells() =~= self.cells());
                }
                r
            },
            Column::Array(c) => Column::Array(ValueColumn {
                data_type: c.data_type.clone(),
                values: clone_value_range(&c.values, 0, c.values.len()),
            }),
            Column::Constant(c) => {
                let mut values: Vec<DataValue> = Vec::new();
                let mut i: usize = 0;
                while i < c.length
                    invariant
                        i <= c.length,
                        values@.len() == i,
                        forall|j: int| 0 <= j < i ==> values@[j] == c.value,
                    decreases c.length - i,
                {
                    values.push(c.value.clone());
                    i = i + 1;
                }
                let r = Column::Array(ValueColumn { data_type: value_type(&c.value), values });
                proof {
                    assert(r.cells() =~= self.cells());
                }
                r
            },
            Column::Nullable(c) => {
                let inner = (*c.inner).convert_full_column();
                let r = Column::Nullable(NullableColumn {
                    inner: Box::new(inner),
                    validity: clone_bool_range(&c.validity, 0, c.validity.len()),
                });
                proof {
                    assert(r.cells() =~= self.cells());
                }
                r
            },
        }
    }
}

impl Clone for Column {
    /// Cloning preserves the logical content and well-formedness.
    fn clone(&self) -> (r: Self)
        ensures
            r.cells() == self.cells(),
            r.wf() == self.wf(),
            r.spec_data_type() == self.spec_data_type(),
        decreases *self,
    {
        match self {
            Column::Null(c) => Column::Null(c.clone()),
            Column::Array(c) => Column::Array(ValueColumn {
                data_type: c.data_type.clone(),
                values: clone_value_range(&c.values, 0, c.values.len()),
            }),
            Column::Constant(c) => Column::Constant(ConstantColumn {
                value: c.value.clone(),
                length: c.length,
            }),
            Column::Nullable(c) => {
                let r = Column::Nullable(NullableColumn {
                    inner: Box::new((*c.inner).clone()),
                    validity: clone_bool_range(&c.validity, 0, c.validity.len()),
                });
                proof {
                    assert(r.cells() =~= self.cells());
                }
                r
            },
        }
    }
}

/// The physical type of a single scalar value.
pub open spec fn spec_value_type(v: DataValue) -> DataType {
    match v {
        DataValue::Null => DataType::Null,
        DataValue::Boolean(_) => DataType::Boolean,
        DataValue::Int64(_) => DataType::Int64,
        DataValue::UInt64(_) => DataType::UInt64,
        DataValue::Utf8(_) => DataType::Utf8,
    }
}

/// The physical type of a single scalar value.
pub fn value_type(v: &DataValue) -> (r: DataType)
    ensures
        r == spec_value_type(*v),
{
    match v {
        DataValue::Null => DataType::Null,
        DataValue::Boolean(_) => DataType::Boolean,
        DataValue::Int64(_) => DataType::Int64,
        DataValue::UInt64(_) => DataType::UInt64,
        DataValue::Utf8(_) => DataType::Utf8,
    }
}

/// A copy of `values[offset .. offset + length]`.
pub fn clone_value_range(values: &Vec<DataValue>, offset: usize, length: usize) -> (r: Vec<
    DataValue,
>)
    requires
        offset + length <= values@.len(),
    ensures
        r@ == values@.subrange(offset as int, offset as int + length as int),
{
    let n = values.len();
    let mut r: Vec<DataValue> = Vec::new();
    let mut i: usize = 0;
    while i < length
        invariant
            offset + length <= n == values@.len(),
            i <= length,
            r@.len() == i,
            forall|j: int| 0 <= j < i ==> r@[j] == values@[offset + j],
        decreases length - i,
    {
        let v = values[offset + i].clone();
        r.push(v);
        i = i + 1;
    }
    proof {
        assert(r@ =~= values@.subrange(offset as int, offset as int + length as int));
    }
    r
}

/// A copy of `bits[offset .. offset + length]`.
pub fn clone_bool_range(bits: &Vec<bool>, offset: usize, length: usize) -> (r: Vec<bool>)
    requires
        offset + length <= bits@.len(),
    ensures
        r@ == bits@.subrange(offset as int, offset as int + length as int),
{
    let n = bits.len();
    let mut r: Vec<bool> = Vec::new();
    let mut i: usize = 0;
    while i < length
        invariant
            offset + length <= n == bits@.len(),
            i <= length,
            r@.len() == i,
            forall|j: int| 0 <= j < i ==> r@[j] == bits@[offset + j],
        decreases length - i,
    {
        let b = bits[offset + i];
        r.push(b);
        i = i + 1;
    }
    proof {
        assert(r@ =~= bits@.subrange(offset as int, offset as int + length as int));
    }
    r
}

} // verus!
