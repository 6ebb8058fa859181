//! Logical data types: the physical kinds plus the nullable wrapper that
//! marks an inner type's values as possibly absent.

use vstd::prelude::*;
use crate::column::{Column, ConstantColumn, NullableColumn, ValueColumn, clone_value_range};
use crate::error::ErrorCode;
use crate::null_column::NullColumn;
use crate::value::DataValue;

verus! {

/// Whether the scalar `v` is a legal cell of a column of type `t`: the
/// matching physical kind, or — under a nullable wrapper — the absent
/// value.
pub open spec fn value_fits(v: DataValue, t: DataType) -> bool
    decreases t,
{
    match t {
        DataType::Null => v is Null,
        DataType::Boolean => v is Boolean,
        DataType::Int64 => v is Int64,
        DataType::UInt64 => v is UInt64,
        DataType::Utf8 => v is Utf8,
        DataType::Nullable(nt) => v is Null || value_fits(v, *nt.inner),
    }
}

/// Whether `create_constant_column(v, _)` on type `t` succeeds: always
/// under a wrapper whose inner type is the degenerate `Null` type or when
/// the value is absent (the inner default substitutes), otherwise exactly
/// when the value fits.
pub open spec fn const_ok(t: DataType, v: DataValue) -> bool
    decreases t,
{
    match t {
        DataType::Nullable(nt) => (*nt.inner) is Null || v is Null || const_ok(*nt.inner, v),
        _ => value_fits(v, t),
    }
}

/// Whether the constant column built from `v` on type `t` comes out all
/// null: the repeated value is absent, or some wrapped layer bottoms out
/// in the degenerate `Null` type.
pub open spec fn const_null_out(t: DataType, v: DataValue) -> bool
    decreases t,
{
    match t {
        DataType::Nullable(nt) => (*nt.inner) is Null || v is Null || const_null_out(*nt.inner, v),
        _ => v is Null,
    }
}

/// A type's default value is always a legal cell of the type.
pub proof fn lemma_default_fits(t: DataType, v: DataValue)
    requires
        t.is_default_of(v),
    ensures
        value_fits(v, t),
{
}

/// Identifier of a logical type.
#[derive(Clone, Copy, PartialEq, Eq, Structural, Debug)]
pub enum TypeID {
    Null,
    Boolean,
    Int64,
    UInt64,
    Utf8,
    Nullable,
}

/// A logical column type: one of the physical kinds, the degenerate `Null`
/// type, or a nullable wrapper around an inner type.
#[derive(Debug)]
pub enum DataType {
    Null,
    Boolean,
    Int64,
    UInt64,
    Utf8,
    Nullable(NullableType),
}

/// Type-level wrapper marking exactly one inner type's values as possibly
/// absent. Nullability is a logical annotation plus a validity bitmap; the
/// physical encoding stays the inner type's.
#[derive(Debug)]
pub struct NullableType {
    pub inner: Box<DataType>,
}

impl NullableType {
    /// Wraps `inner` in a nullable annotation.
    pub fn create(inner: DataType) -> (r: Self)
        ensures
            *r.inner == inner,
    {
        NullableType { inner: Box::new(inner) }
    }

    /// The wrapped inner type.
    pub fn inner_type(&self) -> (r: &DataType)
        ensures
            *r == *self.inner,
    {
        &self.inner
    }

    pub fn data_type_id(&self) -> (r: TypeID)
        ensures
            r == TypeID::Nullable,
    {
        TypeID::Nullable
    }

    pub fn is_nullable(&self) -> (r: bool)
        ensures
            r,
    {
        true
    }

    /// A nullable type's default value is the absent value.
    pub fn default_value(&self) -> (r: DataValue)
        ensures
            r is Null,
    {
        DataValue::Null
    }
}

impl DataType {
    pub open spec fn spec_type_id(&self) -> TypeID {
        match self {
            DataType::Null => TypeID::Null,
            DataType::Boolean => TypeID::Boolean,
            DataType::Int64 => TypeID::Int64,
            DataType::UInt64 => TypeID::UInt64,
            DataType::Utf8 => TypeID::Utf8,
            DataType::Nullable(_) => TypeID::Nullable,
        }
    }

    pub fn data_type_id(&self) -> (r: TypeID)
        ensures
            r == self.spec_type_id(),
    {
        match self {
            DataType::Null => TypeID::Null,
            DataType::Boolean => TypeID::Boolean,
            DataType::Int64 => TypeID::Int64,
            DataType::UInt64 => TypeID::UInt64,
            DataType::Utf8 => TypeID::Utf8,
            DataType::Nullable(_) => TypeID::Nullable,
        }
    }

    /// Only the `Null` type and nullable wrappers admit absent values.
    pub fn is_nullable(&self) -> (r: bool)
        ensures
            r == (self is Null || self is Nullable),
    {
        matches!(self, DataType::Null | DataType::Nullable(_))
    }

    /// Whether `v` is the default (zero) value of this type. A `Utf8`
    /// default is pinned by its view, since two empty strings need not be
    /// one value.
    pub open spec fn is_default_of(&self, v: DataValue) -> bool {
        match self {
            DataType::Null => v is Null,
            DataType::Boolean => v == DataValue::Boolean(false),
            DataType::Int64 => v == DataValue::Int64(0i64),
            DataType::UInt64 => v == DataValue::UInt64(0u64),
            DataType::Utf8 => v matches DataValue::Utf8(s) && s@ == Seq::<char>::empty(),
            DataType::Nullable(_) => v is Null,
        }
    }

    /// The default (zero) value of the type, used as the physical payload
    /// standing under a null bit.
    pub fn default_value(&self) -> (r: DataValue)
        ensures
            self.is_default_of(r),
    {
        match self {
            DataType::Null => DataValue::Null,
            DataType::Boolean => DataValue::Boolean(false),
            DataType::Int64 => DataValue::Int64(0),
            DataType::UInt64 => DataValue::UInt64(0),
            DataType::Utf8 => DataValue::Utf8(String::new()),
            DataType::Nullable(_) => DataValue::Null,
        }
    }
}

/// Whether `v` is a legal cell of a column of type `t`.
pub fn fits_value(v: &DataValue, t: &DataType) -> (r: bool)
    ensures
        r == value_fits(*v, *t),
    decreases *t,
{
    match t {
        DataType::Null => v.is_null(),
        DataType::Boolean => matches!(v, DataValue::Boolean(_)),
        DataType::Int64 => matches!(v, DataValue::Int64(_)),
        DataType::UInt64 => matches!(v, DataValue::UInt64(_)),
        DataType::Utf8 => matches!(v, DataValue::Utf8(_)),
        DataType::Nullable(nt) => v.is_null() || fits_value(v, &nt.inner),
    }
}

/// A bitmap of `n` copies of `b`.
fn repeat_bool(b: bool, n: usize) -> (r: Vec<bool>)
    ensures
        r@.len() == n,
        forall|i: int| 0 <= i < n ==> r@[i] == b,
{
    let mut r: Vec<bool> = Vec::new();
    let mut i: usize = 0;
    while i < n
        invariant
            i <= n,
            r@.len() == i,
            forall|j: int| 0 <= j < i ==> r@[j] == b,
        decreases n - i,
    {
        r.push(b);
        i = i + 1;
    }
    r
}

impl NullableType {
    /// Builds a column of `size` copies of `data`. If the inner type is
    /// the degenerate `Null` type the result collapses to an all-null
    /// column with no bitmap (wrapping `Null` in a nullable annotation is
    /// redundant). Otherwise an absent value is replaced by the inner
    /// default under an all-false bitmap, and a present value is repeated
    /// under an all-true bitmap; errors of the inner construction
    /// propagate unchanged.
    pub fn create_constant_column(&self, data: &DataValue, size: usize) -> (r: Result<
        Column,
        ErrorCode,
    >)
        ensures
            r is Ok <==> ((*self.inner) is Null || *data is Null || const_ok(*self.inner, *data)),
            r matches Ok(c) ==> c.wf() && c.cells().len() == size,
            r matches Ok(c) ==> forall|i: int|
                0 <= i < size ==> c.cells()[i] == (
                if (*self.inner) is Null || *data is Null || const_null_out(*self.inner, *data) {
                    DataValue::Null
                } else {
                    *data
                }),
            (*self.inner) is Null ==> (r matches Ok(c) && c matches Column::Null(nc)
                && nc.length == size),
            !((*self.inner) is Null) && *data is Null ==> (r matches Ok(c)
                && c matches Column::Nullable(nc) && nc.validity@.len() == size
                && (forall|i: int| 0 <= i < size ==> !nc.validity@[i])),
            !((*self.inner) is Null) && !(*data is Null) && r is Ok ==> (r matches Ok(c)
                && c matches Column::Nullable(nc) && nc.validity@.len() == size
                && (forall|i: int| 0 <= i < size ==> nc.validity@[i])),
            r matches Err(e) ==> e is BadDataValueType,
        decreases *self,
    {
        if self.inner.data_type_id() == TypeID::Null {
            return Ok(Column::Null(NullColumn::new(size)));
        }
        let validity: Vec<bool>;
        let payload: DataValue;
        if data.is_null() {
            validity = repeat_bool(false, size);
            payload = self.inner.default_value();
        } else {
            validity = repeat_bool(true, size);
            payload = data.clone();
        }
        let column = match (*self.inner).create_constant_column(&payload, size) {
            Ok(c) => c,
            Err(e) => {
                proof {
                    if *data is Null {
                        lemma_default_fits(*self.inner, payload);
                        lemma_fits_const_ok(*self.inner, payload);
                    }
                }
                return Err(e);
            },
        };
        let r = Column::Nullable(NullableColumn { inner: Box::new(column), validity });
        proof {
            if *data is Null {
                lemma_default_fits(*self.inner, payload);
                lemma_fits_const_ok(*self.inner, payload);
            }
        }
        Ok(r)
    }

    /// Builds a column from one scalar per row: each absent value
    /// contributes a cleared validity bit and the inner default as the
    /// physical payload, each present value a set bit and the value
    /// itself; the inner type then builds the physical column from the
    /// staged values. Errors of the inner construction propagate
    /// unchanged.
    pub fn create_column(&self, data: &Vec<DataValue>) -> (r: Result<Column, ErrorCode>)
        ensures
            r is Ok <==> (forall|i: int|
                0 <= i < data@.len() ==> (data@[i] is Null || value_fits(data@[i], *self.inner))),
            r matches Ok(c) ==> c.wf() && c.cells() == data@,
            r matches Ok(c) ==> c matches Column::Nullable(nc)
                && nc.validity@.len() == data@.len()
                && (forall|i: int|
                    0 <= i < data@.len() ==> nc.validity@[i] == !(data@[i] is Null))
                && (*nc.inner).cells().len() == data@.len()
                && (forall|i: int|
                    0 <= i < data@.len() && data@[i] is Null
                        ==> (*self.inner).is_default_of((*nc.inner).cells()[i]))
                && (forall|i: int|
                    0 <= i < data@.len() && !(data@[i] is Null)
                        ==> (*nc.inner).cells()[i] == data@[i]),
            r matches Err(e) ==> e is BadDataValueType,
        decreases *self,
    {
        let n = data.len();
        let mut staged: Vec<DataValue> = Vec::new();
        let mut validity: Vec<bool> = Vec::new();
        let mut i: usize = 0;
        while i < n
            invariant
                i <= n,
                n == data@.len(),
                staged@.len() == i,
                validity@.len() == i,
                forall|j: int| 0 <= j < i ==> validity@[j] == !(data@[j] is Null),
                forall|j: int|
                    0 <= j < i && data@[j] is Null ==> (*self.inner).is_default_of(staged@[j]),
                forall|j: int|
                    0 <= j < i && !(data@[j] is Null) ==> staged@[j] == data@[j],
            decreases n - i,
        {
            if data[i].is_null() {
                validity.push(false);
                staged.push(self.inner.default_value());
            } else {
                validity.push(true);
                staged.push(data[i].clone());
            }
            i = i + 1;
        }
        proof {
            assert forall|j: int| 0 <= j < data@.len() implies (value_fits(staged@[j], *self.inner)
                <==> (data@[j] is Null || value_fits(data@[j], *self.inner))) by {
                if data@[j] is Null {
                    lemma_default_fits(*self.inner, staged@[j]);
                }
            }
        }
        let column = match (*self.inner).create_column(&staged) {
            Ok(c) => c,
            Err(e) => {
                return Err(e);
            },
        };
        let r = Column::Nullable(NullableColumn { inner: Box::new(column), validity });
        proof {
            assert(r.cells() =~= data@);
        }
        Ok(r)
    }
}

/// On a type that is not a nullable wrapper, a legal cell makes the
/// constant construction succeed.
pub proof fn lemma_fits_const_ok(t: DataType, v: DataValue)
    requires
        value_fits(v, t),
    ensures
        const_ok(t, v),
    decreases t,
{
    match t {
        DataType::Nullable(nt) => {
            if !(v is Null) && !((*nt.inner) is Null) {
                lemma_fits_const_ok(*nt.inner, v);
            }
        },
        _ => {},
    }
}

impl DataType {
    /// Builds a column of `size` copies of `data`, dispatching to the
    /// nullable wrapper where the type is one; on a physical type the
    /// value must fit and the result is a compact repeated-value column
    /// (an all-null column for the `Null` type).
    pub fn create_constant_column(&self, data: &DataValue, size: usize) -> (r: Result<
        Column,
        ErrorCode,
    >)
        ensures
            r is Ok <==> const_ok(*self, *data),
            r matches Ok(c) ==> c.wf() && c.cells().len() == size,
            r matches Ok(c) ==> forall|i: int|
                0 <= i < size ==> c.cells()[i] == (
                if const_null_out(*self, *data) {
                    DataValue::Null
                } else {
                    *data
                }),
            r matches Err(e) ==> e is BadDataValueType,
        decreases *self,
    {
        match self {
            DataType::Nullable(nt) => nt.create_constant_column(data, size),
            DataType::Null => {
                if data.is_null() {
                    let r = Column::Null(NullColumn::new(size));
                    Ok(r)
                } else {
                    Err(ErrorCode::BadDataValueType(value_type_message()))
                }
            },
            _ => {
                if fits_value(data, self) {
                    Ok(Column::Constant(ConstantColumn { value: data.clone(), length: size }))
                } else {
                    Err(ErrorCode::BadDataValueType(value_type_message()))
                }
            },
        }
    }

    /// Builds a column from one scalar per row; every value must be a
    /// legal cell of the type. The `Null` type yields the payload-free
    /// all-null column; a nullable wrapper stages defaults under cleared
    /// validity bits; any other type stores the values as given.
    pub fn create_column(&self, data: &Vec<DataValue>) -> (r: Result<Column, ErrorCode>)
        ensures
            r is Ok <==> (forall|i: int| 0 <= i < data@.len() ==> value_fits(data@[i], *self)),
            r matches Ok(c) ==> c.wf() && c.cells() == data@,
            r matches Err(e) ==> e is BadDataValueType,
        decreases *self,
    {
        if let DataType::Nullable(nt) = self {
            return nt.create_column(data);
        }
        let n = data.len();
        let mut i: usize = 0;
        while i < n
            invariant
                i <= n,
                n == data@.len(),
                !(self is Nullable),
                forall|j: int| 0 <= j < i ==> value_fits(data@[j], *self),
            decreases n - i,
        {
            if !fits_value(&data[i], self) {
                return Err(ErrorCode::BadDataValueType(value_type_message()));
            }
            i = i + 1;
        }
        match self {
            DataType::Null => {
                let r = Column::Null(NullColumn::new(n));
                proof {
                    assert(r.cells() =~= data@);
                }
                Ok(r)
            },
            _ => {
                let r = Column::Array(ValueColumn {
                    data_type: self.clone(),
                    values: clone_value_range(data, 0, n),
                });
                proof {
                    assert(r.cells() =~= data@);
                }
                Ok(r)
            },
        }
    }
}

/// Message of the error raised when a scalar is no legal cell of the
/// requested type.
fn value_type_message() -> (r: String) {
    String::from_str("value does not fit the data type")
}

impl Clone for DataType {
    fn clone(&self) -> (r: Self)
        ensures
            r == *self,
        decreases *self,
    {
        match self {
            DataType::Null => DataType::Null,
            DataType::Boolean => DataType::Boolean,
            DataType::Int64 => DataType::Int64,
            DataType::UInt64 => DataType::UInt64,
            DataType::Utf8 => DataType::Utf8,
            DataType::Nullable(nt) => DataType::Nullable(
                NullableType { inner: Box::new((*nt.inner).clone()) },
            ),
        }
    }
}

impl Clone for NullableType {
    fn clone(&self) -> (r: Self)
        ensures
            r == *self,
    {
        NullableType { inner: Box::new((*self.inner).clone()) }
    }
}

} // verus!
