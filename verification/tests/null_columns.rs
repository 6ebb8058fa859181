use columnar::column::{Column, ConstantColumn, NullableColumn, ValueColumn};
use columnar::null_column::{MutableNullColumn, NullColumn};
use columnar::types::DataType;
use columnar::value::DataValue;

#[test]
fn null_column_len_and_null_at() {
    for n in [0usize, 1, 4, 17] {
        let c = NullColumn::new(n);
        assert_eq!(c.len(), n);
        for i in 0..n {
            assert!(c.null_at(i));
        }
        assert!(c.only_null());
        assert!(c.is_nullable());
    }
}

#[test]
fn null_column_validity_and_memory() {
    let c = NullColumn::new(9);
    let (has_nullability, bitmap) = c.validity();
    assert!(has_nullability);
    assert!(bitmap.is_none());
    assert_eq!(c.memory_size(), core::mem::size_of::<usize>());
    assert!(matches!(c.data_type(), DataType::Null));
    assert!(matches!(c.get_unchecked(3), DataValue::Null));
}

#[test]
fn null_column_slice_len() {
    let c = NullColumn::new(10);
    assert_eq!(c.slice(2, 5).len(), 5);
    assert_eq!(c.slice(0, 0).len(), 0);
    assert_eq!(c.slice(9, 1).len(), 1);
}

#[test]
fn null_column_replicate() {
    let c = NullColumn::new(4);
    let r = c.replicate(&vec![2, 5, 5, 9]);
    assert_eq!(r.len(), 9);
    for i in 0..9 {
        assert!(r.null_at(i));
    }
}

#[test]
fn null_column_replicate_as_column() {
    let c = Column::Null(NullColumn::new(4));
    let r = c.replicate(&vec![2, 5, 5, 9]);
    assert_eq!(r.len(), 9);
    assert!(r.only_null());
}

#[test]
fn null_column_convert_full_is_identity() {
    let c = NullColumn::new(6);
    let full = c.convert_full_column();
    assert_eq!(full.len(), 6);
    assert!(full.only_null());
}

#[test]
fn mutable_null_column_builder() {
    let mut b = MutableNullColumn::default();
    let k = 3usize;
    let m = 2usize;
    for _ in 0..k {
        assert!(b.append_null());
    }
    for _ in 0..m {
        b.append_default();
    }
    b.shrink_to_fit();
    assert!(b.validity().is_none());
    let col = b.finish();
    assert_eq!(col.len(), k + m);
    assert!(col.only_null());
    // The builder is reset and reusable.
    assert_eq!(b.finish().len(), 0);
    b.append_default();
    assert_eq!(b.finish().len(), 1);
}

#[test]
fn mutable_null_column_as_column() {
    let mut b = MutableNullColumn::default();
    b.append_default();
    b.append_default();
    let col = b.as_column();
    assert_eq!(col.len(), 2);
    assert!(col.only_null());
    assert_eq!(b.as_column().len(), 0);
}

#[test]
fn array_column_capability() {
    let c = Column::Array(ValueColumn {
        data_type: DataType::Int64,
        values: vec![
            DataValue::Int64(1),
            DataValue::Int64(2),
            DataValue::Int64(3),
            DataValue::Int64(4),
        ],
    });
    assert_eq!(c.len(), 4);
    assert!(!c.null_at(0));
    assert!(!c.only_null());
    let s = c.slice(1, 2);
    assert_eq!(s.len(), 2);
    assert_eq!(s.get_unchecked(0), DataValue::Int64(2));
    assert_eq!(s.get_unchecked(1), DataValue::Int64(3));
}

#[test]
fn array_column_replicate_values() {
    let c = Column::Array(ValueColumn {
        data_type: DataType::Int64,
        values: vec![DataValue::Int64(10), DataValue::Int64(20)],
    });
    let r = c.replicate(&vec![2, 3]);
    assert_eq!(r.len(), 3);
    assert_eq!(r.get_unchecked(0), DataValue::Int64(10));
    assert_eq!(r.get_unchecked(1), DataValue::Int64(10));
    assert_eq!(r.get_unchecked(2), DataValue::Int64(20));
}

#[test]
fn constant_column_materializes() {
    let c = Column::Constant(ConstantColumn { value: DataValue::Int64(7), length: 3 });
    assert_eq!(c.len(), 3);
    let full = c.convert_full_column();
    assert!(matches!(full, Column::Array(_)));
    for i in 0..3 {
        assert_eq!(full.get_unchecked(i), DataValue::Int64(7));
    }
}

#[test]
fn column_types_and_flags() {
    let null_col = Column::Null(NullColumn::new(3));
    assert!(null_col.is_nullable());
    assert!(matches!(null_col.data_type(), DataType::Null));
    assert_eq!(null_col.memory_size(), core::mem::size_of::<usize>());

    let c = Column::Constant(ConstantColumn { value: DataValue::Null, length: 2 });
    assert!(c.only_null());
    assert!(matches!(c.data_type(), DataType::Null));

    let a = Column::Array(ValueColumn {
        data_type: DataType::UInt64,
        values: vec![DataValue::UInt64(1)],
    });
    assert!(!a.is_nullable());
    assert!(matches!(a.data_type(), DataType::UInt64));
    assert_eq!(a.memory_size(), 1);
}

#[test]
fn nullable_column_masks_inner() {
    let inner = Column::Array(ValueColumn {
        data_type: DataType::Int64,
        values: vec![DataValue::Int64(1), DataValue::Int64(2), DataValue::Int64(3)],
    });
    let c = Column::Nullable(NullableColumn {
        inner: Box::new(inner),
        validity: vec![true, false, true],
    });
    assert_eq!(c.len(), 3);
    assert!(!c.null_at(0));
    assert!(c.null_at(1));
    assert!(!c.null_at(2));
    assert_eq!(c.get_unchecked(1), DataValue::Null);
    assert_eq!(c.get_unchecked(2), DataValue::Int64(3));
    assert_eq!(c.get_validity(), vec![true, false, true]);
    let (has_nullability, bitmap) = c.validity();
    assert!(has_nullability);
    assert_eq!(bitmap.unwrap(), &vec![true, false, true]);
}
