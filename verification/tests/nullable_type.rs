use columnar::column::Column;
use columnar::error::ErrorCode;
use columnar::types::{DataType, NullableType, TypeID};
use columnar::value::DataValue;

#[test]
fn nullable_type_create_and_inner() {
    let t = NullableType::create(DataType::Int64);
    assert!(matches!(t.inner_type(), DataType::Int64));
    assert_eq!(t.data_type_id(), TypeID::Nullable);
    assert!(t.is_nullable());
    assert!(matches!(t.default_value(), DataValue::Null));
}

#[test]
fn data_type_ids_and_defaults() {
    assert_eq!(DataType::Null.data_type_id(), TypeID::Null);
    assert_eq!(DataType::Boolean.data_type_id(), TypeID::Boolean);
    assert_eq!(DataType::Int64.data_type_id(), TypeID::Int64);
    assert_eq!(DataType::UInt64.data_type_id(), TypeID::UInt64);
    assert_eq!(DataType::Utf8.data_type_id(), TypeID::Utf8);
    assert!(!DataType::Int64.is_nullable());
    assert!(DataType::Null.is_nullable());
    assert_eq!(DataType::Int64.default_value(), DataValue::Int64(0));
    assert_eq!(DataType::Utf8.default_value(), DataValue::Utf8(String::new()));
}

#[test]
fn constant_column_over_null_inner_collapses() {
    let t = NullableType::create(DataType::Null);
    let c = t.create_constant_column(&DataValue::Null, 5).unwrap();
    assert!(matches!(c, Column::Null(_)));
    assert_eq!(c.len(), 5);
    assert!(c.only_null());
}

#[test]
fn constant_column_non_null_value() {
    let t = NullableType::create(DataType::Int64);
    let c = t.create_constant_column(&DataValue::Int64(7), 3).unwrap();
    assert_eq!(c.len(), 3);
    match &c {
        Column::Nullable(nc) => {
            assert_eq!(nc.validity, vec![true, true, true]);
        },
        other => panic!("expected a bitmap-bearing column, got {:?}", other),
    }
    for i in 0..3 {
        assert_eq!(c.get_unchecked(i), DataValue::Int64(7));
    }
}

#[test]
fn constant_column_null_value_over_non_null_inner() {
    let t = NullableType::create(DataType::Int64);
    let c = t.create_constant_column(&DataValue::Null, 4).unwrap();
    assert_eq!(c.len(), 4);
    match &c {
        Column::Nullable(nc) => {
            assert_eq!(nc.validity, vec![false, false, false, false]);
        },
        other => panic!("expected a bitmap-bearing column, got {:?}", other),
    }
    assert!(c.only_null());
}

#[test]
fn constant_column_type_mismatch_is_rejected() {
    let t = NullableType::create(DataType::Int64);
    let r = t.create_constant_column(&DataValue::Utf8("x".to_string()), 2);
    assert!(matches!(r, Err(ErrorCode::BadDataValueType(_))));
}

#[test]
fn create_column_interleaves_defaults_and_values() {
    let t = NullableType::create(DataType::Int64);
    let data = vec![DataValue::Null, DataValue::Int64(7), DataValue::Null];
    let c = t.create_column(&data).unwrap();
    assert_eq!(c.len(), 3);
    match &c {
        Column::Nullable(nc) => {
            assert_eq!(nc.validity, vec![false, true, false]);
            // The staged physical payload substitutes the inner default
            // under every cleared bit.
            assert_eq!(nc.inner.get_unchecked(0), DataValue::Int64(0));
            assert_eq!(nc.inner.get_unchecked(1), DataValue::Int64(7));
            assert_eq!(nc.inner.get_unchecked(2), DataValue::Int64(0));
        },
        other => panic!("expected a bitmap-bearing column, got {:?}", other),
    }
    assert_eq!(c.get_unchecked(0), DataValue::Null);
    assert_eq!(c.get_unchecked(1), DataValue::Int64(7));
    assert_eq!(c.get_unchecked(2), DataValue::Null);
}

#[test]
fn create_column_type_mismatch_is_rejected() {
    let t = NullableType::create(DataType::Int64);
    let data = vec![DataValue::Int64(1), DataValue::Boolean(true)];
    let r = t.create_column(&data);
    assert!(matches!(r, Err(ErrorCode::BadDataValueType(_))));
}

#[test]
fn base_type_create_column() {
    let c = DataType::Int64
        .create_column(&vec![DataValue::Int64(5), DataValue::Int64(6)])
        .unwrap();
    assert_eq!(c.len(), 2);
    assert_eq!(c.get_unchecked(0), DataValue::Int64(5));
    assert_eq!(c.get_unchecked(1), DataValue::Int64(6));
    let r = DataType::Int64.create_column(&vec![DataValue::Null]);
    assert!(matches!(r, Err(ErrorCode::BadDataValueType(_))));
    let n = DataType::Null.create_column(&vec![DataValue::Null, DataValue::Null]).unwrap();
    assert!(matches!(n, Column::Null(_)));
    assert_eq!(n.len(), 2);
}

#[test]
fn error_message_is_kept() {
    let e = ErrorCode::BadDataValueType("value does not fit the data type".to_string());
    assert_eq!(e.message().as_str(), "value does not fit the data type");
}
