use columnar::chain::{
    ActionAlias, ActionConstant, ActionFunction, ActionInput, ExpressionAction, ExpressionChain,
    Function,
};
use columnar::column::{Column, NullableColumn, ValueColumn};
use columnar::error::ErrorCode;
use columnar::executor::ExpressionExecutor;
use columnar::null_column::NullColumn;
use columnar::router::{Config, Router};
use columnar::schema::{DataBlock, DataColumnWithField, DataField, DataSchema};
use columnar::types::DataType;
use columnar::value::DataValue;

/// Adds one to every row of its single integer argument; not nullable.
struct AddOne;

impl Function for AddOne {
    fn eval(&self, columns: &Vec<DataColumnWithField>, rows: usize) -> Result<Column, ErrorCode> {
        let col = &columns[0].column;
        let mut values = Vec::new();
        for i in 0..rows {
            match col.get_unchecked(i) {
                DataValue::Int64(v) => values.push(DataValue::Int64(v + 1)),
                _ => values.push(DataValue::Null),
            }
        }
        Ok(Column::Array(ValueColumn { data_type: DataType::Int64, values }))
    }

    fn passthrough_null(&self) -> bool {
        false
    }
}

/// Passes null through; its raw output claims full validity whatever the
/// input was.
struct ClaimsFullValidity;

impl Function for ClaimsFullValidity {
    fn eval(&self, _columns: &Vec<DataColumnWithField>, _rows: usize) -> Result<Column, ErrorCode> {
        Ok(Column::Array(ValueColumn {
            data_type: DataType::Int64,
            values: vec![DataValue::Int64(10), DataValue::Int64(20), DataValue::Int64(30)],
        }))
    }

    fn passthrough_null(&self) -> bool {
        true
    }
}

/// Passes null through and must never be invoked.
struct MustNotRun;

impl Function for MustNotRun {
    fn eval(&self, _columns: &Vec<DataColumnWithField>, _rows: usize) -> Result<Column, ErrorCode> {
        panic!("the evaluator must not run on an entirely null argument");
    }

    fn passthrough_null(&self) -> bool {
        true
    }
}

/// Hands back a column of the wrong row count.
struct WrongRowCount;

impl Function for WrongRowCount {
    fn eval(&self, _columns: &Vec<DataColumnWithField>, _rows: usize) -> Result<Column, ErrorCode> {
        Ok(Column::Array(ValueColumn { data_type: DataType::Int64, values: vec![] }))
    }

    fn passthrough_null(&self) -> bool {
        false
    }
}

fn int_field(name: &str) -> DataField {
    DataField::new(name.to_string(), DataType::Int64, false)
}

fn int_column(values: &[i64]) -> Column {
    Column::Array(ValueColumn {
        data_type: DataType::Int64,
        values: values.iter().map(|v| DataValue::Int64(*v)).collect(),
    })
}

fn one_column_block(name: &str, column: Column) -> DataBlock {
    let schema = DataSchema::new(vec![int_field(name)]);
    DataBlock::create(schema, vec![column])
}

fn function_action<F>(name: &str, arg: &str, is_nullable: bool, func: F) -> ExpressionAction<F> {
    ExpressionAction::Function(ActionFunction {
        name: name.to_string(),
        arg_names: vec![arg.to_string()],
        is_nullable,
        return_type: DataType::Int64,
        func,
    })
}

#[test]
fn executes_function_chain() {
    let chain = ExpressionChain {
        actions: vec![
            ExpressionAction::Input(ActionInput { name: "a".to_string() }),
            function_action("a_plus_1", "a", false, AddOne),
        ],
    };
    let executor = ExpressionExecutor::try_create(
        "projection",
        DataSchema::new(vec![int_field("a")]),
        DataSchema::new(vec![int_field("a_plus_1")]),
        chain,
        false,
    )
    .unwrap();
    executor.validate().unwrap();
    let block = one_column_block("a", int_column(&[1, 2, 3]));
    let out = executor.execute(&block).unwrap();
    assert_eq!(out.num_rows(), 3);
    assert_eq!(out.schema().fields().len(), 1);
    assert_eq!(out.schema().fields()[0].name().as_str(), "a_plus_1");
    assert_eq!(out.columns[0].get_unchecked(0), DataValue::Int64(2));
    assert_eq!(out.columns[0].get_unchecked(1), DataValue::Int64(3));
    assert_eq!(out.columns[0].get_unchecked(2), DataValue::Int64(4));
}

#[test]
fn masks_result_with_argument_validity() {
    let chain = ExpressionChain {
        actions: vec![
            ExpressionAction::Input(ActionInput { name: "a".to_string() }),
            function_action("m", "a", true, ClaimsFullValidity),
        ],
    };
    let executor = ExpressionExecutor::try_create(
        "masking",
        DataSchema::new(vec![int_field("a")]),
        DataSchema::new(vec![int_field("m")]),
        chain,
        false,
    )
    .unwrap();
    let arg = Column::Nullable(NullableColumn {
        inner: Box::new(int_column(&[1, 2, 3])),
        validity: vec![true, false, true],
    });
    let out = executor.execute(&one_column_block("a", arg)).unwrap();
    let col = &out.columns[0];
    assert_eq!(col.get_validity(), vec![true, false, true]);
    assert_eq!(col.get_unchecked(0), DataValue::Int64(10));
    assert_eq!(col.get_unchecked(1), DataValue::Null);
    assert_eq!(col.get_unchecked(2), DataValue::Int64(30));
}

#[test]
fn entirely_null_argument_short_circuits() {
    let chain = ExpressionChain {
        actions: vec![
            ExpressionAction::Input(ActionInput { name: "a".to_string() }),
            function_action("m", "a", true, MustNotRun),
        ],
    };
    let executor = ExpressionExecutor::try_create(
        "short-circuit",
        DataSchema::new(vec![int_field("a")]),
        DataSchema::new(vec![int_field("m")]),
        chain,
        false,
    )
    .unwrap();
    let block = one_column_block("a", Column::Null(NullColumn::new(3)));
    let out = executor.execute(&block).unwrap();
    assert_eq!(out.num_rows(), 3);
    assert!(out.columns[0].only_null());
}

#[test]
fn alias_fans_one_column_out() {
    let chain: ExpressionChain<AddOne> = ExpressionChain {
        actions: vec![
            ExpressionAction::Input(ActionInput { name: "x".to_string() }),
            ExpressionAction::Alias(ActionAlias {
                name: "y".to_string(),
                arg_name: "x".to_string(),
            }),
            ExpressionAction::Alias(ActionAlias {
                name: "z".to_string(),
                arg_name: "x".to_string(),
            }),
        ],
    };
    let executor = ExpressionExecutor::try_create(
        "fan-out",
        DataSchema::new(vec![int_field("x")]),
        DataSchema::new(vec![int_field("y"), int_field("z")]),
        chain,
        true,
    )
    .unwrap();
    let out = executor.execute(&one_column_block("x", int_column(&[4, 5]))).unwrap();
    assert_eq!(out.columns.len(), 2);
    for col in &out.columns {
        assert_eq!(col.get_unchecked(0), DataValue::Int64(4));
        assert_eq!(col.get_unchecked(1), DataValue::Int64(5));
    }
}

#[test]
fn duplicate_alias_target_fails() {
    let chain: ExpressionChain<AddOne> = ExpressionChain {
        actions: vec![
            ExpressionAction::Input(ActionInput { name: "x1".to_string() }),
            ExpressionAction::Input(ActionInput { name: "x2".to_string() }),
            ExpressionAction::Alias(ActionAlias {
                name: "y".to_string(),
                arg_name: "x1".to_string(),
            }),
            ExpressionAction::Alias(ActionAlias {
                name: "y".to_string(),
                arg_name: "x2".to_string(),
            }),
        ],
    };
    let input_schema = DataSchema::new(vec![int_field("x1"), int_field("x2")]);
    let executor = ExpressionExecutor::try_create(
        "duplicate",
        input_schema.clone(),
        DataSchema::new(vec![int_field("y")]),
        chain,
        true,
    )
    .unwrap();
    let block = DataBlock::create(input_schema, vec![int_column(&[1]), int_column(&[2])]);
    let r = executor.execute(&block);
    assert!(matches!(r, Err(ErrorCode::UnImplement(_))));
}

#[test]
fn missing_input_column_fails() {
    let chain: ExpressionChain<AddOne> = ExpressionChain {
        actions: vec![ExpressionAction::Input(ActionInput { name: "b".to_string() })],
    };
    let executor = ExpressionExecutor::try_create(
        "missing input",
        DataSchema::new(vec![int_field("a")]),
        DataSchema::new(vec![int_field("b")]),
        chain,
        false,
    )
    .unwrap();
    let r = executor.execute(&one_column_block("a", int_column(&[1])));
    assert!(matches!(r, Err(ErrorCode::LogicalError(_))));
}

#[test]
fn missing_function_argument_fails() {
    let chain = ExpressionChain {
        actions: vec![function_action("m", "zz", false, AddOne)],
    };
    let executor = ExpressionExecutor::try_create(
        "missing argument",
        DataSchema::new(vec![int_field("a")]),
        DataSchema::new(vec![int_field("m")]),
        chain,
        false,
    )
    .unwrap();
    let r = executor.execute(&one_column_block("a", int_column(&[1])));
    assert!(matches!(r, Err(ErrorCode::LogicalError(_))));
}

#[test]
fn unresolved_projection_fails() {
    let chain: ExpressionChain<AddOne> = ExpressionChain { actions: vec![] };
    let executor = ExpressionExecutor::try_create(
        "missing projection",
        DataSchema::new(vec![int_field("a")]),
        DataSchema::new(vec![int_field("c")]),
        chain,
        false,
    )
    .unwrap();
    let r = executor.execute(&one_column_block("a", int_column(&[1])));
    assert!(matches!(r, Err(ErrorCode::LogicalError(_))));
}

#[test]
fn malformed_evaluator_result_fails() {
    let chain = ExpressionChain {
        actions: vec![
            ExpressionAction::Input(ActionInput { name: "a".to_string() }),
            function_action("m", "a", false, WrongRowCount),
        ],
    };
    let executor = ExpressionExecutor::try_create(
        "wrong row count",
        DataSchema::new(vec![int_field("a")]),
        DataSchema::new(vec![int_field("m")]),
        chain,
        false,
    )
    .unwrap();
    let r = executor.execute(&one_column_block("a", int_column(&[1, 2])));
    assert!(matches!(r, Err(ErrorCode::LogicalError(_))));
}

#[test]
fn constant_action_materializes_batch_length() {
    let chain: ExpressionChain<AddOne> = ExpressionChain {
        actions: vec![ExpressionAction::Constant(ActionConstant {
            name: "c".to_string(),
            value: DataValue::Int64(9),
            data_type: DataType::Int64,
        })],
    };
    let executor = ExpressionExecutor::try_create(
        "constant",
        DataSchema::new(vec![int_field("a")]),
        DataSchema::new(vec![int_field("c")]),
        chain,
        false,
    )
    .unwrap();
    let out = executor.execute(&one_column_block("a", int_column(&[1, 2, 3]))).unwrap();
    assert_eq!(out.num_rows(), 3);
    for i in 0..3 {
        assert_eq!(out.columns[0].get_unchecked(i), DataValue::Int64(9));
    }
}

#[test]
fn projection_strips_intermediate_columns() {
    let chain = ExpressionChain {
        actions: vec![
            ExpressionAction::Input(ActionInput { name: "a".to_string() }),
            function_action("m", "a", false, AddOne),
        ],
    };
    let executor = ExpressionExecutor::try_create(
        "strip",
        DataSchema::new(vec![int_field("a")]),
        DataSchema::new(vec![int_field("m")]),
        chain,
        false,
    )
    .unwrap();
    let out = executor.execute(&one_column_block("a", int_column(&[1]))).unwrap();
    assert_eq!(out.schema().fields().len(), 1);
    assert_eq!(out.schema().fields()[0].name().as_str(), "m");
    assert_eq!(out.columns.len(), 1);
}

#[test]
fn router_create_holds_config() {
    let router = Router::create(Config { http_api_address: "127.0.0.1:8080".to_string() });
    assert_eq!(router.cfg.http_api_address.as_str(), "127.0.0.1:8080");
    assert!(router.kv.entries.is_empty());
}

#[test]
fn block_lookup_by_name() {
    let block = one_column_block("a", int_column(&[1, 2]));
    let c = block.try_column_by_name(&"a".to_string()).unwrap();
    assert_eq!(c.len(), 2);
    assert!(matches!(
        block.try_column_by_name(&"b".to_string()),
        Err(ErrorCode::LogicalError(_))
    ));
}
