//! Linearized expression chains: the atomic actions an executor runs in
//! dependency order, and the scalar-function capability they invoke.

use vstd::prelude::*;
use crate::column::Column;
use crate::error::ErrorCode;
use crate::schema::DataColumnWithField;
use crate::types::DataType;
use crate::value::DataValue;

verus! {

/// A scalar function as the executor sees it: it can be invoked on a
/// batch of argument columns, and declares whether a null input row
/// simply passes through to a null output row. Implementations live with
/// the function registry outside this crate, so nothing is promised of
/// their results here.
pub trait Function {
    /// Evaluates the function over `rows` rows of the argument columns.
    fn eval(&self, columns: &Vec<DataColumnWithField>, rows: usize) -> Result<Column, ErrorCode>;

    /// Whether the function merely passes a null input row through to the
    /// output.
    fn passthrough_null(&self) -> bool;
}

/// Reference to a column of the input batch.
pub struct ActionInput {
    pub name: String,
}

/// Invocation of a scalar function over named, already-computed argument
/// columns.
pub struct ActionFunction<F> {
    pub name: String,
    pub arg_names: Vec<String>,
    pub is_nullable: bool,
    pub return_type: DataType,
    pub func: F,
}

/// Materialization of a constant value over the batch's row count.
pub struct ActionConstant {
    pub name: String,
    pub value: DataValue,
    pub data_type: DataType,
}

/// Fan-out of an already-computed column (`arg_name`) under a further
/// name (`name`); evaluates nothing itself.
pub struct ActionAlias {
    pub name: String,
    pub arg_name: String,
}

/// One atomic step of a linearized expression tree.
pub enum ExpressionAction<F> {
    Input(ActionInput),
    Function(ActionFunction<F>),
    Constant(ActionConstant),
    Alias(ActionAlias),
}

/// An ordered, precomputed sequence of actions, flattened from an
/// expression tree by the planner and consumed here as an immutable
/// program.
pub struct ExpressionChain<F> {
    pub actions: Vec<ExpressionAction<F>>,
}

impl<F> ExpressionAction<F> {
    /// The name under which the action's result is recorded.
    pub open spec fn spec_column_name(&self) -> Seq<char> {
        match self {
            ExpressionAction::Input(a) => a.name@,
            ExpressionAction::Function(a) => a.name@,
            ExpressionAction::Constant(a) => a.name@,
            ExpressionAction::Alias(a) => a.name@,
        }
    }

    /// The name under which the action's result is recorded.
    pub fn column_name(&self) -> (r: &String)
        ensures
            r@ == self.spec_column_name(),
    {
        match self {
            ExpressionAction::Input(a) => &a.name,
            ExpressionAction::Function(a) => &a.name,
            ExpressionAction::Constant(a) => &a.name,
            ExpressionAction::Alias(a) => &a.name,
        }
    }
}

} // verus!
