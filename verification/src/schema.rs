//! Named fields, schemas, and batches of equal-length named columns.

use vstd::prelude::*;
use crate::column::Column;
use crate::error::ErrorCode;
use crate::types::DataType;
use crate::value::DataValue;

verus! {

/// One attribute of a schema: its name, declared type and nullability.
#[derive(Debug)]
pub struct DataField {
    pub name: String,
    pub data_type: DataType,
    pub nullable: bool,
}

impl DataField {
    pub fn new(name: String, data_type: DataType, nullable: bool) -> (r: Self)
        ensures
            r.name == name,
            r.data_type == data_type,
            r.nullable == nullable,
    {
        DataField { name, data_type, nullable }
    }

    pub fn name(&self) -> (r: &String)
        ensures
            r == &self.name,
    {
        &self.name
    }
}

impl Clone for DataField {
    fn clone(&self) -> (r: Self)
        ensures
            r == *self,
    {
        DataField {
            name: self.name.clone(),
            data_type: self.data_type.clone(),
            nullable: self.nullable,
        }
    }
}

/// An ordered list of uniquely named fields.
#[derive(Debug)]
pub struct DataSchema {
    pub fields: Vec<DataField>,
}

impl DataSchema {
    /// The field names, in order.
    pub open spec fn names(&self) -> Seq<Seq<char>> {
        self.fields@.map(|i: int, f: DataField| f.name@)
    }

    /// Whether some field bears `name`.
    pub open spec fn contains_name(&self, name: Seq<char>) -> bool {
        exists|i: int| 0 <= i < self.fields@.len() && self.fields@[i].name@ == name
    }

    /// Field names are pairwise distinct.
    pub open spec fn wf(&self) -> bool {
        forall|i: int, j: int|
            0 <= i < j < self.fields@.len() ==> self.fields@[i].name@ != self.fields@[j].name@
    }

    pub fn new(fields: Vec<DataField>) -> (r: Self)
        ensures
            r.fields == fields,
    {
        DataSchema { fields }
    }

    pub fn fields(&self) -> (r: &Vec<DataField>)
        ensures
            r == &self.fields,
    {
        &self.fields
    }

    /// The field bearing `name`, if any.
    pub fn field_with_name(&self, name: &String) -> (r: Result<&DataField, ErrorCode>)
        ensures
            r is Ok <==> self.contains_name(name@),
            r matches Ok(f) ==> exists|i: int|
                0 <= i < self.fields@.len() && self.fields@[i].name@ == name@
                    && *f == self.fields@[i],
            r matches Err(e) ==> e is LogicalError,
    {
        let n = self.fields.len();
        let mut i: usize = 0;
        while i < n
            invariant
                i <= n,
                n == self.fields@.len(),
                forall|j: int| 0 <= j < i ==> self.fields@[j].name@ != name@,
            decreases n - i,
        {
            if self.fields[i].name == *name {
                return Ok(&self.fields[i]);
            }
            i = i + 1;
        }
        Err(ErrorCode::LogicalError(missing_column_message()))
    }
}

impl Clone for DataSchema {
    fn clone(&self) -> (r: Self)
        ensures
            r.fields@ == self.fields@,
    {
        let n = self.fields.len();
        let mut fields: Vec<DataField> = Vec::new();
        let mut i: usize = 0;
        while i < n
            invariant
                i <= n,
                n == self.fields@.len(),
                fields@.len() == i,
                forall|j: int| 0 <= j < i ==> fields@[j] == self.fields@[j],
            decreases n - i,
        {
            let f = self.fields[i].clone();
            fields.push(f);
            i = i + 1;
        }
        proof {
            assert(fields@ =~= self.fields@);
        }
        DataSchema { fields }
    }
}

/// A batch: a schema together with one column per field, all columns of
/// one shared row count.
#[derive(Debug)]
pub struct DataBlock {
    pub schema: DataSchema,
    pub columns: Vec<Column>,
}

impl DataBlock {
    /// The shared row count.
    pub open spec fn spec_rows(&self) -> nat {
        if self.columns@.len() == 0 {
            0
        } else {
            self.columns@[0].cells().len()
        }
    }

    /// Well-formedness: distinct field names, one column per field, and
    /// every column of the shared row count.
    pub open spec fn wf(&self) -> bool {
        &&& self.schema.wf()
        &&& self.columns@.len() == self.schema.fields@.len()
        &&& forall|i: int|
            0 <= i < self.columns@.len() ==> (#[trigger] self.columns@[i]).wf()
        &&& forall|i: int|
            0 <= i < self.columns@.len()
                ==> (#[trigger] self.columns@[i]).cells().len() == self.spec_rows()
    }

    /// Pairs `schema` with its columns. All columns of one block share one
    /// row count, and each belongs to the like-positioned field.
    pub fn create(schema: DataSchema, columns: Vec<Column>) -> (r: Self)
        requires
            schema.wf(),
            columns@.len() == schema.fields@.len(),
            forall|i: int| 0 <= i < columns@.len() ==> (#[trigger] columns@[i]).wf(),
            forall|i: int, j: int|
                0 <= i < columns@.len() && 0 <= j < columns@.len()
                    ==> columns@[i].cells().len() == columns@[j].cells().len(),
        ensures
            r.schema == schema,
            r.columns == columns,
            r.wf(),
    {
        DataBlock { schema, columns }
    }

    /// The cells of the column standing under the field named `name`;
    /// meaningful when the block is well formed and some field bears the
    /// name.
    pub open spec fn column_cells_of(&self, name: Seq<char>) -> Seq<DataValue> {
        let i = choose|i: int|
            0 <= i < self.schema.fields@.len() && self.schema.fields@[i].name@ == name;
        self.columns@[i].cells()
    }

    /// In a well-formed block, field names are unique, so the cells under
    /// field `i`'s name are field `i`'s column's cells.
    pub proof fn lemma_column_cells_of(&self, i: int)
        requires
            self.wf(),
            0 <= i < self.schema.fields@.len(),
        ensures
            self.column_cells_of(self.schema.fields@[i].name@) == self.columns@[i].cells(),
    {
        let name = self.schema.fields@[i].name@;
        assert(0 <= i < self.schema.fields@.len() && self.schema.fields@[i].name@ == name);
        let j = choose|j: int|
            0 <= j < self.schema.fields@.len() && self.schema.fields@[j].name@ == name;
        if i != j {
            assert(self.schema.fields@[i].name@ != self.schema.fields@[j].name@);
        }
    }

    pub fn schema(&self) -> (r: &DataSchema)
        ensures
            r == &self.schema,
    {
        &self.schema
    }

    pub fn num_rows(&self) -> (r: usize)
        ensures
            r == self.spec_rows(),
    {
        if self.columns.len() == 0 {
            0
        } else {
            self.columns[0].len()
        }
    }

    /// The column under the field bearing `name`, if any.
    pub fn try_column_by_name(&self, name: &String) -> (r: Result<&Column, ErrorCode>)
        requires
            self.wf(),
        ensures
            r is Ok <==> self.schema.contains_name(name@),
            r matches Ok(c) ==> exists|i: int|
                0 <= i < self.schema.fields@.len() && self.schema.fields@[i].name@ == name@
                    && *c == self.columns@[i],
            r matches Err(e) ==> e is LogicalError,
    {
        let n = self.schema.fields.len();
        let mut i: usize = 0;
        while i < n
            invariant
                self.wf(),
                i <= n,
                n == self.schema.fields@.len(),
                forall|j: int| 0 <= j < i ==> self.schema.fields@[j].name@ != name@,
            decreases n - i,
        {
            if self.schema.fields[i].name == *name {
                return Ok(&self.columns[i]);
            }
            i = i + 1;
        }
        Err(ErrorCode::LogicalError(missing_column_message()))
    }
}

/// A column paired with the schema field it belongs to.
#[derive(Debug)]
pub struct DataColumnWithField {
    pub column: Column,
    pub field: DataField,
}

impl DataColumnWithField {
    pub fn new(column: Column, field: DataField) -> (r: Self)
        ensures
            r.column == column,
            r.field == field,
    {
        DataColumnWithField { column, field }
    }

    pub fn column(&self) -> (r: &Column)
        ensures
            r == &self.column,
    {
        &self.column
    }

    pub fn field(&self) -> (r: &DataField)
        ensures
            r == &self.field,
    {
        &self.field
    }
}

impl Clone for DataColumnWithField {
    fn clone(&self) -> (r: Self)
        ensures
            r.column.cells() == self.column.cells(),
            r.column.wf() == self.column.wf(),
            r.column.spec_data_type() == self.column.spec_data_type(),
            r.field == self.field,
    {
        DataColumnWithField { column: self.column.clone(), field: self.field.clone() }
    }
}

/// Message of the internal-consistency error raised when a name resolves
/// to no column.
fn missing_column_message() -> (r: String) {
    String::from_str("column with the requested name does not exist")
}

} // verus!
