//! Stateless execution of a linearized expression chain over one batch:
//! seeding a working map from the input block, running actions in
//! dependency order, null-propagation masking around scalar functions,
//! alias fan-out, and projection to the output schema.

use vstd::prelude::*;
use vstd::hash_map::StringHashMap;
use crate::chain::{ActionFunction, ExpressionAction, ExpressionChain, Function};
use crate::column::{Column, ConstantColumn, NullableColumn};
use crate::error::ErrorCode;
use crate::schema::{DataBlock, DataColumnWithField, DataField, DataSchema};
use crate::value::DataValue;

verus! {

/// The (source, target) pairs of the chain's alias actions, in chain
/// order.
pub open spec fn alias_pairs_spec<F>(actions: Seq<ExpressionAction<F>>) -> Seq<
    (Seq<char>, Seq<char>),
>
    decreases actions.len(),
{
    if actions.len() == 0 {
        Seq::empty()
    } else {
        let rest = alias_pairs_spec(actions.drop_last());
        match actions.last() {
            ExpressionAction::Alias(a) => rest.push((a.arg_name@, a.name@)),
            _ => rest,
        }
    }
}

/// Whether two alias actions of the chain assign the same target name.
pub open spec fn has_duplicate_alias_target<F>(actions: Seq<ExpressionAction<F>>) -> bool {
    exists|i: int, j: int|
        0 <= i < j < alias_pairs_spec(actions).len() && alias_pairs_spec(actions)[i].1
            == alias_pairs_spec(actions)[j].1
}

/// The names an alias action of the chain assigns to.
pub open spec fn alias_targets<F>(actions: Seq<ExpressionAction<F>>) -> Set<Seq<char>> {
    Set::new(
        |t: Seq<char>|
            exists|k: int|
                0 <= k < alias_pairs_spec(actions).len() && alias_pairs_spec(actions)[k].1 == t,
    )
}

/// The target names of the chain's non-alias actions: every name the
/// action loop may add to the working map.
pub open spec fn computed_names<F>(actions: Seq<ExpressionAction<F>>) -> Set<Seq<char>>
    decreases actions.len(),
{
    if actions.len() == 0 {
        Set::empty()
    } else {
        let rest = computed_names(actions.drop_last());
        match actions.last() {
            ExpressionAction::Alias(_) => rest,
            _ => rest.insert(actions.last().spec_column_name()),
        }
    }
}

/// The names of a schema's fields, as a set.
pub open spec fn schema_name_set(s: DataSchema) -> Set<Seq<char>> {
    Set::new(|n: Seq<char>| s.contains_name(n))
}

proof fn lemma_take_push<A>(s: Seq<A>, i: int)
    requires
        0 <= i < s.len(),
    ensures
        s.take(i + 1) == s.take(i).push(s[i]),
{
    assert(s.take(i + 1) =~= s.take(i).push(s[i]));
}

proof fn lemma_alias_pairs_push<F>(s: Seq<ExpressionAction<F>>, x: ExpressionAction<F>)
    ensures
        alias_pairs_spec(s.push(x)) == (match x {
            ExpressionAction::Alias(a) => alias_pairs_spec(s).push((a.arg_name@, a.name@)),
            _ => alias_pairs_spec(s),
        }),
{
    assert(s.push(x).drop_last() =~= s);
    assert(s.push(x).last() == x);
}

proof fn lemma_computed_push<F>(s: Seq<ExpressionAction<F>>, x: ExpressionAction<F>)
    ensures
        computed_names(s.push(x)) == (match x {
            ExpressionAction::Alias(_) => computed_names(s),
            _ => computed_names(s).insert(x.spec_column_name()),
        }),
{
    assert(s.push(x).drop_last() =~= s);
    assert(s.push(x).last() == x);
}

/// Whether a validity bitmap marks every row null.
pub open spec fn all_null_bits(v: Seq<bool>) -> bool {
    forall|t: int| 0 <= t < v.len() ==> !v[t]
}

/// Evaluation helper over a set of per-argument validities: whether some
/// argument column is entirely null.
pub fn any_all_null(validities: &Vec<Vec<bool>>) -> (r: bool)
    ensures
        r == exists|j: int| 0 <= j < validities@.len() && all_null_bits(#[trigger] validities@[j]@),
{
    let n = validities.len();
    let mut j: usize = 0;
    while j < n
        invariant
            j <= n,
            n == validities@.len(),
            forall|a: int| 0 <= a < j ==> !all_null_bits(#[trigger] validities@[a]@),
        decreases n - j,
    {
        let m = validities[j].len();
        let mut t: usize = 0;
        let mut seen_valid = false;
        while t < m
            invariant
                t <= m,
                j < n,
                n == validities@.len(),
                m == validities@[j as int]@.len(),
                seen_valid == exists|a: int| 0 <= a < t && validities@[j as int]@[a],
            decreases m - t,
        {
            if validities[j][t] {
                seen_valid = true;
            }
            t = t + 1;
        }
        if !seen_valid {
            return true;
        }
        j = j + 1;
    }
    false
}

/// Structural well-formedness of a column, decided at run time; used to
/// hold externally evaluated columns to the block invariants.
pub fn check_wf(column: &Column) -> (r: bool)
    ensures
        r == column.wf(),
    decreases *column,
{
    match column {
        Column::Nullable(c) => {
            let inner_len = (*c.inner).len();
            c.validity.len() == inner_len && check_wf(&c.inner)
        },
        _ => true,
    }
}

/// Masks a function result with its arguments' validities: a result row
/// is null if the function said so or any contributing argument was null
/// at that row.
pub fn apply_validities(column: Column, validities: &Vec<Vec<bool>>) -> (r: Column)
    requires
        column.wf(),
        forall|j: int|
            0 <= j < validities@.len() ==> (#[trigger] validities@[j])@.len()
                == column.cells().len(),
    ensures
        r.wf(),
        r.cells().len() == column.cells().len(),
        forall|i: int|
            0 <= i < column.cells().len() ==> r.cells()[i] == (
            if forall|j: int| 0 <= j < validities@.len() ==> (#[trigger] validities@[j])@[i] {
                column.cells()[i]
            } else {
                DataValue::Null
            }),
{
    let n = column.len();
    let m = validities.len();
    let mut combined: Vec<bool> = Vec::new();
    let mut i: usize = 0;
    while i < n
        invariant
            i <= n,
            n == column.cells().len(),
            m == validities@.len(),
            forall|j: int|
                0 <= j < validities@.len() ==> (#[trigger] validities@[j])@.len() == n,
            combined@.len() == i,
            forall|a: int|
                0 <= a < i ==> combined@[a] == (forall|j: int|
                    0 <= j < validities@.len() ==> (#[trigger] validities@[j])@[a]),
        decreases n - i,
    {
        let mut bit = true;
        let mut j: usize = 0;
        while j < m
            invariant
                j <= m,
                i < n,
                m == validities@.len(),
                forall|a: int|
                    0 <= a < validities@.len() ==> (#[trigger] validities@[a])@.len() == n,
                bit == (forall|a: int| 0 <= a < j ==> (#[trigger] validities@[a])@[i as int]),
            decreases m - j,
        {
            if !validities[j][i] {
                bit = false;
            }
            j = j + 1;
        }
        combined.push(bit);
        i = i + 1;
    }
    let r = Column::Nullable(NullableColumn { inner: Box::new(column), validity: combined });
    r
}

/// Executes a precomputed expression chain against input batches: seeds a
/// working map from the batch, runs the actions in dependency order with
/// null-propagation masking around scalar functions, resolves alias
/// fan-out, and projects to the output schema. Holds no mutable state
/// across calls.
pub struct ExpressionExecutor<F> {
    pub description: String,
    pub input_schema: DataSchema,
    pub output_schema: DataSchema,
    pub chain: ExpressionChain<F>,
    pub alias_project: bool,
}

impl<F: Function> ExpressionExecutor<F> {
    /// Builds an executor over an already-linearized chain.
    pub fn try_create(
        description: &str,
        input_schema: DataSchema,
        output_schema: DataSchema,
        chain: ExpressionChain<F>,
        alias_project: bool,
    ) -> (r: Result<Self, ErrorCode>)
        ensures
            r matches Ok(e) && e.description@ == description@ && e.input_schema == input_schema
                && e.output_schema == output_schema && e.chain == chain && e.alias_project
                == alias_project,
    {
        Ok(
            ExpressionExecutor {
                description: String::from_str(description),
                input_schema,
                output_schema,
                chain,
                alias_project,
            },
        )
    }

    /// Placeholder hook for chain validation; nothing is checked today.
    pub fn validate(&self) -> (r: Result<(), ErrorCode>)
        ensures
            r is Ok,
    {
        Ok(())
    }

    /// The success conditions of a run that are under the executor's own
    /// control, for a chain free of scalar-function calls (a function
    /// call succeeds or fails at the evaluator's discretion): every input
    /// reference names a column of the batch or of an earlier action,
    /// alias targets are pairwise distinct and their sources available
    /// whenever alias resolution participates, and every output field
    /// resolves to an alias target or a computed or input column.
    pub open spec fn spec_plain_success(&self, block: DataBlock) -> bool {
        &&& (forall|j: int|
            0 <= j < self.chain.actions@.len() ==> !((#[trigger] self.chain.actions@[j])
                is Function))
        &&& (forall|j: int|
            0 <= j < self.chain.actions@.len() ==> ((#[trigger] self.chain.actions@[j]) matches
                ExpressionAction::Input(a) ==> (block.schema.contains_name(a.name@)
                || computed_names(self.chain.actions@.take(j)).contains(a.name@))))
        &&& (self.alias_project ==> !has_duplicate_alias_target(self.chain.actions@))
        &&& (self.alias_project ==> (forall|p: int|
            0 <= p < alias_pairs_spec(self.chain.actions@).len() ==> (block.schema.contains_name(
                (#[trigger] alias_pairs_spec(self.chain.actions@)[p]).0,
            ) || computed_names(self.chain.actions@).contains(
                alias_pairs_spec(self.chain.actions@)[p].0,
            ))))
        &&& (forall|i: int|
            0 <= i < self.output_schema.fields@.len() ==> ((self.alias_project && alias_targets(
                self.chain.actions@,
            ).contains((#[trigger] self.output_schema.fields@[i]).name@))
                || block.schema.contains_name(self.output_schema.fields@[i].name@)
                || computed_names(self.chain.actions@).contains(
                self.output_schema.fields@[i].name@,
            )))
    }

    /// Runs the chain against `block`. On success the output block holds
    /// exactly the output schema's fields, in order, every column of the
    /// input batch's row count. Two alias actions assigning one target
    /// name make the run fail whenever alias resolution participates;
    /// success requires every input reference to name a column of the
    /// batch or of an earlier action; and a chain without scalar-function
    /// calls whose names all resolve is owed success.
    pub fn execute(&self, block: &DataBlock) -> (r: Result<DataBlock, ErrorCode>)
        requires
            block.wf(),
            self.output_schema.wf(),
        ensures
            r matches Ok(out) ==> (out.wf() && out.schema.fields@ == self.output_schema.fields@
                && out.columns@.len() == self.output_schema.fields@.len() && (forall|i: int|
                0 <= i < out.columns@.len() ==> (#[trigger] out.columns@[i]).cells().len()
                    == block.spec_rows())),
            self.alias_project && has_duplicate_alias_target(self.chain.actions@) ==> r is Err,
            r is Ok ==> forall|j: int|
                0 <= j < self.chain.actions@.len() ==> ((#[trigger] self.chain.actions@[j]) matches
                    ExpressionAction::Input(a) ==> (block.schema.contains_name(a.name@)
                    || computed_names(self.chain.actions@.take(j)).contains(a.name@))),
            r is Ok ==> forall|i: int|
                0 <= i < self.output_schema.fields@.len() ==> ((self.alias_project
                    && alias_targets(self.chain.actions@).contains(
                    self.output_schema.fields@[i].name@,
                )) || block.schema.contains_name(self.output_schema.fields@[i].name@)
                    || computed_names(self.chain.actions@).contains(
                    self.output_schema.fields@[i].name@,
                )),
            self.spec_plain_success(*block) ==> r is Ok,
            r matches Ok(out) ==> (!self.alias_project ==> forall|i: int|
                0 <= i < self.output_schema.fields@.len() ==> (block.schema.contains_name(
                    (#[trigger] self.output_schema.fields@[i]).name@,
                ) ==> out.columns@[i].cells() == block.column_cells_of(
                    self.output_schema.fields@[i].name@,
                ))),
            r matches Ok(out) ==> (self.alias_project ==> forall|i: int, q: int|
                #![trigger out.columns@[i], alias_pairs_spec(self.chain.actions@)[q]]
                0 <= i < self.output_schema.fields@.len() && 0 <= q < alias_pairs_spec(
                    self.chain.actions@,
                ).len() && alias_pairs_spec(self.chain.actions@)[q].1
                    == self.output_schema.fields@[i].name@ && block.schema.contains_name(
                    alias_pairs_spec(self.chain.actions@)[q].0,
                ) ==> out.columns@[i].cells() == block.column_cells_of(
                    alias_pairs_spec(self.chain.actions@)[q].0,
                )),
    {
        let rows = block.num_rows();
        let mut column_map: StringHashMap<DataColumnWithField> = StringHashMap::new();
        let mut alias_map: StringHashMap<DataColumnWithField> = StringHashMap::new();
        let mut alias_pairs: Vec<(String, String)> = Vec::new();

        // Seed the working map with every column of the input batch.
        let fields_n = block.schema.fields.len();
        let mut fi: usize = 0;
        while fi < fields_n
            invariant
                block.wf(),
                fi <= fields_n,
                fields_n == block.schema.fields@.len(),
                rows == block.spec_rows(),
                forall|k: Seq<char>| #[trigger]
                    column_map@.dom().contains(k) ==> (column_map@[k].column.wf()
                        && column_map@[k].column.cells().len() == rows),
                forall|k: Seq<char>|
                    column_map@.dom().contains(k) ==> block.schema.contains_name(k),
                forall|j: int|
                    0 <= j < fi ==> column_map@.dom().contains(
                        #[trigger] block.schema.fields@[j].name@,
                    ),
                forall|k: Seq<char>| #[trigger]
                    column_map@.dom().contains(k) ==> column_map@[k].column.cells()
                        == block.column_cells_of(k),
            decreases fields_n - fi,
        {
            let field = block.schema.fields[fi].clone();
            let column = block.columns[fi].clone();
            let cwf = DataColumnWithField::new(column, field);
            proof {
                block.lemma_column_cells_of(fi as int);
            }
            column_map.insert(block.schema.fields[fi].name.clone(), cwf);
            fi = fi + 1;
        }
        proof {
            assert forall|k: Seq<char>| block.schema.contains_name(k) implies
                column_map@.dom().contains(k) by {
                let i = choose|i: int|
                    0 <= i < block.schema.fields@.len() && block.schema.fields@[i].name@ == k;
                assert(column_map@.dom().contains(block.schema.fields@[i].name@));
            }
            assert(column_map@.dom() =~= schema_name_set(block.schema).union(
                computed_names(self.chain.actions@.take(0)),
            ));
        }

        // Run the actions in dependency order; an action whose target name
        // is already mapped is skipped.
        let n = self.chain.actions.len();
        let mut idx: usize = 0;
        while idx < n
            invariant
                block.wf(),
                idx <= n,
                n == self.chain.actions@.len(),
                rows == block.spec_rows(),
                forall|k: Seq<char>| #[trigger]
                    column_map@.dom().contains(k) ==> (column_map@[k].column.wf()
                        && column_map@[k].column.cells().len() == rows),
                column_map@.dom() == schema_name_set(block.schema).union(
                    computed_names(self.chain.actions@.take(idx as int)),
                ),
                forall|k: Seq<char>| #[trigger]
                    column_map@.dom().contains(k) ==> (block.schema.contains_name(k)
                        ==> column_map@[k].column.cells() == block.column_cells_of(k)),
                alias_pairs@.len() == alias_pairs_spec(
                    self.chain.actions@.take(idx as int),
                ).len(),
                forall|p: int|
                    0 <= p < alias_pairs@.len() ==> ((#[trigger] alias_pairs@[p]).0@
                        == alias_pairs_spec(self.chain.actions@.take(idx as int))[p].0
                        && alias_pairs@[p].1@ == alias_pairs_spec(
                        self.chain.actions@.take(idx as int),
                    )[p].1),
                forall|j: int|
                    0 <= j < idx ==> ((#[trigger] self.chain.actions@[j]) matches
                        ExpressionAction::Input(a)
                        ==> (block.schema.contains_name(a.name@) || computed_names(
                        self.chain.actions@.take(j),
                    ).contains(a.name@))),
            decreases n - idx,
        {
            let ghost prefix = self.chain.actions@.take(idx as int);
            let ghost action_g = self.chain.actions@[idx as int];
            proof {
                lemma_take_push(self.chain.actions@, idx as int);
                lemma_alias_pairs_push(prefix, action_g);
                lemma_computed_push(prefix, action_g);
            }
            let action = &self.chain.actions[idx];
            if let ExpressionAction::Alias(alias) = action {
                alias_pairs.push((alias.arg_name.clone(), alias.name.clone()));
            }
            let already = column_map.contains_key(action.column_name().as_str());
            if already {
                proof {
                    assert(column_map@.dom() =~= schema_name_set(block.schema).union(
                        computed_names(self.chain.actions@.take(idx as int + 1)),
                    ));
                }
                idx = idx + 1;
                continue;
            }
            match action {
                ExpressionAction::Input(input) => {
                    let column = match block.try_column_by_name(&input.name) {
                        Ok(c) => c.clone(),
                        Err(e) => {
                            return Err(e);
                        },
                    };
                    let field = match block.schema.field_with_name(&input.name) {
                        Ok(f) => f.clone(),
                        Err(e) => {
                            return Err(e);
                        },
                    };
                    let cwf = DataColumnWithField::new(column, field);
                    column_map.insert(input.name.clone(), cwf);
                },
                ExpressionAction::Function(f) => {
                    let cwf = match self.execute_function(&column_map, f, rows) {
                        Ok(c) => c,
                        Err(e) => {
                            return Err(e);
                        },
                    };
                    column_map.insert(f.name.clone(), cwf);
                },
                ExpressionAction::Constant(constant) => {
                    let column = Column::Constant(
                        ConstantColumn { value: constant.value.clone(), length: rows },
                    );
                    let nullable = constant.value.is_null();
                    let field = DataField::new(
                        constant.name.clone(),
                        constant.data_type.clone(),
                        nullable,
                    );
                    let cwf = DataColumnWithField::new(column, field);
                    column_map.insert(constant.name.clone(), cwf);
                },
                ExpressionAction::Alias(_) => {},
            }
            proof {
                assert(column_map@.dom() =~= schema_name_set(block.schema).union(
                    computed_names(self.chain.actions@.take(idx as int + 1)),
                ));
            }
            idx = idx + 1;
        }
        proof {
            assert(self.chain.actions@.take(n as int) =~= self.chain.actions@);
        }

        // Register alias fan-out: every recorded source column under every
        // target name; one target assigned twice is an error.
        let ghost pairs = alias_pairs_spec(self.chain.actions@);
        if self.alias_project {
            let pairs_n = alias_pairs.len();
            let mut p: usize = 0;
            while p < pairs_n
                invariant
                    p <= pairs_n,
                    pairs_n == alias_pairs@.len(),
                    alias_pairs@.len() == pairs.len(),
                    pairs == alias_pairs_spec(self.chain.actions@),
                    self.alias_project,
                    forall|q: int|
                        0 <= q < alias_pairs@.len() ==> ((#[trigger] alias_pairs@[q]).0@
                            == pairs[q].0 && alias_pairs@[q].1@ == pairs[q].1),
                    forall|k: Seq<char>| #[trigger]
                        column_map@.dom().contains(k) ==> (column_map@[k].column.wf()
                            && column_map@[k].column.cells().len() == rows),
                    forall|t: Seq<char>| #[trigger]
                        alias_map@.dom().contains(t) ==> (alias_map@[t].column.wf()
                            && alias_map@[t].column.cells().len() == rows),
                    forall|t: Seq<char>| #[trigger]
                        alias_map@.dom().contains(t) <==> exists|q: int|
                            0 <= q < p && pairs[q].1 == t,
                    forall|t: Seq<char>| #[trigger]
                        alias_map@.dom().contains(t) ==> exists|q: int|
                            0 <= q < p && pairs[q].1 == t && column_map@.dom().contains(
                                pairs[q].0,
                            ) && alias_map@[t].column.cells()
                                == column_map@[pairs[q].0].column.cells(),
                    forall|a: int, b: int| 0 <= a < b < p ==> pairs[a].1 != pairs[b].1,
                    column_map@.dom() == schema_name_set(block.schema).union(
                        computed_names(self.chain.actions@),
                    ),
                    forall|k: Seq<char>| #[trigger]
                        column_map@.dom().contains(k) ==> (block.schema.contains_name(k)
                            ==> column_map@[k].column.cells() == block.column_cells_of(k)),
                decreases pairs_n - p,
            {
                let source = &alias_pairs[p].0;
                let target = &alias_pairs[p].1;
                let cwf = match column_map.get(source.as_str()) {
                    Some(c) => c,
                    None => {
                        proof {
                            if self.spec_plain_success(*block) {
                                assert(block.schema.contains_name(
                                    alias_pairs_spec(self.chain.actions@)[p as int].0,
                                ) || computed_names(self.chain.actions@).contains(
                                    alias_pairs_spec(self.chain.actions@)[p as int].0,
                                ));
                                assert(source@ == pairs[p as int].0);
                                assert(column_map@.dom().contains(source@));
                                assert(false);
                            }
                        }
                        return Err(ErrorCode::LogicalError(alias_prepare_message()));
                    },
                };
                if alias_map.contains_key(target.as_str()) {
                    proof {
                        assert(alias_map@.dom().contains(target@));
                        let q = choose|q: int| 0 <= q < p && pairs[q].1 == target@;
                        assert(pairs[q].1 == target@);
                        assert(alias_pairs@[p as int].1@ == pairs[p as int].1);
                        assert(alias_pairs_spec(self.chain.actions@)[q].1 == alias_pairs_spec(
                            self.chain.actions@,
                        )[p as int].1);
                        assert(has_duplicate_alias_target(self.chain.actions@));
                    }
                    return Err(ErrorCode::UnImplement(duplicate_alias_message()));
                }
                let copied = cwf.clone();
                let ghost old_alias_dom = alias_map@.dom();
                alias_map.insert(target.clone(), copied);
                proof {
                    assert forall|t: Seq<char>| #[trigger]
                        alias_map@.dom().contains(t) implies exists|q: int|
                        0 <= q < p + 1 && pairs[q].1 == t by {
                        if t == target@ {
                            assert(pairs[p as int].1 == t);
                        }
                    }
                    assert forall|t: Seq<char>| #[trigger]
                        alias_map@.dom().contains(t) implies exists|q: int|
                        0 <= q < p + 1 && pairs[q].1 == t && column_map@.dom().contains(
                            pairs[q].0,
                        ) && alias_map@[t].column.cells()
                            == column_map@[pairs[q].0].column.cells() by {
                        if t == target@ {
                            assert(pairs[p as int].1 == t && column_map@.dom().contains(
                                pairs[p as int].0,
                            ) && alias_map@[t].column.cells()
                                == column_map@[pairs[p as int].0].column.cells());
                        } else {
                            assert(old_alias_dom.contains(t));
                        }
                    }
                }
                p = p + 1;
            }
        }

        // Project: per output field prefer the alias-resolved column, else
        // the plainly computed one; a field resolving to neither is a
        // fatal internal-consistency error.
        let out_n = self.output_schema.fields.len();
        let mut project_columns: Vec<Column> = Vec::new();
        let mut oi: usize = 0;
        while oi < out_n
            invariant
                oi <= out_n,
                out_n == self.output_schema.fields@.len(),
                project_columns@.len() == oi,
                pairs == alias_pairs_spec(self.chain.actions@),
                forall|k: Seq<char>| #[trigger]
                    column_map@.dom().contains(k) ==> (column_map@[k].column.wf()
                        && column_map@[k].column.cells().len() == rows),
                forall|t: Seq<char>| #[trigger]
                    alias_map@.dom().contains(t) ==> (alias_map@[t].column.wf()
                        && alias_map@[t].column.cells().len() == rows),
                column_map@.dom() == schema_name_set(block.schema).union(
                    computed_names(self.chain.actions@),
                ),
                forall|k: Seq<char>| #[trigger]
                    column_map@.dom().contains(k) ==> (block.schema.contains_name(k)
                        ==> column_map@[k].column.cells() == block.column_cells_of(k)),
                forall|t: Seq<char>| #[trigger]
                    alias_map@.dom().contains(t) <==> (self.alias_project && exists|q: int|
                        0 <= q < pairs.len() && pairs[q].1 == t),
                forall|t: Seq<char>| #[trigger]
                    alias_map@.dom().contains(t) ==> exists|q: int|
                        0 <= q < pairs.len() && pairs[q].1 == t && column_map@.dom().contains(
                            pairs[q].0,
                        ) && alias_map@[t].column.cells()
                            == column_map@[pairs[q].0].column.cells(),
                self.alias_project ==> (forall|a: int, b: int|
                    0 <= a < b < pairs.len() ==> pairs[a].1 != pairs[b].1),
                forall|j: int|
                    0 <= j < oi ==> ((#[trigger] project_columns@[j]).wf()
                        && project_columns@[j].cells().len() == rows),
                forall|j: int|
                    0 <= j < oi ==> ((self.alias_project && alias_targets(
                        self.chain.actions@,
                    ).contains(#[trigger] self.output_schema.fields@[j].name@))
                        || block.schema.contains_name(self.output_schema.fields@[j].name@)
                        || computed_names(self.chain.actions@).contains(
                        self.output_schema.fields@[j].name@,
                    )),
                forall|j: int|
                    0 <= j < oi ==> (!self.alias_project && block.schema.contains_name(
                        (#[trigger] self.output_schema.fields@[j]).name@,
                    ) ==> project_columns@[j].cells() == block.column_cells_of(
                        self.output_schema.fields@[j].name@,
                    )),
                forall|j: int, q: int|
                    #![trigger project_columns@[j], alias_pairs_spec(self.chain.actions@)[q]]
                    0 <= j < oi && 0 <= q < pairs.len() && self.alias_project
                        && pairs[q].1 == self.output_schema.fields@[j].name@
                        && block.schema.contains_name(pairs[q].0)
                        ==> project_columns@[j].cells() == block.column_cells_of(pairs[q].0),
            decreases out_n - oi,
        {
            let fname = &self.output_schema.fields[oi].name;
            let ghost field_name = self.output_schema.fields@[oi as int].name@;
            match alias_map.get(fname.as_str()) {
                Some(cwf) => {
                    proof {
                        let q = choose|q: int|
                            0 <= q < pairs.len() && pairs[q].1 == field_name;
                        assert(0 <= q < alias_pairs_spec(self.chain.actions@).len()
                            && alias_pairs_spec(self.chain.actions@)[q].1 == field_name);
                        assert(alias_targets(self.chain.actions@).contains(field_name));
                    }
                    let column = cwf.column.clone();
                    project_columns.push(column);
                    proof {
                        let qv = choose|qv: int|
                            0 <= qv < pairs.len() && pairs[qv].1 == field_name
                                && column_map@.dom().contains(pairs[qv].0)
                                && alias_map@[field_name].column.cells()
                                == column_map@[pairs[qv].0].column.cells();
                        assert forall|q: int|
                            0 <= q < pairs.len() && self.alias_project && pairs[q].1
                                == field_name && block.schema.contains_name(pairs[q].0)
                            implies project_columns@[oi as int].cells()
                                == block.column_cells_of(pairs[q].0) by {
                            assert(q == qv);
                            assert(column_map@[pairs[qv].0].column.cells()
                                == block.column_cells_of(pairs[qv].0));
                        }
                    }
                },
                None => {
                    match column_map.get(fname.as_str()) {
                        Some(cwf) => {
                            let column = cwf.column.clone();
                            project_columns.push(column);
                        },
                        None => {
                            proof {
                                if self.spec_plain_success(*block) {
                                    if self.alias_project && alias_targets(
                                        self.chain.actions@,
                                    ).contains(field_name) {
                                        let k = choose|k: int|
                                            0 <= k < alias_pairs_spec(
                                                self.chain.actions@,
                                            ).len() && alias_pairs_spec(
                                                self.chain.actions@,
                                            )[k].1 == field_name;
                                        assert(0 <= k < pairs.len() && pairs[k].1
                                            == field_name);
                                        assert(alias_map@.dom().contains(field_name));
                                        assert(false);
                                    } else {
                                        assert(block.schema.contains_name(field_name)
                                            || computed_names(self.chain.actions@).contains(
                                            field_name,
                                        ));
                                        assert(column_map@.dom().contains(field_name));
                                        assert(false);
                                    }
                                }
                            }
                            return Err(ErrorCode::LogicalError(projection_message()));
                        },
                    }
                },
            }
            oi = oi + 1;
        }
        let out_schema = self.output_schema.clone();
        proof {
            assert(out_schema.wf());
        }
        let out = DataBlock::create(out_schema, project_columns);
        Ok(out)
    }

    /// Resolves the declared argument columns and evaluates the scalar
    /// function over `rows` rows. A function flagged nullable whose
    /// evaluator passes null through is short-circuited to an all-null
    /// constant when some argument is entirely null, and its result is
    /// otherwise masked with the arguments' validities; any other
    /// function is evaluated unconditionally. Whatever the evaluator
    /// returned, the result delivered here is a well-formed column of
    /// `rows` rows under the declared field.
    pub fn execute_function(
        &self,
        column_map: &StringHashMap<DataColumnWithField>,
        f: &ActionFunction<F>,
        rows: usize,
    ) -> (r: Result<DataColumnWithField, ErrorCode>)
        requires
            forall|k: Seq<char>| #[trigger]
                column_map@.dom().contains(k) ==> (column_map@[k].column.wf()
                    && column_map@[k].column.cells().len() == rows),
        ensures
            r matches Ok(c) ==> (c.column.wf() && c.column.cells().len() == rows
                && c.field.name@ == f.name@ && c.field.data_type == f.return_type
                && c.field.nullable == f.is_nullable),
            (exists|j: int|
                0 <= j < f.arg_names@.len() && !column_map@.dom().contains(
                    f.arg_names@[j]@,
                )) ==> (r matches Err(e) && e is LogicalError),
    {
        let args_n = f.arg_names.len();
        let mut arg_columns: Vec<DataColumnWithField> = Vec::new();
        let mut i: usize = 0;
        while i < args_n
            invariant
                i <= args_n,
                args_n == f.arg_names@.len(),
                arg_columns@.len() == i,
                forall|k: Seq<char>| #[trigger]
                    column_map@.dom().contains(k) ==> (column_map@[k].column.wf()
                        && column_map@[k].column.cells().len() == rows),
                forall|j: int| 0 <= j < i ==> column_map@.dom().contains(f.arg_names@[j]@),
                forall|j: int|
                    0 <= j < i ==> ((#[trigger] arg_columns@[j]).column.wf()
                        && arg_columns@[j].column.cells().len() == rows),
            decreases args_n - i,
        {
            let cwf = match column_map.get(f.arg_names[i].as_str()) {
                Some(c) => c,
                None => {
                    return Err(ErrorCode::LogicalError(function_prepare_message()));
                },
            };
            let copied = cwf.clone();
            arg_columns.push(copied);
            i = i + 1;
        }

        // With a nullable flag and a pass-through evaluator, null rows of
        // any argument must surface as null result rows; other functions
        // evaluate unconditionally with no masking.
        let column = if f.is_nullable && f.func.passthrough_null() {
            let mut validities: Vec<Vec<bool>> = Vec::new();
            let mut j: usize = 0;
            while j < args_n
                invariant
                    j <= args_n,
                    args_n == arg_columns@.len(),
                    validities@.len() == j,
                    forall|a: int|
                        0 <= a < args_n ==> ((#[trigger] arg_columns@[a]).column.wf()
                            && arg_columns@[a].column.cells().len() == rows),
                    forall|a: int|
                        0 <= a < j ==> (#[trigger] validities@[a])@.len() == rows,
                decreases args_n - j,
            {
                let v = arg_columns[j].column.get_validity();
                validities.push(v);
                j = j + 1;
            }
            if any_all_null(&validities) {
                // Entirely null input: substitute a constant all-null
                // column of the batch's row count without invoking the
                // evaluator.
                Column::Constant(ConstantColumn { value: DataValue::Null, length: rows })
            } else {
                let evaluated = match f.func.eval(&arg_columns, rows) {
                    Ok(c) => c,
                    Err(e) => {
                        return Err(e);
                    },
                };
                if !check_wf(&evaluated) {
                    return Err(ErrorCode::LogicalError(row_count_message()));
                }
                if evaluated.len() != rows {
                    return Err(ErrorCode::LogicalError(row_count_message()));
                }
                apply_validities(evaluated, &validities)
            }
        } else {
            let evaluated = match f.func.eval(&arg_columns, rows) {
                Ok(c) => c,
                Err(e) => {
                    return Err(e);
                },
            };
            if !check_wf(&evaluated) {
                return Err(ErrorCode::LogicalError(row_count_message()));
            }
            if evaluated.len() != rows {
                return Err(ErrorCode::LogicalError(row_count_message()));
            }
            evaluated
        };
        let field = DataField::new(f.name.clone(), f.return_type.clone(), f.is_nullable);
        Ok(DataColumnWithField::new(column, field))
    }
}

/// Message of the internal-consistency error raised when a function
/// argument was not prepared by an earlier action.
fn function_prepare_message() -> (r: String) {
    String::from_str("arguments must be prepared before function transform")
}

/// Message of the internal-consistency error raised when an alias source
/// was not prepared by an earlier action.
fn alias_prepare_message() -> (r: String) {
    String::from_str("arguments must be prepared before alias transform")
}

/// Message of the error raised when two aliases assign one target name.
fn duplicate_alias_message() -> (r: String) {
    String::from_str("duplicate alias name")
}

/// Message of the internal-consistency error raised when an output field
/// resolves to no computed column.
fn projection_message() -> (r: String) {
    String::from_str("projection column does not exist")
}

/// Message of the internal-consistency error raised when an evaluator
/// hands back a malformed column or one of the wrong row count.
fn row_count_message() -> (r: String) {
    String::from_str("function result does not match the batch row count")
}

} // verus!
