//! The COUNT aggregate expression: its output and state fields, its input
//! expression, and the accumulator it creates.

use crate::accumulator::CountAccumulatorFly;
use crate::columnar::{arrow_field, clone_data_type, new_field};
use crate::error::Result;
use arrow::datatypes::{DataType, Field};
use std::sync::Arc;
use vstd::prelude::*;
use vstd::string::*;

verus! {

/// The name of the state field `state_name` of the aggregate `name`:
/// `name[state_name]`.
pub fn format_state_name(name: &str, state_name: &str) -> (r: String)
    ensures
        r@ == name@ + "["@ + state_name@ + "]"@,
{
    let mut r = String::from_str(name);
    r.append("[");
    r.append(state_name);
    r.append("]");
    r
}

/// COUNT aggregate expression: the number of non-null values of the input
/// expression `E`.
#[derive(Debug)]
pub struct CountFly<E> {
    name: String,
    data_type: DataType,
    nullable: bool,
    expr: Arc<E>,
}

impl<E> CountFly<E> {
    /// The name of the aggregate.
    pub closed spec fn spec_name(&self) -> Seq<char> {
        self.name@
    }

    /// The data type of the aggregate's result.
    pub closed spec fn spec_data_type(&self) -> DataType {
        self.data_type
    }

    /// Whether the aggregate's result may be null.
    pub closed spec fn spec_nullable(&self) -> bool {
        self.nullable
    }

    /// The expression whose non-null values are counted.
    pub closed spec fn spec_expr(&self) -> Arc<E> {
        self.expr
    }

    /// A COUNT aggregate over `expr`, named `name`, whose result has type
    /// `data_type` and may be null.
    pub fn new(expr: Arc<E>, name: String, data_type: DataType) -> (r: Self)
        ensures
            r.spec_name() == name@,
            r.spec_data_type() == data_type,
            r.spec_nullable(),
            r.spec_expr() == expr,
    {
        Self { name, expr, data_type, nullable: true }
    }

    /// The output field: the aggregate's name, data type and nullability.
    pub fn field(&self) -> (r: Result<Field>)
        ensures
            r == Ok::<Field, crate::error::DataFusionError>(
                arrow_field(self.spec_name(), self.spec_data_type(), self.spec_nullable()),
            ),
    {
        Ok(new_field(self.name.as_str(), clone_data_type(&self.data_type), self.nullable))
    }

    /// The state fields: one nullable field named `name[count]` with the
    /// aggregate's data type.
    pub fn state_fields(&self) -> (r: Result<Vec<Field>>)
        ensures
            r matches Ok(v) && v@ == seq![
                arrow_field(self.spec_name() + "["@ + "count"@ + "]"@, self.spec_data_type(), true),
            ],
    {
        let state_name = format_state_name(self.name.as_str(), "count");
        let v = vec![new_field(state_name.as_str(), clone_data_type(&self.data_type), true)];
        assert(v@ =~= seq![
            arrow_field(self.spec_name() + "["@ + "count"@ + "]"@, self.spec_data_type(), true),
        ]);
        Ok(v)
    }

    /// The input expressions: the counted expression alone.
    pub fn expressions(&self) -> (r: Vec<Arc<E>>)
        ensures
            r@ == seq![self.spec_expr()],
    {
        let v = vec![self.expr.clone()];
        assert(v@ =~= seq![self.spec_expr()]);
        v
    }

    /// A fresh accumulator for this aggregate, with no group.
    pub fn create_accumulator(&self) -> (r: Result<CountAccumulatorFly>)
        ensures
            r matches Ok(a) && a@ == Seq::<u64>::empty(),
    {
        Ok(CountAccumulatorFly::new())
    }

    /// The name of the aggregate.
    pub fn name(&self) -> (r: &str)
        ensures
            r@ == self.spec_name(),
    {
        self.name.as_str()
    }
}

} // verus!
