use std::sync::Arc;

use arrow::array::{
    Array, ArrayRef, BooleanArray, Int32Array, LargeStringArray, NullArray, StringArray,
    UInt64Array,
};
use arrow::datatypes::DataType;
use datafusion_count::accumulator::{
    Accumulator, AccumulatorFly, CountAccumulatorFly, NO_GROUP_MESSAGE,
};
use datafusion_count::aggregate::{format_state_name, CountFly};
use datafusion_count::error::{DataFusionError, Result};
use datafusion_count::scalar::ScalarValue;

/// The column that the aggregate reads in these tests.
struct Column {
    name: String,
}

fn col(name: &str) -> Arc<Column> {
    Arc::new(Column { name: name.to_string() })
}

/// Runs the aggregate over one column, as a single group.
fn aggregate(array: &ArrayRef, agg: &CountFly<Column>) -> Result<ScalarValue> {
    let mut accum = agg.create_accumulator()?;
    let values = vec![array.data().clone()];
    Accumulator::update_batch(&mut accum, &values)?;
    Accumulator::evaluate(&accum)
}

fn check_count(a: ArrayRef, expected: ScalarValue, data_type: DataType) -> Result<()> {
    let agg = CountFly::new(col("a"), "bla".to_string(), data_type);
    let actual = aggregate(&a, &agg)?;
    assert_eq!(expected, actual);
    Ok(())
}

#[test]
fn count_elements() -> Result<()> {
    let a: ArrayRef = Arc::new(Int32Array::from(vec![1, 2, 3, 4, 5]));
    check_count(a, ScalarValue::from(5u64), DataType::UInt64)
}

#[test]
fn count_with_nulls() -> Result<()> {
    let a: ArrayRef = Arc::new(Int32Array::from(vec![
        Some(1),
        Some(2),
        None,
        None,
        Some(3),
        None,
    ]));
    check_count(a, ScalarValue::from(3u64), DataType::UInt64)
}

#[test]
fn count_all_nulls() -> Result<()> {
    let a: ArrayRef = Arc::new(BooleanArray::from(vec![
        None, None, None, None, None, None, None, None,
    ]));
    check_count(a, ScalarValue::from(0u64), DataType::UInt64)
}

#[test]
fn count_empty() -> Result<()> {
    let a: Vec<bool> = vec![];
    let a: ArrayRef = Arc::new(BooleanArray::from(a));
    check_count(a, ScalarValue::from(0u64), DataType::UInt64)
}

#[test]
fn count_utf8() -> Result<()> {
    let a: ArrayRef = Arc::new(StringArray::from(vec!["a", "bb", "ccc", "dddd", "ad"]));
    check_count(a, ScalarValue::from(5u64), DataType::UInt64)
}

#[test]
fn count_large_utf8() -> Result<()> {
    let a: ArrayRef = Arc::new(LargeStringArray::from(vec!["a", "bb", "ccc", "dddd", "ad"]));
    check_count(a, ScalarValue::from(5u64), DataType::UInt64)
}

#[test]
fn count_sliced_array_counts_only_its_slots() {
    let full = Int32Array::from(vec![Some(1), None, Some(3), None, Some(5), Some(6)]);
    let sliced = full.slice(1, 3);
    let mut acc = CountAccumulatorFly::new();
    acc.init_state(0);
    AccumulatorFly::update_batch(&mut acc, 0, &[sliced.data().clone()]).unwrap();
    assert_eq!(AccumulatorFly::evaluate(&acc, 0).unwrap(), ScalarValue::UInt64(Some(1)));
}

#[test]
fn groups_count_separately() {
    let mut acc = CountAccumulatorFly::new();
    acc.init_state(0);
    acc.init_state(1);
    acc.init_state(2);
    let a = Int32Array::from(vec![Some(1), None, Some(2)]);
    AccumulatorFly::update_batch(&mut acc, 1, &[a.data().clone()]).unwrap();
    AccumulatorFly::update(&mut acc, 2, &[ScalarValue::Utf8(Some("x".to_string()))]).unwrap();
    AccumulatorFly::update(&mut acc, 2, &[ScalarValue::Utf8(None)]).unwrap();
    AccumulatorFly::update(&mut acc, 2, &[ScalarValue::Boolean(Some(false))]).unwrap();
    assert_eq!(AccumulatorFly::evaluate(&acc, 0).unwrap(), ScalarValue::UInt64(Some(0)));
    assert_eq!(AccumulatorFly::evaluate(&acc, 1).unwrap(), ScalarValue::UInt64(Some(2)));
    assert_eq!(AccumulatorFly::evaluate(&acc, 2).unwrap(), ScalarValue::UInt64(Some(2)));
}

#[test]
fn null_update_changes_nothing() {
    let mut acc = CountAccumulatorFly::new();
    acc.init_state(0);
    AccumulatorFly::update(&mut acc, 0, &[ScalarValue::Int64(Some(7))]).unwrap();
    AccumulatorFly::update(&mut acc, 0, &[ScalarValue::Int64(None)]).unwrap();
    AccumulatorFly::update(&mut acc, 0, &[ScalarValue::UInt64(None)]).unwrap();
    assert_eq!(AccumulatorFly::evaluate(&acc, 0).unwrap(), ScalarValue::UInt64(Some(1)));
}

#[test]
fn batch_counts_like_rows() {
    let array = Int32Array::from(vec![Some(4), None, None, Some(8), Some(9)]);
    let rows = vec![
        ScalarValue::Int32(Some(4)),
        ScalarValue::Int32(None),
        ScalarValue::Int32(None),
        ScalarValue::Int32(Some(8)),
        ScalarValue::Int32(Some(9)),
    ];
    let mut by_batch = CountAccumulatorFly::new();
    by_batch.init_state(0);
    AccumulatorFly::update_batch(&mut by_batch, 0, &[array.data().clone()]).unwrap();
    let mut by_rows = CountAccumulatorFly::new();
    by_rows.init_state(0);
    for row in rows {
        AccumulatorFly::update(&mut by_rows, 0, &[row]).unwrap();
    }
    assert_eq!(
        AccumulatorFly::evaluate(&by_batch, 0).unwrap(),
        AccumulatorFly::evaluate(&by_rows, 0).unwrap()
    );
    assert_eq!(AccumulatorFly::evaluate(&by_rows, 0).unwrap(), ScalarValue::UInt64(Some(3)));
}

#[test]
fn merge_of_state_adds_the_count() {
    let mut other = CountAccumulatorFly::new();
    other.init_state(0);
    let a = StringArray::from(vec![Some("a"), Some("b"), None]);
    AccumulatorFly::update_batch(&mut other, 0, &[a.data().clone()]).unwrap();
    let state = AccumulatorFly::state(&other, 0).unwrap();
    assert_eq!(state, vec![ScalarValue::UInt64(Some(2))]);

    let mut acc = CountAccumulatorFly::new();
    acc.init_state(0);
    acc.init_state(1);
    AccumulatorFly::update(&mut acc, 1, &[ScalarValue::Int8(Some(1))]).unwrap();
    AccumulatorFly::merge(&mut acc, 1, &state).unwrap();
    assert_eq!(AccumulatorFly::evaluate(&acc, 1).unwrap(), ScalarValue::UInt64(Some(3)));
    assert_eq!(AccumulatorFly::evaluate(&acc, 0).unwrap(), ScalarValue::UInt64(Some(0)));
}

#[test]
fn merge_batch_adds_the_sum_of_present_counts() {
    let mut acc = CountAccumulatorFly::new();
    acc.init_state(0);
    AccumulatorFly::update(&mut acc, 0, &[ScalarValue::Boolean(Some(true))]).unwrap();
    let states = UInt64Array::from(vec![Some(10), None, Some(32)]);
    AccumulatorFly::merge_batch(&mut acc, 0, &[states.data().clone()]).unwrap();
    assert_eq!(AccumulatorFly::evaluate(&acc, 0).unwrap(), ScalarValue::UInt64(Some(43)));
}

#[test]
fn merge_batch_of_all_null_states_adds_nothing() {
    let mut acc = CountAccumulatorFly::new();
    acc.init_state(0);
    AccumulatorFly::update(&mut acc, 0, &[ScalarValue::Boolean(Some(true))]).unwrap();
    let states = UInt64Array::from(vec![None, None]);
    AccumulatorFly::merge_batch(&mut acc, 0, &[states.data().clone()]).unwrap();
    let empty: Vec<u64> = vec![];
    let states = UInt64Array::from(empty);
    AccumulatorFly::merge_batch(&mut acc, 0, &[states.data().clone()]).unwrap();
    assert_eq!(AccumulatorFly::evaluate(&acc, 0).unwrap(), ScalarValue::UInt64(Some(1)));
}

#[test]
fn merge_batch_of_evaluate_all_adds_the_total() {
    let mut other = CountAccumulatorFly::new();
    other.init_state(0);
    other.init_state(1);
    AccumulatorFly::update(&mut other, 0, &[ScalarValue::UInt8(Some(1))]).unwrap();
    let a = Int32Array::from(vec![1, 2, 3]);
    AccumulatorFly::update_batch(&mut other, 1, &[a.data().clone()]).unwrap();
    let column = AccumulatorFly::evaluate_all(&other).unwrap();

    let mut acc = CountAccumulatorFly::new();
    acc.init_state(0);
    AccumulatorFly::merge_batch(&mut acc, 0, &[column]).unwrap();
    assert_eq!(AccumulatorFly::evaluate(&acc, 0).unwrap(), ScalarValue::UInt64(Some(4)));
}

#[test]
fn evaluate_all_and_state_all_list_every_group() {
    let mut acc = CountAccumulatorFly::new();
    acc.init_state(0);
    acc.init_state(1);
    acc.init_state(2);
    AccumulatorFly::update(&mut acc, 0, &[ScalarValue::Int16(Some(1))]).unwrap();
    let a = Int32Array::from(vec![Some(1), None, Some(2), Some(3)]);
    AccumulatorFly::update_batch(&mut acc, 2, &[a.data().clone()]).unwrap();

    let column = UInt64Array::from(AccumulatorFly::evaluate_all(&acc).unwrap());
    assert_eq!(column.len(), 3);
    assert_eq!(column.null_count(), 0);
    assert_eq!(column.value(0), 1);
    assert_eq!(column.value(1), 0);
    assert_eq!(column.value(2), 3);

    let states = AccumulatorFly::state_all(&acc).unwrap();
    assert_eq!(
        states,
        vec![vec![
            ScalarValue::UInt64(Some(1)),
            ScalarValue::UInt64(Some(0)),
            ScalarValue::UInt64(Some(3)),
        ]]
    );
    assert_eq!(AccumulatorFly::state(&acc, 2).unwrap(), vec![ScalarValue::UInt64(Some(3))]);
}

#[test]
fn empty_accumulator_has_no_column_to_evaluate() {
    let acc = CountAccumulatorFly::new();
    match AccumulatorFly::evaluate_all(&acc) {
        Err(DataFusionError::Internal(message)) => assert_eq!(message, NO_GROUP_MESSAGE),
        _ => panic!("evaluate_all with no group must fail"),
    }
    assert_eq!(AccumulatorFly::state_all(&acc).unwrap(), vec![Vec::<ScalarValue>::new()]);
}

#[test]
fn new_group_starts_at_zero() {
    let mut acc = CountAccumulatorFly::new();
    acc.init_state(0);
    assert_eq!(AccumulatorFly::evaluate(&acc, 0).unwrap(), ScalarValue::UInt64(Some(0)));
    assert_eq!(AccumulatorFly::state(&acc, 0).unwrap(), vec![ScalarValue::UInt64(Some(0))]);
}

#[test]
fn single_group_acts_on_group_zero() {
    let mut acc = CountAccumulatorFly::new();
    acc.init_state(0);
    acc.init_state(1);
    AccumulatorFly::update(&mut acc, 0, &[ScalarValue::Int32(Some(1))]).unwrap();
    Accumulator::update(&mut acc, &[ScalarValue::Int32(Some(2))]).unwrap();
    Accumulator::merge(&mut acc, &[ScalarValue::UInt64(Some(4))]).unwrap();
    assert_eq!(Accumulator::evaluate(&acc).unwrap(), ScalarValue::UInt64(Some(6)));
    assert_eq!(Accumulator::state(&acc).unwrap(), vec![ScalarValue::UInt64(Some(6))]);
    assert_eq!(AccumulatorFly::evaluate(&acc, 1).unwrap(), ScalarValue::UInt64(Some(0)));
}

#[test]
fn fresh_single_group_reads_zero() {
    let acc = CountAccumulatorFly::new();
    assert_eq!(Accumulator::evaluate(&acc).unwrap(), ScalarValue::UInt64(Some(0)));
    assert_eq!(Accumulator::state(&acc).unwrap(), vec![ScalarValue::UInt64(Some(0))]);
}

#[test]
fn single_group_merge_batch_on_fresh_accumulator() {
    let mut acc = CountAccumulatorFly::new();
    let states = UInt64Array::from(vec![Some(2), Some(5)]);
    Accumulator::merge_batch(&mut acc, &[states.data().clone()]).unwrap();
    assert_eq!(Accumulator::evaluate(&acc).unwrap(), ScalarValue::UInt64(Some(7)));
}

#[test]
fn fields_carry_name_type_and_nullability() {
    let agg = CountFly::new(col("c"), "COUNT(c)".to_string(), DataType::UInt64);
    assert_eq!(agg.name(), "COUNT(c)");
    let field = agg.field().unwrap();
    assert_eq!(field.name(), "COUNT(c)");
    assert_eq!(field.data_type(), &DataType::UInt64);
    assert!(field.is_nullable());
    let states = agg.state_fields().unwrap();
    assert_eq!(states.len(), 1);
    assert_eq!(states[0].name(), "COUNT(c)[count]");
    assert_eq!(states[0].data_type(), &DataType::UInt64);
    assert!(states[0].is_nullable());
}

#[test]
fn expressions_give_back_the_input() {
    let expr = col("x");
    let agg = CountFly::new(expr.clone(), "n".to_string(), DataType::UInt64);
    let exprs = agg.expressions();
    assert_eq!(exprs.len(), 1);
    assert!(Arc::ptr_eq(&exprs[0], &expr));
    assert_eq!(exprs[0].name, "x");
}

#[test]
fn state_name_format() {
    assert_eq!(format_state_name("bla", "count"), "bla[count]");
    assert_eq!(format_state_name("", ""), "[]");
}

#[test]
fn scalar_nulls() {
    assert!(ScalarValue::Utf8(None).is_null());
    assert!(ScalarValue::LargeBinary(None).is_null());
    assert!(!ScalarValue::Binary(Some(vec![])).is_null());
    assert!(!ScalarValue::UInt32(Some(0)).is_null());
    assert_eq!(ScalarValue::from(9u64), ScalarValue::UInt64(Some(9)));
}

#[test]
fn merges_commute() {
    let first = vec![ScalarValue::UInt64(Some(3))];
    let second = UInt64Array::from(vec![Some(4), None, Some(1)]);

    let mut one = CountAccumulatorFly::new();
    one.init_state(0);
    one.init_state(1);
    AccumulatorFly::merge(&mut one, 0, &first).unwrap();
    AccumulatorFly::merge_batch(&mut one, 1, &[second.data().clone()]).unwrap();
    AccumulatorFly::merge_batch(&mut one, 0, &[second.data().clone()]).unwrap();

    let mut two = CountAccumulatorFly::new();
    two.init_state(0);
    two.init_state(1);
    AccumulatorFly::merge_batch(&mut two, 0, &[second.data().clone()]).unwrap();
    AccumulatorFly::merge_batch(&mut two, 1, &[second.data().clone()]).unwrap();
    AccumulatorFly::merge(&mut two, 0, &first).unwrap();

    assert_eq!(
        AccumulatorFly::state_all(&one).unwrap(),
        AccumulatorFly::state_all(&two).unwrap()
    );
    assert_eq!(AccumulatorFly::evaluate(&one, 0).unwrap(), ScalarValue::UInt64(Some(8)));
    assert_eq!(AccumulatorFly::evaluate(&one, 1).unwrap(), ScalarValue::UInt64(Some(5)));
}

#[test]
fn null_update_needs_no_group() {
    let mut acc = CountAccumulatorFly::new();
    AccumulatorFly::update(&mut acc, 0, &[ScalarValue::Int32(None)]).unwrap();
    AccumulatorFly::update(&mut acc, 7, &[ScalarValue::Utf8(None)]).unwrap();
    assert!(AccumulatorFly::evaluate_all(&acc).is_err());
    Accumulator::update(&mut acc, &[ScalarValue::Date32(None)]).unwrap();
    assert!(AccumulatorFly::evaluate_all(&acc).is_err());
    Accumulator::update(&mut acc, &[ScalarValue::Date32(Some(3))]).unwrap();
    assert_eq!(Accumulator::evaluate(&acc).unwrap(), ScalarValue::UInt64(Some(1)));
}

#[test]
fn try_update_batch_counts_or_refuses() {
    let mut acc = CountAccumulatorFly::new();
    let a = Int32Array::from(vec![Some(1), None, Some(2)]);
    assert!(acc.try_update_batch(0, &[a.data().clone()]).is_none());
    acc.init_state(0);
    assert!(acc.try_update_batch(0, &[a.data().clone()]).unwrap().is_ok());
    assert_eq!(AccumulatorFly::evaluate(&acc, 0).unwrap(), ScalarValue::UInt64(Some(2)));
    AccumulatorFly::merge(&mut acc, 0, &[ScalarValue::UInt64(Some(u64::MAX - 4))]).unwrap();
    assert!(acc.try_update_batch(0, &[a.data().clone()]).unwrap().is_ok());
    assert_eq!(AccumulatorFly::evaluate(&acc, 0).unwrap(), ScalarValue::UInt64(Some(u64::MAX)));
    assert!(acc.try_update_batch(0, &[a.data().clone()]).is_none());
    assert_eq!(AccumulatorFly::evaluate(&acc, 0).unwrap(), ScalarValue::UInt64(Some(u64::MAX)));
}

#[test]
fn try_merge_batch_merges_or_refuses() {
    let mut acc = CountAccumulatorFly::new();
    let states = UInt64Array::from(vec![Some(5), None, Some(6)]);
    assert!(acc.try_merge_batch(0, &[states.data().clone()]).is_none());
    acc.init_state(0);
    assert!(acc.try_merge_batch(0, &[states.data().clone()]).unwrap().is_ok());
    assert_eq!(AccumulatorFly::evaluate(&acc, 0).unwrap(), ScalarValue::UInt64(Some(11)));
    let huge = UInt64Array::from(vec![Some(u64::MAX), Some(1)]);
    assert!(acc.try_merge_batch(0, &[huge.data().clone()]).is_none());
    let big = UInt64Array::from(vec![Some(u64::MAX - 11)]);
    assert!(acc.try_merge_batch(0, &[big.data().clone()]).unwrap().is_ok());
    assert_eq!(AccumulatorFly::evaluate(&acc, 0).unwrap(), ScalarValue::UInt64(Some(u64::MAX)));
    assert!(acc.try_merge_batch(0, &[states.data().clone()]).is_none());
}

#[test]
fn merge_state_all_restores_the_counts() {
    let mut acc = CountAccumulatorFly::new();
    for i in 0..3 {
        acc.init_state(i);
    }
    let a = Int32Array::from(vec![Some(1), Some(2), None, Some(4)]);
    AccumulatorFly::update_batch(&mut acc, 0, &[a.data().clone()]).unwrap();
    AccumulatorFly::update(&mut acc, 2, &[ScalarValue::Int64(Some(9))]).unwrap();
    let row = AccumulatorFly::state_all(&acc).unwrap().remove(0);

    let mut copy = CountAccumulatorFly::new();
    for i in 0..3 {
        copy.init_state(i);
    }
    for (k, state) in row.into_iter().enumerate() {
        AccumulatorFly::merge(&mut copy, k, &[state]).unwrap();
    }
    assert_eq!(AccumulatorFly::state_all(&copy).unwrap(), AccumulatorFly::state_all(&acc).unwrap());
}

#[test]
fn merge_batch_is_merges_in_turn() {
    let column = UInt64Array::from(vec![None, Some(4), None, Some(10), Some(0)]);
    let mut by_batch = CountAccumulatorFly::new();
    by_batch.init_state(0);
    AccumulatorFly::merge_batch(&mut by_batch, 0, &[column.data().clone()]).unwrap();
    let mut by_merges = CountAccumulatorFly::new();
    by_merges.init_state(0);
    for d in column.iter().flatten() {
        AccumulatorFly::merge(&mut by_merges, 0, &[ScalarValue::UInt64(Some(d))]).unwrap();
    }
    assert_eq!(
        AccumulatorFly::evaluate(&by_batch, 0).unwrap(),
        AccumulatorFly::evaluate(&by_merges, 0).unwrap()
    );
    assert_eq!(AccumulatorFly::evaluate(&by_batch, 0).unwrap(), ScalarValue::UInt64(Some(14)));
}

#[test]
fn columns_count_as_their_concatenation() {
    let x = Int32Array::from(vec![Some(1), None, Some(3)]);
    let y = Int32Array::from(vec![None, Some(5)]);
    let xy = arrow::compute::concat(&[&x as &dyn Array, &y as &dyn Array]).unwrap();
    let mut two = CountAccumulatorFly::new();
    two.init_state(0);
    AccumulatorFly::update_batch(&mut two, 0, &[x.data().clone()]).unwrap();
    AccumulatorFly::update_batch(&mut two, 0, &[y.data().clone()]).unwrap();
    let mut one = CountAccumulatorFly::new();
    one.init_state(0);
    AccumulatorFly::update_batch(&mut one, 0, &[xy.data().clone()]).unwrap();
    assert_eq!(AccumulatorFly::evaluate(&two, 0).unwrap(), ScalarValue::UInt64(Some(3)));
    assert_eq!(AccumulatorFly::evaluate(&one, 0).unwrap(), ScalarValue::UInt64(Some(3)));
}

#[test]
fn counts_are_all_fed() {
    let mut acc = CountAccumulatorFly::new();
    acc.init_state(0);
    AccumulatorFly::update(&mut acc, 0, &[ScalarValue::Boolean(Some(true))]).unwrap();
    acc.init_state(1);
    let a = BooleanArray::from(vec![Some(true), None, Some(false)]);
    AccumulatorFly::update_batch(&mut acc, 1, &[a.data().clone()]).unwrap();
    AccumulatorFly::merge(&mut acc, 0, &[ScalarValue::UInt64(Some(5))]).unwrap();
    let s = UInt64Array::from(vec![Some(2), None]);
    AccumulatorFly::merge_batch(&mut acc, 1, &[s.data().clone()]).unwrap();
    AccumulatorFly::update(&mut acc, 1, &[ScalarValue::Boolean(None)]).unwrap();
    assert_eq!(
        AccumulatorFly::state_all(&acc).unwrap(),
        vec![vec![ScalarValue::UInt64(Some(6)), ScalarValue::UInt64(Some(4))]]
    );
}

#[test]
fn null_typed_column_counts_nothing() -> Result<()> {
    let a: ArrayRef = Arc::new(NullArray::new(4));
    check_count(a, ScalarValue::from(0u64), DataType::UInt64)?;
    let mut acc = CountAccumulatorFly::new();
    acc.init_state(0);
    assert!(acc.try_update_batch(0, &[NullArray::new(3).data().clone()]).unwrap().is_ok());
    assert_eq!(AccumulatorFly::evaluate(&acc, 0).unwrap(), ScalarValue::UInt64(Some(0)));
    Ok(())
}

#[test]
fn merge_batch_without_counts_needs_no_group() {
    let empty = UInt64Array::from(vec![None, None]);
    let mut acc = CountAccumulatorFly::new();
    Accumulator::merge_batch(&mut acc, &[empty.data().clone()]).unwrap();
    assert!(AccumulatorFly::evaluate_all(&acc).is_err());
    AccumulatorFly::merge_batch(&mut acc, 3, &[empty.data().clone()]).unwrap();
    assert!(acc.try_merge_batch(5, &[empty.data().clone()]).unwrap().is_ok());
    assert!(AccumulatorFly::evaluate_all(&acc).is_err());
    let some = UInt64Array::from(vec![None, Some(0)]);
    assert!(acc.try_merge_batch(0, &[some.data().clone()]).is_none());
    Accumulator::merge_batch(&mut acc, &[some.data().clone()]).unwrap();
    assert_eq!(Accumulator::evaluate(&acc).unwrap(), ScalarValue::UInt64(Some(0)));
    assert!(AccumulatorFly::evaluate_all(&acc).is_ok());
}
