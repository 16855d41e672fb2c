//! What holds of the count accumulator across its operations.

use crate::accumulator::{
    add_to_group, count_states, group_can_add, scalar_weight, state_delta, Accumulator,
    AccumulatorFly, CountAccumulatorFly,
};
use crate::columnar::{non_null_slots, present_sum, u64_slots, valid_slots};
use crate::error::Result;
use crate::scalar::ScalarValue;
use arrow::array::ArrayData;
use arrow::datatypes::DataType;
use vstd::prelude::*;

verus! {

/// The counts after feeding `values` to group `index` one `update` at a
/// time, in order.
pub open spec fn updates_effect(counts: Seq<u64>, index: int, values: Seq<ScalarValue>) -> Seq<u64>
    decreases values.len(),
{
    if values.len() == 0 {
        counts
    } else if values.last().is_null() {
        updates_effect(counts, index, values.drop_last())
    } else {
        add_to_group(updates_effect(counts, index, values.drop_last()), index, 1)
    }
}

/// The sum of all counts.
pub open spec fn total(counts: Seq<u64>) -> nat
    decreases counts.len(),
{
    if counts.len() == 0 {
        0
    } else {
        total(counts.drop_last()) + counts.last() as nat
    }
}

/// Counting twice into one group is counting the sum once.
pub proof fn lemma_add_twice(counts: Seq<u64>, index: int, a: nat, b: nat)
    requires
        group_can_add(counts, index, a + b),
    ensures
        add_to_group(add_to_group(counts, index, a), index, b) == add_to_group(counts, index, a + b),
{
    assert(add_to_group(add_to_group(counts, index, a), index, b) =~= add_to_group(counts, index, a + b));
}

/// Counting a column in one batch gives the same counts as counting its
/// slots one by one with `update`, when the values fed one by one are null
/// exactly where the column is null.
pub proof fn law_batch_counts_like_rows(
    counts: Seq<u64>,
    index: int,
    validity: Seq<bool>,
    values: Seq<ScalarValue>,
)
    requires
        group_can_add(counts, index, valid_slots(validity)),
        values.len() == validity.len(),
        forall|k: int| 0 <= k < values.len() ==> (#[trigger] values[k]).is_null() == !validity[k],
    ensures
        updates_effect(counts, index, values) == add_to_group(counts, index, valid_slots(validity)),
    decreases values.len(),
{
    if values.len() == 0 {
        assert(add_to_group(counts, index, 0) =~= counts);
    } else {
        let vi = validity.drop_last();
        let vs = values.drop_last();
        assert forall|k: int| 0 <= k < vs.len() implies (#[trigger] vs[k]).is_null() == !vi[k] by {
            assert(vs[k] == values[k]);
        }
        law_batch_counts_like_rows(counts, index, vi, vs);
        assert(values[values.len() - 1].is_null() == !validity[validity.len() - 1]);
        lemma_add_twice(counts, index, valid_slots(vi), scalar_weight(values.last()));
    }
}

/// `update` with a null value leaves every count as it was.
pub proof fn law_null_update_changes_nothing(
    acc: CountAccumulatorFly,
    index: usize,
    values: Seq<ScalarValue>,
    after: CountAccumulatorFly,
    r: Result<()>,
)
    requires
        values.len() > 0,
        values[0].is_null(),
        <CountAccumulatorFly as AccumulatorFly>::update_outcome(&acc, index, values, after, r),
    ensures
        after@ == acc@,
{
}

/// Feeding group `index` leaves every other group, and the number of groups,
/// as they were; the fed group never decreases.
pub proof fn law_groups_are_independent(counts: Seq<u64>, index: int, delta: nat, other: int)
    requires
        group_can_add(counts, index, delta),
        0 <= other < counts.len(),
        other != index,
    ensures
        add_to_group(counts, index, delta).len() == counts.len(),
        add_to_group(counts, index, delta)[other] == counts[other],
        add_to_group(counts, index, delta)[index] == counts[index] + delta,
{
}

/// Merging the state that `state(j)` gives of one accumulator into group `i`
/// of another is admitted, and adds the count of group `j` to group `i`.
pub proof fn law_merge_of_state(
    acc: CountAccumulatorFly,
    i: usize,
    other: CountAccumulatorFly,
    j: usize,
    state: Result<Vec<ScalarValue>>,
)
    requires
        <CountAccumulatorFly as AccumulatorFly>::has_group(&other, j),
        <CountAccumulatorFly as AccumulatorFly>::state_outcome(&other, j, state),
        group_can_add(acc@, i as int, other@[j as int] as nat),
    ensures
        state matches Ok(s) && {
            &&& <CountAccumulatorFly as AccumulatorFly>::merge_admits(&acc, i, s@)
            &&& forall|after: CountAccumulatorFly, r: Result<()>|
                <CountAccumulatorFly as AccumulatorFly>::merge_outcome(&acc, i, s@, after, r)
                    ==> after@ == add_to_group(acc@, i as int, other@[j as int] as nat)
        },
{
}

/// The slots of a column of counts, all valid, sum to the total count.
pub proof fn lemma_present_sum_of_counts(counts: Seq<u64>)
    ensures
        present_sum(counts.map_values(|c: u64| Some(c))) == total(counts),
    decreases counts.len(),
{
    if counts.len() > 0 {
        lemma_present_sum_of_counts(counts.drop_last());
        assert(counts.map_values(|c: u64| Some(c)).drop_last() =~= counts.drop_last().map_values(
            |c: u64| Some(c),
        ));
    }
}

/// Merging the column that `evaluate_all` gives of one accumulator into
/// group `i` of another is admitted, when the total fits, and adds the total
/// of all its groups to group `i`.
pub proof fn law_merge_batch_of_evaluate_all(
    acc: CountAccumulatorFly,
    i: usize,
    other: CountAccumulatorFly,
    column: Result<ArrayData>,
)
    requires
        other@.len() > 0,
        <CountAccumulatorFly as AccumulatorFly>::evaluate_all_outcome(&other, column),
        total(other@) <= u64::MAX,
        group_can_add(acc@, i as int, total(other@)),
    ensures
        column matches Ok(a) && {
            &&& <CountAccumulatorFly as AccumulatorFly>::merge_batch_admits(&acc, i, seq![a])
            &&& forall|after: CountAccumulatorFly, r: Result<()>|
                <CountAccumulatorFly as AccumulatorFly>::merge_batch_outcome(
                    &acc,
                    i,
                    seq![a],
                    after,
                    r,
                ) ==> after@ == add_to_group(acc@, i as int, total(other@))
        },
{
    lemma_present_sum_of_counts(other@);
}

/// `state_all` and `evaluate_all` agree, group by group, with `state` and
/// `evaluate`.
pub proof fn law_all_agree_with_each(
    acc: CountAccumulatorFly,
    index: usize,
    states: Result<Vec<Vec<ScalarValue>>>,
    column: Result<ArrayData>,
    state: Result<Vec<ScalarValue>>,
    value: Result<ScalarValue>,
)
    requires
        <CountAccumulatorFly as AccumulatorFly>::has_group(&acc, index),
        <CountAccumulatorFly as AccumulatorFly>::state_all_outcome(&acc, states),
        <CountAccumulatorFly as AccumulatorFly>::evaluate_all_outcome(&acc, column),
        <CountAccumulatorFly as AccumulatorFly>::state_outcome(&acc, index, state),
        <CountAccumulatorFly as AccumulatorFly>::evaluate_outcome(&acc, index, value),
    ensures
        states matches Ok(all) && state matches Ok(one) && all@[0]@[index as int] == one@[0],
        column matches Ok(a) && value matches Ok(v) && u64_slots(a)[index as int] == Some(
            state_delta(v)->0,
        ),
{
}

/// A new group counts from zero: after `init_state`, `evaluate` of the new
/// group gives 0.
pub proof fn law_new_group_starts_at_zero(
    acc: CountAccumulatorFly,
    index: usize,
    after: CountAccumulatorFly,
    value: Result<ScalarValue>,
)
    requires
        <CountAccumulatorFly as AccumulatorFly>::init_state_admits(&acc, index),
        <CountAccumulatorFly as AccumulatorFly>::init_state_outcome(&acc, index, after),
        <CountAccumulatorFly as AccumulatorFly>::evaluate_outcome(&after, index, value),
    ensures
        <CountAccumulatorFly as AccumulatorFly>::has_group(&after, index),
        value == Ok::<ScalarValue, crate::error::DataFusionError>(ScalarValue::UInt64(Some(0))),
{
}

/// On an accumulator that has a group, the single-group interface acts on
/// group 0 exactly as the many-group interface does.
pub proof fn law_single_group_is_group_zero(
    acc: CountAccumulatorFly,
    columns: Seq<ArrayData>,
    values: Seq<ScalarValue>,
    after: CountAccumulatorFly,
    r: Result<()>,
    value: Result<ScalarValue>,
)
    requires
        acc@.len() > 0,
    ensures
        <CountAccumulatorFly as Accumulator>::update_batch_admits(&acc, columns)
            == <CountAccumulatorFly as AccumulatorFly>::update_batch_admits(&acc, 0, columns),
        <CountAccumulatorFly as Accumulator>::update_batch_outcome(&acc, columns, after, r)
            == <CountAccumulatorFly as AccumulatorFly>::update_batch_outcome(
            &acc,
            0,
            columns,
            after,
            r,
        ),
        <CountAccumulatorFly as Accumulator>::update_admits(&acc, values)
            == <CountAccumulatorFly as AccumulatorFly>::update_admits(&acc, 0, values),
        <CountAccumulatorFly as Accumulator>::update_outcome(&acc, values, after, r)
            == <CountAccumulatorFly as AccumulatorFly>::update_outcome(&acc, 0, values, after, r),
        <CountAccumulatorFly as Accumulator>::merge_admits(&acc, values)
            == <CountAccumulatorFly as AccumulatorFly>::merge_admits(&acc, 0, values),
        <CountAccumulatorFly as Accumulator>::merge_outcome(&acc, values, after, r)
            == <CountAccumulatorFly as AccumulatorFly>::merge_outcome(&acc, 0, values, after, r),
        <CountAccumulatorFly as Accumulator>::merge_batch_admits(&acc, columns)
            == <CountAccumulatorFly as AccumulatorFly>::merge_batch_admits(&acc, 0, columns),
        <CountAccumulatorFly as Accumulator>::merge_batch_outcome(&acc, columns, after, r)
            == <CountAccumulatorFly as AccumulatorFly>::merge_batch_outcome(
            &acc,
            0,
            columns,
            after,
            r,
        ),
        <CountAccumulatorFly as Accumulator>::evaluate_outcome(&acc, value)
            == <CountAccumulatorFly as AccumulatorFly>::evaluate_outcome(&acc, 0, value),
{
}

/// Counts merged into groups do not depend on the order of the merges.
pub proof fn law_merges_commute(counts: Seq<u64>, i: int, a: nat, j: int, b: nat)
    requires
        group_can_add(counts, i, a),
        group_can_add(counts, j, b),
        i != j || counts[i] + a + b <= u64::MAX,
    ensures
        add_to_group(add_to_group(counts, i, a), j, b) == add_to_group(
            add_to_group(counts, j, b),
            i,
            a,
        ),
{
    assert(add_to_group(add_to_group(counts, i, a), j, b) =~= add_to_group(
        add_to_group(counts, j, b),
        i,
        a,
    ));
}

/// On a fresh accumulator, `evaluate` after `update_batch` gives the number
/// of non-null slots of the column.
pub proof fn law_fresh_count_is_non_null_count(
    acc: CountAccumulatorFly,
    values: Seq<ArrayData>,
    after: CountAccumulatorFly,
    r: Result<()>,
    value: Result<ScalarValue>,
)
    requires
        acc@.len() == 0,
        values.len() > 0,
        non_null_slots(values[0]) <= u64::MAX,
        <CountAccumulatorFly as Accumulator>::update_batch_outcome(&acc, values, after, r),
        <CountAccumulatorFly as Accumulator>::evaluate_outcome(&after, value),
    ensures
        <CountAccumulatorFly as Accumulator>::update_batch_admits(&acc, values),
        value matches Ok(v) && v == ScalarValue::UInt64(
            Some(non_null_slots(values[0]) as u64),
        ),
{
}

/// The counts after merging `states[k]` into group `k`, for each `k < n` in
/// turn, as `merge` does with each.
pub open spec fn merge_each(counts: Seq<u64>, states: Seq<ScalarValue>, n: nat) -> Seq<u64>
    decreases n,
{
    if n == 0 {
        counts
    } else {
        add_to_group(
            merge_each(counts, states, (n - 1) as nat),
            n - 1,
            state_delta(states[n - 1])->0 as nat,
        )
    }
}

/// `n` groups at zero.
pub open spec fn zero_groups(n: nat) -> Seq<u64> {
    Seq::new(n, |i: int| 0u64)
}

proof fn lemma_merge_each_prefix(counts: Seq<u64>, k: nat)
    requires
        k <= counts.len(),
    ensures
        merge_each(zero_groups(counts.len()), count_states(counts), k).len() == counts.len(),
        forall|j: int|
            0 <= j < counts.len() ==> #[trigger] merge_each(
                zero_groups(counts.len()),
                count_states(counts),
                k,
            )[j] == if j < k {
                counts[j]
            } else {
                0u64
            },
    decreases k,
{
    if k > 0 {
        lemma_merge_each_prefix(counts, (k - 1) as nat);
    }
}

/// Merging the row that `state_all` gives of one accumulator, group by group,
/// into as many groups at zero restores its counts; each of those merges is
/// admitted.
pub proof fn law_merge_state_all_restores(
    acc: CountAccumulatorFly,
    states: Result<Vec<Vec<ScalarValue>>>,
)
    requires
        <CountAccumulatorFly as AccumulatorFly>::state_all_outcome(&acc, states),
    ensures
        states matches Ok(v) && {
            let row = v@[0]@;
            &&& forall|k: int|
                0 <= k < acc@.len() ==> {
                    &&& state_delta(#[trigger] row[k]) is Some
                    &&& group_can_add(
                        merge_each(zero_groups(acc@.len()), row, k as nat),
                        k,
                        state_delta(row[k])->0 as nat,
                    )
                }
            &&& merge_each(zero_groups(acc@.len()), row, acc@.len()) == acc@
        },
{
    let counts = acc@;
    lemma_merge_each_prefix(counts, counts.len());
    assert forall|k: int| 0 <= k < counts.len() implies group_can_add(
        merge_each(zero_groups(counts.len()), count_states(counts), k as nat),
        k,
        state_delta(count_states(counts)[k])->0 as nat,
    ) by {
        lemma_merge_each_prefix(counts, k as nat);
        assert(merge_each(zero_groups(counts.len()), count_states(counts), k as nat)[k] == 0);
    }
    assert(merge_each(zero_groups(counts.len()), count_states(counts), counts.len()) =~= counts);
}

/// The counts after merging, into group `index`, each present value of
/// `slots` in turn, as `merge` does with `UInt64(Some(d))`; null slots merge
/// nothing.
pub open spec fn merge_present(counts: Seq<u64>, index: int, slots: Seq<Option<u64>>) -> Seq<u64>
    decreases slots.len(),
{
    if slots.len() == 0 {
        counts
    } else {
        match slots.last() {
            Some(d) => add_to_group(merge_present(counts, index, slots.drop_last()), index, d as nat),
            None => merge_present(counts, index, slots.drop_last()),
        }
    }
}

/// `merge_batch` of a column of counts leaves the same counts as merging
/// its present values one by one, in order; a column with no present value
/// changes nothing.
pub proof fn law_merge_batch_is_merges_in_turn(counts: Seq<u64>, index: int, slots: Seq<Option<u64>>)
    requires
        group_can_add(counts, index, present_sum(slots)),
    ensures
        merge_present(counts, index, slots) == add_to_group(counts, index, present_sum(slots)),
        forall|d: u64| state_delta(ScalarValue::UInt64(Some(d))) == Some(d),
    decreases slots.len(),
{
    if slots.len() == 0 {
        assert(add_to_group(counts, index, 0) =~= counts);
    } else {
        let init = slots.drop_last();
        law_merge_batch_is_merges_in_turn(counts, index, init);
        match slots.last() {
            Some(d) => {
                lemma_add_twice(counts, index, present_sum(init), d as nat);
            },
            None => {},
        }
    }
}

/// The valid slots of two columns one after the other are those of each.
pub proof fn lemma_valid_slots_concat(first: Seq<bool>, second: Seq<bool>)
    ensures
        valid_slots(first + second) == valid_slots(first) + valid_slots(second),
    decreases second.len(),
{
    if second.len() > 0 {
        lemma_valid_slots_concat(first, second.drop_last());
        assert((first + second).drop_last() =~= first + second.drop_last());
    } else {
        assert(first + second =~= first);
    }
}

/// Counting two columns one after the other into a group gives the same
/// count as counting one column whose slots are theirs, in order; an empty
/// column changes nothing.
pub proof fn law_columns_count_as_their_concatenation(
    counts: Seq<u64>,
    index: int,
    first: Seq<bool>,
    second: Seq<bool>,
)
    requires
        group_can_add(counts, index, valid_slots(first) + valid_slots(second)),
    ensures
        add_to_group(add_to_group(counts, index, valid_slots(first)), index, valid_slots(second))
            == add_to_group(counts, index, valid_slots(first + second)),
        add_to_group(counts, index, valid_slots(Seq::<bool>::empty())) == counts,
{
    lemma_valid_slots_concat(first, second);
    lemma_add_twice(counts, index, valid_slots(first), valid_slots(second));
    assert(add_to_group(counts, index, 0) =~= counts);
}

/// A history of calls on an accumulator, as what each does to the counts:
/// `None` opens a group (`init_state`); `Some((g, d))` counts `d` more in
/// group `g` (`update_batch` with the column's non-null slots, `update` with a
/// non-null value as 1, `merge` with the state's count, `merge_batch` with
/// the column's sum). A null `update`, and a `merge_batch` of a column with
/// no value, change nothing and are left out.
pub open spec fn replay(events: Seq<Option<(int, nat)>>) -> Seq<u64>
    decreases events.len(),
{
    if events.len() == 0 {
        Seq::empty()
    } else {
        let before = replay(events.drop_last());
        match events.last() {
            None => before.push(0),
            Some((g, d)) => add_to_group(before, g, d),
        }
    }
}

/// Every call of the history is admitted when it comes.
pub open spec fn replay_admits(events: Seq<Option<(int, nat)>>) -> bool
    decreases events.len(),
{
    if events.len() == 0 {
        true
    } else {
        &&& replay_admits(events.drop_last())
        &&& match events.last() {
            None => true,
            Some((g, d)) => group_can_add(replay(events.drop_last()), g, d),
        }
    }
}

/// The number of groups the history opens.
pub open spec fn opened(events: Seq<Option<(int, nat)>>) -> nat
    decreases events.len(),
{
    if events.len() == 0 {
        0
    } else {
        opened(events.drop_last()) + if events.last() is None { 1nat } else { 0nat }
    }
}

/// All that the history feeds to group `group`.
pub open spec fn fed(events: Seq<Option<(int, nat)>>, group: int) -> nat
    decreases events.len(),
{
    if events.len() == 0 {
        0
    } else {
        fed(events.drop_last(), group) + match events.last() {
            Some((g, d)) => if g == group { d } else { 0nat },
            None => 0nat,
        }
    }
}

/// Over any history of admitted calls from a new accumulator, there is one
/// group per `init_state`, and each group's count is everything fed to it.
pub proof fn law_counts_are_all_fed(events: Seq<Option<(int, nat)>>)
    requires
        replay_admits(events),
    ensures
        replay(events).len() == opened(events),
        forall|i: int| 0 <= i < replay(events).len() ==> #[trigger] replay(events)[i] == fed(events, i),
        forall|g: int| g >= replay(events).len() ==> #[trigger] fed(events, g) == 0,
    decreases events.len(),
{
    if events.len() > 0 {
        let init = events.drop_last();
        law_counts_are_all_fed(init);
        let before = replay(init);
        match events.last() {
            None => {
                assert forall|i: int| 0 <= i < replay(events).len() implies #[trigger] replay(events)[i]
                    == fed(events, i) by {
                    if i < before.len() {
                        assert(replay(events)[i] == before[i]);
                    } else {
                        assert(fed(init, i) == 0);
                    }
                }
                assert forall|g: int| g >= replay(events).len() implies #[trigger] fed(events, g)
                    == 0 by {
                    assert(fed(init, g) == 0);
                }
            },
            Some((h, d)) => {
                assert forall|i: int| 0 <= i < replay(events).len() implies #[trigger] replay(events)[i]
                    == fed(events, i) by {
                    assert(before[i] == fed(init, i));
                }
                assert forall|g: int| g >= replay(events).len() implies #[trigger] fed(events, g)
                    == 0 by {
                    assert(fed(init, g) == 0);
                }
            },
        }
    }
}

/// Whether the value carries a payload: `Some(..)` of its type, whatever
/// that payload is (a zero, an empty string or list included).
pub open spec fn carries_value(value: ScalarValue) -> bool {
    match value {
        ScalarValue::Boolean(Some(_)) => true,
        ScalarValue::Int8(Some(_)) => true,
        ScalarValue::Int16(Some(_)) => true,
        ScalarValue::Int32(Some(_)) => true,
        ScalarValue::Int64(Some(_)) => true,
        ScalarValue::UInt8(Some(_)) => true,
        ScalarValue::UInt16(Some(_)) => true,
        ScalarValue::UInt32(Some(_)) => true,
        ScalarValue::UInt64(Some(_)) => true,
        ScalarValue::Utf8(Some(_)) => true,
        ScalarValue::LargeUtf8(Some(_)) => true,
        ScalarValue::Binary(Some(_)) => true,
        ScalarValue::LargeBinary(Some(_)) => true,
        ScalarValue::Date32(Some(_)) => true,
        ScalarValue::Date64(Some(_)) => true,
        ScalarValue::TimestampSecond(Some(_)) => true,
        ScalarValue::TimestampMillisecond(Some(_)) => true,
        ScalarValue::TimestampMicrosecond(Some(_)) => true,
        ScalarValue::TimestampNanosecond(Some(_)) => true,
        ScalarValue::IntervalYearMonth(Some(_)) => true,
        ScalarValue::IntervalDayTime(Some(_)) => true,
        ScalarValue::List(Some(_), _) => true,
        _ => false,
    }
}

/// A value is null exactly when it carries no payload: every variant with
/// `Some(x)` is not null, for every `x` (`0`, `false`, `""` and `[]`
/// included), and every variant with `None` is null.
pub proof fn law_null_exactly_when_no_payload()
    ensures
        forall|x: bool| !(#[trigger] ScalarValue::Boolean(Some(x)).is_null()),
        ScalarValue::Boolean(None).is_null(),
        forall|x: i8| !(#[trigger] ScalarValue::Int8(Some(x)).is_null()),
        ScalarValue::Int8(None).is_null(),
        forall|x: i16| !(#[trigger] ScalarValue::Int16(Some(x)).is_null()),
        ScalarValue::Int16(None).is_null(),
        forall|x: i32| !(#[trigger] ScalarValue::Int32(Some(x)).is_null()),
        ScalarValue::Int32(None).is_null(),
        forall|x: i64| !(#[trigger] ScalarValue::Int64(Some(x)).is_null()),
        ScalarValue::Int64(None).is_null(),
        forall|x: u8| !(#[trigger] ScalarValue::UInt8(Some(x)).is_null()),
        ScalarValue::UInt8(None).is_null(),
        forall|x: u16| !(#[trigger] ScalarValue::UInt16(Some(x)).is_null()),
        ScalarValue::UInt16(None).is_null(),
        forall|x: u32| !(#[trigger] ScalarValue::UInt32(Some(x)).is_null()),
        ScalarValue::UInt32(None).is_null(),
        forall|x: u64| !(#[trigger] ScalarValue::UInt64(Some(x)).is_null()),
        ScalarValue::UInt64(None).is_null(),
        forall|x: String| !(#[trigger] ScalarValue::Utf8(Some(x)).is_null()),
        ScalarValue::Utf8(None).is_null(),
        forall|x: String| !(#[trigger] ScalarValue::LargeUtf8(Some(x)).is_null()),
        ScalarValue::LargeUtf8(None).is_null(),
        forall|x: Vec<u8>| !(#[trigger] ScalarValue::Binary(Some(x)).is_null()),
        ScalarValue::Binary(None).is_null(),
        forall|x: Vec<u8>| !(#[trigger] ScalarValue::LargeBinary(Some(x)).is_null()),
        ScalarValue::LargeBinary(None).is_null(),
        forall|x: i32| !(#[trigger] ScalarValue::Date32(Some(x)).is_null()),
        ScalarValue::Date32(None).is_null(),
        forall|x: i64| !(#[trigger] ScalarValue::Date64(Some(x)).is_null()),
        ScalarValue::Date64(None).is_null(),
        forall|x: i64| !(#[trigger] ScalarValue::TimestampSecond(Some(x)).is_null()),
        ScalarValue::TimestampSecond(None).is_null(),
        forall|x: i64| !(#[trigger] ScalarValue::TimestampMillisecond(Some(x)).is_null()),
        ScalarValue::TimestampMillisecond(None).is_null(),
        forall|x: i64| !(#[trigger] ScalarValue::TimestampMicrosecond(Some(x)).is_null()),
        ScalarValue::TimestampMicrosecond(None).is_null(),
        forall|x: i64| !(#[trigger] ScalarValue::TimestampNanosecond(Some(x)).is_null()),
        ScalarValue::TimestampNanosecond(None).is_null(),
        forall|x: i32| !(#[trigger] ScalarValue::IntervalYearMonth(Some(x)).is_null()),
        ScalarValue::IntervalYearMonth(None).is_null(),
        forall|x: i64| !(#[trigger] ScalarValue::IntervalDayTime(Some(x)).is_null()),
        ScalarValue::IntervalDayTime(None).is_null(),
        forall|x: Vec<ScalarValue>, t: Box<DataType>| !(#[trigger] ScalarValue::List(Some(x), t).is_null()),
        forall|t: Box<DataType>| #[trigger] ScalarValue::List(None, t).is_null(),
        forall|v: ScalarValue| #[trigger] v.is_null() == !carries_value(v),
{
}

/// `update` on group `index` counts a value that carries a payload as
/// exactly one, and leaves every count unchanged for one that does not.
pub proof fn law_update_counts_values_with_payload(
    acc: CountAccumulatorFly,
    index: usize,
    value: ScalarValue,
    after: CountAccumulatorFly,
    r: Result<()>,
)
    requires
        <CountAccumulatorFly as AccumulatorFly>::update_admits(&acc, index, seq![value]),
        <CountAccumulatorFly as AccumulatorFly>::update_outcome(&acc, index, seq![value], after, r),
    ensures
        r is Ok,
        carries_value(value) ==> {
            &&& 0 <= index < acc@.len()
            &&& after@.len() == acc@.len()
            &&& after@[index as int] == acc@[index as int] + 1
            &&& forall|k: int| 0 <= k < acc@.len() && k != index ==> after@[k] == acc@[k]
        },
        !carries_value(value) ==> after@ == acc@,
{
    law_null_exactly_when_no_payload();
}

/// The single-group `update` counts a value that carries a payload as
/// exactly one in group 0 (opened at zero when there is none), and leaves
/// every count unchanged for one that does not.
pub proof fn law_single_update_counts_values_with_payload(
    acc: CountAccumulatorFly,
    value: ScalarValue,
    after: CountAccumulatorFly,
    r: Result<()>,
)
    requires
        <CountAccumulatorFly as Accumulator>::update_admits(&acc, seq![value]),
        <CountAccumulatorFly as Accumulator>::update_outcome(&acc, seq![value], after, r),
    ensures
        r is Ok,
        carries_value(value) ==> {
            &&& after@.len() == if acc@.len() == 0 { 1 } else { acc@.len() }
            &&& after@[0] == (if acc@.len() == 0 { 0 } else { acc@[0] }) + 1
            &&& forall|k: int| 1 <= k < acc@.len() ==> after@[k] == acc@[k]
        },
        !carries_value(value) ==> after@ == acc@,
{
    law_null_exactly_when_no_payload();
}

} // verus!
