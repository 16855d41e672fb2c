//! The per-group count accumulator and the two accumulator interfaces it
//! implements: one over many groups, addressed by index, and one over a
//! single group.

use crate::columnar::{
    array_is_null_typed, array_len, array_null_count, array_validity, has_present,
    is_u64_array, lemma_present_sum_prefix, lemma_slots_partition, non_null_slots, present_sum,
    u64_array_from_values, u64_array_sum, u64_slot_values, u64_slots, valid_slots,
};
use crate::error::{DataFusionError, Result};
use crate::scalar::ScalarValue;
use arrow::array::ArrayData;
use vstd::prelude::*;
use vstd::string::*;

verus! {

/// The counts after `delta` more values were counted in group `index`.
pub open spec fn add_to_group(counts: Seq<u64>, index: int, delta: nat) -> Seq<u64> {
    counts.update(index, (counts[index] + delta) as u64)
}

/// Group `index` exists and can count `delta` more values without leaving
/// the range of a `u64`.
pub open spec fn group_can_add(counts: Seq<u64>, index: int, delta: nat) -> bool {
    &&& 0 <= index < counts.len()
    &&& counts[index] + delta <= u64::MAX
}

/// What one input value adds to a count: nothing for a null, one otherwise.
pub open spec fn scalar_weight(value: ScalarValue) -> nat {
    if value.is_null() {
        0
    } else {
        1
    }
}

/// The count that a state value carries: `Some(d)` for a non-null `UInt64`.
pub open spec fn state_delta(state: ScalarValue) -> Option<u64> {
    match state {
        ScalarValue::UInt64(Some(d)) => Some(d),
        _ => None,
    }
}

/// The state of a group that has counted `count` values.
pub open spec fn count_state(count: u64) -> Seq<ScalarValue> {
    seq![ScalarValue::UInt64(Some(count))]
}

/// The states of all groups, one per group, in group order.
pub open spec fn count_states(counts: Seq<u64>) -> Seq<ScalarValue> {
    counts.map_values(|c: u64| ScalarValue::UInt64(Some(c)))
}

/// The counts with group 0 opened, at zero, when there is no group yet.
pub open spec fn with_first_group(counts: Seq<u64>) -> Seq<u64> {
    if counts.len() == 0 {
        seq![0u64]
    } else {
        counts
    }
}

/// The count of group 0, zero when there is no group yet.
pub open spec fn first_group(counts: Seq<u64>) -> u64 {
    with_first_group(counts)[0]
}

/// An aggregate state over many groups, each addressed by its index.
///
/// Each method comes with two predicates that the implementation defines:
/// `*_admits`, on which inputs it may be called, and `*_outcome`, what it
/// returns and leaves.
pub trait AccumulatorFly: Sized {
    spec fn init_state_admits(&self, index: usize) -> bool;

    spec fn init_state_outcome(&self, index: usize, after: Self) -> bool;

    spec fn update_batch_admits(&self, index: usize, values: Seq<ArrayData>) -> bool;

    spec fn update_batch_outcome(
        &self,
        index: usize,
        values: Seq<ArrayData>,
        after: Self,
        r: Result<()>,
    ) -> bool;

    spec fn update_admits(&self, index: usize, values: Seq<ScalarValue>) -> bool;

    spec fn update_outcome(
        &self,
        index: usize,
        values: Seq<ScalarValue>,
        after: Self,
        r: Result<()>,
    ) -> bool;

    spec fn merge_admits(&self, index: usize, states: Seq<ScalarValue>) -> bool;

    spec fn merge_outcome(
        &self,
        index: usize,
        states: Seq<ScalarValue>,
        after: Self,
        r: Result<()>,
    ) -> bool;

    spec fn merge_batch_admits(&self, index: usize, states: Seq<ArrayData>) -> bool;

    spec fn merge_batch_outcome(
        &self,
        index: usize,
        states: Seq<ArrayData>,
        after: Self,
        r: Result<()>,
    ) -> bool;

    spec fn has_group(&self, index: usize) -> bool;

    spec fn state_outcome(&self, index: usize, r: Result<Vec<ScalarValue>>) -> bool;

    spec fn evaluate_outcome(&self, index: usize, r: Result<ScalarValue>) -> bool;

    spec fn evaluate_all_outcome(&self, r: Result<ArrayData>) -> bool;

    spec fn state_all_outcome(&self, r: Result<Vec<Vec<ScalarValue>>>) -> bool;

    /// Opens group `index`, which is the next one.
    fn init_state(&mut self, index: usize)
        requires
            old(self).init_state_admits(index),
        ensures
            old(self).init_state_outcome(index, *final(self)),
    ;

    /// Feeds the first column of `values` into group `index`.
    fn update_batch(&mut self, index: usize, values: &[ArrayData]) -> (r: Result<()>)
        requires
            old(self).update_batch_admits(index, values@),
        ensures
            old(self).update_batch_outcome(index, values@, *final(self), r),
    ;

    /// Feeds the first of `values` into group `index`.
    fn update(&mut self, index: usize, values: &[ScalarValue]) -> (r: Result<()>)
        requires
            old(self).update_admits(index, values@),
        ensures
            old(self).update_outcome(index, values@, *final(self), r),
    ;

    /// Merges a state, as `state` gives it, into group `index`.
    fn merge(&mut self, index: usize, states: &[ScalarValue]) -> (r: Result<()>)
        requires
            old(self).merge_admits(index, states@),
        ensures
            old(self).merge_outcome(index, states@, *final(self), r),
    ;

    /// Merges a column of states, as `evaluate_all` gives it, into group
    /// `index`.
    fn merge_batch(&mut self, index: usize, states: &[ArrayData]) -> (r: Result<()>)
        requires
            old(self).merge_batch_admits(index, states@),
        ensures
            old(self).merge_batch_outcome(index, states@, *final(self), r),
    ;

    /// The state of group `index`.
    fn state(&self, index: usize) -> (r: Result<Vec<ScalarValue>>)
        requires
            self.has_group(index),
        ensures
            self.state_outcome(index, r),
    ;

    /// The result of group `index`.
    fn evaluate(&self, index: usize) -> (r: Result<ScalarValue>)
        requires
            self.has_group(index),
        ensures
            self.evaluate_outcome(index, r),
    ;

    /// The results of all groups, as one column.
    fn evaluate_all(&self) -> (r: Result<ArrayData>)
        ensures
            self.evaluate_all_outcome(r),
    ;

    /// The states of all groups.
    fn state_all(&self) -> (r: Result<Vec<Vec<ScalarValue>>>)
        ensures
            self.state_all_outcome(r),
    ;
}

/// An aggregate state over a single group.
///
/// Each method comes with two predicates that the implementation defines:
/// `*_admits`, on which inputs it may be called, and `*_outcome`, what it
/// returns and leaves.
pub trait Accumulator: Sized {
    spec fn update_batch_admits(&self, values: Seq<ArrayData>) -> bool;

    spec fn update_batch_outcome(&self, values: Seq<ArrayData>, after: Self, r: Result<()>) -> bool;

    spec fn update_admits(&self, values: Seq<ScalarValue>) -> bool;

    spec fn update_outcome(&self, values: Seq<ScalarValue>, after: Self, r: Result<()>) -> bool;

    spec fn merge_admits(&self, states: Seq<ScalarValue>) -> bool;

    spec fn merge_outcome(&self, states: Seq<ScalarValue>, after: Self, r: Result<()>) -> bool;

    spec fn merge_batch_admits(&self, states: Seq<ArrayData>) -> bool;

    spec fn merge_batch_outcome(&self, states: Seq<ArrayData>, after: Self, r: Result<()>) -> bool;

    spec fn state_outcome(&self, r: Result<Vec<ScalarValue>>) -> bool;

    spec fn evaluate_outcome(&self, r: Result<ScalarValue>) -> bool;

    /// Feeds the first column of `values`.
    fn update_batch(&mut self, values: &[ArrayData]) -> (r: Result<()>)
        requires
            old(self).update_batch_admits(values@),
        ensures
            old(self).update_batch_outcome(values@, *final(self), r),
    ;

    /// Feeds the first of `values`.
    fn update(&mut self, values: &[ScalarValue]) -> (r: Result<()>)
        requires
            old(self).update_admits(values@),
        ensures
            old(self).update_outcome(values@, *final(self), r),
    ;

    /// Merges a state, as `state` gives it.
    fn merge(&mut self, states: &[ScalarValue]) -> (r: Result<()>)
        requires
            old(self).merge_admits(states@),
        ensures
            old(self).merge_outcome(states@, *final(self), r),
    ;

    /// Merges a column of states.
    fn merge_batch(&mut self, states: &[ArrayData]) -> (r: Result<()>)
        requires
            old(self).merge_batch_admits(states@),
        ensures
            old(self).merge_batch_outcome(states@, *final(self), r),
    ;

    /// The state.
    fn state(&self) -> (r: Result<Vec<ScalarValue>>)
        ensures
            self.state_outcome(r),
    ;

    /// The result.
    fn evaluate(&self) -> (r: Result<ScalarValue>)
        ensures
            self.evaluate_outcome(r),
    ;
}

/// The message of the error that `evaluate_all` gives when there is no group.
pub const NO_GROUP_MESSAGE: &'static str = "Empty iterator: no group to evaluate";

/// Counts the non-null values fed to each group.
#[derive(Debug)]
pub struct CountAccumulatorFly {
    count: Vec<u64>,
}

impl View for CountAccumulatorFly {
    /// The count of each group, by group index.
    type V = Seq<u64>;

    closed spec fn view(&self) -> Seq<u64> {
        self.count@
    }
}

impl CountAccumulatorFly {
    /// An accumulator with no group.
    pub fn new() -> (r: Self)
        ensures
            r@ == Seq::<u64>::empty(),
    {
        Self { count: Vec::new() }
    }

    /// `update_batch`, on any column: it reads the column's length and null
    /// count and counts it into group `index` when that group exists and the
    /// count stays within a `u64`. Otherwise it returns `None` and changes
    /// nothing.
    pub fn try_update_batch(&mut self, index: usize, values: &[ArrayData]) -> (r: Option<
        Result<()>,
    >)
        requires
            values.len() > 0,
        ensures
            match r {
                None => {
                    &&& final(self)@ == old(self)@
                    &&& !<CountAccumulatorFly as AccumulatorFly>::update_batch_admits(
                        &*old(self),
                        index,
                        values@,
                    )
                },
                Some(res) => {
                    &&& <CountAccumulatorFly as AccumulatorFly>::update_batch_admits(
                        &*old(self),
                        index,
                        values@,
                    )
                    &&& <CountAccumulatorFly as AccumulatorFly>::update_batch_outcome(
                        &*old(self),
                        index,
                        values@,
                        *final(self),
                        res,
                    )
                },
            },
    {
        if index >= self.count.len() {
            return None;
        }
        let delta: u64 = if array_is_null_typed(&values[0]) {
            0
        } else {
            let len = array_len(&values[0]);
            let nulls = array_null_count(&values[0]);
            proof {
                lemma_slots_partition(array_validity(values@[0]));
            }
            (len - nulls) as u64
        };
        if self.count[index] > u64::MAX - delta {
            return None;
        }
        Some(AccumulatorFly::update_batch(self, index, values))
    }

    /// `merge_batch`, on any column of counts: it reads the column's slots and
    /// merges it when the column's total stays within a `u64` and, if some
    /// slot holds a value, group `index` exists and its new count stays within
    /// a `u64`. Otherwise it returns `None` and changes nothing.
    pub fn try_merge_batch(&mut self, index: usize, states: &[ArrayData]) -> (r: Option<
        Result<()>,
    >)
        requires
            states.len() > 0,
            is_u64_array(states@[0]),
        ensures
            match r {
                None => {
                    &&& final(self)@ == old(self)@
                    &&& !<CountAccumulatorFly as AccumulatorFly>::merge_batch_admits(
                        &*old(self),
                        index,
                        states@,
                    )
                },
                Some(res) => {
                    &&& <CountAccumulatorFly as AccumulatorFly>::merge_batch_admits(
                        &*old(self),
                        index,
                        states@,
                    )
                    &&& <CountAccumulatorFly as AccumulatorFly>::merge_batch_outcome(
                        &*old(self),
                        index,
                        states@,
                        *final(self),
                        res,
                    )
                },
            },
    {
        let slots = u64_slot_values(&states[0]);
        let ghost all = u64_slots(states@[0]);
        let mut total: u64 = 0;
        let mut any = false;
        let n = slots.len();
        for i in 0..n
            invariant
                n == slots@.len(),
                slots@ == all,
                all == u64_slots(states@[0]),
                self@ == old(self)@,
                total == present_sum(all.take(i as int)),
                any == has_present(all.take(i as int)),
        {
            let ghost prefix = all.take(i as int);
            let ghost next = all.take(i + 1);
            assert(next.drop_last() =~= prefix);
            assert forall|j: int| 0 <= j < i implies #[trigger] next[j] == prefix[j] by {}
            proof {
                if has_present(prefix) {
                    let j = choose|j: int| 0 <= j < prefix.len() && (#[trigger] prefix[j]) is Some;
                    assert(next[j] is Some);
                }
            }
            match slots[i] {
                Some(v) => {
                    assert(next[i as int] is Some);
                    assert(present_sum(next) == total + v);
                    if total > u64::MAX - v {
                        proof {
                            lemma_present_sum_prefix(all, i + 1);
                        }
                        return None;
                    }
                    total = total + v;
                    any = true;
                },
                None => {
                    proof {
                        if has_present(next) {
                            let j = choose|j: int|
                                0 <= j < next.len() && (#[trigger] next[j]) is Some;
                            assert(j != i);
                            assert(prefix[j] is Some);
                        }
                    }
                },
            }
        }
        assert(all.take(n as int) =~= all);
        if any {
            if index >= self.count.len() {
                return None;
            }
            if self.count[index] > u64::MAX - total {
                return None;
            }
        }
        Some(AccumulatorFly::merge_batch(self, index, states))
    }

    /// Opens group 0, at zero, when there is no group yet.
    fn open_first_group(&mut self)
        ensures
            final(self)@ == with_first_group(old(self)@),
    {
        if self.count.len() == 0 {
            self.count.push(0);
        }
    }

    /// Adds `delta` to group `index`.
    fn add(&mut self, index: usize, delta: u64)
        requires
            group_can_add(old(self)@, index as int, delta as nat),
        ensures
            final(self)@ == add_to_group(old(self)@, index as int, delta as nat),
    {
        let current = self.count[index];
        self.count.set(index, current + delta);
    }
}

impl AccumulatorFly for CountAccumulatorFly {
    open spec fn init_state_admits(&self, index: usize) -> bool {
        self@.len() == index
    }

    open spec fn init_state_outcome(&self, index: usize, after: Self) -> bool {
        after@ == self@.push(0)
    }

    open spec fn update_batch_admits(&self, index: usize, values: Seq<ArrayData>) -> bool {
        &&& values.len() > 0
        &&& group_can_add(self@, index as int, non_null_slots(values[0]))
    }

    open spec fn update_batch_outcome(
        &self,
        index: usize,
        values: Seq<ArrayData>,
        after: Self,
        r: Result<()>,
    ) -> bool {
        &&& r is Ok
        &&& after@ == add_to_group(self@, index as int, non_null_slots(values[0]))
    }

    open spec fn update_admits(&self, index: usize, values: Seq<ScalarValue>) -> bool {
        &&& values.len() > 0
        &&& (values[0].is_null() || group_can_add(self@, index as int, 1))
    }

    open spec fn update_outcome(
        &self,
        index: usize,
        values: Seq<ScalarValue>,
        after: Self,
        r: Result<()>,
    ) -> bool {
        &&& r is Ok
        &&& after@ == if values[0].is_null() {
            self@
        } else {
            add_to_group(self@, index as int, 1)
        }
    }

    open spec fn merge_admits(&self, index: usize, states: Seq<ScalarValue>) -> bool {
        &&& states.len() > 0
        &&& state_delta(states[0]) is Some
        &&& group_can_add(self@, index as int, state_delta(states[0])->0 as nat)
    }

    open spec fn merge_outcome(
        &self,
        index: usize,
        states: Seq<ScalarValue>,
        after: Self,
        r: Result<()>,
    ) -> bool {
        &&& r is Ok
        &&& after@ == add_to_group(self@, index as int, state_delta(states[0])->0 as nat)
    }

    open spec fn merge_batch_admits(&self, index: usize, states: Seq<ArrayData>) -> bool {
        &&& states.len() > 0
        &&& is_u64_array(states[0])
        &&& present_sum(u64_slots(states[0])) <= u64::MAX
        &&& has_present(u64_slots(states[0])) ==> group_can_add(
            self@,
            index as int,
            present_sum(u64_slots(states[0])),
        )
    }

    open spec fn merge_batch_outcome(
        &self,
        index: usize,
        states: Seq<ArrayData>,
        after: Self,
        r: Result<()>,
    ) -> bool {
        &&& r is Ok
        &&& after@ == if has_present(u64_slots(states[0])) {
            add_to_group(self@, index as int, present_sum(u64_slots(states[0])))
        } else {
            self@
        }
    }

    open spec fn has_group(&self, index: usize) -> bool {
        index < self@.len()
    }

    open spec fn state_outcome(&self, index: usize, r: Result<Vec<ScalarValue>>) -> bool {
        r matches Ok(v) && v@ == count_state(self@[index as int])
    }

    open spec fn evaluate_outcome(&self, index: usize, r: Result<ScalarValue>) -> bool {
        r matches Ok(v) && v == ScalarValue::UInt64(Some(self@[index as int]))
    }

    open spec fn evaluate_all_outcome(&self, r: Result<ArrayData>) -> bool {
        if self@.len() == 0 {
            r matches Err(DataFusionError::Internal(m)) && m@ == NO_GROUP_MESSAGE@
        } else {
            r matches Ok(a) && {
                &&& is_u64_array(a)
                &&& u64_slots(a) == self@.map_values(|c: u64| Some(c))
                &&& array_validity(a) == self@.map_values(|c: u64| true)
            }
        }
    }

    open spec fn state_all_outcome(&self, r: Result<Vec<Vec<ScalarValue>>>) -> bool {
        r matches Ok(v) && v@.len() == 1 && v@[0]@ == count_states(self@)
    }

    fn init_state(&mut self, index: usize) {
        self.count.push(0);
    }

    fn update_batch(&mut self, index: usize, values: &[ArrayData]) -> (r: Result<()>) {
        let array = &values[0];
        if array_is_null_typed(array) {
            self.add(index, 0);
        } else {
            let len = array_len(array);
            let nulls = array_null_count(array);
            proof {
                lemma_slots_partition(array_validity(*array));
            }
            self.add(index, (len - nulls) as u64);
        }
        Ok(())
    }

    fn update(&mut self, index: usize, values: &[ScalarValue]) -> (r: Result<()>) {
        let value = &values[0];
        if !value.is_null() {
            self.add(index, 1);
        }
        Ok(())
    }

    fn merge(&mut self, index: usize, states: &[ScalarValue]) -> (r: Result<()>) {
        let count = &states[0];
        match count {
            ScalarValue::UInt64(Some(delta)) => {
                self.add(index, *delta);
            },
            _ => {},
        }
        Ok(())
    }

    fn merge_batch(&mut self, index: usize, states: &[ArrayData]) -> (r: Result<()>) {
        let delta = u64_array_sum(&states[0]);
        match delta {
            Some(d) => {
                self.add(index, d);
            },
            None => {},
        }
        Ok(())
    }

    fn state(&self, index: usize) -> (r: Result<Vec<ScalarValue>>) {
        let v = vec![ScalarValue::UInt64(Some(self.count[index]))];
        assert(v@ =~= count_state(self@[index as int]));
        Ok(v)
    }

    fn evaluate(&self, index: usize) -> (r: Result<ScalarValue>) {
        Ok(ScalarValue::UInt64(Some(self.count[index])))
    }

    fn evaluate_all(&self) -> (r: Result<ArrayData>) {
        if self.count.len() == 0 {
            return Err(DataFusionError::Internal(String::from_str(NO_GROUP_MESSAGE)));
        }
        Ok(u64_array_from_values(self.count.clone()))
    }

    fn state_all(&self) -> (r: Result<Vec<Vec<ScalarValue>>>) {
        let n = self.count.len();
        let mut states: Vec<ScalarValue> = Vec::new();
        for i in 0..n
            invariant
                n == self@.len(),
                states@ == count_states(self@.take(i as int)),
        {
            states.push(ScalarValue::UInt64(Some(self.count[i])));
            assert(count_states(self@.take(i + 1)) =~= count_states(self@.take(i as int)).push(
                ScalarValue::UInt64(Some(self@[i as int])),
            ));
        }
        assert(self@.take(n as int) =~= self@);
        Ok(vec![states])
    }
}

impl Accumulator for CountAccumulatorFly {
    open spec fn update_batch_admits(&self, values: Seq<ArrayData>) -> bool {
        &&& values.len() > 0
        &&& group_can_add(with_first_group(self@), 0, non_null_slots(values[0]))
    }

    open spec fn update_batch_outcome(
        &self,
        values: Seq<ArrayData>,
        after: Self,
        r: Result<()>,
    ) -> bool {
        &&& r is Ok
        &&& after@ == add_to_group(
            with_first_group(self@),
            0,
            non_null_slots(values[0]),
        )
    }

    open spec fn update_admits(&self, values: Seq<ScalarValue>) -> bool {
        &&& values.len() > 0
        &&& (values[0].is_null() || group_can_add(with_first_group(self@), 0, 1))
    }

    open spec fn update_outcome(&self, values: Seq<ScalarValue>, after: Self, r: Result<()>) -> bool {
        &&& r is Ok
        &&& after@ == if values[0].is_null() {
            self@
        } else {
            add_to_group(with_first_group(self@), 0, 1)
        }
    }

    open spec fn merge_admits(&self, states: Seq<ScalarValue>) -> bool {
        &&& states.len() > 0
        &&& state_delta(states[0]) is Some
        &&& group_can_add(with_first_group(self@), 0, state_delta(states[0])->0 as nat)
    }

    open spec fn merge_outcome(&self, states: Seq<ScalarValue>, after: Self, r: Result<()>) -> bool {
        &&& r is Ok
        &&& after@ == add_to_group(with_first_group(self@), 0, state_delta(states[0])->0 as nat)
    }

    open spec fn merge_batch_admits(&self, states: Seq<ArrayData>) -> bool {
        &&& states.len() > 0
        &&& is_u64_array(states[0])
        &&& present_sum(u64_slots(states[0])) <= u64::MAX
        &&& has_present(u64_slots(states[0])) ==> group_can_add(
            with_first_group(self@),
            0,
            present_sum(u64_slots(states[0])),
        )
    }

    open spec fn merge_batch_outcome(&self, states: Seq<ArrayData>, after: Self, r: Result<()>) -> bool {
        &&& r is Ok
        &&& after@ == if has_present(u64_slots(states[0])) {
            add_to_group(with_first_group(self@), 0, present_sum(u64_slots(states[0])))
        } else {
            self@
        }
    }

    open spec fn state_outcome(&self, r: Result<Vec<ScalarValue>>) -> bool {
        r matches Ok(v) && v@ == count_state(first_group(self@))
    }

    open spec fn evaluate_outcome(&self, r: Result<ScalarValue>) -> bool {
        r matches Ok(v) && v == ScalarValue::UInt64(Some(first_group(self@)))
    }

    fn update_batch(&mut self, values: &[ArrayData]) -> (r: Result<()>) {
        self.open_first_group();
        AccumulatorFly::update_batch(self, 0, values)
    }

    fn update(&mut self, values: &[ScalarValue]) -> (r: Result<()>) {
        if values[0].is_null() {
            return Ok(());
        }
        self.open_first_group();
        AccumulatorFly::update(self, 0, values)
    }

    fn merge(&mut self, states: &[ScalarValue]) -> (r: Result<()>) {
        self.open_first_group();
        AccumulatorFly::merge(self, 0, states)
    }

    fn merge_batch(&mut self, states: &[ArrayData]) -> (r: Result<()>) {
        let delta = u64_array_sum(&states[0]);
        match delta {
            Some(d) => {
                self.open_first_group();
                self.add(0, d);
            },
            None => {},
        }
        Ok(())
    }

    fn state(&self) -> (r: Result<Vec<ScalarValue>>) {
        let count = if self.count.len() == 0 {
            0
        } else {
            self.count[0]
        };
        let v = vec![ScalarValue::UInt64(Some(count))];
        assert(v@ =~= count_state(first_group(self@)));
        Ok(v)
    }

    fn evaluate(&self) -> (r: Result<ScalarValue>) {
        let count = if self.count.len() == 0 {
            0
        } else {
            self.count[0]
        };
        Ok(ScalarValue::UInt64(Some(count)))
    }
}

} // verus!
