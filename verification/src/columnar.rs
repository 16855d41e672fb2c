//! The Arrow items that the aggregate reads and builds, with what their
//! contracts claim of the `arrow` crate.

use arrow::array::{Array, ArrayData, UInt64Array};
use arrow::datatypes::{DataType, Field};
use vstd::prelude::*;

verus! {

#[verifier::external_type_specification]
#[verifier::external_body]
pub struct ExArrayData(ArrayData);

#[verifier::external_type_specification]
#[verifier::external_body]
pub struct ExDataType(DataType);

#[verifier::external_type_specification]
#[verifier::external_body]
pub struct ExField(Field);

/// The slots of an array, in order: `true` where the slot holds a value,
/// `false` where it is null.
pub uninterp spec fn array_validity(data: ArrayData) -> Seq<bool>;

/// Whether the array's data type is `DataType::Null`: an array whose every
/// slot is null, as `NullArray` reports, whatever its validity bitmap and
/// `ArrayData::null_count` say (`NullArray::new` records a null count of 0).
pub uninterp spec fn is_null_typed(data: ArrayData) -> bool;

/// Whether the data is the data of a `UInt64Array`: its data type is
/// `DataType::UInt64` and it is as `UInt64Array::from(ArrayData)` accepts it,
/// with exactly one values buffer, aligned for `u64`. Every `UInt64Array`
/// holds such data; `UInt64Array::from(ArrayData)` panics on a values buffer
/// that is not aligned.
pub uninterp spec fn is_u64_array(data: ArrayData) -> bool;

/// The slots of an array read as unsigned 64-bit integers, in order:
/// `Some(v)` where the slot holds `v`, `None` where it is null.
pub uninterp spec fn u64_slots(data: ArrayData) -> Seq<Option<u64>>;

/// The number of slots that hold a value.
pub open spec fn valid_slots(validity: Seq<bool>) -> nat
    decreases validity.len(),
{
    if validity.len() == 0 {
        0
    } else {
        valid_slots(validity.drop_last()) + if validity.last() { 1nat } else { 0nat }
    }
}

/// The number of slots of the array that hold a value: none in a
/// `Null`-typed array, else its valid slots.
pub open spec fn non_null_slots(data: ArrayData) -> nat {
    if is_null_typed(data) {
        0
    } else {
        valid_slots(array_validity(data))
    }
}

/// The number of null slots.
pub open spec fn null_slots(validity: Seq<bool>) -> nat
    decreases validity.len(),
{
    if validity.len() == 0 {
        0
    } else {
        null_slots(validity.drop_last()) + if validity.last() { 0nat } else { 1nat }
    }
}

/// The sum of the values that the slots hold; null slots add nothing.
pub open spec fn present_sum(slots: Seq<Option<u64>>) -> nat
    decreases slots.len(),
{
    if slots.len() == 0 {
        0
    } else {
        present_sum(slots.drop_last()) + match slots.last() {
            Some(v) => v as nat,
            None => 0nat,
        }
    }
}

/// Whether some slot holds a value.
pub open spec fn has_present(slots: Seq<Option<u64>>) -> bool {
    exists|i: int| 0 <= i < slots.len() && (#[trigger] slots[i]) is Some
}

/// Every slot is either valid or null.
pub proof fn lemma_slots_partition(validity: Seq<bool>)
    ensures
        valid_slots(validity) + null_slots(validity) == validity.len(),
    decreases validity.len(),
{
    if validity.len() > 0 {
        lemma_slots_partition(validity.drop_last());
    }
}

/// A prefix of the slots sums to no more than all of them.
pub proof fn lemma_present_sum_prefix(slots: Seq<Option<u64>>, n: int)
    requires
        0 <= n <= slots.len(),
    ensures
        present_sum(slots.take(n)) <= present_sum(slots),
    decreases slots.len(),
{
    if n < slots.len() {
        lemma_present_sum_prefix(slots.drop_last(), n);
        assert(slots.drop_last().take(n) =~= slots.take(n));
    } else {
        assert(slots.take(n) =~= slots);
    }
}

/// `ArrayData::len`: the number of slots of the array.
#[verifier::external_body]
pub(crate) fn array_len(data: &ArrayData) -> (r: usize)
    ensures
        r == array_validity(*data).len(),
{
    data.len()
}

/// `ArrayData::null_count`: the number of null slots of the array, as its
/// documentation ("the total number of nulls in this array") states. The
/// count is the one recorded when the array was built; the safe constructors
/// of `arrow` compute it from the validity bitmap.
#[verifier::external_body]
pub(crate) fn array_null_count(data: &ArrayData) -> (r: usize)
    ensures
        r == null_slots(array_validity(*data)),
{
    data.null_count()
}

/// `ArrayData::data_type`, told apart into `DataType::Null` and every other
/// data type.
#[verifier::external_body]
pub(crate) fn array_is_null_typed(data: &ArrayData) -> (r: bool)
    ensures
        r == is_null_typed(*data),
{
    match data.data_type() {
        DataType::Null => true,
        _ => false,
    }
}

/// `arrow::compute::sum` on the array read as a `UInt64Array`
/// (`UInt64Array::from(ArrayData)`): `None` when no slot holds a value (the
/// array is empty or all null), else the sum of the values. The kernel adds
/// with `+`, which panics on overflow in a debug build, so the total must fit
/// in a `u64`.
#[verifier::external_body]
pub(crate) fn u64_array_sum(data: &ArrayData) -> (r: Option<u64>)
    requires
        is_u64_array(*data),
        present_sum(u64_slots(*data)) <= u64::MAX,
    ensures
        r == if has_present(u64_slots(*data)) {
            Some(present_sum(u64_slots(*data)) as u64)
        } else {
            None
        },
{
    arrow::compute::sum(&UInt64Array::from(data.clone()))
}

/// The slots of the data read as a `UInt64Array`
/// (`UInt64Array::from(ArrayData)`), in order, `None` where a slot is null.
#[verifier::external_body]
pub(crate) fn u64_slot_values(data: &ArrayData) -> (r: Vec<Option<u64>>)
    requires
        is_u64_array(*data),
    ensures
        r@ == u64_slots(*data),
{
    UInt64Array::from(data.clone()).iter().collect()
}

/// `UInt64Array::from(Vec<u64>)`, taken as its `ArrayData`: an unsigned
/// 64-bit array with one valid slot per value, in order.
#[verifier::external_body]
pub(crate) fn u64_array_from_values(values: Vec<u64>) -> (r: ArrayData)
    ensures
        is_u64_array(r),
        u64_slots(r) == values@.map_values(|v: u64| Some(v)),
        array_validity(r) == values@.map_values(|v: u64| true),
{
    UInt64Array::from(values).data().clone()
}

/// `DataType::clone` (derived): an equal data type.
#[verifier::external_body]
pub(crate) fn clone_data_type(data_type: &DataType) -> (r: DataType)
    ensures
        r == *data_type,
{
    data_type.clone()
}

/// The field that `Field::new` builds from a name, a data type and a
/// nullability. `Field::new` reads nothing else: it copies the three into the
/// field, with no dictionary id, unordered dictionary and no metadata.
pub uninterp spec fn arrow_field(name: Seq<char>, data_type: DataType, nullable: bool) -> Field;

/// `Field::new`: the field with this name, data type and nullability. What
/// the field's getters then return is not claimed here.
#[verifier::external_body]
pub(crate) fn new_field(name: &str, data_type: DataType, nullable: bool) -> (r: Field)
    ensures
        r == arrow_field(name@, data_type, nullable),
{
    Field::new(name, data_type, nullable)
}

} // verus!
