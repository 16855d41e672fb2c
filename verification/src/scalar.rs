use arrow::datatypes::DataType;
use vstd::prelude::*;

verus! {

/// A single value of a column, or the absence of one (`None`).
#[derive(Debug, PartialEq)]
pub enum ScalarValue {
    Boolean(Option<bool>),
    Int8(Option<i8>),
    Int16(Option<i16>),
    Int32(Option<i32>),
    Int64(Option<i64>),
    UInt8(Option<u8>),
    UInt16(Option<u16>),
    UInt32(Option<u32>),
    UInt64(Option<u64>),
    Utf8(Option<String>),
    LargeUtf8(Option<String>),
    Binary(Option<Vec<u8>>),
    LargeBinary(Option<Vec<u8>>),
    /// A list of values of the given item type.
    List(Option<Vec<ScalarValue>>, Box<DataType>),
    /// Days since the UNIX epoch.
    Date32(Option<i32>),
    /// Milliseconds since the UNIX epoch.
    Date64(Option<i64>),
    TimestampSecond(Option<i64>),
    TimestampMillisecond(Option<i64>),
    TimestampMicrosecond(Option<i64>),
    TimestampNanosecond(Option<i64>),
    /// A number of months.
    IntervalYearMonth(Option<i32>),
    /// A number of days and milliseconds.
    IntervalDayTime(Option<i64>),
}

impl ScalarValue {
    /// Whether the value is absent.
    pub open spec fn spec_is_null(&self) -> bool {
        match self {
            ScalarValue::Boolean(v) => v is None,
            ScalarValue::Int8(v) => v is None,
            ScalarValue::Int16(v) => v is None,
            ScalarValue::Int32(v) => v is None,
            ScalarValue::Int64(v) => v is None,
            ScalarValue::UInt8(v) => v is None,
            ScalarValue::UInt16(v) => v is None,
            ScalarValue::UInt32(v) => v is None,
            ScalarValue::UInt64(v) => v is None,
            ScalarValue::Utf8(v) => v is None,
            ScalarValue::LargeUtf8(v) => v is None,
            ScalarValue::Binary(v) => v is None,
            ScalarValue::LargeBinary(v) => v is None,
            ScalarValue::List(v, _) => v is None,
            ScalarValue::Date32(v) => v is None,
            ScalarValue::Date64(v) => v is None,
            ScalarValue::TimestampSecond(v) => v is None,
            ScalarValue::TimestampMillisecond(v) => v is None,
            ScalarValue::TimestampMicrosecond(v) => v is None,
            ScalarValue::TimestampNanosecond(v) => v is None,
            ScalarValue::IntervalYearMonth(v) => v is None,
            ScalarValue::IntervalDayTime(v) => v is None,
        }
    }

    /// Returns whether the value is absent.
    #[verifier::when_used_as_spec(spec_is_null)]
    pub fn is_null(&self) -> (r: bool)
        ensures
            r == self.spec_is_null(),
    {
        match self {
            ScalarValue::Boolean(v) => v.is_none(),
            ScalarValue::Int8(v) => v.is_none(),
            ScalarValue::Int16(v) => v.is_none(),
            ScalarValue::Int32(v) => v.is_none(),
            ScalarValue::Int64(v) => v.is_none(),
            ScalarValue::UInt8(v) => v.is_none(),
            ScalarValue::UInt16(v) => v.is_none(),
            ScalarValue::UInt32(v) => v.is_none(),
            ScalarValue::UInt64(v) => v.is_none(),
            ScalarValue::Utf8(v) => v.is_none(),
            ScalarValue::LargeUtf8(v) => v.is_none(),
            ScalarValue::Binary(v) => v.is_none(),
            ScalarValue::LargeBinary(v) => v.is_none(),
            ScalarValue::List(v, _) => v.is_none(),
            ScalarValue::Date32(v) => v.is_none(),
            ScalarValue::Date64(v) => v.is_none(),
            ScalarValue::TimestampSecond(v) => v.is_none(),
            ScalarValue::TimestampMillisecond(v) => v.is_none(),
            ScalarValue::TimestampMicrosecond(v) => v.is_none(),
            ScalarValue::TimestampNanosecond(v) => v.is_none(),
            ScalarValue::IntervalYearMonth(v) => v.is_none(),
            ScalarValue::IntervalDayTime(v) => v.is_none(),
        }
    }
}

impl From<u64> for ScalarValue {
    fn from(value: u64) -> (r: ScalarValue) {
        ScalarValue::UInt64(Some(value))
    }
}

impl vstd::std_specs::convert::FromSpecImpl<u64> for ScalarValue {
    open spec fn obeys_from_spec() -> bool {
        true
    }

    open spec fn from_spec(value: u64) -> ScalarValue {
        ScalarValue::UInt64(Some(value))
    }
}

} // verus!
