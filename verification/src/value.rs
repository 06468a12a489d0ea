//! The payload carried by update events: a closed set of value kinds.
//!
//! Floating point payloads are carried as their raw IEEE-754 bit
//! patterns; durations and timestamps as plain seconds and nanoseconds.
//! The host layer reinterprets these when it marshals a value into its
//! native representation.
use vstd::prelude::*;

verus! {

/// The host-facing classification of a [`Value`].
#[derive(Clone, Copy, Debug, PartialEq, Eq, Structural)]
pub enum ValueType {
    Null,
    Boolean,
    Integer,
    Float,
    String,
    Duration,
    DateTime,
    Buffer,
    Result,
    Array,
}

/// A value delivered by the pub/sub layer.
///
/// The set of kinds is closed: no further kinds may appear without a
/// protocol version bump on the wire.  `F32Bits` and `F64Bits` hold the
/// raw bits of the corresponding IEEE-754 value.
#[derive(Debug, PartialEq, Eq)]
pub enum Value {
    Null,
    True,
    False,
    U32(u32),
    V32(u32),
    I32(i32),
    Z32(i32),
    U64(u64),
    V64(u64),
    I64(i64),
    Z64(i64),
    F32Bits(u32),
    F64Bits(u64),
    DateTime { secs: i64, nanos: u32 },
    Duration { secs: u64, nanos: u32 },
    Text(String),
    Bytes(Vec<u8>),
    ResultOk,
    ResultError(String),
    Array(Vec<Value>),
}

impl Value {
    /// The classification of this value.
    pub open spec fn kind_spec(&self) -> ValueType {
        match self {
            Value::U32(_)
            | Value::V32(_)
            | Value::I32(_)
            | Value::Z32(_)
            | Value::U64(_)
            | Value::V64(_)
            | Value::I64(_)
            | Value::Z64(_) => ValueType::Integer,
            Value::F32Bits(_) | Value::F64Bits(_) => ValueType::Float,
            Value::DateTime { .. } => ValueType::DateTime,
            Value::Duration { .. } => ValueType::Duration,
            Value::Text(_) => ValueType::String,
            Value::Bytes(_) => ValueType::Buffer,
            Value::ResultOk | Value::ResultError(_) => ValueType::Result,
            Value::Array(_) => ValueType::Array,
            Value::True | Value::False => ValueType::Boolean,
            Value::Null => ValueType::Null,
        }
    }

    /// Classify the value, as the host-facing `type` accessor does.
    pub fn kind(&self) -> (k: ValueType)
        ensures
            k == self.kind_spec(),
    {
        match self {
            Value::U32(_)
            | Value::V32(_)
            | Value::I32(_)
            | Value::Z32(_)
            | Value::U64(_)
            | Value::V64(_)
            | Value::I64(_)
            | Value::Z64(_) => ValueType::Integer,
            Value::F32Bits(_) | Value::F64Bits(_) => ValueType::Float,
            Value::DateTime { .. } => ValueType::DateTime,
            Value::Duration { .. } => ValueType::Duration,
            Value::Text(_) => ValueType::String,
            Value::Bytes(_) => ValueType::Buffer,
            Value::ResultOk | Value::ResultError(_) => ValueType::Result,
            Value::Array(_) => ValueType::Array,
            Value::True | Value::False => ValueType::Boolean,
            Value::Null => ValueType::Null,
        }
    }
}

/// The host-facing classification of an [`Event`].
#[derive(Clone, Copy, Debug, PartialEq, Eq, Structural)]
pub enum EventType {
    Unsubscribed,
    Update,
}

/// One event for one subscription, in the order the network layer
/// produced it: either a new value, or a server-initiated teardown.
#[derive(Debug, PartialEq, Eq)]
pub enum Event {
    Unsubscribed,
    Update(Value),
}

impl Event {
    /// The classification of this event.
    pub open spec fn kind_spec(&self) -> EventType {
        match self {
            Event::Unsubscribed => EventType::Unsubscribed,
            Event::Update(_) => EventType::Update,
        }
    }

    /// Classify the event, as the host-facing `type` accessor does.
    pub fn kind(&self) -> (k: EventType)
        ensures
            k == self.kind_spec(),
    {
        match self {
            Event::Unsubscribed => EventType::Unsubscribed,
            Event::Update(_) => EventType::Update,
        }
    }
}

} // verus!
