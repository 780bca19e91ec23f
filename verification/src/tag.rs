//! Tag records: a named, typed data point with its current value, the
//! instant it was observed, and immutable metadata.

use vstd::prelude::*;

use crate::value::{DataType, Unit, Value, ValueView};

verus! {

/// A UTC instant, counted in milliseconds since the Unix epoch.
///
/// The store never reads a clock itself; instants are handed in by callers
/// and only compared, so a plain signed millisecond count carries everything
/// the logic needs.
#[derive(Clone, Copy, PartialEq, Eq, Structural, Debug, Hash)]
pub struct Timestamp {
    pub millis: i64,
}

impl Timestamp {
    pub fn new(millis: i64) -> (r: Self)
        ensures
            r.millis == millis,
    {
        Timestamp { millis }
    }
}

/// A value plus the instant it was observed. The instant is absent if and
/// only if the tag has never been written since creation.
#[derive(PartialEq, Debug)]
pub struct TagValue {
    pub value: Value,
    pub timestamp: Option<Timestamp>,
}

impl Clone for TagValue {
    fn clone(&self) -> (res: Self)
        ensures
            res@ == self@,
    {
        TagValue { value: self.value.clone(), timestamp: self.timestamp }
    }
}

/// The mathematical model of a `TagValue`.
pub struct TagValueView {
    pub value: ValueView,
    pub timestamp: Option<Timestamp>,
}

impl View for TagValue {
    type V = TagValueView;

    open spec fn view(&self) -> TagValueView {
        TagValueView { value: self.value@, timestamp: self.timestamp }
    }
}

/// Immutable per-tag schema: engineering unit and declared type. Never
/// mutated after creation.
#[derive(Clone, Copy, PartialEq, Eq, Structural, Debug, Hash)]
pub struct TagMeta {
    pub unit: Unit,
    pub data_type: DataType,
}

/// What the store holds for one name: the current value and the metadata.
#[derive(Clone, PartialEq, Debug)]
pub struct TagRecord {
    pub value: TagValue,
    pub meta: TagMeta,
}

/// The mathematical model of a `TagRecord`.
pub struct TagRecordView {
    pub value: TagValueView,
    pub meta: TagMeta,
}

impl View for TagRecord {
    type V = TagRecordView;

    open spec fn view(&self) -> TagRecordView {
        TagRecordView { value: self.value@, meta: self.meta }
    }
}

impl TagRecordView {
    /// Type conformance: the stored value's runtime type equals the declared
    /// type.
    pub open spec fn conforms(self) -> bool {
        self.value.value.data_type() == self.meta.data_type
    }

    /// The record a freshly created tag holds: the zero of its declared
    /// type, with no timestamp.
    pub open spec fn fresh(unit: Unit, data_type: DataType) -> TagRecordView {
        TagRecordView {
            value: TagValueView {
                value: ValueView::default_for(data_type),
                timestamp: None,
            },
            meta: TagMeta { unit, data_type },
        }
    }
}

/// A snapshot of one catalog entry, as handed out by read and list
/// operations.
#[derive(Clone, PartialEq, Debug)]
pub struct Tag {
    pub name: String,
    pub value: TagValue,
    pub meta: TagMeta,
}

/// The mathematical model of a `Tag`.
pub struct TagView {
    pub name: Seq<char>,
    pub value: TagValueView,
    pub meta: TagMeta,
}

impl View for Tag {
    type V = TagView;

    open spec fn view(&self) -> TagView {
        TagView { name: self.name@, value: self.value@, meta: self.meta }
    }
}

} // verus!
