//! The write-path validator: the only operation with rules beyond the store
//! primitives. It enforces declared-type conformance, the first-write
//! bootstrap, strict timestamp monotonicity, and idempotent-write detection.

use vstd::prelude::*;

use crate::outcomes::{UpdateValueError, UpdateValueResult};
use crate::store::TagStore;
use crate::tag::{TagRecordView, TagValue, TagValueView};

verus! {

/// What a validated update reports, given the catalog it runs against.
///
/// In order: unknown names are rejected; then a value whose runtime type
/// differs from the declared type; then, once the tag has a stored
/// timestamp, a write without one, and a write whose timestamp does not
/// strictly advance. An accepted write reports `Updated` exactly when the
/// incoming value differs structurally from the stored one.
pub open spec fn spec_update_result(
    m: Map<Seq<char>, TagRecordView>,
    name: Seq<char>,
    incoming: TagValueView,
) -> Result<UpdateValueResult, UpdateValueError> {
    if !m.dom().contains(name) {
        Err(UpdateValueError::TagNameNotFound)
    } else {
        let record = m[name];
        if incoming.value.data_type() != record.meta.data_type {
            Err(
                UpdateValueError::InvalidDataType {
                    expected: record.meta.data_type,
                    actual: incoming.value.data_type(),
                },
            )
        } else {
            match record.value.timestamp {
                Some(previous) => match incoming.timestamp {
                    None => Err(UpdateValueError::NoneTimestampProvided),
                    Some(t) => if previous.millis >= t.millis {
                        Err(UpdateValueError::TimestampOutOfOrder { previous })
                    } else if record.value.value == incoming.value {
                        Ok(UpdateValueResult::Ignored)
                    } else {
                        Ok(UpdateValueResult::Updated)
                    },
                },
                None => if record.value.value == incoming.value {
                    Ok(UpdateValueResult::Ignored)
                } else {
                    Ok(UpdateValueResult::Updated)
                },
            }
        }
    }
}

/// How a validated update leaves the catalog: an accepted write replaces
/// the tag's value (metadata untouched); a rejected write changes nothing.
pub open spec fn spec_update_state(
    m: Map<Seq<char>, TagRecordView>,
    name: Seq<char>,
    incoming: TagValueView,
) -> Map<Seq<char>, TagRecordView> {
    if spec_update_result(m, name, incoming) is Ok {
        m.insert(name, TagRecordView { value: incoming, meta: m[name].meta })
    } else {
        m
    }
}

impl TagStore {
    /// Validated value update, per the write-path rules of
    /// `spec_update_result`.
    pub fn update_tag_value(&mut self, name: &String, value: TagValue) -> (r: Result<
        UpdateValueResult,
        UpdateValueError,
    >)
        ensures
            r == spec_update_result(old(self)@, name@, value@),
            final(self)@ == spec_update_state(old(self)@, name@, value@),
    {
        let data_type = match self.get_tag_data_type(name) {
            Some(dt) => dt,
            None => {
                return Err(UpdateValueError::TagNameNotFound);
            },
        };

        let incoming_type = value.value.get_data_type();
        if incoming_type != data_type {
            return Err(
                UpdateValueError::InvalidDataType { expected: data_type, actual: incoming_type },
            );
        }

        let stored = match self.get_tag_value(name) {
            Some(v) => v,
            None => {
                return Err(UpdateValueError::TagNameNotFound);
            },
        };

        if let Some(previous) = stored.timestamp {
            match value.timestamp {
                None => {
                    return Err(UpdateValueError::NoneTimestampProvided);
                },
                Some(t) => {
                    if previous.millis >= t.millis {
                        return Err(UpdateValueError::TimestampOutOfOrder { previous });
                    }
                },
            }
        }

        let changed = !(stored.value == value.value);
        let _prior = self.replace_value(name, value);
        if changed {
            Ok(UpdateValueResult::Updated)
        } else {
            Ok(UpdateValueResult::Ignored)
        }
    }
}

} // verus!
