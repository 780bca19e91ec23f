//! The HTTP adapter contract: the request and response bodies of the REST
//! surface, and the mapping from operation outcomes to status codes and
//! response shapes. A transport serializes these and speaks the protocol;
//! every decision it needs is taken here.

use vstd::prelude::*;

use crate::outcomes::{
    CreateTagResult, DeleteTagError, ReadTagError, UpdateValueError, UpdateValueResult,
};
use crate::tag::{Tag, TagValue, Timestamp};
use crate::value::{DataType, Unit, Value};

verus! {

/// Body of `POST /api/v1/tags`.
pub struct CreateTagRequest {
    pub name: String,
    pub unit: Unit,
    pub data_type: DataType,
}

/// Body answering a create request.
pub struct CreateTagResponse {
    pub name: String,
    pub result: CreateTagResult,
}

/// Body of `PUT /api/v1/tags/{name}/value`.
pub struct UpdateValueRequest {
    pub value: Value,
    pub timestamp: Option<Timestamp>,
}

/// Body answering an accepted update.
pub struct UpdateValueResponse {
    pub result: UpdateValueResult,
}

/// One tag's current value as presented on the wire, with its runtime type
/// alongside.
pub struct ValueResponse {
    pub value: Value,
    pub timestamp: Option<Timestamp>,
    pub data_type: DataType,
}

/// One tag's metadata as presented on the wire.
pub struct TagMetaResponse {
    pub unit: Unit,
    pub data_type: DataType,
}

/// One catalog entry as presented on the wire.
pub struct TagResponse {
    pub name: String,
    pub value: ValueResponse,
    pub meta: TagMetaResponse,
}

/// Body of the catalog listing.
pub struct ListTagsResponse {
    pub tags: Vec<TagResponse>,
}

/// Body of `GET /api/v1/health`.
pub struct HealthResponse {
    pub status: String,
}

/// Structured detail accompanying a rejected update.
pub struct UpdateErrorDetail {
    pub error: String,
    pub expected: Option<String>,
    pub actual: Option<String>,
    pub previous_timestamp: Option<Timestamp>,
}

impl From<TagValue> for ValueResponse {
    fn from(tag_value: TagValue) -> (r: ValueResponse) {
        let data_type = tag_value.value.get_data_type();
        ValueResponse { value: tag_value.value, timestamp: tag_value.timestamp, data_type }
    }
}

impl vstd::std_specs::convert::FromSpecImpl<TagValue> for ValueResponse {
    open spec fn obeys_from_spec() -> bool {
        true
    }

    open spec fn from_spec(tag_value: TagValue) -> ValueResponse {
        ValueResponse {
            value: tag_value.value,
            timestamp: tag_value.timestamp,
            data_type: tag_value.value@.data_type(),
        }
    }
}

impl From<Tag> for TagResponse {
    fn from(tag: Tag) -> (r: TagResponse) {
        let data_type = tag.value.value.get_data_type();
        TagResponse {
            name: tag.name,
            value: ValueResponse {
                value: tag.value.value,
                timestamp: tag.value.timestamp,
                data_type,
            },
            meta: TagMetaResponse { unit: tag.meta.unit, data_type: tag.meta.data_type },
        }
    }
}

impl vstd::std_specs::convert::FromSpecImpl<Tag> for TagResponse {
    open spec fn obeys_from_spec() -> bool {
        true
    }

    open spec fn from_spec(tag: Tag) -> TagResponse {
        TagResponse {
            name: tag.name,
            value: ValueResponse {
                value: tag.value.value,
                timestamp: tag.value.timestamp,
                data_type: tag.value.value@.data_type(),
            },
            meta: TagMetaResponse { unit: tag.meta.unit, data_type: tag.meta.data_type },
        }
    }
}

impl UpdateValueRequest {
    /// The value to submit for this request: its timestamp where it carries
    /// one, else the adapter's present instant. The core itself never
    /// substitutes a clock reading.
    pub fn into_tag_value(self, now: Timestamp) -> (r: TagValue)
        ensures
            r@.value == self.value@,
            r@.timestamp == (if self.timestamp is Some {
                self.timestamp
            } else {
                Some(now)
            }),
    {
        let timestamp = match self.timestamp {
            Some(t) => Some(t),
            None => Some(now),
        };
        TagValue { value: self.value, timestamp }
    }
}

/// The status answering a create: 201 on creation, 409 on a taken name.
pub fn create_status(result: &CreateTagResult) -> (s: u16)
    ensures
        s == (match result {
            CreateTagResult::SuccessfullyCreated => 201u16,
            CreateTagResult::AlreadyExists => 409u16,
        }),
{
    match result {
        CreateTagResult::SuccessfullyCreated => 201,
        CreateTagResult::AlreadyExists => 409,
    }
}

/// The status answering an update: 200 on acceptance, 404 for an unknown
/// name, 400 for every validation failure.
pub fn update_status(result: &Result<UpdateValueResult, UpdateValueError>) -> (s: u16)
    ensures
        s == (match result {
            Ok(_) => 200u16,
            Err(UpdateValueError::TagNameNotFound) => 404u16,
            Err(_) => 400u16,
        }),
{
    match result {
        Ok(_) => 200,
        Err(UpdateValueError::TagNameNotFound) => 404,
        Err(_) => 400,
    }
}

/// The status answering a read: 200 with the tag, else 404.
pub fn read_status(result: &Result<Tag, ReadTagError>) -> (s: u16)
    ensures
        s == (match result {
            Ok(_) => 200u16,
            Err(_) => 404u16,
        }),
{
    match result {
        Ok(_) => 200,
        Err(_) => 404,
    }
}

/// The status answering a delete: 204 on removal, else 404.
pub fn delete_status(result: &Result<(), DeleteTagError>) -> (s: u16)
    ensures
        s == (match result {
            Ok(_) => 204u16,
            Err(_) => 404u16,
        }),
{
    match result {
        Ok(_) => 204,
        Err(_) => 404,
    }
}

/// The health probe's answer.
pub fn health_check() -> (r: HealthResponse)
    ensures
        r.status@ == "healthy"@,
{
    HealthResponse { status: "healthy".to_string() }
}

/// The structured detail owed for each rejected update: a message naming
/// the rule, the expected and found type names on a type mismatch, and the
/// stored instant on a stale write.
pub fn update_error_detail(e: &UpdateValueError) -> (r: UpdateErrorDetail)
    ensures
        match e {
            UpdateValueError::TimestampOutOfOrder { previous } => r.error@
                == "Timestamp out of order"@ && r.expected is None && r.actual is None
                && r.previous_timestamp == Some(*previous),
            UpdateValueError::InvalidDataType { expected, actual } => r.error@
                == "Invalid data type"@ && (r.expected matches Some(x) && x@
                == expected.name_spec()) && (r.actual matches Some(a) && a@ == actual.name_spec())
                && r.previous_timestamp is None,
            UpdateValueError::NoneTimestampProvided => r.error@
                == "Timestamp is required after first update"@ && r.expected is None
                && r.actual is None && r.previous_timestamp is None,
            UpdateValueError::TagNameNotFound => r.error@ == "Tag not found"@ && r.expected is None
                && r.actual is None && r.previous_timestamp is None,
        },
{
    match e {
        UpdateValueError::TimestampOutOfOrder { previous } => UpdateErrorDetail {
            error: "Timestamp out of order".to_string(),
            expected: None,
            actual: None,
            previous_timestamp: Some(*previous),
        },
        UpdateValueError::InvalidDataType { expected, actual } => UpdateErrorDetail {
            error: "Invalid data type".to_string(),
            expected: Some(expected.name()),
            actual: Some(actual.name()),
            previous_timestamp: None,
        },
        UpdateValueError::NoneTimestampProvided => UpdateErrorDetail {
            error: "Timestamp is required after first update".to_string(),
            expected: None,
            actual: None,
            previous_timestamp: None,
        },
        UpdateValueError::TagNameNotFound => UpdateErrorDetail {
            error: "Tag not found".to_string(),
            expected: None,
            actual: None,
            previous_timestamp: None,
        },
    }
}

} // verus!
