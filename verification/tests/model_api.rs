use rcada::api::{
    health_check, update_error_detail, TagResponse, UpdateValueRequest, ValueResponse,
};
use rcada::dispatch::{Reply, Request};
use rcada::outcomes::UpdateValueError;
use rcada::store::TagStore;
use rcada::tag::{Tag, TagMeta, TagValue, Timestamp};
use rcada::value::{DataType, Unit, Value};

#[test]
fn runtime_types_resolve() {
    assert_eq!(Value::Integer(3).get_data_type(), DataType::Integer);
    assert_eq!(Value::Float(0).get_data_type(), DataType::Float);
    assert_eq!(Value::Boolean(true).get_data_type(), DataType::Boolean);
    assert_eq!(Value::String("x".to_string()).get_data_type(), DataType::String);
}

#[test]
fn defaults_are_zeroes() {
    assert_eq!(Value::default_with_data_type(DataType::Integer), Value::Integer(0));
    assert_eq!(Value::default_with_data_type(DataType::Float), Value::Float(0.0f32.to_bits()));
    assert_eq!(Value::default_with_data_type(DataType::Boolean), Value::Boolean(false));
    assert_eq!(
        Value::default_with_data_type(DataType::String),
        Value::String(String::new())
    );
}

#[test]
fn value_equality_is_structural() {
    assert_eq!(Value::Float(25.5f32.to_bits()), Value::Float(25.5f32.to_bits()));
    assert_ne!(Value::Float(25.5f32.to_bits()), Value::Float(26.0f32.to_bits()));
    assert_ne!(Value::Integer(1), Value::Float(1.0f32.to_bits()));
    assert_eq!(
        Value::String("abc".to_string()),
        Value::String("abc".to_string())
    );
    assert_ne!(
        Value::String("abc".to_string()),
        Value::String("abd".to_string())
    );
}

#[test]
fn health_reports_healthy() {
    assert_eq!(health_check().status, "healthy");
}

#[test]
fn tag_response_carries_runtime_type() {
    let tag = Tag {
        name: "temp".to_string(),
        value: TagValue {
            value: Value::Float(25.5f32.to_bits()),
            timestamp: Some(Timestamp::new(7)),
        },
        meta: TagMeta {
            unit: Unit::Celsius,
            data_type: DataType::Float,
        },
    };
    let response = TagResponse::from(tag);
    assert_eq!(response.name, "temp");
    assert_eq!(response.value.value, Value::Float(25.5f32.to_bits()));
    assert_eq!(response.value.timestamp, Some(Timestamp::new(7)));
    assert_eq!(response.value.data_type, DataType::Float);
    assert_eq!(response.meta.unit, Unit::Celsius);
    assert_eq!(response.meta.data_type, DataType::Float);

    let value_response = ValueResponse::from(TagValue {
        value: Value::Integer(3),
        timestamp: None,
    });
    assert_eq!(value_response.data_type, DataType::Integer);
}

#[test]
fn request_without_timestamp_takes_now() {
    let now = Timestamp::new(1_704_067_200_000);
    let with = UpdateValueRequest {
        value: Value::Integer(1),
        timestamp: Some(Timestamp::new(5)),
    };
    assert_eq!(with.into_tag_value(now).timestamp, Some(Timestamp::new(5)));

    let without = UpdateValueRequest {
        value: Value::Integer(1),
        timestamp: None,
    };
    assert_eq!(without.into_tag_value(now).timestamp, Some(now));
}

#[test]
fn error_details_name_each_rule() {
    let stale = update_error_detail(&UpdateValueError::TimestampOutOfOrder {
        previous: Timestamp::new(3),
    });
    assert_eq!(stale.error, "Timestamp out of order");
    assert_eq!(stale.previous_timestamp, Some(Timestamp::new(3)));

    let mismatch = update_error_detail(&UpdateValueError::InvalidDataType {
        expected: DataType::Float,
        actual: DataType::Boolean,
    });
    assert_eq!(mismatch.error, "Invalid data type");
    assert_eq!(mismatch.expected.as_deref(), Some("Float"));
    assert_eq!(mismatch.actual.as_deref(), Some("Boolean"));

    let missing = update_error_detail(&UpdateValueError::NoneTimestampProvided);
    assert_eq!(missing.error, "Timestamp is required after first update");

    let unknown = update_error_detail(&UpdateValueError::TagNameNotFound);
    assert_eq!(unknown.error, "Tag not found");
}

#[test]
fn dispatch_answers_every_kind() {
    let mut store = TagStore::new();
    let name = "t".to_string();

    assert!(matches!(
        store.dispatch(Request::TagExists { name: name.clone() }),
        Reply::TagExists(false)
    ));
    assert!(matches!(
        store.dispatch(Request::CreateTag {
            name: name.clone(),
            unit: Unit::Volt,
            data_type: DataType::Boolean,
        }),
        Reply::CreateTag(_)
    ));
    assert!(matches!(
        store.dispatch(Request::TagExists { name: name.clone() }),
        Reply::TagExists(true)
    ));
    assert!(matches!(
        store.dispatch(Request::GetTagDataType { name: name.clone() }),
        Reply::GetTagDataType(Some(DataType::Boolean))
    ));
    match store.dispatch(Request::GetTagValue { name: name.clone() }) {
        Reply::GetTagValue(Some(v)) => assert_eq!(v.value, Value::Boolean(false)),
        other => panic!("unexpected reply {:?}", std::mem::discriminant(&other)),
    }
    assert!(matches!(
        store.dispatch(Request::UpdateTagValue {
            name: name.clone(),
            value: TagValue {
                value: Value::Boolean(true),
                timestamp: Some(Timestamp::new(1)),
            },
        }),
        Reply::UpdateTagValue(Ok(_))
    ));
    match store.dispatch(Request::GetAllTags) {
        Reply::GetAllTags(tags) => {
            assert_eq!(tags.len(), 1);
            assert_eq!(tags[0].value.value, Value::Boolean(true));
        },
        _ => panic!("reply kind does not match request kind"),
    }
    match store.dispatch(Request::GetTag { name: name.clone() }) {
        Reply::GetTag(Ok(tag)) => assert_eq!(tag.name, "t"),
        _ => panic!("reply kind does not match request kind"),
    }
    assert!(matches!(
        store.dispatch(Request::DeleteTag { name: name.clone() }),
        Reply::DeleteTag(Ok(()))
    ));
    assert!(matches!(
        store.dispatch(Request::GetTag { name: name.clone() }),
        Reply::GetTag(Err(_))
    ));
}
