//! End-to-end passes over the catalog, as the HTTP surface drives it: each
//! step dispatches a request and maps the outcome to its status code.

use rcada::api::{create_status, delete_status, read_status, update_error_detail, update_status};
use rcada::dispatch::{Reply, Request};
use rcada::outcomes::{CreateTagResult, UpdateValueError, UpdateValueResult};
use rcada::store::TagStore;
use rcada::tag::{TagValue, Timestamp};
use rcada::value::{DataType, Unit, Value};

/// 2024-01-01T00:00:00Z, in milliseconds since the epoch.
const T_JAN1: i64 = 1_704_067_200_000;
/// 2023-12-31T23:59:59Z.
const T_STALE: i64 = 1_704_067_199_000;
/// 2024-01-02T00:00:00Z.
const T_JAN2: i64 = 1_704_153_600_000;

fn create_temp(store: &mut TagStore, unit: Unit, data_type: DataType) -> CreateTagResult {
    match store.dispatch(Request::CreateTag {
        name: "temp".to_string(),
        unit,
        data_type,
    }) {
        Reply::CreateTag(result) => result,
        _ => panic!("reply kind does not match request kind"),
    }
}

fn put_value(store: &mut TagStore, value: Value, millis: Option<i64>) -> Result<UpdateValueResult, UpdateValueError> {
    match store.dispatch(Request::UpdateTagValue {
        name: "temp".to_string(),
        value: TagValue {
            value,
            timestamp: millis.map(Timestamp::new),
        },
    }) {
        Reply::UpdateTagValue(result) => result,
        _ => panic!("reply kind does not match request kind"),
    }
}

#[test]
fn create_and_read_back() {
    let mut store = TagStore::new();
    let created = create_temp(&mut store, Unit::Celsius, DataType::Float);
    assert_eq!(create_status(&created), 201);

    let read = store.get_tag(&"temp".to_string());
    assert_eq!(read_status(&read), 200);
    let tag = read.unwrap();
    assert_eq!(tag.value.value, Value::Float(0.0f32.to_bits()));
    assert_eq!(tag.value.timestamp, None);
    assert_eq!(tag.meta.unit, Unit::Celsius);
}

#[test]
fn update_then_read() {
    let mut store = TagStore::new();
    create_temp(&mut store, Unit::Celsius, DataType::Float);

    let result = put_value(&mut store, Value::Float(25.5f32.to_bits()), Some(T_JAN1));
    assert_eq!(update_status(&result), 200);
    assert_eq!(result, Ok(UpdateValueResult::Updated));

    let tag = store.get_tag(&"temp".to_string()).unwrap();
    assert_eq!(tag.value.value, Value::Float(25.5f32.to_bits()));
    assert_eq!(tag.value.timestamp, Some(Timestamp::new(T_JAN1)));
}

#[test]
fn stale_update_rejected() {
    let mut store = TagStore::new();
    create_temp(&mut store, Unit::Celsius, DataType::Float);
    put_value(&mut store, Value::Float(25.5f32.to_bits()), Some(T_JAN1)).unwrap();

    let result = put_value(&mut store, Value::Float(26.0f32.to_bits()), Some(T_STALE));
    assert_eq!(update_status(&result), 400);
    let error = result.unwrap_err();
    assert_eq!(
        error,
        UpdateValueError::TimestampOutOfOrder {
            previous: Timestamp::new(T_JAN1)
        }
    );
    let detail = update_error_detail(&error);
    assert_eq!(detail.previous_timestamp, Some(Timestamp::new(T_JAN1)));

    let tag = store.get_tag(&"temp".to_string()).unwrap();
    assert_eq!(tag.value.value, Value::Float(25.5f32.to_bits()));
}

#[test]
fn type_mismatch_rejected() {
    let mut store = TagStore::new();
    create_temp(&mut store, Unit::Celsius, DataType::Float);
    put_value(&mut store, Value::Float(25.5f32.to_bits()), Some(T_JAN1)).unwrap();

    let result = put_value(&mut store, Value::Integer(42), Some(T_JAN2));
    assert_eq!(update_status(&result), 400);
    let error = result.unwrap_err();
    let detail = update_error_detail(&error);
    assert_eq!(detail.expected.as_deref(), Some("Float"));
    assert_eq!(detail.actual.as_deref(), Some("Integer"));

    let tag = store.get_tag(&"temp".to_string()).unwrap();
    assert_eq!(tag.value.value, Value::Float(25.5f32.to_bits()));
}

#[test]
fn idempotent_write_returns_ignored() {
    let mut store = TagStore::new();
    create_temp(&mut store, Unit::Celsius, DataType::Float);
    put_value(&mut store, Value::Float(25.5f32.to_bits()), Some(T_JAN1)).unwrap();

    let result = put_value(&mut store, Value::Float(25.5f32.to_bits()), Some(T_JAN1 + 1_000));
    assert_eq!(update_status(&result), 200);
    assert_eq!(result, Ok(UpdateValueResult::Ignored));

    let tag = store.get_tag(&"temp".to_string()).unwrap();
    assert_eq!(tag.value.timestamp, Some(Timestamp::new(T_JAN1 + 1_000)));
}

#[test]
fn delete_and_recreate() {
    let mut store = TagStore::new();
    create_temp(&mut store, Unit::Celsius, DataType::Float);
    put_value(&mut store, Value::Float(25.5f32.to_bits()), Some(T_JAN1)).unwrap();

    let deleted = store.delete_tag(&"temp".to_string());
    assert_eq!(delete_status(&deleted), 204);

    let read = store.get_tag(&"temp".to_string());
    assert_eq!(read_status(&read), 404);

    let created = create_temp(&mut store, Unit::Kelvin, DataType::Integer);
    assert_eq!(create_status(&created), 201);

    let tag = store.get_tag(&"temp".to_string()).unwrap();
    assert_eq!(tag.meta.unit, Unit::Kelvin);
    assert_eq!(tag.meta.data_type, DataType::Integer);
    assert_eq!(tag.value.value, Value::Integer(0));
    assert_eq!(tag.value.timestamp, None);
}

#[test]
fn first_write_may_omit_timestamp() {
    let mut store = TagStore::new();
    create_temp(&mut store, Unit::Celsius, DataType::Float);

    let result = put_value(&mut store, Value::Float(1.0f32.to_bits()), None);
    assert_eq!(result, Ok(UpdateValueResult::Updated));

    let tag = store.get_tag(&"temp".to_string()).unwrap();
    assert_eq!(tag.value.timestamp, None);
}

#[test]
fn create_uniqueness_winner_persists() {
    let mut store = TagStore::new();
    let first = create_temp(&mut store, Unit::Celsius, DataType::Float);
    let second = create_temp(&mut store, Unit::Kelvin, DataType::Integer);
    assert_eq!(first, CreateTagResult::SuccessfullyCreated);
    assert_eq!(second, CreateTagResult::AlreadyExists);

    let tag = store.get_tag(&"temp".to_string()).unwrap();
    assert_eq!(tag.meta.unit, Unit::Celsius);
    assert_eq!(tag.meta.data_type, DataType::Float);
}

#[test]
fn catalog_stays_conformant() {
    let mut store = TagStore::new();
    store.create_tag("a".to_string(), Unit::Celsius, DataType::Float);
    store.create_tag("b".to_string(), Unit::NoUnit, DataType::Integer);
    store.create_tag("c".to_string(), Unit::Second, DataType::Boolean);
    store
        .update_tag_value(
            &"b".to_string(),
            TagValue {
                value: Value::Integer(7),
                timestamp: Some(Timestamp::new(T_JAN1)),
            },
        )
        .unwrap();
    store
        .update_tag_value(
            &"a".to_string(),
            TagValue {
                value: Value::Integer(1),
                timestamp: Some(Timestamp::new(T_JAN1)),
            },
        )
        .unwrap_err();

    let tags = store.get_all_tags();
    assert_eq!(tags.len(), 3);
    for tag in tags {
        assert_eq!(tag.value.value.get_data_type(), tag.meta.data_type);
    }
}

#[test]
fn monotone_chain_then_stale() {
    let mut store = TagStore::new();
    create_temp(&mut store, Unit::Celsius, DataType::Float);
    for (i, v) in [1.0f32, 2.0, 3.0].iter().enumerate() {
        let result = put_value(&mut store, Value::Float(v.to_bits()), Some(T_JAN1 + i as i64));
        assert!(result.is_ok());
    }
    let result = put_value(&mut store, Value::Float(9.0f32.to_bits()), Some(T_JAN1 + 2));
    assert_eq!(
        result,
        Err(UpdateValueError::TimestampOutOfOrder {
            previous: Timestamp::new(T_JAN1 + 2)
        })
    );
    let tag = store.get_tag(&"temp".to_string()).unwrap();
    assert_eq!(tag.value.value, Value::Float(3.0f32.to_bits()));
    assert_eq!(tag.value.timestamp, Some(Timestamp::new(T_JAN1 + 2)));
}
