use rcada::client::{int_text, ClientAction, ClientMessage, ClientState, TagDisplay};
use rcada::value::Value;
use rcada::driver::DriverRegistry;
use rcada::value::{DataType, Unit};

#[test]
fn registry_uses_default_rate_when_none_given() {
    let mut registry = DriverRegistry::new(500);
    assert_eq!(registry.default_poll_rate(), 500);
    registry.register_tag("temp".to_string(), None);
    registry.register_tag("pressure".to_string(), Some(100));
    let entries = registry.entries();
    assert_eq!(entries.len(), 2);
    let temp = entries.iter().find(|e| e.0 == "temp").unwrap();
    assert_eq!(temp.1, 500);
    let pressure = entries.iter().find(|e| e.0 == "pressure").unwrap();
    assert_eq!(pressure.1, 100);
}

#[test]
fn registry_reregistration_replaces_cadence() {
    let mut registry = DriverRegistry::new(500);
    registry.register_tag("temp".to_string(), Some(100));
    registry.register_tag("temp".to_string(), Some(250));
    let entries = registry.entries();
    assert_eq!(entries.len(), 1);
    assert_eq!(entries[0].0, "temp");
    assert_eq!(entries[0].1, 250);
}

#[test]
fn viewer_refresh_only_when_online() {
    let mut state = ClientState::new("http://127.0.0.1:8080".to_string());
    assert!(!state.server_online);
    assert_eq!(state.update(ClientMessage::Refresh), ClientAction::Idle);

    assert_eq!(
        state.update(ClientMessage::HealthCheckServer),
        ClientAction::CheckHealth
    );
    assert_eq!(
        state.update(ClientMessage::HealthCheckServerResult(true)),
        ClientAction::Idle
    );
    assert!(state.server_online);
    assert_eq!(state.update(ClientMessage::Refresh), ClientAction::FetchTags);
}

#[test]
fn viewer_refreshed_replaces_rows() {
    let mut state = ClientState::new("http://127.0.0.1:8080".to_string());
    let row = TagDisplay::from_parts(
        "temp".to_string(),
        Unit::Celsius,
        DataType::Float,
        "25.50".to_string(),
        "00:00:00".to_string(),
    );
    assert_eq!(
        state.update(ClientMessage::Refreshed(vec![row])),
        ClientAction::Idle
    );
    assert_eq!(state.tags.len(), 1);
    assert_eq!(state.tags[0].name, "temp");
    assert_eq!(state.tags[0].value, "25.50");
    assert_eq!(state.tags[0].unit, "°C");
    assert_eq!(state.tags[0].data_type, "Float");
}

#[test]
fn unit_suffixes_match_display() {
    assert_eq!(rcada::client::unit_suffix(Unit::NoUnit), "");
    assert_eq!(rcada::client::unit_suffix(Unit::Percent), "%");
    assert_eq!(rcada::client::unit_suffix(Unit::Kilogram), "kg");
}

#[test]
fn integer_text_is_decimal() {
    assert_eq!(int_text(0), "0");
    assert_eq!(int_text(7), "7");
    assert_eq!(int_text(-120), "-120");
    assert_eq!(int_text(1013), "1013");
    assert_eq!(int_text(i64::MAX), "9223372036854775807");
    assert_eq!(int_text(i64::MIN), "-9223372036854775808");

    assert_eq!(Value::Integer(42).display_text().as_deref(), Some("42"));
    assert_eq!(Value::Boolean(true).display_text().as_deref(), Some("true"));
    assert_eq!(Value::Boolean(false).display_text().as_deref(), Some("false"));
    assert_eq!(
        Value::String("on".to_string()).display_text().as_deref(),
        Some("on")
    );
    assert_eq!(Value::Float(0).display_text(), None);
}
