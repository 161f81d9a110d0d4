use mineintent_backend::command::{
    BackendCommand, CommandProtocol, MotorDirection, BACKEND_COMMAND_PROTOCOL,
    BACKEND_EVENT_PROTOCOL,
};
use mineintent_backend::contract::CommandId;
use mineintent_backend::number::Single;
use mineintent_backend::time::UtcInstant;
use mineintent_backend::wire::{
    command_from_wire, command_to_wire, envelope_from_wire, envelope_with_instant, EnvelopeError,
    WireError, WireFields, WireValue,
};
use serde_json::{Number, Value};

fn single(value: f32) -> Single {
    Single { bits: value.to_bits() }
}

fn to_wire(value: &Value) -> WireValue {
    match value {
        Value::Null => WireValue::Null,
        Value::Bool(flag) => WireValue::Bool(*flag),
        Value::Number(number) => WireValue::Number {
            natural: number.as_u64(),
            single: number.as_f64().map(|wide| single(wide as f32)),
        },
        Value::String(text) => WireValue::Text(text.clone()),
        Value::Array(items) => WireValue::List(items.iter().map(to_wire).collect()),
        Value::Object(fields) => WireValue::Object(to_fields(fields)),
    }
}

fn to_fields(fields: &serde_json::Map<String, Value>) -> WireFields {
    fields.iter().map(|(key, value)| (key.clone(), to_wire(value))).collect()
}

fn from_wire(value: &WireValue) -> Value {
    match value {
        WireValue::Null => Value::Null,
        WireValue::Bool(flag) => Value::Bool(*flag),
        WireValue::Number { natural: Some(whole), .. } => Value::Number(Number::from(*whole)),
        WireValue::Number { single: Some(single), .. } => Value::Number(
            Number::from_f64(f64::from(f32::from_bits(single.bits))).expect("finite"),
        ),
        WireValue::Number { .. } => Value::Null,
        WireValue::Text(text) => Value::String(text.clone()),
        WireValue::List(items) => Value::Array(items.iter().map(from_wire).collect()),
        WireValue::Object(fields) => from_fields(fields),
    }
}

fn from_fields(fields: &WireFields) -> Value {
    Value::Object(fields.iter().map(|(key, value)| (key.clone(), from_wire(value))).collect())
}

fn parsed(text: &str) -> WireFields {
    match serde_json::from_str::<Value>(text).expect("json") {
        Value::Object(fields) => to_fields(&fields),
        other => panic!("expected an object, got {other:?}"),
    }
}

fn decoded(value: &Value) -> Result<BackendCommand, WireError> {
    match value {
        Value::Object(fields) => command_from_wire(&to_fields(fields)),
        other => panic!("expected an object, got {other:?}"),
    }
}

#[test]
fn command_rejects_unknown_keys() {
    let input = r#"{
        "protocol":"mineintent.minecraft.backend-command.v1",
        "id":"command-1",
        "issuedAt":"2026-08-01T00:00:00Z",
        "command":{"type":"release_all","unexpected":true}
    }"#;
    assert!(envelope_from_wire(&parsed(input)).is_err());
}

#[test]
fn command_uses_camel_case_wire_fields() {
    let command = BackendCommand::Move {
        directions: vec![MotorDirection::Forward],
        duration_ms: 250,
        sprint: Some(false),
        jump: Some(false),
        crouch: Some(false),
    };
    let encoded = from_fields(&command_to_wire(&command));
    assert_eq!(encoded["durationMs"], 250);
    assert!(encoded.get("duration_ms").is_none());
    assert!(matches!(
        decoded(&encoded).expect("command"),
        BackendCommand::Move { duration_ms: 250, .. }
    ));
}

#[test]
fn respawn_command_round_trips_as_explicit_wire_action() {
    let encoded = from_fields(&command_to_wire(&BackendCommand::Respawn));
    assert_eq!(encoded["type"], "respawn");
    assert!(matches!(decoded(&encoded).expect("command"), BackendCommand::Respawn));
}

#[test]
fn every_command_is_read_back_as_it_was_written() {
    for command in [
        BackendCommand::SendChat { message: "hello".to_owned() },
        BackendCommand::LookRelative { yaw_degrees: single(10.5), pitch_degrees: single(-5.0) },
        BackendCommand::Move {
            directions: vec![MotorDirection::Back, MotorDirection::Left],
            duration_ms: 50,
            sprint: None,
            jump: Some(true),
            crouch: None,
        },
        BackendCommand::ReleaseAll,
        BackendCommand::Respawn,
    ] {
        assert_eq!(command_from_wire(&command_to_wire(&command)).expect("command"), command);
        assert_eq!(decoded(&from_fields(&command_to_wire(&command))).expect("command"), command);
    }
}

#[test]
fn an_envelope_is_read_with_its_moment() {
    let input = r#"{
        "protocol":"mineintent.minecraft.backend-command.v1",
        "id":"command-1",
        "issuedAt":"2026-08-01T00:00:00Z",
        "command":{"type":"send_chat","message":"hi"}
    }"#;
    let envelope = envelope_from_wire(&parsed(input)).expect("envelope");
    assert_eq!(envelope.protocol, CommandProtocol::Current);
    assert_eq!(envelope.protocol.text(), BACKEND_COMMAND_PROTOCOL);
    assert_eq!(envelope.id, CommandId::Named("command-1".to_owned()));
    assert_eq!(envelope.issued_at, UtcInstant { seconds: 1_785_542_400, nanos: 0 });
    assert_eq!(envelope.command, BackendCommand::SendChat { message: "hi".to_owned() });
}

#[test]
fn an_envelope_of_another_protocol_is_read_and_named() {
    let input = r#"{
        "protocol":"other.v9",
        "id":"command-1",
        "issuedAt":"2026-08-01T02:00:00+02:00",
        "command":{"type":"respawn"}
    }"#;
    let envelope = envelope_from_wire(&parsed(input)).expect("envelope");
    assert_eq!(envelope.protocol, CommandProtocol::Other("other.v9".to_owned()));
    assert_eq!(envelope.issued_at, UtcInstant { seconds: 1_785_542_400, nanos: 0 });
}

#[test]
fn each_fault_of_an_envelope_is_told() {
    let command = r#""command":{"type":"respawn"}"#;
    let head = r#""protocol":"mineintent.minecraft.backend-command.v1","id":"c""#;
    assert_eq!(
        envelope_from_wire(&parsed(&format!("{{{head},{command}}}"))),
        Err(EnvelopeError::BadFields)
    );
    assert_eq!(
        envelope_from_wire(&parsed(&format!("{{{head},\"issuedAt\":\"noon\",{command}}}"))),
        Err(EnvelopeError::BadInstant)
    );
    assert_eq!(
        envelope_from_wire(&parsed(&format!(
            "{{{head},\"issuedAt\":\"2026-08-01T00:00:00Z\",\"command\":{{\"type\":\"fly\"}}}}"
        ))),
        Err(EnvelopeError::Command(WireError::UnknownType("fly".to_owned())))
    );
    assert_eq!(
        envelope_from_wire(&parsed(&format!(
            "{{{head},\"issuedAt\":\"2026-08-01T00:00:00Z\",{command},\"extra\":1}}"
        ))),
        Err(EnvelopeError::BadFields)
    );
    assert_eq!(
        envelope_with_instant(
            &parsed(&format!("{{{head},\"issuedAt\":\"2026-08-01T00:00:00Z\",{command}}}")),
            None
        ),
        Err(EnvelopeError::BadInstant)
    );
}

#[test]
fn a_repeated_field_is_refused() {
    let text = |name: &str, value: &str| (name.to_owned(), WireValue::Text(value.to_owned()));
    let envelope = |repeated: Option<(String, WireValue)>| {
        let mut fields: WireFields = vec![
            text("protocol", BACKEND_COMMAND_PROTOCOL),
            text("id", "command-1"),
            text("issuedAt", "2026-08-01T00:00:00Z"),
            ("command".to_owned(), WireValue::Object(vec![text("type", "respawn")])),
        ];
        fields.extend(repeated);
        fields
    };
    assert!(envelope_from_wire(&envelope(None)).is_ok());
    for name in ["protocol", "id", "issuedAt", "issued_at"] {
        assert_eq!(
            envelope_from_wire(&envelope(Some(text(name, "again")))),
            Err(EnvelopeError::BadFields)
        );
    }
    assert_eq!(
        command_from_wire(&vec![
            text("type", "send_chat"),
            text("message", "one"),
            text("message", "two"),
        ]),
        Err(WireError::BadFields)
    );
}

#[test]
fn each_fault_of_a_command_is_told() {
    assert_eq!(command_from_wire(&parsed("{}")), Err(WireError::MissingType));
    assert_eq!(
        command_from_wire(&parsed(r#"{"type":"fly"}"#)),
        Err(WireError::UnknownType("fly".to_owned()))
    );
    assert_eq!(
        command_from_wire(&parsed(r#"{"type":"send_chat"}"#)),
        Err(WireError::BadFields)
    );
    assert_eq!(
        command_from_wire(&parsed(r#"{"type":"move","directions":["up"],"durationMs":50}"#)),
        Err(WireError::BadFields)
    );
    assert_eq!(
        command_from_wire(&parsed(r#"{"type":"respawn","extra":null}"#)),
        Err(WireError::BadFields)
    );
}

#[test]
fn optional_fields_may_be_absent_or_null() {
    let absent = r#"{"type":"move","directions":["forward"],"durationMs":50}"#;
    let null = r#"{"type":"move","directions":["forward"],"durationMs":50,"sprint":null}"#;
    let expected = BackendCommand::Move {
        directions: vec![MotorDirection::Forward],
        duration_ms: 50,
        sprint: None,
        jump: None,
        crouch: None,
    };
    assert_eq!(command_from_wire(&parsed(absent)).expect("absent"), expected);
    assert_eq!(command_from_wire(&parsed(null)).expect("null"), expected);
}

#[test]
fn the_protocols_have_their_names() {
    assert_eq!(BACKEND_COMMAND_PROTOCOL, "mineintent.minecraft.backend-command.v1");
    assert_eq!(BACKEND_EVENT_PROTOCOL, "mineintent.minecraft.backend-event.v2");
}
