use netzero::json::JsonMember;
use netzero::protocol::{decode_line, message_from_members, DecodeCause, Error, Field, Message, ProgressMessage, Purpose};

fn decode_ok(line: &str) -> Message {
    match decode_line(line) {
        Ok(m) => m,
        Err(e) => panic!("unexpected failure: {}", e.describe()),
    }
}

fn decode_cause(line: &str) -> DecodeCause {
    match decode_line(line) {
        Ok(m) => panic!("unexpected message: {:?}", m),
        Err(Error::DeserializationError(l, c)) => {
            assert_eq!(l, line);
            c
        }
        Err(Error::IoError(m)) => panic!("unexpected read failure: {}", m),
    }
}

#[test]
fn set_max_without_status_decodes() {
    match decode_ok(r#"{"type":"SetMax","value":5}"#) {
        Message::Progress { message: ProgressMessage::SetMax { max, status } } => {
            assert_eq!(max, 5);
            assert_eq!(status, None);
        }
        other => panic!("wrong message: {:?}", other),
    }
}

#[test]
fn unknown_type_fails_and_keeps_line() {
    let line = r#"{"type":"Bogus"}"#;
    match decode_line(line) {
        Err(Error::DeserializationError(raw, DecodeCause::UnknownType(t))) => {
            assert_eq!(raw, line);
            assert_eq!(t, "Bogus");
        }
        other => panic!("wrong result: {:?}", other),
    }
}

#[test]
fn every_message_kind_decodes() {
    assert!(matches!(decode_ok(r#"{"type":"Starting"}"#), Message::Starting));
    assert!(matches!(decode_ok(r#"{"type":"Done"}"#), Message::Done));
    assert!(matches!(
        decode_ok(r#"{"type":"Reset"}"#),
        Message::Progress { message: ProgressMessage::Reset }
    ));
    match decode_ok(r#"{"type":"SetStatus","status":"fetching"}"#) {
        Message::Progress { message: ProgressMessage::SetStatus { status } } => assert_eq!(status, "fetching"),
        other => panic!("wrong message: {:?}", other),
    }
    match decode_ok(r#"{"type":"SetProgress","progress":7,"status":"page 7"}"#) {
        Message::Progress { message: ProgressMessage::SetProgress { progress, status } } => {
            assert_eq!(progress, 7);
            assert_eq!(status.as_deref(), Some("page 7"));
        }
        other => panic!("wrong message: {:?}", other),
    }
}

#[test]
fn null_status_is_no_status() {
    match decode_ok(r#"{"status":null,"value":3,"type":"SetMax"}"#) {
        Message::Progress { message: ProgressMessage::SetMax { max, status } } => {
            assert_eq!(max, 3);
            assert_eq!(status, None);
        }
        other => panic!("wrong message: {:?}", other),
    }
}

#[test]
fn extra_members_are_ignored() {
    match decode_ok(r#"{"type":"SetProgress","progress":1,"note":[1,2]}"#) {
        Message::Progress { message: ProgressMessage::SetProgress { progress, status } } => {
            assert_eq!(progress, 1);
            assert_eq!(status, None);
        }
        other => panic!("wrong message: {:?}", other),
    }
}

#[test]
fn text_that_is_not_json_is_a_syntax_error() {
    assert!(matches!(decode_cause("not json"), DecodeCause::Syntax(_)));
    assert!(matches!(decode_cause(""), DecodeCause::Syntax(_)));
    assert!(matches!(decode_cause(r#"{"type":"Done""#), DecodeCause::Syntax(_)));
}

#[test]
fn missing_or_non_text_type_is_reported() {
    assert!(matches!(decode_cause(r#"{"value":5}"#), DecodeCause::MissingType));
    assert!(matches!(decode_cause(r#"{"type":5}"#), DecodeCause::MissingType));
    assert!(matches!(decode_cause(r#"["SetMax",5]"#), DecodeCause::MissingType));
    assert!(matches!(decode_cause("42"), DecodeCause::MissingType));
}

#[test]
fn missing_fields_are_reported() {
    assert!(matches!(decode_cause(r#"{"type":"SetMax"}"#), DecodeCause::MissingField(Field::Value)));
    assert!(matches!(
        decode_cause(r#"{"type":"SetProgress","value":3}"#),
        DecodeCause::MissingField(Field::Progress)
    ));
    assert!(matches!(decode_cause(r#"{"type":"SetStatus"}"#), DecodeCause::MissingField(Field::Status)));
}

#[test]
fn ill_typed_fields_are_reported() {
    assert!(matches!(
        decode_cause(r#"{"type":"SetProgress","progress":-1}"#),
        DecodeCause::InvalidField(Field::Progress)
    ));
    assert!(matches!(
        decode_cause(r#"{"type":"SetMax","value":2.5}"#),
        DecodeCause::InvalidField(Field::Value)
    ));
    assert!(matches!(
        decode_cause(r#"{"type":"SetMax","value":"5"}"#),
        DecodeCause::InvalidField(Field::Value)
    ));
    assert!(matches!(
        decode_cause(r#"{"type":"SetMax","value":5,"status":7}"#),
        DecodeCause::InvalidField(Field::Status)
    ));
    assert!(matches!(
        decode_cause(r#"{"type":"SetStatus","status":null}"#),
        DecodeCause::InvalidField(Field::Status)
    ));
}

#[test]
fn a_bad_line_does_not_affect_the_next() {
    assert!(decode_line("garbage").is_err());
    assert!(matches!(decode_ok(r#"{"type":"Done"}"#), Message::Done));
}

#[test]
fn members_make_messages() {
    let absent = JsonMember::Absent;
    let kind = JsonMember::Text("SetProgress".to_string());
    let r = message_from_members(&kind, &absent, &JsonMember::Number(Some(4)), &JsonMember::Null);
    match r {
        Ok(Message::Progress { message: ProgressMessage::SetProgress { progress, status } }) => {
            assert_eq!(progress, 4);
            assert_eq!(status, None);
        }
        other => panic!("wrong result: {:?}", other),
    }
    let r = message_from_members(&kind, &absent, &JsonMember::Number(None), &absent);
    assert!(matches!(r, Err(DecodeCause::InvalidField(Field::Progress))));
    let r = message_from_members(&JsonMember::Other, &absent, &absent, &absent);
    assert!(matches!(r, Err(DecodeCause::MissingType)));
    let r = message_from_members(
        &JsonMember::Text("SetStatus".to_string()),
        &absent,
        &absent,
        &JsonMember::Text("ok".to_string()),
    );
    assert!(matches!(r, Ok(Message::Progress { message: ProgressMessage::SetStatus { ref status } }) if status == "ok"));
}

#[test]
fn errors_describe_themselves() {
    let e = decode_line(r#"{"type":"Bogus"}"#).unwrap_err();
    assert_eq!(
        e.describe(),
        "Error deserializing message `{\"type\":\"Bogus\"}`: unknown message type `Bogus`"
    );
    let e = decode_line(r#"{"type":"SetMax"}"#).unwrap_err();
    assert_eq!(
        e.describe(),
        "Error deserializing message `{\"type\":\"SetMax\"}`: missing field `value`"
    );
    assert_eq!(DecodeCause::MissingType.describe(), "missing field `type`");
    assert_eq!(DecodeCause::InvalidField(Field::Progress).describe(), "invalid value for field `progress`");
    assert_eq!(
        Error::IoError("broken pipe".to_string()).describe(),
        "Error reading from protocol stream: broken pipe"
    );
}

#[test]
fn purposes_name_themselves() {
    assert_eq!(Purpose::Collect.as_str(), "collect");
    assert_eq!(Purpose::Export.as_str(), "export");
    assert_eq!(Field::Value.as_str(), "value");
}
