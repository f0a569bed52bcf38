use dummy_central_system::ocpp::{
    decode_frame, encode_frame, eq_ignore_ascii_case, pack_message, unpack_message, Command,
    Message, MessageType, ParseError, Status,
};
use dummy_central_system::value::{Field, Number, Value};

fn text(s: &str) -> Value {
    Value::Str(s.to_string())
}

fn object(fields: Vec<(&str, Value)>) -> Value {
    Value::Object(
        fields
            .into_iter()
            .map(|(k, v)| Field { key: k.to_string(), value: v })
            .collect(),
    )
}

fn sample_payload() -> Value {
    object(vec![
        ("a", Value::count(1)),
        ("b", Value::Array(vec![text("x"), Value::Bool(true), Value::Null])),
        (
            "c",
            Value::Number(Number { positive: false, mantissa: 25, exponent: -1 }),
        ),
        ("d", object(vec![("e", text("f"))])),
    ])
}

#[test]
fn unpack_boot_notification() {
    let m = unpack_message(r#"[2,"19223201","BootNotification",{"chargePointVendor":"VendorX"}]"#)
        .unwrap();
    assert_eq!(m.role, MessageType::Call);
    assert_eq!(m.id, "19223201");
    assert_eq!(m.command, Some(Command::BootNotification));
    assert_eq!(m.payload, Some(object(vec![("chargePointVendor", text("VendorX"))])));
}

#[test]
fn unpack_matches_commands_without_case() {
    let m = unpack_message(r#"[2,"1","hEaRtBeAt",{}]"#).unwrap();
    assert_eq!(m.command, Some(Command::Heartbeat));
    let m = unpack_message(r#"[2,"1","authorize"]"#).unwrap();
    assert_eq!(m.command, Some(Command::Authorize));
    assert_eq!(m.payload, None);
}

#[test]
fn unpack_unknown_command_is_no_command() {
    let m = unpack_message(r#"[2,"7","DataTransfer",{"x":1}]"#).unwrap();
    assert_eq!(m.command, None);
    assert_eq!(m.payload, Some(object(vec![("x", Value::count(1))])));
    let m = unpack_message(r#"[3,"7",5]"#).unwrap();
    assert_eq!(m.role, MessageType::CallResult);
    assert_eq!(m.command, None);
}

#[test]
fn unpack_two_elements() {
    let m = unpack_message(r#"[4,"abc"]"#).unwrap();
    assert_eq!(m.role, MessageType::CallError);
    assert_eq!(m.id, "abc");
    assert_eq!(m.command, None);
    assert_eq!(m.payload, None);
}

#[test]
fn unpack_errors() {
    assert_eq!(unpack_message("not json"), Err(ParseError::Malformed));
    assert_eq!(unpack_message("[2,\"a\""), Err(ParseError::Malformed));
    assert_eq!(unpack_message("[2]"), Err(ParseError::InvalidLength));
    assert_eq!(unpack_message("[]"), Err(ParseError::InvalidLength));
    assert_eq!(unpack_message(r#"{"a":2,"b":"x"}"#), Err(ParseError::InvalidLength));
    assert_eq!(unpack_message(r#"[5,"a"]"#), Err(ParseError::InvalidType));
    assert_eq!(unpack_message(r#"[1,"a"]"#), Err(ParseError::InvalidType));
    assert_eq!(unpack_message(r#"["2","a"]"#), Err(ParseError::InvalidType));
    assert_eq!(unpack_message(r#"[2.5,"a"]"#), Err(ParseError::InvalidType));
    assert_eq!(unpack_message(r#"[2,""]"#), Err(ParseError::InvalidId));
    assert_eq!(unpack_message(r#"[2,17]"#), Err(ParseError::InvalidId));
}

#[test]
fn pack_exact_text() {
    let m = Message::new(
        MessageType::Call,
        "42".to_string(),
        Some(Command::Heartbeat),
        Some(object(vec![])),
    );
    assert_eq!(pack_message(m), Ok(r#"[2,"42","Heartbeat",{}]"#.to_string()));
    let m = Message::new(
        MessageType::CallResult,
        "42".to_string(),
        None,
        Some(object(vec![("status", Status::Accepted.to_value()), ("interval", Value::count(60))])),
    );
    assert_eq!(pack_message(m), Ok(r#"[3,"42",{"status":"Accepted","interval":60}]"#.to_string()));
    let m = Message::new(MessageType::CallError, "x".to_string(), None, None);
    assert_eq!(pack_message(m), Ok(r#"[4,"x"]"#.to_string()));
}

#[test]
fn round_trip_through_text() {
    for c in [
        Command::BootNotification,
        Command::StatusNotification,
        Command::Heartbeat,
        Command::SignCertificate,
        Command::CertificateSigned,
        Command::StartTransaction,
        Command::MeterValues,
        Command::StopTransaction,
        Command::Authorize,
    ] {
        for role in [MessageType::Call, MessageType::CallResult, MessageType::CallError] {
            let m = Message::new(role, "id-1".to_string(), Some(c), Some(sample_payload()));
            let back = unpack_message(&pack_message(m).unwrap()).unwrap();
            assert_eq!(back.role, role);
            assert_eq!(back.id, "id-1");
            assert_eq!(back.command, Some(c));
            assert_eq!(back.payload, Some(sample_payload()));
        }
    }
}

#[test]
fn round_trip_through_frame() {
    let m = Message::new(
        MessageType::Call,
        "q".to_string(),
        Some(Command::StopTransaction),
        Some(sample_payload()),
    );
    let back = decode_frame(encode_frame(m)).unwrap();
    assert_eq!(
        back,
        Message::new(
            MessageType::Call,
            "q".to_string(),
            Some(Command::StopTransaction),
            Some(sample_payload())
        )
    );
}

#[test]
fn names_and_codes() {
    assert_eq!(Command::CertificateSigned.to_string(), "CertificateSigned");
    assert_eq!(Command::from_name("STOPTRANSACTION"), Some(Command::StopTransaction));
    assert_eq!(Command::from_name("StopTransactio"), None);
    assert_eq!(MessageType::CallResult.to_string(), "CallResult");
    assert_eq!(MessageType::from_code(3), Some(MessageType::CallResult));
    assert_eq!(MessageType::from_code(0), None);
    assert_eq!(MessageType::CallError.code(), 4);
    assert_eq!(Status::Rejected.to_string(), "Rejected");
    assert!(eq_ignore_ascii_case("MeterValues", "metervalues"));
    assert!(!eq_ignore_ascii_case("MeterValues", "MeterValue"));
    assert!(!eq_ignore_ascii_case("a[", "A{"));
}

#[test]
fn field_access() {
    let p = object(vec![("k", text("v")), ("n", Value::count(3)), ("k", text("w"))]);
    assert_eq!(p.get_text("k"), Some("v".to_string()));
    assert_eq!(p.get_text("n"), None);
    assert_eq!(p.get_text("z"), None);
    assert_eq!(p.take_field("n"), Some(Value::count(3)));
    assert_eq!(text("k").take_field("k"), None);
}

#[test]
fn negative_zero_is_kept() {
    let m = unpack_message(r#"[2,"a","Heartbeat",-0]"#).unwrap();
    assert_eq!(
        m.payload,
        Some(Value::Number(Number { positive: false, mantissa: 0, exponent: 0 }))
    );
    assert_eq!(pack_message(m), Ok(r#"[2,"a","Heartbeat",-0]"#.to_string()));
}

#[test]
fn nested_payload_survives_whole() {
    let raw = r#"[2,"n","Authorize",{"a":[1,[2,{"b":[true,null,"x"]}]],"c":{"d":{"e":-12}}}]"#;
    let m = unpack_message(raw).unwrap();
    assert_eq!(pack_message(m), Ok(raw.to_string()));
}
