use auto_screen_switch::decoder::{decode, decode_fields, decode_legacy, Command};

fn encode_action(action: &str, source: Option<&str>) -> Vec<u8> {
    let mut object = serde_json::Map::new();
    object.insert("action".to_string(), serde_json::Value::String(action.to_string()));
    if let Some(s) = source {
        let mut params = serde_json::Map::new();
        params.insert("source".to_string(), serde_json::Value::String(s.to_string()));
        object.insert("params".to_string(), serde_json::Value::Object(params));
    }
    serde_json::to_vec(&serde_json::Value::Object(object)).unwrap()
}

#[test]
fn encoded_on_decodes_to_power_on() {
    let r = decode(&encode_action("on", None));
    assert!(matches!(r.command, Command::SetPower(true)));
    assert_eq!(r.source, None);
}

#[test]
fn structured_off_with_source() {
    let r = decode(&encode_action("off", Some("home-assistant")));
    assert!(matches!(r.command, Command::SetPower(false)));
    assert_eq!(r.source.as_deref(), Some("home-assistant"));
}

#[test]
fn structured_literal_payload() {
    let r = decode(br#"{"action":"on","params":{"source":"scheduler","level":3}}"#);
    assert!(matches!(r.command, Command::SetPower(true)));
    assert_eq!(r.source.as_deref(), Some("scheduler"));
}

#[test]
fn structured_unknown_action_carries_action() {
    let r = decode(br#"{"action":"blink"}"#);
    match r.command {
        Command::Unknown(raw) => assert_eq!(raw, b"blink".to_vec()),
        other => panic!("unexpected {:?}", other),
    }
}

#[test]
fn source_that_is_not_a_string_is_ignored() {
    let r = decode(br#"{"action":"off","params":{"source":7}}"#);
    assert!(matches!(r.command, Command::SetPower(false)));
    assert_eq!(r.source, None);
}

#[test]
fn legacy_off_decodes_to_power_off() {
    let r = decode(b"off");
    assert!(matches!(r.command, Command::SetPower(false)));
    assert_eq!(r.source, None);
}

#[test]
fn legacy_on_decodes_to_power_on() {
    assert!(matches!(decode(b"on").command, Command::SetPower(true)));
    assert!(matches!(decode_legacy(b"on"), Command::SetPower(true)));
}

#[test]
fn garbage_decodes_to_unknown() {
    let garbage: &[u8] = &[0xff, 0x00, 0x7b, 0x13];
    match decode(garbage).command {
        Command::Unknown(raw) => assert_eq!(raw, garbage.to_vec()),
        other => panic!("unexpected {:?}", other),
    }
}

#[test]
fn empty_payload_decodes_to_unknown() {
    match decode(b"").command {
        Command::Unknown(raw) => assert!(raw.is_empty()),
        other => panic!("unexpected {:?}", other),
    }
}

#[test]
fn near_words_are_unknown() {
    assert!(matches!(decode(b"ON").command, Command::Unknown(_)));
    assert!(matches!(decode(b"on ").command, Command::Unknown(_)));
    assert!(matches!(decode(b"of").command, Command::Unknown(_)));
    assert!(matches!(decode(b"\"on\"").command, Command::Unknown(_)));
}

#[test]
fn json_without_action_falls_back_to_word() {
    assert!(matches!(decode(br#"{"command":"on"}"#).command, Command::Unknown(_)));
    assert!(matches!(decode(br#"{"action":1}"#).command, Command::Unknown(_)));
}

#[test]
fn decode_fields_prefers_structured_action() {
    let r = decode_fields(Some(b"off".to_vec()), Some("panel".to_string()), b"on");
    assert!(matches!(r.command, Command::SetPower(false)));
    assert_eq!(r.source.as_deref(), Some("panel"));
    let r = decode_fields(None, Some("panel".to_string()), b"on");
    assert!(matches!(r.command, Command::SetPower(true)));
    assert_eq!(r.source, None);
}

#[test]
fn source_without_action_is_dropped() {
    let r = decode(br#"{"params":{"source":"panel"}}"#);
    assert!(matches!(r.command, Command::Unknown(_)));
    assert_eq!(r.source, None);
}

#[test]
fn params_that_are_not_an_object_give_no_source() {
    let r = decode(br#"{"action":"on","params":"source"}"#);
    assert!(matches!(r.command, Command::SetPower(true)));
    assert_eq!(r.source, None);
}
