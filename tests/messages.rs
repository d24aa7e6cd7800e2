use intiface_engine::{EngineMessage, IntifaceMessage};

fn all_engine_messages() -> Vec<EngineMessage> {
    vec![
        EngineMessage::EngineStarted,
        EngineMessage::EngineStopped,
        EngineMessage::EngineLog { message: "ready".to_string() },
        EngineMessage::EngineLog { message: String::new() },
        EngineMessage::EngineError { message: "Process Error: \"bind\"\n\tfailed\\".to_string() },
        EngineMessage::EngineVersion { version: "1.4.2".to_string() },
        EngineMessage::ClientConnected { client_name: "X".to_string() },
        EngineMessage::ClientConnected { client_name: String::new() },
        EngineMessage::ClientDisconnected,
        EngineMessage::ClientRejected { reason: "Unknown".to_string() },
        EngineMessage::DeviceConnected {
            name: "Lush 3".to_string(),
            index: 0,
            identifier: "AA:BB:CC:DD".to_string(),
            display_name: String::new(),
        },
        EngineMessage::DeviceConnected {
            name: "ünïcödé ✓ \u{1}\u{1f}".to_string(),
            index: u32::MAX,
            identifier: "/dev/ttyUSB0".to_string(),
            display_name: "Mine".to_string(),
        },
        EngineMessage::DeviceDisconnected { index: 0 },
        EngineMessage::DeviceDisconnected { index: 4_000_000_000 },
    ]
}

#[test]
fn engine_messages_round_trip() {
    for m in all_engine_messages() {
        let text = m.encode();
        assert_eq!(EngineMessage::decode(&text), Some(m.clone()), "text: {}", text);
    }
}

#[test]
fn intiface_messages_round_trip() {
    for m in [
        IntifaceMessage::Stop,
        IntifaceMessage::RequestEngineVersion { expected_version: 0 },
        IntifaceMessage::RequestEngineVersion { expected_version: 3 },
        IntifaceMessage::RequestEngineVersion { expected_version: u32::MAX },
    ] {
        assert_eq!(IntifaceMessage::decode(&m.encode()), Some(m));
    }
}

#[test]
fn encodes_as_tagged_json() {
    assert_eq!(EngineMessage::EngineStarted.encode(), r#"{"EngineStarted":{}}"#);
    assert_eq!(
        EngineMessage::ClientConnected { client_name: "X".to_string() }.encode(),
        r#"{"ClientConnected":{"client_name":"X"}}"#
    );
    assert_eq!(
        EngineMessage::DeviceConnected {
            name: "Lush".to_string(),
            index: 12,
            identifier: "id".to_string(),
            display_name: "My toy".to_string(),
        }
        .encode(),
        r#"{"DeviceConnected":{"name":"Lush","index":12,"identifier":"id","display_name":"My toy"}}"#
    );
    assert_eq!(
        EngineMessage::DeviceDisconnected { index: 0 }.encode(),
        r#"{"DeviceDisconnected":{"index":0}}"#
    );
    assert_eq!(IntifaceMessage::Stop.encode(), r#"{"Stop":{}}"#);
    assert_eq!(
        IntifaceMessage::RequestEngineVersion { expected_version: 2 }.encode(),
        r#"{"RequestEngineVersion":{"expected_version":2}}"#
    );
}

#[test]
fn escapes_special_characters() {
    let m = EngineMessage::EngineLog { message: "a\"b\\c\nd\re\tf\u{8}g\u{c}h\u{1}i/".to_string() };
    assert_eq!(
        m.encode(),
        r#"{"EngineLog":{"message":"a\"b\\c\nd\re\tf\bg\fh\u0001i/"}}"#
    );
}

#[test]
fn decodes_other_escapes() {
    assert_eq!(
        EngineMessage::decode(r#"{"EngineLog":{"message":"\/\u001Fé"}}"#),
        Some(EngineMessage::EngineLog { message: "/\u{1f}é".to_string() })
    );
}

#[test]
fn rejects_malformed_text() {
    for text in [
        "",
        "Stop",
        r#""Stop""#,
        r#"{"Stop":{}"#,
        r#"{"Stop":{}} "#,
        r#"{"Stop": {}}"#,
        r#"{"Halt":{}}"#,
        r#"{"RequestEngineVersion":{"expected_version":01}}"#,
        r#"{"RequestEngineVersion":{"expected_version":4294967296}}"#,
        r#"{"RequestEngineVersion":{"expected_version":-1}}"#,
        r#"{"RequestEngineVersion":{"version":1}}"#,
        r#"{"RequestEngineVersion":{}}"#,
    ] {
        assert_eq!(IntifaceMessage::decode(text), None, "text: {}", text);
    }
    for text in [
        r#"{"EngineLog":{"message":"unterminated}}"#,
        r#"{"EngineLog":{"message":"bad \x escape"}}"#,
        "{\"EngineLog\":{\"message\":\"raw \u{1} control\"}}",
        r#"{"EngineStarted":{"message":"x"}}"#,
        r#"{"DeviceConnected":{"name":"a","index":1,"identifier":"b"}}"#,
        r#"{"DeviceDisconnected":{"index":"1"}}"#,
    ] {
        assert_eq!(EngineMessage::decode(text), None, "text: {}", text);
    }
}
