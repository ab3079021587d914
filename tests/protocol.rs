use qsp_agent::json::{JsonMember, JsonValue};
use qsp_agent::message::{
    decode_agent_message, encode_agent_message, AgentDescription, AgentSocketMessage,
    ClientInitPayload, ClientInitResponsePayload, DecodeError, ServerDescription,
};

fn s(x: &str) -> JsonValue {
    JsonValue::Str(x.to_string())
}

fn obj(members: Vec<(&str, JsonValue)>) -> JsonValue {
    JsonValue::Object(members.into_iter().map(|(k, v)| JsonMember { key: k.to_string(), value: v }).collect())
}

fn members(v: &JsonValue) -> &Vec<JsonMember> {
    match v {
        JsonValue::Object(ms) => ms,
        _ => panic!("not an object"),
    }
}

fn keys(v: &JsonValue) -> Vec<String> {
    members(v).iter().map(|m| m.key.clone()).collect()
}

fn samples() -> Vec<AgentSocketMessage> {
    vec![
        AgentSocketMessage::ServerHello {
            data: ServerDescription {
                server_type: "relay".to_string(),
                version: "1.0".to_string(),
                protocol_major_version: 0,
                protocol_minor_version: -1,
                server_name: "hub1".to_string(),
            },
        },
        AgentSocketMessage::AgentHello {
            data: AgentDescription {
                agent_type: "QSP Agent".to_string(),
                version: "0.1.0".to_string(),
                protocol_major_version: i32::MAX,
                protocol_minor_version: i32::MIN,
                agent_name: "shack".to_string(),
                description: Some("HF rig".to_string()),
                agent_id: None,
                agent_secret: Some("SECRET-REDACTED".to_string()),
            },
        },
        AgentSocketMessage::ErrorMessage { error_code: 102, error_message: "bad".to_string(), exchange_id: None },
        AgentSocketMessage::ErrorMessage { error_code: u32::MAX, error_message: String::new(), exchange_id: Some(9) },
        AgentSocketMessage::ClientInitMessage { data: ClientInitPayload { sdp: "v=0".to_string() }, exchange_id: 7 },
        AgentSocketMessage::ClientInitResponseMessage {
            data: ClientInitResponsePayload { sdp: "v=0 answer".to_string(), agent_session_uuid: "u-1".to_string() },
            exchange_id: u32::MAX,
        },
    ]
}

#[test]
fn every_variant_round_trips() {
    for m in samples() {
        let v = encode_agent_message(&m);
        assert_eq!(decode_agent_message(&v), Ok(m));
    }
}

#[test]
fn agent_hello_without_optional_fields_round_trips() {
    let m = AgentSocketMessage::AgentHello {
        data: AgentDescription {
            agent_type: "t".to_string(),
            version: "v".to_string(),
            protocol_major_version: 0,
            protocol_minor_version: 1,
            agent_name: "n".to_string(),
            description: None,
            agent_id: None,
            agent_secret: None,
        },
    };
    let v = encode_agent_message(&m);
    assert_eq!(decode_agent_message(&v), Ok(m));
}

#[test]
fn wire_names_are_kept() {
    let all = samples();
    assert_eq!(keys(&encode_agent_message(&all[2])), vec!["command", "errorCode", "errorMessage", "exchangeId"]);
    assert_eq!(members(&encode_agent_message(&all[2]))[0].value, s("MESSAGE_ERROR"));
    assert_eq!(members(&encode_agent_message(&all[2]))[3].value, JsonValue::Null);
    let hello = encode_agent_message(&all[0]);
    assert_eq!(members(&hello)[0].value, s("SERVER_HELLO"));
    assert_eq!(
        keys(&members(&hello)[1].value),
        vec!["serverType", "version", "protocolMajorVersion", "protocolMinorVersion", "serverName"]
    );
    let agent = encode_agent_message(&all[1]);
    assert_eq!(
        keys(&members(&agent)[1].value),
        vec![
            "agentType",
            "version",
            "protocolMajorVersion",
            "protocolMinorVersion",
            "agentName",
            "description",
            "agentId",
            "agentSecret"
        ]
    );
    let response = encode_agent_message(&all[5]);
    assert_eq!(members(&response)[0].value, s("INIT_RESPONSE"));
    assert_eq!(keys(&members(&response)[1].value), vec!["sdp", "agentSessionUuid"]);
    assert_eq!(members(&response)[2].value, JsonValue::Number(u32::MAX as i64));
    assert_eq!(members(&encode_agent_message(&all[4]))[0].value, s("CLIENT_INIT"));
}

#[test]
fn server_hello_decodes() {
    let v = obj(vec![
        ("command", s("SERVER_HELLO")),
        (
            "data",
            obj(vec![
                ("serverType", s("relay")),
                ("version", s("1.0")),
                ("protocolMajorVersion", JsonValue::Number(0)),
                ("protocolMinorVersion", JsonValue::Number(1)),
                ("serverName", s("hub1")),
            ]),
        ),
    ]);
    let expected = AgentSocketMessage::ServerHello {
        data: ServerDescription {
            server_type: "relay".to_string(),
            version: "1.0".to_string(),
            protocol_major_version: 0,
            protocol_minor_version: 1,
            server_name: "hub1".to_string(),
        },
    };
    assert_eq!(decode_agent_message(&v), Ok(expected));
}

#[test]
fn flat_server_hello_decodes() {
    let v = obj(vec![
        ("command", s("SERVER_HELLO")),
        ("serverType", s("relay")),
        ("version", s("1.0")),
        ("protocolMajorVersion", JsonValue::Number(0)),
        ("protocolMinorVersion", JsonValue::Number(1)),
        ("serverName", s("hub1")),
    ]);
    let expected = AgentSocketMessage::ServerHello {
        data: ServerDescription {
            server_type: "relay".to_string(),
            version: "1.0".to_string(),
            protocol_major_version: 0,
            protocol_minor_version: 1,
            server_name: "hub1".to_string(),
        },
    };
    assert_eq!(decode_agent_message(&v), Ok(expected));
    let missing = obj(vec![("command", s("SERVER_HELLO")), ("serverType", s("relay"))]);
    assert_eq!(decode_agent_message(&missing), Err(DecodeError::InvalidPayload));
}

#[test]
fn members_may_come_in_any_order_and_extra_ones_are_ignored() {
    let v = obj(vec![
        ("exchangeId", JsonValue::Number(7)),
        ("extra", JsonValue::Array(vec![JsonValue::Bool(true)])),
        ("data", obj(vec![("sdp", s("v=0"))])),
        ("command", s("CLIENT_INIT")),
    ]);
    let expected = AgentSocketMessage::ClientInitMessage { data: ClientInitPayload { sdp: "v=0".to_string() }, exchange_id: 7 };
    assert_eq!(decode_agent_message(&v), Ok(expected));
}

#[test]
fn error_message_exchange_may_be_missing_or_null() {
    let a = obj(vec![("command", s("MESSAGE_ERROR")), ("errorCode", JsonValue::Number(5)), ("errorMessage", s("x"))]);
    let b = obj(vec![
        ("command", s("MESSAGE_ERROR")),
        ("errorCode", JsonValue::Number(5)),
        ("errorMessage", s("x")),
        ("exchangeId", JsonValue::Null),
    ]);
    let expected = AgentSocketMessage::ErrorMessage { error_code: 5, error_message: "x".to_string(), exchange_id: None };
    assert_eq!(decode_agent_message(&a), Ok(expected.clone()));
    assert_eq!(decode_agent_message(&b), Ok(expected));
}

#[test]
fn decode_errors() {
    assert_eq!(decode_agent_message(&JsonValue::Array(vec![])), Err(DecodeError::NotAnObject));
    assert_eq!(decode_agent_message(&s("SERVER_HELLO")), Err(DecodeError::NotAnObject));
    assert_eq!(decode_agent_message(&obj(vec![("data", obj(vec![]))])), Err(DecodeError::MissingCommand));
    assert_eq!(decode_agent_message(&obj(vec![("command", JsonValue::Number(1))])), Err(DecodeError::MissingCommand));
    assert_eq!(decode_agent_message(&obj(vec![("command", s("REBOOT"))])), Err(DecodeError::UnknownCommand));
    assert_eq!(
        decode_agent_message(&obj(vec![("command", s("CLIENT_INIT")), ("data", obj(vec![("sdp", s("v=0"))]))])),
        Err(DecodeError::InvalidPayload)
    );
    assert_eq!(
        decode_agent_message(&obj(vec![
            ("command", s("CLIENT_INIT")),
            ("data", obj(vec![("sdp", s("v=0"))])),
            ("exchangeId", JsonValue::Number(-1)),
        ])),
        Err(DecodeError::InvalidPayload)
    );
    assert_eq!(
        decode_agent_message(&obj(vec![
            ("command", s("MESSAGE_ERROR")),
            ("errorCode", JsonValue::OtherNumber),
            ("errorMessage", s("x")),
        ])),
        Err(DecodeError::InvalidPayload)
    );
    let big = obj(vec![
        ("command", s("SERVER_HELLO")),
        (
            "data",
            obj(vec![
                ("serverType", s("relay")),
                ("version", s("1.0")),
                ("protocolMajorVersion", JsonValue::Number(i32::MAX as i64 + 1)),
                ("protocolMinorVersion", JsonValue::Number(1)),
                ("serverName", s("hub1")),
            ]),
        ),
    ]);
    assert_eq!(decode_agent_message(&big), Err(DecodeError::InvalidPayload));
}
