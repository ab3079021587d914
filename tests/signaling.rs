use qsp_agent::configuration::{agent_description, Configuration, SignalingServer};
use qsp_agent::json::{JsonMember, JsonValue};
use qsp_agent::message::{
    encode_agent_message, AgentDescription, AgentSocketMessage, ClientInitResponsePayload,
};
use qsp_agent::negotiation::NegotiationError;
use qsp_agent::registry::WebrtcSessionManager;
use qsp_agent::signaling::{ConnectionState, SignalingAction, SignalingEvent, SignalingServerSession};

fn s(x: &str) -> JsonValue {
    JsonValue::Str(x.to_string())
}

fn obj(members: Vec<(&str, JsonValue)>) -> JsonValue {
    JsonValue::Object(members.into_iter().map(|(k, v)| JsonMember { key: k.to_string(), value: v }).collect())
}

fn identity() -> AgentDescription {
    agent_description(&Configuration {
        name: "shack".to_string(),
        description: "HF rig".to_string(),
        signaling_server: SignalingServer {
            url: "wss://relay.example/agent".to_string(),
            agent_id: "agent-1".to_string(),
            agent_secret: "SECRET-REDACTED".to_string(),
        },
    })
}

fn open_session() -> SignalingServerSession {
    let mut session = SignalingServerSession::new(identity());
    assert_eq!(session.handle_event(SignalingEvent::Connected), SignalingAction::Nothing);
    assert_eq!(session.state, ConnectionState::Open);
    session
}

fn client_init(sdp: &str, exchange_id: i64) -> JsonValue {
    obj(vec![("command", s("CLIENT_INIT")), ("data", obj(vec![("sdp", s(sdp))])), ("exchangeId", JsonValue::Number(exchange_id))])
}

fn error_of(a: &SignalingAction) -> (u32, Option<u32>) {
    match a {
        SignalingAction::Send(AgentSocketMessage::ErrorMessage { error_code, exchange_id, .. }) => (*error_code, *exchange_id),
        other => panic!("not an error reply: {:?}", other),
    }
}

fn negotiate(
    session: &mut SignalingServerSession,
    registry: &mut WebrtcSessionManager<u32>,
    message: JsonValue,
    answer: &str,
    connection: u32,
) -> SignalingAction {
    match session.handle_event(SignalingEvent::Received(message)) {
        SignalingAction::StartNegotiation { offer, exchange_id } => {
            assert!(!offer.is_empty());
            session.finish_client_init(registry, exchange_id, Ok((answer.to_string(), connection)))
        }
        other => panic!("no negotiation started: {:?}", other),
    }
}

#[test]
fn server_hello_is_answered_with_agent_hello() {
    let mut session = open_session();
    let hello = obj(vec![
        ("command", s("SERVER_HELLO")),
        ("serverType", s("relay")),
        ("version", s("1.0")),
        ("protocolMajorVersion", JsonValue::Number(0)),
        ("protocolMinorVersion", JsonValue::Number(1)),
        ("serverName", s("hub1")),
    ]);
    let a = session.handle_event(SignalingEvent::Received(hello));
    assert_eq!(a, SignalingAction::Send(AgentSocketMessage::AgentHello { data: identity() }));
    match a {
        SignalingAction::Send(AgentSocketMessage::AgentHello { data }) => {
            assert_eq!(data.agent_type, "QSP Agent");
            assert_eq!(data.version, "0.1.0");
            assert_eq!(data.protocol_major_version, 0);
            assert_eq!(data.protocol_minor_version, 1);
            assert_eq!(data.agent_name, "shack");
            assert_eq!(data.description.as_deref(), Some("HF rig"));
            assert_eq!(data.agent_id.as_deref(), Some("agent-1"));
        }
        _ => unreachable!(),
    }
}

#[test]
fn client_init_opens_a_session_and_answers() {
    let mut session = open_session();
    let mut registry: WebrtcSessionManager<u32> = WebrtcSessionManager::new();
    let a = negotiate(&mut session, &mut registry, client_init("v=0 offer", 7), "v=0 answer", 11);
    match a {
        SignalingAction::Send(AgentSocketMessage::ClientInitResponseMessage {
            data: ClientInitResponsePayload { sdp, agent_session_uuid },
            exchange_id,
        }) => {
            assert_eq!(exchange_id, 7);
            assert_eq!(sdp, "v=0 answer");
            assert_eq!(agent_session_uuid.len(), 36);
            for (i, c) in agent_session_uuid.chars().enumerate() {
                if [8, 13, 18, 23].contains(&i) {
                    assert_eq!(c, '-');
                } else {
                    assert!(c.is_ascii_digit() || ('a'..='f').contains(&c));
                }
            }
            assert!(registry.contains(&agent_session_uuid));
        }
        other => panic!("unexpected reply {:?}", other),
    }
    assert_eq!(registry.len(), 1);
}

#[test]
fn unsupported_command_is_answered_with_error_102() {
    let mut session = open_session();
    let a = session.handle_event(SignalingEvent::Received(obj(vec![("command", s("REBOOT"))])));
    assert_eq!(error_of(&a), (102, None));
    let b = session.handle_event(SignalingEvent::Received(obj(vec![("command", s("FLY")), ("exchangeId", JsonValue::Number(4))])));
    assert_eq!(error_of(&b), (102, Some(4)));
    let reply = AgentSocketMessage::ClientInitResponseMessage {
        data: ClientInitResponsePayload { sdp: "x".to_string(), agent_session_uuid: "y".to_string() },
        exchange_id: 3,
    };
    let c = session.handle_event(SignalingEvent::Received(encode_agent_message(&reply)));
    assert_eq!(error_of(&c), (102, Some(3)));
    assert_eq!(session.state, ConnectionState::Open);
}

#[test]
fn two_client_inits_open_two_distinct_sessions() {
    let mut session = open_session();
    let mut registry: WebrtcSessionManager<u32> = WebrtcSessionManager::new();
    let mut ids: Vec<String> = Vec::new();
    for (k, x) in [(1u32, 1i64), (2, 2)] {
        match negotiate(&mut session, &mut registry, client_init("v=0", x), "v=0 a", k) {
            SignalingAction::Send(AgentSocketMessage::ClientInitResponseMessage { data, .. }) => ids.push(data.agent_session_uuid),
            other => panic!("unexpected reply {:?}", other),
        }
    }
    assert_ne!(ids[0], ids[1]);
    assert!(registry.contains(&ids[0]) && registry.contains(&ids[1]));
    assert_eq!(registry.len(), 2);
}

#[test]
fn failed_negotiation_is_reported_and_registers_nothing() {
    let session = open_session();
    let mut registry: WebrtcSessionManager<u32> = WebrtcSessionManager::new();
    let a = session.finish_client_init(&mut registry, 5, Err(NegotiationError::StepFailed));
    assert_eq!(error_of(&a), (103, Some(5)));
    assert_eq!(registry.len(), 0);
}

#[test]
fn malformed_messages_are_reported_when_they_name_an_exchange() {
    let mut session = open_session();
    let bad = obj(vec![("command", s("CLIENT_INIT")), ("exchangeId", JsonValue::Number(8))]);
    assert_eq!(error_of(&session.handle_event(SignalingEvent::Received(bad))), (101, Some(8)));
    let anonymous = obj(vec![("command", s("CLIENT_INIT"))]);
    assert_eq!(session.handle_event(SignalingEvent::Received(anonymous)), SignalingAction::Nothing);
    assert_eq!(session.handle_event(SignalingEvent::Received(JsonValue::Null)), SignalingAction::Nothing);
    assert_eq!(session.handle_event(SignalingEvent::UnreadableFrame), SignalingAction::Nothing);
    assert_eq!(session.state, ConnectionState::Open);
}

#[test]
fn connection_life_cycle() {
    let mut session = SignalingServerSession::new(identity());
    assert_eq!(session.state, ConnectionState::Connecting);
    assert_eq!(session.handle_event(SignalingEvent::Received(client_init("v=0", 1))), SignalingAction::Nothing);
    assert_eq!(session.handle_event(SignalingEvent::Connected), SignalingAction::Nothing);
    assert_eq!(session.state, ConnectionState::Open);
    assert_eq!(session.handle_event(SignalingEvent::TransportEnded), SignalingAction::Close);
    assert_eq!(session.state, ConnectionState::Closed);
    assert_eq!(session.handle_event(SignalingEvent::Connected), SignalingAction::Nothing);
    assert_eq!(session.handle_event(SignalingEvent::Received(client_init("v=0", 1))), SignalingAction::Nothing);
    assert_eq!(session.state, ConnectionState::Closed);
}

#[test]
fn nested_server_hello_is_answered_too() {
    let mut session = open_session();
    let hello = obj(vec![
        ("command", s("SERVER_HELLO")),
        (
            "data",
            obj(vec![
                ("serverType", s("relay")),
                ("version", s("1.0")),
                ("protocolMajorVersion", JsonValue::Number(0)),
                ("protocolMinorVersion", JsonValue::Number(1)),
                ("serverName", s("hub1")),
            ]),
        ),
    ]);
    let a = session.handle_event(SignalingEvent::Received(hello));
    assert_eq!(a, SignalingAction::Send(AgentSocketMessage::AgentHello { data: identity() }));
}

#[test]
fn empty_answer_is_a_negotiation_failure() {
    let session = open_session();
    let mut registry: WebrtcSessionManager<u32> = WebrtcSessionManager::new();
    let a = session.finish_client_init(&mut registry, 7, Ok((String::new(), 1)));
    assert_eq!(error_of(&a), (103, Some(7)));
    assert_eq!(registry.len(), 0);
}
