//! The agent's side of a signaling connection: a reactor that turns what the
//! server sends into replies and into session negotiations.

use vstd::prelude::*;
use crate::json::{JsonValue, u32_field, get_u32};
use crate::message::{
    AgentSocketMessage, AgentDescription, ClientInitResponsePayload, DecodeError, decode_spec,
    decode_agent_message,
};
use crate::negotiation::NegotiationError;
use crate::registry::{WebrtcSessionManager, is_hyphenated_uuid};

verus! {

/// Error code: the message could not be read.
pub const ERROR_MALFORMED_MESSAGE: u32 = 101;

/// Error code: the command is not one the agent accepts here.
pub const ERROR_INVALID_COMMAND: u32 = 102;

/// Error code: the peer connection could not be negotiated.
pub const ERROR_NEGOTIATION_FAILED: u32 = 103;

/// The life of a signaling connection.
#[derive(Clone, Copy, Debug, PartialEq, Eq)]
pub enum ConnectionState {
    Connecting,
    Open,
    /// Terminal.
    Closed,
}

/// What happened on the connection.
#[derive(Debug, PartialEq)]
pub enum SignalingEvent {
    /// The transport is up.
    Connected,
    /// A frame holding this JSON value arrived.
    Received(JsonValue),
    /// A frame arrived that is not JSON text.
    UnreadableFrame,
    /// The transport's read or write side ended.
    TransportEnded,
}

/// What the driver must do in response.
#[derive(Clone, Debug, PartialEq, Eq)]
pub enum SignalingAction {
    /// Send this message to the server.
    Send(AgentSocketMessage),
    /// Negotiate a peer connection for this offer, then report back through
    /// `finish_client_init`.
    StartNegotiation { offer: String, exchange_id: u32 },
    Nothing,
    /// Tear the connection down.
    Close,
}

/// The exchange a raw message belongs to, when it names one.
pub open spec fn request_exchange_id(v: JsonValue) -> Option<u32> {
    match v {
        JsonValue::Object(ms) => u32_field(ms@, "exchangeId"@),
        _ => None,
    }
}

/// `a` sends an error message with this code, text and exchange.
pub open spec fn is_error_reply(a: SignalingAction, code: u32, text: Seq<char>, x: Option<u32>) -> bool {
    match a {
        SignalingAction::Send(AgentSocketMessage::ErrorMessage { error_code, error_message, exchange_id }) => {
            error_code == code && error_message@ == text && exchange_id == x
        },
        _ => false,
    }
}

/// The reply of an open connection to the message `v`, for an agent
/// announcing `identity`.
pub open spec fn reply_spec(identity: AgentDescription, v: JsonValue, a: SignalingAction) -> bool {
    match decode_spec(v) {
        Ok(AgentSocketMessage::ServerHello { .. }) => a == SignalingAction::Send(
            AgentSocketMessage::AgentHello { data: identity },
        ),
        Ok(AgentSocketMessage::ClientInitMessage { data, exchange_id }) => a
            == SignalingAction::StartNegotiation { offer: data.sdp, exchange_id },
        Ok(_) => is_error_reply(
            a,
            ERROR_INVALID_COMMAND,
            "Agent received invalid command name"@,
            request_exchange_id(v),
        ),
        Err(DecodeError::UnknownCommand) => is_error_reply(
            a,
            ERROR_INVALID_COMMAND,
            "Agent received invalid command name"@,
            request_exchange_id(v),
        ),
        Err(_) => match request_exchange_id(v) {
            Some(x) => is_error_reply(a, ERROR_MALFORMED_MESSAGE, "Agent received malformed message"@, Some(x)),
            None => a == SignalingAction::Nothing,
        },
    }
}

fn clone_opt(o: &Option<String>) -> (r: Option<String>)
    ensures
        r == *o,
{
    match o {
        Some(s) => Some(s.clone()),
        None => None,
    }
}

fn clone_description(d: &AgentDescription) -> (r: AgentDescription)
    ensures
        r == *d,
{
    AgentDescription {
        agent_type: d.agent_type.clone(),
        version: d.version.clone(),
        protocol_major_version: d.protocol_major_version,
        protocol_minor_version: d.protocol_minor_version,
        agent_name: d.agent_name.clone(),
        description: clone_opt(&d.description),
        agent_id: clone_opt(&d.agent_id),
        agent_secret: clone_opt(&d.agent_secret),
    }
}

fn exchange_id_of(v: &JsonValue) -> (r: Option<u32>)
    ensures
        r == request_exchange_id(*v),
{
    match v {
        JsonValue::Object(ms) => get_u32(ms, &"exchangeId".to_owned()),
        _ => None,
    }
}

fn error_reply(code: u32, text: &str, exchange_id: Option<u32>) -> (a: SignalingAction)
    ensures
        is_error_reply(a, code, text@, exchange_id),
{
    SignalingAction::Send(
        AgentSocketMessage::ErrorMessage { error_code: code, error_message: text.to_owned(), exchange_id },
    )
}

/// One signaling connection, seen from the agent.
pub struct SignalingServerSession {
    pub agent_description: AgentDescription,
    pub state: ConnectionState,
}

impl SignalingServerSession {
    /// A connection not yet established, for an agent announcing `agent_description`.
    pub fn new(agent_description: AgentDescription) -> (r: Self)
        ensures
            r.agent_description == agent_description,
            r.state == ConnectionState::Connecting,
    {
        SignalingServerSession { agent_description, state: ConnectionState::Connecting }
    }

    /// The reply of an open connection to the message `v`.
    pub fn process_message(&self, v: &JsonValue) -> (a: SignalingAction)
        ensures
            reply_spec(self.agent_description, *v, a),
    {
        match decode_agent_message(v) {
            Ok(AgentSocketMessage::ServerHello { .. }) => SignalingAction::Send(
                AgentSocketMessage::AgentHello { data: clone_description(&self.agent_description) },
            ),
            Ok(AgentSocketMessage::ClientInitMessage { data, exchange_id }) => {
                SignalingAction::StartNegotiation { offer: data.sdp, exchange_id }
            },
            Ok(_) => error_reply(
                ERROR_INVALID_COMMAND,
                "Agent received invalid command name",
                exchange_id_of(v),
            ),
            Err(DecodeError::UnknownCommand) => error_reply(
                ERROR_INVALID_COMMAND,
                "Agent received invalid command name",
                exchange_id_of(v),
            ),
            Err(_) => match exchange_id_of(v) {
                Some(x) => error_reply(ERROR_MALFORMED_MESSAGE, "Agent received malformed message", Some(x)),
                None => SignalingAction::Nothing,
            },
        }
    }

    /// Advances the connection by one event and says what to do. A closed
    /// connection ignores everything; the end of the transport closes it from
    /// any state; only an open connection answers messages.
    pub fn handle_event(&mut self, event: SignalingEvent) -> (a: SignalingAction)
        ensures
            final(self).agent_description == old(self).agent_description,
            old(self).state == ConnectionState::Closed ==> final(self).state == ConnectionState::Closed
                && a == SignalingAction::Nothing,
            old(self).state != ConnectionState::Closed ==> match event {
                SignalingEvent::TransportEnded => final(self).state == ConnectionState::Closed && a
                    == SignalingAction::Close,
                SignalingEvent::Connected => if old(self).state == ConnectionState::Connecting {
                    final(self).state == ConnectionState::Open && a == SignalingAction::Nothing
                } else {
                    final(self).state == old(self).state && a == SignalingAction::Nothing
                },
                SignalingEvent::Received(v) => if old(self).state == ConnectionState::Open {
                    final(self).state == ConnectionState::Open && reply_spec(
                        old(self).agent_description,
                        v,
                        a,
                    )
                } else {
                    final(self).state == old(self).state && a == SignalingAction::Nothing
                },
                SignalingEvent::UnreadableFrame => final(self).state == old(self).state && a
                    == SignalingAction::Nothing,
            },
    {
        match self.state {
            ConnectionState::Closed => {
                return SignalingAction::Nothing;
            },
            _ => {},
        }
        match event {
            SignalingEvent::TransportEnded => {
                self.state = ConnectionState::Closed;
                SignalingAction::Close
            },
            SignalingEvent::Connected => {
                match self.state {
                    ConnectionState::Connecting => {
                        self.state = ConnectionState::Open;
                    },
                    _ => {},
                }
                SignalingAction::Nothing
            },
            SignalingEvent::Received(v) => match self.state {
                ConnectionState::Open => self.process_message(&v),
                _ => SignalingAction::Nothing,
            },
            SignalingEvent::UnreadableFrame => SignalingAction::Nothing,
        }
    }

    /// Completes a client's request once its negotiation is over. On success
    /// with a non-empty answer the new peer connection is registered under a
    /// fresh identifier and the answer goes back with it; when the negotiation
    /// failed, produced an empty answer, or no fresh identifier could be
    /// drawn, the registry is left unchanged and the client gets a
    /// negotiation error for its exchange. A non-empty answer is always
    /// answered with `INIT_RESPONSE` when the registry has issued no
    /// identifier of the drawn shape (a fresh registry, for one).
    pub fn finish_client_init<H>(
        &self,
        registry: &mut WebrtcSessionManager<H>,
        exchange_id: u32,
        outcome: Result<(String, H), NegotiationError>,
    ) -> (a: SignalingAction)
        requires
            old(registry).wf(),
        ensures
            final(registry).wf(),
            final(registry).issued().len() >= old(registry).issued().len(),
            outcome is Ok && outcome->Ok_0.0@.len() > 0 && old(registry).no_uuid_issued() ==> a
                is Send && a->Send_0 is ClientInitResponseMessage,
            match a {
                SignalingAction::Send(
                    AgentSocketMessage::ClientInitResponseMessage { data, exchange_id: x },
                ) => {
                    &&& outcome is Ok
                    &&& data.sdp == outcome->Ok_0.0
                    &&& x == exchange_id
                    &&& data.sdp@.len() > 0
                    &&& is_hyphenated_uuid(data.agent_session_uuid@)
                    &&& added_session(*old(registry), *final(registry), data.agent_session_uuid@)
                    &&& final(registry).sessions().last().peer_rtc_connection == Some(outcome->Ok_0.1)
                },
                _ => {
                    &&& is_error_reply(
                        a,
                        ERROR_NEGOTIATION_FAILED,
                        "Agent failed to negotiate the session"@,
                        Some(exchange_id),
                    )
                    &&& final(registry).sessions() == old(registry).sessions()
                    &&& final(registry).issued() == old(registry).issued()
                },
            },
    {
        match outcome {
            Ok((sdp, connection)) => if sdp.as_str().is_empty() {
                error_reply(
                    ERROR_NEGOTIATION_FAILED,
                    "Agent failed to negotiate the session",
                    Some(exchange_id),
                )
            } else {
                match registry.add_session(connection) {
                Ok(uuid) => SignalingAction::Send(
                    AgentSocketMessage::ClientInitResponseMessage {
                        data: ClientInitResponsePayload { sdp, agent_session_uuid: uuid },
                        exchange_id,
                    },
                ),
                Err(_) => error_reply(
                    ERROR_NEGOTIATION_FAILED,
                    "Agent failed to negotiate the session",
                    Some(exchange_id),
                ),
                }
            },
            Err(_) => error_reply(
                ERROR_NEGOTIATION_FAILED,
                "Agent failed to negotiate the session",
                Some(exchange_id),
            ),
        }
    }
}

/// A registry `after` holds one more session than `before`, added last under
/// the identifier `id`, which `before` had never issued.
pub open spec fn added_session<H>(
    before: WebrtcSessionManager<H>,
    after: WebrtcSessionManager<H>,
    id: Seq<char>,
) -> bool {
    &&& !before.issued().contains(id)
    &&& after.issued() == before.issued().push(id)
    &&& after.sessions().len() == before.sessions().len() + 1
    &&& after.sessions().drop_last() == before.sessions()
    &&& after.sessions().last().agent_rtc_uuid@ == id
}

/// Two client requests answered with `INIT_RESPONSE` one after the other on
/// the same registry carry different session identifiers, and both sessions
/// are registered afterwards, two more than before.
pub proof fn lemma_two_sessions_distinct<H>(
    r0: WebrtcSessionManager<H>,
    r1: WebrtcSessionManager<H>,
    r2: WebrtcSessionManager<H>,
    u1: Seq<char>,
    u2: Seq<char>,
)
    requires
        added_session(r0, r1, u1),
        added_session(r1, r2, u2),
    ensures
        u1 != u2,
        r2.sessions().len() == r0.sessions().len() + 2,
        r2.ids().contains(u1),
        r2.ids().contains(u2),
{
    assert(r1.issued()[r0.issued().len() as int] == u1);
    let n = r2.sessions().len() as int;
    assert(r2.sessions()[n - 2] == r2.sessions().drop_last()[n - 2]);
    assert(r2.ids()[n - 2] == u1);
    assert(r2.ids()[n - 1] == u2);
}

} // verus!
