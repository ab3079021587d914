//! The signaling protocol's messages and their JSON form. Every message is an
//! object whose `command` member names the variant; payload members use the
//! protocol's own spelling (`errorCode`, `exchangeId`, `agentSessionUuid`, ...).

use vstd::prelude::*;
use crate::json::{
    JsonValue, JsonMember, str_field, i32_field, u32_field, opt_str_field, opt_u32_field,
    object_field, lemma_lookup_first, get_str, get_i32, get_u32, get_opt_str, get_opt_u32, find_object,
};

verus! {

/// What the signaling server says about itself in `SERVER_HELLO`.
#[derive(Clone, Debug, PartialEq, Eq)]
pub struct ServerDescription {
    pub server_type: String,
    pub version: String,
    pub protocol_major_version: i32,
    pub protocol_minor_version: i32,
    pub server_name: String,
}

/// The agent's identity, announced in `AGENT_HELLO`.
#[derive(Clone, Debug, PartialEq, Eq)]
pub struct AgentDescription {
    pub agent_type: String,
    pub version: String,
    pub protocol_major_version: i32,
    pub protocol_minor_version: i32,
    pub agent_name: String,
    pub description: Option<String>,
    pub agent_id: Option<String>,
    pub agent_secret: Option<String>,
}

/// The client's session description offer.
#[derive(Clone, Debug, PartialEq, Eq)]
pub struct ClientInitPayload {
    pub sdp: String,
}

/// The agent's answer and the identifier of the session it opened.
#[derive(Clone, Debug, PartialEq, Eq)]
pub struct ClientInitResponsePayload {
    pub sdp: String,
    pub agent_session_uuid: String,
}

/// A message exchanged with the signaling server.
#[derive(Clone, Debug, PartialEq, Eq)]
pub enum AgentSocketMessage {
    /// `SERVER_HELLO`, server to agent.
    ServerHello { data: ServerDescription },
    /// `AGENT_HELLO`, agent to server.
    AgentHello { data: AgentDescription },
    /// `MESSAGE_ERROR`, agent to server.
    ErrorMessage { error_code: u32, error_message: String, exchange_id: Option<u32> },
    /// `CLIENT_INIT`, server to agent.
    ClientInitMessage { data: ClientInitPayload, exchange_id: u32 },
    /// `INIT_RESPONSE`, agent to server.
    ClientInitResponseMessage { data: ClientInitResponsePayload, exchange_id: u32 },
}

/// Why a JSON value is not a protocol message.
#[derive(Clone, Copy, Debug, PartialEq, Eq)]
pub enum DecodeError {
    /// The value is not an object.
    NotAnObject,
    /// The object has no string member `command`.
    MissingCommand,
    /// `command` names no message of the protocol.
    UnknownCommand,
    /// A member that the named message needs is missing or has the wrong type.
    InvalidPayload,
}

pub open spec fn decode_server_description(d: Seq<JsonMember>) -> Option<ServerDescription> {
    match (
        str_field(d, "serverType"@),
        str_field(d, "version"@),
        i32_field(d, "protocolMajorVersion"@),
        i32_field(d, "protocolMinorVersion"@),
        str_field(d, "serverName"@),
    ) {
        (Some(a), Some(b), Some(c), Some(e), Some(f)) => Some(
            ServerDescription {
                server_type: a,
                version: b,
                protocol_major_version: c,
                protocol_minor_version: e,
                server_name: f,
            },
        ),
        _ => None,
    }
}

pub open spec fn decode_agent_description(d: Seq<JsonMember>) -> Option<AgentDescription> {
    match (
        str_field(d, "agentType"@),
        str_field(d, "version"@),
        i32_field(d, "protocolMajorVersion"@),
        i32_field(d, "protocolMinorVersion"@),
        str_field(d, "agentName"@),
        opt_str_field(d, "description"@),
        opt_str_field(d, "agentId"@),
        opt_str_field(d, "agentSecret"@),
    ) {
        (Some(a), Some(b), Some(c), Some(e), Some(f), Some(g), Some(h), Some(k)) => Some(
            AgentDescription {
                agent_type: a,
                version: b,
                protocol_major_version: c,
                protocol_minor_version: e,
                agent_name: f,
                description: g,
                agent_id: h,
                agent_secret: k,
            },
        ),
        _ => None,
    }
}

pub open spec fn decode_client_init(d: Seq<JsonMember>) -> Option<ClientInitPayload> {
    match str_field(d, "sdp"@) {
        Some(s) => Some(ClientInitPayload { sdp: s }),
        None => None,
    }
}

pub open spec fn decode_init_response(d: Seq<JsonMember>) -> Option<ClientInitResponsePayload> {
    match (str_field(d, "sdp"@), str_field(d, "agentSessionUuid"@)) {
        (Some(s), Some(u)) => Some(ClientInitResponsePayload { sdp: s, agent_session_uuid: u }),
        _ => None,
    }
}

/// Where the members of a `SERVER_HELLO` are: in its `data` object when it
/// has one, else beside `command` in the message itself.
pub open spec fn server_hello_members(ms: Seq<JsonMember>) -> Seq<JsonMember> {
    match object_field(ms, "data"@) {
        Some(d) => d,
        None => ms,
    }
}

/// The message that a JSON value holds, by the members of its object.
pub open spec fn decode_spec(v: JsonValue) -> Result<AgentSocketMessage, DecodeError> {
    match v {
        JsonValue::Object(ms) => {
            let ms = ms@;
            match str_field(ms, "command"@) {
                None => Err(DecodeError::MissingCommand),
                Some(c) => if c@ == "SERVER_HELLO"@ {
                    match decode_server_description(server_hello_members(ms)) {
                        Some(data) => Ok(AgentSocketMessage::ServerHello { data }),
                        None => Err(DecodeError::InvalidPayload),
                    }
                } else if c@ == "AGENT_HELLO"@ {
                    match object_field(ms, "data"@) {
                        Some(d) => match decode_agent_description(d) {
                            Some(data) => Ok(AgentSocketMessage::AgentHello { data }),
                            None => Err(DecodeError::InvalidPayload),
                        },
                        None => Err(DecodeError::InvalidPayload),
                    }
                } else if c@ == "MESSAGE_ERROR"@ {
                    match (
                        u32_field(ms, "errorCode"@),
                        str_field(ms, "errorMessage"@),
                        opt_u32_field(ms, "exchangeId"@),
                    ) {
                        (Some(code), Some(text), Some(x)) => Ok(
                            AgentSocketMessage::ErrorMessage {
                                error_code: code,
                                error_message: text,
                                exchange_id: x,
                            },
                        ),
                        _ => Err(DecodeError::InvalidPayload),
                    }
                } else if c@ == "CLIENT_INIT"@ {
                    match (object_field(ms, "data"@), u32_field(ms, "exchangeId"@)) {
                        (Some(d), Some(x)) => match decode_client_init(d) {
                            Some(data) => Ok(
                                AgentSocketMessage::ClientInitMessage { data, exchange_id: x },
                            ),
                            None => Err(DecodeError::InvalidPayload),
                        },
                        _ => Err(DecodeError::InvalidPayload),
                    }
                } else if c@ == "INIT_RESPONSE"@ {
                    match (object_field(ms, "data"@), u32_field(ms, "exchangeId"@)) {
                        (Some(d), Some(x)) => match decode_init_response(d) {
                            Some(data) => Ok(
                                AgentSocketMessage::ClientInitResponseMessage {
                                    data,
                                    exchange_id: x,
                                },
                            ),
                            None => Err(DecodeError::InvalidPayload),
                        },
                        _ => Err(DecodeError::InvalidPayload),
                    }
                } else {
                    Err(DecodeError::UnknownCommand)
                },
            }
        },
        _ => Err(DecodeError::NotAnObject),
    }
}

fn read_server_description(d: &Vec<JsonMember>) -> (r: Option<ServerDescription>)
    ensures
        r == decode_server_description(d@),
{
    let a = get_str(d, &"serverType".to_owned());
    let b = get_str(d, &"version".to_owned());
    let c = get_i32(d, &"protocolMajorVersion".to_owned());
    let e = get_i32(d, &"protocolMinorVersion".to_owned());
    let f = get_str(d, &"serverName".to_owned());
    match (a, b, c, e, f) {
        (Some(a), Some(b), Some(c), Some(e), Some(f)) => Some(
            ServerDescription {
                server_type: a,
                version: b,
                protocol_major_version: c,
                protocol_minor_version: e,
                server_name: f,
            },
        ),
        _ => None,
    }
}

fn read_agent_description(d: &Vec<JsonMember>) -> (r: Option<AgentDescription>)
    ensures
        r == decode_agent_description(d@),
{
    let a = get_str(d, &"agentType".to_owned());
    let b = get_str(d, &"version".to_owned());
    let c = get_i32(d, &"protocolMajorVersion".to_owned());
    let e = get_i32(d, &"protocolMinorVersion".to_owned());
    let f = get_str(d, &"agentName".to_owned());
    let g = get_opt_str(d, &"description".to_owned());
    let h = get_opt_str(d, &"agentId".to_owned());
    let k = get_opt_str(d, &"agentSecret".to_owned());
    match (a, b, c, e, f, g, h, k) {
        (Some(a), Some(b), Some(c), Some(e), Some(f), Some(g), Some(h), Some(k)) => Some(
            AgentDescription {
                agent_type: a,
                version: b,
                protocol_major_version: c,
                protocol_minor_version: e,
                agent_name: f,
                description: g,
                agent_id: h,
                agent_secret: k,
            },
        ),
        _ => None,
    }
}

/// The members of the object held by member `key`, if it holds one.
fn data_members<'a>(ms: &'a Vec<JsonMember>, key: &String) -> (r: Option<&'a Vec<JsonMember>>)
    ensures
        match r {
            Some(d) => object_field(ms@, key@) == Some(d@),
            None => object_field(ms@, key@) is None,
        },
{
    match find_object(ms, key) {
        Some(i) => match &ms[i].value {
            JsonValue::Object(d) => Some(d),
            _ => None,
        },
        None => None,
    }
}

/// Reads a protocol message out of a JSON value.
pub fn decode_agent_message(v: &JsonValue) -> (r: Result<AgentSocketMessage, DecodeError>)
    ensures
        r == decode_spec(*v),
{
    let ms = match v {
        JsonValue::Object(ms) => ms,
        _ => {
            return Err(DecodeError::NotAnObject);
        },
    };
    let command = match get_str(ms, &"command".to_owned()) {
        Some(c) => c,
        None => {
            return Err(DecodeError::MissingCommand);
        },
    };
    let data_key = "data".to_owned();
    let exchange_key = "exchangeId".to_owned();
    if command == "SERVER_HELLO".to_owned() {
        let members = match data_members(ms, &data_key) {
            Some(d) => d,
            None => ms,
        };
        match read_server_description(members) {
            Some(data) => Ok(AgentSocketMessage::ServerHello { data }),
            None => Err(DecodeError::InvalidPayload),
        }
    } else if command == "AGENT_HELLO".to_owned() {
        match data_members(ms, &data_key) {
            Some(d) => match read_agent_description(d) {
                Some(data) => Ok(AgentSocketMessage::AgentHello { data }),
                None => Err(DecodeError::InvalidPayload),
            },
            None => Err(DecodeError::InvalidPayload),
        }
    } else if command == "MESSAGE_ERROR".to_owned() {
        let code = get_u32(ms, &"errorCode".to_owned());
        let text = get_str(ms, &"errorMessage".to_owned());
        let x = get_opt_u32(ms, &exchange_key);
        match (code, text, x) {
            (Some(code), Some(text), Some(x)) => Ok(
                AgentSocketMessage::ErrorMessage {
                    error_code: code,
                    error_message: text,
                    exchange_id: x,
                },
            ),
            _ => Err(DecodeError::InvalidPayload),
        }
    } else if command == "CLIENT_INIT".to_owned() {
        match (data_members(ms, &data_key), get_u32(ms, &exchange_key)) {
            (Some(d), Some(x)) => match get_str(d, &"sdp".to_owned()) {
                Some(sdp) => Ok(
                    AgentSocketMessage::ClientInitMessage {
                        data: ClientInitPayload { sdp },
                        exchange_id: x,
                    },
                ),
                None => Err(DecodeError::InvalidPayload),
            },
            _ => Err(DecodeError::InvalidPayload),
        }
    } else if command == "INIT_RESPONSE".to_owned() {
        match (data_members(ms, &data_key), get_u32(ms, &exchange_key)) {
            (Some(d), Some(x)) => {
                let sdp = get_str(d, &"sdp".to_owned());
                let uuid = get_str(d, &"agentSessionUuid".to_owned());
                match (sdp, uuid) {
                    (Some(sdp), Some(uuid)) => Ok(
                        AgentSocketMessage::ClientInitResponseMessage {
                            data: ClientInitResponsePayload { sdp, agent_session_uuid: uuid },
                            exchange_id: x,
                        },
                    ),
                    _ => Err(DecodeError::InvalidPayload),
                }
            },
            _ => Err(DecodeError::InvalidPayload),
        }
    } else {
        Err(DecodeError::UnknownCommand)
    }
}

/// `m` is the member `key` holding the string `s`.
pub open spec fn str_member(m: JsonMember, key: Seq<char>, s: String) -> bool {
    m.key@ == key && m.value == JsonValue::Str(s)
}

/// `m` is the member `key` holding the integer `n`.
pub open spec fn num_member(m: JsonMember, key: Seq<char>, n: int) -> bool {
    m.key@ == key && m.value is Number && m.value->Number_0 as int == n
}

/// `m` is the member `key` holding the string `o`, or `null` where `o` is absent.
pub open spec fn opt_str_member(m: JsonMember, key: Seq<char>, o: Option<String>) -> bool {
    m.key@ == key && m.value == match o {
        Some(s) => JsonValue::Str(s),
        None => JsonValue::Null,
    }
}

/// `m` is the member `key` holding the integer `o`, or `null` where `o` is absent.
pub open spec fn opt_num_member(m: JsonMember, key: Seq<char>, o: Option<u32>) -> bool {
    m.key@ == key && match o {
        Some(n) => m.value is Number && m.value->Number_0 as int == n as int,
        None => m.value == JsonValue::Null,
    }
}

/// `m` is the member `command` naming the message `name`.
pub open spec fn command_member(m: JsonMember, name: Seq<char>) -> bool {
    m.key@ == "command"@ && m.value is Str && m.value->Str_0@ == name
}

pub open spec fn encodes_server_description(v: JsonValue, d: ServerDescription) -> bool {
    &&& v is Object
    &&& v->Object_0@.len() == 5
    &&& str_member(v->Object_0@[0], "serverType"@, d.server_type)
    &&& str_member(v->Object_0@[1], "version"@, d.version)
    &&& num_member(v->Object_0@[2], "protocolMajorVersion"@, d.protocol_major_version as int)
    &&& num_member(v->Object_0@[3], "protocolMinorVersion"@, d.protocol_minor_version as int)
    &&& str_member(v->Object_0@[4], "serverName"@, d.server_name)
}

pub open spec fn encodes_agent_description(v: JsonValue, d: AgentDescription) -> bool {
    &&& v is Object
    &&& v->Object_0@.len() == 8
    &&& str_member(v->Object_0@[0], "agentType"@, d.agent_type)
    &&& str_member(v->Object_0@[1], "version"@, d.version)
    &&& num_member(v->Object_0@[2], "protocolMajorVersion"@, d.protocol_major_version as int)
    &&& num_member(v->Object_0@[3], "protocolMinorVersion"@, d.protocol_minor_version as int)
    &&& str_member(v->Object_0@[4], "agentName"@, d.agent_name)
    &&& opt_str_member(v->Object_0@[5], "description"@, d.description)
    &&& opt_str_member(v->Object_0@[6], "agentId"@, d.agent_id)
    &&& opt_str_member(v->Object_0@[7], "agentSecret"@, d.agent_secret)
}

/// `v` is the JSON tree of `m`: an object whose first member is `command`,
/// followed by the message's members in a fixed order. The order is that of
/// the tree; the text written from it may list members in another order,
/// which decoding does not depend on.
pub open spec fn encodes(v: JsonValue, m: AgentSocketMessage) -> bool {
    v is Object && {
        let ms = v->Object_0@;
        match m {
            AgentSocketMessage::ServerHello { data } => {
                &&& ms.len() == 2
                &&& command_member(ms[0], "SERVER_HELLO"@)
                &&& ms[1].key@ == "data"@
                &&& encodes_server_description(ms[1].value, data)
            },
            AgentSocketMessage::AgentHello { data } => {
                &&& ms.len() == 2
                &&& command_member(ms[0], "AGENT_HELLO"@)
                &&& ms[1].key@ == "data"@
                &&& encodes_agent_description(ms[1].value, data)
            },
            AgentSocketMessage::ErrorMessage { error_code, error_message, exchange_id } => {
                &&& ms.len() == 4
                &&& command_member(ms[0], "MESSAGE_ERROR"@)
                &&& num_member(ms[1], "errorCode"@, error_code as int)
                &&& str_member(ms[2], "errorMessage"@, error_message)
                &&& opt_num_member(ms[3], "exchangeId"@, exchange_id)
            },
            AgentSocketMessage::ClientInitMessage { data, exchange_id } => {
                &&& ms.len() == 3
                &&& command_member(ms[0], "CLIENT_INIT"@)
                &&& ms[1].key@ == "data"@
                &&& ms[1].value is Object
                &&& ms[1].value->Object_0@.len() == 1
                &&& str_member(ms[1].value->Object_0@[0], "sdp"@, data.sdp)
                &&& num_member(ms[2], "exchangeId"@, exchange_id as int)
            },
            AgentSocketMessage::ClientInitResponseMessage { data, exchange_id } => {
                &&& ms.len() == 3
                &&& command_member(ms[0], "INIT_RESPONSE"@)
                &&& ms[1].key@ == "data"@
                &&& ms[1].value is Object
                &&& ms[1].value->Object_0@.len() == 2
                &&& str_member(ms[1].value->Object_0@[0], "sdp"@, data.sdp)
                &&& str_member(
                    ms[1].value->Object_0@[1],
                    "agentSessionUuid"@,
                    data.agent_session_uuid,
                )
                &&& num_member(ms[2], "exchangeId"@, exchange_id as int)
            },
        }
    }
}

fn str_member_of(key: &str, s: &String) -> (r: JsonMember)
    ensures
        str_member(r, key@, *s),
{
    JsonMember { key: key.to_owned(), value: JsonValue::Str(s.clone()) }
}

fn num_member_of(key: &str, n: i64) -> (r: JsonMember)
    ensures
        num_member(r, key@, n as int),
{
    JsonMember { key: key.to_owned(), value: JsonValue::Number(n) }
}

fn opt_str_member_of(key: &str, o: &Option<String>) -> (r: JsonMember)
    ensures
        opt_str_member(r, key@, *o),
{
    let value = match o {
        Some(s) => JsonValue::Str(s.clone()),
        None => JsonValue::Null,
    };
    JsonMember { key: key.to_owned(), value }
}

fn command_member_of(name: &str) -> (r: JsonMember)
    ensures
        command_member(r, name@),
{
    JsonMember { key: "command".to_owned(), value: JsonValue::Str(name.to_owned()) }
}

/// The JSON tree of a message.
pub fn encode_agent_message(m: &AgentSocketMessage) -> (v: JsonValue)
    ensures
        encodes(v, *m),
{
    match m {
        AgentSocketMessage::ServerHello { data } => {
            let d = vec![
                str_member_of("serverType", &data.server_type),
                str_member_of("version", &data.version),
                num_member_of("protocolMajorVersion", data.protocol_major_version as i64),
                num_member_of("protocolMinorVersion", data.protocol_minor_version as i64),
                str_member_of("serverName", &data.server_name),
            ];
            JsonValue::Object(
                vec![
                    command_member_of("SERVER_HELLO"),
                    JsonMember { key: "data".to_owned(), value: JsonValue::Object(d) },
                ],
            )
        },
        AgentSocketMessage::AgentHello { data } => {
            let d = vec![
                str_member_of("agentType", &data.agent_type),
                str_member_of("version", &data.version),
                num_member_of("protocolMajorVersion", data.protocol_major_version as i64),
                num_member_of("protocolMinorVersion", data.protocol_minor_version as i64),
                str_member_of("agentName", &data.agent_name),
                opt_str_member_of("description", &data.description),
                opt_str_member_of("agentId", &data.agent_id),
                opt_str_member_of("agentSecret", &data.agent_secret),
            ];
            JsonValue::Object(
                vec![
                    command_member_of("AGENT_HELLO"),
                    JsonMember { key: "data".to_owned(), value: JsonValue::Object(d) },
                ],
            )
        },
        AgentSocketMessage::ErrorMessage { error_code, error_message, exchange_id } => {
            let x = match exchange_id {
                Some(n) => JsonValue::Number(*n as i64),
                None => JsonValue::Null,
            };
            JsonValue::Object(
                vec![
                    command_member_of("MESSAGE_ERROR"),
                    num_member_of("errorCode", *error_code as i64),
                    str_member_of("errorMessage", error_message),
                    JsonMember { key: "exchangeId".to_owned(), value: x },
                ],
            )
        },
        AgentSocketMessage::ClientInitMessage { data, exchange_id } => {
            let d = vec![str_member_of("sdp", &data.sdp)];
            JsonValue::Object(
                vec![
                    command_member_of("CLIENT_INIT"),
                    JsonMember { key: "data".to_owned(), value: JsonValue::Object(d) },
                    num_member_of("exchangeId", *exchange_id as i64),
                ],
            )
        },
        AgentSocketMessage::ClientInitResponseMessage { data, exchange_id } => {
            let d = vec![
                str_member_of("sdp", &data.sdp),
                str_member_of("agentSessionUuid", &data.agent_session_uuid),
            ];
            JsonValue::Object(
                vec![
                    command_member_of("INIT_RESPONSE"),
                    JsonMember { key: "data".to_owned(), value: JsonValue::Object(d) },
                    num_member_of("exchangeId", *exchange_id as i64),
                ],
            )
        },
    }
}

/// Encoding a message and decoding the result gives back the same message,
/// field for field, absent optional fields included.
pub proof fn lemma_round_trip(m: AgentSocketMessage, v: JsonValue)
    requires
        encodes(v, m),
    ensures
        decode_spec(v) == Ok::<AgentSocketMessage, DecodeError>(m),
{
    reveal_strlit("command");
    reveal_strlit("data");
    reveal_strlit("exchangeId");
    reveal_strlit("errorCode");
    reveal_strlit("errorMessage");
    reveal_strlit("serverType");
    reveal_strlit("version");
    reveal_strlit("protocolMajorVersion");
    reveal_strlit("protocolMinorVersion");
    reveal_strlit("serverName");
    reveal_strlit("agentType");
    reveal_strlit("agentName");
    reveal_strlit("description");
    reveal_strlit("agentId");
    reveal_strlit("agentSecret");
    reveal_strlit("sdp");
    reveal_strlit("agentSessionUuid");
    reveal_strlit("SERVER_HELLO");
    reveal_strlit("AGENT_HELLO");
    reveal_strlit("MESSAGE_ERROR");
    reveal_strlit("CLIENT_INIT");
    reveal_strlit("INIT_RESPONSE");
    let ms = v->Object_0@;
    assert("command"@.len() == 7);
    assert("data"@.len() == 4);
    assert("exchangeId"@.len() == 10);
    assert("errorCode"@.len() == 9);
    assert("errorMessage"@.len() == 12);
    assert("serverType"@.len() == 10);
    assert("version"@.len() == 7);
    assert("protocolMajorVersion"@.len() == 20);
    assert("protocolMinorVersion"@.len() == 20);
    assert("serverName"@.len() == 10);
    assert("agentType"@.len() == 9);
    assert("agentName"@.len() == 9);
    assert("description"@.len() == 11);
    assert("agentId"@.len() == 7);
    assert("agentSecret"@.len() == 11);
    assert("sdp"@.len() == 3);
    assert("agentSessionUuid"@.len() == 16);
    assert("SERVER_HELLO"@.len() == 12);
    assert("AGENT_HELLO"@.len() == 11);
    assert("MESSAGE_ERROR"@.len() == 13);
    assert("CLIENT_INIT"@.len() == 11);
    assert("INIT_RESPONSE"@.len() == 13);
    lemma_lookup_first(ms, 0, "command"@);
    match m {
        AgentSocketMessage::ServerHello { data } => {
            lemma_lookup_first(ms, 1, "data"@);
            let d = ms[1].value->Object_0@;
            lemma_lookup_first(d, 0, "serverType"@);
            lemma_lookup_first(d, 1, "version"@);
            lemma_lookup_first(d, 2, "protocolMajorVersion"@);
            assert("protocolMajorVersion"@[9] != "protocolMinorVersion"@[9]);
            lemma_lookup_first(d, 3, "protocolMinorVersion"@);
            assert("serverName"@[6] != "serverType"@[6]);
            lemma_lookup_first(d, 4, "serverName"@);
        },
        AgentSocketMessage::AgentHello { data } => {
            assert("AGENT_HELLO"@.len() != "SERVER_HELLO"@.len());
            lemma_lookup_first(ms, 1, "data"@);
            let d = ms[1].value->Object_0@;
            lemma_lookup_first(d, 0, "agentType"@);
            lemma_lookup_first(d, 1, "version"@);
            lemma_lookup_first(d, 2, "protocolMajorVersion"@);
            assert("protocolMajorVersion"@[9] != "protocolMinorVersion"@[9]);
            lemma_lookup_first(d, 3, "protocolMinorVersion"@);
            assert("agentName"@[5] != "agentType"@[5]);
            lemma_lookup_first(d, 4, "agentName"@);
            lemma_lookup_first(d, 5, "description"@);
            assert("agentId"@[0] != "version"@[0]);
            lemma_lookup_first(d, 6, "agentId"@);
            assert("agentSecret"@[0] != "description"@[0]);
            lemma_lookup_first(d, 7, "agentSecret"@);
        },
        AgentSocketMessage::ErrorMessage { .. } => {
            assert("MESSAGE_ERROR"@.len() != "SERVER_HELLO"@.len());
            assert("MESSAGE_ERROR"@.len() != "AGENT_HELLO"@.len());
            lemma_lookup_first(ms, 1, "errorCode"@);
            lemma_lookup_first(ms, 2, "errorMessage"@);
            lemma_lookup_first(ms, 3, "exchangeId"@);
        },
        AgentSocketMessage::ClientInitMessage { data, .. } => {
            assert("CLIENT_INIT"@[0] != "AGENT_HELLO"@[0]);
            assert("CLIENT_INIT"@.len() != "SERVER_HELLO"@.len());
            assert("CLIENT_INIT"@.len() != "MESSAGE_ERROR"@.len());
            lemma_lookup_first(ms, 1, "data"@);
            lemma_lookup_first(ms, 2, "exchangeId"@);
            lemma_lookup_first(ms[1].value->Object_0@, 0, "sdp"@);
        },
        AgentSocketMessage::ClientInitResponseMessage { data, .. } => {
            assert("INIT_RESPONSE"@.len() != "SERVER_HELLO"@.len());
            assert("INIT_RESPONSE"@.len() != "AGENT_HELLO"@.len());
            assert("INIT_RESPONSE"@.len() != "CLIENT_INIT"@.len());
            assert("INIT_RESPONSE"@[0] != "MESSAGE_ERROR"@[0]);
            lemma_lookup_first(ms, 1, "data"@);
            lemma_lookup_first(ms, 2, "exchangeId"@);
            let d = ms[1].value->Object_0@;
            lemma_lookup_first(d, 0, "sdp"@);
            lemma_lookup_first(d, 1, "agentSessionUuid"@);
        },
    }
}

} // verus!
