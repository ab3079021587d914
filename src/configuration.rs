//! The agent's configuration and the identity it announces to the signaling
//! server.

use vstd::prelude::*;
use crate::message::AgentDescription;

verus! {

/// Major version of the signaling protocol spoken by the agent.
pub const PROTOCOL_VERSION_MAJOR: i32 = 0;

/// Minor version of the signaling protocol spoken by the agent.
pub const PROTOCOL_VERSION_MINOR: i32 = 1;

/// Where the signaling server is and how the agent authenticates to it.
pub struct SignalingServer {
    pub url: String,
    pub agent_id: String,
    pub agent_secret: String,
}

/// The agent's configuration.
pub struct Configuration {
    pub name: String,
    pub description: String,
    pub signaling_server: SignalingServer,
}

/// Command-line options.
pub struct Cli {
    pub config: Option<String>,
}

impl Cli {
    /// The configuration file to read: the one given, else `config.toml`.
    pub fn config_path(&self) -> (r: String)
        ensures
            match self.config {
                Some(p) => r@ == p@,
                None => r@ == "config.toml"@,
            },
    {
        match &self.config {
            Some(p) => p.clone(),
            None => "config.toml".to_owned(),
        }
    }
}

/// The identity that the agent announces: its fixed type, version and
/// protocol version, and the name, description and credentials configured.
pub fn agent_description(config: &Configuration) -> (r: AgentDescription)
    ensures
        r.agent_type@ == "QSP Agent"@,
        r.version@ == "0.1.0"@,
        r.protocol_major_version == PROTOCOL_VERSION_MAJOR,
        r.protocol_minor_version == PROTOCOL_VERSION_MINOR,
        r.agent_name == config.name,
        r.description == Some(config.description),
        r.agent_id == Some(config.signaling_server.agent_id),
        r.agent_secret == Some(config.signaling_server.agent_secret),
{
    AgentDescription {
        agent_type: "QSP Agent".to_owned(),
        version: "0.1.0".to_owned(),
        protocol_major_version: PROTOCOL_VERSION_MAJOR,
        protocol_minor_version: PROTOCOL_VERSION_MINOR,
        agent_name: config.name.clone(),
        description: Some(config.description.clone()),
        agent_id: Some(config.signaling_server.agent_id.clone()),
        agent_secret: Some(config.signaling_server.agent_secret.clone()),
    }
}

} // verus!
