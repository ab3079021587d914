//! Core logic of an agent that streams one audio input device to a remote
//! peer, negotiated through a signaling relay.

pub mod audio;
pub mod configuration;
pub mod json;
pub mod message;
pub mod negotiation;
pub mod registry;
pub mod signaling;
