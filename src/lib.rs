//! The file-transfer protocol that runs over an established, encrypted
//! wormhole channel: message model, capability negotiation, error taxonomy
//! and the sender and receiver state machines.
pub mod ack;
pub mod error;
pub mod json;
pub mod messages;
pub mod protocol;
pub mod receive;
pub mod send;
pub mod version;
