//! Real-time protocol core of a chat-platform client: a gateway connection
//! state machine (handshake, heartbeats, event dispatch) and a REST request
//! executor (bounded retries, backoff, uniform error mapping), together with
//! the plain value types that both hand to their callers.

pub mod channel;
pub mod client;
pub mod config;
pub mod decode;
pub mod errors;
pub mod gateway;
pub mod guild;
pub mod json;
pub mod message;
pub mod queries;
pub mod rest;
pub mod text;
pub mod user;
