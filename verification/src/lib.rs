//! A minimal client core for a JSON-RPC 2.0 API spoken over WebSocket text
//! frames: request framing, frame decoding, and the per-call protocol state
//! machines, with the transport itself left to the embedding program.
pub mod client;
pub mod digits;
pub mod errors;
pub mod events;
pub mod json;
pub mod private_call;
pub mod public_call;
pub mod subscribe;
pub mod wire;
