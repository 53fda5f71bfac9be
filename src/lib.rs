//! Client-side realtime transport for a chat platform: the gateway event
//! stream (handshake, keep-alive, typed event decoding and dispatch) and the
//! voice session (signaling negotiation, RTP framing, SRTP-style protection).

pub mod codec;
pub mod crypto;
pub mod rtp;
pub mod json;
pub mod models;
pub mod events;
pub mod shard;
pub mod payloads;
pub mod voice;
