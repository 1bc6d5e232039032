//! Call setup for WebRTC: the signal messages and their wire form, the relay
//! that carries them between two roles, and the negotiation engine that drives
//! a media engine through the offer/answer/ICE handshake.

pub mod adapter;
pub mod json;
pub mod relay;
pub mod session;
pub mod signals;
pub mod text;
pub mod webrtc;
pub mod wire;
