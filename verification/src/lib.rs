//! Handshake and authentication core of a remote-framebuffer (RFB) client:
//! a legacy block cipher for the challenge-response scheme, protocol version
//! and security-type negotiation, and the fixed-layout client messages.

pub mod d3des;
pub mod rfb;
pub mod session;
