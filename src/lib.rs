//! Session layer around an AV1 codec engine: encoder configuration, the
//! conversion between frames and the engine's image descriptors, packet
//! classification, and the call-ordering and ownership rules of encoder and
//! decoder sessions.
//!
//! The engine itself is reached by the caller. Each session method either
//! describes the call to make (an [`encoder::EncodeCall`], a
//! [`decoder::DecodeCall`]) or takes what the engine handed back (a status
//! code, a raw packet, a raw image) and decides what the session returns.

pub mod config;
pub mod decoder;
pub mod encoder;
pub mod error;
pub mod image;
pub mod packet;
