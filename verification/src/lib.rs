//! A library for the VBAN audio-over-UDP wire protocol: the 28-byte header
//! codec, packet framing, the emitter's fragmentation of capture buffers into
//! protocol frames, the receptor's packet validation pipeline, the jitter
//! buffer between network receive and audio render, and the session control
//! state machine. Contracts are verified with Verus.

pub mod config;
pub mod fragment;
pub mod header;
pub mod ip;
pub mod jitter;
pub mod packet;
pub mod session;
pub mod util;
pub mod validate;
pub mod wire;
