//! TFTP server core: the packet codec, option negotiation, the read and
//! write transfer engines and the request dispatcher, stated over
//! mathematical models and proved against them.
//!
//! The engines and the dispatcher are pure step functions: the embedding
//! program owns the sockets, the timers and the byte source or sink, hands
//! each event to the engine and performs the action that comes back.
//!
//! * [`packet`] holds the packets and their wire form, [`parse`] the
//!   decoder, and [`laws`] the proofs that the two fit together.
//! * [`server`] holds the configuration and its builder, the dispatcher
//!   that admits one session per peer, the read and the write engine, and
//!   the rules by which a directory is served.
//! * [`buffer`] is the boundary to the byte buffers of the `bytes` crate.

pub mod addr;
pub mod buffer;
pub mod codec;
pub mod digits;
pub mod error;
pub mod laws;
pub mod log;
pub mod packet;
pub mod parse;
pub mod server;

pub use crate::error::{Error, ErrorView, IoErrorKind, IoFailure};
