//! Errors of a transfer and of the server.

use vstd::prelude::*;
use crate::addr::Peer;

verus! {

/// Why a system call failed, as far as the protocol distinguishes it.
#[derive(Debug, Clone, Copy, PartialEq, Eq, Structural)]
pub enum IoErrorKind {
    NotFound,
    PermissionDenied,
    WriteZero,
    AlreadyExists,
    TimedOut,
    Other,
}

/// A failed system call: its kind and, where the system gave one, the raw
/// error number.
#[derive(Debug, Clone, Copy, PartialEq, Eq, Structural)]
pub struct IoFailure {
    pub kind: IoErrorKind,
    pub os_code: Option<i32>,
}

/// Error type of this crate.
#[derive(Debug, Clone)]
pub enum Error {
    /// The datagram is no packet of the protocol.
    InvalidPacket,
    /// A protocol error, raised by a handler or sent by the peer.
    Packet(crate::packet::Error),
    /// Reading, writing, sending or receiving failed.
    Io(IoFailure),
    /// A socket could not be bound.
    Bind(IoFailure),
    /// The path is not a directory.
    NotDir(String),
    /// The retry budget of a block is used up (peer, block id).
    MaxSendRetriesReached(Peer, u16),
}

/// [`Error`] with its strings as sequences of characters.
pub ghost enum ErrorView {
    InvalidPacket,
    Packet(crate::packet::ProtocolErrorView),
    Io(IoFailure),
    Bind(IoFailure),
    NotDir(Seq<char>),
    MaxSendRetriesReached(Peer, u16),
}

impl View for Error {
    type V = ErrorView;

    open spec fn view(&self) -> ErrorView {
        match self {
            Error::InvalidPacket => ErrorView::InvalidPacket,
            Error::Packet(e) => ErrorView::Packet(e@),
            Error::Io(f) => ErrorView::Io(*f),
            Error::Bind(f) => ErrorView::Bind(*f),
            Error::NotDir(p) => ErrorView::NotDir(p@),
            Error::MaxSendRetriesReached(p, b) => ErrorView::MaxSendRetriesReached(*p, *b),
        }
    }
}

} // verus!
