//! The write-request engine: receiving a file block by block.
//!
//! Like the read engine it is a step function: its owner hands it one
//! event at a time and performs the action that [`WriteRequest::handle`]
//! answers with.

use vstd::prelude::*;
use vstd::slice::slice_to_vec;
use crate::addr::Peer;
use crate::error::{Error, ErrorView, IoFailure};
use crate::laws::lemma_opts_encode_len;
use crate::packet::{
    protocol_error_of, Error as PacketError, Opts, Packet, PacketView, ProtocolErrorView, RwReq,
};
use crate::parse::spec_packet;
use crate::server::read_req::{limited, next_block_id};
use crate::server::server::{ServerConfig, Timeout, DEFAULT_BLOCK_SIZE};

verus! {

/// The options that the server accepts of a write request, each only if
/// the client sent it: the block size up to the server's limit, the timeout
/// as sent, and the transfer size echoed as announced. The window size is
/// never accepted.
pub open spec fn accepted_opts(config: ServerConfig, requested: Opts) -> Opts {
    Opts {
        block_size: if config.ignore_client_block_size {
            None
        } else {
            limited(requested.block_size, config.block_size_limit)
        },
        timeout: if config.ignore_client_timeout {
            None
        } else {
            requested.timeout
        },
        transfer_size: requested.transfer_size,
        window_size: None,
    }
}

/// The options of the OACK, or `None` where no option was accepted and a
/// plain ACK of block 0 is sent in its place.
pub open spec fn spec_oack_opts(config: ServerConfig, requested: Opts) -> Option<Opts> {
    let opts = accepted_opts(config, requested);
    if opts == Opts::empty() {
        None
    } else {
        Some(opts)
    }
}

/// Negotiates the options of a write request.
pub fn build_oack_opts(config: &ServerConfig, req: &RwReq) -> (r: Option<Opts>)
    ensures
        r == spec_oack_opts(*config, req.opts),
{
    let mut opts = Opts::default();
    if !config.ignore_client_block_size {
        opts.block_size = match (req.opts.block_size, config.block_size_limit) {
            (Some(bsize), Some(limit)) => Some(if bsize <= limit {
                bsize
            } else {
                limit
            }),
            (Some(bsize), None) => Some(bsize),
            _ => None,
        };
    }
    if !config.ignore_client_timeout {
        opts.timeout = req.opts.timeout;
    }
    opts.transfer_size = req.opts.transfer_size;
    if opts.is_empty() {
        None
    } else {
        Some(opts)
    }
}

/// Where a write session stands.
#[derive(Debug, Clone, Copy, PartialEq, Eq, Structural)]
pub enum WritePhase {
    /// Nothing has happened yet.
    Idle,
    /// The first reply or an ACK is out and DATA block `block_id` is
    /// awaited.
    AwaitingData,
    /// The owner is writing the payload of block `block_id` to the sink.
    Writing,
    /// The session is over.
    Finished,
}

/// What happened outside the engine.
#[derive(Debug)]
pub enum WriteEvent<'a> {
    /// The session begins.
    Start,
    /// A datagram from this sender arrived on the session's socket.
    Datagram(Peer, &'a [u8]),
    /// The payload that was handed out is written to the sink.
    Written,
    /// The session's timeout passed since the last datagram was sent.
    Timeout,
    /// Writing to the sink or sending on the socket failed.
    Failed(IoFailure),
}

/// What the owner of the engine does next.
#[derive(Debug)]
pub enum WriteAction {
    /// Send this datagram to the peer, start the timeout anew, and wait for
    /// a datagram or for the timeout.
    Send(Vec<u8>),
    /// Write these bytes to the sink and hand in `Written`.
    Write(Vec<u8>),
    /// Go on waiting; the timeout runs on.
    Wait,
    /// Send this last acknowledgement; the transfer is complete.
    Finish(Vec<u8>),
    /// The session ends with this error; [`error_reply`] says what, if
    /// anything, the peer is told.
    Abort(Error),
}

/// The payload of `data` where it is, sent by the peer, the DATA block
/// that the session awaits; `None` for any other datagram.
pub open spec fn spec_data_block(peer: Peer, block_id: u16, from: Peer, data: Seq<u8>) -> Option<Seq<u8>> {
    if from != peer {
        None
    } else {
        match spec_packet(data) {
            Some(PacketView::Data(id, payload)) => if id == block_id {
                Some(payload)
            } else {
                None
            },
            _ => None,
        }
    }
}

/// State of one write transfer.
#[derive(Debug)]
pub struct WriteRequest {
    /// The client that is served.
    pub peer: Peer,
    /// Payload bytes of a full block.
    pub block_size: usize,
    /// How long a block is waited for.
    pub timeout: Timeout,
    /// How often one reply is sent again.
    pub max_retries: u32,
    /// The options of an OACK that is still to be sent.
    pub oack_opts: Option<Opts>,
    /// Where the session stands.
    pub phase: WritePhase,
    /// Id of the DATA block that is awaited or being written.
    pub block_id: u16,
    /// The reply that went out last, kept for sending it again.
    pub ack: Vec<u8>,
    /// Whether the block being written is short, and so the last one.
    pub is_last_block: bool,
    /// How often the reply that is out was sent again.
    pub retries: u32,
}

impl WriteRequest {
    /// Whether the session's settings are those of `other`.
    pub open spec fn same_settings(&self, other: &WriteRequest) -> bool {
        &&& self.peer == other.peer
        &&& self.block_size == other.block_size
        &&& self.timeout == other.timeout
        &&& self.max_retries == other.max_retries
    }

    /// Whether the session is a new one for a request with options
    /// `requested`: the options are negotiated, block size and timeout are
    /// the negotiated ones or else 512 bytes and the server's timeout,
    /// nothing is out yet and the first block awaited will be block 1.
    pub open spec fn is_new(&self, peer: Peer, requested: Opts, config: ServerConfig) -> bool {
        &&& self.peer == peer
        &&& self.oack_opts == spec_oack_opts(config, requested)
        &&& self.block_size == match self.oack_opts {
            Some(Opts { block_size: Some(size), .. }) => size as usize,
            _ => DEFAULT_BLOCK_SIZE,
        }
        &&& self.timeout == match self.oack_opts {
            Some(Opts { timeout: Some(t), .. }) => (Timeout { secs: t as u64, nanos: 0 }),
            _ => config.timeout,
        }
        &&& self.max_retries == config.max_send_retries
        &&& self.phase == WritePhase::Idle
        &&& self.block_id == 1
        &&& self.ack@.len() == 0
        &&& !self.is_last_block
        &&& self.retries == 0
    }

    /// A new session for a request.
    pub fn init(peer: Peer, req: &RwReq, config: &ServerConfig) -> (r: WriteRequest)
        ensures
            r.is_new(peer, req.opts, *config),
    {
        let oack_opts = build_oack_opts(config, req);
        let block_size: usize = match oack_opts {
            Some(Opts { block_size: Some(size), .. }) => size as usize,
            _ => DEFAULT_BLOCK_SIZE,
        };
        let timeout = match oack_opts {
            Some(Opts { timeout: Some(t), .. }) => Timeout::from_secs(t as u64),
            _ => config.timeout,
        };
        WriteRequest {
            peer,
            block_size,
            timeout,
            max_retries: config.max_send_retries,
            oack_opts,
            phase: WritePhase::Idle,
            block_id: 1,
            ack: Vec::new(),
            is_last_block: false,
            retries: 0,
        }
    }

    /// Whether the session is as it was and the owner goes on waiting.
    pub open spec fn ignored(&self, pre: &WriteRequest, action: &WriteAction) -> bool {
        *self == *pre && *action is Wait
    }

    /// Whether the session has ended with the error `e`.
    pub open spec fn aborted(&self, pre: &WriteRequest, action: &WriteAction, e: ErrorView) -> bool {
        &&& *action matches WriteAction::Abort(err) && err@ == e
        &&& *self == (WriteRequest { phase: WritePhase::Finished, ..*pre })
    }

    /// Whether the session awaits block `block_id` after sending `reply`
    /// for the first time.
    pub open spec fn replied(
        &self,
        pre: &WriteRequest,
        action: &WriteAction,
        reply: Seq<u8>,
        block_id: u16,
    ) -> bool {
        &&& *action matches WriteAction::Send(b) && b@ == reply
        &&& self.same_settings(pre)
        &&& self.phase == WritePhase::AwaitingData
        &&& self.ack@ == reply
        &&& self.block_id == block_id
        &&& self.oack_opts is None
        &&& self.retries == 0
        &&& self.is_last_block == pre.is_last_block
    }

    /// What a new session does first: it answers the request with the OACK
    /// where an option was accepted, else with the ACK of block 0, and
    /// awaits block 1.
    pub open spec fn started(&self, pre: &WriteRequest, action: &WriteAction) -> bool {
        if pre.phase != WritePhase::Idle {
            self.ignored(pre, action)
        } else {
            self.replied(
                pre,
                action,
                match pre.oack_opts {
                    Some(opts) => PacketView::OAck(opts).spec_encode(),
                    None => PacketView::Ack(0).spec_encode(),
                },
                1,
            )
        }
    }

    /// Begins the session.
    fn try_handle(&mut self) -> (action: WriteAction)
        ensures
            final(self).started(old(self), &action),
    {
        if self.phase != WritePhase::Idle {
            return WriteAction::Wait;
        }
        let reply = match self.oack_opts {
            Some(opts) => {
                proof {
                    lemma_opts_encode_len(opts);
                }
                Packet::OAck(opts).to_vec()
            },
            None => Packet::Ack(0).to_vec(),
        };
        self.ack = slice_to_vec(reply.as_slice());
        self.oack_opts = None;
        self.block_id = 1;
        self.retries = 0;
        self.phase = WritePhase::AwaitingData;
        WriteAction::Send(reply)
    }

    /// Judges a datagram that arrived while a block is awaited: the payload
    /// where it is that block, sent by the peer.
    pub fn recv_data_block(&self, from: Peer, data: &[u8]) -> (r: Option<Vec<u8>>)
        ensures
            match spec_data_block(self.peer, self.block_id, from, data@) {
                Some(payload) => r matches Some(v) && v@ == payload,
                None => r is None,
            },
    {
        if from != self.peer {
            return None;
        }
        match Packet::decode(data) {
            Ok(Packet::Data(recved_block_id, payload)) => {
                if recved_block_id == self.block_id {
                    Some(slice_to_vec(payload))
                } else {
                    None
                }
            },
            _ => None,
        }
    }

    /// What a datagram leads to while a block is awaited: the awaited
    /// block is handed out to be written, and is the last one if it is
    /// shorter than the block size; anything else is passed over.
    pub open spec fn received(&self, pre: &WriteRequest, from: Peer, data: Seq<u8>, action: &WriteAction) -> bool {
        match spec_data_block(pre.peer, pre.block_id, from, data) {
            Some(payload) => {
                &&& *action matches WriteAction::Write(v) && v@ == payload
                &&& *self == (WriteRequest {
                    phase: WritePhase::Writing,
                    is_last_block: payload.len() < pre.block_size,
                    ..*pre
                })
            },
            None => self.ignored(pre, action),
        }
    }

    /// Takes a datagram while a block is awaited.
    fn recv_data(&mut self, from: Peer, data: &[u8]) -> (action: WriteAction)
        requires
            old(self).phase == WritePhase::AwaitingData,
        ensures
            final(self).received(old(self), from, data@, &action),
    {
        match self.recv_data_block(from, data) {
            Some(payload) => {
                self.is_last_block = payload.len() < self.block_size;
                self.phase = WritePhase::Writing;
                WriteAction::Write(payload)
            },
            None => WriteAction::Wait,
        }
    }

    /// What follows once a block is written: it is acknowledged with its
    /// own block id. After a short block the session is over; after a full
    /// one the next block is awaited, its id one higher and 0 after 65535.
    pub open spec fn written(&self, pre: &WriteRequest, action: &WriteAction) -> bool {
        let ack = PacketView::Ack(pre.block_id).spec_encode();
        if pre.is_last_block {
            &&& *action matches WriteAction::Finish(b) && b@ == ack
            &&& self.same_settings(pre)
            &&& self.phase == WritePhase::Finished
            &&& self.ack@ == ack
            &&& self.block_id == pre.block_id
            &&& self.oack_opts is None
            &&& self.is_last_block
            &&& self.retries == pre.retries
        } else {
            self.replied(pre, action, ack, next_block_id(pre.block_id))
        }
    }

    /// Acknowledges the block that was written.
    fn acknowledge(&mut self) -> (action: WriteAction)
        requires
            old(self).phase == WritePhase::Writing,
        ensures
            final(self).written(old(self), &action),
    {
        let ack = Packet::Ack(self.block_id).to_vec();
        self.ack = slice_to_vec(ack.as_slice());
        self.oack_opts = None;
        if self.is_last_block {
            self.phase = WritePhase::Finished;
            WriteAction::Finish(ack)
        } else {
            self.block_id = self.block_id.wrapping_add(1);
            self.retries = 0;
            self.phase = WritePhase::AwaitingData;
            WriteAction::Send(ack)
        }
    }

    /// What a timeout leads to. While retries are left, the reply that is
    /// out goes out again, byte for byte, and one retry is counted. After
    /// that the session ends with `MaxSendRetriesReached` and sends nothing
    /// more.
    pub open spec fn timed_out(&self, pre: &WriteRequest, action: &WriteAction) -> bool {
        if pre.retries < pre.max_retries {
            &&& *action matches WriteAction::Send(b) && b@ == pre.ack@
            &&& *self == (WriteRequest { retries: (pre.retries + 1) as u32, ..*pre })
        } else {
            self.aborted(
                pre,
                action,
                ErrorView::MaxSendRetriesReached(pre.peer, pre.block_id),
            )
        }
    }

    /// Sends the last reply once more, or gives the session up.
    fn resend(&mut self) -> (action: WriteAction)
        requires
            old(self).phase == WritePhase::AwaitingData,
        ensures
            final(self).timed_out(old(self), &action),
    {
        if self.retries < self.max_retries {
            self.retries = self.retries + 1;
            WriteAction::Send(slice_to_vec(self.ack.as_slice()))
        } else {
            self.phase = WritePhase::Finished;
            WriteAction::Abort(Error::MaxSendRetriesReached(self.peer, self.block_id))
        }
    }

    /// What an event leads to. An event that the session has no use for
    /// where it stands changes nothing and is answered with `Wait`.
    pub open spec fn handled(&self, pre: &WriteRequest, event: &WriteEvent, action: &WriteAction) -> bool {
        match *event {
            WriteEvent::Start => self.started(pre, action),
            WriteEvent::Datagram(from, data) => if pre.phase == WritePhase::AwaitingData {
                self.received(pre, from, data@, action)
            } else {
                self.ignored(pre, action)
            },
            WriteEvent::Written => if pre.phase == WritePhase::Writing {
                self.written(pre, action)
            } else {
                self.ignored(pre, action)
            },
            WriteEvent::Timeout => if pre.phase == WritePhase::AwaitingData {
                self.timed_out(pre, action)
            } else {
                self.ignored(pre, action)
            },
            WriteEvent::Failed(f) => if pre.phase != WritePhase::Finished {
                self.aborted(pre, action, ErrorView::Io(f))
            } else {
                self.ignored(pre, action)
            },
        }
    }

    /// Takes one event and says what to do next.
    pub fn handle(&mut self, event: WriteEvent<'_>) -> (action: WriteAction)
        ensures
            final(self).handled(old(self), &event, &action),
    {
        match event {
            WriteEvent::Start => self.try_handle(),
            WriteEvent::Datagram(from, data) => {
                if self.phase == WritePhase::AwaitingData {
                    self.recv_data(from, data)
                } else {
                    WriteAction::Wait
                }
            },
            WriteEvent::Written => {
                if self.phase == WritePhase::Writing {
                    self.acknowledge()
                } else {
                    WriteAction::Wait
                }
            },
            WriteEvent::Timeout => {
                if self.phase == WritePhase::AwaitingData {
                    self.resend()
                } else {
                    WriteAction::Wait
                }
            },
            WriteEvent::Failed(f) => {
                if self.phase != WritePhase::Finished {
                    self.phase = WritePhase::Finished;
                    WriteAction::Abort(Error::Io(f))
                } else {
                    WriteAction::Wait
                }
            },
        }
    }
}

/// What the peer of a write session is told when the session ends with an
/// error: nothing when the retries ran out, else the protocol error that
/// stands for the error.
pub open spec fn spec_error_reply(e: ErrorView) -> Option<ProtocolErrorView> {
    match e {
        ErrorView::MaxSendRetriesReached(_, _) => None,
        _ => Some(protocol_error_of(e)),
    }
}

/// The ERROR packet, if any, that is sent once, and never again, when a
/// write session ends with `error`.
pub fn error_reply(error: Error) -> (r: Option<PacketError>)
    ensures
        match spec_error_reply(error@) {
            Some(e) => r matches Some(p) && p@ == e,
            None => r is None,
        },
{
    match error {
        Error::MaxSendRetriesReached(..) => None,
        e => Some(PacketError::from_error(e)),
    }
}

/// Sending again sends the same bytes: while retries are left, a timeout
/// leaves the reply that is out and the awaited block id as they are, and
/// the datagram that goes out is the one that went out before.
pub proof fn law_retransmission_same_bytes(pre: WriteRequest, post: WriteRequest, action: WriteAction)
    requires
        pre.phase == WritePhase::AwaitingData,
        pre.retries < pre.max_retries,
        post.handled(&pre, &WriteEvent::Timeout, &action),
    ensures
        action matches WriteAction::Send(b) && b@ == pre.ack@,
        post.ack@ == pre.ack@,
        post.block_id == pre.block_id,
        post.retries == pre.retries + 1,
{
}

/// While a block is awaited, the reply that is out and the awaited block
/// id stay as they are, whatever arrives and however often the timeout
/// passes.
pub proof fn law_reply_stays_while_awaiting(
    pre: WriteRequest,
    post: WriteRequest,
    event: WriteEvent,
    action: WriteAction,
)
    requires
        pre.phase == WritePhase::AwaitingData,
        post.handled(&pre, &event, &action),
    ensures
        post.ack@ == pre.ack@,
        post.block_id == pre.block_id,
        action matches WriteAction::Send(b) ==> b@ == pre.ack@,
        !(action is Finish),
{
}

/// The acknowledgement of DATA block `n` carries block id `n`: four bytes,
/// opcode 4 and the id, whether or not the block was the last one.
pub proof fn law_ack_carries_block_id(pre: WriteRequest, post: WriteRequest, action: WriteAction)
    requires
        pre.phase == WritePhase::Writing,
        post.handled(&pre, &WriteEvent::Written, &action),
    ensures
        match action {
            WriteAction::Send(b) => b@ == PacketView::Ack(pre.block_id).spec_encode()
                && post.block_id == next_block_id(pre.block_id),
            WriteAction::Finish(b) => b@ == PacketView::Ack(pre.block_id).spec_encode(),
            _ => false,
        },
        spec_packet(PacketView::Ack(pre.block_id).spec_encode()) == Some(
            PacketView::Ack(pre.block_id),
        ),
{
    crate::laws::law_decode_encode(PacketView::Ack(pre.block_id));
}

} // verus!
