//! The read-request engine: stop-and-wait sending of a file in blocks.
//!
//! The engine owns no socket and no reader. Its owner hands it one event
//! at a time and performs the action that [`ReadRequest::handle`] answers
//! with.

use vstd::prelude::*;
use vstd::slice::slice_to_vec;
use crate::addr::Peer;
use crate::error::{Error, ErrorView, IoFailure};
use crate::laws::lemma_opts_encode_len;
use crate::packet::{
    protocol_error_of, Error as PacketError, Opts, Packet, PacketView, ProtocolErrorView, RwReq,
};
use vstd::utf8::encode_utf8;
use crate::packet::no_nul;
use crate::parse::{is_word, spec_opts, spec_packet};
use crate::server::server::{ServerConfig, Timeout, DEFAULT_BLOCK_SIZE};

verus! {

/// The smaller of a requested size and the server's limit, if there is one.
pub open spec fn limited(requested: Option<u16>, limit: Option<u16>) -> Option<u16> {
    match (requested, limit) {
        (Some(size), Some(limit)) => Some(if size <= limit {
            size
        } else {
            limit
        }),
        (Some(size), None) => Some(size),
        _ => None,
    }
}

/// The options that the server accepts of a read request, each only if the
/// client sent it: the block size up to the server's limit, the timeout as
/// sent, and for `tsize 0` the size of the file where it is known. The
/// window size is never accepted: blocks go out one at a time.
pub open spec fn accepted_opts(config: ServerConfig, requested: Opts, file_size: Option<u64>) -> Opts {
    Opts {
        block_size: if config.ignore_client_block_size {
            None
        } else {
            limited(requested.block_size, config.block_size_limit)
        },
        timeout: if config.ignore_client_timeout {
            None
        } else {
            requested.timeout
        },
        transfer_size: if requested.transfer_size == Some(0u64) {
            file_size
        } else {
            None
        },
        window_size: None,
    }
}

/// The options of the OACK, or `None` where no option was accepted and no
/// OACK is sent.
pub open spec fn spec_oack_opts(config: ServerConfig, requested: Opts, file_size: Option<u64>) -> Option<Opts> {
    let opts = accepted_opts(config, requested, file_size);
    if opts == Opts::empty() {
        None
    } else {
        Some(opts)
    }
}

/// Negotiates the options of a read request.
pub fn build_oack_opts(config: &ServerConfig, req: &RwReq, file_size: Option<u64>) -> (r: Option<Opts>)
    ensures
        r == spec_oack_opts(*config, req.opts, file_size),
{
    let mut opts = Opts::default();
    if !config.ignore_client_block_size {
        opts.block_size = match (req.opts.block_size, config.block_size_limit) {
            (Some(bsize), Some(limit)) => Some(if bsize <= limit {
                bsize
            } else {
                limit
            }),
            (Some(bsize), None) => Some(bsize),
            _ => None,
        };
    }
    if !config.ignore_client_timeout {
        opts.timeout = req.opts.timeout;
    }
    if let (Some(0), Some(file_size)) = (req.opts.transfer_size, file_size) {
        opts.transfer_size = Some(file_size);
    }
    if opts.is_empty() {
        None
    } else {
        Some(opts)
    }
}

/// Where a read session stands.
#[derive(Debug, Clone, Copy, PartialEq, Eq, Structural)]
pub enum ReadPhase {
    /// Nothing has happened yet.
    Idle,
    /// The owner is reading the next block from the source.
    Reading,
    /// A datagram is out and its acknowledgement is awaited.
    AwaitingAck,
    /// The session is over.
    Finished,
}

/// What happened outside the engine.
#[derive(Debug)]
pub enum ReadEvent<'a> {
    /// The session begins.
    Start,
    /// The source gave these bytes: as many as were asked for, or fewer at
    /// its end.
    Block(&'a [u8]),
    /// A datagram from this sender arrived on the session's socket.
    Datagram(Peer, &'a [u8]),
    /// The session's timeout passed since the last datagram was sent.
    Timeout,
    /// Reading from the source or sending on the socket failed.
    Failed(IoFailure),
}

/// What the owner of the engine does next.
#[derive(Debug)]
pub enum ReadAction {
    /// Read up to this many bytes from the source and hand them in as
    /// `Block`.
    Read(usize),
    /// Send this datagram to the peer, start the timeout anew, and wait for
    /// a datagram or for the timeout.
    Send(Vec<u8>),
    /// Go on waiting; the timeout runs on.
    Wait,
    /// The transfer is complete.
    Done,
    /// The session ends with this error; [`error_reply`] says what, if
    /// anything, the peer is told.
    Abort(Error),
}

/// What a datagram means to a session that awaits an acknowledgement.
#[derive(Debug, Clone, Copy, PartialEq, Eq, Structural)]
pub enum AckReply {
    /// Not from the peer, no packet, or not the awaited acknowledgement.
    Ignore,
    /// The awaited acknowledgement.
    Acked,
    /// The peer refuses the options and gives the transfer up.
    ClientAbort,
}

/// What `data`, sent by `from`, means to a session with `peer` that awaits
/// the acknowledgement of block `awaited`.
pub open spec fn spec_ack_reply(peer: Peer, awaited: u16, from: Peer, data: Seq<u8>) -> AckReply {
    if from != peer {
        AckReply::Ignore
    } else {
        match spec_packet(data) {
            Some(PacketView::Ack(id)) => if id == awaited {
                AckReply::Acked
            } else {
                AckReply::Ignore
            },
            Some(PacketView::Error(ProtocolErrorView::OptionNegotiationFailed)) => AckReply::ClientAbort,
            _ => AckReply::Ignore,
        }
    }
}

/// The block id after `id`: one more, and 0 after 65535.
pub open spec fn next_block_id(id: u16) -> u16 {
    if id == u16::MAX {
        0
    } else {
        (id + 1) as u16
    }
}

/// State of one read transfer.
#[derive(Debug)]
pub struct ReadRequest {
    /// The client that is served.
    pub peer: Peer,
    /// Payload bytes of a full block.
    pub block_size: usize,
    /// How long an acknowledgement is waited for.
    pub timeout: Timeout,
    /// How often one datagram is sent again.
    pub max_send_retries: u32,
    /// The options of an OACK that is still to be sent.
    pub oack_opts: Option<Opts>,
    /// Whether the client asked for the size of the file only, with
    /// `tsize 0`, and may give up as soon as it has the OACK.
    pub size_probe: bool,
    /// Where the session stands.
    pub phase: ReadPhase,
    /// Id of the DATA block that is read, staged or out.
    pub block_id: u16,
    /// Block id that acknowledges the datagram that is out.
    pub awaited: u16,
    /// The datagram that is out, kept for sending it again.
    pub packet: Vec<u8>,
    /// The first DATA datagram while the OACK is out before it.
    pub staged: Option<Vec<u8>>,
    /// Whether the datagram that is out is the OACK.
    pub oack_in_flight: bool,
    /// Whether block `block_id` was short, and so the last one.
    pub is_last_block: bool,
    /// How often the datagram that is out was sent again.
    pub retries: u32,
}

impl ReadRequest {
    /// What holds of every session between two events.
    pub open spec fn wf(&self) -> bool {
        &&& self.block_size <= u16::MAX
        &&& self.phase != ReadPhase::Finished ==> {
            &&& self.staged is Some ==> self.oack_in_flight
            &&& self.oack_in_flight ==> self.phase == ReadPhase::AwaitingAck && self.awaited == 0
                && self.oack_opts is None && self.block_id == 1
            &&& (self.phase == ReadPhase::AwaitingAck && !self.oack_in_flight) ==> self.awaited
                == self.block_id
            &&& self.oack_opts is Some ==> self.block_id == 1 && (self.phase == ReadPhase::Idle
                || self.phase == ReadPhase::Reading)
        }
    }

    /// Whether the session is one that [`ReadRequest::handle`] takes.
    pub fn is_wf(&self) -> (b: bool)
        ensures
            b == self.wf(),
    {
        if self.block_size > 65535 {
            return false;
        }
        if self.phase == ReadPhase::Finished {
            return true;
        }
        let awaiting = self.phase == ReadPhase::AwaitingAck;
        let early = self.phase == ReadPhase::Idle || self.phase == ReadPhase::Reading;
        (self.staged.is_none() || self.oack_in_flight) && (!self.oack_in_flight || (awaiting
            && self.awaited == 0 && self.oack_opts.is_none() && self.block_id == 1)) && (!awaiting
            || self.oack_in_flight || self.awaited == self.block_id) && (self.oack_opts.is_none()
            || (self.block_id == 1 && early))
    }

    /// Whether the session's settings are those of `other`.
    pub open spec fn same_settings(&self, other: &ReadRequest) -> bool {
        &&& self.peer == other.peer
        &&& self.block_size == other.block_size
        &&& self.timeout == other.timeout
        &&& self.max_send_retries == other.max_send_retries
        &&& self.size_probe == other.size_probe
    }

    /// Whether the session awaits, from its first sending, the
    /// acknowledgement `awaited` of `datagram`, with `staged` behind it.
    pub open spec fn sent(
        &self,
        pre: &ReadRequest,
        datagram: Seq<u8>,
        awaited: u16,
        oack: bool,
        staged: Option<Seq<u8>>,
    ) -> bool {
        &&& self.same_settings(pre)
        &&& self.phase == ReadPhase::AwaitingAck
        &&& self.packet@ == datagram
        &&& self.awaited == awaited
        &&& self.oack_in_flight == oack
        &&& self.oack_opts is None
        &&& self.retries == 0
        &&& match staged {
            Some(d) => self.staged matches Some(v) && v@ == d,
            None => self.staged is None,
        }
    }

    /// Whether the session is a new one for a request with options
    /// `requested`: the options are negotiated, block size and timeout are
    /// the negotiated ones or else 512 bytes and the server's timeout,
    /// nothing is out yet and the first block will be block 1.
    pub open spec fn is_new(
        &self,
        file_size: Option<u64>,
        peer: Peer,
        requested: Opts,
        config: ServerConfig,
    ) -> bool {
        &&& self.peer == peer
        &&& self.oack_opts == spec_oack_opts(config, requested, file_size)
        &&& self.block_size == match self.oack_opts {
            Some(Opts { block_size: Some(size), .. }) => size as usize,
            _ => DEFAULT_BLOCK_SIZE,
        }
        &&& self.timeout == match self.oack_opts {
            Some(Opts { timeout: Some(t), .. }) => (Timeout { secs: t as u64, nanos: 0 }),
            _ => config.timeout,
        }
        &&& self.max_send_retries == config.max_send_retries
        &&& self.size_probe == (requested.transfer_size == Some(0u64))
        &&& self.phase == ReadPhase::Idle
        &&& self.block_id == 1
        &&& self.awaited == 0
        &&& self.packet@.len() == 0
        &&& self.staged is None
        &&& !self.oack_in_flight
        &&& !self.is_last_block
        &&& self.retries == 0
    }

    /// A new session for a request.
    pub fn init(file_size: Option<u64>, peer: Peer, req: &RwReq, config: &ServerConfig) -> (r:
        ReadRequest)
        ensures
            r.wf(),
            r.is_new(file_size, peer, req.opts, *config),
    {
        let oack_opts = build_oack_opts(config, req, file_size);
        let block_size: usize = match oack_opts {
            Some(Opts { block_size: Some(size), .. }) => size as usize,
            _ => DEFAULT_BLOCK_SIZE,
        };
        let timeout = match oack_opts {
            Some(Opts { timeout: Some(t), .. }) => Timeout::from_secs(t as u64),
            _ => config.timeout,
        };
        ReadRequest {
            peer,
            block_size,
            timeout,
            max_send_retries: config.max_send_retries,
            oack_opts,
            size_probe: match req.opts.transfer_size {
                Some(size) => size == 0,
                None => false,
            },
            phase: ReadPhase::Idle,
            block_id: 1,
            awaited: 0,
            packet: Vec::new(),
            staged: None,
            oack_in_flight: false,
            is_last_block: false,
            retries: 0,
        }
    }

    /// What a new session does first.
    ///
    /// For a size probe the OACK, if there is one, goes out before anything
    /// is read. In every other case the first block is read first, so that
    /// a source that fails is reported as an error and not after an OACK.
    pub open spec fn started(&self, pre: &ReadRequest, action: &ReadAction) -> bool {
        if pre.phase != ReadPhase::Idle {
            *self == *pre && *action is Wait
        } else {
            match pre.oack_opts {
                Some(opts) if pre.size_probe => {
                    &&& *action matches ReadAction::Send(b) && b@ == PacketView::OAck(
                        opts,
                    ).spec_encode()
                    &&& self.sent(pre, PacketView::OAck(opts).spec_encode(), 0, true, None)
                    &&& self.block_id == pre.block_id
                    &&& self.is_last_block == pre.is_last_block
                },
                _ => {
                    &&& *action == ReadAction::Read(pre.block_size)
                    &&& *self == (ReadRequest { phase: ReadPhase::Reading, ..*pre })
                },
            }
        }
    }

    /// Begins the session.
    fn try_handle(&mut self) -> (action: ReadAction)
        requires
            old(self).wf(),
        ensures
            final(self).wf(),
            final(self).started(old(self), &action),
    {
        if self.phase != ReadPhase::Idle {
            return ReadAction::Wait;
        }
        match self.oack_opts {
            Some(opts) if self.size_probe => {
                proof {
                    lemma_opts_encode_len(opts);
                }
                let datagram = Packet::OAck(opts).to_vec();
                self.packet = slice_to_vec(datagram.as_slice());
                self.oack_opts = None;
                self.oack_in_flight = true;
                self.awaited = 0;
                self.retries = 0;
                self.phase = ReadPhase::AwaitingAck;
                ReadAction::Send(datagram)
            },
            _ => {
                self.phase = ReadPhase::Reading;
                ReadAction::Read(self.block_size)
            },
        }
    }

    /// What a block from the source leads to: it becomes DATA block
    /// `block_id`, the last one if it is shorter than the block size. It is
    /// sent at once, unless an OACK is still due: then the OACK is sent and
    /// the block waits behind it.
    pub open spec fn block_filled(&self, pre: &ReadRequest, data: Seq<u8>, action: &ReadAction) -> bool {
        let block = PacketView::Data(pre.block_id, data).spec_encode();
        &&& self.block_id == pre.block_id
        &&& self.is_last_block == (data.len() < pre.block_size)
        &&& match pre.oack_opts {
            Some(opts) => {
                &&& *action matches ReadAction::Send(b) && b@ == PacketView::OAck(
                    opts,
                ).spec_encode()
                &&& self.sent(pre, PacketView::OAck(opts).spec_encode(), 0, true, Some(block))
            },
            None => {
                &&& *action matches ReadAction::Send(b) && b@ == block
                &&& self.sent(pre, block, pre.block_id, false, None)
            },
        }
    }

    /// Takes a block that the source gave.
    fn fill_data_block(&mut self, data: &[u8]) -> (action: ReadAction)
        requires
            old(self).wf(),
            old(self).phase == ReadPhase::Reading,
            data@.len() <= old(self).block_size,
        ensures
            final(self).wf(),
            final(self).block_filled(old(self), data@, &action),
    {
        let datagram = Packet::Data(self.block_id, data).to_vec();
        self.is_last_block = data.len() < self.block_size;
        self.retries = 0;
        self.phase = ReadPhase::AwaitingAck;
        match self.oack_opts {
            Some(opts) => {
                proof {
                    lemma_opts_encode_len(opts);
                }
                let oack = Packet::OAck(opts).to_vec();
                self.packet = slice_to_vec(oack.as_slice());
                self.staged = Some(datagram);
                self.oack_opts = None;
                self.oack_in_flight = true;
                self.awaited = 0;
                ReadAction::Send(oack)
            },
            None => {
                self.packet = slice_to_vec(datagram.as_slice());
                self.staged = None;
                self.oack_in_flight = false;
                self.awaited = self.block_id;
                ReadAction::Send(datagram)
            },
        }
    }

    /// Judges a datagram that arrived while an acknowledgement is awaited.
    pub fn recv_ack(&self, from: Peer, data: &[u8]) -> (r: AckReply)
        ensures
            r == spec_ack_reply(self.peer, self.awaited, from, data@),
    {
        if from != self.peer {
            return AckReply::Ignore;
        }
        match Packet::decode(data) {
            Ok(Packet::Ack(id)) => {
                if id == self.awaited {
                    AckReply::Acked
                } else {
                    AckReply::Ignore
                }
            },
            Ok(Packet::Error(error)) => {
                if error.is_client_error() {
                    AckReply::ClientAbort
                } else {
                    AckReply::Ignore
                }
            },
            _ => AckReply::Ignore,
        }
    }

    /// What the awaited acknowledgement leads to. After the OACK the block
    /// that waited behind it goes out, or the first block is read. After
    /// the last block the transfer is done. After any other block the next
    /// one is read, its id one higher and 0 after 65535.
    pub open spec fn acked(&self, pre: &ReadRequest, action: &ReadAction) -> bool {
        if pre.oack_in_flight {
            match pre.staged {
                Some(d) => {
                    &&& *action matches ReadAction::Send(b) && b@ == d@
                    &&& self.sent(pre, d@, pre.block_id, false, None)
                    &&& self.block_id == pre.block_id
                    &&& self.is_last_block == pre.is_last_block
                },
                None => {
                    &&& *action == ReadAction::Read(pre.block_size)
                    &&& *self == (ReadRequest {
                        phase: ReadPhase::Reading,
                        oack_in_flight: false,
                        ..*pre
                    })
                },
            }
        } else if pre.is_last_block {
            &&& *action is Done
            &&& *self == (ReadRequest { phase: ReadPhase::Finished, ..*pre })
        } else {
            &&& *action == ReadAction::Read(pre.block_size)
            &&& *self == (ReadRequest {
                phase: ReadPhase::Reading,
                block_id: next_block_id(pre.block_id),
                ..*pre
            })
        }
    }

    /// Goes on after the awaited acknowledgement.
    fn advance(&mut self) -> (action: ReadAction)
        requires
            old(self).wf(),
            old(self).phase == ReadPhase::AwaitingAck,
        ensures
            final(self).wf(),
            final(self).acked(old(self), &action),
    {
        if self.oack_in_flight {
            self.oack_in_flight = false;
            match self.staged.take() {
                Some(datagram) => {
                    self.packet = slice_to_vec(datagram.as_slice());
                    self.awaited = self.block_id;
                    self.retries = 0;
                    ReadAction::Send(datagram)
                },
                None => {
                    self.phase = ReadPhase::Reading;
                    ReadAction::Read(self.block_size)
                },
            }
        } else if self.is_last_block {
            self.phase = ReadPhase::Finished;
            ReadAction::Done
        } else {
            self.block_id = self.block_id.wrapping_add(1);
            self.phase = ReadPhase::Reading;
            ReadAction::Read(self.block_size)
        }
    }

    /// What a timeout leads to. While retries are left, the datagram that
    /// is out goes out again, byte for byte, and one retry is counted.
    /// After that the session ends with `MaxSendRetriesReached` and sends
    /// nothing more.
    pub open spec fn timed_out(&self, pre: &ReadRequest, action: &ReadAction) -> bool {
        if pre.retries < pre.max_send_retries {
            &&& *action matches ReadAction::Send(b) && b@ == pre.packet@
            &&& *self == (ReadRequest { retries: (pre.retries + 1) as u32, ..*pre })
        } else {
            &&& *action matches ReadAction::Abort(e) && e@ == ErrorView::MaxSendRetriesReached(
                pre.peer,
                pre.awaited,
            )
            &&& *self == (ReadRequest { phase: ReadPhase::Finished, ..*pre })
        }
    }

    /// Sends the datagram that is out once more, or gives the session up.
    fn send(&mut self) -> (action: ReadAction)
        requires
            old(self).wf(),
            old(self).phase == ReadPhase::AwaitingAck,
        ensures
            final(self).wf(),
            final(self).timed_out(old(self), &action),
    {
        if self.retries < self.max_send_retries {
            self.retries = self.retries + 1;
            ReadAction::Send(slice_to_vec(self.packet.as_slice()))
        } else {
            self.phase = ReadPhase::Finished;
            ReadAction::Abort(Error::MaxSendRetriesReached(self.peer, self.awaited))
        }
    }

    /// Whether the session is as it was and the owner goes on waiting.
    pub open spec fn ignored(&self, pre: &ReadRequest, action: &ReadAction) -> bool {
        *self == *pre && *action is Wait
    }

    /// Whether the session has ended with the error `e`.
    pub open spec fn aborted(&self, pre: &ReadRequest, action: &ReadAction, e: ErrorView) -> bool {
        &&& *action matches ReadAction::Abort(err) && err@ == e
        &&& *self == (ReadRequest { phase: ReadPhase::Finished, ..*pre })
    }

    /// What an event leads to. An event that the session has no use for
    /// where it stands changes nothing and is answered with `Wait`.
    pub open spec fn handled(&self, pre: &ReadRequest, event: &ReadEvent, action: &ReadAction) -> bool {
        match *event {
            ReadEvent::Start => self.started(pre, action),
            ReadEvent::Block(data) => if pre.phase == ReadPhase::Reading && data@.len()
                <= pre.block_size {
                self.block_filled(pre, data@, action)
            } else {
                self.ignored(pre, action)
            },
            ReadEvent::Datagram(from, data) => if pre.phase == ReadPhase::AwaitingAck {
                match spec_ack_reply(pre.peer, pre.awaited, from, data@) {
                    AckReply::Ignore => self.ignored(pre, action),
                    AckReply::Acked => self.acked(pre, action),
                    AckReply::ClientAbort => self.aborted(
                        pre,
                        action,
                        ErrorView::Packet(ProtocolErrorView::OptionNegotiationFailed),
                    ),
                }
            } else {
                self.ignored(pre, action)
            },
            ReadEvent::Timeout => if pre.phase == ReadPhase::AwaitingAck {
                self.timed_out(pre, action)
            } else {
                self.ignored(pre, action)
            },
            ReadEvent::Failed(f) => if pre.phase != ReadPhase::Finished {
                self.aborted(pre, action, ErrorView::Io(f))
            } else {
                self.ignored(pre, action)
            },
        }
    }

    /// Takes one event and says what to do next.
    pub fn handle(&mut self, event: ReadEvent<'_>) -> (action: ReadAction)
        requires
            old(self).wf(),
        ensures
            final(self).wf(),
            final(self).handled(old(self), &event, &action),
    {
        match event {
            ReadEvent::Start => self.try_handle(),
            ReadEvent::Block(data) => {
                if self.phase == ReadPhase::Reading && data.len() <= self.block_size {
                    self.fill_data_block(data)
                } else {
                    ReadAction::Wait
                }
            },
            ReadEvent::Datagram(from, data) => {
                if self.phase != ReadPhase::AwaitingAck {
                    return ReadAction::Wait;
                }
                match self.recv_ack(from, data) {
                    AckReply::Ignore => ReadAction::Wait,
                    AckReply::Acked => self.advance(),
                    AckReply::ClientAbort => {
                        self.phase = ReadPhase::Finished;
                        ReadAction::Abort(Error::Packet(PacketError::OptionNegotiationFailed))
                    },
                }
            },
            ReadEvent::Timeout => {
                if self.phase == ReadPhase::AwaitingAck {
                    self.send()
                } else {
                    ReadAction::Wait
                }
            },
            ReadEvent::Failed(f) => {
                if self.phase != ReadPhase::Finished {
                    self.phase = ReadPhase::Finished;
                    ReadAction::Abort(Error::Io(f))
                } else {
                    ReadAction::Wait
                }
            },
        }
    }
}

/// How far a block is filled after one read from the source.
#[derive(Debug, Clone, Copy, PartialEq, Eq, Structural)]
pub enum BlockProgress {
    /// This many bytes are there and the source may have more: read on.
    Partial(usize),
    /// The block is complete with this many bytes: it is full, or the
    /// source is at its end.
    Complete(usize),
}

/// Judges one read from the source while a block of `want` bytes is
/// filled: `filled` bytes were there and the read gave `got` more. A read
/// that gives nothing marks the end of the source.
pub fn read_block(filled: usize, got: usize, want: usize) -> (r: BlockProgress)
    requires
        filled <= want,
        got <= want - filled,
    ensures
        r == (if got == 0 {
            BlockProgress::Complete(filled)
        } else if filled + got == want {
            BlockProgress::Complete(want)
        } else {
            BlockProgress::Partial((filled + got) as usize)
        }),
{
    if got == 0 {
        BlockProgress::Complete(filled)
    } else if filled + got == want {
        BlockProgress::Complete(want)
    } else {
        BlockProgress::Partial(filled + got)
    }
}

/// What the peer of a read session is told when the session ends with an
/// error: nothing after the peer itself gave up and nothing when the
/// retries ran out, else the protocol error that stands for the error.
pub open spec fn spec_error_reply(e: ErrorView) -> Option<ProtocolErrorView> {
    match e {
        ErrorView::Packet(ProtocolErrorView::OptionNegotiationFailed) => None,
        ErrorView::MaxSendRetriesReached(_, _) => None,
        _ => Some(protocol_error_of(e)),
    }
}

/// The ERROR packet, if any, that is sent once, and never again, when a
/// read session ends with `error`.
pub fn error_reply(error: Error) -> (r: Option<PacketError>)
    ensures
        match spec_error_reply(error@) {
            Some(e) => r matches Some(p) && p@ == e,
            None => r is None,
        },
{
    match error {
        Error::Packet(PacketError::OptionNegotiationFailed) => None,
        Error::MaxSendRetriesReached(..) => None,
        e => Some(PacketError::from_error(e)),
    }
}

/// Sending again sends the same bytes: while retries are left, a timeout
/// leaves the datagram that is out, its block id and the awaited
/// acknowledgement as they are, and the datagram that goes out is the one
/// that went out before.
pub proof fn law_retransmission_same_bytes(pre: ReadRequest, post: ReadRequest, action: ReadAction)
    requires
        pre.phase == ReadPhase::AwaitingAck,
        pre.retries < pre.max_send_retries,
        post.handled(&pre, &ReadEvent::Timeout, &action),
    ensures
        action matches ReadAction::Send(b) && b@ == pre.packet@,
        post.packet@ == pre.packet@,
        post.block_id == pre.block_id,
        post.awaited == pre.awaited,
        post.retries == pre.retries + 1,
{
}

/// One step answers with at most one datagram. A datagram that goes out
/// for the first time is the one kept for sending again; it is awaited to
/// be acknowledged by block id 0 where it is the OACK, and by the id of
/// its block where it is a DATA block.
pub proof fn law_one_datagram_per_step(
    pre: ReadRequest,
    post: ReadRequest,
    event: ReadEvent,
    action: ReadAction,
)
    requires
        pre.wf(),
        post.handled(&pre, &event, &action),
        action is Send,
        !(event is Timeout),
    ensures
        action->Send_0@ == post.packet@,
        post.retries == 0,
        post.phase == ReadPhase::AwaitingAck,
        post.oack_in_flight ==> post.awaited == 0,
        !post.oack_in_flight ==> post.awaited == post.block_id,
{
}

/// Whatever goes out is what is kept for sending again, first sending or
/// not.
pub proof fn law_sent_bytes_are_kept(
    pre: ReadRequest,
    post: ReadRequest,
    event: ReadEvent,
    action: ReadAction,
)
    requires
        pre.wf(),
        post.handled(&pre, &event, &action),
        action is Send,
    ensures
        action->Send_0@ == post.packet@,
        post.phase == ReadPhase::AwaitingAck,
{
}

/// One step of the protocol has one datagram: while an acknowledgement is
/// awaited, the datagram that is out is replaced by nothing but the awaited
/// acknowledgement from the peer.
pub proof fn law_datagram_stays_until_acked(
    pre: ReadRequest,
    post: ReadRequest,
    event: ReadEvent,
    action: ReadAction,
)
    requires
        pre.wf(),
        pre.phase == ReadPhase::AwaitingAck,
        post.handled(&pre, &event, &action),
        post.packet@ != pre.packet@ || post.awaited != pre.awaited || post.block_id
            != pre.block_id,
    ensures
        event matches ReadEvent::Datagram(from, data) && spec_ack_reply(
            pre.peer,
            pre.awaited,
            from,
            data@,
        ) == AckReply::Acked,
{
}

/// Block ids count up from 1 and wrap: after block 65535 comes block 0,
/// then block 1.
pub proof fn law_block_id_wraps(id: u16)
    ensures
        next_block_id(id) as int == (id as int + 1) % 65536,
        next_block_id(65535) == 0,
        next_block_id(0) == 1,
{
}

/// The OACK never carries an option that the client did not send, and a
/// block size that it carries is no larger than the one asked for and no
/// larger than the server's limit.
pub proof fn law_oack_only_what_was_asked(config: ServerConfig, requested: Opts, file_size: Option<u64>)
    ensures
        ({
            let accepted = accepted_opts(config, requested, file_size);
            &&& accepted.block_size is Some ==> requested.block_size is Some
            &&& accepted.timeout is Some ==> accepted.timeout == requested.timeout
            &&& accepted.transfer_size is Some ==> requested.transfer_size == Some(0u64)
                && accepted.transfer_size == file_size
            &&& accepted.window_size is None
            &&& accepted.block_size matches Some(size) ==> size <= requested.block_size.unwrap()
                && (config.block_size_limit matches Some(limit) ==> size <= limit)
        }),
{
}

/// An option with an unknown name is not echoed: the OACK of a request is
/// the same with the option and without it.
pub proof fn law_unknown_option_not_echoed(
    config: ServerConfig,
    file_size: Option<u64>,
    name: Seq<char>,
    value: Seq<char>,
    rest: Seq<u8>,
)
    requires
        no_nul(name),
        no_nul(value),
        !is_word(name, "blksize"@),
        !is_word(name, "timeout"@),
        !is_word(name, "tsize"@),
        !is_word(name, "windowsize"@),
    ensures
        ({
            let with = spec_opts(
                encode_utf8(name) + seq![0u8] + encode_utf8(value) + seq![0u8] + rest,
            );
            let without = spec_opts(rest);
            &&& with is Some == without is Some
            &&& with matches Some(a) ==> spec_oack_opts(config, a, file_size) == spec_oack_opts(
                config,
                without.unwrap(),
                file_size,
            )
        }),
{
    crate::laws::law_unknown_option(name, value, rest);
}

} // verus!
