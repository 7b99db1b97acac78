//! Server configuration and the request dispatcher.

use vstd::prelude::*;
use crate::addr::Peer;
use crate::error::{Error, ErrorView};
use crate::packet::{protocol_error_of, Error as PacketError, Packet, PacketView, RwReq, RwReqView};
use crate::parse::spec_packet;
use crate::server::read_req::ReadRequest;
use crate::server::write_req::WriteRequest;

verus! {

/// Block size of a transfer in which none was negotiated.
pub const DEFAULT_BLOCK_SIZE: usize = 512;

/// A span of time: whole seconds and the nanoseconds beyond them.
#[derive(Debug, Clone, Copy, PartialEq, Eq, Structural)]
pub struct Timeout {
    pub secs: u64,
    pub nanos: u32,
}

impl Timeout {
    /// A span of whole seconds.
    pub fn from_secs(secs: u64) -> (t: Timeout)
        ensures
            t == (Timeout { secs, nanos: 0 }),
    {
        Timeout { secs, nanos: 0 }
    }
}

/// What the server was configured with; every session gets a copy.
#[derive(Debug, Clone, Copy, PartialEq, Eq, Structural)]
pub struct ServerConfig {
    /// How long to wait for a reply before sending again.
    pub timeout: Timeout,
    /// Upper bound of the block size that a client may get.
    pub block_size_limit: Option<u16>,
    /// How often one datagram is sent again before the session is given up.
    pub max_send_retries: u32,
    /// Whether the client's `timeout` option is passed over.
    pub ignore_client_timeout: bool,
    /// Whether the client's `blksize` option is passed over.
    pub ignore_client_block_size: bool,
}

/// TFTP server: the handler that opens files, the peers that have a
/// session in progress, and the configuration.
pub struct TftpServer<H> {
    pub handler: H,
    pub reqs_in_progress: Vec<Peer>,
    pub config: ServerConfig,
}

/// A request that was accepted and is to be served in a session of its
/// own.
#[derive(Debug)]
pub enum Request {
    Read(RwReq),
    Write(RwReq),
}

/// [`Request`] with its strings as sequences of characters.
pub ghost enum RequestView {
    Read(RwReqView),
    Write(RwReqView),
}

impl View for Request {
    type V = RequestView;

    open spec fn view(&self) -> RequestView {
        match self {
            Request::Read(req) => RequestView::Read(req@),
            Request::Write(req) => RequestView::Write(req@),
        }
    }
}

/// The socket that an ERROR packet for a failed request leaves from.
#[derive(Debug, Clone, Copy, PartialEq, Eq, Structural)]
pub enum ReplySocket {
    /// A socket bound for this one datagram.
    Fresh,
    /// The socket that the server listens on.
    Listening,
}

/// What a peer is told of a request that failed, and from where.
#[derive(Debug)]
pub struct ErrorReply {
    pub error: PacketError,
    pub socket: ReplySocket,
}

/// Where the report of an error leaves from: a socket of its own, unless
/// the error is that no socket could be bound; then the listening socket.
pub open spec fn reply_socket(e: ErrorView) -> ReplySocket {
    match e {
        ErrorView::Bind(_) => ReplySocket::Listening,
        _ => ReplySocket::Fresh,
    }
}

/// The request that a datagram on the listening socket opens: it must be a
/// read or write request, and its sender must have no session in
/// progress. Anything else is dropped without a reply.
pub open spec fn spec_request(active: Set<Peer>, peer: Peer, data: Seq<u8>) -> Option<RequestView> {
    if active.contains(peer) {
        None
    } else {
        match spec_packet(data) {
            Some(PacketView::Rrq(req)) => Some(RequestView::Read(req)),
            Some(PacketView::Wrq(req)) => Some(RequestView::Write(req)),
            _ => None,
        }
    }
}

impl<H> TftpServer<H> {
    /// No peer is listed twice.
    pub open spec fn wf(&self) -> bool {
        self.reqs_in_progress@.no_duplicates()
    }

    /// The peers that have a session in progress.
    pub open spec fn active(&self) -> Set<Peer> {
        Set::new(|p: Peer| self.reqs_in_progress@.contains(p))
    }

    /// Whether the server is one that the functions below take.
    pub fn is_wf(&self) -> (b: bool)
        ensures
            b == self.wf(),
    {
        let n: usize = self.reqs_in_progress.len();
        let mut i: usize = 0;
        while i < n
            invariant
                i <= n,
                n == self.reqs_in_progress@.len(),
                forall|a: int, b: int|
                    0 <= a < b < i ==> self.reqs_in_progress@[a] != self.reqs_in_progress@[b],
            decreases n - i,
        {
            let mut j: usize = 0;
            while j < i
                invariant
                    j <= i < n,
                    n == self.reqs_in_progress@.len(),
                    forall|a: int|
                        0 <= a < j ==> self.reqs_in_progress@[a] != self.reqs_in_progress@[i as int],
                decreases i - j,
            {
                if self.reqs_in_progress[j] == self.reqs_in_progress[i] {
                    return false;
                }
                j += 1;
            }
            i += 1;
        }
        proof {
            let s = self.reqs_in_progress@;
            assert forall|a: int, b: int|
                0 <= a < s.len() && 0 <= b < s.len() && a != b implies s[a] != s[b] by {
                if a < b {
                    assert(s[a] != s[b]);
                } else {
                    assert(s[b] != s[a]);
                }
            }
        }
        true
    }

    /// Where `peer` is listed, if it is.
    fn position(&self, peer: Peer) -> (r: Option<usize>)
        ensures
            match r {
                Some(i) => i < self.reqs_in_progress@.len() && self.reqs_in_progress@[i as int]
                    == peer,
                None => !self.reqs_in_progress@.contains(peer),
            },
    {
        let n: usize = self.reqs_in_progress.len();
        let mut i: usize = 0;
        while i < n
            invariant
                i <= n,
                n == self.reqs_in_progress@.len(),
                forall|j: int| 0 <= j < i ==> self.reqs_in_progress@[j] != peer,
            decreases n - i,
        {
            if self.reqs_in_progress[i] == peer {
                return Some(i);
            }
            i += 1;
        }
        None
    }

    /// Whether `peer` has a session in progress.
    pub fn is_active(&self, peer: Peer) -> (b: bool)
        ensures
            b == self.active().contains(peer),
    {
        self.position(peer).is_some()
    }

    /// Takes a datagram from the listening socket. A read or write request
    /// of a peer without a session marks the peer as active and is handed
    /// back to be served; every other datagram changes nothing.
    pub fn handle_req_packet(&mut self, peer: Peer, data: &[u8]) -> (r: Option<Request>)
        requires
            old(self).wf(),
        ensures
            final(self).wf(),
            final(self).config == old(self).config,
            final(self).handler == old(self).handler,
            match spec_request(old(self).active(), peer, data@) {
                Some(req) => r matches Some(q) && q@ == req && final(self).active() == old(
                    self,
                ).active().insert(peer) && final(self).reqs_in_progress@ == old(
                    self,
                ).reqs_in_progress@.push(peer),
                None => r is None && final(self).reqs_in_progress == old(self).reqs_in_progress,
            },
    {
        let request = match Packet::decode(data) {
            Ok(Packet::Rrq(req)) => Request::Read(req),
            Ok(Packet::Wrq(req)) => Request::Write(req),
            // Ignore packets that are not requests, and invalid packets
            _ => {
                return None;
            },
        };
        if self.position(peer).is_some() {
            // Ignore pending requests
            return None;
        }
        let ghost before = self.reqs_in_progress@;
        self.reqs_in_progress.push(peer);
        proof {
            let after = self.reqs_in_progress@;
            assert(after[before.len() as int] == peer);
            assert forall|p: Peer| after.contains(p) <==> (before.contains(p) || p == peer) by {
                if before.contains(p) {
                    let k = choose|k: int| 0 <= k < before.len() && before[k] == p;
                    assert(after[k] == p);
                }
                if after.contains(p) {
                    let k = choose|k: int| 0 <= k < after.len() && after[k] == p;
                    if k < before.len() {
                        assert(before[k] == p);
                    }
                }
            }
            assert(final(self).active() =~= old(self).active().insert(peer));
        }
        Some(request)
    }

    /// Opens the session of a read request, with the size of the file as
    /// far as the handler knows it.
    pub fn handle_rrq(&self, peer: Peer, req: &RwReq, file_size: Option<u64>) -> (session:
        ReadRequest)
        ensures
            session.wf(),
            session.is_new(file_size, peer, req.opts, self.config),
    {
        ReadRequest::init(file_size, peer, req, &self.config)
    }

    /// Opens the session of a write request.
    pub fn handle_wrq(&self, peer: Peer, req: &RwReq) -> (session: WriteRequest)
        ensures
            session.is_new(peer, req.opts, self.config),
    {
        WriteRequest::init(peer, req, &self.config)
    }

    /// Ends the request of `peer`: the peer is active no longer. Where the
    /// request failed before its session could report for itself, the
    /// result is the ERROR packet that is sent to the peer, once, and the
    /// socket that it leaves from.
    pub fn run_req(&mut self, peer: Peer, outcome: Result<(), Error>) -> (r: Option<ErrorReply>)
        requires
            old(self).wf(),
        ensures
            final(self).wf(),
            final(self).config == old(self).config,
            final(self).handler == old(self).handler,
            final(self).active() == old(self).active().remove(peer),
            match outcome {
                Ok(_) => r is None,
                Err(e) => r matches Some(reply) && reply.error@ == protocol_error_of(e@)
                    && reply.socket == reply_socket(e@),
            },
    {
        let ghost before = self.reqs_in_progress@;
        match self.position(peer) {
            Some(i) => {
                self.reqs_in_progress.remove(i);
                proof {
                    let after = self.reqs_in_progress@;
                    assert forall|p: Peer| after.contains(p) <==> (before.contains(p) && p
                        != peer) by {
                        if before.contains(p) && p != peer {
                            let k = choose|k: int| 0 <= k < before.len() && before[k] == p;
                            if k < i {
                                assert(after[k] == p);
                            } else {
                                assert(after[k - 1] == p);
                            }
                        }
                        if after.contains(p) {
                            let k = choose|k: int| 0 <= k < after.len() && after[k] == p;
                            if k < i {
                                assert(before[k] == p);
                            } else {
                                assert(before[k + 1] == p);
                            }
                        }
                    }
                    assert forall|a: int, b: int|
                        0 <= a < after.len() && 0 <= b < after.len() && a != b implies after[a]
                        != after[b] by {
                        let a0 = if a < i {
                            a
                        } else {
                            a + 1
                        };
                        let b0 = if b < i {
                            b
                        } else {
                            b + 1
                        };
                        assert(before[a0] != before[b0]);
                    }
                }
            },
            None => {},
        }
        proof {
            assert(final(self).active() =~= old(self).active().remove(peer));
        }
        match outcome {
            Ok(_) => None,
            Err(e) => {
                let socket = match e {
                    Error::Bind(_) => ReplySocket::Listening,
                    _ => ReplySocket::Fresh,
                };
                Some(ErrorReply { error: send_error(e), socket })
            },
        }
    }
}

/// The ERROR packet that tells a peer of `error`. It is sent once, and a
/// failure to send it is passed over.
pub fn send_error(error: Error) -> (p: PacketError)
    ensures
        p@ == protocol_error_of(error@),
{
    PacketError::from_error(error)
}

/// At most one session per peer: a peer is listed at one place at most.
pub proof fn law_one_session_per_peer<H>(server: TftpServer<H>, peer: Peer, i: int, j: int)
    requires
        server.wf(),
        0 <= i < server.reqs_in_progress@.len(),
        0 <= j < server.reqs_in_progress@.len(),
        server.reqs_in_progress@[i] == peer,
        server.reqs_in_progress@[j] == peer,
    ensures
        i == j,
{
}

/// A second request of a peer whose session is in progress is dropped:
/// nothing is handed out and nothing changes.
pub proof fn law_duplicate_request_dropped(active: Set<Peer>, peer: Peer, data: Seq<u8>)
    requires
        active.contains(peer),
    ensures
        spec_request(active, peer, data) is None,
{
}

} // verus!
