//! Packet definitions.

use vstd::prelude::*;
use vstd::slice::slice_to_vec;
use vstd::string::StringExecFns;
use vstd::utf8::encode_utf8;
use crate::buffer::{
    be16, buf_as_slice, buf_bytes, buf_freeze, buf_new, buf_put_slice, buf_put_u16, buf_put_u8,
    frozen_bytes,
};
use crate::digits::{decimal_bytes, decimal_text, push_signed_decimal_str, signed_decimal_chars};
use crate::error::{ErrorView, IoErrorKind, IoFailure};

verus! {

/// Length of the opcode and the block id in front of a DATA payload.
pub const PACKET_DATA_HEADER_LEN: usize = 4;

/// Smallest block size that a client may ask for.
pub const MIN_BLOCK_SIZE: u16 = 8;

/// Largest block size that a client may ask for.
pub const MAX_BLOCK_SIZE: u16 = 65464;

/// The six kinds of packet, each with an opcode of its own.
#[derive(Debug, Clone, Copy, PartialEq, Eq, Structural)]
pub enum PacketType {
    Rrq,
    Wrq,
    Data,
    Ack,
    Error,
    OAck,
}

/// TFTP protocol error. Should not be confused with `async_tftp::Error`.
#[derive(Debug, Clone)]
pub enum Error {
    Msg(String),
    UnknownError,
    FileNotFound,
    PermissionDenied,
    DiskFull,
    IllegalOperation,
    UnknownTransferId,
    FileAlreadyExists,
    NoSuchUser,
    OptionNegotiationFailed,
}

/// The protocol [`Error`] with its message as a sequence of characters.
pub ghost enum ProtocolErrorView {
    Msg(Seq<char>),
    UnknownError,
    FileNotFound,
    PermissionDenied,
    DiskFull,
    IllegalOperation,
    UnknownTransferId,
    FileAlreadyExists,
    NoSuchUser,
    OptionNegotiationFailed,
}

/// A packet. The payload of a DATA packet is borrowed, from the datagram
/// it was decoded from or from the block that is to be sent.
#[derive(Debug)]
pub enum Packet<'a> {
    Rrq(RwReq),
    Wrq(RwReq),
    Data(u16, &'a [u8]),
    Ack(u16),
    Error(Error),
    OAck(Opts),
}

/// Transfer mode of a request. The name is recognized; the data is
/// passed on unchanged in every mode.
#[derive(Debug, Clone, Copy, PartialEq, Eq, Structural)]
pub enum Mode {
    Netascii,
    Octet,
    Mail,
}

/// A read or write request: the file, the mode, and the options asked for.
#[derive(Debug, Clone, PartialEq, Eq)]
pub struct RwReq {
    pub filename: String,
    pub mode: Mode,
    pub opts: Opts,
}

/// A request with its file name as a sequence of characters.
pub ghost struct RwReqView {
    pub filename: Seq<char>,
    pub mode: Mode,
    pub opts: Opts,
}

/// The options of a request or of an OACK, each set or not.
#[derive(Debug, Clone, Copy, PartialEq, Eq, Structural)]
pub struct Opts {
    /// `blksize`: payload bytes of a full block.
    pub block_size: Option<u16>,
    /// `timeout`: seconds to wait before sending again.
    pub timeout: Option<u8>,
    /// `tsize`: size of the file in bytes.
    pub transfer_size: Option<u64>,
    /// `windowsize`: blocks sent before an acknowledgement is awaited.
    pub window_size: Option<u16>,
}

/// A packet as a mathematical value: strings as sequences of characters,
/// the payload as a sequence of bytes.
pub ghost enum PacketView {
    Rrq(RwReqView),
    Wrq(RwReqView),
    Data(u16, Seq<u8>),
    Ack(u16),
    Error(ProtocolErrorView),
    OAck(Opts),
}

impl View for Error {
    type V = ProtocolErrorView;

    open spec fn view(&self) -> ProtocolErrorView {
        match self {
            Error::Msg(m) => ProtocolErrorView::Msg(m@),
            Error::UnknownError => ProtocolErrorView::UnknownError,
            Error::FileNotFound => ProtocolErrorView::FileNotFound,
            Error::PermissionDenied => ProtocolErrorView::PermissionDenied,
            Error::DiskFull => ProtocolErrorView::DiskFull,
            Error::IllegalOperation => ProtocolErrorView::IllegalOperation,
            Error::UnknownTransferId => ProtocolErrorView::UnknownTransferId,
            Error::FileAlreadyExists => ProtocolErrorView::FileAlreadyExists,
            Error::NoSuchUser => ProtocolErrorView::NoSuchUser,
            Error::OptionNegotiationFailed => ProtocolErrorView::OptionNegotiationFailed,
        }
    }
}

impl View for RwReq {
    type V = RwReqView;

    open spec fn view(&self) -> RwReqView {
        RwReqView { filename: self.filename@, mode: self.mode, opts: self.opts }
    }
}

impl<'a> View for Packet<'a> {
    type V = PacketView;

    open spec fn view(&self) -> PacketView {
        match self {
            Packet::Rrq(r) => PacketView::Rrq(r@),
            Packet::Wrq(r) => PacketView::Wrq(r@),
            Packet::Data(b, d) => PacketView::Data(*b, d@),
            Packet::Ack(b) => PacketView::Ack(*b),
            Packet::Error(e) => PacketView::Error(e@),
            Packet::OAck(o) => PacketView::OAck(*o),
        }
    }
}

impl PacketType {
    /// The opcode that stands for the packet type on the wire.
    pub open spec fn spec_to_u16(self) -> u16 {
        match self {
            PacketType::Rrq => 1,
            PacketType::Wrq => 2,
            PacketType::Data => 3,
            PacketType::Ack => 4,
            PacketType::Error => 5,
            PacketType::OAck => 6,
        }
    }

    /// The packet type that an opcode stands for, where it stands for one.
    pub open spec fn spec_from_u16(n: u16) -> Option<PacketType> {
        if n == 1 {
            Some(PacketType::Rrq)
        } else if n == 2 {
            Some(PacketType::Wrq)
        } else if n == 3 {
            Some(PacketType::Data)
        } else if n == 4 {
            Some(PacketType::Ack)
        } else if n == 5 {
            Some(PacketType::Error)
        } else if n == 6 {
            Some(PacketType::OAck)
        } else {
            None
        }
    }

    pub fn from_u16(n: u16) -> (r: Option<PacketType>)
        ensures
            r == Self::spec_from_u16(n),
            r matches Some(t) ==> t.spec_to_u16() == n,
    {
        match n {
            1 => Some(PacketType::Rrq),
            2 => Some(PacketType::Wrq),
            3 => Some(PacketType::Data),
            4 => Some(PacketType::Ack),
            5 => Some(PacketType::Error),
            6 => Some(PacketType::OAck),
            _ => None,
        }
    }

    pub fn to_u16(self) -> (n: u16)
        ensures
            n == self.spec_to_u16(),
            Self::spec_from_u16(n) == Some(self),
    {
        match self {
            PacketType::Rrq => 1,
            PacketType::Wrq => 2,
            PacketType::Data => 3,
            PacketType::Ack => 4,
            PacketType::Error => 5,
            PacketType::OAck => 6,
        }
    }
}

impl Mode {
    /// The name of the mode as it is written on the wire.
    pub open spec fn spec_name(self) -> Seq<char> {
        match self {
            Mode::Netascii => "netascii"@,
            Mode::Octet => "octet"@,
            Mode::Mail => "mail"@,
        }
    }

    pub fn to_str(&self) -> (s: &'static str)
        ensures
            s@ == self.spec_name(),
    {
        match self {
            Mode::Netascii => "netascii",
            Mode::Octet => "octet",
            Mode::Mail => "mail",
        }
    }
}

impl ProtocolErrorView {
    /// Whether the error is read back from the wire as itself: a free
    /// message holds no zero byte, and `UnknownError`, which is written as
    /// code 0 with a fixed text, comes back as `Msg`.
    pub open spec fn wf(self) -> bool {
        match self {
            ProtocolErrorView::Msg(m) => no_nul(m),
            ProtocolErrorView::UnknownError => false,
            _ => true,
        }
    }

    /// The error code on the wire.
    pub open spec fn code(self) -> u16 {
        match self {
            ProtocolErrorView::Msg(_) => 0,
            ProtocolErrorView::UnknownError => 0,
            ProtocolErrorView::FileNotFound => 1,
            ProtocolErrorView::PermissionDenied => 2,
            ProtocolErrorView::DiskFull => 3,
            ProtocolErrorView::IllegalOperation => 4,
            ProtocolErrorView::UnknownTransferId => 5,
            ProtocolErrorView::FileAlreadyExists => 6,
            ProtocolErrorView::NoSuchUser => 7,
            ProtocolErrorView::OptionNegotiationFailed => 8,
        }
    }

    /// The message on the wire: the free text of `Msg`, the fixed text of
    /// every other kind.
    pub open spec fn msg(self) -> Seq<char> {
        match self {
            ProtocolErrorView::Msg(m) => m,
            ProtocolErrorView::UnknownError => "Unknown error"@,
            ProtocolErrorView::FileNotFound => "File not found"@,
            ProtocolErrorView::PermissionDenied => "Permission denied"@,
            ProtocolErrorView::DiskFull => "Disk is full"@,
            ProtocolErrorView::IllegalOperation => "Illegal operation"@,
            ProtocolErrorView::UnknownTransferId => "Unknown transfer ID"@,
            ProtocolErrorView::FileAlreadyExists => "File already exists"@,
            ProtocolErrorView::NoSuchUser => "No such user"@,
            ProtocolErrorView::OptionNegotiationFailed => "Option negotiation failed"@,
        }
    }

    /// The error that a code and a message stand for: codes 1 to 8 name a
    /// kind and the message is dropped; any other code is read as code 0.
    pub open spec fn from_code(code: u16, msg: Option<Seq<char>>) -> ProtocolErrorView {
        if code == 1 {
            ProtocolErrorView::FileNotFound
        } else if code == 2 {
            ProtocolErrorView::PermissionDenied
        } else if code == 3 {
            ProtocolErrorView::DiskFull
        } else if code == 4 {
            ProtocolErrorView::IllegalOperation
        } else if code == 5 {
            ProtocolErrorView::UnknownTransferId
        } else if code == 6 {
            ProtocolErrorView::FileAlreadyExists
        } else if code == 7 {
            ProtocolErrorView::NoSuchUser
        } else if code == 8 {
            ProtocolErrorView::OptionNegotiationFailed
        } else {
            match msg {
                Some(m) => ProtocolErrorView::Msg(m),
                None => ProtocolErrorView::UnknownError,
            }
        }
    }
}

/// The protocol error that stands for a failed system call: the kind where
/// the protocol has a code for it, else the raw error number in a message of
/// the form `IO error: N`, else `UnknownError`.
pub open spec fn protocol_error_of_io(f: IoFailure) -> ProtocolErrorView {
    match f.kind {
        IoErrorKind::NotFound => ProtocolErrorView::FileNotFound,
        IoErrorKind::PermissionDenied => ProtocolErrorView::PermissionDenied,
        IoErrorKind::WriteZero => ProtocolErrorView::DiskFull,
        IoErrorKind::AlreadyExists => ProtocolErrorView::FileAlreadyExists,
        _ => match f.os_code {
            Some(rc) => ProtocolErrorView::Msg("IO error: "@ + signed_decimal_chars(rc as int)),
            None => ProtocolErrorView::UnknownError,
        },
    }
}

/// The protocol error that a peer is told for an error of the server.
pub open spec fn protocol_error_of(e: ErrorView) -> ProtocolErrorView {
    match e {
        ErrorView::Packet(p) => p,
        ErrorView::Io(f) => protocol_error_of_io(f),
        ErrorView::InvalidPacket => ProtocolErrorView::IllegalOperation,
        ErrorView::MaxSendRetriesReached(_, _) => ProtocolErrorView::Msg("Max retries reached"@),
        _ => ProtocolErrorView::UnknownError,
    }
}

impl Error {
    /// The protocol error that stands for a failed system call.
    pub fn from_io(f: IoFailure) -> (e: Error)
        ensures
            e@ == protocol_error_of_io(f),
    {
        match f.kind {
            IoErrorKind::NotFound => Error::FileNotFound,
            IoErrorKind::PermissionDenied => Error::PermissionDenied,
            IoErrorKind::WriteZero => Error::DiskFull,
            IoErrorKind::AlreadyExists => Error::FileAlreadyExists,
            _ => match f.os_code {
                Some(rc) => {
                    let mut msg = String::from_str("IO error: ");
                    push_signed_decimal_str(rc, &mut msg);
                    Error::Msg(msg)
                },
                None => Error::UnknownError,
            },
        }
    }

    /// The protocol error that a peer is told for an error of the server.
    pub fn from_error(err: crate::error::Error) -> (e: Error)
        ensures
            e@ == protocol_error_of(err@),
    {
        match err {
            crate::error::Error::Packet(e) => e,
            crate::error::Error::Io(f) => Error::from_io(f),
            crate::error::Error::InvalidPacket => Error::IllegalOperation,
            crate::error::Error::MaxSendRetriesReached(..) => Error::Msg(
                String::from_str("Max retries reached"),
            ),
            _ => Error::UnknownError,
        }
    }

    pub fn from_code(code: u16, msg: Option<&str>) -> (e: Error)
        ensures
            e@ == ProtocolErrorView::from_code(
                code,
                match msg {
                    Some(m) => Some(m@),
                    None => None,
                },
            ),
    {
        match code {
            1 => Error::FileNotFound,
            2 => Error::PermissionDenied,
            3 => Error::DiskFull,
            4 => Error::IllegalOperation,
            5 => Error::UnknownTransferId,
            6 => Error::FileAlreadyExists,
            7 => Error::NoSuchUser,
            8 => Error::OptionNegotiationFailed,
            _ => match msg {
                Some(m) => Error::Msg(m.to_owned()),
                None => Error::UnknownError,
            },
        }
    }

    pub fn code(&self) -> (c: u16)
        ensures
            c == self@.code(),
            c <= 8,
    {
        match self {
            Error::Msg(..) => 0,
            Error::UnknownError => 0,
            Error::FileNotFound => 1,
            Error::PermissionDenied => 2,
            Error::DiskFull => 3,
            Error::IllegalOperation => 4,
            Error::UnknownTransferId => 5,
            Error::FileAlreadyExists => 6,
            Error::NoSuchUser => 7,
            Error::OptionNegotiationFailed => 8,
        }
    }

    pub fn msg(&self) -> (m: &str)
        ensures
            m@ == self@.msg(),
    {
        match self {
            Error::Msg(msg) => msg.as_str(),
            Error::UnknownError => "Unknown error",
            Error::FileNotFound => "File not found",
            Error::PermissionDenied => "Permission denied",
            Error::DiskFull => "Disk is full",
            Error::IllegalOperation => "Illegal operation",
            Error::UnknownTransferId => "Unknown transfer ID",
            Error::FileAlreadyExists => "File already exists",
            Error::NoSuchUser => "No such user",
            Error::OptionNegotiationFailed => "Option negotiation failed",
        }
    }

    /// Whether the error is one by which a client gives a transfer up.
    pub fn is_client_error(&self) -> (b: bool)
        ensures
            b == (self@ == ProtocolErrorView::OptionNegotiationFailed),
    {
        matches!(self, Error::OptionNegotiationFailed)
    }
}

/// Whether `text` is free of the character with code zero, so that a zero
/// byte can end it on the wire.
pub open spec fn no_nul(text: Seq<char>) -> bool {
    forall|i: int| 0 <= i < text.len() ==> text[i] != '\0'
}

/// Whether the UTF-8 form of `text` holds no zero byte.
pub open spec fn no_nul_bytes(text: Seq<char>) -> bool {
    forall|i: int| 0 <= i < encode_utf8(text).len() ==> #[trigger] encode_utf8(text)[i] != 0
}

/// One option on the wire: the name, a zero byte, the value in decimal and
/// a zero byte.
pub open spec fn option_pair(name: Seq<char>, value: nat) -> Seq<u8> {
    encode_utf8(name) + seq![0u8] + decimal_text(value) + seq![0u8]
}

/// The option on the wire where it is set, nothing where it is not.
pub open spec fn optional_pair(name: Seq<char>, value: Option<nat>) -> Seq<u8> {
    match value {
        Some(v) => option_pair(name, v),
        None => Seq::<u8>::empty(),
    }
}

impl Opts {
    /// No option set.
    pub open spec fn empty() -> Opts {
        Opts { block_size: None, timeout: None, transfer_size: None, window_size: None }
    }

    /// The ranges that the options keep: a block size of 8 to 65464 bytes,
    /// a timeout of at least one second.
    pub open spec fn wf(self) -> bool {
        &&& self.block_size matches Some(b) ==> MIN_BLOCK_SIZE <= b <= MAX_BLOCK_SIZE
        &&& self.timeout matches Some(t) ==> t >= 1
    }

    pub open spec fn block_size_nat(self) -> Option<nat> {
        match self.block_size {
            Some(v) => Some(v as nat),
            None => None,
        }
    }

    pub open spec fn timeout_nat(self) -> Option<nat> {
        match self.timeout {
            Some(v) => Some(v as nat),
            None => None,
        }
    }

    pub open spec fn transfer_size_nat(self) -> Option<nat> {
        match self.transfer_size {
            Some(v) => Some(v as nat),
            None => None,
        }
    }

    pub open spec fn window_size_nat(self) -> Option<nat> {
        match self.window_size {
            Some(v) => Some(v as nat),
            None => None,
        }
    }

    /// The options on the wire: those that are set, in the order `blksize`,
    /// `timeout`, `tsize`, `windowsize`.
    pub open spec fn spec_encode(self) -> Seq<u8> {
        optional_pair("blksize"@, self.block_size_nat()) + optional_pair(
            "timeout"@,
            self.timeout_nat(),
        ) + optional_pair("tsize"@, self.transfer_size_nat()) + optional_pair(
            "windowsize"@,
            self.window_size_nat(),
        )
    }

    /// Whether no option is set.
    pub fn is_empty(&self) -> (b: bool)
        ensures
            b == (*self == Opts::empty()),
    {
        self.block_size.is_none() && self.timeout.is_none() && self.transfer_size.is_none()
            && self.window_size.is_none()
    }

    /// Appends the options that are set to `buf`.
    pub fn encode(&self, buf: &mut bytes::BytesMut)
        requires
            buf_bytes(*old(buf)).len() + self.spec_encode().len() <= isize::MAX,
        ensures
            buf_bytes(*final(buf)) == buf_bytes(*old(buf)) + self.spec_encode(),
    {
        let ghost start = buf_bytes(*buf);
        if let Some(block_size) = self.block_size {
            put_pair(buf, "blksize", block_size as u64);
        }
        if let Some(timeout) = self.timeout {
            put_pair(buf, "timeout", timeout as u64);
        }
        if let Some(transfer_size) = self.transfer_size {
            put_pair(buf, "tsize", transfer_size);
        }
        if let Some(window_size) = self.window_size {
            put_pair(buf, "windowsize", window_size as u64);
        }
        assert(buf_bytes(*buf) =~= start + self.spec_encode());
    }
}

impl Default for Opts {
    fn default() -> (o: Opts)
        ensures
            o == Opts::empty(),
    {
        Opts { block_size: None, timeout: None, transfer_size: None, window_size: None }
    }
}

/// Appends one option to `buf`.
fn put_pair(buf: &mut bytes::BytesMut, name: &str, value: u64)
    requires
        buf_bytes(*old(buf)).len() + option_pair(name@, value as nat).len() <= isize::MAX,
    ensures
        buf_bytes(*final(buf)) == buf_bytes(*old(buf)) + option_pair(name@, value as nat),
{
    let ghost start = buf_bytes(*buf);
    let digits = decimal_bytes(value);
    buf_put_slice(buf, name.as_bytes());
    buf_put_u8(buf, 0);
    buf_put_slice(buf, digits.as_slice());
    buf_put_u8(buf, 0);
    assert(buf_bytes(*buf) =~= start + option_pair(name@, value as nat));
}

impl RwReqView {
    /// Whether the request can be written to the wire and read back: the
    /// file name holds no zero byte and the options keep their ranges.
    pub open spec fn wf(self) -> bool {
        no_nul(self.filename) && self.opts.wf()
    }

    /// The request on the wire, after the opcode: the file name, a zero
    /// byte, the mode's name, a zero byte, and the options.
    pub open spec fn spec_encode(self) -> Seq<u8> {
        encode_utf8(self.filename) + seq![0u8] + encode_utf8(self.mode.spec_name()) + seq![0u8]
            + self.opts.spec_encode()
    }
}

impl PacketView {
    /// Whether the packet is valid: its strings hold no zero byte, its
    /// options keep their ranges, and an error is not `UnknownError`, which
    /// has no wire form of its own.
    pub open spec fn wf(self) -> bool {
        match self {
            PacketView::Rrq(req) => req.wf(),
            PacketView::Wrq(req) => req.wf(),
            PacketView::Data(_, _) => true,
            PacketView::Ack(_) => true,
            PacketView::Error(e) => e.wf(),
            PacketView::OAck(opts) => opts.wf(),
        }
    }

    /// The packet on the wire.
    pub open spec fn spec_encode(self) -> Seq<u8> {
        match self {
            PacketView::Rrq(req) => be16(1) + req.spec_encode(),
            PacketView::Wrq(req) => be16(2) + req.spec_encode(),
            PacketView::Data(block, data) => be16(3) + be16(block) + data,
            PacketView::Ack(block) => be16(4) + be16(block),
            PacketView::Error(e) => be16(5) + be16(e.code()) + encode_utf8(e.msg()) + seq![0u8],
            PacketView::OAck(opts) => be16(6) + opts.spec_encode(),
        }
    }
}

/// The four bytes in front of the payload of DATA block `block_id`.
pub open spec fn data_head(block_id: u16) -> Seq<u8> {
    be16(3) + be16(block_id)
}

/// Appends a request, without its opcode, to `buf`.
fn put_req(buf: &mut bytes::BytesMut, req: &RwReq)
    requires
        buf_bytes(*old(buf)).len() + req@.spec_encode().len() <= isize::MAX,
    ensures
        buf_bytes(*final(buf)) == buf_bytes(*old(buf)) + req@.spec_encode(),
{
    let ghost start = buf_bytes(*buf);
    buf_put_slice(buf, req.filename.as_str().as_bytes());
    buf_put_u8(buf, 0);
    buf_put_slice(buf, req.mode.to_str().as_bytes());
    buf_put_u8(buf, 0);
    req.opts.encode(buf);
    assert(buf_bytes(*buf) =~= start + req@.spec_encode());
}

impl<'a> Packet<'a> {
    /// Appends the packet's wire form to `buf`.
    pub fn encode(&self, buf: &mut bytes::BytesMut)
        requires
            buf_bytes(*old(buf)).len() + self@.spec_encode().len() <= isize::MAX,
        ensures
            buf_bytes(*final(buf)) == buf_bytes(*old(buf)) + self@.spec_encode(),
    {
        let ghost start = buf_bytes(*buf);
        match self {
            Packet::Rrq(req) => {
                buf_put_u16(buf, PacketType::Rrq.to_u16());
                put_req(buf, req);
            },
            Packet::Wrq(req) => {
                buf_put_u16(buf, PacketType::Wrq.to_u16());
                put_req(buf, req);
            },
            Packet::Data(block, data) => {
                buf_put_u16(buf, PacketType::Data.to_u16());
                buf_put_u16(buf, *block);
                buf_put_slice(buf, data);
            },
            Packet::Ack(block) => {
                buf_put_u16(buf, PacketType::Ack.to_u16());
                buf_put_u16(buf, *block);
            },
            Packet::Error(error) => {
                buf_put_u16(buf, PacketType::Error.to_u16());
                buf_put_u16(buf, error.code());
                buf_put_slice(buf, error.msg().as_bytes());
                buf_put_u8(buf, 0);
            },
            Packet::OAck(opts) => {
                buf_put_u16(buf, PacketType::OAck.to_u16());
                opts.encode(buf);
            },
        }
        assert(buf_bytes(*buf) =~= start + self@.spec_encode());
    }

    /// Appends the four header bytes of DATA block `block_id` to `buf`; the
    /// payload follows from elsewhere.
    pub fn encode_data_head(block_id: u16, buf: &mut bytes::BytesMut)
        requires
            buf_bytes(*old(buf)).len() + 4 <= isize::MAX,
        ensures
            buf_bytes(*final(buf)) == buf_bytes(*old(buf)) + data_head(block_id),
    {
        let ghost start = buf_bytes(*buf);
        buf_put_u16(buf, PacketType::Data.to_u16());
        buf_put_u16(buf, block_id);
        assert(buf_bytes(*buf) =~= start + data_head(block_id));
    }

    /// Decodes a datagram: the packet it holds, or `InvalidPacket`.
    pub fn decode(data: &[u8]) -> (r: Result<Packet<'_>, crate::error::Error>)
        ensures
            match crate::parse::spec_packet(data@) {
                Some(v) => r matches Ok(p) && p@ == v && v.wf(),
                None => r matches Err(e) && e@ == crate::error::ErrorView::InvalidPacket,
            },
    {
        crate::parse::parse_packet(data)
    }

    /// The packet's wire form as a vector of bytes.
    pub fn to_vec(&self) -> (v: Vec<u8>)
        requires
            self@.spec_encode().len() <= isize::MAX,
        ensures
            v@ == self@.spec_encode(),
    {
        let mut buf = buf_new();
        self.encode(&mut buf);
        assert(buf_bytes(buf) =~= self@.spec_encode());
        slice_to_vec(buf_as_slice(&buf))
    }

    /// The packet's wire form in a buffer of its own.
    pub fn to_bytes(&self) -> (b: bytes::Bytes)
        requires
            self@.spec_encode().len() <= isize::MAX,
        ensures
            frozen_bytes(b) == self@.spec_encode(),
    {
        let mut buf = buf_new();
        self.encode(&mut buf);
        assert(buf_bytes(buf) =~= self@.spec_encode());
        buf_freeze(buf)
    }
}

} // verus!
