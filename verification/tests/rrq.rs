use async_tftp::addr::{Ip, Peer};
use async_tftp::packet::{self, Mode, Opts, Packet, RwReq};
use async_tftp::server::read_req::{
    build_oack_opts, error_reply, read_block, AckReply, BlockProgress, ReadAction, ReadEvent,
    ReadPhase, ReadRequest,
};
use async_tftp::server::{ServerConfig, Timeout};
use async_tftp::{Error, IoErrorKind, IoFailure};

fn client() -> Peer {
    Peer { ip: Ip::V4(0x7f00_0001), port: 40000, flowinfo: 0, scope_id: 0 }
}

fn stranger() -> Peer {
    Peer { ip: Ip::V4(0x7f00_0001), port: 40001, flowinfo: 0, scope_id: 0 }
}

fn config() -> ServerConfig {
    ServerConfig {
        timeout: Timeout { secs: 3, nanos: 0 },
        block_size_limit: None,
        max_send_retries: 100,
        ignore_client_timeout: false,
        ignore_client_block_size: false,
    }
}

fn request(opts: Opts) -> RwReq {
    RwReq { filename: "test".to_string(), mode: Mode::Octet, opts }
}

fn file(size: usize) -> Vec<u8> {
    (0..size).map(|i| (i * 31 + i / 251) as u8).collect()
}

fn ack(block: u16) -> Vec<u8> {
    Packet::Ack(block).to_vec()
}

/// Serves a file of `file_size` bytes to a client that acknowledges every
/// datagram at once, and checks what the client receives.
fn transfer(file_size: usize, block_size: Option<u16>, client_window_size: Option<u16>) {
    let data = file(file_size);
    let req = request(Opts { block_size, window_size: client_window_size, ..Opts::default() });
    let mut session = ReadRequest::init(None, client(), &req, &config());
    let size = block_size.map(usize::from).unwrap_or(512);
    assert_eq!(session.block_size, size);

    let mut pos = 0;
    let mut received: Vec<u8> = Vec::new();
    let mut blocks: u64 = 0;
    let mut oacks = 0;
    let mut action = session.handle(ReadEvent::Start);
    loop {
        action = match action {
            ReadAction::Read(n) => {
                assert_eq!(n, size);
                let end = usize::min(pos + n, data.len());
                let chunk = &data[pos..end];
                pos = end;
                session.handle(ReadEvent::Block(chunk))
            }
            ReadAction::Send(bytes) => match Packet::decode(&bytes).unwrap() {
                Packet::OAck(opts) => {
                    assert_eq!(blocks, 0);
                    assert_eq!(opts, Opts { block_size, ..Opts::default() });
                    oacks += 1;
                    session.handle(ReadEvent::Datagram(client(), &ack(0)))
                }
                Packet::Data(id, payload) => {
                    blocks += 1;
                    assert_eq!(id, (blocks % 65536) as u16);
                    assert!(payload.len() <= size);
                    received.extend_from_slice(payload);
                    session.handle(ReadEvent::Datagram(client(), &ack(id)))
                }
                other => panic!("unexpected packet {:?}", other),
            },
            ReadAction::Done => break,
            other => panic!("unexpected action {:?}", other),
        };
    }
    assert_eq!(received, data);
    assert_eq!(blocks, (file_size / size) as u64 + 1);
    assert_eq!(oacks, if block_size.is_some() { 1 } else { 0 });
    assert_eq!(session.phase, ReadPhase::Finished);
}

#[test]
fn rrq_transfer_0_bytes() {
    transfer(0, None, None);
    transfer(0, Some(1024), None);
    transfer(0, Some(1024), Some(8));
}

#[test]
fn rrq_transfer_less_than_block() {
    transfer(1, None, None);
    transfer(123, None, None);
    transfer(511, None, None);
    transfer(1023, Some(1024), None);
    transfer(1, None, Some(8));
    transfer(123, None, Some(8));
    transfer(511, None, Some(8));
    transfer(1023, Some(1024), Some(8));
}

#[test]
fn rrq_transfer_block() {
    transfer(512, None, None);
    transfer(1024, Some(1024), None);
    transfer(1024, Some(1024), Some(8));
}

#[test]
fn rrq_transfer_more_than_block() {
    transfer(512 + 1, None, None);
    transfer(512 + 123, None, None);
    transfer(512 + 511, None, None);
    transfer(1024 + 1, Some(1024), None);
    transfer(1024 + 123, Some(1024), None);
    transfer(1024 + 1023, Some(1024), None);
    transfer(1024 + 1023, Some(1024), Some(4));
}

#[test]
fn rrq_transfer_1mb() {
    transfer(1024 * 1024, None, None);
    transfer(1024 * 1024, Some(1024), None);
    transfer(1024 * 1024, Some(1024), Some(8));
}

#[test]
fn atftp_rrq_transfer_0_bytes() {
    transfer(0, None, None);
}

#[test]
fn atftp_rrq_transfer_less_than_block() {
    transfer(1, None, None);
    transfer(123, None, None);
    transfer(511, None, None);
}

#[test]
fn atftp_rrq_transfer_block() {
    transfer(512, None, None);
}

#[test]
fn atftp_rrq_transfer_more_than_block() {
    transfer(512 + 1, None, None);
    transfer(512 + 123, None, None);
    transfer(512 + 511, None, None);
}

#[test]
fn atftp_rrq_transfer_1mb() {
    transfer(1024 * 1024, None, None);
}

#[test]
fn block_ids_roll_over_after_65535() {
    // 65537 full blocks of 8 bytes and a last, empty one
    transfer(8 * 65537, Some(8), None);
}

#[test]
fn test_abort_on_read_error() {
    // a size probe: the OACK goes out before the source is read, so that a
    // source that would fail is never touched
    let req = request(Opts { transfer_size: Some(0), ..Default::default() });
    let mut session = ReadRequest::init(Some(4), client(), &req, &config());
    let action = session.handle(ReadEvent::Start);
    let bytes = match action {
        ReadAction::Send(bytes) => bytes,
        other => panic!("Server did not send OAck packet: {:?}", other),
    };
    let response = Packet::decode(&bytes).unwrap();
    assert!(
        matches!(response, Packet::OAck(Opts { transfer_size: Some(4), .. })),
        "Server did not send OAck packet: {:?}",
        response
    );

    // send error packet
    let abort_packet = Packet::Error(packet::Error::OptionNegotiationFailed).to_vec();
    let action = session.handle(ReadEvent::Datagram(client(), &abort_packet));
    let error = match action {
        ReadAction::Abort(e) => e,
        other => panic!(
            "Server sent data after client sent OptionNegotiationFailed error: {:?}",
            other
        ),
    };
    assert!(matches!(error, Error::Packet(packet::Error::OptionNegotiationFailed)));
    // make sure the server doesn't send anything else
    assert!(error_reply(error).is_none());
    assert_eq!(session.phase, ReadPhase::Finished);
    assert!(matches!(session.handle(ReadEvent::Timeout), ReadAction::Wait));
    assert!(matches!(session.handle(ReadEvent::Datagram(client(), &ack(0))), ReadAction::Wait));
}

#[test]
fn size_probe_gets_oack_first_then_data() {
    let data = file(1000);
    let req = request(Opts { transfer_size: Some(0), ..Default::default() });
    let mut session = ReadRequest::init(Some(1000), client(), &req, &config());
    match session.handle(ReadEvent::Start) {
        ReadAction::Send(bytes) => assert_eq!(bytes, b"\x00\x06tsize\x001000\x00".to_vec()),
        other => panic!("unexpected action {:?}", other),
    }
    assert_eq!(session.awaited, 0);
    match session.handle(ReadEvent::Datagram(client(), &ack(0))) {
        ReadAction::Read(n) => assert_eq!(n, 512),
        other => panic!("unexpected action {:?}", other),
    }
    match session.handle(ReadEvent::Block(&data[..512])) {
        ReadAction::Send(bytes) => {
            assert_eq!(&bytes[..4], b"\x00\x03\x00\x01");
            assert_eq!(&bytes[4..], &data[..512]);
        }
        other => panic!("unexpected action {:?}", other),
    }
    assert_eq!(session.awaited, 1);
}

#[test]
fn other_options_read_the_first_block_before_the_oack() {
    let req = request(Opts { block_size: Some(16), timeout: Some(7), ..Default::default() });
    let mut session = ReadRequest::init(Some(20), client(), &req, &config());
    assert_eq!(session.timeout, Timeout { secs: 7, nanos: 0 });
    assert!(matches!(session.handle(ReadEvent::Start), ReadAction::Read(16)));
    match session.handle(ReadEvent::Block(b"0123456789abcdef")) {
        ReadAction::Send(bytes) => {
            assert_eq!(bytes, b"\x00\x06blksize\x0016\x00timeout\x007\x00".to_vec())
        }
        other => panic!("unexpected action {:?}", other),
    }
    // a failing source is reported before any OACK
    let mut session = ReadRequest::init(Some(20), client(), &req, &config());
    assert!(matches!(session.handle(ReadEvent::Start), ReadAction::Read(16)));
    let failure = IoFailure { kind: IoErrorKind::Other, os_code: Some(5) };
    match session.handle(ReadEvent::Failed(failure)) {
        ReadAction::Abort(e) => {
            assert!(matches!(e, Error::Io(f) if f == failure));
            let reply = error_reply(e).unwrap();
            assert_eq!(reply.code(), 0);
            assert_eq!(reply.msg(), "IO error: 5");
        }
        other => panic!("unexpected action {:?}", other),
    }
}

#[test]
fn file_of_one_block_ends_with_an_empty_block() {
    let data = file(512);
    let mut session = ReadRequest::init(None, client(), &request(Opts::default()), &config());
    assert!(matches!(session.handle(ReadEvent::Start), ReadAction::Read(512)));
    match session.handle(ReadEvent::Block(&data)) {
        ReadAction::Send(bytes) => {
            assert_eq!(bytes.len(), 516);
            assert_eq!(&bytes[..4], b"\x00\x03\x00\x01");
        }
        other => panic!("unexpected action {:?}", other),
    }
    assert!(matches!(
        session.handle(ReadEvent::Datagram(client(), &ack(1))),
        ReadAction::Read(512)
    ));
    match session.handle(ReadEvent::Block(b"")) {
        ReadAction::Send(bytes) => assert_eq!(bytes, b"\x00\x03\x00\x02".to_vec()),
        other => panic!("unexpected action {:?}", other),
    }
    assert!(matches!(session.handle(ReadEvent::Datagram(client(), &ack(2))), ReadAction::Done));

    // an empty file is one empty block
    let mut session = ReadRequest::init(None, client(), &request(Opts::default()), &config());
    assert!(matches!(session.handle(ReadEvent::Start), ReadAction::Read(512)));
    match session.handle(ReadEvent::Block(b"")) {
        ReadAction::Send(bytes) => assert_eq!(bytes, b"\x00\x03\x00\x01".to_vec()),
        other => panic!("unexpected action {:?}", other),
    }
    assert!(matches!(session.handle(ReadEvent::Datagram(client(), &ack(1))), ReadAction::Done));
}

#[test]
fn lost_ack_brings_the_same_bytes_again_until_retries_run_out() {
    let mut cfg = config();
    cfg.max_send_retries = 3;
    let mut session = ReadRequest::init(None, client(), &request(Opts::default()), &cfg);
    assert!(matches!(session.handle(ReadEvent::Start), ReadAction::Read(512)));
    let first = match session.handle(ReadEvent::Block(b"hello")) {
        ReadAction::Send(bytes) => bytes,
        other => panic!("unexpected action {:?}", other),
    };
    assert_eq!(first, b"\x00\x03\x00\x01hello".to_vec());
    let mut sends = 1;
    loop {
        match session.handle(ReadEvent::Timeout) {
            ReadAction::Send(bytes) => {
                assert_eq!(bytes, first);
                sends += 1;
            }
            ReadAction::Abort(e) => {
                assert!(matches!(e, Error::MaxSendRetriesReached(p, 1) if p == client()));
                // the session ends silently
                assert!(error_reply(e).is_none());
                break;
            }
            other => panic!("unexpected action {:?}", other),
        }
    }
    assert_eq!(sends, 4);
    assert_eq!(session.phase, ReadPhase::Finished);
    assert!(matches!(session.handle(ReadEvent::Timeout), ReadAction::Wait));
}

#[test]
fn retries_are_counted_for_each_block_anew() {
    let mut cfg = config();
    cfg.max_send_retries = 1;
    let data = file(600);
    let mut session = ReadRequest::init(None, client(), &request(Opts::default()), &cfg);
    session.handle(ReadEvent::Start);
    session.handle(ReadEvent::Block(&data[..512]));
    assert!(matches!(session.handle(ReadEvent::Timeout), ReadAction::Send(_)));
    assert!(matches!(
        session.handle(ReadEvent::Datagram(client(), &ack(1))),
        ReadAction::Read(512)
    ));
    session.handle(ReadEvent::Block(&data[512..]));
    assert_eq!(session.retries, 0);
    assert!(matches!(session.handle(ReadEvent::Timeout), ReadAction::Send(_)));
    assert!(matches!(session.handle(ReadEvent::Timeout), ReadAction::Abort(_)));
}

#[test]
fn datagrams_that_are_no_awaited_ack_are_passed_over() {
    let mut session = ReadRequest::init(None, client(), &request(Opts::default()), &config());
    session.handle(ReadEvent::Start);
    session.handle(ReadEvent::Block(b"x"));
    assert_eq!(session.recv_ack(stranger(), &ack(1)), AckReply::Ignore);
    assert_eq!(session.recv_ack(client(), &ack(0)), AckReply::Ignore);
    assert_eq!(session.recv_ack(client(), &ack(2)), AckReply::Ignore);
    assert_eq!(session.recv_ack(client(), b"\x00\x04\x00"), AckReply::Ignore);
    assert_eq!(session.recv_ack(client(), b"\x00\x04\x00\x01\x00"), AckReply::Ignore);
    assert_eq!(session.recv_ack(client(), b"\x00\x03\x00\x01"), AckReply::Ignore);
    assert_eq!(session.recv_ack(client(), b"\x00\x05\x00\x01gone\x00"), AckReply::Ignore);
    assert_eq!(session.recv_ack(client(), b"\x00\x05\x00\x08no\x00"), AckReply::ClientAbort);
    assert_eq!(session.recv_ack(stranger(), b"\x00\x05\x00\x08no\x00"), AckReply::Ignore);
    assert_eq!(session.recv_ack(client(), &ack(1)), AckReply::Acked);
    for datagram in [&ack(0)[..], b"", b"\x00\x05\x00\x01gone\x00"] {
        assert!(matches!(
            session.handle(ReadEvent::Datagram(client(), datagram)),
            ReadAction::Wait
        ));
        assert_eq!(session.phase, ReadPhase::AwaitingAck);
        assert_eq!(session.retries, 0);
    }
    assert!(matches!(
        session.handle(ReadEvent::Datagram(stranger(), &ack(1))),
        ReadAction::Wait
    ));
    assert!(matches!(session.handle(ReadEvent::Datagram(client(), &ack(1))), ReadAction::Done));
}

#[test]
fn events_out_of_turn_change_nothing() {
    let mut session = ReadRequest::init(None, client(), &request(Opts::default()), &config());
    assert!(matches!(session.handle(ReadEvent::Timeout), ReadAction::Wait));
    assert!(matches!(session.handle(ReadEvent::Block(b"x")), ReadAction::Wait));
    assert!(matches!(session.handle(ReadEvent::Datagram(client(), &ack(1))), ReadAction::Wait));
    assert_eq!(session.phase, ReadPhase::Idle);
    assert!(matches!(session.handle(ReadEvent::Start), ReadAction::Read(512)));
    assert!(matches!(session.handle(ReadEvent::Start), ReadAction::Wait));
    // more bytes than were asked for are no block
    let long = file(513);
    assert!(matches!(session.handle(ReadEvent::Block(&long)), ReadAction::Wait));
    assert_eq!(session.phase, ReadPhase::Reading);
}

#[test]
fn read_options_are_negotiated() {
    let all = Opts {
        block_size: Some(1468),
        timeout: Some(5),
        transfer_size: Some(0),
        window_size: Some(4),
    };
    let cfg = config();
    assert_eq!(
        build_oack_opts(&cfg, &request(all), Some(77)),
        Some(Opts { block_size: Some(1468), timeout: Some(5), transfer_size: Some(77), window_size: None })
    );
    assert_eq!(
        build_oack_opts(&cfg, &request(all), None),
        Some(Opts { block_size: Some(1468), timeout: Some(5), ..Opts::default() })
    );
    let limited = ServerConfig { block_size_limit: Some(1024), ..cfg };
    assert_eq!(build_oack_opts(&limited, &request(all), None).unwrap().block_size, Some(1024));
    let exact = ServerConfig { block_size_limit: Some(1468), ..cfg };
    assert_eq!(build_oack_opts(&exact, &request(all), None).unwrap().block_size, Some(1468));
    let wide = ServerConfig { block_size_limit: Some(4096), ..cfg };
    assert_eq!(build_oack_opts(&wide, &request(all), None).unwrap().block_size, Some(1468));
    let deaf = ServerConfig { ignore_client_block_size: true, ignore_client_timeout: true, ..limited };
    assert_eq!(build_oack_opts(&deaf, &request(all), None), None);
    assert_eq!(
        build_oack_opts(&deaf, &request(all), Some(3)),
        Some(Opts { transfer_size: Some(3), ..Opts::default() })
    );
    // a transfer size other than 0 is no probe
    let sized = Opts { transfer_size: Some(9), ..Opts::default() };
    assert_eq!(build_oack_opts(&cfg, &request(sized), Some(3)), None);
    // the limit alone makes no option
    assert_eq!(build_oack_opts(&limited, &request(Opts::default()), Some(3)), None);
    // a window size alone is not accepted, so no OACK is sent
    let window = Opts { window_size: Some(8), ..Opts::default() };
    assert_eq!(build_oack_opts(&cfg, &request(window), Some(3)), None);

    let session = ReadRequest::init(None, client(), &request(all), &deaf);
    assert_eq!(session.block_size, 512);
    assert_eq!(session.timeout, Timeout { secs: 3, nanos: 0 });
    assert_eq!(session.max_send_retries, 100);
    assert!(session.oack_opts.is_none());
}

#[test]
fn read_errors_are_reported_once_or_not_at_all() {
    let io = |kind, os_code| Error::Io(IoFailure { kind, os_code });
    assert!(matches!(
        error_reply(io(IoErrorKind::NotFound, Some(2))),
        Some(packet::Error::FileNotFound)
    ));
    assert!(matches!(
        error_reply(io(IoErrorKind::PermissionDenied, None)),
        Some(packet::Error::PermissionDenied)
    ));
    assert!(matches!(error_reply(io(IoErrorKind::WriteZero, None)), Some(packet::Error::DiskFull)));
    assert!(matches!(
        error_reply(io(IoErrorKind::AlreadyExists, None)),
        Some(packet::Error::FileAlreadyExists)
    ));
    assert!(matches!(
        error_reply(io(IoErrorKind::TimedOut, Some(110))),
        Some(packet::Error::Msg(ref m)) if m == "IO error: 110"
    ));
    assert!(matches!(
        error_reply(io(IoErrorKind::Other, Some(-7))),
        Some(packet::Error::Msg(ref m)) if m == "IO error: -7"
    ));
    assert!(matches!(
        error_reply(io(IoErrorKind::Other, Some(i32::MIN))),
        Some(packet::Error::Msg(ref m)) if m == "IO error: -2147483648"
    ));
    assert!(matches!(
        error_reply(io(IoErrorKind::Other, Some(0))),
        Some(packet::Error::Msg(ref m)) if m == "IO error: 0"
    ));
    assert!(matches!(error_reply(io(IoErrorKind::Other, None)), Some(packet::Error::UnknownError)));
    assert!(matches!(error_reply(Error::InvalidPacket), Some(packet::Error::IllegalOperation)));
    assert!(matches!(
        error_reply(Error::Packet(packet::Error::NoSuchUser)),
        Some(packet::Error::NoSuchUser)
    ));
    assert!(matches!(
        error_reply(Error::Bind(IoFailure { kind: IoErrorKind::NotFound, os_code: None })),
        Some(packet::Error::UnknownError)
    ));
    assert!(matches!(
        error_reply(Error::NotDir("x".to_string())),
        Some(packet::Error::UnknownError)
    ));
    assert!(error_reply(Error::MaxSendRetriesReached(client(), 9)).is_none());
    assert!(error_reply(Error::Packet(packet::Error::OptionNegotiationFailed)).is_none());
}

#[test]
fn a_block_is_read_until_it_is_full_or_the_source_ends() {
    assert_eq!(read_block(0, 0, 512), BlockProgress::Complete(0));
    assert_eq!(read_block(0, 512, 512), BlockProgress::Complete(512));
    assert_eq!(read_block(0, 100, 512), BlockProgress::Partial(100));
    assert_eq!(read_block(100, 411, 512), BlockProgress::Partial(511));
    assert_eq!(read_block(511, 1, 512), BlockProgress::Complete(512));
    assert_eq!(read_block(511, 0, 512), BlockProgress::Complete(511));
    assert_eq!(read_block(0, 0, 0), BlockProgress::Complete(0));
}

#[test]
fn unknown_options_are_not_echoed() {
    let datagram =
        b"\x00\x01boot.img\x00octet\x00multicast\x00\x00blksize\x001024\x00utimeout\x0050\x00";
    let req = match Packet::decode(datagram) {
        Ok(Packet::Rrq(req)) => req,
        other => panic!("unexpected packet {:?}", other),
    };
    let opts = build_oack_opts(&config(), &req, Some(5)).unwrap();
    assert_eq!(Packet::OAck(opts).to_vec(), b"\x00\x06blksize\x001024\x00".to_vec());

    // with unknown options only, no OACK is sent and block 1 comes first
    let datagram = b"\x00\x01boot.img\x00octet\x00multicast\x00\x00";
    let req = match Packet::decode(datagram) {
        Ok(Packet::Rrq(req)) => req,
        other => panic!("unexpected packet {:?}", other),
    };
    assert_eq!(build_oack_opts(&config(), &req, Some(5)), None);
    let mut session = ReadRequest::init(Some(5), client(), &req, &config());
    assert!(matches!(session.handle(ReadEvent::Start), ReadAction::Read(512)));
    match session.handle(ReadEvent::Block(b"12345")) {
        ReadAction::Send(bytes) => assert_eq!(bytes, b"\x00\x03\x00\x0112345".to_vec()),
        other => panic!("unexpected action {:?}", other),
    }
}

/// Fills one block from `source`, which gives at most `chunk` bytes at a
/// time, the way the owner of a session does.
fn fill_block(source: &[u8], pos: &mut usize, chunk: usize, want: usize) -> Vec<u8> {
    let mut block = Vec::new();
    loop {
        let room = want - block.len();
        let got = usize::min(usize::min(chunk, room), source.len() - *pos);
        block.extend_from_slice(&source[*pos..*pos + got]);
        *pos += got;
        match read_block(block.len() - got, got, want) {
            BlockProgress::Partial(filled) => assert_eq!(filled, block.len()),
            BlockProgress::Complete(filled) => {
                assert_eq!(filled, block.len());
                return block;
            }
        }
    }
}

#[test]
fn block_stream_check() {
    let buf = file(512 * 10 + 123);
    let mut rest = &buf[..];
    let mut pos = 0;
    let mut count = 0;
    let mut blocks = 0;
    loop {
        let x = fill_block(&buf, &mut pos, 100, 512);
        let len = usize::min(512, rest.len());
        assert_eq!(&x[..], &rest[..len]);
        rest = &rest[len..];
        count += len;
        blocks += 1;
        if x.len() < 512 {
            break;
        }
    }
    assert_eq!(count, 512 * 10 + 123);
    assert_eq!(blocks, 11);
}

#[test]
fn size_probe_without_known_size() {
    // the size is not known, so `tsize` is dropped; the block size is
    // accepted, and its OACK goes out before the source is read
    let opts = Opts { block_size: Some(100), transfer_size: Some(0), ..Opts::default() };
    let mut session = ReadRequest::init(None, client(), &request(opts), &config());
    assert!(session.size_probe);
    match session.handle(ReadEvent::Start) {
        ReadAction::Send(bytes) => assert_eq!(bytes, b"\x00\x06blksize\x00100\x00".to_vec()),
        other => panic!("unexpected action {:?}", other),
    }
    assert!(matches!(
        session.handle(ReadEvent::Datagram(client(), &ack(0))),
        ReadAction::Read(100)
    ));

    // nothing is accepted: there is no OACK, and block 1 comes first
    let opts = Opts { transfer_size: Some(0), ..Opts::default() };
    let mut session = ReadRequest::init(None, client(), &request(opts), &config());
    assert!(matches!(session.handle(ReadEvent::Start), ReadAction::Read(512)));

    // a transfer size other than 0 is no probe
    let opts = Opts { block_size: Some(100), transfer_size: Some(1), ..Opts::default() };
    let mut session = ReadRequest::init(Some(9), client(), &request(opts), &config());
    assert!(!session.size_probe);
    assert!(matches!(session.handle(ReadEvent::Start), ReadAction::Read(100)));
}
