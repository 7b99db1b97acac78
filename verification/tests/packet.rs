use async_tftp::packet::{self, Mode, Opts, Packet, RwReq};
use async_tftp::parse::parse_opts;
use async_tftp::Error;
use bytes::{Bytes, BytesMut};

fn packet_to_bytes(packet: &Packet) -> Bytes {
    let mut buf = BytesMut::with_capacity(0);
    packet.encode(&mut buf);
    buf.freeze()
}

#[test]
fn check_rrq() {
    let packet = Packet::decode(b"\x00\x01abc\x00netascii\x00");

    assert!(matches!(packet, Ok(Packet::Rrq(ref req))
                    if req == &RwReq {
                        filename: "abc".to_string(),
                        mode: Mode::Netascii,
                        opts: Opts::default()
                    }
    ));

    assert_eq!(
        packet_to_bytes(&packet.unwrap()),
        b"\x00\x01abc\x00netascii\x00"[..]
    );

    let packet = Packet::decode(b"\x00\x01abc\x00netascII\x00");

    assert!(matches!(packet, Ok(Packet::Rrq(ref req))
                    if req == &RwReq {
                        filename: "abc".to_string(),
                        mode: Mode::Netascii,
                        opts: Opts::default()
                    }
    ));

    assert_eq!(
        packet_to_bytes(&packet.unwrap()),
        b"\x00\x01abc\x00netascii\x00"[..]
    );

    let packet = Packet::decode(b"\x00\x01abc\x00netascii\x00more");
    assert!(matches!(packet, Err(ref e) if matches!(e, Error::InvalidPacket)));

    let packet = Packet::decode(b"\x00\x01abc\x00netascii");
    assert!(matches!(packet, Err(ref e) if matches!(e, Error::InvalidPacket)));

    let packet = Packet::decode(b"\x00\x01abc\x00netascXX\x00");
    assert!(matches!(packet, Err(ref e) if matches!(e, Error::InvalidPacket)));

    let packet = Packet::decode(
        b"\x00\x01abc\x00netascii\x00blksize\x00123\x00timeout\x003\x00tsize\x005556\x00",
    );

    assert!(matches!(packet, Ok(Packet::Rrq(ref req))
                    if req == &RwReq {
                        filename: "abc".to_string(),
                        mode: Mode::Netascii,
                        opts: Opts {
                            block_size: Some(123),
                            timeout: Some(3),
                            transfer_size: Some(5556),
                            window_size: None,
                        }
                    }
    ));

    assert_eq!(
        packet_to_bytes(&packet.unwrap()),
        b"\x00\x01abc\x00netascii\x00blksize\x00123\x00timeout\x003\x00tsize\x005556\x00"[..]
    );

    let packet = Packet::decode(
        b"\x00\x01abc\x00netascii\x00blksize\x00123\x00timeout\x003\x00tsize\x00",
    );
    assert!(matches!(packet, Err(ref e) if matches!(e, Error::InvalidPacket)));

    let packet =
        Packet::decode(b"\x00\x01abc\x00netascii\x00blksizeX\x00123\x00");
    assert!(matches!(packet, Ok(Packet::Rrq(ref req))
                    if req == &RwReq {
                        filename: "abc".to_string(),
                        mode: Mode::Netascii,
                        opts: Opts::default()
                    }
    ));
}

#[test]
fn check_wrq() {
    let packet = Packet::decode(b"\x00\x02abc\x00octet\x00");

    assert!(matches!(packet, Ok(Packet::Wrq(ref req))
                    if req == &RwReq {
                        filename: "abc".to_string(),
                        mode: Mode::Octet,
                        opts: Opts::default()
                    }
    ));

    assert_eq!(
        packet_to_bytes(&packet.unwrap()),
        b"\x00\x02abc\x00octet\x00"[..]
    );

    let packet = Packet::decode(b"\x00\x02abc\x00OCTet\x00");

    assert!(matches!(packet, Ok(Packet::Wrq(ref req))
                    if req == &RwReq {
                        filename: "abc".to_string(),
                        mode: Mode::Octet,
                        opts: Opts::default()
                    }
    ));

    assert_eq!(
        packet_to_bytes(&packet.unwrap()),
        b"\x00\x02abc\x00octet\x00"[..]
    );

    let packet = Packet::decode(b"\x00\x02abc\x00octet\x00more");
    assert!(matches!(packet, Err(ref e) if matches!(e, Error::InvalidPacket)));

    let packet = Packet::decode(b"\x00\x02abc\x00octet");
    assert!(matches!(packet, Err(ref e) if matches!(e, Error::InvalidPacket)));

    let packet = Packet::decode(b"\x00\x02abc\x00octex\x00");
    assert!(matches!(packet, Err(ref e) if matches!(e, Error::InvalidPacket)));

    let packet = Packet::decode(
        b"\x00\x02abc\x00octet\x00blksize\x00123\x00timeout\x003\x00tsize\x005556\x00windowsize\x004\x00",
    );

    assert!(matches!(packet, Ok(Packet::Wrq(ref req))
                    if req == &RwReq {
                        filename: "abc".to_string(),
                        mode: Mode::Octet,
                        opts: Opts {
                            block_size: Some(123),
                            timeout: Some(3),
                            transfer_size: Some(5556),
                            window_size: Some(4)
                        }
                    }
    ));

    assert_eq!(
        packet_to_bytes(&packet.unwrap()),
        b"\x00\x02abc\x00octet\x00blksize\x00123\x00timeout\x003\x00tsize\x005556\x00windowsize\x004\x00"[..]
    );

    let packet = Packet::decode(b"\x00\x02abc\x00octet\x00blksizeX\x00123\x00");
    assert!(matches!(packet, Ok(Packet::Wrq(ref req))
                    if req == &RwReq {
                        filename: "abc".to_string(),
                        mode: Mode::Octet,
                        opts: Opts::default()
                    }
    ));
}

#[test]
fn check_data() {
    let packet = Packet::decode(b"\x00\x03\x00\x09abcde");
    assert!(
        matches!(packet, Ok(Packet::Data(9, ref data)) if &data[..] == b"abcde")
    );

    assert_eq!(packet_to_bytes(&packet.unwrap()), b"\x00\x03\x00\x09abcde"[..]);

    let packet = Packet::decode(b"\x00\x03\x00\x09");
    assert!(matches!(packet, Ok(Packet::Data(9, ref data)) if data.is_empty()));
    assert_eq!(packet_to_bytes(&packet.unwrap()), b"\x00\x03\x00\x09"[..]);
}

#[test]
fn check_ack() {
    let packet = Packet::decode(b"\x00\x04\x00\x09");
    assert!(matches!(packet, Ok(Packet::Ack(9))));
    assert_eq!(packet_to_bytes(&packet.unwrap()), b"\x00\x04\x00\x09"[..]);

    let packet = Packet::decode(b"\x00\x04\x00");
    assert!(matches!(packet, Err(ref e) if matches!(e, Error::InvalidPacket)));

    let packet = Packet::decode(b"\x00\x04\x00\x09a");
    assert!(matches!(packet, Err(ref e) if matches!(e, Error::InvalidPacket)));
}

#[test]
fn check_error() {
    let packet = Packet::decode(b"\x00\x05\x00\x01msg\x00");
    assert!(matches!(packet, Ok(Packet::Error(packet::Error::FileNotFound))));
    assert_eq!(
        packet_to_bytes(&packet.unwrap()),
        b"\x00\x05\x00\x01File not found\x00"[..]
    );

    // 0x10 is unknown error code an will be treated as 0
    let packet = Packet::decode(b"\x00\x05\x00\x10msg\x00");
    assert!(matches!(packet, Ok(Packet::Error(packet::Error::Msg(ref errmsg)))
                        if errmsg == "msg"));
    assert_eq!(
        packet_to_bytes(&packet.unwrap()),
        b"\x00\x05\x00\x00msg\x00"[..]
    );

    let packet = Packet::decode(b"\x00\x05\x00\x00msg\x00");
    assert!(matches!(packet, Ok(Packet::Error(packet::Error::Msg(ref errmsg)))
                        if errmsg == "msg"));
    assert_eq!(
        packet_to_bytes(&packet.unwrap()),
        b"\x00\x05\x00\x00msg\x00"[..]
    );

    let packet = Packet::decode(b"\x00\x05\x00\x00msg\x00more");
    assert!(matches!(packet, Err(ref e) if matches!(e, Error::InvalidPacket)));

    let packet = Packet::decode(b"\x00\x05\x00\x00msg");
    assert!(matches!(packet, Err(ref e) if matches!(e, Error::InvalidPacket)));

    let packet = Packet::decode(b"\x00\x05\x00\x00");
    assert!(matches!(packet, Err(ref e) if matches!(e, Error::InvalidPacket)));
}

#[test]
fn check_oack() {
    let packet = Packet::decode(b"\x00\x06");
    assert!(
        matches!(packet, Ok(Packet::OAck(ref opts)) if opts == &Opts::default())
    );

    let packet = Packet::decode(b"\x00\x06blksize\x00123\x00");
    assert!(matches!(packet, Ok(Packet::OAck(ref opts))
                    if opts == &Opts {
                        block_size: Some(123),
                        ..Default::default()
                    }
    ));

    let packet = Packet::decode(b"\x00\x06timeout\x003\x00");
    assert!(matches!(packet, Ok(Packet::OAck(ref opts))
                    if opts == &Opts {
                        timeout: Some(3),
                        ..Default::default()
                    }
    ));

    let packet = Packet::decode(b"\x00\x06tsize\x005556\x00");
    assert!(matches!(packet, Ok(Packet::OAck(ref opts))
                    if opts == &Opts {
                        transfer_size: Some(5556),
                        ..Default::default()
                    }
    ));

    let packet = Packet::decode(
        b"\x00\x06tsize\x005556\x00blksize\x00123\x00timeout\x003\x00",
    );
    assert!(matches!(packet, Ok(Packet::OAck(ref opts))
                    if opts == &Opts {
                        block_size: Some(123),
                        timeout: Some(3),
                        transfer_size: Some(5556),
            ..Default::default()
                    }
    ));
}

#[test]
fn check_packet() {
    let packet = Packet::decode(b"\x00\x07");
    assert!(matches!(packet, Err(ref e) if matches!(e, Error::InvalidPacket)));

    let packet = Packet::decode(b"\x00\x05\x00");
    assert!(matches!(packet, Err(ref e) if matches!(e, Error::InvalidPacket)));
}

#[test]
fn check_blksize_boundaries() {
    let opts = parse_opts(b"blksize\x007\x00").unwrap();
    assert_eq!(
        opts,
        Opts {
            block_size: None,
            ..Opts::default()
        }
    );

    let opts = parse_opts(b"blksize\x008\x00").unwrap();
    assert_eq!(
        opts,
        Opts {
            block_size: Some(8),
            ..Opts::default()
        }
    );

    let opts = parse_opts(b"blksize\x0065464\x00").unwrap();
    assert_eq!(
        opts,
        Opts {
            block_size: Some(65464),
            ..Opts::default()
        }
    );

    let opts = parse_opts(b"blksize\x0065465\x00").unwrap();
    assert_eq!(
        opts,
        Opts {
            block_size: None,
            ..Opts::default()
        }
    );
}

#[test]
fn check_timeout_boundaries() {
    let opts = parse_opts(b"timeout\x000\x00").unwrap();
    assert_eq!(
        opts,
        Opts {
            timeout: None,
            ..Opts::default()
        }
    );

    let opts = parse_opts(b"timeout\x001\x00").unwrap();
    assert_eq!(
        opts,
        Opts {
            timeout: Some(1),
            ..Opts::default()
        }
    );

    let opts = parse_opts(b"timeout\x00255\x00").unwrap();
    assert_eq!(
        opts,
        Opts {
            timeout: Some(255),
            ..Opts::default()
        }
    );

    let opts = parse_opts(b"timeout\x00256\x00").unwrap();
    assert_eq!(
        opts,
        Opts {
            timeout: None,
            ..Opts::default()
        }
    );
}

#[test]
fn encode_appends_to_what_the_buffer_holds() {
    let mut buf = BytesMut::new();
    buf.extend_from_slice(b"xy");
    Packet::Ack(0x0102).encode(&mut buf);
    assert_eq!(&buf[..], b"xy\x00\x04\x01\x02");
    Packet::encode_data_head(0xfffe, &mut buf);
    assert_eq!(&buf[..], b"xy\x00\x04\x01\x02\x00\x03\xff\xfe");
}

#[test]
fn to_bytes_and_to_vec_give_the_wire_form() {
    let packet = Packet::Data(258, b"payload");
    assert_eq!(packet.to_bytes(), b"\x00\x03\x01\x02payload"[..]);
    assert_eq!(packet.to_vec(), b"\x00\x03\x01\x02payload".to_vec());
    let oack = Packet::OAck(Opts {
        block_size: Some(1468),
        timeout: Some(1),
        transfer_size: Some(0),
        window_size: Some(65535),
    });
    assert_eq!(
        oack.to_vec(),
        b"\x00\x06blksize\x001468\x00timeout\x001\x00tsize\x000\x00windowsize\x0065535\x00".to_vec()
    );
}

#[test]
fn error_codes_and_messages() {
    let all = [
        (packet::Error::Msg("free text".to_string()), 0u16, "free text"),
        (packet::Error::UnknownError, 0, "Unknown error"),
        (packet::Error::FileNotFound, 1, "File not found"),
        (packet::Error::PermissionDenied, 2, "Permission denied"),
        (packet::Error::DiskFull, 3, "Disk is full"),
        (packet::Error::IllegalOperation, 4, "Illegal operation"),
        (packet::Error::UnknownTransferId, 5, "Unknown transfer ID"),
        (packet::Error::FileAlreadyExists, 6, "File already exists"),
        (packet::Error::NoSuchUser, 7, "No such user"),
        (packet::Error::OptionNegotiationFailed, 8, "Option negotiation failed"),
    ];
    for (error, code, msg) in all.iter() {
        assert_eq!(error.code(), *code);
        assert_eq!(error.msg(), *msg);
        assert_eq!(
            error.is_client_error(),
            matches!(error, packet::Error::OptionNegotiationFailed)
        );
    }
    assert!(matches!(packet::Error::from_code(1, None), packet::Error::FileNotFound));
    assert!(matches!(packet::Error::from_code(2, None), packet::Error::PermissionDenied));
    assert!(matches!(packet::Error::from_code(3, None), packet::Error::DiskFull));
    assert!(matches!(packet::Error::from_code(4, None), packet::Error::IllegalOperation));
    assert!(matches!(packet::Error::from_code(5, None), packet::Error::UnknownTransferId));
    assert!(matches!(packet::Error::from_code(6, None), packet::Error::FileAlreadyExists));
    assert!(matches!(packet::Error::from_code(7, Some("x")), packet::Error::NoSuchUser));
    assert!(matches!(
        packet::Error::from_code(8, None),
        packet::Error::OptionNegotiationFailed
    ));
    assert!(matches!(packet::Error::from_code(0, None), packet::Error::UnknownError));
    assert!(matches!(packet::Error::from_code(9, None), packet::Error::UnknownError));
    assert!(matches!(packet::Error::from_code(0, Some("m")), packet::Error::Msg(ref m) if m == "m"));
    assert!(
        matches!(packet::Error::from_code(65535, Some("m")), packet::Error::Msg(ref m) if m == "m")
    );
}

#[test]
fn unknown_error_comes_back_as_its_message() {
    let bytes = Packet::Error(packet::Error::UnknownError).to_vec();
    assert_eq!(bytes, b"\x00\x05\x00\x00Unknown error\x00".to_vec());
    let back = Packet::decode(&bytes);
    assert!(matches!(back, Ok(Packet::Error(packet::Error::Msg(ref m))) if m == "Unknown error"));
}

#[test]
fn every_kind_of_packet_survives_the_round_trip() {
    let req = RwReq {
        filename: "dir/\u{e4}\u{20ac}.bin".to_string(),
        mode: Mode::Mail,
        opts: Opts {
            block_size: Some(8),
            timeout: Some(255),
            transfer_size: Some(u64::MAX),
            window_size: Some(0),
        },
    };
    let bytes = Packet::Rrq(req.clone()).to_vec();
    assert!(matches!(Packet::decode(&bytes), Ok(Packet::Rrq(ref r)) if r == &req));
    let bytes = Packet::Wrq(req.clone()).to_vec();
    assert!(matches!(Packet::decode(&bytes), Ok(Packet::Wrq(ref r)) if r == &req));

    let payload: Vec<u8> = (0..=255u8).collect();
    let bytes = Packet::Data(65535, &payload).to_vec();
    assert!(
        matches!(Packet::decode(&bytes), Ok(Packet::Data(65535, d)) if d == &payload[..])
    );
    let bytes = Packet::Ack(0).to_vec();
    assert!(matches!(Packet::decode(&bytes), Ok(Packet::Ack(0))));

    for code in 1..=8u16 {
        let bytes = Packet::Error(packet::Error::from_code(code, None)).to_vec();
        assert!(matches!(Packet::decode(&bytes), Ok(Packet::Error(ref e)) if e.code() == code));
    }
    let bytes = Packet::Error(packet::Error::Msg("no such thing".to_string())).to_vec();
    assert!(matches!(
        Packet::decode(&bytes),
        Ok(Packet::Error(packet::Error::Msg(ref m))) if m == "no such thing"
    ));

    let opts = Opts { block_size: Some(65464), timeout: Some(1), ..Opts::default() };
    let bytes = Packet::OAck(opts).to_vec();
    assert!(matches!(Packet::decode(&bytes), Ok(Packet::OAck(o)) if o == opts));
}

#[test]
fn decoded_bytes_encode_to_bytes_that_decode_alike() {
    let inputs: [&[u8]; 6] = [
        b"\x00\x01abc\x00NETASCII\x00BLKSIZE\x00+0100\x00junk\x00x\x00timeout\x000\x00",
        b"\x00\x02f\x00Mail\x00tsize\x0000\x00tsize\x009\x00",
        b"\x00\x03\xab\xcd\x00\x00\x00",
        b"\x00\x04\xff\xff",
        b"\x00\x05\x00\x63whatever\x00",
        b"\x00\x06windowsize\x007\x00blksize\x0065465\x00",
    ];
    for input in inputs.iter() {
        let first = Packet::decode(input).unwrap();
        let again = first.to_vec();
        let second = Packet::decode(&again).unwrap();
        assert_eq!(second.to_vec(), again);
        match (&first, &second) {
            (Packet::Rrq(a), Packet::Rrq(b)) => assert_eq!(a, b),
            (Packet::Wrq(a), Packet::Wrq(b)) => assert_eq!(a, b),
            (Packet::Data(a, x), Packet::Data(b, y)) => assert_eq!((a, x), (b, y)),
            (Packet::Ack(a), Packet::Ack(b)) => assert_eq!(a, b),
            (Packet::Error(a), Packet::Error(b)) => {
                assert_eq!((a.code(), a.msg()), (b.code(), b.msg()))
            }
            (Packet::OAck(a), Packet::OAck(b)) => assert_eq!(a, b),
            _ => panic!("the kind of packet changed"),
        }
    }
    let first = Packet::decode(inputs[0]).unwrap();
    assert_eq!(
        first.to_vec(),
        b"\x00\x01abc\x00netascii\x00blksize\x00100\x00".to_vec()
    );
}
