//! Decoding of datagrams.
//!
//! Each `spec_*` function says what a run of bytes means; the executable
//! parser beside it is proved to compute exactly that.

use vstd::prelude::*;
use vstd::slice::slice_subrange;
use vstd::utf8::{decode_utf8, encode_utf8, valid_utf8};
use crate::digits::{decimal_value, parse_decimal};
use crate::error::{Error, ErrorView};
use crate::packet::{
    Error as PacketError, Mode, Opts, Packet, PacketType, PacketView, ProtocolErrorView, RwReq,
    RwReqView, MAX_BLOCK_SIZE, MIN_BLOCK_SIZE,
};

verus! {

/// Position of the first zero byte of `s`, or `s.len()` where it has none.
pub open spec fn nul_index(s: Seq<u8>) -> int
    decreases s.len(),
{
    if s.len() == 0 || s[0] == 0 {
        0
    } else {
        1 + nul_index(s.drop_first())
    }
}

/// A zero-terminated string at the front of `s`: its text and the bytes
/// behind the terminator. There is none where `s` holds no zero byte or the
/// bytes before the first one are not UTF-8.
pub open spec fn spec_nul_str(s: Seq<u8>) -> Option<(Seq<char>, Seq<u8>)> {
    let i = nul_index(s);
    if 0 <= i < s.len() && valid_utf8(s.subrange(0, i)) {
        Some((decode_utf8(s.subrange(0, i)), s.subrange(i + 1, s.len() as int)))
    } else {
        None
    }
}

/// A big-endian 16-bit number at the front of `s`, and the bytes behind it.
pub open spec fn spec_u16_be(s: Seq<u8>) -> Option<(u16, Seq<u8>)> {
    if s.len() >= 2 {
        Some(((s[0] as u16 * 256 + s[1] as u16) as u16, s.subrange(2, s.len() as int)))
    } else {
        None
    }
}

/// An opcode at the front of `s`, and the bytes behind it.
pub open spec fn spec_packet_type(s: Seq<u8>) -> Option<(PacketType, Seq<u8>)> {
    match spec_u16_be(s) {
        Some((n, rest)) => match PacketType::spec_from_u16(n) {
            Some(t) => Some((t, rest)),
            None => None,
        },
        None => None,
    }
}

/// The lower-case form of an ASCII letter; any other byte is unchanged.
pub open spec fn to_lower(b: u8) -> u8 {
    if 65 <= b <= 90 {
        (b + 32) as u8
    } else {
        b
    }
}

/// Whether two byte strings are equal but for the case of ASCII letters.
pub open spec fn eq_ignore_case(a: Seq<u8>, b: Seq<u8>) -> bool {
    a.len() == b.len() && forall|i: int| 0 <= i < a.len() ==> to_lower(#[trigger] a[i]) == to_lower(b[i])
}

/// Whether `name` is the word `word`, whatever the case of its letters.
pub open spec fn is_word(name: Seq<char>, word: Seq<char>) -> bool {
    eq_ignore_case(encode_utf8(name), encode_utf8(word))
}

/// The transfer mode that a name stands for.
pub open spec fn mode_of_name(name: Seq<char>) -> Option<Mode> {
    if is_word(name, "netascii"@) {
        Some(Mode::Netascii)
    } else if is_word(name, "octet"@) {
        Some(Mode::Octet)
    } else if is_word(name, "mail"@) {
        Some(Mode::Mail)
    } else {
        None
    }
}

/// A zero-terminated mode name at the front of `s`, and the bytes behind.
pub open spec fn spec_mode(s: Seq<u8>) -> Option<(Mode, Seq<u8>)> {
    match spec_nul_str(s) {
        Some((name, rest)) => match mode_of_name(name) {
            Some(m) => Some((m, rest)),
            None => None,
        },
        None => None,
    }
}

/// The number that an option's value denotes, where it is a decimal text
/// of a number between `low` and `high`.
pub open spec fn value_in(value: Seq<char>, low: nat, high: nat) -> Option<nat> {
    match decimal_value(encode_utf8(value)) {
        Some(v) => if low <= v <= high {
            Some(v)
        } else {
            None
        },
        None => None,
    }
}

/// What one name and value contribute: the one option they set, or nothing
/// where the name is unknown or the value is out of range.
pub open spec fn option_of_pair(name: Seq<char>, value: Seq<char>) -> Opts {
    if is_word(name, "blksize"@) {
        Opts {
            block_size: match value_in(value, MIN_BLOCK_SIZE as nat, MAX_BLOCK_SIZE as nat) {
                Some(v) => Some(v as u16),
                None => None,
            },
            ..Opts::empty()
        }
    } else if is_word(name, "timeout"@) {
        Opts {
            timeout: match value_in(value, 1, u8::MAX as nat) {
                Some(v) => Some(v as u8),
                None => None,
            },
            ..Opts::empty()
        }
    } else if is_word(name, "tsize"@) {
        Opts {
            transfer_size: match value_in(value, 0, u64::MAX as nat) {
                Some(v) => Some(v as u64),
                None => None,
            },
            ..Opts::empty()
        }
    } else if is_word(name, "windowsize"@) {
        Opts {
            window_size: match value_in(value, 0, u16::MAX as nat) {
                Some(v) => Some(v as u16),
                None => None,
            },
            ..Opts::empty()
        }
    } else {
        Opts::empty()
    }
}

/// The first of two optional values that is set.
pub open spec fn first_set<T>(a: Option<T>, b: Option<T>) -> Option<T> {
    match a {
        Some(_) => a,
        None => b,
    }
}

/// The options of `earlier`, and of `later` where `earlier` leaves one
/// unset: of two occurrences of an option the first one counts.
pub open spec fn merge(earlier: Opts, later: Opts) -> Opts {
    Opts {
        block_size: first_set(earlier.block_size, later.block_size),
        timeout: first_set(earlier.timeout, later.timeout),
        transfer_size: first_set(earlier.transfer_size, later.transfer_size),
        window_size: first_set(earlier.window_size, later.window_size),
    }
}

/// `earlier` put before the options that the rest of the input gave, if
/// the rest could be read at all.
pub open spec fn merge_into(earlier: Opts, rest: Option<Opts>) -> Option<Opts> {
    match rest {
        Some(later) => Some(merge(earlier, later)),
        None => None,
    }
}

/// The options that `s` holds: zero or more pairs of zero-terminated name
/// and value up to the end of `s`. `None` where a terminator is missing or
/// a name or value is not UTF-8.
pub open spec fn spec_opts(s: Seq<u8>) -> Option<Opts>
    decreases s.len(),
{
    if s.len() == 0 {
        Some(Opts::empty())
    } else {
        match spec_nul_str(s) {
            None => None,
            Some((name, after_name)) => match spec_nul_str(after_name) {
                None => None,
                Some((value, rest)) => if rest.len() < s.len() {
                    merge_into(option_of_pair(name, value), spec_opts(rest))
                } else {
                    None
                },
            },
        }
    }
}

/// A read or write request behind its opcode.
pub open spec fn spec_req(s: Seq<u8>) -> Option<RwReqView> {
    match spec_nul_str(s) {
        None => None,
        Some((filename, after_name)) => match spec_mode(after_name) {
            None => None,
            Some((mode, rest)) => match spec_opts(rest) {
                None => None,
                Some(opts) => Some(RwReqView { filename, mode, opts }),
            },
        },
    }
}

/// An ERROR packet behind its opcode: the code, the zero-terminated message
/// and nothing more.
pub open spec fn spec_error(s: Seq<u8>) -> Option<ProtocolErrorView> {
    match spec_u16_be(s) {
        None => None,
        Some((code, after_code)) => match spec_nul_str(after_code) {
            None => None,
            Some((msg, rest)) => if rest.len() == 0 {
                Some(ProtocolErrorView::from_code(code, Some(msg)))
            } else {
                None
            },
        },
    }
}

/// The packet that a datagram holds, if it is one: the whole input must be
/// used up.
pub open spec fn spec_packet(s: Seq<u8>) -> Option<PacketView> {
    match spec_packet_type(s) {
        None => None,
        Some((t, body)) => match t {
            PacketType::Rrq => match spec_req(body) {
                Some(req) => Some(PacketView::Rrq(req)),
                None => None,
            },
            PacketType::Wrq => match spec_req(body) {
                Some(req) => Some(PacketView::Wrq(req)),
                None => None,
            },
            PacketType::Data => match spec_u16_be(body) {
                Some((block, data)) => Some(PacketView::Data(block, data)),
                None => None,
            },
            PacketType::Ack => match spec_u16_be(body) {
                Some((block, rest)) => if rest.len() == 0 {
                    Some(PacketView::Ack(block))
                } else {
                    None
                },
                None => None,
            },
            PacketType::Error => match spec_error(body) {
                Some(e) => Some(PacketView::Error(e)),
                None => None,
            },
            PacketType::OAck => match spec_opts(body) {
                Some(opts) => Some(PacketView::OAck(opts)),
                None => None,
            },
        },
    }
}

/// The first zero byte is where a scan from the front finds it.
pub proof fn lemma_nul_index(s: Seq<u8>, i: int)
    requires
        0 <= i <= s.len(),
        forall|j: int| 0 <= j < i ==> s[j] != 0,
        i == s.len() || s[i] == 0,
    ensures
        nul_index(s) == i,
    decreases s.len(),
{
    if i > 0 {
        let t = s.drop_first();
        assert(s[0] != 0);
        assert forall|j: int| 0 <= j < i - 1 implies t[j] != 0 by {
            assert(t[j] == s[j + 1]);
        }
        lemma_nul_index(t, i - 1);
    }
}

/// `core::str::from_utf8`: the text that the bytes encode, exactly where
/// they are valid UTF-8.
#[verifier::external_body]
fn str_from_utf8<'a>(bytes: &'a [u8]) -> (r: Option<&'a str>)
    ensures
        r.is_some() == valid_utf8(bytes@),
        r matches Some(s) ==> s@ == decode_utf8(bytes@),
{
    core::str::from_utf8(bytes).ok()
}

/// Compares two byte strings without regard to the case of ASCII letters.
pub fn eq_ignore_ascii_case(a: &[u8], b: &[u8]) -> (r: bool)
    ensures
        r == eq_ignore_case(a@, b@),
{
    if a.len() != b.len() {
        return false;
    }
    let n: usize = a.len();
    let mut i: usize = 0;
    while i < n
        invariant
            i <= n,
            n == a@.len(),
            n == b@.len(),
            forall|j: int| 0 <= j < i ==> to_lower(#[trigger] a@[j]) == to_lower(b@[j]),
        decreases n - i,
    {
        let x: u8 = a[i];
        let y: u8 = b[i];
        let lx: u8 = if 65 <= x && x <= 90 {
            x + 32
        } else {
            x
        };
        let ly: u8 = if 65 <= y && y <= 90 {
            y + 32
        } else {
            y
        };
        if lx != ly {
            assert(to_lower(a@[i as int]) != to_lower(b@[i as int]));
            return false;
        }
        i += 1;
    }
    true
}

/// Splits a zero-terminated UTF-8 string off the front of `input`.
pub fn parse_nul_str(input: &[u8]) -> (r: Option<(&str, &[u8])>)
    ensures
        match spec_nul_str(input@) {
            Some((text, rest)) => r matches Some((s, tail)) && s@ == text && tail@ == rest,
            None => r is None,
        },
        r matches Some((s, tail)) ==> tail@.len() < input@.len() && encode_utf8(s@)
            == input@.subrange(0, nul_index(input@)),
{
    let n: usize = input.len();
    let mut pos: usize = 0;
    while pos < n && input[pos] != 0
        invariant
            pos <= n,
            n == input@.len(),
            forall|j: int| 0 <= j < pos ==> input@[j] != 0,
        decreases n - pos,
    {
        pos += 1;
    }
    proof {
        lemma_nul_index(input@, pos as int);
    }
    if pos == n {
        return None;
    }
    let head = slice_subrange(input, 0, pos);
    match str_from_utf8(head) {
        Some(s) => {
            let tail = slice_subrange(input, pos + 1, n);
            proof {
                vstd::utf8::decode_utf8_encode_utf8(head@);
            }
            Some((s, tail))
        },
        None => None,
    }
}

/// Splits a big-endian 16-bit number off the front of `input`.
pub fn parse_u16_be(input: &[u8]) -> (r: Option<(u16, &[u8])>)
    ensures
        match spec_u16_be(input@) {
            Some((n, rest)) => r matches Some((m, tail)) && m == n && tail@ == rest,
            None => r is None,
        },
{
    if input.len() < 2 {
        return None;
    }
    let hi: u16 = input[0] as u16;
    let lo: u16 = input[1] as u16;
    let num: u16 = hi * 256 + lo;
    Some((num, slice_subrange(input, 2, input.len())))
}

/// Splits an opcode off the front of `input`.
pub fn parse_packet_type(input: &[u8]) -> (r: Option<(PacketType, &[u8])>)
    ensures
        match spec_packet_type(input@) {
            Some((t, rest)) => r matches Some((u, tail)) && u == t && tail@ == rest,
            None => r is None,
        },
{
    match parse_u16_be(input) {
        Some((num, rest)) => match PacketType::from_u16(num) {
            Some(val) => Some((val, rest)),
            None => None,
        },
        None => None,
    }
}

/// Splits a zero-terminated transfer mode off the front of `input`.
pub fn parse_mode(input: &[u8]) -> (r: Option<(Mode, &[u8])>)
    ensures
        match spec_mode(input@) {
            Some((m, rest)) => r matches Some((n, tail)) && n == m && tail@ == rest,
            None => r is None,
        },
{
    match parse_nul_str(input) {
        Some((s, rest)) => {
            let name = s.as_bytes();
            if eq_ignore_ascii_case(name, "netascii".as_bytes()) {
                Some((Mode::Netascii, rest))
            } else if eq_ignore_ascii_case(name, "octet".as_bytes()) {
                Some((Mode::Octet, rest))
            } else if eq_ignore_ascii_case(name, "mail".as_bytes()) {
                Some((Mode::Mail, rest))
            } else {
                None
            }
        },
        None => None,
    }
}

/// Reads an option's value as a number between `low` and `high`.
fn parse_value(value: &str, low: u64, high: u64) -> (r: Option<u64>)
    ensures
        match value_in(value@, low as nat, high as nat) {
            Some(v) => r == Some(v as u64),
            None => r is None,
        },
{
    match parse_decimal(value.as_bytes()) {
        Some(v) => if low <= v && v <= high {
            Some(v)
        } else {
            None
        },
        None => None,
    }
}

/// What one name and value contribute to the options.
fn parse_pair(name: &str, value: &str) -> (o: Opts)
    ensures
        o == option_of_pair(name@, value@),
{
    let mut opts = Opts::default();
    let key = name.as_bytes();
    if eq_ignore_ascii_case(key, "blksize".as_bytes()) {
        if let Some(v) = parse_value(value, MIN_BLOCK_SIZE as u64, MAX_BLOCK_SIZE as u64) {
            opts.block_size = Some(v as u16);
        }
    } else if eq_ignore_ascii_case(key, "timeout".as_bytes()) {
        if let Some(v) = parse_value(value, 1, u8::MAX as u64) {
            opts.timeout = Some(v as u8);
        }
    } else if eq_ignore_ascii_case(key, "tsize".as_bytes()) {
        if let Some(v) = parse_value(value, 0, u64::MAX) {
            opts.transfer_size = Some(v);
        }
    } else if eq_ignore_ascii_case(key, "windowsize".as_bytes()) {
        if let Some(v) = parse_value(value, 0, u16::MAX as u64) {
            opts.window_size = Some(v as u16);
        }
    }
    opts
}

/// Reads option pairs up to the end of `input`. Unknown names and values
/// out of range are passed over; of a repeated option the first valid
/// occurrence counts.
pub fn parse_opts(input: &[u8]) -> (r: Option<Opts>)
    ensures
        r == spec_opts(input@),
        r matches Some(o) ==> o.wf(),
{
    let mut opts = Opts::default();
    let mut rest: &[u8] = input;
    while rest.len() > 0
        invariant
            spec_opts(input@) == merge_into(opts, spec_opts(rest@)),
            opts.wf(),
        decreases rest@.len(),
    {
        let (name, after_name) = match parse_nul_str(rest) {
            Some(p) => p,
            None => {
                return None;
            },
        };
        let (value, after_value) = match parse_nul_str(after_name) {
            Some(p) => p,
            None => {
                return None;
            },
        };
        let pair = parse_pair(name, value);
        let ghost before = opts;
        if opts.block_size.is_none() {
            opts.block_size = pair.block_size;
        }
        if opts.timeout.is_none() {
            opts.timeout = pair.timeout;
        }
        if opts.transfer_size.is_none() {
            opts.transfer_size = pair.transfer_size;
        }
        if opts.window_size.is_none() {
            opts.window_size = pair.window_size;
        }
        proof {
            assert(opts == merge(before, pair));
            let later = spec_opts(after_value@);
            assert(spec_opts(rest@) == merge_into(pair, later));
            if let Some(l) = later {
                assert(merge(before, merge(pair, l)) == merge(merge(before, pair), l));
            }
        }
        rest = after_value;
    }
    proof {
        assert(merge(opts, Opts::empty()) == opts);
    }
    Some(opts)
}

/// Reads a request behind its opcode.
fn parse_req(input: &[u8]) -> (r: Option<RwReq>)
    ensures
        match spec_req(input@) {
            Some(v) => r matches Some(req) && req@ == v,
            None => r is None,
        },
        r matches Some(req) ==> req.opts.wf(),
{
    let (filename, after_name) = match parse_nul_str(input) {
        Some(p) => p,
        None => {
            return None;
        },
    };
    let (mode, rest) = match parse_mode(after_name) {
        Some(p) => p,
        None => {
            return None;
        },
    };
    match parse_opts(rest) {
        Some(opts) => Some(RwReq { filename: filename.to_owned(), mode, opts }),
        None => None,
    }
}

/// Reads a read request behind its opcode.
pub fn parse_rrq(input: &[u8]) -> (r: Option<Packet<'_>>)
    ensures
        match spec_req(input@) {
            Some(v) => r matches Some(p) && p@ == PacketView::Rrq(v),
            None => r is None,
        },
{
    match parse_req(input) {
        Some(req) => Some(Packet::Rrq(req)),
        None => None,
    }
}

/// Reads a write request behind its opcode.
pub fn parse_wrq(input: &[u8]) -> (r: Option<Packet<'_>>)
    ensures
        match spec_req(input@) {
            Some(v) => r matches Some(p) && p@ == PacketView::Wrq(v),
            None => r is None,
        },
{
    match parse_req(input) {
        Some(req) => Some(Packet::Wrq(req)),
        None => None,
    }
}

/// Reads a DATA packet behind its opcode: the block id, then the payload,
/// which is all that is left.
pub fn parse_data(input: &[u8]) -> (r: Option<Packet<'_>>)
    ensures
        match spec_u16_be(input@) {
            Some((block, data)) => r matches Some(p) && p@ == PacketView::Data(block, data),
            None => r is None,
        },
{
    match parse_u16_be(input) {
        Some((block_nr, rest)) => Some(Packet::Data(block_nr, rest)),
        None => None,
    }
}

/// Reads an ACK packet behind its opcode: the block id and nothing more.
pub fn parse_ack(input: &[u8]) -> (r: Option<Packet<'_>>)
    ensures
        match spec_u16_be(input@) {
            Some((block, rest)) => if rest.len() == 0 {
                r matches Some(p) && p@ == PacketView::Ack(block)
            } else {
                r is None
            },
            None => r is None,
        },
{
    match parse_u16_be(input) {
        Some((block_nr, rest)) => {
            if rest.len() != 0 {
                return None;
            }
            Some(Packet::Ack(block_nr))
        },
        None => None,
    }
}

/// Reads an ERROR packet behind its opcode.
pub fn parse_error(input: &[u8]) -> (r: Option<Packet<'_>>)
    ensures
        match spec_error(input@) {
            Some(e) => r matches Some(p) && p@ == PacketView::Error(e),
            None => r is None,
        },
{
    let (code, after_code) = match parse_u16_be(input) {
        Some(p) => p,
        None => {
            return None;
        },
    };
    let (msg, rest) = match parse_nul_str(after_code) {
        Some(p) => p,
        None => {
            return None;
        },
    };
    if rest.len() != 0 {
        return None;
    }
    Some(Packet::Error(PacketError::from_code(code, Some(msg))))
}

/// Reads an OACK packet behind its opcode.
pub fn parse_oack(input: &[u8]) -> (r: Option<Packet<'_>>)
    ensures
        match spec_opts(input@) {
            Some(opts) => r matches Some(p) && p@ == PacketView::OAck(opts),
            None => r is None,
        },
{
    match parse_opts(input) {
        Some(opts) => Some(Packet::OAck(opts)),
        None => None,
    }
}

/// Decodes a datagram. It is a packet exactly where [`spec_packet`] says
/// so, and then a valid one; any other input is `InvalidPacket`.
pub fn parse_packet(input: &[u8]) -> (r: Result<Packet<'_>, Error>)
    ensures
        match spec_packet(input@) {
            Some(v) => r matches Ok(p) && p@ == v && v.wf(),
            None => r matches Err(e) && e@ == ErrorView::InvalidPacket,
        },
{
    proof {
        if spec_packet(input@) is Some {
            crate::laws::lemma_decoded_wf(input@);
        }
    }
    let parsed = match parse_packet_type(input) {
        Some((packet_type, data)) => match packet_type {
            PacketType::Rrq => parse_rrq(data),
            PacketType::Wrq => parse_wrq(data),
            PacketType::Data => parse_data(data),
            PacketType::Ack => parse_ack(data),
            PacketType::Error => parse_error(data),
            PacketType::OAck => parse_oack(data),
        },
        None => None,
    };
    match parsed {
        Some(p) => Ok(p),
        None => Err(Error::InvalidPacket),
    }
}

} // verus!
