//! What holds of the codec as a whole: the bytes of the fixed words, the
//! size of encoded options, and that decoding undoes encoding.

use vstd::prelude::*;
use vstd::utf8::{
    char_is_scalar, char_u32_cast, decode_utf8_encode_utf8, encode_scalar, encode_utf8,
    encode_utf8_decode_utf8, encode_utf8_valid_utf8, is_ascii_chars, is_ascii_chars_encode_utf8,
    is_scalar,
};
use crate::buffer::be16;
use crate::digits::{
    decimal_chars, decimal_text, decimal_value, is_digit, lemma_decimal_text_len_u64,
    lemma_decimal_text_value,
};
use crate::packet::{
    no_nul, no_nul_bytes, option_pair, optional_pair, Mode, Opts, PacketView, ProtocolErrorView,
    RwReqView, MAX_BLOCK_SIZE, MIN_BLOCK_SIZE,
};
use crate::parse::{
    is_word, lemma_nul_index, merge, merge_into, mode_of_name, nul_index, option_of_pair,
    spec_error, spec_mode, spec_nul_str, spec_opts, spec_packet, spec_packet_type, spec_req,
    spec_u16_be, to_lower, value_in,
};

verus! {

/// The bytes of the option names and of the mode names.
pub proof fn lemma_words()
    ensures
        encode_utf8("blksize"@) == seq![98u8, 108, 107, 115, 105, 122, 101],
        encode_utf8("timeout"@) == seq![116u8, 105, 109, 101, 111, 117, 116],
        encode_utf8("tsize"@) == seq![116u8, 115, 105, 122, 101],
        encode_utf8("windowsize"@) == seq![119u8, 105, 110, 100, 111, 119, 115, 105, 122, 101],
        encode_utf8("netascii"@) == seq![110u8, 101, 116, 97, 115, 99, 105, 105],
        encode_utf8("octet"@) == seq![111u8, 99, 116, 101, 116],
        encode_utf8("mail"@) == seq![109u8, 97, 105, 108],
{
    reveal_strlit("blksize");
    reveal_strlit("timeout");
    reveal_strlit("tsize");
    reveal_strlit("windowsize");
    reveal_strlit("netascii");
    reveal_strlit("octet");
    reveal_strlit("mail");
    assert(is_ascii_chars("blksize"@));
    assert(is_ascii_chars("timeout"@));
    assert(is_ascii_chars("tsize"@));
    assert(is_ascii_chars("windowsize"@));
    assert(is_ascii_chars("netascii"@));
    assert(is_ascii_chars("octet"@));
    assert(is_ascii_chars("mail"@));
    is_ascii_chars_encode_utf8("blksize"@);
    is_ascii_chars_encode_utf8("timeout"@);
    is_ascii_chars_encode_utf8("tsize"@);
    is_ascii_chars_encode_utf8("windowsize"@);
    is_ascii_chars_encode_utf8("netascii"@);
    is_ascii_chars_encode_utf8("octet"@);
    is_ascii_chars_encode_utf8("mail"@);
    assert(encode_utf8("blksize"@) =~= seq![98u8, 108, 107, 115, 105, 122, 101]);
    assert(encode_utf8("timeout"@) =~= seq![116u8, 105, 109, 101, 111, 117, 116]);
    assert(encode_utf8("tsize"@) =~= seq![116u8, 115, 105, 122, 101]);
    assert(encode_utf8("windowsize"@) =~= seq![119u8, 105, 110, 100, 111, 119, 115, 105, 122, 101]);
    assert(encode_utf8("netascii"@) =~= seq![110u8, 101, 116, 97, 115, 99, 105, 105]);
    assert(encode_utf8("octet"@) =~= seq![111u8, 99, 116, 101, 116]);
    assert(encode_utf8("mail"@) =~= seq![109u8, 97, 105, 108]);
}

/// The options of an OACK or a request take at most 128 bytes.
pub proof fn lemma_opts_encode_len(opts: Opts)
    ensures
        opts.spec_encode().len() <= 128,
{
    lemma_words();
    if let Some(v) = opts.block_size {
        lemma_decimal_text_len_u64(v as u64);
    }
    if let Some(v) = opts.timeout {
        lemma_decimal_text_len_u64(v as u64);
    }
    if let Some(v) = opts.transfer_size {
        lemma_decimal_text_len_u64(v);
    }
    if let Some(v) = opts.window_size {
        lemma_decimal_text_len_u64(v as u64);
    }
}

/// The bytes of one encoded character: none of them is zero, unless the
/// character is the one with code zero, which is the single byte zero.
pub proof fn lemma_scalar_bytes(c: u32)
    requires
        is_scalar(c),
    ensures
        encode_scalar(c).len() >= 1,
        c == 0 ==> encode_scalar(c)[0] == 0,
        c != 0 ==> forall|k: int| 0 <= k < encode_scalar(c).len() ==> encode_scalar(c)[k] != 0,
{
    assert(0 < c <= 0x7F ==> (c & 0x7F) as u8 != 0) by (bit_vector);
    assert((0u32 & 0x7F) as u8 == 0) by (bit_vector);
    assert(0xC0u8 | ((c >> 6) & 0x1F) as u8 != 0) by (bit_vector);
    assert(0xE0u8 | ((c >> 12) & 0x0F) as u8 != 0) by (bit_vector);
    assert(0xF0u8 | ((c >> 18) & 0x7) as u8 != 0) by (bit_vector);
    assert(0x80u8 | (c & 0x3F) as u8 != 0) by (bit_vector);
    assert(0x80u8 | ((c >> 6) & 0x3F) as u8 != 0) by (bit_vector);
    assert(0x80u8 | ((c >> 12) & 0x3F) as u8 != 0) by (bit_vector);
}

/// A text is free of the zero character exactly if its UTF-8 form is free
/// of the zero byte.
pub proof fn lemma_no_nul(text: Seq<char>)
    ensures
        no_nul(text) == no_nul_bytes(text),
    decreases text.len(),
{
    if text.len() > 0 {
        let c = text[0] as u32;
        let head = encode_scalar(c);
        let rest = text.drop_first();
        let tail = encode_utf8(rest);
        let e = encode_utf8(text);
        assert(e == head + tail);
        lemma_no_nul(rest);
        char_is_scalar(text[0]);
        lemma_scalar_bytes(c);
        assert((text[0] == '\0') == (c == 0)) by {
            assert('\0' as u32 == 0);
            if c == 0 {
                char_u32_cast(text[0], 0);
                char_u32_cast('\0', 0);
            }
        }
        if no_nul_bytes(text) {
            assert(e[0] == head[0]);
            assert forall|k: int| 0 <= k < tail.len() implies #[trigger] tail[k] != 0 by {
                assert(e[head.len() + k] == tail[k]);
            }
            assert forall|i: int| 0 <= i < text.len() implies text[i] != '\0' by {
                if i > 0 {
                    assert(rest[i - 1] == text[i]);
                }
            }
        }
        if no_nul(text) {
            assert forall|i: int| 0 <= i < rest.len() implies rest[i] != '\0' by {
                assert(rest[i] == text[i + 1]);
            }
            assert forall|k: int| 0 <= k < e.len() implies #[trigger] e[k] != 0 by {
                if k < head.len() {
                    assert(e[k] == head[k]);
                } else {
                    assert(e[k] == tail[k - head.len()]);
                }
            }
        }
    }
}

/// None of the fixed error messages holds a zero byte.
pub proof fn lemma_fixed_messages()
    ensures
        no_nul_bytes("File not found"@),
        no_nul_bytes("Permission denied"@),
        no_nul_bytes("Disk is full"@),
        no_nul_bytes("Illegal operation"@),
        no_nul_bytes("Unknown transfer ID"@),
        no_nul_bytes("File already exists"@),
        no_nul_bytes("No such user"@),
        no_nul_bytes("Option negotiation failed"@),
{
    reveal_strlit("File not found");
    assert(is_ascii_chars("File not found"@));
    is_ascii_chars_encode_utf8("File not found"@);
    assert(encode_utf8("File not found"@) =~= seq![70u8, 105, 108, 101, 32, 110, 111, 116, 32, 102, 111, 117, 110, 100]);
    reveal_strlit("Permission denied");
    assert(is_ascii_chars("Permission denied"@));
    is_ascii_chars_encode_utf8("Permission denied"@);
    assert(encode_utf8("Permission denied"@) =~= seq![80u8, 101, 114, 109, 105, 115, 115, 105, 111, 110, 32, 100, 101, 110, 105, 101, 100]);
    reveal_strlit("Disk is full");
    assert(is_ascii_chars("Disk is full"@));
    is_ascii_chars_encode_utf8("Disk is full"@);
    assert(encode_utf8("Disk is full"@) =~= seq![68u8, 105, 115, 107, 32, 105, 115, 32, 102, 117, 108, 108]);
    reveal_strlit("Illegal operation");
    assert(is_ascii_chars("Illegal operation"@));
    is_ascii_chars_encode_utf8("Illegal operation"@);
    assert(encode_utf8("Illegal operation"@) =~= seq![73u8, 108, 108, 101, 103, 97, 108, 32, 111, 112, 101, 114, 97, 116, 105, 111, 110]);
    reveal_strlit("Unknown transfer ID");
    assert(is_ascii_chars("Unknown transfer ID"@));
    is_ascii_chars_encode_utf8("Unknown transfer ID"@);
    assert(encode_utf8("Unknown transfer ID"@) =~= seq![85u8, 110, 107, 110, 111, 119, 110, 32, 116, 114, 97, 110, 115, 102, 101, 114, 32, 73, 68]);
    reveal_strlit("File already exists");
    assert(is_ascii_chars("File already exists"@));
    is_ascii_chars_encode_utf8("File already exists"@);
    assert(encode_utf8("File already exists"@) =~= seq![70u8, 105, 108, 101, 32, 97, 108, 114, 101, 97, 100, 121, 32, 101, 120, 105, 115, 116, 115]);
    reveal_strlit("No such user");
    assert(is_ascii_chars("No such user"@));
    is_ascii_chars_encode_utf8("No such user"@);
    assert(encode_utf8("No such user"@) =~= seq![78u8, 111, 32, 115, 117, 99, 104, 32, 117, 115, 101, 114]);
    reveal_strlit("Option negotiation failed");
    assert(is_ascii_chars("Option negotiation failed"@));
    is_ascii_chars_encode_utf8("Option negotiation failed"@);
    assert(encode_utf8("Option negotiation failed"@) =~= seq![79u8, 112, 116, 105, 111, 110, 32, 110, 101, 103, 111, 116, 105, 97, 116, 105, 111, 110, 32, 102, 97, 105, 108, 101, 100]);
}

/// The text of a number, read as characters, is that text again as bytes,
/// and holds no zero byte.
pub proof fn lemma_decimal_chars(n: nat)
    ensures
        encode_utf8(decimal_chars(n)) == decimal_text(n),
        no_nul_bytes(decimal_chars(n)),
{
    lemma_decimal_text_value(n);
    let t = decimal_text(n);
    let c = decimal_chars(n);
    assert forall|i: int| 0 <= i < c.len() implies '\0' <= #[trigger] c[i] <= '\u{7f}' by {
        assert(is_digit(t[i]));
    }
    assert(is_ascii_chars(c));
    is_ascii_chars_encode_utf8(c);
    assert forall|i: int| 0 <= i < t.len() implies encode_utf8(c)[i] == t[i] by {
        assert(is_digit(t[i]));
        assert(c[i] as u8 == encode_utf8(c)[i]);
    }
    assert(encode_utf8(c) =~= t);
    assert forall|i: int| 0 <= i < encode_utf8(c).len() implies #[trigger] encode_utf8(c)[i] != 0 by {
        assert(is_digit(t[i]));
    }
}

/// A text without zero byte, written with its terminator, is read back as
/// that text, and what follows the terminator is left over.
pub proof fn lemma_nul_str_roundtrip(text: Seq<char>, rest: Seq<u8>)
    requires
        no_nul_bytes(text),
    ensures
        spec_nul_str(encode_utf8(text) + seq![0u8] + rest) == Some((text, rest)),
{
    let e = encode_utf8(text);
    let s = e + seq![0u8] + rest;
    assert forall|j: int| 0 <= j < e.len() implies s[j] != 0 by {
        assert(s[j] == e[j]);
    }
    assert(s[e.len() as int] == 0);
    lemma_nul_index(s, e.len() as int);
    assert(s.subrange(0, e.len() as int) =~= e);
    assert(s.subrange(e.len() as int + 1, s.len() as int) =~= rest);
    encode_utf8_valid_utf8(text);
    encode_utf8_decode_utf8(text);
}

/// A 16-bit number written big-endian is read back as that number.
pub proof fn lemma_u16_roundtrip(n: u16, rest: Seq<u8>)
    ensures
        spec_u16_be(be16(n) + rest) == Some((n, rest)),
{
    let s = be16(n) + rest;
    assert(s[0] == (n / 256) as u8);
    assert(s[1] == (n % 256) as u8);
    assert(s.subrange(2, s.len() as int) =~= rest);
}

/// Every word is itself, whatever the case.
pub proof fn lemma_is_word_refl(word: Seq<char>)
    ensures
        is_word(word, word),
{
}

/// A mode's name is read back as that mode.
pub proof fn lemma_mode_roundtrip(mode: Mode, rest: Seq<u8>)
    ensures
        spec_mode(encode_utf8(mode.spec_name()) + seq![0u8] + rest) == Some((mode, rest)),
{
    lemma_words();
    let name = mode.spec_name();
    let e = encode_utf8(name);
    assert(no_nul_bytes(name)) by {
        assert forall|i: int| 0 <= i < e.len() implies #[trigger] e[i] != 0 by {}
    }
    lemma_nul_str_roundtrip(name, rest);
    lemma_is_word_refl(name);
    assert(mode_of_name(name) == Some(mode));
}

/// One option in front of others: what it contributes comes before what
/// the others give.
pub proof fn lemma_opts_pair(name: Seq<char>, value: Seq<char>, rest: Seq<u8>)
    requires
        no_nul_bytes(name),
        no_nul_bytes(value),
    ensures
        spec_opts(encode_utf8(name) + seq![0u8] + encode_utf8(value) + seq![0u8] + rest)
            == merge_into(option_of_pair(name, value), spec_opts(rest)),
{
    let s = encode_utf8(name) + seq![0u8] + encode_utf8(value) + seq![0u8] + rest;
    let after = encode_utf8(value) + seq![0u8] + rest;
    assert(s =~= encode_utf8(name) + seq![0u8] + after);
    lemma_nul_str_roundtrip(name, after);
    lemma_nul_str_roundtrip(value, rest);
    assert(s.len() > 0);
    assert(rest.len() < s.len());
}

/// An option written with a number as its value: the value is read back
/// as that number.
pub proof fn lemma_opts_number_pair(name: Seq<char>, v: nat, rest: Seq<u8>)
    requires
        no_nul_bytes(name),
    ensures
        spec_opts(option_pair(name, v) + rest) == merge_into(
            option_of_pair(name, decimal_chars(v)),
            spec_opts(rest),
        ),
        decimal_value(encode_utf8(decimal_chars(v))) == Some(v),
{
    lemma_decimal_chars(v);
    lemma_decimal_text_value(v);
    lemma_opts_pair(name, decimal_chars(v), rest);
    assert(option_pair(name, v) + rest =~= encode_utf8(name) + seq![0u8] + encode_utf8(
        decimal_chars(v),
    ) + seq![0u8] + rest);
}

/// The four option names hold no zero byte, and none is another one in a
/// different case.
pub proof fn lemma_option_names()
    ensures
        no_nul_bytes("blksize"@),
        no_nul_bytes("timeout"@),
        no_nul_bytes("tsize"@),
        no_nul_bytes("windowsize"@),
        is_word("blksize"@, "blksize"@),
        is_word("timeout"@, "timeout"@),
        is_word("tsize"@, "tsize"@),
        is_word("windowsize"@, "windowsize"@),
        !is_word("timeout"@, "blksize"@),
        !is_word("tsize"@, "blksize"@),
        !is_word("tsize"@, "timeout"@),
        !is_word("windowsize"@, "blksize"@),
        !is_word("windowsize"@, "timeout"@),
        !is_word("windowsize"@, "tsize"@),
{
    lemma_words();
    let b = encode_utf8("blksize"@);
    let t = encode_utf8("timeout"@);
    assert(to_lower(t[0]) != to_lower(b[0]));
    assert forall|i: int| 0 <= i < b.len() implies #[trigger] b[i] != 0 by {}
    assert forall|i: int| 0 <= i < t.len() implies #[trigger] t[i] != 0 by {}
    let s = encode_utf8("tsize"@);
    assert forall|i: int| 0 <= i < s.len() implies #[trigger] s[i] != 0 by {}
    let w = encode_utf8("windowsize"@);
    assert forall|i: int| 0 <= i < w.len() implies #[trigger] w[i] != 0 by {}
}

/// A `blksize` option within its range sets the block size.
pub proof fn lemma_blksize_pair(v: u16, rest: Seq<u8>)
    requires
        MIN_BLOCK_SIZE <= v <= MAX_BLOCK_SIZE,
    ensures
        spec_opts(option_pair("blksize"@, v as nat) + rest) == merge_into(
            Opts { block_size: Some(v), ..Opts::empty() },
            spec_opts(rest),
        ),
{
    lemma_option_names();
    lemma_opts_number_pair("blksize"@, v as nat, rest);
    assert(value_in(decimal_chars(v as nat), MIN_BLOCK_SIZE as nat, MAX_BLOCK_SIZE as nat) == Some(v as nat));
    assert(option_of_pair("blksize"@, decimal_chars(v as nat)) == Opts {
        block_size: Some(v),
        ..Opts::empty()
    });
}

/// A `timeout` option of at least one second sets the timeout.
pub proof fn lemma_timeout_pair(v: u8, rest: Seq<u8>)
    requires
        1 <= v <= u8::MAX,
    ensures
        spec_opts(option_pair("timeout"@, v as nat) + rest) == merge_into(
            Opts { timeout: Some(v), ..Opts::empty() },
            spec_opts(rest),
        ),
{
    lemma_option_names();
    lemma_opts_number_pair("timeout"@, v as nat, rest);
    assert(value_in(decimal_chars(v as nat), 1 as nat, u8::MAX as nat) == Some(v as nat));
    assert(option_of_pair("timeout"@, decimal_chars(v as nat)) == Opts {
        timeout: Some(v),
        ..Opts::empty()
    });
}

/// A `tsize` option sets the transfer size.
pub proof fn lemma_tsize_pair(v: u64, rest: Seq<u8>)
    requires
        0 <= v <= u64::MAX,
    ensures
        spec_opts(option_pair("tsize"@, v as nat) + rest) == merge_into(
            Opts { transfer_size: Some(v), ..Opts::empty() },
            spec_opts(rest),
        ),
{
    lemma_option_names();
    lemma_opts_number_pair("tsize"@, v as nat, rest);
    assert(value_in(decimal_chars(v as nat), 0 as nat, u64::MAX as nat) == Some(v as nat));
    assert(option_of_pair("tsize"@, decimal_chars(v as nat)) == Opts {
        transfer_size: Some(v),
        ..Opts::empty()
    });
}

/// A `windowsize` option sets the window size.
pub proof fn lemma_windowsize_pair(v: u16, rest: Seq<u8>)
    requires
        0 <= v <= u16::MAX,
    ensures
        spec_opts(option_pair("windowsize"@, v as nat) + rest) == merge_into(
            Opts { window_size: Some(v), ..Opts::empty() },
            spec_opts(rest),
        ),
{
    lemma_option_names();
    lemma_opts_number_pair("windowsize"@, v as nat, rest);
    assert(value_in(decimal_chars(v as nat), 0 as nat, u16::MAX as nat) == Some(v as nat));
    assert(option_of_pair("windowsize"@, decimal_chars(v as nat)) == Opts {
        window_size: Some(v),
        ..Opts::empty()
    });
}

/// The `blksize` option, set or not, in front of options that read as `later`.
pub proof fn lemma_blksize_step(value: Option<u16>, rest: Seq<u8>, later: Opts)
    requires
        spec_opts(rest) == Some(later),
        value matches Some(v) ==> MIN_BLOCK_SIZE <= v <= MAX_BLOCK_SIZE,
    ensures
        spec_opts(
            optional_pair(
                "blksize"@,
                match value {
                    Some(v) => Some(v as nat),
                    None => None,
                },
            ) + rest,
        ) == Some(merge(Opts { block_size: value, ..Opts::empty() }, later)),
{
    match value {
        Some(v) => {
            lemma_blksize_pair(v, rest);
        },
        None => {
            assert(Seq::<u8>::empty() + rest =~= rest);
        },
    }
}

/// The `timeout` option, set or not, in front of options that read as `later`.
pub proof fn lemma_timeout_step(value: Option<u8>, rest: Seq<u8>, later: Opts)
    requires
        spec_opts(rest) == Some(later),
        value matches Some(v) ==> 1 <= v <= u8::MAX,
    ensures
        spec_opts(
            optional_pair(
                "timeout"@,
                match value {
                    Some(v) => Some(v as nat),
                    None => None,
                },
            ) + rest,
        ) == Some(merge(Opts { timeout: value, ..Opts::empty() }, later)),
{
    match value {
        Some(v) => {
            lemma_timeout_pair(v, rest);
        },
        None => {
            assert(Seq::<u8>::empty() + rest =~= rest);
        },
    }
}

/// The `tsize` option, set or not, in front of options that read as `later`.
pub proof fn lemma_tsize_step(value: Option<u64>, rest: Seq<u8>, later: Opts)
    requires
        spec_opts(rest) == Some(later),
        value matches Some(v) ==> 0 <= v <= u64::MAX,
    ensures
        spec_opts(
            optional_pair(
                "tsize"@,
                match value {
                    Some(v) => Some(v as nat),
                    None => None,
                },
            ) + rest,
        ) == Some(merge(Opts { transfer_size: value, ..Opts::empty() }, later)),
{
    match value {
        Some(v) => {
            lemma_tsize_pair(v, rest);
        },
        None => {
            assert(Seq::<u8>::empty() + rest =~= rest);
        },
    }
}

/// The `windowsize` option, set or not, in front of options that read as `later`.
pub proof fn lemma_windowsize_step(value: Option<u16>, rest: Seq<u8>, later: Opts)
    requires
        spec_opts(rest) == Some(later),
        value matches Some(v) ==> 0 <= v <= u16::MAX,
    ensures
        spec_opts(
            optional_pair(
                "windowsize"@,
                match value {
                    Some(v) => Some(v as nat),
                    None => None,
                },
            ) + rest,
        ) == Some(merge(Opts { window_size: value, ..Opts::empty() }, later)),
{
    match value {
        Some(v) => {
            lemma_windowsize_pair(v, rest);
        },
        None => {
            assert(Seq::<u8>::empty() + rest =~= rest);
        },
    }
}

/// No bytes hold no options.
pub proof fn lemma_opts_empty()
    ensures
        spec_opts(Seq::<u8>::empty()) == Some(Opts::empty()),
{
}

/// Options within their ranges are read back from their wire form as they
/// were written.
pub proof fn lemma_opts_roundtrip(o: Opts)
    requires
        o.wf(),
    ensures
        spec_opts(o.spec_encode()) == Some(o),
{
    let e = Seq::<u8>::empty();
    let blk = optional_pair("blksize"@, o.block_size_nat());
    let tmo = optional_pair("timeout"@, o.timeout_nat());
    let tsz = optional_pair("tsize"@, o.transfer_size_nat());
    let win = optional_pair("windowsize"@, o.window_size_nat());
    let o4 = merge(Opts { window_size: o.window_size, ..Opts::empty() }, Opts::empty());
    let o3 = merge(Opts { transfer_size: o.transfer_size, ..Opts::empty() }, o4);
    let o2 = merge(Opts { timeout: o.timeout, ..Opts::empty() }, o3);
    let o1 = merge(Opts { block_size: o.block_size, ..Opts::empty() }, o2);
    lemma_opts_empty();
    lemma_windowsize_step(o.window_size, e, Opts::empty());
    assert(win + e =~= win);
    lemma_tsize_step(o.transfer_size, win, o4);
    lemma_timeout_step(o.timeout, tsz + win, o3);
    lemma_blksize_step(o.block_size, tmo + (tsz + win), o2);
    assert(o1 == o);
    assert(o.spec_encode() =~= blk + (tmo + (tsz + win)));
}

/// A read or write request with a file name free of zero bytes and options
/// within their ranges is read back as it was written.
pub proof fn lemma_req_roundtrip(req: RwReqView)
    requires
        req.wf(),
    ensures
        spec_req(req.spec_encode()) == Some(req),
{
    lemma_no_nul(req.filename);
    let opts = req.opts.spec_encode();
    let after = encode_utf8(req.mode.spec_name()) + seq![0u8] + opts;
    assert(req.spec_encode() =~= encode_utf8(req.filename) + seq![0u8] + after);
    lemma_nul_str_roundtrip(req.filename, after);
    lemma_mode_roundtrip(req.mode, opts);
    lemma_opts_roundtrip(req.opts);
}

/// An error other than `UnknownError`, with a message free of zero bytes,
/// is read back as it was written.
pub proof fn lemma_error_roundtrip(e: ProtocolErrorView)
    requires
        e.wf(),
    ensures
        spec_error(be16(e.code()) + encode_utf8(e.msg()) + seq![0u8]) == Some(e),
{
    lemma_fixed_messages();
    lemma_no_nul(e.msg());
    let tail = encode_utf8(e.msg()) + seq![0u8];
    assert(be16(e.code()) + encode_utf8(e.msg()) + seq![0u8] =~= be16(e.code()) + tail);
    lemma_u16_roundtrip(e.code(), tail);
    assert(tail =~= encode_utf8(e.msg()) + seq![0u8] + Seq::<u8>::empty());
    lemma_nul_str_roundtrip(e.msg(), Seq::<u8>::empty());
}

/// Decoding undoes encoding: every valid packet, of any of the six kinds,
/// is decoded from its wire form as the packet that was encoded.
pub proof fn law_decode_encode(p: PacketView)
    requires
        p.wf(),
    ensures
        spec_packet(p.spec_encode()) == Some(p),
{
    match p {
        PacketView::Rrq(req) => {
            lemma_u16_roundtrip(1, req.spec_encode());
            lemma_req_roundtrip(req);
        },
        PacketView::Wrq(req) => {
            lemma_u16_roundtrip(2, req.spec_encode());
            lemma_req_roundtrip(req);
        },
        PacketView::Data(block, data) => {
            assert(p.spec_encode() =~= be16(3) + (be16(block) + data));
            lemma_u16_roundtrip(3, be16(block) + data);
            lemma_u16_roundtrip(block, data);
        },
        PacketView::Ack(block) => {
            let e = Seq::<u8>::empty();
            assert(p.spec_encode() =~= be16(4) + (be16(block) + e));
            lemma_u16_roundtrip(4, be16(block) + e);
            lemma_u16_roundtrip(block, e);
        },
        PacketView::Error(e) => {
            let body = be16(e.code()) + encode_utf8(e.msg()) + seq![0u8];
            assert(p.spec_encode() =~= be16(5) + body);
            lemma_u16_roundtrip(5, body);
            lemma_error_roundtrip(e);
        },
        PacketView::OAck(opts) => {
            lemma_u16_roundtrip(6, opts.spec_encode());
            lemma_opts_roundtrip(opts);
        },
    }
}

/// No byte before the first zero byte is zero.
pub proof fn lemma_nul_index_bounds(s: Seq<u8>)
    ensures
        0 <= nul_index(s) <= s.len(),
        forall|j: int| 0 <= j < nul_index(s) ==> s[j] != 0,
    decreases s.len(),
{
    if s.len() == 0 || s[0] == 0 {
    } else {
        let t = s.drop_first();
        lemma_nul_index_bounds(t);
        assert forall|j: int| 0 <= j < nul_index(s) implies s[j] != 0 by {
            if j > 0 {
                assert(s[j] == t[j - 1]);
            }
        }
    }
}

/// A text that was read up to its terminator holds no zero byte.
pub proof fn lemma_nul_str_no_nul(s: Seq<u8>)
    requires
        spec_nul_str(s) is Some,
    ensures
        no_nul_bytes(spec_nul_str(s).unwrap().0),
        spec_nul_str(s).unwrap().1.len() < s.len(),
{
    lemma_nul_index_bounds(s);
    let i = nul_index(s);
    let head = s.subrange(0, i);
    decode_utf8_encode_utf8(head);
    assert forall|j: int| 0 <= j < head.len() implies #[trigger] head[j] != 0 by {
        assert(head[j] == s[j]);
    }
}

/// Options that were read keep their ranges.
pub proof fn lemma_spec_opts_wf(s: Seq<u8>)
    requires
        spec_opts(s) is Some,
    ensures
        spec_opts(s).unwrap().wf(),
    decreases s.len(),
{
    if s.len() > 0 {
        let (name, after_name) = spec_nul_str(s).unwrap();
        let (value, rest) = spec_nul_str(after_name).unwrap();
        lemma_spec_opts_wf(rest);
    }
}

/// Every packet that comes out of the decoder is valid.
pub proof fn lemma_decoded_wf(b: Seq<u8>)
    requires
        spec_packet(b) is Some,
    ensures
        spec_packet(b).unwrap().wf(),
{
    lemma_fixed_messages();
    let (t, body) = spec_packet_type(b).unwrap();
    match spec_packet(b).unwrap() {
        PacketView::Rrq(req) => {
            lemma_nul_str_no_nul(body);
            lemma_no_nul(req.filename);
            let (filename, after_name) = spec_nul_str(body).unwrap();
            let (mode, rest) = spec_mode(after_name).unwrap();
            lemma_spec_opts_wf(rest);
        },
        PacketView::Wrq(req) => {
            lemma_nul_str_no_nul(body);
            lemma_no_nul(req.filename);
            let (filename, after_name) = spec_nul_str(body).unwrap();
            let (mode, rest) = spec_mode(after_name).unwrap();
            lemma_spec_opts_wf(rest);
        },
        PacketView::Data(block, data) => {},
        PacketView::Ack(block) => {},
        PacketView::Error(e) => {
            let (code, after_code) = spec_u16_be(body).unwrap();
            lemma_nul_str_no_nul(after_code);
            lemma_no_nul(spec_nul_str(after_code).unwrap().0);
        },
        PacketView::OAck(opts) => {
            lemma_spec_opts_wf(body);
        },
    }
}

/// Decoding after encoding is idempotent: whatever a datagram decodes to,
/// encoding that packet gives bytes that decode to the same packet.
pub proof fn law_reencode(b: Seq<u8>)
    requires
        spec_packet(b) is Some,
    ensures
        spec_packet(spec_packet(b).unwrap().spec_encode()) == spec_packet(b),
{
    lemma_decoded_wf(b);
    law_decode_encode(spec_packet(b).unwrap());
}

/// A block size outside 8 to 65464 counts as if the option were absent:
/// the options read are those of the pairs behind it.
pub proof fn law_block_size_out_of_range(name: Seq<char>, value: Seq<char>, rest: Seq<u8>)
    requires
        no_nul(name),
        no_nul(value),
        is_word(name, "blksize"@),
        decimal_value(encode_utf8(value)) matches Some(v) ==> !(MIN_BLOCK_SIZE <= v
            <= MAX_BLOCK_SIZE),
    ensures
        spec_opts(encode_utf8(name) + seq![0u8] + encode_utf8(value) + seq![0u8] + rest)
            == spec_opts(rest),
{
    lemma_no_nul(name);
    lemma_no_nul(value);
    lemma_opts_pair(name, value, rest);
    assert(option_of_pair(name, value) == Opts::empty());
    if let Some(later) = spec_opts(rest) {
        assert(merge(Opts::empty(), later) == later);
    }
}

/// A timeout of zero counts as if the option were absent.
pub proof fn law_timeout_zero(name: Seq<char>, value: Seq<char>, rest: Seq<u8>)
    requires
        no_nul(name),
        no_nul(value),
        is_word(name, "timeout"@),
        decimal_value(encode_utf8(value)) == Some(0nat),
    ensures
        spec_opts(encode_utf8(name) + seq![0u8] + encode_utf8(value) + seq![0u8] + rest)
            == spec_opts(rest),
{
    lemma_no_nul(name);
    lemma_no_nul(value);
    lemma_option_names();
    lemma_opts_pair(name, value, rest);
    lemma_is_word_other(name, "timeout"@, "blksize"@);
    assert(option_of_pair(name, value) == Opts::empty());
    if let Some(later) = spec_opts(rest) {
        assert(merge(Opts::empty(), later) == later);
    }
}

/// Two words that a name both matches match each other.
pub proof fn lemma_is_word_other(name: Seq<char>, a: Seq<char>, b: Seq<char>)
    requires
        is_word(name, a),
        !is_word(a, b),
    ensures
        !is_word(name, b),
{
    let n = encode_utf8(name);
    let x = encode_utf8(a);
    let y = encode_utf8(b);
    if is_word(name, b) {
        assert forall|i: int| 0 <= i < x.len() implies to_lower(#[trigger] x[i]) == to_lower(
            y[i],
        ) by {
            assert(to_lower(n[i]) == to_lower(x[i]));
            assert(to_lower(n[i]) == to_lower(y[i]));
        }
        assert(false);
    }
}

/// An option with a name that is none of the four known ones does not make
/// decoding fail and leaves no trace: the options read are those of the
/// pairs behind it.
pub proof fn law_unknown_option(name: Seq<char>, value: Seq<char>, rest: Seq<u8>)
    requires
        no_nul(name),
        no_nul(value),
        !is_word(name, "blksize"@),
        !is_word(name, "timeout"@),
        !is_word(name, "tsize"@),
        !is_word(name, "windowsize"@),
    ensures
        spec_opts(encode_utf8(name) + seq![0u8] + encode_utf8(value) + seq![0u8] + rest)
            == spec_opts(rest),
{
    lemma_no_nul(name);
    lemma_no_nul(value);
    lemma_opts_pair(name, value, rest);
    if let Some(later) = spec_opts(rest) {
        assert(merge(Opts::empty(), later) == later);
    }
}

} // verus!
