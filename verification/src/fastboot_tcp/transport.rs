//! Framing of fastboot over TCP, protocol version 1.
//!
//! On connect both peers send a 4-byte `FB<version>` handshake. Afterwards
//! every packet (commands, replies and download data) is framed as an 8-byte
//! big-endian length followed by that many bytes.

use vstd::prelude::*;
use vstd::slice::slice_subrange;
use vstd::string::StringSliceAdditionalSpecFns;
use vstd::utf8::valid_utf8;

use crate::fault::{ErrorKind, IoError};
use crate::numbers::{decimal, decimal_text, parse_unsigned, unsigned_value};
use crate::text::{joined, same_bytes, utf8_text};
use crate::wire::{be64, be64_bytes, be64_value, law_be64_round_trip, read_be64};

verus! {

/// The handshake that this device sends.
pub const HANDSHAKE: &'static str = "FB01";

/// Highest protocol version that this device speaks.
pub const PROTOCOL_VERSION: u64 = 1;

/// Length of a handshake.
pub const HANDSHAKE_LEN: usize = 4;

/// Length of the length prefix of a packet.
pub const HEADER_LEN: usize = 8;

/// Longest command packet. Data packets may be longer.
pub const MAX_COMMAND_LEN: u64 = 4096;

/// A packet as it goes over the wire.
pub open spec fn frame(data: Seq<u8>) -> Seq<u8> {
    be64(data.len() as u64) + data
}

/// The first packet of a byte stream and what comes after it, if all of the
/// packet is there.
pub open spec fn unframe(stream: Seq<u8>) -> Option<(Seq<u8>, Seq<u8>)> {
    if stream.len() < HEADER_LEN {
        None
    } else {
        let len = be64_value(stream.take(HEADER_LEN as int)) as int;
        if stream.len() < HEADER_LEN + len {
            None
        } else {
            Some(
                (
                    stream.subrange(HEADER_LEN as int, HEADER_LEN + len),
                    stream.skip(HEADER_LEN + len),
                ),
            )
        }
    }
}

/// Frames one packet.
pub fn encode_packet(data: &[u8]) -> (packet: Vec<u8>)
    ensures
        packet@ == frame(data@),
        packet@.len() == HEADER_LEN + data@.len(),
{
    let len: usize = data.len();
    let mut packet = be64_bytes(len as u64);
    packet.extend_from_slice(data);
    assert(packet@ =~= frame(data@));
    packet
}

/// What a peer's handshake amounts to.
pub enum Greeting {
    /// The peer speaks a version that this device can speak too.
    Accepted,
    /// It does not start with `FB`.
    Malformed,
    /// Its version is not a number.
    MalformedVersion,
    /// Its version is too old.
    TooOld(nat),
}

/// What a peer's handshake amounts to. The version spoken is the smaller one
/// of both, so that any version from this device's own on will do.
pub open spec fn greeting(hello: Seq<u8>) -> Greeting {
    let digits = hello.skip(2);
    if hello.take(2) != "FB".spec_bytes() {
        Greeting::Malformed
    } else if !valid_utf8(digits) {
        Greeting::MalformedVersion
    } else {
        match unsigned_value(digits, 10) {
            None => Greeting::MalformedVersion,
            Some(version) => if version < PROTOCOL_VERSION {
                Greeting::TooOld(version)
            } else {
                Greeting::Accepted
            },
        }
    }
}

/// Whether a peer's handshake and the outcome of checking it belong together.
pub open spec fn greeted(hello: Seq<u8>, outcome: Result<(), IoError>) -> bool {
    match greeting(hello) {
        Greeting::Accepted => outcome is Ok,
        Greeting::Malformed => outcome matches Err(e) && e.says(
            ErrorKind::InvalidData,
            "malformed fastboot handshake"@,
        ),
        Greeting::MalformedVersion => outcome matches Err(e) && e.says(
            ErrorKind::InvalidData,
            "malformed fastboot handshake version"@,
        ),
        Greeting::TooOld(version) => outcome matches Err(e) && e.says(
            ErrorKind::InvalidData,
            "unsupported fastboot protocol version "@ + decimal(version),
        ),
    }
}

/// Checks a peer's handshake. Any peer that is not accepted is dropped.
pub fn handshake(hello: &[u8]) -> (outcome: Result<(), IoError>)
    requires
        hello.len() == HANDSHAKE_LEN,
    ensures
        greeted(hello@, outcome),
{
    let magic = slice_subrange(hello, 0, 2);
    let digits = slice_subrange(hello, 2, 4);
    assert(magic@ =~= hello@.take(2));
    assert(digits@ =~= hello@.skip(2));
    if !same_bytes(magic, "FB".as_bytes()) {
        return Err(IoError::new(ErrorKind::InvalidData, "malformed fastboot handshake"));
    }
    let version: Option<u64> = match utf8_text(digits) {
        Some(_text) => {
            proof {
                lemma_two_digits(digits@);
            }
            parse_unsigned(digits, 10)
        },
        None => None,
    };
    match version {
        None => Err(IoError::new(ErrorKind::InvalidData, "malformed fastboot handshake version")),
        Some(version) => {
            if version < PROTOCOL_VERSION {
                let text = decimal_text(version);
                let message = joined("unsupported fastboot protocol version ", text.as_str());
                Err(IoError::new(ErrorKind::InvalidData, message.as_str()))
            } else {
                Ok(())
            }
        },
    }
}

proof fn lemma_two_digits(s: Seq<u8>)
    requires
        s.len() == 2,
    ensures
        unsigned_value(s, 10) matches Some(v) ==> v < 100,
{
    reveal_with_fuel(crate::numbers::digits_value, 3);
}

/// How far reading a length prefix has come.
pub enum HeaderStep {
    /// This many bytes of it are there.
    More(usize),
    /// All of it is there.
    Complete,
    /// The peer has closed the connection between packets.
    Closed,
    /// The peer has closed the connection inside the length prefix.
    Truncated(IoError),
}

/// Takes in a read of part of a length prefix of which `filled` bytes were
/// there: it gave `read` bytes, none if the connection is closed.
pub fn read_header(filled: usize, read: usize) -> (step: HeaderStep)
    requires
        filled < HEADER_LEN,
        read <= HEADER_LEN - filled,
    ensures
        if read == 0 && filled == 0 {
            step == HeaderStep::Closed
        } else if read == 0 {
            step matches HeaderStep::Truncated(e) && e.says(
                ErrorKind::UnexpectedEof,
                "truncated fastboot frame header"@,
            )
        } else if filled + read == HEADER_LEN {
            step == HeaderStep::Complete
        } else {
            step matches HeaderStep::More(n) && n == filled + read
        },
{
    if read == 0 {
        if filled == 0 {
            return HeaderStep::Closed;
        }
        return HeaderStep::Truncated(
            IoError::new(ErrorKind::UnexpectedEof, "truncated fastboot frame header"),
        );
    }
    if filled + read == HEADER_LEN {
        HeaderStep::Complete
    } else {
        HeaderStep::More(filled + read)
    }
}

/// The length that a length prefix tells.
pub fn frame_len(header: &[u8]) -> (len: u64)
    requires
        header.len() == HEADER_LEN,
    ensures
        len == be64_value(header@),
{
    read_be64(header)
}

/// The length of a command packet, unless it is too long.
pub fn recv_command(header: &[u8]) -> (len: Result<usize, IoError>)
    requires
        header.len() == HEADER_LEN,
    ensures
        match len {
            Ok(n) => n == be64_value(header@) && n <= MAX_COMMAND_LEN,
            Err(e) => be64_value(header@) > MAX_COMMAND_LEN && e.says(
                ErrorKind::InvalidData,
                "fastboot command frame too large"@,
            ),
        },
{
    let len: u64 = frame_len(header);
    if len > MAX_COMMAND_LEN {
        return Err(IoError::new(ErrorKind::InvalidData, "fastboot command frame too large"));
    }
    Ok(len as usize)
}

/// The fault of a connection over which no data came in time.
pub fn inactive_error() -> (err: IoError)
    ensures
        err.says(ErrorKind::TimedOut, "fastboot-tcp connection inactive"@),
{
    IoError::new(ErrorKind::TimedOut, "fastboot-tcp connection inactive")
}

/// Every packet can be read back from the stream, whatever follows it.
pub proof fn law_frame_round_trip(data: Seq<u8>, rest: Seq<u8>)
    requires
        data.len() <= u64::MAX,
    ensures
        unframe(frame(data) + rest) == Some((data, rest)),
{
    let stream = frame(data) + rest;
    law_be64_round_trip(data.len() as u64);
    assert(stream.take(HEADER_LEN as int) =~= be64(data.len() as u64));
    assert(stream.subrange(HEADER_LEN as int, HEADER_LEN + data.len()) =~= data);
    assert(stream.skip((HEADER_LEN + data.len()) as int) =~= rest);
}

/// A device accepts its own handshake.
pub proof fn law_own_handshake()
    ensures
        greeting(HANDSHAKE.spec_bytes()) is Accepted,
{
    reveal_strlit("FB01");
    reveal_strlit("FB");
    vstd::utf8::is_ascii_chars_encode_utf8("FB01"@);
    vstd::utf8::is_ascii_chars_encode_utf8("FB"@);
    let hello = HANDSHAKE.spec_bytes();
    assert(hello =~= seq![70u8, 66u8, 48u8, 49u8]);
    assert(hello.take(2) =~= "FB".spec_bytes());
    let digits = hello.skip(2);
    assert(digits =~= seq![48u8, 49u8]);
    assert(digits.drop_last() =~= seq![48u8]);
    assert(digits.drop_last().drop_last() =~= Seq::<u8>::empty());
    reveal_with_fuel(crate::numbers::digits_value, 3);
    assert(valid_utf8(digits)) by {
        reveal_strlit("01");
        vstd::utf8::is_ascii_chars_encode_utf8("01"@);
        vstd::utf8::encode_utf8_valid_utf8("01"@);
        assert(digits =~= "01".spec_bytes());
    }
}

/// A packet is its length in eight bytes, the most significant one first, and its
/// data.
pub proof fn law_packet(data: &[u8], packet: Vec<u8>, header: &[u8], len: u64, i: int)
    requires
        data@.len() <= usize::MAX,
        call_ensures(encode_packet, (data,), packet),
        header@ == packet@.take(8),
        call_ensures(frame_len, (header,), len),
    ensures
        packet@.len() == data@.len() + 8,
        len == data@.len(),
        0 <= i < data@.len() ==> packet@[8 + i] == data@[i],
        len == header@[7] + 256 * header@[6] + 65536 * header@[5] + 16777216 * header@[4]
            + 4294967296 * (header@[3] + 256 * header@[2] + 65536 * header@[1] + 16777216
            * header@[0]),
{
    law_be64_round_trip(data@.len() as u64);
    assert(header@ =~= be64(data@.len() as u64));
}

/// A peer that greets with `FB` and two digits is taken from version 1 on; version
/// 0 is told to be unsupported.
pub proof fn law_versions(hello: &[u8], a: u8, b: u8, outcome: Result<(), IoError>)
    requires
        a < 10 && b < 10,
        hello@ == seq![70u8, 66u8, (48 + a) as u8, (48 + b) as u8],
        call_ensures(handshake, (hello,), outcome),
    ensures
        10 * a + b >= 1 ==> outcome is Ok,
        10 * a + b == 0 ==> (outcome matches Err(e) && e.kind == ErrorKind::InvalidData
            && e.message@ == "unsupported fastboot protocol version 0"@),
{
    reveal_strlit("FB");
    vstd::utf8::is_ascii_chars_encode_utf8("FB"@);
    assert(hello@.take(2) =~= "FB".spec_bytes());
    let x = (48 + a) as u8;
    let y = (48 + b) as u8;
    let digits = hello@.skip(2);
    assert(digits =~= seq![x, y]);
    let text = seq![x as char, y as char];
    assert(vstd::utf8::is_ascii_chars(text));
    vstd::utf8::is_ascii_chars_encode_utf8(text);
    vstd::utf8::encode_utf8_valid_utf8(text);
    assert(vstd::utf8::encode_utf8(text) =~= digits);
    assert(digits.drop_last() =~= seq![x]);
    assert(digits.drop_last().drop_last() =~= Seq::<u8>::empty());
    reveal_with_fuel(crate::numbers::digits_value, 3);
    assert(unsigned_value(digits, 10) == Some((10 * a + b) as nat));
    if 10 * a + b == 0 {
        reveal_strlit("unsupported fastboot protocol version ");
        reveal_strlit("unsupported fastboot protocol version 0");
        assert(decimal(0) =~= seq!['0']);
        assert("unsupported fastboot protocol version "@ + decimal(0)
            =~= "unsupported fastboot protocol version 0"@);
    }
}

/// A peer that does not greet with `FB` is refused, and so is one whose version is
/// not a number.
pub proof fn law_bad_greetings(
    hello: &[u8],
    digits: &[u8],
    version: Option<u64>,
    outcome: Result<(), IoError>,
)
    requires
        hello@.len() == 4,
        digits@ == hello@.skip(2),
        call_ensures(parse_unsigned, (digits, 10u64), version),
        call_ensures(handshake, (hello,), outcome),
    ensures
        hello@[0] != 70 || hello@[1] != 66 ==> (outcome matches Err(e) && e.kind
            == ErrorKind::InvalidData && e.message@ == "malformed fastboot handshake"@),
        hello@[0] == 70 && hello@[1] == 66 && version is None ==> (outcome matches Err(e) && e.kind
            == ErrorKind::InvalidData && e.message@ == "malformed fastboot handshake version"@),
{
    reveal_strlit("FB");
    vstd::utf8::is_ascii_chars_encode_utf8("FB"@);
    let magic = "FB".spec_bytes();
    assert(magic =~= seq![70u8, 66u8]);
    assert(hello@.take(2)[0] == hello@[0] && hello@.take(2)[1] == hello@[1]);
    if hello@[0] == 70 && hello@[1] == 66 {
        assert(hello@.take(2) =~= magic);
        lemma_two_digits(digits@);
    }
}

/// Reading a length prefix goes on until its eight bytes are there. A connection
/// that is closed in front of it has ended well, and one that is closed within it
/// has not.
pub proof fn law_length_prefix(filled: usize, read: usize, step: HeaderStep)
    requires
        filled < 8,
        read <= 8 - filled,
        call_ensures(read_header, (filled, read), step),
    ensures
        read > 0 && filled + read < 8 ==> (step matches HeaderStep::More(n) && n == filled + read),
        filled + read == 8 ==> step is Complete,
        read == 0 && filled == 0 ==> step is Closed,
        read == 0 && filled > 0 ==> (step matches HeaderStep::Truncated(e) && e.kind
            == ErrorKind::UnexpectedEof && e.message@ == "truncated fastboot frame header"@),
{
}

/// A command takes up to 4096 bytes.
pub proof fn law_command_len(
    header: &[u8],
    told: u64,
    len: Result<usize, IoError>,
    quiet: IoError,
)
    requires
        header@.len() == 8,
        call_ensures(frame_len, (header,), told),
        call_ensures(recv_command, (header,), len),
        call_ensures(inactive_error, (), quiet),
    ensures
        told <= 4096 ==> (len matches Ok(n) && n == told),
        told > 4096 ==> (len matches Err(e) && e.kind == ErrorKind::InvalidData && e.message@
            == "fastboot command frame too large"@),
        HANDSHAKE@ == "FB01"@,
        quiet.kind == ErrorKind::TimedOut && quiet.message@ == "fastboot-tcp connection inactive"@,
{
}

/// Any number of two characters counts as a version, also one with a plus sign: from
/// 1 on the peer is taken.
pub proof fn law_any_version(
    hello: &[u8],
    digits: &[u8],
    version: u64,
    outcome: Result<(), IoError>,
)
    requires
        hello@.len() == 4,
        hello@[0] == 70 && hello@[1] == 66,
        digits@ == hello@.skip(2),
        call_ensures(parse_unsigned, (digits, 10u64), Some(version)),
        call_ensures(handshake, (hello,), outcome),
    ensures
        version >= 1 ==> outcome is Ok,
        version == 0 ==> (outcome matches Err(e) && e.kind == ErrorKind::InvalidData && e.message@
            == "unsupported fastboot protocol version "@ + decimal(0)),
{
    reveal_strlit("FB");
    vstd::utf8::is_ascii_chars_encode_utf8("FB"@);
    assert(hello@.take(2) =~= "FB".spec_bytes());
    let s = digits@;
    assert(s.len() == 2);
    reveal_with_fuel(crate::numbers::digits_value, 3);
    assert(s[0] < 128 && s[1] < 128) by {
        if s[0] == 43 {
            assert(s.drop_first()[0] == s[1]);
        }
    }
    let text = seq![s[0] as char, s[1] as char];
    assert(vstd::utf8::is_ascii_chars(text));
    vstd::utf8::is_ascii_chars_encode_utf8(text);
    vstd::utf8::encode_utf8_valid_utf8(text);
    assert(vstd::utf8::encode_utf8(text) =~= s);
    lemma_two_digits(s);
}

} // verus!
