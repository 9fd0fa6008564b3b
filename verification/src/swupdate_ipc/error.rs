//! Errors of the SWUpdate IPC client.

use vstd::prelude::*;

use crate::fault::IoError;
use crate::numbers::{decimal, decimal_text, hex_lower_bytes, hex_lower_text};
use crate::text::joined;
use crate::wire::{to_word, word_of};

verus! {

/// Errors returned by the SWUpdate IPC and progress client.
#[derive(Debug)]
pub enum Error {
    /// Underlying socket I/O failure.
    Io(IoError),
    /// SWUpdate rejected the request with a `NACK`.
    Nack,
    /// SWUpdate replied with an unexpected message type.
    UnexpectedType(i32),
    /// A received frame carried an invalid magic number.
    InvalidMagic(i32),
    /// The progress daemon advertised an incompatible major API version.
    IncompatibleProgressVersion(u32),
    /// The progress connect acknowledgement was malformed.
    InvalidProgressAck,
    /// The peer closed the connection before the exchange completed.
    Closed,
    /// A caller-supplied argument was invalid.
    InvalidArgument(&'static str),
    /// Timed out waiting for SWUpdate to report an install result.
    Timeout,
    /// Timed out waiting to establish a progress connection.
    ProgressConnectTimeout,
    /// SWUpdate reported that the installation failed.
    InstallFailed,
}

impl Error {
    /// Whether this rejects an argument with this text.
    pub open spec fn rejects(self, text: Seq<char>) -> bool {
        self matches Error::InvalidArgument(what) && what@ == text
    }
}

/// A number in decimal digits, with a sign if it is negative.
pub open spec fn signed_decimal(n: i32) -> Seq<char> {
    if n < 0 {
        "-"@ + decimal((-n) as nat)
    } else {
        decimal(n as nat)
    }
}

fn signed_decimal_text(n: i32) -> (text: String)
    ensures
        text@ == signed_decimal(n),
{
    if n < 0 {
        let magnitude: i64 = -(n as i64);
        let digits = decimal_text(magnitude as u64);
        joined("-", digits.as_str())
    } else {
        decimal_text(n as u64)
    }
}

/// A word in eight hexadecimal digits behind `0x`.
pub open spec fn hex_word(w: u32) -> Seq<char> {
    "0x"@ + hex_lower_bytes(
        seq![
            (w / 0x100_0000) as u8,
            (w / 0x1_0000 % 0x100) as u8,
            (w / 0x100 % 0x100) as u8,
            (w % 0x100) as u8,
        ],
    )
}

fn hex_word_text(w: u32) -> (text: String)
    ensures
        text@ == hex_word(w),
{
    let mut bytes: Vec<u8> = Vec::new();
    bytes.push((w / 0x100_0000) as u8);
    bytes.push((w / 0x1_0000 % 0x100) as u8);
    bytes.push((w / 0x100 % 0x100) as u8);
    bytes.push((w % 0x100) as u8);
    assert(bytes@ =~= seq![
        (w / 0x100_0000) as u8,
        (w / 0x1_0000 % 0x100) as u8,
        (w / 0x100 % 0x100) as u8,
        (w % 0x100) as u8,
    ]);
    let digits = hex_lower_text(bytes.as_slice());
    joined("0x", digits.as_str())
}

/// The description of an error.
pub open spec fn description(err: Error) -> Seq<char> {
    match err {
        Error::Io(e) => "SWUpdate IPC I/O error: "@ + e.message@,
        Error::Nack => "SWUpdate rejected the request (NACK)"@,
        Error::UnexpectedType(n) => "unexpected SWUpdate message type: "@ + signed_decimal(n),
        Error::InvalidMagic(n) => "invalid SWUpdate IPC magic number: "@ + hex_word(word_of(n)),
        Error::IncompatibleProgressVersion(n) =>
        "incompatible SWUpdate progress API version: "@ + hex_word(n),
        Error::InvalidProgressAck => "invalid SWUpdate progress connect acknowledgement"@,
        Error::Closed => "SWUpdate closed the connection"@,
        Error::InvalidArgument(what) => "invalid argument: "@ + what@,
        Error::Timeout => "timed out waiting for SWUpdate install result"@,
        Error::ProgressConnectTimeout => "timed out connecting to SWUpdate progress socket"@,
        Error::InstallFailed => "SWUpdate reported installation failure"@,
    }
}

impl Error {
    /// A description for the user.
    pub fn message(&self) -> (text: String)
        ensures
            text@ == description(*self),
    {
        match self {
            Error::Io(e) => joined("SWUpdate IPC I/O error: ", e.message.as_str()),
            Error::Nack => "SWUpdate rejected the request (NACK)".to_owned(),
            Error::UnexpectedType(n) => {
                let number = signed_decimal_text(*n);
                joined("unexpected SWUpdate message type: ", number.as_str())
            },
            Error::InvalidMagic(n) => {
                let number = hex_word_text(to_word(*n));
                joined("invalid SWUpdate IPC magic number: ", number.as_str())
            },
            Error::IncompatibleProgressVersion(n) => {
                let number = hex_word_text(*n);
                joined("incompatible SWUpdate progress API version: ", number.as_str())
            },
            Error::InvalidProgressAck => {
                "invalid SWUpdate progress connect acknowledgement".to_owned()
            },
            Error::Closed => "SWUpdate closed the connection".to_owned(),
            Error::InvalidArgument(what) => joined("invalid argument: ", what),
            Error::Timeout => "timed out waiting for SWUpdate install result".to_owned(),
            Error::ProgressConnectTimeout => {
                "timed out connecting to SWUpdate progress socket".to_owned()
            },
            Error::InstallFailed => "SWUpdate reported installation failure".to_owned(),
        }
    }
}

/// What the user is told of an error.
pub proof fn law_descriptions(err: Error, text: String)
    requires
        call_ensures(Error::message, (&err,), text),
    ensures
        err matches Error::Io(e) ==> text@ == "SWUpdate IPC I/O error: "@ + e.message@,
        err is Nack ==> text@ == "SWUpdate rejected the request (NACK)"@,
        err matches Error::UnexpectedType(n) ==> {
            &&& n >= 0 ==> text@ == "unexpected SWUpdate message type: "@ + decimal(n as nat)
            &&& n < 0 ==> text@ == "unexpected SWUpdate message type: "@ + ("-"@ + decimal(
                (-n) as nat,
            ))
        },
        err is InvalidProgressAck ==> text@ == "invalid SWUpdate progress connect acknowledgement"@,
        err is Closed ==> text@ == "SWUpdate closed the connection"@,
        err matches Error::InvalidArgument(what) ==> text@ == "invalid argument: "@ + what@,
        err is Timeout ==> text@ == "timed out waiting for SWUpdate install result"@,
        err is ProgressConnectTimeout ==> text@
            == "timed out connecting to SWUpdate progress socket"@,
        err is InstallFailed ==> text@ == "SWUpdate reported installation failure"@,
{
}

/// A magic number and a version are told in eight hexadecimal digits behind `0x`,
/// a negative number as its complement.
pub proof fn law_told_words(n: i32, version: u32, magic: String, other: String)
    requires
        call_ensures(Error::message, (&Error::InvalidMagic(n),), magic),
        call_ensures(Error::message, (&Error::IncompatibleProgressVersion(version),), other),
    ensures
        ({
            let w = if n < 0 {
                n + 4294967296
            } else {
                n as int
            };
            magic@ == "invalid SWUpdate IPC magic number: "@ + ("0x"@ + hex_lower_bytes(
                seq![
                    (w / 16777216) as u8,
                    (w / 65536 % 256) as u8,
                    (w / 256 % 256) as u8,
                    (w % 256) as u8,
                ],
            ))
        }),
        other@ == "incompatible SWUpdate progress API version: "@ + ("0x"@ + hex_lower_bytes(
            seq![
                (version / 16777216) as u8,
                (version / 65536 % 256) as u8,
                (version / 256 % 256) as u8,
                (version % 256) as u8,
            ],
        )),
{
}

} // verus!
