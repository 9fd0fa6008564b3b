//! Transport-agnostic FBK / fastboot wire protocol.
//!
//! Reply tokens, the command parser and reply formatting, shared by every
//! transport. Parsing works on bytes and tolerates the white space and NUL
//! padding that host tools append to commands.

use vstd::prelude::*;
use vstd::slice::slice_subrange;
use vstd::string::StringSliceAdditionalSpecFns;
use vstd::utf8::{decode_utf8, encode_utf8, is_ascii_chars_encode_utf8, valid_utf8};

use crate::numbers::{hex_upper_8, hex_upper_8_text, parse_unsigned, unsigned_value};
use crate::sysinfo::runtime::BootRootfsInfo;
use crate::text::{joined, same_bytes, same_text, utf8_text};

verus! {

/// Reply token: the requested command completed successfully.
pub const OKAY: &'static str = "OKAY";

/// Reply token: the reported download size did not match the bytes received.
pub const FAIL_BADSIZE: &'static str = "FAILbad size";

/// Reply token: closing / finishing the download failed.
pub const FAIL_CLOSE: &'static str = "FAILclose";

/// Reply token: the command was not recognized.
pub const FAIL_CMD: &'static str = "FAILunknown command";

/// Reply token: writing the payload to the sink failed.
pub const FAIL_EPIPE: &'static str = "FAILwrite failed";

/// Reply token: a flash was requested before any download.
pub const FAIL_FLASH: &'static str = "FAILflash before download";

/// Reply token: no download session is open.
pub const FAIL_NOTOPEN: &'static str = "FAILnot open";

/// Reply token: opening the download session failed.
pub const FAIL_OPEN: &'static str = "FAILopen failed";

/// Reply token: the requested partition is unknown.
pub const FAIL_UNKNOWN_PART: &'static str = "FAILpartition does not exist";

/// Info token: the device is waiting for SWUpdate to finish installing.
pub const INFO_WAIT_SWUPDATE: &'static str = "INFOwaiting for SWUpdate";

/// Digits of the size in a download command.
pub const DOWNLOAD_SIZE_WIDTH: usize = 8;

/// Whether a `download:` request was issued as a fastboot (`download:%`) or a
/// plain FBK (`download:`) transfer.
#[derive(Debug, Clone, Copy, PartialEq, Eq, Structural)]
pub enum DownloadKind {
    /// Plain FBK download (`download:` / `donwload:`).
    Plain,
    /// Fastboot download (`download:%`).
    Fastboot,
}

/// Target of a fastboot `fetch:` request.
#[derive(Debug, Clone, Copy, PartialEq, Eq, Structural)]
pub enum FetchTarget {
    /// `fetch:sysinfo`
    Sysinfo,
    /// `fetch:sysinfo.json`
    SysinfoJson,
}

/// Target partition of a fastboot `flash:` request.
#[derive(Debug, Clone, Copy, PartialEq, Eq, Structural)]
pub enum FlashTarget {
    /// `flash:update`
    Update,
    /// `flash:swu`
    Swu,
}

/// A parsed FBK / fastboot command.
#[derive(Debug)]
pub enum ParsedCommand {
    /// `WOpen:` - open an FBK download session.
    WOpen,
    /// `getvar:<name>` - read a device variable.
    GetVar(String),
    /// `fetch:<target>` - upload device information.
    Fetch(FetchTarget),
    /// `fetch:<unknown>` - upload of an unsupported partition.
    FetchUnknownPart,
    /// `download:<len>` - begin a data-phase transfer of `len` bytes.
    Download {
        /// Number of bytes the host will send in the data phase.
        len: usize,
        /// Whether the transfer is a fastboot or plain FBK download.
        kind: DownloadKind,
    },
    /// `flash:<target>` - install the previously downloaded image.
    Flash(FlashTarget),
    /// `flash:<unknown>` - flash of an unsupported partition.
    FlashUnknownPart,
    /// `Close` - finish an FBK download session.
    Close,
    /// A command this device does not implement.
    Unsupported,
}

/// What a command asks for.
pub enum Command {
    /// Open an FBK download session.
    WOpen,
    /// Read a device variable.
    GetVar(Seq<char>),
    /// Upload device information.
    Fetch(FetchTarget),
    /// Upload an unsupported partition.
    FetchUnknownPart,
    /// Begin a data-phase transfer.
    Download(nat, DownloadKind),
    /// Install the previously downloaded image.
    Flash(FlashTarget),
    /// Flash an unsupported partition.
    FlashUnknownPart,
    /// Finish an FBK download session.
    Close,
    /// Not implemented.
    Unsupported,
}

impl View for ParsedCommand {
    type V = Command;

    open spec fn view(&self) -> Command {
        match self {
            ParsedCommand::WOpen => Command::WOpen,
            ParsedCommand::GetVar(name) => Command::GetVar(name@),
            ParsedCommand::Fetch(target) => Command::Fetch(*target),
            ParsedCommand::FetchUnknownPart => Command::FetchUnknownPart,
            ParsedCommand::Download { len, kind } => Command::Download(*len as nat, *kind),
            ParsedCommand::Flash(target) => Command::Flash(*target),
            ParsedCommand::FlashUnknownPart => Command::FlashUnknownPart,
            ParsedCommand::Close => Command::Close,
            ParsedCommand::Unsupported => Command::Unsupported,
        }
    }
}

/// A byte that host tools pad commands with: NUL or ASCII white space.
pub open spec fn padding(b: u8) -> bool {
    b == 0 || b == 9 || b == 10 || b == 12 || b == 13 || b == 32
}

/// How many bytes of padding `s` starts with.
pub open spec fn padding_len(s: Seq<u8>) -> int
    decreases s.len(),
{
    if s.len() == 0 || !padding(s[0]) {
        0
    } else {
        1 + padding_len(s.drop_first())
    }
}

/// How many bytes of `s` come before the first padding.
pub open spec fn token_len(s: Seq<u8>) -> int
    decreases s.len(),
{
    if s.len() == 0 || padding(s[0]) {
        0
    } else {
        1 + token_len(s.drop_first())
    }
}

/// How many bytes of `s` come before the first colon.
pub open spec fn colon_at(s: Seq<u8>) -> int
    decreases s.len(),
{
    if s.len() == 0 || s[0] == 58 {
        0
    } else {
        1 + colon_at(s.drop_first())
    }
}

/// The bytes of `s` in front of the first padding.
pub open spec fn token(s: Seq<u8>) -> Seq<u8> {
    s.take(token_len(s))
}

/// A download command with these arguments: the size has eight hexadecimal
/// digits, and only what comes before the payload is consumed.
pub open spec fn download_command(args: Seq<u8>, percent: bool) -> Option<(Command, int)> {
    let at = if percent {
        1int
    } else {
        0
    };
    if args.len() < at + DOWNLOAD_SIZE_WIDTH {
        None
    } else {
        match unsigned_value(args.subrange(at, at + DOWNLOAD_SIZE_WIDTH), 16) {
            Some(len) => Some(
                (
                    Command::Download(
                        len,
                        if percent {
                            DownloadKind::Fastboot
                        } else {
                            DownloadKind::Plain
                        },
                    ),
                    at + DOWNLOAD_SIZE_WIDTH,
                ),
            ),
            None => None,
        }
    }
}

/// The command with this name and these arguments, and how many bytes of the
/// arguments it consumes.
pub open spec fn named_command(name: Seq<u8>, args: Seq<u8>) -> Option<(Command, int)> {
    let arg = token(args);
    let len = token_len(args);
    if name == "download".spec_bytes() {
        download_command(args, args.len() > 0 && args[0] == 37)
    } else if name == "donwload".spec_bytes() {
        download_command(args, false)
    } else if name == "WOpen".spec_bytes() {
        Some((Command::WOpen, len))
    } else if name == "getvar".spec_bytes() {
        if valid_utf8(arg) && arg.len() > 0 {
            Some((Command::GetVar(decode_utf8(arg)), len))
        } else {
            Some((Command::Unsupported, len))
        }
    } else if name == "fetch".spec_bytes() {
        let part = arg.take(colon_at(arg));
        if !valid_utf8(arg) {
            None
        } else if part == "sysinfo".spec_bytes() {
            Some((Command::Fetch(FetchTarget::Sysinfo), len))
        } else if part == "sysinfo.json".spec_bytes() {
            Some((Command::Fetch(FetchTarget::SysinfoJson), len))
        } else {
            Some((Command::FetchUnknownPart, len))
        }
    } else if name == "flash".spec_bytes() {
        if arg == "update".spec_bytes() {
            Some((Command::Flash(FlashTarget::Update), len))
        } else if arg == "swu".spec_bytes() {
            Some((Command::Flash(FlashTarget::Swu), len))
        } else {
            Some((Command::FlashUnknownPart, len))
        }
    } else {
        Some((Command::Unsupported, len))
    }
}

/// The command at the front of `data`, and how many bytes it consumes.
pub open spec fn command_at(data: Seq<u8>) -> Option<(Command, int)> {
    let start = padding_len(data);
    let rest = data.skip(start);
    let colon = colon_at(rest);
    if start >= data.len() {
        None
    } else if colon < rest.len() {
        match named_command(rest.take(colon), rest.skip(colon + 1)) {
            Some((command, used)) => Some((command, start + colon + 1 + used)),
            None => None,
        }
    } else {
        Some(
            (
                if token(rest) == "Close".spec_bytes() {
                    Command::Close
                } else {
                    Command::Unsupported
                },
                start + token_len(rest),
            ),
        )
    }
}

proof fn lemma_padding_len(s: Seq<u8>, i: int)
    requires
        0 <= i <= s.len(),
        forall|j: int| 0 <= j < i ==> padding(#[trigger] s[j]),
        i < s.len() ==> !padding(s[i]),
    ensures
        padding_len(s) == i,
    decreases i,
{
    if i > 0 {
        assert(padding(s[0]));
        assert forall|j: int| 0 <= j < i - 1 implies padding(#[trigger] s.drop_first()[j]) by {
            assert(s.drop_first()[j] == s[j + 1]);
        }
        lemma_padding_len(s.drop_first(), i - 1);
    }
}

proof fn lemma_token_len(s: Seq<u8>, i: int)
    requires
        0 <= i <= s.len(),
        forall|j: int| 0 <= j < i ==> !padding(#[trigger] s[j]),
        i < s.len() ==> padding(s[i]),
    ensures
        token_len(s) == i,
    decreases i,
{
    if i > 0 {
        assert(!padding(s[0]));
        assert forall|j: int| 0 <= j < i - 1 implies !padding(#[trigger] s.drop_first()[j]) by {
            assert(s.drop_first()[j] == s[j + 1]);
        }
        lemma_token_len(s.drop_first(), i - 1);
    }
}

proof fn lemma_colon_at(s: Seq<u8>, i: int)
    requires
        0 <= i <= s.len(),
        forall|j: int| 0 <= j < i ==> #[trigger] s[j] != 58,
        i < s.len() ==> s[i] == 58,
    ensures
        colon_at(s) == i,
    decreases i,
{
    if i > 0 {
        assert(s[0] != 58);
        assert forall|j: int| 0 <= j < i - 1 implies #[trigger] s.drop_first()[j] != 58 by {
            assert(s.drop_first()[j] == s[j + 1]);
        }
        lemma_colon_at(s.drop_first(), i - 1);
    }
}

fn is_padding_byte(b: u8) -> (r: bool)
    ensures
        r == padding(b),
{
    b == 0 || b == 9 || b == 10 || b == 12 || b == 13 || b == 32
}

fn skip_padding(s: &[u8]) -> (n: usize)
    ensures
        n == padding_len(s@),
        n <= s.len(),
{
    let mut i: usize = 0;
    while i < s.len() && is_padding_byte(s[i])
        invariant
            i <= s.len(),
            forall|j: int| 0 <= j < i ==> padding(#[trigger] s@[j]),
        decreases s.len() - i,
    {
        i += 1;
    }
    proof {
        lemma_padding_len(s@, i as int);
    }
    i
}

fn find_token_end(s: &[u8]) -> (n: usize)
    ensures
        n == token_len(s@),
        n <= s.len(),
{
    let mut i: usize = 0;
    while i < s.len() && !is_padding_byte(s[i])
        invariant
            i <= s.len(),
            forall|j: int| 0 <= j < i ==> !padding(#[trigger] s@[j]),
        decreases s.len() - i,
    {
        i += 1;
    }
    proof {
        lemma_token_len(s@, i as int);
    }
    i
}

fn find_colon(s: &[u8]) -> (n: usize)
    ensures
        n == colon_at(s@),
        n <= s.len(),
{
    let mut i: usize = 0;
    while i < s.len() && s[i] != 58
        invariant
            i <= s.len(),
            forall|j: int| 0 <= j < i ==> #[trigger] s@[j] != 58,
        decreases s.len() - i,
    {
        i += 1;
    }
    proof {
        lemma_colon_at(s@, i as int);
    }
    i
}

/// Eight hexadecimal digits denote a number of at most 32 bits.
proof fn lemma_size_bound(s: Seq<u8>)
    ensures
        s.len() <= 8 ==> (crate::numbers::digits_value(s, 16) matches Some(v) ==> v
            < crate::numbers::pow16(s.len())),
        crate::numbers::pow16(s.len()) >= 1,
    decreases s.len(),
{
    if s.len() > 0 {
        lemma_size_bound(s.drop_last());
    }
}

fn parse_download(args: &[u8], percent: bool) -> (parsed: Option<(ParsedCommand, usize)>)
    requires
        percent ==> args@.len() > 0,
    ensures
        match parsed {
            Some((command, used)) => download_command(args@, percent) == Some(
                (command@, used as int),
            ) && used <= args@.len(),
            None => download_command(args@, percent) is None,
        },
{
    let at: usize = if percent {
        1
    } else {
        0
    };
    if args.len() - at < DOWNLOAD_SIZE_WIDTH {
        return None;
    }
    let size = slice_subrange(args, at, at + DOWNLOAD_SIZE_WIDTH);
    proof {
        let digits = if size@[0] == 43 {
            size@.drop_first()
        } else {
            size@
        };
        lemma_size_bound(digits);
        reveal_with_fuel(crate::numbers::pow16, 9);
    }
    match parse_unsigned(size, 16) {
        Some(len) => {
            let kind = if percent {
                DownloadKind::Fastboot
            } else {
                DownloadKind::Plain
            };
            Some((ParsedCommand::Download { len: len as usize, kind }, at + DOWNLOAD_SIZE_WIDTH))
        },
        None => None,
    }
}

fn parse_fetch(arg: &[u8]) -> (command: Option<ParsedCommand>)
    ensures
        command is Some <==> valid_utf8(arg@),
        command matches Some(c) ==> c@ == (if arg@.take(colon_at(arg@)) == "sysinfo".spec_bytes() {
            Command::Fetch(FetchTarget::Sysinfo)
        } else if arg@.take(colon_at(arg@)) == "sysinfo.json".spec_bytes() {
            Command::Fetch(FetchTarget::SysinfoJson)
        } else {
            Command::FetchUnknownPart
        }),
{
    if utf8_text(arg).is_none() {
        return None;
    }
    let end: usize = find_colon(arg);
    let part = slice_subrange(arg, 0, end);
    assert(part@ =~= arg@.take(end as int));
    if same_bytes(part, "sysinfo".as_bytes()) {
        Some(ParsedCommand::Fetch(FetchTarget::Sysinfo))
    } else if same_bytes(part, "sysinfo.json".as_bytes()) {
        Some(ParsedCommand::Fetch(FetchTarget::SysinfoJson))
    } else {
        Some(ParsedCommand::FetchUnknownPart)
    }
}

fn parse_named(name: &[u8], args: &[u8]) -> (parsed: Option<(ParsedCommand, usize)>)
    ensures
        match parsed {
            Some((command, used)) => named_command(name@, args@) == Some((command@, used as int))
                && used <= args@.len(),
            None => named_command(name@, args@) is None,
        },
{
    if same_bytes(name, "download".as_bytes()) {
        let percent: bool = args.len() > 0 && args[0] == 37;
        return parse_download(args, percent);
    }
    if same_bytes(name, "donwload".as_bytes()) {
        return parse_download(args, false);
    }
    let len: usize = find_token_end(args);
    let arg = slice_subrange(args, 0, len);
    assert(arg@ =~= token(args@));
    if same_bytes(name, "WOpen".as_bytes()) {
        Some((ParsedCommand::WOpen, len))
    } else if same_bytes(name, "getvar".as_bytes()) {
        match utf8_text(arg) {
            Some(text) => {
                if arg.len() > 0 {
                    Some((ParsedCommand::GetVar(text.to_owned()), len))
                } else {
                    Some((ParsedCommand::Unsupported, len))
                }
            },
            None => Some((ParsedCommand::Unsupported, len)),
        }
    } else if same_bytes(name, "fetch".as_bytes()) {
        match parse_fetch(arg) {
            Some(command) => Some((command, len)),
            None => None,
        }
    } else if same_bytes(name, "flash".as_bytes()) {
        if same_bytes(arg, "update".as_bytes()) {
            Some((ParsedCommand::Flash(FlashTarget::Update), len))
        } else if same_bytes(arg, "swu".as_bytes()) {
            Some((ParsedCommand::Flash(FlashTarget::Swu), len))
        } else {
            Some((ParsedCommand::FlashUnknownPart, len))
        }
    } else {
        Some((ParsedCommand::Unsupported, len))
    }
}

/// Parses one command from the front of `data`, returning the command and the
/// bytes to remove from the stream. A download command consumes its fixed-size
/// header only, leaving any immediately following payload untouched.
pub fn parse_command(data: &[u8]) -> (parsed: Option<(ParsedCommand, usize)>)
    ensures
        match parsed {
            Some((command, consumed)) => command_at(data@) == Some((command@, consumed as int))
                && consumed <= data@.len(),
            None => command_at(data@) is None,
        },
{
    let start: usize = skip_padding(data);
    if start >= data.len() {
        return None;
    }
    let rest = slice_subrange(data, start, data.len());
    assert(rest@ =~= data@.skip(start as int));
    let colon: usize = find_colon(rest);
    if colon < rest.len() {
        let name = slice_subrange(rest, 0, colon);
        let args = slice_subrange(rest, colon + 1, rest.len());
        assert(name@ =~= rest@.take(colon as int));
        assert(args@ =~= rest@.skip(colon + 1));
        match parse_named(name, args) {
            Some((command, used)) => Some((command, start + colon + 1 + used)),
            None => None,
        }
    } else {
        let len: usize = find_token_end(rest);
        let word = slice_subrange(rest, 0, len);
        assert(word@ =~= token(rest@));
        let command = if same_bytes(word, "Close".as_bytes()) {
            ParsedCommand::Close
        } else {
            ParsedCommand::Unsupported
        };
        Some((command, start + len))
    }
}

/// The value of a device variable, where the device has it. `json_len` is the
/// length of the system information report.
pub open spec fn variable(
    name: Seq<char>,
    serial: Seq<char>,
    boot: BootRootfsInfo,
    json_len: nat,
) -> Option<Seq<u8>> {
    if name == "version"@ {
        Some("0.4".spec_bytes())
    } else if name == "max-download-size"@ {
        Some("400000000".spec_bytes())
    } else if name == "max-fetch-size"@ {
        Some("00010000".spec_bytes())
    } else if name == "product"@ {
        Some("summit-usbgadget".spec_bytes())
    } else if name == "serialno"@ {
        Some(encode_utf8(serial))
    } else if name == "is-userspace"@ {
        Some("yes".spec_bytes())
    } else if name == "current-slot"@ {
        match boot.side() {
            Some(side) => Some(encode_utf8(side)),
            None => None,
        }
    } else if name == "slot-num"@ {
        Some(
            if boot.single_slot() {
                "1".spec_bytes()
            } else {
                "2".spec_bytes()
            },
        )
    } else if name == "all"@ {
        Some("version:0.4".spec_bytes())
    } else if name == "has-slot:update"@ || name == "has-slot:swu"@ {
        Some("no".spec_bytes())
    } else if name == "is-logical:update"@ || name == "is-logical:swu"@ {
        Some("no".spec_bytes())
    } else if name == "partition-type:update"@ || name == "partition-type:swu"@ {
        Some("raw".spec_bytes())
    } else if name == "partition-size:update"@ || name == "partition-size:swu"@ {
        Some("400000000".spec_bytes())
    } else if name == "partition-size:sysinfo"@ || name == "partition-size:sysinfo.json"@ {
        Some(encode_utf8(hex_upper_8(json_len)))
    } else {
        None
    }
}

fn okay_reply(value: &str) -> (reply: Option<Vec<u8>>)
    ensures
        reply matches Some(r) && r@ == OKAY.spec_bytes() + value.spec_bytes(),
{
    let mut reply: Vec<u8> = Vec::new();
    reply.extend_from_slice(OKAY.as_bytes());
    reply.extend_from_slice(value.as_bytes());
    assert(reply@ =~= OKAY.spec_bytes() + value.spec_bytes());
    Some(reply)
}

/// Builds the reply for a fastboot `getvar:<name>` query, or `None` for
/// variables this device does not expose.
pub fn fastboot_getvar_reply(arg: &str, serial: &str, boot: &BootRootfsInfo, json_len: usize) -> (
    reply: Option<Vec<u8>>)
    ensures
        match variable(arg@, serial@, *boot, json_len as nat) {
            Some(value) => reply matches Some(r) && r@ == OKAY.spec_bytes() + value,
            None => reply is None,
        },
{
    if same_text(arg, "version") {
        okay_reply("0.4")
    } else if same_text(arg, "max-download-size") {
        okay_reply("400000000")
    } else if same_text(arg, "max-fetch-size") {
        okay_reply("00010000")
    } else if same_text(arg, "product") {
        okay_reply("summit-usbgadget")
    } else if same_text(arg, "serialno") {
        okay_reply(serial)
    } else if same_text(arg, "is-userspace") {
        okay_reply("yes")
    } else if same_text(arg, "current-slot") {
        match boot.current_side_option() {
            Some(side) => okay_reply(side),
            None => None,
        }
    } else if same_text(arg, "slot-num") {
        if boot.is_single_slot() {
            okay_reply("1")
        } else {
            okay_reply("2")
        }
    } else if same_text(arg, "all") {
        okay_reply("version:0.4")
    } else if same_text(arg, "has-slot:update") || same_text(arg, "has-slot:swu") {
        okay_reply("no")
    } else if same_text(arg, "is-logical:update") || same_text(arg, "is-logical:swu") {
        okay_reply("no")
    } else if same_text(arg, "partition-type:update") || same_text(arg, "partition-type:swu") {
        okay_reply("raw")
    } else if same_text(arg, "partition-size:update") || same_text(arg, "partition-size:swu") {
        okay_reply("400000000")
    } else if same_text(arg, "partition-size:sysinfo") || same_text(
        arg,
        "partition-size:sysinfo.json",
    ) {
        let size = hex_upper_8_text(json_len);
        okay_reply(size.as_str())
    } else {
        None
    }
}

/// The header that announces `len` bytes of data.
pub open spec fn data_header_text(len: nat) -> Seq<char> {
    "DATA"@ + hex_upper_8(len)
}

/// Formats the `DATA%08X` data-phase reply header for a payload of `len` bytes.
pub fn data_header(len: usize) -> (header: String)
    ensures
        header@ == data_header_text(len as nat),
{
    let digits = hex_upper_8_text(len);
    joined("DATA", digits.as_str())
}

// ---------------------------------------------------------------------------
// Laws
// ---------------------------------------------------------------------------

proof fn lemma_bounds(s: Seq<u8>)
    ensures
        0 <= padding_len(s) <= s.len(),
        0 <= token_len(s) <= s.len(),
        0 <= colon_at(s) <= s.len(),
    decreases s.len(),
{
    if s.len() > 0 {
        lemma_bounds(s.drop_first());
    }
}

/// A command never consumes more than there is, and never nothing.
pub proof fn law_consumed(data: Seq<u8>)
    ensures
        command_at(data) matches Some((_, consumed)) ==> 0 < consumed <= data.len(),
{
    lemma_bounds(data);
    let start = padding_len(data);
    if start < data.len() {
        let rest = data.skip(start);
        lemma_bounds(rest);
        let colon = colon_at(rest);
        if colon < rest.len() {
            lemma_bounds(rest.skip(colon + 1));
        } else {
            lemma_first_content(data);
            assert(!padding(rest[0]));
            lemma_bounds(rest.drop_first());
        }
    }
}

proof fn lemma_first_content(s: Seq<u8>)
    ensures
        padding_len(s) < s.len() ==> !padding(s[padding_len(s)]),
        0 <= padding_len(s) <= s.len(),
    decreases s.len(),
{
    if s.len() > 0 && padding(s[0]) {
        lemma_first_content(s.drop_first());
        let n = padding_len(s.drop_first());
        if n < s.drop_first().len() {
            assert(s.drop_first()[n] == s[n + 1]);
        }
    }
}

/// Padding in front of a command only adds to what it consumes.
pub proof fn law_padding_skipped(pad: u8, data: Seq<u8>)
    requires
        padding(pad),
    ensures
        match command_at(data) {
            Some((command, consumed)) => command_at(seq![pad] + data) == Some(
                (command, consumed + 1),
            ),
            None => command_at(seq![pad] + data) is None,
        },
{
    let padded = seq![pad] + data;
    assert(padded.drop_first() =~= data);
    assert(padding_len(padded) == 1 + padding_len(data));
    lemma_bounds(data);
    assert(padded.skip(1 + padding_len(data)) =~= data.skip(padding_len(data)));
}

/// A download command announces the size that the host wrote into it, and
/// leaves the payload, which may follow without a separator, in the stream.
pub proof fn law_download_header(len: nat, payload: Seq<u8>)
    requires
        len < 0x1_0000_0000,
    ensures
        ({
            let size = crate::numbers::ascii_bytes(hex_upper_8(len));
            &&& command_at("download:".spec_bytes() + size + payload) == Some(
                (Command::Download(len, DownloadKind::Plain), 17int),
            )
            &&& command_at("download:%".spec_bytes() + size + payload) == Some(
                (Command::Download(len, DownloadKind::Fastboot), 18int),
            )
        }),
{
    crate::numbers::law_hex_round_trip(len);
    let size = crate::numbers::ascii_bytes(hex_upper_8(len));
    reveal_strlit("download:");
    reveal_strlit("download:%");
    reveal_strlit("download");
    let word = "download".spec_bytes();
    is_ascii_chars_encode_utf8("download"@);
    is_ascii_chars_encode_utf8("download:"@);
    is_ascii_chars_encode_utf8("download:%"@);
    assert("download:".spec_bytes() =~= word + seq![58u8]);
    assert("download:%".spec_bytes() =~= word + seq![58u8, 37u8]);
    assert(word.len() == 8);
    assert forall|j: int| 0 <= j < 8 implies #[trigger] word[j] != 58 && !padding(word[j]) by {}
    let plain = "download:".spec_bytes() + size + payload;
    let fastboot = "download:%".spec_bytes() + size + payload;
    lemma_padding_len(plain, 0);
    lemma_padding_len(fastboot, 0);
    assert(plain.skip(0) =~= plain);
    assert(fastboot.skip(0) =~= fastboot);
    assert forall|j: int| 0 <= j < 8 implies #[trigger] plain[j] != 58 by {
        assert(plain[j] == word[j]);
    }
    assert forall|j: int| 0 <= j < 8 implies #[trigger] fastboot[j] != 58 by {
        assert(fastboot[j] == word[j]);
    }
    lemma_colon_at(plain, 8);
    lemma_colon_at(fastboot, 8);
    assert(plain.take(8) =~= word);
    assert(fastboot.take(8) =~= word);
    let args = plain.skip(9);
    assert(args =~= size + payload);
    assert(args.subrange(0, 8) =~= size);
    assert(args[0] != 37) by {
        if args[0] == 37 {
            assert(size[0] == 37);
            lemma_not_percent(size);
        }
    }
    let fast_args = fastboot.skip(9);
    assert(fast_args =~= seq![37u8] + size + payload);
    assert(fast_args.subrange(1, 9) =~= size);
}

/// A text that denotes a number does not start with a percent sign.
proof fn lemma_not_percent(s: Seq<u8>)
    requires
        s.len() > 0,
        unsigned_value(s, 16) is Some,
    ensures
        s[0] != 37,
{
    if s[0] == 37 {
        lemma_all_digits(s, 0);
    }
}

proof fn lemma_all_digits(s: Seq<u8>, i: int)
    requires
        0 <= i < s.len(),
        crate::numbers::digits_value(s, 16) is Some,
    ensures
        crate::numbers::digit_value(s[i], 16) is Some,
    decreases s.len(),
{
    if i < s.len() - 1 {
        lemma_all_digits(s.drop_last(), i);
    }
}

// ---------------------------------------------------------------------------
// Commands as they are written
// ---------------------------------------------------------------------------

/// No NUL, tab, line feed, form feed, carriage return or blank.
pub open spec fn unpadded(s: Seq<u8>) -> bool {
    forall|i: int|
        0 <= i < s.len() ==> #[trigger] s[i] != 0 && s[i] != 9 && s[i] != 10 && s[i] != 12 && s[i]
            != 13 && s[i] != 32
}

/// Nothing, or something that starts with a NUL, a tab, a line feed, a form feed,
/// a carriage return or a blank.
pub open spec fn ends_a_word(s: Seq<u8>) -> bool {
    s.len() > 0 ==> s[0] == 0 || s[0] == 9 || s[0] == 10 || s[0] == 12 || s[0] == 13 || s[0] == 32
}

/// No colon.
pub open spec fn without_colon(s: Seq<u8>) -> bool {
    forall|i: int| 0 <= i < s.len() ==> #[trigger] s[i] != 58
}

proof fn lemma_word_command(name: Seq<u8>, arg: Seq<u8>, rest: Seq<u8>)
    requires
        name.len() > 0 ==> unpadded(name.take(1)),
        without_colon(name),
        unpadded(arg),
        ends_a_word(rest),
    ensures
        token(arg + rest) == arg,
        token_len(arg + rest) == arg.len(),
        command_at(name + seq![58u8] + arg + rest) == (match named_command(name, arg + rest) {
            Some((command, used)) => Some((command, name.len() + 1 + used)),
            None => None,
        }),
{
    let data = name + seq![58u8] + arg + rest;
    let n = name.len() as int;
    if n > 0 {
        assert(data[0] == name[0]);
        assert(name.take(1)[0] == name[0]);
    } else {
        assert(data[0] == 58);
    }
    lemma_padding_len(data, 0);
    assert(data.skip(0) =~= data);
    assert forall|j: int| 0 <= j < n implies #[trigger] data[j] != 58 by {
        assert(data[j] == name[j]);
    }
    lemma_colon_at(data, n);
    assert(data.take(n) =~= name);
    assert(data.skip(n + 1) =~= arg + rest);
    let args = arg + rest;
    assert forall|j: int| 0 <= j < arg.len() implies !padding(#[trigger] args[j]) by {
        assert(args[j] == arg[j]);
    }
    lemma_token_len(args, arg.len() as int);
    assert(args.take(arg.len() as int) =~= arg);
}

/// The bytes of the names of the commands.
proof fn lemma_command_names()
    ensures
        "download".spec_bytes() == seq![100u8, 111, 119, 110, 108, 111, 97, 100],
        "donwload".spec_bytes() == seq![100u8, 111, 110, 119, 108, 111, 97, 100],
        "WOpen".spec_bytes() == seq![87u8, 79, 112, 101, 110],
        "getvar".spec_bytes() == seq![103u8, 101, 116, 118, 97, 114],
        "fetch".spec_bytes() == seq![102u8, 101, 116, 99, 104],
        "flash".spec_bytes() == seq![102u8, 108, 97, 115, 104],
        "Close".spec_bytes() == seq![67u8, 108, 111, 115, 101],
        "sysinfo".spec_bytes() == seq![115u8, 121, 115, 105, 110, 102, 111],
        "sysinfo.json".spec_bytes() == seq![
            115u8,
            121,
            115,
            105,
            110,
            102,
            111,
            46,
            106,
            115,
            111,
            110,
        ],
        "update".spec_bytes() == seq![117u8, 112, 100, 97, 116, 101],
        "swu".spec_bytes() == seq![115u8, 119, 117],
{
    reveal_strlit("download");
    reveal_strlit("donwload");
    reveal_strlit("WOpen");
    reveal_strlit("getvar");
    reveal_strlit("fetch");
    reveal_strlit("flash");
    reveal_strlit("Close");
    reveal_strlit("sysinfo");
    reveal_strlit("sysinfo.json");
    reveal_strlit("update");
    reveal_strlit("swu");
    is_ascii_chars_encode_utf8("download"@);
    is_ascii_chars_encode_utf8("donwload"@);
    is_ascii_chars_encode_utf8("WOpen"@);
    is_ascii_chars_encode_utf8("getvar"@);
    is_ascii_chars_encode_utf8("fetch"@);
    is_ascii_chars_encode_utf8("flash"@);
    is_ascii_chars_encode_utf8("Close"@);
    is_ascii_chars_encode_utf8("sysinfo"@);
    is_ascii_chars_encode_utf8("sysinfo.json"@);
    is_ascii_chars_encode_utf8("update"@);
    is_ascii_chars_encode_utf8("swu"@);
    assert("download".spec_bytes() =~= seq![100u8, 111, 119, 110, 108, 111, 97, 100]);
    assert("donwload".spec_bytes() =~= seq![100u8, 111, 110, 119, 108, 111, 97, 100]);
    assert("WOpen".spec_bytes() =~= seq![87u8, 79, 112, 101, 110]);
    assert("getvar".spec_bytes() =~= seq![103u8, 101, 116, 118, 97, 114]);
    assert("fetch".spec_bytes() =~= seq![102u8, 101, 116, 99, 104]);
    assert("flash".spec_bytes() =~= seq![102u8, 108, 97, 115, 104]);
    assert("Close".spec_bytes() =~= seq![67u8, 108, 111, 115, 101]);
    assert("sysinfo".spec_bytes() =~= seq![115u8, 121, 115, 105, 110, 102, 111]);
    assert("sysinfo.json".spec_bytes() =~= seq![
        115u8,
        121,
        115,
        105,
        110,
        102,
        111,
        46,
        106,
        115,
        111,
        110,
    ]);
    assert("update".spec_bytes() =~= seq![117u8, 112, 100, 97, 116, 101]);
    assert("swu".spec_bytes() =~= seq![115u8, 119, 117]);
}

/// The names of the commands differ, and none holds padding or a colon.
proof fn lemma_distinct_names()
    ensures
        "WOpen".spec_bytes() != "download".spec_bytes(),
        "WOpen".spec_bytes() != "donwload".spec_bytes(),
        "getvar".spec_bytes() != "download".spec_bytes(),
        "getvar".spec_bytes() != "donwload".spec_bytes(),
        "getvar".spec_bytes() != "WOpen".spec_bytes(),
        "fetch".spec_bytes() != "download".spec_bytes(),
        "fetch".spec_bytes() != "donwload".spec_bytes(),
        "fetch".spec_bytes() != "WOpen".spec_bytes(),
        "fetch".spec_bytes() != "getvar".spec_bytes(),
        "flash".spec_bytes() != "download".spec_bytes(),
        "flash".spec_bytes() != "donwload".spec_bytes(),
        "flash".spec_bytes() != "WOpen".spec_bytes(),
        "flash".spec_bytes() != "getvar".spec_bytes(),
        "flash".spec_bytes() != "fetch".spec_bytes(),
        "donwload".spec_bytes() != "download".spec_bytes(),
        unpadded("WOpen".spec_bytes().take(1)) && unpadded("getvar".spec_bytes().take(1)),
        unpadded("fetch".spec_bytes().take(1)) && unpadded("flash".spec_bytes().take(1)),
        unpadded("WOpen".spec_bytes()) && without_colon("WOpen".spec_bytes()),
        unpadded("getvar".spec_bytes()) && without_colon("getvar".spec_bytes()),
        unpadded("fetch".spec_bytes()) && without_colon("fetch".spec_bytes()),
        unpadded("flash".spec_bytes()) && without_colon("flash".spec_bytes()),
        unpadded("download".spec_bytes()) && without_colon("download".spec_bytes()),
        unpadded("donwload".spec_bytes()) && without_colon("donwload".spec_bytes()),
{
    lemma_command_names();
    assert("WOpen".spec_bytes()[0] == 87 && "fetch".spec_bytes()[0] == 102);
    assert("fetch".spec_bytes()[1] == 101 && "flash".spec_bytes()[1] == 108);
    assert("flash".spec_bytes()[0] == 102);
    assert("download".spec_bytes()[2] == 119 && "donwload".spec_bytes()[2] == 110);
    assert("getvar".spec_bytes().len() == 6 && "download".spec_bytes().len() == 8);
}

proof fn lemma_fetch_part(part: Seq<u8>, t: Seq<u8>)
    requires
        without_colon(part),
        valid_utf8(part),
        valid_utf8(t),
    ensures
        valid_utf8(part + seq![58u8] + t),
        (part + seq![58u8] + t).take(colon_at(part + seq![58u8] + t)) == part,
        part.take(colon_at(part)) == part,
{
    reveal_strlit(":");
    is_ascii_chars_encode_utf8(":"@);
    assert(encode_utf8(":"@) =~= seq![58u8]);
    vstd::utf8::encode_utf8_valid_utf8(":"@);
    vstd::utf8::valid_utf8_concat(part, seq![58u8]);
    vstd::utf8::valid_utf8_concat(part + seq![58u8], t);
    let arg = part + seq![58u8] + t;
    let n = part.len() as int;
    assert forall|j: int| 0 <= j < n implies #[trigger] arg[j] != 58 by {
        assert(arg[j] == part[j]);
    }
    lemma_colon_at(arg, n);
    lemma_colon_at(part, n);
    assert(arg.take(n) =~= part);
    assert(part.take(n) =~= part);
}

/// The system information is fetched by its name alone, and by its name with
/// anything behind a further colon: what stands there is passed over.
pub proof fn law_fetch_sysinfo(
    t: Seq<u8>,
    rest: Seq<u8>,
    short: &[u8],
    long: &[u8],
    plain: Option<(ParsedCommand, usize)>,
    detailed: Option<(ParsedCommand, usize)>,
)
    requires
        unpadded(t),
        valid_utf8(t),
        ends_a_word(rest),
        short@ == "fetch".spec_bytes() + seq![58u8] + "sysinfo".spec_bytes() + rest,
        long@ == "fetch".spec_bytes() + seq![58u8] + ("sysinfo".spec_bytes() + seq![58u8] + t)
            + rest,
        call_ensures(parse_command, (short,), plain),
        call_ensures(parse_command, (long,), detailed),
    ensures
        plain matches Some((command, used)) && command == ParsedCommand::Fetch(FetchTarget::Sysinfo)
            && used == 13,
        detailed matches Some((command, used)) && command == ParsedCommand::Fetch(
            FetchTarget::Sysinfo,
        ) && used == 14 + t.len(),
{
    lemma_command_names();
    lemma_distinct_names();
    let part = "sysinfo".spec_bytes();
    vstd::utf8::encode_utf8_valid_utf8("sysinfo"@);
    lemma_fetch_part(part, t);
    lemma_word_command("fetch".spec_bytes(), part, rest);
    lemma_word_command("fetch".spec_bytes(), part + seq![58u8] + t, rest);
}

/// So is the report for programs.
pub proof fn law_fetch_sysinfo_json(
    t: Seq<u8>,
    rest: Seq<u8>,
    short: &[u8],
    long: &[u8],
    plain: Option<(ParsedCommand, usize)>,
    detailed: Option<(ParsedCommand, usize)>,
)
    requires
        unpadded(t),
        valid_utf8(t),
        ends_a_word(rest),
        short@ == "fetch".spec_bytes() + seq![58u8] + "sysinfo.json".spec_bytes() + rest,
        long@ == "fetch".spec_bytes() + seq![58u8] + ("sysinfo.json".spec_bytes() + seq![58u8] + t)
            + rest,
        call_ensures(parse_command, (short,), plain),
        call_ensures(parse_command, (long,), detailed),
    ensures
        plain matches Some((command, used)) && command == ParsedCommand::Fetch(
            FetchTarget::SysinfoJson,
        ) && used == 18,
        detailed matches Some((command, used)) && command == ParsedCommand::Fetch(
            FetchTarget::SysinfoJson,
        ) && used == 19 + t.len(),
{
    lemma_command_names();
    lemma_distinct_names();
    let part = "sysinfo.json".spec_bytes();
    assert(part.len() != "sysinfo".spec_bytes().len());
    vstd::utf8::encode_utf8_valid_utf8("sysinfo.json"@);
    lemma_fetch_part(part, t);
    lemma_word_command("fetch".spec_bytes(), part, rest);
    lemma_word_command("fetch".spec_bytes(), part + seq![58u8] + t, rest);
}

/// Anything else that is text is a partition that does not exist, with or without
/// a further colon; what is no text is no command.
pub proof fn law_fetch_other(
    part: Seq<u8>,
    t: Seq<u8>,
    rest: Seq<u8>,
    short: &[u8],
    long: &[u8],
    plain: Option<(ParsedCommand, usize)>,
    detailed: Option<(ParsedCommand, usize)>,
)
    requires
        unpadded(part),
        without_colon(part),
        part != "sysinfo".spec_bytes(),
        part != "sysinfo.json".spec_bytes(),
        unpadded(t),
        valid_utf8(t),
        ends_a_word(rest),
        short@ == "fetch".spec_bytes() + seq![58u8] + part + rest,
        long@ == "fetch".spec_bytes() + seq![58u8] + (part + seq![58u8] + t) + rest,
        call_ensures(parse_command, (short,), plain),
        call_ensures(parse_command, (long,), detailed),
    ensures
        valid_utf8(part) ==> (plain matches Some((command, used)) && command
            == ParsedCommand::FetchUnknownPart && used == 6 + part.len()),
        valid_utf8(part) ==> (detailed matches Some((command, used)) && command
            == ParsedCommand::FetchUnknownPart && used == 7 + part.len() + t.len()),
        !valid_utf8(part) ==> plain is None,
{
    lemma_command_names();
    lemma_distinct_names();
    if valid_utf8(part) {
        lemma_fetch_part(part, t);
    }
    lemma_word_command("fetch".spec_bytes(), part, rest);
    lemma_word_command("fetch".spec_bytes(), part + seq![58u8] + t, rest);
}

/// Two partitions can be flashed, `update` and `swu`; no other one exists.
pub proof fn law_flash(
    arg: Seq<u8>,
    rest: Seq<u8>,
    data: &[u8],
    parsed: Option<(ParsedCommand, usize)>,
)
    requires
        unpadded(arg),
        ends_a_word(rest),
        data@ == "flash".spec_bytes() + seq![58u8] + arg + rest,
        call_ensures(parse_command, (data,), parsed),
    ensures
        parsed matches Some((command, used)) && used == 6 + arg.len(),
        arg == "update".spec_bytes() ==> (parsed->0).0 == ParsedCommand::Flash(FlashTarget::Update),
        arg == "swu".spec_bytes() ==> (parsed->0).0 == ParsedCommand::Flash(FlashTarget::Swu),
        arg != "update".spec_bytes() && arg != "swu".spec_bytes() ==> (parsed->0).0
            == ParsedCommand::FlashUnknownPart,
{
    lemma_command_names();
    lemma_distinct_names();
    assert("update".spec_bytes().len() != "swu".spec_bytes().len());
    lemma_word_command("flash".spec_bytes(), arg, rest);
}

/// A variable is asked for by its name, whatever it is; without one, or where it
/// is no text, the command is not implemented.
pub proof fn law_getvar(
    arg: Seq<u8>,
    rest: Seq<u8>,
    data: &[u8],
    parsed: Option<(ParsedCommand, usize)>,
)
    requires
        unpadded(arg),
        ends_a_word(rest),
        data@ == "getvar".spec_bytes() + seq![58u8] + arg + rest,
        call_ensures(parse_command, (data,), parsed),
    ensures
        parsed matches Some((command, used)) && used == 7 + arg.len(),
        arg.len() > 0 && valid_utf8(arg) ==> ((parsed->0).0 matches ParsedCommand::GetVar(name)
            && encode_utf8(name@) == arg),
        arg.len() == 0 || !valid_utf8(arg) ==> (parsed->0).0 == ParsedCommand::Unsupported,
{
    lemma_command_names();
    lemma_distinct_names();
    lemma_word_command("getvar".spec_bytes(), arg, rest);
    if valid_utf8(arg) {
        vstd::utf8::decode_utf8_encode_utf8(arg);
    }
}

/// A session is opened whatever stands behind the command's name.
pub proof fn law_wopen(
    arg: Seq<u8>,
    rest: Seq<u8>,
    data: &[u8],
    parsed: Option<(ParsedCommand, usize)>,
)
    requires
        unpadded(arg),
        ends_a_word(rest),
        data@ == "WOpen".spec_bytes() + seq![58u8] + arg + rest,
        call_ensures(parse_command, (data,), parsed),
    ensures
        parsed matches Some((command, used)) && command == ParsedCommand::WOpen && used == 6
            + arg.len(),
{
    lemma_command_names();
    lemma_distinct_names();
    lemma_word_command("WOpen".spec_bytes(), arg, rest);
}

/// A command of another name, which may be empty and hold blanks but not start with
/// one, is taken out of the stream and not implemented.
pub proof fn law_unknown_command(
    name: Seq<u8>,
    arg: Seq<u8>,
    rest: Seq<u8>,
    data: &[u8],
    parsed: Option<(ParsedCommand, usize)>,
)
    requires
        name.len() > 0 ==> unpadded(name.take(1)),
        without_colon(name),
        name != "download".spec_bytes(),
        name != "donwload".spec_bytes(),
        name != "WOpen".spec_bytes(),
        name != "getvar".spec_bytes(),
        name != "fetch".spec_bytes(),
        name != "flash".spec_bytes(),
        unpadded(arg),
        ends_a_word(rest),
        data@ == name + seq![58u8] + arg + rest,
        call_ensures(parse_command, (data,), parsed),
    ensures
        parsed matches Some((command, used)) && command == ParsedCommand::Unsupported && used
            == name.len() + 1 + arg.len(),
{
    lemma_word_command(name, arg, rest);
}

/// Without a colon there is one command, `Close`; any other word is not
/// implemented. Where nothing but padding is left there is no command.
pub proof fn law_bare_word(
    word: Seq<u8>,
    rest: Seq<u8>,
    data: &[u8],
    parsed: Option<(ParsedCommand, usize)>,
)
    requires
        unpadded(word),
        without_colon(word),
        without_colon(rest),
        ends_a_word(rest),
        data@ == word + rest,
        call_ensures(parse_command, (data,), parsed),
    ensures
        word == "Close".spec_bytes() ==> (parsed matches Some((command, used)) && command
            == ParsedCommand::Close && used == 5),
        word.len() > 0 && word != "Close".spec_bytes() ==> (parsed matches Some((command, used))
            && command == ParsedCommand::Unsupported && used == word.len()),
        word.len() == 0 && (forall|i: int|
            0 <= i < rest.len() ==> #[trigger] rest[i] == 0 || rest[i] == 9 || rest[i] == 10
                || rest[i] == 12 || rest[i] == 13 || rest[i] == 32) ==> parsed is None,
{
    lemma_command_names();
    let all = data@;
    let n = word.len() as int;
    if n > 0 {
        assert(all[0] == word[0]);
        lemma_padding_len(all, 0);
        assert(all.skip(0) =~= all);
        assert forall|j: int| 0 <= j < all.len() implies #[trigger] all[j] != 58 by {
            if j < n {
                assert(all[j] == word[j]);
            } else {
                assert(all[j] == rest[j - n]);
            }
        }
        lemma_colon_at(all, all.len() as int);
        assert forall|j: int| 0 <= j < n implies !padding(#[trigger] all[j]) by {
            assert(all[j] == word[j]);
        }
        lemma_token_len(all, n);
        assert(all.take(n) =~= word);
        assert("Close".spec_bytes().len() == 5);
    } else {
        assert("Close".spec_bytes().len() == 5);
        assert(all =~= rest);
        if forall|i: int|
            0 <= i < rest.len() ==> #[trigger] rest[i] == 0 || rest[i] == 9 || rest[i] == 10
                || rest[i] == 12 || rest[i] == 13 || rest[i] == 32 {
            assert forall|j: int| 0 <= j < all.len() implies padding(#[trigger] all[j]) by {}
            lemma_padding_len(all, all.len() as int);
        }
    }
}

proof fn lemma_download_command(name: Seq<u8>, args: Seq<u8>)
    requires
        name.len() > 0,
        unpadded(name),
        without_colon(name),
    ensures
        command_at(name + seq![58u8] + args) == (match named_command(name, args) {
            Some((command, used)) => Some((command, name.len() + 1 + used)),
            None => None,
        }),
{
    let data = name + seq![58u8] + args;
    let n = name.len() as int;
    assert(data[0] == name[0]);
    lemma_padding_len(data, 0);
    assert(data.skip(0) =~= data);
    assert forall|j: int| 0 <= j < n implies #[trigger] data[j] != 58 by {
        assert(data[j] == name[j]);
    }
    lemma_colon_at(data, n);
    assert(data.take(n) =~= name);
    assert(data.skip(n + 1) =~= args);
}

proof fn lemma_plain_download(name: Seq<u8>, size: Seq<u8>, payload: Seq<u8>)
    requires
        name == "download".spec_bytes() || name == "donwload".spec_bytes(),
        size.len() == 8,
        size[0] != 37,
    ensures
        command_at(name + seq![58u8] + (size + payload)) == (match unsigned_value(size, 16) {
            Some(len) => Some((Command::Download(len, DownloadKind::Plain), 17int)),
            None => None,
        }),
{
    lemma_command_names();
    lemma_distinct_names();
    lemma_download_command(name, size + payload);
    assert((size + payload).subrange(0, 8) =~= size);
}

proof fn lemma_fastboot_download(size: Seq<u8>, payload: Seq<u8>)
    requires
        size.len() == 8,
    ensures
        command_at("download".spec_bytes() + seq![58u8] + (seq![37u8] + size + payload)) == (
        match unsigned_value(size, 16) {
            Some(len) => Some((Command::Download(len, DownloadKind::Fastboot), 18int)),
            None => None,
        }),
{
    lemma_command_names();
    lemma_distinct_names();
    let args = seq![37u8] + size + payload;
    lemma_download_command("download".spec_bytes(), args);
    assert(args[0] == 37);
    assert(args.subrange(1, 9) =~= size);
}

proof fn lemma_announced_size(size: Seq<u8>)
    requires
        size.len() == 8,
    ensures
        unsigned_value(size, 16) matches Some(v) ==> v < 0x1_0000_0000,
{
    let digits = if size[0] == 43 {
        size.drop_first()
    } else {
        size
    };
    lemma_size_bound(digits);
    reveal_with_fuel(crate::numbers::pow16, 9);
}

/// A download command announces what its eight digits denote; a percent sign in
/// front of them makes it a fastboot one. What follows the digits, padding or
/// not, stays in the stream. Without eight digits it is no command.
pub proof fn law_download(
    size: &[u8],
    payload: Seq<u8>,
    plain: &[u8],
    misspelt: &[u8],
    fastboot: &[u8],
    value: Option<u64>,
    of_plain: Option<(ParsedCommand, usize)>,
    of_misspelt: Option<(ParsedCommand, usize)>,
    of_fastboot: Option<(ParsedCommand, usize)>,
)
    requires
        size@.len() == 8,
        size@[0] != 37,
        call_ensures(parse_unsigned, (size, 16u64), value),
        plain@ == "download".spec_bytes() + seq![58u8] + (size@ + payload),
        misspelt@ == "donwload".spec_bytes() + seq![58u8] + (size@ + payload),
        fastboot@ == "download".spec_bytes() + seq![58u8] + (seq![37u8] + size@ + payload),
        call_ensures(parse_command, (plain,), of_plain),
        call_ensures(parse_command, (misspelt,), of_misspelt),
        call_ensures(parse_command, (fastboot,), of_fastboot),
    ensures
        match value {
            Some(n) => {
                &&& of_plain matches Some((command, used)) && used == 17 && (
                command matches ParsedCommand::Download { len, kind } && len == n && kind
                    == DownloadKind::Plain)
                &&& of_misspelt matches Some((command, used)) && used == 17 && (
                command matches ParsedCommand::Download { len, kind } && len == n && kind
                    == DownloadKind::Plain)
                &&& of_fastboot matches Some((command, used)) && used == 18 && (
                command matches ParsedCommand::Download { len, kind } && len == n && kind
                    == DownloadKind::Fastboot)
            },
            None => of_plain is None && of_misspelt is None && of_fastboot is None,
        },
{
    lemma_plain_download("download".spec_bytes(), size@, payload);
    lemma_plain_download("donwload".spec_bytes(), size@, payload);
    lemma_fastboot_download(size@, payload);
    lemma_announced_size(size@);
}

/// A download command that is cut off before its eight digits are there is no
/// command yet.
pub proof fn law_short_download(args: Seq<u8>, data: &[u8], parsed: Option<(ParsedCommand, usize)>)
    requires
        args.len() < 8 || (args.len() == 8 && args[0] == 37),
        data@ == "download".spec_bytes() + seq![58u8] + args,
        call_ensures(parse_command, (data,), parsed),
    ensures
        parsed is None,
{
    lemma_command_names();
    lemma_distinct_names();
    lemma_download_command("download".spec_bytes(), args);
}

/// The header of a data phase is `DATA` and eight upper-case hexadecimal digits of
/// its length, the most significant one first.
pub proof fn law_data_header(len: usize, header: String, k: nat)
    requires
        len < 0x1_0000_0000,
        k < 8,
        call_ensures(data_header, (len,), header),
    ensures
        header@.len() == 12,
        header@[0] == 'D' && header@[1] == 'A' && header@[2] == 'T' && header@[3] == 'A',
        ({
            let d = len as int / crate::numbers::pow16(k) as int % 16;
            &&& d < 10 ==> header@[11 - k] as int == '0' as int + d
            &&& d >= 10 ==> header@[11 - k] as int == 'A' as int + (d - 10)
        }),
{
    reveal_strlit("DATA");
    crate::numbers::law_upper_hex_digits(len as nat, k);
    assert(header@[11 - k] == hex_upper_8(len as nat)[7 - k]);
}

/// The names of the variables differ.
proof fn lemma_variable_names()
    ensures
        "version"@.len() == 7 && "version"@[0] == 'v',
        "max-download-size"@.len() == 17 && "max-download-size"@[0] == 'm',
        "max-fetch-size"@.len() == 14 && "max-fetch-size"@[0] == 'm',
        "product"@.len() == 7 && "product"@[0] == 'p',
        "serialno"@.len() == 8 && "serialno"@[1] == 'e',
        "is-userspace"@.len() == 12 && "is-userspace"@[0] == 'i',
        "current-slot"@.len() == 12 && "current-slot"@[0] == 'c',
        "slot-num"@.len() == 8 && "slot-num"@[1] == 'l',
        "all"@.len() == 3,
        "has-slot:update"@.len() == 15,
        "has-slot:swu"@.len() == 12 && "has-slot:swu"@[0] == 'h',
        "is-logical:update"@.len() == 17 && "is-logical:update"@[0] == 'i',
        "is-logical:swu"@.len() == 14 && "is-logical:swu"@[0] == 'i',
        "partition-type:update"@.len() == 21 && "partition-type:update"@[10] == 't',
        "partition-type:swu"@.len() == 18 && "partition-type:swu"@[10] == 't',
        "partition-size:update"@.len() == 21 && "partition-size:update"@[10] == 's',
        "partition-size:swu"@.len() == 18 && "partition-size:swu"@[10] == 's',
        "partition-size:sysinfo"@.len() == 22,
        "partition-size:sysinfo.json"@.len() == 27,
{
    reveal_strlit("version");
    reveal_strlit("max-download-size");
    reveal_strlit("max-fetch-size");
    reveal_strlit("product");
    reveal_strlit("serialno");
    reveal_strlit("is-userspace");
    reveal_strlit("current-slot");
    reveal_strlit("slot-num");
    reveal_strlit("all");
    reveal_strlit("has-slot:update");
    reveal_strlit("has-slot:swu");
    reveal_strlit("is-logical:update");
    reveal_strlit("is-logical:swu");
    reveal_strlit("partition-type:update");
    reveal_strlit("partition-type:swu");
    reveal_strlit("partition-size:update");
    reveal_strlit("partition-size:swu");
    reveal_strlit("partition-size:sysinfo");
    reveal_strlit("partition-size:sysinfo.json");
}

/// What the device says of its variables: each answer is `OKAY` and the value.
pub proof fn law_variables(
    arg: &str,
    serial: &str,
    boot: BootRootfsInfo,
    json_len: usize,
    reply: Option<Vec<u8>>,
)
    requires
        call_ensures(fastboot_getvar_reply, (arg, serial, &boot, json_len), reply),
    ensures
        arg@ == "version"@ ==> (reply matches Some(r) && r@ == "OKAY".spec_bytes()
            + "0.4".spec_bytes()),
        arg@ == "max-download-size"@ ==> (reply matches Some(r) && r@ == "OKAY".spec_bytes()
            + "400000000".spec_bytes()),
        arg@ == "max-fetch-size"@ ==> (reply matches Some(r) && r@ == "OKAY".spec_bytes()
            + "00010000".spec_bytes()),
        arg@ == "product"@ ==> (reply matches Some(r) && r@ == "OKAY".spec_bytes()
            + "summit-usbgadget".spec_bytes()),
        arg@ == "serialno"@ ==> (reply matches Some(r) && r@ == "OKAY".spec_bytes() + encode_utf8(
            serial@,
        )),
        arg@ == "is-userspace"@ ==> (reply matches Some(r) && r@ == "OKAY".spec_bytes()
            + "yes".spec_bytes()),
        arg@ == "slot-num"@ ==> (reply matches Some(r) && r@ == "OKAY".spec_bytes() + (
        if boot.single_slot() {
            "1".spec_bytes()
        } else {
            "2".spec_bytes()
        })),
        arg@ == "current-slot"@ ==> (reply is Some <==> boot.side() is Some) && (
        reply matches Some(r) ==> r@ == "OKAY".spec_bytes() + encode_utf8(boot.side()->0)),
        arg@ == "all"@ ==> (reply matches Some(r) && r@ == "OKAY".spec_bytes()
            + "version:0.4".spec_bytes()),
        arg@ == "has-slot:update"@ || arg@ == "has-slot:swu"@ || arg@ == "is-logical:update"@
            || arg@ == "is-logical:swu"@ ==> (reply matches Some(r) && r@ == "OKAY".spec_bytes()
            + "no".spec_bytes()),
        arg@ == "partition-type:update"@ || arg@ == "partition-type:swu"@ ==> (
        reply matches Some(r) && r@ == "OKAY".spec_bytes() + "raw".spec_bytes()),
        arg@ == "partition-size:update"@ || arg@ == "partition-size:swu"@ ==> (
        reply matches Some(r) && r@ == "OKAY".spec_bytes() + "400000000".spec_bytes()),
        arg@ == "partition-size:sysinfo"@ || arg@ == "partition-size:sysinfo.json"@ ==> (
        reply matches Some(r) && r@ == "OKAY".spec_bytes() + encode_utf8(
            hex_upper_8(json_len as nat),
        )),
{
    lemma_variable_names();
}

/// The device has no other variables.
pub proof fn law_no_other_variables(
    arg: &str,
    serial: &str,
    boot: BootRootfsInfo,
    json_len: usize,
    reply: Option<Vec<u8>>,
)
    requires
        call_ensures(fastboot_getvar_reply, (arg, serial, &boot, json_len), reply),
        arg@ != "version"@ && arg@ != "max-download-size"@ && arg@ != "max-fetch-size"@ && arg@
            != "product"@ && arg@ != "serialno"@ && arg@ != "is-userspace"@ && arg@
            != "current-slot"@ && arg@ != "slot-num"@ && arg@ != "all"@,
        arg@ != "has-slot:update"@ && arg@ != "has-slot:swu"@ && arg@ != "is-logical:update"@
            && arg@ != "is-logical:swu"@,
        arg@ != "partition-type:update"@ && arg@ != "partition-type:swu"@ && arg@
            != "partition-size:update"@ && arg@ != "partition-size:swu"@,
        arg@ != "partition-size:sysinfo"@ && arg@ != "partition-size:sysinfo.json"@,
    ensures
        reply is None,
{
}

/// A NUL, a tab, a line feed, a form feed, a carriage return and a blank in front of
/// a command only add to what is taken out of the stream.
pub proof fn law_leading_padding(
    pad: u8,
    data: &[u8],
    padded: &[u8],
    plain: Option<(ParsedCommand, usize)>,
    parsed: Option<(ParsedCommand, usize)>,
)
    requires
        pad == 0 || pad == 9 || pad == 10 || pad == 12 || pad == 13 || pad == 32,
        padded@ == seq![pad] + data@,
        call_ensures(parse_command, (data,), plain),
        call_ensures(parse_command, (padded,), parsed),
    ensures
        plain is Some <==> parsed is Some,
        plain matches Some((command, used)) ==> (parsed matches Some((same, more)) && same@
            == command@ && more == used + 1),
{
    law_padding_skipped(pad, data@);
}

} // verus!
