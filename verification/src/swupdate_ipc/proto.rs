//! Frames of the SWUpdate IPC interface.
//!
//! The daemon reads and writes C structures over Unix domain sockets. Frames
//! are held here as their fields, and their bytes follow the layout that those
//! structures have on little-endian machines with the word size of this one.

use vstd::prelude::*;
use vstd::slice::slice_subrange;
use vstd::string::StringSliceAdditionalSpecFns;

use crate::swupdate_ipc::error::Error;
use crate::text::{lossy_text, same_bytes, same_text, utf8_lossy};
use crate::wire::{
    from_word, le32, le32_at, le64, le64_at, push_le32, push_le64, read_le32, read_le64, signed_of,
    to_word, word_of,
};

verus! {

/// Magic number stamped on every control-socket frame.
pub const IPC_MAGIC: i32 = 0x1405_2001;

/// Version of the install request structure understood by this client.
pub const SWUPDATE_API_VERSION: u32 = 1;

/// Major version of the progress protocol.
pub const PROGRESS_API_MAJOR: u32 = 2;

/// Minor version of the progress protocol.
pub const PROGRESS_API_MINOR: u32 = 0;

/// Patch version of the progress protocol.
pub const PROGRESS_API_PATCH: u32 = 0;

/// Combined progress API version word sent in every progress frame.
pub const PROGRESS_API_VERSION: u32 = 0x0002_0000;

/// Magic string carried in the progress connect acknowledgement.
pub const PROGRESS_CONNECT_ACK_MAGIC: &'static str = "ACK";

/// Bytes of a machine word, to which a C structure with a `size_t` in it is
/// aligned.
pub const WORD_LEN: usize = usize::BITS as usize / 8;

/// Where the fixed-size fields of an install request start: three numbers and a
/// length of one word, which is aligned, stand before them.
pub const REQUEST_INFO_AT: usize = 8 + 2 * WORD_LEN;

/// Bytes of an install request: its flag takes up a word.
pub const SWUPDATE_REQUEST_LEN: usize = REQUEST_INFO_AT + 1024 + WORD_LEN;

/// Bytes of the payload of a control-socket frame: an install request, and a
/// number and a buffer behind it, is the largest one.
pub const MSG_DATA_LEN: usize = SWUPDATE_REQUEST_LEN + 2048 + WORD_LEN;

/// Bytes of a control-socket frame.
pub const IPC_MESSAGE_LEN: usize = MSG_DATA_LEN + 8;

/// Bytes of a progress frame without padding.
pub const PROGRESS_MSG_LEN: usize = 2408;

/// Bytes of a progress frame with padding.
pub const UNPACKED_PROGRESS_MSG_LEN: usize = 2416;

/// Bytes of a progress connect acknowledgement.
pub const PROGRESS_CONNECT_ACK_LEN: usize = 8;

/// Message types exchanged on the control socket.
#[allow(non_camel_case_types)]
#[derive(Debug, Clone, Copy, PartialEq, Eq, Structural)]
pub enum MsgType {
    /// Request to install an image.
    REQ_INSTALL,
    /// Positive acknowledgement.
    ACK,
    /// Negative acknowledgement.
    NACK,
    /// Query the current installer status.
    GET_STATUS,
    /// Run a post-update action.
    POST_UPDATE,
    /// Forward a command to a SWUpdate subprocess.
    SWUPDATE_SUBPROCESS,
    /// Set the AES decryption key.
    SET_AES_KEY,
    /// Set the bootloader update state.
    SET_UPDATE_STATE,
    /// Get the bootloader update state.
    GET_UPDATE_STATE,
    /// Extended install request.
    REQ_INSTALL_EXT,
    /// Set the accepted version range.
    SET_VERSIONS_RANGE,
    /// Open a notification stream.
    NOTIFY_STREAM,
    /// Get the hardware revision.
    GET_HW_REVISION,
    /// Set SWUpdate variables.
    SET_SWUPDATE_VARS,
    /// Get SWUpdate variables.
    GET_SWUPDATE_VARS,
    /// Restart the system.
    SYSRESTART,
}

impl MsgType {
    /// The number that stands for this type on the wire.
    pub open spec fn spec_code(self) -> i32 {
        match self {
            MsgType::REQ_INSTALL => 0,
            MsgType::ACK => 1,
            MsgType::NACK => 2,
            MsgType::GET_STATUS => 3,
            MsgType::POST_UPDATE => 4,
            MsgType::SWUPDATE_SUBPROCESS => 5,
            MsgType::SET_AES_KEY => 6,
            MsgType::SET_UPDATE_STATE => 7,
            MsgType::GET_UPDATE_STATE => 8,
            MsgType::REQ_INSTALL_EXT => 9,
            MsgType::SET_VERSIONS_RANGE => 10,
            MsgType::NOTIFY_STREAM => 11,
            MsgType::GET_HW_REVISION => 12,
            MsgType::SET_SWUPDATE_VARS => 13,
            MsgType::GET_SWUPDATE_VARS => 14,
            MsgType::SYSRESTART => 15,
        }
    }

    /// The number that stands for this type on the wire.
    pub fn code(self) -> (n: i32)
        ensures
            n == self.spec_code(),
    {
        match self {
            MsgType::REQ_INSTALL => 0,
            MsgType::ACK => 1,
            MsgType::NACK => 2,
            MsgType::GET_STATUS => 3,
            MsgType::POST_UPDATE => 4,
            MsgType::SWUPDATE_SUBPROCESS => 5,
            MsgType::SET_AES_KEY => 6,
            MsgType::SET_UPDATE_STATE => 7,
            MsgType::GET_UPDATE_STATE => 8,
            MsgType::REQ_INSTALL_EXT => 9,
            MsgType::SET_VERSIONS_RANGE => 10,
            MsgType::NOTIFY_STREAM => 11,
            MsgType::GET_HW_REVISION => 12,
            MsgType::SET_SWUPDATE_VARS => 13,
            MsgType::GET_SWUPDATE_VARS => 14,
            MsgType::SYSRESTART => 15,
        }
    }
}

/// Commands forwarded to a SWUpdate subprocess.
#[derive(Debug, Clone, Copy, PartialEq, Eq, Structural)]
pub enum SubprocessCmd {
    /// Query whether software can be activated.
    Activation,
    /// Configure the subprocess.
    Config,
    /// Enable or disable suricatta mode.
    Enable,
    /// Query subprocess status.
    GetStatus,
    /// Set the download URL.
    SetDownloadUrl,
}

/// Dry-run selector used by an install request.
#[allow(non_camel_case_types)]
#[derive(Debug, Clone, Copy, PartialEq, Eq, Structural)]
pub enum RunType {
    /// Use the daemon's command-line default.
    RUN_DEFAULT,
    /// Validate the image without writing it.
    RUN_DRYRUN,
    /// Perform a real installation.
    RUN_INSTALL,
}

impl RunType {
    /// The number that stands for this selector on the wire.
    pub open spec fn spec_code(self) -> i32 {
        match self {
            RunType::RUN_DEFAULT => 0,
            RunType::RUN_DRYRUN => 1,
            RunType::RUN_INSTALL => 2,
        }
    }

    /// The number that stands for this selector on the wire.
    pub fn code(self) -> (n: i32)
        ensures
            n == self.spec_code(),
    {
        match self {
            RunType::RUN_DEFAULT => 0,
            RunType::RUN_DRYRUN => 1,
            RunType::RUN_INSTALL => 2,
        }
    }
}

/// Interface that triggered an update.
#[allow(non_camel_case_types)]
#[derive(Debug, Clone, Copy, PartialEq, Eq, Structural)]
pub enum SourceType {
    /// Unknown source.
    SOURCE_UNKNOWN,
    /// Integrated web server.
    SOURCE_WEBSERVER,
    /// Suricatta (hawkBit) client.
    SOURCE_SURICATTA,
    /// Generic downloader.
    SOURCE_DOWNLOADER,
    /// Local installation.
    SOURCE_LOCAL,
    /// Chunked downloader.
    SOURCE_CHUNKS_DOWNLOADER,
}

impl SourceType {
    /// The number that stands for this source on the wire.
    pub open spec fn spec_code(self) -> i32 {
        match self {
            SourceType::SOURCE_UNKNOWN => 0,
            SourceType::SOURCE_WEBSERVER => 1,
            SourceType::SOURCE_SURICATTA => 2,
            SourceType::SOURCE_DOWNLOADER => 3,
            SourceType::SOURCE_LOCAL => 4,
            SourceType::SOURCE_CHUNKS_DOWNLOADER => 5,
        }
    }

    /// The number that stands for this source on the wire.
    pub fn code(self) -> (n: i32)
        ensures
            n == self.spec_code(),
    {
        match self {
            SourceType::SOURCE_UNKNOWN => 0,
            SourceType::SOURCE_WEBSERVER => 1,
            SourceType::SOURCE_SURICATTA => 2,
            SourceType::SOURCE_DOWNLOADER => 3,
            SourceType::SOURCE_LOCAL => 4,
            SourceType::SOURCE_CHUNKS_DOWNLOADER => 5,
        }
    }

    /// The source that a number stands for; the number itself where it stands
    /// for none.
    pub fn try_from_code(value: i32) -> (source: Result<SourceType, i32>)
        ensures
            source matches Ok(s) ==> s.spec_code() == value,
            source matches Err(v) ==> v == value && !(0 <= value <= 5),
    {
        match value {
            0 => Ok(SourceType::SOURCE_UNKNOWN),
            1 => Ok(SourceType::SOURCE_WEBSERVER),
            2 => Ok(SourceType::SOURCE_SURICATTA),
            3 => Ok(SourceType::SOURCE_DOWNLOADER),
            4 => Ok(SourceType::SOURCE_LOCAL),
            5 => Ok(SourceType::SOURCE_CHUNKS_DOWNLOADER),
            other => Err(other),
        }
    }
}

/// Installer status reported by the daemon.
#[derive(Debug, Clone, Copy, PartialEq, Eq, Structural)]
pub enum RecoveryStatus {
    /// No update running.
    IDLE,
    /// Update has started.
    START,
    /// Update is running.
    RUN,
    /// Update finished successfully.
    SUCCESS,
    /// Update failed.
    FAILURE,
    /// Image is being downloaded.
    DOWNLOAD,
    /// Update is done (post-processing).
    DONE,
    /// A subprocess produced the status.
    SUBPROCESS,
    /// Progress notification.
    PROGRESS,
}

impl RecoveryStatus {
    /// The number that stands for this status on the wire.
    pub open spec fn spec_code(self) -> u32 {
        match self {
            RecoveryStatus::IDLE => 0,
            RecoveryStatus::START => 1,
            RecoveryStatus::RUN => 2,
            RecoveryStatus::SUCCESS => 3,
            RecoveryStatus::FAILURE => 4,
            RecoveryStatus::DOWNLOAD => 5,
            RecoveryStatus::DONE => 6,
            RecoveryStatus::SUBPROCESS => 7,
            RecoveryStatus::PROGRESS => 8,
        }
    }

    /// The number that stands for this status on the wire.
    pub fn code(self) -> (n: u32)
        ensures
            n == self.spec_code(),
    {
        match self {
            RecoveryStatus::IDLE => 0,
            RecoveryStatus::START => 1,
            RecoveryStatus::RUN => 2,
            RecoveryStatus::SUCCESS => 3,
            RecoveryStatus::FAILURE => 4,
            RecoveryStatus::DOWNLOAD => 5,
            RecoveryStatus::DONE => 6,
            RecoveryStatus::SUBPROCESS => 7,
            RecoveryStatus::PROGRESS => 8,
        }
    }

    /// Returns `true` once the installer has reached a terminal state.
    pub fn is_terminal(self) -> (r: bool)
        ensures
            r == (self == RecoveryStatus::SUCCESS || self == RecoveryStatus::FAILURE),
    {
        matches!(self, RecoveryStatus::SUCCESS | RecoveryStatus::FAILURE)
    }
}

/// The status that a number stands for, if any.
pub open spec fn status_of(value: u32) -> Option<RecoveryStatus> {
    match value {
        0 => Some(RecoveryStatus::IDLE),
        1 => Some(RecoveryStatus::START),
        2 => Some(RecoveryStatus::RUN),
        3 => Some(RecoveryStatus::SUCCESS),
        4 => Some(RecoveryStatus::FAILURE),
        5 => Some(RecoveryStatus::DOWNLOAD),
        6 => Some(RecoveryStatus::DONE),
        7 => Some(RecoveryStatus::SUBPROCESS),
        8 => Some(RecoveryStatus::PROGRESS),
        _ => None,
    }
}

/// The status that a number stands for; the number itself where it stands for
/// none.
pub fn decode_recovery_status(value: u32) -> (status: Result<RecoveryStatus, u32>)
    ensures
        status matches Ok(s) ==> status_of(value) == Some(s),
        status matches Err(v) ==> v == value && status_of(value) is None,
{
    match value {
        0 => Ok(RecoveryStatus::IDLE),
        1 => Ok(RecoveryStatus::START),
        2 => Ok(RecoveryStatus::RUN),
        3 => Ok(RecoveryStatus::SUCCESS),
        4 => Ok(RecoveryStatus::FAILURE),
        5 => Ok(RecoveryStatus::DOWNLOAD),
        6 => Ok(RecoveryStatus::DONE),
        7 => Ok(RecoveryStatus::SUBPROCESS),
        8 => Ok(RecoveryStatus::PROGRESS),
        other => Err(other),
    }
}

/// Every status is read back from its number, and no two share a number.
pub proof fn law_status_round_trip(status: RecoveryStatus, value: u32)
    ensures
        status_of(status.spec_code()) == Some(status),
        status_of(value) matches Some(s) ==> s.spec_code() == value,
{
}

// ---------------------------------------------------------------------------
// C strings
// ---------------------------------------------------------------------------

/// The position of the first NUL, or the length where there is none.
pub open spec fn nul_position(s: Seq<u8>) -> int
    decreases s.len(),
{
    if s.len() == 0 || s[0] == 0 {
        0
    } else {
        1 + nul_position(s.drop_first())
    }
}

/// The bytes in front of the first NUL.
pub open spec fn c_bytes(s: Seq<u8>) -> Seq<u8> {
    s.take(nul_position(s))
}

/// `n` zero bytes.
pub open spec fn zeros(n: nat) -> Seq<u8> {
    Seq::new(n, |i: int| 0u8)
}

/// A field of `len` bytes that holds `value`, with NULs behind it.
pub open spec fn c_field(value: Seq<u8>, len: nat) -> Seq<u8> {
    value + zeros((len - value.len()) as nat)
}

proof fn lemma_nul_position(s: Seq<u8>, i: int)
    requires
        0 <= i <= s.len(),
        forall|j: int| 0 <= j < i ==> s[j] != 0,
        i < s.len() ==> s[i] == 0,
    ensures
        nul_position(s) == i,
    decreases i,
{
    if i > 0 {
        lemma_nul_position(s.drop_first(), i - 1);
    }
}

/// What is written into a field is read back from it, if it holds no NUL and
/// leaves room for one.
pub proof fn law_c_field_round_trip(value: Seq<u8>, len: nat)
    requires
        value.len() < len,
        forall|i: int| 0 <= i < value.len() ==> value[i] != 0,
    ensures
        c_bytes(c_field(value, len)) == value,
        c_field(value, len).len() == len,
{
    lemma_nul_position(c_field(value, len), value.len() as int);
    assert(c_bytes(c_field(value, len)) =~= value);
}

/// The position of the first NUL, or the length where there is none.
fn find_nul(s: &[u8]) -> (at: usize)
    ensures
        at == nul_position(s@),
        at <= s.len(),
{
    let mut i: usize = 0;
    while i < s.len() && s[i] != 0
        invariant
            i <= s.len(),
            forall|j: int| 0 <= j < i ==> s@[j] != 0,
        decreases s.len() - i,
    {
        i += 1;
    }
    proof {
        lemma_nul_position(s@, i as int);
    }
    i
}

/// `n` zero bytes.
pub fn zero_bytes(n: usize) -> (v: Vec<u8>)
    ensures
        v@ == zeros(n as nat),
{
    let mut v: Vec<u8> = Vec::new();
    while v.len() < n
        invariant
            v.len() <= n,
            forall|j: int| 0 <= j < v.len() ==> v@[j] == 0,
        decreases n - v.len(),
    {
        v.push(0);
    }
    assert(v@ =~= zeros(n as nat));
    v
}

/// Writes `value` into a fixed-size C string field, followed by NULs. A value
/// that leaves no room for the terminating NUL is rejected and the field stays
/// as it was.
pub fn write_c_string(dst: &mut Vec<u8>, value: &str) -> (result: Result<(), Error>)
    ensures
        final(dst)@.len() == old(dst)@.len(),
        result is Ok <==> value.spec_bytes().len() < old(dst)@.len(),
        result is Ok ==> final(dst)@ == c_field(value.spec_bytes(), old(dst)@.len()),
        result matches Err(e) ==> final(dst)@ == old(dst)@ && e.rejects(
            "string does not fit its field"@,
        ),
{
    let bytes = value.as_bytes();
    if bytes.len() >= dst.len() {
        return Err(Error::InvalidArgument("string does not fit its field"));
    }
    let n: usize = dst.len();
    let mut field: Vec<u8> = Vec::new();
    field.extend_from_slice(bytes);
    assert(field@ =~= bytes@);
    let mut rest = zero_bytes(n - bytes.len());
    field.append(&mut rest);
    *dst = field;
    Ok(())
}

/// Reads a NUL-terminated C string field, replacing what is not valid UTF-8.
pub fn read_c_string(src: &[u8]) -> (text: String)
    ensures
        text@ == utf8_lossy(c_bytes(src@)),
        vstd::utf8::valid_utf8(c_bytes(src@)) ==> text@ == vstd::utf8::decode_utf8(c_bytes(src@)),
{
    let end: usize = find_nul(src);
    let part = slice_subrange(src, 0, end);
    assert(part@ =~= c_bytes(src@));
    lossy_text(part)
}

// ---------------------------------------------------------------------------
// Install requests
// ---------------------------------------------------------------------------

/// Install request.
#[derive(Debug, Clone)]
pub struct SwupdateRequest {
    /// API version.
    pub apiversion: u32,
    /// Source interface.
    pub source: SourceType,
    /// Dry-run selector.
    pub dry_run: RunType,
    /// Length of the data in `info`.
    pub len: usize,
    /// Free-form information forwarded to the progress interface (512 bytes).
    pub info: Vec<u8>,
    /// Selected software set (256 bytes).
    pub software_set: Vec<u8>,
    /// Selected running mode (256 bytes).
    pub running_mode: Vec<u8>,
    /// When `true`, the daemon must not persist the received SWU.
    pub disable_store_swu: bool,
}

/// A length as it stands behind three 32-bit numbers: aligned to its own size,
/// which is that of a word.
pub open spec fn length_field(len: usize) -> Seq<u8> {
    if WORD_LEN == 8 {
        zeros(4) + le64(len as u64)
    } else {
        le32(len as u32)
    }
}

/// A flag as it stands at the end, where it takes up a word.
pub open spec fn flag_field(flag: bool) -> Seq<u8> {
    seq![
        if flag {
            1u8
        } else {
            0u8
        },
    ] + zeros((WORD_LEN - 1) as nat)
}

impl SwupdateRequest {
    /// The fixed-size fields have their sizes.
    pub open spec fn wf(self) -> bool {
        &&& self.info@.len() == 512
        &&& self.software_set@.len() == 256
        &&& self.running_mode@.len() == 256
    }

    /// The request as the daemon reads it.
    pub open spec fn layout(self) -> Seq<u8> {
        le32(self.apiversion) + le32(word_of(self.source.spec_code())) + le32(
            word_of(self.dry_run.spec_code()),
        ) + length_field(self.len) + self.info@ + self.software_set@ + self.running_mode@
            + flag_field(self.disable_store_swu)
    }

    /// A request pre-filled with default values.
    pub fn prepare() -> (req: SwupdateRequest)
        ensures
            req.wf(),
            req.apiversion == SWUPDATE_API_VERSION,
            req.source == SourceType::SOURCE_UNKNOWN,
            req.dry_run == RunType::RUN_DEFAULT,
            req.len == 0,
            req.info@ == zeros(512),
            req.software_set@ == zeros(256),
            req.running_mode@ == zeros(256),
            !req.disable_store_swu,
    {
        SwupdateRequest {
            apiversion: SWUPDATE_API_VERSION,
            source: SourceType::SOURCE_UNKNOWN,
            dry_run: RunType::RUN_DEFAULT,
            len: 0,
            info: zero_bytes(512),
            software_set: zero_bytes(256),
            running_mode: zero_bytes(256),
            disable_store_swu: false,
        }
    }

    /// Sets the software set. One that does not fit is rejected.
    pub fn set_software_set(&mut self, value: &str) -> (result: Result<(), Error>)
        requires
            old(self).wf(),
        ensures
            final(self).wf(),
            result is Ok <==> value.spec_bytes().len() < 256,
            result is Ok ==> final(self).software_set@ == c_field(value.spec_bytes(), 256),
            result matches Err(e) ==> e.rejects("string does not fit its field"@)
                && final(self).software_set@ == old(self).software_set@,
            final(self).apiversion == old(self).apiversion,
            final(self).source == old(self).source,
            final(self).dry_run == old(self).dry_run,
            final(self).len == old(self).len,
            final(self).info == old(self).info,
            final(self).running_mode == old(self).running_mode,
            final(self).disable_store_swu == old(self).disable_store_swu,
    {
        write_c_string(&mut self.software_set, value)
    }

    /// Sets the running mode. One that does not fit is rejected.
    pub fn set_running_mode(&mut self, value: &str) -> (result: Result<(), Error>)
        requires
            old(self).wf(),
        ensures
            final(self).wf(),
            result is Ok <==> value.spec_bytes().len() < 256,
            result is Ok ==> final(self).running_mode@ == c_field(value.spec_bytes(), 256),
            result matches Err(e) ==> e.rejects("string does not fit its field"@)
                && final(self).running_mode@ == old(self).running_mode@,
            final(self).apiversion == old(self).apiversion,
            final(self).source == old(self).source,
            final(self).dry_run == old(self).dry_run,
            final(self).len == old(self).len,
            final(self).info == old(self).info,
            final(self).software_set == old(self).software_set,
            final(self).disable_store_swu == old(self).disable_store_swu,
    {
        write_c_string(&mut self.running_mode, value)
    }

    /// The request as the daemon reads it.
    pub fn to_bytes(&self) -> (bytes: Vec<u8>)
        requires
            self.wf(),
        ensures
            bytes@ == self.layout(),
            bytes@.len() == SWUPDATE_REQUEST_LEN,
    {
        let mut out: Vec<u8> = Vec::new();
        push_le32(&mut out, self.apiversion);
        push_le32(&mut out, to_word(self.source.code()));
        push_le32(&mut out, to_word(self.dry_run.code()));
        if WORD_LEN == 8 {
            let mut pad = zero_bytes(4);
            out.append(&mut pad);
            push_le64(&mut out, self.len as u64);
        } else {
            push_le32(&mut out, self.len as u32);
        }
        out.extend_from_slice(self.info.as_slice());
        out.extend_from_slice(self.software_set.as_slice());
        out.extend_from_slice(self.running_mode.as_slice());
        out.push(
            if self.disable_store_swu {
                1
            } else {
                0
            },
        );
        let mut tail = zero_bytes(WORD_LEN - 1);
        out.append(&mut tail);
        assert(out@ =~= self.layout());
        out
    }
}

// ---------------------------------------------------------------------------
// Control-socket frames
// ---------------------------------------------------------------------------

/// `data` with `part` written over it from `at` on.
pub open spec fn splice(data: Seq<u8>, at: int, part: Seq<u8>) -> Seq<u8> {
    data.take(at) + part + data.skip(at + part.len())
}

/// Writes `part` over `data` from `at` on.
fn overwrite(data: &mut Vec<u8>, at: usize, part: &[u8])
    requires
        at + part@.len() <= old(data)@.len(),
    ensures
        final(data)@ == splice(old(data)@, at as int, part@),
        final(data)@.len() == old(data)@.len(),
{
    let len: usize = data.len();
    let mut i: usize = 0;
    while i < part.len()
        invariant
            i <= part.len(),
            at + part@.len() <= len,
            data@.len() == len,
            data@.len() == old(data)@.len(),
            forall|j: int| 0 <= j < i ==> data@[at + j] == part@[j],
            forall|j: int|
                0 <= j < data@.len() && !(at <= j < at + i) ==> data@[j] == old(data)@[j],
        decreases part.len() - i,
    {
        data.set(at + i, part[i]);
        i += 1;
    }
    assert(data@ =~= splice(old(data)@, at as int, part@)) by {
        assert forall|j: int| 0 <= j < data@.len() implies data@[j] == splice(
            old(data)@,
            at as int,
            part@,
        )[j] by {
            if at <= j < at + part@.len() {
                assert(data@[at + (j - at)] == part@[j - at]);
            }
        }
    }
}

/// Control-socket frame.
#[derive(Debug, Clone)]
pub struct IpcMessage {
    /// Magic number.
    pub magic: i32,
    /// Message type.
    pub type_: i32,
    /// Type-dependent payload ([`MSG_DATA_LEN`] bytes).
    pub data: Vec<u8>,
}

impl IpcMessage {
    /// The payload has its size.
    pub open spec fn wf(self) -> bool {
        self.data@.len() == MSG_DATA_LEN
    }

    /// The frame as it goes over the socket.
    pub open spec fn layout(self) -> Seq<u8> {
        le32(word_of(self.magic)) + le32(word_of(self.type_)) + self.data@
    }

    /// A frame of the given type with a payload of zeros.
    pub open spec fn blank(self, type_: MsgType) -> bool {
        &&& self.magic == IPC_MAGIC
        &&& self.type_ == type_.spec_code()
        &&& self.data@ == zeros(MSG_DATA_LEN as nat)
    }

    /// Returns an all-zero frame.
    pub fn zeroed() -> (msg: IpcMessage)
        ensures
            msg.wf(),
            msg.magic == 0,
            msg.type_ == 0,
            msg.data@ == zeros(MSG_DATA_LEN as nat),
    {
        IpcMessage { magic: 0, type_: 0, data: zero_bytes(MSG_DATA_LEN) }
    }

    /// Returns a zeroed frame stamped with [`IPC_MAGIC`] and the given type.
    pub fn new(type_: MsgType) -> (msg: IpcMessage)
        ensures
            msg.wf(),
            msg.blank(type_),
    {
        let mut msg = IpcMessage::zeroed();
        msg.magic = IPC_MAGIC;
        msg.type_ = type_.code();
        msg
    }

    /// Whether the frame is of the given type.
    pub fn has_type(&self, type_: MsgType) -> (r: bool)
        ensures
            r == (self.type_ == type_.spec_code()),
    {
        self.type_ == type_.code()
    }

    /// The frame as raw bytes for transmission.
    pub fn as_bytes(&self) -> (bytes: Vec<u8>)
        requires
            self.wf(),
        ensures
            bytes@ == self.layout(),
            bytes@.len() == IPC_MESSAGE_LEN,
    {
        let mut out: Vec<u8> = Vec::new();
        push_le32(&mut out, to_word(self.magic));
        push_le32(&mut out, to_word(self.type_));
        out.extend_from_slice(self.data.as_slice());
        assert(out@ =~= self.layout());
        out
    }

    /// The frame that raw bytes received from the daemon hold.
    pub fn from_bytes(bytes: &[u8]) -> (msg: IpcMessage)
        requires
            bytes@.len() == IPC_MESSAGE_LEN,
        ensures
            msg.wf(),
            msg.layout() == bytes@,
            msg.magic == signed_of(le32_at(bytes@, 0)),
            msg.type_ == signed_of(le32_at(bytes@, 4)),
            msg.data@ == bytes@.skip(8),
    {
        let mut data: Vec<u8> = Vec::new();
        data.extend_from_slice(slice_subrange(bytes, 8, IPC_MESSAGE_LEN));
        assert(data@ =~= bytes@.skip(8));
        let msg = IpcMessage {
            magic: from_word(read_le32(bytes, 0)),
            type_: from_word(read_le32(bytes, 4)),
            data,
        };
        proof {
            lemma_le32_bytes(bytes@, 0);
            lemma_le32_bytes(bytes@, 4);
            assert(msg.layout() =~= bytes@);
        }
        msg
    }

    /// Stores an install request in the payload.
    pub fn set_install_request(&mut self, request: SwupdateRequest)
        requires
            old(self).wf(),
            request.wf(),
        ensures
            final(self).wf(),
            final(self).magic == old(self).magic,
            final(self).type_ == old(self).type_,
            final(self).data@ == splice(old(self).data@, 0, request.layout()),
    {
        let bytes = request.to_bytes();
        overwrite(&mut self.data, 0, bytes.as_slice());
    }

    /// Stores the information for a post-update action in the payload: its
    /// length and then as much of it as fits.
    pub fn set_postupdate_info(&mut self, info: &[u8])
        requires
            old(self).wf(),
        ensures
            final(self).wf(),
            final(self).magic == old(self).magic,
            final(self).type_ == old(self).type_,
            ({
                let len = if info@.len() < 2048 {
                    info@.len() as u32
                } else {
                    2048u32
                };
                final(self).data@ == splice(
                    splice(old(self).data@, 16, info@.take(len as int)),
                    12,
                    le32(len),
                )
            }),
    {
        let len: usize = if info.len() < 2048 {
            info.len()
        } else {
            2048
        };
        let part = slice_subrange(info, 0, len);
        assert(part@ =~= info@.take(len as int));
        overwrite(&mut self.data, 16, part);
        let mut word: Vec<u8> = Vec::new();
        push_le32(&mut word, len as u32);
        assert(word@ =~= le32(len as u32));
        overwrite(&mut self.data, 12, word.as_slice());
    }

    /// Stores an AES key and initialisation vector in the payload. Either one
    /// that does not fit is rejected and the payload stays as it was.
    pub fn set_aes_key(&mut self, key: &str, ivt: &str) -> (result: Result<(), Error>)
        requires
            old(self).wf(),
        ensures
            final(self).wf(),
            final(self).magic == old(self).magic,
            final(self).type_ == old(self).type_,
            result is Ok <==> key.spec_bytes().len() < 65 && ivt.spec_bytes().len() < 33,
            result is Ok ==> final(self).data@ == splice(
                splice(old(self).data@, 0, c_field(key.spec_bytes(), 65)),
                65,
                c_field(ivt.spec_bytes(), 33),
            ),
            result matches Err(e) ==> e.rejects("string does not fit its field"@)
                && final(self).data@
                == old(self).data@,
    {
        let mut key_ascii = zero_bytes(65);
        let mut ivt_ascii = zero_bytes(33);
        match write_c_string(&mut key_ascii, key) {
            Ok(()) => {},
            Err(err) => {
                return Err(err);
            },
        }
        match write_c_string(&mut ivt_ascii, ivt) {
            Ok(()) => {},
            Err(err) => {
                return Err(err);
            },
        }
        overwrite(&mut self.data, 0, key_ascii.as_slice());
        overwrite(&mut self.data, 65, ivt_ascii.as_slice());
        Ok(())
    }

    /// Stores the accepted version range in the payload: a bound that is not
    /// given leaves its field as it was. One that does not fit is rejected and
    /// the payload stays as it was.
    pub fn set_version_range(
        &mut self,
        min_version: Option<&str>,
        max_version: Option<&str>,
        current_version: Option<&str>,
    ) -> (result: Result<(), Error>)
        requires
            old(self).wf(),
        ensures
            final(self).wf(),
            final(self).magic == old(self).magic,
            final(self).type_ == old(self).type_,
            result is Ok <==> version_fits(min_version) && version_fits(max_version)
                && version_fits(current_version),
            result is Ok ==> final(self).data@ == with_version(
                with_version(with_version(old(self).data@, 0, min_version), 256, max_version),
                512,
                current_version,
            ),
            result matches Err(e) ==> e.rejects("version does not fit its field"@)
                && final(self).data@
                == old(self).data@,
    {
        let min_field = version_field(min_version);
        let max_field = version_field(max_version);
        let current_field = version_field(current_version);
        match (min_field, max_field, current_field) {
            (Ok(a), Ok(b), Ok(c)) => {
                store_version(&mut self.data, 0, a, min_version);
                store_version(&mut self.data, 256, b, max_version);
                store_version(&mut self.data, 512, c, current_version);
                Ok(())
            },
            _ => Err(Error::InvalidArgument("version does not fit its field")),
        }
    }

    /// The current status and the last result that a status reply carries.
    pub fn install_statuses(&self) -> (statuses: (Option<RecoveryStatus>, Option<RecoveryStatus>))
        requires
            self.wf(),
        ensures
            statuses.0 == status_of(le32_at(self.data@, 0)),
            statuses.1 == status_of(le32_at(self.data@, 4)),
    {
        let current = match decode_recovery_status(read_le32(self.data.as_slice(), 0)) {
            Ok(status) => Some(status),
            Err(_) => None,
        };
        let last_result = match decode_recovery_status(read_le32(self.data.as_slice(), 4)) {
            Ok(status) => Some(status),
            Err(_) => None,
        };
        (current, last_result)
    }

    /// The current status and the description that a status reply carries.
    pub fn install_status_description(&self) -> (status: (Option<RecoveryStatus>, String))
        requires
            self.wf(),
        ensures
            status.0 == status_of(le32_at(self.data@, 0)),
            status.1@ == utf8_lossy(c_bytes(self.data@.subrange(12, 2060))),
            vstd::utf8::valid_utf8(c_bytes(self.data@.subrange(12, 2060))) ==> status.1@
                == vstd::utf8::decode_utf8(c_bytes(self.data@.subrange(12, 2060))),
    {
        let (current, _) = self.install_statuses();
        (current, read_c_string(slice_subrange(self.data.as_slice(), 12, 2060)))
    }
}

/// Whether a version bound, where it is given, fits its field.
pub open spec fn version_fits(version: Option<&str>) -> bool {
    version matches Some(v) ==> v.spec_bytes().len() < 256
}

/// `data` with a version bound, where it is given, in the field at `at`.
pub open spec fn with_version(data: Seq<u8>, at: int, version: Option<&str>) -> Seq<u8> {
    match version {
        Some(v) => splice(data, at, c_field(v.spec_bytes(), 256)),
        None => data,
    }
}

fn version_field(version: Option<&str>) -> (field: Result<Vec<u8>, Error>)
    ensures
        field is Ok <==> version_fits(version),
        field matches Ok(f) ==> (version matches Some(v) ==> f@ == c_field(v.spec_bytes(), 256)
            && f@.len() == 256),
{
    let mut field = zero_bytes(256);
    match version {
        Some(v) => match write_c_string(&mut field, v) {
            Ok(()) => Ok(field),
            Err(err) => Err(err),
        },
        None => Ok(field),
    }
}

fn store_version(data: &mut Vec<u8>, at: usize, field: Vec<u8>, version: Option<&str>)
    requires
        at + 256 <= old(data)@.len(),
        version matches Some(v) ==> field@ == c_field(v.spec_bytes(), 256) && field@.len() == 256,
    ensures
        final(data)@ == with_version(old(data)@, at as int, version),
        final(data)@.len() == old(data)@.len(),
{
    if version.is_some() {
        overwrite(data, at, field.as_slice());
    }
}

proof fn lemma_le32_bytes(s: Seq<u8>, at: int)
    requires
        0 <= at,
        at + 4 <= s.len(),
    ensures
        le32(word_of(signed_of(le32_at(s, at)))) == s.subrange(at, at + 4),
{
    lemma_le32_parts(s[at], s[at + 1], s[at + 2], s[at + 3]);
    assert(word_of(signed_of(le32_at(s, at))) == le32_at(s, at));
    assert(le32(le32_at(s, at)) =~= s.subrange(at, at + 4));
}

proof fn lemma_le32_parts(b0: u8, b1: u8, b2: u8, b3: u8)
    ensures
        le32((b0 + 0x100 * b1 + 0x1_0000 * b2 + 0x100_0000 * b3) as u32) == seq![b0, b1, b2, b3],
{
    let x = b0 + 0x100 * b1 + 0x1_0000 * b2 + 0x100_0000 * b3;
    assert(x % 0x100 == b0);
    assert(x / 0x100 == b1 + 0x100 * b2 + 0x1_0000 * b3);
    assert(x / 0x100 % 0x100 == b1);
    assert(x / 0x1_0000 == b2 + 0x100 * b3);
    assert(x / 0x1_0000 % 0x100 == b2);
    assert(x / 0x100_0000 == b3);
    assert(le32(x as u32) =~= seq![b0, b1, b2, b3]);
}

/// A frame that is sent is the frame that is received.
pub proof fn law_message_round_trip(sent: IpcMessage, received: IpcMessage)
    requires
        sent.wf(),
        received.wf(),
        received.layout() == sent.layout(),
    ensures
        received.magic == sent.magic,
        received.type_ == sent.type_,
        received.data@ == sent.data@,
{
    let s = sent.layout();
    let r = received.layout();
    assert(le32_at(s, 0) == le32_at(r, 0));
    assert(le32_at(s, 4) == le32_at(r, 4));
    crate::wire::law_le32_round_trip(
        word_of(sent.magic),
        Seq::empty(),
        le32(word_of(sent.type_)) + sent.data@,
    );
    crate::wire::law_le32_round_trip(
        word_of(received.magic),
        Seq::empty(),
        le32(word_of(received.type_)) + received.data@,
    );
    crate::wire::law_le32_round_trip(word_of(sent.type_), le32(word_of(sent.magic)), sent.data@);
    crate::wire::law_le32_round_trip(
        word_of(received.type_),
        le32(word_of(received.magic)),
        received.data@,
    );
    assert(Seq::<u8>::empty() + le32(word_of(sent.magic)) + (le32(word_of(sent.type_)) + sent.data@)
        =~= s);
    assert(Seq::<u8>::empty() + le32(word_of(received.magic)) + (le32(word_of(received.type_))
        + received.data@) =~= r);
    assert(signed_of(word_of(sent.magic)) == sent.magic);
    assert(signed_of(word_of(received.magic)) == received.magic);
    assert(signed_of(word_of(sent.type_)) == sent.type_);
    assert(signed_of(word_of(received.type_)) == received.type_);
    assert(s.skip(8) =~= sent.data@);
    assert(r.skip(8) =~= received.data@);
}

// ---------------------------------------------------------------------------
// Progress frames
// ---------------------------------------------------------------------------

/// How the fields of a progress frame follow each other, which depends on the
/// release of SWUpdate.
#[derive(Debug, Clone, Copy, PartialEq, Eq, Structural)]
pub enum ProgressLayout {
    /// Without padding (2025.12 and later).
    Packed,
    /// With padding in front of the 64-bit field and at the end (2025.05 and
    /// earlier).
    Unpacked,
}

impl ProgressLayout {
    /// The layout of this name.
    pub open spec fn named(name: Seq<char>) -> Option<ProgressLayout> {
        if name == "packed"@ {
            Some(ProgressLayout::Packed)
        } else if name == "unpacked"@ {
            Some(ProgressLayout::Unpacked)
        } else {
            None
        }
    }

    /// Bytes of padding in front of the 64-bit field.
    pub open spec fn padding(self) -> int {
        match self {
            ProgressLayout::Packed => 0,
            ProgressLayout::Unpacked => 4,
        }
    }

    /// Bytes of a frame.
    pub open spec fn spec_frame_len(self) -> usize {
        match self {
            ProgressLayout::Packed => PROGRESS_MSG_LEN,
            ProgressLayout::Unpacked => UNPACKED_PROGRESS_MSG_LEN,
        }
    }

    /// The layout of this name, if there is one.
    pub fn from_name(name: &str) -> (layout: Option<ProgressLayout>)
        ensures
            layout == ProgressLayout::named(name@),
    {
        if same_text(name, "packed") {
            Some(ProgressLayout::Packed)
        } else if same_text(name, "unpacked") {
            Some(ProgressLayout::Unpacked)
        } else {
            None
        }
    }

    /// Bytes of a frame.
    pub fn frame_len(self) -> (len: usize)
        ensures
            len == self.spec_frame_len(),
    {
        match self {
            ProgressLayout::Packed => PROGRESS_MSG_LEN,
            ProgressLayout::Unpacked => UNPACKED_PROGRESS_MSG_LEN,
        }
    }
}

/// Progress notification frame.
#[derive(Debug, Clone)]
pub struct ProgressMsg {
    /// Progress API version for compatibility checking.
    pub apiversion: u32,
    /// Update status.
    pub status: u32,
    /// Percentage of downloaded data.
    pub dwl_percent: u32,
    /// Total number of bytes to download.
    pub dwl_bytes: u64,
    /// Total number of installer steps.
    pub nsteps: u32,
    /// Current step index (1-based).
    pub cur_step: u32,
    /// Percentage complete within the current step.
    pub cur_percent: u32,
    /// Name of the image being installed (256 bytes).
    pub cur_image: Vec<u8>,
    /// Name of the running handler (64 bytes).
    pub hnd_name: Vec<u8>,
    /// Interface that triggered the update.
    pub source: u32,
    /// Length of valid data in `info`.
    pub infolen: u32,
    /// Additional install information (2048 bytes).
    pub info: Vec<u8>,
}

/// The lesser of two numbers.
pub open spec fn lesser(a: int, b: int) -> int {
    if a < b {
        a
    } else {
        b
    }
}

/// The greater of two numbers.
pub open spec fn greater(a: int, b: int) -> int {
    if a > b {
        a
    } else {
        b
    }
}

impl ProgressMsg {
    /// The fixed-size fields have their sizes.
    pub open spec fn wf(self) -> bool {
        &&& self.cur_image@.len() == 256
        &&& self.hnd_name@.len() == 64
        &&& self.info@.len() == 2048
    }

    /// The part of `info` that is valid.
    pub open spec fn valid_info(self) -> Seq<u8> {
        self.info@.take(lesser(self.infolen as int, self.info@.len() as int))
    }

    /// The overall progress in percent: completed steps and the current one
    /// count alike; the last percent is kept for success.
    pub open spec fn percent(self) -> int {
        if self.status == RecoveryStatus::SUCCESS.spec_code() {
            100
        } else if self.nsteps > 0 && self.cur_step > 0 {
            let completed = lesser(self.cur_step - 1, self.nsteps as int);
            let total = lesser(
                lesser(completed * 100, u32::MAX as int) + lesser(self.cur_percent as int, 100),
                u32::MAX as int,
            );
            lesser(total / self.nsteps as int, 99)
        } else {
            lesser(greater(self.cur_percent as int, self.dwl_percent as int), 99)
        }
    }

    /// Returns an all-zero progress frame.
    pub fn zeroed() -> (msg: ProgressMsg)
        ensures
            msg.wf(),
            msg.apiversion == 0,
            msg.status == 0,
            msg.dwl_percent == 0,
            msg.dwl_bytes == 0,
            msg.nsteps == 0,
            msg.cur_step == 0,
            msg.cur_percent == 0,
            msg.cur_image@ == zeros(256),
            msg.hnd_name@ == zeros(64),
            msg.source == 0,
            msg.infolen == 0,
            msg.info@ == zeros(2048),
    {
        ProgressMsg {
            apiversion: 0,
            status: 0,
            dwl_percent: 0,
            dwl_bytes: 0,
            nsteps: 0,
            cur_step: 0,
            cur_percent: 0,
            cur_image: zero_bytes(256),
            hnd_name: zero_bytes(64),
            source: 0,
            infolen: 0,
            info: zero_bytes(2048),
        }
    }

    /// The frame that raw bytes received from the daemon hold.
    pub fn from_bytes(bytes: &[u8], layout: ProgressLayout) -> (msg: ProgressMsg)
        requires
            bytes@.len() == layout.spec_frame_len(),
        ensures
            msg.wf(),
            msg.apiversion == le32_at(bytes@, 0),
            msg.status == le32_at(bytes@, 4),
            msg.dwl_percent == le32_at(bytes@, 8),
            msg.dwl_bytes == le64_at(bytes@, 12 + layout.padding()),
            msg.nsteps == le32_at(bytes@, 20 + layout.padding()),
            msg.cur_step == le32_at(bytes@, 24 + layout.padding()),
            msg.cur_percent == le32_at(bytes@, 28 + layout.padding()),
            msg.cur_image@ == bytes@.subrange(32 + layout.padding(), 288 + layout.padding()),
            msg.hnd_name@ == bytes@.subrange(288 + layout.padding(), 352 + layout.padding()),
            msg.source == le32_at(bytes@, 352 + layout.padding()),
            msg.infolen == le32_at(bytes@, 356 + layout.padding()),
            msg.info@ == bytes@.subrange(360 + layout.padding(), 2408 + layout.padding()),
    {
        let pad: usize = match layout {
            ProgressLayout::Packed => 0,
            ProgressLayout::Unpacked => 4,
        };
        ProgressMsg {
            apiversion: read_le32(bytes, 0),
            status: read_le32(bytes, 4),
            dwl_percent: read_le32(bytes, 8),
            dwl_bytes: read_le64(bytes, 12 + pad),
            nsteps: read_le32(bytes, 20 + pad),
            cur_step: read_le32(bytes, 24 + pad),
            cur_percent: read_le32(bytes, 28 + pad),
            cur_image: part_of(bytes, 32 + pad, 288 + pad),
            hnd_name: part_of(bytes, 288 + pad, 352 + pad),
            source: read_le32(bytes, 352 + pad),
            infolen: read_le32(bytes, 356 + pad),
            info: part_of(bytes, 360 + pad, 2408 + pad),
        }
    }

    /// Decoded installer status, if it is a value this client understands.
    pub fn status(&self) -> (status: Result<RecoveryStatus, u32>)
        ensures
            status matches Ok(s) ==> status_of(self.status) == Some(s),
            status matches Err(v) ==> v == self.status && status_of(self.status) is None,
    {
        decode_recovery_status(self.status)
    }

    /// Current step index (1-based).
    pub fn current_step(&self) -> (n: u32)
        ensures
            n == self.cur_step,
    {
        self.cur_step
    }

    /// Total number of installer steps.
    pub fn total_steps(&self) -> (n: u32)
        ensures
            n == self.nsteps,
    {
        self.nsteps
    }

    /// Percentage complete within the current step.
    pub fn current_percent(&self) -> (n: u32)
        ensures
            n == self.cur_percent,
    {
        self.cur_percent
    }

    /// Name of the image currently being installed.
    pub fn cur_image(&self) -> (name: String)
        ensures
            name@ == utf8_lossy(c_bytes(self.cur_image@)),
            vstd::utf8::valid_utf8(c_bytes(self.cur_image@)) ==> name@ == vstd::utf8::decode_utf8(
                c_bytes(self.cur_image@),
            ),
    {
        read_c_string(self.cur_image.as_slice())
    }

    /// Name of the running handler.
    pub fn hnd_name(&self) -> (name: String)
        ensures
            name@ == utf8_lossy(c_bytes(self.hnd_name@)),
            vstd::utf8::valid_utf8(c_bytes(self.hnd_name@)) ==> name@ == vstd::utf8::decode_utf8(
                c_bytes(self.hnd_name@),
            ),
    {
        read_c_string(self.hnd_name.as_slice())
    }

    /// Additional install information (using `infolen`).
    pub fn info(&self) -> (text: String)
        ensures
            text@ == utf8_lossy(self.valid_info()),
            vstd::utf8::valid_utf8(self.valid_info()) ==> text@ == vstd::utf8::decode_utf8(
                self.valid_info(),
            ),
    {
        let len: usize = if (self.infolen as usize) < self.info.len() {
            self.infolen as usize
        } else {
            self.info.len()
        };
        let part = slice_subrange(self.info.as_slice(), 0, len);
        assert(part@ =~= self.valid_info());
        lossy_text(part)
    }

    /// Overall installation progress as a percentage (0-100).
    ///
    /// Accounts for multi-step installs by combining completed steps with
    /// the within-step percentage. Returns 100 on success and caps at 99
    /// while still running.
    pub fn overall_percent(&self) -> (percent: u32)
        ensures
            percent == self.percent(),
            percent <= 100,
            percent == 100 <==> self.status == RecoveryStatus::SUCCESS.spec_code(),
    {
        if self.status == RecoveryStatus::SUCCESS.code() {
            return 100;
        }
        if self.nsteps > 0 && self.cur_step > 0 {
            let completed: u32 = if self.cur_step - 1 < self.nsteps {
                self.cur_step - 1
            } else {
                self.nsteps
            };
            let scaled: u32 = match completed.checked_mul(100) {
                Some(x) => x,
                None => u32::MAX,
            };
            let within: u32 = if self.cur_percent < 100 {
                self.cur_percent
            } else {
                100
            };
            let total: u32 = scaled.saturating_add(within);
            let share: u32 = total / self.nsteps;
            return if share < 99 {
                share
            } else {
                99
            };
        }
        let most: u32 = if self.cur_percent > self.dwl_percent {
            self.cur_percent
        } else {
            self.dwl_percent
        };
        if most < 99 {
            most
        } else {
            99
        }
    }
}

/// A copy of the bytes from `from` up to `to`.
fn part_of(bytes: &[u8], from: usize, to: usize) -> (part: Vec<u8>)
    requires
        from <= to <= bytes@.len(),
    ensures
        part@ == bytes@.subrange(from as int, to as int),
{
    let mut part: Vec<u8> = Vec::new();
    part.extend_from_slice(slice_subrange(bytes, from, to));
    assert(part@ =~= bytes@.subrange(from as int, to as int));
    part
}

/// Progress connect acknowledgement.
#[derive(Debug, Clone)]
pub struct ProgressConnectAck {
    /// Progress API version reported by the daemon.
    pub apiversion: u32,
    /// NUL-terminated magic string (4 bytes).
    pub magic: Vec<u8>,
}

impl ProgressConnectAck {
    /// The daemon speaks the same major version.
    pub open spec fn compatible(self) -> bool {
        self.apiversion / 0x1_0000 == PROGRESS_API_MAJOR
    }

    /// The magic string is the expected one.
    pub open spec fn magic_ok(self) -> bool {
        c_bytes(self.magic@) == PROGRESS_CONNECT_ACK_MAGIC.spec_bytes()
    }

    /// Returns an all-zero acknowledgement.
    pub fn zeroed() -> (ack: ProgressConnectAck)
        ensures
            ack.apiversion == 0,
            ack.magic@ == zeros(4),
    {
        ProgressConnectAck { apiversion: 0, magic: zero_bytes(4) }
    }

    /// The acknowledgement that raw bytes received from the daemon hold.
    pub fn from_bytes(bytes: &[u8]) -> (ack: ProgressConnectAck)
        requires
            bytes@.len() == PROGRESS_CONNECT_ACK_LEN,
        ensures
            ack.apiversion == le32_at(bytes@, 0),
            ack.magic@ == bytes@.subrange(4, 8),
    {
        ProgressConnectAck { apiversion: read_le32(bytes, 0), magic: part_of(bytes, 4, 8) }
    }

    /// Returns `true` when the daemon's major version matches this client.
    pub fn is_major_compatible(&self) -> (r: bool)
        ensures
            r == self.compatible(),
    {
        self.apiversion / 0x1_0000 == PROGRESS_API_MAJOR
    }

    /// Returns `true` when the magic field is [`PROGRESS_CONNECT_ACK_MAGIC`].
    pub fn has_valid_magic(&self) -> (r: bool)
        ensures
            r == self.magic_ok(),
    {
        let end: usize = find_nul(self.magic.as_slice());
        let part = slice_subrange(self.magic.as_slice(), 0, end);
        assert(part@ =~= c_bytes(self.magic@));
        same_bytes(part, PROGRESS_CONNECT_ACK_MAGIC.as_bytes())
    }
}

// ---------------------------------------------------------------------------
// Numbers, fields and frames as the daemon has them
// ---------------------------------------------------------------------------

/// The numbers of the message types.
pub proof fn law_message_numbers(type_: MsgType, n: i32)
    requires
        call_ensures(MsgType::code, (type_,), n),
    ensures
        type_ is REQ_INSTALL ==> n == 0,
        type_ is ACK ==> n == 1,
        type_ is NACK ==> n == 2,
        type_ is GET_STATUS ==> n == 3,
        type_ is POST_UPDATE ==> n == 4,
        type_ is SWUPDATE_SUBPROCESS ==> n == 5,
        type_ is SET_AES_KEY ==> n == 6,
        type_ is SET_UPDATE_STATE ==> n == 7,
        type_ is GET_UPDATE_STATE ==> n == 8,
        type_ is REQ_INSTALL_EXT ==> n == 9,
        type_ is SET_VERSIONS_RANGE ==> n == 10,
        type_ is NOTIFY_STREAM ==> n == 11,
        type_ is GET_HW_REVISION ==> n == 12,
        type_ is SET_SWUPDATE_VARS ==> n == 13,
        type_ is GET_SWUPDATE_VARS ==> n == 14,
        type_ is SYSRESTART ==> n == 15,
{
}

/// The numbers of the sources and of the ways to run an install, both ways.
pub proof fn law_request_numbers(
    source: SourceType,
    n: i32,
    run: RunType,
    m: i32,
    value: i32,
    read: Result<SourceType, i32>,
)
    requires
        call_ensures(SourceType::code, (source,), n),
        call_ensures(RunType::code, (run,), m),
        call_ensures(SourceType::try_from_code, (value,), read),
    ensures
        source is SOURCE_UNKNOWN ==> n == 0,
        source is SOURCE_WEBSERVER ==> n == 1,
        source is SOURCE_SURICATTA ==> n == 2,
        source is SOURCE_DOWNLOADER ==> n == 3,
        source is SOURCE_LOCAL ==> n == 4,
        source is SOURCE_CHUNKS_DOWNLOADER ==> n == 5,
        run is RUN_DEFAULT ==> m == 0,
        run is RUN_DRYRUN ==> m == 1,
        run is RUN_INSTALL ==> m == 2,
        value == n ==> read == Ok::<SourceType, i32>(source),
        value < 0 || value > 5 ==> read == Err::<SourceType, i32>(value),
{
}

/// The numbers of the installer's states, both ways, and which of them end an
/// install.
pub proof fn law_recovery_numbers(
    status: RecoveryStatus,
    n: u32,
    value: u32,
    read: Result<RecoveryStatus, u32>,
    terminal: bool,
)
    requires
        call_ensures(RecoveryStatus::code, (status,), n),
        call_ensures(decode_recovery_status, (value,), read),
        call_ensures(RecoveryStatus::is_terminal, (status,), terminal),
    ensures
        status is IDLE ==> n == 0,
        status is START ==> n == 1,
        status is RUN ==> n == 2,
        status is SUCCESS ==> n == 3,
        status is FAILURE ==> n == 4,
        status is DOWNLOAD ==> n == 5,
        status is DONE ==> n == 6,
        status is SUBPROCESS ==> n == 7,
        status is PROGRESS ==> n == 8,
        value == n ==> read == Ok::<RecoveryStatus, u32>(status),
        value > 8 ==> read == Err::<RecoveryStatus, u32>(value),
        terminal <==> n == 3 || n == 4,
{
}

/// A C string ends in front of its first NUL, or with its field.
pub proof fn law_c_strings(value: Seq<u8>, rest: Seq<u8>)
    requires
        forall|i: int| 0 <= i < value.len() ==> value[i] != 0,
    ensures
        c_bytes(value + seq![0u8] + rest) == value,
        c_bytes(value) == value,
{
    let s = value + seq![0u8] + rest;
    let n = value.len() as int;
    assert forall|j: int| 0 <= j < n implies s[j] != 0 by {
        assert(s[j] == value[j]);
    }
    lemma_nul_position(s, n);
    lemma_nul_position(value, n);
    assert(s.take(n) =~= value);
    assert(value.take(n) =~= value);
}

/// A text is written into a field from its start, with NULs up to the end, where
/// it leaves room for one; otherwise the field stays as it was.
pub proof fn law_write_c_string(dst: &mut Vec<u8>, value: &str, result: Result<(), Error>, i: int)
    requires
        call_ensures(write_c_string, (dst, value), result),
        0 <= i < old(dst)@.len(),
    ensures
        result is Ok <==> value.spec_bytes().len() < old(dst)@.len(),
        final(dst)@.len() == old(dst)@.len(),
        final(dst)@[i] == (if result is Err {
            old(dst)@[i]
        } else if i < value.spec_bytes().len() {
            value.spec_bytes()[i]
        } else {
            0u8
        }),
{
}

/// Writing over data changes the bytes from where it starts, and no others.
proof fn law_overwrite(data: &mut Vec<u8>, at: usize, part: &[u8], i: int)
    requires
        at + part@.len() <= old(data)@.len(),
        call_ensures(overwrite, (data, at, part), ()),
        0 <= i < old(data)@.len(),
    ensures
        final(data)@.len() == old(data)@.len(),
        final(data)@[i] == (if at <= i < at + part@.len() {
            part@[i - at]
        } else {
            old(data)@[i]
        }),
{
}

/// A new frame is stamped with the daemon's magic number and its type, and holds
/// nothing else.
pub proof fn law_new_frame(type_: MsgType, n: i32, msg: IpcMessage, bytes: Vec<u8>, i: int)
    requires
        call_ensures(MsgType::code, (type_,), n),
        call_ensures(IpcMessage::new, (type_,), msg),
        call_ensures(IpcMessage::as_bytes, (&msg,), bytes),
        8 <= i < bytes@.len(),
    ensures
        msg.magic == 0x14052001,
        msg.type_ == n,
        bytes@.len() == msg.data@.len() + 8,
        bytes@.subrange(0, 8) == seq![0x01u8, 0x20, 0x05, 0x14, n as u8, 0, 0, 0],
        bytes@[i] == 0,
{
    assert(0 <= n <= 15);
    let w = word_of(n);
    assert(w == n);
    assert(w % 256 == n && w / 256 % 256 == 0 && w / 65536 % 256 == 0 && w / 16777216 == 0);
    assert(bytes@.subrange(0, 8) =~= seq![0x01u8, 0x20, 0x05, 0x14, n as u8, 0, 0, 0]);
}

/// A frame goes over the socket as its magic number, its type and its payload,
/// and is read back from there.
pub proof fn law_frame_bytes(bytes: &[u8], msg: IpcMessage)
    requires
        bytes@.len() == IPC_MESSAGE_LEN,
        call_ensures(IpcMessage::from_bytes, (bytes,), msg),
    ensures
        msg.data@.len() + 8 == bytes@.len(),
        forall|i: int| 0 <= i < msg.data@.len() ==> #[trigger] msg.data@[i] == bytes@[i + 8],
        ({
            let w = bytes@[0] + 256 * bytes@[1] + 65536 * bytes@[2] + 16777216 * bytes@[3];
            msg.magic == (if w < 2147483648 {
                w
            } else {
                w - 4294967296
            })
        }),
        ({
            let w = bytes@[4] + 256 * bytes@[5] + 65536 * bytes@[6] + 16777216 * bytes@[7];
            msg.type_ == (if w < 2147483648 {
                w
            } else {
                w - 4294967296
            })
        }),
{
}

/// The information of a post-update action stands from byte 16 on, no more than
/// 2048 bytes of it, and its length in front of it; the rest stays.
pub proof fn law_postupdate_info(msg: &mut IpcMessage, info: &[u8], i: int)
    requires
        old(msg).wf(),
        call_ensures(IpcMessage::set_postupdate_info, (msg, info), ()),
        0 <= i < old(msg).data@.len(),
    ensures
        ({
            let len = if info@.len() < 2048 {
                info@.len() as int
            } else {
                2048
            };
            let data = final(msg).data@;
            &&& data[12] + 256 * data[13] + 65536 * data[14] + 16777216 * data[15] == len
            &&& 16 <= i < 16 + len ==> data[i] == info@[i - 16]
            &&& i < 12 || i >= 16 + len ==> data[i] == old(msg).data@[i]
        }),
        final(msg).magic == old(msg).magic,
        final(msg).type_ == old(msg).type_,
{
    let len = if info@.len() < 2048 {
        info@.len() as u32
    } else {
        2048u32
    };
    crate::wire::law_le32_round_trip(len, Seq::empty(), Seq::empty());
    assert(Seq::<u8>::empty() + le32(len) + Seq::<u8>::empty() =~= le32(len));
    let data = final(msg).data@;
    assert(data[12] == le32(len)[0] && data[13] == le32(len)[1] && data[14] == le32(len)[2]
        && data[15] == le32(len)[3]);
}

/// The key stands at the front of the payload and the initialisation vector from
/// byte 65 on, each with NULs up to the end of its field.
pub proof fn law_aes_fields(
    msg: &mut IpcMessage,
    key: &str,
    ivt: &str,
    result: Result<(), Error>,
    i: int,
)
    requires
        old(msg).wf(),
        call_ensures(IpcMessage::set_aes_key, (msg, key, ivt), result),
        0 <= i < old(msg).data@.len(),
    ensures
        result is Ok <==> key.spec_bytes().len() <= 64 && ivt.spec_bytes().len() <= 32,
        final(msg).data@[i] == (if result is Err || i >= 98 {
            old(msg).data@[i]
        } else if i < 65 {
            if i < key.spec_bytes().len() {
                key.spec_bytes()[i]
            } else {
                0u8
            }
        } else {
            if i - 65 < ivt.spec_bytes().len() {
                ivt.spec_bytes()[i - 65]
            } else {
                0u8
            }
        }),
{
}

/// The least, the greatest and the current version stand in fields of 256 bytes,
/// one behind the other, each with NULs up to its end; a bound that is not given
/// leaves its field, and one that does not fit leaves all.
pub proof fn law_version_fields(
    msg: &mut IpcMessage,
    least: Option<&str>,
    greatest: Option<&str>,
    current: Option<&str>,
    result: Result<(), Error>,
    i: int,
)
    requires
        old(msg).wf(),
        call_ensures(IpcMessage::set_version_range, (msg, least, greatest, current), result),
        0 <= i < old(msg).data@.len(),
    ensures
        result is Ok <==> (least matches Some(v) ==> v.spec_bytes().len() <= 255) && (
        greatest matches Some(v) ==> v.spec_bytes().len() <= 255) && (current matches Some(v)
            ==> v.spec_bytes().len() <= 255),
        ({
            let field = if i < 256 {
                least
            } else if i < 512 {
                greatest
            } else {
                current
            };
            let at = if i < 256 {
                0int
            } else if i < 512 {
                256
            } else {
                512
            };
            final(msg).data@[i] == (if result is Err || i >= 768 || field is None {
                old(msg).data@[i]
            } else if i - at < field->0.spec_bytes().len() {
                field->0.spec_bytes()[i - at]
            } else {
                0u8
            })
        }),
{
    if result is Ok {
        let d0 = old(msg).data@;
        let d1 = with_version(d0, 0, least);
        let d2 = with_version(d1, 256, greatest);
        let d3 = with_version(d2, 512, current);
        lemma_with_version(d0, 0, least, i);
        lemma_with_version(d1, 256, greatest, i);
        lemma_with_version(d2, 512, current, i);
    }
}

proof fn lemma_with_version(data: Seq<u8>, at: int, version: Option<&str>, i: int)
    requires
        0 <= at,
        at + 256 <= data.len(),
        version_fits(version),
        0 <= i < data.len(),
    ensures
        with_version(data, at, version).len() == data.len(),
        with_version(data, at, version)[i] == (if version is None || !(at <= i < at + 256) {
            data[i]
        } else if i - at < version->0.spec_bytes().len() {
            version->0.spec_bytes()[i - at]
        } else {
            0u8
        }),
{
}

/// A status reply carries the current status and the last result in its first two
/// words.
pub proof fn law_status_reply(
    msg: IpcMessage,
    statuses: (Option<RecoveryStatus>, Option<RecoveryStatus>),
    described: (Option<RecoveryStatus>, String),
    current: u32,
    last: u32,
)
    requires
        msg.wf(),
        call_ensures(IpcMessage::install_statuses, (&msg,), statuses),
        call_ensures(IpcMessage::install_status_description, (&msg,), described),
        current == msg.data@[0] + 256 * msg.data@[1] + 65536 * msg.data@[2] + 16777216
            * msg.data@[3],
        last == msg.data@[4] + 256 * msg.data@[5] + 65536 * msg.data@[6] + 16777216 * msg.data@[7],
    ensures
        statuses.0 matches Some(s) ==> s.spec_code() == current,
        statuses.0 is None <==> current > 8,
        statuses.1 matches Some(s) ==> s.spec_code() == last,
        statuses.1 is None <==> last > 8,
        described.0 == statuses.0,
        described.1@ == utf8_lossy(c_bytes(msg.data@.subrange(12, 2060))),
{
}

/// A progress frame is 2408 bytes long without padding and 2416 with it, and the
/// two layouts are known by these names.
pub proof fn law_progress_layouts(
    layout: ProgressLayout,
    len: usize,
    name: &str,
    found: Option<ProgressLayout>,
)
    requires
        call_ensures(ProgressLayout::frame_len, (layout,), len),
        call_ensures(ProgressLayout::from_name, (name,), found),
    ensures
        layout is Packed ==> len == 2408,
        layout is Unpacked ==> len == 2416,
        name@ == "packed"@ ==> found == Some(ProgressLayout::Packed),
        name@ == "unpacked"@ ==> found == Some(ProgressLayout::Unpacked),
        name@ != "packed"@ && name@ != "unpacked"@ ==> found is None,
{
    reveal_strlit("packed");
    reveal_strlit("unpacked");
    assert("packed"@.len() != "unpacked"@.len());
}

/// Where the numbers of a progress frame stand; with padding, those behind the
/// third one stand four bytes further on.
pub proof fn law_progress_fields(bytes: &[u8], layout: ProgressLayout, msg: ProgressMsg, pad: int)
    requires
        pad == (if layout is Packed {
            0int
        } else {
            4
        }),
        bytes@.len() == 2408 + 2 * pad,
        call_ensures(ProgressMsg::from_bytes, (bytes, layout), msg),
    ensures
        msg.apiversion == le32_at(bytes@, 0),
        msg.status == le32_at(bytes@, 4),
        msg.dwl_percent == le32_at(bytes@, 8),
        msg.dwl_bytes == le64_at(bytes@, 12 + pad),
        msg.nsteps == le32_at(bytes@, 20 + pad),
        msg.cur_step == le32_at(bytes@, 24 + pad),
        msg.cur_percent == le32_at(bytes@, 28 + pad),
        msg.cur_image@ == bytes@.subrange(32 + pad, 288 + pad),
        msg.hnd_name@ == bytes@.subrange(288 + pad, 352 + pad),
        msg.source == le32_at(bytes@, 352 + pad),
        msg.infolen == le32_at(bytes@, 356 + pad),
        msg.info@ == bytes@.subrange(360 + pad, 2408 + pad),
{
}

/// What a progress frame says of itself is what its fields hold.
pub proof fn law_progress_texts(
    msg: ProgressMsg,
    step: u32,
    steps: u32,
    percent: u32,
    image: String,
    handler: String,
    info: String,
)
    requires
        call_ensures(ProgressMsg::current_step, (&msg,), step),
        call_ensures(ProgressMsg::total_steps, (&msg,), steps),
        call_ensures(ProgressMsg::current_percent, (&msg,), percent),
        call_ensures(ProgressMsg::cur_image, (&msg,), image),
        call_ensures(ProgressMsg::hnd_name, (&msg,), handler),
        call_ensures(ProgressMsg::info, (&msg,), info),
    ensures
        step == msg.cur_step,
        steps == msg.nsteps,
        percent == msg.cur_percent,
        image@ == utf8_lossy(c_bytes(msg.cur_image@)),
        handler@ == utf8_lossy(c_bytes(msg.hnd_name@)),
        msg.infolen <= msg.info@.len() ==> info@ == utf8_lossy(msg.info@.take(msg.infolen as int)),
        msg.infolen > msg.info@.len() ==> info@ == utf8_lossy(msg.info@),
{
    if msg.infolen > msg.info@.len() {
        assert(msg.info@.take(msg.info@.len() as int) =~= msg.info@);
    }
}

/// An install is through, at 100 percent, exactly when it succeeded. Up to there
/// the steps that are done and the share of the current one count, at most 99;
/// without steps the further of download and step counts.
pub proof fn law_overall_percent(msg: ProgressMsg, percent: u32)
    requires
        call_ensures(ProgressMsg::overall_percent, (&msg,), percent),
    ensures
        percent == 100 <==> msg.status == 3,
        percent <= 100,
        msg.status != 3 && 0 < msg.cur_step <= msg.nsteps <= 42949672
            && msg.cur_percent <= 100 ==> {
            let share = (100 * (msg.cur_step - 1) + msg.cur_percent) / msg.nsteps as int;
            &&& share <= 99 ==> percent == share
            &&& share > 99 ==> percent == 99
        },
        msg.status != 3 && 0 < msg.cur_step <= msg.nsteps <= 42949672 && msg.cur_percent > 100 ==> {
            let share = 100 * msg.cur_step / msg.nsteps as int;
            &&& share <= 99 ==> percent == share
            &&& share > 99 ==> percent == 99
        },
        msg.status != 3 && 42949672 < msg.cur_step - 1 < msg.nsteps ==> percent == 4294967295int
            / msg.nsteps as int,
        msg.status != 3 && 0 < msg.nsteps < msg.cur_step && msg.nsteps <= 42949672 ==> percent
            == 99,
        msg.status != 3 && (msg.nsteps == 0 || msg.cur_step == 0) ==> {
            &&& msg.cur_percent >= 99 || msg.dwl_percent >= 99 ==> percent == 99
            &&& msg.cur_percent < 99 && msg.dwl_percent < 99 ==> (percent == msg.cur_percent
                || percent == msg.dwl_percent) && percent >= msg.cur_percent && percent
                >= msg.dwl_percent
        },
{
    let n = msg.nsteps as int;
    if msg.status != 3 && 0 < n < msg.cur_step && n <= 42949672 {
        let within = lesser(msg.cur_percent as int, 100);
        let total = lesser(n * 100 + within, u32::MAX as int);
        assert(n * 100 <= u32::MAX);
        assert(total / n >= 100) by (nonlinear_arith)
            requires
                n > 0,
                total >= n * 100,
        ;
    }
    if msg.status != 3 && 42949672 < msg.cur_step - 1 < n {
        assert(4294967295int / n <= 99) by (nonlinear_arith)
            requires
                n > 42949673,
        ;
    }
}

/// A further step done never takes an install back.
pub proof fn law_percent_grows(earlier: ProgressMsg, later: ProgressMsg, before: u32, after: u32)
    requires
        call_ensures(ProgressMsg::overall_percent, (&earlier,), before),
        call_ensures(ProgressMsg::overall_percent, (&later,), after),
        earlier.status != 3,
        0 < earlier.nsteps == later.nsteps <= 42949672,
        0 < earlier.cur_step <= later.cur_step <= later.nsteps,
        earlier.cur_percent <= 100 && later.cur_percent <= 100,
        earlier.cur_step == later.cur_step ==> earlier.cur_percent <= later.cur_percent,
    ensures
        before <= after,
{
    law_overall_percent(earlier, before);
    law_overall_percent(later, after);
    if later.status != 3 {
        let n = later.nsteps as int;
        let a = 100 * (earlier.cur_step - 1) + earlier.cur_percent;
        let b = 100 * (later.cur_step - 1) + later.cur_percent;
        assert(a <= b);
        vstd::arithmetic::div_mod::lemma_div_is_ordered(a, b, n);
    }
}

/// An acknowledgement is taken from a daemon of major version 2, whatever its
/// minor one, and with the magic string `ACK` and a NUL.
pub proof fn law_acknowledgement(bytes: &[u8], ack: ProgressConnectAck, major: bool, magic: bool)
    requires
        bytes@.len() == 8,
        call_ensures(ProgressConnectAck::from_bytes, (bytes,), ack),
        call_ensures(ProgressConnectAck::is_major_compatible, (&ack,), major),
        call_ensures(ProgressConnectAck::has_valid_magic, (&ack,), magic),
    ensures
        major <==> bytes@[2] + 256 * bytes@[3] == 2,
        magic <==> bytes@.subrange(4, 8) == seq![65u8, 67u8, 75u8, 0u8],
        ack.apiversion == bytes@[0] + 256 * bytes@[1] + 65536 * bytes@[2] + 16777216 * bytes@[3],
{
    let low = bytes@[0] + 256 * bytes@[1];
    let high = bytes@[2] + 256 * bytes@[3];
    assert((low + 65536 * high) / 65536 == high);
    reveal_strlit("ACK");
    vstd::utf8::is_ascii_chars_encode_utf8("ACK"@);
    assert("ACK".spec_bytes() =~= seq![65u8, 67u8, 75u8]);
    let field = bytes@.subrange(4, 8);
    if field == seq![65u8, 67u8, 75u8, 0u8] {
        lemma_nul_position(field, 3);
        assert(c_bytes(field) =~= seq![65u8, 67u8, 75u8]);
    }
    if magic {
        let word = c_bytes(field);
        lemma_nul_found(field);
        assert(word.len() == 3);
        assert(word[0] == 65 && word[1] == 67 && word[2] == 75);
        assert(field[0] == word[0] && field[1] == word[1] && field[2] == word[2]);
        assert(field =~= seq![65u8, 67u8, 75u8, 0u8]);
    }
}

proof fn lemma_nul_found(s: Seq<u8>)
    ensures
        0 <= nul_position(s) <= s.len(),
        nul_position(s) < s.len() ==> s[nul_position(s)] == 0,
    decreases s.len(),
{
    if s.len() > 0 && s[0] != 0 {
        lemma_nul_found(s.drop_first());
    }
}

/// A new request is of version 1 and from an unknown source, leaves the way to run
/// it to the daemon, and selects nothing.
pub proof fn law_prepared_request(request: SwupdateRequest, bytes: Vec<u8>)
    requires
        call_ensures(SwupdateRequest::prepare, (), request),
        call_ensures(SwupdateRequest::to_bytes, (&request,), bytes),
    ensures
        bytes@[0] == 1,
        forall|i: int| 0 < i < bytes@.len() ==> #[trigger] bytes@[i] == 0,
{
}

/// Zeroed frames hold nothing but zeros, and a frame has the type that its number
/// says.
pub proof fn law_zeroed(
    msg: IpcMessage,
    progress: ProgressMsg,
    ack: ProgressConnectAck,
    n: usize,
    bytes: Vec<u8>,
    type_: MsgType,
    code: i32,
    some: IpcMessage,
    has: bool,
    i: int,
)
    requires
        call_ensures(IpcMessage::zeroed, (), msg),
        call_ensures(ProgressMsg::zeroed, (), progress),
        call_ensures(ProgressConnectAck::zeroed, (), ack),
        call_ensures(zero_bytes, (n,), bytes),
        call_ensures(MsgType::code, (type_,), code),
        call_ensures(IpcMessage::has_type, (&some, type_), has),
    ensures
        msg.magic == 0 && msg.type_ == 0,
        0 <= i < msg.data@.len() ==> msg.data@[i] == 0,
        progress.status == 0 && progress.nsteps == 0 && progress.cur_step == 0
            && progress.cur_percent == 0 && progress.dwl_percent == 0,
        progress.cur_image@.len() == 256 && progress.hnd_name@.len() == 64 && progress.info@.len()
            == 2048,
        ack.apiversion == 0 && ack.magic@.len() == 4,
        bytes@.len() == n && (0 <= i < n ==> bytes@[i] == 0),
        has <==> some.type_ == code,
{
}

/// A selection is written into its own field and leaves the other fields.
pub proof fn law_selections(
    request: &mut SwupdateRequest,
    other: &mut SwupdateRequest,
    value: &str,
    set: Result<(), Error>,
    mode: Result<(), Error>,
    i: int,
)
    requires
        old(request).wf(),
        old(other).wf(),
        0 <= i < 256,
        call_ensures(SwupdateRequest::set_software_set, (request, value), set),
        call_ensures(SwupdateRequest::set_running_mode, (other, value), mode),
    ensures
        set is Ok <==> value.spec_bytes().len() <= 255,
        mode is Ok <==> value.spec_bytes().len() <= 255,
        set is Ok ==> final(request).software_set@[i] == (if i < value.spec_bytes().len() {
            value.spec_bytes()[i]
        } else {
            0u8
        }),
        mode is Ok ==> final(other).running_mode@[i] == (if i < value.spec_bytes().len() {
            value.spec_bytes()[i]
        } else {
            0u8
        }),
        final(request).running_mode == old(request).running_mode && final(other).software_set
            == old(other).software_set,
        final(request).dry_run == old(request).dry_run
            && final(other).dry_run == old(other).dry_run,
        final(request).apiversion == old(request).apiversion
            && final(other).apiversion == old(other).apiversion,
        final(request).source == old(request).source && final(other).source == old(other).source,
        final(request).len == old(request).len && final(other).len == old(other).len,
        final(request).info == old(request).info && final(other).info == old(other).info,
        final(request).disable_store_swu == old(request).disable_store_swu
            && final(other).disable_store_swu == old(other).disable_store_swu,
{
}

/// An install request is stored at the front of the payload, and the rest stays.
pub proof fn law_stored_request(
    msg: &mut IpcMessage,
    request: SwupdateRequest,
    bytes: Vec<u8>,
    i: int,
)
    requires
        old(msg).wf(),
        request.wf(),
        call_ensures(SwupdateRequest::to_bytes, (&request,), bytes),
        call_ensures(IpcMessage::set_install_request, (msg, request), ()),
        0 <= i < old(msg).data@.len(),
    ensures
        final(msg).data@[i] == (if i < bytes@.len() {
            bytes@[i]
        } else {
            old(msg).data@[i]
        }),
        final(msg).magic == old(msg).magic && final(msg).type_ == old(msg).type_,
{
}

/// A text is read from a field up to its first NUL.
pub proof fn law_read_field(
    value: &[u8],
    rest: Seq<u8>,
    field: &[u8],
    text: String,
    plain: String,
    status: ProgressMsg,
    read: Result<RecoveryStatus, u32>,
    same: Result<RecoveryStatus, u32>,
)
    requires
        forall|i: int| 0 <= i < value@.len() ==> value@[i] != 0,
        field@ == value@ + seq![0u8] + rest || field@ == value@,
        call_ensures(read_c_string, (field,), text),
        call_ensures(lossy_text, (value,), plain),
        call_ensures(ProgressMsg::status, (&status,), read),
        call_ensures(decode_recovery_status, (status.status,), same),
    ensures
        text@ == plain@,
        read == same,
{
    law_c_strings(value@, rest);
}

/// The numbers of the interface: the magic number, the versions, and the sizes of the
/// frames on machines with words of eight and of four bytes.
pub proof fn law_interface_numbers()
    ensures
        IPC_MAGIC == 0x14052001,
        SWUPDATE_API_VERSION == 1,
        PROGRESS_API_MAJOR == 2 && PROGRESS_API_MINOR == 0 && PROGRESS_API_PATCH == 0,
        PROGRESS_API_VERSION == 65536 * PROGRESS_API_MAJOR + 256 * PROGRESS_API_MINOR
            + PROGRESS_API_PATCH,
        PROGRESS_CONNECT_ACK_MAGIC@ == "ACK"@ && PROGRESS_CONNECT_ACK_LEN == 8,
        WORD_LEN == 8 || WORD_LEN == 4,
        WORD_LEN == 8 ==> REQUEST_INFO_AT == 24 && SWUPDATE_REQUEST_LEN == 1056 && MSG_DATA_LEN
            == 3112 && IPC_MESSAGE_LEN == 3120,
        WORD_LEN == 4 ==> REQUEST_INFO_AT == 16 && SWUPDATE_REQUEST_LEN == 1044 && MSG_DATA_LEN
            == 3096 && IPC_MESSAGE_LEN == 3104,
{
}

} // verus!
