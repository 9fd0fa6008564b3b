//! Install parameters and installer status, and how they travel in frames.

use vstd::prelude::*;
use vstd::string::StringSliceAdditionalSpecFns;
use vstd::utf8::encode_utf8;

use crate::swupdate_ipc::error::Error;
use crate::swupdate_ipc::proto::{
    c_bytes, c_field, flag_field, law_c_field_round_trip, length_field, splice, status_of, zeros,
    IpcMessage, MsgType, RecoveryStatus, RunType, SourceType, SwupdateRequest, MSG_DATA_LEN,
    REQUEST_INFO_AT, SWUPDATE_API_VERSION, SWUPDATE_REQUEST_LEN, WORD_LEN,
};
use crate::text::utf8_lossy;
use crate::wire::{law_le32_round_trip, le32, le32_at, word_of};

verus! {

/// Source that initiated an install.
#[derive(Debug, Clone, Copy, PartialEq, Eq, Structural)]
pub enum InstallSource {
    /// Unknown source.
    Unknown,
    /// Integrated web server.
    Webserver,
    /// Suricatta (hawkBit) client.
    Suricatta,
    /// Generic downloader.
    Downloader,
    /// Local installation.
    Local,
    /// Chunked downloader.
    ChunksDownloader,
}

impl Default for InstallSource {
    fn default() -> (source: Self)
        ensures
            source == InstallSource::Unknown,
    {
        InstallSource::Unknown
    }
}

impl InstallSource {
    /// The source as it is named in a request.
    pub open spec fn spec_source_type(self) -> SourceType {
        match self {
            InstallSource::Unknown => SourceType::SOURCE_UNKNOWN,
            InstallSource::Webserver => SourceType::SOURCE_WEBSERVER,
            InstallSource::Suricatta => SourceType::SOURCE_SURICATTA,
            InstallSource::Downloader => SourceType::SOURCE_DOWNLOADER,
            InstallSource::Local => SourceType::SOURCE_LOCAL,
            InstallSource::ChunksDownloader => SourceType::SOURCE_CHUNKS_DOWNLOADER,
        }
    }

    /// The source as it is named in a request.
    pub fn source_type(self) -> (source: SourceType)
        ensures
            source == self.spec_source_type(),
    {
        match self {
            InstallSource::Unknown => SourceType::SOURCE_UNKNOWN,
            InstallSource::Webserver => SourceType::SOURCE_WEBSERVER,
            InstallSource::Suricatta => SourceType::SOURCE_SURICATTA,
            InstallSource::Downloader => SourceType::SOURCE_DOWNLOADER,
            InstallSource::Local => SourceType::SOURCE_LOCAL,
            InstallSource::ChunksDownloader => SourceType::SOURCE_CHUNKS_DOWNLOADER,
        }
    }
}

/// Mode used to run an install.
#[derive(Debug, Clone, Copy, PartialEq, Eq, Structural)]
pub enum InstallMode {
    /// The daemon's default.
    Default,
    /// Validate the image without writing it.
    DryRun,
    /// Perform a real installation.
    Install,
}

impl Default for InstallMode {
    fn default() -> (mode: Self)
        ensures
            mode == InstallMode::Default,
    {
        InstallMode::Default
    }
}

impl InstallMode {
    /// The mode as it is named in a request.
    pub open spec fn spec_run_type(self) -> RunType {
        match self {
            InstallMode::Default => RunType::RUN_DEFAULT,
            InstallMode::DryRun => RunType::RUN_DRYRUN,
            InstallMode::Install => RunType::RUN_INSTALL,
        }
    }

    /// The mode as it is named in a request.
    pub fn run_type(self) -> (run: RunType)
        ensures
            run == self.spec_run_type(),
    {
        match self {
            InstallMode::Default => RunType::RUN_DEFAULT,
            InstallMode::DryRun => RunType::RUN_DRYRUN,
            InstallMode::Install => RunType::RUN_INSTALL,
        }
    }
}

/// Install parameters, encoded by the IPC client before sending.
#[derive(Debug, Clone, PartialEq, Eq, Default)]
pub struct InstallRequest {
    /// Selected software set.
    pub software_set: String,
    /// Selected running mode.
    pub running_mode: String,
    /// Source that initiates the install.
    pub source: InstallSource,
    /// How to run the install.
    pub mode: InstallMode,
    /// When `true`, the daemon must not persist the received SWU.
    pub disable_store_swu: bool,
}

impl InstallRequest {
    /// Both selections fit their fields, with room for a terminating NUL.
    pub open spec fn fits(self) -> bool {
        encode_utf8(self.software_set@).len() < 256 && encode_utf8(self.running_mode@).len() < 256
    }

    /// The request as the daemon reads it.
    pub open spec fn layout(self) -> Seq<u8> {
        le32(SWUPDATE_API_VERSION) + le32(word_of(self.source.spec_source_type().spec_code()))
            + le32(word_of(self.mode.spec_run_type().spec_code())) + length_field(0) + zeros(512)
            + c_field(encode_utf8(self.software_set@), 256) + c_field(
            encode_utf8(self.running_mode@),
            256,
        ) + flag_field(self.disable_store_swu)
    }

    /// The wire form of this request. It fails exactly when a selection does
    /// not fit its field.
    pub fn to_request(&self) -> (request: Result<SwupdateRequest, Error>)
        ensures
            request is Ok <==> self.fits(),
            request matches Ok(r) ==> r.wf() && r.layout() == self.layout() && r.source
                == self.source.spec_source_type() && r.dry_run == self.mode.spec_run_type()
                && r.disable_store_swu == self.disable_store_swu,
            request matches Err(e) ==> e.rejects("string does not fit its field"@),
    {
        let mut raw = SwupdateRequest::prepare();
        raw.source = self.source.source_type();
        raw.dry_run = self.mode.run_type();
        raw.disable_store_swu = self.disable_store_swu;
        match raw.set_software_set(self.software_set.as_str()) {
            Ok(()) => {},
            Err(err) => {
                return Err(err);
            },
        }
        match raw.set_running_mode(self.running_mode.as_str()) {
            Ok(()) => {},
            Err(err) => {
                return Err(err);
            },
        }
        Ok(raw)
    }

    /// Encodes this request as a raw SWUpdate IPC frame. It fails exactly when
    /// a selection does not fit its field.
    pub fn encode(&self) -> (message: Result<IpcMessage, Error>)
        ensures
            message is Ok <==> self.fits(),
            message matches Ok(m) ==> m.wf() && m.magic
                == crate::swupdate_ipc::proto::IPC_MAGIC && m.type_
                == MsgType::REQ_INSTALL.spec_code() && m.data@ == splice(
                zeros(MSG_DATA_LEN as nat),
                0,
                self.layout(),
            ),
            message matches Err(e) ==> e.rejects("string does not fit its field"@),
    {
        let request = match self.to_request() {
            Ok(request) => request,
            Err(err) => {
                return Err(err);
            },
        };
        let mut message = IpcMessage::new(MsgType::REQ_INSTALL);
        message.set_install_request(request);
        Ok(message)
    }
}

/// The daemon finds in an encoded request the parameters that were put in:
/// source and mode by their numbers, and the selections, where they hold no
/// NUL, as C strings.
pub proof fn law_install_request_fields(request: InstallRequest)
    requires
        request.fits(),
    ensures
        ({
            let data = splice(zeros(MSG_DATA_LEN as nat), 0, request.layout());
            let set = encode_utf8(request.software_set@);
            let mode = encode_utf8(request.running_mode@);
            &&& data.len() == MSG_DATA_LEN
            &&& le32_at(data, 0) == SWUPDATE_API_VERSION
            &&& le32_at(data, 4) == word_of(request.source.spec_source_type().spec_code())
            &&& le32_at(data, 8) == word_of(request.mode.spec_run_type().spec_code())
            &&& (forall|i: int| 0 <= i < set.len() ==> set[i] != 0) ==> c_bytes(
                data.subrange(REQUEST_INFO_AT + 512, REQUEST_INFO_AT + 768),
            ) == set
            &&& (forall|i: int| 0 <= i < mode.len() ==> mode[i] != 0) ==> c_bytes(
                data.subrange(REQUEST_INFO_AT + 768, REQUEST_INFO_AT + 1024),
            ) == mode
            &&& data[REQUEST_INFO_AT + 1024] == (if request.disable_store_swu {
                1u8
            } else {
                0u8
            })
        }),
{
    let data = splice(zeros(MSG_DATA_LEN as nat), 0, request.layout());
    let set = encode_utf8(request.software_set@);
    let mode = encode_utf8(request.running_mode@);
    let source = word_of(request.source.spec_source_type().spec_code());
    let run = word_of(request.mode.spec_run_type().spec_code());
    let words = le32(SWUPDATE_API_VERSION) + le32(source) + le32(run);
    let head = words + length_field(0) + zeros(512);
    let flag = flag_field(request.disable_store_swu);
    let rest = zeros((MSG_DATA_LEN - SWUPDATE_REQUEST_LEN) as nat);
    assert(head.len() == REQUEST_INFO_AT + 512) by {
        assert(words.len() == 12);
        assert(length_field(0).len() == REQUEST_INFO_AT - 12);
    }
    assert(flag.len() == WORD_LEN);
    assert(flag[0] == (if request.disable_store_swu {
        1u8
    } else {
        0u8
    }));
    let layout = head + c_field(set, 256) + c_field(mode, 256) + flag;
    assert(request.layout() == layout);
    lemma_over_zeros(layout, MSG_DATA_LEN as nat, rest);
    lemma_request_parts(head, c_field(set, 256), c_field(mode, 256), flag, rest);
    assert(head.take(12) =~= words);
    lemma_request_words(source, run, data);
    if forall|i: int| 0 <= i < set.len() ==> set[i] != 0 {
        law_c_field_round_trip(set, 256);
    }
    if forall|i: int| 0 <= i < mode.len() ==> mode[i] != 0 {
        law_c_field_round_trip(mode, 256);
    }
}

/// Each byte of the selections stands in its field, and NULs behind them.
pub proof fn lemma_selection_bytes(request: InstallRequest, i: int)
    requires
        request.fits(),
        0 <= i < 256,
    ensures
        ({
            let data = splice(zeros(MSG_DATA_LEN as nat), 0, request.layout());
            let set = encode_utf8(request.software_set@);
            let mode = encode_utf8(request.running_mode@);
            &&& data[REQUEST_INFO_AT + 512 + i] == (if i < set.len() {
                set[i]
            } else {
                0u8
            })
            &&& data[REQUEST_INFO_AT + 768 + i] == (if i < mode.len() {
                mode[i]
            } else {
                0u8
            })
        }),
{
    let set = encode_utf8(request.software_set@);
    let mode = encode_utf8(request.running_mode@);
    let source = word_of(request.source.spec_source_type().spec_code());
    let run = word_of(request.mode.spec_run_type().spec_code());
    let head = le32(SWUPDATE_API_VERSION) + le32(source) + le32(run) + length_field(0) + zeros(512);
    let flag = flag_field(request.disable_store_swu);
    let rest = zeros((MSG_DATA_LEN - SWUPDATE_REQUEST_LEN) as nat);
    assert(head.len() == REQUEST_INFO_AT + 512) by {
        assert(length_field(0).len() == REQUEST_INFO_AT - 12);
    }
    assert(flag.len() == WORD_LEN);
    let layout = head + c_field(set, 256) + c_field(mode, 256) + flag;
    assert(request.layout() == layout);
    lemma_over_zeros(layout, MSG_DATA_LEN as nat, rest);
    lemma_request_parts(head, c_field(set, 256), c_field(mode, 256), flag, rest);
    let data = splice(zeros(MSG_DATA_LEN as nat), 0, request.layout());
    let at = head.len() as int;
    assert(data.subrange(at, at + 256)[i] == data[at + i]);
    assert(data.subrange(at + 256, at + 512)[i] == data[at + 256 + i]);
}

proof fn lemma_over_zeros(part: Seq<u8>, len: nat, rest: Seq<u8>)
    requires
        part.len() <= len,
        rest == zeros((len - part.len()) as nat),
    ensures
        splice(zeros(len), 0, part) == part + rest,
{
    assert(splice(zeros(len), 0, part) =~= part + rest);
}

proof fn lemma_request_words(source: u32, run: u32, data: Seq<u8>)
    requires
        data.len() >= 12,
        data.take(12) == le32(SWUPDATE_API_VERSION) + le32(source) + le32(run),
    ensures
        le32_at(data, 0) == SWUPDATE_API_VERSION,
        le32_at(data, 4) == source,
        le32_at(data, 8) == run,
{
    let version = le32(SWUPDATE_API_VERSION);
    let words = data.take(12);
    law_le32_round_trip(SWUPDATE_API_VERSION, Seq::empty(), le32(source) + le32(run));
    law_le32_round_trip(source, version, le32(run));
    law_le32_round_trip(run, version + le32(source), Seq::empty());
    assert(Seq::<u8>::empty() + version + (le32(source) + le32(run)) =~= words);
    assert(version + le32(source) + le32(run) + Seq::<u8>::empty() =~= words);
    assert(forall|i: int| 0 <= i < 12 ==> words[i] == data[i]);
}

proof fn lemma_request_parts(
    head: Seq<u8>,
    set: Seq<u8>,
    mode: Seq<u8>,
    flag: Seq<u8>,
    rest: Seq<u8>,
)
    requires
        set.len() == 256,
        mode.len() == 256,
        flag.len() > 0,
    ensures
        ({
            let whole = head + set + mode + flag + rest;
            let at = head.len() as int;
            &&& whole.subrange(at, at + 256) == set
            &&& whole.subrange(at + 256, at + 512) == mode
            &&& whole[at + 512] == flag[0]
            &&& head.len() >= 12 ==> whole.take(12) == head.take(12)
        }),
{
    let whole = head + set + mode + flag + rest;
    let at = head.len() as int;
    assert(whole.subrange(at, at + 256) =~= set);
    assert(whole.subrange(at + 256, at + 512) =~= mode);
    if head.len() >= 12 {
        assert(whole.take(12) =~= head.take(12));
    }
}

/// Decoded control-socket installer status.
#[derive(Debug, Clone, PartialEq, Eq)]
pub struct InstallStatus {
    /// What the installer is doing.
    pub current: Option<RecoveryStatus>,
    /// Result of the last completed installation.
    pub last_result: Option<RecoveryStatus>,
    /// Human-readable description.
    pub description: String,
}

impl InstallStatus {
    /// Decodes a status reply received from the control socket.
    pub fn decode(message: &IpcMessage) -> (status: InstallStatus)
        requires
            message.wf(),
        ensures
            status.current == status_of(le32_at(message.data@, 0)),
            status.last_result == status_of(le32_at(message.data@, 4)),
            status.description@ == utf8_lossy(c_bytes(message.data@.subrange(12, 2060))),
            vstd::utf8::valid_utf8(c_bytes(message.data@.subrange(12, 2060)))
                ==> status.description@ == vstd::utf8::decode_utf8(
                c_bytes(message.data@.subrange(12, 2060)),
            ),
    {
        let (current, last_result) = message.install_statuses();
        let (_, description) = message.install_status_description();
        InstallStatus { current, last_result, description }
    }
}

// ---------------------------------------------------------------------------
// Laws
// ---------------------------------------------------------------------------

/// Every source and every mode is named in a request by its own number.
pub proof fn law_named_by_number(
    source: InstallSource,
    named: SourceType,
    n: i32,
    mode: InstallMode,
    run: RunType,
    m: i32,
)
    requires
        call_ensures(InstallSource::source_type, (source,), named),
        call_ensures(SourceType::code, (named,), n),
        call_ensures(InstallMode::run_type, (mode,), run),
        call_ensures(RunType::code, (run,), m),
    ensures
        source is Unknown ==> n == 0,
        source is Webserver ==> n == 1,
        source is Suricatta ==> n == 2,
        source is Downloader ==> n == 3,
        source is Local ==> n == 4,
        source is ChunksDownloader ==> n == 5,
        mode is Default ==> m == 0,
        mode is DryRun ==> m == 1,
        mode is Install ==> m == 2,
{
}

/// The wire form of a request holds its parameters, and there is one exactly where
/// both selections leave room for a NUL.
pub proof fn law_wire_form(request: InstallRequest, wire: Result<SwupdateRequest, Error>)
    requires
        call_ensures(InstallRequest::to_request, (&request,), wire),
    ensures
        wire is Ok <==> encode_utf8(request.software_set@).len() <= 255 && encode_utf8(
            request.running_mode@,
        ).len() <= 255,
        wire matches Ok(w) ==> {
            &&& request.mode is DryRun <==> w.dry_run is RUN_DRYRUN
            &&& request.mode is Install <==> w.dry_run is RUN_INSTALL
            &&& request.source is Local <==> w.source is SOURCE_LOCAL
            &&& w.disable_store_swu == request.disable_store_swu
        },
{
}

/// An encoded request carries the magic number and the type 0, and in its first
/// twelve bytes the version 1, the number of the source and that of the mode.
pub proof fn law_encoded(
    request: InstallRequest,
    message: IpcMessage,
    source: SourceType,
    n: i32,
    run: RunType,
    m: i32,
)
    requires
        call_ensures(InstallRequest::encode, (&request,), Ok(message)),
        call_ensures(InstallSource::source_type, (request.source,), source),
        call_ensures(SourceType::code, (source,), n),
        call_ensures(InstallMode::run_type, (request.mode,), run),
        call_ensures(RunType::code, (run,), m),
    ensures
        message.magic == 0x14052001 && message.type_ == 0,
        le32_at(message.data@, 0) == 1,
        le32_at(message.data@, 4) == n,
        le32_at(message.data@, 8) == m,
        message.data@[REQUEST_INFO_AT + 1024] == 1 <==> request.disable_store_swu,
{
    law_install_request_fields(request);
}

/// A status reply is decoded word by word: the status first, the last result next,
/// and the description from byte 12 on.
pub proof fn law_decoded_status(
    message: IpcMessage,
    status: InstallStatus,
    statuses: (Option<RecoveryStatus>, Option<RecoveryStatus>),
)
    requires
        message.wf(),
        call_ensures(InstallStatus::decode, (&message,), status),
        call_ensures(IpcMessage::install_statuses, (&message,), statuses),
    ensures
        status.current == statuses.0,
        status.last_result == statuses.1,
        status.description@ == utf8_lossy(c_bytes(message.data@.subrange(12, 2060))),
{
}

/// Nothing else is sent along: the free-form information and its length, and all
/// that follows the flag, are zeros.
pub proof fn law_nothing_else(request: InstallRequest, message: IpcMessage, i: int)
    requires
        call_ensures(InstallRequest::encode, (&request,), Ok(message)),
    ensures
        12 <= i < 8 + 2 * WORD_LEN + 512 ==> message.data@[i] == 0,
        8 + 2 * WORD_LEN + 1024 < i < message.data@.len() ==> message.data@[i] == 0,
{
    let set = encode_utf8(request.software_set@);
    let mode = encode_utf8(request.running_mode@);
    let source = word_of(request.source.spec_source_type().spec_code());
    let run = word_of(request.mode.spec_run_type().spec_code());
    let words = le32(SWUPDATE_API_VERSION) + le32(source) + le32(run);
    let head = words + length_field(0) + zeros(512);
    let flag = flag_field(request.disable_store_swu);
    let rest = zeros((MSG_DATA_LEN - SWUPDATE_REQUEST_LEN) as nat);
    assert(words.len() == 12);
    assert(length_field(0).len() == REQUEST_INFO_AT - 12);
    assert(head.len() == REQUEST_INFO_AT + 512);
    assert(flag.len() == WORD_LEN);
    let body = c_field(set, 256) + c_field(mode, 256);
    let layout = head + c_field(set, 256) + c_field(mode, 256) + flag;
    assert(request.layout() == layout);
    lemma_over_zeros(layout, MSG_DATA_LEN as nat, rest);
    lemma_zero_parts(head, body, flag, rest, i);
    assert(head + c_field(set, 256) + c_field(mode, 256) =~= head + body);
    lemma_zero_length(i - 12);
    if 12 <= i < head.len() {
        lemma_zero_head(words, length_field(0), i);
    }
}

proof fn lemma_zero_length(i: int)
    ensures
        0 <= i < length_field(0).len() ==> length_field(0)[i] == 0,
{
}

proof fn lemma_zero_head(words: Seq<u8>, length: Seq<u8>, i: int)
    requires
        words.len() == 12,
        12 <= i < 12 + length.len() ==> length[i - 12] == 0,
        12 <= i < 12 + length.len() + 512,
    ensures
        (words + length + zeros(512))[i] == 0,
{
}

proof fn lemma_zero_parts(head: Seq<u8>, body: Seq<u8>, flag: Seq<u8>, rest: Seq<u8>, i: int)
    requires
        forall|j: int| 0 < j < flag.len() ==> flag[j] == 0,
        forall|j: int| 0 <= j < rest.len() ==> rest[j] == 0,
        flag.len() > 0,
    ensures
        0 <= i < head.len() ==> (head + body + flag + rest)[i] == head[i],
        head.len() + body.len() < i < (head + body + flag + rest).len() ==> (head + body + flag
            + rest)[i] == 0,
{
}

} // verus!
