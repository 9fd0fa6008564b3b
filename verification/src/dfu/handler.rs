//! The DFU state machine driven from endpoint zero.

use bytes::{Bytes, BytesMut};
use core::time::Duration;
use tokio::task::JoinHandle;
use vstd::prelude::*;
use vstd::slice::slice_subrange;

use crate::buffer::{self, contents, shared_contents};
use crate::checksum::{crc32, crc32_extend, crc32_of};
use crate::dfu::config::{DfuConfig, UploadSource};
use crate::dfu::protocol::{
    GetStatus, State, Status, ABORT, CLRSTATUS, DETACH, DNLOAD, GETSTATE, GETSTATUS, UPLOAD,
};
use crate::fault::{ErrorKind, IoError};
use crate::queue::{same_outlet, stops};
use crate::swupdate::config::{SwupdateParams, UpdateHost};
use crate::swupdate::restart::restart_message;
use crate::swupdate::session::{
    lemma_continues, lemma_flat_push, Feed, StatusTask, SwupdateSession,
};
use crate::time::milliseconds;
use crate::wire::{le32_at, read_le32};

verus! {

/// Bytes of the suffix at the end of a DFU file.
pub const DFU_SUFFIX_LEN: usize = 16;

/// Poll timeout while the update is installed, in milliseconds.
pub const MANIFEST_POLL_TIMEOUT_MS: u32 = 250;

/// A control request.
#[derive(Debug, Clone, Copy)]
pub struct CtrlReq {
    /// `bmRequestType`.
    pub request_type: u8,
    /// `bRequest`.
    pub request: u8,
    /// `wValue`.
    pub value: u16,
    /// `wIndex`.
    pub index: u16,
    /// `wLength`.
    pub length: u16,
}

/// A class request to an interface, in either direction.
pub open spec fn dfu_request(req: CtrlReq) -> bool {
    req.request_type == 0x21 || req.request_type == 0xa1
}

/// Returns whether a control request is a DFU class request directed at an
/// interface, i.e. one this handler is responsible for.
pub fn is_dfu_request(req: &CtrlReq) -> (r: bool)
    ensures
        r == dfu_request(*req),
{
    let t: u8 = req.request_type;
    proof {
        assert(((t & 0x60) == 0x20 && (t & 0x1f) == 0x01) == (t == 0x21 || t == 0xa1))
            by (bit_vector);
    }
    (t & 0x60) == 0x20 && (t & 0x1f) == 0x01
}

// ---------------------------------------------------------------------------
// The suffix
// ---------------------------------------------------------------------------

/// The sixteen bytes look like a DFU suffix, apart from their checksum.
pub open spec fn suffix_signature(tail: Seq<u8>) -> bool {
    &&& tail.len() == DFU_SUFFIX_LEN
    &&& tail[8] == 85 && tail[9] == 70 && tail[10] == 68  // "UFD"
    &&& tail[11] == DFU_SUFFIX_LEN
}

/// A file that ends with a valid DFU suffix: its last four bytes are the
/// inverted checksum of all that comes before them.
pub open spec fn has_suffix(file: Seq<u8>) -> bool {
    &&& file.len() >= DFU_SUFFIX_LEN
    &&& suffix_signature(file.skip(file.len() - DFU_SUFFIX_LEN))
    &&& le32_at(file, file.len() - 4) == !crc32(file.take(file.len() - 4))
}

/// What a file carries: all of it but for a valid DFU suffix.
pub open spec fn dfu_payload(file: Seq<u8>) -> Seq<u8> {
    if has_suffix(file) {
        file.take(file.len() - DFU_SUFFIX_LEN)
    } else {
        file
    }
}

/// How many of `total` bytes can be passed on: all but the last sixteen.
pub fn flushable_len(total: usize) -> (len: Option<usize>)
    ensures
        len == (if total > DFU_SUFFIX_LEN {
            Some((total - DFU_SUFFIX_LEN) as usize)
        } else {
            None
        }),
{
    if total > DFU_SUFFIX_LEN {
        Some(total - DFU_SUFFIX_LEN)
    } else {
        None
    }
}

/// Whether `tail` is a valid DFU suffix of a file whose earlier bytes have the
/// checksum `prefix_crc`.
pub fn has_valid_dfu_suffix(prefix_crc: u32, tail: &[u8]) -> (valid: bool)
    ensures
        forall|before: Seq<u8>| prefix_crc == #[trigger] crc32(before) ==> valid == (tail@.len()
            == DFU_SUFFIX_LEN && has_suffix(before + tail@)),
{
    if tail.len() != DFU_SUFFIX_LEN || tail[8] != 85 || tail[9] != 70 || tail[10] != 68 || tail[11]
        != 16 {
        proof {
            assert forall|before: Seq<u8>| prefix_crc == #[trigger] crc32(before) implies !(
            tail@.len() == DFU_SUFFIX_LEN && has_suffix(before + tail@)) by {
                if tail@.len() == DFU_SUFFIX_LEN {
                    let file = before + tail@;
                    assert(file.skip(file.len() - DFU_SUFFIX_LEN) =~= tail@);
                }
            }
        }
        return false;
    }
    let body = slice_subrange(tail, 0, 12);
    let crc: u32 = !crc32_extend(prefix_crc, body);
    let expected: u32 = read_le32(tail, 12);
    proof {
        assert forall|before: Seq<u8>| prefix_crc == #[trigger] crc32(before) implies (crc
            == expected) == has_suffix(before + tail@) by {
            let file = before + tail@;
            assert(file.skip(file.len() - DFU_SUFFIX_LEN) =~= tail@);
            assert(file.take(file.len() - 4) =~= before + body@);
            assert(le32_at(file, file.len() - 4) == le32_at(tail@, 12));
        }
    }
    crc == expected
}

/// A download so far: what has been passed on, and the window of at most
/// sixteen bytes that is held back because it may be a suffix.
pub struct Window {
    /// Passed on.
    pub flushed: Seq<u8>,
    /// Held back.
    pub tail: Seq<u8>,
}

/// Nothing downloaded yet.
pub open spec fn empty_window() -> Window {
    Window { flushed: Seq::empty(), tail: Seq::empty() }
}

/// The bytes of `tail` and `block` that can be passed on.
pub open spec fn flushable(tail: Seq<u8>, block: Seq<u8>) -> Seq<u8> {
    let all = tail + block;
    if all.len() > DFU_SUFFIX_LEN {
        all.take(all.len() - DFU_SUFFIX_LEN)
    } else {
        Seq::empty()
    }
}

/// The bytes of `tail` and `block` that are held back.
pub open spec fn held_back(tail: Seq<u8>, block: Seq<u8>) -> Seq<u8> {
    let all = tail + block;
    if all.len() > DFU_SUFFIX_LEN {
        all.skip(all.len() - DFU_SUFFIX_LEN)
    } else {
        all
    }
}

/// The download after one more block.
pub open spec fn absorb(window: Window, block: Seq<u8>) -> Window {
    Window {
        flushed: window.flushed + flushable(window.tail, block),
        tail: held_back(window.tail, block),
    }
}

/// The download after these blocks.
pub open spec fn absorb_all(blocks: Seq<Seq<u8>>) -> Window
    decreases blocks.len(),
{
    if blocks.len() == 0 {
        empty_window()
    } else {
        absorb(absorb_all(blocks.drop_last()), blocks.last())
    }
}

/// What a finished download hands on in all: the held-back window follows
/// unless it is a valid suffix.
pub open spec fn forwarded(window: Window) -> Seq<u8> {
    if window.tail.len() == DFU_SUFFIX_LEN && has_suffix(window.flushed + window.tail) {
        window.flushed
    } else {
        window.flushed + window.tail
    }
}

/// However a file is cut into blocks, what has been passed on and what is held
/// back are together the file, and as much of its end is held back as a suffix
/// can take.
pub proof fn law_window(blocks: Seq<Seq<u8>>)
    ensures
        ({
            let window = absorb_all(blocks);
            let file = crate::swupdate::session::flat(blocks);
            &&& window.flushed + window.tail == file
            &&& window.tail.len() == (if file.len() < DFU_SUFFIX_LEN {
                file.len() as int
            } else {
                DFU_SUFFIX_LEN as int
            })
        }),
    decreases blocks.len(),
{
    let window = absorb_all(blocks);
    let file = crate::swupdate::session::flat(blocks);
    if blocks.len() == 0 {
        assert(window.flushed + window.tail =~= file);
    } else {
        law_window(blocks.drop_last());
        let before = absorb_all(blocks.drop_last());
        let block = blocks.last();
        assert(flushable(before.tail, block) + held_back(before.tail, block) =~= before.tail
            + block);
        assert(window.flushed + window.tail =~= before.flushed + (flushable(before.tail, block)
            + held_back(before.tail, block)));
        assert(before.flushed + (before.tail + block) =~= (before.flushed + before.tail) + block);
    }
}

/// A finished download hands on the payload of the file and nothing else: a
/// valid suffix is stripped, anything else arrives unchanged, however the file
/// was cut into blocks.
pub proof fn law_payload(blocks: Seq<Seq<u8>>)
    ensures
        forwarded(absorb_all(blocks)) == dfu_payload(crate::swupdate::session::flat(blocks)),
{
    law_window(blocks);
    let window = absorb_all(blocks);
    let file = crate::swupdate::session::flat(blocks);
    if has_suffix(file) {
        assert(window.tail.len() == DFU_SUFFIX_LEN);
        assert(file.take(file.len() - DFU_SUFFIX_LEN) =~= window.flushed);
    }
}

// ---------------------------------------------------------------------------
// Replies
// ---------------------------------------------------------------------------

/// Payload returned for a DFU device-to-host control request.
#[derive(Debug)]
pub enum InReply {
    /// Small fixed-size payload.
    Inline {
        /// Holds the payload at its front.
        buf: [u8; 6],
        /// Length of the payload.
        len: usize,
    },
    /// Variable-size payload backed by shared bytes.
    Data(Bytes),
}

impl Clone for InReply {
    fn clone(&self) -> (copy: Self)
        ensures
            copy.wf() == self.wf(),
            copy.payload() == self.payload(),
    {
        match self {
            InReply::Inline { buf, len } => InReply::Inline { buf: *buf, len: *len },
            InReply::Data(data) => {
                let len: usize = buffer::shared_as_slice(data).len();
                let copy = InReply::Data(buffer::shared_slice(data, 0, len));
                assert(copy.payload() =~= self.payload());
                copy
            },
        }
    }
}

impl InReply {
    /// The payload fits its buffer.
    pub open spec fn wf(self) -> bool {
        self matches InReply::Inline { buf: _, len } ==> len <= 6
    }

    /// The payload.
    pub open spec fn payload(self) -> Seq<u8> {
        match self {
            InReply::Inline { buf, len } => buf@.take(len as int),
            InReply::Data(data) => shared_contents(data),
        }
    }

    /// Returns the payload as bytes.
    pub fn as_slice(&self) -> (bytes: &[u8])
        requires
            self.wf(),
        ensures
            bytes@ == self.payload(),
    {
        match self {
            InReply::Inline { buf, len } => {
                let part = slice_subrange(buf.as_slice(), 0, *len);
                assert(part@ =~= buf@.take(*len as int));
                part
            },
            InReply::Data(data) => buffer::shared_as_slice(data),
        }
    }

    fn from_state(state: State) -> (reply: InReply)
        ensures
            reply.wf(),
            reply.payload() == seq![state.spec_code()],
    {
        let buf: [u8; 6] = [state.code(), 0, 0, 0, 0, 0];
        let reply = InReply::Inline { buf, len: 1 };
        assert(buf@.take(1) =~= seq![state.spec_code()]);
        reply
    }
}

/// The bytes of an upload that belong to a block.
pub open spec fn upload_bytes(data: Seq<u8>, block: int, transfer_size: int) -> Seq<u8> {
    let start = if block * transfer_size < data.len() {
        block * transfer_size
    } else {
        data.len() as int
    };
    let end = if start + transfer_size < data.len() {
        start + transfer_size
    } else {
        data.len() as int
    };
    data.subrange(start, end)
}

/// The first `n` blocks of an upload, one after the other.
pub open spec fn uploaded(data: Seq<u8>, n: nat, transfer_size: int) -> Seq<u8>
    decreases n,
{
    if n == 0 {
        Seq::empty()
    } else {
        uploaded(data, (n - 1) as nat, transfer_size) + upload_bytes(
            data,
            n - 1,
            transfer_size,
        )
    }
}

/// The blocks of an upload, put together in order, are the data from its
/// start: once a block is shorter than the transfer size, all of it.
pub proof fn law_upload(data: Seq<u8>, n: nat, transfer_size: int)
    requires
        transfer_size > 0,
    ensures
        uploaded(data, n, transfer_size) == (if n * transfer_size < data.len() {
            data.take(n * transfer_size)
        } else {
            data
        }),
        n > 0 && upload_bytes(data, n - 1, transfer_size).len() < transfer_size ==> uploaded(
            data,
            n,
            transfer_size,
        ) == data,
    decreases n,
{
    if n == 0 {
        assert(uploaded(data, 0, transfer_size) =~= (if 0 < data.len() {
            data.take(0)
        } else {
            data
        }));
        assert(0 * transfer_size == 0);
    } else {
        law_upload(data, (n - 1) as nat, transfer_size);
        assert((n - 1) * transfer_size + transfer_size == n * transfer_size) by (nonlinear_arith);
        let last = upload_bytes(data, n - 1, transfer_size);
        if (n - 1) * transfer_size < data.len() {
            if n * transfer_size < data.len() {
                assert(data.take((n - 1) * transfer_size) + last =~= data.take(n * transfer_size));
            } else {
                assert(data.take((n - 1) * transfer_size) + last =~= data);
            }
        } else {
            assert(data + last =~= data);
        }
    }
}

// ---------------------------------------------------------------------------
// The state machine
// ---------------------------------------------------------------------------

/// The DFU state machine and active firmware sink.
pub struct Dfu {
    /// Maximum number of bytes per transaction.
    pub transfer_size: u16,
    /// Poll timeout told to the host, in milliseconds.
    pub poll_timeout_ms: u32,
    /// Settings of the update.
    pub download: SwupdateParams,
    /// The end of the download, held back because it may be a suffix.
    pub download_tail: Vec<u8>,
    /// Checksum of the download without its held-back end.
    pub download_crc: u32,
    /// Source that uploads are served from.
    pub upload: Option<UploadSource>,
    /// The active transfer.
    pub sink: Option<SwupdateSession>,
    /// A block that could not be queued yet (queue was full); retried before
    /// the next block and reported to the host as `dfuDNBUSY` until it is
    /// accepted.
    pub pending: Option<BytesMut>,
    /// State of the interface.
    pub state: State,
    /// Status of the interface.
    pub status: Status,
    /// A restart is due after a successful update.
    pub restart_due: bool,
    /// Status tasks that were asked to stop and have to be waited for.
    pub stopped: Vec<JoinHandle<Result<(), IoError>>>,
    /// The transfer that was last left to come to its verdict by itself.
    pub left: Option<SwupdateSession>,
    /// The download without its held-back end.
    pub flushed: Ghost<Seq<u8>>,
}

/// `sink`, with the end of the data signalled if the machine is manifesting.
pub open spec fn ended(sink: Option<SwupdateSession>, state: State) -> Option<SwupdateSession> {
    match sink {
        Some(s) => Some(
            if state == State::Manifest {
                SwupdateSession { tx: None, ..s }
            } else {
                s
            },
        ),
        None => None,
    }
}

impl Dfu {
    /// The sink is in order, no more than a suffix is held back, and the
    /// checksum is that of what has been passed on.
    pub open spec fn wf(self) -> bool {
        &&& self.sink matches Some(s) ==> s.wf()
        &&& self.download_tail@.len() <= DFU_SUFFIX_LEN
        &&& self.download_crc == crc32(self.flushed@)
    }

    /// The download so far.
    pub open spec fn window(self) -> Window {
        Window { flushed: self.flushed@, tail: self.download_tail@ }
    }

    /// What the sink has been fed, and the block that waits to be.
    pub open spec fn handed(self) -> Seq<u8> {
        (match self.sink {
            Some(s) => s.fed(),
            None => Seq::empty(),
        }) + (match self.pending {
            Some(b) => contents(b),
            None => Seq::empty(),
        })
    }

    /// A restart is due here or in the active transfer.
    pub open spec fn any_restart_due(self) -> bool {
        self.restart_due || (self.sink matches Some(s) && s.restart_due)
    }

    /// The transfer is being finished.
    pub open spec fn finishing(self) -> bool {
        self.state == State::Manifest || self.state == State::ManifestSync
    }

    /// Creates a new DFU handler with the given settings.
    pub fn new(config: DfuConfig) -> (dfu: Dfu)
        ensures
            dfu.wf(),
            dfu.transfer_size == config.transfer_size,
            dfu.poll_timeout_ms == config.poll_timeout_ms,
            dfu.download == config.download,
            dfu.upload == config.upload,
            dfu.sink matches Some(s) && s.fresh(config.download, config.transfer_size as usize),
            dfu.window() == empty_window(),
            dfu.pending is None,
            dfu.state == State::DfuIdle,
            dfu.status == Status::Okay,
            !dfu.restart_due,
            dfu.stopped@.len() == 0,
            dfu.left is None,
    {
        let DfuConfig { download, upload, transfer_size, poll_timeout_ms } = config;
        let sink = SwupdateSession::new(download.clone(), transfer_size as usize);
        let nothing: Vec<u8> = Vec::new();
        let download_crc: u32 = crc32_of(nothing.as_slice());
        assert(nothing@ =~= Seq::empty());
        Dfu {
            transfer_size,
            poll_timeout_ms,
            download,
            download_tail: Vec::new(),
            download_crc,
            upload,
            sink: Some(sink),
            pending: None,
            state: State::DfuIdle,
            status: Status::Okay,
            restart_due: false,
            stopped: Vec::new(),
            left: None,
            flushed: Ghost(Seq::empty()),
        }
    }

    /// Whether `self` is `before` with a fresh transfer in place of the active
    /// one and nothing passed on yet.
    pub open spec fn with_new_sink(self, before: Dfu) -> bool {
        &&& self.wf()
        &&& self == (Dfu {
            sink: self.sink,
            pending: None,
            download_crc: self.download_crc,
            flushed: self.flushed,
            restart_due: before.any_restart_due(),
            ..before
        })
        &&& self.sink matches Some(s) && s.fresh(before.download, before.transfer_size as usize)
        &&& self.flushed@ == Seq::<u8>::empty()
    }

    /// Puts a fresh transfer in place of the active one, which is handed out.
    fn renew_sink(&mut self) -> (earlier: Option<SwupdateSession>)
        requires
            old(self).wf(),
        ensures
            final(self).with_new_sink(*old(self)),
            earlier == old(self).sink,
    {
        let due: bool = match &self.sink {
            Some(sink) => sink.restart_due,
            None => false,
        };
        self.restart_due = self.restart_due || due;
        let earlier = self.sink.take();
        self.sink = Some(SwupdateSession::new(self.download.clone(), self.transfer_size as usize));
        self.pending = None;
        self.forget_checksum();
        earlier
    }

    fn forget_checksum(&mut self)
        ensures
            *final(self) == (Dfu {
                download_crc: final(self).download_crc,
                flushed: final(self).flushed,
                ..*old(self)
            }),
            final(self).flushed@ == Seq::<u8>::empty(),
            final(self).download_crc == crc32(Seq::empty()),
    {
        let nothing: Vec<u8> = Vec::new();
        self.download_crc = crc32_of(nothing.as_slice());
        assert(nothing@ =~= Seq::empty());
        self.flushed = Ghost(Seq::empty());
    }

    /// Whether `self` is `before` back at the start: idle, without error, with
    /// a fresh transfer and nothing downloaded.
    pub open spec fn back_to_start(self, before: Dfu) -> bool {
        &&& self.wf()
        &&& self == (Dfu {
            sink: self.sink,
            pending: None,
            state: State::DfuIdle,
            status: Status::Okay,
            download_tail: self.download_tail,
            download_crc: self.download_crc,
            flushed: self.flushed,
            restart_due: before.any_restart_due(),
            stopped: self.stopped,
            left: self.left,
            ..before
        })
        &&& self.sink matches Some(s) && s.fresh(before.download, before.transfer_size as usize)
        &&& self.window() == empty_window()
    }

    /// The status task of the active transfer, if one runs.
    pub open spec fn running_task(self) -> Option<JoinHandle<Result<(), IoError>>> {
        match self.sink {
            Some(s) => match s.status {
                Some(StatusTask::Running(task)) => Some(task),
                _ => None,
            },
            None => None,
        }
    }

    /// Whether the status task of `before`, if one ran, was asked to stop and
    /// is now to be waited for, behind those that were before.
    pub open spec fn stopping_from(self, before: Dfu) -> bool {
        match before.running_task() {
            Some(task) => {
                &&& self.stopped@.len() == before.stopped@.len() + 1
                &&& self.stopped@.drop_last() == before.stopped@
                &&& stops(task, self.stopped@.last())
            },
            None => self.stopped@ == before.stopped@,
        }
    }

    /// Tears the transfer down at once and goes back to the start.
    pub fn abort_transfer(&mut self)
        requires
            old(self).wf(),
        ensures
            final(self).back_to_start(*old(self)),
            final(self).left == old(self).left,
            final(self).stopping_from(*old(self)),
    {
        let task = match self.sink.as_mut() {
            Some(sink) => sink.abort(),
            None => None,
        };
        if let Some(task) = task {
            self.stopped.push(task);
            assert(self.stopped@.drop_last() =~= old(self).stopped@);
        }
        let _ = self.renew_sink();
        self.status = Status::Okay;
        self.state = State::DfuIdle;
        self.download_tail.clear();
        assert(self.window().tail =~= Seq::empty());
        assert(self.window().flushed =~= Seq::empty());
    }

    /// Idle-timeout duration for the endpoint-zero loop: `None` while
    /// genuinely idle (waiting for a transfer to start), otherwise derived
    /// from the poll interval already told to the host in `DFU_GETSTATUS`: a
    /// host that has not polled within many multiples of it is gone.
    pub fn dfu_idle_timeout(&self) -> (timeout: Option<Duration>)
        ensures
            timeout == (if self.state == State::DfuIdle {
                None
            } else {
                Some(
                    milliseconds(
                        ((if self.poll_timeout_ms > MANIFEST_POLL_TIMEOUT_MS {
                            self.poll_timeout_ms
                        } else {
                            MANIFEST_POLL_TIMEOUT_MS
                        }) * 20) as u64,
                    ),
                )
            }),
    {
        if self.state == State::DfuIdle {
            return None;
        }
        let interval: u32 = if self.poll_timeout_ms > MANIFEST_POLL_TIMEOUT_MS {
            self.poll_timeout_ms
        } else {
            MANIFEST_POLL_TIMEOUT_MS
        };
        Some(Duration::from_millis(interval as u64 * 20))
    }

    /// Whether the transfer of `before` was left to itself: no more data is
    /// fed, and the verdict can still come.
    pub open spec fn left_from(self, before: Dfu) -> bool {
        self.left == (match before.sink {
            Some(s) => Some(SwupdateSession { tx: None, ..s }),
            None => before.left,
        })
    }

    /// Takes the transfer that was last left to itself, if any.
    pub fn take_left(&mut self) -> (left: Option<SwupdateSession>)
        ensures
            old(self).wf() ==> final(self).wf(),
            left == old(self).left,
            *final(self) == (Dfu { left: None, ..*old(self) }),
    {
        self.left.take()
    }

    /// Called when the host goes quiet mid-transfer. Stops feeding SWUpdate,
    /// whose verdict can still come in the background, and goes back to the
    /// start, so that the next attempt starts clean. While idle nothing
    /// changes.
    pub fn reset_on_idle_timeout(&mut self)
        requires
            old(self).wf(),
        ensures
            old(self).state == State::DfuIdle ==> *final(self) == *old(self),
            old(self).state != State::DfuIdle ==> final(self).back_to_start(*old(self))
                && final(self).left_from(*old(self)),
            final(self).stopped@ == old(self).stopped@,
            final(self).wf(),
    {
        if self.state == State::DfuIdle {
            return;
        }
        if let Some(sink) = self.sink.as_mut() {
            sink.eof();
        }
        if let Some(sink) = self.renew_sink() {
            self.left = Some(sink);
        }
        self.status = Status::Okay;
        self.state = State::DfuIdle;
        self.download_tail.clear();
        assert(self.window().tail =~= Seq::empty());
        assert(self.window().flushed =~= Seq::empty());
    }

    /// Transitions to the error state with the given status.
    fn fault(&mut self, status: Status)
        ensures
            *final(self) == (Dfu { status, state: State::Error, ..*old(self) }),
    {
        self.status = status;
        self.state = State::Error;
    }

    /// Whether the transfer is in its manifestation (finalization) phase.
    pub fn is_finishing(&self) -> (r: bool)
        ensures
            r == self.finishing(),
    {
        matches!(self.state, State::Manifest | State::ManifestSync)
    }

    /// Whether pushing the held block of `before` can give `self` and `result`:
    /// a block that the queue has no room for stays held; one that it takes, or
    /// that SWUpdate no longer wants, is gone; and once no block is held while
    /// the machine is manifesting, the end of the data is signalled.
    pub open spec fn pushed(
        self,
        before: Dfu,
        host: UpdateHost,
        result: Result<bool, IoError>,
    ) -> bool {
        &&& self == (Dfu { sink: self.sink, pending: self.pending, ..before })
        &&& match before.pending {
            None => result == Ok::<bool, IoError>(false) && self.pending is None && self.sink
                == ended(before.sink, before.state),
            Some(chunk) => match before.sink {
                None => result == Ok::<bool, IoError>(true) && self == before,
                Some(sink) => match result {
                    Err(e) => {
                        &&& sink.idle() && host.restart_pending
                        &&& e.says(ErrorKind::Other, restart_message())
                        &&& self.pending is None
                        &&& self.sink == before.sink
                    },
                    Ok(stalled) => {
                        &&& !sink.idle() || !host.restart_pending
                        &&& exists|after: SwupdateSession, feed: Feed|
                            {
                                &&& #[trigger] after.after_feed(sink, host, contents(chunk), feed)
                                &&& after.wf()
                                &&& match feed {
                                    Feed::Full(back) => stalled && self.pending == Some(back)
                                        && self.sink == Some(after),
                                    _ => !stalled && self.pending is None && self.sink == ended(
                                        Some(after),
                                        before.state,
                                    ),
                                }
                            }
                    },
                },
            },
        }
    }

    /// Pushes the held block (if any) into the queue when space is available.
    /// Returns `true` while a block is still held (i.e. the host should keep
    /// seeing `dfuDNBUSY`).
    fn push_pending(&mut self, host: &UpdateHost) -> (result: Result<bool, IoError>)
        requires
            old(self).wf(),
        ensures
            final(self).wf(),
            final(self).pushed(*old(self), *host, result),
    {
        if let Some(chunk) = self.pending.take() {
            let outcome = match self.sink.as_mut() {
                Some(sink) => Some(sink.try_send(host, chunk)),
                None => {
                    self.pending = Some(chunk);
                    None
                },
            };
            match outcome {
                None => {
                    return Ok(true);
                },
                Some(Err(err)) => {
                    return Err(err);
                },
                Some(Ok(Feed::Full(back))) => {
                    self.pending = Some(back);
                    assert(self.sink->0.after_feed(
                        old(self).sink->0,
                        *host,
                        contents(old(self).pending->0),
                        Feed::Full(back),
                    ));
                    return Ok(true);
                },
                Some(Ok(feed)) => {
                    assert(self.sink->0.after_feed(
                        old(self).sink->0,
                        *host,
                        contents(old(self).pending->0),
                        feed,
                    ));
                },
            }
        }
        if self.state == State::Manifest {
            if let Some(sink) = self.sink.as_mut() {
                sink.eof();
            }
        }
        Ok(false)
    }

    /// Whether a look at the verdict can turn `before` into `self`. The verdict
    /// is looked at while the machine is manifesting or the transfer is open. A
    /// failure ends the transfer at any time; a success only counts once the
    /// machine is manifesting.
    pub open spec fn observed(self, before: Dfu) -> bool {
        let manifesting = before.state == State::Manifest;
        match before.sink {
            None => self == before,
            Some(sink) => if !manifesting && !sink.opened() {
                self == before
            } else {
                exists|looked: SwupdateSession, verdict: Option<Result<(), IoError>>|
                    {
                        &&& #[trigger] looked.after_look(sink, verdict)
                        &&& looked.wf()
                        &&& match verdict {
                            Some(Err(_)) => self.failed(Dfu { sink: Some(looked), ..before }),
                            Some(Ok(_)) => if manifesting {
                                self.succeeded(Dfu { sink: Some(looked), ..before })
                            } else {
                                self == (Dfu { sink: Some(looked), ..before })
                            },
                            None => self == (Dfu { sink: Some(looked), ..before }),
                        }
                    }
            },
        }
    }

    /// Whether `self` is `before` after SWUpdate failed.
    pub open spec fn failed(self, before: Dfu) -> bool {
        &&& (Dfu { status: before.status, state: before.state, ..self }).with_new_sink(before)
        &&& self.status == Status::ErrVerify
        &&& self.state == State::Error
    }

    /// Whether `self` is `before` after SWUpdate succeeded.
    pub open spec fn succeeded(self, before: Dfu) -> bool {
        &&& (Dfu { status: before.status, state: before.state, ..self }).with_new_sink(before)
        &&& self.status == Status::Okay
        &&& self.state == State::ManifestSync
    }

    fn observe(&mut self)
        requires
            old(self).wf(),
        ensures
            final(self).wf(),
            final(self).observed(*old(self)),
    {
        let manifesting: bool = self.state == State::Manifest;
        let verdict = match self.sink.as_mut() {
            Some(sink) => if manifesting || sink.is_open() {
                sink.try_finished()
            } else {
                None
            },
            None => None,
        };
        let ghost looked = *self;
        match verdict {
            Some(Err(_err)) => {
                let _ = self.renew_sink();
                self.fault(Status::ErrVerify);
                assert((Dfu { status: looked.status, state: looked.state, ..*self }).with_new_sink(
                    looked,
                ));
            },
            Some(Ok(())) => {
                if manifesting {
                    let _ = self.renew_sink();
                    self.status = Status::Okay;
                    self.state = State::ManifestSync;
                    assert((Dfu {
                        status: looked.status,
                        state: looked.state,
                        ..*self
                    }).with_new_sink(looked));
                }
            },
            None => {},
        }
        proof {
            if let Some(sink) = old(self).sink {
                if manifesting || sink.opened() {
                    assert(looked.sink->0.after_look(sink, verdict));
                    assert(looked == (Dfu { sink: Some(looked.sink->0), ..*old(self) }));
                } else {
                    assert(*self == *old(self));
                }
            }
        }
    }

    /// Whether a poll can turn `before` into `self` with this result.
    pub open spec fn polled(
        self,
        before: Dfu,
        host: UpdateHost,
        result: Result<(), IoError>,
    ) -> bool {
        match result {
            Err(e) => self.pushed(before, host, Err(e)),
            Ok(_) => exists|mid: Dfu, held: bool|
                (#[trigger] mid.pushed(before, host, Ok(held))) && mid.wf() && self.observed(mid),
        }
    }

    /// Pushes any held block into the queue and observes SWUpdate's verdict,
    /// whichever phase of the transfer we are in.
    pub fn poll(&mut self, host: &UpdateHost) -> (result: Result<(), IoError>)
        requires
            old(self).wf(),
        ensures
            final(self).wf(),
            final(self).polled(*old(self), *host, result),
    {
        match self.push_pending(host) {
            Ok(held) => {
                let ghost mid = *self;
                self.observe();
                assert(mid.pushed(*old(self), *host, Ok(held)));
                Ok(())
            },
            Err(err) => Err(err),
        }
    }

    /// Whether `self` is `before` after a block came while another was held:
    /// the transfer is torn down and reported as an error.
    pub open spec fn out_of_sequence(self, before: Dfu) -> bool {
        &&& (Dfu { status: Status::Okay, state: State::DfuIdle, ..self }).back_to_start(before)
        &&& self.status == Status::ErrStalledPkt
        &&& self.state == State::Error
        &&& self.left == before.left
        &&& self.stopping_from(before)
    }

    /// Whether submitting `chunk` to `before` can give `self` and `result`.
    pub open spec fn submitted(
        self,
        before: Dfu,
        host: UpdateHost,
        chunk: BytesMut,
        result: Result<(), IoError>,
    ) -> bool {
        if before.pending is Some {
            result is Ok && self.out_of_sequence(before)
        } else {
            self.pushed_on(Dfu { pending: Some(chunk), ..before }, host, result)
        }
    }

    /// Whether pushing the held block of `before` can give `self` and `result`.
    pub open spec fn pushed_on(
        self,
        before: Dfu,
        host: UpdateHost,
        result: Result<(), IoError>,
    ) -> bool {
        match result {
            Err(e) => self.pushed(before, host, Err(e)),
            Ok(_) => self.pushed(before, host, Ok(true)) || self.pushed(before, host, Ok(false)),
        }
    }

    /// Aborts the current transfer and reports it as a DFU error, for
    /// sequencing violations the host should never trigger (e.g. sending more
    /// data while the device is still busy accepting a previous block).
    fn abort_with_fault(&mut self, status: Status)
        requires
            old(self).wf(),
        ensures
            final(self).wf(),
            (Dfu { status: Status::Okay, state: State::DfuIdle, ..*final(self) }).back_to_start(
                *old(self),
            ),
            final(self).status == status,
            final(self).state == State::Error,
            final(self).left == old(self).left,
            final(self).stopping_from(*old(self)),
    {
        self.abort_transfer();
        let ghost aborted = *self;
        self.fault(status);
        assert((Dfu { status: Status::Okay, state: State::DfuIdle, ..*self }) == aborted);
    }

    /// Submits a freshly-received block. A block should only arrive once any
    /// previously held one has drained; if one is still held, the host violated
    /// that sequencing, so the transfer is aborted rather than risk silently
    /// losing or reordering firmware data. Otherwise the block is held and
    /// given one immediate try at the queue.
    fn submit_chunk(&mut self, host: &UpdateHost, chunk: BytesMut) -> (result: Result<(), IoError>)
        requires
            old(self).wf(),
        ensures
            final(self).wf(),
            final(self).submitted(*old(self), *host, chunk, result),
    {
        if self.pending.is_some() {
            self.abort_with_fault(Status::ErrStalledPkt);
            return Ok(());
        }
        self.pending = Some(chunk);
        match self.push_pending(host) {
            Ok(_) => Ok(()),
            Err(err) => Err(err),
        }
    }

    /// Whether `self` is `before` with manifestation begun and nothing held
    /// back any more.
    pub open spec fn manifesting_from(self, before: Dfu) -> bool {
        &&& self.wf()
        &&& self == (Dfu {
            state: State::Manifest,
            status: Status::Okay,
            download_tail: self.download_tail,
            sink: self.sink,
            ..before
        })
        &&& self.download_tail@ == Seq::<u8>::empty()
        &&& match before.sink {
            None => self.sink is None,
            Some(b) => self.sink matches Some(s) && s.lent(b),
        }
    }

    /// The held-back window belongs to the payload.
    pub open spec fn tail_is_payload(self) -> bool {
        self.download_tail@.len() > 0 && !(self.download_tail@.len() == DFU_SUFFIX_LEN
            && has_suffix(self.flushed@ + self.download_tail@))
    }

    /// Whether beginning manifestation can turn `before` into `self` with this
    /// result: the held-back window is submitted like a block unless it is a
    /// valid suffix.
    pub open spec fn manifested(
        self,
        before: Dfu,
        host: UpdateHost,
        result: Result<(), IoError>,
    ) -> bool {
        if before.tail_is_payload() {
            exists|staged: Dfu, chunk: BytesMut| #[trigger]
                self.submitted(staged, host, chunk, result) && staged.manifesting_from(before)
                    && contents(chunk) == before.download_tail@
        } else {
            exists|staged: Dfu| #[trigger]
                self.pushed_on(staged, host, result) && staged.manifesting_from(before)
        }
    }

    /// Performs the manifestation (programming) phase after a zero-length
    /// `DFU_DNLOAD`. The device transitions to `Manifest` immediately (there
    /// is no data in this request to lose by accepting it late).
    pub fn manifest(&mut self, host: &UpdateHost) -> (result: Result<(), IoError>)
        requires
            old(self).wf(),
            old(self).sink is Some,
        ensures
            final(self).wf(),
            final(self).manifested(*old(self), *host, result),
            final(self).sink is Some,
    {
        self.status = Status::Okay;
        self.state = State::Manifest;
        let mut tail: Vec<u8> = Vec::new();
        std::mem::swap(&mut tail, &mut self.download_tail);
        assert(self.download_tail@ =~= Seq::empty());
        assert(self.download_crc == crc32(self.flushed@));
        if tail.len() == 0 || has_valid_dfu_suffix(self.download_crc, tail.as_slice()) {
            let ghost staged = *self;
            assert(staged.manifesting_from(*old(self))) by {
                reveal(same_outlet);
            }
            return match self.push_pending(host) {
                Ok(held) => {
                    assert(self.pushed_on(staged, *host, Ok(())));
                    Ok(())
                },
                Err(err) => {
                    assert(self.pushed_on(staged, *host, Err(err)));
                    Err(err)
                },
            };
        }
        let mut chunk = match self.sink.as_mut() {
            Some(sink) => sink.buffer(tail.len()),
            None => buffer::with_capacity(tail.len()),
        };
        buffer::extend_from_slice(&mut chunk, tail.as_slice());
        assert(contents(chunk) =~= tail@);
        let ghost staged = *self;
        assert(staged.manifesting_from(*old(self)));
        let result = self.submit_chunk(host, chunk);
        assert(self.submitted(staged, *host, chunk, result));
        result
    }

    /// Whether `self` is `before` with `data` taken into the window.
    pub open spec fn absorbed(self, before: Dfu, data: Seq<u8>) -> bool {
        &&& self.wf()
        &&& self == (Dfu {
            state: State::DnloadSync,
            status: Status::Okay,
            download_tail: self.download_tail,
            download_crc: self.download_crc,
            flushed: self.flushed,
            sink: self.sink,
            ..before
        })
        &&& self.window() == absorb(before.window(), data)
        &&& match before.sink {
            None => self.sink is None,
            Some(b) => self.sink matches Some(s) && s.lent(b),
        }
    }

    /// Whether receiving a data block can turn `before` into `self` with this
    /// result: the block goes through the window, and what leaves the window is
    /// submitted as one chunk.
    pub open spec fn received(
        self,
        before: Dfu,
        host: UpdateHost,
        data: Seq<u8>,
        result: Result<(), IoError>,
    ) -> bool {
        if flushable(before.download_tail@, data).len() == 0 {
            result is Ok && self.absorbed(before, data)
        } else {
            exists|staged: Dfu, chunk: BytesMut| #[trigger]
                self.submitted(staged, host, chunk, result) && staged.absorbed(before, data)
                    && contents(chunk) == flushable(before.download_tail@, data)
        }
    }

    /// What happens before a `DFU_DNLOAD` data block is read: a poll. While an
    /// update is being installed no block is taken.
    pub fn begin_block(&mut self, host: &UpdateHost) -> (result: Result<(), IoError>)
        requires
            old(self).wf(),
        ensures
            final(self).wf(),
            exists|polled: Result<(), IoError>| #[trigger]
                final(self).polled(*old(self), *host, polled) && match polled {
                    Err(e) => result == Err::<(), IoError>(e),
                    Ok(_) => if final(self).finishing() {
                        result matches Err(e) && e.says(
                            ErrorKind::Other,
                            "manifestation in progress"@,
                        )
                    } else {
                        result is Ok
                    },
                },
    {
        let polled = self.poll(host);
        assert(self.polled(*old(self), *host, polled));
        match polled {
            Ok(()) => {
                if self.is_finishing() {
                    return Err(IoError::other("manifestation in progress"));
                }
                Ok(())
            },
            Err(err) => Err(err),
        }
    }

    /// Takes in a `DFU_DNLOAD` data block that was read from the host. The
    /// final suffix-sized window of the download is held back for the suffix
    /// check at manifestation; everything before it is passed on as one chunk.
    pub fn receive_dnload_block(&mut self, host: &UpdateHost, data: &[u8]) -> (result: Result<
        (),
        IoError,
    >)
        requires
            old(self).wf(),
            old(self).sink is Some,
            data@.len() <= u16::MAX,
        ensures
            final(self).wf(),
            final(self).received(*old(self), *host, data@, result),
            final(self).sink is Some,
    {
        let carry: usize = self.download_tail.len();
        let mut buf = match self.sink.as_mut() {
            Some(sink) => sink.buffer(carry + data.len()),
            None => buffer::with_capacity(carry + data.len()),
        };
        buffer::extend_from_slice(&mut buf, self.download_tail.as_slice());
        buffer::extend_from_slice(&mut buf, data);
        let ghost all = old(self).download_tail@ + data@;
        assert(contents(buf) =~= all);
        self.state = State::DnloadSync;
        self.status = Status::Okay;
        let total: usize = buffer::as_slice(&buf).len();
        let flush: usize = match flushable_len(total) {
            Some(flush) => flush,
            None => {
                let mut tail: Vec<u8> = Vec::new();
                tail.extend_from_slice(buffer::as_slice(&buf));
                assert(tail@ =~= all);
                self.download_tail = tail;
                assert(self.flushed@ + Seq::<u8>::empty() =~= self.flushed@);
                return Ok(());
            },
        };
        let mut tail: Vec<u8> = Vec::new();
        tail.extend_from_slice(slice_subrange(buffer::as_slice(&buf), flush, total));
        assert(tail@ =~= held_back(old(self).download_tail@, data@));
        self.download_tail = tail;
        buffer::truncate(&mut buf, flush);
        assert(contents(buf) =~= flushable(old(self).download_tail@, data@));
        self.download_crc = crc32_extend(self.download_crc, buffer::as_slice(&buf));
        self.flushed = Ghost(self.flushed@ + contents(buf));
        let ghost staged = *self;
        assert(staged.absorbed(*old(self), data@));
        let result = self.submit_chunk(host, buf);
        assert(self.submitted(staged, *host, buf, result));
        result
    }

    /// The state that the host is told: a download is busy while a block is
    /// held, and an installed update leaves the machine idle.
    pub open spec fn synced_state(self) -> State {
        match self.state {
            State::DnloadSync | State::DnBusy => if self.pending is Some {
                State::DnBusy
            } else {
                State::DnloadIdle
            },
            State::ManifestSync => State::DfuIdle,
            other => other,
        }
    }

    /// What the host is told, in a state.
    pub open spec fn status_answer(self, state: State) -> GetStatus {
        GetStatus {
            status: self.status,
            poll_timeout_ms: if state == State::Manifest || state == State::ManifestSync {
                MANIFEST_POLL_TIMEOUT_MS
            } else {
                self.poll_timeout_ms
            },
            state,
            string_index: 0,
        }
    }

    /// Builds the `DFU_GETSTATUS` response and advances the synchronous parts
    /// of the state machine.
    pub fn get_status(&mut self) -> (reply: InReply)
        ensures
            *final(self) == (Dfu { state: old(self).synced_state(), ..*old(self) }),
            reply.wf(),
            reply.payload() == old(self).status_answer(old(self).synced_state()).layout(),
    {
        self.state = match self.state {
            State::DnloadSync | State::DnBusy => {
                if self.pending.is_some() {
                    State::DnBusy
                } else {
                    State::DnloadIdle
                }
            },
            State::ManifestSync => State::DfuIdle,
            other => other,
        };
        let response = GetStatus {
            status: self.status,
            poll_timeout_ms: if self.is_finishing() {
                MANIFEST_POLL_TIMEOUT_MS
            } else {
                self.poll_timeout_ms
            },
            state: self.state,
            string_index: 0,
        };
        let buf = response.to_bytes();
        assert(buf@.take(6) =~= response.layout());
        InReply::Inline { buf, len: 6 }
    }

    /// Serves a single `DFU_UPLOAD` block from the configured upload source. A
    /// block shorter than the transfer size ends the upload.
    pub fn upload_block(&mut self, req: &CtrlReq) -> (result: Result<InReply, IoError>)
        ensures
            match old(self).upload {
                None => (result matches Err(e) && e.says(
                    ErrorKind::NotFound,
                    "no DFU upload source configured"@,
                )) && *final(self) == *old(self),
                Some(source) => {
                    let block = upload_bytes(
                        source.bytes(),
                        req.value as int,
                        old(self).transfer_size as int,
                    );
                    &&& result matches Ok(reply) && reply.wf() && reply.payload() == block
                    &&& *final(self) == (Dfu {
                        state: if block.len() < old(self).transfer_size {
                            State::DfuIdle
                        } else {
                            State::UploadIdle
                        },
                        ..*old(self)
                    })
                },
            },
    {
        let transfer_size: usize = self.transfer_size as usize;
        let block = match &self.upload {
            None => {
                return Err(IoError::new(ErrorKind::NotFound, "no DFU upload source configured"));
            },
            Some(UploadSource::Data(data)) => {
                let len: usize = buffer::shared_as_slice(data).len();
                proof {
                    assert(req.value * self.transfer_size <= 65535 * 65535) by (nonlinear_arith)
                        requires
                            req.value <= 65535,
                            self.transfer_size <= 65535,
                    ;
                }
                let offset: u64 = req.value as u64 * self.transfer_size as u64;
                let start: usize = if offset < len as u64 {
                    offset as usize
                } else {
                    len
                };
                let end: usize = if transfer_size < len - start {
                    start + transfer_size
                } else {
                    len
                };
                buffer::shared_slice(data, start, end)
            },
        };
        if buffer::shared_as_slice(&block).len() < transfer_size {
            self.state = State::DfuIdle;
        } else {
            self.state = State::UploadIdle;
        }
        Ok(InReply::Data(block))
    }

    /// Whether a host-to-device request other than a data block can turn
    /// `before`, which has just been polled, into `self` with this result.
    pub open spec fn answered_out(
        self,
        before: Dfu,
        host: UpdateHost,
        request: u8,
        result: Result<(), IoError>,
    ) -> bool {
        if request == DETACH {
            result is Ok && self == (Dfu { state: State::AppDetach, ..before })
        } else if request == DNLOAD {
            self.manifested(before, host, result)
        } else if request == CLRSTATUS && before.state != State::Error && !before.finishing() {
            &&& result is Ok
            &&& self == (Dfu {
                status: Status::Okay,
                state: State::DfuIdle,
                download_tail: self.download_tail,
                download_crc: self.download_crc,
                flushed: self.flushed,
                ..before
            })
            &&& self.window() == empty_window()
        } else if request == CLRSTATUS || request == ABORT {
            &&& result is Ok
            &&& self.back_to_start(before)
            &&& self.left == before.left
            &&& self.stopping_from(before)
        } else {
            &&& result matches Err(e) && e.says(
                ErrorKind::InvalidInput,
                "unsupported DFU request"@,
            )
            &&& self == (Dfu { status: Status::ErrStalledPkt, state: State::Error, ..before })
        }
    }

    /// Handles a host-to-device DFU control request without data stage.
    pub fn handle_out(&mut self, host: &UpdateHost, req: &CtrlReq) -> (result: Result<(), IoError>)
        requires
            old(self).wf(),
            old(self).sink is Some,
        ensures
            final(self).wf(),
            final(self).sink is Some,
            match result {
                Err(e) => final(self).polled(*old(self), *host, Err(e)) || exists|mid: Dfu|
                    #[trigger]
                    mid.polled(*old(self), *host, Ok(())) && mid.wf() && final(self).answered_out(
                        mid,
                        *host,
                        req.request,
                        result,
                    ),
                Ok(_) => exists|mid: Dfu| #[trigger]
                    mid.polled(*old(self), *host, Ok(())) && mid.wf() && final(self).answered_out(
                        mid,
                        *host,
                        req.request,
                        result,
                    ),
            },
    {
        match self.poll(host) {
            Ok(()) => {},
            Err(err) => {
                return Err(err);
            },
        }
        let ghost mid = *self;
        assert(mid.polled(*old(self), *host, Ok(())));
        assert(mid.sink is Some);
        if req.request == DETACH {
            self.state = State::AppDetach;
            Ok(())
        } else if req.request == DNLOAD {
            self.manifest(host)
        } else if req.request == CLRSTATUS {
            if self.state == State::Error || self.is_finishing() {
                self.abort_transfer();
            } else {
                self.status = Status::Okay;
                self.state = State::DfuIdle;
                self.download_tail.clear();
                self.forget_checksum();
                assert(self.window().tail =~= Seq::empty());
                assert(self.window().flushed =~= Seq::empty());
            }
            Ok(())
        } else if req.request == ABORT {
            self.abort_transfer();
            Ok(())
        } else {
            self.fault(Status::ErrStalledPkt);
            Err(IoError::new(ErrorKind::InvalidInput, "unsupported DFU request"))
        }
    }

    /// Whether a device-to-host request can turn `before`, which has just been
    /// polled, into `self` with this result.
    pub open spec fn answered_in(
        self,
        before: Dfu,
        req: CtrlReq,
        result: Result<InReply, IoError>,
    ) -> bool {
        if req.request == GETSTATUS {
            &&& self == (Dfu { state: before.synced_state(), ..before })
            &&& result matches Ok(reply) && reply.wf() && reply.payload() == before.status_answer(
                before.synced_state(),
            ).layout()
        } else if req.request == GETSTATE {
            &&& self == before
            &&& result matches Ok(reply) && reply.wf() && reply.payload()
                == seq![before.state.spec_code()]
        } else if req.request == UPLOAD {
            match before.upload {
                None => (result matches Err(e) && e.says(
                    ErrorKind::NotFound,
                    "no DFU upload source configured"@,
                )) && self == before,
                Some(source) => {
                    let block = upload_bytes(
                        source.bytes(),
                        req.value as int,
                        before.transfer_size as int,
                    );
                    &&& result matches Ok(reply) && reply.wf() && reply.payload() == block
                    &&& self == (Dfu {
                        state: if block.len() < before.transfer_size {
                            State::DfuIdle
                        } else {
                            State::UploadIdle
                        },
                        ..before
                    })
                },
            }
        } else {
            &&& result matches Err(e) && e.says(
                ErrorKind::InvalidInput,
                "unsupported DFU request"@,
            )
            &&& self == (Dfu { status: Status::ErrStalledPkt, state: State::Error, ..before })
        }
    }

    /// Handles a device-to-host DFU control request, returning the response
    /// payload to send back to the host.
    pub fn handle_in(&mut self, host: &UpdateHost, req: &CtrlReq) -> (result: Result<
        InReply,
        IoError,
    >)
        requires
            old(self).wf(),
        ensures
            final(self).wf(),
            old(self).sink is Some ==> final(self).sink is Some,
            result matches Ok(reply) ==> reply.wf(),
            match result {
                Err(e) => final(self).polled(*old(self), *host, Err(e)) || exists|mid: Dfu|
                    #[trigger]
                    mid.polled(*old(self), *host, Ok(())) && mid.wf() && final(self).answered_in(
                        mid,
                        *req,
                        result,
                    ),
                Ok(_) => exists|mid: Dfu| #[trigger]
                    mid.polled(*old(self), *host, Ok(())) && mid.wf() && final(self).answered_in(
                        mid,
                        *req,
                        result,
                    ),
            },
    {
        match self.poll(host) {
            Ok(()) => {},
            Err(err) => {
                return Err(err);
            },
        }
        let ghost mid = *self;
        assert(mid.polled(*old(self), *host, Ok(())));
        if req.request == GETSTATUS {
            Ok(self.get_status())
        } else if req.request == GETSTATE {
            Ok(InReply::from_state(self.state))
        } else if req.request == UPLOAD {
            self.upload_block(req)
        } else {
            self.fault(Status::ErrStalledPkt);
            Err(IoError::new(ErrorKind::InvalidInput, "unsupported DFU request"))
        }
    }
}

// ---------------------------------------------------------------------------
// What reaches SWUpdate
// ---------------------------------------------------------------------------

impl Dfu {
    /// What the sink has been fed so far.
    pub open spec fn fed(self) -> Seq<u8> {
        match self.sink {
            Some(s) => s.fed(),
            None => Seq::empty(),
        }
    }

    /// What has been passed on is what the sink has been fed, and the block
    /// that waits to be.
    pub open spec fn in_step(self) -> bool {
        self.handed() == self.flushed@
    }

    /// What is fed goes where what was fed into `before` went.
    pub open spec fn feeds_on(self, before: Dfu) -> bool {
        before.sink is Some && self.sink is Some ==> self.sink->0.continues(before.sink->0)
    }

    /// SWUpdate has stopped taking data, and what waited to be fed is gone.
    pub open spec fn cut_off(self, before: Dfu) -> bool {
        &&& self.pending is None
        &&& self.sink matches Some(s) && s.tx is None
        &&& self.handed() == before.fed()
    }
}

/// Pushing the held block neither loses, repeats nor reorders a byte, as long
/// as SWUpdate takes data, and it goes into the queue of the transfer.
pub proof fn law_push_keeps_bytes(after: Dfu, before: Dfu, host: UpdateHost, held: bool)
    requires
        before.wf(),
        after.pushed(before, host, Ok(held)),
    ensures
        after.handed() == before.handed() || after.cut_off(before),
        held <==> after.pending is Some,
        after.feeds_on(before),
{
    if let Some(s) = before.sink {
        lemma_continues(s, s, s);
    }
    match before.pending {
        None => {
            assert(after.handed() =~= before.handed());
        },
        Some(chunk) => match before.sink {
            None => {},
            Some(sink) => {
                let (session, feed) = choose|session: SwupdateSession, feed: Feed|
                    {
                        &&& #[trigger] session.after_feed(sink, host, contents(chunk), feed)
                        &&& session.wf()
                        &&& match feed {
                            Feed::Full(back) => held && after.pending == Some(back) && after.sink
                                == Some(session),
                            _ => !held && after.pending is None && after.sink == ended(
                                Some(session),
                                before.state,
                            ),
                        }
                    };
                match feed {
                    Feed::Queued(_) => {
                        lemma_flat_push(sink.sent@, contents(chunk));
                        assert(after.handed() =~= before.handed());
                    },
                    Feed::Full(back) => {
                        assert(after.handed() =~= before.handed());
                    },
                    Feed::Closed => {
                        assert(after.handed() =~= before.fed());
                    },
                }
            },
        },
    }
}

/// Submitting a chunk hands it on behind all that was handed on before, as
/// long as SWUpdate takes data and the host waits for a held block to drain.
pub proof fn law_submit_keeps_bytes(after: Dfu, before: Dfu, host: UpdateHost, chunk: BytesMut)
    requires
        before.wf(),
        before.pending is None,
        after.submitted(before, host, chunk, Ok(())),
    ensures
        after.handed() == before.handed() + contents(chunk) || after.cut_off(before),
        after.feeds_on(before),
{
    let staged = Dfu { pending: Some(chunk), ..before };
    assert(staged.handed() =~= before.handed() + contents(chunk));
    if after.pushed(staged, host, Ok(true)) {
        law_push_keeps_bytes(after, staged, host, true);
    } else {
        law_push_keeps_bytes(after, staged, host, false);
    }
    assert(staged.fed() == before.fed());
}

/// A data block keeps the download in step: what leaves the window is handed
/// on to the queue of the transfer, and the window is that of the blocks so far.
pub proof fn law_receive_in_step(after: Dfu, before: Dfu, host: UpdateHost, data: Seq<u8>)
    requires
        before.wf(),
        before.in_step(),
        before.pending is None,
        after.received(before, host, data, Ok(())),
    ensures
        after.window() == absorb(before.window(), data),
        after.in_step() || after.cut_off(before),
        after.feeds_on(before),
{
    if let Some(s) = before.sink {
        lemma_continues(s, s, s);
    }
    let out = flushable(before.download_tail@, data);
    if out.len() == 0 {
        assert(out =~= Seq::empty());
        assert(before.flushed@ + out =~= before.flushed@);
        assert(after.handed() =~= before.handed());
    } else {
        let (staged, chunk) = choose|staged: Dfu, chunk: BytesMut| #[trigger]
            after.submitted(staged, host, chunk, Ok(())) && staged.absorbed(before, data)
                && contents(chunk) == out;
        assert(staged.handed() =~= before.handed());
        assert(staged.fed() == before.fed());
        law_submit_keeps_bytes(after, staged, host, chunk);
        assert(after.window() == staged.window());
    }
}

/// Beginning manifestation of a download that is in step hands on its payload
/// to the queue of the transfer: a valid suffix is stripped, anything else
/// follows in full.
pub proof fn law_manifest_hands_on_payload(after: Dfu, before: Dfu, host: UpdateHost)
    requires
        before.wf(),
        before.in_step(),
        before.pending is None,
        after.manifested(before, host, Ok(())),
    ensures
        after.handed() == forwarded(before.window()) || after.cut_off(before),
        after.feeds_on(before),
{
    let window = before.window();
    if before.tail_is_payload() {
        let (staged, chunk) = choose|staged: Dfu, chunk: BytesMut| #[trigger]
            after.submitted(staged, host, chunk, Ok(())) && staged.manifesting_from(before)
                && contents(chunk) == before.download_tail@;
        assert(staged.handed() =~= before.handed());
        assert(staged.fed() == before.fed());
        law_submit_keeps_bytes(after, staged, host, chunk);
    } else {
        let staged = choose|staged: Dfu| #[trigger]
            after.pushed_on(staged, host, Ok(())) && staged.manifesting_from(before);
        assert(staged.handed() =~= before.handed());
        assert(staged.fed() == before.fed());
        if after.pushed(staged, host, Ok(true)) {
            law_push_keeps_bytes(after, staged, host, true);
        } else {
            law_push_keeps_bytes(after, staged, host, false);
        }
        if window.tail.len() == 0 {
            assert(window.flushed + window.tail =~= window.flushed);
        }
    }
}

/// A poll keeps the download in step, or ends it, or finds that SWUpdate has
/// stopped taking data.
pub proof fn law_poll_in_step(after: Dfu, before: Dfu, host: UpdateHost)
    requires
        before.wf(),
        before.in_step(),
        after.polled(before, host, Ok(())),
    ensures
        after.in_step() || after.cut_off(before),
        after.window() == before.window() || after.flushed@ == Seq::<u8>::empty(),
        after.feeds_on(before),
{
    let (mid, held) = choose|mid: Dfu, held: bool|
        (#[trigger] mid.pushed(before, host, Ok(held))) && mid.wf() && after.observed(mid);
    law_push_keeps_bytes(mid, before, host, held);
    if let Some(sink) = mid.sink {
        if mid.state == State::Manifest || sink.opened() {
            let (looked, verdict) = choose|
                looked: SwupdateSession,
                verdict: Option<Result<(), IoError>>,
            |
                {
                    &&& #[trigger] looked.after_look(sink, verdict)
                    &&& looked.wf()
                    &&& match verdict {
                        Some(Err(_)) => after.failed(Dfu { sink: Some(looked), ..mid }),
                        Some(Ok(_)) => if mid.state == State::Manifest {
                            after.succeeded(Dfu { sink: Some(looked), ..mid })
                        } else {
                            after == (Dfu { sink: Some(looked), ..mid })
                        },
                        None => after == (Dfu { sink: Some(looked), ..mid }),
                    }
                };
            if after == (Dfu { sink: Some(looked), ..mid }) {
                assert(after.handed() == mid.handed());
            } else {
                assert(after.handed() =~= Seq::empty());
            }
        }
    }
}

/// A machine at the start is in step, with nothing downloaded.
pub proof fn law_start_in_step(after: Dfu, before: Dfu)
    requires
        after.back_to_start(before),
    ensures
        after.in_step(),
        after.window() == empty_window(),
        after.state == State::DfuIdle,
        after.status == Status::Okay,
{
    assert(after.handed() =~= Seq::empty());
}

// ---------------------------------------------------------------------------
// The bytes of a file and the states of the machine
// ---------------------------------------------------------------------------

proof fn lemma_checksum_bytes(c: u32)
    ensures
        ({
            let b = seq![
                (c % 256) as u8,
                (c / 256 % 256) as u8,
                (c / 65536 % 256) as u8,
                (c / 16777216) as u8,
            ];
            b[0] + 256 * b[1] + 65536 * b[2] + 16777216 * b[3] == c
        }),
{
    crate::wire::law_le32_round_trip(c, Seq::empty(), Seq::empty());
    let b = seq![
        (c % 256) as u8,
        (c / 256 % 256) as u8,
        (c / 65536 % 256) as u8,
        (c / 16777216) as u8,
    ];
    assert(Seq::<u8>::empty() + crate::wire::le32(c) + Seq::<u8>::empty() =~= b);
}

/// Sixteen bytes are a suffix exactly where the last eight are `UFD`, their own
/// number, and the inverted checksum of all that comes before it, least
/// significant byte first. The first eight may hold anything.
pub proof fn law_suffix_bytes(before: Seq<u8>, prefix_crc: u32, tail: &[u8], valid: bool)
    requires
        prefix_crc == crc32(before),
        call_ensures(has_valid_dfu_suffix, (prefix_crc, tail), valid),
    ensures
        valid <==> {
            &&& tail@.len() == 16
            &&& tail@[8] == 85 && tail@[9] == 70 && tail@[10] == 68 && tail@[11] == 16
            &&& tail@[12] + 256 * tail@[13] + 65536 * tail@[14] + 16777216 * tail@[15] == !crc32(
                before + tail@.take(12),
            )
        },
{
    if tail@.len() == 16 {
        let file = before + tail@;
        assert(file.skip(file.len() - 16) =~= tail@);
        assert(file.take(file.len() - 4) =~= before + tail@.take(12));
    }
}

/// The file that carries `payload`, ends with `UFD`, 16 and the inverted
/// checksum of all before it, and holds any eight bytes in between.
pub open spec fn suffixed_file(payload: Seq<u8>, release: Seq<u8>) -> Seq<u8> {
    let body = payload + release + seq![85u8, 70u8, 68u8, 16u8];
    let crc = !crc32(body);
    body + seq![
        (crc % 256) as u8,
        (crc / 256 % 256) as u8,
        (crc / 65536 % 256) as u8,
        (crc / 16777216) as u8,
    ]
}

/// However a file with a suffix is cut into blocks, its payload is handed on and
/// nothing more, whatever the eight bytes in front of the signature are.
pub proof fn law_suffix_is_stripped(
    payload: Seq<u8>,
    release: Seq<u8>,
    blocks: Seq<Seq<u8>>,
    prefix_crc: u32,
    tail: &[u8],
    valid: bool,
)
    requires
        release.len() == 8,
        crate::swupdate::session::flat(blocks) == suffixed_file(payload, release),
        prefix_crc == crc32(payload),
        payload + tail@ == suffixed_file(payload, release),
        call_ensures(has_valid_dfu_suffix, (prefix_crc, tail), valid),
    ensures
        valid,
        absorb_all(blocks).flushed == payload,
        forwarded(absorb_all(blocks)) == payload,
{
    let file = suffixed_file(payload, release);
    let body = payload + release + seq![85u8, 70u8, 68u8, 16u8];
    let n = payload.len() as int;
    lemma_checksum_bytes(!crc32(body));
    assert(file.len() == n + 16);
    assert((payload + tail@).len() == n + tail@.len());
    assert forall|i: int| 0 <= i < 16 implies tail@[i] == file[n + i] by {
        assert((payload + tail@)[n + i] == tail@[i]);
    }
    assert(payload + tail@.take(12) =~= body) by {
        assert((payload + tail@).take(n + 12) =~= payload + tail@.take(12));
        assert(file.take(n + 12) =~= body);
    }
    law_suffix_bytes(payload, prefix_crc, tail, valid);
    law_window(blocks);
    let window = absorb_all(blocks);
    assert(window.flushed =~= payload) by {
        assert((window.flushed + window.tail).take(n) =~= window.flushed);
        assert((payload + tail@).take(n) =~= payload);
    }
    assert(window.tail =~= tail@) by {
        assert((window.flushed + window.tail).skip(n) =~= window.tail);
        assert((payload + tail@).skip(n) =~= tail@);
    }
}

/// A file without such an end is handed on whole, however it is cut into blocks.
pub proof fn law_other_files_stay_whole(file: Seq<u8>, blocks: Seq<Seq<u8>>)
    requires
        crate::swupdate::session::flat(blocks) == file,
        ({
            let n = file.len() as int;
            ||| n < 16
            ||| file[n - 8] != 85 || file[n - 7] != 70 || file[n - 6] != 68 || file[n - 5] != 16
            ||| file[n - 4] + 256 * file[n - 3] + 65536 * file[n - 2] + 16777216 * file[n - 1]
                != !crc32(file.take(n - 4))
        }),
    ensures
        forwarded(absorb_all(blocks)) == file,
{
    law_payload(blocks);
    let n = file.len() as int;
    if n >= 16 {
        let end = file.skip(n - 16);
        assert(end[8] == file[n - 8] && end[9] == file[n - 7] && end[10] == file[n - 6] && end[11]
            == file[n - 5]);
    }
}

/// What leaves the window of a download and what stays in it are what was there
/// and the new block behind it, and as much stays as a suffix takes.
pub proof fn law_block_through_the_window(dfu: &mut Dfu, host: UpdateHost, data: &[u8])
    requires
        old(dfu).wf(),
        old(dfu).in_step(),
        old(dfu).pending is None,
        call_ensures(Dfu::receive_dnload_block, (dfu, &host, data), Ok(())),
    ensures
        final(dfu).flushed@ + final(dfu).download_tail@ == old(dfu).flushed@ + old(dfu).download_tail@ + data@,
        ({
            let n = old(dfu).download_tail@.len() + data@.len();
            final(dfu).download_tail@.len() == (if n < 16 {
                n as int
            } else {
                16int
            })
        }),
        final(dfu).handed() == final(dfu).flushed@ || (final(dfu).pending is None
            && final(dfu).sink->0.tx is None),
        final(dfu).state is DnloadSync,
        final(dfu).status is Okay,
{
    law_receive_in_step(*final(dfu), *old(dfu), host, data@);
    let before = old(dfu).window();
    let after = final(dfu).window();
    let all = before.tail + data@;
    assert(flushable(before.tail, data@) + held_back(before.tail, data@) =~= all);
    assert(after.flushed + after.tail =~= before.flushed + (flushable(before.tail, data@)
        + held_back(before.tail, data@)));
    assert(before.flushed + all =~= before.flushed + before.tail + data@);
}

/// A download that came in full, and was passed on but for its held-back end, is
/// manifested without its suffix where the file has one, and whole otherwise; the
/// machine is then manifesting, without an error.
pub proof fn law_manifest_strips_the_suffix(
    dfu: &mut Dfu,
    host: UpdateHost,
    payload: Seq<u8>,
    release: Seq<u8>,
)
    requires
        old(dfu).wf(),
        old(dfu).in_step(),
        old(dfu).pending is None,
        release.len() == 8,
        old(dfu).flushed@ + old(dfu).download_tail@ == suffixed_file(payload, release),
        old(dfu).download_tail@.len() == 16,
        call_ensures(Dfu::manifest, (dfu, &host), Ok(())),
    ensures
        final(dfu).handed() == payload || (final(dfu).pending is None && final(dfu).sink->0.tx
            is None),
        final(dfu).state is Manifest,
        final(dfu).status is Okay,
        final(dfu).download_tail@.len() == 0,
{
    let file = suffixed_file(payload, release);
    let body = payload + release + seq![85u8, 70u8, 68u8, 16u8];
    let window = old(dfu).window();
    let n = payload.len() as int;
    lemma_checksum_bytes(!crc32(body));
    assert((window.flushed + window.tail).len() == n + 16);
    assert(window.flushed =~= payload) by {
        assert((window.flushed + window.tail).take(n) =~= window.flushed);
        assert(file.take(n) =~= payload);
    }
    let end = file.skip(n);
    assert(end[8] == 85 && end[9] == 70 && end[10] == 68 && end[11] == 16);
    assert(file.take(n + 12) =~= body);
    assert(has_suffix(file));
    law_manifest_hands_on_payload(*final(dfu), *old(dfu), host);
    lemma_manifested_state(*final(dfu), *old(dfu), host);
}

/// A download whose end is no suffix is manifested whole.
pub proof fn law_manifest_keeps_other_files(dfu: &mut Dfu, host: UpdateHost, file: Seq<u8>)
    requires
        old(dfu).wf(),
        old(dfu).in_step(),
        old(dfu).pending is None,
        old(dfu).flushed@ + old(dfu).download_tail@ == file,
        ({
            let n = file.len() as int;
            ||| old(dfu).download_tail@.len() < 16
            ||| file[n - 8] != 85 || file[n - 7] != 70 || file[n - 6] != 68 || file[n - 5] != 16
            ||| file[n - 4] + 256 * file[n - 3] + 65536 * file[n - 2] + 16777216 * file[n - 1]
                != !crc32(file.take(n - 4))
        }),
        call_ensures(Dfu::manifest, (dfu, &host), Ok(())),
    ensures
        final(dfu).handed() == file || (final(dfu).pending is None && final(dfu).sink->0.tx
            is None),
        final(dfu).state is Manifest,
        final(dfu).status is Okay,
        final(dfu).download_tail@.len() == 0,
{
    let n = file.len() as int;
    if old(dfu).download_tail@.len() == 16 {
        let end = file.skip(n - 16);
        assert(end[8] == file[n - 8] && end[9] == file[n - 7] && end[10] == file[n - 6] && end[11]
            == file[n - 5]);
    }
    law_manifest_hands_on_payload(*final(dfu), *old(dfu), host);
    lemma_manifested_state(*final(dfu), *old(dfu), host);
}

proof fn lemma_manifested_state(after: Dfu, before: Dfu, host: UpdateHost)
    requires
        before.pending is None,
        after.manifested(before, host, Ok(())),
    ensures
        after.state is Manifest,
        after.status is Okay,
        after.download_tail@.len() == 0,
{
    if before.tail_is_payload() {
        let (staged, chunk) = choose|staged: Dfu, chunk: BytesMut| #[trigger]
            after.submitted(staged, host, chunk, Ok(())) && staged.manifesting_from(before)
                && contents(chunk) == before.download_tail@;
        assert(staged.pending is None);
    } else {
        let staged = choose|staged: Dfu| #[trigger]
            after.pushed_on(staged, host, Ok(())) && staged.manifesting_from(before);
    }
}

/// Class requests to an interface, `0x21` out and `0xa1` in, and no others are
/// for DFU.
pub proof fn law_dfu_requests(req: CtrlReq, r: bool)
    requires
        call_ensures(is_dfu_request, (&req,), r),
    ensures
        r <==> req.request_type == 0x21 || req.request_type == 0xa1,
{
}

/// All but the last sixteen bytes can be passed on.
pub proof fn law_flushable_len(total: usize, len: Option<usize>)
    requires
        call_ensures(flushable_len, (total,), len),
    ensures
        total <= 16 ==> len is None,
        total > 16 ==> (len matches Some(n) && n + 16 == total),
{
}

/// The host that asks for the status of a download is told 4, busy, while a block
/// waits, and 5 otherwise; after an installed update it is told 2, idle; any other
/// state is told as it is. While an update is installed it is to ask again after
/// 250 milliseconds. Nothing but the state changes.
pub proof fn law_status_told(dfu: &mut Dfu, reply: InReply, status: u8, state: u8)
    requires
        call_ensures(Dfu::get_status, (dfu,), reply),
        call_ensures(Status::code, (old(dfu).status,), status),
        call_ensures(State::code, (old(dfu).state,), state),
    ensures
        reply.payload().len() == 6,
        reply.payload()[0] == status,
        ({
            let told = reply.payload()[4];
            let downloading = state == 3 || state == 4;
            &&& downloading && old(dfu).pending is Some ==> told == 4 && final(dfu).state is DnBusy
            &&& downloading && old(dfu).pending is None ==> told == 5
                && final(dfu).state is DnloadIdle
            &&& state == 6 ==> told == 2 && final(dfu).state is DfuIdle
            &&& !downloading && state != 6 ==> told == state && final(dfu).state == old(dfu).state
        }),
        ({
            let wait = reply.payload()[1] + 256 * reply.payload()[2] + 65536 * reply.payload()[3];
            &&& state == 7 ==> wait == 250
            &&& state != 7 ==> wait == old(dfu).poll_timeout_ms % 16777216
        }),
        reply.payload()[5] == 0,
        *final(dfu) == (Dfu { state: final(dfu).state, ..*old(dfu) }),
{
    lemma_wait_bytes(old(dfu).poll_timeout_ms);
}

/// A block of an upload is the part of the data that starts at its number times
/// the transfer size, no longer than that size and no further than the data; one
/// that is shorter leaves the machine idle, any other one uploading.
pub proof fn law_upload_block(
    dfu: &mut Dfu,
    req: CtrlReq,
    result: Result<InReply, IoError>,
    source: UploadSource,
    i: int,
)
    requires
        call_ensures(Dfu::upload_block, (dfu, &req), result),
        old(dfu).upload == Some(source),
    ensures
        result is Ok,
        ({
            let data = source.bytes();
            let size = old(dfu).transfer_size as int;
            let start = req.value * size;
            let sent = result->Ok_0.payload();
            &&& sent.len() == (if start >= data.len() {
                0int
            } else if data.len() - start < size {
                data.len() - start
            } else {
                size
            })
            &&& 0 <= i < sent.len() ==> sent[i] == data[start + i]
            &&& sent.len() < size ==> final(dfu).state is DfuIdle
            &&& sent.len() >= size ==> final(dfu).state is UploadIdle
            &&& *final(dfu) == (Dfu { state: final(dfu).state, ..*old(dfu) })
        }),
{
    let size = old(dfu).transfer_size as int;
    assert(req.value * size >= 0) by (nonlinear_arith)
        requires
            size >= 0,
            req.value >= 0,
    ;
}

/// Without a source there is nothing to upload, and nothing changes.
pub proof fn law_no_upload(dfu: &mut Dfu, req: CtrlReq, result: Result<InReply, IoError>)
    requires
        call_ensures(Dfu::upload_block, (dfu, &req), result),
        old(dfu).upload is None,
    ensures
        result matches Err(e) && e.kind == ErrorKind::NotFound && e.message@
            == "no DFU upload source configured"@,
        *final(dfu) == *old(dfu),
{
}

/// A request out that was answered leaves the machine where DFU says: a detach
/// detached, an abort and a cleared status idle and without an error, with
/// nothing downloaded; a block of no bytes manifesting. There is no other request
/// out.
pub proof fn law_requests_out(dfu: &mut Dfu, host: UpdateHost, req: CtrlReq)
    requires
        old(dfu).wf(),
        call_ensures(Dfu::handle_out, (dfu, &host, &req), Ok(())),
    ensures
        req.request == 0 || req.request == 1 || req.request == 4 || req.request == 6,
        req.request == 0 ==> final(dfu).state is AppDetach
            && final(dfu).download_tail@ == old(dfu).download_tail@,
        req.request == 4 || req.request == 6 ==> {
            &&& final(dfu).state is DfuIdle
            &&& final(dfu).status is Okay
            &&& final(dfu).flushed@.len() == 0
            &&& final(dfu).download_tail@.len() == 0
        },
        req.request == 6 || (req.request == 4 && old(dfu).state is Error) ==> final(dfu).pending
            is None && !final(dfu).sink->0.opened() && final(dfu).sink->0.fed().len() == 0,
        req.request == 1 && old(dfu).pending is None ==> final(dfu).state is Manifest
            && final(dfu).status is Okay || final(dfu).state is Error,
{
    let after = *final(dfu);
    let before = *old(dfu);
    let mid = choose|mid: Dfu| #[trigger]
        mid.polled(before, host, Ok(())) && mid.wf() && after.answered_out(
            mid,
            host,
            req.request,
            Ok(()),
        );
    if req.request == 1 && before.pending is None {
        let (pushed, held) = choose|pushed: Dfu, held: bool|
            (#[trigger] pushed.pushed(before, host, Ok(held))) && pushed.wf() && mid.observed(
                pushed,
            );
        assert(pushed.pending is None);
        assert(mid.pending is None);
        lemma_manifested_state(after, mid, host);
    }
}

/// A request out that DFU does not know is refused and leaves the machine in
/// error, with the status of an unexpected request.
pub proof fn law_unknown_request_out(
    dfu: &mut Dfu,
    host: UpdateHost,
    req: CtrlReq,
    result: Result<(), IoError>,
)
    requires
        old(dfu).wf(),
        old(dfu).pending is None,
        req.request != 0 && req.request != 1 && req.request != 4 && req.request != 6,
        call_ensures(Dfu::handle_out, (dfu, &host, &req), result),
    ensures
        result matches Err(e) && e.kind == ErrorKind::InvalidInput && e.message@
            == "unsupported DFU request"@,
        final(dfu).state is Error,
        final(dfu).status is ErrStalledPkt,
{
}

proof fn lemma_wait_bytes(t: u32)
    ensures
        t % 256 + 256 * (t / 256 % 256) + 65536 * (t / 65536 % 256) == t % 16777216,
{
}

proof fn lemma_answered_in(
    after: Dfu,
    before: Dfu,
    host: UpdateHost,
    req: CtrlReq,
    result: Result<InReply, IoError>,
) -> (mid: Dfu)
    requires
        before.pending is None,
        exists|mid: Dfu| #[trigger]
            mid.polled(before, host, Ok(())) && mid.wf() && after.answered_in(mid, req, result),
    ensures
        mid.pending is None,
        after.answered_in(mid, req, result),
{
    let mid = choose|mid: Dfu| #[trigger]
        mid.polled(before, host, Ok(())) && mid.wf() && after.answered_in(mid, req, result);
    let (pushed, held) = choose|pushed: Dfu, held: bool|
        (#[trigger] pushed.pushed(before, host, Ok(held))) && pushed.wf() && mid.observed(pushed);
    assert(pushed.pending is None);
    assert(mid.pending is None);
    mid
}

/// A request for the status is answered with the status and the state that the
/// machine then has, which is none that a host cannot be told, and with the time
/// to wait.
pub proof fn law_status_request(
    dfu: &mut Dfu,
    host: UpdateHost,
    req: CtrlReq,
    result: Result<InReply, IoError>,
    state: u8,
    status: u8,
)
    requires
        old(dfu).wf(),
        old(dfu).pending is None,
        req.request == 3,
        call_ensures(Dfu::handle_in, (dfu, &host, &req), result),
        call_ensures(Status::code, (final(dfu).status,), status),
        call_ensures(State::code, (final(dfu).state,), state),
    ensures
        result is Ok,
        state != 3 && state != 4 && state != 6,
        ({
            let told = result->Ok_0.payload();
            let wait = told[1] + 256 * told[2] + 65536 * told[3];
            &&& told.len() == 6
            &&& told[0] == status && told[4] == state && told[5] == 0
            &&& state == 7 ==> wait == 250
            &&& state != 7 ==> wait == final(dfu).poll_timeout_ms % 16777216
        }),
{
    let mid = lemma_answered_in(*final(dfu), *old(dfu), host, req, result);
    lemma_wait_bytes(mid.poll_timeout_ms);
}

/// A request for the state is answered with it. One for a block is answered where
/// there is something to upload. There is no other request in: it is refused and
/// leaves the machine in error.
pub proof fn law_requests_in(
    dfu: &mut Dfu,
    host: UpdateHost,
    req: CtrlReq,
    result: Result<InReply, IoError>,
    state: u8,
)
    requires
        old(dfu).wf(),
        old(dfu).pending is None,
        req.request != 3,
        call_ensures(Dfu::handle_in, (dfu, &host, &req), result),
        call_ensures(State::code, (final(dfu).state,), state),
    ensures
        req.request == 5 ==> (result matches Ok(reply) && reply.payload() == seq![state]),
        req.request == 2 ==> (result is Ok <==> final(dfu).upload is Some),
        req.request != 2 && req.request != 5 ==> {
            &&& result matches Err(e) && e.kind == ErrorKind::InvalidInput && e.message@
                == "unsupported DFU request"@
            &&& final(dfu).state is Error
            &&& final(dfu).status is ErrStalledPkt
        },
{
    let mid = lemma_answered_in(*final(dfu), *old(dfu), host, req, result);
}

/// A look at the verdict of SWUpdate moves the machine on in two ways only: to an
/// error in the checking of the update, and from the manifestation to its end.
pub proof fn law_poll_moves(dfu: &mut Dfu, host: UpdateHost)
    requires
        old(dfu).wf(),
        call_ensures(Dfu::poll, (dfu, &host), Ok(())),
    ensures
        ({
            ||| final(dfu).state == old(dfu).state && final(dfu).status == old(dfu).status
            ||| final(dfu).state is Error && final(dfu).status is ErrVerify
            ||| old(dfu).state is Manifest && final(dfu).state is ManifestSync
                && final(dfu).status is Okay
        }),
        final(dfu).transfer_size == old(dfu).transfer_size,
        final(dfu).download_tail@ == old(dfu).download_tail@,
{
}

/// An error is given up, and an aborted transfer left, without losing a restart
/// that was due.
pub proof fn law_abort_keeps_restart(dfu: &mut Dfu)
    requires
        old(dfu).wf(),
        call_ensures(Dfu::abort_transfer, (dfu,), ()),
    ensures
        final(dfu).restart_due <==> old(dfu).restart_due || (old(dfu).sink is Some
            && old(dfu).sink->0.restart_due),
        final(dfu).state is DfuIdle,
        final(dfu).status is Okay,
        final(dfu).pending is None,
        final(dfu).download_tail@.len() == 0,
        final(dfu).flushed@.len() == 0,
        final(dfu).sink is Some && final(dfu).sink->0.fed().len() == 0,
        final(dfu).transfer_size == old(dfu).transfer_size,
        final(dfu).poll_timeout_ms == old(dfu).poll_timeout_ms,
        final(dfu).upload == old(dfu).upload,
{
}

/// A host that goes quiet leaves an idle machine as it is. Any other one is idle
/// again afterwards, with nothing downloaded, and the transfer is left with no
/// more to be fed.
pub proof fn law_quiet_host(dfu: &mut Dfu)
    requires
        old(dfu).wf(),
        call_ensures(Dfu::reset_on_idle_timeout, (dfu,), ()),
    ensures
        old(dfu).state is DfuIdle ==> *final(dfu) == *old(dfu),
        !(old(dfu).state is DfuIdle) ==> {
            &&& final(dfu).state is DfuIdle
            &&& final(dfu).status is Okay
            &&& final(dfu).pending is None
            &&& final(dfu).download_tail@.len() == 0
            &&& final(dfu).flushed@.len() == 0
            &&& final(dfu).sink is Some && final(dfu).sink->0.fed().len() == 0
            &&& old(dfu).sink matches Some(s) ==> (final(dfu).left matches Some(left) && left.tx
                is None && left.status == s.status && left.terminal == s.terminal)
            &&& final(dfu).restart_due <==> old(dfu).restart_due || (old(dfu).sink is Some
                && old(dfu).sink->0.restart_due)
        },
{
}

/// The host is waited for twenty times as long as it was told to wait, and at
/// least five seconds; an idle machine waits for ever.
pub proof fn law_idle_timeout(dfu: Dfu, timeout: Option<Duration>)
    requires
        call_ensures(Dfu::dfu_idle_timeout, (&dfu,), timeout),
    ensures
        dfu.state is DfuIdle ==> timeout is None,
        !(dfu.state is DfuIdle) && dfu.poll_timeout_ms <= 250 ==> timeout == Some(
            milliseconds(5000),
        ),
        !(dfu.state is DfuIdle) && dfu.poll_timeout_ms > 250 ==> timeout == Some(
            milliseconds((20 * dfu.poll_timeout_ms) as u64),
        ),
{
}

/// A block that comes while another one waits ends the transfer in an error.
pub proof fn law_block_out_of_turn(dfu: &mut Dfu, host: UpdateHost, data: &[u8], result: Result<(), IoError>)
    requires
        old(dfu).wf(),
        old(dfu).pending is Some,
        old(dfu).download_tail@.len() + data@.len() > 16,
        call_ensures(Dfu::receive_dnload_block, (dfu, &host, data), result),
    ensures
        result is Ok,
        final(dfu).state is Error,
        final(dfu).status is ErrStalledPkt,
        final(dfu).pending is None,
        final(dfu).flushed@.len() == 0,
        final(dfu).download_tail@.len() == 0,
{
}

/// No block is taken while an update is being installed.
pub proof fn law_no_block_while_installing(
    dfu: &mut Dfu,
    host: UpdateHost,
    result: Result<(), IoError>,
)
    requires
        old(dfu).wf(),
        old(dfu).pending is None,
        call_ensures(Dfu::begin_block, (dfu, &host), result),
    ensures
        final(dfu).state is Manifest || final(dfu).state is ManifestSync ==> (result matches Err(e)
            && e.kind == ErrorKind::Other && e.message@ == "manifestation in progress"@),
        !(final(dfu).state is Manifest) && !(final(dfu).state is ManifestSync) ==> result is Ok,
{
}

/// A new machine is idle and without an error, has downloaded nothing, and has the
/// settings it was made with.
pub proof fn law_new_machine(config: DfuConfig, dfu: Dfu)
    requires
        call_ensures(Dfu::new, (config,), dfu),
    ensures
        dfu.state is DfuIdle,
        dfu.status is Okay,
        dfu.flushed@.len() == 0,
        dfu.download_tail@.len() == 0,
        dfu.pending is None,
        dfu.transfer_size == config.transfer_size,
        dfu.poll_timeout_ms == config.poll_timeout_ms,
        dfu.download == config.download && dfu.upload == config.upload,
        dfu.sink is Some && dfu.sink->0.params == config.download && !dfu.sink->0.opened(),
        !dfu.restart_due && dfu.left is None && dfu.stopped@.len() == 0,
        dfu.in_step(),
{
    assert(dfu.handed() =~= Seq::empty());
}

/// What a look at the verdict leaves behind. A failure that is known ends the
/// transfer in an error in the checking of the update; a success ends the
/// manifestation well and does not count before it. A restart that was due stays due.
pub proof fn law_known_verdicts(dfu: &mut Dfu, host: UpdateHost)
    requires
        old(dfu).wf(),
        old(dfu).sink is Some,
        old(dfu).pending is None,
        call_ensures(Dfu::poll, (dfu, &host), Ok(())),
    ensures
        ({
            let sink = old(dfu).sink->0;
            let manifesting = old(dfu).state is Manifest;
            let watched = manifesting || sink.tx is Some || sink.status is Some;
            let failed = sink.terminal matches Some(Err(_));
            let succeeded = sink.terminal matches Some(Ok(_));
            &&& watched && failed ==> final(dfu).state is Error && final(dfu).status is ErrVerify
            &&& manifesting && succeeded ==> final(dfu).state is ManifestSync
                && final(dfu).status is Okay
            &&& !manifesting && succeeded ==> final(dfu).state == old(dfu).state
                && final(dfu).status == old(dfu).status
            &&& !watched ==> final(dfu).state == old(dfu).state
                && final(dfu).status == old(dfu).status
            &&& (watched && failed) || (manifesting && succeeded) ==> final(dfu).sink->0.fed().len()
                == 0 && final(dfu).flushed@.len() == 0
                    && (final(dfu).restart_due <==> old(dfu).restart_due || sink.restart_due)
        }),
{
    let after = *final(dfu);
    let before = *old(dfu);
    let (mid, held) = choose|mid: Dfu, held: bool|
        (#[trigger] mid.pushed(before, host, Ok(held))) && mid.wf() && after.observed(mid);
    assert(mid.sink is Some);
}

/// A machine that still manifests after a look has no verdict yet, and once no block
/// waits its data has ended. One that is in no error has no known failure while its
/// transfer is open.
pub proof fn law_no_verdict_passed_over(dfu: &mut Dfu, host: UpdateHost)
    requires
        old(dfu).wf(),
        old(dfu).sink is Some,
        call_ensures(Dfu::poll, (dfu, &host), Ok(())),
    ensures
        old(dfu).state is Manifest && final(dfu).state is Manifest ==> final(dfu).sink->0.terminal
            is None,
        old(dfu).state is Manifest && final(dfu).state is Manifest && final(dfu).pending is None
            ==> final(dfu).sink->0.tx is None,
        !(final(dfu).state is Error) && final(dfu).sink->0.opened() ==> !(
        final(dfu).sink->0.terminal matches Some(Err(_))),
{
    let after = *final(dfu);
    let before = *old(dfu);
    let (mid, held) = choose|mid: Dfu, held: bool|
        (#[trigger] mid.pushed(before, host, Ok(held))) && mid.wf() && after.observed(mid);
}

/// A transfer that is aborted is not waited for where no task watches it; otherwise
/// the task was asked to stop and is waited for behind those before.
pub proof fn law_aborted_task(dfu: &mut Dfu)
    requires
        old(dfu).wf(),
        call_ensures(Dfu::abort_transfer, (dfu,), ()),
    ensures
        ({
            let n = old(dfu).stopped@.len() as int;
            let running = old(dfu).sink is Some && (
            old(dfu).sink->0.status matches Some(StatusTask::Running(_)));
            &&& !running ==> final(dfu).stopped@ == old(dfu).stopped@
            &&& running ==> final(dfu).stopped@.len() == n + 1 && final(dfu).stopped@.drop_last()
                == old(dfu).stopped@ && crate::queue::asked_to_stop(final(dfu).stopped@[n])
                && crate::queue::task_id(final(dfu).stopped@[n]) == crate::queue::task_id(
                old(dfu).sink->0.status->0->Running_0,
            )
        }),
        final(dfu).left == old(dfu).left,
{
}

/// What was left is handed out once; a machine that manifests, or has just done so,
/// is finishing; and an answer is told as it is.
pub proof fn law_small_answers(
    dfu: &mut Dfu,
    left: Option<SwupdateSession>,
    finishing: bool,
    reply: InReply,
    bytes: &[u8],
)
    requires
        call_ensures(Dfu::take_left, (dfu,), left),
        call_ensures(Dfu::is_finishing, (&*old(dfu),), finishing),
        reply.wf(),
        call_ensures(InReply::as_slice, (&reply,), bytes),
    ensures
        left == old(dfu).left && *final(dfu) == (Dfu { left: None, ..*old(dfu) }),
        finishing <==> old(dfu).state is Manifest || old(dfu).state is ManifestSync,
        reply matches InReply::Inline { buf, len } ==> bytes@ == buf@.take(len as int),
        reply matches InReply::Data(data) ==> bytes@ == shared_contents(data),
{
}

/// A failure of SWUpdate to take a block because a restart is due is passed on, and
/// the block is gone; with no block waiting nothing can fail.
pub proof fn law_failed_poll(dfu: &mut Dfu, host: UpdateHost, err: IoError)
    requires
        old(dfu).wf(),
        call_ensures(Dfu::poll, (dfu, &host), Err(err)),
    ensures
        host.restart_pending && old(dfu).pending is Some,
        err.kind == ErrorKind::Other && err.message@
            == "restart pending after successful SWUpdate; rejecting new update"@,
        final(dfu).pending is None,
        final(dfu).state == old(dfu).state && final(dfu).sink == old(dfu).sink,
{
}

/// Clearing the status of a machine that is in no error and finishes nothing leaves
/// its transfer as it is, as long as the transfer is only starting.
pub proof fn law_cleared_status_keeps_transfer(dfu: &mut Dfu, host: UpdateHost, req: CtrlReq)
    requires
        old(dfu).wf(),
        old(dfu).sink is Some,
        old(dfu).sink->0.status == Some(StatusTask::Starting),
        old(dfu).sink->0.terminal is None,
        old(dfu).pending is None,
        !(old(dfu).state is Error) && !(old(dfu).state is Manifest) && !(old(dfu).state
            is ManifestSync),
        req.request == 4,
        call_ensures(Dfu::handle_out, (dfu, &host, &req), Ok(())),
    ensures
        final(dfu).sink == old(dfu).sink,
        final(dfu).state is DfuIdle && final(dfu).status is Okay,
{
    let after = *final(dfu);
    let before = *old(dfu);
    let mid = choose|mid: Dfu| #[trigger]
        mid.polled(before, host, Ok(())) && mid.wf() && after.answered_out(
            mid,
            host,
            req.request,
            Ok(()),
        );
    let (pushed, held) = choose|pushed: Dfu, held: bool|
        (#[trigger] pushed.pushed(before, host, Ok(held))) && pushed.wf() && mid.observed(pushed);
    assert(pushed.sink == before.sink);
    assert(mid.sink == before.sink);
    assert(mid.state == before.state);
}

/// A download that is manifested while a block of it still waits is in error where
/// the held-back end belongs to it; where nothing is held back it manifests.
pub proof fn law_manifest_out_of_turn(dfu: &mut Dfu, host: UpdateHost)
    requires
        old(dfu).wf(),
        old(dfu).sink is Some,
        old(dfu).pending is Some,
        old(dfu).download_tail@.len() < 16,
        call_ensures(Dfu::manifest, (dfu, &host), Ok(())),
    ensures
        old(dfu).download_tail@.len() > 0 ==> final(dfu).state is Error
            && final(dfu).status is ErrStalledPkt && final(dfu).pending is None,
        old(dfu).download_tail@.len() == 0 ==> final(dfu).state is Manifest
            && final(dfu).status is Okay && (final(dfu).handed() == old(dfu).handed()
                || (final(dfu).pending is None && final(dfu).sink->0.tx is None)),
{
    let after = *final(dfu);
    let before = *old(dfu);
    if before.download_tail@.len() == 0 {
        let staged = choose|staged: Dfu| #[trigger]
            after.pushed_on(staged, host, Ok(())) && staged.manifesting_from(before);
        assert(staged.handed() =~= before.handed());
        if after.pushed(staged, host, Ok(true)) {
            law_push_keeps_bytes(after, staged, host, true);
        } else {
            law_push_keeps_bytes(after, staged, host, false);
        }
    } else {
        let (staged, chunk) = choose|staged: Dfu, chunk: BytesMut| #[trigger]
            after.submitted(staged, host, chunk, Ok(())) && staged.manifesting_from(before)
                && contents(chunk) == before.download_tail@;
        assert(staged.pending is Some);
    }
}

/// A block that leaves nothing to pass on is held back behind what is held back
/// already, whether or not another block waits.
pub proof fn law_small_block(dfu: &mut Dfu, host: UpdateHost, data: &[u8], result: Result<(), IoError>)
    requires
        old(dfu).wf(),
        old(dfu).sink is Some,
        data@.len() <= u16::MAX,
        old(dfu).download_tail@.len() + data@.len() <= 16,
        call_ensures(Dfu::receive_dnload_block, (dfu, &host, data), result),
    ensures
        result is Ok,
        final(dfu).download_tail@ == old(dfu).download_tail@ + data@,
        final(dfu).flushed@ == old(dfu).flushed@,
        final(dfu).pending == old(dfu).pending,
        final(dfu).state is DnloadSync && final(dfu).status is Okay,
{
    assert(old(dfu).flushed@ + Seq::<u8>::empty() =~= old(dfu).flushed@);
}

/// A request for a block of an upload is answered with that block.
pub proof fn law_upload_request(
    dfu: &mut Dfu,
    host: UpdateHost,
    req: CtrlReq,
    reply: InReply,
    i: int,
)
    requires
        old(dfu).wf(),
        req.request == 2,
        call_ensures(Dfu::handle_in, (dfu, &host, &req), Ok(reply)),
    ensures
        final(dfu).upload is Some,
        ({
            let data = final(dfu).upload->0.bytes();
            let size = final(dfu).transfer_size as int;
            let start = req.value * size;
            let sent = reply.payload();
            &&& sent.len() == (if start >= data.len() {
                0int
            } else if data.len() - start < size {
                data.len() - start
            } else {
                size
            })
            &&& 0 <= i < sent.len() ==> sent[i] == data[start + i]
            &&& sent.len() < size ==> final(dfu).state is DfuIdle
            &&& sent.len() >= size ==> final(dfu).state is UploadIdle
        }),
{
    let after = *final(dfu);
    let before = *old(dfu);
    let mid = choose|mid: Dfu| #[trigger]
        mid.polled(before, host, Ok(())) && mid.wf() && after.answered_in(mid, req, Ok(reply));
    let size = mid.transfer_size as int;
    assert(req.value * size >= 0) by (nonlinear_arith)
        requires
            size >= 0,
            req.value >= 0,
    ;
}

/// With no block waiting, a detach, a cleared status and an abort always succeed.
pub proof fn law_requests_out_succeed(
    dfu: &mut Dfu,
    host: UpdateHost,
    req: CtrlReq,
    result: Result<(), IoError>,
)
    requires
        old(dfu).wf(),
        old(dfu).sink is Some,
        old(dfu).pending is None,
        req.request == 0 || req.request == 4 || req.request == 6,
        call_ensures(Dfu::handle_out, (dfu, &host, &req), result),
    ensures
        result is Ok,
        final(dfu).sink is Some,
{
}

} // verus!
