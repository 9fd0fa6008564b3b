//! The fastboot-usb command and data state machine.
//!
//! It decides what to read from the bulk OUT endpoint, routes what was read to
//! the command interpreter or into the active download, and says what to
//! answer. The caller owns the endpoints and performs the [`UsbAction`]s.

use bytes::BytesMut;
use core::time::Duration;
use tokio::task::JoinHandle;
use vstd::prelude::*;
use vstd::string::StringSliceAdditionalSpecFns;

use crate::buffer::{self, contents};
use crate::fastboot_proto::{DownloadKind, FAIL_CLOSE, FAIL_EPIPE, FAIL_NOTOPEN, OKAY};
use crate::fault::{ErrorKind, IoError};
use crate::queue::{asked_to_stop, same_outlet, task_id, unread};
use crate::swupdate::config::{SwupdateParams, UpdateHost};
use crate::swupdate::session::{Feed, StatusTask, SwupdateSession};
use crate::time::seconds;
use crate::usb::functionfs::{bulk_closed, is_bulk_closed, BulkFunction};

verus! {

/// Capacity of every receive buffer of a fastboot-usb function. Some
/// controllers reject a single request larger than 16 KB.
pub const RECV_BUFFER_SIZE: usize = 16384;

/// Capacity of the largest receive buffers, those of an FBK function.
pub const MAX_RECV_BUFFER_SIZE: usize = 131072;

/// Number of receive buffers kept submitted to the kernel at the same time.
pub const RECV_QUEUE_DEPTH: u32 = 1;

/// How long a download may wait for the host, in seconds.
pub const DOWNLOAD_STALL_SECS: u64 = 5;

/// Something to do on the endpoints.
pub enum UsbAction {
    /// Cancel the receive endpoint, so that nothing more is delivered.
    CancelReceive,
    /// Wait for a status task that was asked to stop.
    AwaitStopped(JoinHandle<Result<(), IoError>>),
    /// Send a reply; it does not matter if that fails.
    Reply(Vec<u8>),
    /// Send these in turn, until one cannot be sent.
    Series(Vec<Vec<u8>>),
}

/// An action with the bytes that it sends or the task that it waits for.
pub enum Act {
    /// Cancel the receive endpoint.
    CancelReceive,
    /// Wait for a status task.
    AwaitStopped {
        /// The number of the task.
        task: nat,
        /// It was asked to stop.
        asked: bool,
        /// Its result is still to be given.
        unread: bool,
    },
    /// Send a reply.
    Reply(Seq<u8>),
    /// Send these in turn, until one cannot be sent.
    Series(Seq<Seq<u8>>),
}

impl View for UsbAction {
    type V = Act;

    open spec fn view(&self) -> Act {
        match self {
            UsbAction::CancelReceive => Act::CancelReceive,
            UsbAction::AwaitStopped(task) => Act::AwaitStopped {
                task: task_id(*task),
                asked: asked_to_stop(*task),
                unread: unread(*task),
            },
            UsbAction::Reply(data) => Act::Reply(data@),
            UsbAction::Series(parts) => Act::Series(
                Seq::new(parts@.len(), |i: int| parts@[i]@),
            ),
        }
    }
}

/// A list of actions with the bytes that they send.
pub open spec fn acts(list: Seq<UsbAction>) -> Seq<Act> {
    Seq::new(list.len(), |i: int| list[i]@)
}

/// Puts an action at the end of the list.
pub(crate) fn push_action(out: &mut Vec<UsbAction>, action: UsbAction)
    ensures
        acts(final(out)@) == acts(old(out)@).push(action@),
{
    out.push(action);
    assert(acts(out@) =~= acts(old(out)@).push(action@));
}

/// Puts a reply token at the end of the list.
pub(crate) fn push_reply(out: &mut Vec<UsbAction>, token: &str)
    ensures
        acts(final(out)@) == acts(old(out)@).push(Act::Reply(token.spec_bytes())),
{
    let mut data: Vec<u8> = Vec::new();
    data.extend_from_slice(token.as_bytes());
    assert(data@ =~= token.spec_bytes());
    push_action(out, UsbAction::Reply(data));
}

/// The reply token `token` as the only action.
pub open spec fn only(token: &str) -> Seq<Act> {
    seq![Act::Reply(token.spec_bytes())]
}

/// What became of a piece of the download.
pub enum ChunkStep {
    /// It is dealt with; the connected session keeps serving or not.
    Done(bool),
    /// SWUpdate has no room for it; offer it again once it has.
    Blocked(BytesMut),
}

/// What became of data from the host.
pub enum RxStep {
    /// It is dealt with; the connected session keeps serving or not.
    Done(bool),
    /// SWUpdate has no room for a piece of the download. Once it has, go on
    /// with [`FastbootUsbState::route`].
    Blocked {
        /// The piece.
        block: BytesMut,
        /// What came after the end of the download.
        trailing: Option<BytesMut>,
    },
    /// Announce the data phase with the `DATA` header for `len` bytes, then go
    /// on with [`FastbootUsbState::header_sent`].
    SendHeader {
        /// Number of bytes the host will send.
        len: usize,
        /// Whether the transfer is a fastboot or plain FBK download.
        kind: DownloadKind,
        /// What came after the command.
        rest: BytesMut,
    },
}

/// What the connected loop waits for.
pub enum TransferPlan {
    /// SWUpdate's verdict; it goes to [`FastbootUsbState::finish`].
    Verdict,
    /// The next completed read; where there is a limit and it passes,
    /// [`stall_error`] takes its place.
    Receive {
        /// How long to wait at most.
        limit: Option<Duration>,
    },
}

/// The state of one bound fastboot-usb function.
pub struct FastbootUsbState {
    /// The function that this is the state of.
    pub function: BulkFunction,
    /// Packet size of the receive endpoint.
    pub rx_max_packet_size: u16,
    /// Packet size to go by where the endpoint does not tell.
    pub rx_max_packet_size_default: u16,
    /// Capacity of the receive buffers.
    pub recv_size: usize,
    /// Settings of the update.
    pub download_params: SwupdateParams,
    /// The active transfer.
    pub download: Option<SwupdateSession>,
    /// An FBK session is open.
    pub fastboot_usb_session_open: bool,
    /// Serial number of the device.
    pub serial: String,
    /// Size of the download.
    pub download_size: usize,
    /// How much of the download has been received.
    pub downloaded_size: usize,
    /// A download waits to be flashed.
    pub fastboot_pending_flash: bool,
    /// All data is there; SWUpdate's verdict is awaited.
    pub finish_pending: bool,
    /// The receive endpoint is gone for good. Never cleared: a read submitted
    /// while the driver disables the endpoint can keep it from ever being
    /// disabled.
    pub gadget_torn_down: bool,
    /// A restart is due after a successful update.
    pub restart_due: bool,
}

/// The sum of two sizes, or the largest size where it is larger.
pub open spec fn capped_sum(a: usize, b: nat) -> usize {
    if a + b > usize::MAX {
        usize::MAX
    } else {
        (a + b) as usize
    }
}

/// `n` rounded up to a multiple of `step`.
pub open spec fn rounded_up(n: nat, step: nat) -> nat {
    ((n + step - 1) / step as int * step) as nat
}

/// The fault of a download for which no data came in time.
pub fn stall_error() -> (err: IoError)
    ensures
        err.says(ErrorKind::TimedOut, "timed out waiting for fastboot-usb download data"@),
{
    IoError::new(ErrorKind::TimedOut, "timed out waiting for fastboot-usb download data")
}

impl FastbootUsbState {
    /// The transfer is in order and the buffers have a size.
    pub open spec fn wf(self) -> bool {
        &&& self.download matches Some(s) ==> s.wf()
        &&& 0 < self.recv_size <= MAX_RECV_BUFFER_SIZE
    }

    /// Part of the download is still to come.
    pub open spec fn active(self) -> bool {
        self.downloaded_size < self.download_size
    }

    /// How many bytes of the download are still to come.
    pub open spec fn remaining(self) -> nat {
        if self.active() {
            (self.download_size - self.downloaded_size) as nat
        } else {
            0
        }
    }

    /// A download, flash or finish is under way.
    pub open spec fn under_way(self) -> bool {
        self.active() || self.fastboot_pending_flash || self.finish_pending
    }

    /// A restart is due here or in the active transfer.
    pub open spec fn any_restart_due(self) -> bool {
        self.restart_due || (self.download matches Some(s) && s.restart_due)
    }

    /// The bytes that the active transfer has been fed.
    pub open spec fn fed(self) -> Seq<u8> {
        match self.download {
            Some(s) => s.fed(),
            None => Seq::empty(),
        }
    }

    /// Creates the state of a function that no host has enabled yet.
    pub fn new(
        function: BulkFunction,
        download: SwupdateParams,
        serial: String,
        rx_max_packet_size_default: u16,
        recv_size: usize,
    ) -> (state: FastbootUsbState)
        requires
            0 < recv_size <= MAX_RECV_BUFFER_SIZE,
        ensures
            state.wf(),
            state.function == function,
            state.rx_max_packet_size == rx_max_packet_size_default,
            state.rx_max_packet_size_default == rx_max_packet_size_default,
            state.recv_size == recv_size,
            state.download_params == download,
            state.download matches Some(s) && s.fresh(download, recv_size),
            state.serial == serial,
            state.download_size == 0,
            state.downloaded_size == 0,
            !state.fastboot_usb_session_open,
            !state.under_way(),
            !state.gadget_torn_down,
            !state.restart_due,
    {
        let session = SwupdateSession::new(download.clone(), recv_size);
        FastbootUsbState {
            function,
            rx_max_packet_size: rx_max_packet_size_default,
            rx_max_packet_size_default,
            recv_size,
            download_params: download,
            download: Some(session),
            fastboot_usb_session_open: false,
            serial,
            download_size: 0,
            downloaded_size: 0,
            fastboot_pending_flash: false,
            finish_pending: false,
            gadget_torn_down: false,
            restart_due: false,
        }
    }

    /// Whether `self` is `before` with a fresh transfer, nothing under way and
    /// no session open.
    pub open spec fn started_over(self, before: FastbootUsbState) -> bool {
        &&& self.wf()
        &&& self == (FastbootUsbState {
            download: self.download,
            fastboot_usb_session_open: false,
            download_size: 0,
            downloaded_size: 0,
            fastboot_pending_flash: false,
            finish_pending: false,
            restart_due: before.any_restart_due(),
            ..before
        })
        &&& self.download matches Some(s) && s.fresh(before.download_params, before.recv_size)
    }

    fn reset_state(&mut self)
        requires
            old(self).wf(),
        ensures
            final(self).started_over(*old(self)),
    {
        let due: bool = match &self.download {
            Some(download) => download.restart_due,
            None => false,
        };
        self.restart_due = self.restart_due || due;
        self.download = Some(SwupdateSession::new(self.download_params.clone(), self.recv_size));
        self.fastboot_usb_session_open = false;
        self.download_size = 0;
        self.downloaded_size = 0;
        self.fastboot_pending_flash = false;
        self.finish_pending = false;
    }

    /// What resetting this state has the caller do: quiesce the endpoint
    /// first, wait for the transfer, which was asked to stop, and only then
    /// reply.
    pub open spec fn reset_acts(self, reply: Option<Seq<u8>>) -> Seq<Act> {
        seq![Act::CancelReceive] + (match self.download {
            Some(s) => match s.status {
                Some(StatusTask::Running(task)) => seq![
                    Act::AwaitStopped { task: task_id(task), asked: true, unread: unread(task) },
                ],
                _ => Seq::empty(),
            },
            None => Seq::empty(),
        }) + (match reply {
            Some(token) => seq![Act::Reply(token)],
            None => Seq::empty(),
        })
    }

    /// Quiesces the bulk receive path, tears the transfer down and starts over.
    pub fn reset(&mut self, reply: Option<&str>, out: &mut Vec<UsbAction>)
        requires
            old(self).wf(),
        ensures
            final(self).started_over(*old(self)),
            acts(final(out)@) == acts(old(out)@) + old(self).reset_acts(
                match reply {
                    Some(token) => Some(token.spec_bytes()),
                    None => None,
                },
            ),
    {
        push_action(out, UsbAction::CancelReceive);
        let task = match self.download.as_mut() {
            Some(download) => download.abort(),
            None => None,
        };
        if let Some(task) = task {
            push_action(out, UsbAction::AwaitStopped(task));
        }
        self.reset_state();
        if let Some(token) = reply {
            push_reply(out, token);
        }
        assert(acts(out@) =~= acts(old(out)@) + old(self).reset_acts(
            match reply {
                Some(token) => Some(token.spec_bytes()),
                None => None,
            },
        ));
    }

    fn remaining_download_bytes(&self) -> (n: usize)
        ensures
            n == self.remaining(),
    {
        self.download_size.saturating_sub(self.downloaded_size)
    }

    /// Whether part of the download is still to come.
    pub fn download_active(&self) -> (r: bool)
        ensures
            r == self.active(),
    {
        self.downloaded_size < self.download_size
    }

    /// Whether a download, flash or finish is under way, so that a transport
    /// fault must tear it down.
    pub fn in_flight(&self) -> (r: bool)
        ensures
            r == self.under_way(),
    {
        self.download_active() || self.fastboot_pending_flash || self.finish_pending
    }

    /// Length of the next read while a download is active, else of any read:
    /// what is left of the download, but no more than a buffer, rounded up to
    /// the packet size.
    pub open spec fn next_read(self) -> nat {
        let want = if self.remaining() < self.recv_size {
            self.remaining()
        } else {
            self.recv_size as nat
        };
        let step = if self.rx_max_packet_size == 0 {
            1
        } else {
            self.rx_max_packet_size as nat
        };
        if self.active() {
            rounded_up(want, step)
        } else {
            self.recv_size as nat
        }
    }

    /// Length of the next bulk OUT read, clamped to what is left of the
    /// download and rounded up to the packet size, as hardware requires.
    pub fn recv_capacity(&self) -> (capacity: usize)
        requires
            self.wf(),
        ensures
            capacity == self.next_read(),
            0 < capacity <= MAX_RECV_BUFFER_SIZE + 65535,
    {
        if !self.download_active() {
            return self.recv_size;
        }
        let left: usize = self.remaining_download_bytes();
        let want: usize = if left < self.recv_size {
            left
        } else {
            self.recv_size
        };
        let step: usize = if self.rx_max_packet_size == 0 {
            1
        } else {
            self.rx_max_packet_size as usize
        };
        let packets: usize = (want + step - 1) / step;
        proof {
            lemma_rounded_up(want as nat, step as nat);
        }
        packets * step
    }

    /// A buffer for the next bulk OUT read. A read that is to end at the
    /// boundary of the download gets a small buffer of its own, because the
    /// length of a read is the capacity of its buffer and a recycled buffer
    /// would be too large.
    pub fn recv_buffer(&mut self) -> (buf: BytesMut)
        requires
            old(self).wf(),
        ensures
            final(self).wf(),
            contents(buf) == Seq::<u8>::empty(),
            *final(self) == (FastbootUsbState { download: final(self).download, ..*old(self) }),
            match old(self).download {
                Some(s) => final(self).download matches Some(after) && after.lent(s),
                None => final(self).download is None,
            },
            old(self).next_read() < old(self).recv_size ==> *final(self) == *old(self),
    {
        reveal(same_outlet);
        let capacity: usize = self.recv_capacity();
        if capacity >= self.recv_size {
            match self.download.as_mut() {
                Some(download) => download.buffer(self.recv_size),
                None => buffer::with_capacity(self.recv_size),
            }
        } else {
            buffer::with_capacity(capacity)
        }
    }

    /// The host has enabled the function and the endpoint tells its packet
    /// size, or does not.
    pub fn connected(&mut self, max_packet_size: Option<u16>)
        ensures
            *final(self) == (FastbootUsbState {
                rx_max_packet_size: match max_packet_size {
                    Some(size) => size,
                    None => old(self).rx_max_packet_size_default,
                },
                ..*old(self)
            }),
    {
        self.rx_max_packet_size = match max_packet_size {
            Some(size) => size,
            None => self.rx_max_packet_size_default,
        };
    }

    /// Whether a look for an early failure can turn `before` into `self`. Only
    /// an open transfer whose download is active is looked at.
    pub open spec fn looked(
        self,
        before: FastbootUsbState,
        stop: bool,
        actions: Seq<Act>,
    ) -> bool {
        let watched = before.download matches Some(s) && s.opened();
        if before.finish_pending || !before.active() || !watched {
            !stop && self == before && actions == Seq::<Act>::empty()
        } else {
            exists|session: SwupdateSession, verdict: Option<Result<(), IoError>>|
                {
                    let mid = FastbootUsbState { download: Some(session), ..before };
                    &&& #[trigger] session.after_look(before.download->0, verdict)
                    &&& session.wf()
                    &&& if verdict matches Some(Err(_)) {
                        stop && self.started_over(mid) && actions == mid.reset_acts(
                            Some(FAIL_EPIPE.spec_bytes()),
                        )
                    } else {
                        !stop && self == mid && actions == Seq::<Act>::empty()
                    }
                }
        }
    }

    /// Looks for a failure of SWUpdate in the middle of a download, before the
    /// next read is submitted. Returns whether the connected session ends.
    pub fn fail_fast(&mut self, out: &mut Vec<UsbAction>) -> (stop: bool)
        requires
            old(self).wf(),
        ensures
            final(self).wf(),
            exists|actions: Seq<Act>| #[trigger]
                final(self).looked(*old(self), stop, actions) && acts(final(out)@) == acts(
                    old(out)@,
                ) + actions,
    {
        let ghost nothing = Seq::<Act>::empty();
        assert(acts(out@) + nothing =~= acts(out@));
        if self.finish_pending || !self.download_active() {
            assert(self.looked(*old(self), false, nothing));
            return false;
        }
        let verdict = match self.download.as_mut() {
            Some(download) => if download.is_open() {
                download.try_finished()
            } else {
                assert(self.looked(*old(self), false, nothing));
                return false;
            },
            None => {
                assert(self.looked(*old(self), false, nothing));
                return false;
            },
        };
        let ghost mid = *self;
        assert(mid.download->0.after_look(old(self).download->0, verdict));
        assert(mid == (FastbootUsbState { download: mid.download, ..*old(self) }));
        match verdict {
            Some(Err(_err)) => {
                self.reset(Some(FAIL_EPIPE), out);
                assert(self.looked(
                    *old(self),
                    true,
                    mid.reset_acts(Some(FAIL_EPIPE.spec_bytes())),
                ));
                true
            },
            _ => {
                assert(self.looked(*old(self), false, nothing));
                false
            },
        }
    }

    /// A read was submitted, or could not be. An endpoint that is gone means
    /// that no further read may ever be submitted.
    pub fn submitted(&mut self, result: &Result<(), IoError>, host: &UpdateHost)
        ensures
            *final(self) == (FastbootUsbState {
                gadget_torn_down: old(self).gadget_torn_down || (result matches Err(e)
                    && bulk_closed(old(self).function, *e, host.errnos)),
                ..*old(self)
            }),
    {
        if let Err(err) = result {
            if is_bulk_closed(self.function, err, &host.errnos) {
                self.gadget_torn_down = true;
            }
        }
    }

    /// Whether there is anything to wait for besides the control loop, given
    /// whether a read is submitted.
    pub fn ready(&self, read_submitted: bool) -> (r: bool)
        ensures
            r == (read_submitted || self.finish_pending),
    {
        read_submitted || self.finish_pending
    }

    /// The control loop has signalled whether the function is enabled, or has
    /// ended (`None`). Returns whether the connected session keeps serving:
    /// anything but an enabled function resets it.
    pub fn enabled_changed(&mut self, enabled: Option<bool>, out: &mut Vec<UsbAction>) -> (
        keep: bool)
        requires
            old(self).wf(),
        ensures
            final(self).wf(),
            keep == (enabled == Some(true)),
            keep ==> *final(self) == *old(self) && acts(final(out)@) == acts(old(out)@),
            !keep ==> final(self).started_over(*old(self)) && acts(final(out)@) == acts(old(out)@)
                + old(self).reset_acts(None),
    {
        match enabled {
            Some(true) => true,
            _ => {
                self.reset(None, out);
                false
            },
        }
    }

    /// What the connected loop waits for next.
    pub fn transfer_plan(&self) -> (plan: TransferPlan)
        ensures
            plan == (if self.finish_pending {
                TransferPlan::Verdict
            } else if self.active() {
                TransferPlan::Receive { limit: Some(seconds(DOWNLOAD_STALL_SECS)) }
            } else {
                TransferPlan::Receive { limit: None }
            }),
    {
        if self.finish_pending {
            TransferPlan::Verdict
        } else if self.download_active() {
            TransferPlan::Receive { limit: Some(Duration::from_secs(DOWNLOAD_STALL_SECS)) }
        } else {
            TransferPlan::Receive { limit: None }
        }
    }

    /// SWUpdate's verdict is there: the host is told, and everything starts
    /// over. Either verdict is a normal end.
    pub fn finish(&mut self, verdict: &Result<(), IoError>, out: &mut Vec<UsbAction>)
        requires
            old(self).wf(),
        ensures
            final(self).started_over(*old(self)),
            acts(final(out)@) == acts(old(out)@) + only(
                match verdict {
                    Ok(_) => OKAY,
                    Err(_) => FAIL_CLOSE,
                },
            ),
    {
        self.reset_state();
        match verdict {
            Ok(()) => push_reply(out, OKAY),
            Err(_) => push_reply(out, FAIL_CLOSE),
        }
        assert(acts(out@) =~= acts(old(out)@) + only(
            match verdict {
                Ok(_) => OKAY,
                Err(_) => FAIL_CLOSE,
            },
        ));
    }

    /// Whether offering a piece of the download to `before` can give `self`.
    /// Every byte counts, whether SWUpdate takes it or has stopped taking any:
    /// the host sends the whole download either way, and is acknowledged
    /// exactly when all of it is there.
    pub open spec fn chunk_taken(
        self,
        before: FastbootUsbState,
        host: UpdateHost,
        data: Seq<u8>,
        step: ChunkStep,
        actions: Seq<Act>,
    ) -> bool {
        if data.len() == 0 {
            step == ChunkStep::Done(true) && self == before && actions == Seq::<Act>::empty()
        } else if before.download is None {
            &&& step == ChunkStep::Done(false)
            &&& self.started_over(before)
            &&& actions == before.reset_acts(Some(FAIL_NOTOPEN.spec_bytes()))
        } else if before.download->0.idle() && host.restart_pending {
            &&& step == ChunkStep::Done(false)
            &&& self.started_over(before)
            &&& actions == only(FAIL_EPIPE) + before.reset_acts(None)
        } else {
            exists|session: SwupdateSession, feed: Feed|
                {
                    &&& #[trigger] session.after_feed(before.download->0, host, data, feed)
                    &&& session.wf()
                    &&& match feed {
                        Feed::Full(back) => {
                            &&& step == ChunkStep::Blocked(back)
                            &&& self == (FastbootUsbState { download: Some(session), ..before })
                            &&& actions == Seq::<Act>::empty()
                        },
                        _ => {
                            &&& step == ChunkStep::Done(true)
                            &&& self == (FastbootUsbState {
                                download: Some(session),
                                downloaded_size: capped_sum(before.downloaded_size, data.len()),
                                ..before
                            })
                            &&& actions == (if self.active() {
                                Seq::<Act>::empty()
                            } else {
                                only(OKAY)
                            })
                        },
                    }
                }
        }
    }

    /// Offers one piece of the download to SWUpdate.
    pub fn handle_download_chunk(
        &mut self,
        chunk: BytesMut,
        host: &UpdateHost,
        out: &mut Vec<UsbAction>,
    ) -> (step: ChunkStep)
        requires
            old(self).wf(),
        ensures
            final(self).wf(),
            exists|actions: Seq<Act>| #[trigger]
                final(self).chunk_taken(*old(self), *host, contents(chunk), step, actions) && acts(
                    final(out)@,
                ) == acts(old(out)@) + actions,
    {
        let ghost nothing = Seq::<Act>::empty();
        assert(acts(out@) + nothing =~= acts(out@));
        let ghost data = contents(chunk);
        let chunk_len: usize = buffer::as_slice(&chunk).len();
        if chunk_len == 0 {
            assert(self.chunk_taken(*old(self), *host, data, ChunkStep::Done(true), nothing));
            return ChunkStep::Done(true);
        }
        let outcome = match self.download.as_mut() {
            Some(download) => download.try_send(host, chunk),
            None => {
                self.reset(Some(FAIL_NOTOPEN), out);
                assert(self.chunk_taken(
                    *old(self),
                    *host,
                    data,
                    ChunkStep::Done(false),
                    old(self).reset_acts(Some(FAIL_NOTOPEN.spec_bytes())),
                ));
                return ChunkStep::Done(false);
            },
        };
        let ghost fed = self.download;
        match outcome {
            Ok(Feed::Full(back)) => {
                assert(fed->0.after_feed(old(self).download->0, *host, data, Feed::Full(back)));
                assert(self.chunk_taken(
                    *old(self),
                    *host,
                    data,
                    ChunkStep::Blocked(back),
                    nothing,
                ));
                ChunkStep::Blocked(back)
            },
            Ok(feed) => {
                self.downloaded_size = self.downloaded_size.saturating_add(chunk_len);
                assert(fed->0.after_feed(old(self).download->0, *host, data, feed));
                if self.downloaded_size >= self.download_size {
                    push_reply(out, OKAY);
                    assert(acts(out@) =~= acts(old(out)@) + only(OKAY));
                    assert(self.chunk_taken(
                        *old(self),
                        *host,
                        data,
                        ChunkStep::Done(true),
                        only(OKAY),
                    ));
                } else {
                    assert(self.chunk_taken(
                        *old(self),
                        *host,
                        data,
                        ChunkStep::Done(true),
                        nothing,
                    ));
                }
                ChunkStep::Done(true)
            },
            Err(err) => {
                assert(*self == *old(self));
                if err.kind == ErrorKind::NotConnected {
                    push_reply(out, FAIL_NOTOPEN);
                } else {
                    push_reply(out, FAIL_EPIPE);
                }
                self.reset(None, out);
                assert(acts(out@) =~= acts(old(out)@) + (only(FAIL_EPIPE) + old(self).reset_acts(
                    None,
                )));
                assert(self.chunk_taken(
                    *old(self),
                    *host,
                    data,
                    ChunkStep::Done(false),
                    only(FAIL_EPIPE) + old(self).reset_acts(None),
                ));
                ChunkStep::Done(false)
            },
        }
    }

    /// Whether `rx` says of received data what `step` says of a piece of the
    /// download with nothing behind it.
    pub open spec fn same_step(step: ChunkStep, rx: RxStep) -> bool {
        match step {
            ChunkStep::Done(keep) => rx == RxStep::Done(keep),
            ChunkStep::Blocked(block) => rx == (RxStep::Blocked { block, trailing: None }),
        }
    }

    /// Whether offering a piece of the download to `before`, and then `rest`
    /// once the download is complete, can give `self`.
    pub open spec fn routed(
        self,
        before: FastbootUsbState,
        host: UpdateHost,
        data: Seq<u8>,
        rest: Option<BytesMut>,
        step: RxStep,
        actions: Seq<Act>,
    ) -> bool {
        exists|mid: FastbootUsbState, first: ChunkStep, before_rest: Seq<Act>|
            {
                &&& #[trigger] mid.chunk_taken(before, host, data, first, before_rest)
                &&& mid.wf()
                &&& match first {
                    ChunkStep::Blocked(block) => self == mid && actions == before_rest && step == (
                    RxStep::Blocked { block, trailing: rest }),
                    ChunkStep::Done(keep) => if !keep || rest is None || mid.active() {
                        self == mid && actions == before_rest && step == RxStep::Done(keep)
                    } else {
                        exists|second: ChunkStep, after: Seq<Act>| #[trigger]
                            self.chunk_taken(mid, host, contents(rest->0), second, after)
                                && Self::same_step(second, step) && actions == before_rest + after
                    },
                }
            }
    }

    /// Offers one piece of the download to SWUpdate, and then what came after
    /// it if that completed the download.
    pub fn route(
        &mut self,
        block: BytesMut,
        rest: Option<BytesMut>,
        host: &UpdateHost,
        out: &mut Vec<UsbAction>,
    ) -> (step: RxStep)
        requires
            old(self).wf(),
        ensures
            final(self).wf(),
            exists|actions: Seq<Act>| #[trigger]
                final(self).routed(*old(self), *host, contents(block), rest, step, actions) && acts(
                    final(out)@,
                ) == acts(old(out)@) + actions,
    {
        let ghost data = contents(block);
        let first = self.handle_download_chunk(block, host, out);
        let ghost mid = *self;
        let ghost before_rest = choose|actions: Seq<Act>| #[trigger]
            mid.chunk_taken(*old(self), *host, data, first, actions) && acts(out@) == acts(
                old(out)@,
            ) + actions;
        let ghost mid_out = out@;
        match first {
            ChunkStep::Blocked(block) => {
                assert(self.routed(
                    *old(self),
                    *host,
                    data,
                    rest,
                    RxStep::Blocked { block, trailing: rest },
                    before_rest,
                ));
                RxStep::Blocked { block, trailing: rest }
            },
            ChunkStep::Done(keep) => {
                if !keep || self.download_active() {
                    assert(self.routed(
                        *old(self),
                        *host,
                        data,
                        rest,
                        RxStep::Done(keep),
                        before_rest,
                    ));
                    return RxStep::Done(keep);
                }
                match rest {
                    None => {
                        assert(self.routed(
                            *old(self),
                            *host,
                            data,
                            rest,
                            RxStep::Done(keep),
                            before_rest,
                        ));
                        RxStep::Done(keep)
                    },
                    Some(trailing) => {
                        let second = self.handle_download_chunk(trailing, host, out);
                        let ghost after = choose|actions: Seq<Act>| #[trigger]
                            self.chunk_taken(mid, *host, contents(trailing), second, actions)
                                && acts(out@) == acts(mid_out) + actions;
                        let step = match second {
                            ChunkStep::Done(keep) => RxStep::Done(keep),
                            ChunkStep::Blocked(block) => RxStep::Blocked { block, trailing: None },
                        };
                        assert(Self::same_step(second, step));
                        assert(self.chunk_taken(mid, *host, contents(trailing), second, after));
                        assert(self.routed(
                            *old(self),
                            *host,
                            data,
                            rest,
                            step,
                            before_rest + after,
                        ));
                        assert(acts(out@) =~= acts(old(out)@) + (before_rest + after));
                        step
                    },
                }
            },
        }
    }
}

proof fn lemma_rounded_up(n: nat, step: nat)
    requires
        step >= 1,
    ensures
        n <= rounded_up(n, step) < n + step,
        rounded_up(n, step) % step == 0,
        rounded_up(n, step) == (n + step - 1) / step as int * step,
        (n + step - 1) / step as int >= 0,
        n % step == 0 ==> rounded_up(n, step) == n,
{
    let total = n + step - 1;
    let d = step as int;
    let q = total / d;
    let r = total % d;
    vstd::arithmetic::div_mod::lemma_fundamental_div_mod(total, d);
    vstd::arithmetic::div_mod::lemma_mod_bound(total, d);
    assert(q >= 0) by (nonlinear_arith)
        requires
            total == d * q + r,
            total >= 0,
            0 <= r < d,
    ;
    assert(q * d == d * q) by (nonlinear_arith);
    assert(q * d >= 0) by (nonlinear_arith)
        requires
            q >= 0,
            d >= 0,
    ;
    vstd::arithmetic::div_mod::lemma_mod_multiples_basic(q, d);
    if n % step == 0 {
        vstd::arithmetic::div_mod::lemma_fundamental_div_mod(n as int, d);
        let m = n as int / d;
        assert(total == m * d + (d - 1)) by (nonlinear_arith)
            requires
                total == n + d - 1,
                n == d * m,
        ;
        vstd::arithmetic::div_mod::lemma_fundamental_div_mod_converse(total, d, m, d - 1);
        assert(q == m);
        assert(m * d == d * m) by (nonlinear_arith);
    }
}

// ---------------------------------------------------------------------------
// Laws
// ---------------------------------------------------------------------------

/// A list of actions is told action by action, and a reply by its bytes.
pub proof fn law_acts(list: Seq<UsbAction>, data: Vec<u8>, i: int)
    requires
        0 <= i < list.len(),
    ensures
        acts(list).len() == list.len(),
        acts(list)[i] == list[i]@,
        UsbAction::Reply(data)@ == Act::Reply(data@),
        UsbAction::CancelReceive@ == Act::CancelReceive,
{
}

/// A function starts with nothing under way and nothing downloaded.
pub proof fn law_new_state(
    function: BulkFunction,
    download: SwupdateParams,
    serial: String,
    packet: u16,
    recv_size: usize,
    state: FastbootUsbState,
)
    requires
        0 < recv_size <= 131072,
        call_ensures(
            FastbootUsbState::new,
            (function, download, serial, packet, recv_size),
            state,
        ),
    ensures
        state.download_size == 0 && state.downloaded_size == 0,
        !state.fastboot_pending_flash && !state.finish_pending && !state.fastboot_usb_session_open,
        !state.gadget_torn_down && !state.restart_due,
        state.serial == serial && state.function == function && state.recv_size == recv_size,
        state.rx_max_packet_size == packet,
        state.fed().len() == 0,
{
}

/// Outside a download a read is as long as a buffer. Within one it is the multiple
/// of the packet size next to what is left of the download, or to a buffer where
/// more is left.
pub proof fn law_read_lengths(state: FastbootUsbState, capacity: usize)
    requires
        state.wf(),
        call_ensures(FastbootUsbState::recv_capacity, (&state,), capacity),
    ensures
        state.downloaded_size >= state.download_size ==> capacity == state.recv_size,
        state.downloaded_size < state.download_size ==> {
            let left = state.download_size - state.downloaded_size;
            let want = if left < state.recv_size {
                left
            } else {
                state.recv_size as int
            };
            let packet = state.rx_max_packet_size as int;
            &&& packet == 0 ==> capacity == want
            &&& packet > 0 ==> want <= capacity < want + packet && capacity as int % packet == 0
        },
{
    if state.downloaded_size < state.download_size {
        let left = state.download_size - state.downloaded_size;
        let want = if left < state.recv_size {
            left
        } else {
            state.recv_size as int
        };
        let step = if state.rx_max_packet_size == 0 {
            1
        } else {
            state.rx_max_packet_size as nat
        };
        lemma_rounded_up(want as nat, step);
    }
}

/// The packet size is what the endpoint tells, or the default; nothing else
/// changes.
pub proof fn law_connected(state: &mut FastbootUsbState, size: Option<u16>)
    requires
        call_ensures(FastbootUsbState::connected, (state, size), ()),
    ensures
        size matches Some(n) ==> final(state).rx_max_packet_size == n,
        size is None ==> final(state).rx_max_packet_size == old(state).rx_max_packet_size_default,
        *final(state) == (FastbootUsbState {
            rx_max_packet_size: final(state).rx_max_packet_size,
            ..*old(state)
        }),
{
}

/// A download, a flash and a finish are under way; a part of the download that is
/// still to come is, too.
pub proof fn law_under_way(state: FastbootUsbState, active: bool, flight: bool)
    requires
        call_ensures(FastbootUsbState::download_active, (&state,), active),
        call_ensures(FastbootUsbState::in_flight, (&state,), flight),
    ensures
        active <==> state.downloaded_size < state.download_size,
        flight <==> state.downloaded_size < state.download_size || state.fastboot_pending_flash
            || state.finish_pending,
{
}

/// The loop waits for the verdict once the data is there, up to five seconds for
/// data within a download, and without a limit otherwise.
pub proof fn law_waits(
    state: FastbootUsbState,
    plan: TransferPlan,
    submitted: bool,
    ready: bool,
    stall: IoError,
)
    requires
        call_ensures(FastbootUsbState::transfer_plan, (&state,), plan),
        call_ensures(FastbootUsbState::ready, (&state, submitted), ready),
        call_ensures(stall_error, (), stall),
    ensures
        state.finish_pending ==> plan is Verdict,
        !state.finish_pending && state.downloaded_size < state.download_size ==> plan == (
        TransferPlan::Receive { limit: Some(seconds(5)) }),
        !state.finish_pending && state.downloaded_size >= state.download_size ==> plan == (
        TransferPlan::Receive { limit: None }),
        ready <==> submitted || state.finish_pending,
        RECV_QUEUE_DEPTH == 1,
        stall.kind == ErrorKind::TimedOut && stall.message@
            == "timed out waiting for fastboot-usb download data"@,
{
}

/// Starting over cancels the endpoint first, then waits for the status task that
/// ran, and replies last. Nothing is under way afterwards, nothing is fed, and a
/// restart that was due stays due.
pub proof fn law_reset(
    state: &mut FastbootUsbState,
    reply: Option<&str>,
    out: &mut Vec<UsbAction>,
)
    requires
        old(state).wf(),
        call_ensures(FastbootUsbState::reset, (state, reply, out), ()),
    ensures
        final(state).download_size == 0 && final(state).downloaded_size == 0,
        !final(state).fastboot_pending_flash && !final(state).finish_pending
            && !final(state).fastboot_usb_session_open,
        final(state).fed().len() == 0,
        final(state).restart_due <==> old(state).restart_due || (old(state).download is Some
            && old(state).download->0.restart_due),
        final(state).gadget_torn_down == old(state).gadget_torn_down,
        final(state).serial == old(state).serial && final(state).recv_size == old(state).recv_size,
        final(state).rx_max_packet_size == old(state).rx_max_packet_size
            && final(state).download_params == old(state).download_params
                && final(state).function == old(state).function,
        final(state).download is Some
            && final(state).download->0.params == old(state).download_params
                && !final(state).download->0.opened(),
        ({
            let n = old(out)@.len() as int;
            let sent = acts(final(out)@);
            let waits = old(state).download is Some && (
            old(state).download->0.status matches Some(StatusTask::Running(_)));
            let at = if waits {
                n + 2
            } else {
                n + 1
            };
            &&& sent[n] == Act::CancelReceive
            &&& waits ==> (sent[n + 1] matches Act::AwaitStopped { task, asked, unread } && asked
                && task == task_id(old(state).download->0.status->0->Running_0))
            &&& reply matches Some(token) ==> final(out)@.len() == at + 1 && sent[at] == Act::Reply(
                token.spec_bytes(),
            )
            &&& reply is None ==> final(out)@.len() == at
            &&& sent.take(n) == acts(old(out)@)
        }),
{
    let more = old(state).reset_acts(
        match reply {
            Some(token) => Some(token.spec_bytes()),
            None => None,
        },
    );
    assert(acts(final(out)@).len() == final(out)@.len());
    assert(acts(final(out)@).take(old(out)@.len() as int) =~= acts(old(out)@));
}

/// A verdict is told as `OKAY` or `FAILclose`, and everything starts over.
pub proof fn law_finish(
    state: &mut FastbootUsbState,
    verdict: Result<(), IoError>,
    out: &mut Vec<UsbAction>,
)
    requires
        old(state).wf(),
        call_ensures(FastbootUsbState::finish, (state, &verdict, out), ()),
    ensures
        verdict is Ok ==> acts(final(out)@) == acts(old(out)@) + seq![
            Act::Reply("OKAY".spec_bytes()),
        ],
        verdict is Err ==> acts(final(out)@) == acts(old(out)@) + seq![
            Act::Reply("FAILclose".spec_bytes()),
        ],
        !final(state).finish_pending && !final(state).fastboot_pending_flash
            && !final(state).fastboot_usb_session_open,
        final(state).download_size == 0 && final(state).downloaded_size == 0,
        final(state).gadget_torn_down == old(state).gadget_torn_down
            && final(state).serial == old(state).serial,
        final(state).fed().len() == 0 && !final(state).download->0.opened(),
        final(state).restart_due <==> old(state).restart_due || (old(state).download is Some
            && old(state).download->0.restart_due),
{
}

/// Only an enabled function keeps being served; any other news starts over without
/// a reply.
pub proof fn law_enabled(
    state: &mut FastbootUsbState,
    enabled: Option<bool>,
    out: &mut Vec<UsbAction>,
    keep: bool,
)
    requires
        old(state).wf(),
        call_ensures(FastbootUsbState::enabled_changed, (state, enabled, out), keep),
    ensures
        keep <==> enabled == Some(true),
        keep ==> *final(state) == *old(state) && acts(final(out)@) == acts(old(out)@),
        !keep ==> final(state).download_size == 0 && !final(state).finish_pending
            && !final(state).fastboot_pending_flash && final(state).fed().len() == 0,
        !keep ==> acts(final(out)@)[old(out)@.len() as int] == Act::CancelReceive,
        !keep ==> forall|i: int|
            old(out)@.len() <= i < final(out)@.len()
                ==> !(#[trigger] acts(final(out)@)[i] is Reply),
        !keep ==> (final(state).restart_due <==> old(state).restart_due || (old(state).download
            is Some && old(state).download->0.restart_due)),
{
    if !keep {
        let more = old(state).reset_acts(None);
        assert forall|i: int| old(out)@.len() <= i < final(out)@.len() implies !(#[trigger] acts(
            final(out)@,
        )[i] is Reply) by {
            assert(acts(final(out)@).len() == final(out)@.len());
            assert(acts(old(out)@).len() == old(out)@.len());
            assert(acts(final(out)@)[i] == more[i - old(out)@.len()]);
        }
    }
}

/// A piece of a download that was dealt with counts in full; the host is told
/// `OKAY` when the last byte of the download is there and nothing before. Without
/// a transfer it is told `FAILnot open`, and where none can be opened `FAILwrite
/// failed`, and everything starts over.
pub proof fn law_piece(
    state: &mut FastbootUsbState,
    chunk: BytesMut,
    host: UpdateHost,
    out: &mut Vec<UsbAction>,
    step: ChunkStep,
)
    requires
        old(state).wf(),
        call_ensures(FastbootUsbState::handle_download_chunk, (state, chunk, &host, out), step),
    ensures
        ({
            let data = contents(chunk);
            let counted = old(state).downloaded_size + data.len();
            let sent = acts(final(out)@).skip(old(out)@.len() as int);
            let refused = host.restart_pending && old(state).download is Some
                && old(state).download->0.tx is None && old(state).download->0.status is None
                    && old(state).download->0.terminal is None;
            &&& data.len() == 0 ==> step == ChunkStep::Done(true) && *final(state) == *old(state)
                && sent.len() == 0
            &&& data.len() > 0 && old(state).download is None ==> step == ChunkStep::Done(false)
                && sent.last() == Act::Reply("FAILnot open".spec_bytes())
                    && final(state).download_size == 0
            &&& data.len() > 0 && refused ==> step == ChunkStep::Done(false) && sent[0]
                == Act::Reply("FAILwrite failed".spec_bytes()) && sent[1] == Act::CancelReceive
                && final(state).download_size == 0
            &&& data.len() > 0 && old(state).download is Some && !refused ==> !(step
                == ChunkStep::Done(false))
            &&& data.len() > 0 && step == ChunkStep::Done(true) && counted <= usize::MAX ==> {
                &&& final(state).downloaded_size == counted
                &&& final(state).download_size == old(state).download_size
                &&& counted >= old(state).download_size ==> sent == seq![
                    Act::Reply("OKAY".spec_bytes()),
                ]
                &&& counted < old(state).download_size ==> sent.len() == 0
                &&& *final(state) == (FastbootUsbState {
                    download: final(state).download,
                    downloaded_size: final(state).downloaded_size,
                    ..*old(state)
                })
            }
            &&& data.len() > 0 && step == ChunkStep::Done(true) && counted > usize::MAX
                ==> final(state).downloaded_size == usize::MAX
            &&& step matches ChunkStep::Blocked(back) ==> contents(back) == data
                && final(state).downloaded_size == old(state).downloaded_size && sent.len() == 0
        }),
{
    let data = contents(chunk);
    let actions = choose|actions: Seq<Act>| #[trigger]
        final(state).chunk_taken(*old(state), host, data, step, actions) && acts(final(out)@)
            == acts(old(out)@) + actions;
    assert(acts(final(out)@).skip(old(out)@.len() as int) =~= actions);
}

/// A look for an early failure only ends a session where SWUpdate has failed in
/// the middle of a download: the host is told `FAILwrite failed`, and everything
/// starts over.
pub proof fn law_fail_fast(state: &mut FastbootUsbState, out: &mut Vec<UsbAction>, stop: bool)
    requires
        old(state).wf(),
        call_ensures(FastbootUsbState::fail_fast, (state, out), stop),
    ensures
        ({
            let sent = acts(final(out)@).skip(old(out)@.len() as int);
            let watched = !old(state).finish_pending
                && old(state).downloaded_size < old(state).download_size
                    && old(state).download is Some && (old(state).download->0.tx is Some
                || old(state).download->0.status is Some);
            &&& stop ==> watched && sent[0] == Act::CancelReceive && sent.last() == Act::Reply(
                "FAILwrite failed".spec_bytes(),
            ) && final(state).download_size == 0 && final(state).fed().len() == 0
            &&& !stop ==> sent.len() == 0
                && final(state).downloaded_size == old(state).downloaded_size
                    && final(state).fed() == old(state).fed() && *final(state) == (
            FastbootUsbState { download: final(state).download, ..*old(state) })
            &&& !watched ==> !stop && *final(state) == *old(state)
            &&& watched && (old(state).download->0.terminal matches Some(Err(_))) ==> stop
            &&& watched && (old(state).download->0.terminal matches Some(Ok(_))) ==> !stop
        }),
{
    let actions = choose|actions: Seq<Act>| #[trigger]
        final(state).looked(*old(state), stop, actions) && acts(final(out)@) == acts(old(out)@)
            + actions;
    assert(acts(final(out)@).skip(old(out)@.len() as int) =~= actions);
}

/// A read that could not be submitted because the endpoint is gone is the last one;
/// nothing else is changed by submitting.
pub proof fn law_submitted(
    state: &mut FastbootUsbState,
    result: Result<(), IoError>,
    host: UpdateHost,
    gone: bool,
)
    requires
        call_ensures(FastbootUsbState::submitted, (state, &result, &host), ()),
        result matches Err(e) ==> call_ensures(
            is_bulk_closed,
            (old(state).function, &e, &host.errnos),
            gone,
        ),
    ensures
        result is Err ==> (final(state).gadget_torn_down <==> old(state).gadget_torn_down || gone),
        result is Ok ==> *final(state) == *old(state),
        old(state).gadget_torn_down ==> final(state).gadget_torn_down,
        result matches Err(e) ==> (e.kind == ErrorKind::NotConnected
            ==> final(state).gadget_torn_down),
        *final(state) == (FastbootUsbState {
            gadget_torn_down: final(state).gadget_torn_down,
            ..*old(state)
        }),
{
}

/// A buffer is lent without changing anything but what comes back for reuse.
pub proof fn law_lent_buffer(state: &mut FastbootUsbState, buf: BytesMut)
    requires
        old(state).wf(),
        call_ensures(FastbootUsbState::recv_buffer, (state,), buf),
    ensures
        contents(buf).len() == 0,
        final(state).fed() == old(state).fed(),
        final(state).download_size == old(state).download_size && final(state).downloaded_size
            == old(state).downloaded_size,
        *final(state) == (FastbootUsbState { download: final(state).download, ..*old(state) }),
{
}

} // verus!
