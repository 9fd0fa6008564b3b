//! The exchanges of the SWUpdate client: which frame opens each one, and what
//! follows from what the daemon answers.

use vstd::prelude::*;
use vstd::string::StringSliceAdditionalSpecFns;

use crate::fault::{ErrorKind, IoError};
use crate::swupdate_ipc::error::Error;
use crate::swupdate_ipc::proto::{
    c_bytes, c_field, nul_position, splice, status_of, version_fits, with_version, zeros,
    IpcMessage, MsgType, ProgressConnectAck, ProgressMsg, RecoveryStatus, RunType, SourceType,
    SwupdateRequest, IPC_MAGIC, MSG_DATA_LEN, SWUPDATE_API_VERSION,
};
use crate::wire::{le32, le32_at};

verus! {

/// Time allowed for the progress acknowledgement, in milliseconds.
pub const PROGRESS_ACK_TIMEOUT_MS: u64 = 5000;

/// Pause between attempts to connect to the progress socket, in milliseconds.
pub const PROGRESS_RECONNECT_DELAY_MS: u64 = 500;

/// Time allowed for connecting to the progress socket, in milliseconds.
pub const PROGRESS_CONNECT_TIMEOUT_MS: u64 = 5000;

/// Pause between status polls, in milliseconds.
pub const STATUS_POLL_INTERVAL_MS: u64 = 250;

/// Time allowed for collecting status frames after an install, in milliseconds.
pub const UNSTACK_TIMEOUT_MS: u64 = 30000;

// ---------------------------------------------------------------------------
// Requests
// ---------------------------------------------------------------------------

/// The frame that starts an install with an explicit request.
pub fn inst_start_ext(request: SwupdateRequest) -> (message: IpcMessage)
    requires
        request.wf(),
    ensures
        message.wf(),
        message.magic == IPC_MAGIC,
        message.type_ == MsgType::REQ_INSTALL.spec_code(),
        message.data@ == splice(zeros(MSG_DATA_LEN as nat), 0, request.layout()),
{
    let mut message = IpcMessage::new(MsgType::REQ_INSTALL);
    message.set_install_request(request);
    message
}

/// The frame that starts an install with default values.
pub fn inst_start() -> (message: IpcMessage)
    ensures
        message.wf(),
        message.magic == IPC_MAGIC,
        message.type_ == MsgType::REQ_INSTALL.spec_code(),
        exists|request: SwupdateRequest|
            {
                &&& request.apiversion == SWUPDATE_API_VERSION
                &&& request.source == SourceType::SOURCE_UNKNOWN
                &&& request.dry_run == RunType::RUN_DEFAULT
                &&& request.len == 0
                &&& request.info@ == zeros(512)
                &&& request.software_set@ == zeros(256)
                &&& request.running_mode@ == zeros(256)
                &&& !request.disable_store_swu
                &&& message.data@ == splice(
                    zeros(MSG_DATA_LEN as nat),
                    0,
                    #[trigger] request.layout(),
                )
            },
{
    let request = SwupdateRequest::prepare();
    let ghost asked = request;
    let message = inst_start_ext(request);
    assert(message.data@ == splice(zeros(MSG_DATA_LEN as nat), 0, asked.layout()));
    message
}

/// The frame that asks for the installer status.
pub fn get_status() -> (message: IpcMessage)
    ensures
        message.wf(),
        message.blank(MsgType::GET_STATUS),
{
    IpcMessage::new(MsgType::GET_STATUS)
}

/// The frame that asks for a system restart.
pub fn sysrestart() -> (message: IpcMessage)
    ensures
        message.wf(),
        message.blank(MsgType::SYSRESTART),
{
    IpcMessage::new(MsgType::SYSRESTART)
}

/// The frame that opens a notification stream.
pub fn notify_connect() -> (message: IpcMessage)
    ensures
        message.wf(),
        message.blank(MsgType::NOTIFY_STREAM),
{
    IpcMessage::new(MsgType::NOTIFY_STREAM)
}

/// The frame that runs a post-update action.
pub fn postupdate(info: &[u8]) -> (message: IpcMessage)
    ensures
        message.wf(),
        message.magic == IPC_MAGIC,
        message.type_ == MsgType::POST_UPDATE.spec_code(),
        ({
            let len = if info@.len() < 2048 {
                info@.len() as u32
            } else {
                2048u32
            };
            message.data@ == splice(
                splice(zeros(MSG_DATA_LEN as nat), 16, info@.take(len as int)),
                12,
                le32(len),
            )
        }),
{
    let mut message = IpcMessage::new(MsgType::POST_UPDATE);
    message.set_postupdate_info(info);
    message
}

/// Stamps a frame that the caller filled in, so that it can be sent.
pub fn send_cmd(message: &mut IpcMessage)
    ensures
        final(message).magic == IPC_MAGIC,
        final(message).type_ == old(message).type_,
        final(message).data == old(message).data,
{
    message.magic = IPC_MAGIC;
}

/// The frame that sets the AES decryption key. The key must be 64 bytes long
/// and the initialisation vector 32.
pub fn set_aes(key: &str, ivt: &str) -> (message: Result<IpcMessage, Error>)
    ensures
        message is Ok <==> key.spec_bytes().len() == 64 && ivt.spec_bytes().len() == 32,
        message matches Ok(m) ==> m.wf() && m.magic == IPC_MAGIC && m.type_
            == MsgType::SET_AES_KEY.spec_code() && m.data@ == splice(
            splice(zeros(MSG_DATA_LEN as nat), 0, c_field(key.spec_bytes(), 65)),
            65,
            c_field(ivt.spec_bytes(), 33),
        ),
        message matches Err(e) ==> e.rejects("AES key must be 64 chars and IV 32 chars"@),
{
    if key.as_bytes().len() != 64 || ivt.as_bytes().len() != 32 {
        return Err(Error::InvalidArgument("AES key must be 64 chars and IV 32 chars"));
    }
    let mut message = IpcMessage::new(MsgType::SET_AES_KEY);
    match message.set_aes_key(key, ivt) {
        Ok(()) => Ok(message),
        Err(err) => Err(err),
    }
}

/// The frame that sets the accepted version range.
pub fn set_version_range(
    min_version: Option<&str>,
    max_version: Option<&str>,
    current_version: Option<&str>,
) -> (message: Result<IpcMessage, Error>)
    ensures
        message is Ok <==> version_fits(min_version) && version_fits(max_version) && version_fits(
            current_version,
        ),
        message matches Ok(m) ==> m.wf() && m.magic == IPC_MAGIC && m.type_
            == MsgType::SET_VERSIONS_RANGE.spec_code() && m.data@ == with_version(
            with_version(with_version(zeros(MSG_DATA_LEN as nat), 0, min_version), 256, max_version),
            512,
            current_version,
        ),
        message matches Err(e) ==> e.rejects("version does not fit its field"@),
{
    let mut message = IpcMessage::new(MsgType::SET_VERSIONS_RANGE);
    match message.set_version_range(min_version, max_version, current_version) {
        Ok(()) => Ok(message),
        Err(err) => Err(err),
    }
}

// ---------------------------------------------------------------------------
// Replies
// ---------------------------------------------------------------------------

/// Whether the reply to an install request lets the image stream begin.
pub fn check_install_reply(reply: &IpcMessage) -> (result: Result<(), Error>)
    ensures
        result is Ok <==> reply.type_ == MsgType::ACK.spec_code(),
        result matches Err(e) ==> e is Nack,
{
    if reply.has_type(MsgType::ACK) {
        Ok(())
    } else {
        Err(Error::Nack)
    }
}

/// Whether the reply to a notification request lets the stream begin.
pub fn check_notify_reply(reply: &IpcMessage) -> (result: Result<(), Error>)
    ensures
        result is Ok <==> reply.type_ == MsgType::ACK.spec_code(),
        result matches Err(e) ==> e == Error::UnexpectedType(reply.type_),
{
    if reply.has_type(MsgType::ACK) {
        Ok(())
    } else {
        Err(Error::UnexpectedType(reply.type_))
    }
}

/// Accepts a notification frame if its magic number is right.
pub fn check_notification(message: IpcMessage) -> (result: Result<IpcMessage, Error>)
    ensures
        result is Ok <==> message.magic == IPC_MAGIC,
        result matches Ok(m) ==> m == message,
        result matches Err(e) ==> e == Error::InvalidMagic(message.magic),
{
    if message.magic != IPC_MAGIC {
        return Err(Error::InvalidMagic(message.magic));
    }
    Ok(message)
}

/// Accepts a progress acknowledgement: the major version is looked at first,
/// then the magic string.
pub fn check_progress_ack(ack: &ProgressConnectAck) -> (result: Result<(), Error>)
    ensures
        result is Ok <==> ack.compatible() && ack.magic_ok(),
        result matches Err(e) ==> e == (if !ack.compatible() {
            Error::IncompatibleProgressVersion(ack.apiversion)
        } else {
            Error::InvalidProgressAck
        }),
{
    if !ack.is_major_compatible() {
        return Err(Error::IncompatibleProgressVersion(ack.apiversion));
    }
    if !ack.has_valid_magic() {
        return Err(Error::InvalidProgressAck);
    }
    Ok(())
}

/// What a failed read of a frame means: the end of the stream inside a frame
/// is a closed connection, anything else stays what it is.
pub fn read_fault(err: IoError) -> (error: Error)
    ensures
        error == (if err.kind == ErrorKind::UnexpectedEof {
            Error::Closed
        } else {
            Error::Io(err)
        }),
{
    if err.kind == ErrorKind::UnexpectedEof {
        Error::Closed
    } else {
        Error::Io(err)
    }
}

/// What a failed read of a frame means where no frame need be there: `Ok` if
/// the read can simply be tried again.
pub fn poll_fault(err: IoError) -> (result: Result<(), Error>)
    ensures
        result is Ok <==> err.kind == ErrorKind::WouldBlock || err.kind == ErrorKind::Interrupted,
        result matches Err(e) ==> e == (if err.kind == ErrorKind::UnexpectedEof {
            Error::Closed
        } else {
            Error::Io(err)
        }),
{
    if err.kind == ErrorKind::WouldBlock || err.kind == ErrorKind::Interrupted {
        return Ok(());
    }
    Err(read_fault(err))
}

/// What a failed read of a status reply means where a deadline was set: `Ok`
/// if the deadline passed.
pub fn status_read_fault(err: IoError) -> (result: Result<(), Error>)
    ensures
        result is Ok <==> err.kind == ErrorKind::WouldBlock || err.kind == ErrorKind::TimedOut,
        result matches Err(e) ==> e == Error::Io(err),
{
    if err.kind == ErrorKind::WouldBlock || err.kind == ErrorKind::TimedOut {
        return Ok(());
    }
    Err(Error::Io(err))
}

// ---------------------------------------------------------------------------
// Waiting for the install result
// ---------------------------------------------------------------------------

/// What a status poll found.
pub enum StatusObservation {
    /// A status reply.
    Reply(IpcMessage),
    /// No reply within the poll interval.
    Nothing,
    /// The poll failed.
    Failed(Error),
}

/// What to do after a status poll.
pub enum WaitStep {
    /// The wait is over.
    Done(Result<(), Error>),
    /// Pause for [`STATUS_POLL_INTERVAL_MS`], then poll again.
    Pause,
    /// Poll again.
    Again,
}

/// An installer that is doing something.
pub open spec fn active(current: Option<RecoveryStatus>) -> bool {
    ||| current == Some(RecoveryStatus::START)
    ||| current == Some(RecoveryStatus::RUN)
    ||| current == Some(RecoveryStatus::DOWNLOAD)
    ||| current == Some(RecoveryStatus::PROGRESS)
    ||| current == Some(RecoveryStatus::SUBPROCESS)
}

/// The verdict of a blocking wait: the last result counts once the installer
/// is no longer active. `None` while it is still open.
pub open spec fn settled_verdict(
    current: Option<RecoveryStatus>,
    last_result: Option<RecoveryStatus>,
) -> Option<bool> {
    if active(current) {
        None
    } else if last_result == Some(RecoveryStatus::SUCCESS) {
        Some(true)
    } else if last_result == Some(RecoveryStatus::FAILURE) {
        Some(false)
    } else {
        None
    }
}

/// The verdict of an asynchronous wait: a failure counts at once, a success
/// only while the installer runs, so that the result of an earlier install is
/// not taken for this one. `None` while it is still open.
pub open spec fn running_verdict(
    current: Option<RecoveryStatus>,
    last_result: Option<RecoveryStatus>,
) -> Option<bool> {
    if last_result == Some(RecoveryStatus::FAILURE) {
        Some(false)
    } else if current == Some(RecoveryStatus::RUN) && last_result == Some(RecoveryStatus::SUCCESS) {
        Some(true)
    } else {
        None
    }
}

/// Whether `step` says what a verdict asks for.
pub open spec fn step_follows(step: WaitStep, verdict: Option<bool>) -> bool {
    match verdict {
        Some(true) => step matches WaitStep::Done(r) && r is Ok,
        Some(false) => step matches WaitStep::Done(r)
            && r == Err::<(), Error>(Error::InstallFailed),
        None => step is Again,
    }
}

/// How long the next status poll of a blocking wait may take, in milliseconds:
/// up to the deadline, and no longer than the poll interval. At the deadline
/// the wait has timed out.
pub fn next_poll(now_ms: u64, deadline_ms: u64) -> (limit: Result<u64, Error>)
    ensures
        limit is Ok <==> now_ms < deadline_ms,
        limit matches Ok(ms) ==> ms == (if deadline_ms - now_ms < STATUS_POLL_INTERVAL_MS {
            deadline_ms - now_ms
        } else {
            STATUS_POLL_INTERVAL_MS as int
        }),
        limit matches Err(e) ==> e is Timeout,
{
    if now_ms >= deadline_ms {
        return Err(Error::Timeout);
    }
    let left: u64 = deadline_ms - now_ms;
    if left < STATUS_POLL_INTERVAL_MS {
        Ok(left)
    } else {
        Ok(STATUS_POLL_INTERVAL_MS)
    }
}

/// How long the next status poll of an asynchronous wait may take, in
/// milliseconds: the poll interval. At the deadline the wait has timed out.
pub fn next_async_poll(now_ms: u64, deadline_ms: u64) -> (limit: Result<u64, Error>)
    ensures
        limit == (if now_ms < deadline_ms {
            Ok(STATUS_POLL_INTERVAL_MS)
        } else {
            Err::<u64, Error>(Error::Timeout)
        }),
{
    if now_ms >= deadline_ms {
        return Err(Error::Timeout);
    }
    Ok(STATUS_POLL_INTERVAL_MS)
}

/// The result that a verdict stands for.
pub open spec fn verdict_result(verdict: Option<bool>) -> Option<Result<(), Error>> {
    match verdict {
        Some(true) => Some(Ok(())),
        Some(false) => Some(Err(Error::InstallFailed)),
        None => None,
    }
}

/// The result that a poll decides a blocking wait with, if it does.
pub open spec fn settled_by(seen: StatusObservation) -> Option<Result<(), Error>> {
    match seen {
        StatusObservation::Reply(m) => verdict_result(
            settled_verdict(status_of(le32_at(m.data@, 0)), status_of(le32_at(m.data@, 4))),
        ),
        StatusObservation::Nothing => None,
        StatusObservation::Failed(e) => Some(Err(e)),
    }
}

/// The result that a poll decides an asynchronous wait with, if it does.
pub open spec fn decided_by(seen: StatusObservation) -> Option<Result<(), Error>> {
    match seen {
        StatusObservation::Reply(m) => verdict_result(
            running_verdict(status_of(le32_at(m.data@, 0)), status_of(le32_at(m.data@, 4))),
        ),
        StatusObservation::Nothing => None,
        StatusObservation::Failed(e) => if e is Closed {
            None
        } else {
            Some(Err(e))
        },
    }
}

/// The result of a wait with this deadline, in milliseconds since its start,
/// that polled at these times and found this: that of the first poll that
/// decides it, unless the deadline comes first.
pub open spec fn wait_result(
    polls: Seq<(u64, StatusObservation)>,
    deadline_ms: u64,
    decides: spec_fn(StatusObservation) -> Option<Result<(), Error>>,
) -> Option<Result<(), Error>>
    decreases polls.len(),
{
    if polls.len() == 0 {
        None
    } else if polls[0].0 >= deadline_ms {
        Some(Err(Error::Timeout))
    } else if decides(polls[0].1) is Some {
        decides(polls[0].1)
    } else {
        wait_result(polls.drop_first(), deadline_ms, decides)
    }
}

fn is_active(current: Option<RecoveryStatus>) -> (r: bool)
    ensures
        r == active(current),
{
    match current {
        Some(status) => matches!(
            status,
            RecoveryStatus::START | RecoveryStatus::RUN | RecoveryStatus::DOWNLOAD
                | RecoveryStatus::PROGRESS | RecoveryStatus::SUBPROCESS
        ),
        None => false,
    }
}

/// One step of a blocking wait for the install result.
pub fn await_install_result(seen: StatusObservation) -> (step: WaitStep)
    requires
        seen matches StatusObservation::Reply(m) ==> m.wf(),
    ensures
        match seen {
            StatusObservation::Reply(m) => step_follows(
                step,
                settled_verdict(status_of(le32_at(m.data@, 0)), status_of(le32_at(m.data@, 4))),
            ),
            StatusObservation::Nothing => step is Pause,
            StatusObservation::Failed(e) => step == WaitStep::Done(Err(e)),
        },
        settled_by(seen) matches Some(r) ==> step == WaitStep::Done(r),
        step is Done <==> settled_by(seen) is Some,
{
    let message = match seen {
        StatusObservation::Reply(message) => message,
        StatusObservation::Nothing => {
            return WaitStep::Pause;
        },
        StatusObservation::Failed(err) => {
            return WaitStep::Done(Err(err));
        },
    };
    let (current, last_result) = message.install_statuses();
    if !is_active(current) {
        match last_result {
            Some(RecoveryStatus::SUCCESS) => {
                return WaitStep::Done(Ok(()));
            },
            Some(RecoveryStatus::FAILURE) => {
                return WaitStep::Done(Err(Error::InstallFailed));
            },
            _ => {},
        }
    }
    WaitStep::Again
}

/// One step of an asynchronous wait for the install result. The daemon closes
/// the socket after each reply, so a closed connection only asks for patience.
pub fn await_install_result_async(seen: StatusObservation) -> (step: WaitStep)
    requires
        seen matches StatusObservation::Reply(m) ==> m.wf(),
    ensures
        match seen {
            StatusObservation::Reply(m) => step_follows(
                step,
                running_verdict(status_of(le32_at(m.data@, 0)), status_of(le32_at(m.data@, 4))),
            ),
            StatusObservation::Nothing => step is Pause,
            StatusObservation::Failed(e) => if e is Closed {
                step is Pause
            } else {
                step == WaitStep::Done(Err(e))
            },
        },
        decided_by(seen) matches Some(r) ==> step == WaitStep::Done(r),
        step is Done <==> decided_by(seen) is Some,
{
    let message = match seen {
        StatusObservation::Reply(message) => message,
        StatusObservation::Nothing => {
            return WaitStep::Pause;
        },
        StatusObservation::Failed(err) => {
            return match err {
                Error::Closed => WaitStep::Pause,
                other => WaitStep::Done(Err(other)),
            };
        },
    };
    let (current, last_result) = message.install_statuses();
    if let Some(RecoveryStatus::FAILURE) = last_result {
        return WaitStep::Done(Err(Error::InstallFailed));
    }
    match (current, last_result) {
        (Some(RecoveryStatus::RUN), Some(RecoveryStatus::SUCCESS)) => WaitStep::Done(Ok(())),
        _ => WaitStep::Again,
    }
}

/// A success is only ever reported on a reply whose last result is a success,
/// and a failure on one whose last result is a failure; and a stale result is
/// never taken while the blocking wait sees the installer active.
pub proof fn law_verdicts(current: Option<RecoveryStatus>, last_result: Option<RecoveryStatus>)
    ensures
        settled_verdict(current, last_result) == Some(true) ==> last_result == Some(
            RecoveryStatus::SUCCESS,
        ),
        settled_verdict(current, last_result) == Some(false) ==> last_result == Some(
            RecoveryStatus::FAILURE,
        ),
        running_verdict(current, last_result) == Some(true) ==> last_result == Some(
            RecoveryStatus::SUCCESS,
        ) && current == Some(RecoveryStatus::RUN),
        running_verdict(current, last_result) == Some(false) <==> last_result == Some(
            RecoveryStatus::FAILURE,
        ),
        active(current) ==> settled_verdict(current, last_result) is None,
{
}

/// A wait, blocking or asynchronous, ends with the result of the first poll
/// that decides it, whatever would come after, and times out if none has by the
/// deadline. As long as neither has happened it goes on.
pub proof fn law_first_decision_ends_a_wait(
    polls: Seq<(u64, StatusObservation)>,
    deadline_ms: u64,
    decides: spec_fn(StatusObservation) -> Option<Result<(), Error>>,
    first: int,
)
    requires
        0 <= first <= polls.len(),
        forall|i: int|
            0 <= i < first ==> (#[trigger] polls[i]).0 < deadline_ms && decides(polls[i].1) is None,
    ensures
        first == polls.len() ==> wait_result(polls, deadline_ms, decides) is None,
        first < polls.len() && polls[first].0 >= deadline_ms ==> wait_result(
            polls,
            deadline_ms,
            decides,
        ) == Some(Err::<(), Error>(Error::Timeout)),
        first < polls.len() && polls[first].0 < deadline_ms && decides(polls[first].1) is Some
            ==> wait_result(polls, deadline_ms, decides) == decides(polls[first].1),
    decreases polls.len(),
{
    if first > 0 {
        let rest = polls.drop_first();
        assert(polls[0].0 < deadline_ms);
        assert forall|i: int| 0 <= i < first - 1 implies (#[trigger] rest[i]).0 < deadline_ms
            && decides(rest[i].1) is None by {
            assert(rest[i] == polls[i + 1]);
        }
        law_first_decision_ends_a_wait(rest, deadline_ms, decides, first - 1);
    }
}

// ---------------------------------------------------------------------------
// Connecting to the progress socket
// ---------------------------------------------------------------------------

/// What to do after a failed attempt to connect to the progress socket.
pub enum ConnectStep {
    /// Pause for [`PROGRESS_RECONNECT_DELAY_MS`], then try again.
    Retry,
    /// Give up.
    GiveUp(Error),
}

/// Decides on a failed attempt to connect to the progress socket.
pub fn progress_connect_failed(
    err: IoError,
    reconnect: bool,
    now_ms: u64,
    deadline_ms: u64,
) -> (step: ConnectStep)
    ensures
        step == (if !reconnect {
            ConnectStep::GiveUp(Error::Io(err))
        } else if now_ms >= deadline_ms {
            ConnectStep::GiveUp(Error::ProgressConnectTimeout)
        } else {
            ConnectStep::Retry
        }),
{
    if !reconnect {
        return ConnectStep::GiveUp(Error::Io(err));
    }
    if now_ms >= deadline_ms {
        return ConnectStep::GiveUp(Error::ProgressConnectTimeout);
    }
    ConnectStep::Retry
}

/// What a failed read of the progress acknowledgement means; `None` if it did
/// not come in time.
pub fn progress_ack_fault(err: Option<IoError>) -> (error: Error)
    ensures
        match err {
            None => error == Error::InvalidProgressAck,
            Some(e) => error == (if e.kind == ErrorKind::UnexpectedEof {
                Error::Closed
            } else {
                Error::Io(e)
            }),
        },
{
    match err {
        None => Error::InvalidProgressAck,
        Some(err) => read_fault(err),
    }
}

/// What happened to a stream of progress frames.
pub enum StreamEvent {
    /// A frame is asked for, and there is a connection or not.
    Asked {
        /// There is a connection.
        connected: bool,
    },
    /// The attempt to connect succeeded or failed.
    Connected(bool),
    /// A frame arrived, or the connection was lost.
    Received(bool),
}

/// What a stream of progress frames does next.
#[derive(Debug, Clone, Copy, PartialEq, Eq, Structural)]
pub enum StreamStep {
    /// Connect to the progress socket.
    Connect,
    /// Read a frame.
    Receive,
    /// Hand the frame out.
    Yield,
    /// End.
    End,
}

/// One step of a stream of progress frames: a lost connection is made anew, and
/// the stream ends once that fails.
pub fn progress_stream(event: StreamEvent) -> (step: StreamStep)
    ensures
        step == (match event {
            StreamEvent::Asked { connected } => if connected {
                StreamStep::Receive
            } else {
                StreamStep::Connect
            },
            StreamEvent::Connected(ok) => if ok {
                StreamStep::Receive
            } else {
                StreamStep::End
            },
            StreamEvent::Received(ok) => if ok {
                StreamStep::Yield
            } else {
                StreamStep::Connect
            },
        }),
{
    match event {
        StreamEvent::Asked { connected } => if connected {
            StreamStep::Receive
        } else {
            StreamStep::Connect
        },
        StreamEvent::Connected(ok) => if ok {
            StreamStep::Receive
        } else {
            StreamStep::End
        },
        StreamEvent::Received(ok) => if ok {
            StreamStep::Yield
        } else {
            StreamStep::Connect
        },
    }
}

/// What happened while progress frames are watched for the result.
pub enum ProgressEvent {
    /// A frame arrived.
    Frame(ProgressMsg),
    /// The stream of frames has ended.
    Ended,
    /// The time allowed for the update has passed.
    Deadline,
}

/// What a watcher of progress frames does next.
pub enum ProgressStep {
    /// Wait for the next frame.
    Next,
    /// The update has its result.
    Done(Result<(), Error>),
}

/// One step of waiting for the result on the progress interface, which alone
/// says how an install ended.
pub fn await_progress_result(event: ProgressEvent) -> (step: ProgressStep)
    ensures
        match event {
            ProgressEvent::Frame(message) => match status_of(message.status) {
                Some(RecoveryStatus::SUCCESS) => step == ProgressStep::Done(Ok(())),
                Some(RecoveryStatus::FAILURE) => step == ProgressStep::Done(
                    Err(Error::InstallFailed),
                ),
                _ => step == ProgressStep::Next,
            },
            ProgressEvent::Ended => step == ProgressStep::Done(Err(Error::Closed)),
            ProgressEvent::Deadline => step == ProgressStep::Done(Err(Error::Timeout)),
        },
{
    match event {
        ProgressEvent::Frame(message) => match frame_outcome(&message) {
            Some(AsyncOutcome::Success) => ProgressStep::Done(Ok(())),
            Some(AsyncOutcome::Failure) => ProgressStep::Done(Err(Error::InstallFailed)),
            None => ProgressStep::Next,
        },
        ProgressEvent::Ended => ProgressStep::Done(Err(Error::Closed)),
        ProgressEvent::Deadline => ProgressStep::Done(Err(Error::Timeout)),
    }
}

// ---------------------------------------------------------------------------
// Installing in the background
// ---------------------------------------------------------------------------

/// Outcome of an install that runs in the background.
#[derive(Debug, Clone, Copy, PartialEq, Eq, Structural)]
pub enum AsyncOutcome {
    /// The installation succeeded.
    Success,
    /// The installation failed.
    Failure,
}

/// Where an install in the background stands.
#[derive(Debug, Clone, Copy, PartialEq, Eq, Structural)]
pub enum InstallStage {
    /// Connecting to the progress socket.
    Connect,
    /// Asking the caller for the next chunk.
    Fetch,
    /// Sending a chunk.
    Send,
    /// Reading the progress frames that are there, without waiting.
    Drain,
    /// Reading progress frames until one is terminal.
    Wait,
    /// Over.
    Done(AsyncOutcome),
}

/// What happened to an install in the background.
pub enum InstallEvent {
    /// The attempt to connect to the progress socket succeeded or failed.
    Connected(bool),
    /// The caller gave a chunk of this length, or none.
    Chunk(Option<usize>),
    /// The chunk was sent, or could not be.
    Sent(bool),
    /// A progress frame arrived.
    Frame(ProgressMsg),
    /// No progress frame is there.
    NoFrame,
    /// Reading a progress frame failed.
    ReadFailed,
}

/// The outcome that a progress frame with this status announces, if any.
pub open spec fn announced(status: u32) -> Option<AsyncOutcome> {
    if status_of(status) == Some(RecoveryStatus::SUCCESS) {
        Some(AsyncOutcome::Success)
    } else if status_of(status) == Some(RecoveryStatus::FAILURE) {
        Some(AsyncOutcome::Failure)
    } else {
        None
    }
}

/// The outcome that a progress frame announces, if any.
pub fn frame_outcome(message: &ProgressMsg) -> (outcome: Option<AsyncOutcome>)
    ensures
        outcome == announced(message.status),
{
    match message.status() {
        Ok(RecoveryStatus::SUCCESS) => Some(AsyncOutcome::Success),
        Ok(RecoveryStatus::FAILURE) => Some(AsyncOutcome::Failure),
        _ => None,
    }
}

/// The stage after an event.
pub open spec fn next_stage(stage: InstallStage, event: InstallEvent) -> InstallStage {
    match (stage, event) {
        (InstallStage::Connect, InstallEvent::Connected(true)) => InstallStage::Fetch,
        (InstallStage::Connect, InstallEvent::Connected(false)) => InstallStage::Done(
            AsyncOutcome::Failure,
        ),
        (InstallStage::Fetch, InstallEvent::Chunk(chunk)) => match chunk {
            Some(len) => if len > 0 {
                InstallStage::Send
            } else {
                InstallStage::Wait
            },
            None => InstallStage::Wait,
        },
        (InstallStage::Send, InstallEvent::Sent(true)) => InstallStage::Drain,
        (InstallStage::Send, InstallEvent::Sent(false)) => InstallStage::Done(
            AsyncOutcome::Failure,
        ),
        (InstallStage::Drain, InstallEvent::Frame(m)) => match announced(m.status) {
            Some(outcome) => InstallStage::Done(outcome),
            None => InstallStage::Drain,
        },
        (InstallStage::Drain, InstallEvent::NoFrame) => InstallStage::Fetch,
        (InstallStage::Drain, InstallEvent::ReadFailed) => InstallStage::Done(
            AsyncOutcome::Failure,
        ),
        (InstallStage::Wait, InstallEvent::Frame(m)) => match announced(m.status) {
            Some(outcome) => InstallStage::Done(outcome),
            None => InstallStage::Wait,
        },
        (InstallStage::Wait, InstallEvent::ReadFailed) => InstallStage::Done(AsyncOutcome::Failure),
        (other, _) => other,
    }
}

/// One step of an install in the background. The progress socket is connected
/// before the first chunk, so that the result is not missed; after each chunk
/// the frames that are there are read; after the last chunk the frames are
/// read until one is terminal. An event that does not belong to the stage
/// changes nothing.
pub fn run_async_install(stage: InstallStage, event: InstallEvent) -> (next: InstallStage)
    ensures
        next == next_stage(stage, event),
{
    match (stage, event) {
        (InstallStage::Connect, InstallEvent::Connected(up)) => if up {
            InstallStage::Fetch
        } else {
            InstallStage::Done(AsyncOutcome::Failure)
        },
        (InstallStage::Fetch, InstallEvent::Chunk(chunk)) => match chunk {
            Some(len) => if len > 0 {
                InstallStage::Send
            } else {
                InstallStage::Wait
            },
            None => InstallStage::Wait,
        },
        (InstallStage::Send, InstallEvent::Sent(sent)) => if sent {
            InstallStage::Drain
        } else {
            InstallStage::Done(AsyncOutcome::Failure)
        },
        (InstallStage::Drain, InstallEvent::Frame(message)) => match frame_outcome(&message) {
            Some(outcome) => InstallStage::Done(outcome),
            None => InstallStage::Drain,
        },
        (InstallStage::Drain, InstallEvent::NoFrame) => InstallStage::Fetch,
        (InstallStage::Drain, InstallEvent::ReadFailed) => InstallStage::Done(
            AsyncOutcome::Failure,
        ),
        (InstallStage::Wait, InstallEvent::Frame(message)) => match frame_outcome(&message) {
            Some(outcome) => InstallStage::Done(outcome),
            None => InstallStage::Wait,
        },
        (InstallStage::Wait, InstallEvent::ReadFailed) => InstallStage::Done(AsyncOutcome::Failure),
        (other, _) => other,
    }
}

/// An install in the background ends in success only on a progress frame that
/// announces success, and once it has ended nothing changes the outcome.
pub proof fn law_install_outcome(stage: InstallStage, event: InstallEvent)
    ensures
        !(stage is Done) && next_stage(stage, event) == InstallStage::Done(AsyncOutcome::Success)
            ==> (event matches InstallEvent::Frame(m) && status_of(m.status) == Some(
            RecoveryStatus::SUCCESS,
        )),
        stage is Done ==> next_stage(stage, event) == stage,
{
}

/// While an install in the background reads progress frames, between chunks or
/// after the last one, a frame with the status 4 ends it in failure and one with
/// the status 3 in success; any other frame is passed over.
pub proof fn law_frames_decide_an_install(
    stage: InstallStage,
    message: ProgressMsg,
    next: InstallStage,
)
    requires
        stage is Drain || stage is Wait,
        call_ensures(run_async_install, (stage, InstallEvent::Frame(message)), next),
    ensures
        message.status == 4 ==> next == InstallStage::Done(AsyncOutcome::Failure),
        message.status == 3 ==> next == InstallStage::Done(AsyncOutcome::Success),
        message.status != 3 && message.status != 4 ==> next == stage,
{
}

/// What to do with a status frame collected after an install.
#[derive(Debug, Clone, Copy)]
pub struct UnstackStep {
    /// Hand the frame to the caller.
    pub report: bool,
    /// Collect no more frames.
    pub stop: bool,
    /// The status to go by when the next frame comes.
    pub previous: Option<u32>,
}

/// Decides on a status frame collected after an install: it is handed to the
/// caller if its status differs from that of the frame before or if it carries
/// a description, and collecting stops once the installer is idle or the
/// deadline has passed.
pub fn unstack_status(
    previous: Option<u32>,
    message: &IpcMessage,
    now_ms: u64,
    deadline_ms: u64,
) -> (step: UnstackStep)
    requires
        message.wf(),
    ensures
        step.report == (previous != Some(le32_at(message.data@, 0)) || c_bytes(
            message.data@.subrange(12, 2060),
        ).len() > 0),
        step.stop == (le32_at(message.data@, 0) == RecoveryStatus::IDLE.spec_code() || now_ms
            >= deadline_ms),
        step.previous == Some(le32_at(message.data@, 0)),
{
    let current: u32 = crate::wire::read_le32(message.data.as_slice(), 0);
    let described: bool = message.data[12] != 0;
    proof {
        let desc = message.data@.subrange(12, 2060);
        assert(desc[0] == message.data@[12]);
        lemma_nul_bound(desc);
    }
    let changed: bool = match previous {
        Some(p) => p != current,
        None => true,
    };
    UnstackStep {
        report: changed || described,
        stop: current == RecoveryStatus::IDLE.code() || now_ms >= deadline_ms,
        previous: Some(current),
    }
}

proof fn lemma_nul_bound(s: Seq<u8>)
    ensures
        0 <= nul_position(s) <= s.len(),
        s.len() > 0 && s[0] != 0 ==> nul_position(s) > 0,
    decreases s.len(),
{
    if s.len() > 0 && s[0] != 0 {
        lemma_nul_bound(s.drop_first());
    }
}

// ---------------------------------------------------------------------------
// Laws
// ---------------------------------------------------------------------------

/// The order of an install in the background: connect, then fetch, send and drain
/// in turn, and wait once there is no more to send. A lost connection, a chunk
/// that cannot be sent and a frame that cannot be read end it in failure.
pub proof fn law_install_order(stage: InstallStage, event: InstallEvent, next: InstallStage)
    requires
        call_ensures(run_async_install, (stage, event), next),
    ensures
        stage is Connect && event == InstallEvent::Connected(true) ==> next is Fetch,
        stage is Connect && event == InstallEvent::Connected(false) ==> next == InstallStage::Done(
            AsyncOutcome::Failure,
        ),
        stage is Connect && !(event is Connected) ==> next is Connect,
        stage is Fetch && (event matches InstallEvent::Chunk(Some(n)) && n > 0) ==> next is Send,
        stage is Fetch && (event == InstallEvent::Chunk(None) || event == InstallEvent::Chunk(
            Some(0),
        )) ==> next is Wait,
        stage is Fetch && !(event is Chunk) ==> next is Fetch,
        stage is Send && event == InstallEvent::Sent(true) ==> next is Drain,
        stage is Send && event == InstallEvent::Sent(false) ==> next == InstallStage::Done(
            AsyncOutcome::Failure,
        ),
        stage is Send && !(event is Sent) ==> next is Send,
        stage is Drain && event is NoFrame ==> next is Fetch,
        stage is Wait && event is NoFrame ==> next is Wait,
        (stage is Drain || stage is Wait) && event is ReadFailed ==> next == InstallStage::Done(
            AsyncOutcome::Failure,
        ),
        (stage is Drain || stage is Wait) && (event is Connected || event is Chunk || event is Sent)
            ==> next == stage,
        stage is Done ==> next == stage,
{
}

/// A progress frame of status 3 announces success, one of status 4 failure, and
/// any other one nothing; a watcher goes by that.
pub proof fn law_frames_decide_a_wait(
    message: ProgressMsg,
    outcome: Option<AsyncOutcome>,
    step: ProgressStep,
    ended: ProgressStep,
    late: ProgressStep,
)
    requires
        call_ensures(frame_outcome, (&message,), outcome),
        call_ensures(await_progress_result, (ProgressEvent::Frame(message),), step),
        call_ensures(await_progress_result, (ProgressEvent::Ended,), ended),
        call_ensures(await_progress_result, (ProgressEvent::Deadline,), late),
    ensures
        message.status == 3 ==> outcome == Some(AsyncOutcome::Success) && step
            == ProgressStep::Done(Ok(())),
        message.status == 4 ==> outcome == Some(AsyncOutcome::Failure) && step
            == ProgressStep::Done(Err(Error::InstallFailed)),
        message.status != 3 && message.status != 4 ==> outcome is None && step is Next,
        ended == ProgressStep::Done(Err(Error::Closed)),
        late == ProgressStep::Done(Err(Error::Timeout)),
{
}

/// A blocking wait goes by the last result, 3 for success and 4 for failure, once
/// the installer does nothing: while its status is 1, 2, 5, 7 or 8 the wait goes
/// on.
pub proof fn law_blocking_wait(message: IpcMessage, step: WaitStep)
    requires
        message.wf(),
        call_ensures(await_install_result, (StatusObservation::Reply(message),), step),
    ensures
        ({
            let current = le32_at(message.data@, 0);
            let last = le32_at(message.data@, 4);
            let busy = current == 1 || current == 2 || current == 5 || current == 7 || current == 8;
            &&& busy ==> step is Again
            &&& !busy && last == 3 ==> step == WaitStep::Done(Ok(()))
            &&& !busy && last == 4 ==> step == WaitStep::Done(Err(Error::InstallFailed))
            &&& last != 3 && last != 4 ==> step is Again
        }),
{
}

/// An asynchronous wait takes the last result 4 for a failure at once, and 3 for a
/// success only while the installer's status is 2.
pub proof fn law_asynchronous_wait(message: IpcMessage, step: WaitStep)
    requires
        message.wf(),
        call_ensures(await_install_result_async, (StatusObservation::Reply(message),), step),
    ensures
        ({
            let current = le32_at(message.data@, 0);
            let last = le32_at(message.data@, 4);
            &&& last == 4 ==> step == WaitStep::Done(Err(Error::InstallFailed))
            &&& last == 3 && current == 2 ==> step == WaitStep::Done(Ok(()))
            &&& last == 3 && current != 2 ==> step is Again
            &&& last != 3 && last != 4 ==> step is Again
        }),
{
}

/// A poll without a reply asks for a pause. A poll that failed ends the wait,
/// except that an asynchronous one pauses where the connection was closed.
pub proof fn law_failed_polls(
    err: Error,
    blocking: WaitStep,
    asynchronous: WaitStep,
    quiet: WaitStep,
    quiet_too: WaitStep,
)
    requires
        call_ensures(await_install_result, (StatusObservation::Failed(err),), blocking),
        call_ensures(await_install_result_async, (StatusObservation::Failed(err),), asynchronous),
        call_ensures(await_install_result, (StatusObservation::Nothing,), quiet),
        call_ensures(await_install_result_async, (StatusObservation::Nothing,), quiet_too),
    ensures
        blocking == WaitStep::Done(Err(err)),
        err is Closed ==> asynchronous is Pause,
        !(err is Closed) ==> asynchronous == WaitStep::Done(Err(err)),
        quiet is Pause,
        quiet_too is Pause,
{
}

/// A poll takes a quarter of a second, or what is left up to the deadline; at the
/// deadline the wait has timed out.
pub proof fn law_poll_times(
    now_ms: u64,
    deadline_ms: u64,
    limit: Result<u64, Error>,
    fixed: Result<u64, Error>,
)
    requires
        call_ensures(next_poll, (now_ms, deadline_ms), limit),
        call_ensures(next_async_poll, (now_ms, deadline_ms), fixed),
    ensures
        now_ms >= deadline_ms ==> limit == Err::<u64, Error>(Error::Timeout) && fixed == Err::<
            u64,
            Error,
        >(Error::Timeout),
        now_ms < deadline_ms ==> fixed == Ok::<u64, Error>(250) && (limit matches Ok(ms) && 0 < ms
            <= 250 && now_ms + ms <= deadline_ms && (ms == 250 || now_ms + ms == deadline_ms)),
{
}

/// The frames that carry nothing but their type: 3 for the status, 15 for a
/// restart and 11 for notifications.
pub proof fn law_plain_frames(status: IpcMessage, restart: IpcMessage, notify: IpcMessage, i: int)
    requires
        call_ensures(get_status, (), status),
        call_ensures(sysrestart, (), restart),
        call_ensures(notify_connect, (), notify),
        0 <= i < status.data@.len(),
    ensures
        status.type_ == 3 && restart.type_ == 15 && notify.type_ == 11,
        status.magic == 0x14052001 && restart.magic == 0x14052001 && notify.magic == 0x14052001,
        status.data@[i] == 0 && restart.data@[i] == 0 && notify.data@[i] == 0,
        restart.data@.len() == status.data@.len() && notify.data@.len() == status.data@.len(),
{
}

/// An install with default values is asked for with version 1 and nothing else.
pub proof fn law_default_install(message: IpcMessage, i: int)
    requires
        call_ensures(inst_start, (), message),
        0 <= i < message.data@.len(),
    ensures
        message.type_ == 0,
        message.magic == 0x14052001,
        message.data@[i] == (if i == 0 {
            1u8
        } else {
            0u8
        }),
{
    let request = choose|request: SwupdateRequest|
        {
            &&& request.apiversion == SWUPDATE_API_VERSION
            &&& request.source == SourceType::SOURCE_UNKNOWN
            &&& request.dry_run == RunType::RUN_DEFAULT
            &&& request.len == 0
            &&& request.info@ == zeros(512)
            &&& request.software_set@ == zeros(256)
            &&& request.running_mode@ == zeros(256)
            &&& !request.disable_store_swu
            &&& message.data@ == splice(
                zeros(MSG_DATA_LEN as nat),
                0,
                #[trigger] request.layout(),
            )
        };
    lemma_default_layout(request, i);
    if i >= request.layout().len() {
        assert(message.data@[i] == 0);
    }
}

proof fn lemma_default_layout(request: SwupdateRequest, i: int)
    requires
        request.apiversion == 1,
        request.source == SourceType::SOURCE_UNKNOWN,
        request.dry_run == RunType::RUN_DEFAULT,
        request.len == 0,
        request.info@ == zeros(512),
        request.software_set@ == zeros(256),
        request.running_mode@ == zeros(256),
        !request.disable_store_swu,
    ensures
        0 <= i < request.layout().len() ==> request.layout()[i] == (if i == 0 {
            1u8
        } else {
            0u8
        }),
        request.layout().len() >= 4,
{
}

/// The frame of a post-update action is of type 4 and holds the information, no
/// more than 2048 bytes of it, from byte 16 on, and its length in front of it.
pub proof fn law_postupdate(info: &[u8], message: IpcMessage, i: int)
    requires
        call_ensures(postupdate, (info,), message),
        0 <= i < 2048,
    ensures
        message.type_ == 4,
        message.magic == 0x14052001,
        ({
            let len = if info@.len() < 2048 {
                info@.len() as int
            } else {
                2048
            };
            &&& le32_at(message.data@, 12) == len
            &&& message.data@[16 + i] == (if i < len {
                info@[i]
            } else {
                0u8
            })
        }),
{
    let len = if info@.len() < 2048 {
        info@.len() as u32
    } else {
        2048u32
    };
    crate::wire::law_le32_round_trip(len, Seq::empty(), Seq::empty());
    assert(Seq::<u8>::empty() + le32(len) + Seq::<u8>::empty() =~= le32(len));
    let data = message.data@;
    assert(data[12] == le32(len)[0] && data[13] == le32(len)[1] && data[14] == le32(len)[2]
        && data[15] == le32(len)[3]);
}

/// A key of 64 bytes and an initialisation vector of 32, and no others, are sent in
/// a frame of type 6: the key at the front, the vector from byte 65 on.
pub proof fn law_set_aes(key: &str, ivt: &str, message: Result<IpcMessage, Error>, i: int)
    requires
        call_ensures(set_aes, (key, ivt), message),
    ensures
        message is Ok <==> key.spec_bytes().len() == 64 && ivt.spec_bytes().len() == 32,
        message matches Ok(m) ==> {
            &&& m.type_ == 6
            &&& m.magic == 0x14052001
            &&& 0 <= i < 64 ==> m.data@[i] == key.spec_bytes()[i]
            &&& m.data@[64] == 0
            &&& 0 <= i < 32 ==> m.data@[65 + i] == ivt.spec_bytes()[i]
            &&& 97 <= i < m.data@.len() ==> m.data@[i] == 0
        },
{
}

/// Version bounds that fit are sent in a frame of type 10.
pub proof fn law_set_version_range(
    least: Option<&str>,
    greatest: Option<&str>,
    current: Option<&str>,
    message: Result<IpcMessage, Error>,
    i: int,
)
    requires
        call_ensures(set_version_range, (least, greatest, current), message),
        0 <= i < 256,
    ensures
        message is Ok <==> (least matches Some(v) ==> v.spec_bytes().len() <= 255) && (
        greatest matches Some(v) ==> v.spec_bytes().len() <= 255) && (current matches Some(v)
            ==> v.spec_bytes().len() <= 255),
        message matches Ok(m) ==> {
            &&& m.type_ == 10
            &&& m.magic == 0x14052001
            &&& m.data@[i] == (if least is Some && i < least->0.spec_bytes().len() {
                least->0.spec_bytes()[i]
            } else {
                0u8
            })
            &&& m.data@[256 + i] == (if greatest is Some && i < greatest->0.spec_bytes().len() {
                greatest->0.spec_bytes()[i]
            } else {
                0u8
            })
            &&& m.data@[512 + i] == (if current is Some && i < current->0.spec_bytes().len() {
                current->0.spec_bytes()[i]
            } else {
                0u8
            })
        },
{
    if message is Ok {
        let d0 = zeros(MSG_DATA_LEN as nat);
        let d1 = with_version(d0, 0, least);
        let d2 = with_version(d1, 256, greatest);
        assert(d1.len() == d0.len() && d2.len() == d0.len());
    }
}

/// A reply of type 1 lets a stream begin and no other one does. A frame is only
/// taken with the daemon's magic number.
pub proof fn law_replies(
    reply: IpcMessage,
    install: Result<(), Error>,
    notify: Result<(), Error>,
    taken: Result<IpcMessage, Error>,
)
    requires
        call_ensures(check_install_reply, (&reply,), install),
        call_ensures(check_notify_reply, (&reply,), notify),
        call_ensures(check_notification, (reply,), taken),
    ensures
        reply.type_ == 1 ==> install is Ok && notify is Ok,
        reply.type_ != 1 ==> install == Err::<(), Error>(Error::Nack) && notify == Err::<
            (),
            Error,
        >(Error::UnexpectedType(reply.type_)),
        reply.magic == 0x14052001 ==> taken == Ok::<IpcMessage, Error>(reply),
        reply.magic != 0x14052001 ==> taken == Err::<IpcMessage, Error>(
            Error::InvalidMagic(reply.magic),
        ),
{
}

/// An acknowledgement of another major version than 2 is refused for that, and one
/// without the magic string for want of it.
pub proof fn law_progress_ack(
    ack: ProgressConnectAck,
    result: Result<(), Error>,
    major: bool,
    magic: bool,
)
    requires
        call_ensures(check_progress_ack, (&ack,), result),
        call_ensures(ProgressConnectAck::is_major_compatible, (&ack,), major),
        call_ensures(ProgressConnectAck::has_valid_magic, (&ack,), magic),
    ensures
        !major ==> result == Err::<(), Error>(Error::IncompatibleProgressVersion(ack.apiversion)),
        major && !magic ==> result == Err::<(), Error>(Error::InvalidProgressAck),
        major && magic ==> result is Ok,
        major <==> 0x20000 <= ack.apiversion <= 0x2ffff,
{
    assert(ack.apiversion / 0x10000 == 2 <==> 0x20000 <= ack.apiversion <= 0x2ffff);
}

/// What a failed read means: the end of the stream is a closed connection. Where
/// no frame need be there, nothing to read and an interrupted wait are no
/// failure; where a deadline was set, nothing to read and the deadline are none.
pub proof fn law_read_faults(
    err: IoError,
    read: Error,
    poll: Result<(), Error>,
    status: Result<(), Error>,
    ack: Error,
    late: Error,
)
    requires
        call_ensures(read_fault, (err,), read),
        call_ensures(poll_fault, (err,), poll),
        call_ensures(status_read_fault, (err,), status),
        call_ensures(progress_ack_fault, (Some(err),), ack),
        call_ensures(progress_ack_fault, (None,), late),
    ensures
        err.kind == ErrorKind::UnexpectedEof ==> read is Closed && ack is Closed && poll == Err::<
            (),
            Error,
        >(Error::Closed),
        err.kind != ErrorKind::UnexpectedEof ==> read == Error::Io(err) && ack == Error::Io(err),
        err.kind == ErrorKind::WouldBlock ==> poll is Ok && status is Ok,
        err.kind == ErrorKind::Interrupted ==> poll is Ok && status == Err::<(), Error>(
            Error::Io(err),
        ),
        err.kind == ErrorKind::TimedOut ==> status is Ok && poll == Err::<(), Error>(
            Error::Io(err),
        ),
        err.kind != ErrorKind::UnexpectedEof && err.kind != ErrorKind::WouldBlock && err.kind
            != ErrorKind::Interrupted && err.kind != ErrorKind::TimedOut ==> poll == Err::<
            (),
            Error,
        >(Error::Io(err)),
        err.kind != ErrorKind::WouldBlock && err.kind != ErrorKind::TimedOut ==> status == Err::<
            (),
            Error,
        >(Error::Io(err)),
        late is InvalidProgressAck,
{
}

/// A progress socket that cannot be connected to is tried again only where that is
/// asked for, and only up to the deadline.
pub proof fn law_reconnecting(
    err: IoError,
    reconnect: bool,
    now_ms: u64,
    deadline_ms: u64,
    step: ConnectStep,
)
    requires
        call_ensures(progress_connect_failed, (err, reconnect, now_ms, deadline_ms), step),
    ensures
        reconnect && now_ms < deadline_ms ==> step is Retry,
        reconnect && now_ms >= deadline_ms ==> step == ConnectStep::GiveUp(
            Error::ProgressConnectTimeout,
        ),
        !reconnect ==> step == ConnectStep::GiveUp(Error::Io(err)),
{
}

/// A stream of frames connects where there is no connection and where one was
/// lost, ends where that fails, and hands out what it receives.
pub proof fn law_stream_of_frames(yes: bool, asked: StreamStep, tried: StreamStep, read: StreamStep)
    requires
        call_ensures(progress_stream, (StreamEvent::Asked { connected: yes },), asked),
        call_ensures(progress_stream, (StreamEvent::Connected(yes),), tried),
        call_ensures(progress_stream, (StreamEvent::Received(yes),), read),
    ensures
        yes ==> asked is Receive && tried is Receive && read is Yield,
        !yes ==> asked is Connect && tried is End && read is Connect,
{
}

/// A status frame is handed on where its status is another one than before or it
/// has a description, and frames are collected until the status is 0 or the
/// deadline has passed.
pub proof fn law_collecting_status(
    previous: Option<u32>,
    message: IpcMessage,
    now_ms: u64,
    deadline_ms: u64,
    step: UnstackStep,
)
    requires
        message.wf(),
        call_ensures(unstack_status, (previous, &message, now_ms, deadline_ms), step),
    ensures
        step.report <==> previous != Some(le32_at(message.data@, 0)) || message.data@[12] != 0,
        step.stop <==> le32_at(message.data@, 0) == 0 || now_ms >= deadline_ms,
        step.previous == Some(le32_at(message.data@, 0)),
{
    let desc = message.data@.subrange(12, 2060);
    assert(desc[0] == message.data@[12]);
    lemma_nul_bound(desc);
}

/// A frame with an explicit request is of type 0 and holds the request; a frame that
/// the caller filled in is stamped and otherwise left.
pub proof fn law_explicit_frames(
    request: SwupdateRequest,
    bytes: Vec<u8>,
    message: IpcMessage,
    own: &mut IpcMessage,
    i: int,
)
    requires
        request.wf(),
        call_ensures(SwupdateRequest::to_bytes, (&request,), bytes),
        call_ensures(inst_start_ext, (request,), message),
        call_ensures(send_cmd, (own,), ()),
        0 <= i < message.data@.len(),
    ensures
        message.type_ == 0 && message.magic == 0x14052001,
        message.data@[i] == (if i < bytes@.len() {
            bytes@[i]
        } else {
            0u8
        }),
        final(own).magic == 0x14052001 && final(own).type_ == old(own).type_ && final(own).data
            == old(own).data,
{
}

/// The times that the exchanges go by, in milliseconds.
pub proof fn law_times()
    ensures
        PROGRESS_ACK_TIMEOUT_MS == 5000,
        PROGRESS_RECONNECT_DELAY_MS == 500,
        PROGRESS_CONNECT_TIMEOUT_MS == 5000,
        STATUS_POLL_INTERVAL_MS == 250,
        UNSTACK_TIMEOUT_MS == 30000,
{
}

} // verus!
