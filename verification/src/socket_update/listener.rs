//! One update over a socket: what to do with what was read, and how it ends.

use bytes::BytesMut;
use core::time::Duration;
use tokio::task::JoinHandle;
use vstd::prelude::*;

use crate::buffer::contents;
use crate::fault::{ErrorKind, IoError};
use crate::socket_update::tls::SocketTlsConfig;
use crate::swupdate::config::{SwupdateConfig, SwupdateConfigError, SwupdateParams, UpdateHost};
use crate::swupdate::pump::{
    offer_block, offered, pump_block, pumped, PumpStep, PumpToSwupdateEnd,
};
use crate::swupdate::session::SwupdateSession;
use crate::text::opt_text;
use crate::time::seconds;

verus! {

/// Name of the section of the configuration file.
pub const SOCKET_SOURCE_SECTION: &'static str = "socket_source";

/// Capacity of every read buffer.
pub const SOCKET_READ_BUFFER_SIZE: usize = 131072;

/// The `[socket_source]` section of the configuration file.
#[derive(Debug, Clone, PartialEq, Eq)]
pub struct SocketSourceConfig {
    /// Listen address.
    pub address: String,
    /// Grace period for the connection shutdown handshake, in seconds.
    pub shutdown_timeout_secs: u64,
    /// Idle timeout of an established connection, in seconds, so that a stalled
    /// upload cannot hold the listener.
    pub inactivity_timeout_secs: u64,
    /// TLS settings; without them the stream is plain TCP.
    pub tls: Option<SocketTlsConfig>,
    /// Update settings.
    pub swupdate: SwupdateConfig,
}

impl Default for SocketSourceConfig {
    fn default() -> (config: Self)
        ensures
            config.address@ == "0.0.0.0:9000"@,
            config.shutdown_timeout_secs == 15,
            config.inactivity_timeout_secs == 30,
            config.tls is None,
            config.swupdate.download is None,
            config.swupdate.software_set is None,
            config.swupdate.image_mode is None,
            config.swupdate.dry_run is None,
            config.swupdate.disable_store_swu is None,
            config.swupdate.timeout_secs is None,
    {
        SocketSourceConfig {
            address: "0.0.0.0:9000".to_owned(),
            shutdown_timeout_secs: 15,
            inactivity_timeout_secs: 30,
            tls: None,
            swupdate: SwupdateConfig::default(),
        }
    }
}

impl SocketSourceConfig {
    /// Resolves the update settings; see [`SwupdateConfig::to_params`].
    pub fn to_swupdate_params(&self) -> (params: Result<SwupdateParams, SwupdateConfigError>)
        ensures
            params is Ok <==> self.swupdate.target_supported(),
            params matches Ok(p) ==> self.swupdate.gives(p),
            params matches Err(SwupdateConfigError::UnsupportedDownloadTarget(t)) ==> Some(t@)
                == opt_text(self.swupdate.download),
    {
        self.swupdate.to_params()
    }

    /// How long to wait for data.
    pub fn inactivity_timeout(&self) -> (timeout: Duration)
        ensures
            timeout == seconds(self.inactivity_timeout_secs),
    {
        Duration::from_secs(self.inactivity_timeout_secs)
    }

    /// How long to wait for the connection to close.
    pub fn shutdown_timeout(&self) -> (timeout: Duration)
        ensures
            timeout == seconds(self.shutdown_timeout_secs),
    {
        Duration::from_secs(self.shutdown_timeout_secs)
    }
}

/// How the pump loop ended.
#[derive(Debug, Clone, Copy, PartialEq, Eq, Structural)]
pub enum PumpEnd {
    /// The source stopped sending: the connection was closed, a read failed, or
    /// no data came in time. SWUpdate judges what arrived.
    SourceClosed,
    /// SWUpdate has come to its verdict while the source was still connected.
    SwupdateDone,
}

/// What became of a read.
pub enum SocketStep {
    /// Read the next block.
    Next,
    /// There is no room for the block; go on with [`resume`] once there is.
    Blocked(BytesMut),
    /// The loop has ended.
    End(Result<PumpEnd, IoError>),
}

/// What a step of the pump means for the loop.
pub open spec fn loop_step(step: PumpStep) -> SocketStep {
    match step {
        PumpStep::Next => SocketStep::Next,
        PumpStep::Blocked(block) => SocketStep::Blocked(block),
        PumpStep::End(PumpToSwupdateEnd::InputClosed) => SocketStep::End(Ok(PumpEnd::SourceClosed)),
        PumpStep::End(PumpToSwupdateEnd::SwupdateFinished(Ok(_))) => SocketStep::End(
            Ok(PumpEnd::SwupdateDone),
        ),
        PumpStep::End(PumpToSwupdateEnd::SwupdateFinished(Err(e))) => SocketStep::End(Err(e)),
        PumpStep::Failed(e) => SocketStep::End(Err(e)),
    }
}

fn to_loop_step(step: PumpStep) -> (next: SocketStep)
    ensures
        next == loop_step(step),
{
    match step {
        PumpStep::Next => SocketStep::Next,
        PumpStep::Blocked(block) => SocketStep::Blocked(block),
        PumpStep::End(end) => match end {
            PumpToSwupdateEnd::InputClosed => SocketStep::End(Ok(PumpEnd::SourceClosed)),
            PumpToSwupdateEnd::SwupdateFinished(verdict) => match verdict {
                Ok(()) => SocketStep::End(Ok(PumpEnd::SwupdateDone)),
                Err(err) => SocketStep::End(Err(err)),
            },
        },
        PumpStep::Failed(err) => SocketStep::End(Err(err)),
    }
}

/// The fault of a connection over which no data came in time.
pub fn inactive_error() -> (err: IoError)
    ensures
        err.says(ErrorKind::TimedOut, "socket update connection inactive"@),
{
    IoError::new(ErrorKind::TimedOut, "socket update connection inactive")
}

/// Takes in one read: how many bytes it gave, and the block with them. The end
/// of the stream and a failed read both end the source.
pub fn pump(
    sink: &mut SwupdateSession,
    read: &Result<usize, IoError>,
    block: BytesMut,
    host: &UpdateHost,
) -> (step: SocketStep)
    requires
        old(sink).wf(),
    ensures
        final(sink).wf(),
        match read {
            Ok(n) => if *n == 0 {
                step == SocketStep::End(Ok(PumpEnd::SourceClosed)) && *final(sink) == *old(sink)
            } else {
                exists|inner: PumpStep| #[trigger]
                    pumped(*final(sink), *old(sink), *host, contents(block), inner) && step
                        == loop_step(inner)
            },
            Err(_) => step == SocketStep::End(Ok(PumpEnd::SourceClosed)) && *final(sink) == *old(
                sink,
            ),
        },
{
    match read {
        Ok(n) => {
            if *n == 0 {
                return SocketStep::End(Ok(PumpEnd::SourceClosed));
            }
        },
        Err(_err) => {
            return SocketStep::End(Ok(PumpEnd::SourceClosed));
        },
    }
    let step = pump_block(sink, block, host);
    to_loop_step(step)
}

/// Offers a block again for which there was no room.
pub fn resume(sink: &mut SwupdateSession, block: BytesMut, host: &UpdateHost) -> (step: SocketStep)
    requires
        old(sink).wf(),
    ensures
        final(sink).wf(),
        exists|inner: PumpStep| #[trigger]
            offered(*final(sink), *old(sink), *host, contents(block), inner) && step == loop_step(
                inner,
            ),
{
    let step = offer_block(sink, block, host);
    to_loop_step(step)
}

/// What is left to do after the loop.
#[derive(Debug)]
pub enum Ending {
    /// Wait for SWUpdate's verdict, which is the result.
    AwaitVerdict,
    /// This is the result.
    Finished(Result<(), IoError>),
}

/// The loop has ended: where the source closed after sending data, its end is
/// signalled and SWUpdate judges what arrived; a source that sent nothing asks
/// for nothing.
pub fn loop_ended(sink: &mut SwupdateSession, end: Result<PumpEnd, IoError>) -> (ending: Ending)
    requires
        old(sink).wf(),
    ensures
        final(sink).wf(),
        match end {
            Ok(PumpEnd::SourceClosed) => if old(sink).opened() {
                ending == Ending::AwaitVerdict && *final(sink) == (SwupdateSession {
                    tx: None,
                    ..*old(sink)
                })
            } else {
                ending == Ending::Finished(Ok(())) && *final(sink) == *old(sink)
            },
            Ok(PumpEnd::SwupdateDone) => ending == Ending::Finished(Ok(())) && *final(sink)
                == *old(sink),
            Err(e) => ending == Ending::Finished(Err(e)) && *final(sink) == *old(sink),
        },
{
    match end {
        Ok(PumpEnd::SourceClosed) => {
            if sink.is_open() {
                sink.eof();
                Ending::AwaitVerdict
            } else {
                Ending::Finished(Ok(()))
            }
        },
        Ok(PumpEnd::SwupdateDone) => Ending::Finished(Ok(())),
        Err(err) => Ending::Finished(Err(err)),
    }
}

/// The update has its result; a failed one is torn down. The status task, if
/// one runs, is asked to stop and handed to the caller, who waits for it.
pub fn tear_down(sink: &mut SwupdateSession, result: &Result<(), IoError>) -> (task: Option<
    JoinHandle<Result<(), IoError>>,
>)
    requires
        old(sink).wf(),
    ensures
        final(sink).wf(),
        result is Ok ==> task is None && *final(sink) == *old(sink),
        result is Err ==> final(sink).torn_down(*old(sink), task),
{
    if result.is_err() {
        sink.abort()
    } else {
        None
    }
}

/// How closing the connection went.
pub enum Closing {
    /// It was closed.
    Closed,
    /// Closing it failed.
    Failed(IoError),
    /// It was not closed in time.
    TimedOut,
}

/// The result of a session, once the connection has been closed: a connection
/// that could not be closed is the first thing to report.
pub fn session_result(result: Result<(), IoError>, closing: Closing) -> (outcome: Result<
    (),
    IoError,
>)
    ensures
        match closing {
            Closing::Closed => outcome == result,
            Closing::Failed(e) => outcome == Err::<(), IoError>(e),
            Closing::TimedOut => outcome matches Err(e) && e.says(
                ErrorKind::TimedOut,
                "socket shutdown timed out"@,
            ),
        },
{
    match closing {
        Closing::Closed => result,
        Closing::Failed(err) => Err(err),
        Closing::TimedOut => Err(IoError::new(ErrorKind::TimedOut, "socket shutdown timed out")),
    }
}

// ---------------------------------------------------------------------------
// Laws
// ---------------------------------------------------------------------------

/// The settings that count where the section does not give them.
pub proof fn law_default_settings(config: SocketSourceConfig)
    requires
        call_ensures(SocketSourceConfig::default, (), config),
    ensures
        config.address@ == "0.0.0.0:9000"@,
        config.shutdown_timeout_secs == 15,
        config.inactivity_timeout_secs == 30,
        config.tls is None,
        SOCKET_SOURCE_SECTION@ == "socket_source"@,
        SOCKET_READ_BUFFER_SIZE == 131072,
{
}

/// The timeouts are in seconds, and the update settings are taken over like any
/// others.
pub proof fn law_timeouts(
    config: SocketSourceConfig,
    idle: Duration,
    shutdown: Duration,
    params: Result<SwupdateParams, SwupdateConfigError>,
    same: Result<SwupdateParams, SwupdateConfigError>,
)
    requires
        call_ensures(SocketSourceConfig::inactivity_timeout, (&config,), idle),
        call_ensures(SocketSourceConfig::shutdown_timeout, (&config,), shutdown),
        call_ensures(SocketSourceConfig::to_swupdate_params, (&config,), params),
        call_ensures(SwupdateConfig::to_params, (&config.swupdate,), same),
    ensures
        idle == seconds(config.inactivity_timeout_secs),
        shutdown == seconds(config.shutdown_timeout_secs),
        params is Ok <==> same is Ok,
        params matches Ok(p) ==> p == same->Ok_0,
{
}

/// A read of nothing and a read that failed both end the source; what was read is
/// fed, or comes back where there is no room for it. A bad verdict ends the loop
/// with its fault, a good one without.
pub proof fn law_reads(
    sink: &mut SwupdateSession,
    read: Result<usize, IoError>,
    block: BytesMut,
    host: UpdateHost,
    step: SocketStep,
)
    requires
        old(sink).wf(),
        call_ensures(pump, (sink, &read, block, &host), step),
    ensures
        ({
            let ended = !(read matches Ok(n) && n > 0);
            &&& ended ==> step == SocketStep::End(Ok(PumpEnd::SourceClosed)) && *final(sink)
                == *old(sink)
            &&& !ended ==> step != SocketStep::End(Ok(PumpEnd::SourceClosed))
            &&& !ended && step is Next ==> final(sink).fed() == old(sink).fed() + contents(block)
            &&& !ended ==> (step matches SocketStep::Blocked(back) ==> contents(back) == contents(
                block,
            ) && final(sink).fed() == old(sink).fed())
            &&& !ended && old(sink).opened() ==> (old(sink).terminal matches Some(Ok(_)) ==> step
                == SocketStep::End(Ok(PumpEnd::SwupdateDone)))
            &&& !ended && old(sink).opened() ==> (old(sink).terminal matches Some(Err(text)) ==> (
            step matches SocketStep::End(Err(e)) && e.message@ == text@))
            &&& !ended && host.restart_pending && old(sink).idle() ==> (
            step matches SocketStep::End(Err(e)) && e.message@
                == "restart pending after successful SWUpdate; rejecting new update"@)
        }),
{
    if read matches Ok(n) && n > 0 {
        let inner = choose|inner: PumpStep| #[trigger]
            pumped(*final(sink), *old(sink), host, contents(block), inner) && step == loop_step(
                inner,
            );
        crate::swupdate::pump::law_pumped_in_order(
            *final(sink),
            *old(sink),
            host,
            contents(block),
            inner,
        );
    }
}

/// A block that is offered again is fed, comes back whole, or ends the loop.
pub proof fn law_resumed(
    sink: &mut SwupdateSession,
    block: BytesMut,
    host: UpdateHost,
    step: SocketStep,
)
    requires
        old(sink).wf(),
        call_ensures(resume, (sink, block, &host), step),
    ensures
        step is Next ==> final(sink).fed() == old(sink).fed() + contents(block),
        step matches SocketStep::Blocked(back) ==> contents(back) == contents(block)
            && final(sink).fed() == old(sink).fed(),
        step matches SocketStep::End(Ok(end)) ==> end is SwupdateDone && final(sink).tx is None,
{
    let inner = choose|inner: PumpStep| #[trigger]
        offered(*final(sink), *old(sink), host, contents(block), inner) && step == loop_step(inner);
    crate::swupdate::pump::law_offered_in_order(
        *final(sink),
        *old(sink),
        host,
        contents(block),
        inner,
    );
}

/// A source that closed after sending data ends the data, and the verdict is waited
/// for; one that sent nothing has asked for nothing. Any other end is the result.
pub proof fn law_loop_end(
    sink: &mut SwupdateSession,
    end: Result<PumpEnd, IoError>,
    ending: Ending,
)
    requires
        old(sink).wf(),
        call_ensures(loop_ended, (sink, end), ending),
    ensures
        ({
            let open = old(sink).tx is Some || old(sink).status is Some;
            &&& end == Ok::<PumpEnd, IoError>(PumpEnd::SourceClosed) && open ==> ending
                is AwaitVerdict && *final(sink) == (SwupdateSession { tx: None, ..*old(sink) })
            &&& end == Ok::<PumpEnd, IoError>(PumpEnd::SourceClosed) && !open ==> ending
                == Ending::Finished(Ok(())) && *final(sink) == *old(sink)
            &&& end == Ok::<PumpEnd, IoError>(PumpEnd::SwupdateDone) ==> ending
                == Ending::Finished(Ok(())) && *final(sink) == *old(sink)
            &&& end matches Err(e) ==> ending == Ending::Finished(Err(e))
                && *final(sink) == *old(sink)
        }),
{
}

/// A failed update is torn down and a successful one is left alone. A connection
/// that could not be closed is reported before the result of the update.
pub proof fn law_session_end(
    sink: &mut SwupdateSession,
    result: Result<(), IoError>,
    task: Option<JoinHandle<Result<(), IoError>>>,
    err: IoError,
    closed: Result<(), IoError>,
    failed: Result<(), IoError>,
    late: Result<(), IoError>,
    quiet: IoError,
)
    requires
        old(sink).wf(),
        call_ensures(tear_down, (sink, &result), task),
        call_ensures(session_result, (result, Closing::Closed), closed),
        call_ensures(session_result, (result, Closing::Failed(err)), failed),
        call_ensures(session_result, (result, Closing::TimedOut), late),
        call_ensures(inactive_error, (), quiet),
    ensures
        result is Ok ==> *final(sink) == *old(sink) && task is None,
        result is Err ==> final(sink).tx is None && final(sink).status is None
            && final(sink).launch is None && final(sink).fed().len() == 0,
        result is Err ==> (old(sink).status matches Some(
            crate::swupdate::session::StatusTask::Running(running),
        ) ==> (task matches Some(t) && crate::queue::asked_to_stop(t) && crate::queue::task_id(t)
            == crate::queue::task_id(running))),
        closed == result,
        failed == Err::<(), IoError>(err),
        late matches Err(e) && e.kind == ErrorKind::TimedOut && e.message@
            == "socket shutdown timed out"@,
        quiet.kind == ErrorKind::TimedOut && quiet.message@ == "socket update connection inactive"@,
{
}

} // verus!
