//! The endpoint-zero loop shared by the custom functions: what to do with
//! events and faults.

use vstd::prelude::*;

use crate::fault::{ErrorKind, IoError, TransportErrnos};

verus! {

/// The transport was permanently torn down (endpoint disabled, gadget unbound).
pub open spec fn torn_down(err: IoError, errnos: TransportErrnos) -> bool {
    ||| err.kind == ErrorKind::NotConnected
    ||| err.kind == ErrorKind::BrokenPipe
    ||| err.raw_os_error == Some(errnos.shutdown)
}

/// The host superseded the control request with a newer one.
pub open spec fn superseded(err: IoError, errnos: TransportErrnos) -> bool {
    err.raw_os_error == Some(errnos.idrm)
}

/// The current request was cancelled or the transport was torn down.
pub open spec fn closed_transport(err: IoError, errnos: TransportErrnos) -> bool {
    torn_down(err, errnos) || superseded(err, errnos)
}

fn has_errno(err: &IoError, number: i32) -> (r: bool)
    ensures
        r == (err.raw_os_error == Some(number)),
{
    match err.raw_os_error {
        Some(n) => n == number,
        None => false,
    }
}

/// Returns `true` when a fault means the FunctionFS transport was permanently
/// torn down, so the caller should stop rather than retry.
pub fn is_torn_down_transport_error(err: &IoError, errnos: &TransportErrnos) -> (r: bool)
    ensures
        r == torn_down(*err, *errnos),
{
    err.kind == ErrorKind::NotConnected || err.kind == ErrorKind::BrokenPipe || has_errno(
        err,
        errnos.shutdown,
    )
}

/// Returns `true` when a fault means the host superseded the control request
/// being serviced with a newer one before it was answered. That is a normal,
/// recoverable occurrence, not a sign that the transport is gone.
pub fn is_setup_superseded_error(err: &IoError, errnos: &TransportErrnos) -> (r: bool)
    ensures
        r == superseded(*err, *errnos),
{
    has_errno(err, errnos.idrm)
}

/// Returns `true` when a fault means the current control request was cancelled
/// or the FunctionFS transport was torn down, so the caller should give up on
/// this request without treating it as a hard failure.
pub fn is_closed_transport_error(err: &IoError, errnos: &TransportErrnos) -> (r: bool)
    ensures
        r == closed_transport(*err, *errnos),
{
    is_torn_down_transport_error(err, errnos) || is_setup_superseded_error(err, errnos)
}

/// A function with bulk endpoints. The functions differ in the faults by which
/// they tell that an endpoint is gone.
#[derive(Debug, Clone, Copy, PartialEq, Eq, Structural)]
pub enum BulkFunction {
    /// fastboot-usb.
    FastbootUsb,
    /// FBK.
    Fbk,
}

/// A bulk endpoint is gone for good. Some controllers end its requests with an
/// interruption when the gadget is unbound, which fastboot-usb takes for the
/// same; FBK only goes by the transport being disconnected, shut down or
/// cancelled.
pub open spec fn bulk_closed(function: BulkFunction, err: IoError, errnos: TransportErrnos) -> bool {
    match function {
        BulkFunction::FastbootUsb => {
            ||| closed_transport(err, errnos)
            ||| err.kind == ErrorKind::Interrupted
        },
        BulkFunction::Fbk => {
            ||| err.kind == ErrorKind::NotConnected
            ||| err.raw_os_error == Some(errnos.idrm)
            ||| err.raw_os_error == Some(errnos.shutdown)
        },
    }
}

/// Returns `true` when a fault means that a bulk endpoint is gone for good, so
/// that no read may be submitted to it any more.
pub fn is_bulk_closed(function: BulkFunction, err: &IoError, errnos: &TransportErrnos) -> (r: bool)
    ensures
        r == bulk_closed(function, *err, *errnos),
{
    match function {
        BulkFunction::FastbootUsb => is_closed_transport_error(err, errnos) || err.kind
            == ErrorKind::Interrupted,
        BulkFunction::Fbk => err.kind == ErrorKind::NotConnected || has_errno(err, errnos.idrm)
            || has_errno(err, errnos.shutdown),
    }
}

/// How waiting for the next endpoint-zero event ended.
pub enum Ep0Wait {
    /// An event came and was handled, or failed to be.
    Handled(Result<(), IoError>),
    /// Waiting failed.
    Failed(IoError),
}

/// What the endpoint-zero loop does next.
#[derive(Debug, Clone, Copy, PartialEq, Eq, Structural)]
pub enum ServeStep {
    /// Wait for the next event.
    Continue,
    /// Report the failed event, then wait for the next one.
    ReportFailure,
    /// Tell the handler that the host has gone quiet, then wait for the next
    /// event.
    HandlerIdle,
    /// End the loop: endpoint zero is gone.
    Stop,
}

/// One step of the endpoint-zero loop. Only a torn-down endpoint ends it; an
/// event whose handling failed for another reason than a closed transport is
/// reported; and a wait that timed out is passed on to the handler.
pub fn serve(wait: &Ep0Wait, errnos: &TransportErrnos) -> (step: ServeStep)
    ensures
        step == (match wait {
            Ep0Wait::Handled(Ok(_)) => ServeStep::Continue,
            Ep0Wait::Handled(Err(e)) => if closed_transport(*e, *errnos) {
                ServeStep::Continue
            } else {
                ServeStep::ReportFailure
            },
            Ep0Wait::Failed(e) => if torn_down(*e, *errnos) {
                ServeStep::Stop
            } else if superseded(*e, *errnos) {
                ServeStep::Continue
            } else if e.kind == ErrorKind::TimedOut {
                ServeStep::HandlerIdle
            } else {
                ServeStep::Continue
            },
        }),
{
    match wait {
        Ep0Wait::Handled(result) => match result {
            Ok(()) => ServeStep::Continue,
            Err(err) => if is_closed_transport_error(err, errnos) {
                ServeStep::Continue
            } else {
                ServeStep::ReportFailure
            },
        },
        Ep0Wait::Failed(err) => if is_torn_down_transport_error(err, errnos) {
            ServeStep::Stop
        } else if is_setup_superseded_error(err, errnos) {
            ServeStep::Continue
        } else if err.kind == ErrorKind::TimedOut {
            ServeStep::HandlerIdle
        } else {
            ServeStep::Continue
        },
    }
}

// ---------------------------------------------------------------------------
// Laws
// ---------------------------------------------------------------------------

/// Which faults mean what. A transport is gone where it is not connected, its pipe
/// is broken or it was shut down; a request is superseded where it was removed;
/// either closes the transport for the request.
pub proof fn law_transport_faults(
    err: IoError,
    errnos: TransportErrnos,
    gone: bool,
    over: bool,
    closed: bool,
)
    requires
        call_ensures(is_torn_down_transport_error, (&err, &errnos), gone),
        call_ensures(is_setup_superseded_error, (&err, &errnos), over),
        call_ensures(is_closed_transport_error, (&err, &errnos), closed),
    ensures
        gone <==> err.kind is NotConnected || err.kind is BrokenPipe || err.raw_os_error == Some(
            errnos.shutdown,
        ),
        over <==> err.raw_os_error == Some(errnos.idrm),
        closed <==> gone || over,
{
}

/// A bulk endpoint of fastboot-usb is gone after a closed transport and after an
/// interruption; one of FBK only where it is not connected, was removed or was shut
/// down.
pub proof fn law_bulk_faults(err: IoError, errnos: TransportErrnos, fastboot: bool, fbk: bool)
    requires
        call_ensures(is_bulk_closed, (BulkFunction::FastbootUsb, &err, &errnos), fastboot),
        call_ensures(is_bulk_closed, (BulkFunction::Fbk, &err, &errnos), fbk),
    ensures
        fastboot <==> err.kind is NotConnected || err.kind is BrokenPipe || err.kind is Interrupted
            || err.raw_os_error == Some(errnos.shutdown) || err.raw_os_error == Some(errnos.idrm),
        fbk <==> err.kind is NotConnected || err.raw_os_error == Some(errnos.shutdown)
            || err.raw_os_error == Some(errnos.idrm),
{
}

/// The loop only ends where endpoint zero is gone. A handler that failed is reported
/// unless the transport was closed under it, and is told of a wait that timed out.
pub proof fn law_serve(
    err: IoError,
    errnos: TransportErrnos,
    gone: bool,
    over: bool,
    waited: ServeStep,
    handled: ServeStep,
    fine: ServeStep,
)
    requires
        call_ensures(is_torn_down_transport_error, (&err, &errnos), gone),
        call_ensures(is_setup_superseded_error, (&err, &errnos), over),
        call_ensures(serve, (&Ep0Wait::Failed(err), &errnos), waited),
        call_ensures(serve, (&Ep0Wait::Handled(Err(err)), &errnos), handled),
        call_ensures(serve, (&Ep0Wait::Handled(Ok(())), &errnos), fine),
    ensures
        gone ==> waited is Stop,
        !gone && over ==> waited is Continue,
        !gone && !over && err.kind is TimedOut ==> waited is HandlerIdle,
        !gone && !over && !(err.kind is TimedOut) ==> waited is Continue,
        gone || over ==> handled is Continue,
        !gone && !over ==> handled is ReportFailure,
        fine is Continue,
{
}

} // verus!
