//! I/O faults as the protocol logic sees them.

use vstd::prelude::*;

verus! {

/// The class of an I/O fault.
#[derive(Debug, Clone, Copy, PartialEq, Eq, Structural)]
pub enum ErrorKind {
    /// The transport is not connected.
    NotConnected,
    /// The other end stopped reading.
    BrokenPipe,
    /// A deadline passed.
    TimedOut,
    /// A request carried a value that is not allowed.
    InvalidInput,
    /// The peer sent data that is not allowed.
    InvalidData,
    /// Something that was asked for does not exist.
    NotFound,
    /// The stream ended inside a message.
    UnexpectedEof,
    /// A wait was interrupted.
    Interrupted,
    /// Nothing can be done without waiting.
    WouldBlock,
    /// Anything else.
    Other,
}

/// An I/O fault: its class, the operating system's error number where it came
/// from the operating system, and a description.
#[derive(Debug)]
pub struct IoError {
    /// The class of the fault.
    pub kind: ErrorKind,
    /// The operating system's error number, if any.
    pub raw_os_error: Option<i32>,
    /// A description for the log.
    pub message: String,
}

impl IoError {
    /// A fault of the given class that did not come from the operating system.
    pub fn new(kind: ErrorKind, message: &str) -> (err: IoError)
        ensures
            err.kind == kind,
            err.raw_os_error is None,
            err.message@ == message@,
    {
        IoError { kind, raw_os_error: None, message: message.to_owned() }
    }

    /// A fault of no particular class.
    pub fn other(message: &str) -> (err: IoError)
        ensures
            err.kind == ErrorKind::Other,
            err.raw_os_error is None,
            err.message@ == message@,
    {
        IoError::new(ErrorKind::Other, message)
    }

    /// Whether this is a fault of class `kind` with description `message` that
    /// did not come from the operating system.
    pub open spec fn says(self, kind: ErrorKind, message: Seq<char>) -> bool {
        self.kind == kind && self.raw_os_error is None && self.message@ == message
    }
}

/// The operating system's numbers for the conditions that end a transport.
#[derive(Debug, Clone, Copy)]
pub struct TransportErrnos {
    /// `EIDRM`: the request was superseded.
    pub idrm: i32,
    /// `ESHUTDOWN`: the endpoint was shut down.
    pub shutdown: i32,
    /// `ECONNABORTED`: the connection was aborted.
    pub connaborted: i32,
}

impl TransportErrnos {
    /// The numbers used by the running operating system.
    pub fn native() -> (errnos: TransportErrnos)
        ensures
            errnos.linux_numbers(),
    {
        native_errnos()
    }

    /// The numbers that Linux gives these conditions. MIPS and SPARC have a
    /// table each; all other machines share one.
    pub open spec fn linux_numbers(self) -> bool {
        ||| self.idrm == 43 && self.shutdown == 108 && self.connaborted == 103
        ||| self.idrm == 36 && self.shutdown == 143 && self.connaborted == 130
        ||| self.idrm == 77 && self.shutdown == 58 && self.connaborted == 53
    }
}

/// `rustix::io::Errno::raw_os_error` of `IDRM`, `SHUTDOWN` and `CONNABORTED`:
/// the numbers of one of Linux's three tables. Which table it is depends on the
/// machine that the program is built for, and is left unsaid.
#[verifier::external_body]
fn native_errnos() -> (errnos: TransportErrnos)
    ensures
        errnos.linux_numbers(),
{
    TransportErrnos {
        idrm: rustix::io::Errno::IDRM.raw_os_error(),
        shutdown: rustix::io::Errno::SHUTDOWN.raw_os_error(),
        connaborted: rustix::io::Errno::CONNABORTED.raw_os_error(),
    }
}

/// A fault is of the class and with the text that it was made with, and did not come
/// from the operating system.
pub proof fn law_faults(kind: ErrorKind, message: &str, err: IoError, other: IoError)
    requires
        call_ensures(IoError::new, (kind, message), err),
        call_ensures(IoError::other, (message,), other),
    ensures
        err.kind == kind && err.raw_os_error is None && err.message@ == message@,
        other.kind == ErrorKind::Other && other.raw_os_error is None && other.message@ == message@,
{
}

/// The error numbers of a removed request, a shut-down endpoint and an aborted
/// connection are those of one of Linux's tables.
pub proof fn law_error_numbers(errnos: TransportErrnos)
    requires
        call_ensures(TransportErrnos::native, (), errnos),
    ensures
        errnos.idrm == 43 ==> errnos.shutdown == 108 && errnos.connaborted == 103,
        errnos.idrm == 36 ==> errnos.shutdown == 143 && errnos.connaborted == 130,
        errnos.idrm == 77 ==> errnos.shutdown == 58 && errnos.connaborted == 53,
        errnos.idrm == 43 || errnos.idrm == 36 || errnos.idrm == 77,
{
}

} // verus!
