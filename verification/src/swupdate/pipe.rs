//! `fw_update` as transport, for machines with one slot only.

use vstd::prelude::*;

use crate::fault::{ErrorKind, IoError};
use crate::text::{joined, texts};

verus! {

/// The program that installs what is piped into it.
pub const FW_UPDATE: &'static str = "fw_update";

/// The arguments for installing with this running mode.
pub open spec fn arguments(running_mode: Seq<char>) -> Seq<Seq<char>> {
    seq!["-x"@, "r"@, "-m"@, running_mode, "-"@]
}

/// The arguments of [`FW_UPDATE`] for installing with this running mode.
pub fn begin(running_mode: &str) -> (args: Vec<String>)
    ensures
        texts(args@) == arguments(running_mode@),
{
    let mut args: Vec<String> = Vec::new();
    args.push("-x".to_owned());
    args.push("r".to_owned());
    args.push("-m".to_owned());
    args.push(running_mode.to_owned());
    args.push("-".to_owned());
    assert(texts(args@) =~= arguments(running_mode@));
    args
}

/// The fault of an update whose program could not be started, with the
/// description of why; or whose input could not be opened.
pub fn start_failed(description: Option<&str>) -> (err: IoError)
    ensures
        match description {
            Some(text) => err.says(ErrorKind::Other, "fw_update spawn failed: "@ + text@),
            None => err.says(ErrorKind::Other, "failed to open fw_update stdin"@),
        },
{
    match description {
        Some(text) => {
            let message = joined("fw_update spawn failed: ", text);
            IoError::other(message.as_str())
        },
        None => IoError::other("failed to open fw_update stdin"),
    }
}

/// How waiting for the program ended.
pub enum PipeExit {
    /// It exited with success.
    Success,
    /// It exited otherwise; the text says how.
    Status(String),
    /// Waiting failed; the text says how.
    WaitFailed(String),
    /// It did not exit in time.
    TimedOut,
}

/// The verdict on an update from how waiting for the program ended.
pub fn verdict(exit: PipeExit) -> (verdict: Result<(), IoError>)
    ensures
        match exit {
            PipeExit::Success => verdict is Ok,
            PipeExit::Status(s) => verdict matches Err(e) && e.says(
                ErrorKind::Other,
                "fw_update exited with status "@ + s@,
            ),
            PipeExit::WaitFailed(s) => verdict matches Err(e) && e.says(
                ErrorKind::Other,
                "fw_update wait failed: "@ + s@,
            ),
            PipeExit::TimedOut => verdict matches Err(e) && e.says(
                ErrorKind::TimedOut,
                "fw_update timed out"@,
            ),
        },
{
    match exit {
        PipeExit::Success => Ok(()),
        PipeExit::Status(status) => {
            let message = joined("fw_update exited with status ", status.as_str());
            Err(IoError::other(message.as_str()))
        },
        PipeExit::WaitFailed(reason) => {
            let message = joined("fw_update wait failed: ", reason.as_str());
            Err(IoError::other(message.as_str()))
        },
        PipeExit::TimedOut => Err(IoError::new(ErrorKind::TimedOut, "fw_update timed out")),
    }
}

/// The program reads the image from its input and is told the running mode.
pub proof fn law_arguments(running_mode: &str, args: Vec<String>)
    requires
        call_ensures(begin, (running_mode,), args),
    ensures
        FW_UPDATE@ == "fw_update"@,
        args@.len() == 5,
        args@[0]@ == "-x"@ && args@[1]@ == "r"@ && args@[2]@ == "-m"@ && args@[3]@ == running_mode@
            && args@[4]@ == "-"@,
{
    let list = texts(args@);
    assert(list.len() == 5);
    assert(list[0] == args@[0]@ && list[1] == args@[1]@ && list[2] == args@[2]@ && list[3]
        == args@[3]@ && list[4] == args@[4]@);
}

/// An update succeeds only where the program exits with success, and any other end
/// is told with its reason.
pub proof fn law_pipe_verdict(
    exit: PipeExit,
    end: Result<(), IoError>,
    why: &str,
    spawn: IoError,
    input: IoError,
)
    requires
        call_ensures(verdict, (exit,), end),
        call_ensures(start_failed, (Some(why),), spawn),
        call_ensures(start_failed, (None,), input),
    ensures
        end is Ok <==> exit is Success,
        exit matches PipeExit::Status(s) ==> (end matches Err(e) && e.kind == ErrorKind::Other
            && e.message@ == "fw_update exited with status "@ + s@),
        exit matches PipeExit::WaitFailed(s) ==> (end matches Err(e) && e.kind == ErrorKind::Other
            && e.message@ == "fw_update wait failed: "@ + s@),
        exit is TimedOut ==> (end matches Err(e) && e.kind == ErrorKind::TimedOut && e.message@
            == "fw_update timed out"@),
        spawn.kind == ErrorKind::Other && spawn.message@ == "fw_update spawn failed: "@ + why@,
        input.kind == ErrorKind::Other && input.message@ == "failed to open fw_update stdin"@,
{
}

} // verus!
