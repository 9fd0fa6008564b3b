//! SWUpdate's IPC interface as transport.

use vstd::prelude::*;
use vstd::utf8::{encode_utf8, is_ascii_chars_encode_utf8};

use crate::fault::{ErrorKind, IoError, TransportErrnos};
use crate::swupdate::config::{SwupdateConfig, SwupdateParams};
use crate::swupdate_ipc::codec::{
    law_install_request_fields, lemma_selection_bytes, InstallMode, InstallRequest, InstallSource,
};
use crate::swupdate_ipc::error::{description, Error};
use crate::swupdate_ipc::proto::{IpcMessage, SWUPDATE_REQUEST_LEN, WORD_LEN};
use crate::text::joined;
use crate::wire::le32_at;

verus! {

/// Whether `request` asks for an update with these settings and this running
/// mode: locally, into the software set `stable` unless another is selected.
pub open spec fn requests(
    request: InstallRequest,
    params: SwupdateParams,
    running_mode: Seq<char>,
) -> bool {
    &&& request.software_set@ == (match params.software_set {
        Some(set) => set@,
        None => "stable"@,
    })
    &&& request.running_mode@ == running_mode
    &&& request.source == InstallSource::Local
    &&& request.mode == (if params.dry_run {
        InstallMode::DryRun
    } else {
        InstallMode::Install
    })
    &&& request.disable_store_swu == params.disable_store_swu
}

/// The install request that opens an update.
pub fn begin(params: &SwupdateParams, running_mode: &str) -> (request: InstallRequest)
    ensures
        requests(request, *params, running_mode@),
{
    let software_set = match &params.software_set {
        Some(set) => set.clone(),
        None => "stable".to_owned(),
    };
    InstallRequest {
        software_set,
        running_mode: running_mode.to_owned(),
        source: InstallSource::Local,
        mode: if params.dry_run {
            InstallMode::DryRun
        } else {
            InstallMode::Install
        },
        disable_store_swu: params.disable_store_swu,
    }
}

/// Whether an I/O fault of the IPC client means that the peer is gone.
pub open spec fn peer_gone(err: IoError, errnos: TransportErrnos) -> bool {
    err.raw_os_error == Some(errnos.shutdown) || err.raw_os_error == Some(errnos.connaborted)
}

/// The fault of an update that SWUpdate did not start.
pub fn start_failed(err: &Error) -> (fault: IoError)
    ensures
        fault.says(ErrorKind::Other, "SWUpdate inst_start failed: "@ + description(*err)),
{
    let text = err.message();
    let message = joined("SWUpdate inst_start failed: ", text.as_str());
    IoError::other(message.as_str())
}

/// The fault that a failure of the IPC client amounts to: a peer that is gone
/// is reported as not connected, anything else with the context it occurred
/// in.
pub fn normalize_ipc_error(err: Error, context: &str, errnos: &TransportErrnos) -> (fault: IoError)
    ensures
        match err {
            Error::Io(io) => if peer_gone(io, *errnos) {
                fault.says(ErrorKind::NotConnected, io.message@)
            } else {
                fault.says(
                    ErrorKind::Other,
                    "SWUpdate "@ + context@ + " failed: "@ + description(err),
                )
            },
            Error::Closed => fault.says(ErrorKind::NotConnected, description(err)),
            _ => fault.says(
                ErrorKind::Other,
                "SWUpdate "@ + context@ + " failed: "@ + description(err),
            ),
        },
{
    let text = err.message();
    match err {
        Error::Io(io) => {
            let gone: bool = match io.raw_os_error {
                Some(number) => number == errnos.shutdown || number == errnos.connaborted,
                None => false,
            };
            if gone {
                return IoError::new(ErrorKind::NotConnected, io.message.as_str());
            }
        },
        Error::Closed => {
            return IoError::new(ErrorKind::NotConnected, text.as_str());
        },
        _ => {},
    }
    let subject = joined("SWUpdate ", context);
    let verb = joined(subject.as_str(), " failed: ");
    let message = joined(verb.as_str(), text.as_str());
    IoError::other(message.as_str())
}

// ---------------------------------------------------------------------------
// Laws
// ---------------------------------------------------------------------------

proof fn lemma_request_word(data: Seq<u8>, at: int, word: u32)
    requires
        0 <= at,
        at + 4 <= data.len(),
        le32_at(data, at) == word,
        word < 256,
    ensures
        data[at] == word,
        data[at + 1] == 0,
        data[at + 2] == 0,
        data[at + 3] == 0,
{
}

/// What the settings of the configuration file ask for is what the daemon finds
/// in the request that opens an update. Its bytes 8 to 11 are the run type: 1, a
/// dry run, exactly where the settings say `dry_run = true`, and 2, an install,
/// otherwise. In front of it stand the version 1 and the source 4, a local one,
/// and the flag at the end is 0 exactly where the settings say
/// `disable_store_swu = false`.
pub proof fn law_settings_reach_the_daemon(
    config: SwupdateConfig,
    params: SwupdateParams,
    running_mode: &str,
    request: InstallRequest,
    message: IpcMessage,
)
    requires
        call_ensures(SwupdateConfig::to_params, (&config,), Ok(params)),
        call_ensures(begin, (&params, running_mode), request),
        call_ensures(InstallRequest::encode, (&request,), Ok(message)),
    ensures
        message.type_ == 0,
        message.data@.len() == SWUPDATE_REQUEST_LEN + 2048 + WORD_LEN,
        config.dry_run == Some(true) ==> message.data@.subrange(8, 12) == seq![1u8, 0, 0, 0],
        config.dry_run != Some(true) ==> message.data@.subrange(8, 12) == seq![2u8, 0, 0, 0],
        message.data@.subrange(0, 8) == seq![1u8, 0, 0, 0, 4, 0, 0, 0],
        config.disable_store_swu == Some(false) ==> message.data@[8 + 2 * WORD_LEN + 1024] == 0,
        config.disable_store_swu != Some(false) ==> message.data@[8 + 2 * WORD_LEN + 1024] == 1,
{
    law_install_request_fields(request);
    let data = message.data@;
    let run: u32 = if config.dry_run == Some(true) {
        1
    } else {
        2
    };
    lemma_request_word(data, 0, 1);
    lemma_request_word(data, 4, 4);
    lemma_request_word(data, 8, run);
    assert(data.subrange(0, 8) =~= seq![1u8, 0, 0, 0, 4, 0, 0, 0]);
    if config.dry_run == Some(true) {
        assert(data.subrange(8, 12) =~= seq![1u8, 0, 0, 0]);
    } else {
        assert(data.subrange(8, 12) =~= seq![2u8, 0, 0, 0]);
    }
}

/// The request selects the software set of the configuration file, or `stable`
/// where it names none, and the running mode it is given; both stand in the
/// frame as they are, with a NUL behind them.
pub proof fn law_selections_reach_the_daemon(
    config: SwupdateConfig,
    params: SwupdateParams,
    running_mode: &str,
    request: InstallRequest,
    message: IpcMessage,
    i: int,
)
    requires
        call_ensures(SwupdateConfig::to_params, (&config,), Ok(params)),
        call_ensures(begin, (&params, running_mode), request),
        call_ensures(InstallRequest::encode, (&request,), Ok(message)),
        0 <= i < 256,
    ensures
        ({
            let set = match config.software_set {
                Some(set) => encode_utf8(set@),
                None => encode_utf8("stable"@),
            };
            let mode = encode_utf8(running_mode@);
            let at = 8 + 2 * WORD_LEN + 512;
            &&& set.len() < 256 && mode.len() < 256
            &&& message.data@[at + i] == (if i < set.len() {
                set[i]
            } else {
                0u8
            })
            &&& message.data@[at + 256 + i] == (if i < mode.len() {
                mode[i]
            } else {
                0u8
            })
        }),
{
    lemma_selection_bytes(request, i);
}

/// Whatever the settings, the daemon is asked for an install it can take exactly
/// where both selections fit their fields.
pub proof fn law_request_fits(
    params: SwupdateParams,
    running_mode: &str,
    request: InstallRequest,
    message: Result<IpcMessage, Error>,
)
    requires
        call_ensures(begin, (&params, running_mode), request),
        call_ensures(InstallRequest::encode, (&request,), message),
    ensures
        message is Ok <==> encode_utf8(running_mode@).len() < 256
            && (params.software_set matches Some(
            set,
        ) ==> encode_utf8(set@).len() < 256),
{
    reveal_strlit("stable");
    is_ascii_chars_encode_utf8("stable"@);
}

/// A failure of the client with the error number of a shut-down or an aborted
/// connection, and a closed connection, are reported as a peer that is gone; any
/// other failure with what it was about.
pub proof fn law_peer_is_gone(err: Error, context: &str, errnos: TransportErrnos, fault: IoError)
    requires
        call_ensures(normalize_ipc_error, (err, context, &errnos), fault),
    ensures
        err is Closed ==> fault.kind == ErrorKind::NotConnected,
        err matches Error::Io(io) ==> {
            let gone = io.raw_os_error == Some(errnos.shutdown) || io.raw_os_error == Some(
                errnos.connaborted,
            );
            &&& gone ==> fault.kind == ErrorKind::NotConnected && fault.message@ == io.message@
            &&& !gone ==> fault.kind == ErrorKind::Other
        },
        !(err is Closed) && !(err is Io) ==> fault.kind == ErrorKind::Other,
        fault.kind == ErrorKind::Other ==> fault.message@ == "SWUpdate "@ + context@
            + " failed: "@ + description(err),
{
}

/// An update that SWUpdate did not start is told with the reason.
pub proof fn law_start_failed(err: Error, text: String, fault: IoError)
    requires
        call_ensures(Error::message, (&err,), text),
        call_ensures(start_failed, (&err,), fault),
    ensures
        fault.kind == ErrorKind::Other,
        fault.message@ == "SWUpdate inst_start failed: "@ + text@,
{
}

} // verus!
