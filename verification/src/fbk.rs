//! The FBK function, which speaks the fastboot-usb protocol with larger
//! receive buffers, and goes by fewer faults to tell that its endpoint is gone.

use vstd::prelude::*;

use crate::fastboot_usb::state::{FastbootUsbState, MAX_RECV_BUFFER_SIZE};
use crate::swupdate::config::{SwupdateConfig, SwupdateConfigError, SwupdateParams};
use crate::text::opt_text;
use crate::usb::functionfs::BulkFunction;

verus! {

/// Name of the FBK interface.
pub const FBK_INTERFACE_NAME: &'static str = "FBK";

/// Capacity of every receive buffer of an FBK function.
pub const RECV_BUFFER_SIZE: usize = MAX_RECV_BUFFER_SIZE;

/// The FBK section of the configuration file.
#[derive(Debug, Clone)]
pub struct FbkFnConfig {
    /// Update settings.
    pub swupdate: SwupdateConfig,
}

impl FbkFnConfig {
    /// Resolves the update settings; see [`SwupdateConfig::to_params`].
    pub fn to_swupdate_params(&self) -> (params: Result<SwupdateParams, SwupdateConfigError>)
        ensures
            params is Ok <==> self.swupdate.target_supported(),
            params matches Ok(p) ==> self.swupdate.gives(p),
            params matches Err(SwupdateConfigError::UnsupportedDownloadTarget(t)) ==> Some(t@)
                == opt_text(self.swupdate.download),
    {
        self.swupdate.to_params()
    }
}

/// What is needed to service the function once the gadget is bound.
#[derive(Debug)]
pub struct FbkRuntime {
    /// Settings of the update.
    pub download: SwupdateParams,
    /// Serial number of the device.
    pub serial: String,
}

impl FbkRuntime {
    /// The state in which the function starts, given the packet size that its
    /// receive endpoint was built with.
    pub fn into_state(self, rx_max_packet_size_default: u16) -> (state: FastbootUsbState)
        ensures
            state.wf(),
            state.function == BulkFunction::Fbk,
            state.download_params == self.download,
            state.download matches Some(s) && s.fresh(self.download, RECV_BUFFER_SIZE),
            state.serial == self.serial,
            state.rx_max_packet_size == rx_max_packet_size_default,
            state.rx_max_packet_size_default == rx_max_packet_size_default,
            state.recv_size == RECV_BUFFER_SIZE,
            !state.fastboot_usb_session_open && !state.under_way() && !state.gadget_torn_down
                && !state.restart_due,
    {
        FastbootUsbState::new(
            BulkFunction::Fbk,
            self.download,
            self.serial,
            rx_max_packet_size_default,
            RECV_BUFFER_SIZE,
        )
    }
}

/// Builds the function from its section of the configuration file.
pub fn build(cfg: &FbkFnConfig, serial: &str) -> (runtime: Result<FbkRuntime, SwupdateConfigError>)
    ensures
        runtime is Ok <==> cfg.swupdate.target_supported(),
        runtime matches Ok(r) ==> cfg.swupdate.gives(r.download) && r.serial@ == serial@,
        runtime matches Err(SwupdateConfigError::UnsupportedDownloadTarget(t)) ==> Some(t@)
            == opt_text(cfg.swupdate.download),
{
    match cfg.to_swupdate_params() {
        Ok(download) => Ok(FbkRuntime { download, serial: serial.to_owned() }),
        Err(err) => Err(err),
    }
}

/// Builds one FBK function into the slot. A slot that is taken is an error; a
/// section that is rejected is skipped (`Ok(false)`).
pub fn build_fbk(cfg: &FbkFnConfig, serial: &str, runtime_slot: &mut Option<FbkRuntime>) -> (built:
    Result<bool, String>)
    ensures
        built is Err <==> *old(runtime_slot) is Some,
        built matches Err(e) ==> e@ == "configuration declares more than one FBK function"@
            && *final(runtime_slot) == *old(runtime_slot),
        built matches Ok(b) ==> b == cfg.swupdate.target_supported(),
        built matches Ok(b) ==> (*final(runtime_slot) is Some <==> b),
        built is Ok ==> (*final(runtime_slot) matches Some(r) ==> cfg.swupdate.gives(r.download)
            && r.serial@ == serial@),
{
    if runtime_slot.is_some() {
        return Err("configuration declares more than one FBK function".to_owned());
    }
    match build(cfg, serial) {
        Ok(runtime) => {
            *runtime_slot = Some(runtime);
            Ok(true)
        },
        Err(_err) => Ok(false),
    }
}

/// An FBK function reads 128 KiB at a time and starts with nothing under way. One
/// section is built; a second one is an error, and one whose target cannot be served
/// is skipped.
pub proof fn law_fbk(
    runtime: FbkRuntime,
    packet: u16,
    state: FastbootUsbState,
    cfg: FbkFnConfig,
    serial: &str,
    slot: &mut Option<FbkRuntime>,
    built: Result<bool, String>,
    params: Result<SwupdateParams, SwupdateConfigError>,
)
    requires
        call_ensures(SwupdateConfig::to_params, (&cfg.swupdate,), params),
        call_ensures(FbkRuntime::into_state, (runtime, packet), state),
        call_ensures(build_fbk, (&cfg, serial, slot), built),
    ensures
        state.function is Fbk,
        state.recv_size == 131072,
        state.serial == runtime.serial && state.download_params == runtime.download,
        state.rx_max_packet_size == packet,
        !state.under_way() && !state.fastboot_usb_session_open,
        *old(slot) is Some ==> (built matches Err(e) && e@
            == "configuration declares more than one FBK function"@) && *final(slot) == *old(slot),
        *old(slot) is None ==> (built matches Ok(b) && (b <==> cfg.swupdate.download is None
            || cfg.swupdate.download->0@ == "swupdate"@) && (b <==> *final(slot) is Some)),
        *old(slot) is None ==> (*final(slot) matches Some(r) ==> r.serial@ == serial@
            && params is Ok && r.download == params->Ok_0),
        FBK_INTERFACE_NAME@ == "FBK"@,
{
}

} // verus!
