//! The fastboot-usb function as part of a gadget: its settings, its interface,
//! and what to do with the events of its endpoint zero.

use vstd::prelude::*;

use crate::fastboot_usb::state::{FastbootUsbState, RECV_BUFFER_SIZE};
use crate::swupdate::config::{SwupdateConfig, SwupdateConfigError, SwupdateParams};
use crate::text::opt_text;
use crate::usb::functionfs::BulkFunction;

verus! {

/// Interface class of the fastboot protocol.
pub const FASTBOOT_CLASS: u8 = 0xff;

/// Interface subclass of the fastboot protocol.
pub const FASTBOOT_SUB_CLASS: u8 = 0x42;

/// Interface protocol of the fastboot protocol.
pub const FASTBOOT_PROTOCOL: u8 = 0x03;

/// Name of the fastboot-usb interface.
pub const FASTBOOT_INTERFACE_NAME: &'static str = "fastboot-usb";

/// The fastboot-usb section of the configuration file.
#[derive(Debug, Clone)]
pub struct FastbootUsbFnConfig {
    /// Update settings.
    pub swupdate: SwupdateConfig,
}

impl Default for FastbootUsbFnConfig {
    fn default() -> (config: Self)
        ensures
            config.swupdate.download is None,
            config.swupdate.software_set is None,
            config.swupdate.image_mode is None,
            config.swupdate.dry_run is None,
            config.swupdate.disable_store_swu is None,
            config.swupdate.timeout_secs is None,
    {
        FastbootUsbFnConfig { swupdate: SwupdateConfig::default() }
    }
}

impl FastbootUsbFnConfig {
    /// Resolves the update settings; see [`SwupdateConfig::to_params`].
    pub fn to_swupdate_params(&self) -> (params: Result<SwupdateParams, SwupdateConfigError>)
        ensures
            params is Ok <==> self.swupdate.target_supported(),
            params matches Ok(p) ==> self.swupdate.gives(p),
            params matches Err(SwupdateConfigError::UnsupportedDownloadTarget(t)) ==> Some(t@)
                == opt_text(self.swupdate.download),
    {
        self.swupdate.to_params()
    }
}

/// What is needed to service the function once the gadget is bound.
#[derive(Debug)]
pub struct FastbootUsbRuntime {
    /// Settings of the update.
    pub download: SwupdateParams,
    /// Serial number of the device.
    pub serial: String,
    /// Packet size that the receive endpoint was built with.
    pub rx_max_packet_size_default: u16,
}

impl FastbootUsbRuntime {
    /// The state in which the function starts.
    pub fn into_state(self) -> (state: FastbootUsbState)
        ensures
            state.wf(),
            state.function == BulkFunction::FastbootUsb,
            state.download_params == self.download,
            state.download matches Some(s) && s.fresh(self.download, RECV_BUFFER_SIZE),
            state.serial == self.serial,
            state.rx_max_packet_size == self.rx_max_packet_size_default,
            state.rx_max_packet_size_default == self.rx_max_packet_size_default,
            state.recv_size == RECV_BUFFER_SIZE,
            !state.fastboot_usb_session_open && !state.under_way() && !state.gadget_torn_down
                && !state.restart_due,
    {
        FastbootUsbState::new(
            BulkFunction::FastbootUsb,
            self.download,
            self.serial,
            self.rx_max_packet_size_default,
            RECV_BUFFER_SIZE,
        )
    }
}

/// Builds the function from its section of the configuration file.
pub fn build(cfg: &FastbootUsbFnConfig, serial: &str, rx_max_packet_size_default: u16) -> (runtime:
    Result<FastbootUsbRuntime, SwupdateConfigError>)
    ensures
        runtime is Ok <==> cfg.swupdate.target_supported(),
        runtime matches Ok(r) ==> cfg.swupdate.gives(r.download) && r.serial@ == serial@
            && r.rx_max_packet_size_default == rx_max_packet_size_default,
        runtime matches Err(SwupdateConfigError::UnsupportedDownloadTarget(t)) ==> Some(t@)
            == opt_text(cfg.swupdate.download),
{
    match cfg.to_swupdate_params() {
        Ok(download) => Ok(
            FastbootUsbRuntime { download, serial: serial.to_owned(), rx_max_packet_size_default },
        ),
        Err(err) => Err(err),
    }
}

/// Builds one fastboot-usb function into the slot. A slot that is taken is an
/// error; a section that is rejected is skipped (`Ok(false)`).
pub fn build_fastboot_usb(
    cfg: &FastbootUsbFnConfig,
    serial: &str,
    rx_max_packet_size_default: u16,
    runtime_slot: &mut Option<FastbootUsbRuntime>,
) -> (built: Result<bool, String>)
    ensures
        built is Err <==> *old(runtime_slot) is Some,
        built matches Err(e) ==> e@
            == "configuration declares more than one fastboot-usb function"@
            && *final(runtime_slot) == *old(runtime_slot),
        built matches Ok(b) ==> b == cfg.swupdate.target_supported(),
        built matches Ok(b) ==> (*final(runtime_slot) is Some <==> b),
        built is Ok ==> (*final(runtime_slot) matches Some(r) ==> cfg.swupdate.gives(r.download)
            && r.serial@ == serial@ && r.rx_max_packet_size_default == rx_max_packet_size_default),
{
    if runtime_slot.is_some() {
        return Err("configuration declares more than one fastboot-usb function".to_owned());
    }
    match build(cfg, serial, rx_max_packet_size_default) {
        Ok(runtime) => {
            *runtime_slot = Some(runtime);
            Ok(true)
        },
        Err(_err) => Ok(false),
    }
}

/// An endpoint-zero event.
#[derive(Debug, Clone, Copy, PartialEq, Eq, Structural)]
pub enum ControlEvent {
    /// The host has configured the function.
    Enable,
    /// The host has deconfigured the function.
    Disable,
    /// A host-to-device request.
    SetupHostToDevice,
    /// A device-to-host request.
    SetupDeviceToHost,
    /// Anything else.
    Other,
}

/// What to do for an endpoint-zero event.
#[derive(Debug, Clone, Copy, PartialEq, Eq, Structural)]
pub enum ControlStep {
    /// Tell the data loop whether the function is enabled.
    Publish(bool),
    /// Read and drop the data of the request; it does not matter if that
    /// fails.
    Drain,
    /// Answer with nothing; it does not matter if that fails.
    ReplyNothing,
    /// Nothing.
    Nothing,
}

/// What the control plane does for an event: it only tells the data loop
/// whether the function is enabled, and completes requests.
pub fn handle_event(event: ControlEvent) -> (step: ControlStep)
    ensures
        step == (match event {
            ControlEvent::Enable => ControlStep::Publish(true),
            ControlEvent::Disable => ControlStep::Publish(false),
            ControlEvent::SetupHostToDevice => ControlStep::Drain,
            ControlEvent::SetupDeviceToHost => ControlStep::ReplyNothing,
            ControlEvent::Other => ControlStep::Nothing,
        }),
{
    match event {
        ControlEvent::Enable => ControlStep::Publish(true),
        ControlEvent::Disable => ControlStep::Publish(false),
        ControlEvent::SetupHostToDevice => ControlStep::Drain,
        ControlEvent::SetupDeviceToHost => ControlStep::ReplyNothing,
        ControlEvent::Other => ControlStep::Nothing,
    }
}

/// A fastboot-usb function reads 16 KiB at a time and starts with nothing under way.
/// One section is built; a second one is an error, and one whose target cannot be
/// served is skipped.
pub proof fn law_fastboot_usb(
    runtime: FastbootUsbRuntime,
    state: FastbootUsbState,
    cfg: FastbootUsbFnConfig,
    serial: &str,
    packet: u16,
    slot: &mut Option<FastbootUsbRuntime>,
    built: Result<bool, String>,
    params: Result<SwupdateParams, SwupdateConfigError>,
)
    requires
        call_ensures(SwupdateConfig::to_params, (&cfg.swupdate,), params),
        call_ensures(FastbootUsbRuntime::into_state, (runtime,), state),
        call_ensures(build_fastboot_usb, (&cfg, serial, packet, slot), built),
    ensures
        state.function is FastbootUsb,
        state.recv_size == 16384,
        state.serial == runtime.serial && state.download_params == runtime.download,
        state.rx_max_packet_size == runtime.rx_max_packet_size_default,
        !state.under_way() && !state.fastboot_usb_session_open,
        FASTBOOT_CLASS == 0xff && FASTBOOT_SUB_CLASS == 0x42 && FASTBOOT_PROTOCOL == 3,
        *old(slot) is Some ==> (built matches Err(e) && e@
            == "configuration declares more than one fastboot-usb function"@) && *final(slot)
            == *old(slot),
        *old(slot) is None ==> (built matches Ok(b) && (b <==> cfg.swupdate.download is None
            || cfg.swupdate.download->0@ == "swupdate"@) && (b <==> *final(slot) is Some)),
        *old(slot) is None ==> (*final(slot) matches Some(r) ==> r.serial@ == serial@
            && r.rx_max_packet_size_default == packet && params is Ok && r.download
            == params->Ok_0),
        FASTBOOT_INTERFACE_NAME@ == "fastboot-usb"@,
{
}

/// The control plane tells whether the function is enabled, drains what comes in,
/// and answers with nothing.
pub proof fn law_control_events(event: ControlEvent, step: ControlStep)
    requires
        call_ensures(handle_event, (event,), step),
    ensures
        event is Enable ==> step == ControlStep::Publish(true),
        event is Disable ==> step == ControlStep::Publish(false),
        event is SetupHostToDevice ==> step is Drain,
        event is SetupDeviceToHost ==> step is ReplyNothing,
        event is Other ==> step is Nothing,
{
}

} // verus!
