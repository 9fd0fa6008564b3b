//! The DFU function as part of a gadget: its interface, and what to do with
//! the events of its endpoint zero.

use vstd::prelude::*;

use crate::dfu::config::{DfuConfig, DfuConfigError, DfuDesc, DfuFnConfig};
use crate::dfu::handler::{dfu_request, is_dfu_request, CtrlReq, Dfu, InReply};
use crate::dfu::protocol::{State, DNLOAD};
use crate::fault::{ErrorKind, IoError, TransportErrnos};
use crate::swupdate::config::{SwupdateConfigError, UpdateHost};
use crate::sysinfo::runtime::{BaseSystemInfo, BootRootfsInfo};
use crate::text::opt_text;
use crate::usb::functionfs::{closed_transport, is_closed_transport_error};

verus! {

/// Interface class of a device in DFU mode.
pub const DFU_CLASS: u8 = 0xfe;

/// Interface subclass of a device in DFU mode.
pub const DFU_SUB_CLASS: u8 = 0x01;

/// Interface protocol of a device in DFU mode.
pub const DFU_PROTOCOL: u8 = 0x02;

/// Name of the DFU interface.
pub const DFU_INTERFACE_NAME: &'static str = "swupdate";

/// What is needed to service control requests once the gadget is bound.
#[derive(Debug)]
pub struct DfuRuntime {
    /// Functional descriptor of the interface.
    pub descriptor: DfuDesc,
    /// Settings of the state machine.
    pub config: DfuConfig,
}

/// Builds the DFU function from its section of the configuration file.
pub fn build(cfg: &DfuFnConfig, serial: &str, base: &BaseSystemInfo, boot: &BootRootfsInfo) -> (
    runtime: Result<DfuRuntime, DfuConfigError>)
    ensures
        runtime is Ok <==> cfg.upload_supported() && cfg.swupdate.target_supported(),
        runtime matches Ok(r) ==> cfg.configures(serial@, *base, *boot, r.config)
            && r.descriptor == r.config.spec_descriptor(),
        runtime matches Err(e) ==> match e {
            DfuConfigError::UnsupportedUploadTarget(t) => !cfg.upload_supported() && Some(t@)
                == opt_text(cfg.upload),
            DfuConfigError::Swupdate(SwupdateConfigError::UnsupportedDownloadTarget(t)) =>
                cfg.upload_supported() && Some(t@) == opt_text(cfg.swupdate.download),
        },
{
    match cfg.to_config(serial, base, boot) {
        Ok(config) => Ok(DfuRuntime { descriptor: config.descriptor(), config }),
        Err(err) => Err(err),
    }
}

/// Builds one DFU function into the slot. A slot that is taken is an error; a
/// section that is rejected is skipped (`Ok(false)`).
pub fn build_dfu(
    cfg: &DfuFnConfig,
    serial: &str,
    base: &BaseSystemInfo,
    boot: &BootRootfsInfo,
    runtime_slot: &mut Option<DfuRuntime>,
) -> (built: Result<bool, String>)
    ensures
        built is Err <==> *old(runtime_slot) is Some,
        built matches Err(e) ==> e@ == "configuration declares more than one DFU function"@
            && *final(runtime_slot) == *old(runtime_slot),
        built matches Ok(b) ==> b == (cfg.upload_supported() && cfg.swupdate.target_supported()),
        built matches Ok(b) ==> (*final(runtime_slot) is Some <==> b),
        built is Ok ==> (*final(runtime_slot) matches Some(r) ==> cfg.configures(
            serial@,
            *base,
            *boot,
            r.config,
        ) && r.descriptor == r.config.spec_descriptor()),
{
    if runtime_slot.is_some() {
        return Err("configuration declares more than one DFU function".to_owned());
    }
    match build(cfg, serial, base, boot) {
        Ok(runtime) => {
            *runtime_slot = Some(runtime);
            Ok(true)
        },
        Err(_err) => Ok(false),
    }
}

/// An endpoint-zero event.
pub enum DfuEvent {
    /// A host-to-device request, and whether it has a data stage.
    SetupOut {
        /// The request.
        ctrl: CtrlReq,
        /// Data follows.
        has_data: bool,
    },
    /// A device-to-host request.
    SetupIn {
        /// The request.
        ctrl: CtrlReq,
    },
    /// The function was enabled.
    Enable,
    /// The function was disabled.
    Disable,
    /// The function was unbound.
    Unbind,
    /// Anything else.
    Other,
}

/// What the endpoint-zero loop has to do for an event.
pub enum DfuStep {
    /// Nothing more.
    Done,
    /// Read and drop the data of a request that is not for DFU; it does not
    /// matter if that fails.
    Drain,
    /// Read the data block of the request and hand it to [`Dfu::block_read`].
    ReadBlock,
    /// Complete the request, which carries no download data, and report to
    /// [`Dfu::drained`].
    Complete(CtrlReq),
    /// Answer a request that is not for DFU with nothing; it does not matter if
    /// that fails.
    ReplyNothing,
    /// Answer the request and report to [`reply_sent`].
    Reply(InReply),
}

/// What became of an answer to the host: a closed transport is no failure.
pub fn reply_sent(sent: Result<(), IoError>, errnos: &TransportErrnos) -> (result: Result<
    (),
    IoError,
>)
    ensures
        match sent {
            Ok(_) => result is Ok,
            Err(e) => if closed_transport(e, *errnos) {
                result is Ok
            } else {
                result == Err::<(), IoError>(e)
            },
        },
{
    match sent {
        Ok(()) => Ok(()),
        Err(err) => if is_closed_transport_error(&err, errnos) {
            Ok(())
        } else {
            Err(err)
        },
    }
}

impl Dfu {
    /// Whether the machine was reset because the host went away: nothing
    /// changes while idle.
    pub open spec fn host_gone(self, before: Dfu) -> bool {
        &&& self.wf()
        &&& before.state == State::DfuIdle ==> self == before
        &&& before.state != State::DfuIdle ==> self.back_to_start(before) && self.left_from(before)
        &&& self.stopped@ == before.stopped@
    }

    /// Whether handling a fault of the transport can turn `before` into `self`
    /// with this result: a closed transport resets the machine and is no
    /// failure, any other fault is passed on.
    pub open spec fn after_fault(
        self,
        before: Dfu,
        errnos: TransportErrnos,
        err: IoError,
        result: Result<(), IoError>,
    ) -> bool {
        if closed_transport(err, errnos) {
            result is Ok && self.host_gone(before)
        } else {
            result == Err::<(), IoError>(err) && self == before
        }
    }

    fn transport_fault(&mut self, errnos: &TransportErrnos, err: IoError) -> (result: Result<
        (),
        IoError,
    >)
        requires
            old(self).wf(),
        ensures
            final(self).wf(),
            old(self).sink is Some ==> final(self).sink is Some,
            final(self).after_fault(*old(self), *errnos, err, result),
    {
        if is_closed_transport_error(&err, errnos) {
            self.reset_on_idle_timeout();
            Ok(())
        } else {
            Err(err)
        }
    }

    /// Whether an attempt to begin a data block can turn `before` into `self`
    /// with this result.
    pub open spec fn began_block(
        self,
        before: Dfu,
        host: UpdateHost,
        result: Result<(), IoError>,
    ) -> bool {
        exists|polled: Result<(), IoError>| #[trigger]
            self.polled(before, host, polled) && match polled {
                Err(e) => result == Err::<(), IoError>(e),
                Ok(_) => if self.finishing() {
                    result matches Err(e) && e.says(ErrorKind::Other, "manifestation in progress"@)
                } else {
                    result is Ok
                },
            }
    }

    /// Whether handling an event can turn `before` into `self` with this
    /// result.
    pub open spec fn after_event(
        self,
        before: Dfu,
        host: UpdateHost,
        event: DfuEvent,
        result: Result<DfuStep, IoError>,
    ) -> bool {
        match event {
            DfuEvent::SetupOut { ctrl, has_data } => if !dfu_request(ctrl) {
                result == Ok::<DfuStep, IoError>(DfuStep::Drain) && self == before
            } else if ctrl.request == DNLOAD && has_data {
                exists|mid: Dfu, begun: Result<(), IoError>|
                    (#[trigger] mid.began_block(before, host, begun)) && match begun {
                        Ok(_) => result == Ok::<DfuStep, IoError>(DfuStep::ReadBlock) && self
                            == mid,
                        Err(e) => match result {
                            Ok(step) => step is Done && self.after_fault(
                                mid,
                                host.errnos,
                                e,
                                Ok(()),
                            ),
                            Err(r) => self.after_fault(mid, host.errnos, e, Err(r)),
                        },
                    }
            } else {
                result == Ok::<DfuStep, IoError>(DfuStep::Complete(ctrl)) && self == before
            },
            DfuEvent::SetupIn { ctrl } => if !dfu_request(ctrl) {
                result == Ok::<DfuStep, IoError>(DfuStep::ReplyNothing) && self == before
            } else {
                match result {
                    Ok(step) => step matches DfuStep::Reply(reply) && exists|mid: Dfu| #[trigger]
                        mid.polled(before, host, Ok(())) && self.answered_in(mid, ctrl, Ok(reply)),
                    Err(e) => self.polled(before, host, Err(e)) || exists|mid: Dfu| #[trigger]
                        mid.polled(before, host, Ok(())) && self.answered_in(mid, ctrl, Err(e)),
                }
            },
            DfuEvent::Disable | DfuEvent::Unbind => (result matches Ok(step) && step is Done)
                && self.host_gone(before),
            DfuEvent::Enable | DfuEvent::Other => (result matches Ok(step) && step is Done) && self
                == before,
        }
    }

    /// Dispatches a single endpoint-zero event. Only `DFU_DNLOAD` carries an
    /// OUT data stage; every other DFU request is completed without reading a
    /// byte more than it declares, since a request without data stage would
    /// block a read forever.
    pub fn handle_event(&mut self, host: &UpdateHost, event: DfuEvent) -> (result: Result<
        DfuStep,
        IoError,
    >)
        requires
            old(self).wf(),
            old(self).sink is Some,
        ensures
            final(self).wf(),
            final(self).sink is Some,
            final(self).after_event(*old(self), *host, event, result),
            result matches Ok(DfuStep::Reply(reply)) ==> reply.wf(),
    {
        match event {
            DfuEvent::SetupOut { ctrl, has_data } => {
                if !is_dfu_request(&ctrl) {
                    return Ok(DfuStep::Drain);
                }
                if ctrl.request == DNLOAD && has_data {
                    let begun = self.begin_block(host);
                    let ghost mid = *self;
                    assert(mid.began_block(*old(self), *host, begun));
                    assert(mid.sink is Some);
                    return match begun {
                        Ok(()) => Ok(DfuStep::ReadBlock),
                        Err(err) => match self.transport_fault(&host.errnos, err) {
                            Ok(()) => Ok(DfuStep::Done),
                            Err(err) => Err(err),
                        },
                    };
                }
                Ok(DfuStep::Complete(ctrl))
            },
            DfuEvent::SetupIn { ctrl } => {
                if !is_dfu_request(&ctrl) {
                    return Ok(DfuStep::ReplyNothing);
                }
                match self.handle_in(host, &ctrl) {
                    Ok(reply) => Ok(DfuStep::Reply(reply)),
                    Err(err) => Err(err),
                }
            },
            DfuEvent::Enable => Ok(DfuStep::Done),
            DfuEvent::Disable => {
                self.reset_on_idle_timeout();
                Ok(DfuStep::Done)
            },
            DfuEvent::Unbind => {
                self.reset_on_idle_timeout();
                Ok(DfuStep::Done)
            },
            DfuEvent::Other => Ok(DfuStep::Done),
        }
    }

    /// Takes in the data block that was read for [`DfuStep::ReadBlock`], or the
    /// failure to read it.
    pub fn block_read(&mut self, host: &UpdateHost, read: Result<&[u8], IoError>) -> (result:
        Result<(), IoError>)
        requires
            old(self).wf(),
            old(self).sink is Some,
            read matches Ok(data) ==> data@.len() <= u16::MAX,
        ensures
            final(self).wf(),
            final(self).sink is Some,
            match read {
                Ok(data) => exists|mid: Dfu, received: Result<(), IoError>|
                    (#[trigger] mid.received(*old(self), *host, data@, received))
                        && match received {
                        Ok(_) => result is Ok && *final(self) == mid,
                        Err(e) => final(self).after_fault(mid, host.errnos, e, result),
                    },
                Err(e) => final(self).after_fault(*old(self), host.errnos, e, result),
            },
    {
        match read {
            Ok(data) => {
                let received = self.receive_dnload_block(host, data);
                let ghost mid = *self;
                assert(mid.received(*old(self), *host, data@, received));
                match received {
                    Ok(()) => Ok(()),
                    Err(err) => self.transport_fault(&host.errnos, err),
                }
            },
            Err(err) => self.transport_fault(&host.errnos, err),
        }
    }

    /// Dispatches the request that was completed for [`DfuStep::Complete`], or
    /// takes in the failure to complete it.
    pub fn drained(&mut self, host: &UpdateHost, ctrl: &CtrlReq, done: Result<(), IoError>) -> (
        result: Result<(), IoError>)
        requires
            old(self).wf(),
            old(self).sink is Some,
        ensures
            final(self).wf(),
            final(self).sink is Some,
            match done {
                Ok(_) => match result {
                    Err(e) => final(self).polled(*old(self), *host, Err(e)) || exists|mid: Dfu|
                        #[trigger]
                        mid.polled(*old(self), *host, Ok(())) && mid.wf()
                            && final(self).answered_out(mid, *host, ctrl.request, result),
                    Ok(_) => exists|mid: Dfu| #[trigger]
                        mid.polled(*old(self), *host, Ok(())) && mid.wf()
                            && final(self).answered_out(mid, *host, ctrl.request, result),
                },
                Err(e) => final(self).after_fault(*old(self), host.errnos, e, result),
            },
    {
        match done {
            Ok(()) => self.handle_out(host, ctrl),
            Err(err) => self.transport_fault(&host.errnos, err),
        }
    }
}

/// A host that goes away in the middle of a transfer ends its data but not the
/// update: the transfer is left with its status task as it was, nothing is asked
/// to stop, and the next attempt starts from nothing.
pub proof fn law_quiet_host_leaves_the_verdict(after: Dfu, before: Dfu)
    requires
        before.sink is Some,
        before.state != State::DfuIdle,
        after.host_gone(before),
    ensures
        after.left matches Some(left) && left.tx is None && left.status == before.sink->0.status
            && left.terminal == before.sink->0.terminal && left.sent == before.sink->0.sent,
        after.stopped@ == before.stopped@,
        after.state == State::DfuIdle,
        after.sink matches Some(s) && s.idle(),
        after.in_step(),
{
    assert(after.handed() =~= Seq::empty());
}

// ---------------------------------------------------------------------------
// Laws
// ---------------------------------------------------------------------------

/// What to do for a request: the data of a block is read, every other request for
/// DFU is completed, one for somebody else is drained or answered with nothing, and
/// none of these but a block changes the machine.
pub proof fn law_requests(
    dfu: &mut Dfu,
    host: UpdateHost,
    ctrl: CtrlReq,
    has_data: bool,
    result: Result<DfuStep, IoError>,
)
    requires
        old(dfu).wf(),
        old(dfu).sink is Some,
        call_ensures(
            Dfu::handle_event,
            (dfu, &host, DfuEvent::SetupOut { ctrl, has_data }),
            result,
        ),
    ensures
        ({
            let for_dfu = ctrl.request_type == 0x21 || ctrl.request_type == 0xa1;
            &&& !for_dfu ==> result == Ok::<DfuStep, IoError>(DfuStep::Drain) && *final(dfu)
                == *old(dfu)
            &&& for_dfu && !(ctrl.request == 1 && has_data) ==> result == Ok::<DfuStep, IoError>(
                DfuStep::Complete(ctrl),
            ) && *final(dfu) == *old(dfu)
            &&& for_dfu && ctrl.request == 1 && has_data ==> (result matches Ok(step) ==> step
                is ReadBlock || (step is Done && final(dfu).state is DfuIdle))
        }),
{
    let after = *final(dfu);
    let before = *old(dfu);
    if (ctrl.request_type == 0x21 || ctrl.request_type == 0xa1) && ctrl.request == 1 && has_data {
        let (mid, begun) = choose|mid: Dfu, begun: Result<(), IoError>|
            (#[trigger] mid.began_block(before, host, begun)) && match begun {
                Ok(_) => result == Ok::<DfuStep, IoError>(DfuStep::ReadBlock) && after == mid,
                Err(e) => match result {
                    Ok(step) => step is Done && after.after_fault(mid, host.errnos, e, Ok(())),
                    Err(r) => after.after_fault(mid, host.errnos, e, Err(r)),
                },
            };
    }
}

/// A request in for somebody else is answered with nothing. Losing the host resets
/// a machine that is not idle, and other events change nothing.
pub proof fn law_events(
    dfu: &mut Dfu,
    host: UpdateHost,
    event: DfuEvent,
    result: Result<DfuStep, IoError>,
)
    requires
        old(dfu).wf(),
        old(dfu).sink is Some,
        call_ensures(Dfu::handle_event, (dfu, &host, event), result),
    ensures
        event matches DfuEvent::SetupIn { ctrl } ==> (ctrl.request_type != 0x21
            && ctrl.request_type != 0xa1 ==> result == Ok::<DfuStep, IoError>(DfuStep::ReplyNothing)
            && *final(dfu) == *old(dfu)),
        event matches DfuEvent::SetupIn { ctrl } ==> (ctrl.request_type == 0x21
            || ctrl.request_type == 0xa1 ==> (result matches Ok(step) ==> step is Reply)),
        event matches DfuEvent::SetupIn { ctrl } ==> (ctrl.request_type == 0xa1 && ctrl.request == 5
            ==> (result matches Ok(DfuStep::Reply(reply)) ==> reply.payload() == seq![
            final(dfu).state.spec_code(),
        ])),
        event matches DfuEvent::SetupIn { ctrl } ==> (ctrl.request_type == 0xa1 && ctrl.request == 3
            ==> (result matches Ok(DfuStep::Reply(reply)) ==> reply.payload().len() == 6
            && reply.payload()[4] == final(dfu).state.spec_code())),
        event is Disable || event is Unbind ==> (result matches Ok(step) && step is Done)
            && final(dfu).state is DfuIdle && final(dfu).sink is Some,
        (event is Disable || event is Unbind) && !(old(dfu).state is DfuIdle)
            ==> final(dfu).status is Okay && final(dfu).flushed@.len() == 0
                && final(dfu).download_tail@.len() == 0 && final(dfu).pending is None,
        event is Enable || event is Other ==> (result matches Ok(step) && step is Done)
            && *final(dfu) == *old(dfu),
{
}

/// A fault of a closed transport is no failure: it resets a machine that is not
/// idle. Any other fault is passed on and changes nothing.
pub proof fn law_faults(
    dfu: &mut Dfu,
    host: UpdateHost,
    err: IoError,
    closed: bool,
    result: Result<(), IoError>,
    sent: Result<(), IoError>,
    fine: Result<(), IoError>,
)
    requires
        old(dfu).wf(),
        old(dfu).sink is Some,
        call_ensures(is_closed_transport_error, (&err, &host.errnos), closed),
        call_ensures(Dfu::block_read, (dfu, &host, Err(err)), result),
        call_ensures(reply_sent, (Err(err), &host.errnos), sent),
        call_ensures(reply_sent, (Ok(()), &host.errnos), fine),
    ensures
        closed ==> result is Ok && sent is Ok && final(dfu).state is DfuIdle,
        !closed ==> result == Err::<(), IoError>(err) && sent == Err::<(), IoError>(err)
            && *final(dfu) == *old(dfu),
        fine is Ok,
{
}

/// So it is where a request could not be completed.
pub proof fn law_incomplete_request(
    dfu: &mut Dfu,
    host: UpdateHost,
    ctrl: CtrlReq,
    err: IoError,
    closed: bool,
    result: Result<(), IoError>,
)
    requires
        old(dfu).wf(),
        old(dfu).sink is Some,
        call_ensures(is_closed_transport_error, (&err, &host.errnos), closed),
        call_ensures(Dfu::drained, (dfu, &host, &ctrl, Err(err)), result),
    ensures
        closed ==> result is Ok && final(dfu).state is DfuIdle,
        !closed ==> result == Err::<(), IoError>(err) && *final(dfu) == *old(dfu),
{
}

/// A request that was completed leaves the machine where DFU says.
pub proof fn law_completed_request(dfu: &mut Dfu, host: UpdateHost, ctrl: CtrlReq)
    requires
        old(dfu).wf(),
        old(dfu).sink is Some,
        call_ensures(Dfu::drained, (dfu, &host, &ctrl, Ok(())), Ok(())),
    ensures
        ctrl.request == 0 || ctrl.request == 1 || ctrl.request == 4 || ctrl.request == 6,
        final(dfu).sink is Some,
        ctrl.request == 0 ==> final(dfu).state is AppDetach,
        ctrl.request == 4 || ctrl.request == 6 ==> final(dfu).state is DfuIdle
            && final(dfu).status is Okay && final(dfu).flushed@.len() == 0
                && final(dfu).download_tail@.len() == 0,
{
}

/// A block that was read goes through the window, and the machine is then in the
/// middle of a download, without an error.
pub proof fn law_block_taken(dfu: &mut Dfu, host: UpdateHost, data: &[u8])
    requires
        old(dfu).wf(),
        old(dfu).sink is Some,
        old(dfu).in_step(),
        old(dfu).pending is None,
        data@.len() <= u16::MAX,
        call_ensures(Dfu::block_read, (dfu, &host, Ok(data)), Ok(())),
        !(final(dfu).state is DfuIdle),
    ensures
        final(dfu).flushed@ + final(dfu).download_tail@ == old(dfu).flushed@ + old(dfu).download_tail@ + data@,
{
    let after = *final(dfu);
    let before = *old(dfu);
    let (mid, received) = choose|mid: Dfu, received: Result<(), IoError>|
        (#[trigger] mid.received(before, host, data@, received)) && match received {
            Ok(_) => after == mid,
            Err(e) => after.after_fault(mid, host.errnos, e, Ok(())),
        };
    if let Ok(unit) = received {
        assert(unit == ());
        crate::dfu::handler::law_receive_in_step(mid, before, host, data@);
        let b = before.window();
        let a = after.window();
        let all = b.tail + data@;
        assert(crate::dfu::handler::flushable(b.tail, data@) + crate::dfu::handler::held_back(
            b.tail,
            data@,
        ) =~= all);
        assert(a.flushed + a.tail =~= b.flushed + (crate::dfu::handler::flushable(b.tail, data@)
            + crate::dfu::handler::held_back(b.tail, data@)));
        assert(b.flushed + all =~= b.flushed + b.tail + data@);
    }
}

/// One section is built; a second one is an error, and one that names a target that
/// cannot be served is skipped. The interface is that of a device in DFU mode.
pub proof fn law_build(
    cfg: DfuFnConfig,
    serial: &str,
    base: BaseSystemInfo,
    boot: BootRootfsInfo,
    slot: &mut Option<DfuRuntime>,
    built: Result<bool, String>,
)
    requires
        call_ensures(build_dfu, (&cfg, serial, &base, &boot, slot), built),
    ensures
        DFU_CLASS == 0xfe && DFU_SUB_CLASS == 1 && DFU_PROTOCOL == 2,
        *old(slot) is Some ==> (built matches Err(e) && e@
            == "configuration declares more than one DFU function"@) && *final(slot) == *old(slot),
        *old(slot) is None ==> (built matches Ok(b) && (b <==> (cfg.upload is None || cfg.upload->0@
            == "sysinfo"@) && (cfg.swupdate.download is None || cfg.swupdate.download->0@
            == "swupdate"@)) && (b <==> *final(slot) is Some)),
        *old(slot) is None ==> (*final(slot) matches Some(r) ==> r.descriptor.transfer_size
            == r.config.transfer_size && (r.descriptor.can_upload <==> cfg.upload is Some)),
        *old(slot) is None ==> (*final(slot) matches Some(r) ==> {
            &&& cfg.transfer_size matches Some(n) ==> r.config.transfer_size == n
            &&& cfg.transfer_size is None ==> r.config.transfer_size == 4096
            &&& cfg.poll_timeout_ms matches Some(n) ==> r.config.poll_timeout_ms == n
            &&& cfg.poll_timeout_ms is None ==> r.config.poll_timeout_ms == 10
            &&& r.config.upload is Some <==> cfg.upload is Some
        }),
        DFU_INTERFACE_NAME@ == "swupdate"@,
{
}

/// A block is read unless an update is being installed, which is an error that
/// changes nothing more.
pub proof fn law_block_or_installing(
    dfu: &mut Dfu,
    host: UpdateHost,
    ctrl: CtrlReq,
    result: Result<DfuStep, IoError>,
)
    requires
        old(dfu).wf(),
        old(dfu).sink is Some,
        old(dfu).pending is None,
        ctrl.request_type == 0x21,
        ctrl.request == 1,
        call_ensures(
            Dfu::handle_event,
            (dfu, &host, DfuEvent::SetupOut { ctrl, has_data: true }),
            result,
        ),
    ensures
        final(dfu).state is Manifest || final(dfu).state is ManifestSync ==> (result matches Err(e)
            && e.kind == ErrorKind::Other && e.message@ == "manifestation in progress"@),
        !(final(dfu).state is Manifest) && !(final(dfu).state is ManifestSync) ==> result == Ok::<
            DfuStep,
            IoError,
        >(DfuStep::ReadBlock),
{
    let after = *final(dfu);
    let before = *old(dfu);
    let (mid, begun) = choose|mid: Dfu, begun: Result<(), IoError>|
        (#[trigger] mid.began_block(before, host, begun)) && match begun {
            Ok(_) => result == Ok::<DfuStep, IoError>(DfuStep::ReadBlock) && after == mid,
            Err(e) => match result {
                Ok(step) => step is Done && after.after_fault(mid, host.errnos, e, Ok(())),
                Err(r) => after.after_fault(mid, host.errnos, e, Err(r)),
            },
        };
}

} // verus!
