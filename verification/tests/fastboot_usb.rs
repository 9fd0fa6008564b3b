//! The fastboot-usb function, from the host's commands to SWUpdate.

use bytes::BytesMut;
use std::sync::{Arc, Mutex};
use summit_usbgadget::fastboot_proto::DownloadKind;
use summit_usbgadget::fastboot_usb::gadget::{
    build, build_fastboot_usb, handle_event, ControlEvent, ControlStep, FastbootUsbFnConfig,
};
use summit_usbgadget::fastboot_usb::state::{
    stall_error, FastbootUsbState, RxStep, TransferPlan, UsbAction, RECV_BUFFER_SIZE,
};
use summit_usbgadget::fault::{ErrorKind, IoError, TransportErrnos};
use summit_usbgadget::fbk::{self, FbkFnConfig};
use summit_usbgadget::swupdate::{SwupdateConfig, SwupdateParams, UpdateHost};
use summit_usbgadget::sysinfo::runtime::Machine;
use summit_usbgadget::sysinfo::{BaseSystemInfo, BootRootfsInfo};
use summit_usbgadget::usb::functionfs::BulkFunction;
use tokio::runtime::Runtime;

fn host() -> UpdateHost {
    UpdateHost {
        restart_pending: false,
        boot: BootRootfsInfo {
            root_dev_type: "emmc".to_owned(),
            current_side: "b".to_owned(),
            hw_part_number: None,
        },
        errnos: TransportErrnos::native(),
    }
}

fn base() -> BaseSystemInfo {
    BaseSystemInfo { model: Some("m".to_owned()), soc: None, memory_mb: Some(1) }
}

fn machine() -> Machine {
    Machine { base: base(), fused_base: base(), macs: None }
}

fn state() -> FastbootUsbState {
    FastbootUsbState::new(
        BulkFunction::FastbootUsb,
        SwupdateParams::default(),
        "0001".to_owned(),
        512,
        RECV_BUFFER_SIZE,
    )
}

/// A USB host with SWUpdate behind the function.
struct Bench {
    runtime: Runtime,
    received: Arc<Mutex<Vec<u8>>>,
    state: FastbootUsbState,
    host: UpdateHost,
    machine: Machine,
    cancelled: usize,
    stopped: usize,
    verdict: Result<(), &'static str>,
}

impl Bench {
    fn new() -> Bench {
        let runtime = tokio::runtime::Builder::new_current_thread().build().unwrap();
        Bench {
            runtime,
            received: Arc::new(Mutex::new(Vec::new())),
            state: state(),
            host: host(),
            machine: machine(),
            cancelled: 0,
            stopped: 0,
            verdict: Ok(()),
        }
    }

    fn perform(&mut self, out: Vec<UsbAction>, replies: &mut Vec<Vec<u8>>) {
        for action in out {
            match action {
                UsbAction::Reply(data) => replies.push(data),
                UsbAction::Series(parts) => replies.extend(parts),
                UsbAction::CancelReceive => self.cancelled += 1,
                UsbAction::AwaitStopped(task) => {
                    assert!(self.runtime.block_on(task).is_err());
                    self.stopped += 1;
                }
            }
        }
        if let Some(download) = self.state.download.as_mut() {
            if let Some(mut launch) = download.take_launch() {
                let received = self.received.clone();
                let verdict = self.verdict;
                let task = self.runtime.spawn(async move {
                    while let Some(block) = launch.blocks.recv().await {
                        received.lock().unwrap().extend_from_slice(&block);
                    }
                    verdict.map_err(IoError::other)
                });
                assert!(download.attach_status(task).is_none());
            }
        }
    }

    /// Sends a packet and returns whether the session keeps serving, and the
    /// replies.
    fn packet(&mut self, data: &[u8]) -> (bool, Vec<Vec<u8>>) {
        let mut replies = Vec::new();
        let mut out = Vec::new();
        let chunk = BytesMut::from(data);
        let mut step =
            self.state.on_recv(Ok(Some(chunk)), &self.host, &self.machine, &mut out);
        loop {
            let actions = std::mem::take(&mut out);
            self.perform(actions, &mut replies);
            step = match step {
                RxStep::Done(keep) => return (keep, replies),
                RxStep::Blocked { block, trailing } => {
                    self.run();
                    self.state.route(block, trailing, &self.host, &mut out)
                }
                RxStep::SendHeader { len, kind, rest } => {
                    replies.push(format!("DATA{len:08X}").into_bytes());
                    self.state.header_sent(len, kind, rest, true, &self.host, &mut out)
                }
            };
        }
    }

    fn run(&self) {
        self.runtime.block_on(async {
            for _ in 0..16 {
                tokio::task::yield_now().await;
            }
        });
    }

    /// Waits for SWUpdate's verdict and returns the replies to it.
    fn finish(&mut self) -> Vec<Vec<u8>> {
        assert!(matches!(self.state.transfer_plan(), TransferPlan::Verdict));
        self.run();
        let verdict = self.state.download.as_mut().unwrap().try_finished().unwrap();
        let mut out = Vec::new();
        self.state.finish(&verdict, &mut out);
        let mut replies = Vec::new();
        self.perform(out, &mut replies);
        replies
    }

    fn received(&self) -> Vec<u8> {
        self.received.lock().unwrap().clone()
    }
}

#[test]
fn unsupported_fbk_section_is_skipped() {
    let config = FastbootUsbFnConfig {
        swupdate: SwupdateConfig {
            download: Some("socket".to_string()),
            ..SwupdateConfig::default()
        },
    };

    let result = build(&config, "serial", 512);
    assert!(result.is_err());
}

#[test]
fn functions_are_built_once() {
    let mut slot = None;
    let config = FastbootUsbFnConfig::default();
    assert_eq!(build_fastboot_usb(&config, "s", 512, &mut slot), Ok(true));
    assert_eq!(
        build_fastboot_usb(&config, "s", 512, &mut slot),
        Err("configuration declares more than one fastboot-usb function".to_owned())
    );
    let state = slot.take().unwrap().into_state();
    assert_eq!(state.recv_size, 16 * 1024);

    let mut slot = None;
    let config = FbkFnConfig { swupdate: SwupdateConfig::default() };
    assert_eq!(fbk::build_fbk(&config, "s", &mut slot), Ok(true));
    assert_eq!(
        fbk::build_fbk(&config, "s", &mut slot),
        Err("configuration declares more than one FBK function".to_owned())
    );
    assert_eq!(slot.take().unwrap().into_state(512).recv_size, 128 * 1024);
}

#[test]
fn getvar_answers_from_the_device() {
    let mut bench = Bench::new();
    assert_eq!(bench.packet(b"getvar:serialno"), (true, vec![b"OKAY0001".to_vec()]));
    assert_eq!(bench.packet(b"getvar:version"), (true, vec![b"OKAY0.4".to_vec()]));
    assert_eq!(bench.packet(b"getvar:current-slot"), (true, vec![b"OKAYb".to_vec()]));
    assert_eq!(bench.packet(b"getvar:slot-num"), (true, vec![b"OKAY2".to_vec()]));
    assert_eq!(bench.packet(b"getvar:odd"), (true, vec![b"FAILunknown command".to_vec()]));
    assert_eq!(bench.packet(b"\0\r\n"), (true, vec![]));
    assert_eq!(bench.packet(b"reboot"), (true, vec![b"FAILunknown command".to_vec()]));
    assert_eq!(
        bench.packet(b"fetch:vendor"),
        (true, vec![b"FAILpartition does not exist".to_vec()])
    );
    assert_eq!(
        bench.packet(b"flash:vendor"),
        (true, vec![b"FAILpartition does not exist".to_vec()])
    );
}

#[test]
fn fetch_uploads_the_system_information() {
    let mut bench = Bench::new();
    let json = b"{\"model\":\"m\",\"serial\":\"0001\",\"soc\":\"\",\"memory_mb\":1,\"hw_part_number\":\"\"}";
    let (_, replies) = bench.packet(b"fetch:sysinfo.json");
    assert_eq!(replies[0], format!("DATA{:08X}", json.len()).into_bytes());
    assert_eq!(replies[1], json);
    assert_eq!(replies[2], b"OKAY");
    let empty = json.len() - 4;
    let (_, replies) = bench.packet(b"getvar:partition-size:sysinfo");
    assert_eq!(replies[0], format!("OKAY{empty:08X}").into_bytes());
}

#[test]
fn a_fastboot_download_is_flashed() {
    let mut bench = Bench::new();
    let (keep, replies) = bench.packet(b"download:%00000008ABCDEFGH");
    assert!(keep);
    assert_eq!(replies, vec![b"DATA00000008".to_vec(), b"OKAY".to_vec()]);
    let (_, replies) = bench.packet(b"flash:update");
    assert_eq!(replies, vec![b"INFOwaiting for SWUpdate".to_vec()]);
    assert_eq!(bench.finish(), vec![b"OKAY".to_vec()]);
    assert_eq!(bench.received(), b"ABCDEFGH");
    assert!(bench.state.restart_due);
    assert!(!bench.state.in_flight());
}

#[test]
fn an_fbk_session_is_closed() {
    let mut bench = Bench::new();
    assert_eq!(bench.packet(b"WOpen:update").1, vec![b"OKAY".to_vec()]);
    let (_, replies) = bench.packet(b"download:00000008ABCDEFGH");
    assert_eq!(replies, vec![b"DATA00000008".to_vec(), b"OKAY".to_vec()]);
    assert!(!bench.state.fastboot_pending_flash);
    assert_eq!(bench.packet(b"Close").1, Vec::<Vec<u8>>::new());
    assert_eq!(bench.finish(), vec![b"OKAY".to_vec()]);
    assert_eq!(bench.received(), b"ABCDEFGH");
}

#[test]
fn close_needs_a_session() {
    let mut bench = Bench::new();
    assert_eq!(bench.packet(b"Close").1, vec![b"FAILclose".to_vec()]);
    assert_eq!(bench.packet(b"WOpen:update").1, vec![b"OKAY".to_vec()]);
    assert_eq!(bench.packet(b"Close").1, Vec::<Vec<u8>>::new());
    assert_eq!(bench.finish(), vec![b"OKAY".to_vec()]);
    assert_eq!(bench.received(), b"");
}

#[test]
fn flash_needs_a_complete_download() {
    let mut bench = Bench::new();
    assert_eq!(bench.packet(b"flash:update").1, vec![b"FAILflash before download".to_vec()]);
    assert_eq!(bench.packet(b"download:00000000").1, vec![
        b"DATA00000000".to_vec(),
        b"OKAY".to_vec()
    ]);
    assert_eq!(bench.packet(b"flash:swu").1, vec![b"INFOwaiting for SWUpdate".to_vec()]);
}

#[test]
fn a_download_in_pieces_arrives_whole() {
    let mut bench = Bench::new();
    assert_eq!(bench.packet(b"download:%00000006").1, vec![b"DATA00000006".to_vec()]);
    assert!(bench.state.download_active());
    assert_eq!(bench.packet(b"ab"), (true, vec![]));
    assert_eq!(bench.packet(b"cd"), (true, vec![]));
    assert_eq!(bench.packet(b"ef"), (true, vec![b"OKAY".to_vec()]));
    assert!(!bench.state.download_active());
    bench.run();
    assert_eq!(bench.received(), b"abcdef");
}

#[test]
fn a_full_queue_hands_the_block_back() {
    let mut state = state();
    let host = host();
    let mut out = Vec::new();
    let mut download = BytesMut::new();
    download.extend_from_slice(b"download:%00400000");
    let step = state.on_recv(Ok(Some(download)), &host, &machine(), &mut out);
    let RxStep::SendHeader { len, kind, rest } = step else {
        panic!("no data phase");
    };
    assert_eq!((len, kind), (4 * 1024 * 1024, DownloadKind::Fastboot));
    assert!(matches!(
        state.header_sent(len, kind, rest, true, &host, &mut out),
        RxStep::Done(true)
    ));
    let mut sent = 0;
    let back = loop {
        let chunk = BytesMut::from(&vec![9u8; RECV_BUFFER_SIZE][..]);
        match state.on_recv(Ok(Some(chunk)), &host, &machine(), &mut out) {
            RxStep::Done(true) => sent += 1,
            RxStep::Blocked { block, trailing } => {
                assert!(trailing.is_none());
                break block;
            }
            _ => panic!("unexpected step"),
        }
    };
    // Two mebibytes of blocks fit.
    assert_eq!(sent, 128);
    assert_eq!(state.downloaded_size, 128 * RECV_BUFFER_SIZE);
    assert_eq!(&back[..], &vec![9u8; RECV_BUFFER_SIZE][..]);
    let mut launch = state.download.as_mut().unwrap().take_launch().unwrap();
    assert!(launch.blocks.try_recv().is_ok());
    assert!(matches!(state.route(back, None, &host, &mut out), RxStep::Done(true)));
    assert_eq!(state.downloaded_size, 129 * RECV_BUFFER_SIZE);
    assert!(out.is_empty());
}

#[test]
fn reads_end_at_the_end_of_the_download() {
    let mut state = state();
    assert_eq!(state.recv_capacity(), RECV_BUFFER_SIZE);
    state.download_size = 1000;
    assert_eq!(state.recv_capacity(), 1024);
    state.downloaded_size = 488;
    assert_eq!(state.recv_capacity(), 512);
    assert!(state.recv_buffer().capacity() >= 512);
    state.download_size = 1 << 20;
    assert_eq!(state.recv_capacity(), RECV_BUFFER_SIZE);
    state.connected(Some(1024));
    state.download_size = 489;
    assert_eq!(state.recv_capacity(), 1024);
    state.connected(None);
    assert_eq!(state.rx_max_packet_size, 512);
    state.connected(Some(0));
    assert_eq!(state.recv_capacity(), 1);
}

#[test]
fn a_stalled_download_fails() {
    let mut bench = Bench::new();
    bench.packet(b"download:%00000008");
    match bench.state.transfer_plan() {
        TransferPlan::Receive { limit } => assert_eq!(limit.unwrap().as_secs(), 5),
        TransferPlan::Verdict => panic!("no verdict yet"),
    }
    let mut out = Vec::new();
    let step = bench.state.on_recv(Err(stall_error()), &bench.host, &bench.machine, &mut out);
    assert!(matches!(step, RxStep::Done(false)));
    let mut replies = Vec::new();
    bench.perform(out, &mut replies);
    assert_eq!(replies, vec![b"FAILbad size".to_vec()]);
    assert_eq!((bench.cancelled, bench.stopped), (1, 1));
    assert!(!bench.state.in_flight() && !bench.state.gadget_torn_down);
}

#[test]
fn an_idle_host_may_be_silent() {
    let mut bench = Bench::new();
    let mut out = Vec::new();
    let step = bench.state.on_recv(Err(stall_error()), &bench.host, &bench.machine, &mut out);
    assert!(matches!(step, RxStep::Done(true)));
    let step = bench.state.on_recv(Ok(None), &bench.host, &bench.machine, &mut out);
    assert!(matches!(step, RxStep::Done(true)));
    assert!(out.is_empty());
}

#[test]
fn a_closed_endpoint_stays_closed() {
    let mut bench = Bench::new();
    let mut out = Vec::new();
    let gone = IoError::new(ErrorKind::NotConnected, "gone");
    let step = bench.state.on_recv(Err(gone), &bench.host, &bench.machine, &mut out);
    assert!(matches!(step, RxStep::Done(false)));
    assert!(bench.state.gadget_torn_down);
    bench.state.reset(None, &mut out);
    assert!(bench.state.gadget_torn_down);

    let mut state = state();
    state.submitted(&Err(IoError::other("odd")), &host());
    assert!(!state.gadget_torn_down);
    let shut = IoError {
        kind: ErrorKind::Other,
        raw_os_error: Some(host().errnos.shutdown),
        message: String::new(),
    };
    state.submitted(&Err(shut), &host());
    assert!(state.gadget_torn_down);
}

#[test]
fn a_read_interrupted_by_unbinding_closes_the_endpoint() {
    let mut bench = Bench::new();
    bench.packet(b"download:%00000008");
    let mut out = Vec::new();
    let interrupted = IoError::new(ErrorKind::Interrupted, "unbound");
    let step = bench.state.on_recv(Err(interrupted), &bench.host, &bench.machine, &mut out);
    assert!(matches!(step, RxStep::Done(false)));
    let mut replies = Vec::new();
    bench.perform(out, &mut replies);
    assert!(replies.is_empty());
    assert!(bench.state.gadget_torn_down && !bench.state.in_flight());

    let mut state = state();
    state.submitted(&Err(IoError::new(ErrorKind::Interrupted, "unbound")), &host());
    assert!(state.gadget_torn_down);
    let mut state = self::state();
    state.submitted(&Err(IoError::new(ErrorKind::BrokenPipe, "gone")), &host());
    assert!(state.gadget_torn_down);
}

#[test]
fn fbk_goes_by_fewer_faults() {
    let cfg = FbkFnConfig { swupdate: SwupdateConfig::default() };
    let state = || fbk::build(&cfg, "0001").unwrap().into_state(512);
    for kind in [ErrorKind::BrokenPipe, ErrorKind::Interrupted] {
        let mut state = state();
        state.submitted(&Err(IoError::new(kind, "odd")), &host());
        assert!(!state.gadget_torn_down);
        let mut out = Vec::new();
        let err = IoError::new(kind, "odd");
        let step = state.on_recv(Err(err), &host(), &machine(), &mut out);
        assert!(matches!(step, RxStep::Done(false)));
        assert!(!state.gadget_torn_down);
        assert!(matches!(out.last(), Some(UsbAction::Reply(data)) if data == b"FAILbad size"));
    }
    let mut state = state();
    state.submitted(&Err(IoError::new(ErrorKind::NotConnected, "gone")), &host());
    assert!(state.gadget_torn_down);
}

#[test]
fn a_failure_of_swupdate_ends_the_download() {
    let mut bench = Bench::new();
    bench.packet(b"download:%00000008");
    bench.packet(b"abcd");
    let mut out = Vec::new();
    assert!(!bench.state.fail_fast(&mut out));
    let session = bench.state.download.as_mut().unwrap();
    session.terminal = Some(Err("bad image".to_owned()));
    assert!(bench.state.fail_fast(&mut out));
    let mut replies = Vec::new();
    bench.perform(out, &mut replies);
    assert_eq!(replies, vec![b"FAILwrite failed".to_vec()]);
    assert_eq!(bench.cancelled, 1);
}

#[test]
fn a_bad_verdict_fails_the_flash() {
    let mut bench = Bench::new();
    bench.verdict = Err("bad image");
    bench.packet(b"download:%00000004abcd");
    bench.packet(b"flash:update");
    assert_eq!(bench.finish(), vec![b"FAILclose".to_vec()]);
    assert!(!bench.state.restart_due);
}

#[test]
fn nothing_is_opened_while_a_restart_is_due() {
    let mut bench = Bench::new();
    bench.host.restart_pending = true;
    assert_eq!(bench.packet(b"WOpen:update").1, vec![b"FAILopen failed".to_vec()]);
    assert_eq!(bench.packet(b"download:%00000004").1, vec![b"FAILopen failed".to_vec()]);
}

#[test]
fn a_header_that_cannot_be_sent_starts_over() {
    let mut state = state();
    let mut out = Vec::new();
    let host = host();
    let chunk = BytesMut::from(&b"download:%00000004abcd"[..]);
    let step = state.on_recv(Ok(Some(chunk)), &host, &machine(), &mut out);
    let RxStep::SendHeader { len, kind, rest } = step else {
        panic!("no data phase");
    };
    assert_eq!(&rest[..], b"abcd");
    let step = state.header_sent(len, kind, rest, false, &host, &mut out);
    assert!(matches!(step, RxStep::Done(true)));
    assert!(matches!(out[0], UsbAction::CancelReceive));
    assert!(!state.in_flight());
}

#[test]
fn a_disabled_function_stops_serving() {
    let mut state = state();
    let mut out = Vec::new();
    assert!(state.enabled_changed(Some(true), &mut out));
    assert!(out.is_empty());
    assert!(!state.enabled_changed(Some(false), &mut out));
    assert!(!state.enabled_changed(None, &mut out));
    assert_eq!(out.len(), 2);
    assert!(state.ready(true) && !state.ready(false));
}

#[test]
fn control_events_are_translated() {
    assert_eq!(handle_event(ControlEvent::Enable), ControlStep::Publish(true));
    assert_eq!(handle_event(ControlEvent::Disable), ControlStep::Publish(false));
    assert_eq!(handle_event(ControlEvent::SetupHostToDevice), ControlStep::Drain);
    assert_eq!(handle_event(ControlEvent::SetupDeviceToHost), ControlStep::ReplyNothing);
    assert_eq!(handle_event(ControlEvent::Other), ControlStep::Nothing);
}
