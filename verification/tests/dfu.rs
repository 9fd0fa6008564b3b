//! The DFU state machine, from the host's first request to the verdict.

use bytes::{Bytes, BytesMut};
use crc32fast::Hasher;
use std::sync::{Arc, Mutex};
use summit_usbgadget::dfu::config::{DfuConfig, DfuFnConfig, UploadSource};
use summit_usbgadget::dfu::gadget::{build, build_dfu, reply_sent, DfuEvent, DfuStep};
use summit_usbgadget::dfu::handler::{
    flushable_len, has_valid_dfu_suffix, is_dfu_request, CtrlReq, Dfu, DFU_SUFFIX_LEN,
};
use summit_usbgadget::dfu::protocol::{
    State, Status, ABORT, CLRSTATUS, DNLOAD, GETSTATE, GETSTATUS, UPLOAD,
};
use summit_usbgadget::fault::{ErrorKind, IoError, TransportErrnos};
use summit_usbgadget::swupdate::{SwupdateConfig, SwupdateParams, UpdateHost};
use summit_usbgadget::sysinfo::{BaseSystemInfo, BootRootfsInfo};
use tokio::runtime::Runtime;

fn test_config() -> DfuConfig {
    DfuConfig {
        download: SwupdateParams::default(),
        upload: None,
        transfer_size: 4096,
        poll_timeout_ms: 10,
    }
}

fn host() -> UpdateHost {
    UpdateHost {
        restart_pending: false,
        boot: BootRootfsInfo {
            root_dev_type: "emmc".to_owned(),
            current_side: "a".to_owned(),
            hw_part_number: None,
        },
        errnos: TransportErrnos::native(),
    }
}

fn out_req(request: u8) -> CtrlReq {
    CtrlReq { request_type: 0x21, request, value: 0, index: 0, length: 0 }
}

fn in_req(request: u8, value: u16, length: u16) -> CtrlReq {
    CtrlReq { request_type: 0xa1, request, value, index: 0, length }
}

fn crc_of(data: &[u8]) -> u32 {
    let mut hasher = Hasher::new();
    hasher.update(data);
    hasher.finalize()
}

fn suffix_for(payload: &[u8]) -> [u8; 16] {
    let mut suffix = [0u8; DFU_SUFFIX_LEN];
    suffix[8..11].copy_from_slice(b"UFD");
    suffix[11] = DFU_SUFFIX_LEN as u8;
    let mut all = payload.to_vec();
    all.extend_from_slice(&suffix[..DFU_SUFFIX_LEN - 4]);
    let crc = !crc_of(&all);
    suffix[12..].copy_from_slice(&crc.to_le_bytes());
    suffix
}

#[test]
fn valid_dfu_suffix_is_recognized() {
    let payload = b"firmware";
    let suffix = suffix_for(payload);
    assert!(has_valid_dfu_suffix(crc_of(payload), &suffix));
}

#[test]
fn non_suffix_tail_is_not_stripped() {
    let mut tail = [0u8; DFU_SUFFIX_LEN];
    tail[8..11].copy_from_slice(b"BAD");
    tail[11] = DFU_SUFFIX_LEN as u8;
    assert!(!has_valid_dfu_suffix(crc_of(b"firmware"), &tail));
}

#[test]
fn bad_crc_invalidates_suffix() {
    let mut suffix = [0u8; DFU_SUFFIX_LEN];
    suffix[8..11].copy_from_slice(b"UFD");
    suffix[11] = DFU_SUFFIX_LEN as u8;
    suffix[12..].copy_from_slice(&0x1234_5678u32.to_le_bytes());
    assert!(!has_valid_dfu_suffix(crc_of(b"firmware"), &suffix));
}

#[test]
fn suffix_window_keeps_last_sixteen_bytes() {
    assert_eq!(flushable_len(DFU_SUFFIX_LEN - 1), None);
    assert_eq!(flushable_len(DFU_SUFFIX_LEN), None);
    assert_eq!(flushable_len(DFU_SUFFIX_LEN + 4), Some(4));
    assert_eq!(flushable_len(20), Some(20 - DFU_SUFFIX_LEN));
}

#[test]
fn get_status_reports_dnbusy_when_buffer_limit_is_reached() {
    let mut dfu = Dfu::new(test_config());
    dfu.sink = None;
    dfu.state = State::DnloadSync;
    dfu.status = Status::Okay;
    assert_eq!(dfu.get_status().as_slice()[4], State::DnloadIdle.code());
}

#[test]
fn get_status_reports_configured_poll_timeout_while_busy() {
    let mut dfu = Dfu::new(test_config());
    dfu.state = State::DnBusy;
    dfu.status = Status::Okay;

    let status = dfu.get_status();

    assert_eq!(status.as_slice()[1], 10);
    assert_eq!(status.as_slice()[2], 0);
    assert_eq!(status.as_slice()[3], 0);
}

#[test]
fn clrstatus_resets_stale_manifestation_state() {
    let mut dfu = Dfu::new(test_config());
    dfu.state = State::Error;
    dfu.status = Status::ErrVerify;

    dfu.handle_out(&host(), &out_req(CLRSTATUS)).expect("clrstatus should succeed");

    assert!(dfu.sink.is_some());
    assert_eq!(dfu.state, State::DfuIdle);
    assert_eq!(dfu.status, Status::Okay);
}

#[test]
fn initial_state_is_dfu_idle() {
    let dfu = Dfu::new(test_config());

    assert_eq!(dfu.state, State::DfuIdle);
    assert_eq!(dfu.status, Status::Okay);
}

fn download_only(target: &str, upload: Option<&str>) -> DfuFnConfig {
    DfuFnConfig {
        swupdate: SwupdateConfig {
            download: Some(target.to_string()),
            ..SwupdateConfig::default()
        },
        upload: upload.map(str::to_string),
        transfer_size: None,
        poll_timeout_ms: None,
    }
}

fn base() -> BaseSystemInfo {
    BaseSystemInfo {
        model: Some("board \"x\"".to_owned()),
        soc: Some("i.MX93".to_owned()),
        memory_mb: Some(2048),
    }
}

#[test]
fn unsupported_dfu_section_is_skipped() {
    let config = download_only("swupdate", Some("unsupported"));

    let result = build(&config, "serial", &base(), &host().boot);
    assert!(result.is_err());
}

#[test]
fn rejected_sections_say_why() {
    let upload = build(&download_only("swupdate", Some("file")), "s", &base(), &host().boot);
    assert_eq!(
        upload.unwrap_err().message(),
        "unsupported insecure upload target \"file\"; only \"sysinfo\" is allowed"
    );
    let download = build(&download_only("socket", None), "s", &base(), &host().boot);
    assert_eq!(
        download.unwrap_err().message(),
        "unsupported download target \"socket\"; expected \"swupdate\""
    );
}

#[test]
fn one_dfu_function_fills_the_slot() {
    let mut slot = None;
    let rejected = download_only("socket", None);
    assert_eq!(build_dfu(&rejected, "s", &base(), &host().boot, &mut slot), Ok(false));
    assert!(slot.is_none());
    let config = download_only("swupdate", Some("sysinfo"));
    assert_eq!(build_dfu(&config, "s", &base(), &host().boot, &mut slot), Ok(true));
    let runtime = slot.as_ref().unwrap();
    assert_eq!(runtime.config.transfer_size, 4096);
    assert_eq!(runtime.config.poll_timeout_ms, 10);
    assert!(runtime.descriptor.can_upload && runtime.descriptor.can_download);
    assert_eq!(
        build_dfu(&config, "s", &base(), &host().boot, &mut slot),
        Err("configuration declares more than one DFU function".to_owned())
    );
}

/// A stand-in for SWUpdate that collects what it is sent.
struct Daemon {
    runtime: Runtime,
    received: Arc<Mutex<Vec<u8>>>,
}

impl Daemon {
    fn new() -> Daemon {
        let runtime = tokio::runtime::Builder::new_current_thread().build().unwrap();
        Daemon { runtime, received: Arc::new(Mutex::new(Vec::new())) }
    }

    /// Runs the transfer that `dfu` has just opened, if it has.
    fn serve(&self, dfu: &mut Dfu, verdict: Result<(), &'static str>) {
        let sink = dfu.sink.as_mut().unwrap();
        let Some(mut launch) = sink.take_launch() else {
            return;
        };
        self.received.lock().unwrap().clear();
        let received = self.received.clone();
        let task = self.runtime.spawn(async move {
            while let Some(block) = launch.blocks.recv().await {
                received.lock().unwrap().extend_from_slice(&block);
                let _ = launch.recycle.try_send(block);
            }
            verdict.map_err(IoError::other)
        });
        assert!(sink.attach_status(task).is_none());
    }

    fn run(&self) {
        self.runtime.block_on(async {
            for _ in 0..16 {
                tokio::task::yield_now().await;
            }
        });
    }

    fn received(&self) -> Vec<u8> {
        self.received.lock().unwrap().clone()
    }
}

fn dnload(dfu: &mut Dfu, host: &UpdateHost, data: &[u8]) -> Result<(), IoError> {
    let ctrl = CtrlReq { length: data.len() as u16, ..out_req(DNLOAD) };
    match dfu.handle_event(host, DfuEvent::SetupOut { ctrl, has_data: !data.is_empty() })? {
        DfuStep::ReadBlock => dfu.block_read(host, Ok(data)),
        DfuStep::Complete(ctrl) => dfu.drained(host, &ctrl, Ok(())),
        _ => panic!("unexpected step"),
    }
}

fn ask(dfu: &mut Dfu, host: &UpdateHost, ctrl: CtrlReq) -> Vec<u8> {
    match dfu.handle_event(host, DfuEvent::SetupIn { ctrl }) {
        Ok(DfuStep::Reply(reply)) => reply.as_slice().to_vec(),
        _ => panic!("no reply"),
    }
}

fn status_of(dfu: &mut Dfu, host: &UpdateHost) -> (u8, u8) {
    let reply = ask(dfu, host, in_req(GETSTATUS, 0, 6));
    (reply[0], reply[4])
}

#[test]
fn a_host_that_goes_quiet_leaves_the_verdict_to_come() {
    let daemon = Daemon::new();
    let host = host();
    let mut dfu = Dfu::new(DfuConfig { transfer_size: 32, ..test_config() });
    dnload(&mut dfu, &host, b"abcdefghijklmnopqrstuvwxyz").unwrap();
    daemon.serve(&mut dfu, Ok(()));
    dfu.reset_on_idle_timeout();
    assert_eq!(dfu.state, State::DfuIdle);
    assert!(dfu.stopped.is_empty());
    assert!(!dfu.sink.as_ref().unwrap().is_open());
    let mut left = dfu.take_left().unwrap();
    assert!(left.tx.is_none() && left.is_open());
    assert!(left.try_finished().is_none());
    daemon.run();
    assert_eq!(daemon.received(), b"abcdefghij");
    assert!(left.try_finished().unwrap().is_ok());
    assert!(dfu.take_left().is_none());
}

#[test]
fn a_download_reaches_swupdate_and_ends_idle() {
    let daemon = Daemon::new();
    let host = host();
    let mut dfu = Dfu::new(DfuConfig { transfer_size: 32, ..test_config() });
    let payload = b"abcdefghijklmnopqrstuvwxyz0123456789";

    dnload(&mut dfu, &host, &payload[..30]).unwrap();
    daemon.serve(&mut dfu, Ok(()));
    let (status, state) = status_of(&mut dfu, &host);
    assert_eq!(status, Status::Okay.code());
    assert_eq!(state, State::DnloadIdle.code());
    dnload(&mut dfu, &host, &payload[30..]).unwrap();
    let _ = status_of(&mut dfu, &host);
    dnload(&mut dfu, &host, &[]).unwrap();
    assert!(dfu.is_finishing());
    let (_, state) = status_of(&mut dfu, &host);
    assert_eq!(state, State::Manifest.code());
    daemon.run();
    let (status, state) = status_of(&mut dfu, &host);
    assert_eq!(status, Status::Okay.code());
    assert_eq!(state, State::DfuIdle.code());
    assert_eq!(daemon.received(), payload);
    assert!(dfu.restart_due);
}

#[test]
fn a_short_download_is_passed_on_at_the_end() {
    let daemon = Daemon::new();
    let host = host();
    let mut dfu = Dfu::new(test_config());
    dnload(&mut dfu, &host, b"abcde").unwrap();
    let _ = status_of(&mut dfu, &host);
    dnload(&mut dfu, &host, b"123").unwrap();
    let _ = status_of(&mut dfu, &host);
    dnload(&mut dfu, &host, &[]).unwrap();
    daemon.serve(&mut dfu, Ok(()));
    let _ = status_of(&mut dfu, &host);
    daemon.run();
    assert_eq!(status_of(&mut dfu, &host), (Status::Okay.code(), State::DfuIdle.code()));
    assert_eq!(daemon.received(), b"abcde123");
}

#[test]
fn a_valid_suffix_does_not_reach_swupdate() {
    let daemon = Daemon::new();
    let host = host();
    let mut dfu = Dfu::new(test_config());
    let payload = b"firmware that is long enough";
    let mut file = payload.to_vec();
    file.extend_from_slice(&suffix_for(payload));
    dnload(&mut dfu, &host, &file).unwrap();
    daemon.serve(&mut dfu, Ok(()));
    let _ = status_of(&mut dfu, &host);
    dnload(&mut dfu, &host, &[]).unwrap();
    daemon.run();
    assert_eq!(status_of(&mut dfu, &host), (Status::Okay.code(), State::DfuIdle.code()));
    assert_eq!(daemon.received(), payload);
}

#[test]
fn a_refused_image_is_reported() {
    let daemon = Daemon::new();
    let host = host();
    let mut dfu = Dfu::new(test_config());
    dnload(&mut dfu, &host, &[7u8; 100]).unwrap();
    daemon.serve(&mut dfu, Err("bad image"));
    let _ = status_of(&mut dfu, &host);
    dnload(&mut dfu, &host, &[]).unwrap();
    daemon.run();
    let (status, state) = status_of(&mut dfu, &host);
    assert_ne!(status, Status::Okay.code());
    assert_eq!(state, State::Error.code());
    assert!(!dfu.restart_due);
    dfu.drained(&host, &out_req(CLRSTATUS), Ok(())).unwrap();
    assert_eq!(status_of(&mut dfu, &host), (Status::Okay.code(), State::DfuIdle.code()));
}

#[test]
fn an_aborted_download_can_be_started_again() {
    let daemon = Daemon::new();
    let host = host();
    let mut dfu = Dfu::new(test_config());
    dnload(&mut dfu, &host, b"abort-me, this is more than a suffix").unwrap();
    daemon.serve(&mut dfu, Ok(()));
    let _ = status_of(&mut dfu, &host);
    dfu.drained(&host, &out_req(ABORT), Ok(())).unwrap();
    assert_eq!(ask(&mut dfu, &host, in_req(GETSTATE, 0, 1)), vec![State::DfuIdle.code()]);
    assert_eq!(status_of(&mut dfu, &host), (Status::Okay.code(), State::DfuIdle.code()));
    assert_eq!(dfu.stopped.len(), 1);

    dnload(&mut dfu, &host, b"ok").unwrap();
    let _ = status_of(&mut dfu, &host);
    dnload(&mut dfu, &host, &[]).unwrap();
    daemon.serve(&mut dfu, Ok(()));
    let _ = status_of(&mut dfu, &host);
    daemon.run();
    assert_eq!(status_of(&mut dfu, &host), (Status::Okay.code(), State::DfuIdle.code()));
    assert_eq!(daemon.received(), b"ok");
}

#[test]
fn a_full_queue_is_reported_as_busy() {
    let host = host();
    let mut dfu = Dfu::new(DfuConfig { transfer_size: 4096, ..test_config() });
    let block = vec![1u8; 4096];
    let mut busy = None;
    for n in 0..600 {
        dnload(&mut dfu, &host, &block).unwrap();
        let (_, state) = status_of(&mut dfu, &host);
        if state == State::DnBusy.code() {
            busy = Some(n);
            break;
        }
    }
    // The queue holds two mebibytes of blocks; the one after that waits.
    assert_eq!(busy, Some(512));
    assert!(dfu.pending.is_some());
    let mut launch = dfu.sink.as_mut().unwrap().take_launch().unwrap();
    assert_eq!(launch.blocks.try_recv().unwrap().len(), 4096 - 16);
    let (_, state) = status_of(&mut dfu, &host);
    assert_eq!(state, State::DnloadIdle.code());
    assert!(dfu.pending.is_none());
}

#[test]
fn no_update_is_opened_while_a_restart_is_due() {
    let mut waiting = host();
    waiting.restart_pending = true;
    let mut dfu = Dfu::new(test_config());
    let err = dnload(&mut dfu, &waiting, &[1u8; 64]).unwrap_err();
    assert_eq!(
        err.message,
        "restart pending after successful SWUpdate; rejecting new update"
    );
}

#[test]
fn an_upload_comes_back_in_blocks() {
    let config = download_only("swupdate", Some("sysinfo"));
    let runtime = build(&config, "0123", &base(), &host().boot).unwrap();
    let expected = b"{\"model\":\"board \\\"x\\\"\",\"serial\":\"0123\",\"soc\":\"i.MX93\",\"memory_mb\":2048,\"hw_part_number\":\"\"}";
    let mut dfu = Dfu::new(DfuConfig { transfer_size: 32, ..runtime.config });
    let host = host();
    let mut uploaded = Vec::new();
    let mut block = 0u16;
    loop {
        let part = ask(&mut dfu, &host, in_req(UPLOAD, block, 32));
        uploaded.extend_from_slice(&part);
        if part.len() < 32 {
            break;
        }
        assert_eq!(ask(&mut dfu, &host, in_req(GETSTATE, 0, 1)), vec![State::UploadIdle.code()]);
        block += 1;
    }
    assert_eq!(uploaded, expected);
    assert_eq!(ask(&mut dfu, &host, in_req(GETSTATE, 0, 1)), vec![State::DfuIdle.code()]);
}

#[test]
fn an_upload_without_a_source_is_refused() {
    let mut dfu = Dfu::new(test_config());
    let err = dfu.upload_block(&in_req(UPLOAD, 0, 32)).err().unwrap();
    assert_eq!(err.kind, ErrorKind::NotFound);
    let data = UploadSource::Data(Bytes::from_static(b"xyz"));
    let mut dfu = Dfu::new(DfuConfig { upload: Some(data), ..test_config() });
    let reply = dfu.upload_block(&in_req(UPLOAD, 0, 32)).ok().unwrap();
    assert_eq!(reply.as_slice(), b"xyz");
}

#[test]
fn a_host_that_goes_away_resets_the_machine() {
    let host = host();
    let mut dfu = Dfu::new(test_config());
    assert!(dfu.dfu_idle_timeout().is_none());
    dnload(&mut dfu, &host, &[1u8; 64]).unwrap();
    assert_eq!(dfu.dfu_idle_timeout().unwrap().as_millis() % 20, 0);
    assert!(matches!(dfu.handle_event(&host, DfuEvent::Disable), Ok(DfuStep::Done)));
    assert_eq!(dfu.state, State::DfuIdle);
    assert!(dfu.download_tail.is_empty());
}

#[test]
fn requests_for_others_are_left_alone() {
    let host = host();
    let mut dfu = Dfu::new(test_config());
    let vendor = CtrlReq { request_type: 0x40, ..out_req(DNLOAD) };
    assert!(!is_dfu_request(&vendor));
    let event = DfuEvent::SetupOut { ctrl: vendor, has_data: true };
    assert!(matches!(dfu.handle_event(&host, event), Ok(DfuStep::Drain)));
    let vendor_in = CtrlReq { request_type: 0xc0, ..in_req(GETSTATUS, 0, 6) };
    let event = DfuEvent::SetupIn { ctrl: vendor_in };
    assert!(matches!(dfu.handle_event(&host, event), Ok(DfuStep::ReplyNothing)));
}

#[test]
fn a_closed_transport_is_no_failure_of_a_reply() {
    let errnos = TransportErrnos::native();
    assert!(reply_sent(Err(IoError::new(ErrorKind::NotConnected, "gone")), &errnos).is_ok());
    assert!(reply_sent(Err(IoError::other("odd")), &errnos).is_err());
    assert!(reply_sent(Ok(()), &errnos).is_ok());
}

#[test]
fn recycled_buffers_come_back_empty() {
    let mut dfu = Dfu::new(test_config());
    let sink = dfu.sink.as_mut().unwrap();
    sink.open(&host()).unwrap();
    let launch = sink.take_launch().unwrap();
    let mut used = BytesMut::with_capacity(64);
    used.extend_from_slice(b"used");
    launch.recycle.try_send(used).unwrap();
    let buf = sink.buffer(128);
    assert!(buf.is_empty());
    assert!(buf.capacity() >= 128);
}
