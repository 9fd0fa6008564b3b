//! Frames and exchanges of the SWUpdate IPC interface.

use summit_usbgadget::fault::{ErrorKind, IoError, TransportErrnos};
use summit_usbgadget::swupdate::ipc::{begin, normalize_ipc_error, start_failed};
use summit_usbgadget::swupdate::SwupdateParams;
use summit_usbgadget::swupdate_ipc::client::{
    self, AsyncOutcome, ConnectStep, InstallEvent, InstallStage, ProgressEvent, ProgressStep,
    StatusObservation, StreamEvent, StreamStep, WaitStep,
};
use summit_usbgadget::swupdate_ipc::codec::{
    InstallMode, InstallRequest, InstallSource, InstallStatus,
};
use summit_usbgadget::swupdate_ipc::error::Error;
use summit_usbgadget::swupdate_ipc::proto::{
    self, decode_recovery_status, read_c_string, write_c_string, IpcMessage, MsgType,
    ProgressConnectAck, ProgressLayout, ProgressMsg, RecoveryStatus, SwupdateRequest, IPC_MAGIC,
    PROGRESS_API_VERSION, REQUEST_INFO_AT,
};
use summit_usbgadget::swupdate_ipc::socket::{ctrl_socket_path, progress_socket_path};

#[test]
fn ipc_message_new_stamps_magic_and_type() {
    let msg = IpcMessage::new(MsgType::GET_STATUS);
    assert_eq!(msg.magic, IPC_MAGIC as i32);
    assert_eq!(msg.type_, MsgType::GET_STATUS.code());
    assert!(msg.has_type(MsgType::GET_STATUS));
    assert!(!msg.has_type(MsgType::ACK));
    assert_eq!(msg.as_bytes().len(), proto::IPC_MESSAGE_LEN);
}

#[test]
fn ipc_message_safe_payload_helpers_fill_generated_union_members() {
    let mut install = IpcMessage::new(MsgType::REQ_INSTALL);
    let mut request = SwupdateRequest::prepare();
    request.set_software_set("stable").unwrap();
    install.set_install_request(request);

    let mut postupdate = IpcMessage::new(MsgType::POST_UPDATE);
    postupdate.set_postupdate_info(b"reboot");

    let mut aes = IpcMessage::new(MsgType::SET_AES_KEY);
    aes.set_aes_key("a", "b").unwrap();

    let mut versions = IpcMessage::new(MsgType::SET_VERSIONS_RANGE);
    versions
        .set_version_range(Some("1.0"), Some("2.0"), Some("1.5"))
        .unwrap();

    assert_eq!(read_c_string(&install.data[REQUEST_INFO_AT + 512..REQUEST_INFO_AT + 768]), "stable");
    assert_eq!(postupdate.data[12..16], 6u32.to_le_bytes());
    assert_eq!(&postupdate.data[16..22], b"reboot");
    assert_eq!(read_c_string(&aes.data[0..65]), "a");
    assert_eq!(read_c_string(&aes.data[65..98]), "b");
    assert_eq!(read_c_string(&versions.data[256..512]), "2.0");
}

fn status_reply(current: RecoveryStatus, last_result: RecoveryStatus, text: &str) -> IpcMessage {
    let mut message = IpcMessage::zeroed();
    message.data[0..4].copy_from_slice(&current.code().to_le_bytes());
    message.data[4..8].copy_from_slice(&last_result.code().to_le_bytes());
    let mut desc = vec![0u8; 2048];
    write_c_string(&mut desc, text).unwrap();
    message.data[12..2060].copy_from_slice(&desc);
    message
}

#[test]
fn native_install_request_encodes_and_status_decodes() {
    let request = InstallRequest {
        software_set: "stable".to_owned(),
        running_mode: "full-b".to_owned(),
        source: InstallSource::Local,
        mode: InstallMode::Install,
        disable_store_swu: true,
    };
    let message = request.encode().unwrap();
    assert!(message.has_type(MsgType::REQ_INSTALL));
    assert_eq!(
        message.data[4..8],
        proto::SourceType::SOURCE_LOCAL.code().to_le_bytes()
    );
    assert_eq!(
        message.data[8..12],
        proto::RunType::RUN_INSTALL.code().to_le_bytes()
    );
    assert_eq!(message.data[REQUEST_INFO_AT + 1024], 1);
    assert_eq!(read_c_string(&message.data[REQUEST_INFO_AT + 512..REQUEST_INFO_AT + 768]), "stable");
    assert_eq!(read_c_string(&message.data[REQUEST_INFO_AT + 768..REQUEST_INFO_AT + 1024]), "full-b");

    let status_message = status_reply(RecoveryStatus::RUN, RecoveryStatus::SUCCESS, "complete");
    let status = InstallStatus::decode(&status_message);
    assert_eq!(status.current, Some(RecoveryStatus::RUN));
    assert_eq!(status.last_result, Some(RecoveryStatus::SUCCESS));
    assert_eq!(status.description, "complete");
}

#[test]
fn prepared_request_has_default_fields() {
    let req = SwupdateRequest::prepare();
    assert_eq!(req.apiversion, proto::SWUPDATE_API_VERSION);
    assert_eq!(req.dry_run, proto::RunType::RUN_DEFAULT);
    assert_eq!(req.source, proto::SourceType::SOURCE_UNKNOWN);
    assert!(req.info.iter().all(|&c| c == 0));
}

#[test]
fn c_string_round_trips_and_rejects_overflow() {
    let mut buf = vec![0u8; 8];
    write_c_string(&mut buf, "hello").unwrap();
    assert_eq!(read_c_string(&buf), "hello");
    assert!(write_c_string(&mut buf, "0123456789").is_err());
    assert_eq!(read_c_string(&buf), "hello");
}

#[test]
fn c_string_of_invalid_bytes_is_replaced() {
    assert_eq!(read_c_string(&[0x61, 0xff, 0x62, 0]), "a\u{fffd}b");
}

#[test]
fn request_setters_write_running_mode_and_software_set() {
    let mut req = SwupdateRequest::prepare();
    req.set_software_set("stable").unwrap();
    req.set_running_mode("full-b").unwrap();
    assert_eq!(read_c_string(&req.software_set), "stable");
    assert_eq!(read_c_string(&req.running_mode), "full-b");
}

#[test]
fn decode_recovery_status_round_trips() {
    for status in [
        RecoveryStatus::IDLE,
        RecoveryStatus::START,
        RecoveryStatus::RUN,
        RecoveryStatus::SUCCESS,
        RecoveryStatus::FAILURE,
        RecoveryStatus::DOWNLOAD,
        RecoveryStatus::DONE,
        RecoveryStatus::SUBPROCESS,
        RecoveryStatus::PROGRESS,
    ] {
        assert_eq!(decode_recovery_status(status as u32), Ok(status));
        assert_eq!(decode_recovery_status(status.code()), Ok(status));
    }
    assert_eq!(decode_recovery_status(99), Err(99));
    assert!(RecoveryStatus::SUCCESS.is_terminal());
    assert!(RecoveryStatus::FAILURE.is_terminal());
    assert!(!RecoveryStatus::RUN.is_terminal());
}

#[test]
fn terminal_status_identification_is_stable() {
    assert!(RecoveryStatus::SUCCESS.is_terminal());
    assert!(RecoveryStatus::FAILURE.is_terminal());
    assert!(!RecoveryStatus::IDLE.is_terminal());
}

fn progress_frame(status: RecoveryStatus) -> ProgressMsg {
    let mut msg = ProgressMsg::zeroed();
    msg.status = status.code();
    msg
}

#[test]
fn progress_msg_accessors_decode_fields() {
    let mut msg = ProgressMsg::zeroed();
    msg.apiversion = PROGRESS_API_VERSION;
    msg.status = RecoveryStatus::RUN as u32;
    write_c_string(&mut msg.cur_image, "rootfs.ext4").unwrap();
    write_c_string(&mut msg.hnd_name, "raw_handler").unwrap();
    let info = b"installing";
    for (slot, &byte) in msg.info.iter_mut().zip(info.iter()) {
        *slot = byte;
    }
    msg.infolen = info.len() as u32;
    msg.cur_step = 2;
    msg.nsteps = 3;
    msg.cur_percent = 50;

    assert_eq!(msg.status(), Ok(RecoveryStatus::RUN));
    assert_eq!(msg.current_step(), 2);
    assert_eq!(msg.total_steps(), 3);
    assert_eq!(msg.current_percent(), 50);
    assert_eq!(msg.cur_image(), "rootfs.ext4");
    assert_eq!(msg.hnd_name(), "raw_handler");
    assert_eq!(msg.info(), "installing");
    assert_eq!(msg.overall_percent(), 50);
}

#[test]
fn progress_connect_ack_validates_version_and_magic() {
    let mut ack = ProgressConnectAck::zeroed();
    ack.apiversion = PROGRESS_API_VERSION;
    ack.magic[0] = b'A';
    ack.magic[1] = b'C';
    ack.magic[2] = b'K';
    assert!(ack.is_major_compatible());
    assert!(ack.has_valid_magic());
    assert!(client::check_progress_ack(&ack).is_ok());

    ack.apiversion = 0x0001_0000; // major version 1
    assert!(!ack.is_major_compatible());
    assert!(matches!(
        client::check_progress_ack(&ack),
        Err(Error::IncompatibleProgressVersion(0x0001_0000))
    ));

    ack.magic[2] = b'X';
    assert!(!ack.has_valid_magic());
    ack.apiversion = PROGRESS_API_VERSION;
    assert!(matches!(
        client::check_progress_ack(&ack),
        Err(Error::InvalidProgressAck)
    ));
}

#[test]
fn fixed_sizes_match_c_abi() {
    assert_eq!(ProgressLayout::Packed.frame_len(), 2408);
    assert_eq!(ProgressLayout::Unpacked.frame_len(), 2416);
    assert_eq!(proto::PROGRESS_CONNECT_ACK_LEN, 8);
    if usize::BITS == 64 {
        assert_eq!(SwupdateRequest::prepare().to_bytes().len(), 1056);
        assert_eq!(IpcMessage::zeroed().as_bytes().len(), 3120);
    } else {
        assert_eq!(SwupdateRequest::prepare().to_bytes().len(), 1044);
        assert_eq!(IpcMessage::zeroed().as_bytes().len(), 3104);
    }
}

#[test]
fn progress_frames_are_read_with_and_without_padding() {
    assert_eq!(ProgressLayout::from_name("packed"), Some(ProgressLayout::Packed));
    assert_eq!(ProgressLayout::from_name("unpacked"), Some(ProgressLayout::Unpacked));
    assert_eq!(ProgressLayout::from_name("Packed"), None);
    for layout in [ProgressLayout::Packed, ProgressLayout::Unpacked] {
        let pad = if layout == ProgressLayout::Packed { 0 } else { 4 };
        let mut bytes = vec![0u8; layout.frame_len()];
        bytes[4] = 2;
        bytes[8] = 7;
        bytes[12 + pad..20 + pad].copy_from_slice(&0x0102_0304_0506_0708u64.to_le_bytes());
        bytes[20 + pad] = 3;
        bytes[24 + pad] = 1;
        bytes[28 + pad] = 50;
        bytes[32 + pad..38 + pad].copy_from_slice(b"rootfs");
        bytes[288 + pad..291 + pad].copy_from_slice(b"raw");
        bytes[352 + pad] = 4;
        bytes[356 + pad] = 5;
        bytes[360 + pad..365 + pad].copy_from_slice(b"hello");
        let msg = ProgressMsg::from_bytes(&bytes, layout);
        assert_eq!(msg.status(), Ok(RecoveryStatus::RUN));
        assert_eq!(msg.dwl_percent, 7);
        assert_eq!(msg.dwl_bytes, 0x0102_0304_0506_0708);
        assert_eq!((msg.total_steps(), msg.current_step(), msg.current_percent()), (3, 1, 50));
        assert_eq!(msg.cur_image(), "rootfs");
        assert_eq!(msg.hnd_name(), "raw");
        assert_eq!(msg.source, 4);
        assert_eq!(msg.info(), "hello");
    }
}

#[test]
fn socket_paths_honor_environment_precedence() {
    assert_eq!(ctrl_socket_path(None, None, None), b"/tmp/sockinstctrl");
    assert_eq!(progress_socket_path(None, None, None), b"/tmp/swupdateprog");

    assert_eq!(
        ctrl_socket_path(None, None, Some(b"/run/tmpdir")),
        b"/run/tmpdir/sockinstctrl"
    );

    assert_eq!(
        progress_socket_path(None, Some(b"/run/swupdate"), Some(b"/run/tmpdir")),
        b"/run/swupdate/swupdateprog"
    );
}

#[test]
fn socket_paths_skip_empty_settings() {
    assert_eq!(
        ctrl_socket_path(Some(b"/var/ctrl"), Some(b"/run/swupdate"), None),
        b"/var/ctrl"
    );
    assert_eq!(
        ctrl_socket_path(Some(b""), Some(b""), Some(b"/t/")),
        b"/t/sockinstctrl"
    );
}

#[test]
fn frames_survive_the_wire() {
    let mut message = client::set_version_range(Some("1.0"), None, Some("1.5")).unwrap();
    client::send_cmd(&mut message);
    let back = IpcMessage::from_bytes(&message.as_bytes());
    assert_eq!(back.magic, IPC_MAGIC);
    assert_eq!(back.type_, message.type_);
    assert_eq!(back.data, message.data);
    assert_eq!(read_c_string(&back.data[512..768]), "1.5");
}

#[test]
fn requests_have_their_types() {
    assert!(client::inst_start().has_type(MsgType::REQ_INSTALL));
    assert!(client::get_status().has_type(MsgType::GET_STATUS));
    assert!(client::notify_connect().has_type(MsgType::NOTIFY_STREAM));
    assert!(client::postupdate(b"x").has_type(MsgType::POST_UPDATE));
    assert!(client::sysrestart().has_type(MsgType::SYSRESTART));
    let key = "0".repeat(64);
    let ivt = "1".repeat(32);
    assert!(client::set_aes(&key, &ivt).unwrap().has_type(MsgType::SET_AES_KEY));
    assert!(matches!(
        client::set_aes("short", &ivt),
        Err(Error::InvalidArgument("AES key must be 64 chars and IV 32 chars"))
    ));
}

#[test]
fn a_refused_install_is_a_nack() {
    assert!(client::check_install_reply(&IpcMessage::new(MsgType::ACK)).is_ok());
    assert!(matches!(
        client::check_install_reply(&IpcMessage::new(MsgType::NACK)),
        Err(Error::Nack)
    ));
    let nack = IpcMessage::new(MsgType::NACK);
    assert!(matches!(
        client::check_notify_reply(&nack),
        Err(Error::UnexpectedType(n)) if n == MsgType::NACK.code()
    ));
    let mut odd = IpcMessage::zeroed();
    odd.magic = 7;
    assert!(matches!(
        client::check_notification(odd),
        Err(Error::InvalidMagic(7))
    ));
}

#[test]
fn blocking_wait_takes_the_result_of_a_resting_installer() {
    let seen = |current, last| {
        StatusObservation::Reply(status_reply(current, last, ""))
    };
    assert!(matches!(
        client::await_install_result(seen(RecoveryStatus::IDLE, RecoveryStatus::SUCCESS)),
        WaitStep::Done(Ok(()))
    ));
    assert!(matches!(
        client::await_install_result(seen(RecoveryStatus::IDLE, RecoveryStatus::FAILURE)),
        WaitStep::Done(Err(Error::InstallFailed))
    ));
    assert!(!matches!(
        client::await_install_result(seen(RecoveryStatus::RUN, RecoveryStatus::SUCCESS)),
        WaitStep::Done(_)
    ));
}

#[test]
fn asynchronous_wait_trusts_success_only_while_running() {
    let seen = |current, last| {
        StatusObservation::Reply(status_reply(current, last, ""))
    };
    assert!(matches!(
        client::await_install_result_async(seen(RecoveryStatus::RUN, RecoveryStatus::SUCCESS)),
        WaitStep::Done(Ok(()))
    ));
    assert!(!matches!(
        client::await_install_result_async(seen(RecoveryStatus::IDLE, RecoveryStatus::SUCCESS)),
        WaitStep::Done(_)
    ));
    assert!(matches!(
        client::await_install_result_async(seen(RecoveryStatus::IDLE, RecoveryStatus::FAILURE)),
        WaitStep::Done(Err(Error::InstallFailed))
    ));
}

#[test]
fn the_poll_interval_ends_at_the_deadline() {
    assert!(matches!(client::next_poll(0, 1000), Ok(250)));
    assert!(matches!(client::next_poll(900, 1000), Ok(100)));
    assert!(matches!(client::next_poll(1000, 1000), Err(Error::Timeout)));
}

#[test]
fn a_failed_connect_is_retried_until_the_deadline() {
    let fault = || IoError::new(ErrorKind::NotFound, "no socket");
    assert!(matches!(
        client::progress_connect_failed(fault(), true, 10, 20),
        ConnectStep::Retry
    ));
    assert!(matches!(
        client::progress_connect_failed(fault(), true, 20, 20),
        ConnectStep::GiveUp(Error::ProgressConnectTimeout)
    ));
    assert!(matches!(
        client::progress_connect_failed(fault(), false, 10, 20),
        ConnectStep::GiveUp(Error::Io(_))
    ));
}

#[test]
fn an_install_in_the_background_ends_on_a_terminal_frame() {
    let mut stage = InstallStage::Connect;
    for event in [
        InstallEvent::Connected(true),
        InstallEvent::Chunk(Some(3)),
        InstallEvent::Sent(true),
        InstallEvent::NoFrame,
        InstallEvent::Chunk(None),
        InstallEvent::Frame(progress_frame(RecoveryStatus::RUN)),
        InstallEvent::Frame(progress_frame(RecoveryStatus::SUCCESS)),
    ] {
        stage = client::run_async_install(stage, event);
    }
    assert_eq!(stage, InstallStage::Done(AsyncOutcome::Success));
    stage = client::run_async_install(stage, InstallEvent::ReadFailed);
    assert_eq!(stage, InstallStage::Done(AsyncOutcome::Success));
}

#[test]
fn the_progress_interface_gives_the_verdict() {
    let frame = |status| ProgressEvent::Frame(progress_frame(status));
    assert!(matches!(
        client::await_progress_result(frame(RecoveryStatus::RUN)),
        ProgressStep::Next
    ));
    assert!(matches!(
        client::await_progress_result(frame(RecoveryStatus::SUCCESS)),
        ProgressStep::Done(Ok(()))
    ));
    assert!(matches!(
        client::await_progress_result(frame(RecoveryStatus::FAILURE)),
        ProgressStep::Done(Err(Error::InstallFailed))
    ));
    assert!(matches!(
        client::await_progress_result(ProgressEvent::Deadline),
        ProgressStep::Done(Err(Error::Timeout))
    ));
    assert!(matches!(
        client::await_progress_result(ProgressEvent::Ended),
        ProgressStep::Done(Err(Error::Closed))
    ));
}

#[test]
fn a_lost_progress_stream_reconnects() {
    assert_eq!(
        client::progress_stream(StreamEvent::Asked { connected: false }),
        StreamStep::Connect
    );
    assert_eq!(
        client::progress_stream(StreamEvent::Received(false)),
        StreamStep::Connect
    );
    assert_eq!(
        client::progress_stream(StreamEvent::Connected(false)),
        StreamStep::End
    );
    assert_eq!(
        client::progress_stream(StreamEvent::Received(true)),
        StreamStep::Yield
    );
}

#[test]
fn read_faults_keep_their_meaning() {
    let eof = IoError::new(ErrorKind::UnexpectedEof, "eof");
    assert!(matches!(client::read_fault(eof), Error::Closed));
    let busy = IoError::new(ErrorKind::WouldBlock, "busy");
    assert!(client::poll_fault(busy).is_ok());
    let late = IoError::new(ErrorKind::TimedOut, "late");
    assert!(client::status_read_fault(late).is_ok());
    assert!(matches!(
        client::progress_ack_fault(None),
        Error::InvalidProgressAck
    ));
}

#[test]
fn an_asynchronous_wait_ends_with_its_first_decision() {
    let replies = [
        (0, RecoveryStatus::IDLE, RecoveryStatus::SUCCESS),
        (100, RecoveryStatus::START, RecoveryStatus::SUCCESS),
        (200, RecoveryStatus::RUN, RecoveryStatus::SUCCESS),
        (300, RecoveryStatus::RUN, RecoveryStatus::FAILURE),
    ];
    let wait = |deadline: u64, replies: &[(u64, RecoveryStatus, RecoveryStatus)]| {
        for (now, current, last_result) in replies {
            let limit = match client::next_async_poll(*now, deadline) {
                Ok(limit) => limit,
                Err(err) => return Some(Err(err)),
            };
            assert_eq!(limit, client::STATUS_POLL_INTERVAL_MS);
            let reply = status_reply(*current, *last_result, "");
            let seen = client::StatusObservation::Reply(reply);
            if let client::WaitStep::Done(result) = client::await_install_result_async(seen) {
                return Some(result);
            }
        }
        None
    };
    assert!(matches!(wait(1000, &replies), Some(Ok(()))));
    assert!(matches!(wait(200, &replies), Some(Err(Error::Timeout))));
    assert!(matches!(wait(1000, &replies[3..]), Some(Err(Error::InstallFailed))));
    assert!(wait(1000, &replies[..2]).is_none());
}

#[test]
fn status_frames_are_reported_until_the_installer_is_idle() {
    let step = client::unstack_status(
        None,
        &status_reply(RecoveryStatus::RUN, RecoveryStatus::IDLE, ""),
        0,
        100,
    );
    assert!(step.report && !step.stop);
    assert_eq!(step.previous, Some(RecoveryStatus::RUN.code()));
    let again = client::unstack_status(
        Some(RecoveryStatus::RUN.code()),
        &status_reply(RecoveryStatus::RUN, RecoveryStatus::IDLE, ""),
        0,
        100,
    );
    assert!(!again.report && !again.stop);
    let idle = client::unstack_status(
        Some(RecoveryStatus::RUN.code()),
        &status_reply(RecoveryStatus::IDLE, RecoveryStatus::SUCCESS, "done"),
        0,
        100,
    );
    assert!(idle.report && idle.stop);
}

#[test]
fn errors_describe_themselves() {
    assert_eq!(
        Error::InvalidMagic(-1).message(),
        "invalid SWUpdate IPC magic number: 0xffffffff"
    );
    assert_eq!(
        Error::IncompatibleProgressVersion(0x0001_0000).message(),
        "incompatible SWUpdate progress API version: 0x00010000"
    );
    assert_eq!(
        Error::UnexpectedType(-12).message(),
        "unexpected SWUpdate message type: -12"
    );
    assert_eq!(Error::Closed.message(), "SWUpdate closed the connection");
    assert_eq!(
        Error::Io(IoError::other("boom")).message(),
        "SWUpdate IPC I/O error: boom"
    );
}

#[test]
fn a_peer_that_is_gone_is_not_connected() {
    let errnos = TransportErrnos::native();
    let gone = IoError {
        kind: ErrorKind::Other,
        raw_os_error: Some(errnos.shutdown),
        message: "shut down".to_owned(),
    };
    let fault = normalize_ipc_error(Error::Io(gone), "wait", &errnos);
    assert_eq!(fault.kind, ErrorKind::NotConnected);
    assert_eq!(fault.message, "shut down");
    let closed = normalize_ipc_error(Error::Closed, "wait", &errnos);
    assert_eq!(closed.kind, ErrorKind::NotConnected);
    let failed = normalize_ipc_error(Error::InstallFailed, "wait", &errnos);
    assert_eq!(failed.kind, ErrorKind::Other);
    assert_eq!(
        failed.message,
        "SWUpdate wait failed: SWUpdate reported installation failure"
    );
    assert_eq!(
        start_failed(&Error::Nack).message,
        "SWUpdate inst_start failed: SWUpdate rejected the request (NACK)"
    );
}

#[test]
fn an_update_asks_for_the_stable_set_by_default() {
    let request = begin(&SwupdateParams::default(), "full-b");
    assert_eq!(request.software_set, "stable");
    assert_eq!(request.running_mode, "full-b");
    assert_eq!(request.mode, InstallMode::Install);
    assert_eq!(request.source, InstallSource::Local);
    assert!(request.disable_store_swu);
}
