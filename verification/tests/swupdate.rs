//! Update settings and the transfer session.

use bytes::BytesMut;
use summit_usbgadget::fault::{ErrorKind, TransportErrnos};
use summit_usbgadget::queue::{QueueReply, StatusReport};
use summit_usbgadget::swupdate::pipe::{self, PipeExit};
use summit_usbgadget::swupdate::session::{queue_capacity, TransportPlan};
use summit_usbgadget::swupdate::{
    EffectiveUpdateType, Feed, SwupdateConfig, SwupdateConfigError, SwupdateParams,
    SwupdateSession, UpdateHost,
};
use summit_usbgadget::sysinfo::BootRootfsInfo;

#[test]
fn socket_download_target_is_rejected() {
    let config = SwupdateConfig {
        download: Some("socket".to_string()),
        ..SwupdateConfig::default()
    };

    let err = config
        .to_params()
        .expect_err("socket should not be accepted as a sink target");
    assert!(matches!(err, SwupdateConfigError::UnsupportedDownloadTarget(target) if target == "socket"));
}

fn host(root_dev_type: &str, side: &str) -> UpdateHost {
    UpdateHost {
        restart_pending: false,
        boot: BootRootfsInfo {
            root_dev_type: root_dev_type.to_owned(),
            current_side: side.to_owned(),
            hw_part_number: None,
        },
        errnos: TransportErrnos::native(),
    }
}

#[test]
fn settings_have_their_defaults() {
    let params = SwupdateConfig::default().to_params().unwrap();
    assert_eq!(params.software_set, None);
    assert!(!params.dry_run);
    assert!(params.disable_store_swu);
    assert_eq!(params.timeout.as_secs(), 120);
    assert_eq!(SwupdateParams::default().timeout.as_secs(), 120);
}

#[test]
fn the_inactive_slot_is_updated() {
    let params = SwupdateParams::default();
    let mode = |root: &str, side: &str, params: &SwupdateParams| {
        EffectiveUpdateType::resolve(params, &host(root, side).boot).mode_text()
    };
    assert_eq!(mode("emmc", "a", &params), "full-b");
    assert_eq!(mode("emmc", "b", &params), "full-a");
    assert_eq!(mode("emmc", "", &params), "full-b");
    assert_eq!(mode("SD", "a", &params), "complete");
    assert_eq!(mode("initramfs", "", &params), "complete");
    let delta = SwupdateParams { image_mode: Some("delta".to_owned()), ..Default::default() };
    assert_eq!(mode("emmc", "a", &delta), "delta-b");
}

#[test]
fn the_queue_holds_two_mebibytes() {
    assert_eq!(queue_capacity(4096), 512);
    assert_eq!(queue_capacity(16 * 1024), 128);
    assert_eq!(queue_capacity(0), 2 * 1024 * 1024);
    assert_eq!(queue_capacity(3), 699051);
    assert_eq!(queue_capacity(usize::MAX), 2);
}

#[test]
fn opening_plans_the_transport() {
    let mut session = SwupdateSession::new(SwupdateParams::default(), 4096);
    session.open(&host("emmc", "a")).unwrap();
    match session.take_launch().unwrap().plan {
        TransportPlan::Ipc(request) => assert_eq!(request.running_mode, "full-b"),
        TransportPlan::Pipe(_) => panic!("two slots"),
    }
    let mut session = SwupdateSession::new(SwupdateParams::default(), 4096);
    session.open(&host("SD", "")).unwrap();
    match session.take_launch().unwrap().plan {
        TransportPlan::Pipe(args) => assert_eq!(args, ["-x", "r", "-m", "complete", "-"]),
        TransportPlan::Ipc(_) => panic!("one slot"),
    }
}

#[test]
fn what_is_fed_comes_out_of_the_queue() {
    let host = host("emmc", "a");
    let mut session = SwupdateSession::new(SwupdateParams::default(), 1024 * 1024);
    let block = |data: &[u8]| BytesMut::from(data);
    assert!(matches!(session.try_send(&host, block(b"one")), Ok(Feed::Queued(3))));
    assert!(matches!(session.try_send(&host, block(b"two")), Ok(Feed::Queued(3))));
    match session.try_send(&host, block(b"three")) {
        Ok(Feed::Full(back)) => assert_eq!(&back[..], b"three"),
        _ => panic!("the queue is full"),
    }
    let mut launch = session.take_launch().unwrap();
    assert_eq!(&launch.blocks.try_recv().unwrap()[..], b"one");
    assert_eq!(&launch.blocks.try_recv().unwrap()[..], b"two");
    assert!(session.is_open());
    session.eof();
    assert!(matches!(session.try_send(&host, block(b"late")), Ok(Feed::Closed)));
    assert!(session.try_finished().is_none());
}

#[test]
fn the_target_amount_is_taken_and_a_lost_reader_is_noticed() {
    let host = host("emmc", "a");
    let mut session = SwupdateSession::new(SwupdateParams::default(), 4096);
    let mut fed = 0;
    while fed < 2 * 1024 * 1024 {
        let block = BytesMut::from(&[7u8; 4096][..]);
        assert!(matches!(session.try_send(&host, block), Ok(Feed::Queued(4096))));
        fed += 4096;
    }
    let block = BytesMut::from(&b"more"[..]);
    assert!(matches!(session.try_send(&host, block), Ok(Feed::Full(_))));
    drop(session.take_launch());
    let block = BytesMut::from(&b"more"[..]);
    assert!(matches!(session.try_send(&host, block), Ok(Feed::Closed)));
    assert!(session.tx.is_none());
}

#[test]
fn every_answer_of_the_queue_is_passed_on() {
    let mut session = SwupdateSession::new(SwupdateParams::default(), 4096);
    session.open(&host("emmc", "a")).unwrap();
    assert!(matches!(session.take_reply(7, QueueReply::Queued), Feed::Queued(7)));
    match session.take_reply(3, QueueReply::Full(BytesMut::from(&b"abc"[..]))) {
        Feed::Full(back) => assert_eq!(&back[..], b"abc"),
        _ => panic!("the block is handed back"),
    }
    assert!(session.tx.is_some());
    assert!(matches!(session.take_reply(3, QueueReply::Closed), Feed::Closed));
    assert!(session.tx.is_none() && session.is_open());
}

#[test]
fn an_update_never_goes_to_the_running_side() {
    for side in ["a", "b"] {
        for image_mode in [None, Some("delta".to_owned()), Some(format!("full-{side}"))] {
            let params = SwupdateParams { image_mode, ..Default::default() };
            let mode = EffectiveUpdateType::resolve(&params, &host("emmc", side).boot).mode_text();
            assert!(!mode.ends_with(side));
        }
    }
}

#[test]
fn a_closed_queue_is_no_error() {
    let host = host("emmc", "a");
    let mut session = SwupdateSession::new(SwupdateParams::default(), 4096);
    session.open(&host).unwrap();
    drop(session.take_launch());
    let feed = session.try_send(&host, BytesMut::from(&b"x"[..]));
    assert!(matches!(feed, Ok(Feed::Closed)));
}

#[test]
fn verdicts_are_kept() {
    let host = host("emmc", "a");
    let mut session = SwupdateSession::new(SwupdateParams::default(), 4096);
    let err = session.try_finished().unwrap().unwrap_err();
    assert_eq!(err.kind, ErrorKind::NotConnected);
    assert_eq!(err.message, "no update in progress");
    session.open(&host).unwrap();
    assert!(session.settle(StatusReport::Finished).is_ok());
    assert!(session.restart_due);
    assert!(session.try_finished().unwrap().is_ok());

    let mut session = SwupdateSession::new(SwupdateParams::default(), 4096);
    session.open(&host).unwrap();
    let err = session.settle(StatusReport::Lost("panic".to_owned())).unwrap_err();
    assert_eq!(err.message, "SWUpdate status task failed: panic");
    assert_eq!(session.try_finished().unwrap().unwrap_err().message, err.message);
    assert!(!session.restart_due);
}

#[test]
fn a_complete_update_is_not_followed_by_a_restart() {
    let mut session = SwupdateSession::new(SwupdateParams::default(), 4096);
    session.open(&host("SD", "")).unwrap();
    assert!(session.settle(StatusReport::Finished).is_ok());
    assert!(!session.restart_due);
}

#[test]
fn the_status_task_is_looked_at() {
    let runtime = tokio::runtime::Builder::new_current_thread().build().unwrap();
    let host = host("emmc", "a");
    let mut session = SwupdateSession::new(SwupdateParams::default(), 4096);
    session.open(&host).unwrap();
    let task = runtime.spawn(async { Ok(()) });
    assert!(session.attach_status(task).is_none());
    assert!(session.try_finished().is_none());
    runtime.block_on(tokio::task::yield_now());
    assert!(session.try_finished().unwrap().is_ok());

    session.abort();
    session.open(&host).unwrap();
    let task = runtime.spawn(std::future::pending());
    assert!(session.attach_status(task).is_none());
    let task = session.abort().unwrap();
    assert!(runtime.block_on(task).unwrap_err().is_cancelled());
    assert!(!session.is_open());
}

#[test]
fn fed_blocks_come_out_at_the_other_end() {
    let host = host("emmc", "a");
    let mut session = SwupdateSession::new(SwupdateParams::default(), 4096);
    assert!(matches!(session.try_send(&host, BytesMut::from(&b"one"[..])), Ok(Feed::Queued(3))));
    assert!(matches!(session.try_send(&host, BytesMut::from(&b"two"[..])), Ok(Feed::Queued(3))));
    let mut launch = session.take_launch().unwrap();
    assert_eq!(&launch.blocks.try_recv().unwrap()[..], b"one");
    assert!(matches!(session.try_send(&host, BytesMut::from(&b"three"[..])), Ok(Feed::Queued(5))));
    assert_eq!(&launch.blocks.try_recv().unwrap()[..], b"two");
    assert_eq!(&launch.blocks.try_recv().unwrap()[..], b"three");
    assert!(launch.blocks.try_recv().is_err());
    // A block that is handed back is the next buffer.
    launch.recycle.try_send(BytesMut::with_capacity(123_456)).unwrap();
    assert!(session.buffer(16).capacity() >= 123_456);
    session.eof();
    assert!(launch.blocks.blocking_recv().is_none());
}

#[test]
fn the_exit_of_the_program_is_the_verdict() {
    assert!(pipe::verdict(PipeExit::Success).is_ok());
    assert_eq!(
        pipe::verdict(PipeExit::Status("exit status: 1".to_owned())).unwrap_err().message,
        "fw_update exited with status exit status: 1"
    );
    assert_eq!(
        pipe::verdict(PipeExit::WaitFailed("x".to_owned())).unwrap_err().message,
        "fw_update wait failed: x"
    );
    assert_eq!(pipe::verdict(PipeExit::TimedOut).unwrap_err().kind, ErrorKind::TimedOut);
    assert_eq!(pipe::start_failed(Some("x")).message, "fw_update spawn failed: x");
    assert_eq!(pipe::start_failed(None).message, "failed to open fw_update stdin");
}
