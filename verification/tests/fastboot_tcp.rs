//! Fastboot over TCP.

use std::time::Duration;

use bytes::BytesMut;
use summit_usbgadget::fastboot_tcp::config::FastbootTcpConfig;
use summit_usbgadget::fastboot_tcp::session::{
    session_result, FastbootDownloadSource, ReadPlan, StreamStep, TcpFastbootSession, TcpNext,
};
use summit_usbgadget::fastboot_tcp::transport::{
    encode_packet, handshake, inactive_error, read_header, recv_command, HeaderStep, HANDSHAKE,
    HANDSHAKE_LEN, HEADER_LEN,
};
use summit_usbgadget::fault::{ErrorKind, IoError, TransportErrnos};
use summit_usbgadget::swupdate::{SwupdateParams, UpdateHost};
use summit_usbgadget::sysinfo::runtime::Machine;
use summit_usbgadget::sysinfo::{BaseSystemInfo, BootRootfsInfo};
use tokio::io::{AsyncReadExt, AsyncWriteExt};
use tokio::time::timeout;

fn test_config() -> FastbootTcpConfig {
    FastbootTcpConfig {
        serial: "abc123".to_string(),
        shutdown_timeout_secs: 5,
        ..Default::default()
    }
}

fn host() -> UpdateHost {
    UpdateHost {
        restart_pending: false,
        boot: BootRootfsInfo {
            root_dev_type: "SD".to_owned(),
            current_side: String::new(),
            hw_part_number: None,
        },
        errnos: TransportErrnos::native(),
    }
}

fn base() -> BaseSystemInfo {
    BaseSystemInfo { model: None, soc: None, memory_mb: None }
}

fn machine() -> Machine {
    Machine { base: base(), fused_base: base(), macs: None }
}

fn session() -> TcpFastbootSession {
    TcpFastbootSession::new(&test_config().serial, SwupdateParams::default())
}

/// Takes the first packet off a byte stream.
fn recv_frame(stream: &mut Vec<u8>) -> Vec<u8> {
    let len = u64::from_be_bytes(stream[..8].try_into().unwrap()) as usize;
    let frame = stream[8..8 + len].to_vec();
    stream.drain(..8 + len);
    frame
}

fn ask(session: &mut TcpFastbootSession, command: &[u8]) -> (Vec<Vec<u8>>, TcpNext) {
    let step = session.dispatch(command, &host(), &machine());
    let mut stream = step.packets.concat();
    let mut replies = Vec::new();
    while !stream.is_empty() {
        replies.push(recv_frame(&mut stream));
    }
    (replies, step.next)
}

#[test]
fn handshake_and_getvar_over_tcp() {
    assert_eq!(HANDSHAKE.as_bytes(), b"FB01");
    handshake(b"FB01").unwrap();
    let mut session = session();
    assert_eq!(ask(&mut session, b"getvar:version").0, vec![b"OKAY0.4".to_vec()]);
    assert_eq!(ask(&mut session, b"getvar:serialno").0, vec![b"OKAYabc123".to_vec()]);
    assert_eq!(
        ask(&mut session, b"getvar:nonexistent").0,
        vec![b"FAILunknown command".to_vec()]
    );
    assert_eq!(ask(&mut session, b"powerdown").0, vec![b"FAILunknown command".to_vec()]);
    assert_eq!(ask(&mut session, b"").0, vec![b"FAILunknown command".to_vec()]);
    assert!(session.ended(&Ok(())).is_none());
}

#[test]
fn rejects_malformed_handshake() {
    let err = handshake(b"XX01").unwrap_err();
    assert_eq!(err.kind, ErrorKind::InvalidData);
    assert_eq!(err.message, "malformed fastboot handshake");
    let err = handshake(b"FBxx").unwrap_err();
    assert_eq!(err.message, "malformed fastboot handshake version");
    let err = handshake(b"FB\xff\xfe").unwrap_err();
    assert_eq!(err.message, "malformed fastboot handshake version");
    let err = handshake(b"FB00").unwrap_err();
    assert_eq!(err.message, "unsupported fastboot protocol version 0");
    assert!(handshake(b"FB02").is_ok());
    assert!(handshake(b"FB99").is_ok());
}

#[test]
fn idle_connection_times_out() {
    let runtime = tokio::runtime::Builder::new_current_thread().enable_time().build().unwrap();
    let (mut server, mut client) = tokio::io::duplex(64);
    let mut session = session();
    let serve = async {
        server.write_all(HANDSHAKE.as_bytes()).await.unwrap();
        let mut hello = [0u8; HANDSHAKE_LEN];
        server.read_exact(&mut hello).await.unwrap();
        handshake(&hello).unwrap();
        let mut header = [0u8; HEADER_LEN];
        let read = timeout(Duration::from_millis(50), server.read(&mut header)).await;
        let result = match read {
            Ok(read) => match read_header(0, read.unwrap()) {
                HeaderStep::Closed => Ok(()),
                _ => panic!("nothing was sent"),
            },
            Err(_) => Err(inactive_error()),
        };
        assert!(session.ended(&result).is_none());
        assert!(!session.sink.is_open());
        session_result(result, Ok(()))
    };
    // Complete the handshake, then stay idle without sending a command.
    let stay_idle = async {
        let mut hello = [0u8; HANDSHAKE_LEN];
        client.read_exact(&mut hello).await.unwrap();
        assert_eq!(&hello, b"FB01");
        client.write_all(b"FB01").await.unwrap();
    };
    let (result, ()) = runtime.block_on(futures_util::future::join(serve, stay_idle));
    let err = result.expect_err("an idle connection should time out");
    assert_eq!(err.kind, ErrorKind::TimedOut);
}

#[test]
fn a_failed_session_is_torn_down_and_nothing_else() {
    let runtime = tokio::runtime::Builder::new_current_thread().build().unwrap();
    let mut session = session();
    session.restart_due = true;
    assert!(matches!(ask(&mut session, b"download:00000008").1, TcpNext::Download(8)));
    session.sink.open(&host()).unwrap();
    let task = runtime.spawn(std::future::pending());
    assert!(session.sink.attach_status(task).is_none());
    let task = session.ended(&Err(inactive_error())).unwrap();
    assert!(runtime.block_on(task).unwrap_err().is_cancelled());
    assert!(session.sink.tx.is_none() && session.sink.recycle_rx.is_none());
    assert!(session.sink.launch.is_none() && session.sink.terminal.is_none());
    assert!(session.restart_due);
    assert_eq!(session.serial, "abc123");
}

#[test]
fn packets_carry_their_length() {
    assert_eq!(encode_packet(b"OKAY"), b"\0\0\0\0\0\0\0\x04OKAY");
    assert_eq!(encode_packet(b""), [0u8; 8]);
    assert!(matches!(recv_command(&4096u64.to_be_bytes()), Ok(4096)));
    let err = recv_command(&4097u64.to_be_bytes()).unwrap_err();
    assert_eq!(err.message, "fastboot command frame too large");
}

#[test]
fn a_length_prefix_may_come_in_parts() {
    assert!(matches!(read_header(0, 3), HeaderStep::More(3)));
    assert!(matches!(read_header(3, 5), HeaderStep::Complete));
    assert!(matches!(read_header(0, 0), HeaderStep::Closed));
    match read_header(3, 0) {
        HeaderStep::Truncated(err) => assert_eq!(err.kind, ErrorKind::UnexpectedEof),
        _ => panic!("a closed connection inside a prefix is a fault"),
    }
}

#[test]
fn fetch_is_three_packets() {
    let mut session = session();
    let json = b"{\"model\":\"\",\"serial\":\"abc123\",\"soc\":\"\",\"memory_mb\":0,\"hw_part_number\":\"\"}";
    let (replies, next) = ask(&mut session, b"fetch:sysinfo");
    assert_eq!(
        replies,
        vec![
            format!("DATA{:08X}", json.len()).into_bytes(),
            json.to_vec(),
            b"OKAY".to_vec()
        ]
    );
    assert_eq!(next, TcpNext::Command);
}

#[test]
fn a_download_streams_into_swupdate() {
    let host = host();
    let mut session = session();
    let (replies, next) = ask(&mut session, b"download:%0000000a");
    assert_eq!(replies, vec![b"DATA0000000A".to_vec()]);
    assert_eq!(next, TcpNext::Download(10));
    let mut launch = session.sink.take_launch().unwrap();

    let mut source = FastbootDownloadSource::new(10);
    assert_eq!(source.next_read(), ReadPlan::Header);
    source.header_read(Some(6)).unwrap();
    assert_eq!(source.next_read(), ReadPlan::Payload(6));
    source.payload_read(4).unwrap();
    let block = Some(BytesMut::from(&b"abcd"[..]));
    assert!(matches!(session.stream_download(&mut source, block, &host), StreamStep::Next));
    assert_eq!(source.next_read(), ReadPlan::Payload(2));
    source.payload_read(2).unwrap();
    let block = Some(BytesMut::from(&b"ef"[..]));
    assert!(matches!(session.stream_download(&mut source, block, &host), StreamStep::Next));
    assert_eq!(source.next_read(), ReadPlan::Header);
    source.header_read(Some(100)).unwrap();
    assert_eq!(source.next_read(), ReadPlan::Payload(4));
    source.payload_read(4).unwrap();
    let block = Some(BytesMut::from(&b"ghij"[..]));
    assert!(matches!(session.stream_download(&mut source, block, &host), StreamStep::Next));
    assert_eq!(source.next_read(), ReadPlan::Nothing);
    match session.stream_download(&mut source, None, &host) {
        StreamStep::Complete(step) => assert_eq!(step.packets, vec![encode_packet(b"OKAY")]),
        _ => panic!("the download is complete"),
    }
    let mut received = Vec::new();
    while let Ok(block) = launch.blocks.try_recv() {
        received.extend_from_slice(&block);
    }
    assert_eq!(received, b"abcdefghij");

    let (replies, next) = ask(&mut session, b"flash:update");
    assert_eq!(replies, vec![b"INFOwaiting for SWUpdate".to_vec()]);
    assert_eq!(next, TcpNext::Verdict);
    let step = session.finished(&Ok(()));
    assert_eq!(step.packets, vec![encode_packet(b"OKAY")]);
    assert!(!session.fastboot_pending_flash && !session.sink.is_open());
}

#[test]
fn a_connection_that_closes_in_a_download_is_a_fault() {
    let mut source = FastbootDownloadSource::new(10);
    assert_eq!(source.header_read(None).unwrap_err().kind, ErrorKind::UnexpectedEof);
    source.header_read(Some(0)).unwrap();
    assert_eq!(source.next_read(), ReadPlan::Payload(0));
    let err = source.payload_read(0).unwrap_err();
    assert_eq!(err.message, "connection closed mid-download");
}

#[test]
fn a_failed_update_ends_the_session() {
    let host = host();
    let mut session = session();
    ask(&mut session, b"download:%0000000a");
    session.sink.terminal = Some(Err("bad image".to_owned()));
    let mut source = FastbootDownloadSource::new(10);
    let block = Some(BytesMut::from(&b"abcd"[..]));
    match session.stream_download(&mut source, block, &host) {
        StreamStep::Failed { step, stopped, err } => {
            assert_eq!(step.packets, vec![encode_packet(b"FAILwrite failed")]);
            assert!(stopped.is_none());
            assert_eq!(err.message, "bad image");
        }
        _ => panic!("the update has failed"),
    }
    assert!(!session.sink.is_open());
}

#[test]
fn an_early_success_drops_the_rest() {
    let host = host();
    let mut session = session();
    ask(&mut session, b"download:%0000000a");
    session.sink.terminal = Some(Ok(()));
    let mut source = FastbootDownloadSource::new(10);
    let block = Some(BytesMut::from(&b"abcd"[..]));
    assert!(matches!(session.stream_download(&mut source, block, &host), StreamStep::Next));
    assert!(!source.forwarding);
    let block = Some(BytesMut::from(&b"ef"[..]));
    assert!(matches!(session.stream_download(&mut source, block, &host), StreamStep::Next));
    assert!(matches!(
        session.stream_download(&mut source, None, &host),
        StreamStep::Complete(_)
    ));
}

#[test]
fn a_full_queue_waits() {
    let host = host();
    let mut session = session();
    ask(&mut session, b"download:%10000000");
    let mut source = FastbootDownloadSource::new(0x1000_0000);
    let mut n = 0;
    let back = loop {
        let block = Some(BytesMut::from(&b"x"[..]));
        match session.stream_download(&mut source, block, &host) {
            StreamStep::Next => n += 1,
            StreamStep::Blocked(back) => break back,
            _ => panic!("unexpected step"),
        }
    };
    assert_eq!(n, 16);
    let mut launch = session.sink.take_launch().unwrap();
    assert!(launch.blocks.try_recv().is_ok());
    assert!(matches!(session.resume(&mut source, back, &host), StreamStep::Next));
}

#[test]
fn commands_need_their_preconditions() {
    let mut session = session();
    assert_eq!(ask(&mut session, b"flash:update").0, vec![b"FAILflash before download".to_vec()]);
    assert_eq!(ask(&mut session, b"Close").0, vec![b"FAILclose".to_vec()]);
    assert_eq!(ask(&mut session, b"fetch:x").0, vec![b"FAILpartition does not exist".to_vec()]);
    assert_eq!(ask(&mut session, b"flash:x").0, vec![b"FAILpartition does not exist".to_vec()]);
    assert_eq!(ask(&mut session, b"WOpen:update").0, vec![b"OKAY".to_vec()]);
    assert_eq!(
        ask(&mut session, b"download:00000000").0,
        vec![b"DATA00000000".to_vec(), b"OKAY".to_vec()]
    );
    assert!(!session.fastboot_pending_flash);
    assert_eq!(ask(&mut session, b"Close"), (vec![], TcpNext::Verdict));
    let step = session.finished(&Err(IoError::other("bad")));
    assert_eq!(step.packets, vec![encode_packet(b"FAILclose")]);

    let mut waiting = host();
    waiting.restart_pending = true;
    let step = session.dispatch(b"WOpen:x", &waiting, &machine());
    assert_eq!(step.packets, vec![encode_packet(b"FAILopen failed")]);
    let step = session.dispatch(b"download:%00000001", &waiting, &machine());
    assert_eq!(step.packets, vec![encode_packet(b"FAILopen failed")]);
}

#[test]
fn the_first_fault_of_a_session_is_reported() {
    let fault = || Err(IoError::other("loop"));
    assert_eq!(session_result(fault(), Err(IoError::other("close"))).unwrap_err().message, "loop");
    assert_eq!(session_result(Ok(()), Err(IoError::other("close"))).unwrap_err().message, "close");
    assert!(session_result(Ok(()), Ok(())).is_ok());
}

#[test]
fn settings_have_defaults() {
    let config = FastbootTcpConfig::default();
    assert_eq!(config.address, "0.0.0.0:5554");
    assert_eq!(config.serial, "unknown");
    assert!(config.accept_timeout().is_none());
    assert_eq!(config.inactivity_timeout().unwrap().as_secs(), 30);
    assert_eq!(config.shutdown_timeout().as_secs(), 15);
    assert_eq!(config.to_swupdate_params().unwrap().timeout.as_secs(), 120);
    let config = FastbootTcpConfig {
        inactivity_timeout_secs: 0,
        accept_timeout_secs: Some(9),
        ..Default::default()
    };
    assert!(config.inactivity_timeout().is_none());
    assert_eq!(config.accept_timeout().unwrap().as_secs(), 9);
}
