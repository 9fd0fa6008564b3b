//! Updates over a socket.

use bytes::BytesMut;
use openssl::x509::X509VerifyResult;
use summit_usbgadget::fault::{ErrorKind, IoError, TransportErrnos};
use summit_usbgadget::socket_update::listener::{
    inactive_error, loop_ended, pump, resume, session_result, tear_down, Closing, Ending, PumpEnd,
    SocketStep, SOCKET_READ_BUFFER_SIZE,
};
use summit_usbgadget::socket_update::tls::{
    accept_failed, accepts, build_tls_acceptor, is_date_fault, is_ignorable_expiration_result,
    step_failed, HandshakeFault, TlsStep,
};
use summit_usbgadget::socket_update::{SocketSourceConfig, SocketTlsConfig};
use summit_usbgadget::swupdate::{SwupdateConfig, SwupdateParams, SwupdateSession, UpdateHost};
use summit_usbgadget::sysinfo::BootRootfsInfo;

#[test]
fn swupdate_params_follow_socket_source_settings() {
    let config = SocketSourceConfig {
        address: "127.0.0.1:9000".to_string(),
        shutdown_timeout_secs: 7,
        inactivity_timeout_secs: 20,
        tls: None,
        swupdate: SwupdateConfig {
            download: None,
            software_set: Some("beta".to_string()),
            image_mode: Some("delta".to_string()),
            dry_run: Some(true),
            disable_store_swu: Some(false),
            timeout_secs: Some(55),
        },
    };

    let params = config.to_swupdate_params().unwrap();
    assert_eq!(params.software_set.as_deref(), Some("beta"));
    assert_eq!(params.image_mode.as_deref(), Some("delta"));
    assert!(params.dry_run);
    assert!(!params.disable_store_swu);
    assert_eq!(params.timeout.as_secs(), 55);
    assert_eq!(config.inactivity_timeout().as_secs(), 20);
    assert_eq!(config.shutdown_timeout().as_secs(), 7);
}

#[test]
fn the_listener_has_defaults() {
    let config = SocketSourceConfig::default();
    assert_eq!(config.address, "0.0.0.0:9000");
    assert_eq!(config.shutdown_timeout_secs, 15);
    assert_eq!(config.inactivity_timeout_secs, 30);
    assert!(config.tls.is_none());
}

fn host() -> UpdateHost {
    UpdateHost {
        restart_pending: false,
        boot: BootRootfsInfo {
            root_dev_type: "emmc".to_owned(),
            current_side: "a".to_owned(),
            hw_part_number: None,
        },
        errnos: TransportErrnos::native(),
    }
}

fn sink() -> SwupdateSession {
    SwupdateSession::new(SwupdateParams::default(), SOCKET_READ_BUFFER_SIZE)
}

#[test]
fn blocks_are_pumped_in_order() {
    let mut sink = sink();
    for part in [&b"abc"[..], &b"def"[..]] {
        let step = pump(&mut sink, &Ok(part.len()), BytesMut::from(part), &host());
        assert!(matches!(step, SocketStep::Next));
    }
    let mut launch = sink.take_launch().unwrap();
    assert_eq!(&launch.blocks.try_recv().unwrap()[..], b"abc");
    assert_eq!(&launch.blocks.try_recv().unwrap()[..], b"def");
    let step = pump(&mut sink, &Ok(0), BytesMut::new(), &host());
    assert!(matches!(step, SocketStep::End(Ok(PumpEnd::SourceClosed))));
    assert!(matches!(loop_ended(&mut sink, Ok(PumpEnd::SourceClosed)), Ending::AwaitVerdict));
    assert!(launch.blocks.try_recv().is_err());
}

#[test]
fn a_failed_read_ends_the_source() {
    let mut sink = sink();
    let step = pump(&mut sink, &Err(inactive_error()), BytesMut::new(), &host());
    assert!(matches!(step, SocketStep::End(Ok(PumpEnd::SourceClosed))));
    let ending = loop_ended(&mut sink, Ok(PumpEnd::SourceClosed));
    assert!(matches!(ending, Ending::Finished(Ok(()))));
    assert!(!sink.is_open());
}

#[test]
fn a_verdict_ends_the_loop() {
    let mut sink = sink();
    sink.open(&host()).unwrap();
    sink.terminal = Some(Ok(()));
    let step = pump(&mut sink, &Ok(1), BytesMut::from(&b"x"[..]), &host());
    assert!(matches!(step, SocketStep::End(Ok(PumpEnd::SwupdateDone))));
    sink.terminal = Some(Err("bad image".to_owned()));
    match pump(&mut sink, &Ok(1), BytesMut::from(&b"x"[..]), &host()) {
        SocketStep::End(Err(err)) => assert_eq!(err.message, "bad image"),
        _ => panic!("the update has failed"),
    }
    assert!(tear_down(&mut sink, &Err(IoError::other("bad image"))).is_none());
    assert!(!sink.is_open());
}

#[test]
fn a_block_waits_for_room() {
    let mut sink = sink();
    let mut n = 0;
    let back = loop {
        match pump(&mut sink, &Ok(1), BytesMut::from(&b"x"[..]), &host()) {
            SocketStep::Next => n += 1,
            SocketStep::Blocked(back) => break back,
            SocketStep::End(_) => panic!("unexpected end"),
        }
    };
    assert_eq!(n, 16);
    let mut launch = sink.take_launch().unwrap();
    assert!(launch.blocks.try_recv().is_ok());
    assert!(matches!(resume(&mut sink, back, &host()), SocketStep::Next));
    drop(launch);
    let step = resume(&mut sink, BytesMut::from(&b"y"[..]), &host());
    assert!(matches!(step, SocketStep::End(Ok(PumpEnd::SwupdateDone))));
}

#[test]
fn an_update_is_refused_while_a_restart_is_due() {
    let mut waiting = host();
    waiting.restart_pending = true;
    let mut sink = sink();
    match pump(&mut sink, &Ok(1), BytesMut::from(&b"x"[..]), &waiting) {
        SocketStep::End(Err(err)) => assert!(err.message.starts_with("restart pending")),
        _ => panic!("a restart is due"),
    }
}

#[test]
fn closing_faults_come_first() {
    assert!(session_result(Ok(()), Closing::Closed).is_ok());
    let late = session_result(Ok(()), Closing::TimedOut).unwrap_err();
    assert_eq!(late.kind, ErrorKind::TimedOut);
    assert_eq!(late.message, "socket shutdown timed out");
    let failed = session_result(
        Err(IoError::other("update")),
        Closing::Failed(IoError::other("close")),
    );
    assert_eq!(failed.unwrap_err().message, "close");
}

fn tls() -> SocketTlsConfig {
    SocketTlsConfig {
        server_cert: "/c".to_owned(),
        server_key: "/k".to_owned(),
        request_client_cert: false,
        ca_cert: None,
        ignore_expiration: true,
        fips: false,
    }
}

#[test]
fn tls_is_set_up_in_order() {
    let steps = build_tls_acceptor(&tls());
    assert_eq!(steps.len(), 5);
    assert!(matches!(&steps[0], TlsStep::CreateBuilder));
    assert!(matches!(&steps[1], TlsStep::CertificateChain(path) if path == "/c"));
    assert!(matches!(&steps[2], TlsStep::PrivateKey(path) if path == "/k"));
    assert!(matches!(&steps[3], TlsStep::CheckKey));
    assert!(matches!(&steps[4], TlsStep::Verify { peer: false, ignore_expiration: true }));

    let steps = build_tls_acceptor(&SocketTlsConfig {
        fips: true,
        request_client_cert: true,
        ca_cert: Some("/ca".to_owned()),
        ignore_expiration: false,
        ..tls()
    });
    assert!(matches!(&steps[0], TlsStep::LoadDefaultProvider));
    assert!(matches!(&steps[1], TlsStep::LoadFipsProvider));
    assert!(matches!(&steps[2], TlsStep::EnableFips));
    assert!(matches!(&steps[7], TlsStep::CaFile(path) if path == "/ca"));
    assert!(matches!(&steps[8], TlsStep::Verify { peer: true, ignore_expiration: false }));
}

#[test]
fn client_certificates_need_a_ca() {
    let steps = build_tls_acceptor(&SocketTlsConfig { request_client_cert: true, ..tls() });
    let missing = steps.iter().find(|s| matches!(s, TlsStep::MissingCa)).unwrap();
    let err = step_failed(missing, "");
    assert_eq!(err.kind, ErrorKind::InvalidInput);
    assert_eq!(err.message, "client certificate validation requires a ca_cert");
}

#[test]
fn tls_faults_are_described() {
    let message = |step: TlsStep| step_failed(&step, "why").message;
    assert_eq!(
        message(TlsStep::CertificateChain("/c".to_owned())),
        "loading OpenSSL server certificate chain /c failed: why"
    );
    assert_eq!(
        message(TlsStep::PrivateKey("/k".to_owned())),
        "loading OpenSSL server private key /k failed: why"
    );
    assert_eq!(message(TlsStep::CheckKey), "OpenSSL server certificate/key mismatch: why");
    assert_eq!(message(TlsStep::EnableFips), "enabling OpenSSL FIPS default properties failed");
    assert_eq!(accept_failed(&HandshakeFault::TimedOut).kind, ErrorKind::TimedOut);
    assert_eq!(
        accept_failed(&HandshakeFault::Handshake("why".to_owned())).message,
        "TLS handshake failed: why"
    );
}

#[test]
fn only_date_faults_are_forgiven() {
    for code in [9, 10, 13, 14] {
        assert!(is_date_fault(code));
    }
    for code in [0, 1, 11, 12, 18, 50] {
        assert!(!is_date_fault(code));
    }
    let fine = X509VerifyResult::OK;
    let odd = X509VerifyResult::APPLICATION_VERIFICATION;
    assert!(!is_ignorable_expiration_result(&fine));
    assert!(!accepts(false, &odd));
    assert!(accepts(true, &odd));
}
