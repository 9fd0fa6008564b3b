//! Text, numbers and wire formats.

use summit_usbgadget::fastboot_proto::{data_header, fastboot_getvar_reply};
use summit_usbgadget::numbers::{decimal_text, hex_lower_text, hex_upper_8_text, parse_unsigned};
use summit_usbgadget::swupdate::restart::{on_update_success, reject_if_restart_pending};
use summit_usbgadget::swupdate::EffectiveUpdateType;
use summit_usbgadget::swupdate_ipc::client::{frame_outcome, inst_start_ext};
use summit_usbgadget::swupdate_ipc::proto::{
    MsgType, ProgressMsg, RecoveryStatus, RunType, SourceType, SwupdateRequest,
};
use summit_usbgadget::swupdate_ipc::{AsyncOutcome, InstallMode, InstallSource};
use summit_usbgadget::sysinfo::BootRootfsInfo;
use summit_usbgadget::text::{
    has_at, lines_of, lossy_text, same_bytes, same_text, same_text_ignoring_case, trimmed,
    trimmed_non_empty, utf8_text,
};
use summit_usbgadget::wire::{
    be64_bytes, from_word, push_le32, push_le64, read_be64, read_le32, read_le64, to_word,
};

#[test]
fn bytes_are_read_as_text() {
    assert_eq!(lossy_text("gr\u{fc}n".as_bytes()), "gr\u{fc}n");
    assert_eq!(lossy_text(b"a\xffb"), "a\u{fffd}b");
    assert_eq!(utf8_text(b"abc"), Some("abc"));
    assert_eq!(utf8_text(b"a\xff"), None);
    assert!(same_bytes(b"ab", b"ab") && !same_bytes(b"ab", b"abc"));
    assert!(same_text("ab", "ab") && !same_text("ab", "AB"));
    assert!(same_text_ignoring_case("First", "fIRST"));
    assert!(!same_text_ignoring_case("first", "firs"));
}

#[test]
fn white_space_is_trimmed() {
    assert_eq!(trimmed(" \t\u{2003}a b\r\n\u{85}"), "a b");
    assert_eq!(trimmed(""), "");
    assert_eq!(trimmed_non_empty(" \n"), None);
    assert_eq!(trimmed_non_empty(" x "), Some("x".to_string()));
}

#[test]
fn text_is_split_into_lines() {
    for text in ["", "\n", "a", "a\n", "a\r\nb", "a\n\nb\n", "\r\n", "a\r", "a\rb\n"] {
        let expected: Vec<String> = text.lines().map(str::to_owned).collect();
        assert_eq!(lines_of(text), expected, "{text:?}");
    }
}

#[test]
fn parts_are_found_in_place() {
    let chars: Vec<char> = "MemTotal:".chars().collect();
    assert!(has_at(&chars, 3, &['T', 'o']));
    assert!(!has_at(&chars, 8, &[':', ':']));
}

#[test]
fn numbers_are_rendered() {
    assert_eq!(decimal_text(0), "0");
    assert_eq!(decimal_text(u64::MAX), "18446744073709551615");
    assert_eq!(hex_upper_8_text(0xab), "000000AB");
    assert_eq!(hex_upper_8_text(0x1_2345_6789), "123456789");
    assert_eq!(hex_lower_text(&[0, 0x0f, 0xa0]), "000fa0");
    assert_eq!(data_header(8), "DATA00000008");
}

#[test]
fn numbers_are_read_as_rust_reads_them() {
    for text in ["0", "00", "+7", "-7", "", "+", "12", "1 2", "zz", "fF", "99999999999999999999"] {
        assert_eq!(parse_unsigned(text.as_bytes(), 10), text.parse::<u64>().ok(), "{text:?}");
        assert_eq!(
            parse_unsigned(text.as_bytes(), 16),
            u64::from_str_radix(text, 16).ok(),
            "{text:?}"
        );
    }
}

#[test]
fn rendered_sizes_are_read_back() {
    for n in [0usize, 1, 0xff, 0x1000_0000, 0xffff_ffff] {
        assert_eq!(parse_unsigned(hex_upper_8_text(n).as_bytes(), 16), Some(n as u64));
    }
}

#[test]
fn words_keep_their_byte_order() {
    let mut out = Vec::new();
    push_le32(&mut out, 0x0102_0304);
    push_le64(&mut out, 0x0102_0304_0506_0708);
    assert_eq!(out, [4, 3, 2, 1, 8, 7, 6, 5, 4, 3, 2, 1]);
    assert_eq!(read_le32(&out, 0), 0x0102_0304);
    assert_eq!(read_le64(&out, 4), 0x0102_0304_0506_0708);
    let prefix = be64_bytes(0x1122);
    assert_eq!(prefix, [0, 0, 0, 0, 0, 0, 0x11, 0x22]);
    assert_eq!(read_be64(&prefix), 0x1122);
    for x in [0, 1, -1, i32::MIN, i32::MAX] {
        assert_eq!(to_word(x), x as u32);
        assert_eq!(from_word(to_word(x)), x);
    }
}

fn boot(root_dev_type: &str, side: &str) -> BootRootfsInfo {
    BootRootfsInfo {
        root_dev_type: root_dev_type.to_owned(),
        current_side: side.to_owned(),
        hw_part_number: None,
    }
}

#[test]
fn device_variables_are_answered() {
    let slots = boot("emmc", "a");
    let ask = |name: &str| {
        fastboot_getvar_reply(name, "0001", &slots, 0x5a)
            .map(|reply| String::from_utf8(reply).unwrap())
    };
    for (name, reply) in [
        ("version", "OKAY0.4"),
        ("max-download-size", "OKAY400000000"),
        ("max-fetch-size", "OKAY00010000"),
        ("product", "OKAYsummit-usbgadget"),
        ("serialno", "OKAY0001"),
        ("is-userspace", "OKAYyes"),
        ("current-slot", "OKAYa"),
        ("slot-num", "OKAY2"),
        ("all", "OKAYversion:0.4"),
        ("has-slot:update", "OKAYno"),
        ("is-logical:swu", "OKAYno"),
        ("partition-type:update", "OKAYraw"),
        ("partition-size:swu", "OKAY400000000"),
        ("partition-size:sysinfo", "OKAY0000005A"),
        ("partition-size:sysinfo.json", "OKAY0000005A"),
    ] {
        assert_eq!(ask(name).as_deref(), Some(reply), "{name}");
    }
    assert_eq!(ask("has-slot:sysinfo"), None);
    assert_eq!(ask(""), None);
    let card = boot("SD", "");
    assert_eq!(fastboot_getvar_reply("current-slot", "", &card, 0), None);
    assert_eq!(fastboot_getvar_reply("slot-num", "", &card, 0), Some(b"OKAY1".to_vec()));
}

#[test]
fn restarts_follow_slot_updates_only() {
    assert!(!on_update_success(&EffectiveUpdateType::Complete));
    assert!(on_update_success(&EffectiveUpdateType::Slot { running_mode: "full-b".to_owned() }));
    assert!(reject_if_restart_pending(false).is_ok());
    assert_eq!(
        reject_if_restart_pending(true).unwrap_err().message,
        "restart pending after successful SWUpdate; rejecting new update"
    );
}

#[test]
fn protocol_numbers_are_those_of_the_daemon() {
    let sources = [
        (InstallSource::Unknown, SourceType::SOURCE_UNKNOWN),
        (InstallSource::Webserver, SourceType::SOURCE_WEBSERVER),
        (InstallSource::Suricatta, SourceType::SOURCE_SURICATTA),
        (InstallSource::Downloader, SourceType::SOURCE_DOWNLOADER),
        (InstallSource::Local, SourceType::SOURCE_LOCAL),
        (InstallSource::ChunksDownloader, SourceType::SOURCE_CHUNKS_DOWNLOADER),
    ];
    for (code, (source, wire)) in sources.into_iter().enumerate() {
        assert_eq!(source.source_type(), wire);
        assert_eq!(wire.code(), code as i32);
        assert_eq!(SourceType::try_from_code(code as i32), Ok(wire));
    }
    assert_eq!(SourceType::try_from_code(6), Err(6));
    assert_eq!(SourceType::try_from_code(-1), Err(-1));
    assert_eq!(InstallMode::Default.run_type(), RunType::RUN_DEFAULT);
    assert_eq!(InstallMode::DryRun.run_type().code(), 1);
    assert_eq!(InstallMode::Install.run_type().code(), 2);
}

#[test]
fn an_explicit_request_is_sent_as_it_is() {
    let mut request = SwupdateRequest::prepare();
    request.set_software_set("stable").unwrap();
    let bytes = request.to_bytes();
    let message = inst_start_ext(request);
    assert!(message.has_type(MsgType::REQ_INSTALL));
    assert_eq!(&message.data[..bytes.len()], &bytes[..]);
}

#[test]
fn progress_frames_may_announce_the_outcome() {
    let mut frame = ProgressMsg::zeroed();
    for (status, outcome) in [
        (RecoveryStatus::RUN, None),
        (RecoveryStatus::DONE, None),
        (RecoveryStatus::SUCCESS, Some(AsyncOutcome::Success)),
        (RecoveryStatus::FAILURE, Some(AsyncOutcome::Failure)),
    ] {
        frame.status = status.code();
        assert_eq!(frame_outcome(&frame), outcome);
    }
    frame.status = 99;
    assert_eq!(frame_outcome(&frame), None);
}
