//! Machine identity.

use summit_usbgadget::swupdate::sysinfo::mem_total_mb as mem_total_mb_lenient;
use summit_usbgadget::sysinfo::nvmem::{format_serial_mac, fuse_macs, read_uboot_value, soc_id};
use summit_usbgadget::sysinfo::runtime::{mem_total_mb, read_dt_string, Machine};
use summit_usbgadget::sysinfo::serial::{macs, random_serial, serial_of_bytes, MacAddresses};
use summit_usbgadget::sysinfo::{
    boot_info, fuse_serial, inactive_side, resolve_serial, system_info_json, BaseSystemInfo,
    BootRootfsInfo, SystemInfo,
};

#[test]
fn rejects_non_mac_cell_lengths() {
    assert_eq!(format_serial_mac(&[0x00, 0x1a, 0xb2]), None);
    assert_eq!(format_serial_mac(&[0x00; 7]), None);
}

#[test]
fn reverses_nvmem_bytes_for_serial_number() {
    assert_eq!(
        format_serial_mac(&[0x00, 0x1a, 0xb2, 0xc3, 0xd4, 0xef]),
        Some("efd4c3b21a00".to_string())
    );
}

#[test]
fn the_boot_context_is_read_from_the_script() {
    let info = boot_info(Some(
        b"rootDevType=emmc\ncurrentSide= b \nbaseHwPartNumber=\nbaseHwPartNumber=453-1\nother=x\n",
    ));
    assert_eq!(info.root_dev_type, "emmc");
    assert_eq!(info.current_side_option(), Some("b"));
    assert_eq!(info.hw_part_number.as_deref(), Some("453-1"));
    assert!(!info.use_pipe_mode() && !info.is_single_slot());
    assert_eq!(inactive_side(info.current_side_option()), "a");

    let sd = boot_info(Some(b"rootDevType=SD\ncurrentSide=x\n"));
    assert!(sd.is_running_on_sd() && sd.use_pipe_mode() && sd.is_single_slot());
    assert_eq!(sd.current_side_option(), None);

    let ram = boot_info(Some(b"rootDevType=initramfs"));
    assert!(ram.is_running_on_initramfs() && ram.use_pipe_mode());

    let nothing = boot_info(None);
    assert_eq!(nothing.root_dev_type, "");
}

#[test]
fn the_inactive_side_is_the_other_one() {
    assert_eq!(inactive_side(Some("a")), "b");
    assert_eq!(inactive_side(Some("b")), "a");
    assert_eq!(inactive_side(None), "b");
}

#[test]
fn memory_is_reported_in_mebibytes() {
    let meminfo = "MemFree: 1 kB\nMemTotal:        2040832 kB\n";
    assert_eq!(mem_total_mb(meminfo), Some(1993));
    assert_eq!(mem_total_mb_lenient(meminfo), Some(1993));
    let bytes = "MemTotal: 1073741824 B\n";
    assert_eq!(mem_total_mb(bytes), None);
    assert_eq!(mem_total_mb_lenient(bytes), Some(1024));
    assert_eq!(mem_total_mb_lenient("MemTotal: many kB\n"), None);
    assert_eq!(mem_total_mb_lenient("MemFree: 1 kB\n"), None);
}

#[test]
fn device_tree_strings_end_at_the_first_nul() {
    assert_eq!(read_dt_string(b" Board X \0junk"), Some("Board X".to_string()));
    assert_eq!(read_dt_string(b"\0"), None);
}

#[test]
fn soc_names_are_trimmed_and_fall_back_to_the_family() {
    assert_eq!(soc_id(Some("i.MX93\n"), Some("Freescale")), Some("i.MX93".to_string()));
    assert_eq!(soc_id(Some("  "), Some("Freescale i.MX\n")), Some("Freescale i.MX".to_string()));
    assert_eq!(soc_id(None, None), None);
}

#[test]
fn system_information_is_a_json_object() {
    let base = BaseSystemInfo {
        model: Some("Tab\there".to_owned()),
        soc: None,
        memory_mb: Some(7),
    };
    let boot = BootRootfsInfo {
        root_dev_type: String::new(),
        current_side: String::new(),
        hw_part_number: Some("453-00".to_owned()),
    };
    let info = SystemInfo::collect(Some("ab".to_owned()), &base, &boot);
    let expected: &[u8] =
        b"{\"model\":\"Tab\\there\",\"serial\":\"ab\",\"soc\":\"\",\"memory_mb\":7,\"hw_part_number\":\"453-00\"}";
    assert_eq!(info.to_json_bytes(), expected);
    let mut out = b"front".to_vec();
    info.write_json(&mut out);
    assert_eq!(&out[5..], expected);
}

#[test]
fn fused_addresses_give_the_serial_number() {
    let eth0 = [0x06u8, 0x05, 0x04, 0x03, 0x02, 0x01];
    let fused = fuse_macs(Some("i.MX93"), Some(&eth0), None).unwrap();
    assert_eq!(fused.eth0.as_deref(), Some("010203040506"));
    assert_eq!(fuse_serial(Some(&fused)), "010203040506");
    assert_eq!(fuse_serial(None), "");
    let base = BaseSystemInfo { model: None, soc: None, memory_mb: None };
    let boot = boot_info(None);
    let json = system_info_json(Some(&fused), &base, &boot);
    assert!(String::from_utf8(json.clone()).unwrap().contains("\"serial\":\"010203040506\""));
    let fused_base = BaseSystemInfo { model: None, soc: None, memory_mb: None };
    let machine = Machine { base, fused_base, macs: Some(fused) };
    assert_eq!(machine.fused_json_len(&boot), json.len());
}

#[test]
fn uboot_addresses_need_twelve_digits() {
    assert_eq!(read_uboot_value("00:1A:b2:C3:d4:EF\n"), Some("001ab2c3d4ef".to_string()));
    assert_eq!(read_uboot_value("00:1A:b2:C3:d4"), None);
    assert_eq!(read_uboot_value("00:1A:b2:C3:d4:EG"), None);
    let found = macs(Some("sama5d31"), Some(b"00:1A:b2:C3:d4:EF\n"), None).unwrap();
    assert_eq!(found.eth0, "001ab2c3d4ef");
    assert_eq!(found.eth1, "");
    assert!(macs(Some("unknown"), None, None).is_none());
}

#[test]
fn serial_numbers_follow_their_source() {
    let fused = MacAddresses { eth0: "0123".to_owned(), eth1: String::new() };
    assert_eq!(resolve_serial(None, None, Some(&fused)), Ok("0123".to_string()));
    assert_eq!(
        resolve_serial(Some("wifi_mac"), Some(" AA:bb:01\n"), Some(&fused)),
        Ok("aabb01".to_string())
    );
    assert_eq!(
        resolve_serial(Some("wifi_mac"), Some(" \n"), Some(&fused)),
        Ok("0123".to_string())
    );
    let random = resolve_serial(Some("auto"), None, None).unwrap();
    assert_eq!(random.len(), 12);
    assert!(random.bytes().all(|b| b.is_ascii_hexdigit()));
    assert_eq!(random_serial().unwrap().len(), 12);
}

#[test]
fn random_bytes_become_a_serial_number() {
    let bytes = vec![0x00u8, 0x0a, 0xff, 0x10, 0x7f, 0xb2];
    assert_eq!(serial_of_bytes(&Some(bytes)), Some("000aff107fb2".to_string()));
    assert_eq!(serial_of_bytes(&None), None);
}
