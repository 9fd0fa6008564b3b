//! The composite gadget: its functions, its controllers and its identity.

use summit_usbgadget::dfu::config::{DfuFnConfig, UploadSource};
use summit_usbgadget::dfu::handler::InReply;
use summit_usbgadget::document::{services_result, ConfigDocument, ConfigError};
use summit_usbgadget::fastboot_usb::FastbootUsbFnConfig;
use summit_usbgadget::fault::{ErrorKind, IoError, TransportErrnos};
use summit_usbgadget::fbk::FbkFnConfig;
use summit_usbgadget::swupdate::SwupdateConfig;
use summit_usbgadget::sysinfo::{BaseSystemInfo, BootRootfsInfo, MacAddresses};
use summit_usbgadget::usb::config::{
    parse_function_config, DeviceConfig, FunctionConfig, FunctionSection, SerialConfig,
    UdcSelector,
};
use summit_usbgadget::usb::functionfs::{
    is_closed_transport_error, is_setup_superseded_error, is_torn_down_transport_error, serve,
    Ep0Wait, ServeStep,
};
use summit_usbgadget::usb::product;
use summit_usbgadget::usb::registry::{
    parse_function, FunctionBuildContext, GadgetService, PluginFunction,
};
use summit_usbgadget::usb::serial::{self, SerialSources};
use summit_usbgadget::usb::udc::{existing, Selection};

fn base() -> BaseSystemInfo {
    BaseSystemInfo { model: None, soc: None, memory_mb: None }
}

fn boot() -> BootRootfsInfo {
    BootRootfsInfo {
        root_dev_type: String::new(),
        current_side: String::new(),
        hw_part_number: None,
    }
}

fn dfu(upload: Option<&str>) -> PluginFunction {
    PluginFunction::Dfu(DfuFnConfig {
        swupdate: SwupdateConfig::default(),
        upload: upload.map(str::to_owned),
        transfer_size: None,
        poll_timeout_ms: None,
    })
}

#[test]
fn each_kind_of_function_is_built_once() {
    let mut context = FunctionBuildContext::default();
    assert_eq!(dfu(None).build("s", &base(), &boot(), 512, &mut context), Ok(true));
    let fastboot = PluginFunction::FastbootUsb(FastbootUsbFnConfig::default());
    assert_eq!(fastboot.build("s", &base(), &boot(), 512, &mut context), Ok(true));
    let fbk = PluginFunction::Fbk(FbkFnConfig {
        swupdate: SwupdateConfig { download: Some("file".to_owned()), ..Default::default() },
    });
    assert_eq!(fbk.build("s", &base(), &boot(), 512, &mut context), Ok(false));
    assert_eq!(
        fbk.build("s", &base(), &boot(), 512, &mut context),
        Err("configuration declares more than one fbk function".to_owned())
    );
    assert_eq!(
        dfu(None).build("s", &base(), &boot(), 512, &mut context),
        Err("configuration declares more than one dfu function".to_owned())
    );
    let services = context.into_services();
    assert_eq!(services.len(), 2);
    assert!(matches!(&services[0], GadgetService::Dfu(_)));
    assert!(matches!(&services[1], GadgetService::FastbootUsb(r) if r.serial == "s"));
}

#[test]
fn a_rejected_section_counts_as_the_one_of_its_kind() {
    let mut context = FunctionBuildContext::default();
    assert_eq!(dfu(Some("file")).build("s", &base(), &boot(), 512, &mut context), Ok(false));
    assert!(dfu(None).build("s", &base(), &boot(), 512, &mut context).is_err());
    assert!(context.into_services().is_empty());
}

#[test]
fn functions_know_their_kind() {
    let serial = FunctionConfig::Serial(SerialConfig { class: "acm".to_owned(), console: None });
    assert_eq!(serial.kind(), "serial");
    assert_eq!(FunctionConfig::plugin(dfu(None)).kind(), "dfu");
}

fn registered() -> Vec<String> {
    vec!["dfu".to_owned(), "fastboot-usb".to_owned(), "twice".to_owned(), "twice".to_owned()]
}

#[test]
fn registrations_are_found_by_kind() {
    assert_eq!(parse_function("fastboot-usb", &registered()), Ok(Some(1)));
    assert_eq!(parse_function("hid", &registered()), Ok(None));
    assert_eq!(
        parse_function("twice", &registered()),
        Err("multiple USB function registrations found for type \"twice\"".to_owned())
    );
}

#[test]
fn function_entries_are_read_by_their_type() {
    let read = |text: &str| {
        let document = ConfigDocument::from_toml_str(text).unwrap();
        parse_function_config(document.root_table(), &registered())
    };
    assert_eq!(read("type = 'serial'"), Ok(FunctionSection::Serial));
    assert_eq!(read("type = 'net'"), Ok(FunctionSection::Net));
    assert_eq!(read("type = 'msd'"), Ok(FunctionSection::Msd));
    assert_eq!(read("type = 'dfu'"), Ok(FunctionSection::Registered(0)));
    assert_eq!(read("type = 'hid'"), Ok(FunctionSection::Unsupported));
    let missing = Err("USB function entry is missing string field `type`".to_owned());
    assert_eq!(read("class = 'acm'"), missing);
    assert_eq!(read("type = 1"), missing);
}

#[test]
fn sections_are_found_in_the_document() {
    let document =
        ConfigDocument::from_toml_str("name = 'x'\n[fastboot_tcp]\nserial = '1'\n").unwrap();
    assert_eq!(document.root_table().len(), 2);
    let section = document.section_value("fastboot_tcp").unwrap();
    assert_eq!(section.get("serial").unwrap().as_str(), Some("1"));
    assert!(document.section_value("socket_source").is_none());
    assert_eq!(document.part(Some("fastboot_tcp")).unwrap(), section);
    assert_eq!(document.part(None).unwrap(), document.root_value());
    match document.part(Some("socket_source")) {
        Err(err) => assert_eq!(
            err.message(),
            "invalid configuration structure: configuration is missing [socket_source] section"
        ),
        Ok(_) => panic!("the section is missing"),
    }
    let copy = ConfigDocument::from_table(document.root_table().clone());
    assert_eq!(copy.root_value(), document.root_value());
}

#[test]
fn text_that_is_not_toml_is_refused() {
    match ConfigDocument::from_toml_str("[[[") {
        Err(err @ ConfigError::Toml(_)) => {
            assert!(err.message().starts_with("invalid configuration: "));
        }
        _ => panic!("this is not TOML"),
    }
    assert_eq!(
        ConfigError::Io(IoError::other("no file")).message(),
        "cannot read configuration: no file"
    );
    assert_eq!(
        ConfigError::Plugin("odd".to_owned()).message(),
        "invalid plugin configuration: odd"
    );
}

#[test]
fn one_failed_service_fails_the_program_in_the_end() {
    let fine: Result<(), &str> = Ok(());
    assert_eq!(services_result(vec![fine, Err("usb"), Ok(()), Err("tcp")]), Err("usb"));
    assert_eq!(services_result(vec![fine, Ok(())]), Ok(()));
    assert_eq!(services_result(Vec::<Result<(), &str>>::new()), Ok(()));
}

fn names(list: &[&str]) -> Vec<String> {
    list.iter().map(|s| s.to_string()).collect()
}

#[test]
fn controllers_are_selected() {
    assert!(matches!(Selection::from_config(&None), Selection::All));
    for all in ["all", "ALL", "*"] {
        let selector = Some(UdcSelector::One(all.to_owned()));
        assert!(matches!(Selection::from_config(&selector), Selection::All));
    }
    let selector = Some(UdcSelector::One("First".to_owned()));
    assert!(matches!(Selection::from_config(&selector), Selection::First));
    let selector = Some(UdcSelector::Many(names(&["a", "first", "*"])));
    assert!(matches!(Selection::from_config(&selector), Selection::All));
    let selector = Some(UdcSelector::Many(names(&["a", "first"])));
    assert!(matches!(Selection::from_config(&selector), Selection::First));
    let selector = Some(UdcSelector::Many(names(&["a", "b", "a"])));
    match Selection::from_config(&selector) {
        Selection::Named(list) => assert_eq!(list, ["a", "b"]),
        _ => panic!("controllers are named"),
    }
}

#[test]
fn controllers_are_bound_as_selected() {
    let none = Vec::new();
    let one = names(&["x"]);
    assert!(Selection::First.wants("x", &none) && Selection::First.wants_more(&none));
    assert!(!Selection::First.wants("y", &one) && !Selection::First.wants_more(&one));
    assert!(Selection::All.wants("y", &one) && Selection::All.wants_more(&one));
    assert!(!Selection::All.wants("x", &one));
    let named = Selection::Named(names(&["x", "y"]));
    assert!(named.wants("x", &none) && !named.wants("z", &none));
    assert!(!named.wants("x", &one) && named.wants_more(&one));
    assert!(!named.wants_more(&names(&["y", "z", "x"])));
}

#[test]
fn controllers_are_listed_in_order() {
    let list = names(&["udc.1", "udc", "b", "udc.0", "b"]);
    assert_eq!(existing(Some(list)), ["b", "b", "udc", "udc.0", "udc.1"]);
    assert!(existing(None).is_empty());
}

fn device() -> DeviceConfig {
    DeviceConfig {
        vendor: 1,
        product: 2,
        class: None,
        sub_class: None,
        protocol: None,
        manufacturer: None,
        product_name: None,
        product_name_source: None,
        serial: None,
        serial_source: None,
    }
}

#[test]
fn the_product_name_follows_its_source() {
    assert_eq!(product::resolve(&device(), Some(b"Board\0")), Ok("Board".to_owned()));
    assert_eq!(product::resolve(&device(), None), Ok(String::new()));
    let custom = DeviceConfig { product_name: Some("P".to_owned()), ..device() };
    assert_eq!(product::resolve(&custom, Some(b"Board\0")), Ok("P".to_owned()));
    let empty = DeviceConfig { product_name: Some(String::new()), ..device() };
    assert_eq!(
        product::resolve(&empty, None),
        Err("product_name_source = \"custom\" requires a non-empty `product_name`".to_owned())
    );
    let odd = DeviceConfig { product_name_source: Some("odd".to_owned()), ..device() };
    assert_eq!(
        product::resolve(&odd, None),
        Err("invalid product_name_source: odd".to_owned())
    );
}

#[test]
fn the_serial_number_follows_its_source() {
    let fused = MacAddresses { eth0: "0123".to_owned(), eth1: String::new() };
    let sources = SerialSources {
        wifi_mac: Some("AA:BB\n"),
        macs: Some(&fused),
        uboot_ethaddr: Some(b"00:1A:b2:C3:d4:EF\n"),
        uboot_eth1addr: None,
    };
    let from = |source: Option<&str>, serial: Option<&str>| {
        let device = DeviceConfig {
            serial: serial.map(str::to_owned),
            serial_source: source.map(str::to_owned),
            ..device()
        };
        serial::resolve(&device, &sources).unwrap()
    };
    assert_eq!(from(None, None), "0123");
    assert_eq!(from(None, Some("S1")), "S1");
    assert_eq!(from(Some("custom"), Some("S1")), "S1");
    assert_eq!(from(Some("custom"), None), "0123");
    assert_eq!(from(Some("auto"), Some("S1")), "0123");
    assert_eq!(from(Some("wifi_mac"), None), "aabb");
    assert_eq!(from(Some("uboot_ethaddr"), None), "001ab2c3d4ef");
    assert_eq!(from(Some("uboot_eth1addr"), None), "0123");
}

#[test]
fn configurations_can_be_copied() {
    let document = ConfigDocument::from_toml_str("[usb]\nname = \"g\"\n").unwrap();
    let copy = document.clone();
    assert_eq!(copy.root_table(), document.root_table());
    assert_eq!(copy.root_value(), document.root_value());
    let upload = UploadSource::Data(bytes::Bytes::from_static(b"abc"));
    match upload.clone() {
        UploadSource::Data(data) => assert_eq!(&data[..], b"abc"),
    }
    match (InReply::Inline { buf: [1, 2, 3, 4, 5, 6], len: 2 }).clone() {
        InReply::Inline { buf, len } => assert_eq!(&buf[..len], &[1, 2]),
        InReply::Data(_) => panic!("another kind of reply"),
    }
    assert_eq!(InReply::Data(bytes::Bytes::from_static(b"xyz")).clone().as_slice(), b"xyz");
}

#[test]
fn native_numbers_are_those_of_linux() {
    let errnos = TransportErrnos::native();
    let numbers = (errnos.idrm, errnos.shutdown, errnos.connaborted);
    assert!([(43, 108, 103), (36, 143, 130), (77, 58, 53)].contains(&numbers));
    assert_eq!(
        std::io::Error::from_raw_os_error(errnos.connaborted).kind(),
        std::io::ErrorKind::ConnectionAborted
    );
}

#[test]
fn only_a_torn_down_endpoint_ends_the_control_loop() {
    let errnos = TransportErrnos::native();
    let fault = |kind| IoError::new(kind, "x");
    let numbered = |n| IoError {
        kind: ErrorKind::Other,
        raw_os_error: Some(n),
        message: String::new(),
    };
    assert!(is_torn_down_transport_error(&fault(ErrorKind::BrokenPipe), &errnos));
    assert!(is_torn_down_transport_error(&numbered(errnos.shutdown), &errnos));
    assert!(is_setup_superseded_error(&numbered(errnos.idrm), &errnos));
    assert!(is_closed_transport_error(&numbered(errnos.idrm), &errnos));
    assert!(!is_closed_transport_error(&fault(ErrorKind::Other), &errnos));

    assert_eq!(serve(&Ep0Wait::Handled(Ok(())), &errnos), ServeStep::Continue);
    assert_eq!(
        serve(&Ep0Wait::Handled(Err(fault(ErrorKind::Other))), &errnos),
        ServeStep::ReportFailure
    );
    assert_eq!(
        serve(&Ep0Wait::Failed(fault(ErrorKind::NotConnected)), &errnos),
        ServeStep::Stop
    );
    assert_eq!(
        serve(&Ep0Wait::Failed(fault(ErrorKind::TimedOut)), &errnos),
        ServeStep::HandlerIdle
    );
    assert_eq!(serve(&Ep0Wait::Failed(numbered(errnos.idrm)), &errnos), ServeStep::Continue);
}
