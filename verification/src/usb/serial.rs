//! The serial number of the gadget.

use vstd::prelude::*;

use crate::sysinfo::nvmem::{read_bytes, read_uboot_output, uboot_mac};
use crate::sysinfo::serial::{chosen_serial, random_text, resolve_serial, MacAddresses};
use crate::text::{opt_str, opt_text, same_text, utf8_lossy};
use crate::usb::config::DeviceConfig;

verus! {

/// The source of the serial number: by default `custom` where a serial number
/// is configured, and otherwise `auto`.
pub open spec fn serial_source(device: DeviceConfig) -> Seq<char> {
    match device.serial_source {
        Some(source) => source@,
        None => if device.serial is Some {
            "custom"@
        } else {
            "auto"@
        },
    }
}

/// What the machine tells of its serial number.
pub struct SerialSources<'a> {
    /// What `/etc/wifi_mac` holds, if it can be read.
    pub wifi_mac: Option<&'a str>,
    /// The fused Ethernet addresses.
    pub macs: Option<&'a MacAddresses>,
    /// What `fw_printenv` wrote for `ethaddr`, if it could be run.
    pub uboot_ethaddr: Option<&'a [u8]>,
    /// What `fw_printenv` wrote for `eth1addr`, if it could be run.
    pub uboot_eth1addr: Option<&'a [u8]>,
}

/// The address in what `fw_printenv` wrote, if there is one.
pub open spec fn uboot_text(output: Option<Seq<u8>>) -> Option<Seq<char>> {
    match output {
        Some(bytes) => uboot_mac(utf8_lossy(bytes)),
        None => None,
    }
}

/// The serial number that the configured source gives, without resort to
/// chance: a configured one that is not empty, a U-Boot variable, or what
/// [`resolve_serial`] chooses. A source that gives nothing counts as `auto`.
pub open spec fn device_serial(device: DeviceConfig, sources: SerialSources<'_>) -> Option<
    Seq<char>,
> {
    let source = serial_source(device);
    let custom = opt_text(device.serial);
    let ethaddr = uboot_text(read_bytes(sources.uboot_ethaddr));
    let eth1addr = uboot_text(read_bytes(sources.uboot_eth1addr));
    if source == "custom"@ && custom is Some && custom->0.len() > 0 {
        custom
    } else if source == "uboot_ethaddr"@ && ethaddr is Some {
        ethaddr
    } else if source == "uboot_eth1addr"@ && eth1addr is Some {
        eth1addr
    } else {
        chosen_serial(
            Some(source),
            opt_str(sources.wifi_mac),
            match sources.macs {
                Some(m) => Some(m.eth0@),
                None => None,
            },
        )
    }
}

/// Resolves the serial number of the gadget. Where no source gives one a random
/// one is made; that fails only if the operating system gives no random bytes.
pub fn resolve(device: &DeviceConfig, sources: &SerialSources<'_>) -> (serial: Result<
    String,
    String,
>)
    ensures
        match device_serial(*device, *sources) {
            Some(text) => serial matches Ok(s) && s@ == text,
            None => serial matches Ok(s) ==> random_text(s@),
        },
        serial matches Err(e) ==> e@ == "getrandom(2) failed"@,
{
    let source = match &device.serial_source {
        Some(source) => source.as_str(),
        None => if device.serial.is_some() {
            "custom"
        } else {
            "auto"
        },
    };
    if same_text(source, "custom") {
        if let Some(serial) = &device.serial {
            if !serial.as_str().is_empty() {
                return Ok(serial.clone());
            }
        }
    }
    proof {
        reveal_strlit("custom");
        reveal_strlit("uboot_ethaddr");
        reveal_strlit("uboot_eth1addr");
    }
    if same_text(source, "uboot_ethaddr") {
        if let Some(serial) = read_uboot_output(sources.uboot_ethaddr) {
            return Ok(serial);
        }
    }
    if same_text(source, "uboot_eth1addr") {
        if let Some(serial) = read_uboot_output(sources.uboot_eth1addr) {
            return Ok(serial);
        }
    }
    resolve_serial(Some(source), sources.wifi_mac, sources.macs)
}

/// Where the serial number comes from. A configured one that is not empty counts
/// where its source is `custom`, or where no source is given; the variables of the
/// boot loader count where they are named and printed; anything else is left to the
/// machine, under the source that is given, or under `auto`.
pub proof fn law_serial_number(
    device: DeviceConfig,
    sources: SerialSources<'_>,
    ethaddr: Option<String>,
    eth1addr: Option<String>,
    rest: &str,
    machine: Result<String, String>,
    serial: Result<String, String>,
)
    requires
        call_ensures(read_uboot_output, (sources.uboot_ethaddr,), ethaddr),
        call_ensures(read_uboot_output, (sources.uboot_eth1addr,), eth1addr),
        device.serial_source matches Some(s) ==> rest@ == s@,
        device.serial_source is None ==> rest@ == "auto"@,
        call_ensures(resolve_serial, (Some(rest), sources.wifi_mac, sources.macs), machine),
        call_ensures(resolve, (&device, &sources), serial),
    ensures
        ({
            let custom = device.serial is Some && device.serial->0@.len() > 0 && (
            device.serial_source is None || device.serial_source->0@ == "custom"@);
            let first = device.serial_source is Some && device.serial_source->0@
                == "uboot_ethaddr"@ && ethaddr is Some;
            let second = device.serial_source is Some && device.serial_source->0@
                == "uboot_eth1addr"@ && eth1addr is Some;
            let chosen = chosen_serial(
                Some(rest@),
                opt_str(sources.wifi_mac),
                match sources.macs {
                    Some(m) => Some(m.eth0@),
                    None => None,
                },
            );
            &&& custom ==> (serial matches Ok(s) && s@ == device.serial->0@)
            &&& first ==> (serial matches Ok(s) && s@ == ethaddr->0@)
            &&& second ==> (serial matches Ok(s) && s@ == eth1addr->0@)
            &&& !custom && !first && !second && chosen is Some ==> serial is Ok && machine is Ok
                && serial->Ok_0@ == machine->Ok_0@
            &&& !custom && !first && !second && chosen is None ==> (serial matches Ok(s)
                ==> random_text(s@))
        }),
        serial matches Err(e) ==> e@ == "getrandom(2) failed"@,
{
    lemma_source_names();
}

proof fn lemma_source_names()
    ensures
        "custom"@ != "uboot_ethaddr"@,
        "custom"@ != "uboot_eth1addr"@,
        "uboot_ethaddr"@ != "uboot_eth1addr"@,
        "auto"@ != "custom"@,
        "auto"@ != "uboot_ethaddr"@,
        "auto"@ != "uboot_eth1addr"@,
        "custom"@ != "wifi_mac"@,
        "auto"@ != "wifi_mac"@,
{
    reveal_strlit("custom");
    reveal_strlit("uboot_ethaddr");
    reveal_strlit("uboot_eth1addr");
    reveal_strlit("auto");
    reveal_strlit("wifi_mac");
    assert("custom"@.len() == 6 && "uboot_ethaddr"@.len() == 13 && "uboot_eth1addr"@.len() == 14
        && "auto"@.len() == 4 && "wifi_mac"@.len() == 8);
}

} // verus!
