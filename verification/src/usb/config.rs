//! The gadget as the configuration file describes it.

use toml::Table;
use vstd::prelude::*;

use crate::document::{table_text, text_entry};
use crate::text::{debug_quoted, same_text, texts};
use crate::usb::registry::{occurrences, parse_function, plugin_kind, PluginFunction};

verus! {

/// USB gadget configuration.
#[derive(Debug, Clone)]
pub struct GadgetConfig {
    /// Gadget name in configfs.
    pub name: Option<String>,
    /// USB device controllers to bind. Where it is omitted every controller is
    /// bound, and so are those that appear later.
    pub udc: Option<UdcSelector>,
    /// Microsoft OS descriptor configuration.
    pub os_descriptor: Option<OsDescriptorConfig>,
    /// Device descriptor fields.
    pub device: DeviceConfig,
    /// USB configurations.
    pub config: Vec<UsbConfigConfig>,
}

/// OS descriptor configuration.
#[derive(Debug, Clone)]
pub struct OsDescriptorConfig {
    /// Vendor code.
    pub vendor_code: Option<u8>,
    /// Signature.
    pub qw_sign: Option<String>,
    /// Index of the configuration that the descriptor belongs to.
    pub config: Option<usize>,
}

/// Controller selection: a single name or a list of names.
#[derive(Debug, Clone)]
pub enum UdcSelector {
    /// A single name.
    One(String),
    /// A list of names.
    Many(Vec<String>),
}

/// Device-level configuration.
#[derive(Debug, Clone)]
pub struct DeviceConfig {
    /// Vendor id.
    pub vendor: u16,
    /// Product id.
    pub product: u16,
    /// Device class.
    pub class: Option<u8>,
    /// Device subclass.
    pub sub_class: Option<u8>,
    /// Device protocol.
    pub protocol: Option<u8>,
    /// Manufacturer string.
    pub manufacturer: Option<String>,
    /// Product string.
    pub product_name: Option<String>,
    /// Where the product string comes from.
    pub product_name_source: Option<String>,
    /// Serial number.
    pub serial: Option<String>,
    /// Where the serial number comes from.
    pub serial_source: Option<String>,
}

/// A USB configuration.
#[derive(Debug, Clone)]
pub struct UsbConfigConfig {
    /// Description string.
    pub description: Option<String>,
    /// Maximum power, in milliamperes.
    pub max_power: Option<u16>,
    /// The device is self-powered.
    pub self_powered: Option<bool>,
    /// The device can wake the host.
    pub remote_wakeup: Option<bool>,
    /// Functions.
    pub function: Vec<FunctionConfig>,
}

/// Serial port function.
#[derive(Debug, Clone)]
pub struct SerialConfig {
    /// Kind of serial port.
    pub class: String,
    /// Use it as a console.
    pub console: Option<bool>,
}

/// Network function.
#[derive(Debug, Clone)]
pub struct NetConfig {
    /// Kind of network interface.
    pub class: String,
    /// Address of the device.
    pub dev_addr: Option<String>,
    /// Address of the host.
    pub host_addr: Option<String>,
    /// Queue length multiplier.
    pub qmult: Option<u32>,
    /// Compatible id of the OS descriptor.
    pub os_compatible_id: Option<String>,
    /// Sub-compatible id of the OS descriptor.
    pub os_sub_compatible_id: Option<String>,
    /// Interface class.
    pub interface_class: Option<u8>,
    /// Interface subclass.
    pub interface_sub_class: Option<u8>,
    /// Interface protocol.
    pub interface_protocol: Option<u8>,
}

/// Logical unit of a mass-storage function.
#[derive(Debug, Clone)]
pub struct LunConfig {
    /// Backing file.
    pub file: Option<String>,
    /// It cannot be written.
    pub read_only: Option<bool>,
    /// It is an optical drive.
    pub cdrom: Option<bool>,
    /// Ignore forced unit access.
    pub no_fua: Option<bool>,
    /// It can be removed.
    pub removable: Option<bool>,
    /// Inquiry string.
    pub inquiry_string: Option<String>,
}

/// Mass-storage function.
#[derive(Debug, Clone)]
pub struct MsdConfig {
    /// Allow bulk endpoints to be halted.
    pub stall: Option<bool>,
    /// Logical units.
    pub lun: Vec<LunConfig>,
}

/// A USB function.
#[derive(Debug, Clone)]
pub enum FunctionConfig {
    /// A serial port.
    Serial(SerialConfig),
    /// A network interface.
    Net(NetConfig),
    /// Mass storage.
    Msd(MsdConfig),
    /// A function that this program services itself.
    Plugin(PluginFunction),
}

impl FunctionConfig {
    /// A function that this program services itself.
    pub fn plugin(config: PluginFunction) -> (function: FunctionConfig)
        ensures
            function == FunctionConfig::Plugin(config),
    {
        FunctionConfig::Plugin(config)
    }

    /// The kind of the function.
    pub fn kind(&self) -> (kind: &'static str)
        ensures
            kind@ == (match self {
                FunctionConfig::Serial(_) => "serial"@,
                FunctionConfig::Net(_) => "net"@,
                FunctionConfig::Msd(_) => "msd"@,
                FunctionConfig::Plugin(config) => plugin_kind(*config),
            }),
    {
        match self {
            FunctionConfig::Serial(_) => "serial",
            FunctionConfig::Net(_) => "net",
            FunctionConfig::Msd(_) => "msd",
            FunctionConfig::Plugin(config) => config.kind(),
        }
    }
}

/// How to read a function entry of the configuration file.
#[derive(Debug, Clone, Copy, PartialEq, Eq, Structural)]
pub enum FunctionSection {
    /// As a [`SerialConfig`].
    Serial,
    /// As a [`NetConfig`].
    Net,
    /// As an [`MsdConfig`].
    Msd,
    /// With the registration of that index.
    Registered(usize),
    /// Not at all: nobody knows functions of its type.
    Unsupported,
}

/// Whether a function entry of type `kind` is to be read like this.
pub open spec fn read_as(
    kind: Seq<char>,
    registered: Seq<Seq<char>>,
    section: Result<FunctionSection, String>,
) -> bool {
    if kind == "serial"@ {
        section == Ok::<FunctionSection, String>(FunctionSection::Serial)
    } else if kind == "net"@ {
        section == Ok::<FunctionSection, String>(FunctionSection::Net)
    } else if kind == "msd"@ {
        section == Ok::<FunctionSection, String>(FunctionSection::Msd)
    } else {
        let n = occurrences(registered, kind);
        match section {
            Ok(FunctionSection::Registered(i)) => n == 1 && i < registered.len()
                && registered[i as int] == kind,
            Ok(FunctionSection::Unsupported) => n == 0,
            Ok(_) => false,
            Err(e) => n >= 2 && e@ == "multiple USB function registrations found for type "@
                + debug_quoted(kind),
        }
    }
}

/// How to read a function entry of the configuration file, given the types that
/// are registered. An entry has to say its type.
pub fn parse_function_config(table: &Table, registered: &Vec<String>) -> (section: Result<
    FunctionSection,
    String,
>)
    ensures
        match text_entry(*table, "type"@) {
            Some(kind) => read_as(kind, texts(registered@), section),
            None => section matches Err(e) && e@
                == "USB function entry is missing string field `type`"@,
        },
{
    let kind = match table_text(table, "type") {
        Some(kind) => kind,
        None => {
            return Err("USB function entry is missing string field `type`".to_owned());
        },
    };
    if same_text(kind.as_str(), "serial") {
        Ok(FunctionSection::Serial)
    } else if same_text(kind.as_str(), "net") {
        Ok(FunctionSection::Net)
    } else if same_text(kind.as_str(), "msd") {
        Ok(FunctionSection::Msd)
    } else {
        match parse_function(kind.as_str(), registered) {
            Ok(Some(i)) => Ok(FunctionSection::Registered(i)),
            Ok(None) => Ok(FunctionSection::Unsupported),
            Err(err) => Err(err),
        }
    }
}

/// An entry has to say its type. A serial port, a network interface and mass storage
/// are known; any other type is looked up among those that are registered.
pub proof fn law_function_entries(
    table: Table,
    registered: Vec<String>,
    text: Option<String>,
    kind: &str,
    found: Result<Option<usize>, String>,
    section: Result<FunctionSection, String>,
)
    requires
        call_ensures(table_text, (&table, "type"), text),
        text matches Some(t) ==> kind@ == t@,
        call_ensures(parse_function, (kind, &registered), found),
        call_ensures(parse_function_config, (&table, &registered), section),
    ensures
        text is None ==> (section matches Err(e) && e@
            == "USB function entry is missing string field `type`"@),
        text is Some && kind@ == "serial"@ ==> section == Ok::<FunctionSection, String>(
            FunctionSection::Serial,
        ),
        text is Some && kind@ == "net"@ ==> section == Ok::<FunctionSection, String>(
            FunctionSection::Net,
        ),
        text is Some && kind@ == "msd"@ ==> section == Ok::<FunctionSection, String>(
            FunctionSection::Msd,
        ),
        text is Some && kind@ != "serial"@ && kind@ != "net"@ && kind@ != "msd"@ ==> {
            &&& found matches Ok(Some(i)) ==> (section matches Ok(FunctionSection::Registered(k))
                && registered@[k as int]@ == kind@)
            &&& found matches Ok(n) ==> (n is None ==> section == Ok::<FunctionSection, String>(
                FunctionSection::Unsupported,
            ))
            &&& found matches Err(e) ==> (section matches Err(r) && r@ == e@)
        },
{
    reveal_strlit("serial");
    reveal_strlit("net");
    reveal_strlit("msd");
    assert("serial"@.len() == 6 && "net"@.len() == 3 && "msd"@.len() == 3);
    assert("net"@[0] != "msd"@[0]);
    if text is Some && section matches Ok(FunctionSection::Registered(_)) {
        let k = section->Ok_0->Registered_0;
        if kind@ != "serial"@ && kind@ != "net"@ && kind@ != "msd"@ {
            assert(texts(registered@)[k as int] == registered@[k as int]@);
        }
    }
}

/// The kinds of the functions.
pub proof fn law_function_kinds(
    function: FunctionConfig,
    kind: &str,
    plugin: PluginFunction,
    made: FunctionConfig,
)
    requires
        call_ensures(FunctionConfig::kind, (&function,), kind),
        call_ensures(FunctionConfig::plugin, (plugin,), made),
    ensures
        function is Serial ==> kind@ == "serial"@,
        function is Net ==> kind@ == "net"@,
        function is Msd ==> kind@ == "msd"@,
        function == FunctionConfig::Plugin(plugin) ==> {
            &&& plugin is Dfu ==> kind@ == "dfu"@
            &&& plugin is FastbootUsb ==> kind@ == "fastboot-usb"@
            &&& plugin is Fbk ==> kind@ == "fbk"@
        },
        made == FunctionConfig::Plugin(plugin),
{
}

} // verus!
