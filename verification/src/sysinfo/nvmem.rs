//! Ethernet addresses from NVMEM cells and the U-Boot environment.

use vstd::prelude::*;

use crate::numbers::{hex_lower_bytes, hex_lower_text};
use crate::text::{
    ascii_lower_text, chars_of, lossy_text, non_empty_text, opt_str, opt_text, same_text, string_of,
    strip_colons, to_lower_chars, trim, trim_text, trimmed_non_empty, utf8_lossy, without_colons,
};

verus! {

/// Cells of the AM62X and J722S.
pub const AM62X_ETH0: &'static str = "/sys/bus/nvmem/devices/rv3028_eeprom0/cells/mac-address@0,0";

/// Cells of the AM62X and J722S.
pub const AM62X_ETH1: &'static str = "/sys/bus/nvmem/devices/rv3028_eeprom0/cells/mac-address@0,6";

/// Cells of the i.MX95.
pub const IMX95_ETH0: &'static str = "/sys/bus/nvmem/devices/ELE-OCOTP0/cells/mac-address@514,0";

/// Cells of the i.MX95.
pub const IMX95_ETH1: &'static str = "/sys/bus/nvmem/devices/ELE-OCOTP0/cells/mac-address@1514,0";

/// Cells of the i.MX91 and i.MX93.
pub const IMX93_ETH0: &'static str = "/sys/bus/nvmem/devices/ELE-OCOTP0/cells/mac-address@4ec,0";

/// Cells of the i.MX91 and i.MX93.
pub const IMX93_ETH1: &'static str = "/sys/bus/nvmem/devices/ELE-OCOTP0/cells/mac-address@4f2,0";

/// Cells of the i.MX8MP, the first of which the i.MX8MM has too.
pub const IMX8MP_ETH0: &'static str = "/sys/bus/nvmem/devices/imx-ocotp0/cells/mac-address@90,0";

/// Cells of the i.MX8MP.
pub const IMX8MP_ETH1: &'static str = "/sys/bus/nvmem/devices/imx-ocotp0/cells/mac-address@96,0";

/// Cells of the SOM60.
pub const SOM60_ETH0: &'static str = "/sys/bus/nvmem/devices/0-00500/of_node/mac-address@2";

/// Cells of the SOM60.
pub const SOM60_ETH1: &'static str = "/sys/bus/nvmem/devices/0-00500/of_node/mac-address@8";

/// U-Boot variable with the address of the first interface.
pub const UBOOT_ETHADDR: &'static str = "ethaddr";

/// Where a SoC keeps its Ethernet addresses.
pub enum MacSource {
    /// Two NVMEM cells.
    Cells {
        /// Path of the cell of the first interface.
        eth0: &'static str,
        /// Path of the cell of the second interface.
        eth1: &'static str,
    },
    /// One NVMEM cell.
    SingleCell {
        /// Path of the cell of the first interface.
        eth0: &'static str,
    },
    /// A U-Boot environment variable.
    Uboot {
        /// Name of the variable.
        variable: &'static str,
    },
}

/// Where a SoC keeps its Ethernet addresses, if it is a known one.
pub open spec fn source_of(soc: Seq<char>) -> Option<MacSource> {
    if soc == "i.MX95"@ {
        Some(MacSource::Cells { eth0: IMX95_ETH0, eth1: IMX95_ETH1 })
    } else if soc == "i.MX8MP"@ {
        Some(MacSource::Cells { eth0: IMX8MP_ETH0, eth1: IMX8MP_ETH1 })
    } else if soc == "i.MX8MM"@ {
        Some(MacSource::SingleCell { eth0: IMX8MP_ETH0 })
    } else if soc == "i.MX91"@ || soc == "i.MX93"@ {
        Some(MacSource::Cells { eth0: IMX93_ETH0, eth1: IMX93_ETH1 })
    } else if soc == "AM62X"@ || soc == "J722S"@ {
        Some(MacSource::Cells { eth0: AM62X_ETH0, eth1: AM62X_ETH1 })
    } else if soc == "sama5d36"@ {
        Some(MacSource::Cells { eth0: SOM60_ETH0, eth1: SOM60_ETH1 })
    } else if soc == "sama5d31"@ {
        Some(MacSource::Uboot { variable: UBOOT_ETHADDR })
    } else {
        None
    }
}

/// Where a SoC keeps its Ethernet addresses, if it is a known one.
pub fn mac_source(soc: &str) -> (source: Option<MacSource>)
    ensures
        source == source_of(soc@),
{
    if same_text(soc, "i.MX95") {
        Some(MacSource::Cells { eth0: IMX95_ETH0, eth1: IMX95_ETH1 })
    } else if same_text(soc, "i.MX8MP") {
        Some(MacSource::Cells { eth0: IMX8MP_ETH0, eth1: IMX8MP_ETH1 })
    } else if same_text(soc, "i.MX8MM") {
        Some(MacSource::SingleCell { eth0: IMX8MP_ETH0 })
    } else if same_text(soc, "i.MX91") || same_text(soc, "i.MX93") {
        Some(MacSource::Cells { eth0: IMX93_ETH0, eth1: IMX93_ETH1 })
    } else if same_text(soc, "AM62X") || same_text(soc, "J722S") {
        Some(MacSource::Cells { eth0: AM62X_ETH0, eth1: AM62X_ETH1 })
    } else if same_text(soc, "sama5d36") {
        Some(MacSource::Cells { eth0: SOM60_ETH0, eth1: SOM60_ETH1 })
    } else if same_text(soc, "sama5d31") {
        Some(MacSource::Uboot { variable: UBOOT_ETHADDR })
    } else {
        None
    }
}

/// The serial number that a six-byte address gives: its bytes in reverse, in
/// lower-case hexadecimal.
pub open spec fn serial_mac(bytes: Seq<u8>) -> Option<Seq<char>> {
    if bytes.len() == 6 {
        Some(hex_lower_bytes(bytes.reverse()))
    } else {
        None
    }
}

/// Formats a six-byte NVMEM MAC payload as a reversed lowercase hex serial.
pub fn format_serial_mac(bytes: &[u8]) -> (text: Option<String>)
    ensures
        opt_text(text) == serial_mac(bytes@),
{
    if bytes.len() != 6 {
        return None;
    }
    let mut reversed: Vec<u8> = Vec::new();
    let mut i: usize = 0;
    while i < 6
        invariant
            i <= 6,
            bytes@.len() == 6,
            reversed@.len() == i,
            forall|j: int| 0 <= j < i ==> reversed@[j] == bytes@[5 - j],
        decreases 6 - i,
    {
        reversed.push(bytes[5 - i]);
        i += 1;
    }
    assert(reversed@ =~= bytes@.reverse());
    Some(hex_lower_text(reversed.as_slice()))
}

/// An ASCII hexadecimal digit.
pub open spec fn hex_char(c: char) -> bool {
    ('0' <= c && c <= '9') || ('a' <= c && c <= 'f') || ('A' <= c && c <= 'F')
}

/// The address in what `fw_printenv` wrote: twelve hexadecimal digits once
/// white space at the ends and colons are gone, in lower case.
pub open spec fn uboot_mac(output: Seq<char>) -> Option<Seq<char>> {
    let digits = without_colons(trim_text(output));
    if digits.len() == 12 && (forall|i: int| 0 <= i < 12 ==> hex_char(#[trigger] digits[i])) {
        Some(ascii_lower_text(digits))
    } else {
        None
    }
}

/// Reads the address in what `fw_printenv` wrote.
pub fn read_uboot_value(output: &str) -> (value: Option<String>)
    ensures
        opt_text(value) == uboot_mac(output@),
{
    let chars = chars_of(output);
    let digits = strip_colons(trim(chars.as_slice()));
    if digits.len() != 12 {
        return None;
    }
    let mut i: usize = 0;
    while i < 12
        invariant
            i <= 12,
            digits@.len() == 12,
            digits@ == without_colons(trim_text(output@)),
            forall|j: int| 0 <= j < i ==> hex_char(#[trigger] digits@[j]),
        decreases 12 - i,
    {
        let c: char = digits[i];
        if !(('0' <= c && c <= '9') || ('a' <= c && c <= 'f') || ('A' <= c && c <= 'F')) {
            assert(!hex_char(digits@[i as int]));
            return None;
        }
        i += 1;
    }
    let lower = to_lower_chars(digits.as_slice());
    Some(string_of(lower.as_slice()))
}

/// Ethernet addresses of a machine, as serial numbers.
#[derive(Debug, Clone, PartialEq, Eq)]
pub struct FuseMacs {
    /// Address of the first interface.
    pub eth0: Option<String>,
    /// Address of the second interface.
    pub eth1: Option<String>,
}

impl Default for FuseMacs {
    fn default() -> (macs: Self)
        ensures
            macs.eth0 is None,
            macs.eth1 is None,
    {
        FuseMacs { eth0: None, eth1: None }
    }
}

/// The serial number in a cell that could be read.
pub open spec fn cell_mac(cell: Option<Seq<u8>>) -> Option<Seq<char>> {
    match cell {
        Some(bytes) => serial_mac(bytes),
        None => None,
    }
}

/// The bytes of something that could be read.
pub open spec fn read_bytes(data: Option<&[u8]>) -> Option<Seq<u8>> {
    match data {
        Some(d) => Some(d@),
        None => None,
    }
}

/// Formats a cell, if it could be read.
pub fn read_mac_cell(cell: Option<&[u8]>) -> (text: Option<String>)
    ensures
        opt_text(text) == cell_mac(read_bytes(cell)),
{
    match cell {
        Some(bytes) => format_serial_mac(bytes),
        None => None,
    }
}

/// Reads what `fw_printenv` wrote, if it succeeded.
pub fn read_uboot_output(output: Option<&[u8]>) -> (value: Option<String>)
    ensures
        opt_text(value) == (match read_bytes(output) {
            Some(bytes) => uboot_mac(utf8_lossy(bytes)),
            None => None,
        }),
{
    match output {
        Some(bytes) => {
            let text = lossy_text(bytes);
            read_uboot_value(text.as_str())
        },
        None => None,
    }
}

/// The addresses of both interfaces, from what was read of their sources.
pub open spec fn fused(
    soc: Option<Seq<char>>,
    eth0: Option<Seq<u8>>,
    eth1: Option<Seq<u8>>,
) -> Option<(Option<Seq<char>>, Option<Seq<char>>)> {
    match soc {
        None => None,
        Some(soc) => {
            let macs = match source_of(soc) {
                None => (None::<Seq<char>>, None::<Seq<char>>),
                Some(MacSource::Cells { eth0: _, eth1: _ }) => (cell_mac(eth0), cell_mac(eth1)),
                Some(MacSource::SingleCell { eth0: _ }) => (cell_mac(eth0), None::<Seq<char>>),
                Some(MacSource::Uboot { variable: _ }) => (
                    match eth0 {
                        Some(bytes) => uboot_mac(utf8_lossy(bytes)),
                        None => None::<Seq<char>>,
                    },
                    None::<Seq<char>>,
                ),
            };
            if macs.0 is Some || macs.1 is Some {
                Some(macs)
            } else {
                None
            }
        },
    }
}

/// The texts of both addresses.
pub open spec fn fuse_texts(macs: Option<FuseMacs>) -> Option<
    (Option<Seq<char>>, Option<Seq<char>>),
> {
    match macs {
        Some(m) => Some((opt_text(m.eth0), opt_text(m.eth1))),
        None => None,
    }
}

/// The Ethernet addresses of a machine with this SoC. `eth0` and `eth1` are
/// what was read from the places that [`mac_source`] names: the bytes of a
/// cell, or what `fw_printenv` wrote.
pub fn fuse_macs(soc: Option<&str>, eth0: Option<&[u8]>, eth1: Option<&[u8]>) -> (macs: Option<
    FuseMacs,
>)
    ensures
        fuse_texts(macs) == fused(opt_str(soc), read_bytes(eth0), read_bytes(eth1)),
{
    let soc = match soc {
        Some(soc) => soc,
        None => {
            return None;
        },
    };
    let macs = match mac_source(soc) {
        Some(MacSource::Cells { .. }) => FuseMacs {
            eth0: read_mac_cell(eth0),
            eth1: read_mac_cell(eth1),
        },
        Some(MacSource::SingleCell { .. }) => FuseMacs { eth0: read_mac_cell(eth0), eth1: None },
        Some(MacSource::Uboot { .. }) => FuseMacs { eth0: read_uboot_output(eth0), eth1: None },
        None => {
            return None;
        },
    };
    if macs.eth0.is_some() || macs.eth1.is_some() {
        Some(macs)
    } else {
        None
    }
}

/// The SoC's name from its two descriptions: the first that is not blank.
pub open spec fn soc_name(
    soc_id: Option<Seq<char>>,
    family: Option<Seq<char>>,
) -> Option<Seq<char>> {
    if soc_id is Some && non_empty_text(soc_id->0) is Some {
        non_empty_text(soc_id->0)
    } else if family is Some {
        non_empty_text(family->0)
    } else {
        None
    }
}

/// The SoC's name: what `/sys/devices/soc0/soc_id` holds, or else what
/// `/sys/devices/soc0/family` holds.
pub fn soc_id(id: Option<&str>, family: Option<&str>) -> (name: Option<String>)
    ensures
        opt_text(name) == soc_name(
            opt_str(id),
            opt_str(family),
        ),
{
    if let Some(text) = id {
        if let Some(name) = trimmed_non_empty(text) {
            return Some(name);
        }
    }
    match family {
        Some(text) => trimmed_non_empty(text),
        None => None,
    }
}

// ---------------------------------------------------------------------------
// Laws
// ---------------------------------------------------------------------------

/// No two of the known SoCs share a name.
pub proof fn lemma_soc_names()
    ensures
        "i.MX95"@ != "i.MX8MP"@,
        "i.MX95"@ != "i.MX8MM"@,
        "i.MX95"@ != "i.MX91"@,
        "i.MX95"@ != "i.MX93"@,
        "i.MX95"@ != "AM62X"@,
        "i.MX95"@ != "J722S"@,
        "i.MX95"@ != "sama5d36"@,
        "i.MX95"@ != "sama5d31"@,
        "i.MX8MP"@ != "i.MX8MM"@,
        "i.MX8MP"@ != "i.MX91"@,
        "i.MX8MP"@ != "i.MX93"@,
        "i.MX8MP"@ != "AM62X"@,
        "i.MX8MP"@ != "J722S"@,
        "i.MX8MP"@ != "sama5d36"@,
        "i.MX8MP"@ != "sama5d31"@,
        "i.MX8MM"@ != "i.MX91"@,
        "i.MX8MM"@ != "i.MX93"@,
        "i.MX8MM"@ != "AM62X"@,
        "i.MX8MM"@ != "J722S"@,
        "i.MX8MM"@ != "sama5d36"@,
        "i.MX8MM"@ != "sama5d31"@,
        "i.MX91"@ != "AM62X"@,
        "i.MX91"@ != "J722S"@,
        "i.MX91"@ != "sama5d36"@,
        "i.MX91"@ != "sama5d31"@,
        "i.MX93"@ != "AM62X"@,
        "i.MX93"@ != "J722S"@,
        "i.MX93"@ != "sama5d36"@,
        "i.MX93"@ != "sama5d31"@,
        "AM62X"@ != "sama5d36"@,
        "AM62X"@ != "sama5d31"@,
        "J722S"@ != "sama5d36"@,
        "J722S"@ != "sama5d31"@,
        "sama5d36"@ != "sama5d31"@,
        "AM62LX"@ != "i.MX95"@,
        "AM62LX"@ != "i.MX8MP"@,
        "AM62LX"@ != "i.MX8MM"@,
        "AM62LX"@ != "i.MX91"@,
        "AM62LX"@ != "i.MX93"@,
        "AM62LX"@ != "AM62X"@,
        "AM62LX"@ != "J722S"@,
        "AM62LX"@ != "sama5d36"@,
        "AM62LX"@ != "sama5d31"@,
{
    reveal_strlit("i.MX95");
    reveal_strlit("i.MX8MP");
    reveal_strlit("i.MX8MM");
    reveal_strlit("i.MX91");
    reveal_strlit("i.MX93");
    reveal_strlit("AM62X");
    reveal_strlit("J722S");
    reveal_strlit("sama5d36");
    reveal_strlit("sama5d31");
    reveal_strlit("AM62LX");
    assert("i.MX95"@.len() == 6 && "i.MX91"@.len() == 6 && "i.MX93"@.len() == 6);
    assert("i.MX8MP"@.len() == 7 && "i.MX8MM"@.len() == 7);
    assert("AM62X"@.len() == 5 && "J722S"@.len() == 5 && "AM62LX"@.len() == 6);
    assert("sama5d36"@.len() == 8 && "sama5d31"@.len() == 8);
    assert("i.MX95"@[4] == '9' && "i.MX91"@[4] == '9' && "AM62LX"@[4] == 'L');
    assert("i.MX95"@[5] == '5' && "i.MX91"@[5] == '1' && "i.MX93"@[5] == '3'
        && "AM62LX"@[5] == 'X');
    assert("i.MX8MP"@[6] == 'P' && "i.MX8MM"@[6] == 'M');
    assert("sama5d36"@[7] == '6' && "sama5d31"@[7] == '1');
}

/// The places where the known SoCs keep their addresses.
pub proof fn law_places(soc: &str, source: Option<MacSource>)
    requires
        call_ensures(mac_source, (soc,), source),
    ensures
        soc@ == "i.MX95"@ ==> (source matches Some(MacSource::Cells { eth0, eth1 }) && eth0@
            == "/sys/bus/nvmem/devices/ELE-OCOTP0/cells/mac-address@514,0"@ && eth1@
            == "/sys/bus/nvmem/devices/ELE-OCOTP0/cells/mac-address@1514,0"@),
        soc@ == "i.MX91"@ || soc@ == "i.MX93"@ ==> (source matches Some(
            MacSource::Cells { eth0, eth1 },
        ) && eth0@ == "/sys/bus/nvmem/devices/ELE-OCOTP0/cells/mac-address@4ec,0"@ && eth1@
            == "/sys/bus/nvmem/devices/ELE-OCOTP0/cells/mac-address@4f2,0"@),
        soc@ == "i.MX8MP"@ ==> (source matches Some(MacSource::Cells { eth0, eth1 }) && eth0@
            == "/sys/bus/nvmem/devices/imx-ocotp0/cells/mac-address@90,0"@ && eth1@
            == "/sys/bus/nvmem/devices/imx-ocotp0/cells/mac-address@96,0"@),
        soc@ == "i.MX8MM"@ ==> (source matches Some(MacSource::SingleCell { eth0 }) && eth0@
            == "/sys/bus/nvmem/devices/imx-ocotp0/cells/mac-address@90,0"@),
        soc@ == "AM62X"@ || soc@ == "J722S"@ ==> (source matches Some(
            MacSource::Cells { eth0, eth1 },
        ) && eth0@ == "/sys/bus/nvmem/devices/rv3028_eeprom0/cells/mac-address@0,0"@ && eth1@
            == "/sys/bus/nvmem/devices/rv3028_eeprom0/cells/mac-address@0,6"@),
        soc@ == "sama5d36"@ ==> (source matches Some(MacSource::Cells { eth0, eth1 }) && eth0@
            == "/sys/bus/nvmem/devices/0-00500/of_node/mac-address@2"@ && eth1@
            == "/sys/bus/nvmem/devices/0-00500/of_node/mac-address@8"@),
        soc@ == "sama5d31"@ ==> (source matches Some(MacSource::Uboot { variable }) && variable@
            == "ethaddr"@),
        soc@ != "i.MX95"@ && soc@ != "i.MX91"@ && soc@ != "i.MX93"@ && soc@ != "i.MX8MP"@ && soc@
            != "i.MX8MM"@ && soc@ != "AM62X"@ && soc@ != "J722S"@ && soc@ != "sama5d36"@ && soc@
            != "sama5d31"@ ==> source is None,
{
    lemma_soc_names();
}

/// Whether a digit of lower-case hexadecimal stands for the number.
pub open spec fn shows_digit(c: char, d: int) -> bool {
    if d < 10 {
        c as int == '0' as int + d
    } else {
        c as int == 'a' as int + (d - 10)
    }
}

/// Whether a text of twelve digits shows six bytes, the last of them first and
/// the upper half of each in front of the lower one.
pub open spec fn shows_reversed(text: Seq<char>, bytes: Seq<u8>) -> bool {
    &&& text.len() == 12
    &&& bytes.len() == 6
    &&& forall|k: int|
        #![trigger bytes[k]]
        0 <= k < 6 ==> shows_digit(text[2 * (5 - k)], bytes[k] as int / 16) && shows_digit(
            text[2 * (5 - k) + 1],
            bytes[k] as int % 16,
        )
}

/// The digits of a reversed address.
pub proof fn lemma_reversed_digits(bytes: Seq<u8>)
    requires
        bytes.len() == 6,
    ensures
        shows_reversed(hex_lower_bytes(bytes.reverse()), bytes),
{
    let r = bytes.reverse();
    crate::numbers::lemma_lower_hex_at(r, 0);
    assert forall|k: int| #![trigger bytes[k]] 0 <= k < 6 implies shows_digit(
        hex_lower_bytes(r)[2 * (5 - k)],
        bytes[k] as int / 16,
    ) && shows_digit(hex_lower_bytes(r)[2 * (5 - k) + 1], bytes[k] as int % 16) by {
        crate::numbers::lemma_lower_hex_at(r, 5 - k);
        assert(r[5 - k] == bytes[k]);
    }
}

/// A cell of six bytes is shown with its last byte first; a cell of any other
/// length gives nothing.
pub proof fn law_serial_of_a_cell(bytes: &[u8], text: Option<String>)
    requires
        call_ensures(format_serial_mac, (bytes,), text),
    ensures
        text is Some <==> bytes@.len() == 6,
        text matches Some(t) ==> shows_reversed(t@, bytes@),
{
    if bytes@.len() == 6 {
        lemma_reversed_digits(bytes@);
    }
}

/// The fused addresses of a SoC with two cells: each is what its own cell shows,
/// whatever the other one gave, and there are none where neither gave one.
pub proof fn law_two_cells(
    soc: &str,
    eth0: Option<&[u8]>,
    eth1: Option<&[u8]>,
    macs: Option<FuseMacs>,
)
    requires
        soc@ == "i.MX95"@ || soc@ == "i.MX91"@ || soc@ == "i.MX93"@ || soc@ == "i.MX8MP"@ || soc@
            == "AM62X"@ || soc@ == "J722S"@ || soc@ == "sama5d36"@,
        call_ensures(fuse_macs, (Some(soc), eth0, eth1), macs),
    ensures
        macs is Some <==> (eth0 is Some && eth0->0@.len() == 6) || (eth1 is Some && eth1->0@.len()
            == 6),
        macs matches Some(m) ==> {
            &&& m.eth0 is Some <==> eth0 is Some && eth0->0@.len() == 6
            &&& m.eth0 matches Some(text) ==> shows_reversed(text@, eth0->0@)
            &&& m.eth1 is Some <==> eth1 is Some && eth1->0@.len() == 6
            &&& m.eth1 matches Some(text) ==> shows_reversed(text@, eth1->0@)
        },
{
    lemma_soc_names();
    if eth0 is Some && eth0->0@.len() == 6 {
        lemma_reversed_digits(eth0->0@);
    }
    if eth1 is Some && eth1->0@.len() == 6 {
        lemma_reversed_digits(eth1->0@);
    }
}

/// A SoC with one cell has the address that the cell shows and no second one; an
/// unknown SoC, and none at all, have no address.
pub proof fn law_other_socs(
    soc: Option<&str>,
    eth0: Option<&[u8]>,
    eth1: Option<&[u8]>,
    macs: Option<FuseMacs>,
    printed: Option<String>,
)
    requires
        call_ensures(fuse_macs, (soc, eth0, eth1), macs),
        call_ensures(read_uboot_output, (eth0,), printed),
    ensures
        soc matches Some(s) ==> s@ == "sama5d31"@ ==> {
            &&& macs is Some <==> printed is Some
            &&& macs matches Some(m) ==> opt_text(m.eth0) == opt_text(printed) && m.eth1 is None
        },
        soc matches Some(s) ==> s@ == "i.MX8MM"@ ==> {
            &&& macs is Some <==> eth0 is Some && eth0->0@.len() == 6
            &&& macs matches Some(m) ==> (m.eth0 matches Some(text) && shows_reversed(
                text@,
                eth0->0@,
            )) && m.eth1 is None
        },
        soc is None ==> macs is None,
        soc matches Some(s) ==> source_of(s@) is None ==> macs is None,
{
    lemma_soc_names();
    if eth0 is Some && eth0->0@.len() == 6 {
        lemma_reversed_digits(eth0->0@);
    }
}

/// The address that the boot loader printed: the digits between colons and blanks,
/// in lower case, where there are twelve of them and nothing else.
pub proof fn law_printed_address(output: &str, value: Option<String>, digits: Seq<char>)
    requires
        call_ensures(read_uboot_value, (output,), value),
        digits == without_colons(trim_text(output@)),
    ensures
        value is Some <==> digits.len() == 12 && forall|i: int|
            0 <= i < 12 ==> {
                ||| '0' <= #[trigger] digits[i] <= '9'
                ||| 'a' <= digits[i] <= 'f'
                ||| 'A' <= digits[i] <= 'F'
            },
        value matches Some(text) ==> text@.len() == 12 && forall|i: int|
            0 <= i < 12 ==> {
                &&& 'A' <= #[trigger] digits[i] <= 'F' ==> text@[i] as int == digits[i] as int + 32
                &&& !('A' <= digits[i] <= 'F') ==> text@[i] == digits[i]
            },
{
    if digits.len() == 12 && forall|i: int|
        0 <= i < 12 ==> {
            ||| '0' <= #[trigger] digits[i] <= '9'
            ||| 'a' <= digits[i] <= 'f'
            ||| 'A' <= digits[i] <= 'F'
        } {
        assert forall|i: int| 0 <= i < 12 implies hex_char(#[trigger] digits[i]) by {}
    }
    if value is Some {
        assert forall|i: int| 0 <= i < 12 implies {
            ||| '0' <= #[trigger] digits[i] <= '9'
            ||| 'a' <= digits[i] <= 'f'
            ||| 'A' <= digits[i] <= 'F'
        } by {
            assert(hex_char(digits[i]));
        }
    }
}

/// A SoC is named by its first description unless that is blank.
pub proof fn law_soc_id(
    id: Option<&str>,
    family: Option<&str>,
    name: Option<String>,
    of_id: Option<String>,
    of_family: Option<String>,
)
    requires
        call_ensures(soc_id, (id, family), name),
        id matches Some(text) ==> call_ensures(trimmed_non_empty, (text,), of_id),
        id is None ==> of_id is None,
        family matches Some(text) ==> call_ensures(trimmed_non_empty, (text,), of_family),
        family is None ==> of_family is None,
    ensures
        of_id matches Some(text) ==> (name matches Some(n) && n@ == text@),
        of_id is None ==> (of_family matches Some(text) ==> (name matches Some(n) && n@ == text@)),
        of_id is None && of_family is None ==> name is None,
{
}

/// A cell that could not be read gives nothing, and what could be is shown with its
/// last byte first.
pub proof fn law_read_cells(
    cell: Option<&[u8]>,
    text: Option<String>,
    output: &[u8],
    printed: String,
    slice: &str,
    value: Option<String>,
    read: Option<String>,
    unread: Option<String>,
)
    requires
        call_ensures(read_mac_cell, (cell,), text),
        call_ensures(lossy_text, (output,), printed),
        slice@ == printed@,
        call_ensures(read_uboot_value, (slice,), value),
        call_ensures(read_uboot_output, (Some(output),), read),
        call_ensures(read_uboot_output, (None,), unread),
    ensures
        text is Some <==> cell is Some && cell->0@.len() == 6,
        text matches Some(t) ==> shows_reversed(t@, cell->0@),
        opt_text(read) == opt_text(value),
        unread is None,
{
    if cell is Some && cell->0@.len() == 6 {
        lemma_reversed_digits(cell->0@);
    }
}

} // verus!
