//! The serial number of the machine.

use vstd::prelude::*;

use crate::numbers::{hex_lower_bytes, hex_lower_text};
use crate::sysinfo::nvmem::{
    cell_mac, lemma_reversed_digits, lemma_soc_names, read_bytes, read_mac_cell, read_uboot_output,
    shows_digit, shows_reversed, source_of, uboot_mac, MacSource, AM62X_ETH0, AM62X_ETH1,
};
use crate::text::{
    ascii_lower_text, chars_of, non_empty_text, opt_str, same_text, string_of, strip_colons,
    to_lower_chars, trim, utf8_lossy, without_colons,
};

pub use crate::sysinfo::nvmem::{format_serial_mac, soc_id};

verus! {

/// Ethernet addresses of a machine, as serial numbers; empty where unknown.
#[derive(Debug, Clone)]
pub struct MacAddresses {
    /// Address of the first interface.
    pub eth0: String,
    /// Address of the second interface.
    pub eth1: String,
}

impl Default for MacAddresses {
    fn default() -> (macs: Self)
        ensures
            macs.eth0@ == Seq::<char>::empty(),
            macs.eth1@ == Seq::<char>::empty(),
    {
        MacAddresses { eth0: String::new(), eth1: String::new() }
    }
}

/// Where a SoC keeps its Ethernet addresses, if it is a known one; the AM62LX
/// has the cells of the AM62X.
pub open spec fn serial_source_of(soc: Seq<char>) -> Option<MacSource> {
    if soc == "AM62LX"@ {
        Some(MacSource::Cells { eth0: AM62X_ETH0, eth1: AM62X_ETH1 })
    } else {
        source_of(soc)
    }
}

/// Where a SoC keeps its Ethernet addresses, if it is a known one.
pub fn mac_source(soc: &str) -> (source: Option<MacSource>)
    ensures
        source == serial_source_of(soc@),
{
    if same_text(soc, "AM62LX") {
        Some(MacSource::Cells { eth0: AM62X_ETH0, eth1: AM62X_ETH1 })
    } else {
        crate::sysinfo::nvmem::mac_source(soc)
    }
}

/// A text, or an empty one where there is none.
pub open spec fn or_empty(text: Option<Seq<char>>) -> Seq<char> {
    match text {
        Some(t) => t,
        None => Seq::empty(),
    }
}

/// The text of an optional string, or an empty one.
pub fn text_or_empty(text: Option<String>) -> (s: String)
    ensures
        s@ == or_empty(crate::text::opt_text(text)),
{
    match text {
        Some(s) => s,
        None => String::new(),
    }
}

/// The addresses of both interfaces, from what was read of their sources.
pub open spec fn addresses(
    soc: Option<Seq<char>>,
    eth0: Option<Seq<u8>>,
    eth1: Option<Seq<u8>>,
) -> Option<(Seq<char>, Seq<char>)> {
    match soc {
        None => None,
        Some(soc) => match serial_source_of(soc) {
            None => None,
            Some(MacSource::Cells { eth0: _, eth1: _ }) => Some(
                (or_empty(cell_mac(eth0)), or_empty(cell_mac(eth1))),
            ),
            Some(MacSource::SingleCell { eth0: _ }) => Some(
                (or_empty(cell_mac(eth0)), Seq::<char>::empty()),
            ),
            Some(MacSource::Uboot { variable: _ }) => match eth0 {
                Some(bytes) => match uboot_mac(utf8_lossy(bytes)) {
                    Some(mac) => Some((mac, Seq::<char>::empty())),
                    None => None,
                },
                None => None,
            },
        },
    }
}

/// The texts of both addresses.
pub open spec fn address_texts(macs: Option<MacAddresses>) -> Option<(Seq<char>, Seq<char>)> {
    match macs {
        Some(m) => Some((m.eth0@, m.eth1@)),
        None => None,
    }
}

/// The Ethernet addresses of a machine with this SoC. `eth0` and `eth1` are
/// what was read from the places that [`mac_source`] names.
pub fn macs(soc: Option<&str>, eth0: Option<&[u8]>, eth1: Option<&[u8]>) -> (macs: Option<
    MacAddresses,
>)
    ensures
        address_texts(macs) == addresses(opt_str(soc), read_bytes(eth0), read_bytes(eth1)),
{
    let soc = match soc {
        Some(soc) => soc,
        None => {
            return None;
        },
    };
    match mac_source(soc) {
        Some(MacSource::Cells { .. }) => Some(
            MacAddresses {
                eth0: text_or_empty(read_mac_cell(eth0)),
                eth1: text_or_empty(read_mac_cell(eth1)),
            },
        ),
        Some(MacSource::SingleCell { .. }) => Some(
            MacAddresses { eth0: text_or_empty(read_mac_cell(eth0)), eth1: String::new() },
        ),
        Some(MacSource::Uboot { .. }) => match read_uboot_output(eth0) {
            Some(eth0) => Some(MacAddresses { eth0, eth1: String::new() }),
            None => None,
        },
        None => None,
    }
}

/// The serial number: the address of the first interface.
pub fn serial(macs: &MacAddresses) -> (serial: String)
    ensures
        serial@ == macs.eth0@,
{
    macs.eth0.clone()
}

/// A text in lower case and without colons.
pub open spec fn normalized(text: Seq<char>) -> Seq<char> {
    without_colons(ascii_lower_text(text))
}

/// Puts a serial number in lower case and takes out its colons.
pub fn normalize(chars: &[char]) -> (text: String)
    ensures
        text@ == normalized(chars@),
{
    let lower = to_lower_chars(chars);
    let kept = strip_colons(lower.as_slice());
    string_of(kept.as_slice())
}

/// `rustix::rand::getrandom`: six random bytes, or nothing if the operating
/// system gives none.
#[verifier::external_body]
fn random_bytes() -> (bytes: Option<Vec<u8>>)
    ensures
        bytes matches Some(b) ==> b@.len() == 6,
{
    let mut bytes = [0u8; 6];
    match rustix::rand::getrandom(&mut bytes, rustix::rand::GetRandomFlags::empty()) {
        Ok(_) => Some(bytes.to_vec()),
        Err(_) => None,
    }
}

/// Six bytes, whichever, in lower-case hexadecimal.
pub open spec fn random_text(text: Seq<char>) -> bool {
    exists|bytes: Seq<u8>| bytes.len() == 6 && text == #[trigger] hex_lower_bytes(bytes)
}

/// The serial number of six random bytes, in lower-case hexadecimal; `None` if
/// the operating system gives none.
pub fn random_serial() -> (serial: Option<String>)
    ensures
        serial matches Some(s) ==> random_text(s@),
{
    let bytes = random_bytes();
    let serial = serial_of_bytes(&bytes);
    assert(serial matches Some(s) ==> s@ == hex_lower_bytes(bytes->0@));
    serial
}

/// The serial number that the bytes of the operating system make: their text in
/// lower-case hexadecimal, or none if there are no bytes.
pub fn serial_of_bytes(bytes: &Option<Vec<u8>>) -> (serial: Option<String>)
    ensures
        match bytes {
            Some(b) => serial matches Some(s) && s@ == hex_lower_bytes(b@),
            None => serial is None,
        },
{
    match bytes {
        Some(bytes) => Some(hex_lower_text(bytes.as_slice())),
        None => None,
    }
}

/// The serial number that the source gives without resort to chance: that of
/// `/etc/wifi_mac` if it is asked for and not blank, otherwise the fused
/// address of the first interface if it is known.
pub open spec fn chosen_serial(
    source: Option<Seq<char>>,
    wifi_mac: Option<Seq<char>>,
    eth0: Option<Seq<char>>,
) -> Option<Seq<char>> {
    let wifi = match wifi_mac {
        Some(text) => non_empty_text(text),
        None => None,
    };
    if source == Some("wifi_mac"@) && wifi is Some {
        Some(normalized(wifi->0))
    } else {
        match eth0 {
            Some(mac) => if mac.len() > 0 {
                Some(mac)
            } else {
                None
            },
            None => None,
        }
    }
}

/// Resolves a serial number from the configured source (`wifi_mac` or `auto`,
/// which is the default and what any other source counts as). `wifi_mac` is
/// what `/etc/wifi_mac` holds, if it can be read. Where neither gives a serial
/// number a random one is made; that fails only if the operating system gives
/// no random bytes.
pub fn resolve_serial(
    source: Option<&str>,
    wifi_mac: Option<&str>,
    macs: Option<&MacAddresses>,
) -> (serial: Result<String, String>)
    ensures
        ({
            let chosen = chosen_serial(
                opt_str(source),
                opt_str(wifi_mac),
                match macs {
                    Some(m) => Some(m.eth0@),
                    None => None,
                },
            );
            match chosen {
                Some(text) => (serial matches Ok(s) && s@ == text),
                None => (serial matches Ok(s) ==> random_text(s@)),
            }
        }),
        serial matches Err(e) ==> e@ == "getrandom(2) failed"@,
{
    if let Some(source) = source {
        if same_text(source, "wifi_mac") {
            if let Some(text) = wifi_mac {
                let chars = chars_of(text);
                let value = trim(chars.as_slice());
                if value.len() > 0 {
                    return Ok(normalize(value));
                }
            }
        }
    }
    if let Some(macs) = macs {
        if !macs.eth0.as_str().is_empty() {
            return Ok(macs.eth0.clone());
        }
    }
    match random_serial() {
        Some(serial) => Ok(serial),
        None => Err("getrandom(2) failed".to_owned()),
    }
}

// ---------------------------------------------------------------------------
// Laws
// ---------------------------------------------------------------------------

/// The AM62LX has the cells of the AM62X; every other SoC keeps its addresses
/// where the table of places says.
pub proof fn law_places(soc: &str, source: Option<MacSource>, table: Option<MacSource>)
    requires
        call_ensures(mac_source, (soc,), source),
        call_ensures(crate::sysinfo::nvmem::mac_source, (soc,), table),
    ensures
        soc@ == "AM62LX"@ ==> (source matches Some(MacSource::Cells { eth0, eth1 }) && eth0@
            == "/sys/bus/nvmem/devices/rv3028_eeprom0/cells/mac-address@0,0"@ && eth1@
            == "/sys/bus/nvmem/devices/rv3028_eeprom0/cells/mac-address@0,6"@),
        soc@ != "AM62LX"@ ==> source == table,
{
}

/// On a SoC with two cells the first address is what the first cell shows, its
/// last byte first, and the second address what the second cell shows; a cell
/// that gave no six bytes leaves its address empty. Neither depends on the other
/// cell.
pub proof fn law_two_cells(
    soc: &str,
    eth0: Option<&[u8]>,
    eth1: Option<&[u8]>,
    found: Option<MacAddresses>,
)
    requires
        soc@ == "i.MX95"@ || soc@ == "i.MX91"@ || soc@ == "i.MX93"@ || soc@ == "i.MX8MP"@ || soc@
            == "AM62X"@ || soc@ == "AM62LX"@ || soc@ == "J722S"@ || soc@ == "sama5d36"@,
        call_ensures(macs, (Some(soc), eth0, eth1), found),
    ensures
        found is Some,
        eth0 matches Some(a) ==> a@.len() == 6 ==> shows_reversed(found->0.eth0@, a@),
        eth0 matches Some(a) ==> a@.len() != 6 ==> found->0.eth0@.len() == 0,
        eth0 is None ==> found->0.eth0@.len() == 0,
        eth1 matches Some(a) ==> a@.len() == 6 ==> shows_reversed(found->0.eth1@, a@),
        eth1 matches Some(a) ==> a@.len() != 6 ==> found->0.eth1@.len() == 0,
        eth1 is None ==> found->0.eth1@.len() == 0,
{
    lemma_soc_names();
    if eth0 is Some && eth0->0@.len() == 6 {
        lemma_reversed_digits(eth0->0@);
    }
    if eth1 is Some && eth1->0@.len() == 6 {
        lemma_reversed_digits(eth1->0@);
    }
}

/// Where six bytes were read from the first cell of a SoC that has two, the
/// serial number of source `auto`, or of no source, shows them, the last one
/// first, whatever the second cell gave.
pub proof fn law_serial_is_the_first_cell(
    soc: &str,
    a: &[u8],
    eth1: Option<&[u8]>,
    found: MacAddresses,
    source: Option<&str>,
    wifi_mac: Option<&str>,
    resolved: Result<String, String>,
    plain: String,
)
    requires
        soc@ == "i.MX95"@ || soc@ == "i.MX91"@ || soc@ == "i.MX93"@ || soc@ == "i.MX8MP"@ || soc@
            == "AM62X"@ || soc@ == "AM62LX"@ || soc@ == "J722S"@ || soc@ == "sama5d36"@,
        a@.len() == 6,
        call_ensures(macs, (Some(soc), Some(a), eth1), Some(found)),
        source matches Some(s) ==> s@ == "auto"@,
        call_ensures(resolve_serial, (source, wifi_mac, Some(&found)), resolved),
        call_ensures(serial, (&found,), plain),
    ensures
        resolved matches Ok(s) && shows_reversed(s@, a@),
        shows_reversed(plain@, a@),
{
    law_two_cells(soc, Some(a), eth1, Some(found));
    reveal_strlit("auto");
    reveal_strlit("wifi_mac");
    assert("auto"@.len() != "wifi_mac"@.len());
    assert(opt_str(source) != Some("wifi_mac"@));
    assert(found.eth0@.len() == 12);
}

/// What the first cell gave decides the first address alone, and what the second
/// cell gave the second one.
pub proof fn law_cells_are_apart(
    soc: Option<&str>,
    eth0: Option<&[u8]>,
    eth1: Option<&[u8]>,
    other: Option<&[u8]>,
    found: Option<MacAddresses>,
    instead: Option<MacAddresses>,
)
    requires
        call_ensures(macs, (soc, eth0, eth1), found),
        call_ensures(macs, (soc, eth0, other), instead),
    ensures
        found is Some <==> instead is Some,
        found matches Some(m) ==> m.eth0@ == instead->0.eth0@,
{
}

/// A SoC with one cell has what the cell shows and no second address; one whose
/// address the boot loader knows has the address that was printed, or none; an
/// unknown SoC, and none at all, have no addresses.
pub proof fn law_other_socs(
    soc: Option<&str>,
    eth0: Option<&[u8]>,
    eth1: Option<&[u8]>,
    found: Option<MacAddresses>,
    printed: Option<String>,
)
    requires
        call_ensures(macs, (soc, eth0, eth1), found),
        call_ensures(read_uboot_output, (eth0,), printed),
    ensures
        soc matches Some(s) ==> s@ == "i.MX8MM"@ ==> {
            &&& found is Some
            &&& found->0.eth1@.len() == 0
            &&& eth0 matches Some(a) ==> a@.len() == 6 ==> shows_reversed(found->0.eth0@, a@)
            &&& !(eth0 is Some && eth0->0@.len() == 6) ==> found->0.eth0@.len() == 0
        },
        soc matches Some(s) ==> s@ == "sama5d31"@ ==> {
            &&& found is Some <==> printed is Some
            &&& found matches Some(m) ==> m.eth0@ == printed->0@ && m.eth1@.len() == 0
        },
        soc is None ==> found is None,
        soc matches Some(s) ==> s@ != "AM62LX"@ && source_of(s@) is None ==> found is None,
{
    lemma_soc_names();
    if eth0 is Some && eth0->0@.len() == 6 {
        lemma_reversed_digits(eth0->0@);
    }
}

/// The serial number of source `wifi_mac` is what the file holds, in lower case
/// and without colons and blanks at its ends; any other source, or a blank file,
/// gives the first address. Only without one is the serial number left to
/// chance: twelve digits.
pub proof fn law_serial_sources(
    source: Option<&str>,
    wifi_mac: Option<&str>,
    known: Option<&MacAddresses>,
    file: Option<String>,
    resolved: Result<String, String>,
)
    requires
        call_ensures(resolve_serial, (source, wifi_mac, known), resolved),
        wifi_mac matches Some(text) ==> call_ensures(
            crate::text::trimmed_non_empty,
            (text,),
            file,
        ),
        wifi_mac is None ==> file is None,
    ensures
        source matches Some(s) ==> s@ == "wifi_mac"@ && file is Some ==> (resolved matches Ok(r)
            && r@ == without_colons(ascii_lower_text(file->0@))),
        (source matches Some(s) ==> s@ != "wifi_mac"@) || file is None ==> {
            &&& known matches Some(m) ==> m.eth0@.len() > 0 ==> (resolved matches Ok(r) && r@
                == known->0.eth0@)
            &&& (known matches Some(m) ==> m.eth0@.len() == 0) ==> (resolved matches Ok(r)
                ==> r@.len() == 12)
        },
        resolved matches Err(e) ==> e@ == "getrandom(2) failed"@,
{
    if resolved is Ok && random_text(resolved->Ok_0@) {
        let bytes = choose|bytes: Seq<u8>|
            bytes.len() == 6 && resolved->Ok_0@ == #[trigger] hex_lower_bytes(bytes);
        crate::numbers::lemma_lower_hex_at(bytes, 0);
    }
}

/// A serial number of the operating system's bytes shows each byte in its place.
pub proof fn law_serial_of_bytes(bytes: Option<Vec<u8>>, text: Option<String>, k: int)
    requires
        call_ensures(serial_of_bytes, (&bytes,), text),
    ensures
        text is Some <==> bytes is Some,
        bytes matches Some(b) ==> 0 <= k < b@.len() ==> {
            &&& text->0@.len() == 2 * b@.len()
            &&& shows_digit(text->0@[2 * k], b@[k] as int / 16)
            &&& shows_digit(text->0@[2 * k + 1], b@[k] as int % 16)
        },
{
    if bytes is Some && 0 <= k < bytes->0@.len() {
        crate::numbers::lemma_lower_hex_at(bytes->0@, k);
    }
}

/// A serial number is put into lower case and loses its colons, and nothing else.
pub proof fn law_normalized(chars: &[char], lower: Vec<char>, text: String)
    requires
        call_ensures(to_lower_chars, (chars,), lower),
        call_ensures(normalize, (chars,), text),
    ensures
        text@ == without_colons(lower@),
{
}

/// A text that is not there is empty.
pub proof fn law_text_or_empty(text: Option<String>, s: String, macs: MacAddresses)
    requires
        call_ensures(text_or_empty, (text,), s),
        call_ensures(MacAddresses::default, (), macs),
    ensures
        text matches Some(t) ==> s@ == t@,
        text is None ==> s@.len() == 0,
        macs.eth0@.len() == 0 && macs.eth1@.len() == 0,
{
}

/// A serial number that is left to chance has twelve lower-case hexadecimal digits.
pub proof fn law_random_serial(serial: Option<String>, i: int)
    requires
        call_ensures(random_serial, (), serial),
        0 <= i < 12,
    ensures
        serial matches Some(s) ==> s@.len() == 12 && ('0' <= s@[i] <= '9' || 'a' <= s@[i] <= 'f'),
{
    if let Some(s) = serial {
        let bytes = choose|bytes: Seq<u8>|
            bytes.len() == 6 && s@ == #[trigger] hex_lower_bytes(bytes);
        crate::numbers::lemma_lower_hex_at(bytes, i / 2);
        assert(i == 2 * (i / 2) || i == 2 * (i / 2) + 1);
    }
}

} // verus!
