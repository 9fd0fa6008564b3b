//! Boot context and system information.

use vstd::prelude::*;
use vstd::slice::slice_subrange;

use crate::numbers::{decimal, decimal_text, parse_unsigned, unsigned_u64};
use crate::sysinfo::nvmem::FuseMacs;
use crate::sysinfo::serial::or_empty;
use crate::text::{
    chars_of, ends_with, find_from, has_at, lines_of, lossy_text, non_empty_text, opt_str, opt_text,
    same_text, starts_with, string_of, text_lines, trim, trim_text, trimmed_non_empty, utf8_lossy,
};
use vstd::string::StringSliceAdditionalSpecFns;
use vstd::utf8::encode_utf8;

verus! {

/// Boot context as reported by `boot-rootfs.sh`, plus the hardware part number
/// found by the same script.
#[derive(Debug, Clone)]
pub struct BootRootfsInfo {
    /// The kind of device the root file system is on.
    pub root_dev_type: String,
    /// The boot side that is running.
    pub current_side: String,
    /// Base hardware part number.
    pub hw_part_number: Option<String>,
}

impl Default for BootRootfsInfo {
    fn default() -> (info: Self)
        ensures
            info.root_dev_type@ == Seq::<char>::empty(),
            info.current_side@ == Seq::<char>::empty(),
            info.hw_part_number is None,
    {
        BootRootfsInfo {
            root_dev_type: String::new(),
            current_side: String::new(),
            hw_part_number: None,
        }
    }
}

impl BootRootfsInfo {
    /// Booted from an SD card.
    pub open spec fn on_sd(self) -> bool {
        self.root_dev_type@ == "SD"@
    }

    /// Booted from an initramfs.
    pub open spec fn on_initramfs(self) -> bool {
        self.root_dev_type@ == "initramfs"@
    }

    /// Has one slot only, which updates replace as a whole.
    pub open spec fn single_slot(self) -> bool {
        self.on_sd() || self.on_initramfs()
    }

    /// The boot side that is running, where it is known.
    pub open spec fn side(self) -> Option<Seq<char>> {
        if self.current_side@ == "a"@ || self.current_side@ == "b"@ {
            Some(self.current_side@)
        } else {
            None
        }
    }

    /// Whether the system booted from an SD card.
    pub fn is_running_on_sd(&self) -> (r: bool)
        ensures
            r == self.on_sd(),
    {
        same_text(self.root_dev_type.as_str(), "SD")
    }

    /// Whether the system booted from an initramfs.
    pub fn is_running_on_initramfs(&self) -> (r: bool)
        ensures
            r == self.on_initramfs(),
    {
        same_text(self.root_dev_type.as_str(), "initramfs")
    }

    /// Whether there is one slot only.
    pub fn is_single_slot(&self) -> (r: bool)
        ensures
            r == self.single_slot(),
    {
        self.is_running_on_sd() || self.is_running_on_initramfs()
    }

    /// Whether firmware is installed through a pipe to `fw_update`.
    pub fn use_pipe_mode(&self) -> (r: bool)
        ensures
            r == self.single_slot(),
    {
        self.is_single_slot()
    }

    /// The current boot side (`"a"` or `"b"`), if valid.
    pub fn current_side_option(&self) -> (side: Option<&str>)
        ensures
            side is Some <==> self.side() is Some,
            side matches Some(s) ==> self.side() == Some(s@),
    {
        let side = self.current_side.as_str();
        if same_text(side, "a") || same_text(side, "b") {
            Some(side)
        } else {
            None
        }
    }
}

/// The value of the last `key=value` line for `key`, trimmed; lines with an
/// empty value are passed over unless `empty_counts`.
pub open spec fn field_value(
    lines: Seq<Seq<char>>,
    key: Seq<char>,
    empty_counts: bool,
) -> Option<Seq<char>>
    decreases lines.len(),
{
    if lines.len() == 0 {
        None
    } else {
        match crate::text::split_once(lines.last(), '=') {
            Some((k, v)) => if k == key && (empty_counts || trim_text(v).len() > 0) {
                Some(trim_text(v))
            } else {
                field_value(lines.drop_last(), key, empty_counts)
            },
            None => field_value(lines.drop_last(), key, empty_counts),
        }
    }
}

/// A field that is empty where no line gives it.
pub open spec fn field_or_empty(lines: Seq<Seq<char>>, key: Seq<char>) -> Seq<char> {
    match field_value(lines, key, true) {
        Some(v) => v,
        None => Seq::empty(),
    }
}

/// Whether `info` holds what the lines of the script's report say.
pub open spec fn reported_by(info: BootRootfsInfo, lines: Seq<Seq<char>>) -> bool {
    &&& info.root_dev_type@ == field_or_empty(lines, "rootDevType"@)
    &&& info.current_side@ == field_or_empty(lines, "currentSide"@)
    &&& opt_text(info.hw_part_number) == field_value(lines, "baseHwPartNumber"@, false)
}

/// The report of a script that wrote `output`.
pub open spec fn report_lines(output: Option<Seq<u8>>) -> Seq<Seq<char>> {
    match output {
        Some(bytes) => text_lines(utf8_lossy(bytes)),
        None => Seq::empty(),
    }
}

/// Reads the script's report, line by line; later lines override earlier ones.
pub fn read_report(text: &str) -> (info: BootRootfsInfo)
    ensures
        reported_by(info, text_lines(text@)),
{
    let lines = lines_of(text);
    let mut info = BootRootfsInfo::default();
    let mut i: usize = 0;
    proof {
        reveal_strlit("rootDevType");
        reveal_strlit("currentSide");
        reveal_strlit("baseHwPartNumber");
        assert("rootDevType"@.len() != "baseHwPartNumber"@.len());
        assert("rootDevType"@[0] != "currentSide"@[0]);
        assert("currentSide"@[0] != "baseHwPartNumber"@[0]);
    }
    let ghost all = crate::text::texts(lines@);
    assert(all.take(0) =~= Seq::empty());
    while i < lines.len()
        invariant
            i <= lines.len(),
            all == crate::text::texts(lines@),
            reported_by(info, all.take(i as int)),
            "rootDevType"@ != "currentSide"@,
            "rootDevType"@ != "baseHwPartNumber"@,
            "currentSide"@ != "baseHwPartNumber"@,
        decreases lines.len() - i,
    {
        proof {
            assert(all.take(i + 1).drop_last() =~= all.take(i as int));
            assert(all.take(i + 1).last() == lines@[i as int]@);
        }
        let line = chars_of(lines[i].as_str());
        let at: usize = find_from(line.as_slice(), 0, '=');
        assert(line@.skip(0) =~= line@);
        if at < line.len() {
            let key = string_of(slice_subrange(line.as_slice(), 0, at));
            assert(key@ =~= line@.take(at as int));
            let rest = slice_subrange(line.as_slice(), at + 1, line.len());
            assert(rest@ =~= line@.skip(at + 1));
            let value = string_of(trim(rest));
            if same_text(key.as_str(), "rootDevType") {
                info.root_dev_type = value;
            } else if same_text(key.as_str(), "currentSide") {
                info.current_side = value;
            } else if same_text(key.as_str(), "baseHwPartNumber") {
                if !value.as_str().is_empty() {
                    info.hw_part_number = Some(value);
                }
            }
        }
        i += 1;
    }
    assert(all.take(all.len() as int) =~= all);
    info
}

/// The boot context from what `boot-rootfs.sh` wrote, or the default where the
/// script could not be run.
pub fn boot_info(output: Option<&[u8]>) -> (info: BootRootfsInfo)
    ensures
        reported_by(info, report_lines(match output {
            Some(bytes) => Some(bytes@),
            None => None,
        })),
{
    match output {
        Some(bytes) => {
            let text = lossy_text(bytes);
            read_report(text.as_str())
        },
        None => BootRootfsInfo::default(),
    }
}

/// The side opposite to the running one, which counts as `a` when unknown.
pub open spec fn other_side(current: Option<Seq<char>>) -> Seq<char> {
    if current is None || current == Some("a"@) {
        "b"@
    } else {
        "a"@
    }
}

/// Returns the inactive boot side: the active side defaults to `"a"` when
/// unknown, and the opposite is returned.
pub fn inactive_side(current_side: Option<&str>) -> (side: &'static str)
    ensures
        side@ == other_side(opt_str(current_side)),
{
    match current_side {
        Some(side) => if same_text(side, "a") {
            "b"
        } else {
            "a"
        },
        None => "b",
    }
}

/// The inactive side is never the running one, and the side opposite to it is
/// the running one again.
pub proof fn law_inactive_side(side: Seq<char>)
    requires
        side == "a"@ || side == "b"@,
    ensures
        other_side(Some(side)) != side,
        other_side(Some(other_side(Some(side)))) == side,
        other_side(Some(side)) == "a"@ || other_side(Some(side)) == "b"@,
{
    reveal_strlit("a");
    reveal_strlit("b");
    assert("a"@[0] != "b"@[0]);
}

// ---------------------------------------------------------------------------
// System information
// ---------------------------------------------------------------------------

/// The serial number that the fused addresses give; empty where there is none.
pub open spec fn fused_serial(macs: Option<&FuseMacs>) -> Seq<char> {
    or_empty(
        match macs {
            Some(m) => opt_text(m.eth0),
            None => None,
        },
    )
}

/// The serial number that the fused addresses give; empty where there is none.
pub fn fuse_serial(macs: Option<&FuseMacs>) -> (serial: String)
    ensures
        serial@ == fused_serial(macs),
{
    match macs {
        Some(macs) => match &macs.eth0 {
            Some(eth0) => eth0.clone(),
            None => String::new(),
        },
        None => String::new(),
    }
}

/// The position of the first NUL byte, or the length.
pub open spec fn nul_at(bytes: Seq<u8>) -> int
    decreases bytes.len(),
{
    if bytes.len() == 0 || bytes[0] == 0 {
        0
    } else {
        1 + nul_at(bytes.drop_first())
    }
}

proof fn lemma_nul_at(bytes: Seq<u8>, i: int)
    requires
        0 <= i <= bytes.len(),
        forall|j: int| 0 <= j < i ==> bytes[j] != 0,
        i < bytes.len() ==> bytes[i] == 0,
    ensures
        nul_at(bytes) == i,
    decreases i,
{
    if i > 0 {
        lemma_nul_at(bytes.drop_first(), i - 1);
    }
}

/// The text of a device-tree property: what stands in front of the first NUL,
/// trimmed, unless it is blank.
pub open spec fn dt_text(bytes: Seq<u8>) -> Option<Seq<char>> {
    non_empty_text(utf8_lossy(bytes.take(nul_at(bytes))))
}

/// Reads the text of a device-tree property.
pub fn read_dt_string(bytes: &[u8]) -> (text: Option<String>)
    ensures
        opt_text(text) == dt_text(bytes@),
{
    let mut end: usize = 0;
    while end < bytes.len() && bytes[end] != 0
        invariant
            end <= bytes.len(),
            forall|j: int| 0 <= j < end ==> bytes@[j] != 0,
        decreases bytes.len() - end,
    {
        end += 1;
    }
    proof {
        lemma_nul_at(bytes@, end as int);
    }
    let part = slice_subrange(bytes, 0, end);
    assert(part@ =~= bytes@.take(end as int));
    let text = lossy_text(part);
    trimmed_non_empty(text.as_str())
}

/// What follows `prefix` in the first line that starts with it.
pub open spec fn line_value(lines: Seq<Seq<char>>, prefix: Seq<char>) -> Option<Seq<char>>
    decreases lines.len(),
{
    if lines.len() == 0 {
        None
    } else if starts_with(lines[0], prefix) {
        Some(lines[0].skip(prefix.len() as int))
    } else {
        line_value(lines.drop_first(), prefix)
    }
}

/// The number of kibibytes in a text such as `2048 kB`.
pub open spec fn kib_value(text: Seq<char>) -> Option<u64> {
    let value = trim_text(text);
    if ends_with(value, "kB"@) {
        unsigned_u64(encode_utf8(trim_text(value.take(value.len() - 2))), 10)
    } else {
        None
    }
}

/// The total memory in mebibytes that `/proc/meminfo` reports.
pub open spec fn mem_total(meminfo: Seq<char>) -> Option<u64> {
    match line_value(text_lines(meminfo), "MemTotal:"@) {
        Some(text) => match kib_value(text) {
            Some(kib) => Some(kib / 1024),
            None => None,
        },
        None => None,
    }
}

/// Finds the first line that starts with `prefix` and returns what follows.
pub fn find_line_value(text: &str, prefix: &str) -> (value: Option<Vec<char>>)
    ensures
        line_value(text_lines(text@), prefix@) == (match value {
            Some(v) => Some(v@),
            None => None,
        }),
{
    let lines = lines_of(text);
    let prefix_chars = chars_of(prefix);
    let ghost all = crate::text::texts(lines@);
    let mut i: usize = 0;
    assert(all.skip(0) =~= all);
    while i < lines.len()
        invariant
            i <= lines.len(),
            all == crate::text::texts(lines@),
            all == text_lines(text@),
            prefix_chars@ == prefix@,
            line_value(all, prefix@) == line_value(all.skip(i as int), prefix@),
        decreases lines.len() - i,
    {
        let line = chars_of(lines[i].as_str());
        proof {
            assert(all.skip(i as int)[0] == lines@[i as int]@);
            assert(all.skip(i as int).drop_first() =~= all.skip(i + 1));
            assert(line@.skip(0) =~= line@);
        }
        if has_at(line.as_slice(), 0, prefix_chars.as_slice()) {
            let mut rest: Vec<char> = Vec::new();
            rest.extend_from_slice(
                slice_subrange(line.as_slice(), prefix_chars.len(), line.len()),
            );
            assert(rest@ =~= line@.skip(prefix@.len() as int));
            return Some(rest);
        }
        i += 1;
    }
    assert(all.skip(i as int) =~= Seq::empty());
    None
}

/// Reads the number of kibibytes in a text such as `2048 kB`.
pub fn parse_kib(text: &[char]) -> (kib: Option<u64>)
    ensures
        kib == kib_value(text@),
{
    let value = trim(text);
    proof {
        reveal_strlit("kB");
    }
    let unit = chars_of("kB");
    if value.len() < 2 {
        return None;
    }
    let digits_len: usize = value.len() - 2;
    let is_kib: bool = has_at(value, digits_len, unit.as_slice());
    proof {
        let tail = value@.skip(digits_len as int);
        assert(tail.take(2) =~= tail);
    }
    if !is_kib {
        return None;
    }
    let number = slice_subrange(value, 0, digits_len);
    assert(number@ =~= value@.take(value@.len() - 2));
    let digits = string_of(trim(number));
    parse_unsigned(digits.as_str().as_bytes(), 10)
}

/// Reads the total memory in mebibytes from what `/proc/meminfo` holds.
pub fn mem_total_mb(meminfo: &str) -> (mb: Option<u64>)
    ensures
        mb == mem_total(meminfo@),
{
    match find_line_value(meminfo, "MemTotal:") {
        Some(value) => match parse_kib(value.as_slice()) {
            Some(kib) => Some(kib / 1024),
            None => None,
        },
        None => None,
    }
}

/// What is known of the machine itself.
#[derive(Debug, Default)]
pub struct BaseSystemInfo {
    /// Device-tree model string.
    pub model: Option<String>,
    /// SoC identifier.
    pub soc: Option<String>,
    /// Total memory in mebibytes.
    pub memory_mb: Option<u64>,
}

/// Gathers what is known of the machine from the device-tree model, the SoC's
/// name and `/proc/meminfo`, as far as they could be read.
pub fn base_info(model: Option<&[u8]>, soc: Option<String>, meminfo: Option<&str>) -> (info:
    BaseSystemInfo)
    ensures
        opt_text(info.model) == (match model {
            Some(bytes) => dt_text(bytes@),
            None => None,
        }),
        info.soc == soc,
        info.memory_mb == (match meminfo {
            Some(text) => mem_total(text@),
            None => None,
        }),
{
    BaseSystemInfo {
        model: match model {
            Some(bytes) => read_dt_string(bytes),
            None => None,
        },
        soc,
        memory_mb: match meminfo {
            Some(text) => mem_total_mb(text),
            None => None,
        },
    }
}

/// Collected system information.
#[derive(Debug, Clone, Default)]
pub struct SystemInfo {
    /// Device-tree model string.
    pub model: String,
    /// Serial number (as advertised by the USB gadget).
    pub serial: String,
    /// SoC/CPU identifier.
    pub soc: String,
    /// Total system memory in mebibytes.
    pub memory_mb: u64,
    /// Base hardware part number.
    pub hw_part_number: String,
}

/// What `serde_json` makes of a string.
pub uninterp spec fn json_string(text: Seq<char>) -> Seq<u8>;

/// A character that JSON strings hold as it is.
pub open spec fn json_plain(c: char) -> bool {
    c as int >= 0x20 && c != '"' && c != '\\'
}

/// `serde_json::to_vec` of a string: its JSON form. Text in which nothing needs
/// to be escaped stands between quotation marks as it is.
#[verifier::external_body]
fn json_string_bytes(text: &str) -> (bytes: Vec<u8>)
    ensures
        bytes@ == json_string(text@),
        (forall|i: int| 0 <= i < text@.len() ==> json_plain(#[trigger] text@[i])) ==> bytes@
            == seq![34u8] + text.spec_bytes() + seq![34u8],
{
    serde_json::to_vec(text).unwrap_or_default()
}

/// A text, or nothing.
pub open spec fn text_or_nothing(text: Option<String>) -> Seq<char> {
    or_empty(opt_text(text))
}

fn copy_or_empty(text: &Option<String>) -> (s: String)
    ensures
        s@ == text_or_nothing(*text),
{
    match text {
        Some(s) => s.clone(),
        None => String::new(),
    }
}

fn push_text(out: &mut Vec<u8>, text: &str)
    ensures
        final(out)@ == old(out)@ + text.spec_bytes(),
{
    let bytes = text.as_bytes();
    out.extend_from_slice(bytes);
    assert(out@ =~= old(out)@ + bytes@);
}

fn push_json(out: &mut Vec<u8>, text: &str)
    ensures
        final(out)@ == old(out)@ + json_string(text@),
{
    let mut quoted = json_string_bytes(text);
    out.append(&mut quoted);
}

/// The compact JSON object for system information.
pub open spec fn json_object(
    model: Seq<char>,
    serial: Seq<char>,
    soc: Seq<char>,
    memory_mb: nat,
    hw_part_number: Seq<char>,
) -> Seq<u8> {
    "{\"model\":".spec_bytes() + json_string(model) + ",\"serial\":".spec_bytes() + json_string(
        serial,
    ) + ",\"soc\":".spec_bytes() + json_string(soc) + ",\"memory_mb\":".spec_bytes()
        + encode_utf8(decimal(memory_mb)) + ",\"hw_part_number\":".spec_bytes() + json_string(
        hw_part_number,
    ) + "}".spec_bytes()
}

/// The system information of a machine under a serial number, as JSON.
pub open spec fn machine_json(
    serial: Seq<char>,
    base: BaseSystemInfo,
    boot: BootRootfsInfo,
) -> Seq<u8> {
    json_object(
        text_or_nothing(base.model),
        serial,
        text_or_nothing(base.soc),
        match base.memory_mb {
            Some(mb) => mb as nat,
            None => 0,
        },
        text_or_nothing(boot.hw_part_number),
    )
}

impl SystemInfo {
    /// The compact JSON object for this information.
    pub open spec fn json(self) -> Seq<u8> {
        json_object(
            self.model@,
            self.serial@,
            self.soc@,
            self.memory_mb as nat,
            self.hw_part_number@,
        )
    }

    /// Collects system information; what is not known is left empty.
    pub fn collect(serial: Option<String>, base: &BaseSystemInfo, boot: &BootRootfsInfo) -> (info:
        SystemInfo)
        ensures
            info.model@ == text_or_nothing(base.model),
            info.serial@ == text_or_nothing(serial),
            info.soc@ == text_or_nothing(base.soc),
            info.memory_mb == (match base.memory_mb {
                Some(mb) => mb,
                None => 0,
            }),
            info.hw_part_number@ == text_or_nothing(boot.hw_part_number),
            info.json() == machine_json(text_or_nothing(serial), *base, *boot),
    {
        SystemInfo {
            model: copy_or_empty(&base.model),
            serial: copy_or_empty(&serial),
            soc: copy_or_empty(&base.soc),
            memory_mb: match base.memory_mb {
                Some(mb) => mb,
                None => 0,
            },
            hw_part_number: copy_or_empty(&boot.hw_part_number),
        }
    }

    /// Appends the compact JSON object representation to `out`.
    pub fn write_json(&self, out: &mut Vec<u8>)
        ensures
            final(out)@ == old(out)@ + self.json(),
    {
        push_text(out, "{\"model\":");
        push_json(out, self.model.as_str());
        push_text(out, ",\"serial\":");
        push_json(out, self.serial.as_str());
        push_text(out, ",\"soc\":");
        push_json(out, self.soc.as_str());
        push_text(out, ",\"memory_mb\":");
        let memory = decimal_text(self.memory_mb);
        push_text(out, memory.as_str());
        push_text(out, ",\"hw_part_number\":");
        push_json(out, self.hw_part_number.as_str());
        push_text(out, "}");
        assert(out@ =~= old(out)@ + self.json());
    }

    /// The compact JSON object representation.
    pub fn to_json_bytes(&self) -> (bytes: Vec<u8>)
        ensures
            bytes@ == self.json(),
    {
        let mut bytes: Vec<u8> = Vec::new();
        self.write_json(&mut bytes);
        assert(bytes@ =~= self.json());
        bytes
    }
}

/// What the machine that the program runs on tells of itself.
#[derive(Debug)]
pub struct Machine {
    /// What is known of the machine itself, for uploads.
    pub base: BaseSystemInfo,
    /// What is known of the machine itself, under its fused serial number.
    pub fused_base: BaseSystemInfo,
    /// Its fused addresses, where they can be read.
    pub macs: Option<FuseMacs>,
}

impl Machine {
    /// The system information of this machine under its fused serial number,
    /// as JSON.
    pub open spec fn fused_json(self, boot: BootRootfsInfo) -> Seq<u8> {
        machine_json(
            or_empty(
                match self.macs {
                    Some(m) => opt_text(m.eth0),
                    None => None,
                },
            ),
            self.fused_base,
            boot,
        )
    }

    /// The size of the system information of this machine under its fused
    /// serial number.
    pub fn fused_json_len(&self, boot: &BootRootfsInfo) -> (len: usize)
        ensures
            len == self.fused_json(*boot).len(),
    {
        system_info_json(self.macs.as_ref(), &self.fused_base, boot).len()
    }
}

/// The system information of this machine as JSON, with the fused serial
/// number.
pub fn system_info_json(
    macs: Option<&FuseMacs>,
    base: &BaseSystemInfo,
    boot: &BootRootfsInfo,
) -> (json: Vec<u8>)
    ensures
        json@ == machine_json(fused_serial(macs), *base, *boot),
{
    let info = SystemInfo::collect(Some(fuse_serial(macs)), base, boot);
    info.to_json_bytes()
}

// ---------------------------------------------------------------------------
// Laws
// ---------------------------------------------------------------------------

/// A machine that runs from an SD card or an initramfs has one slot, and takes its
/// firmware through a pipe; its side is `a` or `b` or not known.
pub proof fn law_boot_context(
    info: BootRootfsInfo,
    sd: bool,
    initramfs: bool,
    single: bool,
    pipe: bool,
    side: Option<&str>,
)
    requires
        call_ensures(BootRootfsInfo::is_running_on_sd, (&info,), sd),
        call_ensures(BootRootfsInfo::is_running_on_initramfs, (&info,), initramfs),
        call_ensures(BootRootfsInfo::is_single_slot, (&info,), single),
        call_ensures(BootRootfsInfo::use_pipe_mode, (&info,), pipe),
        call_ensures(BootRootfsInfo::current_side_option, (&info,), side),
    ensures
        sd <==> info.root_dev_type@ == "SD"@,
        initramfs <==> info.root_dev_type@ == "initramfs"@,
        single <==> sd || initramfs,
        pipe <==> sd || initramfs,
        side is Some <==> info.current_side@ == "a"@ || info.current_side@ == "b"@,
        side matches Some(s) ==> s@ == info.current_side@,
{
}

/// The inactive side of `a`, or of a side that is not known, is `b`; that of any
/// other one is `a`.
pub proof fn law_inactive_side_named(side: &str, inactive: &str, unknown: &str)
    requires
        call_ensures(inactive_side, (Some(side),), inactive),
        call_ensures(inactive_side, (None,), unknown),
    ensures
        side@ == "a"@ ==> inactive@ == "b"@,
        side@ != "a"@ ==> inactive@ == "a"@,
        unknown@ == "b"@,
{
}

/// A report that says nothing leaves everything open.
pub proof fn law_empty_report(text: &str, info: BootRootfsInfo, unread: BootRootfsInfo)
    requires
        text@.len() == 0,
        call_ensures(read_report, (text,), info),
        call_ensures(boot_info, (None,), unread),
    ensures
        info.root_dev_type@.len() == 0 && info.current_side@.len() == 0 && info.hw_part_number
            is None,
        unread.root_dev_type@.len() == 0 && unread.current_side@.len() == 0
            && unread.hw_part_number is None,
{
}

/// A further line `key=value` of a report gives the field of that key, trimmed, and
/// leaves the others: `rootDevType`, `currentSide`, and `baseHwPartNumber` unless
/// its value is blank. Any other key changes nothing.
pub proof fn law_report_line(
    text: &str,
    longer: &str,
    key: Seq<char>,
    value: Seq<char>,
    info: BootRootfsInfo,
    next: BootRootfsInfo,
)
    requires
        text@.len() > 0 ==> text@.last() == '\n',
        !key.contains('\n') && !key.contains('='),
        !value.contains('\n'),
        value.len() > 0 ==> value.last() != '\r',
        longer@ == text@ + (key.push('=') + value).push('\n'),
        call_ensures(read_report, (text,), info),
        call_ensures(read_report, (longer,), next),
    ensures
        key == "rootDevType"@ ==> next.root_dev_type@ == trim_text(value),
        key != "rootDevType"@ ==> next.root_dev_type@ == info.root_dev_type@,
        key == "currentSide"@ ==> next.current_side@ == trim_text(value),
        key != "currentSide"@ ==> next.current_side@ == info.current_side@,
        key == "baseHwPartNumber"@ && trim_text(value).len() > 0 ==> (
        next.hw_part_number matches Some(n) && n@ == trim_text(value)),
        key != "baseHwPartNumber"@ || trim_text(value).len() == 0 ==> opt_text(next.hw_part_number)
            == opt_text(info.hw_part_number),
{
    let line = key.push('=') + value;
    assert(!line.contains('\n')) by {
        assert forall|i: int| 0 <= i < line.len() implies line[i] != '\n' by {
            if i < key.len() {
                assert(key.contains(key[i]));
            } else if i > key.len() {
                assert(value.contains(value[i - key.len() - 1]));
            }
        }
    }
    assert(line.last() != '\r');
    crate::text::law_one_more_line(text@, line);
    crate::text::law_split_once(key, '=', value);
    let lines = text_lines(text@);
    assert(lines.push(line).drop_last() =~= lines);
    assert(lines.push(line).last() == line);
}

/// What a script wrote is read as text.
pub proof fn law_boot_info(
    output: &[u8],
    text: String,
    report: &str,
    info: BootRootfsInfo,
    same: BootRootfsInfo,
)
    requires
        call_ensures(lossy_text, (output,), text),
        report@ == text@,
        call_ensures(boot_info, (Some(output),), info),
        call_ensures(read_report, (report,), same),
    ensures
        info.root_dev_type@ == same.root_dev_type@,
        info.current_side@ == same.current_side@,
        opt_text(info.hw_part_number) == opt_text(same.hw_part_number),
{
}

/// A device-tree text ends in front of its first NUL; blanks at its ends do not
/// count, and a blank one is none.
pub proof fn law_device_tree_text(
    bytes: &[u8],
    part: &[u8],
    rest: Seq<u8>,
    text: String,
    slice: &str,
    trimmed: Option<String>,
    read: Option<String>,
)
    requires
        forall|i: int| 0 <= i < part@.len() ==> part@[i] != 0,
        bytes@ == part@ || bytes@ == part@ + seq![0u8] + rest,
        call_ensures(lossy_text, (part,), text),
        slice@ == text@,
        call_ensures(trimmed_non_empty, (slice,), trimmed),
        call_ensures(read_dt_string, (bytes,), read),
    ensures
        opt_text(read) == opt_text(trimmed),
{
    let n = part@.len() as int;
    assert forall|j: int| 0 <= j < n implies bytes@[j] != 0 by {
        assert(bytes@[j] == part@[j]);
    }
    lemma_nul_at(bytes@, n);
    assert(bytes@.take(n) =~= part@);
}

/// The first line that starts with the prefix gives what follows the prefix.
pub proof fn law_first_line_with(
    text: &str,
    prefix: &str,
    at: int,
    found: Option<Vec<char>>,
)
    requires
        0 <= at <= text_lines(text@).len(),
        forall|i: int| 0 <= i < at ==> !starts_with(#[trigger] text_lines(text@)[i], prefix@),
        call_ensures(find_line_value, (text, prefix), found),
    ensures
        at == text_lines(text@).len() ==> found is None,
        at < text_lines(text@).len() && starts_with(text_lines(text@)[at], prefix@) ==> (
        found matches Some(v) && prefix@ + v@ == text_lines(text@)[at]),
{
    let lines = text_lines(text@);
    lemma_first_line(lines, prefix@, at);
    if at < lines.len() && starts_with(lines[at], prefix@) {
        assert(prefix@ + lines[at].skip(prefix@.len() as int) =~= lines[at]);
    }
}

proof fn lemma_first_line(lines: Seq<Seq<char>>, prefix: Seq<char>, at: int)
    requires
        0 <= at <= lines.len(),
        forall|i: int| 0 <= i < at ==> !starts_with(#[trigger] lines[i], prefix),
    ensures
        at == lines.len() ==> line_value(lines, prefix) is None,
        at < lines.len() && starts_with(lines[at], prefix) ==> line_value(lines, prefix) == Some(
            lines[at].skip(prefix.len() as int),
        ),
    decreases at,
{
    if at > 0 {
        let rest = lines.drop_first();
        assert(!starts_with(lines[0], prefix));
        assert forall|i: int| 0 <= i < at - 1 implies !starts_with(#[trigger] rest[i], prefix) by {
            assert(rest[i] == lines[i + 1]);
        }
        lemma_first_line(rest, prefix, at - 1);
    }
}

/// A number in front of `kB`, with blanks around and between them, is read as it
/// is.
pub proof fn law_kib(
    text: &[char],
    front: Seq<char>,
    number: String,
    between: Seq<char>,
    back: Seq<char>,
    read: Option<u64>,
    kib: Option<u64>,
)
    requires
        text@ == front + (number@ + between + seq!['k', 'B']) + back,
        forall|i: int| 0 <= i < front.len() ==> crate::text::white_space(#[trigger] front[i]),
        forall|i: int| 0 <= i < between.len() ==> crate::text::white_space(#[trigger] between[i]),
        forall|i: int| 0 <= i < back.len() ==> crate::text::white_space(#[trigger] back[i]),
        number@.len() > 0,
        !crate::text::white_space(number@[0]) && !crate::text::white_space(number@.last()),
        read == unsigned_u64(encode_utf8(number@), 10),
        call_ensures(parse_kib, (text,), kib),
    ensures
        kib == read,
{
    let value = number@ + between + seq!['k', 'B'];
    reveal_strlit("kB");
    assert(value[0] == number@[0]);
    assert(value.last() == 'B');
    crate::text::law_trim_drops_white_space(front, value, back);
    assert(value.skip(value.len() - 2) =~= "kB"@);
    assert(value.take(value.len() - 2) =~= Seq::<char>::empty() + number@ + between);
    crate::text::law_trim_drops_white_space(Seq::empty(), number@, between);
}

/// A text that does not end in `kB`, but for blanks, is no number of kibibytes.
pub proof fn law_no_kib(text: &[char], value: Seq<char>, kib: Option<u64>)
    requires
        value == trim_text(text@),
        value.len() < 2 || value[value.len() - 2] != 'k' || value.last() != 'B',
        call_ensures(parse_kib, (text,), kib),
    ensures
        kib is None,
{
    reveal_strlit("kB");
    if value.len() >= 2 {
        let tail = value.skip(value.len() - 2);
        assert(tail[0] == value[value.len() - 2] && tail[1] == value.last());
    }
}

/// The memory in mebibytes is the kibibytes of the line `MemTotal:` by 1024.
pub proof fn law_memory(
    meminfo: &str,
    line: Option<Vec<char>>,
    text: &[char],
    kib: Option<u64>,
    mb: Option<u64>,
)
    requires
        call_ensures(find_line_value, (meminfo, "MemTotal:"), line),
        line matches Some(v) ==> text@ == v@,
        call_ensures(parse_kib, (text,), kib),
        call_ensures(mem_total_mb, (meminfo,), mb),
    ensures
        line is None ==> mb is None,
        line is Some && kib is None ==> mb is None,
        line is Some ==> (kib matches Some(n) ==> (mb matches Some(m) && 1024 * m <= n < 1024 * m
            + 1024)),
{
}

/// What was gathered is what each source says.
pub proof fn law_base_info(
    model: &[u8],
    soc: Option<String>,
    meminfo: &str,
    info: BaseSystemInfo,
    unread: BaseSystemInfo,
    name: Option<String>,
    mb: Option<u64>,
)
    requires
        call_ensures(base_info, (Some(model), soc, Some(meminfo)), info),
        call_ensures(base_info, (None, soc, None), unread),
        call_ensures(read_dt_string, (model,), name),
        call_ensures(mem_total_mb, (meminfo,), mb),
    ensures
        opt_text(info.model) == opt_text(name),
        info.soc == soc && unread.soc == soc,
        info.memory_mb == mb,
        unread.model is None && unread.memory_mb is None,
{
}

/// What is not known is left empty, and the memory is zero.
pub proof fn law_collected(
    serial: Option<String>,
    base: BaseSystemInfo,
    boot: BootRootfsInfo,
    info: SystemInfo,
)
    requires
        call_ensures(SystemInfo::collect, (serial, &base, &boot), info),
    ensures
        match base.model {
            Some(s) => info.model@ == s@,
            None => info.model@.len() == 0,
        },
        match serial {
            Some(s) => info.serial@ == s@,
            None => info.serial@.len() == 0,
        },
        match base.soc {
            Some(s) => info.soc@ == s@,
            None => info.soc@.len() == 0,
        },
        match base.memory_mb {
            Some(mb) => info.memory_mb == mb,
            None => info.memory_mb == 0,
        },
        match boot.hw_part_number {
            Some(s) => info.hw_part_number@ == s@,
            None => info.hw_part_number@.len() == 0,
        },
{
}

/// The report is one JSON object with these members in this order.
pub proof fn law_json_members(info: SystemInfo, memory: String, bytes: Vec<u8>)
    requires
        call_ensures(SystemInfo::to_json_bytes, (&info,), bytes),
        call_ensures(decimal_text, (info.memory_mb,), memory),
    ensures
        bytes@ == "{\"model\":".spec_bytes() + json_string(info.model@)
            + ",\"serial\":".spec_bytes() + json_string(info.serial@) + ",\"soc\":".spec_bytes()
            + json_string(info.soc@) + ",\"memory_mb\":".spec_bytes() + encode_utf8(memory@)
            + ",\"hw_part_number\":".spec_bytes() + json_string(info.hw_part_number@)
            + "}".spec_bytes(),
{
}

/// The report under the fused serial number is that of what is collected under the
/// first fused address, or under an empty serial number where there is none.
pub proof fn law_fused_report(
    macs: Option<&FuseMacs>,
    base: BaseSystemInfo,
    boot: BootRootfsInfo,
    serial: String,
    info: SystemInfo,
    bytes: Vec<u8>,
    json: Vec<u8>,
)
    requires
        macs matches Some(m) ==> (m.eth0 matches Some(mac) ==> serial@ == mac@),
        macs matches Some(m) ==> (m.eth0 is None ==> serial@.len() == 0),
        macs is None ==> serial@.len() == 0,
        call_ensures(SystemInfo::collect, (Some(serial), &base, &boot), info),
        call_ensures(SystemInfo::to_json_bytes, (&info,), bytes),
        call_ensures(system_info_json, (macs, &base, &boot), json),
    ensures
        json@ == bytes@,
{
    assert(serial@ =~= fused_serial(macs));
}

/// The size that is told of a machine's report is the size of that report.
pub proof fn law_report_len(
    machine: Machine,
    boot: BootRootfsInfo,
    macs: Option<&FuseMacs>,
    json: Vec<u8>,
    len: usize,
)
    requires
        macs matches Some(m) ==> machine.macs == Some(*m),
        macs is None ==> machine.macs is None,
        call_ensures(system_info_json, (macs, &machine.fused_base, &boot), json),
        call_ensures(Machine::fused_json_len, (&machine, &boot), len),
    ensures
        len == json@.len(),
{
}

/// The fused serial number is the first fused address, or nothing.
pub proof fn law_fuse_serial(macs: FuseMacs, serial: String, unknown: String)
    requires
        call_ensures(fuse_serial, (Some(&macs),), serial),
        call_ensures(fuse_serial, (None,), unknown),
    ensures
        macs.eth0 matches Some(mac) ==> serial@ == mac@,
        macs.eth0 is None ==> serial@.len() == 0,
        unknown@.len() == 0,
{
}

/// A report that is written somewhere comes behind what is there.
pub proof fn law_written_report(info: SystemInfo, out: &mut Vec<u8>, bytes: Vec<u8>)
    requires
        call_ensures(SystemInfo::write_json, (&info, out), ()),
        call_ensures(SystemInfo::to_json_bytes, (&info,), bytes),
    ensures
        final(out)@ == old(out)@ + bytes@,
{
}

/// A line of a report that is no `key=value` changes nothing.
pub proof fn law_other_report_line(
    text: &str,
    longer: &str,
    line: Seq<char>,
    info: BootRootfsInfo,
    next: BootRootfsInfo,
)
    requires
        text@.len() > 0 ==> text@.last() == '\n',
        !line.contains('\n') && !line.contains('='),
        line.len() > 0 ==> line.last() != '\r',
        longer@ == text@ + line.push('\n'),
        call_ensures(read_report, (text,), info),
        call_ensures(read_report, (longer,), next),
    ensures
        next.root_dev_type@ == info.root_dev_type@,
        next.current_side@ == info.current_side@,
        opt_text(next.hw_part_number) == opt_text(info.hw_part_number),
{
    crate::text::law_one_more_line(text@, line);
    crate::text::law_split_once(line, '=', Seq::empty());
    let lines = text_lines(text@);
    assert(lines.push(line).drop_last() =~= lines);
    assert(lines.push(line).last() == line);
}

} // verus!
