//! System information as the update functions report it.

use vstd::prelude::*;
use vstd::slice::slice_subrange;
use vstd::utf8::encode_utf8;

use crate::numbers::{parse_unsigned, unsigned_u64};
use crate::sysinfo::runtime::{
    dt_text, find_line_value, kib_value, line_value, parse_kib, read_dt_string, BaseSystemInfo,
};
use crate::text::{
    chars_of, ends_with, has_at, is_white_space, opt_text, string_of, text_lines, trim, trim_text,
    white_space,
};

pub use crate::sysinfo::runtime::{boot_info, inactive_side, BootRootfsInfo, SystemInfo};

verus! {

/// The characters of `s` in front of the first white space.
pub open spec fn first_word(s: Seq<char>) -> Seq<char>
    decreases s.len(),
{
    if s.len() == 0 || white_space(s[0]) {
        Seq::empty()
    } else {
        seq![s[0]] + first_word(s.drop_first())
    }
}

/// The total memory in mebibytes that `/proc/meminfo` reports, in kibibytes or,
/// where it does not say so, in bytes.
pub open spec fn mem_total_lenient(meminfo: Seq<char>) -> Option<u64> {
    match line_value(text_lines(meminfo), "MemTotal:"@) {
        Some(text) => {
            let value = trim_text(text);
            if ends_with(value, "kB"@) {
                match kib_value(text) {
                    Some(kib) => Some(kib / 1024),
                    None => None,
                }
            } else {
                match unsigned_u64(encode_utf8(first_word(value)), 10) {
                    Some(bytes) => Some(bytes / 1048576),
                    None => None,
                }
            }
        },
        None => None,
    }
}

fn word_of(chars: &[char]) -> (word: String)
    ensures
        word@ == first_word(chars@),
{
    let mut end: usize = 0;
    assert(chars@.take(0) + first_word(chars@.skip(0)) =~= first_word(chars@)) by {
        assert(chars@.skip(0) =~= chars@);
    }
    while end < chars.len() && !is_white_space(chars[end])
        invariant
            end <= chars.len(),
            first_word(chars@) == chars@.take(end as int) + first_word(chars@.skip(end as int)),
        decreases chars.len() - end,
    {
        proof {
            let rest = chars@.skip(end as int);
            assert(rest.drop_first() =~= chars@.skip(end + 1));
            assert(chars@.take(end + 1) =~= chars@.take(end as int).push(chars@[end as int]));
            assert(chars@.take(end as int) + first_word(rest) =~= chars@.take(end + 1)
                + first_word(chars@.skip(end + 1)));
        }
        end += 1;
    }
    assert(first_word(chars@.skip(end as int)) =~= Seq::empty());
    let word = slice_subrange(chars, 0, end);
    assert(word@ =~= first_word(chars@));
    string_of(word)
}

/// Reads the total memory in mebibytes from what `/proc/meminfo` holds.
pub fn mem_total_mb(meminfo: &str) -> (mb: Option<u64>)
    ensures
        mb == mem_total_lenient(meminfo@),
{
    let text = match find_line_value(meminfo, "MemTotal:") {
        Some(text) => text,
        None => {
            return None;
        },
    };
    let value = trim(text.as_slice());
    let unit = chars_of("kB");
    proof {
        reveal_strlit("kB");
    }
    let in_kib: bool = if value.len() >= 2 {
        proof {
            let tail = value@.skip(value@.len() - 2);
            assert(tail.take(2) =~= tail);
        }
        has_at(value, value.len() - 2, unit.as_slice())
    } else {
        false
    };
    assert(in_kib == ends_with(value@, "kB"@));
    if in_kib {
        match parse_kib(text.as_slice()) {
            Some(kib) => Some(kib / 1024),
            None => None,
        }
    } else {
        let word = word_of(value);
        match parse_unsigned(word.as_str().as_bytes(), 10) {
            Some(bytes) => Some(bytes / 1048576),
            None => None,
        }
    }
}

/// Gathers what is known of the machine from the device-tree model, the SoC's
/// name and `/proc/meminfo`, as far as they could be read.
pub fn base_info(model: Option<&[u8]>, soc: Option<String>, meminfo: Option<&str>) -> (info:
    BaseSystemInfo)
    ensures
        opt_text(info.model) == (match model {
            Some(bytes) => dt_text(bytes@),
            None => None,
        }),
        info.soc == soc,
        info.memory_mb == (match meminfo {
            Some(text) => mem_total_lenient(text@),
            None => None,
        }),
{
    BaseSystemInfo {
        model: match model {
            Some(bytes) => read_dt_string(bytes),
            None => None,
        },
        soc,
        memory_mb: match meminfo {
            Some(text) => mem_total_mb(text),
            None => None,
        },
    }
}

// ---------------------------------------------------------------------------
// Laws
// ---------------------------------------------------------------------------

/// The first word of a text ends in front of its first white space.
pub proof fn law_first_word(word: Seq<char>, space: char, rest: Seq<char>)
    requires
        forall|i: int| 0 <= i < word.len() ==> !white_space(#[trigger] word[i]),
        white_space(space),
    ensures
        first_word(word) == word,
        first_word(word + seq![space] + rest) == word,
    decreases word.len(),
{
    let s = word + seq![space] + rest;
    if word.len() > 0 {
        assert(!white_space(word[0]));
        law_first_word(word.drop_first(), space, rest);
        assert(s.drop_first() =~= word.drop_first() + seq![space] + rest);
        assert(seq![word[0]] + word.drop_first() =~= word);
    } else {
        assert(s[0] == space);
        assert(first_word(word) =~= word);
        assert(first_word(s) =~= word);
    }
}

/// The memory in mebibytes is that of the line `MemTotal:`: its kibibytes by 1024
/// where it ends in `kB`, and otherwise its first word, in bytes, by 1048576.
pub proof fn law_memory(
    meminfo: &str,
    line: Option<Vec<char>>,
    text: &[char],
    kib: Option<u64>,
    mb: Option<u64>,
)
    requires
        call_ensures(find_line_value, (meminfo, "MemTotal:"), line),
        line matches Some(v) ==> text@ == v@,
        call_ensures(parse_kib, (text,), kib),
        call_ensures(mem_total_mb, (meminfo,), mb),
    ensures
        line is None ==> mb is None,
        line is Some ==> ({
            let value = trim_text(text@);
            let in_kib = value.len() >= 2 && value[value.len() - 2] == 'k' && value.last() == 'B';
            &&& in_kib && kib is None ==> mb is None
            &&& in_kib ==> (kib matches Some(n) ==> (mb matches Some(m) && 1024 * m <= n < 1024 * m
                + 1024))
            &&& !in_kib ==> match unsigned_u64(encode_utf8(first_word(value)), 10) {
                Some(n) => mb matches Some(m) && 1048576 * m <= n < 1048576 * m + 1048576,
                None => mb is None,
            }
        }),
{
    reveal_strlit("kB");
    if line is Some {
        let value = trim_text(text@);
        if value.len() >= 2 {
            let tail = value.skip(value.len() - 2);
            assert(tail[0] == value[value.len() - 2] && tail[1] == value.last());
            if tail[0] == 'k' && tail[1] == 'B' {
                assert(tail =~= "kB"@);
            }
        }
    }
}

/// What was gathered is what each source says.
pub proof fn law_base_info(
    model: &[u8],
    soc: Option<String>,
    meminfo: &str,
    info: BaseSystemInfo,
    unread: BaseSystemInfo,
    name: Option<String>,
    mb: Option<u64>,
)
    requires
        call_ensures(base_info, (Some(model), soc, Some(meminfo)), info),
        call_ensures(base_info, (None, soc, None), unread),
        call_ensures(read_dt_string, (model,), name),
        call_ensures(mem_total_mb, (meminfo,), mb),
    ensures
        opt_text(info.model) == opt_text(name),
        info.soc == soc && unread.soc == soc,
        info.memory_mb == mb,
        unread.model is None && unread.memory_mb is None,
{
}

} // verus!
