//! Fixed-width integers on the wire.

use vstd::prelude::*;

verus! {

/// The four bytes of `x`, least significant first.
pub open spec fn le32(x: u32) -> Seq<u8> {
    seq![
        (x % 0x100) as u8,
        (x / 0x100 % 0x100) as u8,
        (x / 0x1_0000 % 0x100) as u8,
        (x / 0x100_0000) as u8,
    ]
}

/// The eight bytes of `x`, least significant first.
pub open spec fn le64(x: u64) -> Seq<u8> {
    le32((x % 0x1_0000_0000) as u32) + le32((x / 0x1_0000_0000) as u32)
}

/// The eight bytes of `x`, most significant first.
pub open spec fn be64(x: u64) -> Seq<u8> {
    le64(x).reverse()
}

/// The number whose four bytes, least significant first, start at `at`.
pub open spec fn le32_at(s: Seq<u8>, at: int) -> u32 {
    (s[at] + 0x100 * s[at + 1] + 0x1_0000 * s[at + 2] + 0x100_0000 * s[at + 3]) as u32
}

/// The number whose eight bytes, least significant first, start at `at`.
pub open spec fn le64_at(s: Seq<u8>, at: int) -> u64 {
    (le32_at(s, at) + 0x1_0000_0000 * le32_at(s, at + 4)) as u64
}

/// The number whose eight bytes, most significant first, are `s`.
pub open spec fn be64_value(s: Seq<u8>) -> u64 {
    le64_at(s.reverse(), 0)
}

/// The 32-bit word that holds a signed number.
pub open spec fn word_of(x: i32) -> u32 {
    if x >= 0 {
        x as u32
    } else {
        (x + 0x1_0000_0000) as u32
    }
}

/// The signed number that a 32-bit word holds.
pub open spec fn signed_of(w: u32) -> i32 {
    if w < 0x8000_0000 {
        w as i32
    } else {
        (w - 0x1_0000_0000) as i32
    }
}

/// What is read from the four bytes of a number is the number.
pub proof fn law_le32_round_trip(x: u32, before: Seq<u8>, after: Seq<u8>)
    ensures
        le32_at(before + le32(x) + after, before.len() as int) == x,
        le32(x).len() == 4,
{
    let s = before + le32(x) + after;
    let n = before.len() as int;
    assert(s[n] == le32(x)[0]);
    assert(s[n + 1] == le32(x)[1]);
    assert(s[n + 2] == le32(x)[2]);
    assert(s[n + 3] == le32(x)[3]);
    assert(x == x % 0x100 + 0x100 * (x / 0x100 % 0x100) + 0x1_0000 * (x / 0x1_0000 % 0x100)
        + 0x100_0000 * (x / 0x100_0000));
}

/// What is read from the eight bytes of a number is the number.
pub proof fn law_le64_round_trip(x: u64, before: Seq<u8>, after: Seq<u8>)
    ensures
        le64_at(before + le64(x) + after, before.len() as int) == x,
        le64(x).len() == 8,
{
    let low = (x % 0x1_0000_0000) as u32;
    let high = (x / 0x1_0000_0000) as u32;
    law_le32_round_trip(low, before, le32(high) + after);
    law_le32_round_trip(high, before + le32(low), after);
    assert(before + le32(low) + (le32(high) + after) =~= before + le64(x) + after);
    assert(before + le32(low) + le32(high) + after =~= before + le64(x) + after);
}

/// What is read from the bytes of a length prefix is the length.
pub proof fn law_be64_round_trip(x: u64)
    ensures
        be64_value(be64(x)) == x,
        be64(x).len() == 8,
{
    law_le64_round_trip(x, Seq::empty(), Seq::empty());
    assert(be64(x).reverse() =~= Seq::<u8>::empty() + le64(x) + Seq::<u8>::empty());
}

/// A signed number survives being held in a word.
pub proof fn law_word_round_trip(x: i32)
    ensures
        signed_of(word_of(x)) == x,
{
}

/// Appends the four bytes of `x`, least significant first.
pub fn push_le32(out: &mut Vec<u8>, x: u32)
    ensures
        final(out)@ == old(out)@ + le32(x),
{
    out.push((x % 0x100) as u8);
    out.push((x / 0x100 % 0x100) as u8);
    out.push((x / 0x1_0000 % 0x100) as u8);
    out.push((x / 0x100_0000) as u8);
    assert(out@ =~= old(out)@ + le32(x));
}

/// Appends the eight bytes of `x`, least significant first.
pub fn push_le64(out: &mut Vec<u8>, x: u64)
    ensures
        final(out)@ == old(out)@ + le64(x),
{
    push_le32(out, (x % 0x1_0000_0000) as u32);
    push_le32(out, (x / 0x1_0000_0000) as u32);
    assert(out@ =~= old(out)@ + le64(x));
}

/// The eight bytes of `x`, most significant first.
pub fn be64_bytes(x: u64) -> (bytes: Vec<u8>)
    ensures
        bytes@ == be64(x),
{
    let mut le: Vec<u8> = Vec::new();
    push_le64(&mut le, x);
    assert(le@ =~= le64(x));
    let mut out: Vec<u8> = Vec::new();
    let mut i: usize = 0;
    while i < 8
        invariant
            i <= 8,
            le@ == le64(x),
            le@.len() == 8,
            out@.len() == i,
            forall|j: int| 0 <= j < i ==> out@[j] == le@[7 - j],
        decreases 8 - i,
    {
        out.push(le[7 - i]);
        i += 1;
    }
    assert(out@ =~= be64(x));
    out
}

/// Reads the four bytes at `at`, least significant first.
pub fn read_le32(s: &[u8], at: usize) -> (x: u32)
    requires
        at + 4 <= s.len(),
    ensures
        x == le32_at(s@, at as int),
{
    s[at] as u32 + 0x100 * (s[at + 1] as u32) + 0x1_0000 * (s[at + 2] as u32) + 0x100_0000 * (s[at
        + 3] as u32)
}

/// Reads the eight bytes at `at`, least significant first.
pub fn read_le64(s: &[u8], at: usize) -> (x: u64)
    requires
        at + 8 <= s.len(),
    ensures
        x == le64_at(s@, at as int),
{
    read_le32(s, at) as u64 + 0x1_0000_0000 * (read_le32(s, at + 4) as u64)
}

/// Reads eight bytes, most significant first.
pub fn read_be64(s: &[u8]) -> (x: u64)
    requires
        s.len() == 8,
    ensures
        x == be64_value(s@),
{
    let mut le: Vec<u8> = Vec::new();
    let mut i: usize = 0;
    while i < 8
        invariant
            i <= 8,
            s.len() == 8,
            le@.len() == i,
            forall|j: int| 0 <= j < i ==> le@[j] == s@[7 - j],
        decreases 8 - i,
    {
        le.push(s[7 - i]);
        i += 1;
    }
    assert(le@ =~= s@.reverse());
    read_le64(le.as_slice(), 0)
}

/// The 32-bit word that holds a signed number.
pub fn to_word(x: i32) -> (w: u32)
    ensures
        w == word_of(x),
{
    if x >= 0 {
        x as u32
    } else {
        (x as i64 + 0x1_0000_0000) as u32
    }
}

/// The signed number that a 32-bit word holds.
pub fn from_word(w: u32) -> (x: i32)
    ensures
        x == signed_of(w),
{
    if w < 0x8000_0000 {
        w as i32
    } else {
        (w as i64 - 0x1_0000_0000) as i32
    }
}

/// The least significant byte of a 32-bit number comes first, on writing and on
/// reading.
pub proof fn law_least_significant_first(x: u32, s: Seq<u8>, at: int)
    requires
        0 <= at,
        at + 4 <= s.len(),
    ensures
        le32(x).len() == 4,
        le32(x)[0] == x % 256,
        le32(x)[1] == x / 256 % 256,
        le32(x)[2] == x / 65536 % 256,
        le32(x)[3] == x / 16777216,
        le32_at(s, at) == s[at] + 256 * s[at + 1] + 65536 * s[at + 2] + 16777216 * s[at + 3],
{
}

/// The lower half of a 64-bit number comes before the upper one, and the most
/// significant byte of a length prefix before the others.
pub proof fn law_halves_and_prefix(s: &[u8], x: u64, prefix: u64)
    requires
        s@.len() == 8,
        call_ensures(read_le64, (s, 0usize), x),
        call_ensures(read_be64, (s,), prefix),
    ensures
        x == s@[0] + 256 * s@[1] + 65536 * s@[2] + 16777216 * s@[3] + 4294967296 * (s@[4] + 256
            * s@[5] + 65536 * s@[6] + 16777216 * s@[7]),
        prefix == s@[7] + 256 * s@[6] + 65536 * s@[5] + 16777216 * s@[4] + 4294967296 * (s@[3]
            + 256 * s@[2] + 65536 * s@[1] + 16777216 * s@[0]),
{
}

/// A negative number is held as its complement to two to the power of 32.
pub proof fn law_negative_numbers(x: i32)
    ensures
        x >= 0 ==> word_of(x) == x,
        x < 0 ==> word_of(x) == x + 4294967296,
{
}

/// A number that is written comes behind what was there, the least significant byte
/// first, and a length prefix has the most significant byte first.
pub proof fn law_written_numbers(
    out: &mut Vec<u8>,
    longer: &mut Vec<u8>,
    x: u32,
    y: u64,
    prefix: Vec<u8>,
    back: u64,
    slice: &[u8],
)
    requires
        call_ensures(push_le32, (out, x), ()),
        call_ensures(push_le64, (longer, y), ()),
        call_ensures(be64_bytes, (y,), prefix),
        slice@ == prefix@,
        call_ensures(read_be64, (slice,), back),
    ensures
        final(out)@ == old(out)@ + seq![
            (x % 256) as u8,
            (x / 256 % 256) as u8,
            (x / 65536 % 256) as u8,
            (x / 16777216) as u8,
        ],
        final(longer)@.len() == old(longer)@.len() + 8,
        le64_at(final(longer)@, old(longer)@.len() as int) == y,
        final(longer)@.take(old(longer)@.len() as int) == old(longer)@,
        prefix@.len() == 8,
        back == y,
{
    let n = old(longer)@.len() as int;
    law_le64_round_trip(y, old(longer)@, Seq::empty());
    assert(old(longer)@ + le64(y) + Seq::<u8>::empty() =~= final(longer)@);
    assert(final(longer)@.take(n) =~= old(longer)@);
    law_be64_round_trip(y);
}

/// What is read at a place are the four bytes there; a number and the word that
/// holds it give each other.
pub proof fn law_read_numbers(s: &[u8], at: usize, x: u32, n: i32, w: u32, back: i32)
    requires
        at + 4 <= s@.len(),
        call_ensures(read_le32, (s, at), x),
        call_ensures(to_word, (n,), w),
        call_ensures(from_word, (w,), back),
    ensures
        x == s@[at as int] + 256 * s@[at + 1] + 65536 * s@[at + 2] + 16777216 * s@[at + 3],
        n >= 0 ==> w == n,
        n < 0 ==> w == n + 4294967296,
        back == n,
{
}

} // verus!
