//! Rendering and reading unsigned numbers as hexadecimal or decimal text.

use vstd::prelude::*;

use crate::text::string_of;

verus! {

/// The upper-case hexadecimal digit of `d`.
pub open spec fn hex_digit_upper(d: int) -> char {
    if d < 10 {
        (48 + d) as char
    } else {
        (55 + d) as char
    }
}

/// The lower-case hexadecimal digit of `d`.
pub open spec fn hex_digit_lower(d: int) -> char {
    if d < 10 {
        (48 + d) as char
    } else {
        (87 + d) as char
    }
}

/// `n` in upper-case hexadecimal, without leading zeros.
pub open spec fn hex_upper(n: nat) -> Seq<char>
    decreases n,
{
    if n < 16 {
        seq![hex_digit_upper(n as int)]
    } else {
        hex_upper(n / 16).push(hex_digit_upper((n % 16) as int))
    }
}

/// `n` in decimal, without leading zeros.
pub open spec fn decimal(n: nat) -> Seq<char>
    decreases n,
{
    if n < 10 {
        seq![(48 + n) as char]
    } else {
        decimal(n / 10).push((48 + n % 10) as char)
    }
}

/// `digits` with zeros in front, up to `width` characters.
pub open spec fn zero_padded(digits: Seq<char>, width: nat) -> Seq<char> {
    if digits.len() < width {
        Seq::new((width - digits.len()) as nat, |i: int| '0') + digits
    } else {
        digits
    }
}

/// `n` in eight or more upper-case hexadecimal digits (`%08X`).
pub open spec fn hex_upper_8(n: nat) -> Seq<char> {
    zero_padded(hex_upper(n), 8)
}

/// A byte in two lower-case hexadecimal digits (`%02x`).
pub open spec fn hex_lower_2(b: u8) -> Seq<char> {
    seq![hex_digit_lower(b as int / 16), hex_digit_lower(b as int % 16)]
}

/// Bytes in lower-case hexadecimal, two digits each.
pub open spec fn hex_lower_bytes(bytes: Seq<u8>) -> Seq<char>
    decreases bytes.len(),
{
    if bytes.len() == 0 {
        Seq::empty()
    } else {
        hex_lower_bytes(bytes.drop_last()) + hex_lower_2(bytes.last())
    }
}

fn push_hex_upper(n: usize, out: &mut Vec<char>)
    ensures
        final(out)@ == old(out)@ + hex_upper(n as nat),
    decreases n,
{
    if n >= 16 {
        push_hex_upper(n / 16, out);
    }
    let d: u8 = (n % 16) as u8;
    let c: char = if d < 10 {
        (48 + d) as char
    } else {
        (55 + d) as char
    };
    out.push(c);
    assert(out@ =~= old(out)@ + hex_upper(n as nat));
}

fn push_decimal(n: u64, out: &mut Vec<char>)
    ensures
        final(out)@ == old(out)@ + decimal(n as nat),
    decreases n,
{
    if n >= 10 {
        push_decimal(n / 10, out);
    }
    let d: u8 = (n % 10) as u8;
    out.push((48 + d) as char);
    assert(out@ =~= old(out)@ + decimal(n as nat));
}

/// Renders `n` in eight or more upper-case hexadecimal digits.
pub fn hex_upper_8_text(n: usize) -> (text: String)
    ensures
        text@ == hex_upper_8(n as nat),
{
    let mut digits: Vec<char> = Vec::new();
    push_hex_upper(n, &mut digits);
    let mut padded: Vec<char> = Vec::new();
    if digits.len() < 8 {
        let zeros: usize = 8 - digits.len();
        while padded.len() < zeros
            invariant
                padded.len() <= zeros,
                zeros == 8 - digits.len(),
                forall|i: int| 0 <= i < padded.len() ==> padded@[i] == '0',
            decreases zeros - padded.len(),
        {
            padded.push('0');
        }
    }
    let ghost zeros = padded@;
    padded.extend_from_slice(digits.as_slice());
    assert(padded@ =~= zeros + digits@);
    assert(padded@ =~= hex_upper_8(n as nat));
    string_of(padded.as_slice())
}

/// Renders `n` in decimal.
pub fn decimal_text(n: u64) -> (text: String)
    ensures
        text@ == decimal(n as nat),
{
    let mut digits: Vec<char> = Vec::new();
    push_decimal(n, &mut digits);
    assert(digits@ =~= decimal(n as nat));
    string_of(digits.as_slice())
}

fn hex_digit(d: u8) -> (c: char)
    requires
        d < 16,
    ensures
        c == hex_digit_lower(d as int),
{
    if d < 10 {
        (48 + d) as char
    } else {
        (87 + d) as char
    }
}

/// Renders bytes in lower-case hexadecimal, two digits each.
pub fn hex_lower_text(bytes: &[u8]) -> (text: String)
    ensures
        text@ == hex_lower_bytes(bytes@),
{
    let mut out = String::new();
    let mut i: usize = 0;
    while i < bytes.len()
        invariant
            i <= bytes.len(),
            out@ == hex_lower_bytes(bytes@.take(i as int)),
        decreases bytes.len() - i,
    {
        let b: u8 = bytes[i];
        let ghost before = out@;
        out.push(hex_digit(b / 16));
        out.push(hex_digit(b % 16));
        proof {
            let t = bytes@.take(i + 1);
            assert(t.drop_last() =~= bytes@.take(i as int));
            assert(out@ =~= before + hex_lower_2(b));
        }
        i += 1;
    }
    assert(bytes@.take(bytes@.len() as int) =~= bytes@);
    out
}

/// The value of one ASCII digit in the given radix.
pub open spec fn digit_value(b: u8, radix: int) -> Option<int> {
    let v = if 48 <= b <= 57 {
        b - 48
    } else if 97 <= b <= 122 {
        b - 87
    } else if 65 <= b <= 90 {
        b - 55
    } else {
        radix
    };
    if v < radix {
        Some(v)
    } else {
        None
    }
}

/// The number that a run of digits denotes; `None` where one is not a digit.
pub open spec fn digits_value(s: Seq<u8>, radix: int) -> Option<nat>
    decreases s.len(),
{
    if s.len() == 0 {
        Some(0)
    } else {
        match (digits_value(s.drop_last(), radix), digit_value(s.last(), radix)) {
            (Some(v), Some(d)) => Some((v * radix + d) as nat),
            _ => None,
        }
    }
}

/// The number that a text denotes: an optional `+`, then one or more digits.
pub open spec fn unsigned_value(s: Seq<u8>, radix: int) -> Option<nat> {
    let digits = if s.len() > 0 && s[0] == 43 {
        s.drop_first()
    } else {
        s
    };
    if digits.len() == 0 {
        None
    } else {
        digits_value(digits, radix)
    }
}

/// The number that a text denotes, where it fits in 64 bits.
pub open spec fn unsigned_u64(s: Seq<u8>, radix: int) -> Option<u64> {
    match unsigned_value(s, radix) {
        Some(v) => if v <= u64::MAX {
            Some(v as u64)
        } else {
            None
        },
        None => None,
    }
}

/// A prefix of a run of digits denotes no more than the whole run.
proof fn lemma_digits_prefix(s: Seq<u8>, n: int, radix: int)
    requires
        0 <= n <= s.len(),
        radix >= 1,
    ensures
        digits_value(s, radix) matches Some(v) ==> (digits_value(s.take(n), radix) matches Some(p)
            && p <= v),
    decreases s.len() - n,
{
    if n < s.len() {
        lemma_digits_prefix(s, n + 1, radix);
        let t = s.take(n + 1);
        assert(t.drop_last() =~= s.take(n));
        if let (Some(p), Some(d)) = (digits_value(s.take(n), radix), digit_value(s[n], radix)) {
            assert(p * radix + d >= p) by (nonlinear_arith)
                requires
                    radix >= 1,
                    d >= 0,
                    p >= 0,
            ;
        }
    } else {
        assert(s.take(n) =~= s);
    }
}

fn digit_of(b: u8, radix: u64) -> (d: Option<u64>)
    requires
        2 <= radix <= 36,
    ensures
        d is Some <==> digit_value(b, radix as int) is Some,
        d matches Some(v) ==> digit_value(b, radix as int) == Some(v as int) && v < radix,
{
    let v: u64 = if 48 <= b && b <= 57 {
        (b - 48) as u64
    } else if 97 <= b && b <= 122 {
        (b - 87) as u64
    } else if 65 <= b && b <= 90 {
        (b - 55) as u64
    } else {
        radix
    };
    if v < radix {
        Some(v)
    } else {
        None
    }
}

/// Reads an unsigned number: an optional `+`, then one or more digits.
pub fn parse_unsigned(s: &[u8], radix: u64) -> (value: Option<u64>)
    requires
        2 <= radix <= 36,
    ensures
        value == unsigned_u64(s@, radix as int),
{
    let start: usize = if s.len() > 0 && s[0] == 43 {
        1
    } else {
        0
    };
    let ghost digits = s@.skip(start as int);
    proof {
        if start == 1 {
            assert(digits =~= s@.drop_first());
        } else {
            assert(digits =~= s@);
        }
    }
    if start == s.len() {
        return None;
    }
    let mut i: usize = start;
    let mut v: u64 = 0;
    while i < s.len()
        invariant
            start <= i <= s.len(),
            start < s.len(),
            2 <= radix <= 36,
            digits == s@.skip(start as int),
            digits_value(digits.take(i - start), radix as int) == Some(v as nat),
            unsigned_value(s@, radix as int) == digits_value(digits, radix as int),
        decreases s.len() - i,
    {
        let ghost next = digits.take(i + 1 - start);
        proof {
            assert(next.drop_last() =~= digits.take(i - start));
            assert(next.last() == s@[i as int]);
            lemma_digits_prefix(digits, i + 1 - start, radix as int);
        }
        let d = match digit_of(s[i], radix) {
            Some(d) => d,
            None => {
                return None;
            },
        };
        let scaled = match v.checked_mul(radix) {
            Some(x) => x,
            None => {
                return None;
            },
        };
        v = match scaled.checked_add(d) {
            Some(x) => x,
            None => {
                return None;
            },
        };
        i += 1;
    }
    assert(digits.take(digits.len() as int) =~= digits);
    Some(v)
}

// ---------------------------------------------------------------------------
// Reading back what was rendered
// ---------------------------------------------------------------------------

/// The bytes of a text of ASCII characters.
pub open spec fn ascii_bytes(s: Seq<char>) -> Seq<u8> {
    s.map_values(|c: char| c as u8)
}

/// Sixteen to the power of `k`.
pub open spec fn pow16(k: nat) -> nat
    decreases k,
{
    if k == 0 {
        1
    } else {
        16 * pow16((k - 1) as nat)
    }
}

/// A number below `16^k` has no more than `k` hexadecimal digits.
pub proof fn lemma_hex_len(n: nat, k: nat)
    requires
        k >= 1,
        n < pow16(k),
    ensures
        1 <= hex_upper(n).len() <= k,
    decreases k,
{
    if n >= 16 {
        assert(k > 1) by {
            if k == 1 {
                reveal_with_fuel(pow16, 2);
            }
        }
        assert(n / 16 < pow16((k - 1) as nat));
        lemma_hex_len(n / 16, (k - 1) as nat);
    }
}

proof fn lemma_hex_digit(d: int)
    requires
        0 <= d < 16,
    ensures
        digit_value(hex_digit_upper(d) as u8, 16) == Some(d),
{
}

/// The hexadecimal digits of a number denote it.
proof fn lemma_hex_value(n: nat)
    ensures
        digits_value(ascii_bytes(hex_upper(n)), 16) == Some(n),
        hex_upper(n).len() >= 1,
    decreases n,
{
    let bytes = ascii_bytes(hex_upper(n));
    lemma_hex_digit((n % 16) as int);
    if n < 16 {
        assert(bytes.drop_last() =~= Seq::empty());
        assert(digits_value(Seq::<u8>::empty(), 16) == Some(0nat));
        assert(n % 16 == n);
    } else {
        lemma_hex_value(n / 16);
        assert(bytes.drop_last() =~= ascii_bytes(hex_upper(n / 16)));
        assert(bytes.last() == hex_digit_upper((n % 16) as int) as u8);
    }
}

/// Zeros in front do not change the number.
proof fn lemma_zeros_value(k: nat, s: Seq<u8>)
    ensures
        digits_value(Seq::new(k, |i: int| 48u8) + s, 16) == digits_value(s, 16),
    decreases k + s.len(),
{
    let zeros = Seq::new(k, |i: int| 48u8);
    if s.len() > 0 {
        lemma_zeros_value(k, s.drop_last());
        assert((zeros + s).drop_last() =~= zeros + s.drop_last());
        assert((zeros + s).last() == s.last());
    } else if k > 0 {
        lemma_zeros_value((k - 1) as nat, s);
        assert((zeros + s).drop_last() =~= Seq::new((k - 1) as nat, |i: int| 48u8) + s);
        assert((zeros + s).last() == 48);
    } else {
        assert(zeros + s =~= s);
    }
}

/// A number below `16^8`, rendered in eight hexadecimal digits, is read back.
pub proof fn law_hex_round_trip(n: nat)
    requires
        n < 0x1_0000_0000,
    ensures
        hex_upper_8(n).len() == 8,
        unsigned_value(ascii_bytes(hex_upper_8(n)), 16) == Some(n),
{
    assert(pow16(8) == 0x1_0000_0000) by {
        reveal_with_fuel(pow16, 9);
    }
    lemma_hex_len(n, 8);
    lemma_hex_value(n);
    let digits = hex_upper(n);
    let k = (8 - digits.len()) as nat;
    lemma_zeros_value(k, ascii_bytes(digits));
    let bytes = ascii_bytes(hex_upper_8(n));
    assert(bytes =~= Seq::new(k, |i: int| 48u8) + ascii_bytes(digits));
    assert(bytes[0] != 43) by {
        if k == 0 {
            lemma_first_digit(n);
        }
    }
}

proof fn lemma_first_digit(n: nat)
    ensures
        hex_upper(n).len() >= 1,
        hex_upper(n)[0] as u8 >= 48,
    decreases n,
{
    if n >= 16 {
        lemma_first_digit(n / 16);
    }
}

// ---------------------------------------------------------------------------
// The digits themselves
// ---------------------------------------------------------------------------

proof fn lemma_pow16(j: nat, k: nat)
    requires
        j <= k,
    ensures
        1 <= pow16(j) <= pow16(k),
    decreases k,
{
    if j < k {
        lemma_pow16(j, (k - 1) as nat);
    } else if k > 0 {
        lemma_pow16((k - 1) as nat, (k - 1) as nat);
    }
}

proof fn lemma_hex_at(n: nat, k: nat)
    ensures
        n < pow16(hex_upper(n).len()),
        hex_upper(n).len() >= 1,
        k < hex_upper(n).len() ==> hex_upper(n)[hex_upper(n).len() - 1 - k] == hex_digit_upper(
            n as int / pow16(k) as int % 16,
        ),
    decreases n,
{
    assert(pow16(0) == 1);
    if n < 16 {
        assert(pow16(1) == 16);
        assert(n as int / 1 % 16 == n);
    } else {
        let earlier = hex_upper(n / 16);
        if k == 0 {
            lemma_hex_at(n / 16, 0);
            assert(n as int / 1 % 16 == n % 16);
        } else {
            let j = (k - 1) as nat;
            lemma_hex_at(n / 16, j);
            lemma_pow16(j, j);
            vstd::arithmetic::div_mod::lemma_div_denominator(n as int, 16, pow16(j) as int);
            if k < hex_upper(n).len() {
                assert(hex_upper(n)[hex_upper(n).len() - 1 - k] == earlier[earlier.len() - 1 - j]);
            }
        }
    }
}

/// A number below `16^8` is rendered in eight digits, the most significant one
/// first: `0` to `9`, then `A` to `F`.
pub proof fn law_upper_hex_digits(n: nat, k: nat)
    requires
        n < 0x1_0000_0000,
        k < 8,
    ensures
        hex_upper_8(n).len() == 8,
        ({
            let d = n as int / pow16(k) as int % 16;
            &&& d < 10 ==> hex_upper_8(n)[7 - k] as int == '0' as int + d
            &&& d >= 10 ==> hex_upper_8(n)[7 - k] as int == 'A' as int + (d - 10)
        }),
{
    law_hex_round_trip(n);
    let digits = hex_upper(n);
    let text = hex_upper_8(n);
    lemma_hex_at(n, k);
    if k >= digits.len() {
        lemma_pow16(digits.len(), k);
        vstd::arithmetic::div_mod::lemma_basic_div(n as int, pow16(k) as int);
        assert(text[7 - k] == '0');
    } else {
        assert(text[7 - k] == digits[digits.len() - 1 - k]);
    }
}

/// Every byte is rendered in two digits, the upper half first: `0` to `9`, then
/// `a` to `f`.
pub proof fn law_lower_hex_digits(bytes: &[u8], text: String, i: int)
    requires
        call_ensures(hex_lower_text, (bytes,), text),
        0 <= i < bytes@.len(),
    ensures
        text@.len() == 2 * bytes@.len(),
        ({
            let high = bytes@[i] as int / 16;
            let low = bytes@[i] as int % 16;
            &&& high < 10 ==> text@[2 * i] as int == '0' as int + high
            &&& high >= 10 ==> text@[2 * i] as int == 'a' as int + (high - 10)
            &&& low < 10 ==> text@[2 * i + 1] as int == '0' as int + low
            &&& low >= 10 ==> text@[2 * i + 1] as int == 'a' as int + (low - 10)
        }),
{
    lemma_lower_hex_at(bytes@, i);
}

/// The digits of a byte stand at twice its position.
pub proof fn lemma_lower_hex_at(bytes: Seq<u8>, i: int)
    requires
        0 <= i < bytes.len(),
    ensures
        hex_lower_bytes(bytes).len() == 2 * bytes.len(),
        hex_lower_bytes(bytes)[2 * i] == hex_digit_lower(bytes[i] as int / 16),
        hex_lower_bytes(bytes)[2 * i + 1] == hex_digit_lower(bytes[i] as int % 16),
    decreases bytes.len(),
{
    let earlier = bytes.drop_last();
    lemma_lower_hex_len(earlier);
    if i < earlier.len() {
        lemma_lower_hex_at(earlier, i);
    }
}

proof fn lemma_lower_hex_len(bytes: Seq<u8>)
    ensures
        hex_lower_bytes(bytes).len() == 2 * bytes.len(),
    decreases bytes.len(),
{
    if bytes.len() > 0 {
        lemma_lower_hex_len(bytes.drop_last());
    }
}

/// A decimal digit more at the end of a number is that digit more at the end of
/// its text, and a single digit is one character.
pub proof fn law_decimal_digits(head: u64, digit: u64, text: String, longer: String)
    requires
        digit < 10,
        10 * head + digit <= u64::MAX,
        call_ensures(decimal_text, (head,), text),
        call_ensures(decimal_text, ((10 * head + digit) as u64,), longer),
    ensures
        head > 0 ==> longer@.len() == text@.len() + 1 && longer@.drop_last() == text@
            && longer@.last() as int == '0' as int + digit,
        head == 0 ==> longer@.len() == 1 && longer@[0] as int == '0' as int + digit,
{
    let n = (10 * head + digit) as nat;
    if head > 0 {
        assert(n / 10 == head && n % 10 == digit);
        assert(longer@.drop_last() =~= text@);
    }
}

/// The value of a digit: `0` to `9`, and in hexadecimal `a` to `f` in either
/// case; nothing else is a digit.
pub proof fn law_digits(b: u8)
    ensures
        48 <= b <= 57 ==> digit_value(b, 10) == Some(b - 48) && digit_value(b, 16) == Some(b - 48),
        !(48 <= b <= 57) ==> digit_value(b, 10) is None,
        97 <= b <= 102 ==> digit_value(b, 16) == Some(b - 87),
        65 <= b <= 70 ==> digit_value(b, 16) == Some(b - 55),
        !(48 <= b <= 57) && !(97 <= b <= 102) && !(65 <= b <= 70) ==> digit_value(b, 16) is None,
{
}

/// Reading a text with one more digit gives the number ten times, or in
/// hexadecimal sixteen times, as large plus that digit, and nothing where it is
/// no digit or the number takes more than 64 bits.
pub proof fn law_one_more_digit(
    shorter: &[u8],
    longer: &[u8],
    radix: u64,
    value: Option<u64>,
    next: Option<u64>,
)
    requires
        radix == 10 || radix == 16,
        shorter@.len() > 0,
        shorter@ != seq![43u8],
        longer@.len() == shorter@.len() + 1,
        longer@.drop_last() == shorter@,
        call_ensures(parse_unsigned, (shorter, radix), value),
        call_ensures(parse_unsigned, (longer, radix), next),
    ensures
        value is None ==> next is None,
        value matches Some(v) ==> match digit_value(longer@.last(), radix as int) {
            Some(d) => next == (if v * radix + d <= u64::MAX {
                Some((v * radix + d) as u64)
            } else {
                None
            }),
            None => next is None,
        },
{
    let s = shorter@;
    let t = longer@;
    assert(t[0] == s[0]);
    if s[0] == 43 {
        assert(s.len() > 1) by {
            if s.len() == 1 {
                assert(s =~= seq![43u8]);
            }
        }
        assert(t.drop_first().drop_last() =~= s.drop_first());
        lemma_too_large(s.drop_first(), t.drop_first(), radix as int);
    } else {
        lemma_too_large(s, t, radix as int);
    }
}

proof fn lemma_too_large(s: Seq<u8>, t: Seq<u8>, radix: int)
    requires
        radix == 10 || radix == 16,
        t.len() > 0,
        t.drop_last() == s,
    ensures
        digits_value(s, radix) matches Some(v) ==> (digits_value(t, radix) matches Some(w) ==> w
            >= v),
{
    if let (Some(v), Some(d)) = (digits_value(s, radix), digit_value(t.last(), radix)) {
        assert(v * radix + d >= v) by (nonlinear_arith)
            requires
                radix == 10 || radix == 16,
                d >= 0,
        ;
    }
}

/// A text of one character is read as its digit, with or without a plus sign in
/// front; nothing and a plus sign alone are no numbers.
pub proof fn law_one_digit(
    b: u8,
    one: &[u8],
    signed: &[u8],
    empty: &[u8],
    sign: &[u8],
    radix: u64,
    value: Option<u64>,
    same: Option<u64>,
    nothing: Option<u64>,
    alone: Option<u64>,
)
    requires
        empty@.len() == 0,
        sign@ == seq![43u8],
        call_ensures(parse_unsigned, (empty, radix), nothing),
        call_ensures(parse_unsigned, (sign, radix), alone),
        radix == 10 || radix == 16,
        one@ == seq![b],
        signed@ == seq![43u8, b],
        call_ensures(parse_unsigned, (one, radix), value),
        call_ensures(parse_unsigned, (signed, radix), same),
    ensures
        value == (match digit_value(b, radix as int) {
            Some(d) => Some(d as u64),
            None => None,
        }),
        same == value,
        nothing is None && alone is None,
{
    assert(seq![b].drop_last() =~= Seq::empty());
    assert(digits_value(Seq::empty(), radix as int) == Some(0nat));
    assert(0 * radix as int == 0) by (nonlinear_arith);
    if let Some(d) = digit_value(b, radix as int) {
        assert(0 <= d < 36);
        assert(digits_value(seq![b], radix as int) == Some(d as nat));
    } else {
        assert(digits_value(seq![b], radix as int) is None);
    }
    assert(seq![43u8, b].drop_first() =~= seq![b]);
    assert(seq![43u8].drop_first() =~= Seq::empty());
    if b == 43 {
        assert(seq![43u8].drop_first() =~= Seq::empty());
    }
}

/// The text of a size is eight such digits.
pub proof fn law_size_text(n: usize, text: String, k: nat)
    requires
        n < 0x1_0000_0000,
        k < 8,
        call_ensures(hex_upper_8_text, (n,), text),
    ensures
        text@.len() == 8,
        ({
            let d = n as int / pow16(k) as int % 16;
            &&& d < 10 ==> text@[7 - k] as int == '0' as int + d
            &&& d >= 10 ==> text@[7 - k] as int == 'A' as int + (d - 10)
        }),
{
    law_upper_hex_digits(n as nat, k);
}

/// The powers of sixteen.
pub proof fn law_powers_of_sixteen()
    ensures
        pow16(0) == 1,
        pow16(1) == 16,
        pow16(2) == 256,
        pow16(3) == 4096,
        pow16(4) == 65536,
        pow16(5) == 1048576,
        pow16(6) == 16777216,
        pow16(7) == 268435456,
        pow16(8) == 4294967296,
{
    reveal_with_fuel(pow16, 9);
}

/// A number of more than eight digits is rendered in as many as it has, and one of
/// fewer with zeros in front.
pub proof fn law_all_hex_digits(n: usize, text: String, k: nat)
    requires
        call_ensures(hex_upper_8_text, (n,), text),
        k < text@.len(),
    ensures
        text@.len() >= 8,
        n < pow16(text@.len()),
        text@.len() > 8 ==> n >= pow16((text@.len() - 1) as nat),
        ({
            let d = n as int / pow16(k) as int % 16;
            &&& d < 10 ==> text@[text@.len() - 1 - k] as int == '0' as int + d
            &&& d >= 10 ==> text@[text@.len() - 1 - k] as int == 'A' as int + (d - 10)
        }),
{
    let digits = hex_upper(n as nat);
    lemma_hex_at(n as nat, k);
    lemma_pow16(digits.len(), text@.len());
    lemma_first_hex_digit(n as nat);
    if k >= digits.len() {
        lemma_pow16(digits.len(), k);
        vstd::arithmetic::div_mod::lemma_basic_div(n as int, pow16(k) as int);
        assert(text@[text@.len() - 1 - k] == '0');
    } else {
        assert(text@[text@.len() - 1 - k] == digits[digits.len() - 1 - k]);
    }
}

proof fn lemma_first_hex_digit(n: nat)
    ensures
        hex_upper(n).len() > 1 ==> n >= pow16((hex_upper(n).len() - 1) as nat),
        hex_upper(n).len() >= 1,
    decreases n,
{
    assert(pow16(0) == 1);
    if n >= 16 {
        lemma_first_hex_digit(n / 16);
    }
}

} // verus!
