//! Text and number helpers shared by the configuration, identity and protocol
//! modules: comparing and building strings, trimming, splitting into lines,
//! and rendering or reading hexadecimal and decimal numbers.

use vstd::prelude::*;
use vstd::slice::slice_subrange;
use vstd::string::StringSliceAdditionalSpecFns;
use vstd::utf8::{decode_utf8, encode_utf8, valid_utf8};

verus! {

broadcast use vstd::utf8::encode_utf8_decode_utf8;

/// `std::string::String::push`: appends one character.
pub assume_specification[ String::push ](s: &mut String, c: char)
    ensures
        final(s)@ == old(s)@.push(c),
;

/// What `String::from_utf8_lossy` makes of a byte sequence.
pub uninterp spec fn utf8_lossy(bytes: Seq<u8>) -> Seq<char>;

/// `std::string::String::from_utf8_lossy`: the text of `bytes`, with invalid
/// sequences replaced. Bytes that are valid UTF-8 decode to their characters.
#[verifier::external_body]
fn from_utf8_lossy(bytes: &[u8]) -> (text: String)
    ensures
        text@ == utf8_lossy(bytes@),
        valid_utf8(bytes@) ==> text@ == decode_utf8(bytes@),
{
    String::from_utf8_lossy(bytes).into_owned()
}

/// `std::str::from_utf8`: the text that `bytes` encode, when they are valid
/// UTF-8.
#[verifier::external_body]
fn str_from_utf8(bytes: &[u8]) -> (text: Option<&str>)
    ensures
        text is Some <==> valid_utf8(bytes@),
        text matches Some(t) ==> t.spec_bytes() == bytes@ && t@ == decode_utf8(bytes@),
{
    std::str::from_utf8(bytes).ok()
}

/// What `{:?}` makes of a text: the text in double quotes, with some of its
/// characters escaped.
pub uninterp spec fn debug_quoted(text: Seq<char>) -> Seq<char>;

/// `std::format!` with `{:?}` of a string slice: the text in double quotes,
/// with some of its characters escaped.
#[verifier::external_body]
pub(crate) fn debug_text(text: &str) -> (quoted: String)
    ensures
        quoted@ == debug_quoted(text@),
{
    format!("{:?}", text)
}

/// Reads `bytes` as text, replacing what is not valid UTF-8.
pub fn lossy_text(bytes: &[u8]) -> (text: String)
    ensures
        text@ == utf8_lossy(bytes@),
        valid_utf8(bytes@) ==> text@ == decode_utf8(bytes@),
{
    from_utf8_lossy(bytes)
}

/// Reads `bytes` as text, if they are valid UTF-8.
pub fn utf8_text(bytes: &[u8]) -> (text: Option<&str>)
    ensures
        text is Some <==> valid_utf8(bytes@),
        text matches Some(t) ==> t.spec_bytes() == bytes@ && t@ == decode_utf8(bytes@),
{
    str_from_utf8(bytes)
}

/// Whether two byte slices hold the same bytes.
pub fn same_bytes(a: &[u8], b: &[u8]) -> (same: bool)
    ensures
        same == (a@ == b@),
{
    if a.len() != b.len() {
        return false;
    }
    let mut i: usize = 0;
    while i < a.len()
        invariant
            i <= a.len(),
            a.len() == b.len(),
            forall|j: int| 0 <= j < i ==> a@[j] == b@[j],
        decreases a.len() - i,
    {
        if a[i] != b[i] {
            return false;
        }
        i += 1;
    }
    assert(a@ =~= b@);
    true
}

/// Whether two strings hold the same characters.
pub fn same_text(a: &str, b: &str) -> (same: bool)
    ensures
        same == (a@ == b@),
{
    let same = same_bytes(a.as_bytes(), b.as_bytes());
    proof {
        if same {
            assert(decode_utf8(encode_utf8(a@)) == decode_utf8(encode_utf8(b@)));
        }
    }
    same
}

/// The characters of a string, in order.
pub fn chars_of(s: &str) -> (chars: Vec<char>)
    ensures
        chars@ == s@,
{
    let mut chars: Vec<char> = Vec::new();
    for c in it: s.chars()
        invariant
            it.seq() == s@,
            chars@ == s@.take(it.index() as int),
    {
        proof {
            assert(s@.take(it.index() + 1) =~= s@.take(it.index() as int).push(c));
        }
        chars.push(c);
    }
    assert(s@.take(s@.len() as int) =~= s@);
    chars
}

/// The string made of the given characters.
pub fn string_of(chars: &[char]) -> (s: String)
    ensures
        s@ == chars@,
{
    let mut s = String::new();
    let mut i: usize = 0;
    while i < chars.len()
        invariant
            i <= chars.len(),
            s@ == chars@.take(i as int),
        decreases chars.len() - i,
    {
        s.push(chars[i]);
        assert(chars@.take(i + 1) =~= chars@.take(i as int).push(chars@[i as int]));
        i += 1;
    }
    assert(chars@.take(chars@.len() as int) =~= chars@);
    s
}

/// Joins two strings.
pub fn joined(a: &str, b: &str) -> (s: String)
    ensures
        s@ == a@ + b@,
{
    let mut s = a.to_owned();
    s.append(b);
    s
}

// ---------------------------------------------------------------------------
// White space
// ---------------------------------------------------------------------------

/// The Unicode `White_Space` characters.
pub open spec fn white_space(c: char) -> bool {
    let u = c as int;
    ||| 0x09 <= u <= 0x0d
    ||| u == 0x20
    ||| u == 0x85
    ||| u == 0xa0
    ||| u == 0x1680
    ||| 0x2000 <= u <= 0x200a
    ||| u == 0x2028
    ||| u == 0x2029
    ||| u == 0x202f
    ||| u == 0x205f
    ||| u == 0x3000
}

/// Whether `c` is white space.
pub fn is_white_space(c: char) -> (r: bool)
    ensures
        r == white_space(c),
{
    let u: u32 = c as u32;
    (0x09 <= u && u <= 0x0d) || u == 0x20 || u == 0x85 || u == 0xa0 || u == 0x1680 || (0x2000 <= u
        && u <= 0x200a) || u == 0x2028 || u == 0x2029 || u == 0x202f || u == 0x205f || u == 0x3000
}

/// `s` without its leading white space.
pub open spec fn trim_front(s: Seq<char>) -> Seq<char>
    decreases s.len(),
{
    if s.len() > 0 && white_space(s[0]) {
        trim_front(s.drop_first())
    } else {
        s
    }
}

/// `s` without its trailing white space.
pub open spec fn trim_back(s: Seq<char>) -> Seq<char>
    decreases s.len(),
{
    if s.len() > 0 && white_space(s.last()) {
        trim_back(s.drop_last())
    } else {
        s
    }
}

/// `s` without white space at either end.
pub open spec fn trim_text(s: Seq<char>) -> Seq<char> {
    trim_back(trim_front(s))
}

/// `chars` without white space at either end.
pub fn trim(chars: &[char]) -> (r: &[char])
    ensures
        r@ == trim_text(chars@),
{
    let n: usize = chars.len();
    let mut start: usize = 0;
    assert(chars@.skip(0) =~= chars@);
    while start < n && is_white_space(chars[start])
        invariant
            start <= n,
            n == chars.len(),
            trim_front(chars@) == trim_front(chars@.skip(start as int)),
        decreases n - start,
    {
        assert(chars@.skip(start as int).drop_first() =~= chars@.skip(start + 1));
        start += 1;
    }
    assert(trim_front(chars@) == chars@.skip(start as int));
    let mut end: usize = n;
    while end > start && is_white_space(chars[end - 1])
        invariant
            start <= end <= n,
            n == chars.len(),
            trim_back(chars@.skip(start as int)) == trim_back(
                chars@.subrange(start as int, end as int),
            ),
        decreases end,
    {
        assert(chars@.subrange(start as int, end as int).drop_last() =~= chars@.subrange(
            start as int,
            end - 1,
        ));
        end -= 1;
    }
    slice_subrange(chars, start, end)
}

/// The text of `s` without white space at either end.
pub fn trimmed(s: &str) -> (r: String)
    ensures
        r@ == trim_text(s@),
{
    let chars = chars_of(s);
    string_of(trim(chars.as_slice()))
}

/// The trimmed text, unless nothing is left of it.
pub open spec fn non_empty_text(s: Seq<char>) -> Option<Seq<char>> {
    if trim_text(s).len() == 0 {
        None
    } else {
        Some(trim_text(s))
    }
}

/// The view of an optional string.
pub open spec fn opt_text(s: Option<String>) -> Option<Seq<char>> {
    match s {
        Some(s) => Some(s@),
        None => None,
    }
}

/// The view of an optional string slice.
pub open spec fn opt_str(s: Option<&str>) -> Option<Seq<char>> {
    match s {
        Some(s) => Some(s@),
        None => None,
    }
}

/// The trimmed text of `s`, unless it is empty.
pub fn trimmed_non_empty(s: &str) -> (r: Option<String>)
    ensures
        opt_text(r) == non_empty_text(s@),
{
    let t = trimmed(s);
    if t.as_str().is_empty() {
        None
    } else {
        Some(t)
    }
}

// ---------------------------------------------------------------------------
// ASCII case
// ---------------------------------------------------------------------------

/// ASCII upper-case letters become lower case; other characters stay.
pub open spec fn ascii_lower(c: char) -> char {
    if 'A' <= c && c <= 'Z' {
        (c as u8 + 32) as char
    } else {
        c
    }
}

/// `s` with every ASCII letter in lower case.
pub open spec fn ascii_lower_text(s: Seq<char>) -> Seq<char> {
    s.map_values(|c: char| ascii_lower(c))
}

/// ASCII upper-case letters become lower case; other characters stay.
pub fn to_ascii_lower(c: char) -> (r: char)
    ensures
        r == ascii_lower(c),
{
    if 'A' <= c && c <= 'Z' {
        ((c as u8) + 32) as char
    } else {
        c
    }
}

/// Whether two strings agree up to the case of their ASCII letters.
pub fn same_text_ignoring_case(a: &str, b: &str) -> (same: bool)
    ensures
        same == (ascii_lower_text(a@) == ascii_lower_text(b@)),
{
    let x = chars_of(a);
    let y = chars_of(b);
    if x.len() != y.len() {
        assert(ascii_lower_text(a@).len() != ascii_lower_text(b@).len());
        return false;
    }
    let mut i: usize = 0;
    while i < x.len()
        invariant
            i <= x.len(),
            x.len() == y.len(),
            x@ == a@,
            y@ == b@,
            forall|j: int| 0 <= j < i ==> ascii_lower(x@[j]) == ascii_lower(y@[j]),
        decreases x.len() - i,
    {
        if to_ascii_lower(x[i]) != to_ascii_lower(y[i]) {
            assert(ascii_lower_text(a@)[i as int] != ascii_lower_text(b@)[i as int]);
            return false;
        }
        i += 1;
    }
    assert(ascii_lower_text(a@) =~= ascii_lower_text(b@));
    true
}

// ---------------------------------------------------------------------------
// Lines and fields
// ---------------------------------------------------------------------------

/// The position of the first `c` in `s`, or the length of `s` if there is none.
pub open spec fn find_char(s: Seq<char>, c: char) -> int
    decreases s.len(),
{
    if s.len() == 0 || s[0] == c {
        0
    } else {
        1 + find_char(s.drop_first(), c)
    }
}

/// `s` up to its first `c`, and what follows that `c`; `None` if `s` has no `c`.
pub open spec fn split_once(s: Seq<char>, c: char) -> Option<(Seq<char>, Seq<char>)> {
    let i = find_char(s, c);
    if i < s.len() {
        Some((s.take(i), s.skip(i + 1)))
    } else {
        None
    }
}

/// `line` without a carriage return at its end.
pub open spec fn without_cr(line: Seq<char>) -> Seq<char> {
    if line.len() > 0 && line.last() == '\r' {
        line.drop_last()
    } else {
        line
    }
}

/// The lines of a text: what line feeds, with or without a carriage return in
/// front, separate. Nothing follows a line feed at the very end.
pub open spec fn text_lines(s: Seq<char>) -> Seq<Seq<char>>
    decreases s.len(),
{
    if s.len() == 0 {
        Seq::empty()
    } else {
        match split_once(s, '\n') {
            Some((line, rest)) => if rest.len() < s.len() {
                seq![without_cr(line)] + text_lines(rest)
            } else {
                Seq::empty()
            },
            None => seq![s],
        }
    }
}

/// The characters of each string in a list.
pub open spec fn texts(list: Seq<String>) -> Seq<Seq<char>> {
    list.map_values(|s: String| s@)
}

proof fn lemma_find_char(s: Seq<char>, c: char, i: int)
    requires
        0 <= i <= s.len(),
        forall|j: int| 0 <= j < i ==> s[j] != c,
        i < s.len() ==> s[i] == c,
    ensures
        find_char(s, c) == i,
    decreases i,
{
    if i > 0 {
        lemma_find_char(s.drop_first(), c, i - 1);
    }
}

/// The position of the first `c` at or after `from`, or the length.
pub fn find_from(chars: &[char], from: usize, c: char) -> (at: usize)
    requires
        from <= chars.len(),
    ensures
        from <= at <= chars.len(),
        at - from == find_char(chars@.skip(from as int), c),
        at < chars.len() ==> chars@[at as int] == c,
{
    let mut i: usize = from;
    while i < chars.len() && chars[i] != c
        invariant
            from <= i <= chars.len(),
            forall|j: int| from <= j < i ==> chars@[j] != c,
        decreases chars.len() - i,
    {
        i += 1;
    }
    proof {
        let rest = chars@.skip(from as int);
        assert forall|j: int| 0 <= j < i - from implies rest[j] != c by {
            assert(rest[j] == chars@[from + j]);
        }
        lemma_find_char(rest, c, i - from);
    }
    i
}

/// The lines of a text.
pub fn lines_of(s: &str) -> (lines: Vec<String>)
    ensures
        texts(lines@) == text_lines(s@),
{
    let chars = chars_of(s);
    let mut lines: Vec<String> = Vec::new();
    let mut start: usize = 0;
    assert(chars@.skip(0) =~= s@);
    assert(texts(lines@) =~= Seq::empty());
    while start < chars.len()
        invariant
            start <= chars.len(),
            chars@ == s@,
            texts(lines@) + text_lines(chars@.skip(start as int)) == text_lines(s@),
        decreases chars.len() - start,
    {
        let ghost rest = chars@.skip(start as int);
        let ghost done = texts(lines@);
        let end: usize = find_from(chars.as_slice(), start, '\n');
        if end < chars.len() {
            let stop: usize = if end > start && chars[end - 1] == '\r' {
                end - 1
            } else {
                end
            };
            let line = string_of(slice_subrange(chars.as_slice(), start, stop));
            proof {
                assert(rest.take(end - start) =~= chars@.subrange(start as int, end as int));
                assert(line@ =~= without_cr(rest.take(end - start)));
                assert(rest.skip(end - start + 1) =~= chars@.skip(end + 1));
            }
            let ghost before = lines@;
            lines.push(line);
            assert(texts(lines@) =~= done.push(line@));
            assert(done.push(line@) + text_lines(chars@.skip(end + 1)) =~= done + (seq![line@]
                + text_lines(chars@.skip(end + 1))));
            start = end + 1;
        } else {
            let line = string_of(slice_subrange(chars.as_slice(), start, end));
            assert(line@ =~= rest);
            lines.push(line);
            assert(texts(lines@) =~= done.push(line@));
            assert(done.push(rest) + Seq::<Seq<char>>::empty() =~= done + seq![rest]);
            assert(chars@.skip(end as int) =~= Seq::empty());
            start = end;
        }
    }
    assert(chars@.skip(start as int) =~= Seq::empty());
    assert(texts(lines@) + Seq::<Seq<char>>::empty() =~= texts(lines@));
    lines
}

// ---------------------------------------------------------------------------
// Filtering
// ---------------------------------------------------------------------------

/// `s` without its colons.
pub open spec fn without_colons(s: Seq<char>) -> Seq<char>
    decreases s.len(),
{
    if s.len() == 0 {
        Seq::empty()
    } else if s.last() == ':' {
        without_colons(s.drop_last())
    } else {
        without_colons(s.drop_last()).push(s.last())
    }
}

/// `chars` without colons.
pub fn strip_colons(chars: &[char]) -> (kept: Vec<char>)
    ensures
        kept@ == without_colons(chars@),
{
    let mut kept: Vec<char> = Vec::new();
    let mut i: usize = 0;
    while i < chars.len()
        invariant
            i <= chars.len(),
            kept@ == without_colons(chars@.take(i as int)),
        decreases chars.len() - i,
    {
        proof {
            assert(chars@.take(i + 1).drop_last() =~= chars@.take(i as int));
        }
        if chars[i] != ':' {
            kept.push(chars[i]);
        }
        i += 1;
    }
    assert(chars@.take(chars@.len() as int) =~= chars@);
    kept
}

/// `chars` with every ASCII letter in lower case.
pub fn to_lower_chars(chars: &[char]) -> (lower: Vec<char>)
    ensures
        lower@ == ascii_lower_text(chars@),
{
    let mut lower: Vec<char> = Vec::new();
    let mut i: usize = 0;
    while i < chars.len()
        invariant
            i <= chars.len(),
            lower@.len() == i,
            forall|j: int| 0 <= j < i ==> lower@[j] == ascii_lower(chars@[j]),
        decreases chars.len() - i,
    {
        lower.push(to_ascii_lower(chars[i]));
        i += 1;
    }
    assert(lower@ =~= ascii_lower_text(chars@));
    lower
}

/// Whether `s` starts with `prefix`.
pub open spec fn starts_with(s: Seq<char>, prefix: Seq<char>) -> bool {
    prefix.len() <= s.len() && s.take(prefix.len() as int) == prefix
}

/// Whether `s` ends with `suffix`.
pub open spec fn ends_with(s: Seq<char>, suffix: Seq<char>) -> bool {
    suffix.len() <= s.len() && s.skip(s.len() - suffix.len()) == suffix
}

/// Whether the characters of `a` from `at` on start with those of `b`.
pub fn has_at(a: &[char], at: usize, b: &[char]) -> (r: bool)
    requires
        at <= a.len(),
    ensures
        r == starts_with(a@.skip(at as int), b@),
{
    if a.len() - at < b.len() {
        return false;
    }
    let mut i: usize = 0;
    while i < b.len()
        invariant
            at <= a.len(),
            b.len() <= a.len() - at,
            i <= b.len(),
            forall|j: int| 0 <= j < i ==> a@[at + j] == b@[j],
        decreases b.len() - i,
    {
        if a[at + i] != b[i] {
            assert(a@.skip(at as int).take(b@.len() as int)[i as int] != b@[i as int]);
            return false;
        }
        i += 1;
    }
    assert(a@.skip(at as int).take(b@.len() as int) =~= b@);
    true
}

// ---------------------------------------------------------------------------
// Laws
// ---------------------------------------------------------------------------

/// White space is the tab, the line feed, the vertical tab, the form feed, the
/// carriage return, the blank, and Unicode's other spaces and line ends.
pub proof fn law_white_space(c: char, space: bool)
    requires
        call_ensures(is_white_space, (c,), space),
    ensures
        c == '\t' || c == '\n' || c == '\r' || c == ' ' || c == '\u{b}' || c == '\u{c}' ==> space,
        c == '\u{85}' || c == '\u{a0}' || c == '\u{1680}' || c == '\u{2028}' || c == '\u{2029}'
            || c == '\u{202f}' || c == '\u{205f}' || c == '\u{3000}' ==> space,
        0x2000 <= c as int <= 0x200a ==> space,
        0x21 <= c as int <= 0x84 || c as int > 0x3000 ==> !space,
        0xa1 <= c as int <= 0x167f || 0x1681 <= c as int <= 0x1fff ==> !space,
        c as int <= 0x08 || 0x0e <= c as int <= 0x1f || 0x86 <= c as int <= 0x9f ==> !space,
        0x200b <= c as int <= 0x2027 || 0x202a <= c as int <= 0x202e ==> !space,
        0x2030 <= c as int <= 0x205e || 0x2060 <= c as int <= 0x2fff ==> !space,
{
}

proof fn lemma_trim_front(s: Seq<char>)
    ensures
        exists|front: Seq<char>|
            #![trigger front + trim_front(s)]
            s == front + trim_front(s) && forall|i: int|
                0 <= i < front.len() ==> white_space(#[trigger] front[i]),
        trim_front(s).len() > 0 ==> !white_space(trim_front(s)[0]),
    decreases s.len(),
{
    if s.len() > 0 && white_space(s[0]) {
        let rest = s.drop_first();
        lemma_trim_front(rest);
        let front = choose|front: Seq<char>|
            #![trigger front + trim_front(rest)]
            rest == front + trim_front(rest) && forall|i: int|
                0 <= i < front.len() ==> white_space(#[trigger] front[i]);
        let longer = seq![s[0]] + front;
        assert(trim_front(s) == trim_front(rest));
        assert(s =~= seq![s[0]] + rest);
        assert(s =~= longer + trim_front(s));
        assert forall|i: int| 0 <= i < longer.len() implies white_space(#[trigger] longer[i]) by {
            if i > 0 {
                assert(longer[i] == front[i - 1]);
            }
        }
    } else {
        assert(s =~= Seq::<char>::empty() + trim_front(s));
    }
}

proof fn lemma_trim_back(s: Seq<char>)
    ensures
        exists|back: Seq<char>|
            #![trigger trim_back(s) + back]
            s == trim_back(s) + back && forall|i: int|
                0 <= i < back.len() ==> white_space(#[trigger] back[i]),
        trim_back(s).len() > 0 ==> !white_space(trim_back(s).last()) && trim_back(s)[0] == s[0],
    decreases s.len(),
{
    if s.len() > 0 && white_space(s.last()) {
        let rest = s.drop_last();
        lemma_trim_back(rest);
        let back = choose|back: Seq<char>|
            #![trigger trim_back(rest) + back]
            rest == trim_back(rest) + back && forall|i: int|
                0 <= i < back.len() ==> white_space(#[trigger] back[i]);
        let longer = back.push(s.last());
        assert(trim_back(s) == trim_back(rest));
        assert(s =~= rest.push(s.last()));
        assert(s =~= trim_back(s) + longer);
    } else {
        assert(s =~= trim_back(s) + Seq::<char>::empty());
    }
}

/// What trimming leaves of a text is the text but for white space in front of it
/// and behind it, and neither starts nor ends with white space.
pub proof fn law_trim(s: &str, r: String)
    requires
        call_ensures(trimmed, (s,), r),
    ensures
        exists|front: Seq<char>, back: Seq<char>|
            #![trigger front + r@ + back]
            s@ == front + r@ + back && (forall|i: int|
                0 <= i < front.len() ==> white_space(#[trigger] front[i])) && (forall|i: int|
                0 <= i < back.len() ==> white_space(#[trigger] back[i])),
        r@.len() > 0 ==> !white_space(r@[0]) && !white_space(r@.last()),
{
    lemma_trim_text(s@);
}

/// Trimming takes white space off both ends and nothing else.
pub proof fn lemma_trim_text(s: Seq<char>)
    ensures
        exists|front: Seq<char>, back: Seq<char>|
            #![trigger front + trim_text(s) + back]
            s == front + trim_text(s) + back && (forall|i: int|
                0 <= i < front.len() ==> white_space(#[trigger] front[i])) && (forall|i: int|
                0 <= i < back.len() ==> white_space(#[trigger] back[i])),
        trim_text(s).len() > 0 ==> !white_space(trim_text(s)[0]) && !white_space(
            trim_text(s).last(),
        ),
{
    let t = trim_front(s);
    lemma_trim_front(s);
    lemma_trim_back(t);
    let front = choose|front: Seq<char>|
        #![trigger front + trim_front(s)]
        s == front + trim_front(s) && forall|i: int|
            0 <= i < front.len() ==> white_space(#[trigger] front[i]);
    let back = choose|back: Seq<char>|
        #![trigger trim_back(t) + back]
        t == trim_back(t) + back && forall|i: int|
            0 <= i < back.len() ==> white_space(#[trigger] back[i]);
    assert(s =~= front + trim_text(s) + back);
}

/// A trimmed text is given exactly where something is left of it.
pub proof fn law_trimmed_non_empty(s: &str, plain: String, r: Option<String>)
    requires
        call_ensures(trimmed, (s,), plain),
        call_ensures(trimmed_non_empty, (s,), r),
    ensures
        r is Some <==> plain@.len() > 0,
        r matches Some(t) ==> t@ == plain@,
{
}

/// Comparing without regard to case takes a letter for itself in either case, and
/// every other character for itself only.
pub proof fn law_ignoring_case(a: &str, b: &str, same: bool)
    requires
        call_ensures(same_text_ignoring_case, (a, b), same),
    ensures
        same <==> a@.len() == b@.len() && forall|i: int|
            0 <= i < a@.len() ==> {
                ||| #[trigger] a@[i] == b@[i]
                ||| 'A' <= a@[i] <= 'Z' && b@[i] as int == a@[i] as int + 32
                ||| 'A' <= b@[i] <= 'Z' && a@[i] as int == b@[i] as int + 32
            },
{
    let x = ascii_lower_text(a@);
    let y = ascii_lower_text(b@);
    if same {
        assert(x.len() == a@.len() && y.len() == b@.len());
        assert forall|i: int| 0 <= i < a@.len() implies {
            ||| #[trigger] a@[i] == b@[i]
            ||| 'A' <= a@[i] <= 'Z' && b@[i] as int == a@[i] as int + 32
            ||| 'A' <= b@[i] <= 'Z' && a@[i] as int == b@[i] as int + 32
        } by {
            assert(x[i] == y[i]);
            assert(x[i] == ascii_lower(a@[i]) && y[i] == ascii_lower(b@[i]));
            assert(ascii_lower(a@[i]) as int == ascii_lower(b@[i]) as int);
        }
    } else if a@.len() == b@.len() && forall|i: int|
        0 <= i < a@.len() ==> {
            ||| #[trigger] a@[i] == b@[i]
            ||| 'A' <= a@[i] <= 'Z' && b@[i] as int == a@[i] as int + 32
            ||| 'A' <= b@[i] <= 'Z' && a@[i] as int == b@[i] as int + 32
        } {
        assert forall|i: int| 0 <= i < x.len() implies x[i] == y[i] by {
            assert(a@[i] == a@[i]);
        }
        assert(x =~= y);
    }
}

/// A line feed ends a line, with the carriage return in front of it; what comes
/// after it is the lines of the rest. A text without one is a line of its own,
/// and nothing has no line.
pub proof fn law_lines(line: Seq<char>, rest: Seq<char>)
    requires
        !line.contains('\n'),
    ensures
        line.len() == 0 || line.last() != '\r' ==> text_lines(line.push('\n') + rest) == seq![line]
            + text_lines(rest),
        text_lines(line.push('\r').push('\n') + rest) == seq![line] + text_lines(rest),
        line.len() > 0 ==> text_lines(line) == seq![line],
        text_lines(Seq::empty()) == Seq::<Seq<char>>::empty(),
{
    lemma_one_line(line, rest);
    let with_cr = line.push('\r');
    assert(!with_cr.contains('\n')) by {
        assert forall|i: int| 0 <= i < with_cr.len() implies with_cr[i] != '\n' by {
            if i < line.len() {
                assert(line.contains(line[i]));
            }
        }
    }
    lemma_one_line(with_cr, rest);
    assert(with_cr.drop_last() =~= line);
    lemma_find_char(line, '\n', line.len() as int);
}

proof fn lemma_one_line(line: Seq<char>, rest: Seq<char>)
    requires
        !line.contains('\n'),
    ensures
        text_lines(line.push('\n') + rest) == seq![without_cr(line)] + text_lines(rest),
    decreases line.len(),
{
    let s = line.push('\n') + rest;
    let n = line.len() as int;
    assert forall|j: int| 0 <= j < n implies s[j] != '\n' by {
        assert(line.contains(line[j]));
    }
    lemma_find_char(s, '\n', n);
    assert(s.take(n) =~= line);
    assert(s.skip(n + 1) =~= rest);
}

/// The lines of a text are those of its characters, in their order.
pub proof fn law_lines_of(s: &str, lines: Vec<String>, i: int)
    requires
        call_ensures(lines_of, (s,), lines),
        0 <= i < lines@.len(),
    ensures
        lines@.len() == text_lines(s@).len(),
        lines@[i]@ == text_lines(s@)[i],
{
    assert(texts(lines@)[i] == lines@[i]@);
}

/// Colons, and colons only, are taken out of a text; the order of what stays is
/// kept.
pub proof fn law_without_colons(a: Seq<char>, c: char, b: Seq<char>)
    ensures
        without_colons(a + b) == without_colons(a) + without_colons(b),
        c != ':' ==> without_colons(seq![c]) == seq![c],
        without_colons(seq![':']) == Seq::<char>::empty(),
        without_colons(Seq::empty()) == Seq::<char>::empty(),
    decreases b.len(),
{
    if b.len() > 0 {
        law_without_colons(a, c, b.drop_last());
        assert((a + b).drop_last() =~= a + b.drop_last());
        assert(without_colons(a + b) =~= without_colons(a) + without_colons(b));
    } else {
        assert(a + b =~= a);
        assert(without_colons(a) + without_colons(b) =~= without_colons(a));
    }
    assert(seq![c].drop_last() =~= Seq::empty());
    assert(seq![':'].drop_last() =~= Seq::empty());
    assert(without_colons(Seq::<char>::empty()) =~= Seq::empty());
    if c != ':' {
        assert(without_colons(seq![c]) =~= seq![c]);
    }
}

/// Upper-case letters of ASCII become lower case; every other character stays.
pub proof fn law_lower_case(chars: &[char], lower: Vec<char>, i: int)
    requires
        call_ensures(to_lower_chars, (chars,), lower),
        0 <= i < chars@.len(),
    ensures
        lower@.len() == chars@.len(),
        'A' <= chars@[i] <= 'Z' ==> lower@[i] as int == chars@[i] as int + 32,
        !('A' <= chars@[i] <= 'Z') ==> lower@[i] == chars@[i],
{
}

/// The text up to the first occurrence of a character, and what follows it.
pub proof fn law_split_once(head: Seq<char>, c: char, tail: Seq<char>)
    requires
        !head.contains(c),
    ensures
        split_once(head.push(c) + tail, c) == Some((head, tail)),
        split_once(head, c) is None,
{
    let s = head.push(c) + tail;
    let n = head.len() as int;
    assert forall|j: int| 0 <= j < n implies s[j] != c by {
        assert(head.contains(head[j]));
    }
    lemma_find_char(s, c, n);
    assert(s.take(n) =~= head);
    assert(s.skip(n + 1) =~= tail);
    assert forall|j: int| 0 <= j < n implies head[j] != c by {
        assert(head.contains(head[j]));
    }
    lemma_find_char(head, c, n);
}

/// A text starts with whatever comes first in it, ends with whatever comes last,
/// and with nothing else of that length.
pub proof fn law_ends_of_texts(a: Seq<char>, b: Seq<char>, other: Seq<char>)
    ensures
        starts_with(a + b, a),
        ends_with(a + b, b),
        other.len() == a.len() && starts_with(a + b, other) ==> other == a,
        other.len() == b.len() && ends_with(a + b, other) ==> other == b,
        other.len() > a.len() + b.len() ==> !starts_with(a + b, other) && !ends_with(a + b, other),
{
    assert((a + b).take(a.len() as int) =~= a);
    assert((a + b).skip((a + b).len() - b.len()) =~= b);
}

/// White space in front of a text and behind it does not count.
pub proof fn law_trim_drops_white_space(front: Seq<char>, text: Seq<char>, back: Seq<char>)
    requires
        forall|i: int| 0 <= i < front.len() ==> white_space(#[trigger] front[i]),
        forall|i: int| 0 <= i < back.len() ==> white_space(#[trigger] back[i]),
        text.len() > 0 ==> !white_space(text[0]) && !white_space(text.last()),
    ensures
        trim_text(front + text + back) == text,
{
    lemma_drop_front(front, text + back);
    assert(front + text + back =~= front + (text + back));
    if text.len() > 0 {
        assert((text + back)[0] == text[0]);
        assert(trim_front(text + back) == text + back);
        lemma_drop_back(text, back);
    } else {
        lemma_drop_front(back, Seq::empty());
        assert(text + back =~= back + Seq::<char>::empty());
    }
}

proof fn lemma_drop_front(front: Seq<char>, rest: Seq<char>)
    requires
        forall|i: int| 0 <= i < front.len() ==> white_space(#[trigger] front[i]),
    ensures
        trim_front(front + rest) == trim_front(rest),
    decreases front.len(),
{
    if front.len() > 0 {
        assert(white_space(front[0]));
        assert((front + rest).drop_first() =~= front.drop_first() + rest);
        lemma_drop_front(front.drop_first(), rest);
    } else {
        assert(front + rest =~= rest);
    }
}

proof fn lemma_drop_back(text: Seq<char>, back: Seq<char>)
    requires
        forall|i: int| 0 <= i < back.len() ==> white_space(#[trigger] back[i]),
        text.len() > 0,
        !white_space(text.last()),
    ensures
        trim_back(text + back) == text,
    decreases back.len(),
{
    if back.len() > 0 {
        assert(white_space(back[back.len() - 1]));
        assert((text + back).drop_last() =~= text + back.drop_last());
        lemma_drop_back(text, back.drop_last());
    } else {
        assert(text + back =~= text);
    }
}

/// A line more at the end of a text is a line more at the end of its lines.
pub proof fn law_one_more_line(text: Seq<char>, line: Seq<char>)
    requires
        text.len() > 0 ==> text.last() == '\n',
        !line.contains('\n'),
        line.len() > 0 ==> line.last() != '\r',
    ensures
        text_lines(text + line.push('\n')) == text_lines(text).push(line),
    decreases text.len(),
{
    let more = line.push('\n');
    if text.len() == 0 {
        law_lines(line, Seq::empty());
        assert(line.push('\n') + Seq::<char>::empty() =~= more);
        assert(text + more =~= more);
        assert(seq![line] + Seq::<Seq<char>>::empty() =~= text_lines(text).push(line));
    } else {
        lemma_has_line(text, '\n');
        let n = find_char(text, '\n');
        let first = text.take(n);
        let rest = text.skip(n + 1);
        lemma_before_char(text, '\n');
        assert(!first.contains('\n'));
        assert(text =~= first.push('\n') + rest);
        assert(text + more =~= first.push('\n') + (rest + more));
        lemma_one_line(first, rest);
        lemma_one_line(first, rest + more);
        if rest.len() > 0 {
            assert(rest.last() == text.last());
        }
        law_one_more_line(rest, line);
        assert(seq![without_cr(first)] + text_lines(rest).push(line) =~= (seq![without_cr(first)]
            + text_lines(rest)).push(line));
    }
}

proof fn lemma_has_line(s: Seq<char>, c: char)
    requires
        s.len() > 0,
        s.last() == c,
    ensures
        0 <= find_char(s, c) < s.len(),
        s[find_char(s, c)] == c,
    decreases s.len(),
{
    if s[0] != c {
        lemma_has_line(s.drop_first(), c);
    }
}

proof fn lemma_before_char(s: Seq<char>, c: char)
    ensures
        0 <= find_char(s, c) <= s.len(),
        !s.take(find_char(s, c)).contains(c),
    decreases s.len(),
{
    if s.len() > 0 && s[0] != c {
        lemma_before_char(s.drop_first(), c);
        let n = find_char(s.drop_first(), c);
        let head = s.take(n + 1);
        assert(head.drop_first() =~= s.drop_first().take(n));
        assert forall|i: int| 0 <= i < head.len() implies head[i] != c by {
            if i > 0 {
                assert(s.drop_first().take(n)[i - 1] == head[i]);
                assert(s.drop_first().take(n).contains(head[i]));
            }
        }
    }
}

/// Bytes and texts are the same where they hold the same, copies and joined texts
/// hold what they were made of, and only valid UTF-8 is text.
pub proof fn law_plain_texts(
    a: &[u8],
    b: &[u8],
    same: bool,
    s: &str,
    t: &str,
    alike: bool,
    chars: Vec<char>,
    both: String,
    text: Option<&str>,
)
    requires
        call_ensures(same_bytes, (a, b), same),
        call_ensures(same_text, (s, t), alike),
        call_ensures(chars_of, (s,), chars),
        call_ensures(joined, (s, t), both),
        call_ensures(utf8_text, (a,), text),
    ensures
        same <==> a@ == b@,
        alike <==> s@ == t@,
        chars@ == s@,
        both@ == s@ + t@,
        text is Some <==> valid_utf8(a@),
        text matches Some(u) ==> encode_utf8(u@) == a@,
{
}

/// A character is looked for from a place on: the first one there, or the end.
pub proof fn law_find_from(chars: &[char], from: usize, c: char, at: usize, i: int)
    requires
        from <= chars@.len(),
        call_ensures(find_from, (chars, from, c), at),
    ensures
        from <= at <= chars@.len(),
        at < chars@.len() ==> chars@[at as int] == c,
        from <= i < at ==> chars@[i] != c,
{
    let rest = chars@.skip(from as int);
    lemma_before_char(rest, c);
    if from <= i < at {
        let head = rest.take(find_char(rest, c));
        assert(head[i - from] == chars@[i]);
        assert(head.contains(head[i - from]));
    }
}

/// A text is at a place where all its characters are.
pub proof fn law_has_at(a: &[char], at: usize, b: &[char], r: bool)
    requires
        at <= a@.len(),
        call_ensures(has_at, (a, at, b), r),
    ensures
        r <==> at + b@.len() <= a@.len() && a@.subrange(at as int, at + b@.len()) == b@,
{
    let rest = a@.skip(at as int);
    if b@.len() <= rest.len() {
        assert(rest.take(b@.len() as int) =~= a@.subrange(at as int, at + b@.len()));
    }
}

/// What the functions on characters give: copies, trimmed, lower-case and without
/// colons.
pub proof fn law_characters(
    chars: &[char],
    copy: String,
    cut: &[char],
    bare: Vec<char>,
    c: char,
    lower: char,
)
    requires
        call_ensures(string_of, (chars,), copy),
        call_ensures(trim, (chars,), cut),
        call_ensures(strip_colons, (chars,), bare),
        call_ensures(to_ascii_lower, (c,), lower),
    ensures
        copy@ == chars@,
        cut@ == trim_text(chars@),
        bare@ == without_colons(chars@),
        'A' <= c <= 'Z' ==> lower as int == c as int + 32,
        !('A' <= c <= 'Z') ==> lower == c,
{
}

} // verus!
