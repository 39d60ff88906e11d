//! Character-level helpers shared by the rest of the library: ASCII classes,
//! case mapping, decimal and hexadecimal rendering, and substring search.
use vstd::prelude::*;

verus! {

/// Appending a string slice to a `String` appends its characters.
pub assume_specification[ String::push_str ](s: &mut String, string: &str)
    ensures
        final(s)@ == old(s)@ + string@,
;

/// Appending a character to a `String` appends it at the end.
pub assume_specification[ String::push ](s: &mut String, ch: char)
    ensures
        final(s)@ == old(s)@.push(ch),
;

/// The characters of `s`, in order.
pub fn chars_of(s: &str) -> (v: Vec<char>)
    ensures
        v@ == s@,
{
    let mut v: Vec<char> = Vec::new();
    for c in it: s.chars()
        invariant
            v@ == it.seq().take(it.index()),
            it.seq() == s@,
    {
        v.push(c);
    }
    v
}

// ----------------------------------------------------------------------------
// ASCII classes and case mapping
// ----------------------------------------------------------------------------

pub open spec fn is_digit(c: char) -> bool {
    '0' <= c && c <= '9'
}

pub open spec fn is_upper(c: char) -> bool {
    'A' <= c && c <= 'Z'
}

pub open spec fn is_lower(c: char) -> bool {
    'a' <= c && c <= 'z'
}

pub open spec fn is_alpha(c: char) -> bool {
    is_upper(c) || is_lower(c)
}

pub open spec fn is_alnum(c: char) -> bool {
    is_alpha(c) || is_digit(c)
}

/// ASCII lower-casing of one character: `A`..=`Z` move to `a`..=`z`, all others stay.
pub open spec fn lower(c: char) -> char {
    if is_upper(c) {
        ((c as u32) + 32) as char
    } else {
        c
    }
}

/// ASCII upper-casing of one character: `a`..=`z` move to `A`..=`Z`, all others stay.
pub open spec fn upper(c: char) -> char {
    if is_lower(c) {
        ((c as u32) - 32) as char
    } else {
        c
    }
}

/// ASCII lower-casing of a whole sequence.
pub open spec fn lower_seq(s: Seq<char>) -> Seq<char> {
    s.map_values(|c: char| lower(c))
}

pub fn char_is_digit(c: char) -> (b: bool)
    ensures
        b == is_digit(c),
{
    '0' <= c && c <= '9'
}

pub fn char_is_alpha(c: char) -> (b: bool)
    ensures
        b == is_alpha(c),
{
    ('A' <= c && c <= 'Z') || ('a' <= c && c <= 'z')
}

pub fn char_is_alnum(c: char) -> (b: bool)
    ensures
        b == is_alnum(c),
{
    char_is_alpha(c) || char_is_digit(c)
}

pub fn to_lower(c: char) -> (r: char)
    ensures
        r == lower(c),
{
    if 'A' <= c && c <= 'Z' {
        let code: u8 = c as u8;
        ((code + 32) as char)
    } else {
        c
    }
}

pub fn to_upper(c: char) -> (r: char)
    ensures
        r == upper(c),
{
    if 'a' <= c && c <= 'z' {
        let code: u8 = c as u8;
        ((code - 32) as char)
    } else {
        c
    }
}

/// The ASCII lower-cased characters of `s`.
pub fn lowercase_chars(s: &str) -> (v: Vec<char>)
    ensures
        v@ == lower_seq(s@),
{
    let src = chars_of(s);
    let mut v: Vec<char> = Vec::new();
    let mut i: usize = 0;
    while i < src.len()
        invariant
            i <= src@.len(),
            src@ == s@,
            v@ == lower_seq(src@.take(i as int)),
        decreases src@.len() - i,
    {
        v.push(to_lower(src[i]));
        i = i + 1;
        assert(lower_seq(src@.take(i as int)) =~= lower_seq(src@.take(i - 1)).push(lower(src@[i - 1])));
    }
    assert(src@.take(src@.len() as int) =~= src@);
    v
}

/// Whether the characters of `v` spell out `lit` exactly.
pub fn spells(v: &Vec<char>, lit: &str) -> (b: bool)
    ensures
        b == (v@ == lit@),
{
    let w = chars_of(lit);
    if v.len() != w.len() {
        return false;
    }
    let mut i: usize = 0;
    while i < v.len()
        invariant
            v@.len() == w@.len(),
            w@ == lit@,
            i <= v@.len(),
            forall|j: int| 0 <= j < i ==> v@[j] == w@[j],
        decreases v@.len() - i,
    {
        if v[i] != w[i] {
            return false;
        }
        i = i + 1;
    }
    assert(v@ =~= w@);
    true
}

// ----------------------------------------------------------------------------
// Decimal and hexadecimal text
// ----------------------------------------------------------------------------

/// The character of a decimal digit `d` (0..=9).
pub open spec fn digit(d: int) -> char {
    (48 + d) as char
}

/// The shortest decimal spelling of a natural number.
pub open spec fn decimal(n: nat) -> Seq<char>
    decreases n,
{
    if n < 10 {
        seq![digit(n as int)]
    } else {
        decimal(n / 10).push(digit((n % 10) as int))
    }
}

/// The decimal spelling of an integer, with a leading `-` when it is negative.
pub open spec fn signed_decimal(n: int) -> Seq<char> {
    if n < 0 {
        seq!['-'] + decimal((-n) as nat)
    } else {
        decimal(n as nat)
    }
}

/// A number given in tenths, written with at most one decimal: whole numbers
/// without a fraction (`30` is `3`), the others with one decimal (`-15` is `-1.5`).
pub open spec fn tenths_text(t: int) -> Seq<char> {
    if t % 10 == 0 {
        signed_decimal(t / 10)
    } else {
        let a: nat = if t < 0 { (-t) as nat } else { t as nat };
        (if t < 0 { seq!['-'] } else { Seq::<char>::empty() }) + decimal(a / 10) + seq!['.', digit((a % 10) as int)]
    }
}

/// The lower-case hexadecimal digit of `d` (0..=15).
pub open spec fn hex_digit(d: int) -> char {
    if d < 10 {
        (48 + d) as char
    } else {
        (87 + d) as char
    }
}

/// Two lower-case hexadecimal digits of a byte.
pub open spec fn hex_byte(b: u8) -> Seq<char> {
    seq![hex_digit((b / 16) as int), hex_digit((b % 16) as int)]
}

/// Lower-case hexadecimal text of a byte sequence, two digits per byte.
pub open spec fn hex_text(bytes: Seq<u8>) -> Seq<char>
    decreases bytes.len(),
{
    if bytes.len() == 0 {
        Seq::empty()
    } else {
        hex_text(bytes.drop_last()) + hex_byte(bytes.last())
    }
}

fn digit_char(d: u64) -> (c: char)
    requires
        d < 10,
    ensures
        c == digit(d as int),
{
    let b: u8 = d as u8;
    (48u8 + b) as char
}

/// Appends the decimal spelling of `n`.
pub fn write_decimal(out: &mut String, n: u64)
    ensures
        final(out)@ == old(out)@ + decimal(n as nat),
    decreases n,
{
    if n >= 10 {
        write_decimal(out, n / 10);
    }
    out.push(digit_char(n % 10));
}

/// Appends a signed decimal.
pub fn write_signed(out: &mut String, n: i64)
    requires
        n > i64::MIN,
    ensures
        final(out)@ == old(out)@ + signed_decimal(n as int),
{
    if n < 0 {
        out.push('-');
        write_decimal(out, (-n) as u64);
    } else {
        write_decimal(out, n as u64);
    }
}

/// Appends a number given in tenths as at most one decimal (see [`tenths_text`]).
pub fn write_tenths(out: &mut String, t: i32)
    ensures
        final(out)@ == old(out)@ + tenths_text(t as int),
{
    let w: i64 = t as i64;
    if w % 10 == 0 {
        write_signed(out, w / 10);
    } else {
        let a: u64 = if w < 0 { (-w) as u64 } else { w as u64 };
        if w < 0 {
            out.push('-');
        }
        write_decimal(out, a / 10);
        out.push('.');
        out.push(digit_char(a % 10));
    }
}

fn hex_char(d: u8) -> (c: char)
    requires
        d < 16,
    ensures
        c == hex_digit(d as int),
{
    if d < 10 {
        (48u8 + d) as char
    } else {
        (87u8 + d) as char
    }
}

/// Appends two lower-case hexadecimal digits of `b`.
pub fn write_hex_byte(out: &mut String, b: u8)
    ensures
        final(out)@ == old(out)@ + hex_byte(b),
{
    out.push(hex_char(b / 16));
    out.push(hex_char(b % 16));
}

// ----------------------------------------------------------------------------
// Substring search
// ----------------------------------------------------------------------------

/// Whether `needle` occurs in `hay` starting at position `k`.
pub open spec fn matches_at(hay: Seq<char>, needle: Seq<char>, k: int) -> bool {
    0 <= k && k + needle.len() <= hay.len() && hay.subrange(k, k + needle.len()) == needle
}

/// Whether `needle` occurs anywhere in `hay`.
pub open spec fn contains(hay: Seq<char>, needle: Seq<char>) -> bool {
    exists|k: int| #[trigger] matches_at(hay, needle, k)
}

/// The first position at or after `k` where `needle` occurs in `hay`.
pub open spec fn find_from(hay: Seq<char>, needle: Seq<char>, k: int) -> Option<int>
    decreases hay.len() + 1 - k,
{
    if k < 0 || k + needle.len() > hay.len() {
        None
    } else if matches_at(hay, needle, k) {
        Some(k)
    } else {
        find_from(hay, needle, k + 1)
    }
}

/// `find_from` gives the first match at or after `k`, and none when there is none.
pub proof fn lemma_find_from(hay: Seq<char>, needle: Seq<char>, k: int)
    requires
        0 <= k,
    ensures
        match find_from(hay, needle, k) {
            Some(j) => k <= j && matches_at(hay, needle, j) && forall|i: int|
                k <= i < j ==> !#[trigger] matches_at(hay, needle, i),
            None => forall|i: int| k <= i ==> !#[trigger] matches_at(hay, needle, i),
        },
    decreases hay.len() + 1 - k,
{
    if k + needle.len() > hay.len() {
    } else if matches_at(hay, needle, k) {
    } else {
        lemma_find_from(hay, needle, k + 1);
    }
}

/// Whether `needle` occurs in `hay` at position `k`.
pub fn occurs_at(hay: &Vec<char>, needle: &Vec<char>, k: usize) -> (b: bool)
    ensures
        b == matches_at(hay@, needle@, k as int),
{
    if k > hay.len() || needle.len() > hay.len() - k {
        return false;
    }
    let hay_len = hay.len();
    let mut i: usize = 0;
    while i < needle.len()
        invariant
            hay_len == hay@.len(),
            k + needle@.len() <= hay@.len(),
            i <= needle@.len(),
            forall|j: int| 0 <= j < i ==> hay@[k + j] == needle@[j],
        decreases needle@.len() - i,
    {
        assert(k + i < hay@.len());
        if hay[k + i] != needle[i] {
            assert(hay@.subrange(k as int, k + needle@.len())[i as int] != needle@[i as int]);
            return false;
        }
        i = i + 1;
    }
    assert(hay@.subrange(k as int, k + needle@.len()) =~= needle@);
    true
}

/// The first position at or after `k` where `needle` occurs in `hay`.
pub fn find_in(hay: &Vec<char>, needle: &Vec<char>, k: usize) -> (r: Option<usize>)
    ensures
        match r {
            Some(j) => find_from(hay@, needle@, k as int) == Some(j as int),
            None => find_from(hay@, needle@, k as int) is None,
        },
{
    proof {
        lemma_find_from(hay@, needle@, k as int);
    }
    if needle.len() == 0 {
        if k <= hay.len() {
            assert(hay@.subrange(k as int, k as int) =~= needle@);
            return Some(k);
        }
        return None;
    }
    let mut i: usize = k;
    while i <= hay.len() && needle.len() <= hay.len() - i
        invariant
            k <= i,
            needle@.len() > 0,
            find_from(hay@, needle@, k as int) == find_from(hay@, needle@, i as int),
        decreases hay@.len() + 1 - i,
    {
        if occurs_at(hay, needle, i) {
            return Some(i);
        }
        i = i + 1;
    }
    None
}

/// Whether `needle` occurs in `hay`.
pub fn contains_chars(hay: &Vec<char>, needle: &str) -> (b: bool)
    ensures
        b == contains(hay@, needle@),
{
    let n = chars_of(needle);
    let r = find_in(hay, &n, 0);
    proof {
        lemma_find_from(hay@, n@, 0);
    }
    r.is_some()
}

/// A `String` holding the first `n` characters of `v`.
pub fn string_of_prefix(v: &Vec<char>, n: usize) -> (s: String)
    requires
        n <= v@.len(),
    ensures
        s@ == v@.take(n as int),
{
    let mut s = String::new();
    let mut i: usize = 0;
    while i < n
        invariant
            i <= n <= v@.len(),
            s@ == v@.take(i as int),
        decreases n - i,
    {
        s.push(v[i]);
        i = i + 1;
        assert(s@ =~= v@.take(i as int));
    }
    s
}

/// The word `true` or `false`.
pub open spec fn bool_text(b: bool) -> Seq<char> {
    if b {
        "true"@
    } else {
        "false"@
    }
}

pub fn write_bool(out: &mut String, b: bool)
    ensures
        final(out)@ == old(out)@ + bool_text(b),
{
    if b {
        out.push_str("true");
    } else {
        out.push_str("false");
    }
}

} // verus!
