//! Character-level helpers shared by the parsers and formatters.
use vstd::prelude::*;

verus! {

/// The characters of a string slice, in order.
///
/// Trusted: `str::chars` followed by `collect`; std documents that `chars`
/// yields every `char` of the slice in order, and that no allocation (so no
/// `Vec<char>`, whose elements take four bytes each) exceeds `isize::MAX`
/// bytes.
#[verifier::external_body]
pub fn chars_of(s: &str) -> (res: Vec<char>)
    ensures
        res@ == s@,
        res@.len() <= isize::MAX,
{
    s.chars().collect()
}

/// A `String` holding exactly the given characters.
///
/// Trusted: collecting chars into a `String` (std `FromIterator<char>`),
/// which appends each char in order.
#[verifier::external_body]
pub fn string_of(cs: &[char]) -> (res: String)
    ensures
        res@ == cs@,
{
    cs.iter().collect()
}

/// Lower-case hexadecimal digit for a value below 16.
pub open spec fn spec_hex_digit(d: int) -> char {
    if d < 10 {
        (d + 48) as char
    } else {
        (d + 87) as char
    }
}

pub fn hex_digit(d: u8) -> (c: char)
    requires
        d < 16,
    ensures
        c == spec_hex_digit(d as int),
{
    if d < 10 {
        (d + 48) as char
    } else {
        (d + 87) as char
    }
}

} // verus!

verus! {

/// Decimal digit character for a value below 10.
pub open spec fn spec_digit(d: int) -> char {
    (d + 48) as char
}

/// Decimal representation of a natural number, without leading zeros.
pub open spec fn spec_decimal(n: nat) -> Seq<char>
    decreases n,
{
    if n < 10 {
        seq![spec_digit(n as int)]
    } else {
        spec_decimal(n / 10).push(spec_digit((n % 10) as int))
    }
}

/// The decimal representation of `n`.
pub fn decimal(n: u64) -> (res: Vec<char>)
    ensures
        res@ == spec_decimal(n as nat),
    decreases n,
{
    if n < 10 {
        let d = n as u8;
        let mut v = Vec::new();
        v.push((d + 48) as char);
        v
    } else {
        let mut v = decimal(n / 10);
        let d = (n % 10) as u8;
        v.push((d + 48) as char);
        v
    }
}

/// Appends all of `extra` to `out`.
pub fn push_all(out: &mut Vec<char>, extra: &Vec<char>)
    ensures
        final(out)@ == old(out)@ + extra@,
{
    let mut i: usize = 0;
    while i < extra.len()
        invariant
            0 <= i <= extra@.len(),
            out@ == old(out)@ + extra@.subrange(0, i as int),
        decreases extra@.len() - i,
    {
        out.push(extra[i]);
        i = i + 1;
        assert(extra@.subrange(0, i as int) == extra@.subrange(0, i - 1).push(extra@[i - 1]));
    }
    assert(extra@.subrange(0, extra@.len() as int) == extra@);
}

} // verus!

verus! {

/// Unicode `White_Space`: the characters for which `char::is_whitespace` holds.
pub open spec fn is_ws(c: char) -> bool {
    let v = c as int;
    (0x09 <= v && v <= 0x0D) || v == 0x20 || v == 0x85 || v == 0xA0 || v == 0x1680
        || (0x2000 <= v && v <= 0x200A) || v == 0x2028 || v == 0x2029 || v == 0x202F
        || v == 0x205F || v == 0x3000
}

pub fn is_whitespace(c: char) -> (res: bool)
    ensures
        res == is_ws(c),
{
    let v = c as u32;
    (0x09 <= v && v <= 0x0D) || v == 0x20 || v == 0x85 || v == 0xA0 || v == 0x1680
        || (0x2000 <= v && v <= 0x200A) || v == 0x2028 || v == 0x2029 || v == 0x202F
        || v == 0x205F || v == 0x3000
}

/// What `char::is_alphanumeric` answers for `c` (Unicode `Alphabetic` or `Numeric`).
pub uninterp spec fn unicode_alphanumeric(c: char) -> bool;

/// An ASCII letter or digit.
pub open spec fn ascii_alphanumeric(c: char) -> bool {
    ('a' <= c && c <= 'z') || ('A' <= c && c <= 'Z') || ('0' <= c && c <= '9')
}

/// Trusted: `char::is_alphanumeric`, named over the character. Its
/// documentation defines it as Unicode `Alphabetic` or `Numeric`; among
/// ASCII characters those are exactly the letters and digits, which is
/// also claimed.
#[verifier::external_body]
pub fn is_alphanumeric(c: char) -> (res: bool)
    ensures
        res == unicode_alphanumeric(c),
        (c as u32) < 128 ==> (res == ascii_alphanumeric(c)),
{
    c.is_alphanumeric()
}

} // verus!

verus! {

/// The characters `s[i..j]` as a `String`.
pub fn substring(s: &Vec<char>, i: usize, j: usize) -> (res: String)
    requires
        i <= j <= s@.len(),
    ensures
        res@ == s@.subrange(i as int, j as int),
{
    let mut out: Vec<char> = Vec::new();
    let mut k = i;
    while k < j
        invariant
            i <= k <= j <= s@.len(),
            out@ == s@.subrange(i as int, k as int),
        decreases j - k,
    {
        out.push(s[k]);
        k = k + 1;
        assert(out@ == s@.subrange(i as int, k as int));
    }
    string_of(out.as_slice())
}

} // verus!

verus! {

/// `a` followed by `b`.
pub fn cat(a: &str, b: &str) -> (res: String)
    ensures
        res@ == a@ + b@,
{
    let mut v = chars_of(a);
    let w = chars_of(b);
    push_all(&mut v, &w);
    string_of(v.as_slice())
}

/// Whether two texts hold the same characters.
pub fn str_eq(a: &str, b: &str) -> (res: bool)
    ensures
        res == (a@ == b@),
{
    let x = chars_of(a);
    let y = chars_of(b);
    if x.len() != y.len() {
        return false;
    }
    let mut i: usize = 0;
    while i < x.len()
        invariant
            x@ == a@,
            y@ == b@,
            x@.len() == y@.len(),
            0 <= i <= x@.len(),
            forall|j: int| 0 <= j < i ==> x@[j] == y@[j],
        decreases x@.len() - i,
    {
        if x[i] != y[i] {
            return false;
        }
        i = i + 1;
    }
    assert(x@ =~= y@);
    true
}

/// A copy of a string.
pub fn copy_string(s: &str) -> (res: String)
    ensures
        res@ == s@,
{
    let v = chars_of(s);
    string_of(v.as_slice())
}

} // verus!

verus! {

/// The characters of an optional string.
pub open spec fn opt_text(o: Option<String>) -> Option<Seq<char>> {
    match o {
        Some(s) => Some(s@),
        None => None,
    }
}

/// A copy of an optional string.
pub fn copy_opt(o: &Option<String>) -> (res: Option<String>)
    ensures
        opt_text(res) == opt_text(*o),
{
    match o {
        Some(s) => Some(copy_string(s.as_str())),
        None => None,
    }
}

} // verus!
