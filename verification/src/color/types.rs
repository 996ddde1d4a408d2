//! The sRGB colour value and its textual forms.
use vstd::prelude::*;
use vstd::string::StringExecFns;
use crate::text::{chars_of, decimal, hex_digit, push_all, spec_decimal, spec_hex_digit, string_of};

verus! {

/// An opaque sRGB colour with 8 bits per channel.
#[derive(Clone, Copy, Debug, PartialEq, Eq, Structural)]
pub struct Rgb {
    pub r: u8,
    pub g: u8,
    pub b: u8,
}

/// Two lower-case hexadecimal digits of a byte.
pub open spec fn spec_byte_hex(b: u8) -> Seq<char> {
    seq![spec_hex_digit(b as int / 16), spec_hex_digit(b as int % 16)]
}

/// `", "`
pub open spec fn comma_space() -> Seq<char> {
    seq![',', ' ']
}

/// The value of a hexadecimal digit of either case, if `c` is one.
pub open spec fn hex_value(c: char) -> Option<int> {
    if '0' <= c && c <= '9' {
        Some(c as int - 48)
    } else if 'a' <= c && c <= 'f' {
        Some(c as int - 87)
    } else if 'A' <= c && c <= 'F' {
        Some(c as int - 55)
    } else {
        None
    }
}

/// What `u8::from_str_radix(_, 16)` gives for a two-character ASCII text:
/// two hex digits, or a `+` sign followed by one hex digit.
pub open spec fn pair_value(a: char, b: char) -> Option<u8> {
    match (hex_value(a), hex_value(b)) {
        (Some(x), Some(y)) => Some((16 * x + y) as u8),
        (None, Some(y)) => if a == '+' { Some(y as u8) } else { None },
        _ => None,
    }
}

/// `s` with every leading `#` removed.
pub open spec fn trim_hashes(s: Seq<char>) -> Seq<char>
    decreases s.len(),
{
    if s.len() > 0 && s[0] == '#' {
        trim_hashes(s.drop_first())
    } else {
        s
    }
}

/// Number of bytes of a character in UTF-8.
pub open spec fn utf8_width(c: char) -> int {
    if (c as int) < 0x80 {
        1
    } else if (c as int) < 0x800 {
        2
    } else if (c as int) < 0x10000 {
        3
    } else {
        4
    }
}

/// Number of bytes of a character sequence in UTF-8.
pub open spec fn utf8_length(s: Seq<char>) -> int
    decreases s.len(),
{
    if s.len() == 0 {
        0
    } else {
        utf8_width(s[0]) + utf8_length(s.drop_first())
    }
}

/// Whether byte offset `k` of the UTF-8 encoding of `s` falls between two characters.
pub open spec fn is_boundary(s: Seq<char>, k: int) -> bool
    decreases s.len(),
{
    if k == 0 {
        true
    } else if s.len() == 0 || k < 0 {
        false
    } else {
        is_boundary(s.drop_first(), k - utf8_width(s[0]))
    }
}

/// The hex parser slices the trimmed text at byte offsets 2 and 4 once it
/// is 6 bytes long; it aborts when either offset splits a character.
pub open spec fn from_hex_aborts(s: Seq<char>) -> bool {
    let t = trim_hashes(s);
    utf8_length(t) == 6 && !(is_boundary(t, 2) && is_boundary(t, 4))
}

/// The colour that a hex text denotes: after leading `#`s, exactly six
/// characters forming three radix-16 byte texts.
pub open spec fn spec_from_hex(s: Seq<char>) -> Option<Rgb> {
    let t = trim_hashes(s);
    if t.len() != 6 {
        None
    } else {
        match (pair_value(t[0], t[1]), pair_value(t[2], t[3]), pair_value(t[4], t[5])) {
            (Some(r), Some(g), Some(b)) => Some(Rgb { r, g, b }),
            _ => None,
        }
    }
}

impl Rgb {
    /// `rrggbb` in lower-case hex.
    pub open spec fn spec_raw_hex(self) -> Seq<char> {
        spec_byte_hex(self.r) + spec_byte_hex(self.g) + spec_byte_hex(self.b)
    }

    /// `#rrggbb` in lower-case hex.
    pub open spec fn spec_hex(self) -> Seq<char> {
        seq!['#'] + self.spec_raw_hex()
    }

    /// `r, g, b` in decimal.
    pub open spec fn spec_raw_rgb(self) -> Seq<char> {
        spec_decimal(self.r as nat) + comma_space() + spec_decimal(self.g as nat) + comma_space()
            + spec_decimal(self.b as nat)
    }

    /// `rgb(r, g, b)`
    pub open spec fn spec_css_rgb(self) -> Seq<char> {
        seq!['r', 'g', 'b', '('] + self.spec_raw_rgb() + seq![')']
    }

    /// `rgba(r, g, b, alpha)`
    pub open spec fn spec_css_rgba(self, alpha: Seq<char>) -> Seq<char> {
        seq!['r', 'g', 'b', 'a', '('] + self.spec_raw_rgb() + comma_space() + alpha + seq![')']
    }

    /// The opaque 32-bit ARGB word of the colour.
    pub open spec fn spec_argb(self) -> u32 {
        (0xFF000000 + self.r * 0x10000 + self.g * 0x100 + self.b) as u32
    }

    /// The colour channels of an ARGB word; the alpha byte is dropped.
    pub open spec fn spec_from_argb(argb: u32) -> Rgb {
        Rgb {
            r: ((argb / 0x10000) % 0x100) as u8,
            g: ((argb / 0x100) % 0x100) as u8,
            b: (argb % 0x100) as u8,
        }
    }

    pub fn rgb(r: u8, g: u8, b: u8) -> (c: Self)
        ensures
            c == (Rgb { r, g, b }),
    {
        Rgb { r, g, b }
    }

    pub fn push_byte_hex(out: &mut Vec<char>, b: u8)
        ensures
            final(out)@ == old(out)@ + spec_byte_hex(b),
    {
        out.push(hex_digit(b / 16));
        out.push(hex_digit(b % 16));
    }

    fn raw_hex_chars(&self) -> (res: Vec<char>)
        ensures
            res@ == self.spec_raw_hex(),
    {
        let mut out = Vec::new();
        Self::push_byte_hex(&mut out, self.r);
        Self::push_byte_hex(&mut out, self.g);
        Self::push_byte_hex(&mut out, self.b);
        out
    }

    /// `#rrggbb`
    pub fn to_hex(&self) -> (res: String)
        ensures
            res@ == self.spec_hex(),
    {
        let mut out = Vec::new();
        out.push('#');
        let mut raw = self.raw_hex_chars();
        out.append(&mut raw);
        string_of(out.as_slice())
    }

    /// `rrggbb`
    pub fn to_raw_hex(&self) -> (res: String)
        ensures
            res@ == self.spec_raw_hex(),
    {
        let out = self.raw_hex_chars();
        string_of(out.as_slice())
    }

    fn raw_rgb_chars(&self) -> (res: Vec<char>)
        ensures
            res@ == self.spec_raw_rgb(),
    {
        let mut out = decimal(self.r as u64);
        out.push(',');
        out.push(' ');
        let g = decimal(self.g as u64);
        push_all(&mut out, &g);
        out.push(',');
        out.push(' ');
        let b = decimal(self.b as u64);
        push_all(&mut out, &b);
        out
    }

    /// `r, g, b`
    pub fn to_raw_rgb(&self) -> (res: String)
        ensures
            res@ == self.spec_raw_rgb(),
    {
        let out = self.raw_rgb_chars();
        string_of(out.as_slice())
    }

    /// `rgb(r, g, b)`
    pub fn to_css_rgb(&self) -> (res: String)
        ensures
            res@ == self.spec_css_rgb(),
    {
        let mut out = Vec::new();
        out.push('r');
        out.push('g');
        out.push('b');
        out.push('(');
        let raw = self.raw_rgb_chars();
        push_all(&mut out, &raw);
        out.push(')');
        string_of(out.as_slice())
    }

    /// `rgba(r, g, b, alpha)`
    pub fn to_css_rgba(&self, alpha: &str) -> (res: String)
        ensures
            res@ == self.spec_css_rgba(alpha@),
    {
        let mut out = Vec::new();
        out.push('r');
        out.push('g');
        out.push('b');
        out.push('a');
        out.push('(');
        let raw = self.raw_rgb_chars();
        push_all(&mut out, &raw);
        out.push(',');
        out.push(' ');
        let a = chars_of(alpha);
        push_all(&mut out, &a);
        out.push(')');
        string_of(out.as_slice())
    }

    pub fn to_argb_u32(&self) -> (argb: u32)
        ensures
            argb == self.spec_argb(),
    {
        0xFF000000u32 + (self.r as u32) * 0x10000 + (self.g as u32) * 0x100 + (self.b as u32)
    }

    pub fn from_argb_u32(argb: u32) -> (c: Self)
        ensures
            c == Self::spec_from_argb(argb),
    {
        Rgb {
            r: ((argb / 0x10000) % 0x100) as u8,
            g: ((argb / 0x100) % 0x100) as u8,
            b: (argb % 0x100) as u8,
        }
    }
}

fn hex_value_of(c: char) -> (v: Option<u8>)
    ensures
        v matches Some(x) ==> hex_value(c) == Some(x as int),
        v is None ==> hex_value(c) is None,
{
    if '0' <= c && c <= '9' {
        Some(((c as u32) - 48) as u8)
    } else if 'a' <= c && c <= 'f' {
        Some(((c as u32) - 87) as u8)
    } else if 'A' <= c && c <= 'F' {
        Some(((c as u32) - 55) as u8)
    } else {
        None
    }
}

fn pair_value_of(a: char, b: char) -> (v: Option<u8>)
    ensures
        v == pair_value(a, b),
{
    match (hex_value_of(a), hex_value_of(b)) {
        (Some(x), Some(y)) => Some(16 * x + y),
        (None, Some(y)) => if a == '+' { Some(y) } else { None },
        _ => None,
    }
}

proof fn lemma_trim_hashes_skip(s: Seq<char>, i: int)
    requires
        0 <= i <= s.len(),
        forall|j: int| 0 <= j < i ==> s[j] == '#',
    ensures
        trim_hashes(s) == trim_hashes(s.subrange(i, s.len() as int)),
    decreases i,
{
    if i > 0 {
        assert(s.drop_first().subrange(i - 1, s.drop_first().len() as int) == s.subrange(i, s.len() as int));
        lemma_trim_hashes_skip(s.drop_first(), i - 1);
    } else {
        assert(s.subrange(0, s.len() as int) == s);
    }
}

/// Index of the first character of `s` that is not `#`.
fn skip_hashes(s: &Vec<char>) -> (i: usize)
    ensures
        i <= s@.len(),
        trim_hashes(s@) == s@.subrange(i as int, s@.len() as int),
{
    let mut i: usize = 0;
    while i < s.len() && s[i] == '#'
        invariant
            0 <= i <= s@.len(),
            forall|j: int| 0 <= j < i ==> s@[j] == '#',
        decreases s@.len() - i,
    {
        i = i + 1;
    }
    proof {
        lemma_trim_hashes_skip(s@, i as int);
    }
    i
}

fn utf8_width_of(c: char) -> (w: u64)
    ensures
        w == utf8_width(c),
{
    let v = c as u32;
    if v < 0x80 {
        1
    } else if v < 0x800 {
        2
    } else if v < 0x10000 {
        3
    } else {
        4
    }
}

proof fn lemma_utf8_length_at_least_len(s: Seq<char>)
    ensures
        utf8_length(s) >= s.len(),
    decreases s.len(),
{
    if s.len() > 0 {
        lemma_utf8_length_at_least_len(s.drop_first());
    }
}

/// Whether the UTF-8 encoding of `s[start..]` is exactly 6 bytes long.
fn utf8_length_is_six(s: &Vec<char>, start: usize, acc: u64) -> (res: bool)
    requires
        start <= s@.len(),
        acc <= 6,
    ensures
        res == (acc + utf8_length(s@.subrange(start as int, s@.len() as int)) == 6),
    decreases s@.len() - start,
{
    let ghost rest = s@.subrange(start as int, s@.len() as int);
    if start == s.len() {
        return acc == 6;
    }
    assert(rest.drop_first() == s@.subrange(start + 1, s@.len() as int));
    let w = utf8_width_of(s[start]);
    if acc + w > 6 {
        proof {
            lemma_utf8_length_at_least_len(rest.drop_first());
        }
        return false;
    }
    utf8_length_is_six(s, start + 1, acc + w)
}

/// `is_boundary(s[start..], k)`
fn boundary_from(s: &Vec<char>, start: usize, k: i64) -> (res: bool)
    requires
        start <= s@.len(),
        -4 <= k <= 6,
    ensures
        res == is_boundary(s@.subrange(start as int, s@.len() as int), k as int),
    decreases s@.len() - start,
{
    let ghost rest = s@.subrange(start as int, s@.len() as int);
    if k == 0 {
        return true;
    }
    if start == s.len() || k < 0 {
        return false;
    }
    assert(rest.drop_first() == s@.subrange(start + 1, s@.len() as int));
    let w = utf8_width_of(s[start]) as i64;
    boundary_from(s, start + 1, k - w)
}

impl Rgb {
    /// Whether `from_hex` would abort on `hex`: the text after its leading
    /// `#`s is six UTF-8 bytes long but byte offset 2 or 4 splits a character.
    pub fn from_hex_would_abort(hex: &str) -> (res: bool)
        ensures
            res == from_hex_aborts(hex@),
    {
        let cs = chars_of(hex);
        let i = skip_hashes(&cs);
        proof {
            assert(cs@.subrange(i as int, cs@.len() as int) == trim_hashes(hex@));
        }
        utf8_length_is_six(&cs, i, 0) && !(boundary_from(&cs, i, 2) && boundary_from(&cs, i, 4))
    }

    /// Parses `#rrggbb` (any number of leading `#`, either case).
    pub fn from_hex(hex: &str) -> (res: Option<Self>)
        requires
            !from_hex_aborts(hex@),
        ensures
            res == spec_from_hex(hex@),
    {
        let cs = chars_of(hex);
        let i = skip_hashes(&cs);
        if cs.len() - i != 6 {
            return None;
        }
        let r = pair_value_of(cs[i], cs[i + 1]);
        let g = pair_value_of(cs[i + 2], cs[i + 3]);
        let b = pair_value_of(cs[i + 4], cs[i + 5]);
        match (r, g, b) {
            (Some(r), Some(g), Some(b)) => Some(Rgb { r, g, b }),
            _ => None,
        }
    }
}

} // verus!

verus! {

proof fn lemma_hex_digit_value(d: int)
    requires
        0 <= d < 16,
    ensures
        hex_value(spec_hex_digit(d)) == Some(d),
        spec_hex_digit(d) != '#',
        spec_hex_digit(d) != '+',
        (spec_hex_digit(d) as int) < 0x80,
{
}

proof fn lemma_byte_hex_pair(b: u8)
    ensures
        pair_value(spec_byte_hex(b)[0], spec_byte_hex(b)[1]) == Some(b),
{
    lemma_hex_digit_value(b as int / 16);
    lemma_hex_digit_value(b as int % 16);
}

proof fn lemma_raw_hex_shape(c: Rgb)
    ensures
        c.spec_raw_hex().len() == 6,
        forall|i: int| 0 <= i < 6 ==> c.spec_raw_hex()[i] != '#' && (c.spec_raw_hex()[i] as int) < 0x80,
        pair_value(c.spec_raw_hex()[0], c.spec_raw_hex()[1]) == Some(c.r),
        pair_value(c.spec_raw_hex()[2], c.spec_raw_hex()[3]) == Some(c.g),
        pair_value(c.spec_raw_hex()[4], c.spec_raw_hex()[5]) == Some(c.b),
{
    lemma_byte_hex_pair(c.r);
    lemma_byte_hex_pair(c.g);
    lemma_byte_hex_pair(c.b);
    lemma_hex_digit_value(c.r as int / 16);
    lemma_hex_digit_value(c.r as int % 16);
    lemma_hex_digit_value(c.g as int / 16);
    lemma_hex_digit_value(c.g as int % 16);
    lemma_hex_digit_value(c.b as int / 16);
    lemma_hex_digit_value(c.b as int % 16);
}

proof fn lemma_ascii_boundaries(s: Seq<char>, k: int)
    requires
        forall|i: int| 0 <= i < s.len() ==> (s[i] as int) < 0x80,
        0 <= k <= s.len(),
    ensures
        is_boundary(s, k),
        utf8_length(s) == s.len(),
    decreases s.len(),
{
    if s.len() > 0 {
        if k > 0 {
            lemma_ascii_boundaries(s.drop_first(), k - 1);
        } else {
            lemma_ascii_boundaries(s.drop_first(), 0);
        }
    }
}

/// Parsing what `to_hex` or `to_raw_hex` prints gives the colour back, and
/// neither text makes the parser abort.
pub proof fn lemma_hex_roundtrip(c: Rgb)
    ensures
        spec_from_hex(c.spec_hex()) == Some(c),
        spec_from_hex(c.spec_raw_hex()) == Some(c),
        !from_hex_aborts(c.spec_hex()),
        !from_hex_aborts(c.spec_raw_hex()),
{
    lemma_raw_hex_shape(c);
    let raw = c.spec_raw_hex();
    assert(c.spec_hex().drop_first() == raw);
    assert(trim_hashes(raw) == raw);
    assert(trim_hashes(c.spec_hex()) == raw);
    lemma_ascii_boundaries(raw, 2);
    lemma_ascii_boundaries(raw, 4);
}

/// Packing a colour into an ARGB word and unpacking it gives the colour back.
pub proof fn lemma_argb_roundtrip(c: Rgb)
    ensures
        Rgb::spec_from_argb(c.spec_argb()) == c,
{
    let x: int = 0xFF000000 + c.r * 0x10000 + c.g * 0x100 + c.b;
    assert(x / 0x10000 == 0xFF00 + c.r) by (nonlinear_arith)
        requires x == 0xFF000000 + c.r * 0x10000 + c.g * 0x100 + c.b, c.r < 256, c.g < 256, c.b < 256;
    assert(x / 0x100 == 0xFF0000 + c.r * 0x100 + c.g) by (nonlinear_arith)
        requires x == 0xFF000000 + c.r * 0x10000 + c.g * 0x100 + c.b, c.r < 256, c.g < 256, c.b < 256;
    assert((0xFF00 + c.r) % 0x100 == c.r);
    assert((0xFF0000 + c.r * 0x100 + c.g) % 0x100 == c.g) by (nonlinear_arith)
        requires c.g < 256;
    assert(x % 0x100 == c.b) by (nonlinear_arith)
        requires x == 0xFF000000 + c.r * 0x10000 + c.g * 0x100 + c.b, c.b < 256;
}

/// Unpacking an ARGB word and packing it again forces the alpha byte to
/// 0xFF and keeps the three colour bytes.
pub proof fn lemma_argb_unpack_repack(argb: u32)
    ensures
        Rgb::spec_from_argb(argb).spec_argb() == 0xFF000000 + argb % 0x1000000,
{
    let x = argb as int;
    let r = (x / 0x10000) % 0x100;
    let g = (x / 0x100) % 0x100;
    let b = x % 0x100;
    assert(r * 0x10000 + g * 0x100 + b == x % 0x1000000) by (nonlinear_arith)
        requires r == (x / 0x10000) % 0x100, g == (x / 0x100) % 0x100, b == x % 0x100, x >= 0;
}

} // verus!

verus! {

/// The Material 3 colour roles of a scheme.
#[derive(Clone, Copy, Debug, PartialEq, Eq, Structural)]
pub struct MaterialRoles {
    pub primary: Rgb,
    pub on_primary: Rgb,
    pub primary_container: Rgb,
    pub on_primary_container: Rgb,
    pub primary_fixed: Rgb,
    pub primary_fixed_dim: Rgb,
    pub on_primary_fixed: Rgb,
    pub on_primary_fixed_variant: Rgb,
    pub secondary: Rgb,
    pub on_secondary: Rgb,
    pub secondary_container: Rgb,
    pub on_secondary_container: Rgb,
    pub secondary_fixed: Rgb,
    pub secondary_fixed_dim: Rgb,
    pub on_secondary_fixed: Rgb,
    pub on_secondary_fixed_variant: Rgb,
    pub tertiary: Rgb,
    pub on_tertiary: Rgb,
    pub tertiary_container: Rgb,
    pub on_tertiary_container: Rgb,
    pub tertiary_fixed: Rgb,
    pub tertiary_fixed_dim: Rgb,
    pub on_tertiary_fixed: Rgb,
    pub on_tertiary_fixed_variant: Rgb,
    pub error: Rgb,
    pub on_error: Rgb,
    pub error_container: Rgb,
    pub on_error_container: Rgb,
    pub error_fixed: Rgb,
    pub error_fixed_dim: Rgb,
    pub on_error_fixed: Rgb,
    pub on_error_fixed_variant: Rgb,
    pub surface: Rgb,
    pub on_surface: Rgb,
    pub surface_container: Rgb,
    pub surface_container_low: Rgb,
    pub surface_container_high: Rgb,
    pub surface_container_highest: Rgb,
    pub surface_bright: Rgb,
    pub surface_dim: Rgb,
    pub on_surface_variant: Rgb,
    pub surface_tint: Rgb,
    pub surface_container_lowest: Rgb,
    pub outline: Rgb,
    pub outline_variant: Rgb,
    pub inverse_surface: Rgb,
    pub inverse_on_surface: Rgb,
    pub inverse_primary: Rgb,
    pub background: Rgb,
    pub on_background: Rgb,
}

impl MaterialRoles {
    /// Every role with its name, in declaration order.
    pub open spec fn spec_entries(self) -> Seq<(Seq<char>, Rgb)> {
        seq![
            ("primary"@, self.primary),
            ("on_primary"@, self.on_primary),
            ("primary_container"@, self.primary_container),
            ("on_primary_container"@, self.on_primary_container),
            ("primary_fixed"@, self.primary_fixed),
            ("primary_fixed_dim"@, self.primary_fixed_dim),
            ("on_primary_fixed"@, self.on_primary_fixed),
            ("on_primary_fixed_variant"@, self.on_primary_fixed_variant),
            ("secondary"@, self.secondary),
            ("on_secondary"@, self.on_secondary),
            ("secondary_container"@, self.secondary_container),
            ("on_secondary_container"@, self.on_secondary_container),
            ("secondary_fixed"@, self.secondary_fixed),
            ("secondary_fixed_dim"@, self.secondary_fixed_dim),
            ("on_secondary_fixed"@, self.on_secondary_fixed),
            ("on_secondary_fixed_variant"@, self.on_secondary_fixed_variant),
            ("tertiary"@, self.tertiary),
            ("on_tertiary"@, self.on_tertiary),
            ("tertiary_container"@, self.tertiary_container),
            ("on_tertiary_container"@, self.on_tertiary_container),
            ("tertiary_fixed"@, self.tertiary_fixed),
            ("tertiary_fixed_dim"@, self.tertiary_fixed_dim),
            ("on_tertiary_fixed"@, self.on_tertiary_fixed),
            ("on_tertiary_fixed_variant"@, self.on_tertiary_fixed_variant),
            ("error"@, self.error),
            ("on_error"@, self.on_error),
            ("error_container"@, self.error_container),
            ("on_error_container"@, self.on_error_container),
            ("error_fixed"@, self.error_fixed),
            ("error_fixed_dim"@, self.error_fixed_dim),
            ("on_error_fixed"@, self.on_error_fixed),
            ("on_error_fixed_variant"@, self.on_error_fixed_variant),
            ("surface"@, self.surface),
            ("on_surface"@, self.on_surface),
            ("surface_container"@, self.surface_container),
            ("surface_container_low"@, self.surface_container_low),
            ("surface_container_high"@, self.surface_container_high),
            ("surface_container_highest"@, self.surface_container_highest),
            ("surface_bright"@, self.surface_bright),
            ("surface_dim"@, self.surface_dim),
            ("on_surface_variant"@, self.on_surface_variant),
            ("surface_tint"@, self.surface_tint),
            ("surface_container_lowest"@, self.surface_container_lowest),
            ("outline"@, self.outline),
            ("outline_variant"@, self.outline_variant),
            ("inverse_surface"@, self.inverse_surface),
            ("inverse_on_surface"@, self.inverse_on_surface),
            ("inverse_primary"@, self.inverse_primary),
            ("background"@, self.background),
            ("on_background"@, self.on_background)
        ]
    }

    /// Every role with its name, in declaration order.
    pub fn entries(&self) -> (res: Vec<(String, Rgb)>)
        ensures
            res@.len() == self.spec_entries().len(),
            forall|i: int| 0 <= i < res@.len() ==> (#[trigger] res@[i]).0@ == self.spec_entries()[i].0
                && res@[i].1 == self.spec_entries()[i].1,
    {
        let mut v: Vec<(String, Rgb)> = Vec::new();
        v.push((String::from_str("primary"), self.primary));
        v.push((String::from_str("on_primary"), self.on_primary));
        v.push((String::from_str("primary_container"), self.primary_container));
        v.push((String::from_str("on_primary_container"), self.on_primary_container));
        v.push((String::from_str("primary_fixed"), self.primary_fixed));
        v.push((String::from_str("primary_fixed_dim"), self.primary_fixed_dim));
        v.push((String::from_str("on_primary_fixed"), self.on_primary_fixed));
        v.push((String::from_str("on_primary_fixed_variant"), self.on_primary_fixed_variant));
        v.push((String::from_str("secondary"), self.secondary));
        v.push((String::from_str("on_secondary"), self.on_secondary));
        v.push((String::from_str("secondary_container"), self.secondary_container));
        v.push((String::from_str("on_secondary_container"), self.on_secondary_container));
        v.push((String::from_str("secondary_fixed"), self.secondary_fixed));
        v.push((String::from_str("secondary_fixed_dim"), self.secondary_fixed_dim));
        v.push((String::from_str("on_secondary_fixed"), self.on_secondary_fixed));
        v.push((String::from_str("on_secondary_fixed_variant"), self.on_secondary_fixed_variant));
        v.push((String::from_str("tertiary"), self.tertiary));
        v.push((String::from_str("on_tertiary"), self.on_tertiary));
        v.push((String::from_str("tertiary_container"), self.tertiary_container));
        v.push((String::from_str("on_tertiary_container"), self.on_tertiary_container));
        v.push((String::from_str("tertiary_fixed"), self.tertiary_fixed));
        v.push((String::from_str("tertiary_fixed_dim"), self.tertiary_fixed_dim));
        v.push((String::from_str("on_tertiary_fixed"), self.on_tertiary_fixed));
        v.push((String::from_str("on_tertiary_fixed_variant"), self.on_tertiary_fixed_variant));
        v.push((String::from_str("error"), self.error));
        v.push((String::from_str("on_error"), self.on_error));
        v.push((String::from_str("error_container"), self.error_container));
        v.push((String::from_str("on_error_container"), self.on_error_container));
        v.push((String::from_str("error_fixed"), self.error_fixed));
        v.push((String::from_str("error_fixed_dim"), self.error_fixed_dim));
        v.push((String::from_str("on_error_fixed"), self.on_error_fixed));
        v.push((String::from_str("on_error_fixed_variant"), self.on_error_fixed_variant));
        v.push((String::from_str("surface"), self.surface));
        v.push((String::from_str("on_surface"), self.on_surface));
        v.push((String::from_str("surface_container"), self.surface_container));
        v.push((String::from_str("surface_container_low"), self.surface_container_low));
        v.push((String::from_str("surface_container_high"), self.surface_container_high));
        v.push((String::from_str("surface_container_highest"), self.surface_container_highest));
        v.push((String::from_str("surface_bright"), self.surface_bright));
        v.push((String::from_str("surface_dim"), self.surface_dim));
        v.push((String::from_str("on_surface_variant"), self.on_surface_variant));
        v.push((String::from_str("surface_tint"), self.surface_tint));
        v.push((String::from_str("surface_container_lowest"), self.surface_container_lowest));
        v.push((String::from_str("outline"), self.outline));
        v.push((String::from_str("outline_variant"), self.outline_variant));
        v.push((String::from_str("inverse_surface"), self.inverse_surface));
        v.push((String::from_str("inverse_on_surface"), self.inverse_on_surface));
        v.push((String::from_str("inverse_primary"), self.inverse_primary));
        v.push((String::from_str("background"), self.background));
        v.push((String::from_str("on_background"), self.on_background));
        proof {
            assert(v@.len() == self.spec_entries().len());
        }
        v
    }
}

} // verus!

verus! {

/// A generated scheme: its roles, the base16 palette taken from them, the
/// wallpaper it came from (possibly empty), and the seed colours offered.
pub struct ColorScheme {
    pub wallpaper: String,
    pub roles: MaterialRoles,
    pub base16: [Rgb; 16],
    pub seed_colors: Option<Vec<Rgb>>,
    pub pick: Option<usize>,
}

} // verus!
