//! Decimal number texts: the syntax `str::parse` accepts for floating-point
//! numbers, and where such a text lies relative to fixed bounds.
use vstd::prelude::*;
use crate::template::parser::{at, at_ci, char_at, char_at_ci, digits_end, scan_digits, fits};
use crate::text::chars_of;

verus! {

/// Length of an optional leading sign.
pub open spec fn sign_len(s: Seq<char>) -> int {
    if at(s, 0, '+') || at(s, 0, '-') {
        1
    } else {
        0
    }
}

/// `inf`, `infinity` or `nan` in any case, starting at `i` and ending the text.
pub open spec fn special_word(s: Seq<char>, i: int) -> bool {
    (s.len() == i + 3 && at_ci(s, i, 'i', 'I') && at_ci(s, i + 1, 'n', 'N') && at_ci(s, i + 2, 'f', 'F'))
    || (s.len() == i + 8 && at_ci(s, i, 'i', 'I') && at_ci(s, i + 1, 'n', 'N') && at_ci(s, i + 2, 'f', 'F')
        && at_ci(s, i + 3, 'i', 'I') && at_ci(s, i + 4, 'n', 'N') && at_ci(s, i + 5, 'i', 'I')
        && at_ci(s, i + 6, 't', 'T') && at_ci(s, i + 7, 'y', 'Y'))
    || (s.len() == i + 3 && at_ci(s, i, 'n', 'N') && at_ci(s, i + 1, 'a', 'A') && at_ci(s, i + 2, 'n', 'N'))
}

/// Whether the text is a NaN literal (after its sign).
pub open spec fn is_nan_word(s: Seq<char>) -> bool {
    let i = sign_len(s);
    s.len() == i + 3 && at_ci(s, i, 'n', 'N') && at_ci(s, i + 1, 'a', 'A') && at_ci(s, i + 2, 'n', 'N')
}

/// End of the integer digits of the mantissa.
pub open spec fn int_end(s: Seq<char>) -> int {
    digits_end(s, sign_len(s))
}

/// End of the mantissa (integer digits, optional point and fraction digits).
pub open spec fn mantissa_end(s: Seq<char>) -> int {
    let a = int_end(s);
    if at(s, a, '.') {
        digits_end(s, a + 1)
    } else {
        a
    }
}

/// The mantissa has at least one digit.
pub open spec fn mantissa_ok(s: Seq<char>) -> bool {
    let a = int_end(s);
    a > sign_len(s) || (at(s, a, '.') && mantissa_end(s) > a + 1)
}

/// Start of the exponent digits (after `e` and an optional sign).
pub open spec fn exp_digits_start(s: Seq<char>) -> int {
    let b = mantissa_end(s);
    if at(s, b + 1, '+') || at(s, b + 1, '-') {
        b + 2
    } else {
        b + 1
    }
}

/// The text is a finite decimal literal: digits with an optional point, then
/// an optional exponent, and nothing else.
pub open spec fn finite_syntax(s: Seq<char>) -> bool {
    let b = mantissa_end(s);
    mantissa_ok(s) && (b == s.len() || (at_ci(s, b, 'e', 'E') && {
        let c = exp_digits_start(s);
        c < s.len() && digits_end(s, c) == s.len()
    }))
}

/// The grammar that `str::parse` accepts for `f32` and `f64` (std documents
/// it, case-insensitively): `Sign? ( 'inf' | 'infinity' | 'nan' | Number )`,
/// `Number ::= ( Digit+ | Digit+ '.' Digit* | Digit* '.' Digit+ ) Exp?`,
/// `Exp ::= 'e' Sign? Digit+`.
pub open spec fn float_syntax(s: Seq<char>) -> bool {
    special_word(s, sign_len(s)) || finite_syntax(s)
}

/// Mantissa digits with the point removed.
pub open spec fn mantissa_digits(s: Seq<char>) -> Seq<char> {
    let a = int_end(s);
    let lead = s.subrange(sign_len(s), a);
    if at(s, a, '.') {
        lead + s.subrange(a + 1, mantissa_end(s))
    } else {
        lead
    }
}

/// Value of a run of decimal digits.
pub open spec fn digits_value(d: Seq<char>) -> nat
    decreases d.len(),
{
    if d.len() == 0 {
        0
    } else {
        digits_value(d.drop_last()) * 10 + (d.last() as int - 48) as nat
    }
}

/// The decimal exponent written after `e` (0 when there is none).
pub open spec fn exponent(s: Seq<char>) -> int {
    let b = mantissa_end(s);
    if b == s.len() {
        0
    } else {
        let c = exp_digits_start(s);
        let v = digits_value(s.subrange(c, s.len() as int)) as int;
        if at(s, b + 1, '-') {
            -v
        } else {
            v
        }
    }
}

/// Index of the first non-zero digit, or the length when all are zero.
pub open spec fn first_nonzero(d: Seq<char>, k: int) -> int
    decreases d.len() - k,
{
    if 0 <= k < d.len() && d[k] == '0' {
        first_nonzero(d, k + 1)
    } else {
        k
    }
}

/// For a finite literal with a non-zero mantissa, the value lies in
/// `[10^(m-1), 10^m)` for this `m`: the integer digits from the first
/// non-zero one on, plus the exponent.
pub open spec fn magnitude(s: Seq<char>) -> int {
    let d = mantissa_digits(s);
    (int_end(s) - sign_len(s)) - first_nonzero(d, 0) + exponent(s)
}

/// Where a literal lies relative to the interval `[0.1, 0.9]`.
#[derive(Clone, Copy, Debug, PartialEq, Eq, Structural)]
pub enum Placement {
    Below,
    Within,
    Above,
    NotANumber,
}

/// The placement of a literal that `float_syntax` accepts, exactly as its
/// decimal value compares with 1/10 and 9/10.
pub open spec fn tenths_placement(s: Seq<char>) -> Placement {
    let neg = at(s, 0, '-');
    if is_nan_word(s) {
        Placement::NotANumber
    } else if special_word(s, sign_len(s)) {
        if neg { Placement::Below } else { Placement::Above }
    } else {
        let d = mantissa_digits(s);
        let k = first_nonzero(d, 0);
        if k == d.len() || neg {
            Placement::Below
        } else if magnitude(s) <= -1 {
            Placement::Below
        } else if magnitude(s) >= 1 {
            Placement::Above
        } else if d[k] == '9' && first_nonzero(d, k + 1) < d.len() {
            Placement::Above
        } else {
            Placement::Within
        }
    }
}

} // verus!

verus! {

/// Bound at which exponent values are capped while reading them.
pub open spec fn exp_cap() -> int {
    4 * usize::MAX
}

fn read_sign_len(s: &Vec<char>) -> (n: usize)
    ensures
        n as int == sign_len(s@),
{
    if char_at(s, 0, '+') || char_at(s, 0, '-') {
        1
    } else {
        0
    }
}

fn special_word_at(s: &Vec<char>, i: usize) -> (res: bool)
    requires
        i <= s@.len(),
        fits(s@),
    ensures
        res == special_word(s@, i as int),
{
    (s.len() == i + 3 && char_at_ci(s, i, 'i', 'I') && char_at_ci(s, i + 1, 'n', 'N') && char_at_ci(s, i + 2, 'f', 'F'))
    || (s.len() == i + 8 && char_at_ci(s, i, 'i', 'I') && char_at_ci(s, i + 1, 'n', 'N') && char_at_ci(s, i + 2, 'f', 'F')
        && char_at_ci(s, i + 3, 'i', 'I') && char_at_ci(s, i + 4, 'n', 'N') && char_at_ci(s, i + 5, 'i', 'I')
        && char_at_ci(s, i + 6, 't', 'T') && char_at_ci(s, i + 7, 'y', 'Y'))
    || (s.len() == i + 3 && char_at_ci(s, i, 'n', 'N') && char_at_ci(s, i + 1, 'a', 'A') && char_at_ci(s, i + 2, 'n', 'N'))
}

fn mantissa_end_of(s: &Vec<char>) -> (res: (usize, usize))
    requires
        fits(s@),
    ensures
        res.0 as int == int_end(s@),
        res.1 as int == mantissa_end(s@),
        sign_len(s@) <= res.0 <= res.1 <= s@.len(),
{
    let a = scan_digits(s, read_sign_len(s));
    if char_at(s, a, '.') {
        (a, scan_digits(s, a + 1))
    } else {
        (a, a)
    }
}

/// Whether `s` is text that `str::parse::<f64>()` (or `f32`) accepts.
pub fn is_float_text(s: &Vec<char>) -> (res: bool)
    requires
        fits(s@),
    ensures
        res == float_syntax(s@),
{
    let i = read_sign_len(s);
    if special_word_at(s, i) {
        return true;
    }
    let (a, b) = mantissa_end_of(s);
    let ok = a > i || (char_at(s, a, '.') && b > a + 1);
    if !ok {
        return false;
    }
    if b == s.len() {
        return true;
    }
    if !char_at_ci(s, b, 'e', 'E') {
        return false;
    }
    let c = if char_at(s, b + 1, '+') || char_at(s, b + 1, '-') {
        b + 2
    } else {
        b + 1
    };
    c < s.len() && scan_digits(s, c) == s.len()
}

proof fn lemma_capped_step(x: int, d: int)
    requires
        x >= 0,
        0 <= d < 10,
    ensures
        (if 10 * (if x < exp_cap() { x } else { exp_cap() }) + d < exp_cap() {
            10 * (if x < exp_cap() { x } else { exp_cap() }) + d
        } else {
            exp_cap()
        }) == (if 10 * x + d < exp_cap() { 10 * x + d } else { exp_cap() }),
{
}

/// `min(digits_value(s[c..]), exp_cap())` for a run of digits.
fn capped_digits_value(s: &Vec<char>, c: usize) -> (v: i128)
    requires
        c <= s@.len(),
        forall|j: int| c <= j < s@.len() ==> '0' <= #[trigger] s@[j] <= '9',
    ensures
        v == (if digits_value(s@.subrange(c as int, s@.len() as int)) < exp_cap() {
            digits_value(s@.subrange(c as int, s@.len() as int)) as int
        } else {
            exp_cap()
        }),
{
    let cap: i128 = 4 * (usize::MAX as i128);
    let mut v: i128 = 0;
    let mut j = c;
    while j < s.len()
        invariant
            c <= j <= s@.len(),
            cap == exp_cap(),
            forall|t: int| c <= t < s@.len() ==> '0' <= #[trigger] s@[t] <= '9',
            v == (if digits_value(s@.subrange(c as int, j as int)) < exp_cap() {
                digits_value(s@.subrange(c as int, j as int)) as int
            } else {
                exp_cap()
            }),
        decreases s@.len() - j,
    {
        let d = (s[j] as u32 - 48) as i128;
        let ghost prev = s@.subrange(c as int, j as int);
        proof {
            let next = s@.subrange(c as int, j + 1);
            assert(next.drop_last() == prev);
            assert(next.last() == s@[j as int]);
            assert(d == s@[j as int] as int - 48);
            assert(digits_value(next) == digits_value(prev) * 10 + d);
            lemma_capped_step(digits_value(prev) as int, d as int);
        }
        let ghost old_v = v;
        assert(cap == exp_cap());
        v = if 10 * v + d < cap {
            10 * v + d
        } else {
            cap
        };
        proof {
            let next = s@.subrange(c as int, j + 1);
            let x = digits_value(prev) as int;
            assert(old_v == (if x < exp_cap() { x } else { exp_cap() }));
            assert(digits_value(next) as int == 10 * x + d);
            assert(v == (if 10 * old_v + d < exp_cap() { 10 * old_v + d } else { exp_cap() }));
            assert(v == (if digits_value(next) < exp_cap() { digits_value(next) as int } else { exp_cap() }));
        }
        j = j + 1;
    }
    v
}

} // verus!

verus! {

fn first_nonzero_of(d: &Vec<char>, k: usize) -> (res: usize)
    requires
        k <= d@.len(),
    ensures
        res as int == first_nonzero(d@, k as int),
        k <= res <= d@.len(),
{
    let mut j = k;
    while j < d.len() && d[j] == '0'
        invariant
            k <= j <= d@.len(),
            first_nonzero(d@, k as int) == first_nonzero(d@, j as int),
        decreases d@.len() - j,
    {
        j = j + 1;
    }
    j
}

fn mantissa_digits_of(s: &Vec<char>, sign: usize, a: usize, b: usize) -> (d: Vec<char>)
    requires
        fits(s@),
        sign as int == sign_len(s@),
        a as int == int_end(s@),
        b as int == mantissa_end(s@),
        sign <= a <= b <= s@.len(),
    ensures
        d@ == mantissa_digits(s@),
{
    let mut d: Vec<char> = Vec::new();
    let mut j = sign;
    while j < a
        invariant
            sign <= j <= a <= s@.len(),
            d@ == s@.subrange(sign as int, j as int),
        decreases a - j,
    {
        d.push(s[j]);
        j = j + 1;
        assert(d@ == s@.subrange(sign as int, j as int));
    }
    if char_at(s, a, '.') {
        proof {
            lemma_digits_end_bounds(s@, a + 1);
        }
        let ghost lead = d@;
        let mut j = a + 1;
        while j < b
            invariant
                a + 1 <= j <= b <= s@.len(),
                d@ == lead + s@.subrange(a + 1, j as int),
            decreases b - j,
        {
            d.push(s[j]);
            j = j + 1;
            assert(d@ == lead + s@.subrange(a + 1, j as int));
        }
    }
    d
}

proof fn lemma_digits_end_bounds(s: Seq<char>, i: int)
    requires
        0 <= i <= s.len(),
    ensures
        i <= digits_end(s, i) <= s.len(),
        forall|j: int| i <= j < digits_end(s, i) ==> is_digit_char(#[trigger] s[j]),
    decreases s.len() - i,
{
    if i < s.len() && '0' <= s[i] && s[i] <= '9' {
        lemma_digits_end_bounds(s, i + 1);
    }
}

pub open spec fn is_digit_char(c: char) -> bool {
    '0' <= c && c <= '9'
}

/// The exponent of a finite literal, with its magnitude capped at `exp_cap()`.
fn exponent_capped(s: &Vec<char>, b: usize) -> (e: i128)
    requires
        fits(s@),
        finite_syntax(s@),
        b as int == mantissa_end(s@),
        b <= s@.len(),
    ensures
        exponent(s@) >= exp_cap() ==> e == exp_cap(),
        exponent(s@) <= -exp_cap() ==> e == -exp_cap(),
        -exp_cap() < exponent(s@) < exp_cap() ==> e == exponent(s@),
{
    if b == s.len() {
        return 0;
    }
    let c = if char_at(s, b + 1, '+') || char_at(s, b + 1, '-') {
        b + 2
    } else {
        b + 1
    };
    proof {
        assert(c as int == exp_digits_start(s@));
        lemma_digits_end_bounds(s@, c as int);
        assert(forall|j: int| c <= j < s@.len() ==> is_digit_char(#[trigger] s@[j]));
    }
    let v = capped_digits_value(s, c);
    if char_at(s, b + 1, '-') {
        -v
    } else {
        v
    }
}

/// Where a literal that `str::parse` accepts lies relative to `[0.1, 0.9]`.
pub fn placement_in_tenths(s: &Vec<char>) -> (res: Placement)
    requires
        fits(s@),
        float_syntax(s@),
    ensures
        res == tenths_placement(s@),
{
    let sign = read_sign_len(s);
    let neg = char_at(s, 0, '-');
    if s.len() == sign + 3 && char_at_ci(s, sign, 'n', 'N') && char_at_ci(s, sign + 1, 'a', 'A')
        && char_at_ci(s, sign + 2, 'n', 'N') {
        return Placement::NotANumber;
    }
    if special_word_at(s, sign) {
        return if neg {
            Placement::Below
        } else {
            Placement::Above
        };
    }
    let (a, b) = mantissa_end_of(s);
    let d = mantissa_digits_of(s, sign, a, b);
    let k = first_nonzero_of(&d, 0);
    if k == d.len() || neg {
        return Placement::Below;
    }
    let e = exponent_capped(s, b);
    proof {
        assert(d@.len() <= s@.len());
    }
    let mag: i128 = (a - sign) as i128 - k as i128 + e;
    proof {
        let x = (a - sign) as int - k as int;
        assert(-(usize::MAX as int) <= x <= usize::MAX as int);
        assert(magnitude(s@) == x + exponent(s@));
        assert(mag <= -1 <==> magnitude(s@) <= -1);
        assert(mag >= 1 <==> magnitude(s@) >= 1);
    }
    if mag <= -1 {
        Placement::Below
    } else if mag >= 1 {
        Placement::Above
    } else if d[k] == '9' && first_nonzero_of(&d, k + 1) < d.len() {
        Placement::Above
    } else {
        Placement::Within
    }
}

} // verus!

verus! {

/// The placement of a literal that `float_syntax` accepts, exactly as its
/// decimal value compares with 0 and 1.
pub open spec fn unit_placement(s: Seq<char>) -> Placement {
    let neg = at(s, 0, '-');
    if is_nan_word(s) {
        Placement::NotANumber
    } else if special_word(s, sign_len(s)) {
        if neg { Placement::Below } else { Placement::Above }
    } else {
        let d = mantissa_digits(s);
        let k = first_nonzero(d, 0);
        if k == d.len() {
            Placement::Within
        } else if neg {
            Placement::Below
        } else if magnitude(s) <= 0 {
            Placement::Within
        } else if magnitude(s) >= 2 {
            Placement::Above
        } else if d[k] != '1' || first_nonzero(d, k + 1) < d.len() {
            Placement::Above
        } else {
            Placement::Within
        }
    }
}

/// Where a literal that `str::parse` accepts lies relative to `[0, 1]`.
pub fn placement_in_unit(s: &Vec<char>) -> (res: Placement)
    requires
        fits(s@),
        float_syntax(s@),
    ensures
        res == unit_placement(s@),
{
    let sign = read_sign_len(s);
    let neg = char_at(s, 0, '-');
    if s.len() == sign + 3 && char_at_ci(s, sign, 'n', 'N') && char_at_ci(s, sign + 1, 'a', 'A')
        && char_at_ci(s, sign + 2, 'n', 'N') {
        return Placement::NotANumber;
    }
    if special_word_at(s, sign) {
        return if neg {
            Placement::Below
        } else {
            Placement::Above
        };
    }
    let (a, b) = mantissa_end_of(s);
    let d = mantissa_digits_of(s, sign, a, b);
    let k = first_nonzero_of(&d, 0);
    if k == d.len() {
        return Placement::Within;
    }
    if neg {
        return Placement::Below;
    }
    let e = exponent_capped(s, b);
    proof {
        assert(d@.len() <= s@.len());
    }
    let mag: i128 = (a - sign) as i128 - k as i128 + e;
    proof {
        let x = (a - sign) as int - k as int;
        assert(-(usize::MAX as int) <= x <= usize::MAX as int);
        assert(magnitude(s@) == x + exponent(s@));
        assert(mag <= 0 <==> magnitude(s@) <= 0);
        assert(mag >= 2 <==> magnitude(s@) >= 2);
    }
    if mag <= 0 {
        Placement::Within
    } else if mag >= 2 {
        Placement::Above
    } else if d[k] != '1' || first_nonzero_of(&d, k + 1) < d.len() {
        Placement::Above
    } else {
        Placement::Within
    }
}

} // verus!

verus! {

/// A single decimal digit is a float literal.
pub proof fn lemma_single_digit_syntax(c: char)
    requires
        '0' <= c <= '9',
    ensures
        float_syntax(seq![c]),
{
    let s = seq![c];
    reveal_with_fuel(digits_end, 2);
    assert(digits_end(s, 0) == 1);
    assert(mantissa_end(s) == 1);
}

} // verus!

verus! {

/// The clamp bounds and the default amount are float literals.
pub proof fn lemma_tenth_literals()
    ensures
        float_syntax("0.1"@),
        float_syntax("0.9"@),
        float_syntax("0.5"@),
{
    reveal_strlit("0.1");
    reveal_strlit("0.9");
    reveal_strlit("0.5");
    reveal_with_fuel(digits_end, 3);
    assert(digits_end("0.1"@, 0) == 1);
    assert(digits_end("0.1"@, 2) == 3);
    assert(mantissa_end("0.1"@) == 3);
    assert(digits_end("0.9"@, 0) == 1);
    assert(digits_end("0.9"@, 2) == 3);
    assert(mantissa_end("0.9"@) == 3);
    assert(digits_end("0.5"@, 0) == 1);
    assert(digits_end("0.5"@, 2) == 3);
    assert(mantissa_end("0.5"@) == 3);
}

} // verus!

verus! {

/// The contrast levels are float literals.
pub proof fn lemma_level_literals()
    ensures
        float_syntax("0.0"@),
        float_syntax("0.5"@),
        float_syntax("1.0"@),
{
    reveal_strlit("0.0");
    reveal_strlit("1.0");
    lemma_tenth_literals();
    reveal_with_fuel(digits_end, 3);
    assert(digits_end("0.0"@, 0) == 1);
    assert(digits_end("0.0"@, 2) == 3);
    assert(mantissa_end("0.0"@) == 3);
    assert(digits_end("1.0"@, 0) == 1);
    assert(digits_end("1.0"@, 2) == 3);
    assert(mantissa_end("1.0"@) == 3);
}

} // verus!

verus! {

/// One half lies within `[0.1, 0.9]`.
pub proof fn lemma_half_within_tenths()
    ensures
        tenths_placement("0.5"@) == Placement::Within,
{
    let s = "0.5"@;
    reveal_strlit("0.5");
    lemma_tenth_literals();
    reveal_with_fuel(digits_end, 3);
    assert(s.len() == 3 && s[0] == '0' && s[1] == '.' && s[2] == '5');
    assert(sign_len(s) == 0);
    assert(!is_nan_word(s));
    assert(!special_word(s, 0));
    assert(int_end(s) == 1);
    assert(mantissa_end(s) == 3);
    let d = mantissa_digits(s);
    assert(d =~= seq!['0', '5']);
    assert(first_nonzero(d, 1) == 1);
    assert(first_nonzero(d, 0) == 1);
    assert(exponent(s) == 0);
    assert(magnitude(s) == 0);
}

/// The bounds `0.1` and `0.9` themselves lie within `[0.1, 0.9]`.
pub proof fn lemma_bounds_within_tenths()
    ensures
        tenths_placement("0.1"@) == Placement::Within,
        tenths_placement("0.9"@) == Placement::Within,
{
    lemma_tenth_literals();
    reveal_with_fuel(digits_end, 3);
    let s = "0.1"@;
    reveal_strlit("0.1");
    assert(s.len() == 3 && s[0] == '0' && s[1] == '.' && s[2] == '1');
    assert(sign_len(s) == 0);
    assert(!is_nan_word(s));
    assert(!special_word(s, 0));
    assert(int_end(s) == 1);
    assert(mantissa_end(s) == 3);
    let d = mantissa_digits(s);
    assert(d =~= seq!['0', '1']);
    assert(first_nonzero(d, 1) == 1);
    assert(first_nonzero(d, 0) == 1);
    assert(exponent(s) == 0);
    assert(magnitude(s) == 0);
    let t = "0.9"@;
    reveal_strlit("0.9");
    assert(t.len() == 3 && t[0] == '0' && t[1] == '.' && t[2] == '9');
    assert(sign_len(t) == 0);
    assert(!is_nan_word(t));
    assert(!special_word(t, 0));
    assert(int_end(t) == 1);
    assert(mantissa_end(t) == 3);
    let e = mantissa_digits(t);
    assert(e =~= seq!['0', '9']);
    assert(first_nonzero(e, 2) == 2);
    assert(first_nonzero(e, 1) == 1);
    assert(first_nonzero(e, 0) == 1);
    assert(exponent(t) == 0);
    assert(magnitude(t) == 0);
}

} // verus!
