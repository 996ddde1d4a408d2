//! The filters that `{{ var:filter }}` applies to a value.
use vstd::prelude::*;
use crate::color::blend::{blend_colors, harmonize_color, spec_harmonize, spec_lerp, unit_clamped};
use crate::color::types::{from_hex_aborts, spec_from_hex, Rgb};
use crate::num::{digits_value, float_syntax, is_float_text, placement_in_tenths, tenths_placement, Placement};
use crate::template::parser::is_digit;
use crate::template::parser::lemma_fits;
use crate::text::{cat, chars_of, copy_string, decimal, spec_decimal, str_eq, string_of};

verus! {

/// Lightness and saturation adjustments, applied in HSL.
#[derive(Clone, Copy, Debug, PartialEq, Eq, Structural)]
pub enum Adjustment {
    Lighten,
    Darken,
    Saturate,
    Desaturate,
    AutoLightness,
}

/// One HSL channel, printed as a whole number.
#[derive(Clone, Copy, Debug, PartialEq, Eq, Structural)]
pub enum HslChannel {
    Hue,
    Saturation,
    Lightness,
}

/// Work that takes floating-point arithmetic, which the caller performs:
/// the printed form of a number literal, HSL descriptions and adjustments,
/// and the contrast search. Each carries the already validated inputs.
#[derive(Debug)]
pub enum FloatRequest {
    /// `f64` display of the number that the literal denotes.
    Number(String),
    /// `hsl(h, s%, l%)`
    Hsl(Rgb),
    /// `hsla(h, s%, l%, alpha)`
    Hsla(Rgb, String),
    /// One channel of the HSL form.
    Channel(HslChannel, Rgb),
    /// The adjusted colour as `#rrggbb`; the amount is a float literal.
    Adjust(Adjustment, Rgb, String),
    /// The foreground moved until its contrast with the background reaches
    /// the target ratio (a float literal), as `#rrggbb`.
    EnsureContrast(Rgb, Rgb, String),
    /// The colour with one HSL channel set to the value (a float literal),
    /// as `#rrggbb`.
    SetHsl(HslChannel, Rgb, String),
}

pub enum RequestView {
    Number(Seq<char>),
    Hsl(Rgb),
    Hsla(Rgb, Seq<char>),
    Channel(HslChannel, Rgb),
    Adjust(Adjustment, Rgb, Seq<char>),
    EnsureContrast(Rgb, Rgb, Seq<char>),
    SetHsl(HslChannel, Rgb, Seq<char>),
}

impl View for FloatRequest {
    type V = RequestView;

    open spec fn view(&self) -> RequestView {
        match self {
            FloatRequest::Number(t) => RequestView::Number(t@),
            FloatRequest::Hsl(c) => RequestView::Hsl(*c),
            FloatRequest::Hsla(c, a) => RequestView::Hsla(*c, a@),
            FloatRequest::Channel(k, c) => RequestView::Channel(*k, *c),
            FloatRequest::Adjust(k, c, a) => RequestView::Adjust(*k, *c, a@),
            FloatRequest::EnsureContrast(f, b, t) => RequestView::EnsureContrast(*f, *b, t@),
            FloatRequest::SetHsl(k, c, v) => RequestView::SetHsl(*k, *c, v@),
        }
    }
}

/// A filter's result: text, or a request for floating-point work.
#[derive(Debug)]
pub enum FilterValue {
    Text(String),
    Pending(FloatRequest),
}

pub enum ValueView {
    Text(Seq<char>),
    Pending(RequestView),
}

impl View for FilterValue {
    type V = ValueView;

    open spec fn view(&self) -> ValueView {
        match self {
            FilterValue::Text(t) => ValueView::Text(t@),
            FilterValue::Pending(r) => ValueView::Pending(r@),
        }
    }
}

pub open spec fn strings_view(v: Seq<String>) -> Seq<Seq<char>> {
    v.map_values(|s: String| s@)
}

/// `from_hex` on a value: `None` where it aborts.
pub open spec fn read_color(v: Seq<char>) -> Option<Option<Rgb>> {
    if from_hex_aborts(v) {
        None
    } else {
        Some(spec_from_hex(v))
    }
}

pub open spec fn invalid_color(v: Seq<char>) -> Seq<char> {
    "invalid hex color: "@ + v
}

/// A filter that prints a valid colour and passes anything else through.
pub open spec fn printed(v: Seq<char>, f: spec_fn(Rgb) -> ValueView) -> Option<Result<ValueView, Seq<char>>> {
    match read_color(v) {
        None => None,
        Some(None) => Some(Ok(ValueView::Text(v))),
        Some(Some(c)) => Some(Ok(f(c))),
    }
}

/// A filter that needs a valid colour.
pub open spec fn colored(v: Seq<char>, f: spec_fn(Rgb) -> ValueView) -> Option<Result<ValueView, Seq<char>>> {
    match read_color(v) {
        None => None,
        Some(None) => Some(Err(invalid_color(v))),
        Some(Some(c)) => Some(Ok(f(c))),
    }
}

/// The first argument when it is a float literal, else `0.1`.
pub open spec fn amount_text(args: Seq<Seq<char>>) -> Seq<char> {
    if args.len() > 0 && float_syntax(args[0]) {
        args[0]
    } else {
        "0.1"@
    }
}

/// The first argument, else `1.0`.
pub open spec fn alpha_text(args: Seq<Seq<char>>) -> Seq<char> {
    if args.len() > 0 {
        args[0]
    } else {
        "1.0"@
    }
}

pub open spec fn spec_invert(c: Rgb) -> Rgb {
    Rgb { r: (255 - c.r) as u8, g: (255 - c.g) as u8, b: (255 - c.b) as u8 }
}

pub open spec fn spec_grayscale(c: Rgb) -> Rgb {
    let avg = ((c.r + c.g + c.b) / 3) as u8;
    Rgb { r: avg, g: avg, b: avg }
}

/// The blend amount: `0.5` without a second argument; otherwise the second
/// argument clamped to `[0.1, 0.9]`, or `None` when it is no float literal.
pub open spec fn blend_amount(args: Seq<Seq<char>>) -> Option<Seq<char>> {
    if args.len() > 1 {
        if !float_syntax(args[1]) {
            None
        } else {
            match tenths_placement(args[1]) {
                Placement::Below => Some("0.1"@),
                Placement::Above => Some("0.9"@),
                _ => Some(args[1]),
            }
        }
    } else {
        Some("0.5"@)
    }
}

pub open spec fn spec_harmonize_filter(value: Seq<char>, args: Seq<Seq<char>>) -> Option<Result<ValueView, Seq<char>>> {
    if args.len() == 0 {
        Some(Err("expected target color argument"@))
    } else {
        match read_color(args[0]) {
            None => None,
            Some(None) => Some(Err(invalid_color(args[0]))),
            Some(Some(t)) => colored(value, |c: Rgb| ValueView::Text(spec_harmonize(c, t).spec_hex())),
        }
    }
}

pub open spec fn spec_blend_filter(value: Seq<char>, args: Seq<Seq<char>>) -> Option<Result<ValueView, Seq<char>>> {
    if args.len() == 0 {
        Some(Err("blend requires target color"@))
    } else {
        match read_color(args[0]) {
            None => None,
            Some(None) => Some(Err(invalid_color(args[0]))),
            Some(Some(t)) => match blend_amount(args) {
                None => Some(Err("invalid blend amount"@)),
                Some(a) => colored(
                    value,
                    |c: Rgb| ValueView::Text(spec_lerp(c, t, unit_clamped(a)).spec_hex()),
                ),
            },
        }
    }
}

pub open spec fn spec_contrast_filter(value: Seq<char>, args: Seq<Seq<char>>) -> Option<Result<ValueView, Seq<char>>> {
    if args.len() < 2 {
        Some(Err("ensure_contrast requires background color and target ratio"@))
    } else {
        match read_color(args[0]) {
            None => None,
            Some(None) => Some(Err(invalid_color(args[0]))),
            Some(Some(bg)) => if !float_syntax(args[1]) {
                Some(Err("invalid contrast ratio"@))
            } else {
                colored(
                    value,
                    |c: Rgb| ValueView::Pending(RequestView::EnsureContrast(c, bg, args[1])),
                )
            },
        }
    }
}

pub open spec fn adjust(value: Seq<char>, args: Seq<Seq<char>>, k: Adjustment) -> Option<Result<ValueView, Seq<char>>> {
    colored(value, |c: Rgb| ValueView::Pending(RequestView::Adjust(k, c, amount_text(args))))
}

/// A red, green or blue channel.
#[derive(Clone, Copy, Debug, PartialEq, Eq, Structural)]
pub enum ColorChannel {
    Red,
    Green,
    Blue,
}

/// A channel value written as decimal digits, at most 255.
pub open spec fn channel_byte(t: Seq<char>) -> Option<u8> {
    if t.len() > 0 && (forall|i: int| 0 <= i < t.len() ==> is_digit(#[trigger] t[i]))
        && digits_value(t) <= 255 {
        Some(digits_value(t) as u8)
    } else {
        None
    }
}

pub open spec fn with_channel(c: Rgb, k: ColorChannel, v: u8) -> Rgb {
    match k {
        ColorChannel::Red => Rgb { r: v, ..c },
        ColorChannel::Green => Rgb { g: v, ..c },
        ColorChannel::Blue => Rgb { b: v, ..c },
    }
}

pub open spec fn missing_channel_value() -> Seq<char> {
    "expected channel value"@
}

pub open spec fn invalid_channel_value(t: Seq<char>) -> Seq<char> {
    "invalid channel value: "@ + t
}

/// `set_red`, `set_green`, `set_blue`: the channel takes the first argument,
/// decimal digits up to 255.
pub open spec fn spec_set_rgb_filter(k: ColorChannel, value: Seq<char>, args: Seq<Seq<char>>) -> Option<Result<ValueView, Seq<char>>> {
    if args.len() == 0 {
        Some(Err(missing_channel_value()))
    } else {
        match channel_byte(args[0]) {
            None => Some(Err(invalid_channel_value(args[0]))),
            Some(v) => colored(value, |c: Rgb| ValueView::Text(with_channel(c, k, v).spec_hex())),
        }
    }
}

/// `set_hue`, `set_saturation`, `set_lightness`: the HSL channel takes the
/// first argument, a float literal.
pub open spec fn spec_set_hsl_filter(k: HslChannel, value: Seq<char>, args: Seq<Seq<char>>) -> Option<Result<ValueView, Seq<char>>> {
    if args.len() == 0 {
        Some(Err(missing_channel_value()))
    } else if !float_syntax(args[0]) {
        Some(Err(invalid_channel_value(args[0])))
    } else {
        colored(value, |c: Rgb| ValueView::Pending(RequestView::SetHsl(k, c, args[0])))
    }
}

/// What applying filter `name` to `value` with resolved `args` gives:
/// `None` where the program aborts (a colour text that splits a character
/// at the parser's byte offsets), else the value or the error message.
pub open spec fn spec_apply(name: Seq<char>, value: Seq<char>, args: Seq<Seq<char>>) -> Option<Result<ValueView, Seq<char>>> {
    if name == "hex"@ {
        printed(value, |c: Rgb| ValueView::Text(c.spec_hex()))
    } else if name == "hex_raw"@ {
        printed(value, |c: Rgb| ValueView::Text(c.spec_raw_hex()))
    } else if name == "rgb"@ || name == "rgb_css"@ {
        printed(value, |c: Rgb| ValueView::Text(c.spec_css_rgb()))
    } else if name == "rgba"@ {
        printed(value, |c: Rgb| ValueView::Text(c.spec_css_rgba(alpha_text(args))))
    } else if name == "hsl"@ {
        printed(value, |c: Rgb| ValueView::Pending(RequestView::Hsl(c)))
    } else if name == "hsla"@ {
        printed(value, |c: Rgb| ValueView::Pending(RequestView::Hsla(c, alpha_text(args))))
    } else if name == "hue"@ {
        printed(value, |c: Rgb| ValueView::Pending(RequestView::Channel(HslChannel::Hue, c)))
    } else if name == "saturation"@ {
        printed(value, |c: Rgb| ValueView::Pending(RequestView::Channel(HslChannel::Saturation, c)))
    } else if name == "lightness"@ {
        printed(value, |c: Rgb| ValueView::Pending(RequestView::Channel(HslChannel::Lightness, c)))
    } else if name == "r"@ {
        printed(value, |c: Rgb| ValueView::Text(spec_decimal(c.r as nat)))
    } else if name == "g"@ {
        printed(value, |c: Rgb| ValueView::Text(spec_decimal(c.g as nat)))
    } else if name == "b"@ {
        printed(value, |c: Rgb| ValueView::Text(spec_decimal(c.b as nat)))
    } else if name == "lighten"@ {
        adjust(value, args, Adjustment::Lighten)
    } else if name == "darken"@ {
        adjust(value, args, Adjustment::Darken)
    } else if name == "saturate"@ {
        adjust(value, args, Adjustment::Saturate)
    } else if name == "desaturate"@ {
        adjust(value, args, Adjustment::Desaturate)
    } else if name == "invert"@ {
        colored(value, |c: Rgb| ValueView::Text(spec_invert(c).spec_hex()))
    } else if name == "grayscale"@ {
        colored(value, |c: Rgb| ValueView::Text(spec_grayscale(c).spec_hex()))
    } else if name == "auto_lightness"@ {
        adjust(value, args, Adjustment::AutoLightness)
    } else if name == "harmonize"@ {
        spec_harmonize_filter(value, args)
    } else if name == "blend"@ {
        spec_blend_filter(value, args)
    } else if name == "ensure_contrast"@ {
        spec_contrast_filter(value, args)
    } else if name == "set_red"@ {
        spec_set_rgb_filter(ColorChannel::Red, value, args)
    } else if name == "set_green"@ {
        spec_set_rgb_filter(ColorChannel::Green, value, args)
    } else if name == "set_blue"@ {
        spec_set_rgb_filter(ColorChannel::Blue, value, args)
    } else if name == "set_hue"@ {
        spec_set_hsl_filter(HslChannel::Hue, value, args)
    } else if name == "set_saturation"@ {
        spec_set_hsl_filter(HslChannel::Saturation, value, args)
    } else if name == "set_lightness"@ {
        spec_set_hsl_filter(HslChannel::Lightness, value, args)
    } else {
        Some(Err("unknown filter: "@ + name))
    }
}

} // verus!

verus! {

pub open spec fn result_view(r: Result<FilterValue, String>) -> Result<ValueView, Seq<char>> {
    match r {
        Ok(v) => Ok(v@),
        Err(e) => Err(e@),
    }
}

fn text(s: String) -> (v: FilterValue)
    ensures
        v@ == ValueView::Text(s@),
{
    FilterValue::Text(s)
}

fn invalid_color_message(v: &str) -> (m: String)
    ensures
        m@ == invalid_color(v@),
{
    cat("invalid hex color: ", v)
}

fn alpha_of(args: &[String]) -> (a: String)
    ensures
        a@ == alpha_text(strings_view(args@)),
{
    if args.len() > 0 {
        copy_string(args[0].as_str())
    } else {
        copy_string("1.0")
    }
}

fn amount_of(args: &[String]) -> (a: String)
    ensures
        a@ == amount_text(strings_view(args@)),
{
    if args.len() > 0 {
        let cs = chars_of(args[0].as_str());
        proof {
            lemma_fits(cs@);
        }
        if is_float_text(&cs) {
            return copy_string(args[0].as_str());
        }
    }
    copy_string("0.1")
}

fn decimal_string(n: u8) -> (s: String)
    ensures
        s@ == spec_decimal(n as nat),
{
    let d = decimal(n as u64);
    string_of(d.as_slice())
}

/// Filters that print a valid colour and pass any other value through.
fn apply_printed(name: &str, value: &str, args: &[String]) -> (res: Option<Result<FilterValue, String>>)
    requires
        !from_hex_aborts(value@),
    ensures
        res matches Some(r) ==> spec_apply(name@, value@, strings_view(args@)) == Some(result_view(r)),
        res is None ==> !(name@ == "hex"@ || name@ == "hex_raw"@ || name@ == "rgb"@ || name@ == "rgb_css"@
            || name@ == "rgba"@ || name@ == "hsl"@ || name@ == "hsla"@ || name@ == "hue"@
            || name@ == "saturation"@ || name@ == "lightness"@ || name@ == "r"@ || name@ == "g"@
            || name@ == "b"@),
{
    let known = str_eq(name, "hex") || str_eq(name, "hex_raw") || str_eq(name, "rgb") || str_eq(
        name,
        "rgb_css",
    ) || str_eq(name, "rgba") || str_eq(name, "hsl") || str_eq(name, "hsla") || str_eq(name, "hue")
        || str_eq(name, "saturation") || str_eq(name, "lightness") || str_eq(name, "r") || str_eq(
        name,
        "g",
    ) || str_eq(name, "b");
    if !known {
        return None;
    }
    let c = match Rgb::from_hex(value) {
        Some(c) => c,
        None => return Some(Ok(text(copy_string(value)))),
    };
    let v = if str_eq(name, "hex") {
        text(c.to_hex())
    } else if str_eq(name, "hex_raw") {
        text(c.to_raw_hex())
    } else if str_eq(name, "rgb") || str_eq(name, "rgb_css") {
        text(c.to_css_rgb())
    } else if str_eq(name, "rgba") {
        let a = alpha_of(args);
        text(c.to_css_rgba(a.as_str()))
    } else if str_eq(name, "hsl") {
        FilterValue::Pending(FloatRequest::Hsl(c))
    } else if str_eq(name, "hsla") {
        FilterValue::Pending(FloatRequest::Hsla(c, alpha_of(args)))
    } else if str_eq(name, "hue") {
        FilterValue::Pending(FloatRequest::Channel(HslChannel::Hue, c))
    } else if str_eq(name, "saturation") {
        FilterValue::Pending(FloatRequest::Channel(HslChannel::Saturation, c))
    } else if str_eq(name, "lightness") {
        FilterValue::Pending(FloatRequest::Channel(HslChannel::Lightness, c))
    } else if str_eq(name, "r") {
        text(decimal_string(c.r))
    } else if str_eq(name, "g") {
        text(decimal_string(c.g))
    } else {
        text(decimal_string(c.b))
    };
    Some(Ok(v))
}

} // verus!

verus! {

fn apply_adjust(k: Adjustment, value: &str, args: &[String]) -> (res: Result<FilterValue, String>)
    requires
        !from_hex_aborts(value@),
    ensures
        adjust(value@, strings_view(args@), k) == Some(result_view(res)),
{
    match Rgb::from_hex(value) {
        Some(c) => Ok(FilterValue::Pending(FloatRequest::Adjust(k, c, amount_of(args)))),
        None => Err(invalid_color_message(value)),
    }
}

fn apply_invert(value: &str) -> (res: Result<FilterValue, String>)
    requires
        !from_hex_aborts(value@),
    ensures
        colored(value@, |c: Rgb| ValueView::Text(spec_invert(c).spec_hex())) == Some(result_view(res)),
{
    match Rgb::from_hex(value) {
        Some(c) => {
            let inv = Rgb { r: 255 - c.r, g: 255 - c.g, b: 255 - c.b };
            Ok(text(inv.to_hex()))
        },
        None => Err(invalid_color_message(value)),
    }
}

fn apply_grayscale(value: &str) -> (res: Result<FilterValue, String>)
    requires
        !from_hex_aborts(value@),
    ensures
        colored(value@, |c: Rgb| ValueView::Text(spec_grayscale(c).spec_hex())) == Some(result_view(res)),
{
    match Rgb::from_hex(value) {
        Some(c) => {
            let avg = ((c.r as u16 + c.g as u16 + c.b as u16) / 3) as u8;
            let gr = Rgb { r: avg, g: avg, b: avg };
            Ok(text(gr.to_hex()))
        },
        None => Err(invalid_color_message(value)),
    }
}

fn apply_harmonize(value: &str, args: &[String]) -> (res: Result<FilterValue, String>)
    requires
        spec_harmonize_filter(value@, strings_view(args@)) is Some,
    ensures
        spec_harmonize_filter(value@, strings_view(args@)) == Some(result_view(res)),
{
    if args.len() == 0 {
        return Err(copy_string("expected target color argument"));
    }
    let target = match Rgb::from_hex(args[0].as_str()) {
        Some(t) => t,
        None => return Err(invalid_color_message(args[0].as_str())),
    };
    let c = match Rgb::from_hex(value) {
        Some(c) => c,
        None => return Err(invalid_color_message(value)),
    };
    Ok(text(harmonize_color(&c, &target).to_hex()))
}

fn blend_amount_of(args: &[String]) -> (res: Option<String>)
    ensures
        res matches Some(a) ==> blend_amount(strings_view(args@)) == Some(a@),
        res is None ==> blend_amount(strings_view(args@)) is None,
{
    if args.len() > 1 {
        let cs = chars_of(args[1].as_str());
        proof {
            lemma_fits(cs@);
        }
        if !is_float_text(&cs) {
            return None;
        }
        match placement_in_tenths(&cs) {
            Placement::Below => Some(copy_string("0.1")),
            Placement::Above => Some(copy_string("0.9")),
            _ => Some(copy_string(args[1].as_str())),
        }
    } else {
        Some(copy_string("0.5"))
    }
}

fn apply_blend(value: &str, args: &[String]) -> (res: Result<FilterValue, String>)
    requires
        spec_blend_filter(value@, strings_view(args@)) is Some,
    ensures
        spec_blend_filter(value@, strings_view(args@)) == Some(result_view(res)),
{
    if args.len() == 0 {
        return Err(copy_string("blend requires target color"));
    }
    let target = match Rgb::from_hex(args[0].as_str()) {
        Some(t) => t,
        None => return Err(invalid_color_message(args[0].as_str())),
    };
    let amount = match blend_amount_of(args) {
        Some(a) => a,
        None => return Err(copy_string("invalid blend amount")),
    };
    let c = match Rgb::from_hex(value) {
        Some(c) => c,
        None => return Err(invalid_color_message(value)),
    };
    proof {
        lemma_blend_amount_syntax(strings_view(args@));
    }
    Ok(text(blend_colors(&c, &target, amount.as_str()).to_hex()))
}

/// A clamped blend amount is a float literal.
proof fn lemma_blend_amount_syntax(args: Seq<Seq<char>>)
    ensures
        blend_amount(args) matches Some(a) ==> float_syntax(a),
{
    reveal_strlit("0.1");
    reveal_strlit("0.9");
    reveal_strlit("0.5");
    crate::num::lemma_tenth_literals();
}

fn apply_contrast(value: &str, args: &[String]) -> (res: Result<FilterValue, String>)
    requires
        spec_contrast_filter(value@, strings_view(args@)) is Some,
    ensures
        spec_contrast_filter(value@, strings_view(args@)) == Some(result_view(res)),
{
    if args.len() < 2 {
        return Err(copy_string("ensure_contrast requires background color and target ratio"));
    }
    let bg = match Rgb::from_hex(args[0].as_str()) {
        Some(t) => t,
        None => return Err(invalid_color_message(args[0].as_str())),
    };
    let cs = chars_of(args[1].as_str());
    proof {
            lemma_fits(cs@);
        }
    if !is_float_text(&cs) {
        return Err(copy_string("invalid contrast ratio"));
    }
    let fg = match Rgb::from_hex(value) {
        Some(c) => c,
        None => return Err(invalid_color_message(value)),
    };
    Ok(FilterValue::Pending(FloatRequest::EnsureContrast(fg, bg, copy_string(args[1].as_str()))))
}

pub struct FilterRegistry;

/// Digit values never shrink as digits are added.
proof fn lemma_digits_value_grows(t: Seq<char>, k: int)
    requires
        0 <= k <= t.len(),
        forall|i: int| 0 <= i < t.len() ==> is_digit(#[trigger] t[i]),
    ensures
        digits_value(t) >= digits_value(t.take(k)),
    decreases t.len(),
{
    if k < t.len() {
        let u = t.drop_last();
        assert forall|i: int| 0 <= i < u.len() implies is_digit(#[trigger] u[i]) by {
            assert(u[i] == t[i]);
        }
        lemma_digits_value_grows(u, k);
        assert(u.take(k) =~= t.take(k));
    } else {
        assert(t.take(k) =~= t);
    }
}

/// The channel value that `t` writes, if any.
fn read_channel_byte(t: &str) -> (res: Option<u8>)
    ensures
        res == channel_byte(t@),
{
    let cs = chars_of(t);
    if cs.len() == 0 {
        return None;
    }
    let mut v: u32 = 0;
    let mut i: usize = 0;
    while i < cs.len()
        invariant
            cs@ == t@,
            i <= cs@.len(),
            v as nat == digits_value(cs@.take(i as int)),
            v <= 255,
            forall|j: int| 0 <= j < i ==> is_digit(#[trigger] cs@[j]),
        decreases cs@.len() - i,
    {
        let c = cs[i];
        if !('0' <= c && c <= '9') {
            return None;
        }
        proof {
            assert(cs@.take(i + 1).drop_last() =~= cs@.take(i as int));
            assert(cs@.take(i + 1).last() == c);
        }
        let d = (c as u32) - 48;
        let nv = v * 10 + d;
        if nv > 255 {
            proof {
                if forall|j: int| 0 <= j < cs@.len() ==> is_digit(#[trigger] cs@[j]) {
                    lemma_digits_value_grows(cs@, i + 1);
                }
            }
            return None;
        }
        v = nv;
        i = i + 1;
    }
    proof {
        assert(cs@.take(i as int) =~= cs@);
    }
    Some(v as u8)
}

fn apply_set_rgb(k: ColorChannel, value: &str, args: &[String]) -> (res: Result<FilterValue, String>)
    requires
        spec_set_rgb_filter(k, value@, strings_view(args@)) is Some,
    ensures
        spec_set_rgb_filter(k, value@, strings_view(args@)) == Some(result_view(res)),
{
    if args.len() == 0 {
        return Err(copy_string("expected channel value"));
    }
    assert(strings_view(args@)[0] == args@[0]@);
    let v = match read_channel_byte(args[0].as_str()) {
        Some(v) => v,
        None => return Err(cat("invalid channel value: ", args[0].as_str())),
    };
    match Rgb::from_hex(value) {
        Some(c) => {
            let set = match k {
                ColorChannel::Red => Rgb { r: v, g: c.g, b: c.b },
                ColorChannel::Green => Rgb { r: c.r, g: v, b: c.b },
                ColorChannel::Blue => Rgb { r: c.r, g: c.g, b: v },
            };
            Ok(text(set.to_hex()))
        },
        None => Err(invalid_color_message(value)),
    }
}

fn apply_set_hsl(k: HslChannel, value: &str, args: &[String]) -> (res: Result<FilterValue, String>)
    requires
        spec_set_hsl_filter(k, value@, strings_view(args@)) is Some,
    ensures
        spec_set_hsl_filter(k, value@, strings_view(args@)) == Some(result_view(res)),
{
    if args.len() == 0 {
        return Err(copy_string("expected channel value"));
    }
    assert(strings_view(args@)[0] == args@[0]@);
    let cs = chars_of(args[0].as_str());
    proof {
        lemma_fits(cs@);
    }
    if !is_float_text(&cs) {
        return Err(cat("invalid channel value: ", args[0].as_str()));
    }
    match Rgb::from_hex(value) {
        Some(c) => Ok(FilterValue::Pending(FloatRequest::SetHsl(k, c, copy_string(args[0].as_str())))),
        None => Err(invalid_color_message(value)),
    }
}

/// The filters that read the value as a colour first abort exactly where
/// that read does.
proof fn lemma_color_reading_aborts(name: Seq<char>, value: Seq<char>, args: Seq<Seq<char>>)
    requires
        name == "hex"@ || name == "hex_raw"@ || name == "rgb"@ || name == "rgb_css"@ || name
            == "rgba"@ || name == "hsl"@ || name == "hsla"@ || name == "hue"@ || name
            == "saturation"@ || name == "lightness"@ || name == "r"@ || name == "g"@ || name
            == "b"@ || name == "lighten"@ || name == "darken"@ || name == "saturate"@ || name
            == "desaturate"@ || name == "invert"@ || name == "grayscale"@ || name
            == "auto_lightness"@,
    ensures
        (spec_apply(name, value, args) is None) == from_hex_aborts(value),
{
}

/// The filters that read arguments as colours, and every unknown name.
proof fn lemma_special_filters(name: Seq<char>, value: Seq<char>, args: Seq<Seq<char>>)
    requires
        !(name == "hex"@ || name == "hex_raw"@ || name == "rgb"@ || name == "rgb_css"@ || name
            == "rgba"@ || name == "hsl"@ || name == "hsla"@ || name == "hue"@ || name
            == "saturation"@ || name == "lightness"@ || name == "r"@ || name == "g"@ || name
            == "b"@ || name == "lighten"@ || name == "darken"@ || name == "saturate"@ || name
            == "desaturate"@ || name == "invert"@ || name == "grayscale"@ || name
            == "auto_lightness"@),
    ensures
        name == "harmonize"@ ==> spec_apply(name, value, args) == spec_harmonize_filter(value, args),
        name == "blend"@ ==> spec_apply(name, value, args) == spec_blend_filter(value, args),
        name == "ensure_contrast"@ ==> spec_apply(name, value, args) == spec_contrast_filter(
            value,
            args,
        ),
        name == "set_red"@ ==> spec_apply(name, value, args) == spec_set_rgb_filter(ColorChannel::Red, value, args),
        name == "set_green"@ ==> spec_apply(name, value, args) == spec_set_rgb_filter(ColorChannel::Green, value, args),
        name == "set_blue"@ ==> spec_apply(name, value, args) == spec_set_rgb_filter(ColorChannel::Blue, value, args),
        name == "set_hue"@ ==> spec_apply(name, value, args) == spec_set_hsl_filter(HslChannel::Hue, value, args),
        name == "set_saturation"@ ==> spec_apply(name, value, args) == spec_set_hsl_filter(HslChannel::Saturation, value, args),
        name == "set_lightness"@ ==> spec_apply(name, value, args) == spec_set_hsl_filter(HslChannel::Lightness, value, args),
        !(name == "harmonize"@ || name == "blend"@ || name == "ensure_contrast"@ || name == "set_red"@
            || name == "set_green"@ || name == "set_blue"@ || name == "set_hue"@ || name
            == "set_saturation"@ || name == "set_lightness"@) ==> spec_apply(name, value, args) is Some,
{
    reveal_strlit("harmonize");
    reveal_strlit("blend");
    reveal_strlit("ensure_contrast");
    reveal_strlit("set_red");
    reveal_strlit("set_green");
    reveal_strlit("set_blue");
    reveal_strlit("set_hue");
    reveal_strlit("set_saturation");
    reveal_strlit("set_lightness");
    assert("blend"@.len() == 5);
    assert("harmonize"@.len() == 9);
    assert("ensure_contrast"@.len() == 15);
    assert("set_red"@.len() == 7 && "set_red"@[4] == 'r');
    assert("set_green"@.len() == 9 && "set_green"@[4] == 'g');
    assert("set_blue"@.len() == 8);
    assert("set_hue"@.len() == 7 && "set_hue"@[4] == 'h');
    assert("set_saturation"@.len() == 14);
    assert("set_lightness"@.len() == 13);
}

/// Whether `value`, or argument `i`, is read as a colour by filter `name`
/// before anything else can fail.
fn reads_color(name: &str) -> (res: bool)
    ensures
        res == (name@ == "hex"@ || name@ == "hex_raw"@ || name@ == "rgb"@ || name@ == "rgb_css"@
            || name@ == "rgba"@ || name@ == "hsl"@ || name@ == "hsla"@ || name@ == "hue"@
            || name@ == "saturation"@ || name@ == "lightness"@ || name@ == "r"@ || name@ == "g"@
            || name@ == "b"@ || name@ == "lighten"@ || name@ == "darken"@ || name@ == "saturate"@
            || name@ == "desaturate"@ || name@ == "invert"@ || name@ == "grayscale"@
            || name@ == "auto_lightness"@),
{
    str_eq(name, "hex") || str_eq(name, "hex_raw") || str_eq(name, "rgb") || str_eq(name, "rgb_css")
        || str_eq(name, "rgba") || str_eq(name, "hsl") || str_eq(name, "hsla") || str_eq(name, "hue")
        || str_eq(name, "saturation") || str_eq(name, "lightness") || str_eq(name, "r") || str_eq(
        name,
        "g",
    ) || str_eq(name, "b") || str_eq(name, "lighten") || str_eq(name, "darken") || str_eq(
        name,
        "saturate",
    ) || str_eq(name, "desaturate") || str_eq(name, "invert") || str_eq(name, "grayscale")
        || str_eq(name, "auto_lightness")
}

impl FilterRegistry {
    /// Whether applying the filter would abort: a colour text is cut inside
    /// a character where it is split into its three byte pairs.
    pub fn would_abort(name: &str, value: &str, args: &[String]) -> (res: bool)
        ensures
            res == (spec_apply(name@, value@, strings_view(args@)) is None),
    {
        let ghost sargs = strings_view(args@);
        assert(sargs.len() == args@.len());
        if reads_color(name) {
            proof {
                lemma_color_reading_aborts(name@, value@, sargs);
            }
            return Rgb::from_hex_would_abort(value);
        }
        let harmonizing = str_eq(name, "harmonize");
        let blending = str_eq(name, "blend");
        let contrasting = str_eq(name, "ensure_contrast");
        proof {
            lemma_special_filters(name@, value@, sargs);
        }
        let set_rgb = str_eq(name, "set_red") || str_eq(name, "set_green") || str_eq(name, "set_blue");
        let set_hsl = str_eq(name, "set_hue") || str_eq(name, "set_saturation") || str_eq(
            name,
            "set_lightness",
        );
        if set_rgb || set_hsl {
            if args.len() == 0 {
                return false;
            }
            assert(sargs[0] == args@[0]@);
            if set_rgb {
                if read_channel_byte(args[0].as_str()).is_none() {
                    return false;
                }
            } else {
                let cs = chars_of(args[0].as_str());
                proof {
                    lemma_fits(cs@);
                }
                if !is_float_text(&cs) {
                    return false;
                }
            }
            return Rgb::from_hex_would_abort(value);
        }
        if !(harmonizing || blending || contrasting) {
            return false;
        }
        if args.len() == 0 || (contrasting && args.len() < 2) {
            return false;
        }
        assert(sargs[0] == args@[0]@);
        if Rgb::from_hex_would_abort(args[0].as_str()) {
            return true;
        }
        if Rgb::from_hex(args[0].as_str()).is_none() {
            return false;
        }
        if args.len() > 1 && (blending || contrasting) {
            let cs = chars_of(args[1].as_str());
            proof {
                lemma_fits(cs@);
                assert(sargs[1] == args@[1]@);
            }
            if !is_float_text(&cs) {
                return false;
            }
        }
        Rgb::from_hex_would_abort(value)
    }


    /// Applies filter `name` to `value` with resolved `args`.
    pub fn apply(name: &str, value: &str, args: &[String]) -> (res: Result<FilterValue, String>)
        requires
            spec_apply(name@, value@, strings_view(args@)) is Some,
            ensures
            spec_apply(name@, value@, strings_view(args@)) == Some(result_view(res)),
    {
        let printing = str_eq(name, "hex") || str_eq(name, "hex_raw") || str_eq(name, "rgb")
            || str_eq(name, "rgb_css") || str_eq(name, "rgba") || str_eq(name, "hsl") || str_eq(
            name,
            "hsla",
        ) || str_eq(name, "hue") || str_eq(name, "saturation") || str_eq(name, "lightness")
            || str_eq(name, "r") || str_eq(name, "g") || str_eq(name, "b");
        if printing {
            match apply_printed(name, value, args) {
                Some(r) => return r,
                None => {},
            }
        }
        if str_eq(name, "lighten") {
            return apply_adjust(Adjustment::Lighten, value, args);
        }
        if str_eq(name, "darken") {
            return apply_adjust(Adjustment::Darken, value, args);
        }
        if str_eq(name, "saturate") {
            return apply_adjust(Adjustment::Saturate, value, args);
        }
        if str_eq(name, "desaturate") {
            return apply_adjust(Adjustment::Desaturate, value, args);
        }
        if str_eq(name, "invert") {
            return apply_invert(value);
        }
        if str_eq(name, "grayscale") {
            return apply_grayscale(value);
        }
        if str_eq(name, "auto_lightness") {
            return apply_adjust(Adjustment::AutoLightness, value, args);
        }
        if str_eq(name, "harmonize") {
            return apply_harmonize(value, args);
        }
        if str_eq(name, "blend") {
            return apply_blend(value, args);
        }
        if str_eq(name, "ensure_contrast") {
            return apply_contrast(value, args);
        }
        if str_eq(name, "set_red") {
            return apply_set_rgb(ColorChannel::Red, value, args);
        }
        if str_eq(name, "set_green") {
            return apply_set_rgb(ColorChannel::Green, value, args);
        }
        if str_eq(name, "set_blue") {
            return apply_set_rgb(ColorChannel::Blue, value, args);
        }
        if str_eq(name, "set_hue") {
            return apply_set_hsl(HslChannel::Hue, value, args);
        }
        if str_eq(name, "set_saturation") {
            return apply_set_hsl(HslChannel::Saturation, value, args);
        }
        if str_eq(name, "set_lightness") {
            return apply_set_hsl(HslChannel::Lightness, value, args);
        }
        Err(cat("unknown filter: ", name))
    }
}

} // verus!

verus! {

/// A blend without an amount is the blend at one half.
pub proof fn lemma_blend_defaults_to_half(value: Seq<char>, target: Seq<char>)
    ensures
        spec_apply("blend"@, value, seq![target]) == spec_apply("blend"@, value, seq![target, "0.5"@]),
{
    reveal_strlit("hex");
    reveal_strlit("hex_raw");
    reveal_strlit("rgb");
    reveal_strlit("rgb_css");
    reveal_strlit("rgba");
    reveal_strlit("hsl");
    reveal_strlit("hsla");
    reveal_strlit("hue");
    reveal_strlit("saturation");
    reveal_strlit("lightness");
    reveal_strlit("r");
    reveal_strlit("g");
    reveal_strlit("b");
    reveal_strlit("lighten");
    reveal_strlit("darken");
    reveal_strlit("saturate");
    reveal_strlit("desaturate");
    reveal_strlit("invert");
    reveal_strlit("grayscale");
    reveal_strlit("auto_lightness");
    reveal_strlit("blend");
    assert("blend"@.len() == 5 && "blend"@[0] == 'b' && "blend"@[1] == 'l');
    assert("b"@.len() == 1);
    lemma_special_filters("blend"@, value, seq![target]);
    lemma_special_filters("blend"@, value, seq![target, "0.5"@]);
    crate::num::lemma_tenth_literals();
    crate::num::lemma_half_within_tenths();
    assert(blend_amount(seq![target]) == Some("0.5"@));
    assert(blend_amount(seq![target, "0.5"@]) == Some("0.5"@));
}

/// The adjustment filters (`lighten`, `darken`, `saturate`, `desaturate`,
/// `auto_lightness`): a value that is not a colour gives the invalid-colour
/// error, and a missing or non-numeric amount acts as `0.1`.
pub proof fn lemma_adjustment_amount_defaults(name: Seq<char>, value: Seq<char>, args: Seq<Seq<char>>)
    requires
        name == "lighten"@ || name == "darken"@ || name == "saturate"@ || name == "desaturate"@
            || name == "auto_lightness"@,
    ensures
        !from_hex_aborts(value) && spec_from_hex(value) is None ==> spec_apply(name, value, args)
            == Some(Err::<ValueView, Seq<char>>(invalid_color(value))),
        args.len() == 0 || !float_syntax(args[0]) ==> spec_apply(name, value, args) == spec_apply(
            name,
            value,
            seq!["0.1"@],
        ),
{
    reveal_strlit("hex");
    reveal_strlit("hex_raw");
    reveal_strlit("rgb");
    reveal_strlit("rgb_css");
    reveal_strlit("rgba");
    reveal_strlit("hsl");
    reveal_strlit("hsla");
    reveal_strlit("hue");
    reveal_strlit("saturation");
    reveal_strlit("lightness");
    reveal_strlit("r");
    reveal_strlit("g");
    reveal_strlit("b");
    reveal_strlit("lighten");
    reveal_strlit("darken");
    reveal_strlit("saturate");
    reveal_strlit("desaturate");
    reveal_strlit("invert");
    reveal_strlit("grayscale");
    reveal_strlit("auto_lightness");
    crate::num::lemma_tenth_literals();
    assert(amount_text(seq!["0.1"@]) == "0.1"@);
    let k = if name == "lighten"@ {
        Adjustment::Lighten
    } else if name == "darken"@ {
        Adjustment::Darken
    } else if name == "saturate"@ {
        Adjustment::Saturate
    } else if name == "desaturate"@ {
        Adjustment::Desaturate
    } else {
        Adjustment::AutoLightness
    };
    assert(name.len() >= 6);
    if name == "lighten"@ {
        assert(name[0] != "hex_raw"@[0] && name[0] != "rgb_css"@[0]);
    }
    assert(name != "hex"@ && name != "hex_raw"@ && name != "rgb"@ && name != "rgb_css"@ && name
        != "rgba"@ && name != "hsl"@ && name != "hsla"@ && name != "hue"@ && name != "r"@ && name
        != "g"@ && name != "b"@);
    assert(name != "saturation"@ && name != "lightness"@) by {
        if name == "desaturate"@ {
            assert(name[0] != "saturation"@[0]);
        }
    }
    assert(name != "invert"@ && name != "grayscale"@) by {
        if name == "darken"@ {
            assert(name[0] != "invert"@[0]);
        }
    }
    if name == "lighten"@ {
    } else {
        assert(name != "lighten"@);
        if name == "darken"@ {
        } else {
            assert(name != "darken"@);
            if name == "saturate"@ {
            } else {
                assert(name != "saturate"@);
                if name == "desaturate"@ {
                } else {
                    assert(name != "desaturate"@);
                }
            }
        }
    }
    assert(spec_apply(name, value, args) == adjust(value, args, k));
    assert(spec_apply(name, value, seq!["0.1"@]) == adjust(value, seq!["0.1"@], k));
}

/// A blend amount below one tenth acts as `0.1`, and one above nine
/// tenths as `0.9`.
pub proof fn lemma_blend_amount_clamped(value: Seq<char>, target: Seq<char>, amount: Seq<char>)
    requires
        float_syntax(amount),
    ensures
        tenths_placement(amount) == Placement::Below ==> spec_apply("blend"@, value, seq![target, amount])
            == spec_apply("blend"@, value, seq![target, "0.1"@]),
        tenths_placement(amount) == Placement::Above ==> spec_apply("blend"@, value, seq![target, amount])
            == spec_apply("blend"@, value, seq![target, "0.9"@]),
{
    reveal_strlit("hex");
    reveal_strlit("hex_raw");
    reveal_strlit("rgb");
    reveal_strlit("rgb_css");
    reveal_strlit("rgba");
    reveal_strlit("hsl");
    reveal_strlit("hsla");
    reveal_strlit("hue");
    reveal_strlit("saturation");
    reveal_strlit("lightness");
    reveal_strlit("r");
    reveal_strlit("g");
    reveal_strlit("b");
    reveal_strlit("lighten");
    reveal_strlit("darken");
    reveal_strlit("saturate");
    reveal_strlit("desaturate");
    reveal_strlit("invert");
    reveal_strlit("grayscale");
    reveal_strlit("auto_lightness");
    reveal_strlit("blend");
    assert("blend"@.len() == 5 && "blend"@[0] == 'b' && "blend"@[1] == 'l');
    assert("b"@.len() == 1);
    lemma_special_filters("blend"@, value, seq![target, amount]);
    lemma_special_filters("blend"@, value, seq![target, "0.1"@]);
    lemma_special_filters("blend"@, value, seq![target, "0.9"@]);
    crate::num::lemma_tenth_literals();
    crate::num::lemma_bounds_within_tenths();
    assert(blend_amount(seq![target, "0.1"@]) == Some("0.1"@));
    assert(blend_amount(seq![target, "0.9"@]) == Some("0.9"@));
}

/// `invert` gives the colour whose every channel is 255 minus the same
/// channel of the input: reading the result back gives a colour `d` with
/// `d.r + c.r == 255`, `d.g + c.g == 255` and `d.b + c.b == 255`, and
/// inverting that result gives the input colour back.
pub proof fn lemma_invert_channels(value: Seq<char>, args: Seq<Seq<char>>)
    requires
        !from_hex_aborts(value),
    ensures
        spec_from_hex(value) matches Some(c) ==> (spec_apply("invert"@, value, args) matches Some(Ok(ValueView::Text(t)))
            && spec_from_hex(t) matches Some(d) && d.r + c.r == 255 && d.g + c.g == 255 && d.b
            + c.b == 255 && spec_apply("invert"@, t, args) == Some(Ok::<ValueView, Seq<char>>(ValueView::Text(c.spec_hex())))),
{
    reveal_strlit("hex");
    reveal_strlit("hex_raw");
    reveal_strlit("rgb");
    reveal_strlit("rgb_css");
    reveal_strlit("rgba");
    reveal_strlit("hsl");
    reveal_strlit("hsla");
    reveal_strlit("hue");
    reveal_strlit("saturation");
    reveal_strlit("lightness");
    reveal_strlit("r");
    reveal_strlit("g");
    reveal_strlit("b");
    reveal_strlit("lighten");
    reveal_strlit("darken");
    reveal_strlit("saturate");
    reveal_strlit("desaturate");
    reveal_strlit("invert");
    let name = "invert"@;
    assert(name.len() == 6 && name[0] == 'i');
    assert(name != "darken"@) by {
        assert("darken"@[0] == 'd');
    }
    if let Some(c) = spec_from_hex(value) {
        let d = spec_invert(c);
        assert(spec_apply(name, value, args) == Some(Ok::<ValueView, Seq<char>>(ValueView::Text(d.spec_hex()))));
        crate::color::types::lemma_hex_roundtrip(d);
        crate::color::types::lemma_hex_roundtrip(c);
        assert(spec_invert(d) == c);
        assert(spec_apply(name, d.spec_hex(), args) == Some(Ok::<ValueView, Seq<char>>(ValueView::Text(c.spec_hex()))));
    }
}

/// `grayscale` gives the grey whose three channels are all the mean of the
/// input's channels, rounded down.
pub proof fn lemma_grayscale_channels(value: Seq<char>, args: Seq<Seq<char>>)
    requires
        !from_hex_aborts(value),
    ensures
        spec_from_hex(value) matches Some(c) ==> (spec_apply("grayscale"@, value, args) matches Some(Ok(ValueView::Text(t)))
            && spec_from_hex(t) matches Some(d) && d.r == d.g && d.g == d.b && d.r == (c.r + c.g + c.b) / 3),
{
    reveal_strlit("hex");
    reveal_strlit("hex_raw");
    reveal_strlit("rgb");
    reveal_strlit("rgb_css");
    reveal_strlit("rgba");
    reveal_strlit("hsl");
    reveal_strlit("hsla");
    reveal_strlit("hue");
    reveal_strlit("saturation");
    reveal_strlit("lightness");
    reveal_strlit("r");
    reveal_strlit("g");
    reveal_strlit("b");
    reveal_strlit("lighten");
    reveal_strlit("darken");
    reveal_strlit("saturate");
    reveal_strlit("desaturate");
    reveal_strlit("invert");
    reveal_strlit("grayscale");
    reveal_strlit("auto_lightness");
    reveal_strlit("harmonize");
    reveal_strlit("blend");
    reveal_strlit("ensure_contrast");
    reveal_strlit("set_red");
    reveal_strlit("set_green");
    reveal_strlit("set_blue");
    let name = "grayscale"@;
    assert(name.len() == 9 && name[0] == 'g');
    assert(name != "lightness"@) by {
        assert("lightness"@[0] == 'l');
    }
    if let Some(c) = spec_from_hex(value) {
        let d = spec_grayscale(c);
        assert(spec_apply(name, value, args) == Some(Ok::<ValueView, Seq<char>>(ValueView::Text(d.spec_hex()))));
        crate::color::types::lemma_hex_roundtrip(d);
    }
}

/// `set_red`, `set_green` and `set_blue` give the input colour with that
/// one channel replaced by the argument and the other two kept.
pub proof fn lemma_set_channel(value: Seq<char>, v: Seq<char>)
    requires
        !from_hex_aborts(value),
        channel_byte(v) is Some,
    ensures
        spec_from_hex(value) matches Some(c) ==> {
            &&& spec_apply("set_red"@, value, seq![v]) matches Some(Ok(ValueView::Text(t)))
                && spec_from_hex(t) matches Some(d) && d.r == channel_byte(v).unwrap() && d.g == c.g && d.b == c.b
            &&& spec_apply("set_green"@, value, seq![v]) matches Some(Ok(ValueView::Text(t)))
                && spec_from_hex(t) matches Some(d) && d.g == channel_byte(v).unwrap() && d.r == c.r && d.b == c.b
            &&& spec_apply("set_blue"@, value, seq![v]) matches Some(Ok(ValueView::Text(t)))
                && spec_from_hex(t) matches Some(d) && d.b == channel_byte(v).unwrap() && d.r == c.r && d.g == c.g
        },
{
    let args = seq![v];
    let x = channel_byte(v).unwrap();
    if let Some(c) = spec_from_hex(value) {
        lemma_set_red_reads_no_color();
        lemma_set_green_reads_no_color();
        lemma_set_blue_reads_no_color();
        lemma_special_filters("set_red"@, value, args);
        lemma_special_filters("set_green"@, value, args);
        lemma_special_filters("set_blue"@, value, args);
        let dr = with_channel(c, ColorChannel::Red, x);
        let dg = with_channel(c, ColorChannel::Green, x);
        let db = with_channel(c, ColorChannel::Blue, x);
        crate::color::types::lemma_hex_roundtrip(dr);
        crate::color::types::lemma_hex_roundtrip(dg);
        crate::color::types::lemma_hex_roundtrip(db);
        assert(spec_set_rgb_filter(ColorChannel::Red, value, args) == Some(Ok::<ValueView, Seq<char>>(ValueView::Text(dr.spec_hex()))));
        assert(spec_set_rgb_filter(ColorChannel::Green, value, args) == Some(Ok::<ValueView, Seq<char>>(ValueView::Text(dg.spec_hex()))));
        assert(spec_set_rgb_filter(ColorChannel::Blue, value, args) == Some(Ok::<ValueView, Seq<char>>(ValueView::Text(db.spec_hex()))));
    }
}

proof fn lemma_set_red_reads_no_color()
    ensures
        !("set_red"@ == "hex"@ || "set_red"@ == "hex_raw"@ || "set_red"@ == "rgb"@ || "set_red"@ == "rgb_css"@ || "set_red"@ == "rgba"@ || "set_red"@ == "hsl"@ || "set_red"@ == "hsla"@ || "set_red"@ == "hue"@ || "set_red"@ == "saturation"@ || "set_red"@ == "lightness"@ || "set_red"@ == "r"@ || "set_red"@ == "g"@ || "set_red"@ == "b"@ || "set_red"@ == "lighten"@ || "set_red"@ == "darken"@ || "set_red"@ == "saturate"@ || "set_red"@ == "desaturate"@ || "set_red"@ == "invert"@ || "set_red"@ == "grayscale"@ || "set_red"@ == "auto_lightness"@),
{
    reveal_strlit("set_red");
    reveal_strlit("hex");
    reveal_strlit("hex_raw");
    reveal_strlit("rgb");
    reveal_strlit("rgb_css");
    reveal_strlit("rgba");
    reveal_strlit("hsl");
    reveal_strlit("hsla");
    reveal_strlit("hue");
    reveal_strlit("saturation");
    reveal_strlit("lightness");
    reveal_strlit("r");
    reveal_strlit("g");
    reveal_strlit("b");
    reveal_strlit("lighten");
    reveal_strlit("darken");
    reveal_strlit("saturate");
    reveal_strlit("desaturate");
    reveal_strlit("invert");
    reveal_strlit("grayscale");
    reveal_strlit("auto_lightness");
    assert("set_red"@[0] == 's' && "set_red"@[1] == 'e');
    assert("saturate"@[1] == 'a' && "saturation"@[1] == 'a');
}

proof fn lemma_set_green_reads_no_color()
    ensures
        !("set_green"@ == "hex"@ || "set_green"@ == "hex_raw"@ || "set_green"@ == "rgb"@ || "set_green"@ == "rgb_css"@ || "set_green"@ == "rgba"@ || "set_green"@ == "hsl"@ || "set_green"@ == "hsla"@ || "set_green"@ == "hue"@ || "set_green"@ == "saturation"@ || "set_green"@ == "lightness"@ || "set_green"@ == "r"@ || "set_green"@ == "g"@ || "set_green"@ == "b"@ || "set_green"@ == "lighten"@ || "set_green"@ == "darken"@ || "set_green"@ == "saturate"@ || "set_green"@ == "desaturate"@ || "set_green"@ == "invert"@ || "set_green"@ == "grayscale"@ || "set_green"@ == "auto_lightness"@),
{
    reveal_strlit("set_green");
    reveal_strlit("hex");
    reveal_strlit("hex_raw");
    reveal_strlit("rgb");
    reveal_strlit("rgb_css");
    reveal_strlit("rgba");
    reveal_strlit("hsl");
    reveal_strlit("hsla");
    reveal_strlit("hue");
    reveal_strlit("saturation");
    reveal_strlit("lightness");
    reveal_strlit("r");
    reveal_strlit("g");
    reveal_strlit("b");
    reveal_strlit("lighten");
    reveal_strlit("darken");
    reveal_strlit("saturate");
    reveal_strlit("desaturate");
    reveal_strlit("invert");
    reveal_strlit("grayscale");
    reveal_strlit("auto_lightness");
    assert("set_green"@[0] == 's' && "set_green"@[1] == 'e');
    assert("saturate"@[1] == 'a' && "saturation"@[1] == 'a');
}

proof fn lemma_set_blue_reads_no_color()
    ensures
        !("set_blue"@ == "hex"@ || "set_blue"@ == "hex_raw"@ || "set_blue"@ == "rgb"@ || "set_blue"@ == "rgb_css"@ || "set_blue"@ == "rgba"@ || "set_blue"@ == "hsl"@ || "set_blue"@ == "hsla"@ || "set_blue"@ == "hue"@ || "set_blue"@ == "saturation"@ || "set_blue"@ == "lightness"@ || "set_blue"@ == "r"@ || "set_blue"@ == "g"@ || "set_blue"@ == "b"@ || "set_blue"@ == "lighten"@ || "set_blue"@ == "darken"@ || "set_blue"@ == "saturate"@ || "set_blue"@ == "desaturate"@ || "set_blue"@ == "invert"@ || "set_blue"@ == "grayscale"@ || "set_blue"@ == "auto_lightness"@),
{
    reveal_strlit("set_blue");
    reveal_strlit("hex");
    reveal_strlit("hex_raw");
    reveal_strlit("rgb");
    reveal_strlit("rgb_css");
    reveal_strlit("rgba");
    reveal_strlit("hsl");
    reveal_strlit("hsla");
    reveal_strlit("hue");
    reveal_strlit("saturation");
    reveal_strlit("lightness");
    reveal_strlit("r");
    reveal_strlit("g");
    reveal_strlit("b");
    reveal_strlit("lighten");
    reveal_strlit("darken");
    reveal_strlit("saturate");
    reveal_strlit("desaturate");
    reveal_strlit("invert");
    reveal_strlit("grayscale");
    reveal_strlit("auto_lightness");
    assert("set_blue"@[0] == 's' && "set_blue"@[1] == 'e');
    assert("saturate"@[1] == 'a' && "saturation"@[1] == 'a');
}

} // verus!

