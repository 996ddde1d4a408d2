//! The filters, with the floating-point work they hand out done here the
//! way the application does it.
use mcu_material_color::contrast::Contrast;
use mcu_material_color::hct::Hct;
use rizzoo::color::types::Rgb;
use rizzoo::template::filters::{Adjustment, FilterRegistry, FilterValue, FloatRequest, HslChannel};

fn to_tuple_hsl(c: &Rgb) -> (f64, f64, f64) {
    let r = c.r as f64 / 255.0;
    let g = c.g as f64 / 255.0;
    let b = c.b as f64 / 255.0;
    let max = r.max(g).max(b);
    let min = r.min(g).min(b);
    let delta = max - min;
    let l = (max + min) / 2.0;
    if delta == 0.0 {
        return (0.0, 0.0, l * 100.0);
    }
    let s = delta / (1.0 - (2.0 * l - 1.0).abs());
    let h = if max == r {
        60.0 * (((g - b) / delta).rem_euclid(6.0))
    } else if max == g {
        60.0 * (((b - r) / delta) + 2.0)
    } else {
        60.0 * (((r - g) / delta) + 4.0)
    };
    (h.clamp(0.0, 360.0), (s * 100.0).clamp(0.0, 100.0), (l * 100.0).clamp(0.0, 100.0))
}

fn hue_to_rgb(p: f64, q: f64, mut t: f64) -> f64 {
    if t < 0.0 {
        t += 1.0;
    }
    if t > 1.0 {
        t -= 1.0;
    }
    if t < 1.0 / 6.0 {
        return p + (q - p) * 6.0 * t;
    }
    if t < 1.0 / 2.0 {
        return q;
    }
    if t < 2.0 / 3.0 {
        return p + (q - p) * (2.0 / 3.0 - t) * 6.0;
    }
    p
}

fn from_hsl_tuple(h: f64, s: f64, l: f64) -> Rgb {
    let s = s / 100.0;
    let l = l / 100.0;
    if s == 0.0 {
        let v = (l * 255.0).round().clamp(0.0, 255.0) as u8;
        return Rgb::rgb(v, v, v);
    }
    let q = if l < 0.5 { l * (1.0 + s) } else { l + s - l * s };
    let p = 2.0 * l - q;
    let h = h / 360.0;
    let channel = |t: f64| (hue_to_rgb(p, q, t) * 255.0).round().clamp(0.0, 255.0) as u8;
    Rgb::rgb(channel(h + 1.0 / 3.0), channel(h), channel(h - 1.0 / 3.0))
}

fn contrast_ratio(fg: &Rgb, bg: &Rgb) -> f32 {
    let tone = |c: &Rgb| Hct::from_int(c.to_argb_u32()).tone();
    Contrast::ratio_of_tones(tone(fg), tone(bg)) as f32
}

fn adjusted(kind: Adjustment, c: &Rgb, amount: f64) -> Rgb {
    let (h, s, l) = to_tuple_hsl(c);
    let step = amount * 100.0;
    match kind {
        Adjustment::Lighten => from_hsl_tuple(h, s, (l + step).clamp(0.0, 100.0)),
        Adjustment::Darken => from_hsl_tuple(h, s, (l - step).clamp(0.0, 100.0)),
        Adjustment::Saturate => from_hsl_tuple(h, (s + step).clamp(0.0, 100.0), l),
        Adjustment::Desaturate => from_hsl_tuple(h, (s - step).clamp(0.0, 100.0), l),
        Adjustment::AutoLightness => {
            let new_l = if l < 50.0 { (l + step).clamp(0.0, 100.0) } else { (l - step).clamp(0.0, 100.0) };
            from_hsl_tuple(h, s, new_l)
        }
    }
}

fn ensure_contrast(fg: &Rgb, bg: &Rgb, target: f32) -> Rgb {
    if contrast_ratio(fg, bg) >= target {
        return *fg;
    }
    let (h, s, mut l) = to_tuple_hsl(fg);
    let bg_l = to_tuple_hsl(bg).2;
    let trend = if l < bg_l { -5.0 } else { 5.0 };
    let mut last = *fg;
    for _ in 0..20 {
        l = (l + trend).clamp(0.0, 100.0);
        let candidate = from_hsl_tuple(h, s, l);
        last = candidate;
        if contrast_ratio(&candidate, bg) >= target {
            return candidate;
        }
    }
    last
}

fn answer(request: &FloatRequest) -> String {
    match request {
        FloatRequest::Number(t) => format!("{}", t.parse::<f64>().unwrap()),
        FloatRequest::Hsl(c) => {
            let (h, s, l) = to_tuple_hsl(c);
            format!("hsl({:.0}, {:.0}%, {:.0}%)", h, s, l)
        }
        FloatRequest::Hsla(c, a) => {
            let (h, s, l) = to_tuple_hsl(c);
            format!("hsla({:.0}, {:.0}%, {:.0}%, {})", h, s, l, a)
        }
        FloatRequest::Channel(k, c) => {
            let (h, s, l) = to_tuple_hsl(c);
            let v = match k {
                HslChannel::Hue => h,
                HslChannel::Saturation => s,
                HslChannel::Lightness => l,
            };
            format!("{:.0}", v)
        }
        FloatRequest::Adjust(k, c, a) => adjusted(*k, c, a.parse::<f64>().unwrap()).to_hex(),
        FloatRequest::EnsureContrast(f, b, t) => ensure_contrast(f, b, t.parse::<f32>().unwrap()).to_hex(),
        FloatRequest::SetHsl(k, c, v) => {
            let (h, s, l) = to_tuple_hsl(c);
            let v = v.parse::<f64>().unwrap();
            match k {
                HslChannel::Hue => from_hsl_tuple(v.clamp(0.0, 360.0), s, l),
                HslChannel::Saturation => from_hsl_tuple(h, v.clamp(0.0, 100.0), l),
                HslChannel::Lightness => from_hsl_tuple(h, s, v.clamp(0.0, 100.0)),
            }
            .to_hex()
        }
    }
}

fn settle(v: FilterValue) -> String {
    match v {
        FilterValue::Text(t) => t,
        FilterValue::Pending(r) => answer(&r),
    }
}

fn apply_with(name: &str, value: &str, args: &[String]) -> String {
    settle(FilterRegistry::apply(name, value, args).unwrap())
}

fn apply(name: &str, value: &str) -> String {
    apply_with(name, value, &[])
}

#[test]
fn hex_raw() {
    assert_eq!(apply("hex_raw", "#ff8000"), "ff8000");
}

#[test]
fn rgb() {
    assert_eq!(apply("rgb", "#ff8000"), "rgb(255, 128, 0)");
}

#[test]
fn rgba_default_alpha() {
    assert_eq!(apply("rgba", "#ff8000"), "rgba(255, 128, 0, 1.0)");
}

#[test]
fn rgba_custom_alpha() {
    assert_eq!(apply_with("rgba", "#ff8000", &["0.5".into()]), "rgba(255, 128, 0, 0.5)");
}

#[test]
fn hsl() {
    assert_eq!(apply("hsl", "#ff0000"), "hsl(0, 100%, 50%)");
}

#[test]
fn hsla_default_alpha() {
    assert_eq!(apply("hsla", "#ff0000"), "hsla(0, 100%, 50%, 1.0)");
}

#[test]
fn hsla_custom_alpha() {
    assert_eq!(apply_with("hsla", "#ff0000", &["0.5".into()]), "hsla(0, 100%, 50%, 0.5)");
}

#[test]
fn hue_saturation_lightness() {
    assert_eq!(apply("hue", "#ff0000"), "0");
    assert_eq!(apply("saturation", "#ff0000"), "100");
    assert_eq!(apply("lightness", "#ff0000"), "50");
}

#[test]
fn channels() {
    assert_eq!(apply("r", "#ff8000"), "255");
    assert_eq!(apply("g", "#ff8000"), "128");
    assert_eq!(apply("b", "#ff8000"), "0");
}

#[test]
fn invert() {
    assert_eq!(apply("invert", "#ff0000"), "#00ffff");
}

#[test]
fn grayscale() {
    assert_eq!(apply("grayscale", "#ff8000"), "#7f7f7f");
}

#[test]
fn lighten_black() {
    assert_eq!(apply("lighten", "#000000"), "#1a1a1a");
}

#[test]
fn darken_white() {
    assert_eq!(apply("darken", "#ffffff"), "#e6e6e6");
}

#[test]
fn lighten_with_explicit_amount() {
    let out = apply_with("lighten", "#000000", &["0.5".into()]);
    assert_ne!(out, "#000000");
    assert!(Rgb::from_hex(&out).is_some());
}

#[test]
fn saturate_desaturate_move() {
    let gray = "#808080";
    let sat = apply("saturate", gray);
    let desat = apply("desaturate", "#ff0000");
    assert_ne!(sat, gray);
    assert_ne!(desat, "#ff0000");
}

#[test]
fn blend_endpoints() {
    let a = apply_with("blend", "#ff0000", &["#00ff00".into(), "0.0".into()]);
    assert_ne!(a, "#ff0000", "0.0 clamps up to 0.10 minimum");
    let b = apply_with("blend", "#ff0000", &["#00ff00".into(), "1.0".into()]);
    assert_ne!(b, "#00ff00", "1.0 is capped below target");
}

#[test]
fn blend_defaults_to_half() {
    let d = apply_with("blend", "#ff0000", &["#00ff00".into()]);
    let e = apply_with("blend", "#ff0000", &["#00ff00".into(), "0.5".into()]);
    assert_eq!(d, e, "1-arg blend must default to 50/50");
}

#[test]
fn ensure_contrast_already_met_unchanged() {
    let out = apply_with("ensure_contrast", "#ffffff", &["#000000".into(), "4.5".into()]);
    assert_eq!(out, "#ffffff");
}

#[test]
fn ensure_contrast_lifts_fg() {
    let out = apply_with("ensure_contrast", "#cccccc", &["#ffffff".into(), "7.0".into()]);
    assert_ne!(out, "#cccccc");
    let fg = Rgb::from_hex(&out).unwrap();
    let bg = Rgb::from_hex("#ffffff").unwrap();
    assert!(contrast_ratio(&fg, &bg) >= 7.0);
}

#[test]
fn harmonize_changes_hue_toward_target() {
    let out = apply_with("harmonize", "#ff0000", &["#00ff00".into()]);
    assert!(Rgb::from_hex(&out).is_some());
    assert_ne!(out, "#ff0000");
}

#[test]
fn auto_lightness_darkens_light_color() {
    let out = apply("auto_lightness", "#ffffff");
    assert_ne!(out, "#ffffff");
}

#[test]
fn invalid_hex_falls_back_to_input() {
    assert_eq!(apply("hex_raw", "not-a-color"), "not-a-color");
}

#[test]
fn unknown_filter_errors() {
    assert!(FilterRegistry::apply("nope", "#ff0000", &[]).is_err());
}

#[test]
fn hex_filter_prints_hash_form() {
    assert_eq!(apply("hex", "FF8000"), "#ff8000");
    assert_eq!(apply("hex", "plain"), "plain");
}

#[test]
fn rgb_css_matches_rgb() {
    assert_eq!(apply("rgb_css", "#0a141e"), "rgb(10, 20, 30)");
}

#[test]
fn lighten_hands_out_adjustment_request() {
    match FilterRegistry::apply("lighten", "#000000", &["0.25".into()]).unwrap() {
        FilterValue::Pending(FloatRequest::Adjust(Adjustment::Lighten, c, a)) => {
            assert_eq!(c, Rgb::rgb(0, 0, 0));
            assert_eq!(a, "0.25");
        }
        _ => panic!("expected an adjustment request"),
    }
    match FilterRegistry::apply("darken", "#ffffff", &["much".into()]).unwrap() {
        FilterValue::Pending(FloatRequest::Adjust(Adjustment::Darken, _, a)) => assert_eq!(a, "0.1"),
        _ => panic!("expected an adjustment request"),
    }
}

#[test]
fn filter_error_messages() {
    let err = |name: &str, value: &str, args: &[&str]| {
        let args: Vec<String> = args.iter().map(|s| s.to_string()).collect();
        match FilterRegistry::apply(name, value, &args) {
            Err(e) => e,
            Ok(_) => panic!("expected an error"),
        }
    };
    assert_eq!(err("nope", "#ff0000", &[]), "unknown filter: nope");
    assert_eq!(err("invert", "zz", &[]), "invalid hex color: zz");
    assert_eq!(err("harmonize", "#ff0000", &[]), "expected target color argument");
    assert_eq!(err("blend", "#ff0000", &[]), "blend requires target color");
    assert_eq!(err("blend", "#ff0000", &["#00ff00", "lots"]), "invalid blend amount");
    assert_eq!(err("ensure_contrast", "#ff0000", &["#000000"]), "ensure_contrast requires background color and target ratio");
    assert_eq!(err("ensure_contrast", "#ff0000", &["#000000", "x"]), "invalid contrast ratio");
    assert_eq!(err("ensure_contrast", "#ff0000", &["bad", "4.5"]), "invalid hex color: bad");
}

#[test]
fn blend_amount_is_clamped_to_tenths() {
    let low = apply_with("blend", "#ff0000", &["#00ff00".into(), "0.0".into()]);
    let tenth = apply_with("blend", "#ff0000", &["#00ff00".into(), "0.1".into()]);
    assert_eq!(low, tenth);
    let high = apply_with("blend", "#ff0000", &["#00ff00".into(), "5".into()]);
    let nine = apply_with("blend", "#ff0000", &["#00ff00".into(), "0.9".into()]);
    assert_eq!(high, nine);
}

#[test]
fn would_abort_on_split_character() {
    assert!(FilterRegistry::would_abort("hex", "aé345", &[]));
    assert!(!FilterRegistry::would_abort("hex", "#ff0000", &[]));
    assert!(!FilterRegistry::would_abort("nope", "aé345", &[]));
}

#[test]
fn set_rgb_channels() {
    assert_eq!(apply_with("set_red", "#000000", &["255".into()]), "#ff0000");
    assert_eq!(apply_with("set_green", "#102030", &["0".into()]), "#100030");
    assert_eq!(apply_with("set_blue", "#102030", &["16".into()]), "#102010");
}

#[test]
fn set_hsl_channels() {
    assert_eq!(apply_with("set_lightness", "#ff0000", &["100".into()]), "#ffffff");
    assert_eq!(apply_with("set_saturation", "#ff0000", &["0".into()]), "#808080");
    assert_eq!(apply_with("set_hue", "#ff0000", &["120".into()]), "#00ff00");
    assert_eq!(apply_with("set_hue", "#ff0000", &["400".into()]), apply_with("set_hue", "#ff0000", &["360".into()]));
}

#[test]
fn set_channel_errors() {
    let err = |name: &str, value: &str, args: &[&str]| {
        let args: Vec<String> = args.iter().map(|a| a.to_string()).collect();
        match FilterRegistry::apply(name, value, &args) {
            Err(e) => e,
            Ok(_) => panic!("expected an error"),
        }
    };
    assert_eq!(err("set_red", "#000000", &[]), "expected channel value");
    assert_eq!(err("set_red", "#000000", &["256"]), "invalid channel value: 256");
    assert_eq!(err("set_green", "#000000", &["-1"]), "invalid channel value: -1");
    assert_eq!(err("set_hue", "#000000", &["abc"]), "invalid channel value: abc");
    assert_eq!(err("set_blue", "zz", &["1"]), "invalid hex color: zz");
}

#[test]
fn adjustment_amount_defaults_to_a_tenth() {
    for name in ["lighten", "darken", "saturate", "desaturate", "auto_lightness"] {
        let tenth = apply_with(name, "#336699", &["0.1".into()]);
        assert_eq!(apply_with(name, "#336699", &[]), tenth);
        assert_eq!(apply_with(name, "#336699", &["lots".into()]), tenth);
        match FilterRegistry::apply(name, "zz", &[]) {
            Err(e) => assert_eq!(e, "invalid hex color: zz"),
            Ok(_) => panic!("expected an error"),
        }
    }
}
