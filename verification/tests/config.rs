//! Configuration, command line, merging and validation.
use rizzoo::cli::Cli;
use rizzoo::color::types::Rgb;
use rizzoo::config::{Configuration, Contrast, CustomColor, PreferMode, Style, TemplateConfiguration};
use rizzoo::export::generate::{plan_link_in, render_one, render_one_in, LinkPlan};
use rizzoo::paths::Paths;

fn default_cli() -> Cli {
    Cli {
        image: None,
        image_url: None,
        color: None,
        pick: None,
        prefer: None,
        open_picker: false,
        render: false,
        output: false,
        output_to: None,
        preview: false,
        dry_run: false,
        silent: false,
        style: Style::TonalSpot,
        light: false,
        contrast: Contrast::Standard,
        blend_style: None,
        blend_ratio: "0.5".to_string(),
        wallpaper: false,
        reload_scheme: false,
        watch: false,
        init: false,
        init_overwrite: false,
    }
}

fn tonalspot_cli() -> Cli {
    let mut c = default_cli();
    c.preview = true;
    c
}

fn custom(color: &str, blend: bool) -> CustomColor {
    CustomColor { color: color.to_string(), blend }
}

fn entry(template: &str, output: &str, enabled: bool) -> TemplateConfiguration {
    TemplateConfiguration { template: template.to_string(), output: output.to_string(), post_hook: None, enabled }
}

#[test]
fn harmonize_no_custom_colors() {
    let cfg = Configuration::default();
    assert!(cfg.harmonize_custom_colors(&Rgb::rgb(1, 2, 3)).is_empty());
}

#[test]
fn harmonize_custom_colors_blend_flag() {
    let mut cfg = Configuration::default();
    cfg.custom_colors = Some(vec![
        ("accent".to_string(), custom("#e06c75", true)),
        ("highlight".to_string(), custom("#61afef", false)),
    ]);
    let seed = Rgb::rgb(10, 20, 30);
    let out = cfg.harmonize_custom_colors(&seed);
    let get = |n: &str| out.iter().find(|(k, _)| k == n).map(|(_, c)| *c).unwrap();
    assert_eq!(get("highlight"), Rgb::from_hex("#61afef").unwrap());
    assert_ne!(get("accent"), Rgb::from_hex("#e06c75").unwrap());
}

#[test]
fn harmonize_skips_colors_that_do_not_read() {
    let mut cfg = Configuration::default();
    cfg.custom_colors = Some(vec![
        ("bad".to_string(), custom("nope", false)),
        ("good".to_string(), custom("#102030", false)),
    ]);
    let out = cfg.harmonize_custom_colors(&Rgb::rgb(0, 0, 0));
    assert_eq!(out.len(), 1);
    assert_eq!(out[0].0, "good");
    assert_eq!(out[0].1, Rgb::rgb(16, 32, 48));
}

#[test]
fn contrast_multiplier() {
    assert_eq!(Contrast::Standard.multiplier().parse::<f64>().unwrap(), 0.0);
    assert_eq!(Contrast::Medium.multiplier().parse::<f64>().unwrap(), 0.5);
    assert_eq!(Contrast::High.multiplier().parse::<f64>().unwrap(), 1.0);
}

#[test]
fn merge_applies_config_when_cli_is_default() {
    let mut cfg = Configuration::default();
    cfg.style = Some(Style::Vibrant);
    cfg.light = Some(true);
    cfg.contrast = Some(Contrast::High);
    cfg.pick = Some(2);
    let merged = cfg.merge(&tonalspot_cli());
    assert_eq!(merged.style, Style::Vibrant);
    assert!(merged.light);
    assert_eq!(merged.contrast, Contrast::High);
    assert_eq!(merged.pick, Some(2));
}

#[test]
fn merge_keeps_explicit_cli_over_config() {
    let mut cfg = Configuration::default();
    cfg.style = Some(Style::Vibrant);
    cfg.contrast = Some(Contrast::High);
    cfg.pick = Some(2);
    let mut cli = tonalspot_cli();
    cli.style = Style::Neutral;
    cli.contrast = Contrast::Medium;
    let merged = cfg.merge(&cli);
    assert_eq!(merged.style, Style::Neutral);
    assert_eq!(merged.contrast, Contrast::Medium);
    assert_eq!(merged.pick, Some(2));
}

#[test]
fn merge_config_with_cli() {
    let mut cfg = Configuration::default();
    cfg.style = Some(Style::Vibrant);
    cfg.light = Some(true);
    cfg.contrast = Some(Contrast::High);
    cfg.pick = Some(2);
    let mut cli = tonalspot_cli();
    cli.color = Some("#ff0000".to_string());
    let merged = cfg.merge(&cli);
    assert_eq!(merged.style, Style::Vibrant);
    assert!(merged.light);
    assert_eq!(merged.contrast, Contrast::High);
    assert_eq!(merged.pick, Some(2));
    assert_eq!(merged.color.as_deref(), Some("#ff0000"));
}

#[test]
fn merge_prefer_only_with_an_image() {
    let mut cfg = Configuration::default();
    cfg.prefer = Some(PreferMode::Darkness);
    let merged = cfg.merge(&tonalspot_cli());
    assert_eq!(merged.prefer, None);
    let mut cli = tonalspot_cli();
    cli.image = Some("wall.png".to_string());
    let merged = cfg.merge(&cli);
    assert_eq!(merged.prefer, Some(PreferMode::Darkness));
}

#[test]
fn render_one_missing_entry_errors() {
    let paths = Paths::from_dirs("/tmp/rizzoo-test/cache", "/tmp/rizzoo-test/config");
    let cfg = Configuration::default();
    let err = match render_one(&paths, &cfg.templates, "nope") {
        Err(e) => e,
        Ok(_) => panic!("expected an error"),
    };
    assert!(err.message().contains("nope"));
    assert_eq!(err.message(), "entry 'nope' not found in config");
}

#[test]
fn render_one_plans_links() {
    let paths = Paths::from_dirs("/c", "/k");
    let templates = vec![
        ("alacritty".to_string(), entry("colors.toml", "/home/u/.config/alacritty/colors.toml", true)),
        ("old".to_string(), entry("old.tmpl", "/x", false)),
    ];
    match render_one(&paths, &templates, "alacritty") {
        Ok(LinkPlan::Link { source, target, post_hook }) => {
            assert_eq!(source, "/c/colors.toml");
            assert_eq!(target, "/home/u/.config/alacritty/colors.toml");
            assert_eq!(post_hook, None);
        }
        _ => panic!("expected a link"),
    }
    assert!(matches!(render_one(&paths, &templates, "old"), Ok(LinkPlan::Skip)));
}

#[test]
fn style_and_contrast_names() {
    assert_eq!(Style::TonalSpot.as_str(), "tonal-spot");
    assert_eq!(Style::FruitSalad.as_str(), "fruit-salad");
    assert_eq!(Contrast::High.as_str(), "high");
    assert_eq!(PreferMode::Saturation.as_str(), "saturation");
    assert_eq!(Style::default(), Style::TonalSpot);
    assert_eq!(Contrast::default(), Contrast::Standard);
}

#[test]
fn validate_needs_something_to_do() {
    let cli = default_cli();
    assert!(cli.validate().unwrap_err().starts_with("what to do?"));
    let mut init = default_cli();
    init.init = true;
    assert!(init.validate().is_ok());
}

#[test]
fn validate_prefer_needs_image() {
    let mut cli = tonalspot_cli();
    cli.prefer = Some(PreferMode::Lightness);
    assert_eq!(cli.validate().unwrap_err(), "--prefer needs an image (-i or -u)");
}

#[test]
fn validate_rejects_bad_color_and_ratio() {
    let mut cli = default_cli();
    cli.color = Some("zzz".to_string());
    assert_eq!(cli.validate().unwrap_err(), "invalid format --color '#zzz'");
    let mut cli = tonalspot_cli();
    cli.blend_ratio = "0.95".to_string();
    assert_eq!(cli.validate().unwrap_err(), "--blend-ratio must be between 0.1 and 0.9");
    cli.blend_ratio = "0.05".to_string();
    assert!(cli.validate().is_err());
    cli.blend_ratio = "0.9".to_string();
    assert!(cli.validate().is_ok());
    cli.blend_ratio = "NaN".to_string();
    assert_eq!(cli.validate().unwrap_err(), "--blend-ratio must be between 0.1 and 0.9");
    cli.blend_ratio = "inf".to_string();
    assert!(cli.validate().is_err());
}

#[test]
fn render_one_resolves_home_relative_outputs() {
    let paths = Paths::from_dirs("/c", "/k");
    let templates = vec![
        ("kitty".to_string(), entry("kitty.conf", "~/.config/kitty/colors.conf", true)),
        ("kitty".to_string(), entry("kitty2.conf", "$HOME/k.conf", true)),
    ];
    match render_one_in(&paths, &templates, "kitty", Some("/home/u")) {
        Ok(LinkPlan::Link { source, target, .. }) => {
            assert_eq!(source, "/c/kitty2.conf");
            assert_eq!(target, "/home/u/k.conf");
        }
        _ => panic!("expected a link"),
    }
    match plan_link_in(&templates[0].1, &paths, None) {
        LinkPlan::Link { target, .. } => assert_eq!(target, "~/.config/kitty/colors.conf"),
        LinkPlan::Skip => panic!("expected a link"),
    }
    assert!(render_one_in(&paths, &templates, "none", None).is_err());
}
