//! Colours, paths, cache keys, downloads, wallpaper and run decisions.
use rizzoo::cache::{cache_key, harmony_key, hex_string};
use rizzoo::color::base16::Base16Generator;
use rizzoo::color::blend::{blend_colors, blend_roles, lerp_rgb};
use rizzoo::color::roles::RoleExtractor;
use rizzoo::color::scheme::SchemeGenerator;
use rizzoo::cli::Cli;
use rizzoo::color::apca::ApcaLevel;
use rizzoo::color::extract::ColorExtractor;
use rizzoo::color::types::Rgb;
use rizzoo::config::{Configuration, Contrast, PreferMode, Style, WallpaperConfiguration};
use rizzoo::engine::{
    build_scheme, from_cache, link_choice, must_extract_cached_seeds, scheme_from_color, scheme_from_seeds, scheme_source, seed_choice,
    should_set_wallpaper, LinkChoice, SchemeSource, SeedChoice,
};
use rizzoo::error::LRatio;
use rizzoo::export::generate::{preview, preview_rows, resolve_path_in};
use rizzoo::image::decode::{is_image, is_image_extension_text, pick_from_dir};
use rizzoo::image::download::{cached_url_candidates, cached_url_path, guess_extension, url_hash};
use rizzoo::paths::{join_path, Paths};
use rizzoo::watch::{on_event, WatchAction, WatchEvent};
use rizzoo::wallpaper::{finder_script, is_enabled, linux_setter, replace, Setter, WallpaperAction};

fn cli() -> Cli {
    Cli {
        image: None,
        image_url: None,
        color: None,
        pick: None,
        prefer: None,
        open_picker: false,
        render: false,
        output: false,
        output_to: None,
        preview: true,
        dry_run: false,
        silent: false,
        style: Style::TonalSpot,
        light: false,
        contrast: Contrast::Standard,
        blend_style: None,
        blend_ratio: "0.5".to_string(),
        wallpaper: false,
        reload_scheme: false,
        watch: false,
        init: false,
        init_overwrite: false,
    }
}

#[test]
fn hex_round_trip() {
    for c in [Rgb::rgb(0, 0, 0), Rgb::rgb(255, 128, 1), Rgb::rgb(16, 32, 48)] {
        assert_eq!(Rgb::from_hex(&c.to_hex()), Some(c));
        assert_eq!(Rgb::from_hex(&c.to_raw_hex()), Some(c));
    }
}

#[test]
fn from_hex_cases() {
    assert_eq!(Rgb::from_hex("#FF8000"), Some(Rgb::rgb(255, 128, 0)));
    assert_eq!(Rgb::from_hex("##ff8000"), Some(Rgb::rgb(255, 128, 0)));
    assert_eq!(Rgb::from_hex("ff80"), None);
    assert_eq!(Rgb::from_hex("gg8000"), None);
    assert!(Rgb::from_hex_would_abort("aé345"));
    assert!(!Rgb::from_hex_would_abort("#123456"));
}

#[test]
fn css_forms() {
    let c = Rgb::rgb(10, 20, 30);
    assert_eq!(c.to_css_rgb(), "rgb(10, 20, 30)");
    assert_eq!(c.to_css_rgba("0.5"), "rgba(10, 20, 30, 0.5)");
    assert_eq!(c.to_raw_rgb(), "10, 20, 30");
}

#[test]
fn argb_round_trip() {
    let c = Rgb::rgb(1, 2, 3);
    assert_eq!(c.to_argb_u32(), 0xFF010203);
    assert_eq!(Rgb::from_argb_u32(0x12010203), c);
}

#[test]
fn apca_levels() {
    assert!(ApcaLevel::Diamond.is_compliant());
    assert!(ApcaLevel::Platinum.is_compliant());
    assert!(!ApcaLevel::Gold.is_compliant());
    assert_eq!(ApcaLevel::Silver.label(), "Silver");
    assert!(ApcaLevel::Bronze < ApcaLevel::Diamond);
}

#[test]
fn paths_join_like_pathbuf() {
    assert_eq!(join_path("/a", "b"), "/a/b");
    assert_eq!(join_path("/a/", "b"), "/a/b");
    assert_eq!(join_path("/a", "/b"), "/b");
    assert_eq!(join_path("", "b"), "b");
    let p = Paths::from_dirs("/home/u/.cache/rizzoo", "/home/u/.config/rizzoo");
    assert_eq!(p.output, "/home/u/.cache/rizzoo/colors.json");
    assert_eq!(p.templates_dir, "/home/u/.config/rizzoo/templates");
    assert_eq!(p.cache_colorscheme("abc"), "/home/u/.cache/rizzoo/schemes/abc.json");
}

#[test]
fn hex_of_bytes() {
    assert_eq!(hex_string(&[0x00, 0x0f, 0xa0, 0xff]), "000fa0ff");
}

#[test]
fn url_hash_is_sha256_hex() {
    assert_eq!(url_hash(""), "e3b0c44298fc1c149afbf4c8996fb92427ae41e4649b934ca495991b7852b855");
    assert_eq!(url_hash("abc"), "ba7816bf8f01cfea414140de5dae2223b00361a396177a9cb410ff61f20015ad");
}

#[test]
fn earlier_download_names_use_md5() {
    let p = Paths::from_dirs("/c", "/k");
    assert_eq!(
        rizzoo::image::loader::download_target("", b"GIF89a", &p),
        "/c/url-images/d41d8cd98f00b204e9800998ecf8427e.gif"
    );
}

#[test]
fn download_target_is_hash_and_extension() {
    let p = Paths::from_dirs("/c", "/k");
    assert_eq!(
        rizzoo::image::download::download_target("abc", b"BM..", &p),
        "/c/url-images/ba7816bf8f01cfea414140de5dae2223b00361a396177a9cb410ff61f20015ad.bmp"
    );
}

#[test]
fn cache_key_digests_its_material() {
    let a = cache_key("tonal-spot:standard", false, 3, b"abc");
    let b = cache_key("tonal-spot:standard", true, 3, b"abc");
    assert_eq!(a.len(), 64);
    assert_ne!(a, b);
    assert_eq!(a, cache_key("tonal-spot:standard", false, 3, b"abc"));
    assert_eq!(harmony_key(Style::Vibrant, Contrast::High), "vibrant:high");
}

#[test]
fn extensions_from_magic_bytes() {
    assert_eq!(guess_extension(&[0x89, 0x50, 0x4E, 0x47, 0]), ".png");
    assert_eq!(guess_extension(&[0xFF, 0xD8, 0xFF, 0xE0]), ".jpg");
    assert_eq!(guess_extension(b"RIFF"), ".webp");
    assert_eq!(guess_extension(b"GIF8"), ".gif");
    assert_eq!(guess_extension(b"BM00"), ".bmp");
    assert_eq!(guess_extension(b"abc"), ".png");
    assert_eq!(guess_extension(b"abcd"), ".png");
}

#[test]
fn cached_download_is_first_existing_candidate() {
    let p = Paths::from_dirs("/c", "/k");
    let cands = cached_url_candidates("u", &p);
    assert_eq!(cands.len(), 6);
    assert!(cands[2].ends_with(".jpeg"));
    assert_eq!(cached_url_path("u", &p, &[false, false, true, true, false, false]), Some(cands[2].clone()));
    assert_eq!(cached_url_path("u", &p, &[false; 6]), None);
}

#[test]
fn image_extensions() {
    assert!(is_image_extension_text("PNG"));
    assert!(is_image_extension_text("jpeg"));
    assert!(!is_image_extension_text("txt"));
    assert!(is_image("/x/wall.JPG"));
    assert!(!is_image("/x/notes.txt"));
    assert!(!is_image("/x/.png"));
}

#[test]
fn pick_from_dir_picks_an_image_file() {
    let entries = vec![("/d/a.txt".to_string(), true), ("/d/b.png".to_string(), true), ("/d/c.png".to_string(), false)];
    assert_eq!(pick_from_dir("/d", &entries).ok(), Some("/d/b.png".to_string()));
    match pick_from_dir("/e", &vec![]) {
        Err(LRatio::EmptyDir(d)) => assert_eq!(d, "/e"),
        _ => panic!("expected an empty directory"),
    }
}

#[test]
fn wallpaper_hook_and_setters() {
    assert_eq!(replace("swaybg -i {{ image }} -m fill", "{{ image }}", "/w.png"), "swaybg -i /w.png -m fill");
    assert_eq!(replace("aaa", "aa", "b"), "ba");
    let cfg = WallpaperConfiguration { set: Some(false), command: Some("feh {{ image }}".to_string()) };
    assert!(!is_enabled(Some(&cfg)));
    assert!(is_enabled(None));
    match rizzoo::wallpaper::set("/w.png", Some(&cfg)) {
        WallpaperAction::Hook(h) => assert_eq!(h, "feh /w.png"),
        WallpaperAction::Detect => panic!("expected the hook"),
    }
    assert!(matches!(rizzoo::wallpaper::set("/w.png", None), WallpaperAction::Detect));
    assert_eq!(linux_setter(true, true), Some(Setter::Swaybg));
    assert_eq!(linux_setter(false, true), Some(Setter::Feh));
    assert_eq!(linux_setter(false, false), None);
    assert_eq!(finder_script("/a\"b"), "tell application \"Finder\" to set desktop picture to POSIX file \"/a\\\"b\"");
}

#[test]
fn home_relative_outputs() {
    assert_eq!(resolve_path_in("~/.config/x", Some("/home/u")), "/home/u/.config/x");
    assert_eq!(resolve_path_in("$HOME/x", Some("/home/u")), "/home/u/x");
    assert_eq!(resolve_path_in("~/x", None), "~/x");
    assert_eq!(resolve_path_in("/etc/x", Some("/home/u")), "/etc/x");
}

#[test]
fn run_decisions() {
    let mut c = cli();
    c.image = Some("/w.png".to_string());
    c.color = Some("#ff0000".to_string());
    assert!(matches!(scheme_source(&c), SchemeSource::Color(s) if s == "#ff0000"));
    c.color = None;
    assert!(matches!(scheme_source(&c), SchemeSource::Image(s) if s == "/w.png"));
    assert_eq!(seed_choice(&c, 0, true), SeedChoice::NoColors);
    assert_eq!(seed_choice(&c, 4, false), SeedChoice::Index(0));
    assert_eq!(seed_choice(&c, 4, true), SeedChoice::Interactive);
    c.pick = Some(9);
    assert_eq!(seed_choice(&c, 4, true), SeedChoice::Index(3));
    c.prefer = Some(PreferMode::Darkness);
    assert_eq!(seed_choice(&c, 4, true), SeedChoice::Prefer(PreferMode::Darkness));
    assert!(should_set_wallpaper(&c, None, "/w.png"));
    assert!(!should_set_wallpaper(&c, None, ""));
    c.output = true;
    assert!(matches!(link_choice(&c), LinkChoice::All));
    c.dry_run = true;
    assert!(!should_set_wallpaper(&c, None, "/w.png"));
    assert!(matches!(link_choice(&c), LinkChoice::Nothing));
}

#[test]
fn ranking_and_pixels() {
    assert!(matches!(ColorExtractor::colors_from_pixels(&[]), Err(LRatio::NoColors)));
    let colors = ColorExtractor::colors_from_pixels(&[0xFFFF0000; 10]).ok().unwrap();
    assert!(!colors.is_empty());
    assert_eq!(ColorExtractor::colors_from_ranking(&[0xFF010203]).ok(), Some(vec![Rgb::rgb(1, 2, 3)]));
    assert_eq!(ColorExtractor::pack(&vec![1, 2, 3, 4, 5, 6, 7]), vec![0xFF010203, 0xFF040506]);
}

#[test]
fn error_messages() {
    assert_eq!(LRatio::NoColors.message(), "No colors");
    assert_eq!(LRatio::CacheRead("/p".into(), "gone".into()).message(), "Cache read: /p - gone");
    assert_eq!(LRatio::FilterNotFound("x".into()).message(), "Filter 'x' not found");
    assert_eq!(LRatio::OutputWriteFailed("/a".into(), "/b".into(), "e".into()).message(), "Output write /a -> /b: e");
    assert_eq!(LRatio::Custom("plain".into()).message(), "plain");
}

#[test]
fn blend_amount_is_clamped_to_unit() {
    let a = Rgb::rgb(255, 0, 0);
    let b = Rgb::rgb(0, 0, 255);
    assert_eq!(blend_colors(&a, &b, "2"), blend_colors(&a, &b, "1"));
    assert_eq!(blend_colors(&a, &b, "-3"), blend_colors(&a, &b, "0"));
    assert_eq!(blend_colors(&a, &b, "0.25"), lerp_rgb(&a, &b, "0.25"));
    assert_ne!(lerp_rgb(&a, &b, "0.5"), a);
}

#[test]
fn generated_schemes_keep_their_shape() {
    let s = SchemeGenerator::generate(&Rgb::rgb(75, 32, 130), Style::Vibrant, false, "0.5");
    assert_eq!(s.base16, Base16Generator::from_roles(&s.roles));
    assert_eq!(s.roles.error_fixed, s.roles.error);
    assert_eq!(s.roles.on_error_fixed_variant, s.roles.on_error);
    assert!(s.wallpaper.is_empty());
    let b = SchemeGenerator::blend_styles(&Rgb::rgb(75, 32, 130), Style::Vibrant, Style::Neutral, "0.5", true, "0.0");
    assert_eq!(b.base16, Base16Generator::from_roles(&b.roles));
    let w = SchemeGenerator::generate_with_options(&Rgb::rgb(1, 2, 3), Style::Content, true, "1.0", "/w.png");
    assert_eq!(w.wallpaper, "/w.png");
}

#[test]
fn roles_from_named_colors() {
    let colors: Vec<(String, u32)> = (0..45u32).map(|i| (format!("c{i}"), 0xFF000000 | i)).collect();
    let r = RoleExtractor::from_colors(&colors, 0xFF0000AA);
    assert_eq!(r.background, Rgb::rgb(0, 0, 0));
    assert_eq!(r.primary, Rgb::rgb(0, 0, 16));
    assert_eq!(r.error_fixed, Rgb::rgb(0, 0, 41));
    assert_eq!(r.surface_tint, Rgb::rgb(0, 0, 0xAA));
}

#[test]
fn sampling_scales_to_the_sample_square() {
    let mut img = image::RgbImage::new(400, 300);
    for p in img.pixels_mut() {
        *p = image::Rgb([1, 2, 3]);
    }
    let mut file: Vec<u8> = Vec::new();
    image::DynamicImage::ImageRgb8(img).write_to(&mut std::io::Cursor::new(&mut file), image::ImageFormat::Png).unwrap();
    let pixels = ColorExtractor::sample_pixels(&file).ok().unwrap();
    assert_eq!(pixels.len(), 200 * 200);
    assert!(pixels.iter().all(|&p| p == 0xFF010203));
    match ColorExtractor::sample_pixels(b"not an image") {
        Err(LRatio::ImageDecode(m)) => assert!(!m.is_empty()),
        _ => panic!("expected a decode error"),
    }
}

#[test]
fn image_files_give_their_seed_colours() {
    let mut img = image::RgbImage::new(64, 64);
    for p in img.pixels_mut() {
        *p = image::Rgb([255, 0, 0]);
    }
    let mut file: Vec<u8> = Vec::new();
    image::DynamicImage::ImageRgb8(img).write_to(&mut std::io::Cursor::new(&mut file), image::ImageFormat::Png).unwrap();
    let colors = ColorExtractor::colors_of_image(&file).ok().unwrap();
    assert_eq!(colors[0], Rgb::rgb(255, 0, 0));
    assert!(matches!(ColorExtractor::colors_of_image(b"GIF89a??"), Err(LRatio::ImageDecode(_))));
}

#[test]
fn watch_and_write_decisions() {
    assert_eq!(on_event(WatchEvent::Access, true), WatchAction::Wait);
    assert_eq!(on_event(WatchEvent::Change, true), WatchAction::Reload);
    assert_eq!(on_event(WatchEvent::Error, true), WatchAction::Warn);
    assert_eq!(on_event(WatchEvent::Disconnected, true), WatchAction::Stop);
    assert_eq!(on_event(WatchEvent::Change, false), WatchAction::Stop);
    assert!(!rizzoo::template::renderer::needs_write(Some("same"), "same"));
    assert!(rizzoo::template::renderer::needs_write(Some("old"), "new"));
    assert!(rizzoo::template::renderer::needs_write(None, "new"));
}

#[test]
fn schemes_are_the_styles_roles() {
    let seed = Rgb::rgb(75, 32, 130);
    let s = SchemeGenerator::generate(&seed, Style::Vibrant, false, "0.5");
    assert_eq!(s.roles, RoleExtractor::extract(&seed, Style::Vibrant, false, "0.5"));
    let dark = RoleExtractor::extract(&seed, Style::Vibrant, true, "0.5");
    assert_ne!(s.roles, dark);
    assert_ne!(s.roles.primary, Rgb::rgb(0, 0, 0));
    let b = SchemeGenerator::blend_styles(&seed, Style::Vibrant, Style::Neutral, "0.3", true, "0.0");
    let first = RoleExtractor::extract(&seed, Style::Vibrant, true, "0.0");
    let second = RoleExtractor::extract(&seed, Style::Neutral, true, "0.0");
    assert_ne!(first, second);
    assert_eq!(b.roles, blend_roles(&first, &second, "0.3"));
}

#[test]
fn scheme_runs_from_color_and_options() {
    let mut c = cli();
    let s = build_scheme(&c, &Rgb::rgb(10, 120, 200), Some("/w.png"));
    assert_eq!(s.wallpaper, "/w.png");
    assert_eq!(s.roles, RoleExtractor::extract(&Rgb::rgb(10, 120, 200), Style::TonalSpot, true, "0.0"));
    c.blend_style = Some(Style::Rainbow);
    c.light = true;
    let b = build_scheme(&c, &Rgb::rgb(10, 120, 200), Some("/w.png"));
    assert_eq!(b.wallpaper, "");
    let first = RoleExtractor::extract(&Rgb::rgb(10, 120, 200), Style::TonalSpot, false, "0.0");
    let second = RoleExtractor::extract(&Rgb::rgb(10, 120, 200), Style::Rainbow, false, "0.0");
    assert_eq!(b.roles, blend_roles(&first, &second, "0.5"));
    let config = Configuration::default();
    match scheme_from_color(&cli(), &config, "nothex") {
        Err(e) => assert_eq!(e.message(), "invalid color 'nothex'"),
        Ok(_) => panic!("expected an error"),
    }
    let (scheme, customs) = scheme_from_color(&cli(), &config, "#0a78c8").ok().unwrap();
    assert_eq!(scheme.seed_colors, Some(vec![Rgb::rgb(10, 120, 200)]));
    assert_eq!(scheme.roles, s.roles);
    assert!(customs.is_empty());
}

#[test]
fn cache_hits_keep_the_stored_choice() {
    let base = || SchemeGenerator::generate(&Rgb::rgb(1, 2, 3), Style::Content, true, "0.0");
    assert!(must_extract_cached_seeds(&None, true));
    assert!(!must_extract_cached_seeds(&None, false));
    assert!(!must_extract_cached_seeds(&Some(vec![]), true));
    let (s, seeds, pick) = from_cache(base(), "/w.png", vec![Rgb::rgb(9, 9, 9)]);
    assert_eq!(s.wallpaper, "/w.png");
    assert_eq!(seeds, vec![Rgb::rgb(9, 9, 9)]);
    assert_eq!(s.seed_colors, Some(vec![Rgb::rgb(9, 9, 9)]));
    assert_eq!(pick, 0);
    let mut stored = base();
    stored.seed_colors = Some(vec![Rgb::rgb(4, 5, 6), Rgb::rgb(7, 8, 9)]);
    stored.pick = Some(1);
    let (s, seeds, pick) = from_cache(stored, "/v.png", vec![Rgb::rgb(9, 9, 9)]);
    assert_eq!(seeds, vec![Rgb::rgb(4, 5, 6), Rgb::rgb(7, 8, 9)]);
    assert_eq!(pick, 1);
    assert_eq!(s.pick, Some(1));
    assert_eq!(s.roles, base().roles);
}

#[test]
fn preview_rows_lay_out_the_palette() {
    let scheme = SchemeGenerator::generate(&Rgb::rgb(75, 32, 130), Style::TonalSpot, true, "0.0");
    let seeds = vec![Rgb::rgb(255, 0, 0), Rgb::rgb(0, 255, 0)];
    let rows = preview_rows(&scheme, Some(&seeds), 1);
    assert_eq!(rows.len(), 3 + 38);
    assert!(rows[0][0].contains("Sources"));
    assert_eq!(rows[0].len(), 5);
    assert_eq!(rows[1][1], "[0]");
    assert_eq!(rows[1][2], "#ff0000");
    assert_eq!(rows[1][3], "");
    assert_eq!(rows[2][1], "[1]");
    assert!(rows[2][3].contains("<< seed-color"));
    assert!(rows[3][0].contains("Palette"));
    assert_eq!(rows[4][1], "primary");
    assert_eq!(rows[4][2], scheme.roles.primary.to_hex());
    assert_eq!(rows[23][1], "surface_dim");
    assert!(rows[24][0].contains("Base16"));
    assert_eq!(rows[25][1], "base00");
    assert_eq!(rows[40][1], "base15");
    assert_eq!(rows[40][2], scheme.base16[15].to_hex());
    let none = preview_rows(&scheme, Some(&vec![]), 0);
    assert_eq!(none.len(), 38);
    assert!(none[0][0].contains("Palette"));
    assert_eq!(preview_rows(&scheme, None, 0).len(), 38);
    let text = preview(&scheme, Some(&seeds), 0);
    assert!(text.contains("base15"));
    assert!(text.contains("#ff0000"));
}

#[test]
fn pixels_rank_to_their_colours_or_the_fallback() {
    let red = ColorExtractor::colors_from_pixels(&[0xFFFF0000; 50]).ok().unwrap();
    assert_eq!(red[0], Rgb::rgb(255, 0, 0));
    assert!(red.len() <= 4);
    let gray = ColorExtractor::colors_from_pixels(&[0xFF808080; 50]).ok().unwrap();
    assert_eq!(gray, vec![Rgb::rgb(0x42, 0x85, 0xf4)]);
}

#[test]
fn image_runs_keep_seeds_pick_and_wallpaper() {
    let seeds = vec![Rgb::rgb(200, 30, 30), Rgb::rgb(10, 120, 200)];
    let s = scheme_from_seeds(&cli(), &seeds, 1, "~/w.png");
    assert_eq!(s.wallpaper, "~/w.png");
    assert_eq!(s.pick, Some(1));
    assert_eq!(s.seed_colors, Some(seeds.clone()));
    assert_eq!(s.roles, RoleExtractor::extract(&Rgb::rgb(10, 120, 200), Style::TonalSpot, true, "0.0"));
}
