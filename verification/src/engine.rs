//! The decisions of a run: where the scheme comes from, which seed colour
//! is used, and which of the later steps happen.
use vstd::prelude::*;
use crate::cli::Cli;
use crate::color::base16::base16_of;
use crate::color::blend::spec_blend_roles;
use crate::color::roles::scheme_roles;
use crate::color::scheme::SchemeGenerator;
use crate::color::types::{from_hex_aborts, spec_from_hex, ColorScheme, MaterialRoles, Rgb};
use crate::config::{customs_readable, customs_view, harmonized_customs, named_view, Configuration, PreferMode, WallpaperConfiguration};
use crate::error::LRatio;
use crate::num::float_syntax;
use crate::text::{cat, copy_string, opt_text};
use crate::wallpaper::is_enabled;

verus! {

/// Where a run takes its scheme from.
pub enum SchemeSource {
    /// The colour given with `--color`.
    Color(String),
    /// The image at this URL.
    Url(String),
    /// The image (or directory of images) at this path.
    Image(String),
    /// The last scheme written, which must exist.
    Last,
}

/// A colour first, then a URL, then an image path, else the last scheme.
pub fn scheme_source(cli: &Cli) -> (res: SchemeSource)
    ensures
        match cli.color {
            Some(c) => res matches SchemeSource::Color(s) && s@ == c@,
            None => match cli.image_url {
                Some(u) => res matches SchemeSource::Url(s) && s@ == u@,
                None => match cli.image {
                    Some(p) => res matches SchemeSource::Image(s) && s@ == p@,
                    None => res is Last,
                },
            },
        },
{
    if let Some(c) = &cli.color {
        SchemeSource::Color(copy_string(c.as_str()))
    } else if let Some(u) = &cli.image_url {
        SchemeSource::Url(copy_string(u.as_str()))
    } else if let Some(p) = &cli.image {
        SchemeSource::Image(copy_string(p.as_str()))
    } else {
        SchemeSource::Last
    }
}

/// A cached scheme is used unless a seed colour is being picked anew.
pub fn may_use_cache(cli: &Cli) -> (res: bool)
    ensures
        res == (cli.pick is None && !cli.open_picker),
{
    !(cli.pick.is_some() || cli.open_picker)
}

/// How the seed colour is chosen among the image's colours.
#[derive(Clone, Copy, Debug, PartialEq, Eq, Structural)]
pub enum SeedChoice {
    /// The image gave no colours.
    NoColors,
    /// By the preference, computed from luminance or saturation.
    Prefer(PreferMode),
    /// This position.
    Index(usize),
    /// Ask the user.
    Interactive,
}

/// The requested position, at most the last one (the last position is
/// taken as a byte, as the command line gives it).
pub open spec fn clamped_pick(p: u8, count: nat) -> nat {
    let last = if count == 0 { 0 } else { ((count - 1) % 256) as nat };
    if (p as nat) < last { p as nat } else { last }
}

/// A preference first, then an explicit pick, then the picker when asked
/// for or when a terminal shows more than one colour, else the first.
pub fn seed_choice(cli: &Cli, count: usize, is_terminal: bool) -> (res: SeedChoice)
    ensures
        res == (if count == 0 {
            SeedChoice::NoColors
        } else if cli.prefer is Some {
            SeedChoice::Prefer(cli.prefer.unwrap())
        } else if cli.pick is Some {
            SeedChoice::Index(clamped_pick(cli.pick.unwrap(), count as nat) as usize)
        } else if cli.open_picker || (is_terminal && count > 1) {
            SeedChoice::Interactive
        } else {
            SeedChoice::Index(0)
        }),
        res matches SeedChoice::Index(i) ==> i < count,
{
    if count == 0 {
        return SeedChoice::NoColors;
    }
    if let Some(pref) = cli.prefer {
        SeedChoice::Prefer(pref)
    } else if let Some(p) = cli.pick {
        let wide: usize = (count - 1) % 256;
        let last = wide as u8;
        assert(last as nat == ((count - 1) % 256) as nat);
        let i = if p < last { p } else { last };
        assert(i as nat == clamped_pick(p, count as nat));
        SeedChoice::Index(i as usize)
    } else if cli.open_picker || (is_terminal && count > 1) {
        SeedChoice::Interactive
    } else {
        SeedChoice::Index(0)
    }
}

/// The wallpaper is set when asked for or enabled, never in a dry run, and
/// only for a scheme that came from an image.
pub fn should_set_wallpaper(cli: &Cli, config: Option<&WallpaperConfiguration>, wallpaper: &str) -> (res: bool)
    ensures
        res == (!cli.dry_run && (cli.wallpaper || match config {
            Some(c) => match c.set {
                Some(b) => b,
                None => true,
            },
            None => true,
        }) && wallpaper@.len() > 0),
{
    if cli.dry_run {
        return false;
    }
    let should = cli.wallpaper || is_enabled(config);
    should && !wallpaper.is_empty()
}

/// Templates are rendered when asked for, never in a dry run.
pub fn should_render(cli: &Cli) -> (res: bool)
    ensures
        res == (!cli.dry_run && cli.render),
{
    !cli.dry_run && cli.render
}

/// Which template entries are linked to their outputs.
pub enum LinkChoice {
    Nothing,
    One(String),
    All,
}

/// One named entry, or all of them, never in a dry run.
pub fn link_choice(cli: &Cli) -> (res: LinkChoice)
    ensures
        cli.dry_run ==> res is Nothing,
        !cli.dry_run ==> match cli.output_to {
            Some(a) => res matches LinkChoice::One(s) && s@ == a@,
            None => if cli.output {
                res is All
            } else {
                res is Nothing
            },
        },
{
    if cli.dry_run {
        return LinkChoice::Nothing;
    }
    if let Some(app) = &cli.output_to {
        LinkChoice::One(copy_string(app.as_str()))
    } else if cli.output {
        LinkChoice::All
    } else {
        LinkChoice::Nothing
    }
}

/// Watching starts when asked for, never in a dry run.
pub fn should_watch(cli: &Cli) -> (res: bool)
    ensures
        res == (!cli.dry_run && cli.watch),
{
    !cli.dry_run && cli.watch
}

/// The roles of a run's style for a seed.
pub open spec fn style_roles(cli: Cli, seed: Rgb) -> MaterialRoles {
    scheme_roles(seed.spec_argb(), cli.style, cli.contrast.spec_multiplier(), !cli.light)
}

/// The scheme for a seed under the run's options: where a blend style is
/// given, the style's roles blended with the blend style's by the blend
/// ratio; else the style's own scheme, remembering the wallpaper if there
/// is one. Dark unless `--light`, at the run's contrast level.
pub fn build_scheme(cli: &Cli, seed: &Rgb, wallpaper: Option<&str>) -> (res: ColorScheme)
    requires
        float_syntax(cli.blend_ratio@),
    ensures
        res.base16@ == base16_of(res.roles),
        res.seed_colors is None,
        res.pick is None,
        match cli.blend_style {
            Some(b) => res.roles == spec_blend_roles(
                style_roles(*cli, *seed),
                scheme_roles(seed.spec_argb(), b, cli.contrast.spec_multiplier(), !cli.light),
                cli.blend_ratio@,
            ) && res.wallpaper@.len() == 0,
            None => res.roles == style_roles(*cli, *seed) && res.wallpaper@ == match wallpaper {
                Some(w) => w@,
                None => Seq::<char>::empty(),
            },
        },
{
    let is_dark = !cli.light;
    let contrast = cli.contrast.multiplier();
    match cli.blend_style {
        Some(b) => SchemeGenerator::blend_styles(seed, cli.style, b, cli.blend_ratio.as_str(), is_dark, contrast),
        None => match wallpaper {
            Some(w) => SchemeGenerator::generate_with_options(seed, cli.style, is_dark, contrast, w),
            None => SchemeGenerator::generate(seed, cli.style, is_dark, contrast),
        },
    }
}

/// The message for a `--color` that is not a colour.
pub open spec fn invalid_color_message(hex: Seq<char>) -> Seq<char> {
    "invalid color '"@ + hex + "'"@
}

/// A run from `--color`: the scheme for that colour as the only seed
/// colour (picked), and the custom colours harmonized with it. A text that
/// is not a colour is an error.
pub fn scheme_from_color(cli: &Cli, config: &Configuration, hex: &str) -> (res: Result<(ColorScheme, Vec<(String, Rgb)>), LRatio>)
    requires
        !from_hex_aborts(hex@),
        float_syntax(cli.blend_ratio@),
        customs_readable(config.custom_colors),
    ensures
        spec_from_hex(hex@) is None ==> (res matches Err(LRatio::Custom(m)) && m@
            == invalid_color_message(hex@)),
        spec_from_hex(hex@) matches Some(seed) ==> (res matches Ok((scheme, customs)) && {
            &&& scheme.base16@ == base16_of(scheme.roles)
            &&& scheme.seed_colors matches Some(v) && v@ == seq![seed]
            &&& scheme.pick is None
            &&& scheme.wallpaper@.len() == 0
            &&& match cli.blend_style {
                Some(b) => scheme.roles == spec_blend_roles(
                    style_roles(*cli, seed),
                    scheme_roles(seed.spec_argb(), b, cli.contrast.spec_multiplier(), !cli.light),
                    cli.blend_ratio@,
                ),
                None => scheme.roles == style_roles(*cli, seed),
            }
            &&& named_view(customs@) == match config.custom_colors {
                Some(v) => harmonized_customs(customs_view(v@), seed),
                None => Seq::empty(),
            }
        }),
{
    let seed = match Rgb::from_hex(hex) {
        Some(c) => c,
        None => {
            let head = cat("invalid color '", hex);
            return Err(LRatio::Custom(cat(head.as_str(), "'")));
        },
    };
    let mut scheme = build_scheme(cli, &seed, None);
    let mut seeds: Vec<Rgb> = Vec::new();
    seeds.push(seed);
    scheme.seed_colors = Some(seeds);
    let customs = config.harmonize_custom_colors(&seed);
    Ok((scheme, customs))
}

/// A run from an image: the scheme for the picked seed colour, with all the
/// image's seed colours, the pick and the wallpaper text from the command
/// line.
pub fn scheme_from_seeds(cli: &Cli, seeds: &Vec<Rgb>, pick: usize, wallpaper: &str) -> (res: ColorScheme)
    requires
        pick < seeds@.len(),
        float_syntax(cli.blend_ratio@),
    ensures
        res.base16@ == base16_of(res.roles),
        res.seed_colors matches Some(v) && v@ == seeds@,
        res.pick == Some(pick),
        res.wallpaper@ == wallpaper@,
        match cli.blend_style {
            Some(b) => res.roles == spec_blend_roles(
                style_roles(*cli, seeds@[pick as int]),
                scheme_roles(seeds@[pick as int].spec_argb(), b, cli.contrast.spec_multiplier(), !cli.light),
                cli.blend_ratio@,
            ),
            None => res.roles == style_roles(*cli, seeds@[pick as int]),
        },
{
    let seed = seeds[pick];
    let mut scheme = build_scheme(cli, &seed, Some(wallpaper));
    let mut kept: Vec<Rgb> = Vec::new();
    let mut i: usize = 0;
    while i < seeds.len()
        invariant
            i <= seeds@.len(),
            kept@ == seeds@.take(i as int),
        decreases seeds@.len() - i,
    {
        kept.push(seeds[i]);
        proof {
            assert(seeds@.take(i + 1) =~= seeds@.take(i as int).push(seeds@[i as int]));
        }
        i = i + 1;
    }
    proof {
        assert(seeds@.take(i as int) =~= seeds@);
    }
    scheme.seed_colors = Some(kept);
    scheme.pick = Some(pick);
    scheme.wallpaper = copy_string(wallpaper);
    scheme
}

/// A cached scheme needs its seed colours extracted again only where it
/// stored none and a preview will show them.
pub fn must_extract_cached_seeds(stored: &Option<Vec<Rgb>>, preview: bool) -> (res: bool)
    ensures
        res == (stored is None && preview),
{
    stored.is_none() && preview
}

/// A cache hit: the cached scheme with the wallpaper from the argument
/// and its seed colours (those it stored, else `extracted`), with those
/// colours and the stored pick (0 where none was stored).
pub fn from_cache(cached: ColorScheme, wallpaper: &str, extracted: Vec<Rgb>) -> (res: (ColorScheme, Vec<Rgb>, usize))
    ensures
        res.0.wallpaper@ == wallpaper@,
        res.0.roles == cached.roles,
        res.0.base16 == cached.base16,
        res.0.pick == cached.pick,
        res.1@ == match cached.seed_colors {
            Some(s) => s@,
            None => extracted@,
        },
        res.0.seed_colors matches Some(s) && s@ == res.1@,
        res.2 == match cached.pick {
            Some(p) => p,
            None => 0,
        },
{
    let ColorScheme { wallpaper: _, roles, base16, seed_colors, pick } = cached;
    let seeds = match seed_colors {
        Some(s) => s,
        None => extracted,
    };
    let mut shown: Vec<Rgb> = Vec::new();
    let mut i: usize = 0;
    while i < seeds.len()
        invariant
            i <= seeds@.len(),
            shown@ == seeds@.take(i as int),
        decreases seeds@.len() - i,
    {
        shown.push(seeds[i]);
        proof {
            assert(seeds@.take(i + 1) =~= seeds@.take(i as int).push(seeds@[i as int]));
        }
        i = i + 1;
    }
    proof {
        assert(seeds@.take(i as int) =~= seeds@);
    }
    let p = match pick {
        Some(p) => p,
        None => 0,
    };
    (ColorScheme { wallpaper: copy_string(wallpaper), roles, base16, seed_colors: Some(shown), pick }, seeds, p)
}

} // verus!
