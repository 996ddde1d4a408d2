//! The user's configuration: generation options, custom colours, the
//! wallpaper command and the template entries.
use vstd::prelude::*;
use crate::cli::Cli;
use crate::color::blend::{harmonize_color, spec_harmonize};
use crate::color::types::{from_hex_aborts, spec_from_hex, Rgb};
use crate::text::{copy_opt, copy_string, opt_text};

verus! {

/// The Material 3 scheme variants.
#[derive(Clone, Copy, Debug, PartialEq, Eq, Structural)]
pub enum Style {
    TonalSpot,
    Neutral,
    Vibrant,
    Expressive,
    Rainbow,
    FruitSalad,
    Monochrome,
    Fidelity,
    Content,
}

impl Style {
    /// The kebab-case name used on the command line and in configuration.
    pub open spec fn spec_name(self) -> Seq<char> {
        match self {
            Style::TonalSpot => "tonal-spot"@,
            Style::Neutral => "neutral"@,
            Style::Vibrant => "vibrant"@,
            Style::Expressive => "expressive"@,
            Style::Rainbow => "rainbow"@,
            Style::FruitSalad => "fruit-salad"@,
            Style::Monochrome => "monochrome"@,
            Style::Fidelity => "fidelity"@,
            Style::Content => "content"@,
        }
    }

    pub fn as_str(&self) -> (s: &'static str)
        ensures
            s@ == self.spec_name(),
    {
        match self {
            Style::TonalSpot => "tonal-spot",
            Style::Neutral => "neutral",
            Style::Vibrant => "vibrant",
            Style::Expressive => "expressive",
            Style::Rainbow => "rainbow",
            Style::FruitSalad => "fruit-salad",
            Style::Monochrome => "monochrome",
            Style::Fidelity => "fidelity",
            Style::Content => "content",
        }
    }
}

impl Default for Style {
    fn default() -> (s: Self)
        ensures
            s == Style::TonalSpot,
    {
        Style::TonalSpot
    }
}

/// Contrast levels of the generated scheme.
#[derive(Clone, Copy, Debug, PartialEq, Eq, Structural)]
pub enum Contrast {
    Standard,
    Medium,
    High,
}

impl Contrast {
    pub open spec fn spec_name(self) -> Seq<char> {
        match self {
            Contrast::Standard => "standard"@,
            Contrast::Medium => "medium"@,
            Contrast::High => "high"@,
        }
    }

    /// The contrast level passed to the scheme, as decimal text.
    pub open spec fn spec_multiplier(self) -> Seq<char> {
        match self {
            Contrast::High => "1.0"@,
            Contrast::Medium => "0.5"@,
            Contrast::Standard => "0.0"@,
        }
    }

    pub fn multiplier(&self) -> (s: &'static str)
        ensures
            s@ == self.spec_multiplier(),
            crate::num::float_syntax(s@),
    {
        proof {
            crate::num::lemma_level_literals();
        }
        match self {
            Contrast::High => "1.0",
            Contrast::Medium => "0.5",
            Contrast::Standard => "0.0",
        }
    }

    pub fn as_str(&self) -> (s: &'static str)
        ensures
            s@ == self.spec_name(),
    {
        match self {
            Contrast::Standard => "standard",
            Contrast::Medium => "medium",
            Contrast::High => "high",
        }
    }
}

impl Default for Contrast {
    fn default() -> (c: Self)
        ensures
            c == Contrast::Standard,
    {
        Contrast::Standard
    }
}

/// How a seed colour is picked automatically.
#[derive(Clone, Copy, Debug, PartialEq, Eq, Structural)]
pub enum PreferMode {
    Darkness,
    Lightness,
    Saturation,
}

impl PreferMode {
    pub open spec fn spec_name(self) -> Seq<char> {
        match self {
            PreferMode::Darkness => "darkness"@,
            PreferMode::Lightness => "lightness"@,
            PreferMode::Saturation => "saturation"@,
        }
    }

    /// The name this mode prints as.
    pub fn as_str(&self) -> (s: &'static str)
        ensures
            s@ == self.spec_name(),
    {
        match self {
            PreferMode::Darkness => "darkness",
            PreferMode::Lightness => "lightness",
            PreferMode::Saturation => "saturation",
        }
    }
}

/// A named extra colour; `blend` (on by default) harmonizes it with the seed.
pub struct CustomColor {
    pub color: String,
    pub blend: bool,
}

/// Whether and how the wallpaper is set.
pub struct WallpaperConfiguration {
    pub set: Option<bool>,
    pub command: Option<String>,
}

impl Default for WallpaperConfiguration {
    fn default() -> (w: Self)
        ensures
            w.set is None,
            w.command is None,
    {
        WallpaperConfiguration { set: None, command: None }
    }
}

/// One template entry: the file under the templates directory, where its
/// rendering is linked to, a command run afterwards, and whether it is on.
pub struct TemplateConfiguration {
    pub template: String,
    pub output: String,
    pub post_hook: Option<String>,
    pub enabled: bool,
}

/// The configuration file. Custom colours and template entries are kept as
/// (name, entry) pairs; the file's tables give each name once.
pub struct Configuration {
    pub style: Option<Style>,
    pub light: Option<bool>,
    pub contrast: Option<Contrast>,
    pub pick: Option<u8>,
    pub prefer: Option<PreferMode>,
    pub custom_colors: Option<Vec<(String, CustomColor)>>,
    pub wallpaper: Option<WallpaperConfiguration>,
    pub templates: Vec<(String, TemplateConfiguration)>,
}

impl Default for Configuration {
    fn default() -> (c: Self)
        ensures
            c.style is None,
            c.light is None,
            c.contrast is None,
            c.pick is None,
            c.prefer is None,
            c.custom_colors is None,
            c.wallpaper is None,
            c.templates@.len() == 0,
    {
        Configuration {
            style: None,
            light: None,
            contrast: None,
            pick: None,
            prefer: None,
            custom_colors: None,
            wallpaper: None,
            templates: Vec::new(),
        }
    }
}

/// (name, colour text, blend) of each custom colour.
pub open spec fn customs_view(v: Seq<(String, CustomColor)>) -> Seq<(Seq<char>, Seq<char>, bool)> {
    v.map_values(|p: (String, CustomColor)| (p.0@, p.1.color@, p.1.blend))
}

/// Custom colours whose text is a colour, harmonized with `seed` where
/// `blend` is set; the others are left out.
pub open spec fn harmonized_customs(custom: Seq<(Seq<char>, Seq<char>, bool)>, seed: Rgb) -> Seq<(Seq<char>, Rgb)>
    decreases custom.len(),
{
    if custom.len() == 0 {
        Seq::empty()
    } else {
        let done = harmonized_customs(custom.drop_last(), seed);
        let (name, text, blend) = custom.last();
        match spec_from_hex(text) {
            None => done,
            Some(c) => done.push((name, if blend { spec_harmonize(c, seed) } else { c })),
        }
    }
}

pub open spec fn named_view(v: Seq<(String, Rgb)>) -> Seq<(Seq<char>, Rgb)> {
    v.map_values(|p: (String, Rgb)| (p.0@, p.1))
}

/// Whether no custom colour text would abort the hex reader.
pub open spec fn customs_readable(custom: Option<Vec<(String, CustomColor)>>) -> bool {
    match custom {
        None => true,
        Some(v) => forall|i: int| 0 <= i < v@.len() ==> !from_hex_aborts(#[trigger] v@[i].1.color@),
    }
}

impl Configuration {
    /// The custom colours that read as colours, each harmonized with the
    /// seed unless its `blend` is off.
    pub fn harmonize_custom_colors(&self, seed_color: &Rgb) -> (res: Vec<(String, Rgb)>)
        requires
            customs_readable(self.custom_colors),
        ensures
            named_view(res@) == match self.custom_colors {
                Some(v) => harmonized_customs(customs_view(v@), *seed_color),
                None => Seq::empty(),
            },
    {
        let mut out: Vec<(String, Rgb)> = Vec::new();
        match &self.custom_colors {
            None => {
                proof {
                    assert(named_view(out@) =~= Seq::<(Seq<char>, Rgb)>::empty());
                }
                out
            },
            Some(custom) => {
                let ghost cv = customs_view(custom@);
                let mut i: usize = 0;
                proof {
                    assert(cv.take(0) =~= Seq::<(Seq<char>, Seq<char>, bool)>::empty());
                    assert(named_view(out@) =~= Seq::<(Seq<char>, Rgb)>::empty());
                }
                while i < custom.len()
                    invariant
                        i <= custom@.len(),
                        cv == customs_view(custom@),
                        forall|k: int| 0 <= k < custom@.len() ==> !from_hex_aborts(
                            #[trigger] custom@[k].1.color@,
                        ),
                        named_view(out@) == harmonized_customs(cv.take(i as int), *seed_color),
                    decreases custom@.len() - i,
                {
                    proof {
                        assert(cv.take(i + 1).drop_last() =~= cv.take(i as int));
                        assert(cv.take(i + 1).last() == cv[i as int]);
                    }
                    let entry = &custom[i];
                    let ghost before = out@;
                    match Rgb::from_hex(entry.1.color.as_str()) {
                        None => {},
                        Some(c) => {
                            let value = if entry.1.blend {
                                harmonize_color(&c, seed_color)
                            } else {
                                c
                            };
                            out.push((copy_string(entry.0.as_str()), value));
                            proof {
                                assert(named_view(out@) =~= named_view(before).push(
                                    (entry.0@, value),
                                ));
                            }
                        },
                    }
                    i = i + 1;
                }
                proof {
                    assert(cv.take(i as int) =~= cv);
                }
                out
            },
        }
    }

    /// The command line with configuration values filled in where the
    /// command line kept its default: style, light, contrast and pick, and
    /// the preference when an image is given.
    pub fn merge(&self, cli: &Cli) -> (res: Cli)
        ensures
            res.style == (if cli.style == Style::TonalSpot && self.style is Some {
                self.style.unwrap()
            } else {
                cli.style
            }),
            res.light == (if !cli.light && self.light is Some {
                self.light.unwrap()
            } else {
                cli.light
            }),
            res.contrast == (if cli.contrast == Contrast::Standard && self.contrast is Some {
                self.contrast.unwrap()
            } else {
                cli.contrast
            }),
            res.pick == (if cli.pick is None {
                self.pick
            } else {
                cli.pick
            }),
            res.prefer == (if cli.prefer is None && self.prefer is Some && (cli.image is Some
                || cli.image_url is Some) {
                self.prefer
            } else {
                cli.prefer
            }),
            res.same_except_merged(*cli),
    {
        let style = match self.style {
            Some(st) if cli.style == Style::TonalSpot => st,
            _ => cli.style,
        };
        let light = match self.light {
            Some(l) if !cli.light => l,
            _ => cli.light,
        };
        let contrast = match self.contrast {
            Some(ct) if cli.contrast == Contrast::Standard => ct,
            _ => cli.contrast,
        };
        let pick = if cli.pick.is_none() {
            self.pick
        } else {
            cli.pick
        };
        let has_image = cli.image.is_some() || cli.image_url.is_some();
        let prefer = if cli.prefer.is_none() && self.prefer.is_some() && has_image {
            self.prefer
        } else {
            cli.prefer
        };
        cli.with_options(style, light, contrast, pick, prefer)
    }
}

} // verus!
