//! Schemes generated from a seed colour by Material Color Utilities.
use vstd::prelude::*;
use crate::color::base16::{base16_of, Base16Generator};
use crate::color::blend::{blend_roles, spec_blend_roles};
use crate::color::roles::{scheme_roles, RoleExtractor};
use crate::color::types::{ColorScheme, Rgb};
use crate::config::Style;
use crate::num::float_syntax;
use crate::text::copy_string;

verus! {

pub struct SchemeGenerator;

impl SchemeGenerator {
    /// A scheme of the style for the seed; `contrast` is the decimal text of
    /// the contrast level. Its base16 palette is taken from its roles.
    pub fn generate(seed: &Rgb, style: Style, is_dark: bool, contrast: &str) -> (res: ColorScheme)
        requires
            float_syntax(contrast@),
        ensures
            res.roles == scheme_roles(seed.spec_argb(), style, contrast@, is_dark),
            res.base16@ == base16_of(res.roles),
            res.wallpaper@.len() == 0,
            res.seed_colors is None,
            res.pick is None,
    {
        let roles = RoleExtractor::extract(seed, style, is_dark, contrast);
        let base16 = Base16Generator::from_roles(&roles);
        ColorScheme { wallpaper: String::new(), roles, base16, seed_colors: None, pick: None }
    }

    /// As `generate`, remembering the wallpaper.
    pub fn generate_with_options(
        seed: &Rgb,
        style: Style,
        is_dark: bool,
        contrast: &str,
        wallpaper: &str,
    ) -> (res: ColorScheme)
        requires
            float_syntax(contrast@),
        ensures
            res.roles == scheme_roles(seed.spec_argb(), style, contrast@, is_dark),
            res.base16@ == base16_of(res.roles),
            res.wallpaper@ == wallpaper@,
            res.seed_colors is None,
            res.pick is None,
    {
        let mut cs = Self::generate(seed, style, is_dark, contrast);
        cs.wallpaper = copy_string(wallpaper);
        cs
    }

    /// The roles of two styles for the same seed, blended role by role with
    /// `ratio` (decimal text); the base16 palette comes from the blend.
    pub fn blend_styles(
        seed: &Rgb,
        primary_style: Style,
        secondary_style: Style,
        ratio: &str,
        is_dark: bool,
        contrast: &str,
    ) -> (res: ColorScheme)
        requires
            float_syntax(ratio@),
            float_syntax(contrast@),
        ensures
            res.roles == spec_blend_roles(
                scheme_roles(seed.spec_argb(), primary_style, contrast@, is_dark),
                scheme_roles(seed.spec_argb(), secondary_style, contrast@, is_dark),
                ratio@,
            ),
            res.base16@ == base16_of(res.roles),
            res.wallpaper@.len() == 0,
            res.seed_colors is None,
            res.pick is None,
    {
        let a = RoleExtractor::extract(seed, primary_style, is_dark, contrast);
        let b = RoleExtractor::extract(seed, secondary_style, is_dark, contrast);
        let roles = blend_roles(&a, &b, ratio);
        let base16 = Base16Generator::from_roles(&roles);
        ColorScheme { wallpaper: String::new(), roles, base16, seed_colors: None, pick: None }
    }
}

} // verus!
