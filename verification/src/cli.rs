//! The command line, as the library sees it once it has been parsed.
use vstd::prelude::*;
use crate::color::types::{from_hex_aborts, spec_from_hex, Rgb};
use crate::config::{Contrast, PreferMode, Style};
use crate::num::{float_syntax, placement_in_tenths, tenths_placement, Placement};
use crate::template::parser::lemma_fits;
use crate::text::{cat, chars_of, copy_opt, copy_string, opt_text};

verus! {

/// The options of one run. `blend_ratio` is the decimal text of the ratio.
pub struct Cli {
    pub image: Option<String>,
    pub image_url: Option<String>,
    pub color: Option<String>,
    pub pick: Option<u8>,
    pub prefer: Option<PreferMode>,
    pub open_picker: bool,
    pub render: bool,
    pub output: bool,
    pub output_to: Option<String>,
    pub preview: bool,
    pub dry_run: bool,
    pub silent: bool,
    pub style: Style,
    pub light: bool,
    pub contrast: Contrast,
    pub blend_style: Option<Style>,
    pub blend_ratio: String,
    pub wallpaper: bool,
    pub reload_scheme: bool,
    pub watch: bool,
    pub init: bool,
    pub init_overwrite: bool,
}

pub open spec fn no_source_message() -> Seq<char> {
    "what to do?\n [-i image, -u url, -c color, -R reload-scheme, -m fill templates, -l output apps, -p preview]"@
}

/// What `validate` answers: `None` for a usable command line, else the
/// message. The blend ratio must be a number within `[0.1, 0.9]`; `NaN` is
/// refused.
pub open spec fn validation(cli: Cli) -> Option<Seq<char>> {
    let has_image = cli.image is Some || cli.image_url is Some;
    if cli.init || cli.init_overwrite {
        None
    } else if !has_image && cli.color is None && !cli.reload_scheme && !cli.output
        && cli.output_to is None && !cli.render && !cli.preview {
        Some(no_source_message())
    } else if cli.prefer is Some && !has_image {
        Some("--prefer needs an image (-i or -u)"@)
    } else if cli.color is Some && spec_from_hex(cli.color.unwrap()@) is None {
        Some("invalid format --color '#"@ + cli.color.unwrap()@ + "'"@)
    } else if tenths_placement(cli.blend_ratio@) != Placement::Within {
        Some("--blend-ratio must be between 0.1 and 0.9"@)
    } else {
        None
    }
}

impl Cli {
    /// Every field but the five that `Configuration::merge` may fill in is as in `other`.
    pub open spec fn same_except_merged(self, other: Cli) -> bool {
        &&& opt_text(self.image) == opt_text(other.image)
        &&& opt_text(self.image_url) == opt_text(other.image_url)
        &&& opt_text(self.color) == opt_text(other.color)
        &&& self.open_picker == other.open_picker
        &&& self.render == other.render
        &&& self.output == other.output
        &&& opt_text(self.output_to) == opt_text(other.output_to)
        &&& self.preview == other.preview
        &&& self.dry_run == other.dry_run
        &&& self.silent == other.silent
        &&& self.blend_style == other.blend_style
        &&& self.blend_ratio@ == other.blend_ratio@
        &&& self.wallpaper == other.wallpaper
        &&& self.reload_scheme == other.reload_scheme
        &&& self.watch == other.watch
        &&& self.init == other.init
        &&& self.init_overwrite == other.init_overwrite
    }

    /// A copy with the five fields that configuration can fill in replaced.
    pub(crate) fn with_options(
        &self,
        style: Style,
        light: bool,
        contrast: Contrast,
        pick: Option<u8>,
        prefer: Option<PreferMode>,
    ) -> (res: Cli)
        ensures
            res.same_except_merged(*self),
            res.style == style,
            res.light == light,
            res.contrast == contrast,
            res.pick == pick,
            res.prefer == prefer,
    {
        Cli {
            image: copy_opt(&self.image),
            image_url: copy_opt(&self.image_url),
            color: copy_opt(&self.color),
            pick,
            prefer,
            open_picker: self.open_picker,
            render: self.render,
            output: self.output,
            output_to: copy_opt(&self.output_to),
            preview: self.preview,
            dry_run: self.dry_run,
            silent: self.silent,
            style,
            light,
            contrast,
            blend_style: self.blend_style,
            blend_ratio: copy_string(self.blend_ratio.as_str()),
            wallpaper: self.wallpaper,
            reload_scheme: self.reload_scheme,
            watch: self.watch,
            init: self.init,
            init_overwrite: self.init_overwrite,
        }
    }

    /// Checks that the command line asks for something that can be done.
    pub fn validate(&self) -> (res: Result<(), String>)
        requires
            float_syntax(self.blend_ratio@),
            self.color matches Some(c) ==> !from_hex_aborts(c@),
        ensures
            match validation(*self) {
                None => res is Ok,
                Some(m) => res matches Err(e) && e@ == m,
            },
    {
        if self.init || self.init_overwrite {
            return Ok(());
        }
        let has_image = self.image.is_some() || self.image_url.is_some();
        if !has_image && self.color.is_none() && !self.reload_scheme && !self.output
            && self.output_to.is_none() && !self.render && !self.preview {
            return Err(
                copy_string(
                    "what to do?\n [-i image, -u url, -c color, -R reload-scheme, -m fill templates, -l output apps, -p preview]",
                ),
            );
        }
        if self.prefer.is_some() && !has_image {
            return Err(copy_string("--prefer needs an image (-i or -u)"));
        }
        if let Some(hex) = &self.color {
            if Rgb::from_hex(hex.as_str()).is_none() {
                let head = cat("invalid format --color '#", hex.as_str());
                return Err(cat(head.as_str(), "'"));
            }
        }
        let ratio = chars_of(self.blend_ratio.as_str());
        proof {
            lemma_fits(ratio@);
        }
        match placement_in_tenths(&ratio) {
            Placement::Within => Ok(()),
            _ => Err(copy_string("--blend-ratio must be between 0.1 and 0.9")),
        }
    }
}

} // verus!
