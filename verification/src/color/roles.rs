//! The Material roles of a dynamic scheme of Material Color Utilities.
use vstd::prelude::*;
use mcu_material_color::hct::Hct;
use mcu_material_color::{DynamicScheme, DynamicSchemeOptions, MaterialDynamicColors, SpecVersion, Variant};
use crate::color::types::{MaterialRoles, Rgb};
use crate::config::Style;
use crate::num::float_syntax;

verus! {

/// The names, in order, of the colours that `MaterialDynamicColors::all_colors`
/// lists first.
pub open spec fn all_color_names() -> Seq<Seq<char>> {
    seq![
        "background"@,
        "on_background"@,
        "surface"@,
        "surface_dim"@,
        "surface_bright"@,
        "surface_container_lowest"@,
        "surface_container_low"@,
        "surface_container"@,
        "surface_container_high"@,
        "surface_container_highest"@,
        "on_surface"@,
        "on_surface_variant"@,
        "outline"@,
        "outline_variant"@,
        "inverse_surface"@,
        "inverse_on_surface"@,
        "primary"@,
        "on_primary"@,
        "primary_container"@,
        "on_primary_container"@,
        "primary_fixed"@,
        "primary_fixed_dim"@,
        "on_primary_fixed"@,
        "on_primary_fixed_variant"@,
        "inverse_primary"@,
        "secondary"@,
        "on_secondary"@,
        "secondary_container"@,
        "on_secondary_container"@,
        "secondary_fixed"@,
        "secondary_fixed_dim"@,
        "on_secondary_fixed"@,
        "on_secondary_fixed_variant"@,
        "tertiary"@,
        "on_tertiary"@,
        "tertiary_container"@,
        "on_tertiary_container"@,
        "tertiary_fixed"@,
        "tertiary_fixed_dim"@,
        "on_tertiary_fixed"@,
        "on_tertiary_fixed_variant"@,
        "error"@,
        "on_error"@,
        "error_container"@,
        "on_error_container"@
    ]
}

/// The named colours, in the order of `MaterialDynamicColors::all_colors`,
/// of the dynamic scheme for a seed (ARGB), a style, a contrast level
/// (decimal text) and dark or light, under the 2025 specification.
pub uninterp spec fn scheme_colors(seed: u32, style: Style, contrast: Seq<char>, is_dark: bool) -> Seq<(Seq<char>, u32)>;

/// The surface tint (ARGB) of that same scheme.
pub uninterp spec fn scheme_tint(seed: u32, style: Style, contrast: Seq<char>, is_dark: bool) -> u32;

/// Trusted: `DynamicScheme::new` with the `Variant` of the style's name, the
/// seed as HCT, the contrast level that `str::parse` reads from `contrast`
/// and the 2025 specification; then `MaterialDynamicColors::all_colors`,
/// each colour with its name and `get_argb`, and the `get_argb` of
/// `surface_tint`. The source computes these from its arguments alone
/// (no randomness, no state), so the results are named. It lists the names
/// of `all_color_names` first and in that order; the colours themselves are
/// not described.
#[verifier::external_body]
fn scheme_palette(seed: u32, style: Style, contrast: &str, is_dark: bool) -> (res: (Vec<(String, u32)>, u32))
    requires
        float_syntax(contrast@),
    ensures
        colors_view(res.0@) == scheme_colors(seed, style, contrast@, is_dark),
        res.1 == scheme_tint(seed, style, contrast@, is_dark),
        res.0@.len() >= 45,
        forall|i: int| 0 <= i < 45 ==> (#[trigger] res.0@[i]).0@ == all_color_names()[i],
{
    let variant = match style {
        Style::TonalSpot => Variant::TonalSpot,
        Style::Neutral => Variant::Neutral,
        Style::Vibrant => Variant::Vibrant,
        Style::Expressive => Variant::Expressive,
        Style::Rainbow => Variant::Rainbow,
        Style::FruitSalad => Variant::FruitSalad,
        Style::Monochrome => Variant::Monochrome,
        Style::Fidelity => Variant::Fidelity,
        Style::Content => Variant::Content,
    };
    let options = DynamicSchemeOptions::new(Hct::from_int(seed), variant, contrast.parse().unwrap(), is_dark);
    let scheme = DynamicScheme::new(DynamicSchemeOptions { spec_version: Some(SpecVersion::Spec2025), ..options });
    let colors = MaterialDynamicColors::all_colors().iter().map(|c| (c.name.clone(), c.get_argb(&scheme))).collect();
    (colors, MaterialDynamicColors::surface_tint().get_argb(&scheme))
}

/// Roles from the named colours of a scheme (by the positions of
/// `all_color_names`) and its surface tint. The fixed error roles take the
/// error and on-error colours.
pub open spec fn roles_from_colors(colors: Seq<(Seq<char>, u32)>, tint: u32) -> MaterialRoles {
    MaterialRoles {
        primary: Rgb::spec_from_argb(colors[16].1),
        on_primary: Rgb::spec_from_argb(colors[17].1),
        primary_container: Rgb::spec_from_argb(colors[18].1),
        on_primary_container: Rgb::spec_from_argb(colors[19].1),
        primary_fixed: Rgb::spec_from_argb(colors[20].1),
        primary_fixed_dim: Rgb::spec_from_argb(colors[21].1),
        on_primary_fixed: Rgb::spec_from_argb(colors[22].1),
        on_primary_fixed_variant: Rgb::spec_from_argb(colors[23].1),
        secondary: Rgb::spec_from_argb(colors[25].1),
        on_secondary: Rgb::spec_from_argb(colors[26].1),
        secondary_container: Rgb::spec_from_argb(colors[27].1),
        on_secondary_container: Rgb::spec_from_argb(colors[28].1),
        secondary_fixed: Rgb::spec_from_argb(colors[29].1),
        secondary_fixed_dim: Rgb::spec_from_argb(colors[30].1),
        on_secondary_fixed: Rgb::spec_from_argb(colors[31].1),
        on_secondary_fixed_variant: Rgb::spec_from_argb(colors[32].1),
        tertiary: Rgb::spec_from_argb(colors[33].1),
        on_tertiary: Rgb::spec_from_argb(colors[34].1),
        tertiary_container: Rgb::spec_from_argb(colors[35].1),
        on_tertiary_container: Rgb::spec_from_argb(colors[36].1),
        tertiary_fixed: Rgb::spec_from_argb(colors[37].1),
        tertiary_fixed_dim: Rgb::spec_from_argb(colors[38].1),
        on_tertiary_fixed: Rgb::spec_from_argb(colors[39].1),
        on_tertiary_fixed_variant: Rgb::spec_from_argb(colors[40].1),
        error: Rgb::spec_from_argb(colors[41].1),
        on_error: Rgb::spec_from_argb(colors[42].1),
        error_container: Rgb::spec_from_argb(colors[43].1),
        on_error_container: Rgb::spec_from_argb(colors[44].1),
        error_fixed: Rgb::spec_from_argb(colors[41].1),
        error_fixed_dim: Rgb::spec_from_argb(colors[41].1),
        on_error_fixed: Rgb::spec_from_argb(colors[42].1),
        on_error_fixed_variant: Rgb::spec_from_argb(colors[42].1),
        surface: Rgb::spec_from_argb(colors[2].1),
        on_surface: Rgb::spec_from_argb(colors[10].1),
        surface_container: Rgb::spec_from_argb(colors[7].1),
        surface_container_low: Rgb::spec_from_argb(colors[6].1),
        surface_container_high: Rgb::spec_from_argb(colors[8].1),
        surface_container_highest: Rgb::spec_from_argb(colors[9].1),
        surface_bright: Rgb::spec_from_argb(colors[4].1),
        surface_dim: Rgb::spec_from_argb(colors[3].1),
        on_surface_variant: Rgb::spec_from_argb(colors[11].1),
        surface_tint: Rgb::spec_from_argb(tint),
        surface_container_lowest: Rgb::spec_from_argb(colors[5].1),
        outline: Rgb::spec_from_argb(colors[12].1),
        outline_variant: Rgb::spec_from_argb(colors[13].1),
        inverse_surface: Rgb::spec_from_argb(colors[14].1),
        inverse_on_surface: Rgb::spec_from_argb(colors[15].1),
        inverse_primary: Rgb::spec_from_argb(colors[24].1),
        background: Rgb::spec_from_argb(colors[0].1),
        on_background: Rgb::spec_from_argb(colors[1].1),
    }
}

/// `c` is the colour that the list holds under `name`, among the first
/// 45 entries.
pub open spec fn listed_as(colors: Seq<(Seq<char>, u32)>, name: Seq<char>, c: Rgb) -> bool {
    exists|i: int| 0 <= i < 45 && i < colors.len() && (#[trigger] colors[i]).0 == name && c == Rgb::spec_from_argb(colors[i].1)
}

/// The first 45 names of the list are those of `all_color_names`.
pub open spec fn names_follow(colors: Seq<(Seq<char>, u32)>) -> bool {
    colors.len() >= 45 && forall|i: int| 0 <= i < 45 ==> (#[trigger] colors[i]).0 == all_color_names()[i]
}

/// Every role of `r` is the colour listed under the role's own name (the
/// fixed error roles take `error` and `on_error`), and the surface tint is
/// `tint`.
pub open spec fn roles_named(colors: Seq<(Seq<char>, u32)>, tint: u32, r: MaterialRoles) -> bool {
        &&& listed_as(colors, "primary"@, r.primary)
        &&& listed_as(colors, "on_primary"@, r.on_primary)
        &&& listed_as(colors, "primary_container"@, r.primary_container)
        &&& listed_as(colors, "on_primary_container"@, r.on_primary_container)
        &&& listed_as(colors, "primary_fixed"@, r.primary_fixed)
        &&& listed_as(colors, "primary_fixed_dim"@, r.primary_fixed_dim)
        &&& listed_as(colors, "on_primary_fixed"@, r.on_primary_fixed)
        &&& listed_as(colors, "on_primary_fixed_variant"@, r.on_primary_fixed_variant)
        &&& listed_as(colors, "secondary"@, r.secondary)
        &&& listed_as(colors, "on_secondary"@, r.on_secondary)
        &&& listed_as(colors, "secondary_container"@, r.secondary_container)
        &&& listed_as(colors, "on_secondary_container"@, r.on_secondary_container)
        &&& listed_as(colors, "secondary_fixed"@, r.secondary_fixed)
        &&& listed_as(colors, "secondary_fixed_dim"@, r.secondary_fixed_dim)
        &&& listed_as(colors, "on_secondary_fixed"@, r.on_secondary_fixed)
        &&& listed_as(colors, "on_secondary_fixed_variant"@, r.on_secondary_fixed_variant)
        &&& listed_as(colors, "tertiary"@, r.tertiary)
        &&& listed_as(colors, "on_tertiary"@, r.on_tertiary)
        &&& listed_as(colors, "tertiary_container"@, r.tertiary_container)
        &&& listed_as(colors, "on_tertiary_container"@, r.on_tertiary_container)
        &&& listed_as(colors, "tertiary_fixed"@, r.tertiary_fixed)
        &&& listed_as(colors, "tertiary_fixed_dim"@, r.tertiary_fixed_dim)
        &&& listed_as(colors, "on_tertiary_fixed"@, r.on_tertiary_fixed)
        &&& listed_as(colors, "on_tertiary_fixed_variant"@, r.on_tertiary_fixed_variant)
        &&& listed_as(colors, "error"@, r.error)
        &&& listed_as(colors, "on_error"@, r.on_error)
        &&& listed_as(colors, "error_container"@, r.error_container)
        &&& listed_as(colors, "on_error_container"@, r.on_error_container)
        &&& listed_as(colors, "error"@, r.error_fixed)
        &&& listed_as(colors, "error"@, r.error_fixed_dim)
        &&& listed_as(colors, "on_error"@, r.on_error_fixed)
        &&& listed_as(colors, "on_error"@, r.on_error_fixed_variant)
        &&& listed_as(colors, "surface"@, r.surface)
        &&& listed_as(colors, "on_surface"@, r.on_surface)
        &&& listed_as(colors, "surface_container"@, r.surface_container)
        &&& listed_as(colors, "surface_container_low"@, r.surface_container_low)
        &&& listed_as(colors, "surface_container_high"@, r.surface_container_high)
        &&& listed_as(colors, "surface_container_highest"@, r.surface_container_highest)
        &&& listed_as(colors, "surface_bright"@, r.surface_bright)
        &&& listed_as(colors, "surface_dim"@, r.surface_dim)
        &&& listed_as(colors, "on_surface_variant"@, r.on_surface_variant)
        &&& listed_as(colors, "surface_container_lowest"@, r.surface_container_lowest)
        &&& listed_as(colors, "outline"@, r.outline)
        &&& listed_as(colors, "outline_variant"@, r.outline_variant)
        &&& listed_as(colors, "inverse_surface"@, r.inverse_surface)
        &&& listed_as(colors, "inverse_on_surface"@, r.inverse_on_surface)
        &&& listed_as(colors, "inverse_primary"@, r.inverse_primary)
        &&& listed_as(colors, "background"@, r.background)
        &&& listed_as(colors, "on_background"@, r.on_background)
        &&& r.surface_tint == Rgb::spec_from_argb(tint)
}

/// For a list whose names follow `MaterialDynamicColors::all_colors`, each
/// role read from it is the colour listed under that role's own name, so
/// `secondary` is the entry named `secondary`, not another tone.
pub proof fn lemma_roles_by_name(colors: Seq<(Seq<char>, u32)>, tint: u32)
    requires
        names_follow(colors),
    ensures
        roles_named(colors, tint, roles_from_colors(colors, tint)),
{
    let r = roles_from_colors(colors, tint);
    assert(colors[16].0 == all_color_names()[16]);
    assert(listed_as(colors, "primary"@, r.primary));
    assert(colors[17].0 == all_color_names()[17]);
    assert(listed_as(colors, "on_primary"@, r.on_primary));
    assert(colors[18].0 == all_color_names()[18]);
    assert(listed_as(colors, "primary_container"@, r.primary_container));
    assert(colors[19].0 == all_color_names()[19]);
    assert(listed_as(colors, "on_primary_container"@, r.on_primary_container));
    assert(colors[20].0 == all_color_names()[20]);
    assert(listed_as(colors, "primary_fixed"@, r.primary_fixed));
    assert(colors[21].0 == all_color_names()[21]);
    assert(listed_as(colors, "primary_fixed_dim"@, r.primary_fixed_dim));
    assert(colors[22].0 == all_color_names()[22]);
    assert(listed_as(colors, "on_primary_fixed"@, r.on_primary_fixed));
    assert(colors[23].0 == all_color_names()[23]);
    assert(listed_as(colors, "on_primary_fixed_variant"@, r.on_primary_fixed_variant));
    assert(colors[25].0 == all_color_names()[25]);
    assert(listed_as(colors, "secondary"@, r.secondary));
    assert(colors[26].0 == all_color_names()[26]);
    assert(listed_as(colors, "on_secondary"@, r.on_secondary));
    assert(colors[27].0 == all_color_names()[27]);
    assert(listed_as(colors, "secondary_container"@, r.secondary_container));
    assert(colors[28].0 == all_color_names()[28]);
    assert(listed_as(colors, "on_secondary_container"@, r.on_secondary_container));
    assert(colors[29].0 == all_color_names()[29]);
    assert(listed_as(colors, "secondary_fixed"@, r.secondary_fixed));
    assert(colors[30].0 == all_color_names()[30]);
    assert(listed_as(colors, "secondary_fixed_dim"@, r.secondary_fixed_dim));
    assert(colors[31].0 == all_color_names()[31]);
    assert(listed_as(colors, "on_secondary_fixed"@, r.on_secondary_fixed));
    assert(colors[32].0 == all_color_names()[32]);
    assert(listed_as(colors, "on_secondary_fixed_variant"@, r.on_secondary_fixed_variant));
    assert(colors[33].0 == all_color_names()[33]);
    assert(listed_as(colors, "tertiary"@, r.tertiary));
    assert(colors[34].0 == all_color_names()[34]);
    assert(listed_as(colors, "on_tertiary"@, r.on_tertiary));
    assert(colors[35].0 == all_color_names()[35]);
    assert(listed_as(colors, "tertiary_container"@, r.tertiary_container));
    assert(colors[36].0 == all_color_names()[36]);
    assert(listed_as(colors, "on_tertiary_container"@, r.on_tertiary_container));
    assert(colors[37].0 == all_color_names()[37]);
    assert(listed_as(colors, "tertiary_fixed"@, r.tertiary_fixed));
    assert(colors[38].0 == all_color_names()[38]);
    assert(listed_as(colors, "tertiary_fixed_dim"@, r.tertiary_fixed_dim));
    assert(colors[39].0 == all_color_names()[39]);
    assert(listed_as(colors, "on_tertiary_fixed"@, r.on_tertiary_fixed));
    assert(colors[40].0 == all_color_names()[40]);
    assert(listed_as(colors, "on_tertiary_fixed_variant"@, r.on_tertiary_fixed_variant));
    assert(colors[41].0 == all_color_names()[41]);
    assert(listed_as(colors, "error"@, r.error));
    assert(colors[42].0 == all_color_names()[42]);
    assert(listed_as(colors, "on_error"@, r.on_error));
    assert(colors[43].0 == all_color_names()[43]);
    assert(listed_as(colors, "error_container"@, r.error_container));
    assert(colors[44].0 == all_color_names()[44]);
    assert(listed_as(colors, "on_error_container"@, r.on_error_container));
    assert(colors[41].0 == all_color_names()[41]);
    assert(listed_as(colors, "error"@, r.error_fixed));
    assert(colors[41].0 == all_color_names()[41]);
    assert(listed_as(colors, "error"@, r.error_fixed_dim));
    assert(colors[42].0 == all_color_names()[42]);
    assert(listed_as(colors, "on_error"@, r.on_error_fixed));
    assert(colors[42].0 == all_color_names()[42]);
    assert(listed_as(colors, "on_error"@, r.on_error_fixed_variant));
    assert(colors[2].0 == all_color_names()[2]);
    assert(listed_as(colors, "surface"@, r.surface));
    assert(colors[10].0 == all_color_names()[10]);
    assert(listed_as(colors, "on_surface"@, r.on_surface));
    assert(colors[7].0 == all_color_names()[7]);
    assert(listed_as(colors, "surface_container"@, r.surface_container));
    assert(colors[6].0 == all_color_names()[6]);
    assert(listed_as(colors, "surface_container_low"@, r.surface_container_low));
    assert(colors[8].0 == all_color_names()[8]);
    assert(listed_as(colors, "surface_container_high"@, r.surface_container_high));
    assert(colors[9].0 == all_color_names()[9]);
    assert(listed_as(colors, "surface_container_highest"@, r.surface_container_highest));
    assert(colors[4].0 == all_color_names()[4]);
    assert(listed_as(colors, "surface_bright"@, r.surface_bright));
    assert(colors[3].0 == all_color_names()[3]);
    assert(listed_as(colors, "surface_dim"@, r.surface_dim));
    assert(colors[11].0 == all_color_names()[11]);
    assert(listed_as(colors, "on_surface_variant"@, r.on_surface_variant));
    assert(colors[5].0 == all_color_names()[5]);
    assert(listed_as(colors, "surface_container_lowest"@, r.surface_container_lowest));
    assert(colors[12].0 == all_color_names()[12]);
    assert(listed_as(colors, "outline"@, r.outline));
    assert(colors[13].0 == all_color_names()[13]);
    assert(listed_as(colors, "outline_variant"@, r.outline_variant));
    assert(colors[14].0 == all_color_names()[14]);
    assert(listed_as(colors, "inverse_surface"@, r.inverse_surface));
    assert(colors[15].0 == all_color_names()[15]);
    assert(listed_as(colors, "inverse_on_surface"@, r.inverse_on_surface));
    assert(colors[24].0 == all_color_names()[24]);
    assert(listed_as(colors, "inverse_primary"@, r.inverse_primary));
    assert(colors[0].0 == all_color_names()[0]);
    assert(listed_as(colors, "background"@, r.background));
    assert(colors[1].0 == all_color_names()[1]);
    assert(listed_as(colors, "on_background"@, r.on_background));
}

pub open spec fn colors_view(v: Seq<(String, u32)>) -> Seq<(Seq<char>, u32)> {
    v.map_values(|p: (String, u32)| (p.0@, p.1))
}

/// The roles of the dynamic scheme for a seed (ARGB), a style, a contrast
/// level (decimal text) and dark or light.
pub open spec fn scheme_roles(seed: u32, style: Style, contrast: Seq<char>, is_dark: bool) -> MaterialRoles {
    roles_from_colors(scheme_colors(seed, style, contrast, is_dark), scheme_tint(seed, style, contrast, is_dark))
}

pub struct RoleExtractor;

impl RoleExtractor {
    /// The roles from a scheme's named colours and its surface tint.
    pub fn from_colors(colors: &Vec<(String, u32)>, tint: u32) -> (res: MaterialRoles)
        requires
            colors@.len() >= 45,
        ensures
            res == roles_from_colors(colors_view(colors@), tint),
            names_follow(colors_view(colors@)) ==> roles_named(colors_view(colors@), tint, res),
    {
        proof {
            assert forall|i: int| 0 <= i < 45 implies colors_view(colors@)[i].1 == #[trigger] colors@[i].1 by {}
            if names_follow(colors_view(colors@)) {
                lemma_roles_by_name(colors_view(colors@), tint);
            }
        }
        MaterialRoles {
            primary: Rgb::from_argb_u32(colors[16].1),
            on_primary: Rgb::from_argb_u32(colors[17].1),
            primary_container: Rgb::from_argb_u32(colors[18].1),
            on_primary_container: Rgb::from_argb_u32(colors[19].1),
            primary_fixed: Rgb::from_argb_u32(colors[20].1),
            primary_fixed_dim: Rgb::from_argb_u32(colors[21].1),
            on_primary_fixed: Rgb::from_argb_u32(colors[22].1),
            on_primary_fixed_variant: Rgb::from_argb_u32(colors[23].1),
            secondary: Rgb::from_argb_u32(colors[25].1),
            on_secondary: Rgb::from_argb_u32(colors[26].1),
            secondary_container: Rgb::from_argb_u32(colors[27].1),
            on_secondary_container: Rgb::from_argb_u32(colors[28].1),
            secondary_fixed: Rgb::from_argb_u32(colors[29].1),
            secondary_fixed_dim: Rgb::from_argb_u32(colors[30].1),
            on_secondary_fixed: Rgb::from_argb_u32(colors[31].1),
            on_secondary_fixed_variant: Rgb::from_argb_u32(colors[32].1),
            tertiary: Rgb::from_argb_u32(colors[33].1),
            on_tertiary: Rgb::from_argb_u32(colors[34].1),
            tertiary_container: Rgb::from_argb_u32(colors[35].1),
            on_tertiary_container: Rgb::from_argb_u32(colors[36].1),
            tertiary_fixed: Rgb::from_argb_u32(colors[37].1),
            tertiary_fixed_dim: Rgb::from_argb_u32(colors[38].1),
            on_tertiary_fixed: Rgb::from_argb_u32(colors[39].1),
            on_tertiary_fixed_variant: Rgb::from_argb_u32(colors[40].1),
            error: Rgb::from_argb_u32(colors[41].1),
            on_error: Rgb::from_argb_u32(colors[42].1),
            error_container: Rgb::from_argb_u32(colors[43].1),
            on_error_container: Rgb::from_argb_u32(colors[44].1),
            error_fixed: Rgb::from_argb_u32(colors[41].1),
            error_fixed_dim: Rgb::from_argb_u32(colors[41].1),
            on_error_fixed: Rgb::from_argb_u32(colors[42].1),
            on_error_fixed_variant: Rgb::from_argb_u32(colors[42].1),
            surface: Rgb::from_argb_u32(colors[2].1),
            on_surface: Rgb::from_argb_u32(colors[10].1),
            surface_container: Rgb::from_argb_u32(colors[7].1),
            surface_container_low: Rgb::from_argb_u32(colors[6].1),
            surface_container_high: Rgb::from_argb_u32(colors[8].1),
            surface_container_highest: Rgb::from_argb_u32(colors[9].1),
            surface_bright: Rgb::from_argb_u32(colors[4].1),
            surface_dim: Rgb::from_argb_u32(colors[3].1),
            on_surface_variant: Rgb::from_argb_u32(colors[11].1),
            surface_tint: Rgb::from_argb_u32(tint),
            surface_container_lowest: Rgb::from_argb_u32(colors[5].1),
            outline: Rgb::from_argb_u32(colors[12].1),
            outline_variant: Rgb::from_argb_u32(colors[13].1),
            inverse_surface: Rgb::from_argb_u32(colors[14].1),
            inverse_on_surface: Rgb::from_argb_u32(colors[15].1),
            inverse_primary: Rgb::from_argb_u32(colors[24].1),
            background: Rgb::from_argb_u32(colors[0].1),
            on_background: Rgb::from_argb_u32(colors[1].1),
        }
    }

    /// The roles of the dynamic scheme for the seed, the style, dark or
    /// light and the contrast level (decimal text).
    pub fn extract(seed: &Rgb, style: Style, is_dark: bool, contrast: &str) -> (res: MaterialRoles)
        requires
            float_syntax(contrast@),
        ensures
            res == scheme_roles(seed.spec_argb(), style, contrast@, is_dark),
            roles_named(
                scheme_colors(seed.spec_argb(), style, contrast@, is_dark),
                scheme_tint(seed.spec_argb(), style, contrast@, is_dark),
                res,
            ),
    {
        let (colors, tint) = scheme_palette(seed.to_argb_u32(), style, contrast, is_dark);
        proof {
            assert forall|i: int| 0 <= i < 45 implies (#[trigger] colors_view(colors@)[i]).0
                == all_color_names()[i] by {
                assert(colors_view(colors@)[i].0 == colors@[i].0@);
            }
        }
        Self::from_colors(&colors, tint)
    }
}

} // verus!
