//! Blending colours through the CAM16-UCS space of Material Color Utilities.
use vstd::prelude::*;
use mcu_material_color::blend::Blend;
use crate::color::types::{MaterialRoles, Rgb};
use crate::num::{float_syntax, placement_in_unit, unit_placement, Placement};
use crate::template::parser::lemma_fits;
use crate::text::chars_of;

verus! {

/// `Blend::cam16_ucs(from, to, amount)` of Material Color Utilities, with the
/// amount given as the decimal text it is parsed from.
pub uninterp spec fn cam16_ucs_blend(from: u32, to: u32, amount: Seq<char>) -> u32;

/// `Blend::harmonize(design, source)` of Material Color Utilities.
pub uninterp spec fn harmonized(design: u32, source: u32) -> u32;

/// Trusted: calls `Blend::cam16_ucs` with the amount that `str::parse` reads
/// from `amount`; the requirement keeps that parse from failing. The result
/// is named, not described.
#[verifier::external_body]
fn cam16_ucs(from: u32, to: u32, amount: &str) -> (res: u32)
    requires
        float_syntax(amount@),
    ensures
        res == cam16_ucs_blend(from, to, amount@),
{
    Blend::cam16_ucs(from, to, amount.parse().unwrap())
}

/// Trusted: calls `Blend::harmonize`; the result is named, not described.
#[verifier::external_body]
fn harmonize(design: u32, source: u32) -> (res: u32)
    ensures
        res == harmonized(design, source),
{
    Blend::harmonize(design, source)
}

pub open spec fn spec_lerp(a: Rgb, b: Rgb, ratio: Seq<char>) -> Rgb {
    Rgb::spec_from_argb(cam16_ucs_blend(a.spec_argb(), b.spec_argb(), ratio))
}

/// Interpolates between two colours in CAM16-UCS; `ratio` is the decimal text
/// of the interpolation amount (0 gives `a`, 1 gives `b`).
pub fn lerp_rgb(a: &Rgb, b: &Rgb, ratio: &str) -> (res: Rgb)
    requires
        float_syntax(ratio@),
    ensures
        res == spec_lerp(*a, *b, ratio@),
{
    Rgb::from_argb_u32(cam16_ucs(a.to_argb_u32(), b.to_argb_u32(), ratio))
}

pub open spec fn spec_blend_roles(a: MaterialRoles, b: MaterialRoles, ratio: Seq<char>) -> MaterialRoles {
    MaterialRoles {
        primary: spec_lerp(a.primary, b.primary, ratio),
        on_primary: spec_lerp(a.on_primary, b.on_primary, ratio),
        primary_container: spec_lerp(a.primary_container, b.primary_container, ratio),
        on_primary_container: spec_lerp(a.on_primary_container, b.on_primary_container, ratio),
        primary_fixed: spec_lerp(a.primary_fixed, b.primary_fixed, ratio),
        primary_fixed_dim: spec_lerp(a.primary_fixed_dim, b.primary_fixed_dim, ratio),
        on_primary_fixed: spec_lerp(a.on_primary_fixed, b.on_primary_fixed, ratio),
        on_primary_fixed_variant: spec_lerp(a.on_primary_fixed_variant, b.on_primary_fixed_variant, ratio),
        secondary: spec_lerp(a.secondary, b.secondary, ratio),
        on_secondary: spec_lerp(a.on_secondary, b.on_secondary, ratio),
        secondary_container: spec_lerp(a.secondary_container, b.secondary_container, ratio),
        on_secondary_container: spec_lerp(a.on_secondary_container, b.on_secondary_container, ratio),
        secondary_fixed: spec_lerp(a.secondary_fixed, b.secondary_fixed, ratio),
        secondary_fixed_dim: spec_lerp(a.secondary_fixed_dim, b.secondary_fixed_dim, ratio),
        on_secondary_fixed: spec_lerp(a.on_secondary_fixed, b.on_secondary_fixed, ratio),
        on_secondary_fixed_variant: spec_lerp(a.on_secondary_fixed_variant, b.on_secondary_fixed_variant, ratio),
        tertiary: spec_lerp(a.tertiary, b.tertiary, ratio),
        on_tertiary: spec_lerp(a.on_tertiary, b.on_tertiary, ratio),
        tertiary_container: spec_lerp(a.tertiary_container, b.tertiary_container, ratio),
        on_tertiary_container: spec_lerp(a.on_tertiary_container, b.on_tertiary_container, ratio),
        tertiary_fixed: spec_lerp(a.tertiary_fixed, b.tertiary_fixed, ratio),
        tertiary_fixed_dim: spec_lerp(a.tertiary_fixed_dim, b.tertiary_fixed_dim, ratio),
        on_tertiary_fixed: spec_lerp(a.on_tertiary_fixed, b.on_tertiary_fixed, ratio),
        on_tertiary_fixed_variant: spec_lerp(a.on_tertiary_fixed_variant, b.on_tertiary_fixed_variant, ratio),
        error: spec_lerp(a.error, b.error, ratio),
        on_error: spec_lerp(a.on_error, b.on_error, ratio),
        error_container: spec_lerp(a.error_container, b.error_container, ratio),
        on_error_container: spec_lerp(a.on_error_container, b.on_error_container, ratio),
        error_fixed: spec_lerp(a.error_fixed, b.error_fixed, ratio),
        error_fixed_dim: spec_lerp(a.error_fixed_dim, b.error_fixed_dim, ratio),
        on_error_fixed: spec_lerp(a.on_error_fixed, b.on_error_fixed, ratio),
        on_error_fixed_variant: spec_lerp(a.on_error_fixed_variant, b.on_error_fixed_variant, ratio),
        surface: spec_lerp(a.surface, b.surface, ratio),
        on_surface: spec_lerp(a.on_surface, b.on_surface, ratio),
        surface_container: spec_lerp(a.surface_container, b.surface_container, ratio),
        surface_container_low: spec_lerp(a.surface_container_low, b.surface_container_low, ratio),
        surface_container_high: spec_lerp(a.surface_container_high, b.surface_container_high, ratio),
        surface_container_highest: spec_lerp(a.surface_container_highest, b.surface_container_highest, ratio),
        surface_bright: spec_lerp(a.surface_bright, b.surface_bright, ratio),
        surface_dim: spec_lerp(a.surface_dim, b.surface_dim, ratio),
        on_surface_variant: spec_lerp(a.on_surface_variant, b.on_surface_variant, ratio),
        surface_tint: spec_lerp(a.surface_tint, b.surface_tint, ratio),
        surface_container_lowest: spec_lerp(a.surface_container_lowest, b.surface_container_lowest, ratio),
        outline: spec_lerp(a.outline, b.outline, ratio),
        outline_variant: spec_lerp(a.outline_variant, b.outline_variant, ratio),
        inverse_surface: spec_lerp(a.inverse_surface, b.inverse_surface, ratio),
        inverse_on_surface: spec_lerp(a.inverse_on_surface, b.inverse_on_surface, ratio),
        inverse_primary: spec_lerp(a.inverse_primary, b.inverse_primary, ratio),
        background: spec_lerp(a.background, b.background, ratio),
        on_background: spec_lerp(a.on_background, b.on_background, ratio)
    }
}

/// Blends every role of two schemes with the same ratio.
pub fn blend_roles(a: &MaterialRoles, b: &MaterialRoles, ratio: &str) -> (res: MaterialRoles)
    requires
        float_syntax(ratio@),
    ensures
        res == spec_blend_roles(*a, *b, ratio@),
{
    MaterialRoles {
        primary: lerp_rgb(&a.primary, &b.primary, ratio),
        on_primary: lerp_rgb(&a.on_primary, &b.on_primary, ratio),
        primary_container: lerp_rgb(&a.primary_container, &b.primary_container, ratio),
        on_primary_container: lerp_rgb(&a.on_primary_container, &b.on_primary_container, ratio),
        primary_fixed: lerp_rgb(&a.primary_fixed, &b.primary_fixed, ratio),
        primary_fixed_dim: lerp_rgb(&a.primary_fixed_dim, &b.primary_fixed_dim, ratio),
        on_primary_fixed: lerp_rgb(&a.on_primary_fixed, &b.on_primary_fixed, ratio),
        on_primary_fixed_variant: lerp_rgb(&a.on_primary_fixed_variant, &b.on_primary_fixed_variant, ratio),
        secondary: lerp_rgb(&a.secondary, &b.secondary, ratio),
        on_secondary: lerp_rgb(&a.on_secondary, &b.on_secondary, ratio),
        secondary_container: lerp_rgb(&a.secondary_container, &b.secondary_container, ratio),
        on_secondary_container: lerp_rgb(&a.on_secondary_container, &b.on_secondary_container, ratio),
        secondary_fixed: lerp_rgb(&a.secondary_fixed, &b.secondary_fixed, ratio),
        secondary_fixed_dim: lerp_rgb(&a.secondary_fixed_dim, &b.secondary_fixed_dim, ratio),
        on_secondary_fixed: lerp_rgb(&a.on_secondary_fixed, &b.on_secondary_fixed, ratio),
        on_secondary_fixed_variant: lerp_rgb(&a.on_secondary_fixed_variant, &b.on_secondary_fixed_variant, ratio),
        tertiary: lerp_rgb(&a.tertiary, &b.tertiary, ratio),
        on_tertiary: lerp_rgb(&a.on_tertiary, &b.on_tertiary, ratio),
        tertiary_container: lerp_rgb(&a.tertiary_container, &b.tertiary_container, ratio),
        on_tertiary_container: lerp_rgb(&a.on_tertiary_container, &b.on_tertiary_container, ratio),
        tertiary_fixed: lerp_rgb(&a.tertiary_fixed, &b.tertiary_fixed, ratio),
        tertiary_fixed_dim: lerp_rgb(&a.tertiary_fixed_dim, &b.tertiary_fixed_dim, ratio),
        on_tertiary_fixed: lerp_rgb(&a.on_tertiary_fixed, &b.on_tertiary_fixed, ratio),
        on_tertiary_fixed_variant: lerp_rgb(&a.on_tertiary_fixed_variant, &b.on_tertiary_fixed_variant, ratio),
        error: lerp_rgb(&a.error, &b.error, ratio),
        on_error: lerp_rgb(&a.on_error, &b.on_error, ratio),
        error_container: lerp_rgb(&a.error_container, &b.error_container, ratio),
        on_error_container: lerp_rgb(&a.on_error_container, &b.on_error_container, ratio),
        error_fixed: lerp_rgb(&a.error_fixed, &b.error_fixed, ratio),
        error_fixed_dim: lerp_rgb(&a.error_fixed_dim, &b.error_fixed_dim, ratio),
        on_error_fixed: lerp_rgb(&a.on_error_fixed, &b.on_error_fixed, ratio),
        on_error_fixed_variant: lerp_rgb(&a.on_error_fixed_variant, &b.on_error_fixed_variant, ratio),
        surface: lerp_rgb(&a.surface, &b.surface, ratio),
        on_surface: lerp_rgb(&a.on_surface, &b.on_surface, ratio),
        surface_container: lerp_rgb(&a.surface_container, &b.surface_container, ratio),
        surface_container_low: lerp_rgb(&a.surface_container_low, &b.surface_container_low, ratio),
        surface_container_high: lerp_rgb(&a.surface_container_high, &b.surface_container_high, ratio),
        surface_container_highest: lerp_rgb(&a.surface_container_highest, &b.surface_container_highest, ratio),
        surface_bright: lerp_rgb(&a.surface_bright, &b.surface_bright, ratio),
        surface_dim: lerp_rgb(&a.surface_dim, &b.surface_dim, ratio),
        on_surface_variant: lerp_rgb(&a.on_surface_variant, &b.on_surface_variant, ratio),
        surface_tint: lerp_rgb(&a.surface_tint, &b.surface_tint, ratio),
        surface_container_lowest: lerp_rgb(&a.surface_container_lowest, &b.surface_container_lowest, ratio),
        outline: lerp_rgb(&a.outline, &b.outline, ratio),
        outline_variant: lerp_rgb(&a.outline_variant, &b.outline_variant, ratio),
        inverse_surface: lerp_rgb(&a.inverse_surface, &b.inverse_surface, ratio),
        inverse_on_surface: lerp_rgb(&a.inverse_on_surface, &b.inverse_on_surface, ratio),
        inverse_primary: lerp_rgb(&a.inverse_primary, &b.inverse_primary, ratio),
        background: lerp_rgb(&a.background, &b.background, ratio),
        on_background: lerp_rgb(&a.on_background, &b.on_background, ratio)
    }
}

pub open spec fn spec_harmonize(color: Rgb, target: Rgb) -> Rgb {
    Rgb::spec_from_argb(harmonized(color.spec_argb(), target.spec_argb()))
}

/// Shifts `color`'s hue toward `target`, keeping its tone and chroma.
pub fn harmonize_color(color: &Rgb, target: &Rgb) -> (res: Rgb)
    ensures
        res == spec_harmonize(*color, *target),
{
    Rgb::from_argb_u32(harmonize(color.to_argb_u32(), target.to_argb_u32()))
}

/// The amount text after clamping to `[0, 1]`: `0` below, `1` above, the
/// text itself otherwise (a NaN stays NaN, as `f64::clamp` leaves it).
pub open spec fn unit_clamped(amount: Seq<char>) -> Seq<char> {
    match unit_placement(amount) {
        Placement::Below => seq!['0'],
        Placement::Above => seq!['1'],
        _ => amount,
    }
}

/// Blends `color` toward `target` by `amount` clamped to `[0, 1]`.
pub fn blend_colors(color: &Rgb, target: &Rgb, amount: &str) -> (res: Rgb)
    requires
        float_syntax(amount@),
    ensures
        res == spec_lerp(*color, *target, unit_clamped(amount@)),
{
    let cs = chars_of(amount);
    proof {
        lemma_fits(cs@);
    }
    match placement_in_unit(&cs) {
        Placement::Below => {
            let zero = "0";
            proof {
                reveal_strlit("0");
                assert(zero@ =~= seq!['0']);
                crate::num::lemma_single_digit_syntax('0');
            }
            lerp_rgb(color, target, zero)
        },
        Placement::Above => {
            let one = "1";
            proof {
                reveal_strlit("1");
                assert(one@ =~= seq!['1']);
                crate::num::lemma_single_digit_syntax('1');
            }
            lerp_rgb(color, target, one)
        },
        _ => lerp_rgb(color, target, amount),
    }
}

} // verus!
