//! The base16 palette, taken from the Material roles.
use vstd::prelude::*;
use crate::color::types::{MaterialRoles, Rgb};

verus! {

/// `base00` to `base15`, in order.
pub open spec fn base16_of(r: MaterialRoles) -> Seq<Rgb> {
    seq![
        r.surface_container_lowest,
        r.surface_container_low,
        r.surface_container_high,
        r.outline,
        r.on_surface_variant,
        r.on_surface,
        r.inverse_on_surface,
        r.surface_bright,
        r.error,
        r.error_container,
        r.tertiary,
        r.secondary,
        r.tertiary_container,
        r.primary,
        r.primary_container,
        r.outline_variant,
    ]
}

/// Which role each base16 slot shows: `base00` the lowest surface
/// container through `base15` the outline variant, with `base13` the
/// primary colour and `base14` the primary container.
pub proof fn lemma_base16_slots(r: MaterialRoles)
    ensures
        base16_of(r).len() == 16,
        base16_of(r)[0] == r.surface_container_lowest,
        base16_of(r)[1] == r.surface_container_low,
        base16_of(r)[2] == r.surface_container_high,
        base16_of(r)[3] == r.outline,
        base16_of(r)[4] == r.on_surface_variant,
        base16_of(r)[5] == r.on_surface,
        base16_of(r)[6] == r.inverse_on_surface,
        base16_of(r)[7] == r.surface_bright,
        base16_of(r)[8] == r.error,
        base16_of(r)[9] == r.error_container,
        base16_of(r)[10] == r.tertiary,
        base16_of(r)[11] == r.secondary,
        base16_of(r)[12] == r.tertiary_container,
        base16_of(r)[13] == r.primary,
        base16_of(r)[14] == r.primary_container,
        base16_of(r)[15] == r.outline_variant,
{
}

pub struct Base16Generator;

impl Base16Generator {
    pub fn from_roles(roles: &MaterialRoles) -> (res: [Rgb; 16])
        ensures
            res@ == base16_of(*roles),
            res[0] == roles.surface_container_lowest,
            res[1] == roles.surface_container_low,
            res[2] == roles.surface_container_high,
            res[3] == roles.outline,
            res[4] == roles.on_surface_variant,
            res[5] == roles.on_surface,
            res[6] == roles.inverse_on_surface,
            res[7] == roles.surface_bright,
            res[8] == roles.error,
            res[9] == roles.error_container,
            res[10] == roles.tertiary,
            res[11] == roles.secondary,
            res[12] == roles.tertiary_container,
            res[13] == roles.primary,
            res[14] == roles.primary_container,
            res[15] == roles.outline_variant,
    {
        let res = [
            roles.surface_container_lowest,
            roles.surface_container_low,
            roles.surface_container_high,
            roles.outline,
            roles.on_surface_variant,
            roles.on_surface,
            roles.inverse_on_surface,
            roles.surface_bright,
            roles.error,
            roles.error_container,
            roles.tertiary,
            roles.secondary,
            roles.tertiary_container,
            roles.primary,
            roles.primary_container,
            roles.outline_variant,
        ];
        proof {
            assert(res@ =~= base16_of(*roles));
        }
        res
    }
}

} // verus!
