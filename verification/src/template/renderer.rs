//! From a colour scheme to the variables of templates, and from a template
//! source to its rendered text.
use vstd::prelude::*;
use crate::color::types::{ColorScheme, MaterialRoles, Rgb};
use crate::template::filters::strings_view;
use crate::template::interpreter::{
    eval_nodes, ContextView, EvalView, Evaluation, FloatAnswers, TemplateContext, TemplateEvaluator,
};
use crate::template::parser::{parse_error_message, spec_parse, TemplateParser};
use crate::text::{cat, copy_string, spec_digit};

verus! {

pub open spec fn role_vars(roles: MaterialRoles) -> Seq<(Seq<char>, Seq<char>)> {
    roles.spec_entries().map_values(|e: (Seq<char>, Rgb)| (e.0, e.1.spec_hex()))
}

/// `base00` to `base15`.
pub open spec fn base_name(i: int) -> Seq<char> {
    "base"@ + seq![spec_digit(i / 10), spec_digit(i % 10)]
}

pub open spec fn hexes(colors: Seq<Rgb>) -> Seq<Seq<char>> {
    colors.map_values(|c: Rgb| c.spec_hex())
}

pub open spec fn base_vars(colors: Seq<Rgb>) -> Seq<(Seq<char>, Seq<char>)> {
    Seq::new(colors.len(), |i: int| (base_name(i), colors[i].spec_hex()))
}

pub open spec fn named_colors_view(v: Seq<(String, Rgb)>) -> Seq<(Seq<char>, Rgb)> {
    v.map_values(|p: (String, Rgb)| (p.0@, p.1))
}

pub open spec fn custom_vars(custom: Seq<(Seq<char>, Rgb)>) -> Seq<(Seq<char>, Seq<char>)> {
    custom.map_values(|e: (Seq<char>, Rgb)| ("custom_"@ + e.0, e.1.spec_hex()))
}

/// The variables of a scheme: every role as `#rrggbb`, `wallpaper`,
/// `base00`..`base15`, and `custom_<name>` for each custom colour; the list
/// `colors` holds the base16 palette.
pub open spec fn scheme_context(
    roles: MaterialRoles,
    wallpaper: Seq<char>,
    base16: Seq<Rgb>,
    custom: Seq<(Seq<char>, Rgb)>,
) -> ContextView {
    ContextView {
        vars: role_vars(roles) + seq![("wallpaper"@, wallpaper)] + base_vars(base16) + custom_vars(
            custom,
        ),
        arrays: seq![("colors"@, hexes(base16))],
    }
}

/// What rendering a template file gives: its text, the message the
/// renderer fails with (naming the file), a floating-point request, or an
/// abort.
pub open spec fn render_result(
    filename: Seq<char>,
    source: Seq<char>,
    ctx: ContextView,
    answers: Seq<(crate::template::filters::RequestView, Seq<char>)>,
) -> EvalView {
    match spec_parse(source) {
        Err(offset) => EvalView::Failed(
            "failed to parse template '"@ + filename + "': "@ + parse_error_message(source, offset),
        ),
        Ok(nodes) => match eval_nodes(nodes, ctx, answers) {
            EvalView::Failed(e) => EvalView::Failed(
                "failed to evaluate template '"@ + filename + "': "@ + e,
            ),
            other => other,
        },
    }
}

fn base_name_of(i: usize) -> (res: String)
    requires
        i < 100,
    ensures
        res@ == base_name(i as int),
{
    let tens = crate::text::decimal((i / 10) as u64);
    let ones = crate::text::decimal((i % 10) as u64);
    proof {
        reveal_strlit("base");
        assert(crate::text::spec_decimal((i / 10) as nat) == seq![spec_digit((i / 10) as int)]);
        assert(crate::text::spec_decimal((i % 10) as nat) == seq![spec_digit((i % 10) as int)]);
    }
    let mut v: Vec<char> = Vec::new();
    v.push('b');
    v.push('a');
    v.push('s');
    v.push('e');
    v.push(tens[0]);
    v.push(ones[0]);
    proof {
        assert(v@ =~= base_name(i as int));
    }
    crate::text::string_of(v.as_slice())
}

pub struct TemplateRenderer;

impl TemplateRenderer {
    /// The variables and lists that templates of this scheme see.
    pub fn build_context(scheme: &ColorScheme, custom_colors: Option<&Vec<(String, Rgb)>>) -> (ctx: TemplateContext)
        ensures
            ctx@ == scheme_context(
                scheme.roles,
                scheme.wallpaper@,
                scheme.base16@,
                match custom_colors {
                    Some(c) => named_colors_view(c@),
                    None => Seq::empty(),
                },
            ),
            role_variables_hold(ctx@.vars, scheme.roles),
    {
        let mut ctx = TemplateContext::new();
        let entries = scheme.roles.entries();
        let ghost roles = role_vars(scheme.roles);
        let mut i: usize = 0;
        proof {
            assert(ctx@.vars =~= roles.take(0));
        }
        while i < entries.len()
            invariant
                i <= entries@.len(),
                entries@.len() == scheme.roles.spec_entries().len(),
                forall|k: int| 0 <= k < entries@.len() ==> (#[trigger] entries@[k]).0@
                    == scheme.roles.spec_entries()[k].0 && entries@[k].1
                    == scheme.roles.spec_entries()[k].1,
                roles == role_vars(scheme.roles),
                ctx@.vars == roles.take(i as int),
                ctx@.arrays.len() == 0,
            decreases entries@.len() - i,
        {
            let ghost before = ctx@.vars;
            ctx.insert_var(copy_string(entries[i].0.as_str()), entries[i].1.to_hex());
            proof {
                assert(roles.take(i + 1) =~= before.push(roles[i as int]));
            }
            i = i + 1;
        }
        proof {
            assert(roles.take(i as int) =~= roles);
        }
        ctx.insert_var(copy_string("wallpaper"), copy_string(scheme.wallpaper.as_str()));
        let ghost fixed = ctx@.vars;
        proof {
            assert(fixed =~= roles + seq![("wallpaper"@, scheme.wallpaper@)]);
        }
        let ghost bases = base_vars(scheme.base16@);
        let mut list: Vec<String> = Vec::new();
        let mut j: usize = 0;
        proof {
            assert(ctx@.vars =~= fixed + bases.take(0));
            assert(strings_view(list@) =~= hexes(scheme.base16@).take(0));
        }
        while j < 16
            invariant
                j <= 16,
                scheme.base16@.len() == 16,
                bases == base_vars(scheme.base16@),
                ctx@.vars == fixed + bases.take(j as int),
                strings_view(list@) == hexes(scheme.base16@).take(j as int),
                ctx@.arrays.len() == 0,
            decreases 16 - j,
        {
            let ghost before = ctx@.vars;
            let ghost before_list = list@;
            ctx.insert_var(base_name_of(j), scheme.base16[j].to_hex());
            list.push(scheme.base16[j].to_hex());
            proof {
                assert(bases.take(j + 1) =~= bases.take(j as int).push(bases[j as int]));
                assert(fixed + bases.take(j + 1) =~= before.push(bases[j as int]));
                assert(strings_view(list@) =~= strings_view(before_list).push(
                    scheme.base16@[j as int].spec_hex(),
                ));
                assert(hexes(scheme.base16@).take(j + 1) =~= hexes(scheme.base16@).take(
                    j as int,
                ).push(scheme.base16@[j as int].spec_hex()));
            }
            j = j + 1;
        }
        proof {
            assert(bases.take(16) =~= bases);
            assert(hexes(scheme.base16@).take(16) =~= hexes(scheme.base16@));
        }
        ctx.insert_array(copy_string("colors"), list);
        let ghost with_bases = ctx@.vars;
        proof {
            assert(ctx@.arrays =~= seq![("colors"@, hexes(scheme.base16@))]);
        }
        let ghost custom = match custom_colors {
            Some(c) => named_colors_view(c@),
            None => Seq::empty(),
        };
        proof {
            assert(with_bases =~= with_bases + custom_vars(Seq::<(Seq<char>, Rgb)>::empty()));
        }
        if let Some(named) = custom_colors {
            let ghost cv = custom_vars(named_colors_view(named@));
            let mut k: usize = 0;
            proof {
                assert(ctx@.vars =~= with_bases + cv.take(0));
            }
            while k < named.len()
                invariant
                    k <= named@.len(),
                    cv == custom_vars(named_colors_view(named@)),
                    ctx@.vars == with_bases + cv.take(k as int),
                    ctx@.arrays == seq![("colors"@, hexes(scheme.base16@))],
                decreases named@.len() - k,
            {
                let ghost before = ctx@.vars;
                ctx.insert_var(cat("custom_", named[k].0.as_str()), named[k].1.to_hex());
                proof {
                    assert(cv.take(k + 1) =~= cv.take(k as int).push(cv[k as int]));
                    assert(with_bases + cv.take(k + 1) =~= before.push(cv[k as int]));
                }
                k = k + 1;
            }
            proof {
                assert(cv.take(k as int) =~= cv);
            }
        }
        proof {
            assert(ctx@.vars =~= with_bases + custom_vars(custom));
            lemma_role_variables_by_name(scheme.roles, scheme.wallpaper@, scheme.base16@, custom);
        }
        ctx
    }

    /// Parses and evaluates one template file; a failure names the file.
    pub fn render_source(filename: &str, source: &str, context: &TemplateContext, answers: &FloatAnswers) -> (res: Evaluation)
        ensures
            res@ == render_result(filename@, source@, context@, answers@),
    {
        match TemplateParser::parse(source) {
            Err(e) => {
                let head = cat("failed to parse template '", filename);
                let mid = cat(head.as_str(), "': ");
                Evaluation::Failed(cat(mid.as_str(), e.as_str()))
            },
            Ok(nodes) => match TemplateEvaluator::evaluate(nodes.as_slice(), context, answers) {
                Evaluation::Failed(e) => {
                    let head = cat("failed to evaluate template '", filename);
                    let mid = cat(head.as_str(), "': ");
                    Evaluation::Failed(cat(mid.as_str(), e.as_str()))
                },
                other => other,
            },
        }
    }
}

} // verus!

verus! {

/// Looking a key up in `a + b` finds it in `b` first.
pub proof fn lemma_lookup_concat<K, V>(a: Seq<(K, V)>, b: Seq<(K, V)>, key: K)
    ensures
        crate::template::interpreter::lookup(a + b, key) == match crate::template::interpreter::lookup(b, key) {
            Some(v) => Some(v),
            None => crate::template::interpreter::lookup(a, key),
        },
    decreases b.len(),
{
    if b.len() == 0 {
        assert(a + b =~= a);
    } else {
        assert((a + b).drop_last() =~= a + b.drop_last());
        lemma_lookup_concat(a, b.drop_last(), key);
    }
}

/// An entry that no later entry shares its key with is what a lookup finds.
pub proof fn lemma_lookup_at<K, V>(s: Seq<(K, V)>, k: int)
    requires
        0 <= k < s.len(),
        forall|j: int| k < j < s.len() ==> (#[trigger] s[j]).0 != s[k].0,
    ensures
        crate::template::interpreter::lookup(s, s[k].0) == Some(s[k].1),
    decreases s.len(),
{
    if k < s.len() - 1 {
        assert(s.last() == s[s.len() - 1]);
        let t = s.drop_last();
        assert forall|j: int| k < j < t.len() implies (#[trigger] t[j]).0 != t[k].0 by {
            assert(t[j] == s[j]);
        }
        lemma_lookup_at(t, k);
    }
}

/// Custom colour `name` is the variable `custom_<name>`, as `#rrggbb`.
pub proof fn lemma_custom_color_variable(
    roles: MaterialRoles,
    wallpaper: Seq<char>,
    base16: Seq<Rgb>,
    custom: Seq<(Seq<char>, Rgb)>,
    name: Seq<char>,
    color: Rgb,
)
    requires
        crate::template::interpreter::lookup(custom, name) == Some(color),
    ensures
        crate::template::interpreter::lookup(
            scheme_context(roles, wallpaper, base16, custom).vars,
            "custom_"@ + name,
        ) == Some(color.spec_hex()),
    decreases custom.len(),
{
    let front = role_vars(roles) + seq![("wallpaper"@, wallpaper)] + base_vars(base16);
    lemma_lookup_concat(front, custom_vars(custom), "custom_"@ + name);
    lemma_custom_lookup(custom, name);
}

proof fn lemma_custom_lookup(custom: Seq<(Seq<char>, Rgb)>, name: Seq<char>)
    ensures
        crate::template::interpreter::lookup(custom_vars(custom), "custom_"@ + name) == match crate::template::interpreter::lookup(custom, name) {
            Some(c) => Some(c.spec_hex()),
            None => None::<Seq<char>>,
        },
    decreases custom.len(),
{
    if custom.len() > 0 {
        assert(custom_vars(custom).drop_last() =~= custom_vars(custom.drop_last()));
        lemma_custom_lookup(custom.drop_last(), name);
        let last = custom.last().0;
        if last != name {
            reveal_strlit("custom_");
            assert("custom_"@.len() == 7);
            assert(("custom_"@ + last).subrange(7, ("custom_"@ + last).len() as int) =~= last);
            assert(("custom_"@ + name).subrange(7, ("custom_"@ + name).len() as int) =~= name);
        }
    }
}

/// `base00`..`base15` are the base16 colours in order, and the list
/// `colors` holds them all, whatever custom colours there are.
pub proof fn lemma_base16_variables(
    roles: MaterialRoles,
    wallpaper: Seq<char>,
    base16: Seq<Rgb>,
    custom: Seq<(Seq<char>, Rgb)>,
    i: int,
)
    requires
        base16.len() == 16,
        0 <= i < 16,
    ensures
        crate::template::interpreter::lookup(
            scheme_context(roles, wallpaper, base16, custom).vars,
            base_name(i),
        ) == Some(base16[i].spec_hex()),
        crate::template::interpreter::lookup(
            scheme_context(roles, wallpaper, base16, custom).arrays,
            "colors"@,
        ) == Some(hexes(base16)),
{
    let front = role_vars(roles) + seq![("wallpaper"@, wallpaper)];
    let bases = base_vars(base16);
    lemma_lookup_concat(front + bases, custom_vars(custom), base_name(i));
    reveal_strlit("base");
    reveal_strlit("custom_");
    assert("custom_"@.len() == 7 && "custom_"@[0] == 'c');
    assert("base"@.len() == 4 && "base"@[0] == 'b');
    assert forall|j: int| 0 <= j < custom_vars(custom).len() implies (#[trigger] custom_vars(
        custom,
    )[j]).0 != base_name(i) by {
        let e = custom[j];
        assert(custom_vars(custom)[j].0 == "custom_"@ + e.0);
        assert(("custom_"@ + e.0)[0] == 'c');
        assert(base_name(i)[0] == 'b');
    }
    lemma_no_key(custom_vars(custom), base_name(i));
    lemma_lookup_concat(front, bases, base_name(i));
    assert forall|j: int| i < j < bases.len() implies (#[trigger] bases[j]).0 != bases[i].0 by {
        assert(bases[j].0[4] != bases[i].0[4] || bases[j].0[5] != bases[i].0[5]);
    }
    lemma_lookup_at(bases, i);
    let arrays = seq![("colors"@, hexes(base16))];
    assert(arrays.drop_last() =~= Seq::<(Seq<char>, Seq<Seq<char>>)>::empty());
}

/// A key that no entry has is not found.
pub proof fn lemma_no_key<K, V>(s: Seq<(K, V)>, key: K)
    requires
        forall|j: int| 0 <= j < s.len() ==> (#[trigger] s[j]).0 != key,
    ensures
        crate::template::interpreter::lookup(s, key) is None,
    decreases s.len(),
{
    if s.len() > 0 {
        assert(s.last() == s[s.len() - 1]);
        let t = s.drop_last();
        assert forall|j: int| 0 <= j < t.len() implies (#[trigger] t[j]).0 != key by {
            assert(t[j] == s[j]);
        }
        lemma_no_key(t, key);
    }
}

} // verus!




verus! {

/// The name of role `i`, in declaration order.
pub open spec fn role_name(i: int) -> Seq<char> {
    if i == 0 {
        "primary"@
    } else if i == 1 {
        "on_primary"@
    } else if i == 2 {
        "primary_container"@
    } else if i == 3 {
        "on_primary_container"@
    } else if i == 4 {
        "primary_fixed"@
    } else if i == 5 {
        "primary_fixed_dim"@
    } else if i == 6 {
        "on_primary_fixed"@
    } else if i == 7 {
        "on_primary_fixed_variant"@
    } else if i == 8 {
        "secondary"@
    } else if i == 9 {
        "on_secondary"@
    } else if i == 10 {
        "secondary_container"@
    } else if i == 11 {
        "on_secondary_container"@
    } else if i == 12 {
        "secondary_fixed"@
    } else if i == 13 {
        "secondary_fixed_dim"@
    } else if i == 14 {
        "on_secondary_fixed"@
    } else if i == 15 {
        "on_secondary_fixed_variant"@
    } else if i == 16 {
        "tertiary"@
    } else if i == 17 {
        "on_tertiary"@
    } else if i == 18 {
        "tertiary_container"@
    } else if i == 19 {
        "on_tertiary_container"@
    } else if i == 20 {
        "tertiary_fixed"@
    } else if i == 21 {
        "tertiary_fixed_dim"@
    } else if i == 22 {
        "on_tertiary_fixed"@
    } else if i == 23 {
        "on_tertiary_fixed_variant"@
    } else if i == 24 {
        "error"@
    } else if i == 25 {
        "on_error"@
    } else if i == 26 {
        "error_container"@
    } else if i == 27 {
        "on_error_container"@
    } else if i == 28 {
        "error_fixed"@
    } else if i == 29 {
        "error_fixed_dim"@
    } else if i == 30 {
        "on_error_fixed"@
    } else if i == 31 {
        "on_error_fixed_variant"@
    } else if i == 32 {
        "surface"@
    } else if i == 33 {
        "on_surface"@
    } else if i == 34 {
        "surface_container"@
    } else if i == 35 {
        "surface_container_low"@
    } else if i == 36 {
        "surface_container_high"@
    } else if i == 37 {
        "surface_container_highest"@
    } else if i == 38 {
        "surface_bright"@
    } else if i == 39 {
        "surface_dim"@
    } else if i == 40 {
        "on_surface_variant"@
    } else if i == 41 {
        "surface_tint"@
    } else if i == 42 {
        "surface_container_lowest"@
    } else if i == 43 {
        "outline"@
    } else if i == 44 {
        "outline_variant"@
    } else if i == 45 {
        "inverse_surface"@
    } else if i == 46 {
        "inverse_on_surface"@
    } else if i == 47 {
        "inverse_primary"@
    } else if i == 48 {
        "background"@
    } else {
        "on_background"@
    }
}

proof fn lemma_role_names_differ()
    ensures
        forall|i: int, j: int| 0 <= i < j < 50 ==> #[trigger] role_name(i) != #[trigger] role_name(j),
{
    reveal_strlit("primary");
    reveal_strlit("on_primary");
    reveal_strlit("primary_container");
    reveal_strlit("on_primary_container");
    reveal_strlit("primary_fixed");
    reveal_strlit("primary_fixed_dim");
    reveal_strlit("on_primary_fixed");
    reveal_strlit("on_primary_fixed_variant");
    reveal_strlit("secondary");
    reveal_strlit("on_secondary");
    reveal_strlit("secondary_container");
    reveal_strlit("on_secondary_container");
    reveal_strlit("secondary_fixed");
    reveal_strlit("secondary_fixed_dim");
    reveal_strlit("on_secondary_fixed");
    reveal_strlit("on_secondary_fixed_variant");
    reveal_strlit("tertiary");
    reveal_strlit("on_tertiary");
    reveal_strlit("tertiary_container");
    reveal_strlit("on_tertiary_container");
    reveal_strlit("tertiary_fixed");
    reveal_strlit("tertiary_fixed_dim");
    reveal_strlit("on_tertiary_fixed");
    reveal_strlit("on_tertiary_fixed_variant");
    reveal_strlit("error");
    reveal_strlit("on_error");
    reveal_strlit("error_container");
    reveal_strlit("on_error_container");
    reveal_strlit("error_fixed");
    reveal_strlit("error_fixed_dim");
    reveal_strlit("on_error_fixed");
    reveal_strlit("on_error_fixed_variant");
    reveal_strlit("surface");
    reveal_strlit("on_surface");
    reveal_strlit("surface_container");
    reveal_strlit("surface_container_low");
    reveal_strlit("surface_container_high");
    reveal_strlit("surface_container_highest");
    reveal_strlit("surface_bright");
    reveal_strlit("surface_dim");
    reveal_strlit("on_surface_variant");
    reveal_strlit("surface_tint");
    reveal_strlit("surface_container_lowest");
    reveal_strlit("outline");
    reveal_strlit("outline_variant");
    reveal_strlit("inverse_surface");
    reveal_strlit("inverse_on_surface");
    reveal_strlit("inverse_primary");
    reveal_strlit("background");
    reveal_strlit("on_background");
    assert("primary"@.len() == 7 && "primary"@[0] == 'p' && "primary"@[3] == 'm' && "primary"@[6] == 'y');
    assert("on_primary"@.len() == 10 && "on_primary"@[0] == 'o' && "on_primary"@[5] == 'i' && "on_primary"@[9] == 'y');
    assert("primary_container"@.len() == 17 && "primary_container"@[0] == 'p' && "primary_container"@[8] == 'c' && "primary_container"@[16] == 'r');
    assert("on_primary_container"@.len() == 20 && "on_primary_container"@[0] == 'o' && "on_primary_container"@[10] == '_' && "on_primary_container"@[19] == 'r');
    assert("primary_fixed"@.len() == 13 && "primary_fixed"@[0] == 'p' && "primary_fixed"@[6] == 'y' && "primary_fixed"@[12] == 'd');
    assert("primary_fixed_dim"@.len() == 17 && "primary_fixed_dim"@[0] == 'p' && "primary_fixed_dim"@[8] == 'f' && "primary_fixed_dim"@[16] == 'm');
    assert("on_primary_fixed"@.len() == 16 && "on_primary_fixed"@[0] == 'o' && "on_primary_fixed"@[8] == 'r' && "on_primary_fixed"@[15] == 'd');
    assert("on_primary_fixed_variant"@.len() == 24 && "on_primary_fixed_variant"@[0] == 'o' && "on_primary_fixed_variant"@[12] == 'i' && "on_primary_fixed_variant"@[23] == 't');
    assert("secondary"@.len() == 9 && "secondary"@[0] == 's' && "secondary"@[4] == 'n' && "secondary"@[8] == 'y');
    assert("on_secondary"@.len() == 12 && "on_secondary"@[0] == 'o' && "on_secondary"@[6] == 'o' && "on_secondary"@[11] == 'y');
    assert("secondary_container"@.len() == 19 && "secondary_container"@[0] == 's' && "secondary_container"@[9] == '_' && "secondary_container"@[18] == 'r');
    assert("on_secondary_container"@.len() == 22 && "on_secondary_container"@[0] == 'o' && "on_secondary_container"@[11] == 'y' && "on_secondary_container"@[21] == 'r');
    assert("secondary_fixed"@.len() == 15 && "secondary_fixed"@[0] == 's' && "secondary_fixed"@[7] == 'r' && "secondary_fixed"@[14] == 'd');
    assert("secondary_fixed_dim"@.len() == 19 && "secondary_fixed_dim"@[0] == 's' && "secondary_fixed_dim"@[9] == '_' && "secondary_fixed_dim"@[18] == 'm');
    assert("on_secondary_fixed"@.len() == 18 && "on_secondary_fixed"@[0] == 'o' && "on_secondary_fixed"@[9] == 'a' && "on_secondary_fixed"@[17] == 'd');
    assert("on_secondary_fixed_variant"@.len() == 26 && "on_secondary_fixed_variant"@[0] == 'o' && "on_secondary_fixed_variant"@[13] == 'f' && "on_secondary_fixed_variant"@[25] == 't');
    assert("tertiary"@.len() == 8 && "tertiary"@[0] == 't' && "tertiary"@[4] == 'i' && "tertiary"@[7] == 'y');
    assert("on_tertiary"@.len() == 11 && "on_tertiary"@[0] == 'o' && "on_tertiary"@[5] == 'r' && "on_tertiary"@[10] == 'y');
    assert("tertiary_container"@.len() == 18 && "tertiary_container"@[0] == 't' && "tertiary_container"@[9] == 'c' && "tertiary_container"@[17] == 'r');
    assert("on_tertiary_container"@.len() == 21 && "on_tertiary_container"@[0] == 'o' && "on_tertiary_container"@[10] == 'y' && "on_tertiary_container"@[20] == 'r');
    assert("tertiary_fixed"@.len() == 14 && "tertiary_fixed"@[0] == 't' && "tertiary_fixed"@[7] == 'y' && "tertiary_fixed"@[13] == 'd');
    assert("tertiary_fixed_dim"@.len() == 18 && "tertiary_fixed_dim"@[0] == 't' && "tertiary_fixed_dim"@[9] == 'f' && "tertiary_fixed_dim"@[17] == 'm');
    assert("on_tertiary_fixed"@.len() == 17 && "on_tertiary_fixed"@[0] == 'o' && "on_tertiary_fixed"@[8] == 'a' && "on_tertiary_fixed"@[16] == 'd');
    assert("on_tertiary_fixed_variant"@.len() == 25 && "on_tertiary_fixed_variant"@[0] == 'o' && "on_tertiary_fixed_variant"@[12] == 'f' && "on_tertiary_fixed_variant"@[24] == 't');
    assert("error"@.len() == 5 && "error"@[0] == 'e' && "error"@[2] == 'r' && "error"@[4] == 'r');
    assert("on_error"@.len() == 8 && "on_error"@[0] == 'o' && "on_error"@[4] == 'r' && "on_error"@[7] == 'r');
    assert("error_container"@.len() == 15 && "error_container"@[0] == 'e' && "error_container"@[7] == 'o' && "error_container"@[14] == 'r');
    assert("on_error_container"@.len() == 18 && "on_error_container"@[0] == 'o' && "on_error_container"@[9] == 'c' && "on_error_container"@[17] == 'r');
    assert("error_fixed"@.len() == 11 && "error_fixed"@[0] == 'e' && "error_fixed"@[5] == '_' && "error_fixed"@[10] == 'd');
    assert("error_fixed_dim"@.len() == 15 && "error_fixed_dim"@[0] == 'e' && "error_fixed_dim"@[7] == 'i' && "error_fixed_dim"@[14] == 'm');
    assert("on_error_fixed"@.len() == 14 && "on_error_fixed"@[0] == 'o' && "on_error_fixed"@[7] == 'r' && "on_error_fixed"@[13] == 'd');
    assert("on_error_fixed_variant"@.len() == 22 && "on_error_fixed_variant"@[0] == 'o' && "on_error_fixed_variant"@[11] == 'x' && "on_error_fixed_variant"@[21] == 't');
    assert("surface"@.len() == 7 && "surface"@[0] == 's' && "surface"@[3] == 'f' && "surface"@[6] == 'e');
    assert("on_surface"@.len() == 10 && "on_surface"@[0] == 'o' && "on_surface"@[5] == 'r' && "on_surface"@[9] == 'e');
    assert("surface_container"@.len() == 17 && "surface_container"@[0] == 's' && "surface_container"@[8] == 'c' && "surface_container"@[16] == 'r');
    assert("surface_container_low"@.len() == 21 && "surface_container_low"@[0] == 's' && "surface_container_low"@[10] == 'n' && "surface_container_low"@[20] == 'w');
    assert("surface_container_high"@.len() == 22 && "surface_container_high"@[0] == 's' && "surface_container_high"@[11] == 't' && "surface_container_high"@[21] == 'h');
    assert("surface_container_highest"@.len() == 25 && "surface_container_highest"@[0] == 's' && "surface_container_highest"@[12] == 'a' && "surface_container_highest"@[24] == 't');
    assert("surface_bright"@.len() == 14 && "surface_bright"@[0] == 's' && "surface_bright"@[7] == '_' && "surface_bright"@[13] == 't');
    assert("surface_dim"@.len() == 11 && "surface_dim"@[0] == 's' && "surface_dim"@[5] == 'c' && "surface_dim"@[10] == 'm');
    assert("on_surface_variant"@.len() == 18 && "on_surface_variant"@[0] == 'o' && "on_surface_variant"@[9] == 'e' && "on_surface_variant"@[17] == 't');
    assert("surface_tint"@.len() == 12 && "surface_tint"@[0] == 's' && "surface_tint"@[6] == 'e' && "surface_tint"@[11] == 't');
    assert("surface_container_lowest"@.len() == 24 && "surface_container_lowest"@[0] == 's' && "surface_container_lowest"@[12] == 'a' && "surface_container_lowest"@[23] == 't');
    assert("outline"@.len() == 7 && "outline"@[0] == 'o' && "outline"@[3] == 'l' && "outline"@[6] == 'e');
    assert("outline_variant"@.len() == 15 && "outline_variant"@[0] == 'o' && "outline_variant"@[7] == '_' && "outline_variant"@[14] == 't');
    assert("inverse_surface"@.len() == 15 && "inverse_surface"@[0] == 'i' && "inverse_surface"@[7] == '_' && "inverse_surface"@[14] == 'e');
    assert("inverse_on_surface"@.len() == 18 && "inverse_on_surface"@[0] == 'i' && "inverse_on_surface"@[9] == 'n' && "inverse_on_surface"@[17] == 'e');
    assert("inverse_primary"@.len() == 15 && "inverse_primary"@[0] == 'i' && "inverse_primary"@[7] == '_' && "inverse_primary"@[14] == 'y');
    assert("background"@.len() == 10 && "background"@[0] == 'b' && "background"@[5] == 'r' && "background"@[9] == 'd');
    assert("on_background"@.len() == 13 && "on_background"@[0] == 'o' && "on_background"@[6] == 'k' && "on_background"@[12] == 'd');
}

} // verus!

verus! {

proof fn lemma_role_names_in_order(r: MaterialRoles)
    ensures
        forall|i: int| 0 <= i < 50 ==> (#[trigger] role_vars(r)[i]).0 == role_name(i),
        role_vars(r).len() == 50,
{
    assert(r.spec_entries().len() == 50);
    assert forall|i: int| 0 <= i < 50 implies (#[trigger] role_vars(r)[i]).0 == role_name(i) by {
        assert(role_vars(r)[i].0 == r.spec_entries()[i].0);
    }
}

} // verus!

verus! {

/// No role name has six characters, starts with `c`, or is `wallpaper`.
proof fn lemma_role_name_shapes()
    ensures
        forall|k: int| 0 <= k < 50 ==> (#[trigger] role_name(k)).len() != 6 && role_name(k)[0] != 'c'
            && role_name(k) != "wallpaper"@,
{
    reveal_strlit("primary");
    reveal_strlit("on_primary");
    reveal_strlit("primary_container");
    reveal_strlit("on_primary_container");
    reveal_strlit("primary_fixed");
    reveal_strlit("primary_fixed_dim");
    reveal_strlit("on_primary_fixed");
    reveal_strlit("on_primary_fixed_variant");
    reveal_strlit("secondary");
    reveal_strlit("on_secondary");
    reveal_strlit("secondary_container");
    reveal_strlit("on_secondary_container");
    reveal_strlit("secondary_fixed");
    reveal_strlit("secondary_fixed_dim");
    reveal_strlit("on_secondary_fixed");
    reveal_strlit("on_secondary_fixed_variant");
    reveal_strlit("tertiary");
    reveal_strlit("on_tertiary");
    reveal_strlit("tertiary_container");
    reveal_strlit("on_tertiary_container");
    reveal_strlit("tertiary_fixed");
    reveal_strlit("tertiary_fixed_dim");
    reveal_strlit("on_tertiary_fixed");
    reveal_strlit("on_tertiary_fixed_variant");
    reveal_strlit("error");
    reveal_strlit("on_error");
    reveal_strlit("error_container");
    reveal_strlit("on_error_container");
    reveal_strlit("error_fixed");
    reveal_strlit("error_fixed_dim");
    reveal_strlit("on_error_fixed");
    reveal_strlit("on_error_fixed_variant");
    reveal_strlit("surface");
    reveal_strlit("on_surface");
    reveal_strlit("surface_container");
    reveal_strlit("surface_container_low");
    reveal_strlit("surface_container_high");
    reveal_strlit("surface_container_highest");
    reveal_strlit("surface_bright");
    reveal_strlit("surface_dim");
    reveal_strlit("on_surface_variant");
    reveal_strlit("surface_tint");
    reveal_strlit("surface_container_lowest");
    reveal_strlit("outline");
    reveal_strlit("outline_variant");
    reveal_strlit("inverse_surface");
    reveal_strlit("inverse_on_surface");
    reveal_strlit("inverse_primary");
    reveal_strlit("background");
    reveal_strlit("on_background");
    reveal_strlit("wallpaper");
    assert("wallpaper"@.len() == 9 && "wallpaper"@[0] == 'w');
    assert("primary"@.len() == 7 && "primary"@[0] == 'p');
    assert("on_primary"@.len() == 10 && "on_primary"@[0] == 'o');
    assert("primary_container"@.len() == 17 && "primary_container"@[0] == 'p');
    assert("on_primary_container"@.len() == 20 && "on_primary_container"@[0] == 'o');
    assert("primary_fixed"@.len() == 13 && "primary_fixed"@[0] == 'p');
    assert("primary_fixed_dim"@.len() == 17 && "primary_fixed_dim"@[0] == 'p');
    assert("on_primary_fixed"@.len() == 16 && "on_primary_fixed"@[0] == 'o');
    assert("on_primary_fixed_variant"@.len() == 24 && "on_primary_fixed_variant"@[0] == 'o');
    assert("secondary"@.len() == 9 && "secondary"@[0] == 's');
    assert("on_secondary"@.len() == 12 && "on_secondary"@[0] == 'o');
    assert("secondary_container"@.len() == 19 && "secondary_container"@[0] == 's');
    assert("on_secondary_container"@.len() == 22 && "on_secondary_container"@[0] == 'o');
    assert("secondary_fixed"@.len() == 15 && "secondary_fixed"@[0] == 's');
    assert("secondary_fixed_dim"@.len() == 19 && "secondary_fixed_dim"@[0] == 's');
    assert("on_secondary_fixed"@.len() == 18 && "on_secondary_fixed"@[0] == 'o');
    assert("on_secondary_fixed_variant"@.len() == 26 && "on_secondary_fixed_variant"@[0] == 'o');
    assert("tertiary"@.len() == 8 && "tertiary"@[0] == 't');
    assert("on_tertiary"@.len() == 11 && "on_tertiary"@[0] == 'o');
    assert("tertiary_container"@.len() == 18 && "tertiary_container"@[0] == 't');
    assert("on_tertiary_container"@.len() == 21 && "on_tertiary_container"@[0] == 'o');
    assert("tertiary_fixed"@.len() == 14 && "tertiary_fixed"@[0] == 't');
    assert("tertiary_fixed_dim"@.len() == 18 && "tertiary_fixed_dim"@[0] == 't');
    assert("on_tertiary_fixed"@.len() == 17 && "on_tertiary_fixed"@[0] == 'o');
    assert("on_tertiary_fixed_variant"@.len() == 25 && "on_tertiary_fixed_variant"@[0] == 'o');
    assert("error"@.len() == 5 && "error"@[0] == 'e');
    assert("on_error"@.len() == 8 && "on_error"@[0] == 'o');
    assert("error_container"@.len() == 15 && "error_container"@[0] == 'e');
    assert("on_error_container"@.len() == 18 && "on_error_container"@[0] == 'o');
    assert("error_fixed"@.len() == 11 && "error_fixed"@[0] == 'e');
    assert("error_fixed_dim"@.len() == 15 && "error_fixed_dim"@[0] == 'e');
    assert("on_error_fixed"@.len() == 14 && "on_error_fixed"@[0] == 'o');
    assert("on_error_fixed_variant"@.len() == 22 && "on_error_fixed_variant"@[0] == 'o');
    assert("surface"@.len() == 7 && "surface"@[0] == 's');
    assert("on_surface"@.len() == 10 && "on_surface"@[0] == 'o');
    assert("surface_container"@.len() == 17 && "surface_container"@[0] == 's');
    assert("surface_container_low"@.len() == 21 && "surface_container_low"@[0] == 's');
    assert("surface_container_high"@.len() == 22 && "surface_container_high"@[0] == 's');
    assert("surface_container_highest"@.len() == 25 && "surface_container_highest"@[0] == 's');
    assert("surface_bright"@.len() == 14 && "surface_bright"@[0] == 's');
    assert("surface_dim"@.len() == 11 && "surface_dim"@[0] == 's');
    assert("on_surface_variant"@.len() == 18 && "on_surface_variant"@[0] == 'o');
    assert("surface_tint"@.len() == 12 && "surface_tint"@[0] == 's');
    assert("surface_container_lowest"@.len() == 24 && "surface_container_lowest"@[0] == 's');
    assert("outline"@.len() == 7 && "outline"@[0] == 'o');
    assert("outline_variant"@.len() == 15 && "outline_variant"@[0] == 'o');
    assert("inverse_surface"@.len() == 15 && "inverse_surface"@[0] == 'i');
    assert("inverse_on_surface"@.len() == 18 && "inverse_on_surface"@[0] == 'i');
    assert("inverse_primary"@.len() == 15 && "inverse_primary"@[0] == 'i');
    assert("background"@.len() == 10 && "background"@[0] == 'b');
    assert("on_background"@.len() == 13 && "on_background"@[0] == 'o');
}

/// Every Material role is the variable of its name, holding the role as
/// `#rrggbb`, whatever the wallpaper, palette and custom colours are.
pub proof fn lemma_role_variables(
    roles: MaterialRoles,
    wallpaper: Seq<char>,
    base16: Seq<Rgb>,
    custom: Seq<(Seq<char>, Rgb)>,
    k: int,
)
    requires
        0 <= k < 50,
    ensures
        crate::template::interpreter::lookup(
            scheme_context(roles, wallpaper, base16, custom).vars,
            roles.spec_entries()[k].0,
        ) == Some(roles.spec_entries()[k].1.spec_hex()),
{
    let rv = role_vars(roles);
    lemma_role_names_in_order(roles);
    lemma_role_names_differ();
    lemma_role_name_shapes();
    let name = rv[k].0;
    assert(name == roles.spec_entries()[k].0);
    assert(name == role_name(k));
    let wp = seq![("wallpaper"@, wallpaper)];
    let bases = base_vars(base16);
    let customs = custom_vars(custom);
    reveal_strlit("custom_");
    reveal_strlit("base");
    assert("custom_"@.len() == 7 && "custom_"@[0] == 'c');
    assert("base"@.len() == 4);
    assert forall|j: int| 0 <= j < customs.len() implies (#[trigger] customs[j]).0 != name by {
        let e = custom[j];
        assert(customs[j].0 == "custom_"@ + e.0);
        assert(("custom_"@ + e.0)[0] == 'c');
    }
    lemma_no_key(customs, name);
    assert forall|j: int| 0 <= j < bases.len() implies (#[trigger] bases[j]).0 != name by {
        assert(bases[j].0.len() == 6);
    }
    lemma_no_key(bases, name);
    assert forall|j: int| 0 <= j < wp.len() implies (#[trigger] wp[j]).0 != name by {}
    lemma_no_key(wp, name);
    lemma_lookup_concat(rv + wp + bases, customs, name);
    lemma_lookup_concat(rv + wp, bases, name);
    lemma_lookup_concat(rv, wp, name);
    assert forall|j: int| k < j < rv.len() implies (#[trigger] rv[j]).0 != rv[k].0 by {
        assert(role_name(k) != role_name(j));
    }
    lemma_lookup_at(rv, k);
}

} // verus!

verus! {

/// `wallpaper` is the variable holding the scheme's wallpaper path.
pub proof fn lemma_wallpaper_variable(
    roles: MaterialRoles,
    wallpaper: Seq<char>,
    base16: Seq<Rgb>,
    custom: Seq<(Seq<char>, Rgb)>,
)
    ensures
        crate::template::interpreter::lookup(
            scheme_context(roles, wallpaper, base16, custom).vars,
            "wallpaper"@,
        ) == Some(wallpaper),
{
    let rv = role_vars(roles);
    let wp = seq![("wallpaper"@, wallpaper)];
    let bases = base_vars(base16);
    let customs = custom_vars(custom);
    reveal_strlit("wallpaper");
    reveal_strlit("custom_");
    reveal_strlit("base");
    assert("wallpaper"@.len() == 9 && "wallpaper"@[0] == 'w');
    assert("custom_"@.len() == 7 && "custom_"@[0] == 'c');
    assert("base"@.len() == 4);
    assert forall|j: int| 0 <= j < customs.len() implies (#[trigger] customs[j]).0 != "wallpaper"@ by {
        let e = custom[j];
        assert(customs[j].0 == "custom_"@ + e.0);
        assert(("custom_"@ + e.0)[0] == 'c');
    }
    lemma_no_key(customs, "wallpaper"@);
    assert forall|j: int| 0 <= j < bases.len() implies (#[trigger] bases[j]).0 != "wallpaper"@ by {
        assert(bases[j].0.len() == 6);
    }
    lemma_no_key(bases, "wallpaper"@);
    lemma_lookup_concat(rv + wp + bases, customs, "wallpaper"@);
    lemma_lookup_concat(rv + wp, bases, "wallpaper"@);
    lemma_lookup_concat(rv, wp, "wallpaper"@);
    assert(wp.drop_last() =~= Seq::<(Seq<char>, Seq<char>)>::empty());
}

} // verus!

verus! {

/// A rendering is written unless the file already holds exactly that text.
pub fn needs_write(existing: Option<&str>, rendered: &str) -> (res: bool)
    ensures
        res == match existing {
            Some(e) => e@ != rendered@,
            None => true,
        },
{
    match existing {
        Some(e) => !crate::text::str_eq(e, rendered),
        None => true,
    }
}

/// Each role of `r` is the variable named after that role, holding the
/// role's own colour as `#rrggbb`.
pub open spec fn role_variables_hold(vars: Seq<(Seq<char>, Seq<char>)>, r: MaterialRoles) -> bool {
    &&& crate::template::interpreter::lookup(vars, "primary"@) == Some(r.primary.spec_hex())
    &&& crate::template::interpreter::lookup(vars, "on_primary"@) == Some(r.on_primary.spec_hex())
    &&& crate::template::interpreter::lookup(vars, "primary_container"@) == Some(r.primary_container.spec_hex())
    &&& crate::template::interpreter::lookup(vars, "on_primary_container"@) == Some(r.on_primary_container.spec_hex())
    &&& crate::template::interpreter::lookup(vars, "primary_fixed"@) == Some(r.primary_fixed.spec_hex())
    &&& crate::template::interpreter::lookup(vars, "primary_fixed_dim"@) == Some(r.primary_fixed_dim.spec_hex())
    &&& crate::template::interpreter::lookup(vars, "on_primary_fixed"@) == Some(r.on_primary_fixed.spec_hex())
    &&& crate::template::interpreter::lookup(vars, "on_primary_fixed_variant"@) == Some(r.on_primary_fixed_variant.spec_hex())
    &&& crate::template::interpreter::lookup(vars, "secondary"@) == Some(r.secondary.spec_hex())
    &&& crate::template::interpreter::lookup(vars, "on_secondary"@) == Some(r.on_secondary.spec_hex())
    &&& crate::template::interpreter::lookup(vars, "secondary_container"@) == Some(r.secondary_container.spec_hex())
    &&& crate::template::interpreter::lookup(vars, "on_secondary_container"@) == Some(r.on_secondary_container.spec_hex())
    &&& crate::template::interpreter::lookup(vars, "secondary_fixed"@) == Some(r.secondary_fixed.spec_hex())
    &&& crate::template::interpreter::lookup(vars, "secondary_fixed_dim"@) == Some(r.secondary_fixed_dim.spec_hex())
    &&& crate::template::interpreter::lookup(vars, "on_secondary_fixed"@) == Some(r.on_secondary_fixed.spec_hex())
    &&& crate::template::interpreter::lookup(vars, "on_secondary_fixed_variant"@) == Some(r.on_secondary_fixed_variant.spec_hex())
    &&& crate::template::interpreter::lookup(vars, "tertiary"@) == Some(r.tertiary.spec_hex())
    &&& crate::template::interpreter::lookup(vars, "on_tertiary"@) == Some(r.on_tertiary.spec_hex())
    &&& crate::template::interpreter::lookup(vars, "tertiary_container"@) == Some(r.tertiary_container.spec_hex())
    &&& crate::template::interpreter::lookup(vars, "on_tertiary_container"@) == Some(r.on_tertiary_container.spec_hex())
    &&& crate::template::interpreter::lookup(vars, "tertiary_fixed"@) == Some(r.tertiary_fixed.spec_hex())
    &&& crate::template::interpreter::lookup(vars, "tertiary_fixed_dim"@) == Some(r.tertiary_fixed_dim.spec_hex())
    &&& crate::template::interpreter::lookup(vars, "on_tertiary_fixed"@) == Some(r.on_tertiary_fixed.spec_hex())
    &&& crate::template::interpreter::lookup(vars, "on_tertiary_fixed_variant"@) == Some(r.on_tertiary_fixed_variant.spec_hex())
    &&& crate::template::interpreter::lookup(vars, "error"@) == Some(r.error.spec_hex())
    &&& crate::template::interpreter::lookup(vars, "on_error"@) == Some(r.on_error.spec_hex())
    &&& crate::template::interpreter::lookup(vars, "error_container"@) == Some(r.error_container.spec_hex())
    &&& crate::template::interpreter::lookup(vars, "on_error_container"@) == Some(r.on_error_container.spec_hex())
    &&& crate::template::interpreter::lookup(vars, "error_fixed"@) == Some(r.error_fixed.spec_hex())
    &&& crate::template::interpreter::lookup(vars, "error_fixed_dim"@) == Some(r.error_fixed_dim.spec_hex())
    &&& crate::template::interpreter::lookup(vars, "on_error_fixed"@) == Some(r.on_error_fixed.spec_hex())
    &&& crate::template::interpreter::lookup(vars, "on_error_fixed_variant"@) == Some(r.on_error_fixed_variant.spec_hex())
    &&& crate::template::interpreter::lookup(vars, "surface"@) == Some(r.surface.spec_hex())
    &&& crate::template::interpreter::lookup(vars, "on_surface"@) == Some(r.on_surface.spec_hex())
    &&& crate::template::interpreter::lookup(vars, "surface_container"@) == Some(r.surface_container.spec_hex())
    &&& crate::template::interpreter::lookup(vars, "surface_container_low"@) == Some(r.surface_container_low.spec_hex())
    &&& crate::template::interpreter::lookup(vars, "surface_container_high"@) == Some(r.surface_container_high.spec_hex())
    &&& crate::template::interpreter::lookup(vars, "surface_container_highest"@) == Some(r.surface_container_highest.spec_hex())
    &&& crate::template::interpreter::lookup(vars, "surface_bright"@) == Some(r.surface_bright.spec_hex())
    &&& crate::template::interpreter::lookup(vars, "surface_dim"@) == Some(r.surface_dim.spec_hex())
    &&& crate::template::interpreter::lookup(vars, "on_surface_variant"@) == Some(r.on_surface_variant.spec_hex())
    &&& crate::template::interpreter::lookup(vars, "surface_tint"@) == Some(r.surface_tint.spec_hex())
    &&& crate::template::interpreter::lookup(vars, "surface_container_lowest"@) == Some(r.surface_container_lowest.spec_hex())
    &&& crate::template::interpreter::lookup(vars, "outline"@) == Some(r.outline.spec_hex())
    &&& crate::template::interpreter::lookup(vars, "outline_variant"@) == Some(r.outline_variant.spec_hex())
    &&& crate::template::interpreter::lookup(vars, "inverse_surface"@) == Some(r.inverse_surface.spec_hex())
    &&& crate::template::interpreter::lookup(vars, "inverse_on_surface"@) == Some(r.inverse_on_surface.spec_hex())
    &&& crate::template::interpreter::lookup(vars, "inverse_primary"@) == Some(r.inverse_primary.spec_hex())
    &&& crate::template::interpreter::lookup(vars, "background"@) == Some(r.background.spec_hex())
    &&& crate::template::interpreter::lookup(vars, "on_background"@) == Some(r.on_background.spec_hex())
}

/// In the variables of a scheme, the variable named after each role holds
/// that role's own colour (`tertiary` is `roles.tertiary`, not another
/// tone), whatever the wallpaper, palette and custom colours are.
pub proof fn lemma_role_variables_by_name(
    roles: MaterialRoles,
    wallpaper: Seq<char>,
    base16: Seq<Rgb>,
    custom: Seq<(Seq<char>, Rgb)>,
)
    ensures
        role_variables_hold(scheme_context(roles, wallpaper, base16, custom).vars, roles),
{
    lemma_role_variables(roles, wallpaper, base16, custom, 0);
    assert(roles.spec_entries()[0] == ("primary"@, roles.primary));
    lemma_role_variables(roles, wallpaper, base16, custom, 1);
    assert(roles.spec_entries()[1] == ("on_primary"@, roles.on_primary));
    lemma_role_variables(roles, wallpaper, base16, custom, 2);
    assert(roles.spec_entries()[2] == ("primary_container"@, roles.primary_container));
    lemma_role_variables(roles, wallpaper, base16, custom, 3);
    assert(roles.spec_entries()[3] == ("on_primary_container"@, roles.on_primary_container));
    lemma_role_variables(roles, wallpaper, base16, custom, 4);
    assert(roles.spec_entries()[4] == ("primary_fixed"@, roles.primary_fixed));
    lemma_role_variables(roles, wallpaper, base16, custom, 5);
    assert(roles.spec_entries()[5] == ("primary_fixed_dim"@, roles.primary_fixed_dim));
    lemma_role_variables(roles, wallpaper, base16, custom, 6);
    assert(roles.spec_entries()[6] == ("on_primary_fixed"@, roles.on_primary_fixed));
    lemma_role_variables(roles, wallpaper, base16, custom, 7);
    assert(roles.spec_entries()[7] == ("on_primary_fixed_variant"@, roles.on_primary_fixed_variant));
    lemma_role_variables(roles, wallpaper, base16, custom, 8);
    assert(roles.spec_entries()[8] == ("secondary"@, roles.secondary));
    lemma_role_variables(roles, wallpaper, base16, custom, 9);
    assert(roles.spec_entries()[9] == ("on_secondary"@, roles.on_secondary));
    lemma_role_variables(roles, wallpaper, base16, custom, 10);
    assert(roles.spec_entries()[10] == ("secondary_container"@, roles.secondary_container));
    lemma_role_variables(roles, wallpaper, base16, custom, 11);
    assert(roles.spec_entries()[11] == ("on_secondary_container"@, roles.on_secondary_container));
    lemma_role_variables(roles, wallpaper, base16, custom, 12);
    assert(roles.spec_entries()[12] == ("secondary_fixed"@, roles.secondary_fixed));
    lemma_role_variables(roles, wallpaper, base16, custom, 13);
    assert(roles.spec_entries()[13] == ("secondary_fixed_dim"@, roles.secondary_fixed_dim));
    lemma_role_variables(roles, wallpaper, base16, custom, 14);
    assert(roles.spec_entries()[14] == ("on_secondary_fixed"@, roles.on_secondary_fixed));
    lemma_role_variables(roles, wallpaper, base16, custom, 15);
    assert(roles.spec_entries()[15] == ("on_secondary_fixed_variant"@, roles.on_secondary_fixed_variant));
    lemma_role_variables(roles, wallpaper, base16, custom, 16);
    assert(roles.spec_entries()[16] == ("tertiary"@, roles.tertiary));
    lemma_role_variables(roles, wallpaper, base16, custom, 17);
    assert(roles.spec_entries()[17] == ("on_tertiary"@, roles.on_tertiary));
    lemma_role_variables(roles, wallpaper, base16, custom, 18);
    assert(roles.spec_entries()[18] == ("tertiary_container"@, roles.tertiary_container));
    lemma_role_variables(roles, wallpaper, base16, custom, 19);
    assert(roles.spec_entries()[19] == ("on_tertiary_container"@, roles.on_tertiary_container));
    lemma_role_variables(roles, wallpaper, base16, custom, 20);
    assert(roles.spec_entries()[20] == ("tertiary_fixed"@, roles.tertiary_fixed));
    lemma_role_variables(roles, wallpaper, base16, custom, 21);
    assert(roles.spec_entries()[21] == ("tertiary_fixed_dim"@, roles.tertiary_fixed_dim));
    lemma_role_variables(roles, wallpaper, base16, custom, 22);
    assert(roles.spec_entries()[22] == ("on_tertiary_fixed"@, roles.on_tertiary_fixed));
    lemma_role_variables(roles, wallpaper, base16, custom, 23);
    assert(roles.spec_entries()[23] == ("on_tertiary_fixed_variant"@, roles.on_tertiary_fixed_variant));
    lemma_role_variables(roles, wallpaper, base16, custom, 24);
    assert(roles.spec_entries()[24] == ("error"@, roles.error));
    lemma_role_variables(roles, wallpaper, base16, custom, 25);
    assert(roles.spec_entries()[25] == ("on_error"@, roles.on_error));
    lemma_role_variables(roles, wallpaper, base16, custom, 26);
    assert(roles.spec_entries()[26] == ("error_container"@, roles.error_container));
    lemma_role_variables(roles, wallpaper, base16, custom, 27);
    assert(roles.spec_entries()[27] == ("on_error_container"@, roles.on_error_container));
    lemma_role_variables(roles, wallpaper, base16, custom, 28);
    assert(roles.spec_entries()[28] == ("error_fixed"@, roles.error_fixed));
    lemma_role_variables(roles, wallpaper, base16, custom, 29);
    assert(roles.spec_entries()[29] == ("error_fixed_dim"@, roles.error_fixed_dim));
    lemma_role_variables(roles, wallpaper, base16, custom, 30);
    assert(roles.spec_entries()[30] == ("on_error_fixed"@, roles.on_error_fixed));
    lemma_role_variables(roles, wallpaper, base16, custom, 31);
    assert(roles.spec_entries()[31] == ("on_error_fixed_variant"@, roles.on_error_fixed_variant));
    lemma_role_variables(roles, wallpaper, base16, custom, 32);
    assert(roles.spec_entries()[32] == ("surface"@, roles.surface));
    lemma_role_variables(roles, wallpaper, base16, custom, 33);
    assert(roles.spec_entries()[33] == ("on_surface"@, roles.on_surface));
    lemma_role_variables(roles, wallpaper, base16, custom, 34);
    assert(roles.spec_entries()[34] == ("surface_container"@, roles.surface_container));
    lemma_role_variables(roles, wallpaper, base16, custom, 35);
    assert(roles.spec_entries()[35] == ("surface_container_low"@, roles.surface_container_low));
    lemma_role_variables(roles, wallpaper, base16, custom, 36);
    assert(roles.spec_entries()[36] == ("surface_container_high"@, roles.surface_container_high));
    lemma_role_variables(roles, wallpaper, base16, custom, 37);
    assert(roles.spec_entries()[37] == ("surface_container_highest"@, roles.surface_container_highest));
    lemma_role_variables(roles, wallpaper, base16, custom, 38);
    assert(roles.spec_entries()[38] == ("surface_bright"@, roles.surface_bright));
    lemma_role_variables(roles, wallpaper, base16, custom, 39);
    assert(roles.spec_entries()[39] == ("surface_dim"@, roles.surface_dim));
    lemma_role_variables(roles, wallpaper, base16, custom, 40);
    assert(roles.spec_entries()[40] == ("on_surface_variant"@, roles.on_surface_variant));
    lemma_role_variables(roles, wallpaper, base16, custom, 41);
    assert(roles.spec_entries()[41] == ("surface_tint"@, roles.surface_tint));
    lemma_role_variables(roles, wallpaper, base16, custom, 42);
    assert(roles.spec_entries()[42] == ("surface_container_lowest"@, roles.surface_container_lowest));
    lemma_role_variables(roles, wallpaper, base16, custom, 43);
    assert(roles.spec_entries()[43] == ("outline"@, roles.outline));
    lemma_role_variables(roles, wallpaper, base16, custom, 44);
    assert(roles.spec_entries()[44] == ("outline_variant"@, roles.outline_variant));
    lemma_role_variables(roles, wallpaper, base16, custom, 45);
    assert(roles.spec_entries()[45] == ("inverse_surface"@, roles.inverse_surface));
    lemma_role_variables(roles, wallpaper, base16, custom, 46);
    assert(roles.spec_entries()[46] == ("inverse_on_surface"@, roles.inverse_on_surface));
    lemma_role_variables(roles, wallpaper, base16, custom, 47);
    assert(roles.spec_entries()[47] == ("inverse_primary"@, roles.inverse_primary));
    lemma_role_variables(roles, wallpaper, base16, custom, 48);
    assert(roles.spec_entries()[48] == ("background"@, roles.background));
    lemma_role_variables(roles, wallpaper, base16, custom, 49);
    assert(roles.spec_entries()[49] == ("on_background"@, roles.on_background));
}

/// The base16 variables are named `base00` to `base15`, two decimal digits
/// after `base`.
pub proof fn lemma_base_variable_names()
    ensures
        base_name(0) == "base00"@,
        base_name(1) == "base01"@,
        base_name(2) == "base02"@,
        base_name(3) == "base03"@,
        base_name(4) == "base04"@,
        base_name(5) == "base05"@,
        base_name(6) == "base06"@,
        base_name(7) == "base07"@,
        base_name(8) == "base08"@,
        base_name(9) == "base09"@,
        base_name(10) == "base10"@,
        base_name(11) == "base11"@,
        base_name(12) == "base12"@,
        base_name(13) == "base13"@,
        base_name(14) == "base14"@,
        base_name(15) == "base15"@,
{
    reveal_strlit("base");
    reveal_strlit("base00");
    reveal_strlit("base01");
    reveal_strlit("base02");
    reveal_strlit("base03");
    reveal_strlit("base04");
    reveal_strlit("base05");
    reveal_strlit("base06");
    reveal_strlit("base07");
    reveal_strlit("base08");
    reveal_strlit("base09");
    reveal_strlit("base10");
    reveal_strlit("base11");
    reveal_strlit("base12");
    reveal_strlit("base13");
    reveal_strlit("base14");
    reveal_strlit("base15");
    assert(base_name(0) =~= "base00"@);
    assert(base_name(1) =~= "base01"@);
    assert(base_name(2) =~= "base02"@);
    assert(base_name(3) =~= "base03"@);
    assert(base_name(4) =~= "base04"@);
    assert(base_name(5) =~= "base05"@);
    assert(base_name(6) =~= "base06"@);
    assert(base_name(7) =~= "base07"@);
    assert(base_name(8) =~= "base08"@);
    assert(base_name(9) =~= "base09"@);
    assert(base_name(10) =~= "base10"@);
    assert(base_name(11) =~= "base11"@);
    assert(base_name(12) =~= "base12"@);
    assert(base_name(13) =~= "base13"@);
    assert(base_name(14) =~= "base14"@);
    assert(base_name(15) =~= "base15"@);
}

} // verus!
