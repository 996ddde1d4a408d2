//! Linking rendered templates to the places the configuration names.
use vstd::prelude::*;
use directories::BaseDirs;
use tabled::builder::Builder;
use tabled::settings::{object::Segment, Modify, Padding, Style};
use yansi::{Color, Paint};
use crate::color::types::{ColorScheme, MaterialRoles, Rgb};
use crate::config::TemplateConfiguration;
use crate::error::LRatio;
use crate::paths::{join, join_path, Paths};
use crate::template::interpreter::lookup;
use crate::template::renderer::{base_name, lemma_role_variables_by_name, scheme_context};
use crate::text::{cat, chars_of, copy_opt, copy_string, decimal, opt_text, spec_decimal, str_eq, string_of, substring};

verus! {

/// Trusted: `BaseDirs::new()` and its home directory, as text. It comes
/// from the environment, so nothing is claimed of it.
#[verifier::external_body]
fn home_dir() -> Option<String> {
    BaseDirs::new().map(|b| b.home_dir().to_string_lossy().into_owned())
}

/// The rest of a path written from the home directory, `~/` or `$HOME/`.
pub open spec fn home_relative(path: Seq<char>) -> Option<Seq<char>> {
    if path.len() >= 2 && path.subrange(0, 2) == "~/"@ {
        Some(path.subrange(2, path.len() as int))
    } else if path.len() >= 6 && path.subrange(0, 6) == "$HOME/"@ {
        Some(path.subrange(6, path.len() as int))
    } else {
        None
    }
}

/// `path` with a leading `~/` or `$HOME/` replaced by the home directory.
pub open spec fn spec_resolve_path(path: Seq<char>, home: Option<Seq<char>>) -> Seq<char> {
    match (home_relative(path), home) {
        (Some(rest), Some(h)) => join(h, rest),
        _ => path,
    }
}

fn starts_with(s: &Vec<char>, prefix: &str) -> (res: bool)
    ensures
        res == (s@.len() >= prefix@.len() && s@.subrange(0, prefix@.len() as int) == prefix@),
{
    let p = chars_of(prefix);
    if s.len() < p.len() {
        return false;
    }
    let head = substring(s, 0, p.len());
    str_eq(head.as_str(), prefix)
}

/// The path with the given home directory in place of `~/` or `$HOME/`.
pub fn resolve_path_in(path: &str, home: Option<&str>) -> (res: String)
    ensures
        res@ == spec_resolve_path(path@, match home {
            Some(h) => Some(h@),
            None => None,
        }),
{
    proof {
        reveal_strlit("~/");
        reveal_strlit("$HOME/");
    }
    let cs = chars_of(path);
    let rest = if starts_with(&cs, "~/") {
        Some(substring(&cs, 2, cs.len()))
    } else if starts_with(&cs, "$HOME/") {
        Some(substring(&cs, 6, cs.len()))
    } else {
        None
    };
    match (rest, home) {
        (Some(r), Some(h)) => join_path(h, r.as_str()),
        _ => copy_string(path),
    }
}

/// The path with the user's home directory in place of `~/` or `$HOME/`;
/// other paths are kept.
pub fn resolve_path(path: &str) -> (res: String)
    ensures
        exists|home: Option<Seq<char>>| res@ == spec_resolve_path(path@, home),
        home_relative(path@) is None ==> res@ == path@,
{
    let home = home_dir();
    match home {
        Some(h) => resolve_path_in(path, Some(h.as_str())),
        None => resolve_path_in(path, None),
    }
}

/// What linking one template entry takes.
pub enum LinkPlan {
    /// The entry is disabled.
    Skip,
    /// Link `target` to the rendered `source`, then run the hook, if any.
    Link { source: String, target: String, post_hook: Option<String> },
}

/// The message for a template that was never rendered.
pub fn missing_template_message(template: &str) -> (res: String)
    ensures
        res@ == "Template '"@ + template@
            + "' not found in cache. Ensure it exists in ~/.config/rizzoora/templates/ and the --map flag was run."@,
{
    let head = cat("Template '", template);
    cat(
        head.as_str(),
        "' not found in cache. Ensure it exists in ~/.config/rizzoora/templates/ and the --map flag was run.",
    )
}

/// Positions of the entries, keyed by name.
pub open spec fn entry_positions(v: Seq<(String, TemplateConfiguration)>) -> Seq<(Seq<char>, int)> {
    Seq::new(v.len(), |i: int| (v[i].0@, i))
}

/// The home directory given as text, as a view.
pub open spec fn home_view(home: Option<&str>) -> Option<Seq<char>> {
    match home {
        Some(h) => Some(h@),
        None => None,
    }
}

/// `p` is the plan for `entry` with `home` as the home directory: nothing
/// for a disabled entry; else its rendering in the cache directory, linked
/// from its output path (with `~/` or `$HOME/` resolved against `home`),
/// with its hook.
pub open spec fn planned(p: LinkPlan, entry: TemplateConfiguration, paths: Paths, home: Option<Seq<char>>) -> bool {
    if !entry.enabled {
        p is Skip
    } else {
        p matches LinkPlan::Link { source, target, post_hook } && source@ == join(
            paths.cache_dir@,
            entry.template@,
        ) && target@ == spec_resolve_path(entry.output@, home) && opt_text(post_hook) == opt_text(
            entry.post_hook,
        )
    }
}

/// The plan for an entry, with `home` as the home directory.
pub fn plan_link_in(entry: &TemplateConfiguration, paths: &Paths, home: Option<&str>) -> (res: LinkPlan)
    ensures
        planned(res, *entry, *paths, home_view(home)),
{
    if !entry.enabled {
        return LinkPlan::Skip;
    }
    LinkPlan::Link {
        source: join_path(paths.cache_dir.as_str(), entry.template.as_str()),
        target: resolve_path_in(entry.output.as_str(), home),
        post_hook: copy_opt(&entry.post_hook),
    }
}

/// The plan for an entry, with the user's home directory: a disabled entry
/// is skipped; an output path that does not start from the home directory
/// is linked as written.
pub fn plan_link(entry: &TemplateConfiguration, paths: &Paths) -> (res: LinkPlan)
    ensures
        exists|home: Option<Seq<char>>| planned(res, *entry, *paths, home),
        !entry.enabled ==> res is Skip,
        entry.enabled && home_relative(entry.output@) is None ==> (res matches LinkPlan::Link {
            source: _,
            target,
            post_hook: _,
        } && target@ == entry.output@),
{
    let home = home_dir();
    let res = match &home {
        Some(h) => plan_link_in(entry, paths, Some(h.as_str())),
        None => plan_link_in(entry, paths, None),
    };
    proof {
        let hv = match home {
            Some(h) => Some(h@),
            None => None,
        };
        assert(planned(res, *entry, *paths, hv));
    }
    res
}

/// The plan for the entry called `name` (the last entry of that name), with
/// `home` as the home directory; an unknown name is an error.
pub fn render_one_in(
    paths: &Paths,
    templates: &Vec<(String, TemplateConfiguration)>,
    name: &str,
    home: Option<&str>,
) -> (res: Result<LinkPlan, LRatio>)
    ensures
        lookup(entry_positions(templates@), name@) is None ==> (res matches Err(LRatio::Custom(m))
            && m@ == "entry '"@ + name@ + "' not found in config"@),
        lookup(entry_positions(templates@), name@) matches Some(k) ==> (res matches Ok(p)
            && planned(p, templates@[k].1, *paths, home_view(home))),
{
    let ghost all = entry_positions(templates@);
    let mut i = templates.len();
    proof {
        assert(all.take(i as int) =~= all);
    }
    while i > 0
        invariant
            i <= templates@.len(),
            all == entry_positions(templates@),
            lookup(all, name@) == lookup(all.take(i as int), name@),
        decreases i,
    {
        proof {
            assert(all.take(i as int).drop_last() =~= all.take(i - 1));
        }
        if str_eq(templates[i - 1].0.as_str(), name) {
            return Ok(plan_link_in(&templates[i - 1].1, paths, home));
        }
        i = i - 1;
    }
    let head = cat("entry '", name);
    Err(LRatio::Custom(cat(head.as_str(), "' not found in config")))
}

/// The plan for the entry called `name`, with the user's home directory; an
/// unknown name is an error.
pub fn render_one(paths: &Paths, templates: &Vec<(String, TemplateConfiguration)>, name: &str) -> (res: Result<LinkPlan, LRatio>)
    ensures
        lookup(entry_positions(templates@), name@) is None ==> (res matches Err(LRatio::Custom(m))
            && m@ == "entry '"@ + name@ + "' not found in config"@),
        lookup(entry_positions(templates@), name@) matches Some(k) ==> (res matches Ok(p)
            && exists|home: Option<Seq<char>>| planned(p, templates@[k].1, *paths, home)),
{
    let home = home_dir();
    let res = match &home {
        Some(h) => render_one_in(paths, templates, name, Some(h.as_str())),
        None => render_one_in(paths, templates, name, None),
    };
    proof {
        let hv = match home {
            Some(h) => Some(h@),
            None => None,
        };
        if let Some(k) = lookup(entry_positions(templates@), name@) {
            assert(planned(res->Ok_0, templates@[k].1, *paths, hv));
        }
    }
    res
}

/// `cell` shows `text`, perhaps wrapped in terminal styling codes.
pub open spec fn painted(cell: Seq<char>, text: Seq<char>) -> bool {
    exists|prefix: Seq<char>, suffix: Seq<char>| cell == prefix + text + suffix
}

/// Trusted: yansi's `Paint::bg` with the colour as 24-bit RGB, displayed.
/// yansi writes the text alone, or between a styling prefix and suffix,
/// depending on whether painting is enabled (global, environment-dependent
/// state), so only that the text is shown is claimed.
#[verifier::external_body]
fn paint_on(text: &str, c: Rgb) -> (res: String)
    ensures
        painted(res@, text@),
{
    text.bg(Color::Rgb(c.r, c.g, c.b)).to_string()
}

/// Trusted: yansi's `Paint::bold`, displayed; as for `paint_on`, only that
/// the text is shown is claimed.
#[verifier::external_body]
fn paint_bold(text: &str) -> (res: String)
    ensures
        painted(res@, text@),
{
    text.bold().to_string()
}

/// Trusted: yansi's `Paint::rgb` in the colour, then `bold` and `italic`,
/// displayed; as for `paint_on`, only that the text is shown is claimed.
#[verifier::external_body]
fn paint_marker(text: &str, c: Rgb) -> (res: String)
    ensures
        painted(res@, text@),
{
    text.rgb(c.r, c.g, c.b).bold().italic().to_string()
}

/// The cells of a row, as text.
pub open spec fn row_view(r: Vec<String>) -> Seq<Seq<char>> {
    r@.map_values(|s: String| s@)
}

/// The cells of rows, as text.
pub open spec fn rows_view(rows: Seq<Vec<String>>) -> Seq<Seq<Seq<char>>> {
    rows.map_values(|r: Vec<String>| row_view(r))
}

/// The text of the blank-styled table of these rows, each cell padded by
/// `left` and `right` spaces.
pub uninterp spec fn table_text(rows: Seq<Seq<Seq<char>>>, left: usize, right: usize) -> Seq<char>;

/// Trusted: tabled's `Builder::from` on the rows, `build`, `Style::blank`
/// and `Padding::new(left, right, 0, 0)` on every cell, displayed. The
/// layout depends on the cells and paddings alone, so the text is named.
#[verifier::external_body]
fn render_table(rows: Vec<Vec<String>>, left: usize, right: usize) -> (res: String)
    ensures
        res@ == table_text(rows_view(rows@), left, right),
{
    let mut table = Builder::from(rows).build();
    table.with(Style::blank()).with(Modify::new(Segment::all()).with(Padding::new(left, right, 0, 0)));
    table.to_string()
}

/// The ten spaces of a colour swatch.
pub open spec fn swatch_text() -> Seq<char> {
    "          "@
}

/// The roles that the preview lists, in order, with their names.
pub open spec fn preview_roles(r: MaterialRoles) -> Seq<(Seq<char>, Rgb)> {
    seq![
        ("primary"@, r.primary),
        ("on_primary"@, r.on_primary),
        ("primary_container"@, r.primary_container),
        ("on_primary_container"@, r.on_primary_container),
        ("secondary"@, r.secondary),
        ("on_secondary"@, r.on_secondary),
        ("secondary_container"@, r.secondary_container),
        ("on_secondary_container"@, r.on_secondary_container),
        ("tertiary"@, r.tertiary),
        ("on_tertiary"@, r.on_tertiary),
        ("error"@, r.error),
        ("on_error"@, r.on_error),
        ("surface"@, r.surface),
        ("on_surface"@, r.on_surface),
        ("surface_container"@, r.surface_container),
        ("outline"@, r.outline),
        ("background"@, r.background),
        ("on_background"@, r.on_background),
        ("surface_bright"@, r.surface_bright),
        ("surface_dim"@, r.surface_dim)
    ]
}

/// A section title: the title (painted) followed by empty cells.
pub open spec fn title_row(row: Seq<Seq<char>>, title: Seq<char>, width: int) -> bool {
    &&& row.len() == width
    &&& painted(row[0], title)
    &&& forall|k: int| 1 <= k < width ==> #[trigger] row[k] == Seq::<char>::empty()
}

/// A colour row: a swatch, the label, the colour's hex text and `last`.
pub open spec fn color_row(row: Seq<Seq<char>>, label: Seq<char>, c: Rgb, last: Seq<char>) -> bool {
    &&& row.len() == 4
    &&& painted(row[0], swatch_text())
    &&& row[1] == label
    &&& row[2] == c.spec_hex()
    &&& row[3] == last
}

/// `[i]`, the label of the seed colour at position `i`.
pub open spec fn seed_label(i: int) -> Seq<char> {
    "["@ + spec_decimal(i as nat) + "]"@
}

/// The seed colours, if any were given.
pub open spec fn seeds_of(seed_colors: Option<&Vec<Rgb>>) -> Seq<Rgb> {
    match seed_colors {
        Some(v) => v@,
        None => Seq::empty(),
    }
}

/// The preview rows: where there are seed colours, a `Sources` title and a
/// row for each (the one at `pick` marked with `<< seed-color`, painted in
/// its colour); then a `Palette` title and the twenty roles; then a
/// `Base16` title and `base00` to `base15`.
pub open spec fn preview_layout(
    rows: Seq<Seq<Seq<char>>>,
    roles: MaterialRoles,
    base16: Seq<Rgb>,
    seeds: Seq<Rgb>,
    pick: int,
) -> bool {
    let off: int = if seeds.len() > 0 { (seeds.len() + 1) as int } else { 0int };
    &&& rows.len() == off + 38
    &&& seeds.len() > 0 ==> title_row(rows[0], "Sources"@, 5)
    &&& forall|i: int|
        0 <= i < seeds.len() ==> #[trigger] seed_row_at(rows, i, seeds[i], pick)
    &&& title_row(rows[off], "\n\nPalette"@, 4)
    &&& forall|j: int|
        0 <= j < 20 ==> color_row(
            rows[off + 1 + j],
            (#[trigger] preview_roles(roles)[j]).0,
            preview_roles(roles)[j].1,
            Seq::empty(),
        )
    &&& title_row(rows[off + 21], "\n\nBase16"@, 4)
    &&& forall|i: int|
        0 <= i < 16 ==> color_row(rows[off + 22 + i], base_name(i), #[trigger] base16[i], Seq::empty())
}

/// The row of seed colour `i`: its label, its hex text, and the marker
/// where `i` is the pick.
pub open spec fn seed_row_at(rows: Seq<Seq<Seq<char>>>, i: int, c: Rgb, pick: int) -> bool {
    &&& i + 1 < rows.len()
    &&& rows[i + 1].len() == 4
    &&& painted(rows[i + 1][0], swatch_text())
    &&& rows[i + 1][1] == seed_label(i)
    &&& rows[i + 1][2] == c.spec_hex()
    &&& (i == pick ==> painted(rows[i + 1][3], "<< seed-color"@))
    &&& (i != pick ==> rows[i + 1][3] == Seq::<char>::empty())
}

proof fn lemma_rows_push(rows: Seq<Vec<String>>, r: Vec<String>)
    ensures
        rows_view(rows.push(r)) == rows_view(rows).push(row_view(r)),
{
    assert(rows_view(rows.push(r)) =~= rows_view(rows).push(row_view(r)));
}

/// A title row: the painted title, then empty cells up to `width`.
fn title_cells(title: &str, width: usize) -> (res: Vec<String>)
    requires
        width >= 1,
    ensures
        title_row(row_view(res), title@, width as int),
{
    let mut v: Vec<String> = Vec::new();
    v.push(paint_bold(title));
    let mut k: usize = 1;
    while k < width
        invariant
            1 <= k <= width,
            v@.len() == k,
            painted(v@[0]@, title@),
            forall|m: int| 1 <= m < k ==> (#[trigger] v@[m])@ == Seq::<char>::empty(),
        decreases width - k,
    {
        v.push(String::new());
        k = k + 1;
    }
    proof {
        assert forall|m: int| 1 <= m < width implies #[trigger] row_view(v)[m] == Seq::<char>::empty() by {
            assert(row_view(v)[m] == v@[m]@);
        }
    }
    v
}

/// A colour row: a swatch painted in the colour, the label, the hex text
/// and the last cell.
fn color_cells(label: String, c: Rgb, last: String) -> (res: Vec<String>)
    ensures
        color_row(row_view(res), label@, c, last@),
{
    proof {
        reveal_strlit("          ");
    }
    let mut v: Vec<String> = Vec::new();
    v.push(paint_on("          ", c));
    v.push(label);
    v.push(c.to_hex());
    v.push(last);
    v
}

/// `[i]`.
fn seed_label_of(i: usize) -> (res: String)
    ensures
        res@ == seed_label(i as int),
{
    proof {
        reveal_strlit("[");
        reveal_strlit("]");
    }
    let digits = decimal(i as u64);
    let mut v: Vec<char> = Vec::new();
    v.push('[');
    let mut k: usize = 0;
    while k < digits.len()
        invariant
            k <= digits@.len(),
            v@ == seq!['['] + digits@.take(k as int),
        decreases digits@.len() - k,
    {
        v.push(digits[k]);
        proof {
            assert(digits@.take(k + 1) =~= digits@.take(k as int).push(digits@[k as int]));
        }
        k = k + 1;
    }
    v.push(']');
    proof {
        assert(digits@.take(k as int) =~= digits@);
        assert(v@ =~= seed_label(i as int));
    }
    string_of(v.as_slice())
}

/// `base00` to `base15`.
fn base_label_of(i: usize) -> (res: String)
    requires
        i < 16,
    ensures
        res@ == base_name(i as int),
{
    proof {
        reveal_strlit("base");
    }
    let mut v: Vec<char> = Vec::new();
    v.push('b');
    v.push('a');
    v.push('s');
    v.push('e');
    let tens = (i / 10) as u8;
    let ones = (i % 10) as u8;
    v.push((tens + 48) as char);
    v.push((ones + 48) as char);
    proof {
        assert(v@ =~= base_name(i as int));
    }
    string_of(v.as_slice())
}

/// The twenty roles of the preview with their names.
fn preview_role_pairs(r: &MaterialRoles) -> (res: Vec<(String, Rgb)>)
    ensures
        res@.len() == 20,
        forall|j: int| 0 <= j < 20 ==> (#[trigger] res@[j]).0@ == preview_roles(*r)[j].0
            && res@[j].1 == preview_roles(*r)[j].1,
{
    let mut v: Vec<(String, Rgb)> = Vec::new();
    v.push((String::from_str("primary"), r.primary));
    v.push((String::from_str("on_primary"), r.on_primary));
    v.push((String::from_str("primary_container"), r.primary_container));
    v.push((String::from_str("on_primary_container"), r.on_primary_container));
    v.push((String::from_str("secondary"), r.secondary));
    v.push((String::from_str("on_secondary"), r.on_secondary));
    v.push((String::from_str("secondary_container"), r.secondary_container));
    v.push((String::from_str("on_secondary_container"), r.on_secondary_container));
    v.push((String::from_str("tertiary"), r.tertiary));
    v.push((String::from_str("on_tertiary"), r.on_tertiary));
    v.push((String::from_str("error"), r.error));
    v.push((String::from_str("on_error"), r.on_error));
    v.push((String::from_str("surface"), r.surface));
    v.push((String::from_str("on_surface"), r.on_surface));
    v.push((String::from_str("surface_container"), r.surface_container));
    v.push((String::from_str("outline"), r.outline));
    v.push((String::from_str("background"), r.background));
    v.push((String::from_str("on_background"), r.on_background));
    v.push((String::from_str("surface_bright"), r.surface_bright));
    v.push((String::from_str("surface_dim"), r.surface_dim));
    v
}

/// The rows of the palette preview, before layout.
pub fn preview_rows(scheme: &ColorScheme, seed_colors: Option<&Vec<Rgb>>, pick: usize) -> (res: Vec<Vec<String>>)
    ensures
        preview_layout(rows_view(res@), scheme.roles, scheme.base16@, seeds_of(seed_colors), pick as int),
{
    let ghost seeds = seeds_of(seed_colors);
    let mut out: Vec<Vec<String>> = Vec::new();
    proof {
        reveal_strlit("Sources");
        reveal_strlit("<< seed-color");
    }
    match seed_colors {
        Some(sc) => {
            if sc.len() > 0 {
                let head = title_cells("Sources", 5);
                proof {
                    lemma_rows_push(out@, head);
                }
                out.push(head);
                let mut i: usize = 0;
                while i < sc.len()
                    invariant
                        seeds == sc@,
                        i <= sc@.len(),
                        out@.len() == i + 1,
                        title_row(rows_view(out@)[0], "Sources"@, 5),
                        forall|k: int| 0 <= k < i ==> #[trigger] seed_row_at(rows_view(out@), k, seeds[k], pick as int),
                    decreases sc@.len() - i,
                {
                    let c = sc[i];
                    let marker = if i == pick {
                        paint_marker("<< seed-color", c)
                    } else {
                        String::new()
                    };
                    let row = color_cells(seed_label_of(i), c, marker);
                    let ghost before = rows_view(out@);
                    proof {
                        lemma_rows_push(out@, row);
                    }
                    out.push(row);
                    proof {
                        let after = rows_view(out@);
                        assert(after == before.push(row_view(row)));
                        assert forall|k: int| 0 <= k < i + 1 implies #[trigger] seed_row_at(after, k, seeds[k], pick as int) by {
                            if k < i {
                                assert(seed_row_at(before, k, seeds[k], pick as int));
                                assert(after[k + 1] == before[k + 1]);
                            }
                        }
                    }
                    i = i + 1;
                }
            }
        },
        None => {},
    }
    let ghost off = out@.len() as int;
    let ghost first = rows_view(out@);
    assert(off == if seeds.len() > 0 { (seeds.len() + 1) as int } else { 0int });
    let head = title_cells("\n\nPalette", 4);
    proof {
        lemma_rows_push(out@, head);
    }
    out.push(head);
    let pairs = preview_role_pairs(&scheme.roles);
    let mut j: usize = 0;
    while j < 20
        invariant
            pairs@.len() == 20,
            forall|m: int| 0 <= m < 20 ==> (#[trigger] pairs@[m]).0@ == preview_roles(scheme.roles)[m].0
                && pairs@[m].1 == preview_roles(scheme.roles)[m].1,
            j <= 20,
            0 <= off,
            out@.len() == off + 1 + j,
            rows_view(out@).take(off) == first,
            title_row(rows_view(out@)[off], "\n\nPalette"@, 4),
            forall|m: int| 0 <= m < j ==> color_row(
                rows_view(out@)[off + 1 + m],
                (#[trigger] preview_roles(scheme.roles)[m]).0,
                preview_roles(scheme.roles)[m].1,
                Seq::empty(),
            ),
        decreases 20 - j,
    {
        let row = color_cells(copy_string(pairs[j].0.as_str()), pairs[j].1, String::new());
        let ghost before = rows_view(out@);
        proof {
            lemma_rows_push(out@, row);
        }
        out.push(row);
        proof {
            let after = rows_view(out@);
            assert(after.take(off) =~= before.take(off));
            assert(after[off] == before[off]);
            assert forall|m: int| 0 <= m < j + 1 implies color_row(
                after[off + 1 + m],
                (#[trigger] preview_roles(scheme.roles)[m]).0,
                preview_roles(scheme.roles)[m].1,
                Seq::empty(),
            ) by {
                if m < j {
                    assert(after[off + 1 + m] == before[off + 1 + m]);
                } else {
                    assert(pairs@[m].0@ == preview_roles(scheme.roles)[m].0);
                }
            }
        }
        j = j + 1;
    }
    let ghost second = rows_view(out@);
    let head = title_cells("\n\nBase16", 4);
    proof {
        lemma_rows_push(out@, head);
    }
    out.push(head);
    let mut i: usize = 0;
    while i < 16
        invariant
            i <= 16,
            0 <= off,
            out@.len() == off + 22 + i,
            rows_view(out@).take(off + 21) == second,
            title_row(rows_view(out@)[off + 21], "\n\nBase16"@, 4),
            forall|m: int| 0 <= m < i ==> color_row(
                rows_view(out@)[off + 22 + m],
                base_name(m),
                #[trigger] scheme.base16@[m],
                Seq::empty(),
            ),
        decreases 16 - i,
    {
        let row = color_cells(base_label_of(i), scheme.base16[i], String::new());
        let ghost before = rows_view(out@);
        proof {
            lemma_rows_push(out@, row);
        }
        out.push(row);
        proof {
            let after = rows_view(out@);
            assert(after.take(off + 21) =~= before.take(off + 21));
            assert(after[off + 21] == before[off + 21]);
            assert forall|m: int| 0 <= m < i + 1 implies color_row(
                after[off + 22 + m],
                base_name(m),
                #[trigger] scheme.base16@[m],
                Seq::empty(),
            ) by {
                if m < i {
                    assert(after[off + 22 + m] == before[off + 22 + m]);
                }
            }
        }
        i = i + 1;
    }
    proof {
        let rows = rows_view(out@);
        assert forall|k: int| 0 <= k < seeds.len() implies #[trigger] seed_row_at(rows, k, seeds[k], pick as int) by {
            assert(seed_row_at(first, k, seeds[k], pick as int));
            assert(rows[k + 1] == second[k + 1]);
            assert(second[k + 1] == first[k + 1]);
        }
        if seeds.len() > 0 {
            assert(rows[0] == second[0]);
            assert(second[0] == first[0]);
        }
        assert(rows[off] == second[off]);
        assert forall|m: int| 0 <= m < 20 implies color_row(
            rows[off + 1 + m],
            (#[trigger] preview_roles(scheme.roles)[m]).0,
            preview_roles(scheme.roles)[m].1,
            Seq::empty(),
        ) by {
            assert(rows[off + 1 + m] == second[off + 1 + m]);
        }
    }
    out
}

/// The palette preview as a table: the seed colours (the picked one
/// marked), the main roles and the base16 palette, each with a swatch and
/// its hex text, cells padded by three spaces on the left and one on the
/// right.
pub fn preview(scheme: &ColorScheme, seed_colors: Option<&Vec<Rgb>>, pick: usize) -> (res: String)
    ensures
        exists|rows: Seq<Seq<Seq<char>>>|
            preview_layout(rows, scheme.roles, scheme.base16@, seeds_of(seed_colors), pick as int)
                && res@ == table_text(rows, 3, 1),
{
    let rows = preview_rows(scheme, seed_colors, pick);
    let ghost shown = rows_view(rows@);
    let res = render_table(rows, 3, 1);
    assert(preview_layout(shown, scheme.roles, scheme.base16@, seeds_of(seed_colors), pick as int));
    res
}

/// Each role row of the preview shows, under a role's name, the colour
/// that templates get for that name: the role's own colour.
#[verifier::rlimit(50)]
pub proof fn lemma_preview_roles_by_name(r: MaterialRoles)
    ensures
        lookup(scheme_context(r, Seq::empty(), Seq::empty(), Seq::empty()).vars, preview_roles(r)[0].0) == Some(preview_roles(r)[0].1.spec_hex()),
        lookup(scheme_context(r, Seq::empty(), Seq::empty(), Seq::empty()).vars, preview_roles(r)[1].0) == Some(preview_roles(r)[1].1.spec_hex()),
        lookup(scheme_context(r, Seq::empty(), Seq::empty(), Seq::empty()).vars, preview_roles(r)[2].0) == Some(preview_roles(r)[2].1.spec_hex()),
        lookup(scheme_context(r, Seq::empty(), Seq::empty(), Seq::empty()).vars, preview_roles(r)[3].0) == Some(preview_roles(r)[3].1.spec_hex()),
        lookup(scheme_context(r, Seq::empty(), Seq::empty(), Seq::empty()).vars, preview_roles(r)[4].0) == Some(preview_roles(r)[4].1.spec_hex()),
        lookup(scheme_context(r, Seq::empty(), Seq::empty(), Seq::empty()).vars, preview_roles(r)[5].0) == Some(preview_roles(r)[5].1.spec_hex()),
        lookup(scheme_context(r, Seq::empty(), Seq::empty(), Seq::empty()).vars, preview_roles(r)[6].0) == Some(preview_roles(r)[6].1.spec_hex()),
        lookup(scheme_context(r, Seq::empty(), Seq::empty(), Seq::empty()).vars, preview_roles(r)[7].0) == Some(preview_roles(r)[7].1.spec_hex()),
        lookup(scheme_context(r, Seq::empty(), Seq::empty(), Seq::empty()).vars, preview_roles(r)[8].0) == Some(preview_roles(r)[8].1.spec_hex()),
        lookup(scheme_context(r, Seq::empty(), Seq::empty(), Seq::empty()).vars, preview_roles(r)[9].0) == Some(preview_roles(r)[9].1.spec_hex()),
        lookup(scheme_context(r, Seq::empty(), Seq::empty(), Seq::empty()).vars, preview_roles(r)[10].0) == Some(preview_roles(r)[10].1.spec_hex()),
        lookup(scheme_context(r, Seq::empty(), Seq::empty(), Seq::empty()).vars, preview_roles(r)[11].0) == Some(preview_roles(r)[11].1.spec_hex()),
        lookup(scheme_context(r, Seq::empty(), Seq::empty(), Seq::empty()).vars, preview_roles(r)[12].0) == Some(preview_roles(r)[12].1.spec_hex()),
        lookup(scheme_context(r, Seq::empty(), Seq::empty(), Seq::empty()).vars, preview_roles(r)[13].0) == Some(preview_roles(r)[13].1.spec_hex()),
        lookup(scheme_context(r, Seq::empty(), Seq::empty(), Seq::empty()).vars, preview_roles(r)[14].0) == Some(preview_roles(r)[14].1.spec_hex()),
        lookup(scheme_context(r, Seq::empty(), Seq::empty(), Seq::empty()).vars, preview_roles(r)[15].0) == Some(preview_roles(r)[15].1.spec_hex()),
        lookup(scheme_context(r, Seq::empty(), Seq::empty(), Seq::empty()).vars, preview_roles(r)[16].0) == Some(preview_roles(r)[16].1.spec_hex()),
        lookup(scheme_context(r, Seq::empty(), Seq::empty(), Seq::empty()).vars, preview_roles(r)[17].0) == Some(preview_roles(r)[17].1.spec_hex()),
        lookup(scheme_context(r, Seq::empty(), Seq::empty(), Seq::empty()).vars, preview_roles(r)[18].0) == Some(preview_roles(r)[18].1.spec_hex()),
        lookup(scheme_context(r, Seq::empty(), Seq::empty(), Seq::empty()).vars, preview_roles(r)[19].0) == Some(preview_roles(r)[19].1.spec_hex()),
{
    lemma_role_variables_by_name(r, Seq::empty(), Seq::empty(), Seq::empty());
}

} // verus!
