//! Parsing, evaluating and rendering templates.
use rizzoo::color::base16::Base16Generator;
use rizzoo::color::scheme::SchemeGenerator;
use rizzoo::color::types::{ColorScheme, Rgb};
use rizzoo::config::Style;
use rizzoo::template::filters::{Adjustment, FloatRequest};
use rizzoo::template::interpreter::{Evaluation, FloatAnswers, TemplateContext, TemplateEvaluator};
use rizzoo::template::parser::{TemplateNode, TemplateParser};
use rizzoo::template::renderer::TemplateRenderer;

fn scheme() -> ColorScheme {
    SchemeGenerator::generate(&Rgb::rgb(75, 32, 130), Style::TonalSpot, true, "0.0")
}

fn rendered(e: Evaluation) -> String {
    match e {
        Evaluation::Rendered(t) => t,
        Evaluation::Failed(m) => panic!("failed: {m}"),
        Evaluation::Pending(r) => panic!("pending: {r:?}"),
        Evaluation::Aborted => panic!("aborted"),
    }
}

fn render(source: &str, ctx: &TemplateContext) -> String {
    rendered(TemplateRenderer::render_source("t.txt", source, ctx, &FloatAnswers::new()))
}

fn scheme_context() -> TemplateContext {
    let s = scheme();
    let custom = vec![("accent".to_string(), Rgb::rgb(224, 108, 117))];
    TemplateRenderer::build_context(&s, Some(&custom))
}

#[test]
fn plain_text_is_one_node_and_renders_to_itself() {
    let src = "  just text\n\twith } and { braces  ";
    let nodes = TemplateParser::parse(src).unwrap();
    assert_eq!(nodes.len(), 1);
    assert!(matches!(&nodes[0], TemplateNode::Text(t) if t.as_str() == src));
    assert_eq!(render(src, &TemplateContext::new()), src);
}

#[test]
fn empty_template_renders_empty() {
    assert_eq!(render("", &TemplateContext::new()), "");
}

#[test]
fn variables_render_their_values() {
    let ctx = TemplateContext::new().with_var("name", "world");
    assert_eq!(render("hello {{ name }}!", &ctx), "hello world!");
    assert_eq!(render("hello {{name}}!", &ctx), "hello world!");
}

#[test]
fn later_binding_wins() {
    let ctx = TemplateContext::new().with_var("x", "1").with_var("x", "2");
    assert_eq!(render("{{ x }}", &ctx), "2");
    assert_eq!(ctx.var("x").as_deref(), Some("2"));
    assert_eq!(ctx.var("y"), None);
}

#[test]
fn undefined_variable_reports_template_name() {
    let ctx = scheme_context();
    match TemplateRenderer::render_source("broken.tmpl", "{{ does_not_exist }}", &ctx, &FloatAnswers::new()) {
        Evaluation::Failed(msg) => {
            assert!(msg.contains("broken.tmpl"), "missing template name in error: {msg}");
            assert!(msg.contains("does_not_exist"), "missing var name in error: {msg}");
            assert_eq!(msg, "failed to evaluate template 'broken.tmpl': undefined variable: does_not_exist");
        }
        _ => panic!("expected a failure"),
    }
}

#[test]
fn parse_errors_name_the_template() {
    match TemplateRenderer::render_source("bad.tmpl", "ok {{ }}", &TemplateContext::new(), &FloatAnswers::new()) {
        Evaluation::Failed(msg) => assert_eq!(msg, "failed to parse template 'bad.tmpl': parse error: ok {{ }}\n   ^\n"),
        _ => panic!("expected a failure"),
    }
}

#[test]
fn css_variables() {
    let s = scheme();
    let css = render(
        ":root {\n  --md-sys-color-primary: {{ primary }};\n  --md-sys-color-surface: {{ surface }};\n}",
        &scheme_context(),
    );
    assert!(css.contains(&format!("--md-sys-color-primary: {};", s.roles.primary.to_hex())));
    assert!(css.contains(&format!("--md-sys-color-surface: {};", s.roles.surface.to_hex())));
}

#[test]
fn kotlin_color_scheme() {
    let s = scheme();
    let kt = render("val primary = Color(0xFF{{ primary:hex_raw }})\nval onPrimary = Color(0xFF{{ on_primary:hex_raw }})", &scheme_context());
    assert!(kt.contains(&format!("val primary = Color(0xFF{})", s.roles.primary.to_raw_hex())));
    assert!(kt.contains(&format!("val onPrimary = Color(0xFF{})", s.roles.on_primary.to_raw_hex())));
}

#[test]
fn kotlin_base16_array_for_loop() {
    let s = scheme();
    let kt = render("val base16 = listOf(\n{{#for c in colors }}    \"{{ c:hex_raw }}\",\n{{/c }})", &scheme_context());
    assert!(kt.starts_with("val base16 = listOf("));
    assert!(kt.trim_end().ends_with(")"));
    for c in s.base16.iter() {
        assert!(kt.contains(&format!("\"{}\",", c.to_raw_hex())));
    }
    assert_eq!(kt.matches("0x").count(), 0);
}

#[test]
fn loop_renders_each_item_in_order() {
    let ctx = TemplateContext::new().with_array("xs", vec!["a".into(), "b".into(), "c".into()]);
    assert_eq!(render("{{ #for x in xs }}{{ x }}{{/x }}", &ctx), "abc");
    assert_eq!(render("[{{#for x in xs }}<{{ x }}>{{/x }}]", &ctx), "[<a><b><c>]");
}

#[test]
fn undefined_array_fails() {
    match TemplateRenderer::render_source("t", "{{#for x in nope }}{{ x }}{{/x }}", &TemplateContext::new(), &FloatAnswers::new()) {
        Evaluation::Failed(m) => assert_eq!(m, "failed to evaluate template 't': undefined array: nope"),
        _ => panic!("expected a failure"),
    }
}

#[test]
fn rgb_filter_integration() {
    let s = scheme();
    let out = render("{{ primary:rgb }} | {{ secondary:rgb_css }}", &scheme_context());
    assert!(out.contains(&s.roles.primary.to_css_rgb()));
    assert!(out.contains(&s.roles.secondary.to_css_rgb()));
}

#[test]
fn custom_color_variable() {
    let out = render("accent = {{ custom_accent }}", &scheme_context());
    assert!(out.contains(&format!("accent = {}", Rgb::rgb(224, 108, 117).to_hex())));
}

#[test]
fn base_variables_follow_the_palette() {
    let s = scheme();
    let out = render("{{ base00 }} {{ base13 }} {{ base15 }}", &scheme_context());
    assert_eq!(out, format!("{} {} {}", s.base16[0].to_hex(), s.base16[13].to_hex(), s.base16[15].to_hex()));
    assert_eq!(s.base16, Base16Generator::from_roles(&s.roles));
}

#[test]
fn whitespace_in_output_is_preserved() {
    let out = render("  {{ primary }}  \n\t{{ primary }}\n", &scheme_context());
    assert!(out.starts_with("  "));
    assert!(out.contains("  \n\t"));
}

#[test]
fn filter_chain_waits_for_float_work_then_finishes() {
    let ctx = TemplateContext::new().with_var("c", "#ffffff");
    let nodes = TemplateParser::parse("{{ c:darken 0.2:hex_raw }}").unwrap();
    let mut answers = FloatAnswers::new();
    let first = TemplateEvaluator::evaluate(&nodes, &ctx, &answers);
    let number = match first {
        Evaluation::Pending(r @ FloatRequest::Number(_)) => r,
        other => panic!("expected the number literal first, got {:?}", matches!(other, Evaluation::Rendered(_))),
    };
    answers.insert(number, "0.2".to_string());
    let second = TemplateEvaluator::evaluate(&nodes, &ctx, &answers);
    let adjust = match second {
        Evaluation::Pending(r @ FloatRequest::Adjust(Adjustment::Darken, _, _)) => r,
        _ => panic!("expected the darkening next"),
    };
    answers.insert(adjust, "#cccccc".to_string());
    assert_eq!(rendered(TemplateEvaluator::evaluate(&nodes, &ctx, &answers)), "cccccc");
}

#[test]
fn aborts_where_a_color_is_cut_inside_a_character() {
    let ctx = TemplateContext::new().with_var("c", "aé345");
    let nodes = TemplateParser::parse("{{ c:hex }}").unwrap();
    assert!(matches!(TemplateEvaluator::evaluate(&nodes, &ctx, &FloatAnswers::new()), Evaluation::Aborted));
}

#[test]
fn string_and_variable_arguments() {
    let ctx = TemplateContext::new().with_var("c", "#ff0000").with_var("t", "#00ff00");
    let a = render("{{ c:blend(%t) }}", &ctx);
    let b = render("{{ c:blend(\"#00ff00\") }}", &ctx);
    assert_eq!(a, b);
    assert!(Rgb::from_hex(&a).is_some());
}

#[test]
fn wallpaper_and_last_role_variables() {
    let mut s = scheme();
    s.wallpaper = "/w/p.png".to_string();
    let ctx = TemplateRenderer::build_context(&s, None);
    assert_eq!(render("{{ wallpaper }}|{{ on_background }}|{{ surface_tint }}", &ctx),
        format!("/w/p.png|{}|{}", s.roles.on_background.to_hex(), s.roles.surface_tint.to_hex()));
}

#[test]
fn every_role_is_a_variable() {
    let s = scheme();
    let ctx = scheme_context();
    for (name, color) in s.roles.entries() {
        assert_eq!(ctx.var(&name), Some(color.to_hex()), "{name}");
    }
}

fn render_with_numbers(source: &str, ctx: &TemplateContext) -> String {
    let mut answers = FloatAnswers::new();
    loop {
        match TemplateRenderer::render_source("t", source, ctx, &answers) {
            Evaluation::Rendered(t) => return t,
            Evaluation::Pending(FloatRequest::Number(n)) => {
                let shown = format!("{}", n.parse::<f64>().unwrap());
                answers.insert(FloatRequest::Number(n), shown);
            }
            Evaluation::Pending(_) => panic!("unexpected request"),
            Evaluation::Failed(m) => panic!("failed: {m}"),
            Evaluation::Aborted => panic!("aborted"),
        }
    }
}

#[test]
fn number_arguments_are_printed_as_numbers() {
    let ctx = TemplateContext::new().with_var("c", "#ff8000");
    assert_eq!(render_with_numbers("{{ c:rgba(0.50) }}", &ctx), "rgba(255, 128, 0, 0.5)");
    assert_eq!(render_with_numbers("{{ c:rgba 1 }}", &ctx), "rgba(255, 128, 0, 1)");
    assert_eq!(render_with_numbers("{{ c:rgba(\"half\") }}", &ctx), "rgba(255, 128, 0, half)");
}

#[test]
fn spaced_and_parenthesised_arguments_agree() {
    let ctx = TemplateContext::new().with_var("c", "#ff0000").with_var("t", "#0000ff");
    let a = render_with_numbers("{{ c:blend %t 0.3 }}", &ctx);
    let b = render_with_numbers("{{ c:blend(%t, 0.3) }}", &ctx);
    assert_eq!(a, b);
}

#[test]
fn unbound_variable_argument_is_empty() {
    let ctx = TemplateContext::new().with_var("c", "#ff8000");
    assert_eq!(render("{{ c:rgba(%nothing) }}", &ctx), "rgba(255, 128, 0, )");
}

#[test]
fn typescript_palette() {
    let s = scheme();
    let ts = render("export const materialColors = {\n  primary: \"{{ primary:hex_raw }}\",\n  surface: \"{{ surface:hex_raw }}\",\n} as const;", &scheme_context());
    assert!(ts.contains(&format!("primary: \"{}\",", s.roles.primary.to_raw_hex())));
    assert!(ts.contains(&format!("surface: \"{}\",", s.roles.surface.to_raw_hex())));
}

#[test]
fn rofi_rasi() {
    let s = scheme();
    let rasi = render("* {\n    primary: {{ primary }};\n    background: {{ surface }};\n}", &scheme_context());
    assert!(rasi.contains(&format!("primary: {};", s.roles.primary.to_hex())));
    assert!(rasi.contains(&format!("background: {};", s.roles.surface.to_hex())));
}

#[test]
fn scss_variables() {
    let s = scheme();
    let scss = render("$primary: {{ primary:hex_raw }};\n$on-primary: {{ on_primary:hex_raw }};", &scheme_context());
    assert!(scss.contains(&format!("$primary: {};", s.roles.primary.to_raw_hex())));
    assert!(scss.contains(&format!("$on-primary: {};", s.roles.on_primary.to_raw_hex())));
}
