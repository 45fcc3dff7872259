use std::collections::HashMap;

use handlebars::{Context, Handlebars, Helper, HelperResult, Output, RenderContext};
use texrender::{
    artifact_outcome, build_engine, prepare_tex, text_outcome, write_outcome, HandlebarsHelper,
    TemplateRecipe, TexError,
};

type HelperFn =
    fn(&Helper, &Handlebars, &Context, &mut RenderContext, &mut dyn Output) -> HelperResult;

fn shout(
    h: &Helper,
    _: &Handlebars,
    _: &Context,
    _: &mut RenderContext,
    out: &mut dyn Output,
) -> HelperResult {
    let word = h.param(0).map(|p| p.render()).unwrap_or_default();
    out.write(&word.to_uppercase())?;
    Ok(())
}

fn stars(
    _: &Helper,
    _: &Handlebars,
    _: &Context,
    _: &mut RenderContext,
    out: &mut dyn Output,
) -> HelperResult {
    out.write("***")?;
    Ok(())
}

fn recipe(
    data: handlebars::JsonValue,
    helpers: Option<Vec<HandlebarsHelper<HelperFn>>>,
) -> TemplateRecipe<HelperFn> {
    TemplateRecipe {
        template: "test.tex".to_string(),
        output: "test.pdf".to_string(),
        data,
        helpers,
    }
}

fn foo_boo() -> handlebars::JsonValue {
    let mut data = HashMap::new();
    data.insert("foo", "boo");
    handlebars::to_json(&data)
}

fn helper(name: &str, func: HelperFn) -> HandlebarsHelper<HelperFn> {
    HandlebarsHelper { name: name.to_string(), func }
}

#[test]
fn test_render_tex() {
    let latex_input = r#"
            \documentclass{article}
            \begin{document}
                Hello, {{foo}}!
            \end{document}
        "#;
    let latex_output = r#"
            \documentclass{article}
            \begin{document}
                Hello, boo!
            \end{document}
        "#;

    let t = recipe(foo_boo(), None);
    let output = prepare_tex(&t, Some(latex_input.to_string()));

    assert_eq!(output.ok().unwrap(), latex_output);
}

#[test]
fn test_render_html_like() {
    let latex_input = "Hello, {{name}}!";
    let data = HashMap::from([("name", "<&%#>".to_owned())]);

    let t = recipe(handlebars::to_json(&data), None);
    let output = prepare_tex(&t, Some(latex_input.to_string())).ok().unwrap();
    assert_eq!(output, "Hello, <&%#>!");
}

#[test]
fn substitutes_key_and_keeps_rest() {
    let t = recipe(foo_boo(), None);
    let output = prepare_tex(&t, Some("Hello, {{foo}}!".to_string())).ok().unwrap();
    assert_eq!(output, "Hello, boo!");
}

#[test]
fn nested_path_is_resolved() {
    let inner = HashMap::from([("name", "Ada")]);
    let data = HashMap::from([("author", inner)]);
    let t = recipe(handlebars::to_json(&data), None);
    let output = prepare_tex(&t, Some(r"\author{ {{author.name}} }".to_string())).ok().unwrap();
    assert_eq!(output, r"\author{ Ada }");
}

#[test]
fn unreadable_template_is_an_error() {
    let t = recipe(foo_boo(), None);
    let output = prepare_tex(&t, None);
    assert!(matches!(output, Err(TexError::TemplateUnreadable)));
}

#[test]
fn empty_template_renders_empty_text() {
    let t = recipe(foo_boo(), None);
    let output = prepare_tex(&t, Some(String::new())).ok().unwrap();
    assert_eq!(output, "");
}

#[test]
fn malformed_template_is_a_render_error() {
    let t = recipe(foo_boo(), None);
    let output = prepare_tex(&t, Some("Hello, {{#if foo}}!".to_string()));
    match output {
        Err(TexError::Render(m)) => assert!(!m.is_empty()),
        _ => panic!("expected a rendering failure"),
    }
}

#[test]
fn registered_helper_output_replaces_marker() {
    let t = recipe(foo_boo(), Some(vec![helper("shout", shout), helper("stars", stars)]));
    let output = prepare_tex(&t, Some("{{stars}} {{shout foo}} {{stars}}".to_string()))
        .ok()
        .unwrap();
    assert_eq!(output, "*** BOO ***");
}

#[test]
fn unregistered_helper_is_a_render_error() {
    let t = recipe(foo_boo(), Some(vec![helper("shout", shout)]));
    let output = prepare_tex(&t, Some("{{whisper foo}}".to_string()));
    assert!(matches!(output, Err(TexError::Render(_))));
}

#[test]
fn later_helper_of_same_name_wins() {
    let t = recipe(foo_boo(), Some(vec![helper("mark", shout), helper("mark", stars)]));
    let output = prepare_tex(&t, Some("{{mark foo}}".to_string())).ok().unwrap();
    assert_eq!(output, "***");
}

#[test]
fn rendering_twice_gives_same_text() {
    let t = recipe(foo_boo(), Some(vec![helper("shout", shout)]));
    let source = "Hello, {{foo}} and {{shout foo}}!";
    let first = prepare_tex(&t, Some(source.to_string())).ok().unwrap();
    let second = prepare_tex(&t, Some(source.to_string())).ok().unwrap();
    assert_eq!(first, second);
    assert_eq!(first, "Hello, boo and BOO!");
}

#[test]
fn engine_inserts_values_verbatim() {
    let t = recipe(foo_boo(), Some(vec![helper("shout", shout)]));
    let reg = build_engine(&t);
    let data = HashMap::from([("v", "a<b & \"c\"")]);
    let output = reg.render_template("{{v}}|{{shout v}}", &handlebars::to_json(&data)).unwrap();
    assert_eq!(output, "a<b & \"c\"|A<B & \"C\"");
}

#[test]
fn text_outcome_maps_both_sides() {
    assert_eq!(text_outcome(Ok("x".to_string())).ok().unwrap(), "x");
    match text_outcome(Err("bad".to_string())) {
        Err(e @ TexError::Render(_)) => assert_eq!(e.message(), "bad"),
        _ => panic!("expected a rendering failure"),
    }
}

#[test]
fn artifact_outcome_maps_both_sides() {
    assert_eq!(artifact_outcome(Ok(vec![37, 80, 68, 70])).ok().unwrap(), vec![37, 80, 68, 70]);
    match artifact_outcome(Err("no pdf".to_string())) {
        Err(e @ TexError::Compile(_)) => assert_eq!(e.message(), "no pdf"),
        _ => panic!("expected a compilation failure"),
    }
}

#[test]
fn write_outcome_maps_both_sides() {
    assert!(write_outcome(Ok(())).is_ok());
    match write_outcome(Err("disk full".to_string())) {
        Err(e @ TexError::Write(_)) => assert_eq!(e.message(), "disk full"),
        _ => panic!("expected a write failure"),
    }
}

#[test]
fn missing_key_is_a_render_error() {
    let t = recipe(foo_boo(), None);
    let output = prepare_tex(&t, Some("Hello, {{bar}}!".to_string()));
    assert!(matches!(output, Err(TexError::Render(_))));
}

#[test]
fn partial_call_is_refused() {
    let t = recipe(foo_boo(), None);
    let output = prepare_tex(&t, Some("Hello, {{> greeting}}!".to_string()));
    assert!(matches!(output, Err(TexError::PartialCall)));
}

#[test]
fn partial_block_with_tilde_is_refused() {
    let t = recipe(foo_boo(), None);
    let output = prepare_tex(&t, Some("{{~ # > layout}}body{{/layout}}".to_string()));
    assert!(matches!(output, Err(TexError::PartialCall)));
}

#[test]
fn self_including_inline_partial_is_refused() {
    let t = recipe(foo_boo(), None);
    let source = "{{#*inline \"p\"}}x{{> p}}{{/inline}}{{> p}}";
    let output = prepare_tex(&t, Some(source.to_string()));
    assert!(matches!(output, Err(TexError::PartialCall)));
}

#[test]
fn comparison_outside_braces_is_not_a_partial() {
    let inner = HashMap::from([("a", "1")]);
    let t = recipe(handlebars::to_json(&inner), None);
    let output = prepare_tex(&t, Some("$x > y$ and { {a}} {{a}}>".to_string())).ok().unwrap();
    assert_eq!(output, "$x > y$ and { {a}} 1>");
}
