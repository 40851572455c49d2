use rustlay::names::derive_context;
use rustlay::render::{render, RenderErrorKind};

#[test]
fn substitutes_all_three_symbols() {
    let ctx = derive_context("user_profile");
    let out = render(
        "controller",
        "struct {{capitalize_feature_name}}Controller; // {{feature_name}} in {{snake_case_feature_name}}",
        &ctx,
    )
    .unwrap();
    assert_eq!(out, "struct UserProfileController; // user_profile in user_profile");
}

#[test]
fn rendering_is_pure() {
    let ctx = derive_context("user_profile");
    let t = "impl {{capitalize_feature_name}} { /* {{snake_case_feature_name}} */ }";
    let a = render("use_case", t, &ctx).unwrap();
    let b = render("use_case", t, &ctx).unwrap();
    assert_eq!(a, b);
}

#[test]
fn literal_text_passes_through() {
    let ctx = derive_context("abc");
    let out = render("data_source", "no placeholders here\n", &ctx).unwrap();
    assert_eq!(out, "no placeholders here\n");
}

#[test]
fn empty_template_renders_empty() {
    let ctx = derive_context("abc");
    assert_eq!(render("model", "", &ctx).unwrap(), "");
}

#[test]
fn adjacent_placeholders_render_back_to_back() {
    let ctx = derive_context("order-item");
    let out = render("x", "{{snake_case_feature_name}}{{capitalize_feature_name}}", &ctx).unwrap();
    assert_eq!(out, "order_itemOrder-item");
}

#[test]
fn undefined_symbol_fails_naming_template_and_symbol() {
    let ctx = derive_context("abc");
    let err = render("use_case", "hello {{unknown_symbol}}", &ctx).unwrap_err();
    assert_eq!(err.template, "use_case");
    assert_eq!(err.symbol, "unknown_symbol");
    assert_eq!(err.kind, RenderErrorKind::UndefinedSymbol);
}

#[test]
fn unclosed_placeholder_fails() {
    let ctx = derive_context("abc");
    let err = render("container", "broken {{feature_name", &ctx).unwrap_err();
    assert_eq!(err.template, "container");
    assert_eq!(err.symbol, "");
    assert_eq!(err.kind, RenderErrorKind::UnclosedPlaceholder);
}

#[test]
fn lone_braces_are_literal() {
    let ctx = derive_context("abc");
    let out = render("x", "a { b } c", &ctx).unwrap();
    assert_eq!(out, "a { b } c");
}
