use rustlay::names::derive_context;

#[test]
fn snake_and_pascal_of_user_profile() {
    let ctx = derive_context("user_profile");
    assert_eq!(ctx.raw, "user_profile");
    assert_eq!(ctx.snake, "user_profile");
    assert_eq!(ctx.pascal, "UserProfile");
}

#[test]
fn hyphen_folds_in_snake_but_not_in_pascal() {
    let ctx = derive_context("Order-Item");
    assert_eq!(ctx.snake, "order_item");
    // The pascal-case split is on '_' alone: a '-' is a word separator for
    // the snake-case variant only, so the hyphenated tail keeps its case.
    assert_eq!(ctx.pascal, "Order-Item");
}

#[test]
fn empty_segments_are_skipped() {
    let ctx = derive_context("_a__b_");
    assert_eq!(ctx.snake, "_a__b_");
    assert_eq!(ctx.pascal, "AB");
}

#[test]
fn single_character_name() {
    let ctx = derive_context("x");
    assert_eq!(ctx.snake, "x");
    assert_eq!(ctx.pascal, "X");
}

#[test]
fn mixed_case_and_digits() {
    let ctx = derive_context("user2_profileX");
    assert_eq!(ctx.snake, "user2_profilex");
    assert_eq!(ctx.pascal, "User2ProfileX");
}

#[test]
fn digit_leading_segment_is_kept() {
    let ctx = derive_context("2fa_login");
    assert_eq!(ctx.snake, "2fa_login");
    assert_eq!(ctx.pascal, "2faLogin");
}
