use preproc::shorthand::{expand, icon, is_formula_language, strip_prefix, time, unwrap_formula};

#[test]
fn icon_markup_is_exact() {
    assert_eq!(icon("star"), r#"<i class="fa fa-star" aria-hidden="true"></i>"#);
}

#[test]
fn icon_markup_of_empty_name() {
    assert_eq!(icon(""), r#"<i class="fa fa-" aria-hidden="true"></i>"#);
}

#[test]
fn time_markup_is_exact() {
    assert_eq!(time("2024-01-01"), r#"<time datetime="2024-01-01">2024-01-01</time>"#);
}

#[test]
fn strip_prefix_splits_at_the_prefix() {
    assert_eq!(strip_prefix("fa:user", "fa:"), Some("user"));
    assert_eq!(strip_prefix("time:12:30", "time:"), Some("12:30"));
}

#[test]
fn strip_prefix_of_the_prefix_alone_is_empty() {
    assert_eq!(strip_prefix("fa:", "fa:"), Some(""));
}

#[test]
fn strip_prefix_with_empty_prefix_is_the_text() {
    assert_eq!(strip_prefix("text", ""), Some("text"));
    assert_eq!(strip_prefix("", ""), Some(""));
}

#[test]
fn strip_prefix_rejects_other_texts() {
    assert_eq!(strip_prefix("fa", "fa:"), None);
    assert_eq!(strip_prefix("", "fa:"), None);
    assert_eq!(strip_prefix("FA:user", "fa:"), None);
    assert_eq!(strip_prefix("xfa:user", "fa:"), None);
    assert_eq!(strip_prefix("fb:user", "fa:"), None);
}

#[test]
fn strip_prefix_counts_characters_not_bytes() {
    assert_eq!(strip_prefix("é:ü-ß", "é:"), Some("ü-ß"));
    assert_eq!(strip_prefix("fa:ünïcödé", "fa:"), Some("ünïcödé"));
}

#[test]
fn expand_knows_icons() {
    assert_eq!(
        expand("fa:user"),
        Some(r#"<i class="fa fa-user" aria-hidden="true"></i>"#.to_string())
    );
}

#[test]
fn expand_knows_timestamps() {
    assert_eq!(
        expand("time:2022-06-30T12:00"),
        Some(r#"<time datetime="2022-06-30T12:00">2022-06-30T12:00</time>"#.to_string())
    );
}

#[test]
fn expand_does_not_check_the_icon_name() {
    assert_eq!(
        expand("fa:no such icon"),
        Some(r#"<i class="fa fa-no such icon" aria-hidden="true"></i>"#.to_string())
    );
}

#[test]
fn expand_leaves_other_destinations() {
    assert_eq!(expand("http://example.org"), None);
    assert_eq!(expand("mailto:fa:user"), None);
    assert_eq!(expand("fa"), None);
    assert_eq!(expand("time"), None);
    assert_eq!(expand(""), None);
}

#[test]
fn expand_tries_the_icon_rule_first() {
    assert_eq!(
        expand("fa:time:now"),
        Some(r#"<i class="fa fa-time:now" aria-hidden="true"></i>"#.to_string())
    );
    assert_eq!(
        expand("time:fa:now"),
        Some(r#"<time datetime="fa:now">fa:now</time>"#.to_string())
    );
}

#[test]
fn unwrap_formula_takes_what_is_between_the_dollars() {
    assert_eq!(unwrap_formula("$x^2$"), Some("x^2"));
    assert_eq!(unwrap_formula("$$"), Some(""));
    assert_eq!(unwrap_formula("$$x$$"), Some("$x$"));
    assert_eq!(unwrap_formula("$α+β$"), Some("α+β"));
}

#[test]
fn unwrap_formula_wants_both_dollars() {
    assert_eq!(unwrap_formula("$"), None);
    assert_eq!(unwrap_formula(""), None);
    assert_eq!(unwrap_formula("x^2"), None);
    assert_eq!(unwrap_formula("$x^2"), None);
    assert_eq!(unwrap_formula("x^2$"), None);
    assert_eq!(unwrap_formula(" $x^2$"), None);
}

#[test]
fn formula_language_is_math_exactly() {
    assert!(is_formula_language("math"));
    assert!(!is_formula_language("Math"));
    assert!(!is_formula_language("math "));
    assert!(!is_formula_language("maths"));
    assert!(!is_formula_language(""));
    assert!(!is_formula_language("rust"));
}
