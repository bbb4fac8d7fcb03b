use katex_rquickjs::json::{append_decimal, append_json_string};
use katex_rquickjs::render_options::{ErrorCode, Limit, OutputType, RenderOptions, Strictness};
use katex_rquickjs::{
    get_version, markup_from, render_to_string, render_with_options, spend_budget, version_from,
    Katex, KatexError,
};

/// A stand-in for KaTeX's module: the same exports, with a renderer that
/// shows what it was handed.
const STAND_IN: &str = r#"
const katex = {
    version: "0.16.9",
    renderToString(latex, options) {
        return "<span>" + latex + "</span>|" + options.output + "|" + options.strict
            + "|" + options.errorColor + "|" + String(options.maxSize)
            + "|" + String(options.maxExpand) + "|" + String(options.minRuleThickness)
            + "|" + JSON.stringify(options.macros);
    },
};
export default katex;
"#;

const DEFAULT_LITERAL: &str = "({\"displayMode\":false,\"output\":\"htmlAndMathml\",\"leqno\":false,\"fleqn\":false,\"throwOnError\":false,\"errorColor\":\"#cc0000\",\"macros\":{},\"minRuleThickness\":undefined,\"colorIsTextColor\":false,\"strict\":\"warn\",\"trust\":true,\"maxSize\":Infinity,\"maxExpand\":1000,\"globalGroup\":false})";

fn stand_in() -> Katex {
    Katex::new(STAND_IN.to_string()).unwrap()
}

#[test]
fn test_version() {
    assert_eq!(get_version(&stand_in()).unwrap(), "0.16.9");
}

#[test]
fn version_missing_is_an_error() {
    let katex = Katex::new("export default {};".to_string()).unwrap();
    assert_eq!(get_version(&katex), Err(KatexError::Version));
}

#[test]
fn module_that_does_not_parse_is_a_load_error() {
    assert!(matches!(
        Katex::new("export default {".to_string()),
        Err(KatexError::Load)
    ));
}

#[test]
fn module_that_throws_is_a_load_error() {
    assert!(matches!(
        Katex::new("throw new Error(\"no\");".to_string()),
        Err(KatexError::Load)
    ));
}

#[test]
fn render_passes_text_and_default_options() {
    let out = render_to_string(&stand_in(), "2 + 2 = 4".to_string()).unwrap();
    assert_eq!(
        out,
        "<span>2 + 2 = 4</span>|htmlAndMathml|warn|#cc0000|Infinity|1000|undefined|{}"
    );
}

#[test]
fn render_twice_gives_the_same_markup() {
    let katex = stand_in();
    let first = render_to_string(&katex, "x^2".to_string()).unwrap();
    let second = render_to_string(&katex, "x^2".to_string()).unwrap();
    assert_eq!(first, second);
}

#[test]
fn render_passes_chosen_options() {
    let mut options = RenderOptions::default();
    options.output = OutputType::MathML;
    options.strict = Strictness::Error;
    options.error_color = "#00ff00".to_string();
    options.max_size = Limit::Finite { mantissa: 125, scale: 1 };
    options.max_expand = Limit::Unbounded;
    options.min_rule_thickness = Some(3);
    options.macros = vec![
        ("\\RR".to_string(), "\\mathbb{R}".to_string()),
        ("\\q".to_string(), "\"quoted\"".to_string()),
    ];
    let out = render_with_options(&stand_in(), "\\RR", &options).unwrap();
    assert_eq!(
        out,
        "<span>\\RR</span>|mathml|error|#00ff00|12.5|Infinity|3|{\"\\\\RR\":\"\\\\mathbb{R}\",\"\\\\q\":\"\\\"quoted\\\"\"}"
    );
}

#[test]
fn missing_renderer_is_a_render_error() {
    let katex = Katex::new("export default { version: \"1\" };".to_string()).unwrap();
    assert_eq!(
        render_to_string(&katex, "x".to_string()),
        Err(KatexError::Render)
    );
}

#[test]
fn renderer_that_throws_is_a_render_error() {
    let source = "export default { renderToString() { throw new Error(\"bad\"); } };";
    let katex = Katex::new(source.to_string()).unwrap();
    assert_eq!(
        render_to_string(&katex, "x".to_string()),
        Err(KatexError::Render)
    );
}

#[test]
fn default_options_as_literal() {
    assert_eq!(RenderOptions::default().to_literal(), DEFAULT_LITERAL);
}

#[test]
fn chosen_options_as_literal() {
    let mut options = RenderOptions::default();
    options.display_mode = true;
    options.output = OutputType::HTML;
    options.leqno = true;
    options.fleqn = true;
    options.macros = vec![("\\a".to_string(), "b".to_string())];
    options.min_rule_thickness = Some(40);
    options.color_is_text_color = true;
    options.strict = Strictness::Ignore;
    options.trust = false;
    options.max_size = Limit::Finite { mantissa: 0, scale: 0 };
    options.max_expand = Limit::Unbounded;
    options.global_group = true;
    assert_eq!(
        options.to_literal(),
        "({\"displayMode\":true,\"output\":\"html\",\"leqno\":true,\"fleqn\":true,\"throwOnError\":false,\"errorColor\":\"#cc0000\",\"macros\":{\"\\\\a\":\"b\"},\"minRuleThickness\":40,\"colorIsTextColor\":true,\"strict\":\"ignore\",\"trust\":false,\"maxSize\":0,\"maxExpand\":Infinity,\"globalGroup\":true})"
    );
}

#[test]
fn json_string_escapes() {
    let mut out = String::from("x");
    append_json_string(&mut out, "a\"b\\c\nd\u{1f}é∑");
    assert_eq!(out, "x\"a\\\"b\\\\c\\u000ad\\u001fé∑\"");
}

#[test]
fn json_string_empty() {
    let mut out = String::new();
    append_json_string(&mut out, "");
    assert_eq!(out, "\"\"");
}

#[test]
fn decimal_numerals() {
    let mut out = String::new();
    append_decimal(&mut out, 0);
    out.push(' ');
    append_decimal(&mut out, 7);
    out.push(' ');
    append_decimal(&mut out, 1000);
    out.push(' ');
    append_decimal(&mut out, u64::MAX);
    assert_eq!(out, "0 7 1000 18446744073709551615");
}

#[test]
fn enum_names() {
    assert_eq!(OutputType::HTMLAndMathML.as_str(), "htmlAndMathml");
    assert_eq!(OutputType::HTML.as_str(), "html");
    assert_eq!(OutputType::MathML.as_str(), "mathml");
    assert_eq!(Strictness::Warn.as_str(), "warn");
    assert_eq!(Strictness::Ignore.as_str(), "ignore");
    assert_eq!(Strictness::Error.as_str(), "error");
    assert_eq!(ErrorCode::UnknownSymbol.as_str(), "unknownSymbol");
    assert_eq!(ErrorCode::UnicodeTextInMathMode.as_str(), "unicodeTextInMathMode");
    assert_eq!(ErrorCode::MathVsTextUnits.as_str(), "mathVsTextUnits");
    assert_eq!(ErrorCode::CommentAtEnd.as_str(), "commentAtEnd");
    assert_eq!(ErrorCode::HtmlExtension.as_str(), "htmlExtension");
    assert_eq!(ErrorCode::NewLineInDisplayMode.as_str(), "newLineInDisplayMode");
}

#[test]
fn later_macro_replaces_earlier() {
    let mut options = RenderOptions::default();
    options.macros = vec![
        ("\\a".to_string(), "1".to_string()),
        ("\\b".to_string(), "2".to_string()),
        ("\\a".to_string(), "3".to_string()),
    ];
    let literal = options.to_literal();
    assert!(literal.contains("\"macros\":{\"\\\\b\":\"2\",\"\\\\a\":\"3\"}"));
}

#[test]
fn fractional_limits_as_literal() {
    let mut options = RenderOptions::default();
    options.max_size = Limit::Finite { mantissa: 25, scale: 2 };
    options.max_expand = Limit::Finite { mantissa: 7, scale: 0 };
    let literal = options.to_literal();
    assert!(literal.contains(",\"maxSize\":25e-2,\"maxExpand\":7,"));
}

#[test]
fn module_that_never_finishes_is_a_load_error() {
    assert!(matches!(
        Katex::new("for (;;) {}".to_string()),
        Err(KatexError::Load)
    ));
}

#[test]
fn renderer_that_never_finishes_is_a_render_error() {
    let source = "export default { renderToString() { for (;;) {} } };";
    let katex = Katex::new(source.to_string()).unwrap();
    assert_eq!(
        render_to_string(&katex, "x".to_string()),
        Err(KatexError::Render)
    );
    // the engine stays usable after a call was cut short
    assert_eq!(get_version(&katex), Err(KatexError::Version));
}

#[test]
fn version_that_is_not_a_string_is_an_error() {
    let katex = Katex::new("export default { version: 16 };".to_string()).unwrap();
    assert_eq!(get_version(&katex), Err(KatexError::Version));
}

#[test]
fn engine_outcomes_map_to_errors() {
    assert_eq!(version_from(Ok("1.2".to_string())), Ok("1.2".to_string()));
    assert_eq!(version_from(Err(rquickjs::Error::Exception)), Err(KatexError::Version));
    assert_eq!(markup_from(Ok("<b/>".to_string())), Ok("<b/>".to_string()));
    assert_eq!(markup_from(Err(rquickjs::Error::Exception)), Err(KatexError::Render));
    assert!(matches!(
        Katex::from_loaded("m".to_string(), Err(rquickjs::Error::Allocation)),
        Err(KatexError::Load)
    ));
}

#[test]
fn budget_runs_out_and_stays_out() {
    let mut asked: u64 = 0;
    assert!(!spend_budget(&mut asked, 2));
    assert!(!spend_budget(&mut asked, 2));
    assert!(spend_budget(&mut asked, 2));
    assert!(spend_budget(&mut asked, 2));
    assert_eq!(asked, 2);
}

#[test]
fn options_object_has_every_key() {
    let source = "export default { renderToString(latex, o) { return Object.keys(o).join(); } };";
    let katex = Katex::new(source.to_string()).unwrap();
    assert_eq!(
        render_to_string(&katex, "x".to_string()).unwrap(),
        "displayMode,output,leqno,fleqn,throwOnError,errorColor,macros,minRuleThickness,colorIsTextColor,strict,trust,maxSize,maxExpand,globalGroup"
    );
}

#[test]
fn module_left_waiting_is_a_load_error() {
    let source = "await new Promise(() => {}); export default {};";
    assert!(matches!(Katex::new(source.to_string()), Err(KatexError::Load)));
}

#[test]
fn module_with_endless_jobs_is_a_load_error() {
    let source = "function again() { Promise.resolve().then(again); for (;;) {} } \
                  Promise.resolve().then(again); await new Promise(() => {}); export default {};";
    assert!(matches!(Katex::new(source.to_string()), Err(KatexError::Load)));
}

#[test]
fn pending_load_outcome_is_a_load_error() {
    assert!(matches!(
        Katex::from_loaded("m".to_string(), Err(rquickjs::Error::WouldBlock)),
        Err(KatexError::Load)
    ));
}
