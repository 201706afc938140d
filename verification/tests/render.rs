use hightower::process::RiskLevel;
use hightower::render::{
    category_label, paint, risk_label, risk_style, truncate_middle, RenderStyle,
};
use hightower::process::ProcessCategory;

#[test]
fn short_text_is_not_truncated() {
    assert_eq!(truncate_middle("C:\\a.exe", 40), "C:\\a.exe");
}

#[test]
fn long_text_keeps_head_and_tail() {
    let path = r"C:\Program Files\Vendor\App\bin\service.exe";
    let out = truncate_middle(path, 20);
    assert_eq!(out.chars().count(), 20);
    assert!(out.contains('…'));
    assert!(out.starts_with("C:\\"));
    assert!(out.ends_with(".exe"));
}

#[test]
fn paint_is_a_no_op_when_disabled() {
    let painted = paint("trusted", risk_style(RiskLevel::Trusted), false);
    assert_eq!(painted, "trusted");
    assert!(!painted.contains('\x1b'));
}

#[test]
fn paint_adds_escapes_when_enabled() {
    let painted = paint("suspicious", risk_style(RiskLevel::Suspicious), true);
    assert!(painted.contains('\x1b'));
    assert!(painted.contains("suspicious"));
}

#[test]
fn truncation_splits_the_kept_characters_head_first() {
    // 9 kept characters: 5 from the start, 4 from the end.
    assert_eq!(truncate_middle("abcdefghijklmnop", 10), "abcde…mnop");
    assert_eq!(truncate_middle("abcdefghijklmnop", 2), "a…");
    assert_eq!(truncate_middle("abcdefghijklmnop", 1), "…");
    assert_eq!(truncate_middle("abcdefghijklmnop", 0), "");
    assert_eq!(truncate_middle("abc", 3), "abc");
}

#[test]
fn truncation_counts_characters_not_bytes() {
    let text = "ééééééé";
    let out = truncate_middle(text, 5);
    assert_eq!(out, "éé…éé");
}

#[test]
fn labels_are_the_documented_words() {
    assert_eq!(risk_label(RiskLevel::Trusted), "trusted");
    assert_eq!(risk_label(RiskLevel::Review), "review");
    assert_eq!(risk_label(RiskLevel::Suspicious), "suspicious");
    assert_eq!(category_label(ProcessCategory::CoreWindows), "core-windows");
    assert_eq!(category_label(ProcessCategory::Driver), "driver");
    assert_eq!(
        category_label(ProcessCategory::ThirdPartyKnown),
        "third-party-known"
    );
    assert_eq!(category_label(ProcessCategory::Unknown), "unknown");
}

#[test]
fn painting_keeps_the_text_between_the_escapes() {
    let painted = paint("review", risk_style(RiskLevel::Review), true);
    assert_eq!(painted, "\x1b[33mreview\x1b[0m");
    let painted = paint("bad", risk_style(RiskLevel::Suspicious), true);
    assert_eq!(painted, "\x1b[1m\x1b[31mbad\x1b[0m");
}

#[test]
fn the_plain_style_has_no_colour_and_no_width() {
    let style = RenderStyle::plain();
    assert!(!style.color);
    assert!(style.max_width.is_none());
}

#[test]
fn colour_and_width_only_on_a_terminal() {
    let style = RenderStyle::for_output(true, false, false, Some(120));
    assert!(style.color);
    assert_eq!(style.max_width, Some(120));
    let piped = RenderStyle::for_output(false, false, false, Some(120));
    assert!(!piped.color);
    assert_eq!(piped.max_width, None);
    assert!(!RenderStyle::for_output(true, true, false, None).color);
    let no_color = RenderStyle::for_output(true, false, true, Some(80));
    assert!(!no_color.color);
    assert_eq!(no_color.max_width, Some(80));
}

#[test]
fn no_room_leaves_nothing() {
    assert_eq!(truncate_middle(r"C:\a.exe", 0), "");
    assert_eq!(truncate_middle("", 0), "");
    assert_eq!(truncate_middle("ab", 1), "…");
}
