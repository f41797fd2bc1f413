use rshell::terminal_font::{
    cjk_family, emoji_family, family_for_text, is_cjk, is_emoji, text_symbol_family, Platform,
};

#[test]
fn windows_prompt_chevron_preserves_the_base_font_glyph() {
    let routed = family_for_text(Platform::Windows, "\u{276f}");
    assert_eq!(routed, None, "U+276F is a text dingbat, not an emoji");
}

#[test]
fn windows_prompt_arrow_uses_a_covered_text_symbol_font() {
    let routed = family_for_text(Platform::Windows, "\u{279c}");
    assert_eq!(routed, Some("Segoe UI Symbol"));
}

#[test]
fn windows_terminal_fallbacks_cover_cjk_and_emoji_without_changing_ascii() {
    assert_eq!(family_for_text(Platform::Windows, "ASCII"), None);
    assert_eq!(family_for_text(Platform::Windows, "\u{276f}"), None);
    for (text, family) in [
        ("界", "Microsoft YaHei UI"),
        ("🙂", "Segoe UI Emoji"),
        ("❤", "Segoe UI Emoji"),
    ] {
        assert_eq!(family_for_text(Platform::Windows, text), Some(family));
    }
}

#[test]
fn prompt_arrow_keeps_the_base_font_off_windows() {
    assert_eq!(text_symbol_family(Platform::MacOs, "\u{279c}"), None);
    assert_eq!(text_symbol_family(Platform::OtherUnix, "\u{279c}"), None);
    assert_eq!(text_symbol_family(Platform::Windows, "git \u{279c} main"), Some("Segoe UI Symbol"));
    assert_eq!(text_symbol_family(Platform::Windows, "plain"), None);
    // U+279C lies in the dingbat block, so elsewhere it is routed like an emoji.
    assert_eq!(family_for_text(Platform::MacOs, "\u{279c}"), Some("Apple Color Emoji"));
}

#[test]
fn emoji_wins_over_cjk_and_families_follow_the_platform() {
    assert_eq!(family_for_text(Platform::MacOs, "界🙂"), Some("Apple Color Emoji"));
    assert_eq!(family_for_text(Platform::MacOs, "界"), Some("PingFang SC"));
    assert_eq!(family_for_text(Platform::OtherUnix, "界"), Some("Monospace"));
    assert_eq!(family_for_text(Platform::OtherUnix, ""), None);
    assert_eq!(cjk_family(Platform::Windows), "Microsoft YaHei UI");
    assert_eq!(emoji_family(Platform::OtherUnix), "Monospace");
}

#[test]
fn character_classes_follow_their_ranges() {
    assert!(is_cjk('\u{2e80}') && is_cjk('\u{9fff}') && is_cjk('\u{faff}'));
    assert!(!is_cjk('\u{2e7f}') && !is_cjk('\u{3040}') && !is_cjk('A'));
    assert!(is_emoji('\u{2600}') && is_emoji('\u{27bf}') && is_emoji('\u{1f642}'));
    assert!(!is_emoji('\u{276f}') && !is_emoji('\u{25ff}') && !is_emoji('\u{1fb00}'));
}
