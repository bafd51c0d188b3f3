use taskmgr::language::{localized_string, menu_status_help, text};
use taskmgr::localization::{language_from_lang_id, UiLanguage};
use taskmgr::resource::{IDM_EXIT, IDS_FMTCPU, IDS_FMTTASKS, IDS_HIGH, IDS_NORMAL};
use taskmgr::strings::{
    compare_chars, compare_i64, compare_lowercase, compare_u64, decimal_chars, decimal_string,
    extend_str, is_whitespace, pad_left_chars, signed_decimal_chars, string_from_chars,
    trim_chars, SortOrder,
};
use taskmgr::proctext::utf16_buffer_to_string;
use taskmgr::text_key::TextKey;
use taskmgr::winutil::{
    append_32_bit_suffix, decode_utf16_lossy, format_resource_string, height,
    hiword, load_string, loword, to_wide_null, width, Rect,
};

fn chars(s: &str) -> Vec<char> {
    s.chars().collect()
}

#[test]
fn compare_numbers_orders_both_ways() {
    assert_eq!(compare_u64(1, 2), SortOrder::Less);
    assert_eq!(compare_u64(2, 2), SortOrder::Equal);
    assert_eq!(compare_u64(3, 2), SortOrder::Greater);
    assert_eq!(compare_i64(-5, 2), SortOrder::Less);
    assert_eq!(compare_i64(-5, -5), SortOrder::Equal);
    assert_eq!(SortOrder::Less.reverse(), SortOrder::Greater);
    assert_eq!(SortOrder::Equal.reverse(), SortOrder::Equal);
}

#[test]
fn compare_chars_is_lexicographic() {
    assert_eq!(compare_chars(&chars("abc"), &chars("abd")), SortOrder::Less);
    assert_eq!(compare_chars(&chars("ab"), &chars("abc")), SortOrder::Less);
    assert_eq!(compare_chars(&chars("b"), &chars("abc")), SortOrder::Greater);
    assert_eq!(compare_chars(&chars("same"), &chars("same")), SortOrder::Equal);
}

#[test]
fn compare_lowercase_ignores_case() {
    assert_eq!(compare_lowercase("Explorer.EXE", "explorer.exe"), SortOrder::Equal);
    assert_eq!(compare_lowercase("B.exe", "a.exe"), SortOrder::Greater);
    assert_eq!(compare_lowercase("a.exe", "B.exe"), SortOrder::Less);
    assert_eq!(compare_lowercase("Été", "éTÉ"), SortOrder::Equal);
}

#[test]
fn decimal_digits_and_padding() {
    assert_eq!(decimal_chars(0), chars("0"));
    assert_eq!(decimal_chars(1234567890), chars("1234567890"));
    assert_eq!(decimal_chars(u64::MAX), chars("18446744073709551615"));
    assert_eq!(signed_decimal_chars(-42), chars("-42"));
    assert_eq!(signed_decimal_chars(i64::MIN), chars("-9223372036854775808"));
    assert_eq!(pad_left_chars(chars("7"), 2, '0'), chars("07"));
    assert_eq!(pad_left_chars(chars("123"), 2, '0'), chars("123"));
    assert_eq!(decimal_string(905), "905");
}

#[test]
fn trimming_removes_unicode_whitespace() {
    assert_eq!(trim_chars(&chars("  a b \t\n")), chars("a b"));
    assert_eq!(trim_chars(&chars("\u{3000}x\u{a0}")), chars("x"));
    assert_eq!(trim_chars(&chars("   ")), chars(""));
    assert!(is_whitespace('\u{2028}'));
    assert!(!is_whitespace('x'));
}

#[test]
fn strings_built_from_chars() {
    let mut v = chars("ab");
    extend_str(&mut v, "cd");
    assert_eq!(string_from_chars(&v), "abcd");
}

#[test]
fn rectangle_size_and_words() {
    let r = Rect { left: 10, top: 20, right: 110, bottom: 70 };
    assert_eq!(width(&r), 100);
    assert_eq!(height(&r), 50);
    assert_eq!(loword(0x0012_0034), 0x34);
    assert_eq!(hiword(0x0012_0034), 0x12);
}

#[test]
fn resource_templates_expand_placeholders() {
    let values = vec!["12".to_string(), "3456".to_string()];
    assert_eq!(format_resource_string("Mem Usage: %dK / %dK", &values), "Mem Usage: 12K / 3456K");
    assert_eq!(format_resource_string("CPU Usage: %d%%", &values[..1]), "CPU Usage: 12%");
    assert_eq!(format_resource_string("%s and %s and %s", &values), "12 and 3456 and ");
    assert_eq!(format_resource_string("plain", &values), "plain");
}

#[test]
fn thirty_two_bit_marker() {
    assert_eq!(append_32_bit_suffix(UiLanguage::EnUs, "app.exe", true), "app.exe (32-bit)");
    assert_eq!(append_32_bit_suffix(UiLanguage::Fr, "app.exe", true), "app.exe (32 bits)");
    assert_eq!(append_32_bit_suffix(UiLanguage::EnUs, "app.exe", false), "app.exe");
}

#[test]
fn utf16_round_trip() {
    assert_eq!(to_wide_null("Ab"), vec![0x41, 0x62, 0]);
    assert_eq!(to_wide_null("\u{1F600}"), vec![0xD83D, 0xDE00, 0]);
    assert_eq!(decode_utf16_lossy(&[0xD83D, 0xDE00, 0x41]), chars("\u{1F600}A"));
    assert_eq!(decode_utf16_lossy(&[0xDC00, 0x42]), chars("\u{FFFD}B"));
    assert_eq!(decode_utf16_lossy(&[0xD800]), chars("\u{FFFD}"));
    assert_eq!(decode_utf16_lossy(&[0x41, 0xE9]), chars("A\u{e9}"));
}

#[test]
fn languages_from_identifiers() {
    assert_eq!(language_from_lang_id(0x0409), UiLanguage::EnUs);
    assert_eq!(language_from_lang_id(0x040C), UiLanguage::Fr);
    assert_eq!(language_from_lang_id(0x0416), UiLanguage::Pt);
    assert_eq!(language_from_lang_id(0x0804), UiLanguage::ZhCn);
    assert_eq!(language_from_lang_id(0x0404), UiLanguage::ZhTw);
    assert_eq!(language_from_lang_id(0x0C04), UiLanguage::ZhTw);
    assert_eq!(language_from_lang_id(0x0419), UiLanguage::Ru);
    assert_eq!(language_from_lang_id(0x0407), UiLanguage::De);
    assert_eq!(language_from_lang_id(0x0C0A), UiLanguage::Es);
    assert_eq!(language_from_lang_id(0x0411), UiLanguage::EnUs);
}

#[test]
fn strings_fall_back_to_english() {
    assert_eq!(localized_string(UiLanguage::EnUs, IDS_HIGH), Some("High"));
    assert_eq!(localized_string(UiLanguage::Fr, IDS_NORMAL), Some("Normale"));
    assert_eq!(localized_string(UiLanguage::De, IDS_HIGH), Some("High"));
    assert_eq!(localized_string(UiLanguage::EnUs, 1), None);
    assert_eq!(load_string(UiLanguage::EnUs, IDS_FMTCPU), "CPU Usage: %d%%");
    assert_eq!(load_string(UiLanguage::EnUs, 1), "");
    assert!(!load_string(UiLanguage::Fr, IDS_FMTTASKS).is_empty());
}

#[test]
fn keyed_texts() {
    assert_eq!(text(UiLanguage::EnUs, TextKey::Running), "Running");
    assert_eq!(text(UiLanguage::Fr, TextKey::NotResponding), "Ne repond pas");
    assert_eq!(text(UiLanguage::Ru, TextKey::NotResponding), "Not Responding");
    assert!(menu_status_help(IDM_EXIT).map_or(false, |s| !s.is_empty()));
    assert_eq!(menu_status_help(0), None);
}

#[test]
fn wide_buffers_read_back_what_was_written() {
    for text in ["", "Task Manager", "Gestionnaire des tâches", "a\u{1F600}b", "\u{10FFFF}\u{E000}"] {
        let wide = to_wide_null(text);
        assert_eq!(utf16_buffer_to_string(&wide), text);
        assert_eq!(decode_utf16_lossy(&wide[..wide.len() - 1]).into_iter().collect::<String>(), text);
    }
}
