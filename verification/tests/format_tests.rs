use nicotine::hyprland;
use nicotine::kwin;
use nicotine::mirror;
use nicotine::numeral;
use nicotine::text;
use nicotine::window;

#[test]
fn mirror_renders_plain_decimal() {
    assert_eq!(mirror::render_index_mirror(0), "0");
    assert_eq!(mirror::render_index_mirror(42), "42");
    assert_eq!(mirror::render_index_mirror(100), "100");
}

#[test]
fn mirror_parses_what_it_renders() {
    for i in [0usize, 1, 9, 10, 99, 12345] {
        let stored = mirror::render_index_mirror(i);
        assert_eq!(mirror::parse_index_mirror(&stored), Some(i));
    }
}

#[test]
fn mirror_ignores_surrounding_blanks() {
    assert_eq!(mirror::parse_index_mirror(" 42\n"), Some(42));
    assert_eq!(mirror::parse_index_mirror("\t7 \r\n"), Some(7));
}

#[test]
fn mirror_rejects_anything_else() {
    assert_eq!(mirror::parse_index_mirror(""), None);
    assert_eq!(mirror::parse_index_mirror("   "), None);
    assert_eq!(mirror::parse_index_mirror("4a"), None);
    assert_eq!(mirror::parse_index_mirror("-1"), None);
    assert_eq!(mirror::parse_index_mirror("12 34"), None);
    assert_eq!(mirror::parse_index_mirror("99999999999999999999999999"), None);
}

#[test]
fn decimal_parsing_is_bounded() {
    assert_eq!(numeral::parse_dec_u32("0"), Some(0));
    assert_eq!(numeral::parse_dec_u32("4294967295"), Some(u32::MAX));
    assert_eq!(numeral::parse_dec_u32("4294967296"), None);
    assert_eq!(numeral::parse_dec_u32(""), None);
    assert_eq!(numeral::parse_dec_u32("+1"), None);
}

#[test]
fn hex_parsing_accepts_both_letter_cases() {
    assert_eq!(numeral::parse_hex_u32("ff"), Some(255));
    assert_eq!(numeral::parse_hex_u32("FF"), Some(255));
    assert_eq!(numeral::parse_hex_u32("06e00008"), Some(0x06e00008));
    assert_eq!(numeral::parse_hex_u32("ffffffff"), Some(u32::MAX));
    assert_eq!(numeral::parse_hex_u32("100000000"), None);
    assert_eq!(numeral::parse_hex_u32("0x1"), None);
    assert_eq!(numeral::parse_hex_u32(""), None);
}

#[test]
fn hex_rendering_matches_the_listing_formats() {
    assert_eq!(numeral::render_hex_u32(0), "0");
    assert_eq!(numeral::render_hex_u32(0x12ab), "12ab");
    assert_eq!(numeral::render_hex_fixed_u32(0x6e00008, 8), "06e00008");
    assert_eq!(numeral::render_hex_fixed_u32(0, 8), "00000000");
    assert_eq!(numeral::render_dec_u64(1040), "1040");
}

#[test]
fn id_tokens_read_hex_or_decimal_with_zero_sentinel() {
    assert_eq!(kwin::window_id_text("0x06e00008"), 0x06e00008);
    assert_eq!(kwin::window_id_text("12345"), 12345);
    assert_eq!(kwin::window_id_text("0xzz"), 0);
    assert_eq!(kwin::window_id_text("notanid"), 0);
    assert_eq!(hyprland::address_id("0x1a2b"), 0x1a2b);
    assert_eq!(hyprland::address_id("1a2b"), 0);
    assert_eq!(hyprland::address_id("0x"), 0);
}

#[test]
fn id_text_round_trips_through_both_hex_formats() {
    for id in [0u32, 1, 9, 0x6e00008, 0x12ab, u32::MAX] {
        let padded = nicotine::kwin::KWinManager::hex_id_text(id);
        assert_eq!(kwin::window_id_text(&padded), id);
        let address = nicotine::hyprland::HyprlandManager::address_text(id);
        assert_eq!(hyprland::address_id(&address), id);
    }
}

#[test]
fn title_rule_requires_prefix_and_excludes_marker() {
    assert!(window::eve_title_matches("EVE - Pilot"));
    assert!(!window::eve_title_matches("EVE Pilot"));
    assert!(!window::eve_title_matches("EVE - Launcher"));
    assert!(!window::eve_title_matches("EVE - Some Launcher Window"));
    assert!(!window::eve_title_matches("eve - Pilot"));
}

#[test]
fn title_stripping_removes_every_leading_prefix_copy() {
    assert_eq!(window::strip_eve_title("EVE - Pilot"), "Pilot");
    assert_eq!(window::strip_eve_title("EVE - EVE - Pilot"), "Pilot");
    assert_eq!(window::strip_eve_title("Pilot"), "Pilot");
}

#[test]
fn trimming_removes_surrounding_blanks_only() {
    assert_eq!(text::trim_text("  a b \n"), "a b");
    assert_eq!(text::trim_text(""), "");
    assert_eq!(text::trim_text(" \t\r\n"), "");
}

#[test]
fn line_splitting_matches_the_listing_shape() {
    let lines = text::split_lines("a\nb\r\n\nc");
    assert_eq!(lines, vec!["a", "b", "", "c"]);
    let lines = text::split_lines("one\n");
    assert_eq!(lines, vec!["one"]);
    let lines = text::split_lines("");
    assert!(lines.is_empty());
}

#[test]
fn token_splitting_collapses_blank_runs() {
    let toks = text::split_blanks("  a\tbb   c ");
    assert_eq!(toks, vec!["a", "bb", "c"]);
    let toks = text::split_blanks("");
    assert!(toks.is_empty());
}

#[test]
fn token_joining_uses_single_blanks() {
    let parts = vec!["a".to_string(), "b".to_string(), "c".to_string()];
    assert_eq!(text::join_blanks(&parts, 0), "a b c");
    assert_eq!(text::join_blanks(&parts, 2), "c");
    assert_eq!(text::join_blanks(&parts, 3), "");
}
