use jotmate::navigation::{clamp_to_last_interactive, first_interactive, navigate_rows, navigate_simple};
use jotmate::rows::{CpListRow, SettingRow};
use jotmate::text::{
    char_is_whitespace, concat_str, is_valid_email, last_segment, name_from_url, normalize_url, starts_with, trim,
    trim_end_char, trim_end_str, trim_start_str, without_last_char,
};

fn settings_like() -> Vec<SettingRow> {
    vec![
        SettingRow::Separator("RDS Sync"),
        SettingRow::Blank,
        SettingRow::SyncGeneralLink,
        SettingRow::ManageRepos,
        SettingRow::Blank,
        SettingRow::Divider,
        SettingRow::Back,
    ]
}

#[test]
fn navigate_simple_wraps_both_ways() {
    assert_eq!(navigate_simple(5, 0, -1), 4);
    assert_eq!(navigate_simple(5, 4, 1), 0);
    assert_eq!(navigate_simple(5, 2, 1), 3);
    assert_eq!(navigate_simple(5, 2, -1), 1);
    assert_eq!(navigate_simple(0, 3, 1), 0);
}

#[test]
fn navigate_simple_round_trip_returns() {
    for cur in 0..7usize {
        let down = navigate_simple(7, cur, 1);
        assert_eq!(navigate_simple(7, down, -1), cur);
    }
}

#[test]
fn navigate_rows_skips_layout_rows() {
    let rows = settings_like();
    assert_eq!(navigate_rows(&rows, 3, 1), 6);
    assert_eq!(navigate_rows(&rows, 6, 1), 2);
    assert_eq!(navigate_rows(&rows, 2, -1), 6);
    assert_eq!(navigate_rows(&rows, 6, -1), 3);
}

#[test]
fn navigate_rows_without_selectable_row_stays() {
    let rows = vec![SettingRow::Blank, SettingRow::Divider, SettingRow::Separator("x")];
    assert_eq!(navigate_rows(&rows, 1, 1), 1);
    assert_eq!(navigate_rows(&rows, 1, -1), 1);
    let empty: Vec<SettingRow> = Vec::new();
    assert_eq!(navigate_rows(&empty, 0, 1), 0);
}

#[test]
fn navigate_rows_from_just_past_the_end_goes_up() {
    let rows = settings_like();
    assert_eq!(navigate_rows(&rows, 7, -1), 6);
}

#[test]
fn first_interactive_finds_the_first_row() {
    assert_eq!(first_interactive(&settings_like()), 2);
    let none = vec![SettingRow::Blank];
    assert_eq!(first_interactive(&none), 0);
}

#[test]
fn clamp_keeps_selection_on_a_row() {
    let rows = vec![
        CpListRow::SectionTitle("t"),
        CpListRow::Period { index: 0, from: 738886, weekly_hours: 2000 },
        CpListRow::Blank,
        CpListRow::Back,
        CpListRow::Blank,
    ];
    assert_eq!(clamp_to_last_interactive(&rows, 1), 1);
    assert_eq!(clamp_to_last_interactive(&rows, 3), 3);
    assert_eq!(clamp_to_last_interactive(&rows, 9), 3);
    let none = vec![CpListRow::Blank];
    assert_eq!(clamp_to_last_interactive(&none, 4), 0);
}

#[test]
fn trimming_matches_std() {
    assert_eq!(trim("  a b \t\n"), "a b");
    assert_eq!(trim("\u{3000}x\u{a0}"), "x");
    assert_eq!(trim_end_char("path///", '/'), "path");
    assert_eq!(trim_end_str("repo.git.git", ".git"), "repo");
    assert_eq!(trim_start_str("AUTH_FAILED:AUTH_FAILED:x", "AUTH_FAILED:"), "x");
    assert!(starts_with("AUTH_FAILED:bad", "AUTH_FAILED:"));
    assert!(!starts_with("AUTH", "AUTH_FAILED:"));
    assert_eq!(without_last_char("ab"), "a");
    assert_eq!(without_last_char(""), "");
    assert_eq!(concat_str("ab", "cé"), "abcé");
}

#[test]
fn urls_are_normalised_and_named() {
    assert_eq!(normalize_url("  https://github.com/org/repo.git/  "), "https://github.com/org/repo");
    assert_eq!(normalize_url("https://github.com/org/repo/"), "https://github.com/org/repo");
    assert_eq!(name_from_url("https://github.com/org/repo.git"), "repo");
    assert_eq!(name_from_url("git@github.com:org/tool.git"), "tool");
    assert_eq!(name_from_url("   "), "");
    assert_eq!(last_segment("a/b/c"), "c");
    assert_eq!(last_segment("abc"), "abc");
    assert_eq!(last_segment("abc/"), "");
}

#[test]
fn email_check_is_loose() {
    assert!(is_valid_email("me@example.com"));
    assert!(is_valid_email("  me@example.com  "));
    assert!(!is_valid_email("@example.com"));
    assert!(!is_valid_email("me@example"));
    assert!(!is_valid_email("me.example.com"));
    assert!(is_valid_email("a@b.c"));
}

#[test]
fn white_space_is_what_std_calls_white_space() {
    for n in 0u32..0x3100 {
        if let Some(c) = char::from_u32(n) {
            assert_eq!(char_is_whitespace(c), c.is_whitespace(), "U+{n:04X}");
        }
    }
    assert!(!char_is_whitespace('\u{FEFF}'));
    assert!(!char_is_whitespace('\u{200B}'));
    assert_eq!(trim("\u{3000}\u{A0}a b\u{2029}\t"), "a b");
}

#[test]
fn an_empty_list_stays_at_zero_from_anywhere() {
    assert_eq!(navigate_simple(0, usize::MAX, 1), 0);
    assert_eq!(navigate_simple(4, usize::MAX, -1), usize::MAX - 1);
}
