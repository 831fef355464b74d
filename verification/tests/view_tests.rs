use jotmate::app::{App, Config, ContractPeriod, SyncConfig, TdReportState, TimeConfig, UpstreamRepo, WeekRow};
use jotmate::layout::{dialog_rect, inset_rect, is_compact, scroll_view, HAlign, IconWidget, LayoutEngine, Rect, Widget};
use jotmate::progress::{col_widths, pending_row, report_header, report_row, seconds, RowCells};
use jotmate::rows::{InputMode, TimeDoctorField};
use jotmate::screen::Screen;
use jotmate::screen_layouts::{confirm_lines, sub_screen_layout};
use jotmate::screens::{current_tagline, fmt_date, fmt_hours};
use jotmate::sync_state::UpdatePhase;
use jotmate::view::{
    back_item, decimal, field_state, inline_field_item, pad_left, pad_right, separator_item, toggle_item,
    FieldState, Piece, Tone,
};
use std::path::PathBuf;

fn texts(line: &[Piece]) -> Vec<String> {
    line.iter().map(|p| p.text.clone()).collect()
}

fn tones(line: &[Piece]) -> Vec<(Tone, bool)> {
    line.iter().map(|p| (p.tone, p.bold)).collect()
}

fn app() -> App<u32> {
    let config = Config {
        sync: SyncConfig {
            use_cache: true,
            skip_fork_sync: false,
            skip_rebase: false,
            skip_rds_sync: false,
            smart_sync: false,
            upstream_repos: vec![UpstreamRepo { url: "u/a".into(), name: "a".into(), enabled: true }],
        },
        time: TimeConfig {
            email: Some("me@x.io".to_string()),
            timezone: None,
            skip_current_week: false,
            use_time_cache: true,
            show_cumulative: true,
            contract_periods: Some(vec![ContractPeriod { from: 738886, weekly_hours: 2050 }]),
            off_weeks: None,
        },
    };
    let mut a: App<u32> = App::new(config, 738949, None);
    a.td.password_is_set = Some(true);
    a
}

#[test]
fn layout_engine_places_in_the_column() {
    let engine = LayoutEngine::new(Rect { x: 0, y: 0, width: 100, height: 40 });
    let row = Rect { x: 0, y: 3, width: 100, height: 1 };
    assert_eq!(engine.center(53, row), Rect { x: 13, y: 3, width: 53, height: 1 });
    assert_eq!(engine.place(&Widget::anon(200, HAlign::Center), row), Rect { x: 0, y: 3, width: 79, height: 1 });
    assert_eq!(engine.place(&Widget::anon(10, HAlign::Left), row), Rect { x: 0, y: 3, width: 10, height: 1 });
    assert_eq!(engine.clamp_area(row), Rect { x: 0, y: 3, width: 79, height: 1 });
    let narrow = LayoutEngine::new(Rect { x: 2, y: 0, width: 30, height: 10 });
    assert_eq!(narrow.center(40, Rect { x: 2, y: 0, width: 30, height: 1 }), Rect { x: 2, y: 0, width: 30, height: 1 });
    assert!(is_compact(Rect { x: 0, y: 0, width: 80, height: 23 }));
    assert!(!is_compact(Rect { x: 0, y: 0, width: 80, height: 24 }));
}

#[test]
fn dialog_and_scroll_geometry() {
    let area = Rect { x: 0, y: 0, width: 100, height: 40 };
    assert_eq!(dialog_rect(area, 10), Rect { x: 37, y: 17, width: 26, height: 5 });
    assert_eq!(dialog_rect(area, 40), Rect { x: 28, y: 17, width: 44, height: 5 });
    assert_eq!(scroll_view(10, 20, 5, 5), (10, Some(2)));
    assert_eq!(scroll_view(99, 20, 5, 5), (15, Some(4)));
    assert_eq!(scroll_view(3, 4, 6, 6), (0, None));
    assert_eq!(inset_rect(Rect { x: 1, y: 2, width: 10, height: 3 }, 3), Rect { x: 4, y: 2, width: 4, height: 3 });
    assert_eq!(IconWidget::cell_position(Rect { x: 5, y: 5, width: 3, height: 3 }, 2, 1), Some((7, 6)));
    assert_eq!(IconWidget::cell_position(Rect { x: 5, y: 5, width: 3, height: 3 }, 3, 1), None);
    let lines = confirm_lines("Delete \"a\"?");
    assert_eq!(texts(&lines[0]), vec!["Delete \"a\"?"]);
    assert!(lines[1].is_empty());
    assert_eq!(texts(&lines[2]), vec![" ↵/y ", "delete  ", " Esc/n ", "cancel"]);
}

#[test]
fn rows_are_laid_out_by_ratatui() {
    let rows = sub_screen_layout(Rect { x: 0, y: 0, width: 79, height: 30 });
    assert_eq!(rows.get("logo"), Rect { x: 1, y: 1, width: 77, height: 3 });
    assert_eq!(rows.get("title"), Rect { x: 1, y: 5, width: 77, height: 1 });
    assert_eq!(rows.get("divider"), Rect { x: 1, y: 6, width: 77, height: 1 });
}

#[test]
fn formatting_helpers() {
    assert_eq!(fmt_date(738886), "01-01-2024");
    assert_eq!(fmt_date(738949), "04-03-2024");
    assert_eq!(fmt_hours(2000), "20h");
    assert_eq!(fmt_hours(2050), "20.5h");
    assert_eq!(fmt_hours(2025), "20.25h");
    assert_eq!(fmt_hours(5), "0.05h");
    assert_eq!(seconds(12), "1.2s");
    assert_eq!(seconds(0), "0.0s");
    assert_eq!(seconds(1000), "100.0s");
    assert_eq!(decimal(0), "0");
    assert_eq!(decimal(907), "907");
    assert_eq!(pad_right("ab", 4), "ab  ");
    assert_eq!(pad_left("ab", 4), "  ab");
    assert_eq!(pad_left("abcdef", 4), "abcdef");
    assert_eq!(col_widths(true), (26, 11));
    assert_eq!(col_widths(false), (26, 15));
}

#[test]
fn taglines_fade_between_each_other() {
    assert_eq!(current_tagline(0), ("How many hours are you behind?", 243));
    assert_eq!(current_tagline(150), ("How many hours are you behind?", 240));
    assert_eq!(current_tagline(100), ("How many hours are you behind?", 241));
    assert_eq!(current_tagline(450), ("One command, rules all repos.", 240));
    assert_eq!(current_tagline(40_700), ("Keep your RDS always in sync!", 243));
}

#[test]
fn list_items() {
    let back = back_item(true);
    assert_eq!(texts(&back), vec!["▸ ", "← Back"]);
    assert_eq!(tones(&back), vec![(Tone::Primary, false), (Tone::Accent, true)]);
    let sep = separator_item("RDS Sync");
    assert_eq!(sep[1].text, format!("── RDS Sync {}", "─".repeat(34)));
    let t = toggle_item(false, true, "Rebase".to_string(), true, false);
    assert_eq!(texts(&t), vec!["  ", "    ", "[ON ]  ", "Rebase"]);
    assert_eq!(tones(&t)[2], (Tone::Success, true));
    let d = toggle_item(true, false, "x".to_string(), false, true);
    assert_eq!(tones(&d), vec![(Tone::Muted, false); 4]);
    assert!(matches!(field_state(true, true), FieldState::Editing));
    let f = inline_field_item("Timezone", "Asia/Tokyo", FieldState::Editing, 13);
    assert_eq!(texts(&f), vec!["▸ ", "Timezone     ", "< Asia/Tokyo >", "  ↑↓ change  •  ↵ confirm  •  ⌫ cancel"]);
}

#[test]
fn settings_and_menu_views() {
    let a = app();
    let v = a.settings_view();
    assert_eq!(v.title, "Settings");
    assert_eq!(v.items.len(), 14);
    assert_eq!(texts(&v.items[2]), vec!["  ", "→ General settings"]);
    assert_eq!(texts(&v.hint), vec!["↑↓", " navigate  •  ", "↵", " enter  •  ", "⌫/Esc", " back"]);
    let m = a.main_menu_view();
    assert_eq!(texts(&m.items[0]), vec!["▸ ", "Sync            ", "— ", "Sync RDS to upstream"]);
    assert_eq!(texts(&m.items[3]), vec!["  ", "Exit            "]);
    assert_eq!(texts(&m.hint), vec!["q/Esc exit"]);
}

#[test]
fn repo_and_credential_views() {
    let mut a = app();
    a.input_mode = InputMode::AddingRepo("abc".to_string());
    let v = a.repo_manager_view();
    assert_eq!(texts(&v.items[2]), vec!["  URL: abc_"]);
    assert_eq!(texts(&v.items[0]), vec!["▸ ", "", "[ON ]  ", "a  <u/a>"]);
    assert_eq!(texts(&v.hint), vec!["↵", " confirm  •  ", "Esc", " cancel"]);

    a.input_mode = InputMode::ConfirmDelete("a".to_string());
    let r = a.remove_repos_view();
    assert_eq!(r.confirm.as_deref(), Some("Delete \"a\"?"));
    assert_eq!(texts(&r.items[0]), vec!["▸ ", "[del]", "  a  <u/a>"]);

    a.input_mode = InputMode::EditingField { field: TimeDoctorField::Password, buf: "pé".to_string() };
    a.auth_error = Some("Invalid email address.".to_string());
    let t = a.td_settings_view();
    assert_eq!(texts(&t.items[1])[2], "< ***_ >");
    assert_eq!(texts(&t.items[0])[2], "me@x.io");
    assert_eq!(texts(t.error.as_ref().unwrap()), vec!["  ✗ Invalid email address."]);
    assert_eq!(texts(&t.hint), vec!["↵", " save  •  ", "Esc", " cancel"]);
}

#[test]
fn contract_period_view() {
    let mut a = app();
    a.select(Screen::ContractPeriods, 2);
    let v = a.contract_periods_view();
    assert_eq!(texts(&v.items[2]), vec!["▸ ", "[del]", "  01-01-2024  20.5h/week"]);
    assert_eq!(texts(&v.items[5])[2], "01-01-2024");
    assert_eq!(texts(&v.items[6])[2], "20h");
    assert_eq!(texts(&v.hint)[3], " delete  •  ");
    a.input_mode = InputMode::ConfirmDeletePeriod(0);
    assert_eq!(a.contract_periods_view().confirm.as_deref(), Some("Delete period 01-01-2024?"));
}

#[test]
fn progress_views() {
    let mut a = app();
    a.start_sync(vec![("a".to_string(), PathBuf::from("/a"))]);
    let s = a.sync_view();
    assert_eq!(s.title, "Syncing Repos");
    assert_eq!(texts(&s.status), vec!["0/1", " complete", "  •  ", "0", " skipped"]);
    assert_eq!(texts(&s.rows[0]), vec![
        " ⠋ ".to_string(),
        format!("{:<14}", "a"),
        format!("{:<22}", "waiting…"),
        format!("{:<22}", "waiting…"),
        format!("{:>7}", "0.0s"),
    ]);
    assert!(!s.scrollable);
    a.enter_sync_discovering();
    assert_eq!(a.sync_view().title, "Preparing Sync");

    let u = a.update_view("1.0.0");
    assert_eq!(u.title, "Updating JotMate");
    a.launch_update();
    a.apply_update_event(UpdatePhase::UpToDate);
    let u = a.update_view("1.0.0");
    assert_eq!(texts(&u.detail), vec!["You are already on v1.0.0."]);
    assert_eq!(texts(&u.status), vec!["  ", "✓", "  ", "Already up to date"]);

    let r = a.report_view();
    assert_eq!(texts(&r.message[0]), vec!["  ", "fetching report…"]);
    assert_eq!(texts(&r.footer), vec!["Loading..."]);
    a.td_report = TdReportState::PartialReady {
        rows: vec![WeekRow { monday: 738886, data: 1 }, WeekRow { monday: 738893, data: 2 }],
        pending: 2,
        show_cumulative: false,
        tick: 1,
    };
    let r = a.report_view();
    assert_eq!(r.pending.len(), 2);
    assert_eq!(texts(&r.pending[0]), vec!["⠙ ".to_string(), "3. ".to_string(), format!("{:<23}", "fetching…")]);
    assert_eq!(r.content_height, 6);
    assert_eq!(texts(&report_header(false))[0], format!("{:<26}", "Week"));
    assert_eq!(texts(&pending_row(0, 12))[1], "12. ");
}

fn cells(from_cache: bool) -> RowCells {
    RowCells {
        week_label: "06 Jan 2025 – 12 Jan 2025 (current)".to_string(),
        worked: "38h 10m".to_string(),
        target: "40h".to_string(),
        balance: "-1h 50m".to_string(),
        balance_negative: true,
        cumulative: "+3h".to_string(),
        cumulative_negative: false,
        from_cache,
    }
}

#[test]
fn report_rows_are_laid_out_in_columns() {
    let r = report_row(&cells(true), true, 3, 12);
    assert_eq!(
        texts(&r),
        vec![
            " 3. ".to_string(),
            "06 Jan 2025 – 12 Jan 2025".chars().take(22).collect::<String>(),
            format!("{:>11}", "38h 10m"),
            format!("{:>11}", "• 40h"),
            format!("{:>11}", "-1h 50m"),
            format!("{:>11}", "+3h"),
        ]
    );
    assert_eq!(tones(&r)[1], (Tone::Text, false));
    assert_eq!(tones(&r)[4], (Tone::Dangerous, false));
    assert_eq!(tones(&r)[5], (Tone::Success, false));
    let fetched = report_row(&cells(false), false, 10, 12);
    assert_eq!(fetched.len(), 5);
    assert_eq!(texts(&fetched)[0], "10. ");
    assert_eq!(texts(&fetched)[3], format!("{:>15}", "40h"));
    assert_eq!(tones(&fetched)[1], (Tone::Warn, false));
}
