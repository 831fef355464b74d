use jotmate::app::{
    App, Config, ContractPeriod, Effect, SyncConfig, TimeConfig, UpstreamRepo, DEFAULT_HOURS_INDEX,
};
use jotmate::rows::{CycleTarget, InputMode, ToggleKind};
use jotmate::screen::Screen;

// 2024-01-01, a Monday, as chrono's num_days_from_ce.
const JAN_1: i32 = 738886;
const JAN_8: i32 = 738893;
const MAR_4: i32 = 738949;

fn repo(name: &str, url: &str, enabled: bool) -> UpstreamRepo {
    UpstreamRepo { url: url.to_string(), name: name.to_string(), enabled }
}

fn config(repos: Vec<UpstreamRepo>, periods: Option<Vec<ContractPeriod>>) -> Config {
    Config {
        sync: SyncConfig {
            use_cache: true,
            skip_fork_sync: false,
            skip_rebase: false,
            skip_rds_sync: false,
            smart_sync: true,
            upstream_repos: repos,
        },
        time: TimeConfig {
            email: Some("me@example.com".to_string()),
            timezone: Some("Asia/Tokyo".to_string()),
            skip_current_week: false,
            use_time_cache: true,
            show_cumulative: true,
            contract_periods: periods,
            off_weeks: None,
        },
    }
}

fn app_with(repos: Vec<UpstreamRepo>, periods: Option<Vec<ContractPeriod>>) -> App<u32> {
    App::new(config(repos, periods), MAR_4, None)
}

#[test]
fn new_sorts_periods_and_starts_form_at_last() {
    let periods = vec![
        ContractPeriod { from: JAN_8, weekly_hours: 2400 },
        ContractPeriod { from: JAN_1, weekly_hours: 2000 },
    ];
    let app = app_with(vec![], Some(periods));
    assert_eq!(app.screen, Screen::MainMenu);
    assert_eq!(app.td.contract_periods, vec![
        ContractPeriod { from: JAN_1, weekly_hours: 2000 },
        ContractPeriod { from: JAN_8, weekly_hours: 2400 },
    ]);
    assert_eq!(app.add_cp.monday, JAN_8);
    assert_eq!(app.add_cp.hours_idx, DEFAULT_HOURS_INDEX);
    assert_eq!(app.td.timezone_idx, 12);
    assert_eq!(app.td.email, "me@example.com");
    assert!(app.td.password_is_set.is_none());
}

#[test]
fn new_without_periods_uses_this_monday_and_default_zone() {
    let mut c = config(vec![], None);
    c.time.timezone = Some("Mars/Olympus".to_string());
    c.time.email = None;
    let app: App<u32> = App::new(c, MAR_4, Some("bad".to_string()));
    assert_eq!(app.add_cp.monday, MAR_4);
    assert_eq!(app.td.timezone_idx, 7);
    assert_eq!(app.td.email, "");
    assert_eq!(app.config_load_error.as_deref(), Some("bad"));
}

#[test]
fn toggle_twice_restores_and_names_section() {
    let mut app = app_with(vec![], None);
    assert_eq!(app.toggle_by_kind(ToggleKind::SkipRebase), Effect::SaveSyncSettings);
    assert!(app.sync.skip_rebase);
    assert_eq!(app.toggle_by_kind(ToggleKind::SkipRebase), Effect::SaveSyncSettings);
    assert!(!app.sync.skip_rebase);
    assert_eq!(app.toggle_by_kind(ToggleKind::UseTimeCache), Effect::SaveTimeSettings);
    assert!(!app.td.use_time_cache);
}

#[test]
fn cycling_then_cancel_restores_value() {
    let mut app = app_with(vec![], None);
    app.enter_cycle(CycleTarget::Timezone);
    assert!(matches!(app.input_mode, InputMode::SelectingTimezone(12)));
    assert_eq!(app.cycle(CycleTarget::Timezone, 1), Effect::SaveTimeSettings);
    assert_eq!(app.cycle(CycleTarget::Timezone, 1), Effect::SaveTimeSettings);
    assert_eq!(app.td.timezone_idx, 14);
    app.cycle(CycleTarget::Timezone, 1);
    assert_eq!(app.td.timezone_idx, 0);
    assert_eq!(app.cancel_cycle_edit(), Effect::SaveTimeSettings);
    assert_eq!(app.td.timezone_idx, 12);
    assert!(matches!(app.input_mode, InputMode::Normal));
}

#[test]
fn cycling_the_monday_moves_a_week() {
    let mut app = app_with(vec![], None);
    app.enter_cycle(CycleTarget::CpMonday);
    assert_eq!(app.cycle(CycleTarget::CpMonday, 1), Effect::Nothing);
    assert_eq!(app.add_cp.monday, MAR_4 + 7);
    app.cycle(CycleTarget::CpMonday, -1);
    app.cycle(CycleTarget::CpMonday, -1);
    assert_eq!(app.add_cp.monday, MAR_4 - 7);
    assert_eq!(app.cancel_cycle_edit(), Effect::Nothing);
    assert_eq!(app.add_cp.monday, MAR_4);
}

#[test]
fn hours_cycle_wraps() {
    let mut app = app_with(vec![], None);
    app.enter_cycle(CycleTarget::CpHours);
    app.cycle(CycleTarget::CpHours, -1);
    app.cycle(CycleTarget::CpHours, -1);
    assert_eq!(app.add_cp.hours_idx, 3);
    app.input_mode = InputMode::Normal;
    assert_eq!(app.add_cp.hours_idx, 3);
}

#[test]
fn adding_repos_normalises_and_refuses_duplicates() {
    let mut app = app_with(vec![repo("core", "https://g.com/o/core", true)], None);
    assert_eq!(app.add_repo_from_input("  https://g.com/o/web.git/ ".to_string()), Effect::SaveSyncSettings);
    assert_eq!(app.sync.repos.len(), 2);
    assert_eq!(app.sync.repos[1].url, "https://g.com/o/web");
    assert_eq!(app.sync.repos[1].name, "web");
    assert!(app.sync.repos[1].enabled);
    assert_eq!(app.add_repo_from_input("https://g.com/o/core.git".to_string()), Effect::Nothing);
    assert_eq!(app.add_repo_from_input("https://other.com/x/core".to_string()), Effect::Nothing);
    assert_eq!(app.add_repo_from_input("   ".to_string()), Effect::Nothing);
    assert_eq!(app.add_repo_from_input(".git/".to_string()), Effect::Nothing);
    assert_eq!(app.sync.repos.len(), 2);
}

#[test]
fn toggling_and_removing_repos() {
    let mut app = app_with(
        vec![repo("a", "u/a", true), repo("b", "u/b", true), repo("a", "u/a2", false)],
        None,
    );
    assert_eq!(app.toggle_repo("b"), Effect::SaveSyncSettings);
    assert!(!app.sync.repos[1].enabled);
    assert_eq!(app.toggle_repo("zzz"), Effect::Nothing);
    assert_eq!(app.toggle_repo("a"), Effect::SaveSyncSettings);
    assert!(!app.sync.repos[0].enabled);
    assert!(!app.sync.repos[2].enabled);

    app.select(Screen::RemoveRepos, 4);
    app.confirm_delete_repo("a".to_string());
    assert!(matches!(&app.input_mode, InputMode::ConfirmDelete(n) if n == "a"));
    assert_eq!(app.execute_delete_repo("a"), Effect::SaveSyncSettings);
    assert_eq!(app.sync.repos.len(), 1);
    assert_eq!(app.sync.repos[0].name, "b");
    assert!(matches!(app.input_mode, InputMode::Normal));
    // One repository left: its row, blank, divider, back; back is the last row.
    assert_eq!(app.selected_index(Screen::RemoveRepos), 3);
}

#[test]
fn saving_periods_keeps_them_sorted() {
    let mut app = app_with(vec![], Some(vec![ContractPeriod { from: JAN_8, weekly_hours: 2000 }]));
    app.select(Screen::ContractPeriods, 7);
    app.add_cp.monday = JAN_1;
    app.add_cp.hours_idx = 3;
    assert_eq!(app.save_new_contract_period(), Effect::SaveTimeSettings);
    assert_eq!(app.td.contract_periods, vec![
        ContractPeriod { from: JAN_1, weekly_hours: 2800 },
        ContractPeriod { from: JAN_8, weekly_hours: 2000 },
    ]);
    assert_eq!(app.selected_index(Screen::ContractPeriods), 8);
    assert_eq!(app.add_cp.monday, JAN_8);
    assert_eq!(app.add_cp.hours_idx, 1);

    // Same start day: the hours are replaced, the selection stays.
    app.add_cp.monday = JAN_1;
    app.add_cp.hours_idx = 0;
    app.save_new_contract_period();
    assert_eq!(app.td.contract_periods.len(), 2);
    assert_eq!(app.td.contract_periods[0], ContractPeriod { from: JAN_1, weekly_hours: 1600 });
    assert_eq!(app.selected_index(Screen::ContractPeriods), 8);
}

#[test]
fn removing_periods() {
    let mut app = app_with(vec![], Some(vec![
        ContractPeriod { from: JAN_1, weekly_hours: 2000 },
        ContractPeriod { from: JAN_8, weekly_hours: 2400 },
    ]));
    app.select(Screen::ContractPeriods, 30);
    app.confirm_delete_period(0);
    assert!(matches!(app.input_mode, InputMode::ConfirmDeletePeriod(0)));
    assert_eq!(app.execute_delete_period(0), Effect::SaveTimeSettings);
    assert_eq!(app.td.contract_periods, vec![ContractPeriod { from: JAN_8, weekly_hours: 2400 }]);
    // Rows: title, blank, 1 period, then the 9-row tail ending with Back.
    assert_eq!(app.selected_index(Screen::ContractPeriods), 11);
    assert_eq!(app.execute_delete_period(5), Effect::Nothing);
    assert_eq!(app.td.contract_periods.len(), 1);
}

#[test]
fn persisted_sections_mirror_the_settings() {
    let mut app = app_with(vec![repo("a", "u/a", true)], Some(vec![ContractPeriod { from: JAN_8, weekly_hours: 2000 }]));
    let sync = app.persist_settings();
    assert!(sync.use_cache && sync.smart_sync && !sync.skip_rebase);
    assert_eq!(sync.upstream_repos.len(), 1);
    let time = app.persist_td_settings();
    assert_eq!(time.email.as_deref(), Some("me@example.com"));
    assert_eq!(time.timezone, "Asia/Tokyo");
    assert_eq!(time.start_date, Some(JAN_8));
    assert_eq!(time.contract_periods.map(|v| v.len()), Some(1));
    app.td.email = String::new();
    app.execute_delete_period(0);
    let time = app.persist_td_settings();
    assert_eq!(time.email, None);
    assert_eq!(time.start_date, None);
    assert!(time.contract_periods.is_none());
}

#[test]
fn the_sample_url_is_added_once() {
    let mut a = app_with(vec![], None);
    assert_eq!(a.add_repo_from_input("  https://github.com/jotform/frontend.git/ ".to_string()), Effect::SaveSyncSettings);
    assert_eq!(a.sync.repos.len(), 1);
    assert_eq!(a.sync.repos[0].url, "https://github.com/jotform/frontend");
    assert_eq!(a.sync.repos[0].name, "frontend");
    assert!(a.sync.repos[0].enabled);
    assert_eq!(a.add_repo_from_input("  https://github.com/jotform/frontend.git/ ".to_string()), Effect::Nothing);
    assert_eq!(a.add_repo_from_input("https://github.com/jotform/frontend".to_string()), Effect::Nothing);
    assert_eq!(a.add_repo_from_input(" \t\u{3000}".to_string()), Effect::Nothing);
    assert_eq!(a.sync.repos.len(), 1);
}

#[test]
fn default_configuration_turns_every_sync_step_on() {
    let c = Config::default();
    assert!(c.sync.use_cache && c.sync.smart_sync);
    assert!(!c.sync.skip_fork_sync && !c.sync.skip_rebase && !c.sync.skip_rds_sync);
    assert!(c.sync.upstream_repos.is_empty());
    let a: App<u32> = App::new(c, MAR_4, None);
    assert!(a.sync.use_cache);
}

#[test]
fn the_password_lookup_is_kept() {
    let mut a = app_with(vec![], None);
    assert!(a.needs_password_lookup());
    a.password_looked_up(false);
    assert!(!a.needs_password_lookup());
    assert_eq!(a.td.password_is_set, Some(false));
    a.password_looked_up(true);
    assert_eq!(a.td.password_is_set, Some(false));
    a.password_stored(true);
    assert_eq!(a.td.password_is_set, Some(true));
}

#[test]
fn saving_keeps_start_days_distinct() {
    let p = |from: i32, weekly_hours: u32| ContractPeriod { from, weekly_hours };
    let mut a = app_with(vec![], Some(vec![p(JAN_1, 2000), p(MAR_4, 4000)]));
    a.add_cp.monday = JAN_8;
    a.save_new_contract_period();
    a.add_cp.monday = JAN_8;
    a.add_cp.hours_idx = 3;
    a.save_new_contract_period();
    let froms: Vec<i32> = a.td.contract_periods.iter().map(|c| c.from).collect();
    assert_eq!(froms, vec![JAN_1, JAN_8, MAR_4]);
    assert_eq!(a.add_cp.monday, MAR_4);
    assert_eq!(a.add_cp.hours_idx, DEFAULT_HOURS_INDEX);
}
