use jotmate::app::{App, Config, ContractPeriod, Effect, SyncConfig, TdReportState, TimeConfig, UpstreamRepo, WeekRow};
use jotmate::report::{forgets_token, map_err, FetchFailure};
use jotmate::screen::Screen;
use jotmate::sync_flow::{discovery_failed_message, first_sync_step, sync_candidates, sync_order, SyncStart};
use jotmate::sync_state::{ForkStatus, RdsStatus, SyncPhase, SyncUpdate, UpdatePhase};
use jotmate::update_flow::status_label;
use std::path::PathBuf;
use std::time::Instant;

fn app(email: &str, periods: Vec<ContractPeriod>) -> App<u32> {
    let config = Config {
        sync: SyncConfig {
            use_cache: false,
            skip_fork_sync: false,
            skip_rebase: false,
            skip_rds_sync: false,
            smart_sync: false,
            upstream_repos: vec![],
        },
        time: TimeConfig {
            email: Some(email.to_string()),
            timezone: None,
            skip_current_week: false,
            use_time_cache: true,
            show_cumulative: true,
            contract_periods: Some(periods),
            off_weeks: None,
        },
    };
    App::new(config, 738949, None)
}

/// A report row for the week starting on `monday`, carrying `data`.
fn week(monday: i32, data: u32) -> WeekRow<u32> {
    WeekRow { monday, data }
}

fn weeks(ms: impl IntoIterator<Item = u32>) -> Vec<WeekRow<u32>> {
    ms.into_iter().map(|m| week(738886 + 7 * m as i32, m)).collect()
}

fn data(rows: &[WeekRow<u32>]) -> Vec<u32> {
    rows.iter().map(|r| r.data).collect()
}

fn repo(name: &str, enabled: bool) -> UpstreamRepo {
    UpstreamRepo { url: format!("u/{name}"), name: name.to_string(), enabled }
}

#[test]
fn launching_the_report() {
    let mut a = app("me@x.io", vec![]);
    a.td.password_is_set = Some(true);
    assert_eq!(a.launch_td_report(), Effect::StopReport);
    assert!(matches!(a.td_report, TdReportState::NoPeriods));
    let mut b = app("me@x.io", vec![ContractPeriod { from: 738886, weekly_hours: 2000 }]);
    b.td.password_is_set = Some(true);
    b.td_report_scroll = 4;
    assert_eq!(b.launch_td_report(), Effect::LoadReport);
    assert!(matches!(b.td_report, TdReportState::Loading));
    assert_eq!(b.td_report_scroll, 0);
    assert_eq!(b.screen, Screen::TimeDoctorReport);
}

#[test]
fn cached_weeks_then_fetched_weeks() {
    let mut a = app("me@x.io", vec![]);
    assert!(a.begin_report(weeks(1..=8), 2));
    assert!(matches!(&a.td_report, TdReportState::PartialReady { rows, pending: 2, show_cumulative: true, tick: 0 } if rows.len() == 8));
    assert_eq!(a.td_report_scroll, 2);
    assert!(a.tick_report());
    assert!(matches!(a.td_report, TdReportState::PartialReady { tick: 1, .. }));
    a.apply_fetch_result(Ok(weeks(vec![9, 10])));
    assert!(matches!(&a.td_report, TdReportState::Ready { rows, show_cumulative: true } if data(rows) == (1..=10).collect::<Vec<u32>>()));
    assert_eq!(a.td_report_scroll, 4);
    assert!(!a.tick_report());
}

#[test]
fn nothing_pending_is_ready_at_once() {
    let mut a = app("me@x.io", vec![]);
    assert!(!a.begin_report(weeks(vec![5, 6]), 0));
    assert!(matches!(&a.td_report, TdReportState::Ready { rows, .. } if data(rows) == vec![5, 6]));
    let mut b = app("me@x.io", vec![]);
    assert!(!b.begin_report(vec![], 0));
    assert!(matches!(&b.td_report, TdReportState::Ready { rows, show_cumulative: true } if rows.is_empty()));
}

#[test]
fn report_weeks_are_kept_in_order_of_monday() {
    let mut a = app("me@x.io", vec![]);
    assert!(a.begin_report(weeks(vec![5, 2, 7]), 2));
    assert!(matches!(&a.td_report, TdReportState::PartialReady { rows, .. } if data(rows) == vec![2, 5, 7]));
    a.apply_fetch_result(Ok(weeks(vec![6, 1])));
    assert!(matches!(&a.td_report, TdReportState::Ready { rows, .. } if data(rows) == vec![1, 2, 5, 6, 7]));
    // Rows of the same week keep the order they came in.
    let mut b = app("me@x.io", vec![]);
    assert!(!b.begin_report(vec![week(738893, 1), week(738886, 2), week(738893, 3)], 0));
    assert!(matches!(&b.td_report, TdReportState::Ready { rows, .. } if data(rows) == vec![2, 1, 3]));
}

#[test]
fn launching_the_report_drops_a_stale_fetch() {
    let mut a = app("", vec![ContractPeriod { from: 738886, weekly_hours: 2000 }]);
    a.td.password_is_set = Some(true);
    assert_eq!(a.launch_td_report(), Effect::StopReport);
    assert!(matches!(&a.td_report, TdReportState::NoCredentials(m) if m == "Email or password not configured."));
}

#[test]
fn failed_fetches() {
    let mut a = app("me@x.io", vec![]);
    a.apply_fetch_result(Err("AUTH_FAILED:bad password".to_string()));
    assert!(matches!(&a.td_report, TdReportState::NoCredentials(m) if m == "bad password"));
    let mut b = app("me@x.io", vec![]);
    b.apply_fetch_result(Err("offline".to_string()));
    assert!(matches!(&b.td_report, TdReportState::Error(m) if m == "offline"));
    let mut c = app("me@x.io", vec![]);
    c.begin_report(weeks(vec![1, 2, 3]), 4);
    c.apply_fetch_result(Err("offline".to_string()));
    assert!(matches!(&c.td_report, TdReportState::Ready { rows, show_cumulative: true } if rows.len() == 3));
}

#[test]
fn fetch_failures_are_worded() {
    assert_eq!(map_err(&FetchFailure::TokenExpired), "AUTH_FAILED:Session expired — please re-enter your password.");
    assert_eq!(map_err(&FetchFailure::AuthFailed("nope".to_string())), "AUTH_FAILED:nope");
    assert_eq!(
        map_err(&FetchFailure::Other),
        "Could not connect to TimeDoctor. Check your internet connection and try again."
    );
    assert!(forgets_token(&FetchFailure::TokenExpired));
    assert!(!forgets_token(&FetchFailure::Other));
}

#[test]
fn planning_a_sync() {
    let repos = vec![repo("a", true), repo("b", false), repo("c", true)];
    let enabled = sync_candidates(&repos).unwrap();
    assert_eq!(enabled.iter().map(|r| r.name.as_str()).collect::<Vec<_>>(), vec!["a", "c"]);
    assert_eq!(
        sync_candidates(&vec![repo("b", false)]).err().unwrap(),
        "No repos enabled for sync. Add or enable at least one in Settings → Repos."
    );
    let order = sync_order(&enabled, vec![None, Some(PathBuf::from("/c"))]).unwrap();
    assert_eq!(order, vec![("c".to_string(), PathBuf::from("/c"))]);
    assert!(sync_order(&enabled, vec![None, None]).is_err());
    assert_eq!(discovery_failed_message("boom"), "Repo discovery failed: boom");
}

#[test]
fn sync_progress_is_folded_in() {
    let mut a = app("", vec![]);
    a.enter_sync_discovering();
    assert!(matches!(a.sync_state.as_ref().map(|s| s.phase), Some(SyncPhase::Discovering)));
    assert!(!a.sync_is_complete());
    a.start_sync(vec![("a".to_string(), PathBuf::from("/a")), ("b".to_string(), PathBuf::from("/b"))]);
    let now = Instant::now();
    a.apply_sync_update(SyncUpdate::Fork(0, ForkStatus::FetchingUpstream), now);
    a.apply_sync_update(SyncUpdate::Elapsed(0, 12), now);
    a.apply_sync_update(SyncUpdate::Fork(7, ForkStatus::Done), now);
    {
        let st = a.sync_state.as_ref().unwrap();
        assert_eq!(st.repos[0].started_at, Some(now));
        assert_eq!(st.repos[0].elapsed_tenths, 12);
        assert!(st.repos[1].started_at.is_none());
    }
    let later = now + std::time::Duration::from_secs(5);
    a.apply_sync_update(SyncUpdate::Fork(0, ForkStatus::Done), later);
    assert_eq!(a.sync_state.as_ref().unwrap().repos[0].started_at, Some(now));
    a.apply_sync_update(SyncUpdate::Rds(0, RdsStatus::Done), now);
    a.apply_sync_update(SyncUpdate::Elapsed(0, 99), now);
    assert_eq!(a.sync_state.as_ref().unwrap().repos[0].elapsed_tenths, 12);
    assert!(!a.sync_is_complete());
    a.apply_sync_update(SyncUpdate::Fork(1, ForkStatus::UpToDate), now);
    a.apply_sync_update(SyncUpdate::Rds(1, RdsStatus::Skipped("off".to_string())), now);
    assert!(a.sync_is_complete());
    a.tick_sync();
    assert_eq!(a.sync_state.as_ref().unwrap().tick, 1);
    assert_eq!(a.cancel_sync(), Effect::StopSync);
    assert_eq!(a.cancel_sync(), Effect::Nothing);
    a.fail_sync_setup("no repos".to_string());
    assert!(a.sync_is_complete());
    assert_eq!(a.sync_state.as_ref().unwrap().setup_error.as_deref(), Some("no repos"));
}

#[test]
fn update_phases() {
    assert_eq!(status_label(&UpdatePhase::Done("1.2.3".to_string())), "Updated to v1.2.3");
    assert_eq!(status_label(&UpdatePhase::Checking), "Checking for updates…");
    let mut a = app("", vec![]);
    a.finish_update_check(Some("3.1.0".to_string()));
    assert_eq!(a.main_menu_items().len(), 5);
    a.launch_update();
    a.tick_update();
    assert_eq!(a.update_state.as_ref().unwrap().tick, 1);
    a.apply_update_event(UpdatePhase::Downloading);
    assert!(!a.update_is_terminal());
    assert_eq!(a.available_update, Some(Some("3.1.0".to_string())));
    a.apply_update_event(UpdatePhase::UpToDate);
    assert!(a.update_is_terminal());
    assert_eq!(a.available_update, Some(None));
    assert_eq!(a.main_menu_items().len(), 4);
    a.screen = Screen::UpdateProgress;
    assert_eq!(a.cancel_running(), Effect::StopUpdate);
    assert!(a.update_state.is_none());
}

#[test]
fn starting_a_sync_after_reading_the_configuration() {
    let failed: Result<Config, String> = Err("bad toml".to_string());
    assert!(matches!(first_sync_step(&failed), SyncStart::Fail(m) if m == "Could not load config: bad toml"));
    let mut c = Config::default();
    assert!(matches!(first_sync_step(&Ok(c)), SyncStart::Fail(m) if m.starts_with("No repos enabled for sync.")));
    c = Config::default();
    c.sync.upstream_repos = vec![repo("a", false), repo("b", true)];
    assert!(matches!(first_sync_step(&Ok(c)), SyncStart::TryCache(v) if v.len() == 1 && v[0].name == "b"));
    c = Config::default();
    c.sync.use_cache = false;
    c.sync.upstream_repos = vec![repo("a", true)];
    assert!(matches!(first_sync_step(&Ok(c)), SyncStart::Discover(v) if v.len() == 1 && v[0].name == "a"));
}
