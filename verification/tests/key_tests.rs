use jotmate::app::{App, Config, ContractPeriod, Effect, SyncConfig, TimeConfig, UpstreamRepo};
use jotmate::input::{clamp_scroll, Action, Key};
use jotmate::rows::{InputMode, TimeDoctorField};
use jotmate::screen::Screen;
use jotmate::sync_state::UpdatePhase;

const JAN_1: i32 = 738886;
const MAR_4: i32 = 738949;

fn app(repos: Vec<UpstreamRepo>) -> App<u32> {
    let config = Config {
        sync: SyncConfig {
            use_cache: false,
            skip_fork_sync: false,
            skip_rebase: false,
            skip_rds_sync: false,
            smart_sync: false,
            upstream_repos: repos,
        },
        time: TimeConfig {
            email: None,
            timezone: None,
            skip_current_week: false,
            use_time_cache: true,
            show_cumulative: true,
            contract_periods: Some(vec![ContractPeriod { from: JAN_1, weekly_hours: 2000 }]),
            off_weeks: None,
        },
    };
    let mut a: App<u32> = App::new(config, MAR_4, None);
    a.td.password_is_set = Some(false);
    a
}

fn press(a: &mut App<u32>, key: Key) -> (Action, Effect) {
    a.handle_key(key)
}

#[test]
fn main_menu_moves_and_wraps() {
    let mut a = app(vec![]);
    assert_eq!(press(&mut a, Key::Up), (Action::Continue, Effect::Nothing));
    // Sync, Time Doctor, Settings, Exit (no update offered).
    assert_eq!(a.selected_index(Screen::MainMenu), 3);
    assert_eq!(press(&mut a, Key::Enter), (Action::Back, Effect::Nothing));
    press(&mut a, Key::Down);
    assert_eq!(press(&mut a, Key::Enter), (Action::StartSync, Effect::Nothing));
    assert_eq!(press(&mut a, Key::Char('q')), (Action::Back, Effect::Nothing));
    assert_eq!(press(&mut a, Key::Char('x')), (Action::Continue, Effect::Nothing));
}

#[test]
fn main_menu_opens_settings_on_first_row() {
    let mut a = app(vec![]);
    a.select(Screen::MainMenu, 2);
    assert_eq!(press(&mut a, Key::Enter), (Action::Continue, Effect::Nothing));
    assert_eq!(a.screen, Screen::Settings);
    assert_eq!(a.selected_index(Screen::Settings), 2);
    press(&mut a, Key::Down);
    assert_eq!(a.selected_index(Screen::Settings), 3);
    press(&mut a, Key::Down);
    assert_eq!(a.selected_index(Screen::Settings), 7);
    press(&mut a, Key::Esc);
    assert_eq!(a.screen, Screen::MainMenu);
}

#[test]
fn time_doctor_without_credentials_asks_for_them() {
    let mut a = app(vec![]);
    a.select(Screen::MainMenu, 1);
    assert_eq!(press(&mut a, Key::Enter), (Action::Continue, Effect::StopReport));
    assert_eq!(a.screen, Screen::TimeDoctorReport);
    assert!(matches!(&a.td_report, jotmate::app::TdReportState::NoCredentials(m) if m == "Email or password not configured."));
    press(&mut a, Key::Enter);
    assert_eq!(a.screen, Screen::TimeDoctorSettings);
}

#[test]
fn general_toggle_flips_and_saves() {
    let mut a = app(vec![]);
    a.screen = Screen::SyncGeneralSettings;
    a.select(Screen::SyncGeneralSettings, 0);
    assert_eq!(press(&mut a, Key::Enter), (Action::Continue, Effect::SaveSyncSettings));
    assert!(a.sync.use_cache);
    // Rebase is disabled while fork sync is off.
    a.sync.skip_fork_sync = true;
    a.select(Screen::SyncGeneralSettings, 3);
    assert_eq!(press(&mut a, Key::Enter), (Action::Continue, Effect::Nothing));
    assert!(!a.sync.skip_rebase);
}

#[test]
fn timezone_selector_cycles_and_cancels() {
    let mut a = app(vec![]);
    a.screen = Screen::TdGeneralSettings;
    a.select(Screen::TdGeneralSettings, 3);
    press(&mut a, Key::Enter);
    assert!(matches!(a.input_mode, InputMode::SelectingTimezone(7)));
    assert_eq!(press(&mut a, Key::Up), (Action::Continue, Effect::SaveTimeSettings));
    assert_eq!(a.td.timezone_idx, 8);
    assert_eq!(press(&mut a, Key::Backspace), (Action::Continue, Effect::SaveTimeSettings));
    assert_eq!(a.td.timezone_idx, 7);
    press(&mut a, Key::Enter);
    press(&mut a, Key::Left);
    assert_eq!(press(&mut a, Key::Enter), (Action::Continue, Effect::Nothing));
    assert_eq!(a.td.timezone_idx, 6);
    assert!(matches!(a.input_mode, InputMode::Normal));
}

#[test]
fn typing_a_repository_url() {
    let mut a = app(vec![]);
    a.screen = Screen::RepoManager;
    a.select(Screen::RepoManager, 1);
    press(&mut a, Key::Enter);
    assert!(matches!(&a.input_mode, InputMode::AddingRepo(b) if b.is_empty()));
    for c in "u/x/qq".chars() {
        press(&mut a, Key::Char(c));
    }
    press(&mut a, Key::Backspace);
    assert_eq!(press(&mut a, Key::Enter), (Action::Continue, Effect::SaveSyncSettings));
    assert_eq!(a.sync.repos[0].name, "q");
    assert!(matches!(a.input_mode, InputMode::Normal));
}

#[test]
fn removing_a_repository_with_confirmation() {
    let mut a = app(vec![UpstreamRepo { url: "u/a".into(), name: "a".into(), enabled: true }]);
    a.screen = Screen::RemoveRepos;
    a.select(Screen::RemoveRepos, 0);
    press(&mut a, Key::Enter);
    assert!(matches!(&a.input_mode, InputMode::ConfirmDelete(n) if n == "a"));
    assert_eq!(press(&mut a, Key::Char('n')), (Action::Continue, Effect::Nothing));
    assert!(matches!(a.input_mode, InputMode::Normal));
    press(&mut a, Key::Enter);
    assert_eq!(press(&mut a, Key::Char('Y')), (Action::Continue, Effect::SaveSyncSettings));
    assert!(a.sync.repos.is_empty());
    assert_eq!(a.selected_index(Screen::RemoveRepos), 0);
}

#[test]
fn credentials_entry() {
    let mut a = app(vec![]);
    a.screen = Screen::TimeDoctorSettings;
    a.select(Screen::TimeDoctorSettings, 0);
    press(&mut a, Key::Enter);
    for c in "bad".chars() {
        press(&mut a, Key::Char(c));
    }
    assert_eq!(press(&mut a, Key::Enter), (Action::Continue, Effect::Nothing));
    assert_eq!(a.auth_error.as_deref(), Some("Invalid email address."));
    assert_eq!(a.td.email, "");
    // An idle key keeps the error, a move clears it.
    press(&mut a, Key::Other);
    assert!(a.auth_error.is_some());
    press(&mut a, Key::Down);
    assert!(a.auth_error.is_none());
    assert_eq!(a.selected_index(Screen::TimeDoctorSettings), 1);

    a.select(Screen::TimeDoctorSettings, 0);
    press(&mut a, Key::Enter);
    for c in "me@x.io".chars() {
        press(&mut a, Key::Char(c));
    }
    assert_eq!(press(&mut a, Key::Enter), (Action::Continue, Effect::ForgetTokenAndSaveTime));
    assert_eq!(a.td.email, "me@x.io");

    a.select(Screen::TimeDoctorSettings, 1);
    press(&mut a, Key::Enter);
    assert!(matches!(&a.input_mode, InputMode::EditingField { field: TimeDoctorField::Password, buf } if buf.is_empty()));
    assert_eq!(press(&mut a, Key::Enter), (Action::Continue, Effect::Nothing));
    assert_eq!(a.auth_error.as_deref(), Some("Failed to save password to keychain"));
    press(&mut a, Key::Enter);
    press(&mut a, Key::Char('p'));
    assert_eq!(press(&mut a, Key::Enter), (Action::Continue, Effect::StorePassword("p".to_string())));
    a.password_stored(true);
    assert_eq!(a.td.password_is_set, Some(true));
}

#[test]
fn contract_period_form_by_keys() {
    let mut a = app(vec![]);
    a.screen = Screen::ContractPeriods;
    // title, blank, period, blank, divider, monday, hours, blank, save, ...
    a.select(Screen::ContractPeriods, 5);
    press(&mut a, Key::Enter);
    assert!(matches!(a.input_mode, InputMode::EditingCpMonday(_)));
    press(&mut a, Key::Up);
    press(&mut a, Key::Enter);
    assert_eq!(a.add_cp.monday, JAN_1 + 7);
    a.select(Screen::ContractPeriods, 8);
    assert_eq!(press(&mut a, Key::Enter), (Action::Continue, Effect::SaveTimeSettings));
    assert_eq!(a.td.contract_periods.len(), 2);
    assert_eq!(a.selected_index(Screen::ContractPeriods), 9);
    a.select(Screen::ContractPeriods, 2);
    press(&mut a, Key::Enter);
    assert!(matches!(a.input_mode, InputMode::ConfirmDeletePeriod(0)));
    assert_eq!(press(&mut a, Key::Enter), (Action::Continue, Effect::SaveTimeSettings));
    assert_eq!(a.td.contract_periods.len(), 1);
}

#[test]
fn report_scrolling_is_clamped() {
    assert_eq!(clamp_scroll(0, -1, 10, 6), 0);
    assert_eq!(clamp_scroll(3, 1, 10, 6), 4);
    assert_eq!(clamp_scroll(4, 1, 10, 6), 4);
    assert_eq!(clamp_scroll(0, 1, 3, 6), 0);
    let mut a = app(vec![]);
    a.screen = Screen::TimeDoctorReport;
    a.td_report = jotmate::app::TdReportState::Ready {
        rows: (0..9).map(|m| jotmate::app::WeekRow { monday: 738886 + 7 * m, data: m as u32 }).collect(),
        show_cumulative: true,
    };
    for _ in 0..5 {
        press(&mut a, Key::Down);
    }
    assert_eq!(a.td_report_scroll, 3);
    press(&mut a, Key::Left);
    assert_eq!(a.td_report_scroll, 2);
    press(&mut a, Key::Enter);
    assert_eq!(a.screen, Screen::MainMenu);
}

#[test]
fn sync_screen_keys() {
    let mut a = app(vec![]);
    a.start_sync(vec![("a".to_string(), std::path::PathBuf::from("/a"))]);
    assert_eq!(a.screen, Screen::SyncProgress);
    assert_eq!(press(&mut a, Key::Enter), (Action::Continue, Effect::Nothing));
    assert_eq!(a.screen, Screen::SyncProgress);
    assert_eq!(press(&mut a, Key::Esc), (Action::Continue, Effect::StopSync));
    assert_eq!(a.screen, Screen::MainMenu);
    assert!(a.sync_state.is_none());
}

#[test]
fn update_screen_keys() {
    let mut a = app(vec![]);
    assert_eq!(a.launch_update(), Effect::StartUpdate);
    assert_eq!(press(&mut a, Key::Enter), (Action::Continue, Effect::Nothing));
    a.apply_update_event(UpdatePhase::Done("2.0.0".to_string()));
    assert_eq!(a.available_update, Some(None));
    assert_eq!(press(&mut a, Key::Enter), (Action::Restart, Effect::StopUpdate));
    let mut b = app(vec![]);
    b.launch_update();
    b.apply_update_event(UpdatePhase::Failed("x".to_string()));
    assert_eq!(press(&mut b, Key::Backspace), (Action::Continue, Effect::StopUpdate));
    assert_eq!(b.screen, Screen::MainMenu);
    assert_eq!(press(&mut b, Key::Char('q')), (Action::Back, Effect::Nothing));
}

#[test]
fn keys_are_checked_before_they_are_handled() {
    let mut a = app(vec![]);
    assert!(a.key_is_safe(Key::Down));
    a.td.password_is_set = None;
    assert!(!a.key_is_safe(Key::Enter));
    a.td.password_is_set = Some(false);
    a.screen = Screen::SyncProgress;
    a.sync_scroll = usize::MAX;
    assert!(!a.key_is_safe(Key::Down));
    assert!(a.key_is_safe(Key::Up));
}
