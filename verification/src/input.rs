//! Keyboard handling: what each key does on each screen. A key yields an
//! [`Action`] for the event loop and an [`Effect`] for the caller to carry out.
use vstd::prelude::*;

use crate::app::{spec_settings_items, App, Effect, TdReportState, TimeSettings, TD_REPORT_VISIBLE_ROWS};
use crate::builders::{
    spec_cp_list_items, spec_main_menu_kinds, spec_remove_repo_items, spec_repo_manager_items,
    spec_sync_general_items, spec_td_general_items, spec_td_settings_items,
};
use crate::rows::{
    CpListRow, CycleTarget, GeneralToggleRow, InputMode, RemoveRepoRow, RepoManagerRow, SettingRow,
    TimeDoctorField, TimeSettingRow,
};
use crate::screen::{list_slot, spec_list_slot, MainMenuKind, Screen};
use crate::dates::{MAX_DAY, MIN_DAY};
use crate::sync_state::{spec_sync_finished, UpdatePhase};
use crate::text::{is_valid_email, owned, push_char, spec_is_valid_email, without_last_char};

verus! {

/// A key press, as the handlers tell keys apart.
#[derive(Clone, Copy, PartialEq, Eq, Structural, Debug)]
pub enum Key {
    Up,
    Down,
    Left,
    Right,
    Enter,
    Esc,
    Backspace,
    Char(char),
    Other,
}

/// What the event loop does after a key.
#[derive(Clone, Copy, PartialEq, Eq, Structural, Debug)]
pub enum Action {
    Continue,
    /// Leave the program.
    Back,
    /// Start a sync (the caller plans and launches it).
    StartSync,
    /// Leave and start the freshly installed binary.
    Restart,
}

/// List movement: up and left go back a row, down and right forward.
pub open spec fn spec_nav_delta(key: Key) -> Option<i32> {
    match key {
        Key::Up | Key::Left => Some(-1i32),
        Key::Down | Key::Right => Some(1i32),
        _ => None,
    }
}

pub fn nav_delta(key: Key) -> (r: Option<i32>)
    ensures
        r == spec_nav_delta(key),
{
    match key {
        Key::Up | Key::Left => Some(-1),
        Key::Down | Key::Right => Some(1),
        _ => None,
    }
}

/// Value cycling: up and right to the next value, down and left to the previous.
pub open spec fn spec_cycle_delta(key: Key) -> Option<i32> {
    match key {
        Key::Up | Key::Right => Some(1i32),
        Key::Down | Key::Left => Some(-1i32),
        _ => None,
    }
}

pub fn cycle_delta(key: Key) -> (r: Option<i32>)
    ensures
        r == spec_cycle_delta(key),
{
    match key {
        Key::Up | Key::Right => Some(1),
        Key::Down | Key::Left => Some(-1),
        _ => None,
    }
}

pub fn is_activate(key: Key) -> (r: bool)
    ensures
        r == (key == Key::Enter),
{
    match key {
        Key::Enter => true,
        _ => false,
    }
}

pub open spec fn spec_is_back(key: Key) -> bool {
    key == Key::Esc || key == Key::Backspace
}

pub fn is_back(key: Key) -> (r: bool)
    ensures
        r == spec_is_back(key),
{
    match key {
        Key::Esc | Key::Backspace => true,
        _ => false,
    }
}

pub open spec fn spec_is_yes(key: Key) -> bool {
    key == Key::Enter || key == Key::Char('y') || key == Key::Char('Y')
}

pub fn is_yes(key: Key) -> (r: bool)
    ensures
        r == spec_is_yes(key),
{
    match key {
        Key::Enter => true,
        Key::Char(c) => c == 'y' || c == 'Y',
        _ => false,
    }
}

pub open spec fn spec_is_no(key: Key) -> bool {
    key == Key::Esc || key == Key::Char('n') || key == Key::Char('N')
}

pub fn is_no(key: Key) -> (r: bool)
    ensures
        r == spec_is_no(key),
{
    match key {
        Key::Esc => true,
        Key::Char(c) => c == 'n' || c == 'N',
        _ => false,
    }
}

pub fn is_quit(key: Key) -> (r: bool)
    ensures
        r == (key == Key::Char('q')),
{
    match key {
        Key::Char(c) => c == 'q',
        _ => false,
    }
}

/// Keys that every list screen handles the same way: movement, going back
/// to the parent screen, and quitting.
pub open spec fn spec_list_key(key: Key) -> bool {
    spec_nav_delta(key) is Some || spec_is_back(key) || key == Key::Char('q')
}

/// The row at index `i`, if there is one.
pub open spec fn spec_row_at<T>(rows: Seq<T>, i: int) -> Option<T> {
    if 0 <= i < rows.len() {
        Some(rows[i])
    } else {
        None
    }
}

/// A text buffer after a key: characters are appended, Backspace removes
/// the last one.
pub open spec fn spec_edit_buffer(buf: Seq<char>, key: Key) -> Seq<char> {
    match key {
        Key::Char(c) => buf.push(c),
        Key::Backspace => if buf.len() > 0 {
            buf.drop_last()
        } else {
            buf
        },
        _ => buf,
    }
}

/// Whether `mode` is `before` with its text buffer edited by `key`.
pub open spec fn spec_edited_mode(before: InputMode, mode: InputMode, key: Key) -> bool {
    match before {
        InputMode::AddingRepo(buf) => mode matches InputMode::AddingRepo(b) && b@
            == spec_edit_buffer(buf@, key),
        InputMode::EditingField { field, buf } => mode matches InputMode::EditingField {
            field: f,
            buf: b,
        } && f == field && b@ == spec_edit_buffer(buf@, key),
        _ => mode == before,
    }
}

/// The text input mode after a typed character or Backspace.
fn edit_mode(mode: InputMode, key: Key) -> (r: InputMode)
    ensures
        spec_edited_mode(mode, r, key),
{
    match mode {
        InputMode::AddingRepo(buf) => InputMode::AddingRepo(edit_buffer(buf, key)),
        InputMode::EditingField { field, buf } => InputMode::EditingField {
            field,
            buf: edit_buffer(buf, key),
        },
        other => other,
    }
}

fn edit_buffer(buf: String, key: Key) -> (r: String)
    ensures
        r@ == spec_edit_buffer(buf@, key),
{
    match key {
        Key::Char(c) => {
            let mut b = buf;
            push_char(&mut b, c);
            b
        },
        Key::Backspace => without_last_char(buf.as_str()),
        _ => buf,
    }
}

/// Rows of the sync progress table visible at once.
pub const SYNC_VISIBLE_ROWS: usize = 6;

/// Shown when the typed e-mail address is refused.
pub const INVALID_EMAIL: &'static str = "Invalid email address.";

/// The scroll position of a table of `total` rows showing `visible` at a
/// time, after moving one row up (`delta < 0`) or down.
pub open spec fn spec_clamp_scroll(scroll: int, delta: int, total: int, visible: int) -> int {
    if delta < 0 {
        if scroll > 0 {
            scroll - 1
        } else {
            0
        }
    } else {
        let max = if total > visible {
            total - visible
        } else {
            0
        };
        if scroll + 1 < max {
            scroll + 1
        } else {
            max
        }
    }
}

pub fn clamp_scroll(scroll: usize, delta: i32, total: usize, visible: usize) -> (r: usize)
    requires
        delta >= 0 ==> scroll < usize::MAX,
    ensures
        r == spec_clamp_scroll(scroll as int, delta as int, total as int, visible as int),
{
    if delta < 0 {
        scroll.saturating_sub(1)
    } else {
        let max = total.saturating_sub(visible);
        if scroll + 1 < max {
            scroll + 1
        } else {
            max
        }
    }
}

/// Rows of the report table, counting the weeks still being fetched.
pub open spec fn spec_report_total<R>(report: TdReportState<R>) -> int {
    match report {
        TdReportState::Ready { rows, .. } => rows@.len() as int,
        TdReportState::PartialReady { rows, pending, .. } => rows@.len() + pending,
        _ => 0,
    }
}

impl<R> App<R> {
    /// Rows of the general settings screen being shown (sync or Time Doctor).
    pub open spec fn spec_general_rows(self) -> Seq<GeneralToggleRow> {
        if self.screen == Screen::SyncGeneralSettings {
            spec_sync_general_items(
                self.sync.use_cache,
                self.sync.skip_fork_sync,
                self.sync.skip_rebase,
                self.sync.skip_rds_sync,
                self.sync.smart_sync,
            )
        } else {
            spec_td_general_items(
                self.td.use_time_cache,
                self.td.skip_current_week,
                self.td.timezone_idx as int,
            )
        }
    }

    /// Whether keys on the current screen go to its list (no text entry,
    /// value cycling or confirmation is in progress).
    pub open spec fn list_mode(self) -> bool {
        match self.screen {
            Screen::MainMenu | Screen::Settings => true,
            Screen::SyncGeneralSettings | Screen::TdGeneralSettings => !(
            self.input_mode is SelectingTimezone),
            Screen::RepoManager => !(self.input_mode is AddingRepo),
            Screen::RemoveRepos => !(self.input_mode is ConfirmDelete),
            Screen::TimeDoctorSettings => !(self.input_mode is EditingField),
            Screen::ContractPeriods => !(self.input_mode is ConfirmDeletePeriod
                || self.input_mode is EditingCpMonday || self.input_mode is EditingCpHours),
            _ => false,
        }
    }

    /// The value being cycled on the current screen, if any.
    pub open spec fn cycling_target(self) -> Option<CycleTarget> {
        match self.screen {
            Screen::SyncGeneralSettings | Screen::TdGeneralSettings => if self.input_mode is SelectingTimezone {
                Some(CycleTarget::Timezone)
            } else {
                None
            },
            Screen::ContractPeriods => match self.input_mode {
                InputMode::EditingCpMonday(_) => Some(CycleTarget::CpMonday),
                InputMode::EditingCpHours(_) => Some(CycleTarget::CpHours),
                _ => None,
            },
            _ => None,
        }
    }

    /// Whether `key` can be handled in this state without leaving what the
    /// handlers can represent: the password lookup has been made, a list
    /// move stays where the list can index, a cycled date stays in range,
    /// and counters have room to grow.
    pub open spec fn key_safe(self, key: Key) -> bool {
        &&& self.td.password_is_set is Some
        &&& (self.list_mode() && spec_nav_delta(key) is Some) ==> self.can_navigate(
            spec_nav_delta(key)->0 as int,
        )
        &&& (self.cycling_target() is Some && spec_cycle_delta(key) is Some) ==> self.can_cycle(
            self.cycling_target()->0,
            spec_cycle_delta(key)->0 as int,
        )
        &&& (self.screen == Screen::ContractPeriods && self.list_mode() && key == Key::Enter)
            ==> self.spec_selected(Screen::ContractPeriods) < usize::MAX
        &&& (self.screen == Screen::SyncProgress && key == Key::Down) ==> self.sync_scroll
            < usize::MAX
        &&& (self.screen == Screen::TimeDoctorReport && spec_nav_delta(key) is Some) ==> {
            &&& self.td_report_scroll < usize::MAX
            &&& spec_report_total(self.td_report) <= usize::MAX
        }
    }

    /// Whether the current screen shows its list (no editor or dialog is open).
    pub fn is_list_mode(&self) -> (b: bool)
        ensures
            b == self.list_mode(),
    {
        match self.screen {
            Screen::MainMenu | Screen::Settings => true,
            Screen::SyncGeneralSettings | Screen::TdGeneralSettings => match self.input_mode {
                InputMode::SelectingTimezone(_) => false,
                _ => true,
            },
            Screen::RepoManager => match self.input_mode {
                InputMode::AddingRepo(_) => false,
                _ => true,
            },
            Screen::RemoveRepos => match self.input_mode {
                InputMode::ConfirmDelete(_) => false,
                _ => true,
            },
            Screen::TimeDoctorSettings => match self.input_mode {
                InputMode::EditingField { .. } => false,
                _ => true,
            },
            Screen::ContractPeriods => match self.input_mode {
                InputMode::ConfirmDeletePeriod(_) | InputMode::EditingCpMonday(_)
                | InputMode::EditingCpHours(_) => false,
                _ => true,
            },
            _ => false,
        }
    }

    /// The value being cycled on the current screen, if any.
    pub fn current_cycle_target(&self) -> (r: Option<CycleTarget>)
        ensures
            r == self.cycling_target(),
    {
        match self.screen {
            Screen::SyncGeneralSettings | Screen::TdGeneralSettings => match self.input_mode {
                InputMode::SelectingTimezone(_) => Some(CycleTarget::Timezone),
                _ => None,
            },
            Screen::ContractPeriods => match self.input_mode {
                InputMode::EditingCpMonday(_) => Some(CycleTarget::CpMonday),
                InputMode::EditingCpHours(_) => Some(CycleTarget::CpHours),
                _ => None,
            },
            _ => None,
        }
    }

    /// Whether a move by `delta` on the current screen stays within what the
    /// list can index (see `can_navigate`).
    pub fn navigation_fits(&self, delta: i32) -> (b: bool)
        requires
            self.wf(),
        ensures
            b == self.can_navigate(delta as int),
    {
        let screen = self.screen;
        if list_slot(screen).is_none() {
            return false;
        }
        if screen == Screen::TimeDoctorSettings && self.td.password_is_set.is_none() {
            return false;
        }
        let repos = self.sync.repos.len();
        let periods = self.td.contract_periods.len();
        let n: usize = match screen {
            Screen::MainMenu => self.main_menu_items().len(),
            Screen::Settings => self.settings_items().len(),
            Screen::SyncGeneralSettings => 10,
            Screen::TdGeneralSettings => 7,
            Screen::RepoManager => {
                if repos >= usize::MAX - 7 {
                    return false;
                }
                repos + 7
            },
            Screen::RemoveRepos => {
                if repos >= usize::MAX - 3 {
                    return false;
                }
                repos + 3
            },
            Screen::TimeDoctorSettings => 5,
            Screen::ContractPeriods => {
                if periods >= usize::MAX - 11 {
                    return false;
                }
                periods + 11
            },
            _ => 0,
        };
        let cur = self.selected_index(screen);
        if cur == usize::MAX {
            return false;
        }
        screen == Screen::MainMenu || cur < n || (delta < 0 && cur == n)
    }

    /// Whether cycling `target` by `delta` keeps a date in range (see `can_cycle`).
    pub fn cycle_fits(&self, target: CycleTarget, delta: i32) -> (b: bool)
        requires
            self.wf(),
        ensures
            b == self.can_cycle(target, delta as int),
    {
        let step: i32 = if delta > 0 {
            7
        } else {
            -7
        };
        let day = match target {
            CycleTarget::CpMonday => self.add_cp.monday,
            CycleTarget::OwMonday => self.add_ow.monday,
            _ => return true,
        };
        let next: i64 = day as i64 + step as i64;
        MIN_DAY as i64 <= next && next <= MAX_DAY as i64
    }

    /// Whether `handle_key` can take `key` in this state (see `key_safe`).
    pub fn key_is_safe(&self, key: Key) -> (b: bool)
        requires
            self.wf(),
        ensures
            b == self.key_safe(key),
    {
        if self.td.password_is_set.is_none() {
            return false;
        }
        let listing = self.is_list_mode();
        if listing {
            match nav_delta(key) {
                Some(d) => if !self.navigation_fits(d) {
                    return false;
                },
                None => {},
            }
        }
        match self.current_cycle_target() {
            Some(t) => match cycle_delta(key) {
                Some(d) => if !self.cycle_fits(t, d) {
                    return false;
                },
                None => {},
            },
            None => {},
        }
        if self.screen == Screen::ContractPeriods && listing && is_activate(key) && self.selected_index(
            Screen::ContractPeriods,
        ) == usize::MAX {
            return false;
        }
        if self.screen == Screen::SyncProgress && key == Key::Down && self.sync_scroll == usize::MAX {
            return false;
        }
        if self.screen == Screen::TimeDoctorReport && nav_delta(key).is_some() {
            if self.td_report_scroll == usize::MAX {
                return false;
            }
            let fits = match &self.td_report {
                TdReportState::Ready { rows, .. } => {
                    proof {
                        vstd::std_specs::vec::axiom_spec_len(rows);
                    }
                    true
                },
                TdReportState::PartialReady { rows, pending, .. } => rows.len().checked_add(*pending).is_some(),
                _ => true,
            };
            return fits;
        }
        true
    }

    /// What `go_to` leaves behind.
    pub open spec fn post_go_to(self, next: Self, screen: Screen) -> bool {
        &&& next.selections@ == self.selections@.update(
            spec_list_slot(screen)->0,
            self.spec_first_target(screen) as usize,
        )
        &&& next == (App { screen, selections: next.selections, ..self })
    }

    /// Opens a list screen with its first selectable row selected.
    pub fn go_to(&mut self, screen: Screen)
        requires
            old(self).wf(),
            spec_list_slot(screen) is Some,
            old(self).rows_ready(screen),
        ensures
            final(self).wf(),
            old(self).post_go_to(*final(self), screen),
    {
        self.screen = screen;
        self.select_first_interactive(screen);
    }

    /// What `handle_list_nav` leaves behind.
    pub open spec fn post_list_nav(self, next: Self, key: Key, parent: Screen, r: Option<Action>) -> bool {
        match spec_nav_delta(key) {
            Some(d) => self.post_navigate_current(next, d) && r == Some(Action::Continue),
            None => if spec_is_back(key) {
                next == (App { screen: parent, ..self }) && r == Some(Action::Continue)
            } else if key == Key::Char('q') {
                next == self && r == Some(Action::Back)
            } else {
                next == self && r is None
            },
        }
    }

    /// The keys every list screen shares: movement, back to `parent`, quit.
    /// `None` leaves the key to the screen.
    pub fn handle_list_nav(&mut self, key: Key, parent: Screen) -> (r: Option<Action>)
        requires
            old(self).wf(),
            spec_nav_delta(key) is Some ==> old(self).can_navigate(spec_nav_delta(key)->0 as int),
        ensures
            final(self).wf(),
            old(self).post_list_nav(*final(self), key, parent, r),
    {
        match nav_delta(key) {
            Some(d) => {
                self.navigate_current(d);
                return Some(Action::Continue);
            },
            None => {},
        }
        if is_back(key) {
            self.screen = parent;
            return Some(Action::Continue);
        }
        if is_quit(key) {
            return Some(Action::Back);
        }
        None
    }

    /// What `handle_main` leaves behind.
    pub open spec fn post_handle_main(self, next: Self, key: Key, out: (Action, Effect)) -> bool {
        match spec_nav_delta(key) {
            Some(d) => self.post_navigate_current(next, d) && out == (
                Action::Continue,
                Effect::Nothing,
            ),
            None => if key == Key::Enter {
                match spec_row_at(
                    spec_main_menu_kinds(self.available_update),
                    self.spec_selected(Screen::MainMenu),
                ) {
                    None => next == self && out == (Action::Back, Effect::Nothing),
                    Some(MainMenuKind::Sync) => next == self && out == (
                        Action::StartSync,
                        Effect::Nothing,
                    ),
                    Some(MainMenuKind::TimeDoctor) => out.0 == Action::Continue
                        && self.post_launch_td_report(next, out.1),
                    Some(MainMenuKind::Update) => out.0 == Action::Continue
                        && self.post_launch_update(next, out.1),
                    Some(MainMenuKind::Settings) => self.post_go_to(next, Screen::Settings) && out
                        == (Action::Continue, Effect::Nothing),
                    Some(MainMenuKind::Exit) => next == self && out == (Action::Back, Effect::Nothing),
                }
            } else if spec_is_back(key) || key == Key::Char('q') {
                next == self && out == (Action::Back, Effect::Nothing)
            } else {
                next == self && out == (Action::Continue, Effect::Nothing)
            },
        }
    }

    /// Keys of the main menu.
    pub fn handle_main(&mut self, key: Key) -> (out: (Action, Effect))
        requires
            old(self).wf(),
            old(self).screen == Screen::MainMenu,
            old(self).key_safe(key),
        ensures
            final(self).wf(),
            old(self).post_handle_main(*final(self), key, out),
    {
        match nav_delta(key) {
            Some(d) => {
                self.navigate_current(d);
                return (Action::Continue, Effect::Nothing);
            },
            None => {},
        }
        if is_activate(key) {
            let i = self.selected_index(Screen::MainMenu);
            let items = self.main_menu_items();
            if i >= items.len() {
                return (Action::Back, Effect::Nothing);
            }
            match items[i].kind {
                MainMenuKind::Sync => (Action::StartSync, Effect::Nothing),
                MainMenuKind::TimeDoctor => {
                    let e = self.launch_td_report();
                    (Action::Continue, e)
                },
                MainMenuKind::Update => {
                    let e = self.launch_update();
                    (Action::Continue, e)
                },
                MainMenuKind::Settings => {
                    self.go_to(Screen::Settings);
                    (Action::Continue, Effect::Nothing)
                },
                MainMenuKind::Exit => (Action::Back, Effect::Nothing),
            }
        } else if is_back(key) || is_quit(key) {
            (Action::Back, Effect::Nothing)
        } else {
            (Action::Continue, Effect::Nothing)
        }
    }

    /// What `handle_settings` leaves behind.
    pub open spec fn post_handle_settings(self, next: Self, key: Key, out: (Action, Effect)) -> bool {
        if spec_list_key(key) {
            self.post_list_nav(next, key, Screen::MainMenu, Some(out.0)) && out.1 == Effect::Nothing
        } else {
            &&& out == (Action::Continue, Effect::Nothing)
            &&& if key != Key::Enter {
                next == self
            } else {
                match spec_row_at(spec_settings_items(), self.spec_selected(Screen::Settings)) {
                    Some(SettingRow::Back) => next == (App { screen: Screen::MainMenu, ..self }),
                    Some(SettingRow::SyncGeneralLink) => self.post_go_to(
                        next,
                        Screen::SyncGeneralSettings,
                    ),
                    Some(SettingRow::ManageRepos) => self.post_go_to(next, Screen::RepoManager),
                    Some(SettingRow::TdGeneralLink) => self.post_go_to(
                        next,
                        Screen::TdGeneralSettings,
                    ),
                    Some(SettingRow::TimeDoctorSettings) => self.post_go_to(
                        next,
                        Screen::TimeDoctorSettings,
                    ),
                    Some(SettingRow::ContractPeriodsLink) => self.post_go_to(
                        next,
                        Screen::ContractPeriods,
                    ),
                    _ => next == self,
                }
            }
        }
    }

    /// Keys of the settings menu.
    pub fn handle_settings(&mut self, key: Key) -> (out: (Action, Effect))
        requires
            old(self).wf(),
            old(self).screen == Screen::Settings,
            old(self).key_safe(key),
        ensures
            final(self).wf(),
            old(self).post_handle_settings(*final(self), key, out),
    {
        match self.handle_list_nav(key, Screen::MainMenu) {
            Some(a) => return (a, Effect::Nothing),
            None => {},
        }
        if is_activate(key) {
            let rows = self.settings_items();
            let i = self.selected_index(Screen::Settings);
            if i < rows.len() {
                match rows[i] {
                    SettingRow::Back => self.screen = Screen::MainMenu,
                    SettingRow::SyncGeneralLink => self.go_to(Screen::SyncGeneralSettings),
                    SettingRow::ManageRepos => self.go_to(Screen::RepoManager),
                    SettingRow::TdGeneralLink => self.go_to(Screen::TdGeneralSettings),
                    SettingRow::TimeDoctorSettings => self.go_to(Screen::TimeDoctorSettings),
                    SettingRow::ContractPeriodsLink => self.go_to(Screen::ContractPeriods),
                    _ => {},
                }
            }
        }
        (Action::Continue, Effect::Nothing)
    }

    /// What `handle_cycle` leaves behind.
    pub open spec fn post_handle_cycle(self, next: Self, key: Key, target: CycleTarget, out: (Action, Effect)) -> bool {
        match spec_cycle_delta(key) {
            Some(d) => out.0 == Action::Continue && self.post_cycle(next, target, d, out.1),
            None => if key == Key::Enter {
                next == (App { input_mode: InputMode::Normal, ..self }) && out == (
                    Action::Continue,
                    Effect::Nothing,
                )
            } else if spec_is_back(key) {
                out.0 == Action::Continue && self.post_cancel_cycle_edit(next, out.1)
            } else if key == Key::Char('q') {
                out.0 == Action::Back && self.post_cancel_cycle_edit(next, out.1)
            } else {
                next == self && out == (Action::Continue, Effect::Nothing)
            },
        }
    }

    /// Keys while a value is being cycled: arrows change it, Enter keeps it,
    /// Esc or Backspace restores the value the edit started from.
    pub fn handle_cycle(&mut self, key: Key, target: CycleTarget) -> (out: (Action, Effect))
        requires
            old(self).wf(),
            spec_cycle_delta(key) is Some ==> old(self).can_cycle(
                target,
                spec_cycle_delta(key)->0 as int,
            ),
        ensures
            final(self).wf(),
            old(self).post_handle_cycle(*final(self), key, target, out),
    {
        match cycle_delta(key) {
            Some(d) => {
                let e = self.cycle(target, d);
                return (Action::Continue, e);
            },
            None => {},
        }
        if is_activate(key) {
            self.input_mode = InputMode::Normal;
            (Action::Continue, Effect::Nothing)
        } else if is_back(key) {
            let e = self.cancel_cycle_edit();
            (Action::Continue, e)
        } else if is_quit(key) {
            let e = self.cancel_cycle_edit();
            (Action::Back, e)
        } else {
            (Action::Continue, Effect::Nothing)
        }
    }

    /// What `handle_general_toggles` leaves behind.
    pub open spec fn post_handle_general_toggles(self, next: Self, key: Key, out: (Action, Effect)) -> bool {
        if self.input_mode is SelectingTimezone {
            self.post_handle_cycle(next, key, CycleTarget::Timezone, out)
        } else if spec_list_key(key) {
            self.post_list_nav(next, key, Screen::Settings, Some(out.0)) && out.1 == Effect::Nothing
        } else if key != Key::Enter {
            next == self && out == (Action::Continue, Effect::Nothing)
        } else {
            &&& out.0 == Action::Continue
            &&& match spec_row_at(self.spec_general_rows(), self.spec_selected(self.screen)) {
                Some(GeneralToggleRow::Back) => next == (App { screen: Screen::Settings, ..self })
                    && out.1 == Effect::Nothing,
                Some(GeneralToggleRow::Toggle { kind, disabled, .. }) => if disabled {
                    next == self && out.1 == Effect::Nothing
                } else {
                    self.post_toggle_by_kind(next, kind, out.1)
                },
                Some(GeneralToggleRow::TimezoneSelector { .. }) => self.post_enter_cycle(
                    next,
                    CycleTarget::Timezone,
                ) && out.1 == Effect::Nothing,
                _ => next == self && out.1 == Effect::Nothing,
            }
        }
    }

    /// Keys of the two general settings screens: toggles flip, the
    /// timezone row starts cycling.
    pub fn handle_general_toggles(&mut self, key: Key) -> (out: (Action, Effect))
        requires
            old(self).wf(),
            old(self).screen == Screen::SyncGeneralSettings || old(self).screen
                == Screen::TdGeneralSettings,
            old(self).key_safe(key),
        ensures
            final(self).wf(),
            old(self).post_handle_general_toggles(*final(self), key, out),
    {
        match self.input_mode {
            InputMode::SelectingTimezone(_) => {
                return self.handle_cycle(key, CycleTarget::Timezone);
            },
            _ => {},
        }
        match self.handle_list_nav(key, Screen::Settings) {
            Some(a) => return (a, Effect::Nothing),
            None => {},
        }
        if !is_activate(key) {
            return (Action::Continue, Effect::Nothing);
        }
        let screen = self.screen;
        let rows = if screen == Screen::SyncGeneralSettings {
            self.sync_general_items()
        } else {
            self.td_general_items()
        };
        let i = self.selected_index(screen);
        if i < rows.len() {
            match &rows[i] {
                GeneralToggleRow::Back => {
                    self.screen = Screen::Settings;
                    (Action::Continue, Effect::Nothing)
                },
                GeneralToggleRow::Toggle { kind, disabled, .. } => {
                    if !*disabled {
                        let e = self.toggle_by_kind(*kind);
                        (Action::Continue, e)
                    } else {
                        (Action::Continue, Effect::Nothing)
                    }
                },
                GeneralToggleRow::TimezoneSelector { .. } => {
                    self.enter_cycle(CycleTarget::Timezone);
                    (Action::Continue, Effect::Nothing)
                },
                _ => (Action::Continue, Effect::Nothing),
            }
        } else {
            (Action::Continue, Effect::Nothing)
        }
    }

    /// What `handle_repo_input` leaves behind.
    pub open spec fn post_handle_repo_input(self, next: Self, key: Key, out: (Action, Effect)) -> bool {
        &&& out.0 == Action::Continue
        &&& match key {
            Key::Char(_) | Key::Backspace => {
                &&& spec_edited_mode(self.input_mode, next.input_mode, key)
                &&& next == (App { input_mode: next.input_mode, ..self })
                &&& out.1 == Effect::Nothing
            },
            Key::Enter => match self.input_mode {
                InputMode::AddingRepo(url) => (App {
                    input_mode: InputMode::Normal,
                    ..self
                }).post_add_repo_from_input(next, url, out.1),
                _ => false,
            },
            Key::Esc => next == (App { input_mode: InputMode::Normal, ..self }) && out.1
                == Effect::Nothing,
            _ => next == self && out.1 == Effect::Nothing,
        }
    }

    /// Keys while a repository URL is typed: Enter adds the repository,
    /// Esc abandons the entry.
    pub fn handle_repo_input(&mut self, key: Key) -> (out: (Action, Effect))
        requires
            old(self).wf(),
            old(self).input_mode is AddingRepo,
        ensures
            final(self).wf(),
            old(self).post_handle_repo_input(*final(self), key, out),
    {
        match key {
            Key::Char(_) | Key::Backspace => {
                let mut mode = InputMode::Normal;
                std::mem::swap(&mut mode, &mut self.input_mode);
                self.input_mode = edit_mode(mode, key);
                (Action::Continue, Effect::Nothing)
            },
            Key::Enter => {
                let mut mode = InputMode::Normal;
                std::mem::swap(&mut mode, &mut self.input_mode);
                let url = match mode {
                    InputMode::AddingRepo(url) => url,
                    _ => String::new(),
                };
                let e = self.add_repo_from_input(url);
                (Action::Continue, e)
            },
            Key::Esc => {
                self.input_mode = InputMode::Normal;
                (Action::Continue, Effect::Nothing)
            },
            _ => (Action::Continue, Effect::Nothing),
        }
    }

    /// What `handle_repo_manager` leaves behind.
    pub open spec fn post_handle_repo_manager(self, next: Self, key: Key, out: (Action, Effect)) -> bool {
        if spec_list_key(key) {
            self.post_list_nav(next, key, Screen::Settings, Some(out.0)) && out.1 == Effect::Nothing
        } else if key != Key::Enter {
            next == self && out == (Action::Continue, Effect::Nothing)
        } else {
            &&& out.0 == Action::Continue
            &&& match spec_row_at(
                spec_repo_manager_items(self.sync.repos@),
                self.spec_selected(Screen::RepoManager),
            ) {
                Some(RepoManagerRow::Back) => next == (App { screen: Screen::Settings, ..self })
                    && out.1 == Effect::Nothing,
                Some(RepoManagerRow::RepoToggle { name, .. }) => self.post_toggle_repo(
                    next,
                    name@,
                    out.1,
                ),
                Some(RepoManagerRow::AddUrl) => {
                    &&& next.input_mode matches InputMode::AddingRepo(buf)
                    &&& buf@.len() == 0
                    &&& next == (App { input_mode: next.input_mode, ..self })
                    &&& out.1 == Effect::Nothing
                },
                Some(RepoManagerRow::RemoveReposLink) => self.post_go_to(next, Screen::RemoveRepos)
                    && out.1 == Effect::Nothing,
                _ => next == self && out.1 == Effect::Nothing,
            }
        }
    }

    /// Keys of the repository list: toggle a repository, start typing a new
    /// URL, or open the removal list.
    pub fn handle_repo_manager(&mut self, key: Key) -> (out: (Action, Effect))
        requires
            old(self).wf(),
            old(self).screen == Screen::RepoManager,
            old(self).key_safe(key),
            old(self).list_mode(),
        ensures
            final(self).wf(),
            old(self).post_handle_repo_manager(*final(self), key, out),
    {
        match self.handle_list_nav(key, Screen::Settings) {
            Some(a) => return (a, Effect::Nothing),
            None => {},
        }
        if !is_activate(key) {
            return (Action::Continue, Effect::Nothing);
        }
        let rows = self.repo_manager_items();
        let i = self.selected_index(Screen::RepoManager);
        if i < rows.len() {
            match &rows[i] {
                RepoManagerRow::Back => {
                    self.screen = Screen::Settings;
                    (Action::Continue, Effect::Nothing)
                },
                RepoManagerRow::RepoToggle { name, .. } => {
                    let e = self.toggle_repo(name.as_str());
                    (Action::Continue, e)
                },
                RepoManagerRow::AddUrl => {
                    self.input_mode = InputMode::AddingRepo(String::new());
                    (Action::Continue, Effect::Nothing)
                },
                RepoManagerRow::RemoveReposLink => {
                    self.go_to(Screen::RemoveRepos);
                    (Action::Continue, Effect::Nothing)
                },
                _ => (Action::Continue, Effect::Nothing),
            }
        } else {
            (Action::Continue, Effect::Nothing)
        }
    }

    /// What `handle_remove_repos` leaves behind.
    pub open spec fn post_handle_remove_repos(self, next: Self, key: Key, out: (Action, Effect)) -> bool {
        if spec_list_key(key) {
            self.post_list_nav(next, key, Screen::RepoManager, Some(out.0)) && out.1
                == Effect::Nothing
        } else {
            &&& out == (Action::Continue, Effect::Nothing)
            &&& if key != Key::Enter {
                next == self
            } else {
                match spec_row_at(
                    spec_remove_repo_items(self.sync.repos@),
                    self.spec_selected(Screen::RemoveRepos),
                ) {
                    Some(RemoveRepoRow::Back) => next == (App {
                        screen: Screen::RepoManager,
                        ..self
                    }),
                    Some(RemoveRepoRow::RepoDelete { name, .. }) => self.post_confirm_delete_repo(
                        next,
                        name,
                    ),
                    _ => next == self,
                }
            }
        }
    }

    /// Keys of the removal list: choosing a repository asks for confirmation.
    pub fn handle_remove_repos(&mut self, key: Key) -> (out: (Action, Effect))
        requires
            old(self).wf(),
            old(self).screen == Screen::RemoveRepos,
            old(self).key_safe(key),
            old(self).list_mode(),
        ensures
            final(self).wf(),
            old(self).post_handle_remove_repos(*final(self), key, out),
    {
        match self.handle_list_nav(key, Screen::RepoManager) {
            Some(a) => return (a, Effect::Nothing),
            None => {},
        }
        if is_activate(key) {
            let rows = self.remove_repo_items();
            let i = self.selected_index(Screen::RemoveRepos);
            if i < rows.len() {
                match &rows[i] {
                    RemoveRepoRow::Back => self.screen = Screen::RepoManager,
                    RemoveRepoRow::RepoDelete { name, .. } => self.confirm_delete_repo(
                        name.clone(),
                    ),
                    _ => {},
                }
            }
        }
        (Action::Continue, Effect::Nothing)
    }

    /// What a yes/no confirmation leaves behind; `confirmed` says what
    /// confirming does.
    pub open spec fn post_yes_no(self, next: Self, key: Key, out: (Action, Effect), confirmed: bool) -> bool {
        &&& out.0 == Action::Continue
        &&& if spec_is_yes(key) {
            confirmed
        } else if spec_is_no(key) {
            next == (App { input_mode: InputMode::Normal, ..self }) && out.1 == Effect::Nothing
        } else {
            next == self && out.1 == Effect::Nothing
        }
    }

    /// What `handle_confirm_delete_repo` leaves behind.
    pub open spec fn post_handle_confirm_delete_repo(self, next: Self, key: Key, out: (Action, Effect)) -> bool {
        self.post_yes_no(
            next,
            key,
            out,
            match self.input_mode {
                InputMode::ConfirmDelete(name) => self.post_execute_delete_repo(next, name@, out.1),
                _ => false,
            },
        )
    }

    /// Keys of the confirmation to remove a repository.
    pub fn handle_confirm_delete_repo(&mut self, key: Key) -> (out: (Action, Effect))
        requires
            old(self).wf(),
            old(self).input_mode is ConfirmDelete,
        ensures
            final(self).wf(),
            old(self).post_handle_confirm_delete_repo(*final(self), key, out),
    {
        if is_yes(key) {
            let name = match &self.input_mode {
                InputMode::ConfirmDelete(name) => name.clone(),
                _ => String::new(),
            };
            let e = self.execute_delete_repo(name.as_str());
            (Action::Continue, e)
        } else if is_no(key) {
            self.input_mode = InputMode::Normal;
            (Action::Continue, Effect::Nothing)
        } else {
            (Action::Continue, Effect::Nothing)
        }
    }

    /// What `handle_confirm_delete_period` leaves behind.
    pub open spec fn post_handle_confirm_delete_period(self, next: Self, key: Key, out: (Action, Effect)) -> bool {
        self.post_yes_no(
            next,
            key,
            out,
            match self.input_mode {
                InputMode::ConfirmDeletePeriod(i) => self.post_execute_delete_period(next, i, out.1),
                _ => false,
            },
        )
    }

    /// Keys of the confirmation to remove a contract period.
    pub fn handle_confirm_delete_period(&mut self, key: Key) -> (out: (Action, Effect))
        requires
            old(self).wf(),
            old(self).input_mode is ConfirmDeletePeriod,
        ensures
            final(self).wf(),
            old(self).post_handle_confirm_delete_period(*final(self), key, out),
    {
        if is_yes(key) {
            let index = match self.input_mode {
                InputMode::ConfirmDeletePeriod(i) => i,
                _ => 0,
            };
            let e = self.execute_delete_period(index);
            (Action::Continue, e)
        } else if is_no(key) {
            self.input_mode = InputMode::Normal;
            (Action::Continue, Effect::Nothing)
        } else {
            (Action::Continue, Effect::Nothing)
        }
    }

    /// What `handle_td_settings` leaves behind. Moving, going back and
    /// quitting dismiss the last credentials error, as does choosing a row;
    /// other keys leave it shown.
    pub open spec fn post_handle_td_settings(self, next: Self, key: Key, out: (Action, Effect)) -> bool {
        let cleared = App { auth_error: None, ..self };
        if spec_list_key(key) {
            cleared.post_list_nav(next, key, Screen::Settings, Some(out.0)) && out.1
                == Effect::Nothing
        } else {
            &&& out == (Action::Continue, Effect::Nothing)
            &&& if key != Key::Enter {
                next == self
            } else {
                match spec_row_at(
                    spec_td_settings_items(self.td.email, self.td.password_is_set->0),
                    self.spec_selected(Screen::TimeDoctorSettings),
                ) {
                    Some(TimeSettingRow::Back) => next == (App {
                        screen: Screen::Settings,
                        ..cleared
                    }),
                    Some(TimeSettingRow::EditField { field, value, .. }) => next == (App {
                        input_mode: InputMode::EditingField { field, buf: value },
                        ..cleared
                    }),
                    Some(TimeSettingRow::Password { .. }) => {
                        &&& next.input_mode matches InputMode::EditingField { field, buf }
                        &&& field == TimeDoctorField::Password
                        &&& buf@.len() == 0
                        &&& next == (App { input_mode: next.input_mode, ..cleared })
                    },
                    _ => next == cleared,
                }
            }
        }
    }

    /// Keys of the credentials screen: choosing the e-mail edits it in
    /// place, choosing the password starts an empty entry.
    pub fn handle_td_settings(&mut self, key: Key) -> (out: (Action, Effect))
        requires
            old(self).wf(),
            old(self).screen == Screen::TimeDoctorSettings,
            old(self).key_safe(key),
            old(self).list_mode(),
        ensures
            final(self).wf(),
            old(self).post_handle_td_settings(*final(self), key, out),
    {
        let list_key = nav_delta(key).is_some() || is_back(key) || is_quit(key);
        if list_key {
            self.auth_error = None;
            return match self.handle_list_nav(key, Screen::Settings) {
                Some(a) => (a, Effect::Nothing),
                None => (Action::Continue, Effect::Nothing),
            };
        }
        if !is_activate(key) {
            return (Action::Continue, Effect::Nothing);
        }
        self.auth_error = None;
        let rows = self.td_settings_items();
        let i = self.selected_index(Screen::TimeDoctorSettings);
        if i < rows.len() {
            match &rows[i] {
                TimeSettingRow::Back => self.screen = Screen::Settings,
                TimeSettingRow::EditField { field, value, .. } => {
                    self.input_mode = InputMode::EditingField { field: *field, buf: value.clone() };
                },
                TimeSettingRow::Password { .. } => {
                    self.input_mode = InputMode::EditingField {
                        field: TimeDoctorField::Password,
                        buf: String::new(),
                    };
                },
                _ => {},
            }
        }
        (Action::Continue, Effect::Nothing)
    }

    /// What `handle_td_field_input` leaves behind.
    pub open spec fn post_handle_td_field_input(self, next: Self, key: Key, out: (Action, Effect)) -> bool {
        &&& out.0 == Action::Continue
        &&& match key {
            Key::Char(_) | Key::Backspace => {
                &&& spec_edited_mode(self.input_mode, next.input_mode, key)
                &&& next == (App { input_mode: next.input_mode, ..self })
                &&& out.1 == Effect::Nothing
            },
            Key::Enter => match self.input_mode {
                InputMode::EditingField { field, buf } => {
                    let mid = App { input_mode: InputMode::Normal, ..self };
                    if field == TimeDoctorField::Email {
                        if spec_is_valid_email(buf@) {
                            &&& next == (App {
                                td: (TimeSettings { email: buf, ..self.td }),
                                ..mid
                            })
                            &&& out.1 == Effect::ForgetTokenAndSaveTime
                        } else {
                            &&& next.auth_error matches Some(m)
                            &&& m@ == INVALID_EMAIL@
                            &&& next == (App { auth_error: next.auth_error, ..mid })
                            &&& out.1 == Effect::Nothing
                        }
                    } else {
                        mid.post_set_td_password(next, buf, out.1)
                    }
                },
                _ => false,
            },
            Key::Esc => next == (App { input_mode: InputMode::Normal, ..self }) && out.1
                == Effect::Nothing,
            _ => next == self && out.1 == Effect::Nothing,
        }
    }

    /// Keys while a credential is typed. Enter saves it: a valid e-mail
    /// replaces the stored one (and the session token is forgotten), a
    /// password goes to the keychain; Esc abandons the entry.
    pub fn handle_td_field_input(&mut self, key: Key) -> (out: (Action, Effect))
        requires
            old(self).wf(),
            old(self).input_mode is EditingField,
        ensures
            final(self).wf(),
            old(self).post_handle_td_field_input(*final(self), key, out),
    {
        match key {
            Key::Char(_) | Key::Backspace => {
                let mut mode = InputMode::Normal;
                std::mem::swap(&mut mode, &mut self.input_mode);
                self.input_mode = edit_mode(mode, key);
                (Action::Continue, Effect::Nothing)
            },
            Key::Enter => {
                let mut mode = InputMode::Normal;
                std::mem::swap(&mut mode, &mut self.input_mode);
                match mode {
                    InputMode::EditingField { field, buf } => {
                        match field {
                            TimeDoctorField::Email => {
                                if !is_valid_email(buf.as_str()) {
                                    self.auth_error = Some(owned(INVALID_EMAIL));
                                    (Action::Continue, Effect::Nothing)
                                } else {
                                    self.td.email = buf;
                                    (Action::Continue, Effect::ForgetTokenAndSaveTime)
                                }
                            },
                            TimeDoctorField::Password => {
                                let e = self.set_td_password(buf);
                                (Action::Continue, e)
                            },
                        }
                    },
                    _ => (Action::Continue, Effect::Nothing),
                }
            },
            Key::Esc => {
                self.input_mode = InputMode::Normal;
                (Action::Continue, Effect::Nothing)
            },
            _ => (Action::Continue, Effect::Nothing),
        }
    }

    /// What `handle_contract_periods` leaves behind.
    pub open spec fn post_handle_contract_periods(self, next: Self, key: Key, out: (Action, Effect)) -> bool {
        if spec_list_key(key) {
            self.post_list_nav(next, key, Screen::Settings, Some(out.0)) && out.1 == Effect::Nothing
        } else if key != Key::Enter {
            next == self && out == (Action::Continue, Effect::Nothing)
        } else {
            &&& out.0 == Action::Continue
            &&& match spec_row_at(
                spec_cp_list_items(self.td.contract_periods@),
                self.spec_selected(Screen::ContractPeriods),
            ) {
                Some(CpListRow::Back) => next == (App { screen: Screen::Settings, ..self }) && out.1
                    == Effect::Nothing,
                Some(CpListRow::MondayField) => self.post_enter_cycle(next, CycleTarget::CpMonday)
                    && out.1 == Effect::Nothing,
                Some(CpListRow::HoursField) => self.post_enter_cycle(next, CycleTarget::CpHours)
                    && out.1 == Effect::Nothing,
                Some(CpListRow::SavePeriod) => self.post_save_new_contract_period(next, out.1),
                Some(CpListRow::Period { index, .. }) => self.post_confirm_delete_period(
                    next,
                    index,
                ) && out.1 == Effect::Nothing,
                _ => next == self && out.1 == Effect::Nothing,
            }
        }
    }

    /// Keys of the contract-period list: edit the form's fields, save it, or
    /// choose a period to remove.
    pub fn handle_contract_periods(&mut self, key: Key) -> (out: (Action, Effect))
        requires
            old(self).wf(),
            old(self).screen == Screen::ContractPeriods,
            old(self).key_safe(key),
            old(self).list_mode(),
        ensures
            final(self).wf(),
            old(self).post_handle_contract_periods(*final(self), key, out),
    {
        match self.handle_list_nav(key, Screen::Settings) {
            Some(a) => return (a, Effect::Nothing),
            None => {},
        }
        if !is_activate(key) {
            return (Action::Continue, Effect::Nothing);
        }
        let rows = self.cp_list_items();
        let i = self.selected_index(Screen::ContractPeriods);
        if i < rows.len() {
            match rows[i] {
                CpListRow::Back => {
                    self.screen = Screen::Settings;
                    (Action::Continue, Effect::Nothing)
                },
                CpListRow::MondayField => {
                    self.enter_cycle(CycleTarget::CpMonday);
                    (Action::Continue, Effect::Nothing)
                },
                CpListRow::HoursField => {
                    self.enter_cycle(CycleTarget::CpHours);
                    (Action::Continue, Effect::Nothing)
                },
                CpListRow::SavePeriod => {
                    let e = self.save_new_contract_period();
                    (Action::Continue, e)
                },
                CpListRow::Period { index, .. } => {
                    self.confirm_delete_period(index);
                    (Action::Continue, Effect::Nothing)
                },
                _ => (Action::Continue, Effect::Nothing),
            }
        } else {
            (Action::Continue, Effect::Nothing)
        }
    }

    /// What `handle_sync_progress` leaves behind.
    pub open spec fn post_handle_sync_progress(self, next: Self, key: Key, out: (Action, Effect)) -> bool {
        let total = match self.sync_state {
            Some(st) => st.repos@.len() as int,
            None => 0,
        };
        if key == Key::Up {
            next == (App {
                sync_scroll: spec_clamp_scroll(self.sync_scroll as int, -1, total, SYNC_VISIBLE_ROWS as int) as usize,
                ..self
            }) && out == (Action::Continue, Effect::Nothing)
        } else if key == Key::Down {
            next == (App {
                sync_scroll: spec_clamp_scroll(self.sync_scroll as int, 1, total, SYNC_VISIBLE_ROWS as int) as usize,
                ..self
            }) && out == (Action::Continue, Effect::Nothing)
        } else if key == Key::Enter && !spec_sync_finished(self.sync_state) {
            next == self && out == (Action::Continue, Effect::Nothing)
        } else if key == Key::Enter || spec_is_back(key) {
            &&& next == (App {
                sync_state: None,
                sync_scroll: 0,
                screen: Screen::MainMenu,
                ..self
            })
            &&& out == (
                Action::Continue,
                if self.sync_state is Some {
                    Effect::StopSync
                } else {
                    Effect::Nothing
                },
            )
        } else if key == Key::Char('q') {
            next == self && out == (Action::Back, Effect::Nothing)
        } else {
            next == self && out == (Action::Continue, Effect::Nothing)
        }
    }

    /// Keys of the sync progress screen: scroll the table; once the sync is
    /// over (or to abandon it) Enter, Esc or Backspace close it.
    pub fn handle_sync_progress(&mut self, key: Key) -> (out: (Action, Effect))
        requires
            old(self).wf(),
            old(self).screen == Screen::SyncProgress,
            old(self).key_safe(key),
        ensures
            final(self).wf(),
            old(self).post_handle_sync_progress(*final(self), key, out),
    {
        let running = !self.sync_is_complete();
        let total: usize = match &self.sync_state {
            Some(st) => st.repos.len(),
            None => 0,
        };
        match key {
            Key::Up => {
                self.sync_scroll = clamp_scroll(self.sync_scroll, -1, total, SYNC_VISIBLE_ROWS);
                (Action::Continue, Effect::Nothing)
            },
            Key::Down => {
                self.sync_scroll = clamp_scroll(self.sync_scroll, 1, total, SYNC_VISIBLE_ROWS);
                (Action::Continue, Effect::Nothing)
            },
            Key::Enter | Key::Esc | Key::Backspace => {
                if running && is_activate(key) {
                    return (Action::Continue, Effect::Nothing);
                }
                let e = self.cancel_sync();
                self.sync_scroll = 0;
                self.screen = Screen::MainMenu;
                (Action::Continue, e)
            },
            _ => {
                if is_quit(key) {
                    (Action::Back, Effect::Nothing)
                } else {
                    (Action::Continue, Effect::Nothing)
                }
            },
        }
    }

    /// What `handle_td_report` leaves behind.
    pub open spec fn post_handle_td_report(self, next: Self, key: Key, out: (Action, Effect)) -> bool {
        match spec_nav_delta(key) {
            Some(d) => next == (App {
                td_report_scroll: spec_clamp_scroll(
                    self.td_report_scroll as int,
                    d as int,
                    spec_report_total(self.td_report),
                    TD_REPORT_VISIBLE_ROWS as int,
                ) as usize,
                ..self
            }) && out == (Action::Continue, Effect::Nothing),
            None => if key == Key::Enter {
                &&& out == (Action::Continue, Effect::Nothing)
                &&& match self.td_report {
                    TdReportState::NoPeriods => next == (App {
                        screen: Screen::ContractPeriods,
                        ..self
                    }),
                    TdReportState::NoCredentials(_) => next == (App {
                        screen: Screen::TimeDoctorSettings,
                        ..self
                    }),
                    TdReportState::Ready { .. } | TdReportState::PartialReady { .. } => next == (App {
                        screen: Screen::MainMenu,
                        ..self
                    }),
                    _ => next == self,
                }
            } else if spec_is_back(key) {
                next == (App { screen: Screen::MainMenu, ..self }) && out == (
                    Action::Continue,
                    Effect::Nothing,
                )
            } else if key == Key::Char('q') {
                next == self && out == (Action::Back, Effect::Nothing)
            } else {
                next == self && out == (Action::Continue, Effect::Nothing)
            },
        }
    }

    /// Keys of the report screen: arrows scroll the table; Enter goes where
    /// the screen's message points (contract periods, credentials) or back
    /// to the main menu.
    pub fn handle_td_report(&mut self, key: Key) -> (out: (Action, Effect))
        requires
            old(self).wf(),
            old(self).screen == Screen::TimeDoctorReport,
            old(self).key_safe(key),
        ensures
            final(self).wf(),
            old(self).post_handle_td_report(*final(self), key, out),
    {
        match nav_delta(key) {
            Some(d) => {
                let total: usize = match &self.td_report {
                    TdReportState::Ready { rows, .. } => rows.len(),
                    TdReportState::PartialReady { rows, pending, .. } => rows.len() + *pending,
                    _ => 0,
                };
                self.td_report_scroll = clamp_scroll(
                    self.td_report_scroll,
                    d,
                    total,
                    TD_REPORT_VISIBLE_ROWS,
                );
                return (Action::Continue, Effect::Nothing);
            },
            None => {},
        }
        if is_activate(key) {
            match &self.td_report {
                TdReportState::NoPeriods => self.screen = Screen::ContractPeriods,
                TdReportState::NoCredentials(_) => self.screen = Screen::TimeDoctorSettings,
                TdReportState::Ready { .. } | TdReportState::PartialReady { .. } => {
                    self.screen = Screen::MainMenu;
                },
                _ => {},
            }
            (Action::Continue, Effect::Nothing)
        } else if is_back(key) {
            self.screen = Screen::MainMenu;
            (Action::Continue, Effect::Nothing)
        } else if is_quit(key) {
            (Action::Back, Effect::Nothing)
        } else {
            (Action::Continue, Effect::Nothing)
        }
    }

    /// What `handle_update_progress` leaves behind.
    pub open spec fn post_handle_update_progress(self, next: Self, key: Key, out: (Action, Effect)) -> bool {
        let running = match self.update_state {
            Some(st) => !st.phase.spec_is_terminal(),
            None => false,
        };
        let succeeded = match self.update_state {
            Some(st) => st.phase is Done,
            None => false,
        };
        let stop = if self.update_state is Some {
            Effect::StopUpdate
        } else {
            Effect::Nothing
        };
        if key == Key::Enter && running {
            next == self && out == (Action::Continue, Effect::Nothing)
        } else if key == Key::Enter || spec_is_back(key) {
            if succeeded {
                next == (App { update_state: None, ..self }) && out == (Action::Restart, stop)
            } else {
                next == (App { update_state: None, screen: Screen::MainMenu, ..self }) && out == (
                    Action::Continue,
                    stop,
                )
            }
        } else if key == Key::Char('q') {
            next == self && out == (Action::Back, Effect::Nothing)
        } else {
            next == self && out == (Action::Continue, Effect::Nothing)
        }
    }

    /// Keys of the update screen: once the updater is done, Enter, Esc or
    /// Backspace close it, restarting into the new version after a
    /// successful update.
    pub fn handle_update_progress(&mut self, key: Key) -> (out: (Action, Effect))
        requires
            old(self).wf(),
            old(self).screen == Screen::UpdateProgress,
        ensures
            final(self).wf(),
            old(self).post_handle_update_progress(*final(self), key, out),
    {
        let running = !self.update_is_terminal();
        let succeeded = match &self.update_state {
            Some(st) => match st.phase {
                UpdatePhase::Done(_) => true,
                _ => false,
            },
            None => false,
        };
        if is_activate(key) && running {
            (Action::Continue, Effect::Nothing)
        } else if is_activate(key) || is_back(key) {
            let e = self.cancel_update();
            if succeeded {
                return (Action::Restart, e);
            }
            self.screen = Screen::MainMenu;
            (Action::Continue, e)
        } else if is_quit(key) {
            (Action::Back, Effect::Nothing)
        } else {
            (Action::Continue, Effect::Nothing)
        }
    }

    /// What `handle_key` leaves behind: the handler of the current screen
    /// (and of the entry or confirmation in progress there) decides.
    pub open spec fn post_handle_key(self, next: Self, key: Key, out: (Action, Effect)) -> bool {
        match self.screen {
            Screen::MainMenu => self.post_handle_main(next, key, out),
            Screen::Settings => self.post_handle_settings(next, key, out),
            Screen::SyncGeneralSettings | Screen::TdGeneralSettings => self.post_handle_general_toggles(
                next,
                key,
                out,
            ),
            Screen::RepoManager => match self.input_mode {
                InputMode::AddingRepo(_) => self.post_handle_repo_input(next, key, out),
                _ => self.post_handle_repo_manager(next, key, out),
            },
            Screen::RemoveRepos => match self.input_mode {
                InputMode::ConfirmDelete(_) => self.post_handle_confirm_delete_repo(next, key, out),
                _ => self.post_handle_remove_repos(next, key, out),
            },
            Screen::TimeDoctorSettings => match self.input_mode {
                InputMode::EditingField { .. } => self.post_handle_td_field_input(next, key, out),
                _ => self.post_handle_td_settings(next, key, out),
            },
            Screen::ContractPeriods => match self.input_mode {
                InputMode::ConfirmDeletePeriod(_) => self.post_handle_confirm_delete_period(
                    next,
                    key,
                    out,
                ),
                InputMode::EditingCpMonday(_) => self.post_handle_cycle(
                    next,
                    key,
                    CycleTarget::CpMonday,
                    out,
                ),
                InputMode::EditingCpHours(_) => self.post_handle_cycle(
                    next,
                    key,
                    CycleTarget::CpHours,
                    out,
                ),
                _ => self.post_handle_contract_periods(next, key, out),
            },
            Screen::SyncProgress => self.post_handle_sync_progress(next, key, out),
            Screen::TimeDoctorReport => self.post_handle_td_report(next, key, out),
            Screen::UpdateProgress => self.post_handle_update_progress(next, key, out),
        }
    }

    /// Handles one key press on whatever is shown.
    pub fn handle_key(&mut self, key: Key) -> (out: (Action, Effect))
        requires
            old(self).wf(),
            old(self).key_safe(key),
        ensures
            final(self).wf(),
            old(self).post_handle_key(*final(self), key, out),
    {
        match self.screen {
            Screen::MainMenu => self.handle_main(key),
            Screen::Settings => self.handle_settings(key),
            Screen::SyncGeneralSettings | Screen::TdGeneralSettings => self.handle_general_toggles(
                key,
            ),
            Screen::RepoManager => match self.input_mode {
                InputMode::AddingRepo(_) => self.handle_repo_input(key),
                _ => self.handle_repo_manager(key),
            },
            Screen::RemoveRepos => match self.input_mode {
                InputMode::ConfirmDelete(_) => self.handle_confirm_delete_repo(key),
                _ => self.handle_remove_repos(key),
            },
            Screen::TimeDoctorSettings => match self.input_mode {
                InputMode::EditingField { .. } => self.handle_td_field_input(key),
                _ => self.handle_td_settings(key),
            },
            Screen::ContractPeriods => match self.input_mode {
                InputMode::ConfirmDeletePeriod(_) => self.handle_confirm_delete_period(key),
                InputMode::EditingCpMonday(_) => self.handle_cycle(key, CycleTarget::CpMonday),
                InputMode::EditingCpHours(_) => self.handle_cycle(key, CycleTarget::CpHours),
                _ => self.handle_contract_periods(key),
            },
            Screen::SyncProgress => self.handle_sync_progress(key),
            Screen::TimeDoctorReport => self.handle_td_report(key),
            Screen::UpdateProgress => self.handle_update_progress(key),
        }
    }

    /// What `cancel_running` leaves behind.
    pub open spec fn post_cancel_running(self, next: Self, r: Effect) -> bool {
        match self.screen {
            Screen::SyncProgress => self.post_cancel_sync(next, r),
            Screen::UpdateProgress => self.post_cancel_update(next, r),
            _ => next == self && r == Effect::Nothing,
        }
    }

    /// Before leaving the program: a sync or update shown on screen is
    /// stopped.
    pub fn cancel_running(&mut self) -> (r: Effect)
        requires
            old(self).wf(),
        ensures
            final(self).wf(),
            old(self).post_cancel_running(*final(self), r),
    {
        match self.screen {
            Screen::SyncProgress => self.cancel_sync(),
            Screen::UpdateProgress => self.cancel_update(),
            _ => Effect::Nothing,
        }
    }
}

} // verus!
