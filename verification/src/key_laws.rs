//! What particular keys do on the screens that offer them, stated over the
//! state before and after the key.
use vstd::prelude::*;

use crate::app::{App, Effect, TdReportState, TIMEZONE_COUNT, WEEKLY_HOURS_OPTION_COUNT};
use crate::builders::spec_sync_general_items;
use crate::input::{spec_row_at, Action, Key};
use crate::rows::{CycleTarget, GeneralToggleRow, InputMode, ToggleKind};
use crate::screen::Screen;
use crate::sync_state::{
    spec_sync_finished, ForkStatus, RdsStatus, RepoSyncState, SyncPhase, SyncScreenState,
    SyncUpdate,
};

verus! {

/// The fork-sync half of a repository has stopped: it finished, had nothing
/// to do, was skipped, or failed.
pub open spec fn fork_stopped(s: ForkStatus) -> bool {
    s is Done || s is UpToDate || s is Skipped || s is Error
}

/// The RDS half of a repository has stopped: it finished, was skipped,
/// failed, or was refused by the network.
pub open spec fn rds_stopped(s: RdsStatus) -> bool {
    s is Done || s is Skipped || s is Error || s is IpDenied
}

/// A repository is complete exactly when both halves of its sync have
/// stopped; a failed fork sync counts as stopped, so it does not keep the
/// repository running.
pub proof fn law_repo_complete_when_both_halves_stop(r: RepoSyncState)
    ensures
        r.spec_is_complete() <==> fork_stopped(r.fork_status) && rds_stopped(r.rds_status),
        r.fork_status is Error && rds_stopped(r.rds_status) ==> r.spec_is_complete(),
{
}

/// A running sync is finished exactly when every repository has stopped
/// both halves, whatever their outcome (errors included).
pub proof fn law_sync_finished_when_all_stopped(st: SyncScreenState)
    requires
        st.phase is Syncing,
    ensures
        spec_sync_finished(Some(st)) <==> forall|i: int|
            0 <= i < st.repos@.len() ==> fork_stopped(#[trigger] st.repos@[i].fork_status)
                && rds_stopped(st.repos@[i].rds_status),
{
    assert forall|i: int| 0 <= i < st.repos@.len() implies (#[trigger] st.repos@[i]).spec_is_complete()
        == (fork_stopped(st.repos@[i].fork_status) && rds_stopped(st.repos@[i].rds_status)) by {
        law_repo_complete_when_both_halves_stop(st.repos@[i]);
    }
}

/// A sync of one repository whose fork sync fails and whose RDS sync then
/// completes is finished, and Enter on its screen goes back to the main
/// menu, stopping the sync.
pub proof fn law_failed_fork_sync_finishes<R>(
    a: App<R>,
    b: App<R>,
    c: App<R>,
    d: App<R>,
    msg: String,
    now1: std::time::Instant,
    now2: std::time::Instant,
    out: (Action, Effect),
)
    requires
        a.sync_state matches Some(st) && st.phase is Syncing && st.repos@.len() == 1,
        a.post_apply_sync_update(b, SyncUpdate::Fork(0, ForkStatus::Error(msg)), now1),
        b.post_apply_sync_update(c, SyncUpdate::Rds(0, RdsStatus::Done), now2),
        c.screen == Screen::SyncProgress,
        c.post_handle_key(d, Key::Enter, out),
    ensures
        spec_sync_finished(c.sync_state),
        d.screen == Screen::MainMenu,
        d.sync_state is None,
        out == (Action::Continue, Effect::StopSync),
{
    let st = c.sync_state->0;
    assert(st.repos@[0].fork_status is Error);
    assert(st.repos@[0].rds_status is Done);
}

/// Enter on the report screen goes where its message points: to the
/// contract-period editor when no period is set, to the credentials when
/// they are missing, back to the main menu from a report; nothing else
/// changes.
pub proof fn law_report_enter_follows_message<R>(a: App<R>, b: App<R>, out: (Action, Effect))
    requires
        a.screen == Screen::TimeDoctorReport,
        a.post_handle_key(b, Key::Enter, out),
    ensures
        out == (Action::Continue, Effect::Nothing),
        a.td_report is NoPeriods ==> b == (App { screen: Screen::ContractPeriods, ..a }),
        a.td_report is NoCredentials ==> b == (App { screen: Screen::TimeDoctorSettings, ..a }),
        (a.td_report is Ready || a.td_report is PartialReady) ==> b == (App {
            screen: Screen::MainMenu,
            ..a
        }),
        (a.td_report is Loading || a.td_report is Error) ==> b == a,
{
}

/// Esc and Backspace leave the report for the main menu; `q` leaves the
/// program.
pub proof fn law_report_back_keys<R>(a: App<R>, b: App<R>, key: Key, out: (Action, Effect))
    requires
        a.screen == Screen::TimeDoctorReport,
        a.post_handle_key(b, key, out),
    ensures
        (key == Key::Esc || key == Key::Backspace) ==> b == (App { screen: Screen::MainMenu, ..a })
            && out == (Action::Continue, Effect::Nothing),
        key == Key::Char('q') ==> b == a && out == (Action::Back, Effect::Nothing),
{
}

/// Whether a key moves a cycled value forward (Up, Right) or back (Down,
/// Left); other keys do not cycle.
pub open spec fn cycles_forward(key: Key) -> bool {
    key == Key::Up || key == Key::Right
}

pub open spec fn cycles_back(key: Key) -> bool {
    key == Key::Down || key == Key::Left
}

/// The arrows cycle a value: Up and Right to the next timezone, the next
/// hour target or a week later; Down and Left to the previous one or a week
/// earlier, wrapping round the lists.
pub proof fn law_arrows_cycle_values<R>(
    a: App<R>,
    b: App<R>,
    key: Key,
    target: CycleTarget,
    out: (Action, Effect),
)
    requires
        a.wf(),
        cycles_forward(key) || cycles_back(key),
        a.post_handle_cycle(b, key, target, out),
    ensures
        target == CycleTarget::Timezone ==> b.td.timezone_idx == if cycles_forward(key) {
            (a.td.timezone_idx + 1) % (TIMEZONE_COUNT as int)
        } else {
            (a.td.timezone_idx + TIMEZONE_COUNT - 1) % (TIMEZONE_COUNT as int)
        },
        target == CycleTarget::CpMonday ==> b.add_cp.monday == a.add_cp.monday + if cycles_forward(
            key,
        ) {
            7int
        } else {
            -7int
        },
        target == CycleTarget::CpHours ==> b.add_cp.hours_idx == if cycles_forward(key) {
            (a.add_cp.hours_idx + 1) % (WEEKLY_HOURS_OPTION_COUNT as int)
        } else {
            (a.add_cp.hours_idx + WEEKLY_HOURS_OPTION_COUNT - 1) % (
            WEEKLY_HOURS_OPTION_COUNT as int)
        },
{
}

/// A step forward then a step back leaves a cycled value where it was.
pub proof fn law_up_then_down_restores<R>(
    a: App<R>,
    b: App<R>,
    c: App<R>,
    target: CycleTarget,
    o1: (Action, Effect),
    o2: (Action, Effect),
)
    requires
        a.wf(),
        target != CycleTarget::OwMonday,
        a.post_handle_cycle(b, Key::Up, target, o1),
        b.post_handle_cycle(c, Key::Down, target, o2),
    ensures
        c == a,
{
    if target == CycleTarget::Timezone {
        assert(((a.td.timezone_idx + 1) % 15 + 15 - 1) % 15 == a.td.timezone_idx);
    } else if target == CycleTarget::CpHours {
        assert(((a.add_cp.hours_idx + 1) % 4 + 4 - 1) % 4 == a.add_cp.hours_idx);
    }
}

/// In the confirmation to remove a repository, Enter, `y` and `Y` remove
/// every repository of that name and keep all others, close the dialog and
/// ask to save; Esc, `n` and `N` close it and change nothing else.
pub proof fn law_yes_removes_no_keeps<R>(a: App<R>, b: App<R>, key: Key, out: (Action, Effect))
    requires
        a.screen == Screen::RemoveRepos,
        a.input_mode is ConfirmDelete,
        a.post_handle_key(b, key, out),
    ensures
        (key == Key::Enter || key == Key::Char('y') || key == Key::Char('Y')) ==> {
            let name = a.input_mode->ConfirmDelete_0@;
            &&& forall|i: int|
                0 <= i < b.sync.repos@.len() ==> (#[trigger] b.sync.repos@[i]).name@ != name
            &&& forall|r: crate::app::UpstreamRepo|
                a.sync.repos@.contains(r) && r.name@ != name ==> b.sync.repos@.contains(r)
            &&& forall|r: crate::app::UpstreamRepo|
                b.sync.repos@.contains(r) ==> a.sync.repos@.contains(r)
            &&& b.input_mode is Normal
            &&& out == (Action::Continue, Effect::SaveSyncSettings)
        },
        (key == Key::Esc || key == Key::Char('n') || key == Key::Char('N')) ==> b == (App {
            input_mode: InputMode::Normal,
            ..a
        }) && out == (Action::Continue, Effect::Nothing),
{
    crate::laws::law_remove_repo_exact(a.sync.repos@, a.input_mode->ConfirmDelete_0@);
}

/// What the period confirmation leaves behind for a key: see the law below.
pub open spec fn period_dialog_outcome<R>(a: App<R>, b: App<R>, key: Key, out: (Action, Effect)) -> bool {
    &&& (key == Key::Enter || key == Key::Char('y') || key == Key::Char('Y')) ==> {
        let i = a.input_mode->ConfirmDeletePeriod_0 as int;
        let ps = a.td.contract_periods@;
        &&& i < ps.len() ==> {
            &&& b.td.contract_periods@.len() == ps.len() - 1
            &&& forall|j: int| 0 <= j < i ==> b.td.contract_periods@[j] == ps[j]
            &&& forall|j: int| i < j < ps.len() ==> b.td.contract_periods@[j - 1] == ps[j]
            &&& out == (Action::Continue, Effect::SaveTimeSettings)
        }
        &&& i >= ps.len() ==> b.td.contract_periods@ == ps
        &&& b.input_mode is Normal
    }
    &&& (key == Key::Esc || key == Key::Char('n') || key == Key::Char('N')) ==> b == (App {
        input_mode: InputMode::Normal,
        ..a
    }) && out == (Action::Continue, Effect::Nothing)
}

proof fn lemma_period_dialog<R>(a: App<R>, b: App<R>, key: Key, out: (Action, Effect))
    requires
        a.input_mode is ConfirmDeletePeriod,
        a.post_handle_confirm_delete_period(b, key, out),
    ensures
        period_dialog_outcome(a, b, key, out),
{
    if key == Key::Enter || key == Key::Char('y') || key == Key::Char('Y') {
        let i = a.input_mode->ConfirmDeletePeriod_0;
        assert(a.post_execute_delete_period(b, i, out.1));
    }
}

/// In the confirmation to remove a contract period, Enter, `y` and `Y`
/// remove that period (when it exists) keeping the others in order, close
/// the dialog and ask to save; Esc, `n` and `N` close it and change nothing
/// else.
pub proof fn law_yes_removes_period_no_keeps<R>(a: App<R>, b: App<R>, key: Key, out: (Action, Effect))
    requires
        a.screen == Screen::ContractPeriods,
        a.input_mode is ConfirmDeletePeriod,
        a.post_handle_key(b, key, out),
    ensures
        period_dialog_outcome(a, b, key, out),
{
    assert(a.post_handle_confirm_delete_period(b, key, out));
    lemma_period_dialog(a, b, key, out);
}

/// The toggle kind and disabled flag of a row, for a toggle row.
pub open spec fn toggle_state(row: GeneralToggleRow) -> Option<(ToggleKind, bool)> {
    match row {
        GeneralToggleRow::Toggle { kind, disabled, .. } => Some((kind, disabled)),
        _ => None,
    }
}

/// The toggle kind of a row, for a toggle row.
pub open spec fn toggle_kind(row: GeneralToggleRow) -> Option<ToggleKind> {
    match row {
        GeneralToggleRow::Toggle { kind, .. } => Some(kind),
        _ => None,
    }
}

/// The sync list shows a Smart sync toggle and a Rebase toggle; Smart sync
/// is greyed out exactly when RDS sync is off, Rebase exactly when fork
/// sync is off.
pub proof fn law_dependent_toggles_shown_disabled(
    use_cache: bool,
    skip_fork_sync: bool,
    skip_rebase: bool,
    skip_rds_sync: bool,
    smart_sync: bool,
)
    ensures
        ({
            let rows = spec_sync_general_items(
                use_cache,
                skip_fork_sync,
                skip_rebase,
                skip_rds_sync,
                smart_sync,
            );
            &&& exists|i: int|
                0 <= i < rows.len() && #[trigger] toggle_kind(rows[i]) == Some(ToggleKind::SmartSync)
            &&& exists|i: int|
                0 <= i < rows.len() && #[trigger] toggle_kind(rows[i]) == Some(ToggleKind::SkipRebase)
            &&& forall|i: int|
                0 <= i < rows.len() ==> match #[trigger] toggle_state(rows[i]) {
                    Some((ToggleKind::SmartSync, disabled)) => disabled == skip_rds_sync,
                    Some((ToggleKind::SkipRebase, disabled)) => disabled == skip_fork_sync,
                    _ => true,
                }
        }),
{
    let rows = spec_sync_general_items(use_cache, skip_fork_sync, skip_rebase, skip_rds_sync, smart_sync);
    assert(toggle_kind(rows[6]) == Some(ToggleKind::SmartSync));
    assert(toggle_kind(rows[3]) == Some(ToggleKind::SkipRebase));
}

/// Enter on Smart sync does nothing while RDS sync is off, and otherwise
/// flips it and saves; likewise Rebase with fork sync.
pub proof fn law_enter_on_dependent_toggle<R>(a: App<R>, b: App<R>, out: (Action, Effect))
    requires
        a.wf(),
        a.screen == Screen::SyncGeneralSettings,
        !(a.input_mode is SelectingTimezone),
        a.post_handle_key(b, Key::Enter, out),
    ensures
        spec_row_at(a.spec_general_rows(), a.spec_selected(a.screen)) matches Some(
            GeneralToggleRow::Toggle { kind: ToggleKind::SmartSync, .. },
        ) ==> if a.sync.skip_rds_sync {
            b == a && out == (Action::Continue, Effect::Nothing)
        } else {
            b.sync.smart_sync == !a.sync.smart_sync && out == (
                Action::Continue,
                Effect::SaveSyncSettings,
            )
        },
        spec_row_at(a.spec_general_rows(), a.spec_selected(a.screen)) matches Some(
            GeneralToggleRow::Toggle { kind: ToggleKind::SkipRebase, .. },
        ) ==> if a.sync.skip_fork_sync {
            b == a && out == (Action::Continue, Effect::Nothing)
        } else {
            b.sync.skip_rebase == !a.sync.skip_rebase && out == (
                Action::Continue,
                Effect::SaveSyncSettings,
            )
        },
{
    let rows = a.spec_general_rows();
    let sel = a.spec_selected(a.screen);
    law_dependent_toggles_shown_disabled(
        a.sync.use_cache,
        a.sync.skip_fork_sync,
        a.sync.skip_rebase,
        a.sync.skip_rds_sync,
        a.sync.smart_sync,
    );
    if 0 <= sel < rows.len() {
        match rows[sel] {
            GeneralToggleRow::Toggle { kind, disabled, .. } => {
                assert(a.post_handle_general_toggles(b, Key::Enter, out));
                assert(out.0 == Action::Continue);
                if kind == ToggleKind::SmartSync {
                    assert(disabled == a.sync.skip_rds_sync);
                } else if kind == ToggleKind::SkipRebase {
                    assert(disabled == a.sync.skip_fork_sync);
                }
                if !disabled {
                    assert(a.post_toggle_by_kind(b, kind, out.1));
                    assert(b.spec_flag(kind) == !a.spec_flag(kind));
                }
            },
            _ => {},
        }
    }
}

} // verus!
