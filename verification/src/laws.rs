//! Properties of the UI state that span several operations.
use vstd::prelude::*;

use crate::app::{
    lemma_insert_sorted, lemma_sort_of_sorted, lemma_upper_bound_facts, sorted_by_day, ByDay,
    spec_insert_sorted, spec_sort_by_day, spec_upper_bound, AddCpForm, AddOwForm, App,
    ContractPeriod, Effect, TimeSettings, UpstreamRepo,
};
use crate::input::{spec_clamp_scroll, spec_is_no, spec_is_yes, Key};
use crate::sync_state::SyncUpdate;
use crate::mutations::{
    lemma_find_period_sound, spec_adds_repo, spec_find_period, spec_name_taken, spec_save_period,
    spec_url_taken, spec_without_repo,
};
use crate::text::{spec_name_from_url, spec_normalize_url, spec_trim, spec_trim_end_char, spec_trim_end_str};
use crate::navigation::{interactive_at, spec_clamp_to_last, spec_last_interactive};
use crate::rows::{CycleTarget, InputMode, ListRow, ToggleKind};
use crate::screen::Screen;

verus! {

/// `b` differs from `a` at most in the value that cycling `target` changes.
pub open spec fn differs_only_in_target<R>(a: App<R>, b: App<R>, target: CycleTarget) -> bool {
    match target {
        CycleTarget::Timezone => b == (App {
            td: (TimeSettings { timezone_idx: b.td.timezone_idx, ..a.td }),
            ..a
        }),
        CycleTarget::CpMonday => b == (App {
            add_cp: (AddCpForm { monday: b.add_cp.monday, ..a.add_cp }),
            ..a
        }),
        CycleTarget::CpHours => b == (App {
            add_cp: (AddCpForm { hours_idx: b.add_cp.hours_idx, ..a.add_cp }),
            ..a
        }),
        CycleTarget::OwMonday => b == (App { add_ow: (AddOwForm { monday: b.add_ow.monday }), ..a }),
    }
}

proof fn lemma_cycles_touch_only_target<R>(
    start: App<R>,
    steps: Seq<App<R>>,
    target: CycleTarget,
    deltas: Seq<i32>,
    effects: Seq<Effect>,
    k: int,
)
    requires
        steps.len() > 0,
        steps[0] == start,
        deltas.len() == steps.len() - 1,
        effects.len() == steps.len() - 1,
        forall|i: int|
            0 <= i < steps.len() - 1 ==> #[trigger] steps[i].post_cycle(
                steps[i + 1],
                target,
                deltas[i],
                effects[i],
            ),
        0 <= k < steps.len(),
    ensures
        differs_only_in_target(start, steps[k], target),
    decreases k,
{
    if k > 0 {
        lemma_cycles_touch_only_target(start, steps, target, deltas, effects, k - 1);
        let j = k - 1;
        assert(steps[j].post_cycle(steps[j + 1], target, deltas[j], effects[j]));
        assert(steps[j + 1] == steps[k]);
    }
}

/// Cancelling a value edit restores the state from before the edit began,
/// however many times the value was cycled in between; a restored timezone
/// is saved again (it was saved at every step), the form values are not.
pub proof fn law_cancel_restores<R>(
    before: App<R>,
    steps: Seq<App<R>>,
    target: CycleTarget,
    deltas: Seq<i32>,
    effects: Seq<Effect>,
    after: App<R>,
    cancel_effect: Effect,
)
    requires
        before.input_mode is Normal,
        steps.len() > 0,
        before.post_enter_cycle(steps[0], target),
        deltas.len() == steps.len() - 1,
        effects.len() == steps.len() - 1,
        forall|i: int|
            0 <= i < steps.len() - 1 ==> #[trigger] steps[i].post_cycle(
                steps[i + 1],
                target,
                deltas[i],
                effects[i],
            ),
        steps.last().post_cancel_cycle_edit(after, cancel_effect),
    ensures
        after == before,
        cancel_effect == if target == CycleTarget::Timezone {
            Effect::SaveTimeSettings
        } else {
            Effect::Nothing
        },
{
    lemma_cycles_touch_only_target(steps[0], steps, target, deltas, effects, steps.len() - 1);
}

/// Flipping the same toggle twice gives back the state it started from,
/// and both flips ask to save the same section.
pub proof fn law_toggle_twice_restores<R>(
    a: App<R>,
    b: App<R>,
    c: App<R>,
    kind: ToggleKind,
    e1: Effect,
    e2: Effect,
)
    requires
        a.post_toggle_by_kind(b, kind, e1),
        b.post_toggle_by_kind(c, kind, e2),
    ensures
        c == a,
        e1 == e2,
{
    assert(c.sync.use_cache == a.sync.use_cache) by {
        assert(c.spec_flag(ToggleKind::UseCache) == a.spec_flag(ToggleKind::UseCache));
    }
    assert(c.sync.skip_fork_sync == a.sync.skip_fork_sync) by {
        assert(c.spec_flag(ToggleKind::SkipForkSync) == a.spec_flag(ToggleKind::SkipForkSync));
    }
    assert(c.sync.skip_rebase == a.sync.skip_rebase) by {
        assert(c.spec_flag(ToggleKind::SkipRebase) == a.spec_flag(ToggleKind::SkipRebase));
    }
    assert(c.sync.skip_rds_sync == a.sync.skip_rds_sync) by {
        assert(c.spec_flag(ToggleKind::SkipRdsSync) == a.spec_flag(ToggleKind::SkipRdsSync));
    }
    assert(c.sync.smart_sync == a.sync.smart_sync) by {
        assert(c.spec_flag(ToggleKind::SmartSync) == a.spec_flag(ToggleKind::SmartSync));
    }
    assert(c.td.skip_current_week == a.td.skip_current_week) by {
        assert(c.spec_flag(ToggleKind::SkipCurrentWeek) == a.spec_flag(
            ToggleKind::SkipCurrentWeek,
        ));
    }
    assert(c.td.use_time_cache == a.td.use_time_cache) by {
        assert(c.spec_flag(ToggleKind::UseTimeCache) == a.spec_flag(ToggleKind::UseTimeCache));
    }
}

/// In strictly increasing order of day: no two items share a day.
pub open spec fn strictly_sorted_by_day(s: Seq<ContractPeriod>) -> bool {
    forall|i: int, j: int| 0 <= i < j < s.len() ==> s[i].from < s[j].from
}

/// Saving the contract-period form keeps the periods in order of start day,
/// holds the saved entry, keeps every period that starts on another day and
/// adds nothing else. A list without two periods of the same start day stays
/// so: the saved entry is then the only one of its day.
#[verifier::rlimit(30)]
pub proof fn law_save_period<R>(ps: Seq<ContractPeriod>, entry: ContractPeriod)
    requires
        sorted_by_day(ps),
    ensures
        sorted_by_day(spec_save_period(ps, entry)),
        spec_save_period(ps, entry).contains(entry),
        forall|p: ContractPeriod|
            ps.contains(p) && p.from != entry.from ==> spec_save_period(ps, entry).contains(p),
        forall|p: ContractPeriod|
            spec_save_period(ps, entry).contains(p) ==> p == entry || ps.contains(p),
        strictly_sorted_by_day(ps) ==> strictly_sorted_by_day(spec_save_period(ps, entry)),
{
    lemma_find_period_sound(ps, entry.from as int);
    let r = spec_save_period(ps, entry);
    match spec_find_period(ps, entry.from as int) {
        Some(i) => {
            let q = ContractPeriod { weekly_hours: entry.weekly_hours, ..ps[i] };
            assert(q == entry);
            assert(r[i] == entry);
            assert forall|a: int| 0 <= a < r.len() implies #[trigger] r[a].from == ps[a].from by {}
            assert forall|a: int, b: int| 0 <= a < b < r.len() implies r[a].spec_day() <= r[b].spec_day() by {
                assert(r[a].from == ps[a].from);
                assert(r[b].from == ps[b].from);
                assert(ps[a].spec_day() <= ps[b].spec_day());
            }
            assert forall|p: ContractPeriod| ps.contains(p) && p.from != entry.from implies r.contains(
                p,
            ) by {
                let j = choose|j: int| 0 <= j < ps.len() && ps[j] == p;
                assert(r[j] == p);
            }
            assert forall|p: ContractPeriod| r.contains(p) implies p == entry || ps.contains(p) by {
                let j = choose|j: int| 0 <= j < r.len() && r[j] == p;
                if j != i {
                    assert(ps[j] == p);
                }
            }
        },
        None => {
            assert(ps.push(entry).drop_last() =~= ps);
            lemma_sort_of_sorted(ps);
            lemma_insert_sorted(ps, entry);
            lemma_upper_bound_facts(ps, entry.from);
            let k = spec_upper_bound(ps, entry.from);
            assert(r == spec_insert_sorted(ps, entry));
            assert(r[k] == entry);
            assert forall|p: ContractPeriod| ps.contains(p) && p.from != entry.from implies r.contains(
                p,
            ) by {
                let j = choose|j: int| 0 <= j < ps.len() && ps[j] == p;
                if j < k {
                    assert(r[j] == p);
                } else {
                    assert(r[j + 1] == p);
                }
            }
            assert forall|p: ContractPeriod| r.contains(p) implies p == entry || ps.contains(p) by {
                let j = choose|j: int| 0 <= j < r.len() && r[j] == p;
                if j < k {
                    assert(ps[j] == p);
                } else if j > k {
                    assert(ps[j - 1] == p);
                }
            }
            if strictly_sorted_by_day(ps) {
                assert forall|a: int, b: int| 0 <= a < b < r.len() implies r[a].from < r[b].from by {
                    if a < k {
                        assert(r[a] == ps[a]);
                        assert(ps[a].spec_day() <= entry.from);
                        assert(ps[a].from != entry.from);
                    } else if a > k {
                        assert(r[a] == ps[a - 1]);
                    }
                    if b < k {
                        assert(r[b] == ps[b]);
                    } else if b > k {
                        assert(r[b] == ps[b - 1]);
                        assert(ps[b - 1].spec_day() > entry.from);
                    }
                }
            }
        },
    }
}

/// No two repositories share a name.
pub open spec fn names_distinct(repos: Seq<UpstreamRepo>) -> bool {
    forall|i: int, j: int| 0 <= i < j < repos.len() ==> repos[i].name@ != repos[j].name@
}

/// Adding a repository from a typed URL never creates a second repository
/// of the same name, and the URL it stores is not the normalised URL of a
/// repository already there.
pub proof fn law_add_repo_keeps_names_distinct<R>(a: App<R>, b: App<R>, url: String, e: Effect)
    requires
        a.post_add_repo_from_input(b, url, e),
        names_distinct(a.sync.repos@),
    ensures
        names_distinct(b.sync.repos@),
        b.sync.repos@.len() > a.sync.repos@.len() ==> !spec_url_taken(
            a.sync.repos@,
            b.sync.repos@.last().url@,
        ),
{
    let old_repos = a.sync.repos@;
    let new_repos = b.sync.repos@;
    if new_repos.len() > old_repos.len() {
        assert forall|i: int, j: int| 0 <= i < j < new_repos.len() implies new_repos[i].name@
            != new_repos[j].name@ by {
            assert(new_repos.drop_last() == old_repos);
            assert(new_repos[i] == old_repos[i]);
            if j < old_repos.len() {
                assert(new_repos[j] == old_repos[j]);
            }
        }
    }
}

/// Once a URL has been added, typing it again, or any other URL that names
/// the same repository, adds nothing.
pub proof fn law_add_repo_twice_adds_once<R>(
    a: App<R>,
    b: App<R>,
    c: App<R>,
    url: String,
    again: String,
    e1: Effect,
    e2: Effect,
)
    requires
        a.post_add_repo_from_input(b, url, e1),
        b.post_add_repo_from_input(c, again, e2),
        spec_name_from_url(spec_normalize_url(again@)) == spec_name_from_url(
            spec_normalize_url(url@),
        ),
    ensures
        spec_adds_repo(a.sync.repos@, url@) ==> c.sync.repos@ == b.sync.repos@ && e2
            == Effect::Nothing,
        again@ == url@ ==> c.sync.repos@ == b.sync.repos@ && e2 == Effect::Nothing,
{
    if spec_adds_repo(a.sync.repos@, url@) {
        let last = b.sync.repos@.len() - 1;
        assert(b.sync.repos@[last].name@ == spec_name_from_url(spec_normalize_url(url@)));
        assert(spec_name_taken(b.sync.repos@, spec_name_from_url(spec_normalize_url(again@))));
    }
}

/// Input that is blank, or white space only, never adds a repository.
pub proof fn law_blank_input_adds_nothing<R>(a: App<R>, b: App<R>, url: String, e: Effect)
    requires
        a.post_add_repo_from_input(b, url, e),
        spec_trim(url@).len() == 0,
    ensures
        b.sync.repos@ == a.sync.repos@,
        e == Effect::Nothing,
{
    reveal_with_fuel(spec_trim_end_char, 2);
    reveal_with_fuel(spec_trim_end_str, 2);
    assert(spec_normalize_url(url@).len() == 0);
}

/// Removing the repositories of a name leaves none of that name, keeps
/// every repository of another name, and adds none.
pub proof fn law_remove_repo_exact(repos: Seq<UpstreamRepo>, name: Seq<char>)
    ensures
        forall|i: int|
            0 <= i < spec_without_repo(repos, name).len() ==> (#[trigger] spec_without_repo(
                repos,
                name,
            )[i]).name@ != name,
        forall|r: UpstreamRepo|
            repos.contains(r) && r.name@ != name ==> spec_without_repo(repos, name).contains(r),
        forall|r: UpstreamRepo| spec_without_repo(repos, name).contains(r) ==> repos.contains(r),
    decreases repos.len(),
{
    if repos.len() > 0 {
        let t = repos.drop_last();
        law_remove_repo_exact(t, name);
        let rt = spec_without_repo(t, name);
        let r = spec_without_repo(repos, name);
        if repos.last().name@ == name {
            assert(r == rt);
            assert forall|x: UpstreamRepo| repos.contains(x) && x.name@ != name implies r.contains(
                x,
            ) by {
                let j = choose|j: int| 0 <= j < repos.len() && repos[j] == x;
                assert(j < repos.len() - 1);
                assert(t[j] == x);
                assert(t.contains(x));
            }
            assert forall|x: UpstreamRepo| r.contains(x) implies repos.contains(x) by {
                assert(rt.contains(x));
                assert(t.contains(x));
                let j = choose|j: int| 0 <= j < t.len() && t[j] == x;
                assert(t[j] == repos[j]);
                assert(repos[j] == x);
            }
        } else {
            assert(r == rt.push(repos.last()));
            assert forall|x: UpstreamRepo| repos.contains(x) && x.name@ != name implies r.contains(
                x,
            ) by {
                let j = choose|j: int| 0 <= j < repos.len() && repos[j] == x;
                if j < repos.len() - 1 {
                    assert(t[j] == x);
                    assert(t.contains(x));
                    let m = choose|m: int| 0 <= m < rt.len() && rt[m] == x;
                    assert(r[m] == x);
                } else {
                    assert(r[r.len() - 1] == x);
                }
            }
            assert forall|x: UpstreamRepo| r.contains(x) implies repos.contains(x) by {
                let m = choose|m: int| 0 <= m < r.len() && r[m] == x;
                if m < rt.len() {
                    assert(rt[m] == x);
                    assert(rt.contains(x));
                    assert(t.contains(x));
                    let j = choose|j: int| 0 <= j < t.len() && t[j] == x;
                    assert(t[j] == repos[j]);
                    assert(repos[j] == x);
                } else {
                    assert(repos[repos.len() - 1] == x);
                }
            }
        }
        assert forall|i: int| 0 <= i < r.len() implies (#[trigger] r[i]).name@ != name by {
            if i < rt.len() {
                assert(r[i] == rt[i]);
            }
        }
    }
}

proof fn lemma_last_interactive_exists<T: ListRow>(rows: Seq<T>, w: int)
    requires
        interactive_at(rows, w),
    ensures
        exists|i: int|
            interactive_at(rows, i) && forall|j: int| i < j < rows.len() ==> !interactive_at(rows, j),
    decreases rows.len() - w,
{
    if exists|j: int| w < j < rows.len() && interactive_at(rows, j) {
        let j = choose|j: int| w < j < rows.len() && interactive_at(rows, j);
        lemma_last_interactive_exists(rows, j);
    } else {
        assert(forall|j: int| w < j < rows.len() ==> !interactive_at(rows, j));
    }
}

/// After a removal the selection is kept at or above the last selectable
/// row, and a selection that had to move lands on that row.
pub proof fn law_clamp_lands_on_row<T: ListRow>(rows: Seq<T>, current: int)
    requires
        exists|i: int| interactive_at(rows, i),
    ensures
        spec_clamp_to_last(rows, current) <= spec_last_interactive(rows),
        current >= spec_last_interactive(rows) ==> interactive_at(
            rows,
            spec_clamp_to_last(rows, current),
        ),
{
    let w = choose|i: int| interactive_at(rows, i);
    lemma_last_interactive_exists(rows, w);
}

/// Scrolling never passes the last full page: moving down stays within
/// `total - visible` (or 0), and moving up never increases the position.
pub proof fn law_scroll_bounded(scroll: int, delta: int, total: int, visible: int)
    requires
        scroll >= 0,
    ensures
        delta >= 0 ==> spec_clamp_scroll(scroll, delta, total, visible) <= if total > visible {
            total - visible
        } else {
            0
        },
        delta < 0 ==> spec_clamp_scroll(scroll, delta, total, visible) <= scroll,
        spec_clamp_scroll(scroll, delta, total, visible) >= 0,
{
}

/// Asking to remove a repository and then answering no leaves everything
/// as it was.
pub proof fn law_refused_removal_restores<R>(
    a: App<R>,
    b: App<R>,
    c: App<R>,
    name: String,
    key: Key,
    out: (crate::input::Action, Effect),
)
    requires
        a.input_mode is Normal,
        a.post_confirm_delete_repo(b, name),
        b.post_handle_confirm_delete_repo(c, key, out),
        spec_is_no(key),
        !spec_is_yes(key),
    ensures
        c == a,
        out == (crate::input::Action::Continue, Effect::Nothing),
{
}

/// Once a repository has finished, elapsed-time messages no longer change it.
pub proof fn law_finished_repo_keeps_elapsed<R>(
    a: App<R>,
    b: App<R>,
    i: usize,
    tenths: u64,
    now: std::time::Instant,
)
    requires
        a.sync_state is Some,
        i < a.sync_state->0.repos@.len(),
        a.sync_state->0.repos@[i as int].spec_is_complete(),
        a.post_apply_sync_update(b, SyncUpdate::Elapsed(i, tenths), now),
    ensures
        b.sync_state->0.repos@ == a.sync_state->0.repos@,
        b.sync_state->0.tick == a.sync_state->0.tick,
        b.sync_state->0.phase == a.sync_state->0.phase,
        b == (App { sync_state: b.sync_state, ..a }),
{
    assert(b.sync_state->0.repos@ =~= a.sync_state->0.repos@);
}

/// A repository's clock starts at its first fork message and is not reset
/// by later ones.
pub proof fn law_sync_clock_starts_once<R>(
    a: App<R>,
    b: App<R>,
    i: usize,
    status: crate::sync_state::ForkStatus,
    now: std::time::Instant,
)
    requires
        a.sync_state is Some,
        i < a.sync_state->0.repos@.len(),
        a.post_apply_sync_update(b, SyncUpdate::Fork(i, status), now),
    ensures
        b.sync_state->0.repos@[i as int].started_at is Some,
        a.sync_state->0.repos@[i as int].started_at is Some ==> b.sync_state->0.repos@[i as int].started_at
            == a.sync_state->0.repos@[i as int].started_at,
        b.sync_state->0.repos@[i as int].fork_status == status,
{
}

/// The keychain is asked once whether a password is stored: after the
/// first answer is recorded the flag is known, and later answers change
/// nothing.
pub proof fn law_password_looked_up_once<R>(a: App<R>, b: App<R>, c: App<R>, first: bool, later: bool)
    requires
        a.post_password_looked_up(b, first),
        b.post_password_looked_up(c, later),
    ensures
        b.td.password_is_set is Some,
        a.td.password_is_set is None ==> b.td.password_is_set == Some(first),
        c == b,
{
}

/// Keys never change whether a password is known to be stored; only a
/// password that the keychain accepted does, and then to `true`.
pub proof fn law_password_flag_kept<R>(
    a: App<R>,
    b: App<R>,
    key: Key,
    out: (crate::input::Action, Effect),
    c: App<R>,
    ok: bool,
)
    requires
        a.wf(),
        a.post_handle_key(b, key, out),
        a.post_password_stored(c, ok),
    ensures
        b.td.password_is_set == a.td.password_is_set,
        c.td.password_is_set == if ok {
            Some(true)
        } else {
            a.td.password_is_set
        },
{
    // One case per screen keeps each case's proof small.
    match a.screen {
        Screen::SyncGeneralSettings => {},
        Screen::TdGeneralSettings => {},
        Screen::MainMenu => {},
        Screen::Settings => {},
        Screen::RepoManager => {},
        Screen::RemoveRepos => {},
        Screen::TimeDoctorSettings => {},
        Screen::ContractPeriods => {},
        Screen::SyncProgress => {},
        Screen::TimeDoctorReport => {},
        Screen::UpdateProgress => {},
    }
}

/// The sync settings that are written to the configuration file.
pub open spec fn same_sync_settings<R>(a: App<R>, b: App<R>) -> bool {
    &&& b.sync.use_cache == a.sync.use_cache
    &&& b.sync.skip_fork_sync == a.sync.skip_fork_sync
    &&& b.sync.skip_rebase == a.sync.skip_rebase
    &&& b.sync.skip_rds_sync == a.sync.skip_rds_sync
    &&& b.sync.smart_sync == a.sync.smart_sync
    &&& b.sync.repos@ == a.sync.repos@
}

/// The time settings that are written to the configuration file.
pub open spec fn same_time_settings<R>(a: App<R>, b: App<R>) -> bool {
    &&& b.td.email@ == a.td.email@
    &&& b.td.timezone_idx == a.td.timezone_idx
    &&& b.td.skip_current_week == a.td.skip_current_week
    &&& b.td.use_time_cache == a.td.use_time_cache
    &&& b.td.show_cumulative == a.td.show_cumulative
    &&& b.td.contract_periods@ == a.td.contract_periods@
}

/// What a key owes the configuration file: the sync settings change only
/// with `SaveSyncSettings`, the time settings only with `SaveTimeSettings`
/// or `ForgetTokenAndSaveTime`.
pub open spec fn changes_are_saved<R>(a: App<R>, b: App<R>, out: (crate::input::Action, Effect)) -> bool {
    &&& out.1 != Effect::SaveSyncSettings ==> same_sync_settings(a, b)
    &&& out.1 != Effect::SaveTimeSettings && out.1 != Effect::ForgetTokenAndSaveTime ==> same_time_settings(a, b)
}

/// Toggling `kind` flips that flag and leaves flag `k` as it was otherwise.
spec fn flag_after_toggle<R>(a: App<R>, b: App<R>, kind: ToggleKind, k: ToggleKind) -> bool {
    b.spec_flag(k) == if k == kind {
        !a.spec_flag(k)
    } else {
        a.spec_flag(k)
    }
}

proof fn lemma_saved_toggle<R>(a: App<R>, b: App<R>, kind: ToggleKind, e: Effect)
    requires
        a.post_toggle_by_kind(b, kind, e),
    ensures
        changes_are_saved(a, b, (crate::input::Action::Continue, e)),
{
    assert(flag_after_toggle(a, b, kind, ToggleKind::UseCache));
    assert(flag_after_toggle(a, b, kind, ToggleKind::SkipForkSync));
    assert(flag_after_toggle(a, b, kind, ToggleKind::SkipRebase));
    assert(flag_after_toggle(a, b, kind, ToggleKind::SkipRdsSync));
    assert(flag_after_toggle(a, b, kind, ToggleKind::SmartSync));
    assert(flag_after_toggle(a, b, kind, ToggleKind::SkipCurrentWeek));
    assert(flag_after_toggle(a, b, kind, ToggleKind::UseTimeCache));
}

proof fn lemma_saved_general_toggles<R>(a: App<R>, b: App<R>, key: Key, out: (crate::input::Action, Effect))
    requires
        a.wf(),
        a.post_handle_general_toggles(b, key, out),
    ensures
        changes_are_saved(a, b, out),
{
    match crate::input::spec_row_at(a.spec_general_rows(), a.spec_selected(a.screen)) {
        Some(crate::rows::GeneralToggleRow::Toggle { kind, disabled, .. }) => {
            if !(a.input_mode is SelectingTimezone) && !crate::input::spec_list_key(key) && key == Key::Enter
                && !disabled {
                lemma_saved_toggle(a, b, kind, out.1);
            }
        },
        _ => {},
    }
}

/// A key never changes a saved setting without asking for it to be saved:
/// the sync settings change only with `SaveSyncSettings`, the time
/// settings only with `SaveTimeSettings` or `ForgetTokenAndSaveTime`.
pub proof fn law_changes_are_saved<R>(a: App<R>, b: App<R>, key: Key, out: (crate::input::Action, Effect))
    requires
        a.wf(),
        a.post_handle_key(b, key, out),
    ensures
        changes_are_saved(a, b, out),
{
    // One case per screen keeps each case's proof small.
    match a.screen {
        Screen::SyncGeneralSettings | Screen::TdGeneralSettings => {
            lemma_saved_general_toggles(a, b, key, out);
        },
        Screen::MainMenu => {},
        Screen::Settings => {},
        Screen::RepoManager => {},
        Screen::RemoveRepos => {},
        Screen::TimeDoctorSettings => {},
        Screen::ContractPeriods => {},
        Screen::SyncProgress => {},
        Screen::TimeDoctorReport => {},
        Screen::UpdateProgress => {},
    }
}

} // verus!
