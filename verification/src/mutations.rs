//! Edits of the settings: toggles, value cycling, repositories and
//! contract periods.
use vstd::prelude::*;

use crate::app::{
    cycle_idx, sorted_by_day, spec_cycle_idx, spec_insert_sorted, spec_weekly_hours_option,
    weekly_hours_option, App, ContractPeriod, Effect, UpstreamRepo, DEFAULT_HOURS_INDEX,
    TIMEZONE_COUNT, WEEKLY_HOURS_OPTION_COUNT,
};
use crate::app::{
    insert_sorted, lemma_insert_sorted, lemma_sort_of_sorted, lemma_upper_bound_facts,
    spec_sort_by_day, spec_upper_bound, AddCpForm, SyncSettings, TimeSettings,
};
use crate::builders::{spec_cp_list_items, spec_remove_repo_items};
use crate::dates::{day_in_range, shift_week, spec_week_step};
use crate::navigation::{clamp_to_last_interactive, spec_clamp_to_last};
use crate::rows::{CycleTarget, InputMode, ToggleKind};
use crate::screen::{spec_list_slot, Screen};
use crate::text::{name_from_url, normalize_url, spec_name_from_url, spec_normalize_url, str_eq};

verus! {

/// First repository with the given name.
pub open spec fn spec_find_repo(repos: Seq<UpstreamRepo>, name: Seq<char>) -> Option<int>
    decreases repos.len(),
{
    if repos.len() == 0 {
        None
    } else {
        match spec_find_repo(repos.drop_last(), name) {
            Some(i) => Some(i),
            None => if repos.last().name@ == name {
                Some(repos.len() - 1)
            } else {
                None
            },
        }
    }
}

/// The repositories without those of the given name, in their order.
pub open spec fn spec_without_repo(repos: Seq<UpstreamRepo>, name: Seq<char>) -> Seq<UpstreamRepo>
    decreases repos.len(),
{
    if repos.len() == 0 {
        repos
    } else if repos.last().name@ == name {
        spec_without_repo(repos.drop_last(), name)
    } else {
        spec_without_repo(repos.drop_last(), name).push(repos.last())
    }
}

/// First contract period starting on the given day.
pub open spec fn spec_find_period(ps: Seq<ContractPeriod>, from: int) -> Option<int>
    decreases ps.len(),
{
    if ps.len() == 0 {
        None
    } else {
        match spec_find_period(ps.drop_last(), from) {
            Some(i) => Some(i),
            None => if ps.last().from == from {
                Some(ps.len() - 1)
            } else {
                None
            },
        }
    }
}

pub proof fn lemma_find_repo_sound(repos: Seq<UpstreamRepo>, name: Seq<char>)
    ensures
        spec_find_repo(repos, name) matches Some(i) ==> 0 <= i < repos.len() && repos[i].name@
            == name && forall|j: int| 0 <= j < i ==> repos[j].name@ != name,
        spec_find_repo(repos, name) is None ==> forall|j: int|
            0 <= j < repos.len() ==> repos[j].name@ != name,
    decreases repos.len(),
{
    if repos.len() > 0 {
        let t = repos.drop_last();
        lemma_find_repo_sound(t, name);
        assert forall|j: int| 0 <= j < t.len() implies #[trigger] repos[j] == t[j] by {}
        match spec_find_repo(t, name) {
            Some(i) => {
                assert(repos[i] == t[i]);
            },
            None => {
                assert forall|j: int| 0 <= j < repos.len() - 1 implies repos[j].name@
                    != name by {
                    assert(repos[j] == t[j]);
                }
            },
        }
    }
}

pub proof fn lemma_find_period_sound(ps: Seq<ContractPeriod>, from: int)
    ensures
        spec_find_period(ps, from) matches Some(i) ==> 0 <= i < ps.len() && ps[i].from == from
            && forall|j: int| 0 <= j < i ==> ps[j].from != from,
        spec_find_period(ps, from) is None ==> forall|j: int| 0 <= j < ps.len() ==> ps[j].from != from,
    decreases ps.len(),
{
    if ps.len() > 0 {
        let t = ps.drop_last();
        lemma_find_period_sound(t, from);
        assert forall|j: int| 0 <= j < t.len() implies #[trigger] ps[j] == t[j] by {}
        match spec_find_period(t, from) {
            Some(i) => {
                assert(ps[i] == t[i]);
            },
            None => {
                assert forall|j: int| 0 <= j < ps.len() - 1 implies ps[j].from != from by {
                    assert(ps[j] == t[j]);
                }
            },
        }
    }
}

fn find_repo(repos: &Vec<UpstreamRepo>, name: &str) -> (r: Option<usize>)
    ensures
        r matches Some(i) ==> spec_find_repo(repos@, name@) == Some(i as int),
        r is None ==> spec_find_repo(repos@, name@) is None,
{
    let mut i: usize = 0;
    while i < repos.len()
        invariant
            i <= repos.len(),
            spec_find_repo(repos@.take(i as int), name@) is None,
        decreases repos.len() - i,
    {
        assert(repos@.take(i + 1).drop_last() =~= repos@.take(i as int));
        if str_eq(repos[i].name.as_str(), name) {
            proof {
                lemma_find_repo_prefix(repos@, name@, i as int + 1);
            }
            return Some(i);
        }
        i = i + 1;
    }
    assert(repos@.take(repos.len() as int) =~= repos@);
    None
}

proof fn lemma_find_repo_prefix(repos: Seq<UpstreamRepo>, name: Seq<char>, k: int)
    requires
        0 <= k <= repos.len(),
        spec_find_repo(repos.take(k), name) is Some,
    ensures
        spec_find_repo(repos, name) == spec_find_repo(repos.take(k), name),
    decreases repos.len() - k,
{
    if k < repos.len() {
        assert(repos.take(k + 1).drop_last() =~= repos.take(k));
        lemma_find_repo_prefix(repos, name, k + 1);
    } else {
        assert(repos.take(k) =~= repos);
    }
}

fn find_period(ps: &Vec<ContractPeriod>, from: i32) -> (r: Option<usize>)
    ensures
        r matches Some(i) ==> spec_find_period(ps@, from as int) == Some(i as int),
        r is None ==> spec_find_period(ps@, from as int) is None,
{
    let mut i: usize = 0;
    while i < ps.len()
        invariant
            i <= ps.len(),
            spec_find_period(ps@.take(i as int), from as int) is None,
        decreases ps.len() - i,
    {
        assert(ps@.take(i + 1).drop_last() =~= ps@.take(i as int));
        if ps[i].from == from {
            proof {
                lemma_find_period_prefix(ps@, from as int, i as int + 1);
            }
            return Some(i);
        }
        i = i + 1;
    }
    assert(ps@.take(ps.len() as int) =~= ps@);
    None
}

proof fn lemma_find_period_prefix(ps: Seq<ContractPeriod>, from: int, k: int)
    requires
        0 <= k <= ps.len(),
        spec_find_period(ps.take(k), from) is Some,
    ensures
        spec_find_period(ps, from) == spec_find_period(ps.take(k), from),
    decreases ps.len() - k,
{
    if k < ps.len() {
        assert(ps.take(k + 1).drop_last() =~= ps.take(k));
        lemma_find_period_prefix(ps, from, k + 1);
    } else {
        assert(ps.take(k) =~= ps);
    }
}

/// Whether some repository's URL normalises to `url`.
pub open spec fn spec_url_taken(repos: Seq<UpstreamRepo>, url: Seq<char>) -> bool {
    exists|i: int| 0 <= i < repos.len() && spec_normalize_url(repos[i].url@) == url
}

/// Whether some repository has the name `name`.
pub open spec fn spec_name_taken(repos: Seq<UpstreamRepo>, name: Seq<char>) -> bool {
    exists|i: int| 0 <= i < repos.len() && repos[i].name@ == name
}

/// Whether typing `url` into the add-repository field adds a repository:
/// the normalised URL and the name taken from it are non-empty and neither
/// is in use yet.
pub open spec fn spec_adds_repo(repos: Seq<UpstreamRepo>, url: Seq<char>) -> bool {
    let n = spec_normalize_url(url);
    let name = spec_name_from_url(n);
    &&& n.len() > 0
    &&& name.len() > 0
    &&& !spec_url_taken(repos, n)
    &&& !spec_name_taken(repos, name)
}

/// The repositories without those named `name`, in their order.
fn without_repo(repos: &Vec<UpstreamRepo>, name: &str) -> (r: Vec<UpstreamRepo>)
    ensures
        r@ == spec_without_repo(repos@, name@),
{
    let mut kept: Vec<UpstreamRepo> = Vec::new();
    let mut i: usize = 0;
    assert(repos@.take(0) =~= Seq::<UpstreamRepo>::empty());
    while i < repos.len()
        invariant
            i <= repos@.len(),
            kept@ == spec_without_repo(repos@.take(i as int), name@),
        decreases repos.len() - i,
    {
        assert(repos@.take(i + 1).drop_last() =~= repos@.take(i as int));
        if !str_eq(repos[i].name.as_str(), name) {
            kept.push(repos[i].clone());
        }
        i = i + 1;
    }
    assert(repos@.take(repos.len() as int) =~= repos@);
    kept
}

/// Whether some repository's URL normalises to `url`.
fn url_taken(repos: &Vec<UpstreamRepo>, url: &str) -> (r: bool)
    ensures
        r == spec_url_taken(repos@, url@),
{
    let mut i: usize = 0;
    while i < repos.len()
        invariant
            i <= repos@.len(),
            forall|j: int| 0 <= j < i ==> spec_normalize_url(#[trigger] repos@[j].url@) != url@,
        decreases repos.len() - i,
    {
        let n = normalize_url(repos[i].url.as_str());
        if str_eq(n.as_str(), url) {
            return true;
        }
        i = i + 1;
    }
    false
}

/// Whether some repository has the name `name`.
fn name_taken(repos: &Vec<UpstreamRepo>, name: &str) -> (r: bool)
    ensures
        r == spec_name_taken(repos@, name@),
{
    let mut i: usize = 0;
    while i < repos.len()
        invariant
            i <= repos@.len(),
            forall|j: int| 0 <= j < i ==> (#[trigger] repos@[j]).name@ != name@,
        decreases repos.len() - i,
    {
        if str_eq(repos[i].name.as_str(), name) {
            return true;
        }
        i = i + 1;
    }
    false
}

/// The period that saving the contract-period form writes.
pub open spec fn spec_form_entry(form: AddCpForm) -> ContractPeriod {
    ContractPeriod { from: form.monday, weekly_hours: spec_weekly_hours_option(form.hours_idx as int) }
}

/// The contract periods after saving `entry`: the hours of a period with the
/// same start day are replaced, otherwise the entry joins the list, which is
/// then sorted by start day.
pub open spec fn spec_save_period(ps: Seq<ContractPeriod>, entry: ContractPeriod) -> Seq<ContractPeriod> {
    match spec_find_period(ps, entry.from as int) {
        Some(i) => ps.update(i, ContractPeriod { weekly_hours: entry.weekly_hours, ..ps[i] }),
        None => spec_sort_by_day(ps.push(entry)),
    }
}

impl<R> App<R> {
    /// The value of a toggle as stored (not as displayed: some toggles are
    /// shown inverted).
    pub open spec fn spec_flag(&self, kind: ToggleKind) -> bool {
        match kind {
            ToggleKind::UseCache => self.sync.use_cache,
            ToggleKind::SkipForkSync => self.sync.skip_fork_sync,
            ToggleKind::SkipRebase => self.sync.skip_rebase,
            ToggleKind::SkipRdsSync => self.sync.skip_rds_sync,
            ToggleKind::SmartSync => self.sync.smart_sync,
            ToggleKind::SkipCurrentWeek => self.td.skip_current_week,
            ToggleKind::UseTimeCache => self.td.use_time_cache,
        }
    }

    /// What `toggle_by_kind` leaves behind, as a relation between the state before
    /// and after it.
    pub open spec fn post_toggle_by_kind(self, next: Self, kind: ToggleKind, r: Effect) -> bool {
        &&& forall|k: ToggleKind|
                #[trigger] next.spec_flag(k) == if k == kind {
                    !self.spec_flag(k)
                } else {
                    self.spec_flag(k)
                }
        &&& next.sync == (SyncSettings {
            use_cache: next.sync.use_cache,
            skip_fork_sync: next.sync.skip_fork_sync,
            skip_rebase: next.sync.skip_rebase,
            skip_rds_sync: next.sync.skip_rds_sync,
            smart_sync: next.sync.smart_sync,
            ..self.sync
        })
        &&& next.td == (TimeSettings {
            skip_current_week: next.td.skip_current_week,
            use_time_cache: next.td.use_time_cache,
            ..self.td
        })
        &&& next == (App { sync: next.sync, td: next.td, ..self })
        &&& r == if kind.spec_is_sync() {
                Effect::SaveSyncSettings
            } else {
                Effect::SaveTimeSettings
            }
    }

    /// Flips one setting and says which section of the configuration to save.
    pub fn toggle_by_kind(&mut self, kind: ToggleKind) -> (r: Effect)
        requires
            old(self).wf(),
        ensures
            final(self).wf(),
            old(self).post_toggle_by_kind(*final(self), kind, r),
    {
        match kind {
            ToggleKind::UseCache => self.sync.use_cache = !self.sync.use_cache,
            ToggleKind::SkipForkSync => self.sync.skip_fork_sync = !self.sync.skip_fork_sync,
            ToggleKind::SkipRebase => self.sync.skip_rebase = !self.sync.skip_rebase,
            ToggleKind::SkipRdsSync => self.sync.skip_rds_sync = !self.sync.skip_rds_sync,
            ToggleKind::SmartSync => self.sync.smart_sync = !self.sync.smart_sync,
            ToggleKind::SkipCurrentWeek => self.td.skip_current_week = !self.td.skip_current_week,
            ToggleKind::UseTimeCache => self.td.use_time_cache = !self.td.use_time_cache,
        }
        if kind.is_sync() {
            Effect::SaveSyncSettings
        } else {
            Effect::SaveTimeSettings
        }
    }

    /// The input mode that editing `target` starts in, holding the current value.
    pub open spec fn spec_cycle_mode(&self, target: CycleTarget) -> InputMode {
        match target {
            CycleTarget::Timezone => InputMode::SelectingTimezone(self.td.timezone_idx),
            CycleTarget::CpMonday => InputMode::EditingCpMonday(self.add_cp.monday),
            CycleTarget::CpHours => InputMode::EditingCpHours(self.add_cp.hours_idx),
            CycleTarget::OwMonday => InputMode::EditingOwMonday(self.add_ow.monday),
        }
    }

    /// What `enter_cycle` leaves behind, as a relation between the state before
    /// and after it.
    pub open spec fn post_enter_cycle(self, next: Self, target: CycleTarget) -> bool {
        &&& next == (App { input_mode: self.spec_cycle_mode(target), ..self })
    }

    /// Starts editing a value by cycling, remembering the value to restore on cancel.
    pub fn enter_cycle(&mut self, target: CycleTarget)
        requires
            old(self).wf(),
        ensures
            final(self).wf(),
            old(self).post_enter_cycle(*final(self), target),
    {
        self.input_mode = match target {
            CycleTarget::Timezone => InputMode::SelectingTimezone(self.td.timezone_idx),
            CycleTarget::CpMonday => InputMode::EditingCpMonday(self.add_cp.monday),
            CycleTarget::CpHours => InputMode::EditingCpHours(self.add_cp.hours_idx),
            CycleTarget::OwMonday => InputMode::EditingOwMonday(self.add_ow.monday),
        };
    }

    /// Whether cycling `target` by `delta` keeps the edited date in chrono's range.
    pub open spec fn can_cycle(&self, target: CycleTarget, delta: int) -> bool {
        &&& target == CycleTarget::CpMonday ==> day_in_range(
            self.add_cp.monday + spec_week_step(delta),
        )
        &&& target == CycleTarget::OwMonday ==> day_in_range(
            self.add_ow.monday + spec_week_step(delta),
        )
    }

    /// What `cycle` leaves behind, as a relation between the state before
    /// and after it.
    pub open spec fn post_cycle(self, next: Self, target: CycleTarget, delta: i32, r: Effect) -> bool {
        &&& match target {
                CycleTarget::Timezone => {
                    &&& next == (App {
                        td: (crate::app::TimeSettings {
                            timezone_idx: spec_cycle_idx(
                                self.td.timezone_idx as int,
                                delta as int,
                                TIMEZONE_COUNT as int,
                            ) as usize,
                            ..self.td
                        }),
                        ..self
                    })
                    &&& r == Effect::SaveTimeSettings
                },
                CycleTarget::CpMonday => {
                    &&& next == (App {
                        add_cp: (crate::app::AddCpForm {
                            monday: (self.add_cp.monday + spec_week_step(delta as int)) as i32,
                            ..self.add_cp
                        }),
                        ..self
                    })
                    &&& r == Effect::Nothing
                },
                CycleTarget::CpHours => {
                    &&& next == (App {
                        add_cp: (crate::app::AddCpForm {
                            hours_idx: spec_cycle_idx(
                                self.add_cp.hours_idx as int,
                                delta as int,
                                WEEKLY_HOURS_OPTION_COUNT as int,
                            ) as usize,
                            ..self.add_cp
                        }),
                        ..self
                    })
                    &&& r == Effect::Nothing
                },
                CycleTarget::OwMonday => {
                    &&& next == (App {
                        add_ow: (crate::app::AddOwForm {
                            monday: (self.add_ow.monday + spec_week_step(delta as int)) as i32,
                        }),
                        ..self
                    })
                    &&& r == Effect::Nothing
                },
            }
    }

    /// Moves an edited value to the next (positive `delta`) or previous
    /// option: timezones and hour targets wrap around, dates move by a week.
    pub fn cycle(&mut self, target: CycleTarget, delta: i32) -> (r: Effect)
        requires
            old(self).wf(),
            old(self).can_cycle(target, delta as int),
        ensures
            final(self).wf(),
            old(self).post_cycle(*final(self), target, delta, r),
    {
        match target {
            CycleTarget::Timezone => {
                self.td.timezone_idx = cycle_idx(self.td.timezone_idx, delta, TIMEZONE_COUNT);
                Effect::SaveTimeSettings
            },
            CycleTarget::CpMonday => {
                self.add_cp.monday = shift_week(self.add_cp.monday, delta);
                Effect::Nothing
            },
            CycleTarget::CpHours => {
                self.add_cp.hours_idx = cycle_idx(
                    self.add_cp.hours_idx,
                    delta,
                    WEEKLY_HOURS_OPTION_COUNT,
                );
                Effect::Nothing
            },
            CycleTarget::OwMonday => {
                self.add_ow.monday = shift_week(self.add_ow.monday, delta);
                Effect::Nothing
            },
        }
    }

    /// What `cancel_cycle_edit` leaves behind, as a relation between the state before
    /// and after it.
    pub open spec fn post_cancel_cycle_edit(self, next: Self, r: Effect) -> bool {
        &&& next.input_mode is Normal
        &&& match self.input_mode {
                InputMode::SelectingTimezone(s) => {
                    &&& next.td == (crate::app::TimeSettings {
                        timezone_idx: s,
                        ..self.td
                    })
                    &&& next.add_cp == self.add_cp
                    &&& next.add_ow == self.add_ow
                    &&& r == Effect::SaveTimeSettings
                },
                InputMode::EditingCpMonday(d) => {
                    &&& next.td == self.td
                    &&& next.add_cp == (crate::app::AddCpForm {
                        monday: d,
                        ..self.add_cp
                    })
                    &&& next.add_ow == self.add_ow
                    &&& r == Effect::Nothing
                },
                InputMode::EditingCpHours(h) => {
                    &&& next.td == self.td
                    &&& next.add_cp == (crate::app::AddCpForm {
                        hours_idx: h,
                        ..self.add_cp
                    })
                    &&& next.add_ow == self.add_ow
                    &&& r == Effect::Nothing
                },
                InputMode::EditingOwMonday(d) => {
                    &&& next.td == self.td
                    &&& next.add_cp == self.add_cp
                    &&& next.add_ow == (crate::app::AddOwForm { monday: d })
                    &&& r == Effect::Nothing
                },
                _ => {
                    &&& next.td == self.td
                    &&& next.add_cp == self.add_cp
                    &&& next.add_ow == self.add_ow
                    &&& r == Effect::Nothing
                },
            }
        &&& next == (App {
                input_mode: InputMode::Normal,
                td: next.td,
                add_cp: next.add_cp,
                add_ow: next.add_ow,
                ..self
            })
    }

    /// Ends a cycling edit by restoring the value it started from.
    pub fn cancel_cycle_edit(&mut self) -> (r: Effect)
        requires
            old(self).wf(),
        ensures
            final(self).wf(),
            old(self).post_cancel_cycle_edit(*final(self), r),
    {
        let r = match &self.input_mode {
            InputMode::SelectingTimezone(snapshot) => {
                self.td.timezone_idx = *snapshot;
                Effect::SaveTimeSettings
            },
            InputMode::EditingCpMonday(snapshot) => {
                self.add_cp.monday = *snapshot;
                Effect::Nothing
            },
            InputMode::EditingCpHours(snapshot) => {
                self.add_cp.hours_idx = *snapshot;
                Effect::Nothing
            },
            InputMode::EditingOwMonday(snapshot) => {
                self.add_ow.monday = *snapshot;
                Effect::Nothing
            },
            _ => Effect::Nothing,
        };
        self.input_mode = InputMode::Normal;
        r
    }

    /// What `toggle_repo` leaves behind, as a relation between the state before
    /// and after it.
    pub open spec fn post_toggle_repo(self, next: Self, name: Seq<char>, r: Effect) -> bool {
        &&& match spec_find_repo(self.sync.repos@, name) {
                Some(i) => {
                    &&& next.sync.repos@ == self.sync.repos@.update(
                        i,
                        UpstreamRepo { enabled: !self.sync.repos@[i].enabled, ..self.sync.repos@[i] },
                    )
                    &&& r == Effect::SaveSyncSettings
                },
                None => {
                    &&& next.sync.repos@ == self.sync.repos@
                    &&& r == Effect::Nothing
                },
            }
        &&& next == (App {
                sync: (SyncSettings { repos: next.sync.repos, ..self.sync }),
                ..self
            })
    }

    /// Flips whether the named repository takes part in sync.
    pub fn toggle_repo(&mut self, name: &str) -> (r: Effect)
        requires
            old(self).wf(),
        ensures
            final(self).wf(),
            old(self).post_toggle_repo(*final(self), name@, r),
    {
        match find_repo(&self.sync.repos, name) {
            Some(i) => {
                proof {
                    lemma_find_repo_sound(self.sync.repos@, name@);
                }
                let mut repo = self.sync.repos[i].clone();
                repo.enabled = !repo.enabled;
                self.sync.repos.set(i, repo);
                Effect::SaveSyncSettings
            },
            None => Effect::Nothing,
        }
    }

    /// What `confirm_delete_repo` leaves behind, as a relation between the state before
    /// and after it.
    pub open spec fn post_confirm_delete_repo(self, next: Self, name: String) -> bool {
        &&& next == (App { input_mode: InputMode::ConfirmDelete(name), ..self })
    }

    /// Asks for confirmation before removing the named repository.
    pub fn confirm_delete_repo(&mut self, name: String)
        requires
            old(self).wf(),
        ensures
            final(self).wf(),
            old(self).post_confirm_delete_repo(*final(self), name),
    {
        self.input_mode = InputMode::ConfirmDelete(name);
    }

    /// What `execute_delete_repo` leaves behind, as a relation between the state before
    /// and after it.
    pub open spec fn post_execute_delete_repo(self, next: Self, name: Seq<char>, r: Effect) -> bool {
        &&& next.sync.repos@ == spec_without_repo(self.sync.repos@, name)
        &&& next.selections@ == self.selections@.update(
                spec_list_slot(Screen::RemoveRepos)->0,
                spec_clamp_to_last(
                    spec_remove_repo_items(next.sync.repos@),
                    self.spec_selected(Screen::RemoveRepos),
                ) as usize,
            )
        &&& next == (App {
                sync: (SyncSettings { repos: next.sync.repos, ..self.sync }),
                input_mode: InputMode::Normal,
                selections: next.selections,
                ..self
            })
        &&& r == Effect::SaveSyncSettings
    }

    /// Removes every repository of the given name, leaves the confirmation
    /// and keeps the selection of the removal list on an existing row.
    pub fn execute_delete_repo(&mut self, name: &str) -> (r: Effect)
        requires
            old(self).wf(),
        ensures
            final(self).wf(),
            old(self).post_execute_delete_repo(*final(self), name@, r),
    {
        let kept = without_repo(&self.sync.repos, name);
        self.sync.repos = kept;
        self.input_mode = InputMode::Normal;
        let rows = self.remove_repo_items();
        let cur = self.selected_index(Screen::RemoveRepos);
        let clamped = clamp_to_last_interactive(&rows, cur);
        self.select(Screen::RemoveRepos, clamped);
        Effect::SaveSyncSettings
    }

    /// What `confirm_delete_period` leaves behind, as a relation between the state before
    /// and after it.
    pub open spec fn post_confirm_delete_period(self, next: Self, index: usize) -> bool {
        &&& next == (App { input_mode: InputMode::ConfirmDeletePeriod(index), ..self })
    }

    /// Asks for confirmation before removing the contract period at `index`.
    pub fn confirm_delete_period(&mut self, index: usize)
        requires
            old(self).wf(),
        ensures
            final(self).wf(),
            old(self).post_confirm_delete_period(*final(self), index),
    {
        self.input_mode = InputMode::ConfirmDeletePeriod(index);
    }

    /// What `execute_delete_period` leaves behind, as a relation between the state before
    /// and after it.
    pub open spec fn post_execute_delete_period(self, next: Self, index: usize, r: Effect) -> bool {
        &&& next.td.contract_periods@ == if index < self.td.contract_periods@.len() {
                self.td.contract_periods@.remove(index as int)
            } else {
                self.td.contract_periods@
            }
        &&& next.selections@ == self.selections@.update(
                spec_list_slot(Screen::ContractPeriods)->0,
                spec_clamp_to_last(
                    spec_cp_list_items(next.td.contract_periods@),
                    self.spec_selected(Screen::ContractPeriods),
                ) as usize,
            )
        &&& next == (App {
                td: (TimeSettings { contract_periods: next.td.contract_periods, ..self.td }),
                input_mode: InputMode::Normal,
                selections: next.selections,
                ..self
            })
        &&& r == if index < self.td.contract_periods@.len() {
                Effect::SaveTimeSettings
            } else {
                Effect::Nothing
            }
    }

    /// Removes the contract period at `index` when there is one, leaves the
    /// confirmation and keeps the selection on an existing row.
    pub fn execute_delete_period(&mut self, index: usize) -> (r: Effect)
        requires
            old(self).wf(),
        ensures
            final(self).wf(),
            old(self).post_execute_delete_period(*final(self), index, r),
    {
        let r = if index < self.td.contract_periods.len() {
            let ghost s = self.td.contract_periods@;
            self.td.contract_periods.remove(index);
            proof {
                let t = self.td.contract_periods@;
                assert forall|i: int| 0 <= i < t.len() implies #[trigger] t[i] == s[if i < index {
                    i
                } else {
                    i + 1
                }] by {}
                assert forall|i: int, j: int| 0 <= i < j < t.len() implies t[i].from <= t[j].from by {
                    let a = if i < index { i } else { i + 1 };
                    let b = if j < index { j } else { j + 1 };
                    assert(t[i] == s[a]);
                    assert(t[j] == s[b]);
                }
                assert forall|i: int| 0 <= i < t.len() implies day_in_range(#[trigger] t[i].from as int) by {
                    let a = if i < index { i } else { i + 1 };
                    assert(t[i] == s[a]);
                }
            }
            Effect::SaveTimeSettings
        } else {
            Effect::Nothing
        };
        self.input_mode = InputMode::Normal;
        let rows = self.cp_list_items();
        let cur = self.selected_index(Screen::ContractPeriods);
        let clamped = clamp_to_last_interactive(&rows, cur);
        self.select(Screen::ContractPeriods, clamped);
        r
    }

    /// What `save_new_contract_period` leaves behind, as a relation between the state before
    /// and after it.
    pub open spec fn post_save_new_contract_period(self, next: Self, r: Effect) -> bool {
        &&& next.td.contract_periods@ == spec_save_period(
                self.td.contract_periods@,
                spec_form_entry(self.add_cp),
            )
        &&& next.selections@ == match spec_find_period(
                self.td.contract_periods@,
                self.add_cp.monday as int,
            ) {
                Some(_) => self.selections@,
                None => self.selections@.update(
                    spec_list_slot(Screen::ContractPeriods)->0,
                    (self.spec_selected(Screen::ContractPeriods) + 1) as usize,
                ),
            }
        &&& next.td.contract_periods@.len() > 0
        &&& next.add_cp == (AddCpForm {
                monday: next.td.contract_periods@.last().from,
                hours_idx: DEFAULT_HOURS_INDEX,
            })
        &&& next == (App {
                td: (TimeSettings { contract_periods: next.td.contract_periods, ..self.td }),
                add_cp: next.add_cp,
                selections: next.selections,
                ..self
            })
        &&& r == Effect::SaveTimeSettings
    }

    /// Saves the contract-period form: the hours of a period with the same
    /// start day are replaced, otherwise the period is added in order of start
    /// day and the selection moves down with the rows. The form then starts
    /// again from the last period's start day at the default hours.
    pub fn save_new_contract_period(&mut self) -> (r: Effect)
        requires
            old(self).wf(),
            old(self).spec_selected(Screen::ContractPeriods) < usize::MAX,
        ensures
            final(self).wf(),
            old(self).post_save_new_contract_period(*final(self), r),
    {
        let entry = ContractPeriod {
            from: self.add_cp.monday,
            weekly_hours: weekly_hours_option(self.add_cp.hours_idx),
        };
        let ghost s = self.td.contract_periods@;
        match find_period(&self.td.contract_periods, entry.from) {
            Some(i) => {
                proof {
                    lemma_find_period_sound(s, entry.from as int);
                }
                let mut p = self.td.contract_periods[i];
                p.weekly_hours = entry.weekly_hours;
                self.td.contract_periods.set(i, p);
                proof {
                    let t = self.td.contract_periods@;
                    assert forall|a: int| 0 <= a < t.len() implies #[trigger] t[a].from == s[a].from by {}
                    assert forall|a: int, b: int| 0 <= a < b < t.len() implies t[a].from <= t[b].from by {
                        assert(t[a].from == s[a].from);
                        assert(t[b].from == s[b].from);
                    }
                    assert forall|a: int| 0 <= a < t.len() implies day_in_range(#[trigger] t[a].from as int) by {
                        assert(t[a].from == s[a].from);
                    }
                }
            },
            None => {
                insert_sorted(&mut self.td.contract_periods, entry);
                proof {
                    assert(s.push(entry).drop_last() =~= s);
                    lemma_sort_of_sorted(s);
                    lemma_insert_sorted(s, entry);
                    lemma_upper_bound_facts(s, entry.from);
                    let k = spec_upper_bound(s, entry.from);
                    let t = self.td.contract_periods@;
                    assert forall|a: int| 0 <= a < t.len() implies day_in_range(#[trigger] t[a].from as int) by {
                        if a < k {
                            assert(t[a] == s[a]);
                        } else if a > k {
                            assert(t[a] == s[a - 1]);
                        }
                    }
                }
                let cur = self.selected_index(Screen::ContractPeriods);
                self.select(Screen::ContractPeriods, cur + 1);
            },
        }
        let n = self.td.contract_periods.len();
        self.add_cp.monday = self.td.contract_periods[n - 1].from;
        self.add_cp.hours_idx = DEFAULT_HOURS_INDEX;
        Effect::SaveTimeSettings
    }

    /// What `add_repo_from_input` leaves behind, as a relation between the state before
    /// and after it.
    pub open spec fn post_add_repo_from_input(self, next: Self, url: String, r: Effect) -> bool {
        &&& spec_adds_repo(self.sync.repos@, url@) ==> {
                let n = spec_normalize_url(url@);
                let added = next.sync.repos@.last();
                &&& next.sync.repos@.len() == self.sync.repos@.len() + 1
                &&& next.sync.repos@.drop_last() == self.sync.repos@
                &&& added.url@ == n
                &&& added.name@ == spec_name_from_url(n)
                &&& added.enabled
                &&& r == Effect::SaveSyncSettings
            }
        &&& !spec_adds_repo(self.sync.repos@, url@) ==> {
                &&& next.sync.repos@ == self.sync.repos@
                &&& r == Effect::Nothing
            }
        &&& next == (App {
                sync: (SyncSettings { repos: next.sync.repos, ..self.sync }),
                ..self
            })
    }

    /// Adds a repository from the URL typed into the add field: the URL is
    /// normalised and the repository named after its last path segment;
    /// nothing is added when either is empty or already in use.
    pub fn add_repo_from_input(&mut self, url: String) -> (r: Effect)
        requires
            old(self).wf(),
        ensures
            final(self).wf(),
            old(self).post_add_repo_from_input(*final(self), url, r),
    {
        let normalized = normalize_url(url.as_str());
        if normalized.unicode_len() == 0 {
            return Effect::Nothing;
        }
        let name = name_from_url(normalized.as_str());
        if name.unicode_len() == 0 {
            return Effect::Nothing;
        }
        if url_taken(&self.sync.repos, normalized.as_str()) || name_taken(
            &self.sync.repos,
            name.as_str(),
        ) {
            return Effect::Nothing;
        }
        self.sync.repos.push(UpstreamRepo { url: normalized, name, enabled: true });
        proof {
            assert(self.sync.repos@.drop_last() =~= old(self).sync.repos@);
        }
        Effect::SaveSyncSettings
    }
}

} // verus!
