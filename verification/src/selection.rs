//! The selected row of each list screen and how it moves.
use vstd::prelude::*;

use crate::app::{spec_settings_items, App, TIMEZONE_COUNT};
use crate::builders::{
    spec_cp_list_items, spec_main_menu_kinds, spec_remove_repo_items, spec_repo_manager_items,
    spec_sync_general_items, spec_td_general_items, spec_td_settings_items,
};
use crate::navigation::{
    first_interactive, interactive_at, lemma_first_interactive_in_range, navigate_rows, navigate_simple, spec_first_interactive,
    spec_navigate_rows, spec_navigate_simple,
};
use crate::rows::{CpListRow, RemoveRepoRow, RepoManagerRow};
use crate::screen::{list_slot, spec_list_slot, Screen, LIST_SCREEN_COUNT};

verus! {

impl<R> App<R> {
    /// The selected row of a list screen.
    pub open spec fn spec_selected(&self, screen: Screen) -> int {
        self.selections@[spec_list_slot(screen)->0] as int
    }

    /// Whether the Time Doctor credentials rows can be built (the password
    /// lookup has been done) or are not needed on `screen`.
    pub open spec fn rows_ready(&self, screen: Screen) -> bool {
        screen == Screen::TimeDoctorSettings ==> self.td.password_is_set is Some
    }

    /// Number of rows the list of `screen` shows.
    pub open spec fn spec_row_count(&self, screen: Screen) -> int {
        match screen {
            Screen::MainMenu => spec_main_menu_kinds(self.available_update).len() as int,
            Screen::Settings => spec_settings_items().len() as int,
            Screen::SyncGeneralSettings => 10,
            Screen::TdGeneralSettings => 7,
            Screen::RepoManager => self.sync.repos@.len() + 7int,
            Screen::RemoveRepos => self.sync.repos@.len() + 3int,
            Screen::TimeDoctorSettings => 5,
            Screen::ContractPeriods => self.td.contract_periods@.len() + 11int,
            _ => 0,
        }
    }

    /// Row that entering `screen` selects: its first interactive row.
    pub open spec fn spec_first_target(&self, screen: Screen) -> int {
        match screen {
            Screen::Settings => spec_first_interactive(spec_settings_items()),
            Screen::SyncGeneralSettings => spec_first_interactive(
                spec_sync_general_items(
                    self.sync.use_cache,
                    self.sync.skip_fork_sync,
                    self.sync.skip_rebase,
                    self.sync.skip_rds_sync,
                    self.sync.smart_sync,
                ),
            ),
            Screen::TdGeneralSettings => spec_first_interactive(
                spec_td_general_items(
                    self.td.use_time_cache,
                    self.td.skip_current_week,
                    self.td.timezone_idx as int,
                ),
            ),
            Screen::RepoManager => spec_first_interactive(spec_repo_manager_items(self.sync.repos@)),
            Screen::RemoveRepos => spec_first_interactive(spec_remove_repo_items(self.sync.repos@)),
            Screen::TimeDoctorSettings => spec_first_interactive(
                spec_td_settings_items(self.td.email, self.td.password_is_set->0),
            ),
            Screen::ContractPeriods => spec_first_interactive(
                spec_cp_list_items(self.td.contract_periods@),
            ),
            _ => 0,
        }
    }

    /// Row that a move by `delta` from row `cur` of `screen` selects.
    pub open spec fn spec_nav_target(&self, screen: Screen, cur: int, delta: int) -> int {
        match screen {
            Screen::MainMenu => spec_navigate_simple(
                spec_main_menu_kinds(self.available_update).len() as int,
                cur,
                delta,
            ),
            Screen::Settings => spec_navigate_rows(spec_settings_items(), cur, delta),
            Screen::SyncGeneralSettings => spec_navigate_rows(
                spec_sync_general_items(
                    self.sync.use_cache,
                    self.sync.skip_fork_sync,
                    self.sync.skip_rebase,
                    self.sync.skip_rds_sync,
                    self.sync.smart_sync,
                ),
                cur,
                delta,
            ),
            Screen::TdGeneralSettings => spec_navigate_rows(
                spec_td_general_items(
                    self.td.use_time_cache,
                    self.td.skip_current_week,
                    self.td.timezone_idx as int,
                ),
                cur,
                delta,
            ),
            Screen::RepoManager => spec_navigate_rows(
                spec_repo_manager_items(self.sync.repos@),
                cur,
                delta,
            ),
            Screen::RemoveRepos => spec_navigate_rows(
                spec_remove_repo_items(self.sync.repos@),
                cur,
                delta,
            ),
            Screen::TimeDoctorSettings => spec_navigate_rows(
                spec_td_settings_items(self.td.email, self.td.password_is_set->0),
                cur,
                delta,
            ),
            Screen::ContractPeriods => spec_navigate_rows(
                spec_cp_list_items(self.td.contract_periods@),
                cur,
                delta,
            ),
            _ => cur,
        }
    }

    /// Whether a move by `delta` on the current screen stays within what the
    /// list can index: the selection is inside the list, or just past its
    /// end when moving up. The main menu only needs room to count up.
    pub open spec fn can_navigate(&self, delta: int) -> bool {
        let cur = self.spec_selected(self.screen);
        let n = self.spec_row_count(self.screen);
        &&& spec_list_slot(self.screen) is Some
        &&& self.rows_ready(self.screen)
        &&& n < usize::MAX
        &&& cur < usize::MAX
        &&& (self.screen != Screen::MainMenu ==> (cur < n || (delta < 0 && cur == n)))
    }

    pub fn selected_index(&self, screen: Screen) -> (r: usize)
        requires
            self.wf(),
            spec_list_slot(screen) is Some,
        ensures
            r == self.spec_selected(screen),
    {
        let slot = list_slot(screen);
        match slot {
            Some(k) => self.selections[k],
            None => 0,
        }
    }

    /// What `select` leaves behind, as a relation between the state before
    /// and after it.
    pub open spec fn post_select(self, next: Self, screen: Screen, i: usize) -> bool {
        &&& next.selections@ == self.selections@.update(
                spec_list_slot(screen)->0,
                i,
            )
        &&& next == (App { selections: next.selections, ..self })
    }


    pub fn select(&mut self, screen: Screen, i: usize)
        requires
            old(self).wf(),
            spec_list_slot(screen) is Some,
        ensures
            final(self).wf(),
            old(self).post_select(*final(self), screen, i),
    {
        let slot = list_slot(screen);
        match slot {
            Some(k) => {
                self.selections.set(k, i);
            },
            None => {},
        }
    }

    /// What `select_first_interactive` leaves behind, as a relation between the state before
    /// and after it.
    pub open spec fn post_select_first_interactive(self, next: Self, screen: Screen) -> bool {
        &&& next.selections@ == self.selections@.update(
                spec_list_slot(screen)->0,
                self.spec_first_target(screen) as usize,
            )
        &&& next == (App { selections: next.selections, ..self })
        &&& 0 <= self.spec_first_target(screen) < self.spec_row_count(screen)
    }

    /// Selects the first interactive row of `screen` (row 0 on the main menu).
    pub fn select_first_interactive(&mut self, screen: Screen)
        requires
            old(self).wf(),
            spec_list_slot(screen) is Some,
            old(self).rows_ready(screen),
        ensures
            final(self).wf(),
            old(self).post_select_first_interactive(*final(self), screen),
    {
        let i: usize = match screen {
            Screen::Settings => first_interactive(&self.settings_items()),
            Screen::SyncGeneralSettings => first_interactive(&self.sync_general_items()),
            Screen::TdGeneralSettings => first_interactive(&self.td_general_items()),
            Screen::RepoManager => first_interactive(&self.repo_manager_items()),
            Screen::RemoveRepos => first_interactive(&self.remove_repo_items()),
            Screen::TimeDoctorSettings => first_interactive(&self.td_settings_items()),
            Screen::ContractPeriods => first_interactive(&self.cp_list_items()),
            _ => 0,
        };
        proof {
            self.lemma_first_target_in_range(screen);
        }
        self.select(screen, i);
    }

    proof fn lemma_first_target_in_range(&self, screen: Screen)
        requires
            self.wf(),
            spec_list_slot(screen) is Some,
        ensures
            0 <= self.spec_first_target(screen) < self.spec_row_count(screen),
    {
        match screen {
            Screen::Settings => {
                lemma_first_interactive_in_range(spec_settings_items(), 2);
            },
            Screen::SyncGeneralSettings => {
                let rows = spec_sync_general_items(
                    self.sync.use_cache,
                    self.sync.skip_fork_sync,
                    self.sync.skip_rebase,
                    self.sync.skip_rds_sync,
                    self.sync.smart_sync,
                );
                lemma_first_interactive_in_range(rows, 0);
            },
            Screen::TdGeneralSettings => {
                let rows = spec_td_general_items(
                    self.td.use_time_cache,
                    self.td.skip_current_week,
                    self.td.timezone_idx as int,
                );
                lemma_first_interactive_in_range(rows, 0);
            },
            Screen::RepoManager => {
                let rows = spec_repo_manager_items(self.sync.repos@);
                assert(rows[self.sync.repos@.len() + 1int] == RepoManagerRow::AddUrl);
                lemma_first_interactive_in_range(rows, self.sync.repos@.len() + 1int);
            },
            Screen::RemoveRepos => {
                let rows = spec_remove_repo_items(self.sync.repos@);
                assert(rows[self.sync.repos@.len() + 2int] == RemoveRepoRow::Back);
                lemma_first_interactive_in_range(rows, self.sync.repos@.len() + 2int);
            },
            Screen::TimeDoctorSettings => {
                let rows = spec_td_settings_items(self.td.email, self.td.password_is_set->0);
                lemma_first_interactive_in_range(rows, 0);
            },
            Screen::ContractPeriods => {
                let rows = spec_cp_list_items(self.td.contract_periods@);
                assert(rows[self.td.contract_periods@.len() + 4int] == CpListRow::MondayField);
                lemma_first_interactive_in_range(rows, self.td.contract_periods@.len() + 4int);
            },
            _ => {},
        }
    }

    /// What `navigate_current` leaves behind, as a relation between the state before
    /// and after it.
    pub open spec fn post_navigate_current(self, next: Self, delta: i32) -> bool {
        &&& next.selections@ == self.selections@.update(
                spec_list_slot(self.screen)->0,
                self.spec_nav_target(
                    self.screen,
                    self.spec_selected(self.screen),
                    delta as int,
                ) as usize,
            )
        &&& next == (App { selections: next.selections, ..self })
    }

    /// Moves the selection of the current screen by `delta`, skipping rows
    /// that cannot be selected.
    pub fn navigate_current(&mut self, delta: i32)
        requires
            old(self).wf(),
            old(self).can_navigate(delta as int),
        ensures
            final(self).wf(),
            old(self).post_navigate_current(*final(self), delta),
    {
        let screen = self.screen;
        let cur = self.selected_index(screen);
        let next: usize = match screen {
            Screen::Settings => navigate_rows(&self.settings_items(), cur, delta),
            Screen::SyncGeneralSettings => navigate_rows(&self.sync_general_items(), cur, delta),
            Screen::TdGeneralSettings => navigate_rows(&self.td_general_items(), cur, delta),
            Screen::RepoManager => navigate_rows(&self.repo_manager_items(), cur, delta),
            Screen::RemoveRepos => navigate_rows(&self.remove_repo_items(), cur, delta),
            Screen::TimeDoctorSettings => navigate_rows(&self.td_settings_items(), cur, delta),
            Screen::ContractPeriods => navigate_rows(&self.cp_list_items(), cur, delta),
            Screen::MainMenu => navigate_simple(self.main_menu_items().len(), cur, delta),
            _ => cur,
        };
        self.select(screen, next);
    }
}

} // verus!
