//! The rows that each screen lists, derived from the UI state.
use vstd::prelude::*;

use crate::app::{
    spec_settings_items, spec_timezone, timezone, App, ContractPeriod, UpstreamRepo,
    TIMEZONE_COUNT,
};
use crate::rows::{
    CpListRow, Day, GeneralToggleRow, OwListRow, RemoveRepoRow, RepoManagerRow, SettingRow,
    TimeDoctorField, TimeSettingRow, ToggleKind, SECTION_RDS_SYNC, SECTION_TIME_DOCTOR,
};
use crate::screen::{MainMenuItem, MainMenuKind};
use crate::text::owned;

verus! {

/// Kinds of the main-menu entries, in order; the update entry is offered
/// only when a newer release is known.
pub open spec fn spec_main_menu_kinds(available_update: Option<Option<String>>) -> Seq<
    MainMenuKind,
> {
    let head = seq![MainMenuKind::Sync, MainMenuKind::TimeDoctor];
    let mid = match available_update {
        Some(Some(_)) => seq![MainMenuKind::Update],
        _ => Seq::<MainMenuKind>::empty(),
    };
    head + mid + seq![MainMenuKind::Settings, MainMenuKind::Exit]
}

/// Name and description shown for a main-menu entry.
pub open spec fn spec_menu_text(kind: MainMenuKind, available_update: Option<Option<String>>) -> (
    Seq<char>,
    Seq<char>,
) {
    match kind {
        MainMenuKind::Sync => ("Sync"@, "Sync RDS to upstream"@),
        MainMenuKind::TimeDoctor => ("Time Doctor"@, "Track your work hours"@),
        MainMenuKind::Update => (
            "Update"@,
            "New release available — v"@ + match available_update {
                Some(Some(v)) => v@,
                _ => Seq::<char>::empty(),
            },
        ),
        MainMenuKind::Settings => ("Settings"@, "Configure jotmate"@),
        MainMenuKind::Exit => ("Exit"@, Seq::<char>::empty()),
    }
}

fn menu_item(kind: MainMenuKind, name: &str, desc: String) -> (r: MainMenuItem)
    ensures
        r.kind == kind,
        r.name@ == name@,
        r.desc == desc,
{
    MainMenuItem { kind, name: owned(name), desc }
}

pub open spec fn spec_sync_general_items(
    use_cache: bool,
    skip_fork_sync: bool,
    skip_rebase: bool,
    skip_rds_sync: bool,
    smart_sync: bool,
) -> Seq<GeneralToggleRow> {
    seq![
        GeneralToggleRow::Toggle {
            kind: ToggleKind::UseCache,
            label: "Use repo path cache",
            hint: "",
            on: use_cache,
            indent: false,
            disabled: false,
        },
        GeneralToggleRow::Blank,
        GeneralToggleRow::Toggle {
            kind: ToggleKind::SkipForkSync,
            label: "Fork sync",
            hint: "fetch+merge+push upstream",
            on: !skip_fork_sync,
            indent: false,
            disabled: false,
        },
        GeneralToggleRow::Toggle {
            kind: ToggleKind::SkipRebase,
            label: "Rebase",
            hint: "rebase branch after merge",
            on: !skip_rebase,
            indent: true,
            disabled: skip_fork_sync,
        },
        GeneralToggleRow::Blank,
        GeneralToggleRow::Toggle {
            kind: ToggleKind::SkipRdsSync,
            label: "RDS sync",
            hint: "./sync in each repo",
            on: !skip_rds_sync,
            indent: false,
            disabled: false,
        },
        GeneralToggleRow::Toggle {
            kind: ToggleKind::SmartSync,
            label: "Smart sync",
            hint: "skip if no changes",
            on: smart_sync,
            indent: true,
            disabled: skip_rds_sync,
        },
        GeneralToggleRow::Blank,
        GeneralToggleRow::Separator,
        GeneralToggleRow::Back,
    ]
}

pub open spec fn spec_td_general_items(
    use_time_cache: bool,
    skip_current_week: bool,
    timezone_idx: int,
) -> Seq<GeneralToggleRow> {
    seq![
        GeneralToggleRow::Toggle {
            kind: ToggleKind::UseTimeCache,
            label: "Use time cache",
            hint: "",
            on: use_time_cache,
            indent: false,
            disabled: false,
        },
        GeneralToggleRow::Toggle {
            kind: ToggleKind::SkipCurrentWeek,
            label: "Include current week",
            hint: "show incomplete week",
            on: !skip_current_week,
            indent: false,
            disabled: false,
        },
        GeneralToggleRow::Blank,
        GeneralToggleRow::TimezoneSelector { value: spec_timezone(timezone_idx) },
        GeneralToggleRow::Blank,
        GeneralToggleRow::Separator,
        GeneralToggleRow::Back,
    ]
}

pub open spec fn spec_td_settings_items(email: String, password_is_set: bool) -> Seq<
    TimeSettingRow,
> {
    seq![
        TimeSettingRow::EditField {
            field: TimeDoctorField::Email,
            label: "Email",
            value: email,
            masked: false,
        },
        TimeSettingRow::Password { is_set: password_is_set },
        TimeSettingRow::Blank,
        TimeSettingRow::Separator,
        TimeSettingRow::Back,
    ]
}

pub open spec fn spec_cp_tail() -> Seq<CpListRow> {
    seq![
        CpListRow::Blank,
        CpListRow::Separator,
        CpListRow::MondayField,
        CpListRow::HoursField,
        CpListRow::Blank,
        CpListRow::SavePeriod,
        CpListRow::Separator,
        CpListRow::Blank,
        CpListRow::Back,
    ]
}

pub open spec fn spec_cp_list_items(periods: Seq<ContractPeriod>) -> Seq<CpListRow> {
    seq![CpListRow::SectionTitle("Contract Periods"), CpListRow::Blank] + Seq::new(
        periods.len(),
        |i: int|
            CpListRow::Period { index: i as usize, from: periods[i].from, weekly_hours: periods[i].weekly_hours },
    ) + spec_cp_tail()
}

pub open spec fn spec_ow_tail() -> Seq<OwListRow> {
    seq![
        OwListRow::Blank,
        OwListRow::Separator,
        OwListRow::MondayField,
        OwListRow::Blank,
        OwListRow::SaveOffWeek,
        OwListRow::Separator,
        OwListRow::Blank,
        OwListRow::Back,
    ]
}

pub open spec fn spec_ow_list_items(off_weeks: Seq<Day>) -> Seq<OwListRow> {
    seq![OwListRow::SectionTitle("Off Weeks"), OwListRow::Blank] + Seq::new(
        off_weeks.len(),
        |i: int| OwListRow::OffWeek { index: i as usize, monday: off_weeks[i] },
    ) + spec_ow_tail()
}

pub open spec fn spec_repo_manager_tail() -> Seq<RepoManagerRow> {
    seq![
        RepoManagerRow::Blank,
        RepoManagerRow::AddUrl,
        RepoManagerRow::Blank,
        RepoManagerRow::RemoveReposLink,
        RepoManagerRow::Blank,
        RepoManagerRow::Separator,
        RepoManagerRow::Back,
    ]
}

pub open spec fn spec_repo_manager_items(repos: Seq<UpstreamRepo>) -> Seq<RepoManagerRow> {
    Seq::new(
        repos.len(),
        |i: int|
            RepoManagerRow::RepoToggle {
                name: repos[i].name,
                url: repos[i].url,
                enabled: repos[i].enabled,
            },
    ) + spec_repo_manager_tail()
}

pub open spec fn spec_remove_repo_tail() -> Seq<RemoveRepoRow> {
    seq![RemoveRepoRow::Blank, RemoveRepoRow::Separator, RemoveRepoRow::Back]
}

pub open spec fn spec_remove_repo_items(repos: Seq<UpstreamRepo>) -> Seq<RemoveRepoRow> {
    Seq::new(
        repos.len(),
        |i: int| RemoveRepoRow::RepoDelete { name: repos[i].name, url: repos[i].url },
    ) + spec_remove_repo_tail()
}

impl<R> App<R> {
    pub fn main_menu_items(&self) -> (r: Vec<MainMenuItem>)
        ensures
            r@.len() == spec_main_menu_kinds(self.available_update).len(),
            forall|i: int|
                0 <= i < r@.len() ==> {
                    let k = spec_main_menu_kinds(self.available_update)[i];
                    &&& (#[trigger] r@[i]).kind == k
                    &&& r@[i].name@ == spec_menu_text(k, self.available_update).0
                    &&& r@[i].desc@ == spec_menu_text(k, self.available_update).1
                },
    {
        let mut items: Vec<MainMenuItem> = Vec::new();
        items.push(menu_item(MainMenuKind::Sync, "Sync", owned("Sync RDS to upstream")));
        items.push(
            menu_item(MainMenuKind::TimeDoctor, "Time Doctor", owned("Track your work hours")),
        );
        if let Some(Some(version)) = &self.available_update {
            let mut desc = owned("New release available — v");
            desc.append(version.as_str());
            items.push(menu_item(MainMenuKind::Update, "Update", desc));
        }
        items.push(menu_item(MainMenuKind::Settings, "Settings", owned("Configure jotmate")));
        items.push(menu_item(MainMenuKind::Exit, "Exit", String::new()));
        items
    }

    pub fn settings_items(&self) -> (r: Vec<SettingRow>)
        ensures
            r@ == spec_settings_items(),
    {
        let r = vec![
            SettingRow::Separator(SECTION_RDS_SYNC),
            SettingRow::Blank,
            SettingRow::SyncGeneralLink,
            SettingRow::ManageRepos,
            SettingRow::Blank,
            SettingRow::Separator(SECTION_TIME_DOCTOR),
            SettingRow::Blank,
            SettingRow::TdGeneralLink,
            SettingRow::TimeDoctorSettings,
            SettingRow::ContractPeriodsLink,
            SettingRow::OffWeeksLink,
            SettingRow::Blank,
            SettingRow::Divider,
            SettingRow::Back,
        ];
        assert(r@ =~= spec_settings_items());
        r
    }

    pub fn sync_general_items(&self) -> (r: Vec<GeneralToggleRow>)
        ensures
            r@ == spec_sync_general_items(
                self.sync.use_cache,
                self.sync.skip_fork_sync,
                self.sync.skip_rebase,
                self.sync.skip_rds_sync,
                self.sync.smart_sync,
            ),
    {
        let r = vec![
            GeneralToggleRow::Toggle {
                kind: ToggleKind::UseCache,
                label: "Use repo path cache",
                hint: "",
                on: self.sync.use_cache,
                indent: false,
                disabled: false,
            },
            GeneralToggleRow::Blank,
            GeneralToggleRow::Toggle {
                kind: ToggleKind::SkipForkSync,
                label: "Fork sync",
                hint: "fetch+merge+push upstream",
                on: !self.sync.skip_fork_sync,
                indent: false,
                disabled: false,
            },
            GeneralToggleRow::Toggle {
                kind: ToggleKind::SkipRebase,
                label: "Rebase",
                hint: "rebase branch after merge",
                on: !self.sync.skip_rebase,
                indent: true,
                disabled: self.sync.skip_fork_sync,
            },
            GeneralToggleRow::Blank,
            GeneralToggleRow::Toggle {
                kind: ToggleKind::SkipRdsSync,
                label: "RDS sync",
                hint: "./sync in each repo",
                on: !self.sync.skip_rds_sync,
                indent: false,
                disabled: false,
            },
            GeneralToggleRow::Toggle {
                kind: ToggleKind::SmartSync,
                label: "Smart sync",
                hint: "skip if no changes",
                on: self.sync.smart_sync,
                indent: true,
                disabled: self.sync.skip_rds_sync,
            },
            GeneralToggleRow::Blank,
            GeneralToggleRow::Separator,
            GeneralToggleRow::Back,
        ];
        assert(r@ =~= spec_sync_general_items(
            self.sync.use_cache,
            self.sync.skip_fork_sync,
            self.sync.skip_rebase,
            self.sync.skip_rds_sync,
            self.sync.smart_sync,
        ));
        r
    }

    pub fn td_general_items(&self) -> (r: Vec<GeneralToggleRow>)
        requires
            self.td.timezone_idx < TIMEZONE_COUNT,
        ensures
            r@ == spec_td_general_items(
                self.td.use_time_cache,
                self.td.skip_current_week,
                self.td.timezone_idx as int,
            ),
    {
        let r = vec![
            GeneralToggleRow::Toggle {
                kind: ToggleKind::UseTimeCache,
                label: "Use time cache",
                hint: "",
                on: self.td.use_time_cache,
                indent: false,
                disabled: false,
            },
            GeneralToggleRow::Toggle {
                kind: ToggleKind::SkipCurrentWeek,
                label: "Include current week",
                hint: "show incomplete week",
                on: !self.td.skip_current_week,
                indent: false,
                disabled: false,
            },
            GeneralToggleRow::Blank,
            GeneralToggleRow::TimezoneSelector { value: timezone(self.td.timezone_idx) },
            GeneralToggleRow::Blank,
            GeneralToggleRow::Separator,
            GeneralToggleRow::Back,
        ];
        assert(r@ =~= spec_td_general_items(
            self.td.use_time_cache,
            self.td.skip_current_week,
            self.td.timezone_idx as int,
        ));
        r
    }

    pub fn td_settings_items(&self) -> (r: Vec<TimeSettingRow>)
        requires
            self.td.password_is_set is Some,
        ensures
            r@ == spec_td_settings_items(self.td.email, self.td.password_is_set->0),
    {
        let is_set = match self.td.password_is_set {
            Some(b) => b,
            None => false,
        };
        let r = vec![
            TimeSettingRow::EditField {
                field: TimeDoctorField::Email,
                label: "Email",
                value: self.td.email.clone(),
                masked: false,
            },
            TimeSettingRow::Password { is_set },
            TimeSettingRow::Blank,
            TimeSettingRow::Separator,
            TimeSettingRow::Back,
        ];
        assert(r@ =~= spec_td_settings_items(self.td.email, self.td.password_is_set->0));
        r
    }

    pub fn cp_list_items(&self) -> (r: Vec<CpListRow>)
        ensures
            r@ == spec_cp_list_items(self.td.contract_periods@),
    {
        let mut rows: Vec<CpListRow> = vec![
            CpListRow::SectionTitle("Contract Periods"),
            CpListRow::Blank,
        ];
        let ps = &self.td.contract_periods;
        let mut i: usize = 0;
        while i < ps.len()
            invariant
                rows@.len() == 2 + i,
                i <= ps@.len(),
                rows@ =~= seq![CpListRow::SectionTitle("Contract Periods"), CpListRow::Blank]
                    + Seq::new(
                    i as nat,
                    |k: int|
                        CpListRow::Period {
                            index: k as usize,
                            from: ps@[k].from,
                            weekly_hours: ps@[k].weekly_hours,
                        },
                ),
            decreases ps.len() - i,
        {
            rows.push(
                CpListRow::Period { index: i, from: ps[i].from, weekly_hours: ps[i].weekly_hours },
            );
            i = i + 1;
        }
        rows.push(CpListRow::Blank);
        rows.push(CpListRow::Separator);
        rows.push(CpListRow::MondayField);
        rows.push(CpListRow::HoursField);
        rows.push(CpListRow::Blank);
        rows.push(CpListRow::SavePeriod);
        rows.push(CpListRow::Separator);
        rows.push(CpListRow::Blank);
        rows.push(CpListRow::Back);
        assert(rows@ =~= spec_cp_list_items(self.td.contract_periods@));
        rows
    }

    /// Rows of an off-weeks list. No screen shows them: the off-weeks link
    /// on the Settings screen leads nowhere, and no key opens such a list.
    pub fn ow_list_items(&self) -> (r: Vec<OwListRow>)
        ensures
            r@ == spec_ow_list_items(self.td.off_weeks@),
    {
        let mut rows: Vec<OwListRow> = vec![OwListRow::SectionTitle("Off Weeks"), OwListRow::Blank];
        let ws = &self.td.off_weeks;
        let mut i: usize = 0;
        while i < ws.len()
            invariant
                rows@.len() == 2 + i,
                i <= ws@.len(),
                rows@ =~= seq![OwListRow::SectionTitle("Off Weeks"), OwListRow::Blank] + Seq::new(
                    i as nat,
                    |k: int| OwListRow::OffWeek { index: k as usize, monday: ws@[k] },
                ),
            decreases ws.len() - i,
        {
            rows.push(OwListRow::OffWeek { index: i, monday: ws[i] });
            i = i + 1;
        }
        rows.push(OwListRow::Blank);
        rows.push(OwListRow::Separator);
        rows.push(OwListRow::MondayField);
        rows.push(OwListRow::Blank);
        rows.push(OwListRow::SaveOffWeek);
        rows.push(OwListRow::Separator);
        rows.push(OwListRow::Blank);
        rows.push(OwListRow::Back);
        assert(rows@ =~= spec_ow_list_items(self.td.off_weeks@));
        rows
    }

    pub fn repo_manager_items(&self) -> (r: Vec<RepoManagerRow>)
        ensures
            r@ == spec_repo_manager_items(self.sync.repos@),
    {
        let mut rows: Vec<RepoManagerRow> = Vec::new();
        let repos = &self.sync.repos;
        let mut i: usize = 0;
        while i < repos.len()
            invariant
                i <= repos@.len(),
                rows@ =~= Seq::new(
                    i as nat,
                    |k: int|
                        RepoManagerRow::RepoToggle {
                            name: repos@[k].name,
                            url: repos@[k].url,
                            enabled: repos@[k].enabled,
                        },
                ),
            decreases repos.len() - i,
        {
            rows.push(
                RepoManagerRow::RepoToggle {
                    name: repos[i].name.clone(),
                    url: repos[i].url.clone(),
                    enabled: repos[i].enabled,
                },
            );
            i = i + 1;
        }
        rows.push(RepoManagerRow::Blank);
        rows.push(RepoManagerRow::AddUrl);
        rows.push(RepoManagerRow::Blank);
        rows.push(RepoManagerRow::RemoveReposLink);
        rows.push(RepoManagerRow::Blank);
        rows.push(RepoManagerRow::Separator);
        rows.push(RepoManagerRow::Back);
        assert(rows@ =~= spec_repo_manager_items(self.sync.repos@));
        rows
    }

    pub fn remove_repo_items(&self) -> (r: Vec<RemoveRepoRow>)
        ensures
            r@ == spec_remove_repo_items(self.sync.repos@),
    {
        let mut rows: Vec<RemoveRepoRow> = Vec::new();
        let repos = &self.sync.repos;
        let mut i: usize = 0;
        while i < repos.len()
            invariant
                i <= repos@.len(),
                rows@ =~= Seq::new(
                    i as nat,
                    |k: int| RemoveRepoRow::RepoDelete { name: repos@[k].name, url: repos@[k].url },
                ),
            decreases repos.len() - i,
        {
            rows.push(
                RemoveRepoRow::RepoDelete { name: repos[i].name.clone(), url: repos[i].url.clone() },
            );
            i = i + 1;
        }
        rows.push(RemoveRepoRow::Blank);
        rows.push(RemoveRepoRow::Separator);
        rows.push(RemoveRepoRow::Back);
        assert(rows@ =~= spec_remove_repo_items(self.sync.repos@));
        rows
    }
}

} // verus!
