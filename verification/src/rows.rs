//! Row types of the list screens, the text-entry / value-cycling input
//! modes, and which rows can hold the selection.
use vstd::prelude::*;

verus! {

/// A calendar day, counted as in chrono's `num_days_from_ce`
/// (January 1 of year 1 is day 1).
pub type Day = i32;

/// Weekly hours, in hundredths of an hour (20h is 2000).
pub type CentiHours = u32;

/// Which Time Doctor credential is being edited.
#[derive(Clone, Copy, PartialEq, Eq, Structural, Debug)]
pub enum TimeDoctorField {
    Email,
    Password,
}

/// Which inline value a cycling editor changes.
#[derive(Clone, Copy, PartialEq, Eq, Structural, Debug)]
pub enum CycleTarget {
    Timezone,
    CpMonday,
    CpHours,
    OwMonday,
}

/// A boolean setting shown as an `[ON ]` / `[OFF]` toggle.
#[derive(Clone, Copy, PartialEq, Eq, Structural, Debug)]
pub enum ToggleKind {
    UseCache,
    SkipForkSync,
    SkipRebase,
    SkipRdsSync,
    SmartSync,
    SkipCurrentWeek,
    UseTimeCache,
}

impl ToggleKind {
    /// True for the toggles stored in the sync section of the configuration.
    pub open spec fn spec_is_sync(self) -> bool {
        match self {
            ToggleKind::UseCache | ToggleKind::SkipForkSync | ToggleKind::SkipRebase
            | ToggleKind::SkipRdsSync | ToggleKind::SmartSync => true,
            _ => false,
        }
    }

    pub fn is_sync(self) -> (b: bool)
        ensures
            b == self.spec_is_sync(),
    {
        match self {
            ToggleKind::UseCache | ToggleKind::SkipForkSync | ToggleKind::SkipRebase
            | ToggleKind::SkipRdsSync | ToggleKind::SmartSync => true,
            _ => false,
        }
    }
}

/// Text entry or value cycling in progress on the current screen.
/// The cycling variants hold the value before the edit began, so that a
/// cancel can restore it.
pub enum InputMode {
    Normal,
    AddingRepo(String),
    ConfirmDelete(String),
    ConfirmDeletePeriod(usize),
    ConfirmDeleteOffWeek(usize),
    SelectingTimezone(usize),
    EditingCpMonday(Day),
    EditingCpHours(usize),
    EditingOwMonday(Day),
    EditingField { field: TimeDoctorField, buf: String },
}

impl Clone for InputMode {
    fn clone(&self) -> (r: Self)
        ensures
            r == *self,
    {
        match self {
            InputMode::Normal => InputMode::Normal,
            InputMode::AddingRepo(s) => InputMode::AddingRepo(s.clone()),
            InputMode::ConfirmDelete(s) => InputMode::ConfirmDelete(s.clone()),
            InputMode::ConfirmDeletePeriod(i) => InputMode::ConfirmDeletePeriod(*i),
            InputMode::ConfirmDeleteOffWeek(i) => InputMode::ConfirmDeleteOffWeek(*i),
            InputMode::SelectingTimezone(i) => InputMode::SelectingTimezone(*i),
            InputMode::EditingCpMonday(d) => InputMode::EditingCpMonday(*d),
            InputMode::EditingCpHours(i) => InputMode::EditingCpHours(*i),
            InputMode::EditingOwMonday(d) => InputMode::EditingOwMonday(*d),
            InputMode::EditingField { field, buf } => InputMode::EditingField {
                field: *field,
                buf: buf.clone(),
            },
        }
    }
}

/// Rows of a list screen: some hold the selection, the others are layout.
pub trait ListRow: Sized {
    spec fn spec_interactive(&self) -> bool;

    fn row_is_interactive(&self) -> (b: bool)
        ensures
            b == self.spec_interactive(),
    ;
}

pub const SECTION_RDS_SYNC: &'static str = "RDS Sync";

pub const SECTION_TIME_DOCTOR: &'static str = "Time Doctor";

/// Rows of the Settings screen.
#[derive(Clone, Copy)]
pub enum SettingRow {
    Separator(&'static str),
    Divider,
    Blank,
    SyncGeneralLink,
    ManageRepos,
    TdGeneralLink,
    TimeDoctorSettings,
    ContractPeriodsLink,
    OffWeeksLink,
    Back,
}

impl SettingRow {
    pub open spec fn spec_is_interactive(&self) -> bool {
        match self {
            SettingRow::Separator(_) | SettingRow::Divider | SettingRow::Blank => false,
            _ => true,
        }
    }

    pub fn is_interactive(&self) -> (b: bool)
        ensures
            b == self.spec_is_interactive(),
    {
        match self {
            SettingRow::Separator(_) | SettingRow::Divider | SettingRow::Blank => false,
            _ => true,
        }
    }
}

impl ListRow for SettingRow {
    open spec fn spec_interactive(&self) -> bool {
        self.spec_is_interactive()
    }

    fn row_is_interactive(&self) -> (b: bool) {
        self.is_interactive()
    }
}

/// Rows of the two "General settings" screens (sync and Time Doctor).
pub enum GeneralToggleRow {
    Toggle {
        kind: ToggleKind,
        label: &'static str,
        hint: &'static str,
        on: bool,
        indent: bool,
        disabled: bool,
    },
    TimezoneSelector { value: &'static str },
    Blank,
    Separator,
    Back,
}

impl Clone for GeneralToggleRow {
    fn clone(&self) -> (r: Self)
        ensures
            r == *self,
    {
        match self {
            GeneralToggleRow::Toggle { kind, label, hint, on, indent, disabled } => {
                GeneralToggleRow::Toggle {
                    kind: *kind,
                    label: *label,
                    hint: *hint,
                    on: *on,
                    indent: *indent,
                    disabled: *disabled,
                }
            },
            GeneralToggleRow::TimezoneSelector { value } => GeneralToggleRow::TimezoneSelector {
                value: *value,
            },
            GeneralToggleRow::Blank => GeneralToggleRow::Blank,
            GeneralToggleRow::Separator => GeneralToggleRow::Separator,
            GeneralToggleRow::Back => GeneralToggleRow::Back,
        }
    }
}

impl GeneralToggleRow {
    pub open spec fn spec_is_interactive(&self) -> bool {
        match self {
            GeneralToggleRow::Toggle { .. } | GeneralToggleRow::TimezoneSelector { .. }
            | GeneralToggleRow::Back => true,
            _ => false,
        }
    }

    pub fn is_interactive(&self) -> (b: bool)
        ensures
            b == self.spec_is_interactive(),
    {
        match self {
            GeneralToggleRow::Toggle { .. } | GeneralToggleRow::TimezoneSelector { .. }
            | GeneralToggleRow::Back => true,
            _ => false,
        }
    }
}

impl ListRow for GeneralToggleRow {
    open spec fn spec_interactive(&self) -> bool {
        self.spec_is_interactive()
    }

    fn row_is_interactive(&self) -> (b: bool) {
        self.is_interactive()
    }
}

/// Rows of the Time Doctor credentials screen.
pub enum TimeSettingRow {
    EditField { field: TimeDoctorField, label: &'static str, value: String, masked: bool },
    Password { is_set: bool },
    Blank,
    Separator,
    Back,
}

impl Clone for TimeSettingRow {
    fn clone(&self) -> (r: Self)
        ensures
            r == *self,
    {
        match self {
            TimeSettingRow::EditField { field, label, value, masked } => TimeSettingRow::EditField {
                field: *field,
                label: *label,
                value: value.clone(),
                masked: *masked,
            },
            TimeSettingRow::Password { is_set } => TimeSettingRow::Password { is_set: *is_set },
            TimeSettingRow::Blank => TimeSettingRow::Blank,
            TimeSettingRow::Separator => TimeSettingRow::Separator,
            TimeSettingRow::Back => TimeSettingRow::Back,
        }
    }
}

impl TimeSettingRow {
    pub open spec fn spec_is_interactive(&self) -> bool {
        match self {
            TimeSettingRow::EditField { .. } | TimeSettingRow::Password { .. }
            | TimeSettingRow::Back => true,
            _ => false,
        }
    }

    pub fn is_interactive(&self) -> (b: bool)
        ensures
            b == self.spec_is_interactive(),
    {
        match self {
            TimeSettingRow::EditField { .. } | TimeSettingRow::Password { .. }
            | TimeSettingRow::Back => true,
            _ => false,
        }
    }
}

impl ListRow for TimeSettingRow {
    open spec fn spec_interactive(&self) -> bool {
        self.spec_is_interactive()
    }

    fn row_is_interactive(&self) -> (b: bool) {
        self.is_interactive()
    }
}

/// Rows of the contract-periods screen.
#[derive(Clone, Copy)]
pub enum CpListRow {
    Period { index: usize, from: Day, weekly_hours: CentiHours },
    SectionTitle(&'static str),
    Blank,
    Separator,
    MondayField,
    HoursField,
    SavePeriod,
    Back,
}

impl CpListRow {
    pub open spec fn spec_is_interactive(&self) -> bool {
        match self {
            CpListRow::Period { .. } | CpListRow::MondayField | CpListRow::HoursField
            | CpListRow::SavePeriod | CpListRow::Back => true,
            _ => false,
        }
    }

    pub fn is_interactive(&self) -> (b: bool)
        ensures
            b == self.spec_is_interactive(),
    {
        match self {
            CpListRow::Period { .. } | CpListRow::MondayField | CpListRow::HoursField
            | CpListRow::SavePeriod | CpListRow::Back => true,
            _ => false,
        }
    }
}

impl ListRow for CpListRow {
    open spec fn spec_interactive(&self) -> bool {
        self.spec_is_interactive()
    }

    fn row_is_interactive(&self) -> (b: bool) {
        self.is_interactive()
    }
}

/// Rows of the off-weeks screen.
#[derive(Clone, Copy)]
pub enum OwListRow {
    OffWeek { index: usize, monday: Day },
    SectionTitle(&'static str),
    Blank,
    Separator,
    MondayField,
    SaveOffWeek,
    Back,
}

impl OwListRow {
    pub open spec fn spec_is_interactive(&self) -> bool {
        match self {
            OwListRow::OffWeek { .. } | OwListRow::MondayField | OwListRow::SaveOffWeek
            | OwListRow::Back => true,
            _ => false,
        }
    }

    pub fn is_interactive(&self) -> (b: bool)
        ensures
            b == self.spec_is_interactive(),
    {
        match self {
            OwListRow::OffWeek { .. } | OwListRow::MondayField | OwListRow::SaveOffWeek
            | OwListRow::Back => true,
            _ => false,
        }
    }
}

impl ListRow for OwListRow {
    open spec fn spec_interactive(&self) -> bool {
        self.spec_is_interactive()
    }

    fn row_is_interactive(&self) -> (b: bool) {
        self.is_interactive()
    }
}

/// Rows of the repository manager screen.
pub enum RepoManagerRow {
    Blank,
    Separator,
    RepoToggle { name: String, url: String, enabled: bool },
    AddUrl,
    RemoveReposLink,
    Back,
}

impl Clone for RepoManagerRow {
    fn clone(&self) -> (r: Self)
        ensures
            r == *self,
    {
        match self {
            RepoManagerRow::Blank => RepoManagerRow::Blank,
            RepoManagerRow::Separator => RepoManagerRow::Separator,
            RepoManagerRow::RepoToggle { name, url, enabled } => RepoManagerRow::RepoToggle {
                name: name.clone(),
                url: url.clone(),
                enabled: *enabled,
            },
            RepoManagerRow::AddUrl => RepoManagerRow::AddUrl,
            RepoManagerRow::RemoveReposLink => RepoManagerRow::RemoveReposLink,
            RepoManagerRow::Back => RepoManagerRow::Back,
        }
    }
}

impl RepoManagerRow {
    pub open spec fn spec_is_interactive(&self) -> bool {
        match self {
            RepoManagerRow::RepoToggle { .. } | RepoManagerRow::AddUrl
            | RepoManagerRow::RemoveReposLink | RepoManagerRow::Back => true,
            _ => false,
        }
    }

    pub fn is_interactive(&self) -> (b: bool)
        ensures
            b == self.spec_is_interactive(),
    {
        match self {
            RepoManagerRow::RepoToggle { .. } | RepoManagerRow::AddUrl
            | RepoManagerRow::RemoveReposLink | RepoManagerRow::Back => true,
            _ => false,
        }
    }
}

impl ListRow for RepoManagerRow {
    open spec fn spec_interactive(&self) -> bool {
        self.spec_is_interactive()
    }

    fn row_is_interactive(&self) -> (b: bool) {
        self.is_interactive()
    }
}

/// Rows of the remove-repositories screen.
pub enum RemoveRepoRow {
    Blank,
    Separator,
    RepoDelete { name: String, url: String },
    Back,
}

impl Clone for RemoveRepoRow {
    fn clone(&self) -> (r: Self)
        ensures
            r == *self,
    {
        match self {
            RemoveRepoRow::Blank => RemoveRepoRow::Blank,
            RemoveRepoRow::Separator => RemoveRepoRow::Separator,
            RemoveRepoRow::RepoDelete { name, url } => RemoveRepoRow::RepoDelete {
                name: name.clone(),
                url: url.clone(),
            },
            RemoveRepoRow::Back => RemoveRepoRow::Back,
        }
    }
}

impl RemoveRepoRow {
    pub open spec fn spec_is_interactive(&self) -> bool {
        match self {
            RemoveRepoRow::RepoDelete { .. } | RemoveRepoRow::Back => true,
            _ => false,
        }
    }

    pub fn is_interactive(&self) -> (b: bool)
        ensures
            b == self.spec_is_interactive(),
    {
        match self {
            RemoveRepoRow::RepoDelete { .. } | RemoveRepoRow::Back => true,
            _ => false,
        }
    }
}

impl ListRow for RemoveRepoRow {
    open spec fn spec_interactive(&self) -> bool {
        self.spec_is_interactive()
    }

    fn row_is_interactive(&self) -> (b: bool) {
        self.is_interactive()
    }
}

} // verus!
