//! The UI state: settings being edited, the current screen and list
//! selections, and the progress screens. Everything that reaches the
//! outside world (configuration file, keychain, network, background tasks)
//! is left to the caller, who learns of it through an [`Effect`].
use vstd::prelude::*;

use crate::dates::day_in_range;
use crate::navigation::{
    clamp_to_last_interactive, first_interactive, navigate_rows, navigate_simple,
    spec_first_interactive, spec_last_interactive, spec_navigate_rows, spec_navigate_simple,
};
use crate::rows::{
    CentiHours, CpListRow, Day, GeneralToggleRow, InputMode, OwListRow, RemoveRepoRow,
    RepoManagerRow, SettingRow, TimeDoctorField, TimeSettingRow, ToggleKind, SECTION_RDS_SYNC,
    SECTION_TIME_DOCTOR,
};
use crate::screen::{list_slot, spec_list_slot, MainMenuItem, MainMenuKind, Screen, LIST_SCREEN_COUNT};
use crate::sync_state::{SyncScreenState, UpdateScreenState};
use crate::text::{owned, str_eq};

verus! {

/// An upstream repository that sync keeps forks of.
pub struct UpstreamRepo {
    pub url: String,
    pub name: String,
    pub enabled: bool,
}

impl Clone for UpstreamRepo {
    fn clone(&self) -> (r: Self)
        ensures
            r == *self,
    {
        UpstreamRepo { url: self.url.clone(), name: self.name.clone(), enabled: self.enabled }
    }
}

/// Weekly hour target from a given Monday on.
#[derive(Clone, Copy, PartialEq, Eq, Structural, Debug)]
pub struct ContractPeriod {
    pub from: Day,
    pub weekly_hours: CentiHours,
}

/// Sync settings as edited in the UI.
pub struct SyncSettings {
    pub use_cache: bool,
    pub skip_fork_sync: bool,
    pub skip_rebase: bool,
    pub skip_rds_sync: bool,
    pub smart_sync: bool,
    pub repos: Vec<UpstreamRepo>,
}

/// Time Doctor settings as edited in the UI.
pub struct TimeSettings {
    pub email: String,
    pub timezone_idx: usize,
    pub skip_current_week: bool,
    pub use_time_cache: bool,
    pub show_cumulative: bool,
    /// Whether a password is stored in the keychain; `None` until the caller
    /// has looked (the lookup is slow, so it is done on first need).
    pub password_is_set: Option<bool>,
    pub contract_periods: Vec<ContractPeriod>,
    pub off_weeks: Vec<Day>,
}

/// The contract-period entry form.
pub struct AddCpForm {
    pub monday: Day,
    pub hours_idx: usize,
}

/// The off-week entry form.
pub struct AddOwForm {
    pub monday: Day,
}

/// The sync section of the configuration file, as read.
pub struct SyncConfig {
    pub use_cache: bool,
    pub skip_fork_sync: bool,
    pub skip_rebase: bool,
    pub skip_rds_sync: bool,
    pub smart_sync: bool,
    pub upstream_repos: Vec<UpstreamRepo>,
}

/// The time section of the configuration file, as read.
pub struct TimeConfig {
    pub email: Option<String>,
    pub timezone: Option<String>,
    pub skip_current_week: bool,
    pub use_time_cache: bool,
    pub show_cumulative: bool,
    pub contract_periods: Option<Vec<ContractPeriod>>,
    pub off_weeks: Option<Vec<Day>>,
}

/// The parts of the configuration file that the UI edits.
pub struct Config {
    pub sync: SyncConfig,
    pub time: TimeConfig,
}

/// The configuration used when none can be read: every sync step and the
/// repository path cache on, no repositories; the week cache and running
/// totals on, the current week included, nothing else set.
impl Default for Config {
    fn default() -> (c: Self)
        ensures
            c.sync.use_cache,
            !c.sync.skip_fork_sync,
            !c.sync.skip_rebase,
            !c.sync.skip_rds_sync,
            c.sync.smart_sync,
            c.sync.upstream_repos@.len() == 0,
            c.time.email is None,
            c.time.timezone is None,
            !c.time.skip_current_week,
            c.time.use_time_cache,
            c.time.show_cumulative,
            c.time.contract_periods is None,
            c.time.off_weeks is None,
    {
        Config {
            sync: SyncConfig {
                use_cache: true,
                skip_fork_sync: false,
                skip_rebase: false,
                skip_rds_sync: false,
                smart_sync: true,
                upstream_repos: Vec::new(),
            },
            time: TimeConfig {
                email: None,
                timezone: None,
                skip_current_week: false,
                use_time_cache: true,
                show_cumulative: true,
                contract_periods: None,
                off_weeks: None,
            },
        }
    }
}

/// State of the Time Doctor report screen; `R` is one row of the report.
pub enum TdReportState<R> {
    Loading,
    /// Cached weeks shown while `pending` weeks are still being fetched.
    PartialReady { rows: Vec<WeekRow<R>>, pending: usize, show_cumulative: bool, tick: u8 },
    Ready { rows: Vec<WeekRow<R>>, show_cumulative: bool },
    Error(String),
    NoCredentials(String),
    NoPeriods,
}

/// Rows of the Time Doctor report visible at once.
pub const TD_REPORT_VISIBLE_ROWS: usize = 6;

/// Timezones offered by the timezone selector.
pub const TIMEZONE_COUNT: usize = 15;

/// Index of the timezone used when the configured one is not offered.
pub const DEFAULT_TIMEZONE_INDEX: usize = 7;

pub const DEFAULT_TIMEZONE: &'static str = "Europe/Istanbul";

/// Weekly hour targets offered by the contract-period form.
pub const WEEKLY_HOURS_OPTION_COUNT: usize = 4;

/// Index of the weekly hour target the form starts at (20h).
pub const DEFAULT_HOURS_INDEX: usize = 1;

pub open spec fn spec_timezone(i: int) -> &'static str {
    if i == 0 {
        "America/New_York"
    } else if i == 1 {
        "America/Chicago"
    } else if i == 2 {
        "America/Denver"
    } else if i == 3 {
        "America/Los_Angeles"
    } else if i == 4 {
        "America/Sao_Paulo"
    } else if i == 5 {
        "Europe/London"
    } else if i == 6 {
        "Europe/Berlin"
    } else if i == 7 {
        "Europe/Istanbul"
    } else if i == 8 {
        "Europe/Moscow"
    } else if i == 9 {
        "Asia/Dubai"
    } else if i == 10 {
        "Asia/Kolkata"
    } else if i == 11 {
        "Asia/Shanghai"
    } else if i == 12 {
        "Asia/Tokyo"
    } else if i == 13 {
        "Australia/Sydney"
    } else {
        "Pacific/Auckland"
    }
}

/// The timezone at an index of the selector.
pub fn timezone(i: usize) -> (r: &'static str)
    requires
        i < TIMEZONE_COUNT,
    ensures
        r == spec_timezone(i as int),
{
    if i == 0 {
        "America/New_York"
    } else if i == 1 {
        "America/Chicago"
    } else if i == 2 {
        "America/Denver"
    } else if i == 3 {
        "America/Los_Angeles"
    } else if i == 4 {
        "America/Sao_Paulo"
    } else if i == 5 {
        "Europe/London"
    } else if i == 6 {
        "Europe/Berlin"
    } else if i == 7 {
        "Europe/Istanbul"
    } else if i == 8 {
        "Europe/Moscow"
    } else if i == 9 {
        "Asia/Dubai"
    } else if i == 10 {
        "Asia/Kolkata"
    } else if i == 11 {
        "Asia/Shanghai"
    } else if i == 12 {
        "Asia/Tokyo"
    } else if i == 13 {
        "Australia/Sydney"
    } else {
        "Pacific/Auckland"
    }
}

/// Selector index of a timezone name: its first position in the table, or
/// the default when it is not offered.
pub open spec fn spec_timezone_index(tz: Seq<char>) -> int {
    if exists|i: int| 0 <= i < TIMEZONE_COUNT && spec_timezone(i)@ == tz {
        choose|i: int|
            0 <= i < TIMEZONE_COUNT && spec_timezone(i)@ == tz && forall|j: int|
                0 <= j < i ==> spec_timezone(j)@ != tz
    } else {
        DEFAULT_TIMEZONE_INDEX as int
    }
}

pub fn timezone_index(tz: &str) -> (r: usize)
    ensures
        r == spec_timezone_index(tz@),
        r < TIMEZONE_COUNT,
{
    let mut i: usize = 0;
    while i < TIMEZONE_COUNT
        invariant
            i <= TIMEZONE_COUNT,
            forall|j: int| 0 <= j < i ==> spec_timezone(j)@ != tz@,
        decreases TIMEZONE_COUNT - i,
    {
        if str_eq(timezone(i), tz) {
            proof {
                let c = choose|k: int|
                    0 <= k < TIMEZONE_COUNT && spec_timezone(k)@ == tz@ && forall|j: int|
                        0 <= j < k ==> spec_timezone(j)@ != tz@;
                assert(c == i) by {
                    if c < i {
                    } else if c > i {
                    }
                }
            }
            return i;
        }
        i = i + 1;
    }
    DEFAULT_TIMEZONE_INDEX
}

pub open spec fn spec_weekly_hours_option(i: int) -> CentiHours {
    if i == 0 {
        1600
    } else if i == 1 {
        2000
    } else if i == 2 {
        2400
    } else {
        2800
    }
}

/// The weekly hour target at an index of the form's options (16h, 20h, 24h, 28h).
pub fn weekly_hours_option(i: usize) -> (r: CentiHours)
    requires
        i < WEEKLY_HOURS_OPTION_COUNT,
    ensures
        r == spec_weekly_hours_option(i as int),
{
    if i == 0 {
        1600
    } else if i == 1 {
        2000
    } else if i == 2 {
        2400
    } else {
        2800
    }
}

/// Next (positive `delta`) or previous index in a cycle of `len` values.
pub open spec fn spec_cycle_idx(idx: int, delta: int, len: int) -> int {
    if len == 0 {
        0
    } else if delta > 0 {
        (idx + 1) % len
    } else {
        (idx + len - 1) % len
    }
}

pub fn cycle_idx(idx: usize, delta: i32, len: usize) -> (r: usize)
    requires
        idx + len <= usize::MAX,
    ensures
        r == spec_cycle_idx(idx as int, delta as int, len as int),
        len > 0 ==> r < len,
{
    if len == 0 {
        return 0;
    }
    if delta > 0 {
        (idx + 1) % len
    } else {
        (idx + len - 1) % len
    }
}

/// Something placed in time by a day: a contract period by its start day,
/// a report row by its week's Monday.
pub trait ByDay: Sized {
    spec fn spec_day(&self) -> Day;

    fn day(&self) -> (d: Day)
        ensures
            d == self.spec_day(),
    ;
}

impl ByDay for ContractPeriod {
    open spec fn spec_day(&self) -> Day {
        self.from
    }

    fn day(&self) -> (d: Day) {
        self.from
    }
}

/// One row of the Time Doctor report: the week's Monday and what the caller
/// shows for that week.
pub struct WeekRow<R> {
    pub monday: Day,
    pub data: R,
}

impl<R> ByDay for WeekRow<R> {
    open spec fn spec_day(&self) -> Day {
        self.monday
    }

    fn day(&self) -> (d: Day) {
        self.monday
    }
}

/// In order of day.
pub open spec fn sorted_by_day<T: ByDay>(s: Seq<T>) -> bool {
    forall|i: int, j: int| 0 <= i < j < s.len() ==> s[i].spec_day() <= s[j].spec_day()
}

/// Number of leading items placed on or before `key`; for a sorted list,
/// the position after the last of them.
pub open spec fn spec_upper_bound<T: ByDay>(s: Seq<T>, key: Day) -> int
    decreases s.len(),
{
    if s.len() == 0 {
        0
    } else if s.last().spec_day() <= key {
        s.len() as int
    } else {
        spec_upper_bound(s.drop_last(), key)
    }
}

/// `p` inserted after every item placed on or before it.
pub open spec fn spec_insert_sorted<T: ByDay>(s: Seq<T>, p: T) -> Seq<T> {
    s.insert(spec_upper_bound(s, p.spec_day()), p)
}

/// Items ordered by day, items of the same day keeping their order (a
/// stable sort).
pub open spec fn spec_sort_by_day<T: ByDay>(s: Seq<T>) -> Seq<T>
    decreases s.len(),
{
    if s.len() == 0 {
        s
    } else {
        spec_insert_sorted(spec_sort_by_day(s.drop_last()), s.last())
    }
}

pub proof fn lemma_upper_bound_facts<T: ByDay>(s: Seq<T>, key: Day)
    requires
        sorted_by_day(s),
    ensures
        0 <= spec_upper_bound(s, key) <= s.len(),
        forall|i: int| 0 <= i < spec_upper_bound(s, key) ==> s[i].spec_day() <= key,
        forall|i: int| spec_upper_bound(s, key) <= i < s.len() ==> s[i].spec_day() > key,
    decreases s.len(),
{
    if s.len() > 0 {
        let t = s.drop_last();
        if s.last().spec_day() > key {
            lemma_upper_bound_facts(t, key);
            assert forall|i: int| spec_upper_bound(s, key) <= i < s.len() implies s[i].spec_day() > key by {
                if i < s.len() - 1 {
                    assert(s[i] == t[i]);
                }
            }
            assert forall|i: int| 0 <= i < spec_upper_bound(s, key) implies s[i].spec_day() <= key by {
                assert(s[i] == t[i]);
            }
        } else {
            assert forall|i: int| 0 <= i < spec_upper_bound(s, key) implies s[i].spec_day() <= key by {
                if i < s.len() - 1 {
                    assert(s[i].spec_day() <= s[s.len() - 1].spec_day());
                }
            }
        }
    }
}

/// Inserting at the upper bound keeps a sorted list sorted and adds exactly
/// the inserted item.
pub proof fn lemma_insert_sorted<T: ByDay>(s: Seq<T>, p: T)
    requires
        sorted_by_day(s),
    ensures
        sorted_by_day(spec_insert_sorted(s, p)),
        spec_insert_sorted(s, p).to_multiset() == s.to_multiset().insert(p),
        spec_insert_sorted(s, p).len() == s.len() + 1,
{
    lemma_upper_bound_facts(s, p.spec_day());
    let k = spec_upper_bound(s, p.spec_day());
    let r = spec_insert_sorted(s, p);
    assert forall|i: int, j: int| 0 <= i < j < r.len() implies r[i].spec_day() <= r[j].spec_day() by {
        if i < k && j < k {
        } else if i < k && j == k {
        } else if i < k {
            assert(r[j] == s[j - 1]);
        } else if i == k {
            assert(r[j] == s[j - 1]);
        } else {
            assert(r[i] == s[i - 1]);
            assert(r[j] == s[j - 1]);
        }
    }
    vstd::seq_lib::to_multiset_insert(s, k, p);
}

/// The stable sort by day is sorted and keeps exactly the same items.
pub proof fn lemma_sort_by_day<T: ByDay>(s: Seq<T>)
    ensures
        sorted_by_day(spec_sort_by_day(s)),
        spec_sort_by_day(s).to_multiset() == s.to_multiset(),
        spec_sort_by_day(s).len() == s.len(),
    decreases s.len(),
{
    if s.len() > 0 {
        lemma_sort_by_day(s.drop_last());
        lemma_insert_sorted(spec_sort_by_day(s.drop_last()), s.last());
        assert(s =~= s.drop_last().push(s.last()));
        vstd::seq_lib::to_multiset_build(s.drop_last(), s.last());
    }
}

/// Sorting a list that is already sorted leaves it as it is.
pub proof fn lemma_sort_of_sorted<T: ByDay>(s: Seq<T>)
    requires
        sorted_by_day(s),
    ensures
        spec_sort_by_day(s) == s,
    decreases s.len(),
{
    if s.len() > 0 {
        let t = s.drop_last();
        assert forall|i: int, j: int| 0 <= i < j < t.len() implies t[i].spec_day() <= t[j].spec_day() by {
            assert(t[i] == s[i]);
            assert(t[j] == s[j]);
        }
        lemma_sort_of_sorted(t);
        lemma_upper_bound_facts(t, s.last().spec_day());
        let k = spec_upper_bound(t, s.last().spec_day());
        if k < t.len() {
            assert(t[k] == s[k]);
            assert(s[k].spec_day() <= s[s.len() - 1].spec_day());
        }
        assert(t.insert(t.len() as int, s.last()) =~= s);
    }
}

/// Position at which an item placed on `key` is inserted into a sorted list.
pub(crate) fn upper_bound<T: ByDay>(v: &Vec<T>, key: Day) -> (r: usize)
    ensures
        r == spec_upper_bound(v@, key),
{
    let mut j: usize = v.len();
    assert(v@.take(j as int) =~= v@);
    while j > 0 && v[j - 1].day() > key
        invariant
            j <= v.len(),
            spec_upper_bound(v@, key) == spec_upper_bound(v@.take(j as int), key),
        decreases j,
    {
        assert(v@.take(j as int).drop_last() =~= v@.take(j - 1));
        j = j - 1;
    }
    j
}

/// Inserts `p` after every item placed on or before it.
pub(crate) fn insert_sorted<T: ByDay>(v: &mut Vec<T>, p: T)
    ensures
        final(v)@ == spec_insert_sorted(old(v)@, p),
{
    let k = upper_bound(v, p.day());
    proof {
        spec_upper_bound_range(v@, p.spec_day());
    }
    v.insert(k, p);
}

proof fn spec_upper_bound_range<T: ByDay>(s: Seq<T>, key: Day)
    ensures
        0 <= spec_upper_bound(s, key) <= s.len(),
    decreases s.len(),
{
    if s.len() > 0 {
        spec_upper_bound_range(s.drop_last(), key);
    }
}

/// Stable sort by day: the list ordered by day, items of the same day in
/// the order they came.
pub fn sort_by_day<T: ByDay>(v: Vec<T>) -> (r: Vec<T>)
    ensures
        r@ == spec_sort_by_day(v@),
        sorted_by_day(r@),
        r@.to_multiset() == v@.to_multiset(),
        r@.len() == v@.len(),
{
    let ghost orig = v@;
    let mut rest = v;
    let mut r: Vec<T> = Vec::new();
    assert(orig.take(0) =~= Seq::<T>::empty());
    assert(orig.skip(0) =~= orig);
    while rest.len() > 0
        invariant
            rest@.len() <= orig.len(),
            rest@ == orig.skip(orig.len() - rest@.len()),
            r@ == spec_sort_by_day(orig.take(orig.len() - rest@.len())),
        decreases rest.len(),
    {
        let ghost i = orig.len() - rest@.len();
        let x = rest.remove(0);
        assert(x == orig[i]);
        assert(rest@ =~= orig.skip(i + 1));
        assert(orig.take(i + 1).drop_last() =~= orig.take(i));
        insert_sorted(&mut r, x);
    }
    assert(orig.take(orig.len() as int) =~= orig);
    proof {
        lemma_sort_by_day(orig);
    }
    r
}

/// The UI state; `R` is one row of the Time Doctor report.
pub struct App<R> {
    pub screen: Screen,
    /// Selected row of each list screen, by `list_slot`.
    pub selections: Vec<usize>,
    pub td_report: TdReportState<R>,
    pub td_report_scroll: usize,
    pub sync_scroll: usize,
    pub input_mode: InputMode,
    pub sync: SyncSettings,
    pub td: TimeSettings,
    pub add_cp: AddCpForm,
    pub add_ow: AddOwForm,
    pub sync_state: Option<SyncScreenState>,
    pub update_state: Option<UpdateScreenState>,
    /// `None` while checking; `Some(None)` when up to date; `Some(Some(v))`
    /// when release `v` is available.
    pub available_update: Option<Option<String>>,
    pub auth_error: Option<String>,
    pub config_load_error: Option<String>,
}

pub open spec fn spec_settings_items() -> Seq<SettingRow> {
    seq![
        SettingRow::Separator(SECTION_RDS_SYNC),
        SettingRow::Blank,
        SettingRow::SyncGeneralLink,
        SettingRow::ManageRepos,
        SettingRow::Blank,
        SettingRow::Separator(SECTION_TIME_DOCTOR),
        SettingRow::Blank,
        SettingRow::TdGeneralLink,
        SettingRow::TimeDoctorSettings,
        SettingRow::ContractPeriodsLink,
        SettingRow::OffWeeksLink,
        SettingRow::Blank,
        SettingRow::Divider,
        SettingRow::Back,
    ]
}

impl<R> App<R> {
    /// The invariant of the UI state.
    pub open spec fn wf(&self) -> bool {
        &&& self.selections@.len() == LIST_SCREEN_COUNT
        &&& self.td.timezone_idx < TIMEZONE_COUNT
        &&& self.add_cp.hours_idx < WEEKLY_HOURS_OPTION_COUNT
        &&& day_in_range(self.add_cp.monday as int)
        &&& day_in_range(self.add_ow.monday as int)
        &&& sorted_by_day(self.td.contract_periods@)
        &&& forall|i: int|
            0 <= i < self.td.contract_periods@.len() ==> day_in_range(
                #[trigger] self.td.contract_periods@[i].from as int,
            )
        &&& match self.input_mode {
            InputMode::SelectingTimezone(s) => s < TIMEZONE_COUNT,
            InputMode::EditingCpHours(s) => s < WEEKLY_HOURS_OPTION_COUNT,
            InputMode::EditingCpMonday(d) => day_in_range(d as int),
            InputMode::EditingOwMonday(d) => day_in_range(d as int),
            _ => true,
        }
    }

    /// Builds the UI state from the configuration. `this_monday` is the
    /// Monday of the current week, the form's start when no period exists.
    pub fn new(config: Config, this_monday: Day, config_load_error: Option<String>) -> (r: Self)
        requires
            day_in_range(this_monday as int),
            config.time.contract_periods matches Some(ps) ==> forall|i: int|
                0 <= i < ps@.len() ==> day_in_range(#[trigger] ps@[i].from as int),
        ensures
            r.wf(),
            r.screen == Screen::MainMenu,
            forall|k: int| 0 <= k < LIST_SCREEN_COUNT ==> r.selections@[k] == 0,
            r.td_report is Loading,
            r.td_report_scroll == 0,
            r.sync_scroll == 0,
            r.input_mode is Normal,
            r.sync.use_cache == config.sync.use_cache,
            r.sync.skip_fork_sync == config.sync.skip_fork_sync,
            r.sync.skip_rebase == config.sync.skip_rebase,
            r.sync.skip_rds_sync == config.sync.skip_rds_sync,
            r.sync.smart_sync == config.sync.smart_sync,
            r.sync.repos == config.sync.upstream_repos,
            r.td.email@ == match config.time.email {
                Some(e) => e@,
                None => Seq::<char>::empty(),
            },
            r.td.timezone_idx == match config.time.timezone {
                Some(tz) => spec_timezone_index(tz@),
                None => spec_timezone_index(DEFAULT_TIMEZONE@),
            },
            r.td.skip_current_week == config.time.skip_current_week,
            r.td.use_time_cache == config.time.use_time_cache,
            r.td.show_cumulative == config.time.show_cumulative,
            r.td.password_is_set is None,
            r.td.contract_periods@ == spec_sort_by_day(
                match config.time.contract_periods {
                    Some(ps) => ps@,
                    None => Seq::<ContractPeriod>::empty(),
                },
            ),
            r.td.off_weeks@ == match config.time.off_weeks {
                Some(w) => w@,
                None => Seq::<Day>::empty(),
            },
            r.add_cp.monday == if r.td.contract_periods@.len() > 0 {
                r.td.contract_periods@.last().from
            } else {
                this_monday
            },
            r.add_cp.hours_idx == DEFAULT_HOURS_INDEX,
            r.add_ow.monday == this_monday,
            r.sync_state is None,
            r.update_state is None,
            r.available_update is None,
            r.auth_error is None,
            r.config_load_error == config_load_error,
    {
        let Config { sync, time } = config;
        let mut selections: Vec<usize> = Vec::new();
        let mut k: usize = 0;
        while k < LIST_SCREEN_COUNT
            invariant
                k <= LIST_SCREEN_COUNT,
                selections@.len() == k,
                forall|j: int| 0 <= j < k ==> selections@[j] == 0,
            decreases LIST_SCREEN_COUNT - k,
        {
            selections.push(0);
            k = k + 1;
        }
        let loaded: Vec<ContractPeriod> = match time.contract_periods {
            Some(ps) => ps,
            None => Vec::new(),
        };
        let ghost loaded_view = loaded@;
        let contract_periods = sort_by_day(loaded);
        proof {
            assert forall|i: int|
                0 <= i < contract_periods@.len() implies day_in_range(
                #[trigger] contract_periods@[i].from as int,
            ) by {
                let p = contract_periods@[i];
                assert(contract_periods@.contains(p));
                vstd::seq_lib::to_multiset_contains(contract_periods@, p);
                vstd::seq_lib::to_multiset_contains(loaded_view, p);
                let j = choose|j: int| 0 <= j < loaded_view.len() && loaded_view[j] == p;
            }
        }
        let n = contract_periods.len();
        let add_cp_monday = if n > 0 {
            contract_periods[n - 1].from
        } else {
            this_monday
        };
        let timezone_idx = match &time.timezone {
            Some(tz) => timezone_index(tz.as_str()),
            None => timezone_index(DEFAULT_TIMEZONE),
        };
        let email = match time.email {
            Some(e) => e,
            None => String::new(),
        };
        let off_weeks = match time.off_weeks {
            Some(w) => w,
            None => Vec::new(),
        };
        App {
            screen: Screen::MainMenu,
            selections,
            td_report: TdReportState::Loading,
            td_report_scroll: 0,
            sync_scroll: 0,
            input_mode: InputMode::Normal,
            sync: SyncSettings {
                use_cache: sync.use_cache,
                skip_fork_sync: sync.skip_fork_sync,
                skip_rebase: sync.skip_rebase,
                skip_rds_sync: sync.skip_rds_sync,
                smart_sync: sync.smart_sync,
                repos: sync.upstream_repos,
            },
            td: TimeSettings {
                email,
                timezone_idx,
                skip_current_week: time.skip_current_week,
                use_time_cache: time.use_time_cache,
                show_cumulative: time.show_cumulative,
                password_is_set: None,
                contract_periods,
                off_weeks,
            },
            add_cp: AddCpForm { monday: add_cp_monday, hours_idx: DEFAULT_HOURS_INDEX },
            add_ow: AddOwForm { monday: this_monday },
            sync_state: None,
            update_state: None,
            available_update: None,
            auth_error: None,
            config_load_error,
        }
    }
}

/// Work left to the caller after a change of the UI state.
#[derive(PartialEq, Eq, Debug)]
pub enum Effect {
    Nothing,
    /// Write the sync settings to the configuration file.
    SaveSyncSettings,
    /// Write the time settings to the configuration file.
    SaveTimeSettings,
    /// The e-mail changed: forget the stored session token, then write the
    /// time settings.
    ForgetTokenAndSaveTime,
    /// Forget the stored session token and store this password in the
    /// keychain; report the outcome with `password_stored`.
    StorePassword(String),
    /// Drop any report fetch still in flight, then show the cached report
    /// weeks and fetch the others; report the cached rows with `begin_report`.
    LoadReport,
    /// Drop any report fetch still in flight: its weeks are no longer wanted.
    StopReport,
    /// Start the self-update task.
    StartUpdate,
    /// Stop the running sync task.
    StopSync,
    /// Stop the running self-update task.
    StopUpdate,
}

} // verus!
