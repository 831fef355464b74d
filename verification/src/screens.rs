//! The list screens as the renderer draws them: title, key hint, one
//! styled line per row, and the confirmation or error shown over the list.
use vstd::prelude::*;

use crate::app::{spec_settings_items, spec_weekly_hours_option, weekly_hours_option, App, ContractPeriod};
use crate::builders::{
    spec_sync_general_items, spec_td_general_items, spec_cp_list_items, spec_main_menu_kinds, spec_menu_text, spec_remove_repo_items,
    spec_repo_manager_items, spec_td_settings_items,
};
use crate::dates::day_in_range;
use crate::input::spec_row_at;
use crate::rows::{
    CentiHours, CpListRow, Day, GeneralToggleRow, InputMode, RemoveRepoRow, RepoManagerRow,
    SettingRow, TimeDoctorField, TimeSettingRow,
};
use crate::screen::{spec_list_slot, Screen};
use crate::text::{concat_str, owned, push_all};
use crate::view::{
    back_item, blank_item, decimal, del_item, divider_item, field_state, hint_confirm_cancel,
    hint_input_confirm, hint_navigate_action, hint_pair, inline_field_item, link_item, pad_right,
    piece, piece_of, repeat_char, separator_item, spec_back_item, spec_blank_item, spec_decimal,
    spec_del_item, spec_digit, spec_divider_item, spec_field_state, spec_hint,
    spec_hint_confirm_cancel, spec_hint_input_confirm, spec_hint_navigate_action, spec_hint_pair,
    spec_inline_field_item, spec_link_item_styled, spec_pad_right, spec_repeat,
    spec_separator_item, spec_toggle_item, sub_link_item, toggle_item, LineView, Piece, Tone,
    FIELD_LABEL_W, FIELD_LABEL_W_TZ, SEPARATOR_WIDTH,
};

verus! {

/// A list screen as drawn.
pub struct ListView {
    pub title: &'static str,
    pub hint: Vec<Piece>,
    pub items: Vec<Vec<Piece>>,
    /// The highlighted row.
    pub selected: usize,
    /// Message of a confirmation dialog drawn over the list.
    pub confirm: Option<String>,
    /// An error line drawn above the list.
    pub error: Option<Vec<Piece>>,
}

/// The calendar date of a day, as `dd-mm-yyyy`: chrono's formatting of the
/// day numbered as in `num_days_from_ce`.
pub uninterp spec fn formatted_day(day: Day) -> Seq<char>;

/// Formats a day with chrono (`%d-%m-%Y`). The day must be one chrono can
/// represent; the text is named by `formatted_day`.
#[verifier::external_body]
pub fn fmt_date(day: Day) -> (r: String)
    requires
        day_in_range(day as int),
    ensures
        r@ == formatted_day(day),
{
    let date = chrono::NaiveDate::from_num_days_from_ce_opt(day).unwrap();
    date.format("%d-%m-%Y").to_string()
}

/// Hours from hundredths: whole hours as `20h`, others with their
/// significant decimals, as `20.5h` or `20.25h`.
pub open spec fn spec_fmt_hours(c: int) -> Seq<char> {
    let whole = spec_decimal((c / 100) as nat);
    let frac = c % 100;
    if frac == 0 {
        whole + "h"@
    } else if frac % 10 == 0 {
        whole + seq!['.', spec_digit(frac / 10)] + "h"@
    } else {
        whole + seq!['.', spec_digit(frac / 10), spec_digit(frac % 10)] + "h"@
    }
}

pub fn fmt_hours(c: CentiHours) -> (r: String)
    ensures
        r@ == spec_fmt_hours(c as int),
{
    let mut r = decimal((c / 100) as u64);
    let frac = c % 100;
    if frac != 0 {
        let tenths = decimal((frac / 10) as u64);
        push_all(&mut r, ".");
        push_all(&mut r, tenths.as_str());
        if frac % 10 != 0 {
            let hundredths = decimal((frac % 10) as u64);
            push_all(&mut r, hundredths.as_str());
        }
    }
    push_all(&mut r, "h");
    proof {
        reveal_strlit(".");
        reveal_strlit("h");
    }
    r
}

pub open spec fn spec_setting_line(row: SettingRow, is_sel: bool) -> LineView {
    match row {
        SettingRow::Blank => spec_blank_item(),
        SettingRow::Divider => spec_divider_item(),
        SettingRow::Separator(label) => spec_separator_item(label@),
        SettingRow::Back => spec_back_item(is_sel),
        SettingRow::SyncGeneralLink => spec_link_item_styled(is_sel, "→ General settings"@, Tone::Text),
        SettingRow::ManageRepos => spec_link_item_styled(is_sel, "→ Manage upstream repos"@, Tone::Text),
        SettingRow::TdGeneralLink => spec_link_item_styled(is_sel, "→ General settings"@, Tone::Text),
        SettingRow::TimeDoctorSettings => spec_link_item_styled(
            is_sel,
            "→ Manage credentials"@,
            Tone::Text,
        ),
        SettingRow::ContractPeriodsLink => spec_link_item_styled(
            is_sel,
            "→ Manage contract periods"@,
            Tone::Text,
        ),
        SettingRow::OffWeeksLink => spec_link_item_styled(is_sel, "→ Manage off weeks"@, Tone::Text),
    }
}

fn setting_line(row: &SettingRow, is_sel: bool) -> (r: Vec<Piece>)
    ensures
        r.deep_view() == spec_setting_line(*row, is_sel),
{
    match row {
        SettingRow::Blank => blank_item(),
        SettingRow::Divider => divider_item(),
        SettingRow::Separator(label) => separator_item(label),
        SettingRow::Back => back_item(is_sel),
        SettingRow::SyncGeneralLink => link_item(is_sel, "→ General settings"),
        SettingRow::ManageRepos => link_item(is_sel, "→ Manage upstream repos"),
        SettingRow::TdGeneralLink => link_item(is_sel, "→ General settings"),
        SettingRow::TimeDoctorSettings => link_item(is_sel, "→ Manage credentials"),
        SettingRow::ContractPeriodsLink => link_item(is_sel, "→ Manage contract periods"),
        SettingRow::OffWeeksLink => link_item(is_sel, "→ Manage off weeks"),
    }
}

/// The text of a toggle: its label, and its hint in brackets when it has one.
pub open spec fn spec_toggle_text(label: Seq<char>, hint: Seq<char>) -> Seq<char> {
    if hint.len() == 0 {
        label
    } else {
        label + "  ("@ + hint + ")"@
    }
}

pub open spec fn spec_general_line(row: GeneralToggleRow, is_sel: bool, selecting: bool) -> LineView {
    match row {
        GeneralToggleRow::Blank => spec_blank_item(),
        GeneralToggleRow::Separator => spec_divider_item(),
        GeneralToggleRow::Back => spec_back_item(is_sel),
        GeneralToggleRow::Toggle { label, hint, on, indent, disabled, .. } => spec_toggle_item(
            is_sel,
            on,
            spec_toggle_text(label@, hint@),
            indent,
            disabled,
        ),
        GeneralToggleRow::TimezoneSelector { value } => spec_inline_field_item(
            "Timezone"@,
            value@,
            spec_field_state(is_sel, selecting),
            FIELD_LABEL_W_TZ as int,
        ),
    }
}

fn general_line(row: &GeneralToggleRow, is_sel: bool, selecting: bool) -> (r: Vec<Piece>)
    ensures
        r.deep_view() == spec_general_line(*row, is_sel, selecting),
{
    match row {
        GeneralToggleRow::Blank => blank_item(),
        GeneralToggleRow::Separator => divider_item(),
        GeneralToggleRow::Back => back_item(is_sel),
        GeneralToggleRow::Toggle { label, hint, on, indent, disabled, .. } => {
            let text = if hint.unicode_len() == 0 {
                owned(label)
            } else {
                let mut t = concat_str(label, "  (");
                push_all(&mut t, hint);
                push_all(&mut t, ")");
                t
            };
            toggle_item(is_sel, *on, text, *indent, *disabled)
        },
        GeneralToggleRow::TimezoneSelector { value } => inline_field_item(
            "Timezone",
            value,
            field_state(is_sel, selecting),
            FIELD_LABEL_W_TZ,
        ),
    }
}

/// The verb of the general screens' hint for the selected row.
pub open spec fn spec_general_action(row: Option<GeneralToggleRow>) -> Seq<char> {
    match row {
        Some(GeneralToggleRow::Toggle { .. }) => "toggle"@,
        Some(GeneralToggleRow::TimezoneSelector { .. }) => "change"@,
        _ => "enter"@,
    }
}

pub open spec fn spec_repo_manager_line(row: RepoManagerRow, is_sel: bool, adding: Option<Seq<char>>) -> LineView {
    match row {
        RepoManagerRow::Blank => spec_blank_item(),
        RepoManagerRow::Separator => spec_divider_item(),
        RepoManagerRow::Back => spec_back_item(is_sel),
        RepoManagerRow::RepoToggle { name, url, enabled } => spec_toggle_item(
            is_sel,
            enabled,
            name@ + "  <"@ + url@ + ">"@,
            false,
            false,
        ),
        RepoManagerRow::RemoveReposLink => spec_link_item_styled(
            is_sel,
            "→ Remove Repos"@,
            Tone::Muted,
        ),
        RepoManagerRow::AddUrl => match adding {
            Some(buf) => seq![("  URL: "@ + buf + "_"@, Tone::Accent, false)],
            None => spec_link_item_styled(is_sel, "+ Add upstream URL"@, Tone::Muted),
        },
    }
}

fn repo_manager_line(row: &RepoManagerRow, is_sel: bool, adding: Option<&str>) -> (r: Vec<Piece>)
    ensures
        r.deep_view() == spec_repo_manager_line(
            *row,
            is_sel,
            match adding {
                Some(b) => Some(b@),
                None => None,
            },
        ),
{
    match row {
        RepoManagerRow::Blank => blank_item(),
        RepoManagerRow::Separator => divider_item(),
        RepoManagerRow::Back => back_item(is_sel),
        RepoManagerRow::RepoToggle { name, url, enabled } => {
            let mut text = concat_str(name.as_str(), "  <");
            push_all(&mut text, url.as_str());
            push_all(&mut text, ">");
            toggle_item(is_sel, *enabled, text, false, false)
        },
        RepoManagerRow::RemoveReposLink => sub_link_item(is_sel, "→ Remove Repos"),
        RepoManagerRow::AddUrl => match adding {
            Some(buf) => {
                let mut text = concat_str("  URL: ", buf);
                push_all(&mut text, "_");
                let r = vec![piece_of(text, Tone::Accent, false)];
                assert(r.deep_view() =~= seq![("  URL: "@ + buf@ + "_"@, Tone::Accent, false)]);
                r
            },
            None => sub_link_item(is_sel, "+ Add upstream URL"),
        },
    }
}

/// The verb of the repository list's hint for the selected row.
pub open spec fn spec_repo_manager_action(row: Option<RepoManagerRow>) -> Seq<char> {
    match row {
        Some(RepoManagerRow::RepoToggle { .. }) => "toggle"@,
        Some(RepoManagerRow::AddUrl) => "select"@,
        _ => "enter"@,
    }
}

pub open spec fn spec_remove_repo_line(row: RemoveRepoRow, is_sel: bool) -> LineView {
    match row {
        RemoveRepoRow::Blank => spec_blank_item(),
        RemoveRepoRow::Separator => spec_divider_item(),
        RemoveRepoRow::Back => spec_back_item(is_sel),
        RemoveRepoRow::RepoDelete { name, url } => spec_del_item(
            is_sel,
            "  "@ + name@ + "  <"@ + url@ + ">"@,
        ),
    }
}

fn remove_repo_line(row: &RemoveRepoRow, is_sel: bool) -> (r: Vec<Piece>)
    ensures
        r.deep_view() == spec_remove_repo_line(*row, is_sel),
{
    match row {
        RemoveRepoRow::Blank => blank_item(),
        RemoveRepoRow::Separator => divider_item(),
        RemoveRepoRow::Back => back_item(is_sel),
        RemoveRepoRow::RepoDelete { name, url } => {
            let mut text = concat_str("  ", name.as_str());
            push_all(&mut text, "  <");
            push_all(&mut text, url.as_str());
            push_all(&mut text, ">");
            del_item(is_sel, text)
        },
    }
}

/// Bytes of the UTF-8 encoding of a character.
pub open spec fn spec_utf8_width(c: char) -> int {
    if (c as u32) < 0x80 {
        1
    } else if (c as u32) < 0x800 {
        2
    } else if (c as u32) < 0x10000 {
        3
    } else {
        4
    }
}

/// Bytes of the UTF-8 encoding of a text (Rust's `str::len`).
pub open spec fn spec_utf8_len(s: Seq<char>) -> int
    decreases s.len(),
{
    if s.len() == 0 {
        0
    } else {
        spec_utf8_len(s.drop_last()) + spec_utf8_width(s.last())
    }
}

proof fn lemma_utf8_len_bound(s: Seq<char>)
    ensures
        0 <= spec_utf8_len(s) <= 4 * s.len(),
    decreases s.len(),
{
    if s.len() > 0 {
        lemma_utf8_len_bound(s.drop_last());
    }
}

fn utf8_len(s: &str) -> (r: usize)
    requires
        4 * s@.len() <= usize::MAX,
    ensures
        r == spec_utf8_len(s@),
{
    let n = s.unicode_len();
    let mut total: usize = 0;
    let mut i: usize = 0;
    while i < n
        invariant
            n == s@.len(),
            4 * n <= usize::MAX,
            i <= n,
            total == spec_utf8_len(s@.take(i as int)),
        decreases n - i,
    {
        let c = s.get_char(i);
        let w: usize = if (c as u32) < 0x80 {
            1
        } else if (c as u32) < 0x800 {
            2
        } else if (c as u32) < 0x10000 {
            3
        } else {
            4
        };
        assert(s@.take(i + 1).drop_last() =~= s@.take(i as int));
        proof {
            lemma_utf8_len_bound(s@.take(i as int));
        }
        total = total + w;
        i = i + 1;
    }
    assert(s@.take(n as int) =~= s@);
    total
}

/// How a credential is shown: the typed text with a cursor (stars for a
/// masked one, one per byte), or the stored value, or a dash when empty.
pub open spec fn spec_credential_display(active: Option<Seq<char>>, masked: bool, value: Seq<char>) -> Seq<char> {
    match active {
        Some(buf) => if masked {
            spec_repeat('*', spec_utf8_len(buf)) + "_"@
        } else {
            buf + "_"@
        },
        None => if value.len() == 0 {
            "—"@
        } else if masked {
            spec_repeat('*', spec_utf8_len(value))
        } else {
            value
        },
    }
}

/// How the password row is shown: the typed stars with a cursor, or
/// whether one is stored.
pub open spec fn spec_password_display(active: Option<Seq<char>>, is_set: bool) -> Seq<char> {
    match active {
        Some(buf) => spec_repeat('*', spec_utf8_len(buf)) + "_"@,
        None => if is_set {
            "[saved]"@
        } else {
            "—"@
        },
    }
}

/// The text being typed into `field`, if that field is being edited.
pub open spec fn spec_active_buffer(mode: InputMode, field: TimeDoctorField) -> Option<Seq<char>> {
    match mode {
        InputMode::EditingField { field: f, buf } => if f == field {
            Some(buf@)
        } else {
            None
        },
        _ => None,
    }
}

pub open spec fn spec_td_settings_line(row: TimeSettingRow, is_sel: bool, mode: InputMode) -> LineView {
    match row {
        TimeSettingRow::Blank => spec_blank_item(),
        TimeSettingRow::Separator => spec_divider_item(),
        TimeSettingRow::Back => spec_back_item(is_sel),
        TimeSettingRow::Password { is_set } => {
            let active = spec_active_buffer(mode, TimeDoctorField::Password);
            spec_inline_field_item(
                "Password"@,
                spec_password_display(active, is_set),
                spec_field_state(is_sel, active is Some),
                FIELD_LABEL_W as int,
            )
        },
        TimeSettingRow::EditField { field, label, value, masked } => {
            let active = spec_active_buffer(mode, field);
            spec_inline_field_item(
                label@,
                spec_credential_display(active, masked, value@),
                spec_field_state(is_sel, active is Some),
                FIELD_LABEL_W as int,
            )
        },
    }
}

/// The text being typed into `field`, if that field is being edited.
fn active_buffer(mode: &InputMode, field: TimeDoctorField) -> (r: Option<&String>)
    ensures
        match r {
            Some(b) => spec_active_buffer(*mode, field) == Some(b@),
            None => spec_active_buffer(*mode, field) is None,
        },
{
    match mode {
        InputMode::EditingField { field: f, buf } => if *f == field {
            Some(buf)
        } else {
            None
        },
        _ => None,
    }
}

fn stars(s: &str) -> (r: String)
    requires
        4 * s@.len() <= usize::MAX,
    ensures
        r@ == spec_repeat('*', spec_utf8_len(s@)),
{
    repeat_char('*', utf8_len(s))
}

fn td_settings_line(row: &TimeSettingRow, is_sel: bool, mode: &InputMode) -> (r: Vec<Piece>)
    requires
        row matches TimeSettingRow::EditField { value, .. } ==> 4 * value@.len() <= usize::MAX,
        mode matches InputMode::EditingField { buf, .. } ==> 4 * buf@.len() <= usize::MAX,
    ensures
        r.deep_view() == spec_td_settings_line(*row, is_sel, *mode),
{
    match row {
        TimeSettingRow::Blank => blank_item(),
        TimeSettingRow::Separator => divider_item(),
        TimeSettingRow::Back => back_item(is_sel),
        TimeSettingRow::Password { is_set } => {
            let active = active_buffer(mode, TimeDoctorField::Password);
            let display = match active {
                Some(buf) => {
                    let mut d = stars(buf.as_str());
                    push_all(&mut d, "_");
                    d
                },
                None => if *is_set {
                    owned("[saved]")
                } else {
                    owned("—")
                },
            };
            inline_field_item(
                "Password",
                display.as_str(),
                field_state(is_sel, active.is_some()),
                FIELD_LABEL_W,
            )
        },
        TimeSettingRow::EditField { field, label, value, masked } => {
            let active = active_buffer(mode, *field);
            let display = match active {
                Some(buf) => {
                    let mut d = if *masked {
                        stars(buf.as_str())
                    } else {
                        owned(buf.as_str())
                    };
                    push_all(&mut d, "_");
                    d
                },
                None => if value.unicode_len() == 0 {
                    owned("—")
                } else if *masked {
                    stars(value.as_str())
                } else {
                    owned(value.as_str())
                },
            };
            inline_field_item(label, display.as_str(), field_state(is_sel, active.is_some()), FIELD_LABEL_W)
        },
    }
}

pub open spec fn spec_save_line(is_sel: bool, label: Seq<char>) -> LineView {
    if is_sel {
        seq![("▸ "@, Tone::Primary, false), (label, Tone::Accent, true)]
    } else {
        seq![("  "@, Tone::Plain, false), (label, Tone::Warn, false)]
    }
}

fn save_line(is_sel: bool, label: &str) -> (r: Vec<Piece>)
    ensures
        r.deep_view() == spec_save_line(is_sel, label@),
{
    let r = if is_sel {
        vec![piece("▸ ", Tone::Primary, false), piece(label, Tone::Accent, true)]
    } else {
        vec![piece("  ", Tone::Plain, false), piece(label, Tone::Warn, false)]
    };
    assert(r.deep_view() =~= spec_save_line(is_sel, label@));
    r
}

pub open spec fn spec_section_title_line(title: Seq<char>) -> LineView {
    seq![("  "@, Tone::Plain, false), (title, Tone::Muted, false)]
}

fn section_title_line(title: &str) -> (r: Vec<Piece>)
    ensures
        r.deep_view() == spec_section_title_line(title@),
{
    let r = vec![piece("  ", Tone::Plain, false), piece(title, Tone::Muted, false)];
    assert(r.deep_view() =~= spec_section_title_line(title@));
    r
}

/// A contract period in the list: `  dd-mm-yyyy  20h/week`.
pub open spec fn spec_period_detail(from: Day, weekly_hours: CentiHours) -> Seq<char> {
    "  "@ + formatted_day(from) + "  "@ + spec_fmt_hours(weekly_hours as int) + "/week"@
}

pub open spec fn spec_cp_line(row: CpListRow, is_sel: bool, monday: Day, hours_idx: int, mode: InputMode) -> LineView {
    match row {
        CpListRow::SectionTitle(title) => spec_section_title_line(title@),
        CpListRow::Blank => spec_blank_item(),
        CpListRow::Separator => spec_divider_item(),
        CpListRow::Back => spec_back_item(is_sel),
        CpListRow::SavePeriod => spec_save_line(is_sel, "Save period"@),
        CpListRow::MondayField => spec_inline_field_item(
            "From Monday"@,
            formatted_day(monday),
            spec_field_state(is_sel, mode is EditingCpMonday),
            FIELD_LABEL_W as int,
        ),
        CpListRow::HoursField => spec_inline_field_item(
            "Weekly hours"@,
            spec_fmt_hours(spec_weekly_hours_option(hours_idx) as int),
            spec_field_state(is_sel, mode is EditingCpHours),
            FIELD_LABEL_W as int,
        ),
        CpListRow::Period { from, weekly_hours, .. } => spec_del_item(
            is_sel,
            spec_period_detail(from, weekly_hours),
        ),
    }
}

fn period_detail(from: Day, weekly_hours: CentiHours) -> (r: String)
    requires
        day_in_range(from as int),
    ensures
        r@ == spec_period_detail(from, weekly_hours),
{
    let date = fmt_date(from);
    let hours = fmt_hours(weekly_hours);
    let mut text = concat_str("  ", date.as_str());
    push_all(&mut text, "  ");
    push_all(&mut text, hours.as_str());
    push_all(&mut text, "/week");
    text
}

fn cp_line(row: &CpListRow, is_sel: bool, monday: Day, hours_idx: usize, mode: &InputMode) -> (r: Vec<Piece>)
    requires
        day_in_range(monday as int),
        hours_idx < 4,
        row matches CpListRow::Period { from, .. } ==> day_in_range(from as int),
    ensures
        r.deep_view() == spec_cp_line(*row, is_sel, monday, hours_idx as int, *mode),
{
    match row {
        CpListRow::SectionTitle(title) => section_title_line(title),
        CpListRow::Blank => blank_item(),
        CpListRow::Separator => divider_item(),
        CpListRow::Back => back_item(is_sel),
        CpListRow::SavePeriod => save_line(is_sel, "Save period"),
        CpListRow::MondayField => {
            let value = fmt_date(monday);
            let editing = match mode {
                InputMode::EditingCpMonday(_) => true,
                _ => false,
            };
            inline_field_item("From Monday", value.as_str(), field_state(is_sel, editing), FIELD_LABEL_W)
        },
        CpListRow::HoursField => {
            let value = fmt_hours(weekly_hours_option(hours_idx));
            let editing = match mode {
                InputMode::EditingCpHours(_) => true,
                _ => false,
            };
            inline_field_item("Weekly hours", value.as_str(), field_state(is_sel, editing), FIELD_LABEL_W)
        },
        CpListRow::Period { from, weekly_hours, .. } => del_item(
            is_sel,
            period_detail(*from, *weekly_hours),
        ),
    }
}

/// The verb of the contract-period screen's hint for the selected row.
pub open spec fn spec_cp_action(row: Option<CpListRow>) -> Seq<char> {
    match row {
        Some(CpListRow::Period { .. }) => "delete"@,
        Some(CpListRow::SavePeriod) => "save"@,
        Some(CpListRow::MondayField) | Some(CpListRow::HoursField) => "change"@,
        Some(CpListRow::Back) => "enter"@,
        _ => "select"@,
    }
}

/// The main menu's line for an entry: the name in a column of 16, then its
/// description after a dash when it has one.
pub open spec fn spec_menu_line(name: Seq<char>, desc: Seq<char>, is_sel: bool) -> LineView {
    let padded = spec_pad_right(name, 16);
    if is_sel {
        let head = seq![("▸ "@, Tone::Primary, false), (padded, Tone::Primary, true)];
        if desc.len() > 0 {
            head + seq![("— "@, Tone::Primary, false), (desc, Tone::Primary, true)]
        } else {
            head
        }
    } else {
        let head = seq![("  "@, Tone::Plain, false), (padded, Tone::Text, false)];
        if desc.len() > 0 {
            head + seq![("— "@, Tone::Muted, false), (desc, Tone::Text, false)]
        } else {
            head
        }
    }
}

fn menu_line(name: &str, desc: &str, is_sel: bool) -> (r: Vec<Piece>)
    ensures
        r.deep_view() == spec_menu_line(name@, desc@, is_sel),
{
    let padded = pad_right(name, 16);
    let has_desc = desc.unicode_len() > 0;
    let mut r = if is_sel {
        vec![piece("▸ ", Tone::Primary, false), piece_of(padded, Tone::Primary, true)]
    } else {
        vec![piece("  ", Tone::Plain, false), piece_of(padded, Tone::Text, false)]
    };
    let ghost head = r.deep_view();
    if has_desc {
        if is_sel {
            r.push(piece("— ", Tone::Primary, false));
            r.push(piece(desc, Tone::Primary, true));
        } else {
            r.push(piece("— ", Tone::Muted, false));
            r.push(piece(desc, Tone::Text, false));
        }
    }
    assert(r.deep_view() =~= spec_menu_line(name@, desc@, is_sel));
    r
}

/// Shown under the main menu when the configuration could not be read.
pub const CONFIG_UNREADABLE: &'static str =
    "⚠ config unreadable — using defaults; changes won't persist until fixed";

/// The main menu as drawn: its entries and the line under them.
pub struct MainMenuView {
    pub items: Vec<Vec<Piece>>,
    pub selected: usize,
    pub hint: Vec<Piece>,
}

/// The line under the main menu.
pub open spec fn spec_menu_hint(config_unreadable: bool) -> LineView {
    if config_unreadable {
        seq![(CONFIG_UNREADABLE@, Tone::Warn, false)]
    } else {
        seq![("q/Esc exit"@, Tone::Muted, false)]
    }
}

/// The taglines the main menu cycles through.
pub open spec fn spec_tagline(i: int) -> &'static str {
    if i == 0 {
        "One command, rules all repos."
    } else if i == 1 {
        "Keep your RDS always in sync!"
    } else {
        "How many hours are you behind?"
    }
}

fn tagline(i: u64) -> (r: &'static str)
    ensures
        r == spec_tagline(i as int),
{
    if i == 0 {
        "One command, rules all repos."
    } else if i == 1 {
        "Keep your RDS always in sync!"
    } else {
        "How many hours are you behind?"
    }
}

/// The grey levels of the tagline's fade, darkest first (256-colour indices).
pub open spec fn spec_gray(i: int) -> u8 {
    if i == 0 {
        232
    } else if i == 1 {
        234
    } else if i == 2 {
        236
    } else if i == 3 {
        238
    } else if i == 4 {
        240
    } else if i == 5 {
        241
    } else if i == 6 {
        242
    } else {
        243
    }
}

fn gray(i: u64) -> (r: u8)
    ensures
        r == spec_gray(i as int),
{
    if i == 0 {
        232
    } else if i == 1 {
        234
    } else if i == 2 {
        236
    } else if i == 3 {
        238
    } else if i == 4 {
        240
    } else if i == 5 {
        241
    } else if i == 6 {
        242
    } else {
        243
    }
}

/// The tagline shown at `now_ms` (milliseconds since the epoch) and its grey
/// level: each tagline stays 10 s; in the first 300 ms of its turn the
/// previous one fades out, in the next 300 ms the new one fades in. The fade
/// step is the brightness (0 to 1) times 7, rounded half up.
pub open spec fn spec_current_tagline(now_ms: int) -> (&'static str, u8) {
    let phase = now_ms % 10000;
    let idx = (now_ms / 10000) % 3;
    if phase < 300 {
        (spec_tagline((idx + 2) % 3), spec_gray((2 * (300 - phase) * 7 + 300) / 600))
    } else if phase < 600 {
        (spec_tagline(idx), spec_gray((2 * (phase - 300) * 7 + 300) / 600))
    } else {
        (spec_tagline(idx), spec_gray(7))
    }
}

pub fn current_tagline(now_ms: u64) -> (r: (&'static str, u8))
    ensures
        r == spec_current_tagline(now_ms as int),
{
    let phase = now_ms % 10000;
    let idx = (now_ms / 10000) % 3;
    if phase < 300 {
        (tagline((idx + 2) % 3), gray((2 * (300 - phase) * 7 + 300) / 600))
    } else if phase < 600 {
        (tagline(idx), gray((2 * (phase - 300) * 7 + 300) / 600))
    } else {
        (tagline(idx), gray(7))
    }
}

impl<R> App<R> {
    /// The main menu as drawn.
    pub fn main_menu_view(&self) -> (r: MainMenuView)
        requires
            self.wf(),
        ensures
            r.selected == self.spec_selected(Screen::MainMenu),
            r.items.deep_view() == Seq::new(
                spec_main_menu_kinds(self.available_update).len(),
                |i: int|
                    spec_menu_line(
                        spec_menu_text(spec_main_menu_kinds(self.available_update)[i], self.available_update).0,
                        spec_menu_text(spec_main_menu_kinds(self.available_update)[i], self.available_update).1,
                        i == self.spec_selected(Screen::MainMenu),
                    ),
            ),
            r.hint.deep_view() == spec_menu_hint(self.config_load_error is Some),
    {
        let entries = self.main_menu_items();
        let sel = self.selected_index(Screen::MainMenu);
        let ghost kinds = spec_main_menu_kinds(self.available_update);
        let mut items: Vec<Vec<Piece>> = Vec::new();
        let mut i: usize = 0;
        while i < entries.len()
            invariant
                i <= entries@.len(),
                entries@.len() == kinds.len(),
                forall|k: int|
                    0 <= k < entries@.len() ==> {
                        &&& (#[trigger] entries@[k]).kind == kinds[k]
                        &&& entries@[k].name@ == spec_menu_text(kinds[k], self.available_update).0
                        &&& entries@[k].desc@ == spec_menu_text(kinds[k], self.available_update).1
                    },
                items.deep_view() =~= Seq::new(
                    i as nat,
                    |k: int|
                        spec_menu_line(
                            spec_menu_text(kinds[k], self.available_update).0,
                            spec_menu_text(kinds[k], self.available_update).1,
                            k == sel,
                        ),
                ),
            decreases entries.len() - i,
        {
            let line = menu_line(entries[i].name.as_str(), entries[i].desc.as_str(), i == sel);
            let ghost before = items.deep_view();
            let ghost line_view = line.deep_view();
            items.push(line);
            assert(items.deep_view() =~= before.push(line_view));
            i = i + 1;
        }
        let hint = if self.config_load_error.is_some() {
            vec![piece(CONFIG_UNREADABLE, Tone::Warn, false)]
        } else {
            vec![piece("q/Esc exit", Tone::Muted, false)]
        };
        assert(hint.deep_view() =~= spec_menu_hint(self.config_load_error is Some));
        MainMenuView { items, selected: sel, hint }
    }

    /// The settings menu as drawn.
    pub fn settings_view(&self) -> (r: ListView)
        requires
            self.wf(),
        ensures
            r.title@ == "Settings"@,
            r.hint.deep_view() == spec_hint_navigate_action("enter"@),
            r.selected == self.spec_selected(Screen::Settings),
            r.items.deep_view() == Seq::new(
                spec_settings_items().len(),
                |i: int| spec_setting_line(spec_settings_items()[i], i == self.spec_selected(Screen::Settings)),
            ),
            r.confirm is None,
            r.error is None,
    {
        let rows = self.settings_items();
        let sel = self.selected_index(Screen::Settings);
        let mut items: Vec<Vec<Piece>> = Vec::new();
        let mut i: usize = 0;
        while i < rows.len()
            invariant
                i <= rows@.len(),
                rows@ == spec_settings_items(),
                items.deep_view() =~= Seq::new(
                    i as nat,
                    |k: int| spec_setting_line(rows@[k], k == sel),
                ),
            decreases rows.len() - i,
        {
            let line = setting_line(&rows[i], i == sel);
            let ghost before = items.deep_view();
            let ghost line_view = line.deep_view();
            items.push(line);
            assert(items.deep_view() =~= before.push(line_view));
            i = i + 1;
        }
        ListView {
            title: "Settings",
            hint: hint_navigate_action("enter"),
            items,
            selected: sel,
            confirm: None,
            error: None,
        }
    }

    /// Either general settings screen as drawn (the one being shown).
    pub fn general_toggles_view(&self) -> (r: ListView)
        requires
            self.wf(),
            self.screen == Screen::SyncGeneralSettings || self.screen == Screen::TdGeneralSettings,
        ensures
            r.title@ == if self.screen == Screen::SyncGeneralSettings {
                "RDS Sync"@
            } else {
                "Time Doctor"@
            },
            r.hint.deep_view() == spec_hint_navigate_action(
                spec_general_action(spec_row_at(self.spec_general_rows(), self.spec_selected(self.screen))),
            ),
            r.selected == self.spec_selected(self.screen),
            r.items.deep_view() == Seq::new(
                self.spec_general_rows().len(),
                |i: int|
                    spec_general_line(
                        self.spec_general_rows()[i],
                        i == self.spec_selected(self.screen),
                        self.input_mode is SelectingTimezone,
                    ),
            ),
            r.confirm is None,
            r.error is None,
    {
        let screen = self.screen;
        let is_sync = screen == Screen::SyncGeneralSettings;
        let rows = if is_sync {
            self.sync_general_items()
        } else {
            self.td_general_items()
        };
        let sel = self.selected_index(screen);
        let selecting = match self.input_mode {
            InputMode::SelectingTimezone(_) => true,
            _ => false,
        };
        let action = if sel < rows.len() {
            match &rows[sel] {
                GeneralToggleRow::Toggle { .. } => "toggle",
                GeneralToggleRow::TimezoneSelector { .. } => "change",
                _ => "enter",
            }
        } else {
            "enter"
        };
        let mut items: Vec<Vec<Piece>> = Vec::new();
        let mut i: usize = 0;
        while i < rows.len()
            invariant
                i <= rows@.len(),
                rows@ == self.spec_general_rows(),
                items.deep_view() =~= Seq::new(
                    i as nat,
                    |k: int| spec_general_line(rows@[k], k == sel, selecting),
                ),
            decreases rows.len() - i,
        {
            let line = general_line(&rows[i], i == sel, selecting);
            let ghost before = items.deep_view();
            let ghost line_view = line.deep_view();
            items.push(line);
            assert(items.deep_view() =~= before.push(line_view));
            i = i + 1;
        }
        ListView {
            title: if is_sync {
                "RDS Sync"
            } else {
                "Time Doctor"
            },
            hint: hint_navigate_action(action),
            items,
            selected: sel,
            confirm: None,
            error: None,
        }
    }

    /// The repository list as drawn; while a URL is typed, the add row shows it.
    pub fn repo_manager_view(&self) -> (r: ListView)
        requires
            self.wf(),
        ensures
            r.title@ == "Manage Repos"@,
            r.hint.deep_view() == if self.input_mode is AddingRepo {
                spec_hint_input_confirm()
            } else {
                spec_hint_navigate_action(
                    spec_repo_manager_action(
                        spec_row_at(
                            spec_repo_manager_items(self.sync.repos@),
                            self.spec_selected(Screen::RepoManager),
                        ),
                    ),
                )
            },
            r.selected == self.spec_selected(Screen::RepoManager),
            r.items.deep_view() == Seq::new(
                spec_repo_manager_items(self.sync.repos@).len(),
                |i: int|
                    spec_repo_manager_line(
                        spec_repo_manager_items(self.sync.repos@)[i],
                        i == self.spec_selected(Screen::RepoManager),
                        match self.input_mode {
                            InputMode::AddingRepo(b) => Some(b@),
                            _ => None,
                        },
                    ),
            ),
            r.confirm is None,
            r.error is None,
    {
        let rows = self.repo_manager_items();
        let sel = self.selected_index(Screen::RepoManager);
        let adding: Option<&str> = match &self.input_mode {
            InputMode::AddingRepo(b) => Some(b.as_str()),
            _ => None,
        };
        let hint = match adding {
            Some(_) => hint_input_confirm(),
            None => {
                let action = if sel < rows.len() {
                    match &rows[sel] {
                        RepoManagerRow::RepoToggle { .. } => "toggle",
                        RepoManagerRow::AddUrl => "select",
                        _ => "enter",
                    }
                } else {
                    "enter"
                };
                hint_navigate_action(action)
            },
        };
        let ghost adding_view = match adding {
            Some(b) => Some(b@),
            None => None,
        };
        let mut items: Vec<Vec<Piece>> = Vec::new();
        let mut i: usize = 0;
        while i < rows.len()
            invariant
                i <= rows@.len(),
                rows@ == spec_repo_manager_items(self.sync.repos@),
                adding_view == match self.input_mode {
                    InputMode::AddingRepo(b) => Some(b@),
                    _ => None,
                },
                adding_view == match adding {
                    Some(b) => Some(b@),
                    None => None,
                },
                items.deep_view() =~= Seq::new(
                    i as nat,
                    |k: int| spec_repo_manager_line(rows@[k], k == sel, adding_view),
                ),
            decreases rows.len() - i,
        {
            let line = repo_manager_line(&rows[i], i == sel, adding);
            let ghost before = items.deep_view();
            let ghost line_view = line.deep_view();
            items.push(line);
            assert(items.deep_view() =~= before.push(line_view));
            i = i + 1;
        }
        ListView { title: "Manage Repos", hint, items, selected: sel, confirm: None, error: None }
    }

    /// The removal list as drawn, with the confirmation when one is asked.
    pub fn remove_repos_view(&self) -> (r: ListView)
        requires
            self.wf(),
        ensures
            r.title@ == "Remove Repos"@,
            r.hint.deep_view() == if self.input_mode is ConfirmDelete {
                spec_hint_confirm_cancel()
            } else {
                spec_hint_navigate_action(
                    match spec_row_at(
                        spec_remove_repo_items(self.sync.repos@),
                        self.spec_selected(Screen::RemoveRepos),
                    ) {
                        Some(RemoveRepoRow::RepoDelete { .. }) => "delete"@,
                        _ => "enter"@,
                    },
                )
            },
            r.selected == self.spec_selected(Screen::RemoveRepos),
            r.items.deep_view() == Seq::new(
                spec_remove_repo_items(self.sync.repos@).len(),
                |i: int|
                    spec_remove_repo_line(
                        spec_remove_repo_items(self.sync.repos@)[i],
                        i == self.spec_selected(Screen::RemoveRepos),
                    ),
            ),
            match self.input_mode {
                InputMode::ConfirmDelete(name) => r.confirm matches Some(m) && m@ == "Delete \""@
                    + name@ + "\"?"@,
                _ => r.confirm is None,
            },
            r.error is None,
    {
        let rows = self.remove_repo_items();
        let sel = self.selected_index(Screen::RemoveRepos);
        let (hint, confirm) = match &self.input_mode {
            InputMode::ConfirmDelete(name) => {
                let mut m = concat_str("Delete \"", name.as_str());
                push_all(&mut m, "\"?");
                (hint_confirm_cancel(), Some(m))
            },
            _ => {
                let action = if sel < rows.len() {
                    match &rows[sel] {
                        RemoveRepoRow::RepoDelete { .. } => "delete",
                        _ => "enter",
                    }
                } else {
                    "enter"
                };
                (hint_navigate_action(action), None)
            },
        };
        let mut items: Vec<Vec<Piece>> = Vec::new();
        let mut i: usize = 0;
        while i < rows.len()
            invariant
                i <= rows@.len(),
                rows@ == spec_remove_repo_items(self.sync.repos@),
                items.deep_view() =~= Seq::new(
                    i as nat,
                    |k: int| spec_remove_repo_line(rows@[k], k == sel),
                ),
            decreases rows.len() - i,
        {
            let line = remove_repo_line(&rows[i], i == sel);
            let ghost before = items.deep_view();
            let ghost line_view = line.deep_view();
            items.push(line);
            assert(items.deep_view() =~= before.push(line_view));
            i = i + 1;
        }
        ListView { title: "Remove Repos", hint, items, selected: sel, confirm, error: None }
    }

    /// The credentials screen as drawn, with the last credentials error
    /// above the list.
    pub fn td_settings_view(&self) -> (r: ListView)
        requires
            self.wf(),
            self.td.password_is_set is Some,
            4 * self.td.email@.len() <= usize::MAX,
            self.input_mode matches InputMode::EditingField { buf, .. } ==> 4 * buf@.len()
                <= usize::MAX,
        ensures
            r.title@ == "Manage Credentials"@,
            r.hint.deep_view() == if self.input_mode is EditingField {
                spec_hint(seq!["↵"@, " save  •  "@, "Esc"@, " cancel"@])
            } else {
                spec_hint(
                    seq![
                        "↑↓"@,
                        " navigate  •  "@,
                        "↵"@,
                        " "@ + spec_pad_right(
                            match spec_row_at(
                                spec_td_settings_items(self.td.email, self.td.password_is_set->0),
                                self.spec_selected(Screen::TimeDoctorSettings),
                            ) {
                                Some(TimeSettingRow::Back) => "enter"@,
                                _ => "edit"@,
                            },
                            6,
                        ) + "  •  "@,
                        "⌫/Esc"@,
                        " back"@,
                    ],
                )
            },
            r.selected == self.spec_selected(Screen::TimeDoctorSettings),
            r.items.deep_view() == Seq::new(
                spec_td_settings_items(self.td.email, self.td.password_is_set->0).len(),
                |i: int|
                    spec_td_settings_line(
                        spec_td_settings_items(self.td.email, self.td.password_is_set->0)[i],
                        i == self.spec_selected(Screen::TimeDoctorSettings),
                        self.input_mode,
                    ),
            ),
            r.confirm is None,
            match self.auth_error {
                Some(msg) => r.error matches Some(line) && line.deep_view() == seq![
                    ("  ✗ "@ + msg@, Tone::Dangerous, false),
                ],
                None => r.error is None,
            },
    {
        let rows = self.td_settings_items();
        let sel = self.selected_index(Screen::TimeDoctorSettings);
        let editing = match &self.input_mode {
            InputMode::EditingField { .. } => true,
            _ => false,
        };
        let hint = if editing {
            let h = vec![
                piece("↵", Tone::Muted, false),
                piece(" save  •  ", Tone::Muted, false),
                piece("Esc", Tone::Muted, false),
                piece(" cancel", Tone::Muted, false),
            ];
            assert(h.deep_view() =~= spec_hint(seq!["↵"@, " save  •  "@, "Esc"@, " cancel"@]));
            h
        } else {
            let action = if sel < rows.len() {
                match &rows[sel] {
                    TimeSettingRow::Back => "enter",
                    _ => "edit",
                }
            } else {
                "edit"
            };
            let padded = pad_right(action, 6);
            let mut verb = concat_str(" ", padded.as_str());
            push_all(&mut verb, "  •  ");
            let h = vec![
                piece("↑↓", Tone::Muted, false),
                piece(" navigate  •  ", Tone::Muted, false),
                piece("↵", Tone::Muted, false),
                piece_of(verb, Tone::Muted, false),
                piece("⌫/Esc", Tone::Muted, false),
                piece(" back", Tone::Muted, false),
            ];
            let ghost expected = spec_hint(
                seq![
                    "↑↓"@,
                    " navigate  •  "@,
                    "↵"@,
                    " "@ + spec_pad_right(action@, 6) + "  •  "@,
                    "⌫/Esc"@,
                    " back"@,
                ],
            );
            assert(h.deep_view() =~= expected);
            h
        };
        let mut items: Vec<Vec<Piece>> = Vec::new();
        let mut i: usize = 0;
        while i < rows.len()
            invariant
                i <= rows@.len(),
                rows@ == spec_td_settings_items(self.td.email, self.td.password_is_set->0),
                4 * self.td.email@.len() <= usize::MAX,
                self.input_mode matches InputMode::EditingField { buf, .. } ==> 4 * buf@.len()
                    <= usize::MAX,
                items.deep_view() =~= Seq::new(
                    i as nat,
                    |k: int| spec_td_settings_line(rows@[k], k == sel, self.input_mode),
                ),
            decreases rows.len() - i,
        {
            let line = td_settings_line(&rows[i], i == sel, &self.input_mode);
            let ghost before = items.deep_view();
            let ghost line_view = line.deep_view();
            items.push(line);
            assert(items.deep_view() =~= before.push(line_view));
            i = i + 1;
        }
        let error = match &self.auth_error {
            Some(msg) => {
                let line = vec![piece_of(concat_str("  ✗ ", msg.as_str()), Tone::Dangerous, false)];
                assert(line.deep_view() =~= seq![("  ✗ "@ + msg@, Tone::Dangerous, false)]);
                Some(line)
            },
            None => None,
        };
        ListView { title: "Manage Credentials", hint, items, selected: sel, confirm: None, error }
    }

    /// The contract-period screen as drawn, with the confirmation when a
    /// period is about to be removed.
    pub fn contract_periods_view(&self) -> (r: ListView)
        requires
            self.wf(),
        ensures
            r.title@ == "Contract Periods"@,
            r.hint.deep_view() == if self.input_mode is ConfirmDeletePeriod {
                spec_hint_confirm_cancel()
            } else {
                spec_hint_navigate_action(
                    spec_cp_action(
                        spec_row_at(
                            spec_cp_list_items(self.td.contract_periods@),
                            self.spec_selected(Screen::ContractPeriods),
                        ),
                    ),
                )
            },
            r.selected == self.spec_selected(Screen::ContractPeriods),
            r.items.deep_view() == Seq::new(
                spec_cp_list_items(self.td.contract_periods@).len(),
                |i: int|
                    spec_cp_line(
                        spec_cp_list_items(self.td.contract_periods@)[i],
                        i == self.spec_selected(Screen::ContractPeriods),
                        self.add_cp.monday,
                        self.add_cp.hours_idx as int,
                        self.input_mode,
                    ),
            ),
            match self.input_mode {
                InputMode::ConfirmDeletePeriod(idx) => if idx < self.td.contract_periods@.len() {
                    r.confirm matches Some(m) && m@ == "Delete period "@ + formatted_day(
                        self.td.contract_periods@[idx as int].from,
                    ) + "?"@
                } else {
                    r.confirm is None
                },
                _ => r.confirm is None,
            },
            r.error is None,
    {
        let rows = self.cp_list_items();
        let sel = self.selected_index(Screen::ContractPeriods);
        let (hint, confirm) = match &self.input_mode {
            InputMode::ConfirmDeletePeriod(idx) => {
                let confirm = if *idx < self.td.contract_periods.len() {
                    let date = fmt_date(self.td.contract_periods[*idx].from);
                    let mut m = concat_str("Delete period ", date.as_str());
                    push_all(&mut m, "?");
                    Some(m)
                } else {
                    None
                };
                (hint_confirm_cancel(), confirm)
            },
            _ => {
                let action = if sel < rows.len() {
                    match &rows[sel] {
                        CpListRow::Period { .. } => "delete",
                        CpListRow::SavePeriod => "save",
                        CpListRow::MondayField | CpListRow::HoursField => "change",
                        CpListRow::Back => "enter",
                        _ => "select",
                    }
                } else {
                    "select"
                };
                (hint_navigate_action(action), None)
            },
        };
        let ghost ps = self.td.contract_periods@;
        let mut items: Vec<Vec<Piece>> = Vec::new();
        let mut i: usize = 0;
        while i < rows.len()
            invariant
                i <= rows@.len(),
                rows@ == spec_cp_list_items(ps),
                ps == self.td.contract_periods@,
                self.wf(),
                items.deep_view() =~= Seq::new(
                    i as nat,
                    |k: int|
                        spec_cp_line(
                            rows@[k],
                            k == sel,
                            self.add_cp.monday,
                            self.add_cp.hours_idx as int,
                            self.input_mode,
                        ),
                ),
            decreases rows.len() - i,
        {
            proof {
                if 2 <= i < 2 + ps.len() {
                    assert(rows@[i as int] == CpListRow::Period {
                        index: (i - 2) as usize,
                        from: ps[i - 2].from,
                        weekly_hours: ps[i - 2].weekly_hours,
                    });
                    assert(day_in_range(ps[i - 2].from as int));
                }
            }
            let line = cp_line(&rows[i], i == sel, self.add_cp.monday, self.add_cp.hours_idx, &self.input_mode);
            let ghost before = items.deep_view();
            let ghost line_view = line.deep_view();
            items.push(line);
            assert(items.deep_view() =~= before.push(line_view));
            i = i + 1;
        }
        ListView { title: "Contract Periods", hint, items, selected: sel, confirm, error: None }
    }
}

} // verus!
