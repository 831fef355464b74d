//! The named rows of each screen, top to bottom, and the confirmation
//! dialog's text.
use vstd::prelude::*;

use crate::layout::{RowHeight, RowMap, Rect, ScreenLayout, solved_rows};
use crate::view::{piece, LineView, Piece, Tone};

verus! {

/// Rows of the list screens: small logo, title, divider, then the list.
pub open spec fn spec_sub_screen_names() -> Seq<&'static str> {
    seq!["logo", "blank1", "title", "divider", "blank2", "list"]
}

pub open spec fn spec_sub_screen_heights() -> Seq<RowHeight> {
    seq![
        RowHeight::Length(3),
        RowHeight::Length(1),
        RowHeight::Length(1),
        RowHeight::Length(1),
        RowHeight::Length(1),
        RowHeight::Length(0),
    ]
}

pub fn sub_screen_rows() -> (r: ScreenLayout)
    ensures
        r.wf(),
        r.names@ == spec_sub_screen_names(),
        r.heights@ == spec_sub_screen_heights(),
        r.margin == 1,
{
    let r = ScreenLayout::new().row("logo", 3).row("blank1", 1).row("title", 1).row("divider", 1).row(
        "blank2",
        1,
    ).row("list", 0).margin(1);
    assert(r.names@ =~= spec_sub_screen_names());
    assert(r.heights@ =~= spec_sub_screen_heights());
    r
}

/// The list screens' rows laid out in `area`.
pub fn sub_screen_layout(area: Rect) -> (r: RowMap)
    ensures
        r.names@ == spec_sub_screen_names(),
        r.rects@ == solved_rows(area, spec_sub_screen_heights(), 1),
        r.rects@.len() == r.names@.len(),
{
    sub_screen_rows().split(area)
}

/// Rows of the main menu; a short terminal (`compact`) drops the logo,
/// tagline, clock and divider.
pub open spec fn spec_main_menu_names() -> Seq<&'static str> {
    seq![
        "header",
        "blank1",
        "tagline",
        "time_ver",
        "divider",
        "blank2",
        "sel_hdr",
        "blank_sel",
        "menu",
        "blank3",
        "hint",
    ]
}

pub open spec fn spec_main_menu_heights(compact: bool, menu_height: u16) -> Seq<RowHeight> {
    let c = |h: u16| if compact {
        RowHeight::Length(0)
    } else {
        RowHeight::Length(h)
    };
    seq![
        c(7),
        c(1),
        c(1),
        c(1),
        c(1),
        c(1),
        RowHeight::Length(1),
        RowHeight::Length(1),
        RowHeight::Length(menu_height),
        RowHeight::Length(1),
        RowHeight::Length(1),
    ]
}

pub fn main_menu_rows(compact: bool, menu_height: u16) -> (r: ScreenLayout)
    ensures
        r.wf(),
        r.names@ == spec_main_menu_names(),
        r.heights@ == spec_main_menu_heights(compact, menu_height),
        r.margin == 1,
{
    let header_h: u16 = if compact {
        0
    } else {
        7
    };
    let line_h: u16 = if compact {
        0
    } else {
        1
    };
    let r = ScreenLayout::new().row("header", header_h).row("blank1", line_h).row(
        "tagline",
        line_h,
    ).row("time_ver", line_h).row("divider", line_h).row("blank2", line_h).row("sel_hdr", 1).row(
        "blank_sel",
        1,
    ).row("menu", menu_height).row("blank3", 1).row("hint", 1).margin(1);
    assert(r.names@ =~= spec_main_menu_names());
    assert(r.heights@ =~= spec_main_menu_heights(compact, menu_height));
    r
}

/// Rows of the screens that show a status line between header and hint:
/// the discovery screen (`detail` 0), the failed-sync screen (the reason
/// takes 2 lines) and the update screen (a status line, then 2 lines of
/// detail).
pub open spec fn spec_status_names(with_detail: bool) -> Seq<&'static str> {
    if with_detail {
        seq!["logo", "blank1", "title", "divider", "blank2", "status", "blank3", "detail", "blank4", "hint"]
    } else {
        seq!["logo", "blank1", "title", "divider", "blank2", "status", "blank3", "hint"]
    }
}

pub open spec fn spec_status_heights(status_h: u16, with_detail: bool) -> Seq<RowHeight> {
    let head = seq![
        RowHeight::Length(3),
        RowHeight::Length(1),
        RowHeight::Length(1),
        RowHeight::Length(1),
        RowHeight::Length(1),
        RowHeight::Length(status_h),
        RowHeight::Length(1),
    ];
    if with_detail {
        head + seq![RowHeight::Length(2), RowHeight::Length(1), RowHeight::Length(1)]
    } else {
        head + seq![RowHeight::Length(1)]
    }
}

pub fn status_rows(status_h: u16, with_detail: bool) -> (r: ScreenLayout)
    ensures
        r.wf(),
        r.names@ == spec_status_names(with_detail),
        r.heights@ == spec_status_heights(status_h, with_detail),
        r.margin == 1,
{
    let head = ScreenLayout::new().row("logo", 3).row("blank1", 1).row("title", 1).row("divider", 1).row(
        "blank2",
        1,
    ).row("status", status_h).row("blank3", 1);
    let r = if with_detail {
        head.row("detail", 2).row("blank4", 1).row("hint", 1).margin(1)
    } else {
        head.row("hint", 1).margin(1)
    };
    assert(r.names@ =~= spec_status_names(with_detail));
    assert(r.heights@ =~= spec_status_heights(status_h, with_detail));
    r
}

/// Rows of the sync table screen: the table shows up to six repositories;
/// a longer list gets a scroll hint; failed repositories are listed last.
pub open spec fn spec_syncing_names(scrollable: bool) -> Seq<&'static str> {
    let head = seq!["logo", "blank1", "title", "divider", "blank2", "summary", "blank3", "list", "blank4"];
    let tail = seq!["hint", "errors"];
    if scrollable {
        head + seq!["nav_hint", "blank5"] + tail
    } else {
        head + tail
    }
}

pub open spec fn spec_syncing_heights(repo_count: u16, error_count: u16) -> Seq<RowHeight> {
    let visible = if repo_count < 6 {
        repo_count
    } else {
        6u16
    };
    let head = seq![
        RowHeight::Length(3),
        RowHeight::Length(1),
        RowHeight::Length(1),
        RowHeight::Length(1),
        RowHeight::Length(1),
        RowHeight::Length(1),
        RowHeight::Length(1),
        RowHeight::Length((2 + visible) as u16),
        RowHeight::Length(2),
    ];
    let tail = seq![RowHeight::Length(1), RowHeight::Length(error_count)];
    if repo_count > 6 {
        head + seq![RowHeight::Length(1), RowHeight::Length(1)] + tail
    } else {
        head + tail
    }
}

pub fn syncing_rows(repo_count: u16, error_count: u16) -> (r: ScreenLayout)
    ensures
        r.wf(),
        r.names@ == spec_syncing_names(repo_count > 6),
        r.heights@ == spec_syncing_heights(repo_count, error_count),
        r.margin == 1,
{
    let visible: u16 = if repo_count < 6 {
        repo_count
    } else {
        6
    };
    let mut layout = ScreenLayout::new().row("logo", 3).row("blank1", 1).row("title", 1).row(
        "divider",
        1,
    ).row("blank2", 1).row("summary", 1).row("blank3", 1).row("list", 2 + visible).row("blank4", 2);
    if repo_count > 6 {
        layout = layout.row("nav_hint", 1).row("blank5", 1);
    }
    let r = layout.row("hint", 1).row("errors", error_count).margin(1);
    assert(r.names@ =~= spec_syncing_names(repo_count > 6));
    assert(r.heights@ =~= spec_syncing_heights(repo_count, error_count));
    r
}

/// The text of the confirmation dialog: the question, a blank line, and
/// the keys.
pub open spec fn spec_confirm_lines(msg: Seq<char>) -> Seq<LineView> {
    seq![
        seq![(msg, Tone::Text, false)],
        Seq::empty(),
        seq![
            (" ↵/y "@, Tone::Dangerous, true),
            ("delete  "@, Tone::Muted, false),
            (" Esc/n "@, Tone::Muted, true),
            ("cancel"@, Tone::Muted, false),
        ],
    ]
}

pub fn confirm_lines(msg: &str) -> (r: Vec<Vec<Piece>>)
    ensures
        r.deep_view() == spec_confirm_lines(msg@),
{
    let first = vec![piece(msg, Tone::Text, false)];
    let blank: Vec<Piece> = Vec::new();
    assert(blank.deep_view() =~= Seq::<(Seq<char>, Tone, bool)>::empty());
    let keys = vec![
        piece(" ↵/y ", Tone::Dangerous, true),
        piece("delete  ", Tone::Muted, false),
        piece(" Esc/n ", Tone::Muted, true),
        piece("cancel", Tone::Muted, false),
    ];
    assert(first.deep_view() =~= seq![(msg@, Tone::Text, false)]);
    assert(keys.deep_view() =~= spec_confirm_lines(msg@)[2]);
    let ghost views = seq![first.deep_view(), blank.deep_view(), keys.deep_view()];
    let r = vec![first, blank, keys];
    assert(r.deep_view() =~= views);
    assert(views =~= spec_confirm_lines(msg@));
    r
}

} // verus!
