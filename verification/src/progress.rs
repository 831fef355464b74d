//! The progress screens as drawn: the sync table, the self-update status,
//! and the parts of the Time Doctor report that do not depend on the week
//! rows' numbers.
use vstd::prelude::*;

use crate::app::{App, TdReportState};
use crate::layout::{RowHeight, ScreenLayout};
use crate::sync_state::{ForkStatus, RdsStatus, RepoSyncState, SyncPhase, UpdatePhase};
use crate::text::{concat_str, owned, push_all, push_char, slice_chars};
use crate::update_flow::{spec_status_label, status_label};
use crate::view::{
    decimal, hint_pair, pad_left, pad_right, piece, piece_of, spec_decimal, spec_digit,
    spec_hint, spec_hint_pair, spec_pad_left, spec_pad_right, spec_spinner, spinner,
    LineView, Piece, Tone, HINT_RETURN_TO_MENU,
};

verus! {

/// Column widths of the sync table.
pub const NAME_W: usize = 14;

pub const FORK_W: usize = 22;

pub const RDS_W: usize = 22;

pub const ELAPSED_W: usize = 7;

/// Rows of the sync table shown at once.
pub const LIST_VISIBLE: u16 = 6;

/// Colour of a fork-sync status.
pub open spec fn spec_fork_tone(s: ForkStatus) -> Tone {
    match s {
        ForkStatus::Pending => Tone::Muted,
        ForkStatus::Done | ForkStatus::UpToDate => Tone::Success,
        ForkStatus::Skipped(_) => Tone::Warn,
        ForkStatus::Error(_) => Tone::Dangerous,
        ForkStatus::Stashing | ForkStatus::Merging | ForkStatus::Rebasing
        | ForkStatus::Unstashing => Tone::Warn,
        _ => Tone::Accent,
    }
}

pub fn status_color(s: &ForkStatus) -> (r: Tone)
    ensures
        r == spec_fork_tone(*s),
{
    match s {
        ForkStatus::Pending => Tone::Muted,
        ForkStatus::Done | ForkStatus::UpToDate => Tone::Success,
        ForkStatus::Skipped(_) => Tone::Warn,
        ForkStatus::Error(_) => Tone::Dangerous,
        ForkStatus::Stashing | ForkStatus::Merging | ForkStatus::Rebasing
        | ForkStatus::Unstashing => Tone::Warn,
        _ => Tone::Accent,
    }
}

/// Colour of an RDS-sync status.
pub open spec fn spec_rds_tone(s: RdsStatus) -> Tone {
    match s {
        RdsStatus::Pending => Tone::Muted,
        RdsStatus::Done => Tone::Success,
        RdsStatus::Skipped(_) => Tone::Warn,
        RdsStatus::Error(_) => Tone::Dangerous,
        _ => Tone::Accent,
    }
}

pub fn rds_status_color(s: &RdsStatus) -> (r: Tone)
    ensures
        r == spec_rds_tone(*s),
{
    match s {
        RdsStatus::Pending => Tone::Muted,
        RdsStatus::Done => Tone::Success,
        RdsStatus::Skipped(_) => Tone::Warn,
        RdsStatus::Error(_) => Tone::Dangerous,
        _ => Tone::Accent,
    }
}

/// The icon in front of a repository and its colour.
pub open spec fn spec_repo_icon(repo: RepoSyncState, tick: int) -> (Seq<char>, Tone) {
    if repo.spec_has_error() {
        ("✗"@, Tone::Dangerous)
    } else if repo.spec_is_complete() {
        if repo.spec_is_skipped() {
            ("-"@, Tone::Warn)
        } else {
            ("✓"@, Tone::Success)
        }
    } else {
        (seq![spec_spinner(tick)], Tone::Accent)
    }
}

/// The colour and weight of a repository's name: running (bold unless an
/// error showed up), failed, skipped, or done.
pub open spec fn spec_name_style(repo: RepoSyncState) -> (Tone, bool) {
    if repo.spec_is_active() && !repo.spec_has_error() {
        (Tone::Primary, true)
    } else if repo.spec_is_active() {
        (Tone::Primary, false)
    } else if repo.spec_has_error() {
        (Tone::Dangerous, false)
    } else if repo.spec_is_skipped() {
        (Tone::Muted, false)
    } else {
        (Tone::Text, false)
    }
}

/// Seconds from tenths of a second, with one decimal: `12.3s`.
pub open spec fn spec_seconds(tenths: int) -> Seq<char> {
    spec_decimal((tenths / 10) as nat) + seq!['.', spec_digit(tenths % 10), 's']
}

pub fn seconds(tenths: u64) -> (r: String)
    ensures
        r@ == spec_seconds(tenths as int),
{
    let mut r = decimal(tenths / 10);
    push_char(&mut r, '.');
    let d = decimal((tenths % 10) as u64);
    push_all(&mut r, d.as_str());
    push_char(&mut r, 's');
    assert(d@ =~= seq![spec_digit((tenths % 10) as int)]);
    r
}

/// A repository's line in the sync table.
pub open spec fn spec_repo_row(repo: RepoSyncState, tick: int) -> LineView {
    let icon = spec_repo_icon(repo, tick);
    let name = spec_name_style(repo);
    seq![
        (" "@ + icon.0 + " "@, icon.1, false),
        (spec_pad_right(repo.name@, NAME_W as int), name.0, name.1),
        (spec_pad_right(repo.fork_status.spec_label()@, FORK_W as int), spec_fork_tone(repo.fork_status), false),
        (spec_pad_right(repo.rds_status.spec_label()@, RDS_W as int), spec_rds_tone(repo.rds_status), false),
        (spec_pad_left(spec_seconds(repo.elapsed_tenths as int), ELAPSED_W as int), Tone::Muted, false),
    ]
}

pub fn repo_row(repo: &RepoSyncState, tick: usize) -> (r: Vec<Piece>)
    ensures
        r.deep_view() == spec_repo_row(*repo, tick as int),
{
    let (icon, icon_tone): (String, Tone) = if repo.has_error() {
        (owned("✗"), Tone::Dangerous)
    } else if repo.is_complete() {
        if repo.is_skipped() {
            (owned("-"), Tone::Warn)
        } else {
            (owned("✓"), Tone::Success)
        }
    } else {
        let mut s = String::new();
        push_char(&mut s, spinner(tick));
        assert(s@ =~= seq![spec_spinner(tick as int)]);
        (s, Tone::Accent)
    };
    let (name_tone, name_bold) = if repo.is_active() && !repo.has_error() {
        (Tone::Primary, true)
    } else if repo.is_active() {
        (Tone::Primary, false)
    } else if repo.has_error() {
        (Tone::Dangerous, false)
    } else if repo.is_skipped() {
        (Tone::Muted, false)
    } else {
        (Tone::Text, false)
    };
    let mut icon_text = concat_str(" ", icon.as_str());
    push_all(&mut icon_text, " ");
    let elapsed = seconds(repo.elapsed_tenths);
    let r = vec![
        piece_of(icon_text, icon_tone, false),
        piece_of(pad_right(repo.name.as_str(), NAME_W), name_tone, name_bold),
        piece_of(pad_right(repo.fork_status.label(), FORK_W), status_color(&repo.fork_status), false),
        piece_of(pad_right(repo.rds_status.label(), RDS_W), rds_status_color(&repo.rds_status), false),
        piece_of(pad_left(elapsed.as_str(), ELAPSED_W), Tone::Muted, false),
    ];
    assert(r.deep_view() =~= spec_repo_row(*repo, tick as int));
    r
}

/// The header of the sync table.
pub open spec fn spec_sync_header() -> LineView {
    seq![
        ("   "@, Tone::Plain, false),
        (spec_pad_right("Repo Name"@, NAME_W as int), Tone::Muted, true),
        (spec_pad_right("Fork Sync"@, FORK_W as int), Tone::Muted, true),
        (spec_pad_right("RDS Sync"@, RDS_W as int), Tone::Muted, true),
        (spec_pad_left("Elapsed"@, ELAPSED_W as int), Tone::Muted, true),
    ]
}

pub fn sync_header() -> (r: Vec<Piece>)
    ensures
        r.deep_view() == spec_sync_header(),
{
    let r = vec![
        piece("   ", Tone::Plain, false),
        piece_of(pad_right("Repo Name", NAME_W), Tone::Muted, true),
        piece_of(pad_right("Fork Sync", FORK_W), Tone::Muted, true),
        piece_of(pad_right("RDS Sync", RDS_W), Tone::Muted, true),
        piece_of(pad_left("Elapsed", ELAPSED_W), Tone::Muted, true),
    ];
    assert(r.deep_view() =~= spec_sync_header());
    r
}

/// The error a repository failed with (fork sync first), or nothing.
pub open spec fn spec_error_message(repo: RepoSyncState) -> Seq<char> {
    match repo.fork_status {
        ForkStatus::Error(msg) => msg@,
        _ => match repo.rds_status {
            RdsStatus::Error(msg) => msg@,
            _ => Seq::empty(),
        },
    }
}

pub fn error_message(repo: &RepoSyncState) -> (r: String)
    ensures
        r@ == spec_error_message(*repo),
{
    match &repo.fork_status {
        ForkStatus::Error(msg) => return msg.clone(),
        _ => {},
    }
    match &repo.rds_status {
        RdsStatus::Error(msg) => msg.clone(),
        _ => String::new(),
    }
}

/// The detail line of a failed repository.
pub open spec fn spec_error_line(repo: RepoSyncState) -> LineView {
    seq![("  "@ + repo.name@ + " "@, Tone::Dangerous, false), (spec_error_message(repo), Tone::Muted, false)]
}

/// The detail lines of the failed repositories, in order.
pub open spec fn spec_failed_lines(repos: Seq<RepoSyncState>) -> Seq<LineView>
    decreases repos.len(),
{
    if repos.len() == 0 {
        Seq::empty()
    } else if repos.last().spec_has_error() {
        spec_failed_lines(repos.drop_last()).push(spec_error_line(repos.last()))
    } else {
        spec_failed_lines(repos.drop_last())
    }
}

fn error_line(repo: &RepoSyncState) -> (r: Vec<Piece>)
    ensures
        r.deep_view() == spec_error_line(*repo),
{
    let mut head = concat_str("  ", repo.name.as_str());
    push_all(&mut head, " ");
    let r = vec![piece_of(head, Tone::Dangerous, false), piece_of(error_message(repo), Tone::Muted, false)];
    assert(r.deep_view() =~= spec_error_line(*repo));
    r
}

/// Repositories that have finished both halves of their sync.
pub open spec fn spec_count_complete(repos: Seq<RepoSyncState>) -> nat
    decreases repos.len(),
{
    if repos.len() == 0 {
        0
    } else {
        spec_count_complete(repos.drop_last()) + if repos.last().spec_is_complete() {
            1nat
        } else {
            0nat
        }
    }
}

/// Repositories whose sync failed.
pub open spec fn spec_count_errors(repos: Seq<RepoSyncState>) -> nat
    decreases repos.len(),
{
    if repos.len() == 0 {
        0
    } else {
        spec_count_errors(repos.drop_last()) + if repos.last().spec_has_error() {
            1nat
        } else {
            0nat
        }
    }
}

/// Repositories that were skipped.
pub open spec fn spec_count_skipped(repos: Seq<RepoSyncState>) -> nat
    decreases repos.len(),
{
    if repos.len() == 0 {
        0
    } else {
        spec_count_skipped(repos.drop_last()) + if repos.last().spec_is_skipped() {
            1nat
        } else {
            0nat
        }
    }
}

proof fn lemma_counts_bound(repos: Seq<RepoSyncState>)
    ensures
        spec_count_complete(repos) <= repos.len(),
        spec_count_errors(repos) <= repos.len(),
        spec_count_skipped(repos) <= repos.len(),
    decreases repos.len(),
{
    if repos.len() > 0 {
        lemma_counts_bound(repos.drop_last());
    }
}

/// The summary line: complete out of total, errors when there are any,
/// and skipped.
pub open spec fn spec_summary(complete: nat, total: nat, errors: nat, skipped: nat) -> LineView {
    let head = seq![
        (spec_decimal(complete) + "/"@ + spec_decimal(total), Tone::Accent, false),
        (" complete"@, Tone::Text, false),
    ];
    let errs = if errors > 0 {
        seq![("  •  "@, Tone::Muted, false), (spec_decimal(errors), Tone::Dangerous, false), (" error"@, Tone::Text, false)]
    } else {
        Seq::empty()
    };
    head + errs + seq![("  •  "@, Tone::Muted, false), (spec_decimal(skipped), Tone::Warn, false), (" skipped"@, Tone::Text, false)]
}

fn summary(complete: u64, total: u64, errors: u64, skipped: u64) -> (r: Vec<Piece>)
    ensures
        r.deep_view() == spec_summary(complete as nat, total as nat, errors as nat, skipped as nat),
{
    let c = decimal(complete);
    let mut ratio = concat_str(c.as_str(), "/");
    let t = decimal(total);
    push_all(&mut ratio, t.as_str());
    let mut r = vec![piece_of(ratio, Tone::Accent, false), piece(" complete", Tone::Text, false)];
    if errors > 0 {
        r.push(piece("  •  ", Tone::Muted, false));
        r.push(piece_of(decimal(errors), Tone::Dangerous, false));
        r.push(piece(" error", Tone::Text, false));
    }
    r.push(piece("  •  ", Tone::Muted, false));
    r.push(piece_of(decimal(skipped), Tone::Warn, false));
    r.push(piece(" skipped", Tone::Text, false));
    assert(r.deep_view() =~= spec_summary(complete as nat, total as nat, errors as nat, skipped as nat));
    r
}

/// The sync screen as drawn.
pub struct SyncView {
    pub title: &'static str,
    pub hint: Vec<Piece>,
    /// The status line (discovering), the reason (failed) or the summary.
    pub status: Vec<Piece>,
    /// The table header and rows (empty unless syncing).
    pub header: Vec<Piece>,
    pub rows: Vec<Vec<Piece>>,
    /// The failed repositories and why.
    pub errors: Vec<Vec<Piece>>,
    /// The explanation or hint under the rest.
    pub footer: Vec<Piece>,
    /// Whether the table has more rows than it shows.
    pub scrollable: bool,
}

/// Shown while the repositories are being looked for.
pub const DISCOVERY_NOTE: &'static str =
    "Scanning your home directory for cloned repos (first run only)…";

/// Shown when a failed start gives no reason.
pub const SYNC_NOT_STARTED: &'static str = "Sync could not start.";

impl<R> App<R> {
    /// The sync screen as drawn.
    pub fn sync_view(&self) -> (r: SyncView)
        ensures
            match self.sync_state {
                Some(st) => match st.phase {
                    SyncPhase::Discovering => {
                        &&& r.title@ == "Preparing Sync"@
                        &&& r.hint.deep_view() == spec_hint_pair("⌫/Esc"@, " cancel"@)
                        &&& r.status.deep_view() == seq![
                            ("  "@ + seq![spec_spinner(st.tick as int)] + "  "@, Tone::Accent, false),
                            ("Discovering repositories…"@, Tone::Text, false),
                        ]
                        &&& r.footer.deep_view() == seq![(DISCOVERY_NOTE@, Tone::Muted, false)]
                        &&& r.header@.len() == 0 && r.rows@.len() == 0 && r.errors@.len() == 0
                        &&& !r.scrollable
                    },
                    SyncPhase::Failed => {
                        &&& r.title@ == "Sync Unavailable"@
                        &&& r.hint.deep_view() == spec_hint_pair("↵"@, " back"@)
                        &&& r.status.deep_view() == seq![
                            ("  ✗  "@, Tone::Dangerous, false),
                            (match st.setup_error {
                                Some(m) => m@,
                                None => SYNC_NOT_STARTED@,
                            }, Tone::Text, false),
                        ]
                        &&& r.footer.deep_view() == seq![(HINT_RETURN_TO_MENU@, Tone::Muted, false)]
                        &&& r.header@.len() == 0 && r.rows@.len() == 0 && r.errors@.len() == 0
                        &&& !r.scrollable
                    },
                    SyncPhase::Syncing => {
                        let repos = st.repos@;
                        &&& r.title@ == if forall|i: int|
                            0 <= i < repos.len() ==> #[trigger] repos[i].spec_is_complete() {
                            "Sync Complete"@
                        } else {
                            "Syncing Repos"@
                        }
                        &&& r.hint.deep_view() == spec_hint_pair("⌫/Esc"@, " cancel"@)
                        &&& r.status.deep_view() == spec_summary(
                            spec_count_complete(repos),
                            repos.len(),
                            spec_count_errors(repos),
                            spec_count_skipped(repos),
                        )
                        &&& r.header.deep_view() == spec_sync_header()
                        &&& r.rows.deep_view() == Seq::new(
                            repos.len(),
                            |i: int| spec_repo_row(repos[i], st.tick as int),
                        )
                        &&& r.errors.deep_view() == spec_failed_lines(repos)
                        &&& r.footer.deep_view() == seq![
                            (if forall|i: int|
                                0 <= i < repos.len() ==> #[trigger] repos[i].spec_is_complete() {
                                HINT_RETURN_TO_MENU@
                            } else {
                                "Syncing..."@
                            }, Tone::Muted, false),
                        ]
                        &&& r.scrollable == (repos.len() > LIST_VISIBLE)
                    },
                },
                None => {
                    &&& r.title@ == "Sync Complete"@
                    &&& r.hint.deep_view() == spec_hint_pair("⌫/Esc"@, " cancel"@)
                    &&& r.status@.len() == 0 && r.header@.len() == 0 && r.rows@.len() == 0
                    &&& r.errors@.len() == 0 && r.footer@.len() == 0
                    &&& !r.scrollable
                },
            },
    {
        match &self.sync_state {
            None => SyncView {
                title: "Sync Complete",
                hint: hint_pair("⌫/Esc", " cancel"),
                status: Vec::new(),
                header: Vec::new(),
                rows: Vec::new(),
                errors: Vec::new(),
                footer: Vec::new(),
                scrollable: false,
            },
            Some(st) => match st.phase {
                SyncPhase::Discovering => {
                    let mut sp = owned("  ");
                    let c = spinner(st.tick as usize);
                    push_char(&mut sp, c);
                    assert(sp@ =~= "  "@ + seq![c]);
                    push_all(&mut sp, "  ");
                    let status = vec![
                        piece_of(sp, Tone::Accent, false),
                        piece("Discovering repositories…", Tone::Text, false),
                    ];
                    assert(status.deep_view() =~= seq![
                        ("  "@ + seq![spec_spinner(st.tick as int)] + "  "@, Tone::Accent, false),
                        ("Discovering repositories…"@, Tone::Text, false),
                    ]);
                    let footer = vec![piece(DISCOVERY_NOTE, Tone::Muted, false)];
                    assert(footer.deep_view() =~= seq![(DISCOVERY_NOTE@, Tone::Muted, false)]);
                    SyncView {
                        title: "Preparing Sync",
                        hint: hint_pair("⌫/Esc", " cancel"),
                        status,
                        header: Vec::new(),
                        rows: Vec::new(),
                        errors: Vec::new(),
                        footer,
                        scrollable: false,
                    }
                },
                SyncPhase::Failed => {
                    let msg = match &st.setup_error {
                        Some(m) => m.clone(),
                        None => owned(SYNC_NOT_STARTED),
                    };
                    let status = vec![piece("  ✗  ", Tone::Dangerous, false), piece_of(msg, Tone::Text, false)];
                    assert(status.deep_view() =~= seq![
                        ("  ✗  "@, Tone::Dangerous, false),
                        (match st.setup_error {
                            Some(m) => m@,
                            None => SYNC_NOT_STARTED@,
                        }, Tone::Text, false),
                    ]);
                    let footer = vec![piece(HINT_RETURN_TO_MENU, Tone::Muted, false)];
                    assert(footer.deep_view() =~= seq![(HINT_RETURN_TO_MENU@, Tone::Muted, false)]);
                    SyncView {
                        title: "Sync Unavailable",
                        hint: hint_pair("↵", " back"),
                        status,
                        header: Vec::new(),
                        rows: Vec::new(),
                        errors: Vec::new(),
                        footer,
                        scrollable: false,
                    }
                },
                SyncPhase::Syncing => self.syncing_view(),
            },
        }
    }

    fn syncing_view(&self) -> (r: SyncView)
        requires
            self.sync_state matches Some(st) && st.phase == SyncPhase::Syncing,
        ensures
            ({
                let st = self.sync_state->0;
                let repos = st.repos@;
                let all_done = forall|i: int|
                    0 <= i < repos.len() ==> #[trigger] repos[i].spec_is_complete();
                &&& r.title@ == if all_done {
                    "Sync Complete"@
                } else {
                    "Syncing Repos"@
                }
                &&& r.hint.deep_view() == spec_hint_pair("⌫/Esc"@, " cancel"@)
                &&& r.status.deep_view() == spec_summary(
                    spec_count_complete(repos),
                    repos.len(),
                    spec_count_errors(repos),
                    spec_count_skipped(repos),
                )
                &&& r.header.deep_view() == spec_sync_header()
                &&& r.rows.deep_view() == Seq::new(
                    repos.len(),
                    |i: int| spec_repo_row(repos[i], st.tick as int),
                )
                &&& r.errors.deep_view() == spec_failed_lines(repos)
                &&& r.footer.deep_view() == seq![
                    (if all_done {
                        HINT_RETURN_TO_MENU@
                    } else {
                        "Syncing..."@
                    }, Tone::Muted, false),
                ]
                &&& r.scrollable == (repos.len() > LIST_VISIBLE)
            }),
    {
        let st = match &self.sync_state {
            Some(st) => st,
            None => {
                return SyncView {
                    title: "Sync Complete",
                    hint: hint_pair("⌫/Esc", " cancel"),
                    status: Vec::new(),
                    header: Vec::new(),
                    rows: Vec::new(),
                    errors: Vec::new(),
                    footer: Vec::new(),
                    scrollable: false,
                };
            },
        };
        let ghost repos = st.repos@;
        let tick = st.tick as usize;
        let mut complete: u64 = 0;
        let mut errors: u64 = 0;
        let mut skipped: u64 = 0;
        let mut all_done = true;
        let mut rows: Vec<Vec<Piece>> = Vec::new();
        let mut error_lines: Vec<Vec<Piece>> = Vec::new();
        let mut i: usize = 0;
        assert(repos.take(0) =~= Seq::<RepoSyncState>::empty());
        while i < st.repos.len()
            invariant
                i <= repos.len(),
                repos == st.repos@,
                complete == spec_count_complete(repos.take(i as int)),
                errors == spec_count_errors(repos.take(i as int)),
                skipped == spec_count_skipped(repos.take(i as int)),
                complete <= i,
                errors <= i,
                skipped <= i,
                all_done == forall|k: int| 0 <= k < i ==> #[trigger] repos[k].spec_is_complete(),
                rows.deep_view() =~= Seq::new(i as nat, |k: int| spec_repo_row(repos[k], tick as int)),
                error_lines.deep_view() =~= spec_failed_lines(repos.take(i as int)),
            decreases repos.len() - i,
        {
            let repo = &st.repos[i];
            let ghost t = repos.take(i as int);
            let ghost t1 = repos.take(i + 1);
            assert(t1.drop_last() =~= t);
            assert(t1.last() == repos[i as int]);
            proof {
                lemma_counts_bound(t);
            }
            if repo.is_complete() {
                complete = complete + 1;
            } else {
                all_done = false;
            }
            if repo.has_error() {
                errors = errors + 1;
                let line = error_line(repo);
                let ghost before = error_lines.deep_view();
                let ghost line_view = line.deep_view();
                error_lines.push(line);
                assert(error_lines.deep_view() =~= before.push(line_view));
            }
            if repo.is_skipped() {
                skipped = skipped + 1;
            }
            let line = repo_row(repo, tick);
            let ghost before = rows.deep_view();
            let ghost line_view = line.deep_view();
            rows.push(line);
            assert(rows.deep_view() =~= before.push(line_view));
            i = i + 1;
        }
        assert(repos.take(repos.len() as int) =~= repos);
        let footer_text = if all_done {
            HINT_RETURN_TO_MENU
        } else {
            "Syncing..."
        };
        let footer = vec![piece(footer_text, Tone::Muted, false)];
        assert(footer.deep_view() =~= seq![(footer_text@, Tone::Muted, false)]);
        SyncView {
            title: if all_done {
                "Sync Complete"
            } else {
                "Syncing Repos"
            },
            hint: hint_pair("⌫/Esc", " cancel"),
            status: summary(complete, st.repos.len() as u64, errors, skipped),
            header: sync_header(),
            rows,
            errors: error_lines,
            footer,
            scrollable: st.repos.len() > 6,
        }
    }
}

/// The update screen as drawn.
pub struct UpdateView {
    pub title: &'static str,
    pub hint: Vec<Piece>,
    pub status: Vec<Piece>,
    pub detail: Vec<Piece>,
    pub footer: Vec<Piece>,
}

/// Title and key hint of the update screen for a phase.
pub open spec fn spec_update_title(phase: UpdatePhase) -> (Seq<char>, LineView) {
    match phase {
        UpdatePhase::Done(_) => ("Update Complete"@, spec_hint_pair("↵"@, " relaunch"@)),
        UpdatePhase::UpToDate => ("No Update Needed"@, spec_hint_pair("↵"@, " back"@)),
        UpdatePhase::Failed(_) => ("Update Failed"@, spec_hint_pair("↵"@, " back"@)),
        _ => ("Updating JotMate"@, spec_hint_pair("⌫/Esc"@, " cancel"@)),
    }
}

/// The icon of the update status line.
pub open spec fn spec_update_icon(phase: UpdatePhase, tick: int) -> (Seq<char>, Tone) {
    match phase {
        UpdatePhase::Done(_) | UpdatePhase::UpToDate => ("✓"@, Tone::Success),
        UpdatePhase::Failed(_) => ("✗"@, Tone::Dangerous),
        _ => (seq![spec_spinner(tick)], Tone::Accent),
    }
}

/// The line under the update status.
pub open spec fn spec_update_detail(phase: UpdatePhase, current_version: Seq<char>) -> LineView {
    match phase {
        UpdatePhase::Done(v) => seq![
            ("Updated to v"@ + v@ + ". Press Enter to relaunch."@, Tone::Muted, false),
        ],
        UpdatePhase::UpToDate => seq![
            ("You are already on v"@ + current_version + "."@, Tone::Muted, false),
        ],
        UpdatePhase::Failed(msg) => seq![(msg@, Tone::Dangerous, false)],
        _ => seq![("Fetching the latest release from GitHub…"@, Tone::Muted, false)],
    }
}

/// The hint at the bottom of the update screen.
pub open spec fn spec_update_footer(phase: UpdatePhase) -> Seq<char> {
    match phase {
        UpdatePhase::Done(_) => "Press Enter to relaunch jotmate"@,
        _ => if phase.spec_is_terminal() {
            HINT_RETURN_TO_MENU@
        } else {
            "Updating…"@
        },
    }
}

impl<R> App<R> {
    /// The update screen as drawn; `current_version` is the running
    /// program's version. Without an update under way it shows the check.
    pub fn update_view(&self, current_version: &str) -> (r: UpdateView)
        ensures
            ({
                let phase = match self.update_state {
                    Some(st) => st.phase,
                    None => UpdatePhase::Checking,
                };
                let tick = match self.update_state {
                    Some(st) => st.tick as int,
                    None => 0,
                };
                let icon = spec_update_icon(phase, tick);
                &&& r.title@ == spec_update_title(phase).0
                &&& r.hint.deep_view() == spec_update_title(phase).1
                &&& r.status.deep_view() == seq![
                    ("  "@, Tone::Plain, false),
                    (icon.0, icon.1, false),
                    ("  "@, Tone::Plain, false),
                    (spec_status_label(phase), Tone::Text, false),
                ]
                &&& r.detail.deep_view() == spec_update_detail(phase, current_version@)
                &&& r.footer.deep_view() == seq![(spec_update_footer(phase), Tone::Muted, false)]
            }),
    {
        let checking = UpdatePhase::Checking;
        let (phase, tick): (&UpdatePhase, usize) = match &self.update_state {
            Some(st) => (&st.phase, st.tick as usize),
            None => (&checking, 0),
        };
        let (title, hint) = match phase {
            UpdatePhase::Done(_) => ("Update Complete", hint_pair("↵", " relaunch")),
            UpdatePhase::UpToDate => ("No Update Needed", hint_pair("↵", " back")),
            UpdatePhase::Failed(_) => ("Update Failed", hint_pair("↵", " back")),
            _ => ("Updating JotMate", hint_pair("⌫/Esc", " cancel")),
        };
        let (icon, icon_tone): (String, Tone) = match phase {
            UpdatePhase::Done(_) | UpdatePhase::UpToDate => (owned("✓"), Tone::Success),
            UpdatePhase::Failed(_) => (owned("✗"), Tone::Dangerous),
            _ => {
                let mut s = String::new();
                push_char(&mut s, spinner(tick));
                assert(s@ =~= seq![spec_spinner(tick as int)]);
                (s, Tone::Accent)
            },
        };
        let status = vec![
            piece("  ", Tone::Plain, false),
            piece_of(icon, icon_tone, false),
            piece("  ", Tone::Plain, false),
            piece_of(status_label(phase), Tone::Text, false),
        ];
        let detail = match phase {
            UpdatePhase::Done(v) => {
                let mut t = concat_str("Updated to v", v.as_str());
                push_all(&mut t, ". Press Enter to relaunch.");
                vec![piece_of(t, Tone::Muted, false)]
            },
            UpdatePhase::UpToDate => {
                let mut t = concat_str("You are already on v", current_version);
                push_all(&mut t, ".");
                vec![piece_of(t, Tone::Muted, false)]
            },
            UpdatePhase::Failed(msg) => vec![piece_of(msg.clone(), Tone::Dangerous, false)],
            _ => vec![piece("Fetching the latest release from GitHub…", Tone::Muted, false)],
        };
        let footer_text = match phase {
            UpdatePhase::Done(_) => "Press Enter to relaunch jotmate",
            _ => if phase.is_terminal() {
                HINT_RETURN_TO_MENU
            } else {
                "Updating…"
            },
        };
        let footer = vec![piece(footer_text, Tone::Muted, false)];
        let ghost ph = if self.update_state is Some {
            self.update_state->0.phase
        } else {
            UpdatePhase::Checking
        };
        proof {
            assert(*phase == ph);
            assert(status.deep_view() =~= seq![
                ("  "@, Tone::Plain, false),
                (spec_update_icon(ph, tick as int).0, spec_update_icon(ph, tick as int).1, false),
                ("  "@, Tone::Plain, false),
                (spec_status_label(ph), Tone::Text, false),
            ]);
            assert(detail.deep_view() =~= spec_update_detail(ph, current_version@));
            assert(footer.deep_view() =~= seq![(spec_update_footer(ph), Tone::Muted, false)]);
        }
        UpdateView { title, hint, status, detail, footer }
    }
}

/// Width of the week column of the report table.
pub const WEEK_W: usize = 26;

/// Width of the whole report table: the UI column less margins, gap and
/// scroll bar.
pub const TOTAL_W: usize = 71;

/// Widths of the week column and of each number column: the numbers share
/// what the week column leaves, four ways with the running total shown,
/// three ways without.
pub fn col_widths(show_cumulative: bool) -> (r: (usize, usize))
    ensures
        r == (WEEK_W, ((TOTAL_W - WEEK_W) / if show_cumulative {
            4int
        } else {
            3int
        }) as usize),
{
    let num_cols: usize = if show_cumulative {
        4
    } else {
        3
    };
    (WEEK_W, (TOTAL_W - WEEK_W) / num_cols)
}

/// The header of the report table.
pub open spec fn spec_report_header(show_cumulative: bool) -> LineView {
    let num_w: int = (TOTAL_W - WEEK_W) / if show_cumulative {
        4int
    } else {
        3int
    };
    let base = seq![
        (spec_pad_right("Week"@, WEEK_W as int), Tone::Muted, true),
        (spec_pad_left("Worked"@, num_w), Tone::Muted, true),
        (spec_pad_left("Target"@, num_w), Tone::Muted, true),
        (spec_pad_left("Balance"@, num_w), Tone::Muted, true),
    ];
    if show_cumulative {
        base.push((spec_pad_left("Cuml."@, num_w), Tone::Muted, true))
    } else {
        base
    }
}

pub fn report_header(show_cumulative: bool) -> (r: Vec<Piece>)
    ensures
        r.deep_view() == spec_report_header(show_cumulative),
{
    let (week_w, num_w) = col_widths(show_cumulative);
    let mut r = vec![
        piece_of(pad_right("Week", week_w), Tone::Muted, true),
        piece_of(pad_left("Worked", num_w), Tone::Muted, true),
        piece_of(pad_left("Target", num_w), Tone::Muted, true),
        piece_of(pad_left("Balance", num_w), Tone::Muted, true),
    ];
    if show_cumulative {
        r.push(piece_of(pad_left("Cuml.", num_w), Tone::Muted, true));
    }
    assert(r.deep_view() =~= spec_report_header(show_cumulative));
    r
}

/// The position label of a report row: the 1-based index right-aligned to
/// the width of the largest index, then `. `.
pub open spec fn spec_report_index(index: int, total: int) -> Seq<char> {
    spec_pad_left(spec_decimal(index as nat), spec_decimal(total as nat).len() as int) + ". "@
}

pub fn report_index(index: u64, total: u64) -> (r: String)
    ensures
        r@ == spec_report_index(index as int, total as int),
{
    let digits = decimal(total);
    let idx = decimal(index);
    let mut r = pad_left(idx.as_str(), digits.unicode_len());
    push_all(&mut r, ". ");
    r
}

/// A week still being fetched: the spinner, its position and a
/// placeholder filling the week column.
pub open spec fn spec_pending_row(tick: int, index: int) -> LineView {
    let idx = spec_decimal(index as nat);
    let date_w = if WEEK_W > idx.len() + 2 {
        WEEK_W - idx.len() - 2
    } else {
        0
    };
    seq![
        (seq![spec_spinner(tick), ' '], Tone::Accent, false),
        (idx + ". "@, Tone::Muted, false),
        (spec_pad_right("fetching…"@, date_w), Tone::Muted, false),
    ]
}

pub fn pending_row(tick: usize, index: u64) -> (r: Vec<Piece>)
    ensures
        r.deep_view() == spec_pending_row(tick as int, index as int),
{
    let idx = decimal(index);
    let idx_w = idx.unicode_len().saturating_add(2);
    let date_w = WEEK_W.saturating_sub(idx_w);
    let mut sp = String::new();
    let c = spinner(tick);
    push_char(&mut sp, c);
    push_char(&mut sp, ' ');
    assert(sp@ =~= seq![c, ' ']);
    let mut idx_str = owned(idx.as_str());
    push_all(&mut idx_str, ". ");
    let r = vec![
        piece_of(sp, Tone::Accent, false),
        piece_of(idx_str, Tone::Muted, false),
        piece_of(pad_right("fetching…", date_w), Tone::Muted, false),
    ];
    assert(r.deep_view() =~= spec_pending_row(tick as int, index as int));
    r
}

/// One report row's cells as the caller formats them from the week's hours.
pub struct RowCells {
    pub week_label: String,
    pub worked: String,
    pub target: String,
    pub balance: String,
    pub balance_negative: bool,
    pub cumulative: String,
    pub cumulative_negative: bool,
    /// Whether the week came from the cache (drawn plainly, with a dot
    /// before the target) or was just fetched.
    pub from_cache: bool,
}

/// Red for a shortfall, green otherwise.
pub open spec fn spec_sign_tone(negative: bool) -> Tone {
    if negative {
        Tone::Dangerous
    } else {
        Tone::Success
    }
}

/// The first `n` characters of `s` (all of it when shorter).
pub open spec fn spec_take_chars(s: Seq<char>, n: int) -> Seq<char> {
    if s.len() <= n {
        s
    } else {
        s.take(n)
    }
}

/// One week of the report: its position, the week label cut to what the
/// week column leaves, then worked, target, balance and, when shown, the
/// running total, each right-aligned in a number column. Cached weeks are
/// drawn plainly with a dot before the target, fetched ones highlighted.
pub open spec fn spec_report_row(cells: RowCells, show_cumulative: bool, index: int, total: int) -> LineView {
    let num_w = (TOTAL_W - WEEK_W) / if show_cumulative {
        4int
    } else {
        3int
    };
    let idx = spec_report_index(index, total);
    let date_w = if idx.len() < WEEK_W {
        WEEK_W - idx.len()
    } else {
        0
    };
    let label = spec_take_chars(cells.week_label@, date_w);
    let target = if cells.from_cache {
        "• "@ + cells.target@
    } else {
        cells.target@
    };
    let head = seq![
        (idx, Tone::Muted, false),
        (spec_pad_right(label, date_w), if cells.from_cache {
            Tone::Text
        } else {
            Tone::Warn
        }, false),
        (spec_pad_left(cells.worked@, num_w), Tone::Text, false),
        (spec_pad_left(target, num_w), Tone::Muted, false),
        (spec_pad_left(cells.balance@, num_w), spec_sign_tone(cells.balance_negative), false),
    ];
    if show_cumulative {
        head.push(
            (spec_pad_left(cells.cumulative@, num_w), spec_sign_tone(cells.cumulative_negative), false),
        )
    } else {
        head
    }
}

fn sign_tone(negative: bool) -> (r: Tone)
    ensures
        r == spec_sign_tone(negative),
{
    if negative {
        Tone::Dangerous
    } else {
        Tone::Success
    }
}

/// One week of the report, laid out in its columns (see `spec_report_row`).
pub fn report_row(cells: &RowCells, show_cumulative: bool, index: u64, total: u64) -> (r: Vec<Piece>)
    ensures
        r.deep_view() == spec_report_row(*cells, show_cumulative, index as int, total as int),
{
    let (week_w, num_w) = col_widths(show_cumulative);
    let idx = report_index(index, total);
    let date_w = week_w.saturating_sub(idx.unicode_len());
    let n = cells.week_label.unicode_len();
    let label = if n <= date_w {
        owned(cells.week_label.as_str())
    } else {
        slice_chars(cells.week_label.as_str(), 0, date_w)
    };
    proof {
        if n > date_w {
            assert(cells.week_label@.subrange(0, date_w as int) =~= cells.week_label@.take(
                date_w as int,
            ));
        }
    }
    let target = if cells.from_cache {
        concat_str("• ", cells.target.as_str())
    } else {
        owned(cells.target.as_str())
    };
    let label_tone = if cells.from_cache {
        Tone::Text
    } else {
        Tone::Warn
    };
    let mut r = vec![
        piece_of(idx, Tone::Muted, false),
        piece_of(pad_right(label.as_str(), date_w), label_tone, false),
        piece_of(pad_left(cells.worked.as_str(), num_w), Tone::Text, false),
        piece_of(pad_left(target.as_str(), num_w), Tone::Muted, false),
        piece_of(pad_left(cells.balance.as_str(), num_w), sign_tone(cells.balance_negative), false),
    ];
    if show_cumulative {
        r.push(
            piece_of(
                pad_left(cells.cumulative.as_str(), num_w),
                sign_tone(cells.cumulative_negative),
                false,
            ),
        );
    }
    assert(r.deep_view() =~= spec_report_row(*cells, show_cumulative, index as int, total as int));
    r
}

/// The report screen as drawn, apart from the week rows' numbers and the
/// total line, which the caller formats from the rows.
pub struct ReportView {
    pub hint: Vec<Piece>,
    /// The lines shown instead of the table (loading, errors, hints).
    pub message: Vec<Vec<Piece>>,
    /// The table header, when there is a table.
    pub header: Vec<Piece>,
    /// One line per week still being fetched, after the fetched ones.
    pub pending: Vec<Vec<Piece>>,
    /// Height of the table area: header and divider plus the visible rows.
    pub content_height: u16,
    pub footer: Vec<Piece>,
}

pub open spec fn spec_report_hint<R>(report: TdReportState<R>) -> LineView {
    match report {
        TdReportState::Ready { .. } | TdReportState::PartialReady { .. } => spec_hint(
            seq!["↑↓"@, " scroll  •  "@, "⌫/Esc"@, " cancel"@],
        ),
        TdReportState::NoCredentials(_) | TdReportState::NoPeriods => spec_hint(
            seq!["↵"@, " configure  •  "@, "⌫/Esc"@, " cancel"@],
        ),
        _ => spec_hint_pair("⌫/Esc"@, " cancel"@),
    }
}

pub open spec fn spec_report_message<R>(report: TdReportState<R>) -> Seq<LineView> {
    match report {
        TdReportState::Loading => seq![
            seq![("  "@, Tone::Plain, false), ("fetching report…"@, Tone::Muted, false)],
        ],
        TdReportState::Error(msg) => seq![
            seq![("  "@, Tone::Plain, false), ("✗ "@ + msg@, Tone::Dangerous, false)],
        ],
        TdReportState::NoCredentials(msg) => seq![
            seq![("  "@, Tone::Plain, false), (msg@, Tone::Text, false)],
            seq![("  "@, Tone::Plain, false), ("Press ↵ to update credentials."@, Tone::Muted, false)],
        ],
        TdReportState::NoPeriods => seq![
            seq![("  "@, Tone::Plain, false), ("No contract periods configured."@, Tone::Text, false)],
            seq![
                ("  "@, Tone::Plain, false),
                ("Press ↵ to set up contract periods."@, Tone::Muted, false),
            ],
        ],
        _ => Seq::empty(),
    }
}

pub open spec fn spec_report_footer<R>(report: TdReportState<R>) -> Seq<char> {
    match report {
        TdReportState::Loading => "Loading..."@,
        TdReportState::Ready { .. } | TdReportState::PartialReady { .. } => HINT_RETURN_TO_MENU@,
        _ => ""@,
    }
}

fn two_piece_line(a: &str, b: String, tone: Tone) -> (r: Vec<Piece>)
    ensures
        r.deep_view() == seq![(a@, Tone::Plain, false), (b@, tone, false)],
{
    let r = vec![piece(a, Tone::Plain, false), piece_of(b, tone, false)];
    assert(r.deep_view() =~= seq![(a@, Tone::Plain, false), (b@, tone, false)]);
    r
}

impl<R> App<R> {
    /// The report screen as drawn (see `ReportView`).
    pub fn report_view(&self) -> (r: ReportView)
        requires
            self.td_report matches TdReportState::PartialReady { rows, pending, .. } ==> rows@.len()
                + pending <= u64::MAX,
        ensures
            r.hint.deep_view() == spec_report_hint(self.td_report),
            r.message.deep_view() == spec_report_message(self.td_report),
            r.header.deep_view() == match self.td_report {
                TdReportState::Ready { show_cumulative, .. } => spec_report_header(show_cumulative),
                TdReportState::PartialReady { show_cumulative, .. } => spec_report_header(
                    show_cumulative,
                ),
                _ => Seq::empty(),
            },
            r.pending.deep_view() == match self.td_report {
                TdReportState::PartialReady { rows, pending, tick, .. } => Seq::new(
                    pending as nat,
                    |n: int| spec_pending_row(tick as int, rows@.len() + 1 + n),
                ),
                _ => Seq::empty(),
            },
            r.content_height == 2 + match self.td_report {
                TdReportState::Ready { rows, .. } => if rows@.len() < 6 {
                    rows@.len() as int
                } else {
                    6
                },
                TdReportState::PartialReady { rows, pending, .. } => if rows@.len() + pending < 6 {
                    rows@.len() + pending
                } else {
                    6
                },
                _ => 0,
            },
            r.footer.deep_view() == seq![(spec_report_footer(self.td_report), Tone::Muted, false)],
    {
        let hint = match &self.td_report {
            TdReportState::Ready { .. } | TdReportState::PartialReady { .. } => {
                let h = vec![
                    piece("↑↓", Tone::Muted, false),
                    piece(" scroll  •  ", Tone::Muted, false),
                    piece("⌫/Esc", Tone::Muted, false),
                    piece(" cancel", Tone::Muted, false),
                ];
                assert(h.deep_view() =~= spec_hint(seq!["↑↓"@, " scroll  •  "@, "⌫/Esc"@, " cancel"@]));
                h
            },
            TdReportState::NoCredentials(_) | TdReportState::NoPeriods => {
                let h = vec![
                    piece("↵", Tone::Muted, false),
                    piece(" configure  •  ", Tone::Muted, false),
                    piece("⌫/Esc", Tone::Muted, false),
                    piece(" cancel", Tone::Muted, false),
                ];
                assert(h.deep_view() =~= spec_hint(seq!["↵"@, " configure  •  "@, "⌫/Esc"@, " cancel"@]));
                h
            },
            _ => hint_pair("⌫/Esc", " cancel"),
        };
        let mut message: Vec<Vec<Piece>> = Vec::new();
        match &self.td_report {
            TdReportState::Loading => {
                message.push(two_piece_line("  ", owned("fetching report…"), Tone::Muted));
            },
            TdReportState::Error(msg) => {
                message.push(two_piece_line("  ", concat_str("✗ ", msg.as_str()), Tone::Dangerous));
            },
            TdReportState::NoCredentials(msg) => {
                message.push(two_piece_line("  ", msg.clone(), Tone::Text));
                message.push(two_piece_line("  ", owned("Press ↵ to update credentials."), Tone::Muted));
            },
            TdReportState::NoPeriods => {
                message.push(two_piece_line("  ", owned("No contract periods configured."), Tone::Text));
                message.push(
                    two_piece_line("  ", owned("Press ↵ to set up contract periods."), Tone::Muted),
                );
            },
            _ => {},
        }
        assert(message.deep_view() =~= spec_report_message(self.td_report));
        let header = match &self.td_report {
            TdReportState::Ready { show_cumulative, .. } => report_header(*show_cumulative),
            TdReportState::PartialReady { show_cumulative, .. } => report_header(*show_cumulative),
            _ => {
                let h: Vec<Piece> = Vec::new();
                assert(h.deep_view() =~= Seq::<(Seq<char>, Tone, bool)>::empty());
                h
            },
        };
        let mut pending_rows: Vec<Vec<Piece>> = Vec::new();
        let mut visible: u64 = 0;
        match &self.td_report {
            TdReportState::PartialReady { rows, pending, tick, .. } => {
                let base = rows.len() as u64;
                let mut n: usize = 0;
                while n < *pending
                    invariant
                        n <= *pending,
                        base + *pending <= u64::MAX,
                        pending_rows.deep_view() =~= Seq::new(
                            n as nat,
                            |k: int| spec_pending_row(*tick as int, base + 1 + k),
                        ),
                    decreases *pending - n,
                {
                    let line = pending_row(*tick as usize, base + 1 + n as u64);
                    let ghost before = pending_rows.deep_view();
                    let ghost line_view = line.deep_view();
                    pending_rows.push(line);
                    assert(pending_rows.deep_view() =~= before.push(line_view));
                    n = n + 1;
                }
                visible = base + *pending as u64;
            },
            TdReportState::Ready { rows, .. } => {
                visible = rows.len() as u64;
            },
            _ => {},
        }
        let shown: u16 = if visible < 6 {
            visible as u16
        } else {
            6
        };
        let footer_text = match &self.td_report {
            TdReportState::Loading => "Loading...",
            TdReportState::Ready { .. } | TdReportState::PartialReady { .. } => HINT_RETURN_TO_MENU,
            _ => "",
        };
        let footer = vec![piece(footer_text, Tone::Muted, false)];
        assert(footer.deep_view() =~= seq![(spec_report_footer(self.td_report), Tone::Muted, false)]);
        ReportView { hint, message, header, pending: pending_rows, content_height: 2 + shown, footer }
    }
}

} // verus!
