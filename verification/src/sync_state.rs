//! Per-repository progress of a running sync and the phases of the sync screen.
use vstd::prelude::*;

verus! {

/// A filesystem path, carried through unchanged.
#[verifier::external_type_specification]
#[verifier::external_body]
pub struct ExPathBuf(std::path::PathBuf);

/// A monotonic clock reading, carried through unchanged.
#[verifier::external_type_specification]
#[verifier::external_body]
pub struct ExInstant(std::time::Instant);

/// Progress of the fork-sync half of a repository's sync.
pub enum ForkStatus {
    Pending,
    FetchingUpstream,
    CheckingDiff,
    UpToDate,
    Stashing,
    CheckingOut,
    Merging,
    PushingDefault,
    Rebasing,
    PushingBranch,
    Unstashing,
    Done,
    Skipped(String),
    Error(String),
}

impl Clone for ForkStatus {
    fn clone(&self) -> (r: Self)
        ensures
            r == *self,
    {
        match self {
            ForkStatus::Pending => ForkStatus::Pending,
            ForkStatus::FetchingUpstream => ForkStatus::FetchingUpstream,
            ForkStatus::CheckingDiff => ForkStatus::CheckingDiff,
            ForkStatus::UpToDate => ForkStatus::UpToDate,
            ForkStatus::Stashing => ForkStatus::Stashing,
            ForkStatus::CheckingOut => ForkStatus::CheckingOut,
            ForkStatus::Merging => ForkStatus::Merging,
            ForkStatus::PushingDefault => ForkStatus::PushingDefault,
            ForkStatus::Rebasing => ForkStatus::Rebasing,
            ForkStatus::PushingBranch => ForkStatus::PushingBranch,
            ForkStatus::Unstashing => ForkStatus::Unstashing,
            ForkStatus::Done => ForkStatus::Done,
            ForkStatus::Skipped(s) => ForkStatus::Skipped(s.clone()),
            ForkStatus::Error(s) => ForkStatus::Error(s.clone()),
        }
    }
}

impl ForkStatus {
    pub open spec fn spec_label(&self) -> &'static str {
        match self {
            ForkStatus::Pending => "waiting…",
            ForkStatus::FetchingUpstream => "fetching upstream…",
            ForkStatus::CheckingDiff => "checking diff…",
            ForkStatus::UpToDate => "up to date",
            ForkStatus::Stashing => "stashing…",
            ForkStatus::CheckingOut => "checking out…",
            ForkStatus::Merging => "merging…",
            ForkStatus::PushingDefault => "pushing default…",
            ForkStatus::Rebasing => "rebasing…",
            ForkStatus::PushingBranch => "pushing branch…",
            ForkStatus::Unstashing => "unstashing…",
            ForkStatus::Done => "done",
            ForkStatus::Skipped(_) => "skipped",
            ForkStatus::Error(_) => "error",
        }
    }

    pub fn label(&self) -> (r: &'static str)
        ensures
            r == self.spec_label(),
    {
        match self {
            ForkStatus::Pending => "waiting…",
            ForkStatus::FetchingUpstream => "fetching upstream…",
            ForkStatus::CheckingDiff => "checking diff…",
            ForkStatus::UpToDate => "up to date",
            ForkStatus::Stashing => "stashing…",
            ForkStatus::CheckingOut => "checking out…",
            ForkStatus::Merging => "merging…",
            ForkStatus::PushingDefault => "pushing default…",
            ForkStatus::Rebasing => "rebasing…",
            ForkStatus::PushingBranch => "pushing branch…",
            ForkStatus::Unstashing => "unstashing…",
            ForkStatus::Done => "done",
            ForkStatus::Skipped(_) => "skipped",
            ForkStatus::Error(_) => "error",
        }
    }

    pub open spec fn spec_is_terminal(&self) -> bool {
        match self {
            ForkStatus::Done | ForkStatus::UpToDate | ForkStatus::Skipped(_)
            | ForkStatus::Error(_) => true,
            _ => false,
        }
    }

    pub fn is_terminal(&self) -> (b: bool)
        ensures
            b == self.spec_is_terminal(),
    {
        match self {
            ForkStatus::Done | ForkStatus::UpToDate | ForkStatus::Skipped(_)
            | ForkStatus::Error(_) => true,
            _ => false,
        }
    }

    pub open spec fn spec_is_error(&self) -> bool {
        self is Error
    }

    pub fn is_error(&self) -> (b: bool)
        ensures
            b == self.spec_is_error(),
    {
        match self {
            ForkStatus::Error(_) => true,
            _ => false,
        }
    }
}

/// Progress of the remote-dev-server half of a repository's sync.
pub enum RdsStatus {
    Pending,
    Preparing,
    Pulling,
    Running,
    Done,
    Skipped(String),
    Error(String),
    /// Network or authentication rejection, usually a missing VPN connection.
    IpDenied(String),
}

impl Clone for RdsStatus {
    fn clone(&self) -> (r: Self)
        ensures
            r == *self,
    {
        match self {
            RdsStatus::Pending => RdsStatus::Pending,
            RdsStatus::Preparing => RdsStatus::Preparing,
            RdsStatus::Pulling => RdsStatus::Pulling,
            RdsStatus::Running => RdsStatus::Running,
            RdsStatus::Done => RdsStatus::Done,
            RdsStatus::Skipped(s) => RdsStatus::Skipped(s.clone()),
            RdsStatus::Error(s) => RdsStatus::Error(s.clone()),
            RdsStatus::IpDenied(s) => RdsStatus::IpDenied(s.clone()),
        }
    }
}

impl RdsStatus {
    pub open spec fn spec_label(&self) -> &'static str {
        match self {
            RdsStatus::Pending => "waiting…",
            RdsStatus::Preparing => "preparing…",
            RdsStatus::Pulling => "pulling…",
            RdsStatus::Running => "running ./sync…",
            RdsStatus::Done => "done",
            RdsStatus::Skipped(_) => "skipped",
            RdsStatus::Error(_) => "error",
            RdsStatus::IpDenied(_) => "denied",
        }
    }

    pub fn label(&self) -> (r: &'static str)
        ensures
            r == self.spec_label(),
    {
        match self {
            RdsStatus::Pending => "waiting…",
            RdsStatus::Preparing => "preparing…",
            RdsStatus::Pulling => "pulling…",
            RdsStatus::Running => "running ./sync…",
            RdsStatus::Done => "done",
            RdsStatus::Skipped(_) => "skipped",
            RdsStatus::Error(_) => "error",
            RdsStatus::IpDenied(_) => "denied",
        }
    }

    pub open spec fn spec_is_terminal(&self) -> bool {
        match self {
            RdsStatus::Done | RdsStatus::Skipped(_) | RdsStatus::Error(_)
            | RdsStatus::IpDenied(_) => true,
            _ => false,
        }
    }

    pub fn is_terminal(&self) -> (b: bool)
        ensures
            b == self.spec_is_terminal(),
    {
        match self {
            RdsStatus::Done | RdsStatus::Skipped(_) | RdsStatus::Error(_)
            | RdsStatus::IpDenied(_) => true,
            _ => false,
        }
    }

    pub open spec fn spec_is_error(&self) -> bool {
        self is Error || self is IpDenied
    }

    pub fn is_error(&self) -> (b: bool)
        ensures
            b == self.spec_is_error(),
    {
        match self {
            RdsStatus::Error(_) | RdsStatus::IpDenied(_) => true,
            _ => false,
        }
    }
}

pub const IP_DENIED_HINT: &'static str =
    "RDS denied — are you connected to the Jotform network or VPN?";

/// Sync progress of one repository.
pub struct RepoSyncState {
    pub name: String,
    pub path: std::path::PathBuf,
    pub fork_status: ForkStatus,
    pub rds_status: RdsStatus,
    /// When the first fork-sync update arrived.
    pub started_at: Option<std::time::Instant>,
    /// Time spent so far, in tenths of a second.
    pub elapsed_tenths: u64,
}

impl RepoSyncState {
    pub open spec fn spec_is_complete(&self) -> bool {
        self.fork_status.spec_is_terminal() && self.rds_status.spec_is_terminal()
    }

    pub fn is_complete(&self) -> (b: bool)
        ensures
            b == self.spec_is_complete(),
    {
        self.fork_status.is_terminal() && self.rds_status.is_terminal()
    }

    pub open spec fn spec_is_active(&self) -> bool {
        !self.fork_status.spec_is_terminal() || !self.rds_status.spec_is_terminal()
    }

    pub fn is_active(&self) -> (b: bool)
        ensures
            b == self.spec_is_active(),
    {
        !self.fork_status.is_terminal() || !self.rds_status.is_terminal()
    }

    pub open spec fn spec_has_error(&self) -> bool {
        self.fork_status.spec_is_error() || self.rds_status.spec_is_error()
    }

    pub fn has_error(&self) -> (b: bool)
        ensures
            b == self.spec_has_error(),
    {
        self.fork_status.is_error() || self.rds_status.is_error()
    }

    /// Fork sync had nothing to do (skipped or already up to date) and the
    /// remote-dev-server sync was skipped.
    pub open spec fn spec_is_skipped(&self) -> bool {
        (self.fork_status is Skipped || self.fork_status is UpToDate) && self.rds_status is Skipped
    }

    pub fn is_skipped(&self) -> (b: bool)
        ensures
            b == self.spec_is_skipped(),
    {
        match (&self.fork_status, &self.rds_status) {
            (ForkStatus::Skipped(_), RdsStatus::Skipped(_)) => true,
            (ForkStatus::UpToDate, RdsStatus::Skipped(_)) => true,
            _ => false,
        }
    }
}

/// A progress message from the sync engine about the repository at an index.
pub enum SyncUpdate {
    Fork(usize, ForkStatus),
    Rds(usize, RdsStatus),
    /// Elapsed time of a repository, in tenths of a second: the seconds
    /// rounded to one decimal as `{:.1}` rounds them.
    Elapsed(usize, u64),
}

/// Phase of the sync screen. `Failed` carries its reason in `setup_error`.
#[derive(Clone, Copy, PartialEq, Eq, Structural, Debug)]
pub enum SyncPhase {
    Discovering,
    Syncing,
    Failed,
}

/// What the sync screen shows.
pub struct SyncScreenState {
    pub repos: Vec<RepoSyncState>,
    pub tick: u8,
    pub phase: SyncPhase,
    pub setup_error: Option<String>,
}

/// Whether the sync screen has nothing left to wait for.
pub open spec fn spec_sync_finished(state: Option<SyncScreenState>) -> bool {
    match state {
        None => true,
        Some(s) => match s.phase {
            SyncPhase::Discovering => false,
            SyncPhase::Failed => true,
            SyncPhase::Syncing => forall|i: int|
                0 <= i < s.repos.len() ==> #[trigger] s.repos[i].spec_is_complete(),
        },
    }
}

/// Every repository of the list has finished both halves of its sync.
pub fn all_complete(repos: &Vec<RepoSyncState>) -> (b: bool)
    ensures
        b == forall|i: int| 0 <= i < repos@.len() ==> #[trigger] repos@[i].spec_is_complete(),
{
    let mut i: usize = 0;
    while i < repos.len()
        invariant
            i <= repos.len(),
            forall|j: int| 0 <= j < i ==> #[trigger] repos@[j].spec_is_complete(),
        decreases repos.len() - i,
    {
        if !repos[i].is_complete() {
            return false;
        }
        i = i + 1;
    }
    true
}

/// Phases of a self-update, as reported by the updater.
pub enum UpdatePhase {
    Checking,
    Downloading,
    Extracting,
    Replacing,
    Done(String),
    UpToDate,
    Failed(String),
}

impl Clone for UpdatePhase {
    fn clone(&self) -> (r: Self)
        ensures
            r == *self,
    {
        match self {
            UpdatePhase::Checking => UpdatePhase::Checking,
            UpdatePhase::Downloading => UpdatePhase::Downloading,
            UpdatePhase::Extracting => UpdatePhase::Extracting,
            UpdatePhase::Replacing => UpdatePhase::Replacing,
            UpdatePhase::Done(v) => UpdatePhase::Done(v.clone()),
            UpdatePhase::UpToDate => UpdatePhase::UpToDate,
            UpdatePhase::Failed(m) => UpdatePhase::Failed(m.clone()),
        }
    }
}

impl UpdatePhase {
    pub open spec fn spec_is_terminal(&self) -> bool {
        self is Done || self is UpToDate || self is Failed
    }

    pub fn is_terminal(&self) -> (b: bool)
        ensures
            b == self.spec_is_terminal(),
    {
        match self {
            UpdatePhase::Done(_) | UpdatePhase::UpToDate | UpdatePhase::Failed(_) => true,
            _ => false,
        }
    }
}

/// What the self-update screen shows.
pub struct UpdateScreenState {
    pub phase: UpdatePhase,
    pub tick: u8,
}

} // verus!
