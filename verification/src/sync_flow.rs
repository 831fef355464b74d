//! The sync progress screen: opening it, planning which repositories take
//! part, and folding in the progress messages of the sync engine. Finding the
//! repositories on disk and running the sync are the caller's.
use vstd::prelude::*;

use crate::app::{App, Config, Effect, UpstreamRepo};
use crate::screen::Screen;
use crate::sync_state::{
    spec_sync_finished, all_complete, ForkStatus, RdsStatus, RepoSyncState, SyncPhase,
    SyncScreenState, SyncUpdate,
};
use crate::text::{concat_str, owned};

verus! {

/// Why a sync cannot start: no repository is enabled.
pub const NO_REPOS_ENABLED: &'static str =
    "No repos enabled for sync. Add or enable at least one in Settings → Repos.";

/// Why a sync cannot start: none of the enabled repositories was found.
pub const NO_REPOS_LOCATED: &'static str =
    "Could not locate any enabled repos on disk. Check that they are cloned under your home directory.";

/// Leads the reason given when looking for the repositories failed.
pub const DISCOVERY_FAILED_PREFIX: &'static str = "Repo discovery failed: ";

/// The enabled repositories, in their order.
pub open spec fn spec_enabled(repos: Seq<UpstreamRepo>) -> Seq<UpstreamRepo>
    decreases repos.len(),
{
    if repos.len() == 0 {
        repos
    } else if repos.last().enabled {
        spec_enabled(repos.drop_last()).push(repos.last())
    } else {
        spec_enabled(repos.drop_last())
    }
}

/// The repositories that take part in a sync: the enabled ones, in their
/// order; an error when there is none.
pub fn sync_candidates(repos: &Vec<UpstreamRepo>) -> (r: Result<Vec<UpstreamRepo>, String>)
    ensures
        spec_enabled(repos@).len() > 0 ==> (r matches Ok(v) && v@ == spec_enabled(repos@)),
        spec_enabled(repos@).len() == 0 ==> (r matches Err(m) && m@ == NO_REPOS_ENABLED@),
{
    let mut kept: Vec<UpstreamRepo> = Vec::new();
    let mut i: usize = 0;
    assert(repos@.take(0) =~= Seq::<UpstreamRepo>::empty());
    while i < repos.len()
        invariant
            i <= repos@.len(),
            kept@ == spec_enabled(repos@.take(i as int)),
        decreases repos.len() - i,
    {
        assert(repos@.take(i + 1).drop_last() =~= repos@.take(i as int));
        if repos[i].enabled {
            kept.push(repos[i].clone());
        }
        i = i + 1;
    }
    assert(repos@.take(repos.len() as int) =~= repos@);
    if kept.len() == 0 {
        Err(owned(NO_REPOS_ENABLED))
    } else {
        Ok(kept)
    }
}

/// Shown when the configuration cannot be read at the start of a sync,
/// before the reason.
pub const CONFIG_LOAD_FAILED: &'static str = "Could not load config: ";

/// What starting a sync does after reading the configuration.
pub enum SyncStart {
    /// Give up, with this message.
    Fail(String),
    /// Ask the path cache for these repositories; where it has them all,
    /// sync at once, else look for them on disk.
    TryCache(Vec<UpstreamRepo>),
    /// Look for these repositories on disk.
    Discover(Vec<UpstreamRepo>),
}

/// The step after reading the configuration: a read error or no enabled
/// repository ends the start; otherwise the enabled repositories are
/// looked up in the path cache when it is on, or looked for on disk.
pub fn first_sync_step(loaded: &Result<Config, String>) -> (r: SyncStart)
    ensures
        match loaded {
            Err(e) => r matches SyncStart::Fail(m) && m@ == CONFIG_LOAD_FAILED@ + e@,
            Ok(c) => if spec_enabled(c.sync.upstream_repos@).len() == 0 {
                r matches SyncStart::Fail(m) && m@ == NO_REPOS_ENABLED@
            } else if c.sync.use_cache {
                r matches SyncStart::TryCache(v) && v@ == spec_enabled(c.sync.upstream_repos@)
            } else {
                r matches SyncStart::Discover(v) && v@ == spec_enabled(c.sync.upstream_repos@)
            },
        },
{
    match loaded {
        Err(e) => SyncStart::Fail(concat_str(CONFIG_LOAD_FAILED, e.as_str())),
        Ok(c) => match sync_candidates(&c.sync.upstream_repos) {
            Err(m) => SyncStart::Fail(m),
            Ok(v) => if c.sync.use_cache {
                SyncStart::TryCache(v)
            } else {
                SyncStart::Discover(v)
            },
        },
    }
}

/// The names of the repositories that were found, with where they were
/// found, in the order of `repos`.
pub open spec fn spec_located_names(repos: Seq<UpstreamRepo>, located: Seq<Option<std::path::PathBuf>>) -> Seq<Seq<char>>
    decreases repos.len(),
{
    if repos.len() == 0 || located.len() == 0 {
        Seq::empty()
    } else {
        let rest = spec_located_names(repos.drop_last(), located.drop_last());
        if located.last() is Some {
            rest.push(repos.last().name@)
        } else {
            rest
        }
    }
}

/// The paths of the repositories that were found, in the order of `repos`.
pub open spec fn spec_located_paths(located: Seq<Option<std::path::PathBuf>>) -> Seq<std::path::PathBuf>
    decreases located.len(),
{
    if located.len() == 0 {
        Seq::empty()
    } else {
        let rest = spec_located_paths(located.drop_last());
        match located.last() {
            Some(p) => rest.push(p),
            None => rest,
        }
    }
}

/// Pairs each enabled repository that was found on disk (`located[i]` for
/// `repos[i]`) with its path, keeping the order of `repos`; an error when
/// none was found.
pub fn sync_order(repos: &Vec<UpstreamRepo>, located: Vec<Option<std::path::PathBuf>>) -> (r: Result<Vec<(String, std::path::PathBuf)>, String>)
    requires
        located@.len() == repos@.len(),
    ensures
        spec_located_paths(located@).len() > 0 ==> (r matches Ok(v) && v@.len()
            == spec_located_paths(located@).len() && forall|i: int|
            0 <= i < v@.len() ==> (#[trigger] v@[i]).0@ == spec_located_names(repos@, located@)[i]
                && v@[i].1 == spec_located_paths(located@)[i]),
        spec_located_paths(located@).len() == 0 ==> (r matches Err(m) && m@ == NO_REPOS_LOCATED@),
{
    let ghost all = located@;
    let mut rest = located;
    let mut names: Vec<String> = Vec::new();
    let mut ordered: Vec<(String, std::path::PathBuf)> = Vec::new();
    let mut i: usize = 0;
    assert(all.take(0) =~= Seq::<Option<std::path::PathBuf>>::empty());
    assert(repos@.take(0) =~= Seq::<UpstreamRepo>::empty());
    while i < repos.len()
        invariant
            i <= repos@.len(),
            all.len() == repos@.len(),
            rest@ == all.skip(i as int),
            ordered@.len() == spec_located_paths(all.take(i as int)).len(),
            spec_located_names(repos@.take(i as int), all.take(i as int)).len() == ordered@.len(),
            forall|k: int|
                0 <= k < ordered@.len() ==> (#[trigger] ordered@[k]).0@ == spec_located_names(
                    repos@.take(i as int),
                    all.take(i as int),
                )[k] && ordered@[k].1 == spec_located_paths(all.take(i as int))[k],
        decreases repos.len() - i,
    {
        assert(all.take(i + 1).drop_last() =~= all.take(i as int));
        assert(repos@.take(i + 1).drop_last() =~= repos@.take(i as int));
        assert(all.take(i + 1).last() == all[i as int]);
        assert(rest@[0] == all[i as int]);
        let entry = rest.remove(0);
        assert(rest@ =~= all.skip(i + 1));
        match entry {
            Some(path) => {
                ordered.push((repos[i].name.clone(), path));
            },
            None => {},
        }
        i = i + 1;
    }
    assert(all.take(repos.len() as int) =~= all);
    assert(repos@.take(repos.len() as int) =~= repos@);
    if ordered.len() == 0 {
        Err(owned(NO_REPOS_LOCATED))
    } else {
        Ok(ordered)
    }
}

/// The reason shown when looking for the repositories failed.
pub fn discovery_failed_message(msg: &str) -> (r: String)
    ensures
        r@ == DISCOVERY_FAILED_PREFIX@ + msg@,
{
    concat_str(DISCOVERY_FAILED_PREFIX, msg)
}

/// A repository that has not started syncing.
pub open spec fn spec_fresh_repo(name: String, path: std::path::PathBuf) -> RepoSyncState {
    RepoSyncState {
        name,
        path,
        fork_status: ForkStatus::Pending,
        rds_status: RdsStatus::Pending,
        started_at: None,
        elapsed_tenths: 0,
    }
}

impl<R> App<R> {
    /// Whether `next` shows the sync screen opened afresh in `phase`, with
    /// everything else as in `self`.
    pub open spec fn opens_sync_screen(self, next: Self, phase: SyncPhase) -> bool {
        &&& next.sync_state matches Some(st)
        &&& st.tick == 0
        &&& st.phase == phase
        &&& next == (App {
            sync_state: next.sync_state,
            sync_scroll: 0,
            screen: Screen::SyncProgress,
            ..self
        })
    }

    fn open_sync_screen(&mut self, repos: Vec<RepoSyncState>, phase: SyncPhase, setup_error: Option<String>)
        requires
            old(self).wf(),
        ensures
            final(self).wf(),
            old(self).opens_sync_screen(*final(self), phase),
            final(self).sync_state == Some(SyncScreenState { repos, tick: 0, phase, setup_error }),
    {
        self.sync_state = Some(SyncScreenState { repos, tick: 0, phase, setup_error });
        self.sync_scroll = 0;
        self.screen = Screen::SyncProgress;
    }

    /// What `enter_sync_discovering` leaves behind.
    pub open spec fn post_enter_sync_discovering(self, next: Self) -> bool {
        &&& self.opens_sync_screen(next, SyncPhase::Discovering)
        &&& next.sync_state->0.repos@.len() == 0
        &&& next.sync_state->0.setup_error is None
    }

    /// Opens the sync screen while the repositories are being looked for.
    pub fn enter_sync_discovering(&mut self)
        requires
            old(self).wf(),
        ensures
            final(self).wf(),
            old(self).post_enter_sync_discovering(*final(self)),
    {
        self.open_sync_screen(Vec::new(), SyncPhase::Discovering, None);
    }

    /// What `fail_sync_setup` leaves behind.
    pub open spec fn post_fail_sync_setup(self, next: Self, message: String) -> bool {
        &&& self.opens_sync_screen(next, SyncPhase::Failed)
        &&& next.sync_state->0.repos@.len() == 0
        &&& next.sync_state->0.setup_error == Some(message)
    }

    /// Opens the sync screen showing why the sync could not start.
    pub fn fail_sync_setup(&mut self, message: String)
        requires
            old(self).wf(),
        ensures
            final(self).wf(),
            old(self).post_fail_sync_setup(*final(self), message),
    {
        self.open_sync_screen(Vec::new(), SyncPhase::Failed, Some(message));
    }

    /// What `start_sync` leaves behind.
    pub open spec fn post_start_sync(self, next: Self, ordered: Vec<(String, std::path::PathBuf)>) -> bool {
        &&& self.opens_sync_screen(next, SyncPhase::Syncing)
        &&& next.sync_state->0.setup_error is None
        &&& next.sync_state->0.repos@.len() == ordered@.len()
        &&& forall|i: int|
            0 <= i < ordered@.len() ==> #[trigger] next.sync_state->0.repos@[i] == spec_fresh_repo(
                ordered@[i].0,
                ordered@[i].1,
            )
    }

    /// Opens the sync screen for the given repositories, in their order,
    /// none of them started yet.
    pub fn start_sync(&mut self, ordered: Vec<(String, std::path::PathBuf)>)
        requires
            old(self).wf(),
        ensures
            final(self).wf(),
            old(self).post_start_sync(*final(self), ordered),
    {
        let ghost all = ordered@;
        let mut rest = ordered;
        let mut repos: Vec<RepoSyncState> = Vec::new();
        let n = rest.len();
        let mut i: usize = 0;
        while i < n
            invariant
                n == all.len(),
                i <= n,
                rest@ == all.skip(i as int),
                repos@.len() == i,
                forall|k: int|
                    0 <= k < i ==> #[trigger] repos@[k] == spec_fresh_repo(all[k].0, all[k].1),
            decreases n - i,
        {
            assert(rest@[0] == all[i as int]);
            let (name, path) = rest.remove(0);
            assert(rest@ =~= all.skip(i + 1));
            repos.push(
                RepoSyncState {
                    name,
                    path,
                    fork_status: ForkStatus::Pending,
                    rds_status: RdsStatus::Pending,
                    started_at: None,
                    elapsed_tenths: 0,
                },
            );
            i = i + 1;
        }
        self.open_sync_screen(repos, SyncPhase::Syncing, None);
    }

    /// What `apply_sync_update` leaves behind: the repository the message is
    /// about changes, and nothing else.
    pub open spec fn post_apply_sync_update(self, next: Self, update: SyncUpdate, now: std::time::Instant) -> bool {
        match self.sync_state {
            None => next == self,
            Some(st) => {
                let i = match update {
                    SyncUpdate::Fork(i, _) => i,
                    SyncUpdate::Rds(i, _) => i,
                    SyncUpdate::Elapsed(i, _) => i,
                };
                if i < st.repos@.len() {
                    let repo = st.repos@[i as int];
                    let changed = match update {
                        SyncUpdate::Fork(_, status) => RepoSyncState {
                            started_at: if repo.started_at is None {
                                Some(now)
                            } else {
                                repo.started_at
                            },
                            fork_status: status,
                            ..repo
                        },
                        SyncUpdate::Rds(_, status) => RepoSyncState { rds_status: status, ..repo },
                        SyncUpdate::Elapsed(_, tenths) => if repo.spec_is_complete() {
                            repo
                        } else {
                            RepoSyncState { elapsed_tenths: tenths, ..repo }
                        },
                    };
                    &&& next.sync_state matches Some(st2)
                    &&& st2.repos@ == st.repos@.update(i as int, changed)
                    &&& st2 == (SyncScreenState { repos: st2.repos, ..st })
                    &&& next == (App { sync_state: next.sync_state, ..self })
                } else {
                    next == self
                }
            },
        }
    }

    /// Folds in one progress message of the sync engine. `now` is the time
    /// it arrived: a repository's clock starts at its first fork message.
    /// Elapsed times stop changing once a repository is complete; messages
    /// about unknown repositories are ignored.
    pub fn apply_sync_update(&mut self, update: SyncUpdate, now: std::time::Instant)
        requires
            old(self).wf(),
        ensures
            final(self).wf(),
            old(self).post_apply_sync_update(*final(self), update, now),
    {
        let mut state = None;
        std::mem::swap(&mut state, &mut self.sync_state);
        match state {
            None => {},
            Some(mut st) => {
                let ghost st0 = st;
                let i = match &update {
                    SyncUpdate::Fork(i, _) => *i,
                    SyncUpdate::Rds(i, _) => *i,
                    SyncUpdate::Elapsed(i, _) => *i,
                };
                if i < st.repos.len() {
                    let mut repo = st.repos.remove(i);
                    match update {
                        SyncUpdate::Fork(_, status) => {
                            if repo.started_at.is_none() {
                                repo.started_at = Some(now);
                            }
                            repo.fork_status = status;
                        },
                        SyncUpdate::Rds(_, status) => {
                            repo.rds_status = status;
                        },
                        SyncUpdate::Elapsed(_, tenths) => {
                            if !repo.is_complete() {
                                repo.elapsed_tenths = tenths;
                            }
                        },
                    }
                    st.repos.insert(i, repo);
                    assert(st.repos@ =~= st0.repos@.update(i as int, st.repos@[i as int]));
                }
                self.sync_state = Some(st);
            },
        }
    }

    /// Whether the sync screen has nothing left to wait for: no sync, a
    /// failed start, or every repository complete.
    pub fn sync_is_complete(&self) -> (r: bool)
        ensures
            r == spec_sync_finished(self.sync_state),
    {
        match &self.sync_state {
            None => true,
            Some(st) => match st.phase {
                SyncPhase::Discovering => false,
                SyncPhase::Failed => true,
                SyncPhase::Syncing => all_complete(&st.repos),
            },
        }
    }

    /// What `cancel_sync` leaves behind.
    pub open spec fn post_cancel_sync(self, next: Self, r: Effect) -> bool {
        &&& next == (App { sync_state: None, ..self })
        &&& r == if self.sync_state is Some {
            Effect::StopSync
        } else {
            Effect::Nothing
        }
    }

    /// Closes the sync state; a running sync is stopped by the caller
    /// (`Effect::StopSync`).
    pub fn cancel_sync(&mut self) -> (r: Effect)
        requires
            old(self).wf(),
        ensures
            final(self).wf(),
            old(self).post_cancel_sync(*final(self), r),
    {
        let had = self.sync_state.is_some();
        self.sync_state = None;
        if had {
            Effect::StopSync
        } else {
            Effect::Nothing
        }
    }

    /// What `tick_sync` leaves behind.
    pub open spec fn post_tick_sync(self, next: Self) -> bool {
        match self.sync_state {
            Some(st) => {
                &&& next.sync_state matches Some(st2)
                &&& st2 == (SyncScreenState { tick: ((st.tick + 1) % 256) as u8, ..st })
                &&& next == (App { sync_state: next.sync_state, ..self })
            },
            None => next == self,
        }
    }

    /// Advances the spinner of the sync screen.
    pub fn tick_sync(&mut self)
        requires
            old(self).wf(),
        ensures
            final(self).wf(),
            old(self).post_tick_sync(*final(self)),
    {
        let mut state = None;
        std::mem::swap(&mut state, &mut self.sync_state);
        match state {
            None => {},
            Some(mut st) => {
                st.tick = st.tick.wrapping_add(1);
                self.sync_state = Some(st);
            },
        }
    }
}

} // verus!
