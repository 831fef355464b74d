//! What the UI writes back to the configuration file. Loading the file,
//! applying these values and saving it are the caller's.
use vstd::prelude::*;

use crate::app::{spec_timezone, timezone, App, ContractPeriod, SyncConfig, UpstreamRepo};
use crate::rows::Day;

verus! {

/// The time section of the configuration as the UI saves it.
pub struct TimeConfigPatch {
    /// `None` when no e-mail is set.
    pub email: Option<String>,
    pub timezone: &'static str,
    /// Derived from the first contract period.
    pub start_date: Option<Day>,
    pub skip_current_week: bool,
    pub use_time_cache: bool,
    pub show_cumulative: bool,
    /// `None` when there is no period.
    pub contract_periods: Option<Vec<ContractPeriod>>,
}

fn copy_repos(repos: &Vec<UpstreamRepo>) -> (r: Vec<UpstreamRepo>)
    ensures
        r@ == repos@,
{
    let mut r: Vec<UpstreamRepo> = Vec::new();
    let mut i: usize = 0;
    while i < repos.len()
        invariant
            i <= repos@.len(),
            r@ == repos@.take(i as int),
        decreases repos.len() - i,
    {
        r.push(repos[i].clone());
        assert(repos@.take(i + 1) =~= repos@.take(i as int).push(repos@[i as int]));
        i = i + 1;
    }
    assert(repos@.take(repos@.len() as int) =~= repos@);
    r
}

fn copy_periods(ps: &Vec<ContractPeriod>) -> (r: Vec<ContractPeriod>)
    ensures
        r@ == ps@,
{
    let mut r: Vec<ContractPeriod> = Vec::new();
    let mut i: usize = 0;
    while i < ps.len()
        invariant
            i <= ps@.len(),
            r@ == ps@.take(i as int),
        decreases ps.len() - i,
    {
        r.push(ps[i]);
        assert(ps@.take(i + 1) =~= ps@.take(i as int).push(ps@[i as int]));
        i = i + 1;
    }
    assert(ps@.take(ps@.len() as int) =~= ps@);
    r
}

impl<R> App<R> {
    /// The sync section to save: the toggles and the repositories.
    pub fn persist_settings(&self) -> (r: SyncConfig)
        ensures
            r.use_cache == self.sync.use_cache,
            r.skip_fork_sync == self.sync.skip_fork_sync,
            r.skip_rebase == self.sync.skip_rebase,
            r.skip_rds_sync == self.sync.skip_rds_sync,
            r.smart_sync == self.sync.smart_sync,
            r.upstream_repos@ == self.sync.repos@,
    {
        SyncConfig {
            use_cache: self.sync.use_cache,
            skip_fork_sync: self.sync.skip_fork_sync,
            skip_rebase: self.sync.skip_rebase,
            skip_rds_sync: self.sync.skip_rds_sync,
            smart_sync: self.sync.smart_sync,
            upstream_repos: copy_repos(&self.sync.repos),
        }
    }

    /// The time section to save: an empty e-mail and an empty period list
    /// are left out; the start date is the first period's.
    pub fn persist_td_settings(&self) -> (r: TimeConfigPatch)
        requires
            self.wf(),
        ensures
            match r.email {
                Some(e) => self.td.email@.len() > 0 && e@ == self.td.email@,
                None => self.td.email@.len() == 0,
            },
            r.timezone == spec_timezone(self.td.timezone_idx as int),
            r.start_date == if self.td.contract_periods@.len() > 0 {
                Some(self.td.contract_periods@[0].from)
            } else {
                None
            },
            r.skip_current_week == self.td.skip_current_week,
            r.use_time_cache == self.td.use_time_cache,
            r.show_cumulative == self.td.show_cumulative,
            match r.contract_periods {
                Some(ps) => self.td.contract_periods@.len() > 0 && ps@ == self.td.contract_periods@,
                None => self.td.contract_periods@.len() == 0,
            },
    {
        let email = if self.td.email.unicode_len() > 0 {
            Some(self.td.email.clone())
        } else {
            None
        };
        let n = self.td.contract_periods.len();
        let start_date = if n > 0 {
            Some(self.td.contract_periods[0].from)
        } else {
            None
        };
        let contract_periods = if n > 0 {
            Some(copy_periods(&self.td.contract_periods))
        } else {
            None
        };
        TimeConfigPatch {
            email,
            timezone: timezone(self.td.timezone_idx),
            start_date,
            skip_current_week: self.td.skip_current_week,
            use_time_cache: self.td.use_time_cache,
            show_cumulative: self.td.show_cumulative,
            contract_periods,
        }
    }
}

} // verus!
