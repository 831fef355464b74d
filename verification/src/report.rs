//! The Time Doctor report screen: what launching it decides, how cached and
//! fetched weeks are combined, and how a failed fetch is reported. Reading
//! the week cache and fetching weeks are the caller's. A row is known here by
//! its week's Monday (`WeekRow`); what it shows is the caller's (`R`). Rows are
//! kept in order of their Monday, and the caller recomputes their running
//! totals after each change of the row list.
use vstd::prelude::*;

use crate::app::{
    sort_by_day, spec_sort_by_day, App, Effect, TdReportState, TimeSettings, WeekRow,
    TD_REPORT_VISIBLE_ROWS,
};
use crate::screen::Screen;
use crate::text::{concat_str, owned, spec_starts_with, spec_trim_start_str, starts_with, trim_start_str};

verus! {

/// Shown when the report cannot be fetched for want of credentials.
pub const NO_CREDENTIALS_MESSAGE: &'static str = "Email or password not configured.";

/// Marks a fetch error that asks the user for the password again.
pub const AUTH_FAILED_PREFIX: &'static str = "AUTH_FAILED:";

/// The fetch error for an expired session, already marked.
pub const SESSION_EXPIRED_ERROR: &'static str =
    "AUTH_FAILED:Session expired — please re-enter your password.";

/// The fetch error for anything but an authentication problem.
pub const CONNECTION_ERROR: &'static str =
    "Could not connect to TimeDoctor. Check your internet connection and try again.";

/// Shown when the keychain refuses the password.
pub const PASSWORD_NOT_SAVED: &'static str = "Failed to save password to keychain";

/// Why fetching report weeks failed.
pub enum FetchFailure {
    /// The stored session token is no longer accepted.
    TokenExpired,
    /// Time Doctor refused the credentials, with its message.
    AuthFailed(String),
    /// Anything else (network, server).
    Other,
}

/// The error text a fetch failure is reported with.
pub open spec fn spec_map_err(failure: FetchFailure) -> Seq<char> {
    match failure {
        FetchFailure::TokenExpired => SESSION_EXPIRED_ERROR@,
        FetchFailure::AuthFailed(msg) => AUTH_FAILED_PREFIX@ + msg@,
        FetchFailure::Other => CONNECTION_ERROR@,
    }
}

/// The error text a fetch failure is reported with; authentication problems
/// carry the `AUTH_FAILED:` mark.
pub fn map_err(failure: &FetchFailure) -> (r: String)
    ensures
        r@ == spec_map_err(*failure),
{
    match failure {
        FetchFailure::TokenExpired => owned(SESSION_EXPIRED_ERROR),
        FetchFailure::AuthFailed(msg) => concat_str(AUTH_FAILED_PREFIX, msg.as_str()),
        FetchFailure::Other => owned(CONNECTION_ERROR),
    }
}

/// Whether a fetch failure invalidates the stored session token.
pub fn forgets_token(failure: &FetchFailure) -> (r: bool)
    ensures
        r == !(*failure is Other),
{
    match failure {
        FetchFailure::Other => false,
        _ => true,
    }
}

/// The scroll position that shows the last rows of a report of `n` rows.
pub open spec fn spec_bottom_scroll(n: int) -> int {
    if n > TD_REPORT_VISIBLE_ROWS {
        n - TD_REPORT_VISIBLE_ROWS
    } else {
        0
    }
}

/// The rows shown while the remaining weeks are fetched, if any.
pub open spec fn spec_partial_rows<R>(report: TdReportState<R>) -> Seq<WeekRow<R>> {
    match report {
        TdReportState::PartialReady { rows, .. } => rows@,
        _ => Seq::empty(),
    }
}

impl<R> App<R> {
    /// What `launch_td_report` leaves behind.
    pub open spec fn post_launch_td_report(self, next: Self, r: Effect) -> bool {
        &&& next == (App {
            screen: Screen::TimeDoctorReport,
            td_report: next.td_report,
            td_report_scroll: 0,
            ..self
        })
        &&& if self.td.email@.len() == 0 || self.td.password_is_set != Some(true) {
            &&& next.td_report matches TdReportState::NoCredentials(m)
            &&& m@ == NO_CREDENTIALS_MESSAGE@
            &&& r == Effect::StopReport
        } else if self.td.contract_periods@.len() == 0 {
            &&& next.td_report is NoPeriods
            &&& r == Effect::StopReport
        } else {
            &&& next.td_report is Loading
            &&& r == Effect::LoadReport
        }
    }

    /// Opens the report screen; a fetch left from an earlier visit is dropped
    /// either way. Without an e-mail and a stored password, or
    /// without a contract period to start from, it says so; otherwise the
    /// caller loads the report (`Effect::LoadReport`) from the first contract
    /// period on and hands the result to `begin_report`.
    pub fn launch_td_report(&mut self) -> (r: Effect)
        requires
            old(self).wf(),
            old(self).td.password_is_set is Some,
        ensures
            final(self).wf(),
            old(self).post_launch_td_report(*final(self), r),
    {
        self.screen = Screen::TimeDoctorReport;
        self.td_report = TdReportState::Loading;
        self.td_report_scroll = 0;
        let has_password = match self.td.password_is_set {
            Some(b) => b,
            None => false,
        };
        if self.td.email.unicode_len() == 0 || !has_password {
            self.td_report = TdReportState::NoCredentials(owned(NO_CREDENTIALS_MESSAGE));
            return Effect::StopReport;
        }
        if self.td.contract_periods.len() == 0 {
            self.td_report = TdReportState::NoPeriods;
            return Effect::StopReport;
        }
        Effect::LoadReport
    }

    /// What `begin_report` leaves behind.
    pub open spec fn post_begin_report(
        self,
        next: Self,
        cached: Seq<WeekRow<R>>,
        pending: usize,
        fetch: bool,
    ) -> bool {
        let n = cached.len();
        &&& fetch == (pending > 0)
        &&& if n > 0 {
            &&& next == (App {
                td_report: next.td_report,
                td_report_scroll: spec_bottom_scroll(n as int) as usize,
                ..self
            })
            &&& if pending > 0 {
                &&& next.td_report matches TdReportState::PartialReady {
                    rows,
                    pending: p,
                    show_cumulative,
                    tick,
                }
                &&& rows@ == spec_sort_by_day(cached)
                &&& p == pending
                &&& show_cumulative
                &&& tick == 0
            } else {
                &&& next.td_report matches TdReportState::Ready { rows, show_cumulative }
                &&& rows@ == spec_sort_by_day(cached)
                &&& show_cumulative
            }
        } else if pending > 0 {
            next == self
        } else {
            match self.td_report {
                TdReportState::PartialReady { rows, show_cumulative, .. } => next == (App {
                    td_report: TdReportState::Ready { rows, show_cumulative },
                    td_report_scroll: spec_bottom_scroll(rows@.len() as int) as usize,
                    ..self
                }),
                _ => {
                    &&& next.td_report matches TdReportState::Ready { rows, show_cumulative }
                    &&& rows@.len() == 0
                    &&& show_cumulative
                    &&& next == (App { td_report: next.td_report, td_report_scroll: 0, ..self })
                },
            }
        }
    }

    /// Shows the weeks found in the cache (`cached`, already totalled), in
    /// order of their Monday, while `pending` weeks are still to be fetched;
    /// with nothing pending the report is complete. Says whether a fetch
    /// must be started.
    pub fn begin_report(&mut self, cached: Vec<WeekRow<R>>, pending: usize) -> (fetch: bool)
        requires
            old(self).wf(),
        ensures
            final(self).wf(),
            old(self).post_begin_report(*final(self), cached@, pending, fetch),
    {
        let n = cached.len();
        if n > 0 {
            let rows = sort_by_day(cached);
            self.td_report = TdReportState::PartialReady {
                rows,
                pending,
                show_cumulative: true,
                tick: 0,
            };
            self.td_report_scroll = n.saturating_sub(TD_REPORT_VISIBLE_ROWS);
        }
        if pending == 0 {
            let mut current = TdReportState::Loading;
            std::mem::swap(&mut current, &mut self.td_report);
            let (rows, show_cumulative) = match current {
                TdReportState::PartialReady { rows, show_cumulative, .. } => (rows, show_cumulative),
                _ => (Vec::new(), true),
            };
            self.td_report_scroll = rows.len().saturating_sub(TD_REPORT_VISIBLE_ROWS);
            self.td_report = TdReportState::Ready { rows, show_cumulative };
            return false;
        }
        true
    }

    /// What `apply_fetch_result` leaves behind.
    pub open spec fn post_apply_fetch_result(
        self,
        next: Self,
        result: Result<Vec<WeekRow<R>>, String>,
    ) -> bool {
        match result {
            Ok(fetched) => {
                &&& next.td_report matches TdReportState::Ready { rows, show_cumulative }
                &&& rows@ == spec_sort_by_day(spec_partial_rows(self.td_report) + fetched@)
                &&& show_cumulative
                &&& next == (App {
                    td_report: next.td_report,
                    td_report_scroll: spec_bottom_scroll(rows@.len() as int) as usize,
                    ..self
                })
            },
            Err(msg) => if spec_starts_with(msg@, AUTH_FAILED_PREFIX@) {
                &&& next.td_report matches TdReportState::NoCredentials(m)
                &&& m@ == spec_trim_start_str(msg@, AUTH_FAILED_PREFIX@)
                &&& next == (App { td_report: next.td_report, ..self })
            } else {
                match self.td_report {
                    TdReportState::PartialReady { rows: shown, show_cumulative: sc, .. } => {
                        &&& next.td_report matches TdReportState::Ready { rows, show_cumulative }
                        &&& rows@ == spec_sort_by_day(shown@)
                        &&& show_cumulative == sc
                        &&& next == (App {
                            td_report: next.td_report,
                            td_report_scroll: spec_bottom_scroll(rows@.len() as int) as usize,
                            ..self
                        })
                    },
                    _ => next == (App { td_report: TdReportState::Error(msg), ..self }),
                }
            },
        }
    }

    /// Takes the outcome of fetching the missing weeks: fetched weeks join
    /// those already shown, all in order of their Monday; an authentication
    /// failure asks for credentials again; any other failure keeps the weeks
    /// already shown, in order, or reports the error when there are none.
    pub fn apply_fetch_result(&mut self, result: Result<Vec<WeekRow<R>>, String>)
        requires
            old(self).wf(),
        ensures
            final(self).wf(),
            old(self).post_apply_fetch_result(*final(self), result),
    {
        match result {
            Ok(fetched) => {
                let mut current = TdReportState::Loading;
                std::mem::swap(&mut current, &mut self.td_report);
                let mut rows = match current {
                    TdReportState::PartialReady { rows, .. } => rows,
                    _ => Vec::new(),
                };
                let mut fetched = fetched;
                rows.append(&mut fetched);
                let rows = sort_by_day(rows);
                self.td_report_scroll = rows.len().saturating_sub(TD_REPORT_VISIBLE_ROWS);
                self.td_report = TdReportState::Ready { rows, show_cumulative: true };
            },
            Err(msg) => {
                if starts_with(msg.as_str(), AUTH_FAILED_PREFIX) {
                    self.td_report = TdReportState::NoCredentials(
                        trim_start_str(msg.as_str(), AUTH_FAILED_PREFIX),
                    );
                } else {
                    let mut current = TdReportState::Loading;
                    std::mem::swap(&mut current, &mut self.td_report);
                    match current {
                        TdReportState::PartialReady { rows, show_cumulative, .. } => {
                            let rows = sort_by_day(rows);
                            self.td_report_scroll = rows.len().saturating_sub(
                                TD_REPORT_VISIBLE_ROWS,
                            );
                            self.td_report = TdReportState::Ready { rows, show_cumulative };
                        },
                        _ => {
                            self.td_report = TdReportState::Error(msg);
                        },
                    }
                }
            },
        }
    }

    /// What `tick_report` leaves behind.
    pub open spec fn post_tick_report(self, next: Self, r: bool) -> bool {
        match self.td_report {
            TdReportState::PartialReady { rows, pending, show_cumulative, tick } => {
                &&& next == (App {
                    td_report: TdReportState::PartialReady {
                        rows,
                        pending,
                        show_cumulative,
                        tick: ((tick + 1) % 256) as u8,
                    },
                    ..self
                })
                &&& r
            },
            _ => next == self && !r,
        }
    }

    /// Advances the spinner shown while weeks are still being fetched; says
    /// whether the screen changed.
    pub fn tick_report(&mut self) -> (r: bool)
        requires
            old(self).wf(),
        ensures
            final(self).wf(),
            old(self).post_tick_report(*final(self), r),
    {
        let mut current = TdReportState::Loading;
        std::mem::swap(&mut current, &mut self.td_report);
        match current {
            TdReportState::PartialReady { rows, pending, show_cumulative, tick } => {
                self.td_report = TdReportState::PartialReady {
                    rows,
                    pending,
                    show_cumulative,
                    tick: tick.wrapping_add(1),
                };
                true
            },
            other => {
                self.td_report = other;
                false
            },
        }
    }

    /// Whether the keychain still has to be asked whether a password is
    /// stored: it is asked once, and the answer kept.
    pub fn needs_password_lookup(&self) -> (b: bool)
        ensures
            b == (self.td.password_is_set is None),
    {
        self.td.password_is_set.is_none()
    }

    /// What `password_looked_up` leaves behind.
    pub open spec fn post_password_looked_up(self, next: Self, found: bool) -> bool {
        next == (App {
            td: (TimeSettings {
                password_is_set: match self.td.password_is_set {
                    None => Some(found),
                    known => known,
                },
                ..self.td
            }),
            ..self
        })
    }

    /// Records the keychain's answer to whether a password is stored; an
    /// answer already recorded is kept.
    pub fn password_looked_up(&mut self, found: bool)
        requires
            old(self).wf(),
        ensures
            final(self).wf(),
            old(self).post_password_looked_up(*final(self), found),
    {
        if self.td.password_is_set.is_none() {
            self.td.password_is_set = Some(found);
        }
    }

    /// What `set_td_password` leaves behind.
    pub open spec fn post_set_td_password(self, next: Self, password: String, r: Effect) -> bool {
        if password@.len() == 0 {
            &&& next.auth_error matches Some(m)
            &&& m@ == PASSWORD_NOT_SAVED@
            &&& next == (App { auth_error: next.auth_error, ..self })
            &&& r == Effect::Nothing
        } else {
            &&& next == self
            &&& r == Effect::StorePassword(password)
        }
    }

    /// Starts storing a new password: an empty one is refused at once;
    /// otherwise the caller forgets the session token and stores the
    /// password, then reports the outcome to `password_stored`.
    pub fn set_td_password(&mut self, password: String) -> (r: Effect)
        requires
            old(self).wf(),
        ensures
            final(self).wf(),
            old(self).post_set_td_password(*final(self), password, r),
    {
        if password.unicode_len() == 0 {
            self.auth_error = Some(owned(PASSWORD_NOT_SAVED));
            return Effect::Nothing;
        }
        Effect::StorePassword(password)
    }

    /// What `password_stored` leaves behind.
    pub open spec fn post_password_stored(self, next: Self, ok: bool) -> bool {
        if ok {
            next == (App {
                td: (TimeSettings { password_is_set: Some(true), ..self.td }),
                ..self
            })
        } else {
            &&& next.auth_error matches Some(m)
            &&& m@ == PASSWORD_NOT_SAVED@
            &&& next == (App { auth_error: next.auth_error, ..self })
        }
    }

    /// Records whether the keychain accepted the new password.
    pub fn password_stored(&mut self, ok: bool)
        requires
            old(self).wf(),
        ensures
            final(self).wf(),
            old(self).post_password_stored(*final(self), ok),
    {
        if ok {
            self.td.password_is_set = Some(true);
        } else {
            self.auth_error = Some(owned(PASSWORD_NOT_SAVED));
        }
    }
}

} // verus!
