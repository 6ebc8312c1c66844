use vstd::prelude::*;

use crate::cron_eval::window_closed;
use crate::job::ScheduleJobAddOrModifyReq;
use crate::task_serv::{schedule_of, OwnedScheduleTaskServ, RegistryChange};

verus! {

/// `s` with every leading copy of `p` removed (`s` itself when `p` is empty).
pub open spec fn trim_prefix_all(s: Seq<char>, p: Seq<char>) -> Seq<char>
    decreases s.len(),
{
    if p.len() > 0 && p.is_prefix_of(s) {
        trim_prefix_all(s.skip(p.len() as int), p)
    } else {
        s
    }
}

/// Relies on `str::trim_start_matches` with a string pattern: every leading match
/// of the pattern is removed.
#[verifier::external_body]
pub(crate) fn trim_start_all(s: &String, p: &String) -> (r: String)
    ensures
        r@ == trim_prefix_all(s@, p@),
{
    s.trim_start_matches(p.as_str()).to_string()
}

/// The job code that a change-notification key names: the key without its prefix.
pub fn marker_code(key: &String, prefix: &String) -> (r: String)
    ensures
        r@ == trim_prefix_all(key@, prefix@),
{
    trim_start_all(key, prefix)
}

/// Number of failed fetches after which the bootstrap sync gives up.
pub const BOOTSTRAP_MAX_RETRY: u32 = 5;

/// What happened in one round of the bootstrap sync.
#[derive(Clone, Copy, Debug, PartialEq, Eq, Structural)]
pub enum BootstrapEvent {
    /// The web layer is not ready yet; nothing was fetched.
    WebNotReady,
    /// The full job set was fetched.
    Fetched,
    /// Fetching the job set failed.
    FetchFailed,
}

/// What the bootstrap sync does next.
#[derive(Clone, Copy, Debug, PartialEq, Eq, Structural)]
pub enum BootstrapAction {
    /// Wait one interval and try again.
    Wait,
    /// Install every fetched job, then stop.
    InstallAll,
    /// Stop with no job installed.
    GiveUp,
    /// The sync has already stopped.
    Stopped,
}

/// The bootstrap sync's state: the failed fetches so far and whether it stopped.
#[derive(Clone, Copy, Debug, PartialEq, Eq, Structural)]
pub struct BootstrapState {
    pub failures: u32,
    pub finished: bool,
}

pub open spec fn spec_bootstrap_step(st: BootstrapState, e: BootstrapEvent) -> (BootstrapState, BootstrapAction) {
    if st.finished {
        (st, BootstrapAction::Stopped)
    } else {
        match e {
            BootstrapEvent::WebNotReady => (st, BootstrapAction::Wait),
            BootstrapEvent::Fetched => (BootstrapState { failures: st.failures, finished: true }, BootstrapAction::InstallAll),
            BootstrapEvent::FetchFailed => if st.failures + 1 >= BOOTSTRAP_MAX_RETRY {
                (BootstrapState { failures: (st.failures + 1) as u32, finished: true }, BootstrapAction::GiveUp)
            } else {
                (BootstrapState { failures: (st.failures + 1) as u32, finished: false }, BootstrapAction::Wait)
            },
        }
    }
}

impl BootstrapState {
    /// The state before the first round.
    pub fn new() -> (r: BootstrapState)
        ensures
            r.failures == 0,
            !r.finished,
    {
        BootstrapState { failures: 0, finished: false }
    }

    /// One round: once the web layer is ready, a successful fetch installs every
    /// job and stops; a failed one is retried until the budget of
    /// `BOOTSTRAP_MAX_RETRY` failures is spent, and then the sync stops with no job.
    pub fn step(self, e: BootstrapEvent) -> (r: (BootstrapState, BootstrapAction))
        requires
            self.failures < BOOTSTRAP_MAX_RETRY,
        ensures
            r == spec_bootstrap_step(self, e),
            r.0.failures <= BOOTSTRAP_MAX_RETRY,
    {
        if self.finished {
            return (self, BootstrapAction::Stopped);
        }
        match e {
            BootstrapEvent::WebNotReady => (self, BootstrapAction::Wait),
            BootstrapEvent::Fetched => (BootstrapState { failures: self.failures, finished: true }, BootstrapAction::InstallAll),
            BootstrapEvent::FetchFailed => {
                let failures = self.failures + 1;
                if failures >= BOOTSTRAP_MAX_RETRY {
                    (BootstrapState { failures, finished: true }, BootstrapAction::GiveUp)
                } else {
                    (BootstrapState { failures, finished: false }, BootstrapAction::Wait)
                }
            },
        }
    }
}

impl OwnedScheduleTaskServ {
    /// Applies what the authoritative store holds for `code` to the task table:
    /// a definition is added or replaces the old one; an absent one removes the
    /// code; a failed fetch changes nothing.
    pub fn apply_fetched(
        &mut self,
        code: &String,
        fetched: &Result<Option<ScheduleJobAddOrModifyReq>, String>,
        now: i64,
    ) -> (r: RegistryChange)
        requires
            old(self).wf(),
        ensures
            final(self).wf(),
            match fetched {
                Ok(Some(job)) => {
                    &&& r.cancelled == (if old(self)@.contains_key(job.code@) {
                        Some(old(self)@[job.code@])
                    } else {
                        None::<u128>
                    })
                    &&& r.placed.is_none() == window_closed(job.disable_time, now)
                    &&& r.placed.is_some() ==> schedule_of(r.placed.unwrap().schedule, *job)
                    &&& final(self)@ == (if r.placed.is_some() {
                        old(self)@.remove(job.code@).insert(job.code@, r.placed.unwrap().uid)
                    } else {
                        old(self)@.remove(job.code@)
                    })
                },
                Ok(None) => {
                    &&& r.cancelled == (if old(self)@.contains_key(code@) {
                        Some(old(self)@[code@])
                    } else {
                        None::<u128>
                    })
                    &&& r.placed.is_none()
                    &&& final(self)@ == old(self)@.remove(code@)
                },
                Err(_) => {
                    &&& r.cancelled.is_none()
                    &&& r.placed.is_none()
                    &&& final(self)@ == old(self)@
                },
            },
    {
        match fetched {
            Ok(Some(job)) => self.add(job, now),
            Ok(None) => {
                let cancelled = self.delete(code);
                RegistryChange { cancelled, placed: None }
            },
            Err(_) => RegistryChange { cancelled: None, placed: None },
        }
    }
}

} // verus!
