use vstd::prelude::*;

use crate::cron_eval::{valid_exprs, window_closed, FireSchedule};
use crate::job::{ScheduleConfig, ScheduleJobAddOrModifyReq, THROTTLE_SECS};
use crate::registry::KeyTable;
use tsuki_scheduler::TaskUid;

verus! {

/// Relies on tsuki_scheduler's `TaskUid::uuid`: a random version-4 uuid, of which
/// nothing is promised.
#[verifier::external_body]
fn new_task_uid() -> (r: u128) {
    TaskUid::uuid().into_inner()
}

/// A timer to register with the timer runtime: its handle and its fire sequence.
pub struct TaskPlacement {
    pub uid: u128,
    pub schedule: FireSchedule,
}

/// What the timer runtime must do after a change of the task table: cancel the
/// timer of `cancelled`, then register `placed`.
pub struct RegistryChange {
    pub cancelled: Option<u128>,
    pub placed: Option<TaskPlacement>,
}

/// The fire sequence built for `job` at `now`, as a placement must hold it.
pub open spec fn schedule_of(s: FireSchedule, job: ScheduleJobAddOrModifyReq) -> bool {
    &&& s.wf()
    &&& s.expressions() == valid_exprs(job.cron@)
    &&& s.spec_not_before() == job.enable_time
    &&& s.spec_not_after() == job.disable_time
    &&& s.spec_throttle() == THROTTLE_SECS
    &&& s.spec_last_fire().is_none()
}

/// The local task table of one node: which job codes have a live timer, and
/// under which handle.
pub struct OwnedScheduleTaskServ {
    code_uuid: KeyTable<u128>,
}

impl View for OwnedScheduleTaskServ {
    type V = Map<Seq<char>, u128>;

    closed spec fn view(&self) -> Map<Seq<char>, u128> {
        self.code_uuid@
    }
}

impl OwnedScheduleTaskServ {
    pub closed spec fn wf(&self) -> bool {
        self.code_uuid.wf()
    }

    /// An empty table.
    pub fn new() -> (r: OwnedScheduleTaskServ)
        ensures
            r.wf(),
            r@ == Map::<Seq<char>, u128>::empty(),
    {
        OwnedScheduleTaskServ { code_uuid: KeyTable::new() }
    }

    /// The handle of the live timer of `code`, if any.
    pub fn task_uid(&self, code: &String) -> (r: Option<u128>)
        requires
            self.wf(),
        ensures
            r == (if self@.contains_key(code@) { Some(self@[code@]) } else { None::<u128> }),
    {
        self.code_uuid.get(code)
    }

    /// Whether `code` has a live timer.
    pub fn has_task(&self, code: &String) -> (r: bool)
        requires
            self.wf(),
        ensures
            r == self@.contains_key(code@),
    {
        self.code_uuid.contains(code)
    }

    /// Number of live timers.
    pub fn task_count(&self) -> (r: usize)
        requires
            self.wf(),
        ensures
            r == self@.len(),
    {
        self.code_uuid.len()
    }

    /// Schedules `job_config` at `now`, replacing the timer its code had. A job
    /// whose window has already closed gets no timer; its old one is still
    /// cancelled. Cron expressions that do not parse are left out.
    pub fn add(&mut self, job_config: &ScheduleJobAddOrModifyReq, now: i64) -> (r: RegistryChange)
        requires
            old(self).wf(),
        ensures
            final(self).wf(),
            r.cancelled == (if old(self)@.contains_key(job_config.code@) {
                Some(old(self)@[job_config.code@])
            } else {
                None::<u128>
            }),
            r.placed.is_none() == window_closed(job_config.disable_time, now),
            r.placed.is_some() ==> schedule_of(r.placed.unwrap().schedule, *job_config),
            final(self)@ == (if r.placed.is_some() {
                old(self)@.remove(job_config.code@).insert(job_config.code@, r.placed.unwrap().uid)
            } else {
                old(self)@.remove(job_config.code@)
            }),
    {
        let cancelled = self.delete(&job_config.code);
        let schedule = FireSchedule::new(
            &job_config.cron,
            job_config.enable_time,
            job_config.disable_time,
            THROTTLE_SECS,
            now,
        );
        match schedule {
            None => RegistryChange { cancelled, placed: None },
            Some(schedule) => {
                let uid = new_task_uid();
                self.code_uuid.insert(job_config.code.clone(), uid);
                RegistryChange { cancelled, placed: Some(TaskPlacement { uid, schedule }) }
            },
        }
    }

    /// The lock key of job `code`: the configured prefix followed by the code.
    pub fn gen_distributed_lock_key(code: &String, config: &ScheduleConfig) -> (r: String)
        ensures
            r@ == config.distributed_lock_key_prefix@ + code@,
    {
        let mut key = config.distributed_lock_key_prefix.clone();
        key.append(code.as_str());
        key
    }

    /// Drops the timer of `code`, if it has one, and returns its handle for the
    /// timer runtime to cancel. Absent codes are left alone.
    pub fn delete(&mut self, code: &String) -> (r: Option<u128>)
        requires
            old(self).wf(),
        ensures
            final(self).wf(),
            final(self)@ == old(self)@.remove(code@),
            r == (if old(self)@.contains_key(code@) { Some(old(self)@[code@]) } else { None::<u128> }),
    {
        self.code_uuid.remove(code)
    }
}

} // verus!
