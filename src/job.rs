use vstd::prelude::*;

verus! {

/// The definition of one job: when it fires and which webhook it calls.
/// Instants are whole seconds since the Unix epoch, in UTC.
#[derive(Clone, Debug)]
pub struct ScheduleJobAddOrModifyReq {
    /// Unique code of the job, stable across updates.
    pub code: String,
    /// Cron expressions; the job fires at the union of their occurrences.
    pub cron: Vec<String>,
    pub callback_url: String,
    pub callback_method: String,
    pub callback_headers: Vec<(String, String)>,
    pub callback_body: Option<String>,
    /// The job fires only after this instant, if set.
    pub enable_time: Option<i64>,
    /// The job fires only before this instant, if set.
    pub disable_time: Option<i64>,
}

/// Settings of the scheduler.
pub struct ScheduleConfig {
    /// Prefix of the change-notification keys in the shared cache.
    pub cache_key_job_changed_info: String,
    /// Lifetime of a change-notification key, and the period of the delta sync.
    pub cache_key_job_changed_timer_sec: u32,
    /// Prefix of the lock keys in the shared cache.
    pub distributed_lock_key_prefix: String,
    /// Lease of a lock, in seconds.
    pub distributed_lock_expire_sec: u32,
}

/// Least number of seconds between two fires of one job.
pub const THROTTLE_SECS: i64 = 60;

/// Prefix of the keys of job definitions in the authoritative store.
pub const KV_KEY_CODE: &'static str = "__schedule_job__";

/// The lifecycle stage that an audit entry records.
#[derive(Clone, Copy, Debug, PartialEq, Eq, Structural)]
pub enum AuditStage {
    Add,
    Delete,
    ExecStart,
    ExecEnd,
    ExecFail,
}

/// The name under which a stage is written to the audit log.
pub open spec fn stage_name(s: AuditStage) -> Seq<char> {
    match s {
        AuditStage::Add => "add"@,
        AuditStage::Delete => "delete"@,
        AuditStage::ExecStart => "exec-start"@,
        AuditStage::ExecEnd => "exec-end"@,
        AuditStage::ExecFail => "exec-fail"@,
    }
}

impl AuditStage {
    /// The name under which this stage is written to the audit log.
    pub fn as_str(&self) -> (r: &'static str)
        ensures
            r@ == stage_name(*self),
    {
        match self {
            AuditStage::Add => "add",
            AuditStage::Delete => "delete",
            AuditStage::ExecStart => "exec-start",
            AuditStage::ExecEnd => "exec-end",
            AuditStage::ExecFail => "exec-fail",
        }
    }

    /// The stage written under `name`, if any.
    pub fn from_name(name: &String) -> (r: Option<AuditStage>)
        ensures
            match r {
                Some(s) => stage_name(s) == name@,
                None => forall|s: AuditStage| stage_name(s) != name@,
            },
    {
        if *name == String::from_str("add") {
            Some(AuditStage::Add)
        } else if *name == String::from_str("delete") {
            Some(AuditStage::Delete)
        } else if *name == String::from_str("exec-start") {
            Some(AuditStage::ExecStart)
        } else if *name == String::from_str("exec-end") {
            Some(AuditStage::ExecEnd)
        } else if *name == String::from_str("exec-fail") {
            Some(AuditStage::ExecFail)
        } else {
            None
        }
    }
}

} // verus!
