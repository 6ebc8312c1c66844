use vstd::prelude::*;

use crate::job::{AuditStage, ScheduleConfig, KV_KEY_CODE};
use crate::sync::{trim_prefix_all, trim_start_all};
use crate::task_serv::OwnedScheduleTaskServ;

verus! {

/// The value written to a change-notification key.
#[derive(Clone, Copy, Debug, PartialEq, Eq, Structural)]
pub enum ChangeKind {
    Update,
    Delete,
}

/// The text of a change-notification value.
pub open spec fn change_name(k: ChangeKind) -> Seq<char> {
    match k {
        ChangeKind::Update => "update"@,
        ChangeKind::Delete => "delete"@,
    }
}

impl ChangeKind {
    /// The text written to the change-notification key.
    pub fn as_str(&self) -> (r: &'static str)
        ensures
            r@ == change_name(*self),
    {
        match self {
            ChangeKind::Update => "update",
            ChangeKind::Delete => "delete",
        }
    }
}

/// One step of a directory mutation, for the job the mutation is about. The
/// steps run in order; the first that fails ends the mutation with its error.
#[derive(Clone, Copy, Debug, PartialEq, Eq, Structural)]
pub enum DirectoryEffect {
    /// Write an audit entry with this stage.
    Audit(AuditStage),
    /// Write the definition to the authoritative store.
    StoreUpsert,
    /// Remove the definition from the authoritative store.
    StoreDelete,
    /// Write the change-notification key with this value and the configured lifetime.
    Notify(ChangeKind),
    /// Add the job to this node's task table.
    LocalAdd,
    /// Remove the job from this node's task table.
    LocalDelete,
}

/// The steps of `delete`.
pub open spec fn spec_delete_plan() -> Seq<DirectoryEffect> {
    seq![
        DirectoryEffect::Audit(AuditStage::Delete),
        DirectoryEffect::StoreDelete,
        DirectoryEffect::Notify(ChangeKind::Delete),
        DirectoryEffect::LocalDelete,
    ]
}

/// The steps of `add_or_modify`, for a job whose code has a live timer here or not.
pub open spec fn spec_add_or_modify_plan(live: bool) -> Seq<DirectoryEffect> {
    let add = seq![
        DirectoryEffect::Audit(AuditStage::Add),
        DirectoryEffect::StoreUpsert,
        DirectoryEffect::Notify(ChangeKind::Update),
        DirectoryEffect::LocalAdd,
    ];
    if live { spec_delete_plan() + add } else { add }
}

/// The audit stages that the steps write, in order.
pub open spec fn audits_of(plan: Seq<DirectoryEffect>) -> Seq<AuditStage>
    decreases plan.len(),
{
    if plan.len() == 0 {
        Seq::empty()
    } else {
        let rest = audits_of(plan.drop_first());
        match plan[0] {
            DirectoryEffect::Audit(s) => seq![s] + rest,
            _ => rest,
        }
    }
}

fn push_delete_steps(plan: &mut Vec<DirectoryEffect>)
    ensures
        final(plan)@ == old(plan)@ + spec_delete_plan(),
{
    plan.push(DirectoryEffect::Audit(AuditStage::Delete));
    plan.push(DirectoryEffect::StoreDelete);
    plan.push(DirectoryEffect::Notify(ChangeKind::Delete));
    plan.push(DirectoryEffect::LocalDelete);
    assert(final(plan)@ =~= old(plan)@ + spec_delete_plan());
}

/// The steps that delete a job: audit, store, notification, then the local table.
pub fn delete_plan() -> (r: Vec<DirectoryEffect>)
    ensures
        r@ == spec_delete_plan(),
{
    let mut plan: Vec<DirectoryEffect> = Vec::new();
    push_delete_steps(&mut plan);
    assert(plan@ =~= spec_delete_plan());
    plan
}

/// The steps that add or replace job `code`: when this node has a timer for the
/// code, the whole delete comes first, so that the job restarts from a clean state.
pub fn add_or_modify_plan(serv: &OwnedScheduleTaskServ, code: &String) -> (r: Vec<DirectoryEffect>)
    requires
        serv.wf(),
    ensures
        r@ == spec_add_or_modify_plan(serv@.contains_key(code@)),
{
    let mut plan: Vec<DirectoryEffect> = Vec::new();
    if serv.has_task(code) {
        push_delete_steps(&mut plan);
    }
    plan.push(DirectoryEffect::Audit(AuditStage::Add));
    plan.push(DirectoryEffect::StoreUpsert);
    plan.push(DirectoryEffect::Notify(ChangeKind::Update));
    plan.push(DirectoryEffect::LocalAdd);
    assert(plan@ =~= spec_add_or_modify_plan(serv@.contains_key(code@)));
    plan
}

/// The key of job `code` in the authoritative store.
pub fn job_kv_key(code: &String) -> (r: String)
    ensures
        r@ == KV_KEY_CODE@ + code@,
{
    let mut key = String::from_str(KV_KEY_CODE);
    key.append(code.as_str());
    key
}

/// The change-notification key of job `code`.
pub fn change_marker_key(code: &String, config: &ScheduleConfig) -> (r: String)
    ensures
        r@ == config.cache_key_job_changed_info@ + code@,
{
    let mut key = config.cache_key_job_changed_info.clone();
    key.append(code.as_str());
    key
}

/// The job code of a key of the authoritative store.
pub fn job_code_of_key(key: &String) -> (r: String)
    ensures
        r@ == trim_prefix_all(key@, KV_KEY_CODE@),
{
    let prefix = String::from_str(KV_KEY_CODE);
    trim_start_all(key, &prefix)
}

/// One audit record of a job's executions, as the log sink returns it.
pub struct TaskLogRecord {
    /// When it was written, in seconds.
    pub ts: i64,
    pub stage: AuditStage,
    pub content: String,
}

/// One execution of a job: when it started, when it ended, and why it failed.
pub struct ScheduleTaskInfoResp {
    pub start: Option<i64>,
    pub end: Option<i64>,
    pub err_msg: Option<String>,
}

/// The execution made of the records at positions `2k` and `2k + 1`.
pub open spec fn pair_at(logs: Seq<TaskLogRecord>, k: int) -> ScheduleTaskInfoResp {
    let has_end = 2 * k + 1 < logs.len();
    ScheduleTaskInfoResp {
        start: Some(logs[2 * k].ts),
        end: if has_end { Some(logs[2 * k + 1].ts) } else { None },
        err_msg: if has_end && logs[2 * k + 1].stage == AuditStage::ExecFail {
            Some(logs[2 * k + 1].content)
        } else {
            None
        },
    }
}

/// `r` pairs the records of `logs` by position: the first with the second, the
/// third with the fourth, and a last odd one alone.
pub open spec fn paired_by_position(logs: Seq<TaskLogRecord>, r: Seq<ScheduleTaskInfoResp>) -> bool {
    &&& r.len() == (logs.len() + 1) / 2
    &&& forall|k: int| 0 <= k < r.len() ==> #[trigger] r[k] == pair_at(logs, k)
}

/// Rebuilds the executions of one job from its audit records, in order: each
/// start record is paired with the record after it, which ends the execution and,
/// when it records a failure, gives its message.
pub fn pair_task_logs(logs: &Vec<TaskLogRecord>) -> (r: Vec<ScheduleTaskInfoResp>)
    ensures
        paired_by_position(logs@, r@),
{
    let mut out: Vec<ScheduleTaskInfoResp> = Vec::new();
    let mut i: usize = 0;
    while i < logs.len()
        invariant_except_break
            i % 2 == 0,
            out@.len() == i / 2,
        invariant
            i <= logs@.len(),
            forall|k: int| 0 <= k < out@.len() ==> #[trigger] out@[k] == pair_at(logs@, k),
        ensures
            out@.len() == (logs@.len() + 1) / 2,
        decreases logs@.len() - i,
    {
        let start = &logs[i];
        if i + 1 < logs.len() {
            let end = &logs[i + 1];
            let err_msg = if end.stage == AuditStage::ExecFail { Some(end.content.clone()) } else { None };
            let task = ScheduleTaskInfoResp { start: Some(start.ts), end: Some(end.ts), err_msg };
            assert(task == pair_at(logs@, i as int / 2));
            out.push(task);
            i = i + 2;
        } else {
            let task = ScheduleTaskInfoResp { start: Some(start.ts), end: None, err_msg: None };
            assert(task == pair_at(logs@, i as int / 2));
            out.push(task);
            break;
        }
    }
    out
}

/// The page size and total of executions that a page of log records makes: two
/// records per execution.
pub fn task_page_counts(log_page_size: u32, log_total_size: u64) -> (r: (u32, u64))
    ensures
        r == (log_page_size / 2, log_total_size / 2),
{
    (log_page_size / 2, log_total_size / 2)
}

/// The number of log records to ask for to fill a page of `page_size` executions.
pub fn task_log_page_size(page_size: u16) -> (r: u32)
    ensures
        r == 2 * page_size,
{
    2 * (page_size as u32)
}

} // verus!
