use vstd::prelude::*;

use crate::job::AuditStage;

verus! {

/// Where one fire of a job stands. The run only moves forward and ends in one of
/// `Skipped`, `Aborted`, `EndLogged` or `FailLogged`.
#[derive(Clone, Copy, Debug, PartialEq, Eq, Structural)]
pub enum FireStage {
    /// The timer fired; the lock is to be taken.
    Fired,
    /// The lock was taken; its lease is to be set.
    Locked,
    /// The lease is set; the start record is to be written.
    LeaseSet,
    /// The start record is written; the webhook is to be called.
    StartLogged,
    /// The webhook answered; the end record is to be written.
    WebhookAnswered,
    /// The webhook call failed; the failure record is to be written.
    WebhookFailed,
    /// Another node holds the lock for this tick.
    Skipped,
    /// A step before the webhook failed; nothing more is done.
    Aborted,
    /// The end record was attempted.
    EndLogged,
    /// The failure record was attempted.
    FailLogged,
}

/// The outside work that a stage asks for.
#[derive(Clone, Copy, Debug, PartialEq, Eq, Structural)]
pub enum FireAction {
    /// Set the lock key if it is absent.
    AcquireLock,
    /// Set the lock key's expiry to the lease.
    SetLease,
    /// Write the `exec-start` audit entry.
    LogExecStart,
    /// Call the webhook.
    CallWebhook,
    /// Write the `exec-end` audit entry.
    LogExecEnd,
    /// Write the `exec-fail` audit entry.
    LogExecFail,
}

/// How the outside work of a stage went.
#[derive(Clone, Copy, Debug, PartialEq, Eq, Structural)]
pub enum FireEvent {
    /// It succeeded: the lock was granted, the write was done, the webhook answered.
    Done,
    /// The lock is held by another node.
    Refused,
    /// It failed: a connection error, a failed write, a transport error.
    Failed,
}

pub open spec fn spec_stage_action(s: FireStage) -> Option<FireAction> {
    match s {
        FireStage::Fired => Some(FireAction::AcquireLock),
        FireStage::Locked => Some(FireAction::SetLease),
        FireStage::LeaseSet => Some(FireAction::LogExecStart),
        FireStage::StartLogged => Some(FireAction::CallWebhook),
        FireStage::WebhookAnswered => Some(FireAction::LogExecEnd),
        FireStage::WebhookFailed => Some(FireAction::LogExecFail),
        _ => None,
    }
}

pub open spec fn spec_next_stage(s: FireStage, e: FireEvent) -> FireStage {
    match s {
        FireStage::Fired => match e {
            FireEvent::Done => FireStage::Locked,
            FireEvent::Refused => FireStage::Skipped,
            FireEvent::Failed => FireStage::Aborted,
        },
        FireStage::Locked => if e == FireEvent::Done { FireStage::LeaseSet } else { FireStage::Aborted },
        FireStage::LeaseSet => if e == FireEvent::Done { FireStage::StartLogged } else { FireStage::Aborted },
        FireStage::StartLogged => if e == FireEvent::Done {
            FireStage::WebhookAnswered
        } else {
            FireStage::WebhookFailed
        },
        FireStage::WebhookAnswered => FireStage::EndLogged,
        FireStage::WebhookFailed => FireStage::FailLogged,
        _ => s,
    }
}

/// The audit entry that stage `s` writes when its work ends with `e`.
pub open spec fn written_audit(s: FireStage, e: FireEvent) -> Option<AuditStage> {
    if e != FireEvent::Done {
        None
    } else {
        match s {
            FireStage::LeaseSet => Some(AuditStage::ExecStart),
            FireStage::WebhookAnswered => Some(AuditStage::ExecEnd),
            FireStage::WebhookFailed => Some(AuditStage::ExecFail),
            _ => None,
        }
    }
}

/// The stage reached from `s` after `events`.
pub open spec fn run_stage(s: FireStage, events: Seq<FireEvent>) -> FireStage
    decreases events.len(),
{
    if events.len() == 0 {
        s
    } else {
        run_stage(spec_next_stage(s, events[0]), events.drop_first())
    }
}

/// The audit entries written on the way from `s` through `events`, in order.
pub open spec fn run_audits(s: FireStage, events: Seq<FireEvent>) -> Seq<AuditStage>
    decreases events.len(),
{
    if events.len() == 0 {
        Seq::empty()
    } else {
        let rest = run_audits(spec_next_stage(s, events[0]), events.drop_first());
        match written_audit(s, events[0]) {
            Some(a) => seq![a] + rest,
            None => rest,
        }
    }
}

/// The event that the answer of the lock's set-if-absent makes.
pub open spec fn spec_lock_event(granted: bool) -> FireEvent {
    if granted { FireEvent::Done } else { FireEvent::Refused }
}

/// The event for the answer of the lock's set-if-absent: granted or held elsewhere.
pub fn lock_event(granted: bool) -> (r: FireEvent)
    ensures
        r == spec_lock_event(granted),
{
    if granted { FireEvent::Done } else { FireEvent::Refused }
}

/// The outside work that stage `s` asks for; `None` once the run has ended.
pub fn stage_action(s: FireStage) -> (r: Option<FireAction>)
    ensures
        r == spec_stage_action(s),
{
    match s {
        FireStage::Fired => Some(FireAction::AcquireLock),
        FireStage::Locked => Some(FireAction::SetLease),
        FireStage::LeaseSet => Some(FireAction::LogExecStart),
        FireStage::StartLogged => Some(FireAction::CallWebhook),
        FireStage::WebhookAnswered => Some(FireAction::LogExecEnd),
        FireStage::WebhookFailed => Some(FireAction::LogExecFail),
        _ => None,
    }
}

/// The stage that follows `s` once its work ended with `e`: a refused lock skips
/// the tick, a failure before the webhook aborts, a webhook failure leads to the
/// failure record, and a failed final record is swallowed.
pub fn next_stage(s: FireStage, e: FireEvent) -> (r: FireStage)
    ensures
        r == spec_next_stage(s, e),
{
    match s {
        FireStage::Fired => match e {
            FireEvent::Done => FireStage::Locked,
            FireEvent::Refused => FireStage::Skipped,
            FireEvent::Failed => FireStage::Aborted,
        },
        FireStage::Locked => if e == FireEvent::Done { FireStage::LeaseSet } else { FireStage::Aborted },
        FireStage::LeaseSet => if e == FireEvent::Done { FireStage::StartLogged } else { FireStage::Aborted },
        FireStage::StartLogged => if e == FireEvent::Done {
            FireStage::WebhookAnswered
        } else {
            FireStage::WebhookFailed
        },
        FireStage::WebhookAnswered => FireStage::EndLogged,
        FireStage::WebhookFailed => FireStage::FailLogged,
        _ => s,
    }
}

/// Runs a fire through `events`, one per stage, and returns the stage reached and
/// the audit entries written on the way.
pub fn run_fire(events: &Vec<FireEvent>) -> (r: (FireStage, Vec<AuditStage>))
    ensures
        r.0 == run_stage(FireStage::Fired, events@),
        r.1@ == run_audits(FireStage::Fired, events@),
{
    let mut s = FireStage::Fired;
    let mut audits: Vec<AuditStage> = Vec::new();
    let mut i: usize = 0;
    assert(events@.skip(0) =~= events@);
    assert(audits@ + run_audits(s, events@) =~= run_audits(s, events@));
    while i < events.len()
        invariant
            i <= events@.len(),
            run_stage(FireStage::Fired, events@) == run_stage(s, events@.skip(i as int)),
            run_audits(FireStage::Fired, events@) == audits@ + run_audits(s, events@.skip(i as int)),
        decreases events@.len() - i,
    {
        let e = events[i];
        assert(events@.skip(i as int).drop_first() =~= events@.skip(i as int + 1));
        match s {
            FireStage::LeaseSet => if e == FireEvent::Done { audits.push(AuditStage::ExecStart); },
            FireStage::WebhookAnswered => if e == FireEvent::Done { audits.push(AuditStage::ExecEnd); },
            FireStage::WebhookFailed => if e == FireEvent::Done { audits.push(AuditStage::ExecFail); },
            _ => {},
        }
        proof {
            assert(events@.skip(i as int)[0] == e);
        }
        assert(audits@ + run_audits(spec_next_stage(s, e), events@.skip(i as int + 1)) == run_audits(FireStage::Fired, events@)) by {
            let w = written_audit(s, e);
            if w.is_some() {
                assert(seq![w.unwrap()] + run_audits(spec_next_stage(s, e), events@.skip(i as int + 1))
                    =~= run_audits(s, events@.skip(i as int)));
            }
        }
        s = next_stage(s, e);
        i = i + 1;
    }
    assert(events@.skip(events@.len() as int) =~= Seq::<FireEvent>::empty());
    (s, audits)
}

} // verus!
