use vstd::prelude::*;

use crate::cron_eval::{cron_expr_valid, next_fire_step, valid_exprs, window_closed, FireSchedule};
use crate::directory::{audits_of, spec_add_or_modify_plan, spec_delete_plan, DirectoryEffect};
use crate::job::{AuditStage, ScheduleJobAddOrModifyReq};
use crate::lock::{acquire, lock_held};
use crate::pipeline::{run_audits, spec_lock_event, spec_next_stage, written_audit, FireEvent, FireStage};

verus! {

/// The audit entries that a run from `s` can still write.
pub open spec fn audit_shape(s: FireStage, a: Seq<AuditStage>) -> bool {
    let end_or_fail = a == seq![AuditStage::ExecEnd] || a == seq![AuditStage::ExecFail];
    match s {
        FireStage::WebhookAnswered => a.len() == 0 || a == seq![AuditStage::ExecEnd],
        FireStage::WebhookFailed => a.len() == 0 || a == seq![AuditStage::ExecFail],
        FireStage::StartLogged => a.len() == 0 || end_or_fail,
        FireStage::Fired | FireStage::Locked | FireStage::LeaseSet => a.len() == 0 || a
            == seq![AuditStage::ExecStart] || a == seq![AuditStage::ExecStart, AuditStage::ExecEnd] || a
            == seq![AuditStage::ExecStart, AuditStage::ExecFail],
        _ => a.len() == 0,
    }
}

proof fn lemma_audit_shape(s: FireStage, events: Seq<FireEvent>)
    ensures
        audit_shape(s, run_audits(s, events)),
    decreases events.len(),
{
    if events.len() > 0 {
        let e = events[0];
        let rest = events.drop_first();
        lemma_audit_shape(spec_next_stage(s, e), rest);
        let tail = run_audits(spec_next_stage(s, e), rest);
        match written_audit(s, e) {
            Some(a) => {
                assert(run_audits(s, events) == seq![a] + tail);
                if tail.len() == 0 {
                    assert(seq![a] + tail =~= seq![a]);
                } else if tail == seq![AuditStage::ExecEnd] {
                    assert(seq![a] + tail =~= seq![a, AuditStage::ExecEnd]);
                } else if tail == seq![AuditStage::ExecFail] {
                    assert(seq![a] + tail =~= seq![a, AuditStage::ExecFail]);
                }
            },
            None => {},
        }
    }
}

/// Audit pairing: whatever the outside work answers, a fire writes either no
/// entry, or an `exec-start` alone, or an `exec-start` followed by exactly one
/// `exec-end` or `exec-fail`. When the lock, the lease and both writes succeed,
/// it is `exec-start` then `exec-end` if the webhook answered, `exec-fail` if not.
pub proof fn lemma_audit_pairing(events: Seq<FireEvent>)
    ensures
        ({
            let a = run_audits(FireStage::Fired, events);
            a.len() == 0 || a == seq![AuditStage::ExecStart] || a == seq![
                AuditStage::ExecStart,
                AuditStage::ExecEnd,
            ] || a == seq![AuditStage::ExecStart, AuditStage::ExecFail]
        }),
        events.len() >= 5 && events[0] == FireEvent::Done && events[1] == FireEvent::Done && events[2]
            == FireEvent::Done && events[4] == FireEvent::Done ==> run_audits(FireStage::Fired, events) == seq![
            AuditStage::ExecStart,
            if events[3] == FireEvent::Done { AuditStage::ExecEnd } else { AuditStage::ExecFail },
        ],
{
    lemma_audit_shape(FireStage::Fired, events);
    if events.len() >= 5 && events[0] == FireEvent::Done && events[1] == FireEvent::Done && events[2]
        == FireEvent::Done && events[4] == FireEvent::Done {
        let e1 = events.drop_first();
        let e2 = e1.drop_first();
        let e3 = e2.drop_first();
        let e4 = e3.drop_first();
        let e5 = e4.drop_first();
        let last = if events[3] == FireEvent::Done { FireStage::WebhookAnswered } else { FireStage::WebhookFailed };
        let done = if events[3] == FireEvent::Done { FireStage::EndLogged } else { FireStage::FailLogged };
        let rec = if events[3] == FireEvent::Done { AuditStage::ExecEnd } else { AuditStage::ExecFail };
        lemma_audit_shape(done, e5);
        assert(run_audits(last, e4) == seq![rec] + run_audits(done, e5));
        assert(run_audits(last, e4) =~= seq![rec]);
        assert(run_audits(FireStage::StartLogged, e3) == run_audits(last, e4));
        assert(run_audits(FireStage::LeaseSet, e2) == seq![AuditStage::ExecStart] + run_audits(FireStage::StartLogged, e3));
        assert(run_audits(FireStage::Locked, e1) == run_audits(FireStage::LeaseSet, e2));
        assert(run_audits(FireStage::Fired, events) == run_audits(FireStage::Locked, e1));
        assert(seq![AuditStage::ExecStart] + seq![rec] =~= seq![AuditStage::ExecStart, rec]);
    }
}

/// Mutual exclusion: two nodes fire the same job in the same tick against one
/// shared lock board on which the key is free. The first to ask gets the lock and
/// the other is refused; so, when the winner's lease and start record succeed,
/// exactly one of the two writes an `exec-start`, and the other writes nothing.
pub proof fn lemma_mutual_exclusion(
    board: Map<Seq<char>, Option<i64>>,
    key: Seq<char>,
    now: i64,
    rest_a: Seq<FireEvent>,
    rest_b: Seq<FireEvent>,
)
    requires
        !lock_held(board, key, now),
        rest_a.len() >= 2 && rest_a[0] == FireEvent::Done && rest_a[1] == FireEvent::Done,
    ensures
        ({
            let (granted_a, board_a) = acquire(board, key, now);
            let (granted_b, _board_b) = acquire(board_a, key, now);
            let audits_a = run_audits(FireStage::Fired, seq![spec_lock_event(granted_a)] + rest_a);
            let audits_b = run_audits(FireStage::Fired, seq![spec_lock_event(granted_b)] + rest_b);
            &&& granted_a && !granted_b
            &&& audits_a.len() >= 1 && audits_a[0] == AuditStage::ExecStart
            &&& forall|i: int| 1 <= i < audits_a.len() ==> audits_a[i] != AuditStage::ExecStart
            &&& audits_b.len() == 0
        }),
{
    let ea = seq![FireEvent::Done] + rest_a;
    let eb = seq![FireEvent::Refused] + rest_b;
    let (_g, board_a) = acquire(board, key, now);
    assert(lock_held(board_a, key, now));
    lemma_audit_shape(FireStage::Skipped, eb.drop_first());
    assert(run_audits(FireStage::Fired, eb) == run_audits(FireStage::Skipped, eb.drop_first()));
    let e1 = ea.drop_first();
    let e2 = e1.drop_first();
    let e3 = e2.drop_first();
    assert(e1 =~= rest_a);
    assert(ea[0] == FireEvent::Done);
    assert(e1[0] == FireEvent::Done);
    assert(run_audits(FireStage::Locked, e1) == run_audits(FireStage::LeaseSet, e2));
    lemma_audit_shape(FireStage::StartLogged, e3);
    assert(run_audits(FireStage::LeaseSet, e2) == seq![AuditStage::ExecStart] + run_audits(FireStage::StartLogged, e3));
    assert(run_audits(FireStage::Fired, ea) == run_audits(FireStage::LeaseSet, e2));
}

/// Throttle: two fires that one fire sequence hands out one after the other are
/// at least its throttle apart, and so strictly increasing.
pub proof fn lemma_throttle(s0: FireSchedule, s1: FireSchedule, s2: FireSchedule, a: i64, b: i64)
    requires
        s0.wf(),
        s1.spec_throttle() == s0.spec_throttle(),
        next_fire_step(s0, s1, Some(a)),
        next_fire_step(s1, s2, Some(b)),
    ensures
        b >= a + s0.spec_throttle(),
        b > a,
{
    s0.lemma_throttle_positive();
}

/// Idempotent replace: calling `add_or_modify` twice with one definition whose
/// window is open writes two `add` entries, the second right after the `delete`
/// of the internal delete-then-recreate (and one more `delete` first if the code
/// was already live), and leaves exactly one live handle for the code: the one of
/// the second call, the first having been cancelled by that delete.
pub proof fn lemma_add_or_modify_twice(
    table: Map<Seq<char>, u128>,
    job: ScheduleJobAddOrModifyReq,
    now1: i64,
    now2: i64,
    uid1: u128,
    uid2: u128,
)
    requires
        !window_closed(job.disable_time, now1),
        !window_closed(job.disable_time, now2),
    ensures
        ({
            let code = job.code@;
            let plan1 = spec_add_or_modify_plan(table.contains_key(code));
            let table1 = table.remove(code).insert(code, uid1);
            let plan2 = spec_add_or_modify_plan(table1.contains_key(code));
            let table2 = table1.remove(code).insert(code, uid2);
            &&& audits_of(plan1) + audits_of(plan2) == (if table.contains_key(code) {
                seq![AuditStage::Delete]
            } else {
                Seq::empty()
            }) + seq![AuditStage::Add, AuditStage::Delete, AuditStage::Add]
            &&& plan2.contains(DirectoryEffect::LocalDelete)
            &&& table2.contains_key(code) && table2[code] == uid2
            &&& table2.remove(code) == table.remove(code)
        }),
{
    let code = job.code@;
    let add = seq![
        DirectoryEffect::Audit(AuditStage::Add),
        DirectoryEffect::StoreUpsert,
        DirectoryEffect::Notify(crate::directory::ChangeKind::Update),
        DirectoryEffect::LocalAdd,
    ];
    lemma_audits_of_concat(spec_delete_plan(), add);
    assert(audits_of(add) =~= seq![AuditStage::Add]) by {
        reveal_with_fuel(audits_of, 5);
    }
    assert(audits_of(spec_delete_plan()) =~= seq![AuditStage::Delete]) by {
        reveal_with_fuel(audits_of, 5);
    }
    let table1 = table.remove(code).insert(code, uid1);
    let plan2 = spec_add_or_modify_plan(true);
    assert(plan2[3] == DirectoryEffect::LocalDelete);
    assert(table1.remove(code).insert(code, uid2).remove(code) =~= table.remove(code));
    if table.contains_key(code) {
        assert(seq![AuditStage::Delete, AuditStage::Add] + seq![AuditStage::Delete, AuditStage::Add]
            =~= seq![AuditStage::Delete] + seq![AuditStage::Add, AuditStage::Delete, AuditStage::Add]);
    } else {
        assert(seq![AuditStage::Add] + seq![AuditStage::Delete, AuditStage::Add]
            =~= Seq::<AuditStage>::empty() + seq![AuditStage::Add, AuditStage::Delete, AuditStage::Add]);
    }
}

proof fn lemma_audits_of_concat(a: Seq<DirectoryEffect>, b: Seq<DirectoryEffect>)
    ensures
        audits_of(a + b) == audits_of(a) + audits_of(b),
    decreases a.len(),
{
    if a.len() == 0 {
        assert(a + b =~= b);
        assert(audits_of(a) + audits_of(b) =~= audits_of(b));
    } else {
        lemma_audits_of_concat(a.drop_first(), b);
        assert((a + b).drop_first() =~= a.drop_first() + b);
        assert((a + b)[0] == a[0]);
        match a[0] {
            DirectoryEffect::Audit(s) => {
                assert(seq![s] + (audits_of(a.drop_first()) + audits_of(b)) =~= (seq![s] + audits_of(a.drop_first()))
                    + audits_of(b));
            },
            _ => {},
        }
    }
}

/// Partial cron tolerance: of a list with an expression that does not parse and
/// one that does, the fire sequence keeps the valid one alone.
pub proof fn lemma_partial_cron(bad: String, good: String)
    requires
        !cron_expr_valid(bad@),
        cron_expr_valid(good@),
    ensures
        valid_exprs(seq![bad, good]) == seq![good@],
{
    let s = seq![bad, good];
    assert(s.drop_last() =~= seq![bad]);
    assert(seq![bad].drop_last() =~= Seq::<String>::empty());
    assert(seq![bad].last() == bad);
    assert(s.last() == good);
    assert(valid_exprs(Seq::<String>::empty()) =~= Seq::<Seq<char>>::empty());
    assert(valid_exprs(seq![bad]) =~= Seq::<Seq<char>>::empty());
    assert(Seq::<Seq<char>>::empty().push(good@) =~= seq![good@]);
}

} // verus!
