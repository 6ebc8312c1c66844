use schedule_core::directory::{
    add_or_modify_plan, change_marker_key, delete_plan, job_code_of_key, job_kv_key, pair_task_logs,
    task_log_page_size, task_page_counts, ChangeKind, DirectoryEffect, TaskLogRecord,
};
use schedule_core::job::{AuditStage, ScheduleConfig, ScheduleJobAddOrModifyReq};
use schedule_core::lock::LockBoard;
use schedule_core::pipeline::{lock_event, next_stage, run_fire, stage_action, FireAction, FireEvent, FireStage};
use schedule_core::sync::{marker_code, BootstrapAction, BootstrapEvent, BootstrapState};
use schedule_core::task_serv::OwnedScheduleTaskServ;

const NOW: i64 = 1_700_000_000;

fn config() -> ScheduleConfig {
    ScheduleConfig {
        cache_key_job_changed_info: "schedule:job:changed:".to_string(),
        cache_key_job_changed_timer_sec: 30,
        distributed_lock_key_prefix: "schedule:job:lock:".to_string(),
        distributed_lock_expire_sec: 1,
    }
}

fn job(code: &str, cron: &[&str], disable: Option<i64>) -> ScheduleJobAddOrModifyReq {
    ScheduleJobAddOrModifyReq {
        code: code.to_string(),
        cron: cron.iter().map(|c| c.to_string()).collect(),
        callback_url: "http://example/ok".to_string(),
        callback_method: "GET".to_string(),
        callback_headers: vec![("x-token".to_string(), "t".to_string())],
        callback_body: Some("{}".to_string()),
        enable_time: None,
        disable_time: disable,
    }
}

fn audits(plan: &[DirectoryEffect]) -> Vec<AuditStage> {
    plan.iter()
        .filter_map(|e| match e {
            DirectoryEffect::Audit(s) => Some(*s),
            _ => None,
        })
        .collect()
}

/// Runs the local steps of a plan against the table, as the directory service does.
fn run_local(serv: &mut OwnedScheduleTaskServ, plan: &[DirectoryEffect], j: &ScheduleJobAddOrModifyReq) {
    for e in plan {
        match e {
            DirectoryEffect::LocalAdd => {
                serv.add(j, NOW);
            }
            DirectoryEffect::LocalDelete => {
                serv.delete(&j.code);
            }
            _ => {}
        }
    }
}

#[test]
fn add_or_modify_twice_writes_add_delete_add() {
    let mut serv = OwnedScheduleTaskServ::new();
    let j = job("nightly", &["0 0 3 * * *"], None);
    let first_plan = add_or_modify_plan(&serv, &j.code);
    assert_eq!(
        first_plan,
        vec![
            DirectoryEffect::Audit(AuditStage::Add),
            DirectoryEffect::StoreUpsert,
            DirectoryEffect::Notify(ChangeKind::Update),
            DirectoryEffect::LocalAdd,
        ]
    );
    run_local(&mut serv, &first_plan, &j);
    let second_plan = add_or_modify_plan(&serv, &j.code);
    run_local(&mut serv, &second_plan, &j);
    let mut all = audits(&first_plan);
    all.extend(audits(&second_plan));
    assert_eq!(all, vec![AuditStage::Add, AuditStage::Delete, AuditStage::Add]);
    assert_eq!(serv.task_count(), 1);
    assert!(serv.has_task(&j.code));
}

#[test]
fn delete_plan_steps() {
    assert_eq!(
        delete_plan(),
        vec![
            DirectoryEffect::Audit(AuditStage::Delete),
            DirectoryEffect::StoreDelete,
            DirectoryEffect::Notify(ChangeKind::Delete),
            DirectoryEffect::LocalDelete,
        ]
    );
}

#[test]
fn store_and_marker_keys() {
    let cfg = config();
    let code = "ping".to_string();
    assert_eq!(job_kv_key(&code), "__schedule_job__ping");
    assert_eq!(change_marker_key(&code, &cfg), "schedule:job:changed:ping");
    assert_eq!(OwnedScheduleTaskServ::gen_distributed_lock_key(&code, &cfg), "schedule:job:lock:ping");
    assert_eq!(job_code_of_key(&"__schedule_job__ping".to_string()), "ping");
    assert_eq!(marker_code(&"schedule:job:changed:ping".to_string(), &cfg.cache_key_job_changed_info), "ping");
    assert_eq!(marker_code(&"other".to_string(), &cfg.cache_key_job_changed_info), "other");
    assert_eq!(ChangeKind::Update.as_str(), "update");
    assert_eq!(ChangeKind::Delete.as_str(), "delete");
}

#[test]
fn audit_stage_names() {
    assert_eq!(AuditStage::Add.as_str(), "add");
    assert_eq!(AuditStage::Delete.as_str(), "delete");
    assert_eq!(AuditStage::ExecStart.as_str(), "exec-start");
    assert_eq!(AuditStage::ExecEnd.as_str(), "exec-end");
    assert_eq!(AuditStage::ExecFail.as_str(), "exec-fail");
    assert_eq!(AuditStage::from_name(&"exec-end".to_string()), Some(AuditStage::ExecEnd));
    assert_eq!(AuditStage::from_name(&"add".to_string()), Some(AuditStage::Add));
    assert_eq!(AuditStage::from_name(&"exec_end".to_string()), None);
}

#[test]
fn successful_webhook_pairs_start_and_end() {
    let (stage, written) = run_fire(&vec![FireEvent::Done; 5]);
    assert_eq!(stage, FireStage::EndLogged);
    assert_eq!(written, vec![AuditStage::ExecStart, AuditStage::ExecEnd]);
}

#[test]
fn failing_webhook_pairs_start_and_fail() {
    let events = vec![FireEvent::Done, FireEvent::Done, FireEvent::Done, FireEvent::Failed, FireEvent::Done];
    let (stage, written) = run_fire(&events);
    assert_eq!(stage, FireStage::FailLogged);
    assert_eq!(written, vec![AuditStage::ExecStart, AuditStage::ExecFail]);
}

#[test]
fn failures_before_the_webhook_abort() {
    let (stage, written) = run_fire(&vec![FireEvent::Failed]);
    assert_eq!(stage, FireStage::Aborted);
    assert!(written.is_empty());
    let (stage, written) = run_fire(&vec![FireEvent::Done, FireEvent::Failed]);
    assert_eq!(stage, FireStage::Aborted);
    assert!(written.is_empty());
    let (stage, written) = run_fire(&vec![FireEvent::Done, FireEvent::Done, FireEvent::Failed, FireEvent::Done]);
    assert_eq!(stage, FireStage::Aborted);
    assert!(written.is_empty());
    let (stage, written) = run_fire(&vec![FireEvent::Done, FireEvent::Done, FireEvent::Done, FireEvent::Done, FireEvent::Failed]);
    assert_eq!(stage, FireStage::EndLogged);
    assert_eq!(written, vec![AuditStage::ExecStart]);
}

#[test]
fn stage_actions_in_order() {
    let mut s = FireStage::Fired;
    let mut actions = vec![];
    while let Some(a) = stage_action(s) {
        actions.push(a);
        s = next_stage(s, FireEvent::Done);
    }
    assert_eq!(
        actions,
        vec![
            FireAction::AcquireLock,
            FireAction::SetLease,
            FireAction::LogExecStart,
            FireAction::CallWebhook,
            FireAction::LogExecEnd,
        ]
    );
    assert_eq!(next_stage(FireStage::Fired, FireEvent::Refused), FireStage::Skipped);
    assert_eq!(next_stage(FireStage::Skipped, FireEvent::Done), FireStage::Skipped);
}

#[test]
fn two_nodes_one_execution() {
    let mut board = LockBoard::new();
    let key = OwnedScheduleTaskServ::gen_distributed_lock_key(&"ping".to_string(), &config());
    let mut starts = 0;
    for _node in 0..2 {
        let granted = board.set_nx(&key, NOW);
        let mut events = vec![lock_event(granted)];
        if granted {
            assert!(board.expire(&key, NOW, 1));
        }
        events.extend([FireEvent::Done; 4]);
        let (_stage, written) = run_fire(&events);
        starts += written.iter().filter(|a| **a == AuditStage::ExecStart).count();
    }
    assert_eq!(starts, 1);
}

#[test]
fn lease_expiry_frees_the_lock() {
    let mut board = LockBoard::new();
    let key = "lock:a".to_string();
    assert!(!board.expire(&key, NOW, 5));
    assert!(board.set_nx(&key, NOW));
    assert!(board.is_held(&key, NOW + 1000));
    assert!(board.expire(&key, NOW, 5));
    assert!(board.is_held(&key, NOW + 4));
    assert!(!board.set_nx(&key, NOW + 4));
    assert!(!board.is_held(&key, NOW + 5));
    assert!(board.set_nx(&key, NOW + 5));
}

#[test]
fn delta_sync_adds_a_job_found_in_the_store() {
    let mut serv = OwnedScheduleTaskServ::new();
    let cfg = config();
    let code = marker_code(&"schedule:job:changed:fresh".to_string(), &cfg.cache_key_job_changed_info);
    let change = serv.apply_fetched(&code, &Ok(Some(job("fresh", &["0 0 0 * * *"], None))), NOW);
    assert!(change.placed.is_some());
    assert!(serv.has_task(&"fresh".to_string()));
}

#[test]
fn delta_sync_removes_a_job_gone_from_the_store() {
    let mut serv = OwnedScheduleTaskServ::new();
    let uid = serv.add(&job("gone", &["0 0 0 * * *"], None), NOW).placed.unwrap().uid;
    let change = serv.apply_fetched(&"gone".to_string(), &Ok(None), NOW);
    assert_eq!(change.cancelled, Some(uid));
    assert!(!serv.has_task(&"gone".to_string()));
}

#[test]
fn delta_sync_keeps_the_table_on_fetch_error() {
    let mut serv = OwnedScheduleTaskServ::new();
    serv.add(&job("kept", &["0 0 0 * * *"], None), NOW);
    let change = serv.apply_fetched(&"kept".to_string(), &Err("timeout".to_string()), NOW);
    assert!(change.cancelled.is_none() && change.placed.is_none());
    assert!(serv.has_task(&"kept".to_string()));
}

#[test]
fn bootstrap_gives_up_after_five_failures() {
    let mut st = BootstrapState::new();
    let (next, action) = st.step(BootstrapEvent::WebNotReady);
    assert_eq!(action, BootstrapAction::Wait);
    st = next;
    for i in 1..5u32 {
        let (next, action) = st.step(BootstrapEvent::FetchFailed);
        assert_eq!(action, BootstrapAction::Wait);
        assert_eq!(next.failures, i);
        st = next;
    }
    let (next, action) = st.step(BootstrapEvent::FetchFailed);
    assert_eq!(action, BootstrapAction::GiveUp);
    assert!(next.finished);
    assert_eq!(next.step(BootstrapEvent::Fetched).1, BootstrapAction::Stopped);
}

#[test]
fn bootstrap_installs_on_first_success() {
    let st = BootstrapState::new();
    let (st, _) = st.step(BootstrapEvent::FetchFailed);
    let (st, action) = st.step(BootstrapEvent::Fetched);
    assert_eq!(action, BootstrapAction::InstallAll);
    assert!(st.finished);
    assert_eq!(st.failures, 1);
}

fn record(ts: i64, stage: AuditStage, content: &str) -> TaskLogRecord {
    TaskLogRecord { ts, stage, content: content.to_string() }
}

#[test]
fn task_history_pairs_by_position() {
    let logs = vec![
        record(10, AuditStage::ExecStart, "schedule task ping exec start"),
        record(11, AuditStage::ExecEnd, "ok"),
        record(70, AuditStage::ExecStart, "schedule task ping exec start"),
        record(71, AuditStage::ExecFail, "connection refused"),
        record(130, AuditStage::ExecStart, "schedule task ping exec start"),
    ];
    let tasks = pair_task_logs(&logs);
    assert_eq!(tasks.len(), 3);
    assert_eq!((tasks[0].start, tasks[0].end), (Some(10), Some(11)));
    assert!(tasks[0].err_msg.is_none());
    assert_eq!((tasks[1].start, tasks[1].end), (Some(70), Some(71)));
    assert_eq!(tasks[1].err_msg.as_deref(), Some("connection refused"));
    assert_eq!((tasks[2].start, tasks[2].end), (Some(130), None));
    assert!(tasks[2].err_msg.is_none());
    assert!(pair_task_logs(&vec![]).is_empty());
    assert_eq!(task_log_page_size(u16::MAX), 131070);
    assert_eq!(task_page_counts(20, 7), (10, 3));
}

#[test]
fn ping_end_to_end() {
    let mut serv = OwnedScheduleTaskServ::new();
    let ping = ScheduleJobAddOrModifyReq {
        code: "ping".to_string(),
        cron: vec!["* * * * *".to_string()],
        callback_url: "http://example/ok".to_string(),
        callback_method: "GET".to_string(),
        callback_headers: vec![],
        callback_body: None,
        enable_time: None,
        disable_time: None,
    };
    let plan = add_or_modify_plan(&serv, &ping.code);
    run_local(&mut serv, &plan, &ping);
    assert!(serv.has_task(&"ping".to_string()));
    // One tick: the lock is free and the webhook answers 200.
    let mut board = LockBoard::new();
    let key = OwnedScheduleTaskServ::gen_distributed_lock_key(&ping.code, &config());
    let granted = board.set_nx(&key, NOW);
    let mut events = vec![lock_event(granted)];
    events.extend([FireEvent::Done; 4]);
    let (_stage, written) = run_fire(&events);
    let logs: Vec<TaskLogRecord> = written
        .iter()
        .enumerate()
        .map(|(i, s)| record(NOW + i as i64, *s, if *s == AuditStage::ExecEnd { "200 OK" } else { "start" }))
        .collect();
    let tasks = pair_task_logs(&logs);
    assert_eq!(tasks.len(), 1);
    assert!(tasks[0].start.is_some());
    assert!(tasks[0].end.is_some());
    assert!(tasks[0].err_msg.is_none());
}
