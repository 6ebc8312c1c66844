use schedule_core::cron_eval::{earliest, search_start, settle_fire, FireSchedule};
use schedule_core::job::{ScheduleJobAddOrModifyReq, THROTTLE_SECS};
use schedule_core::task_serv::OwnedScheduleTaskServ;

const NOW: i64 = 1_700_000_000;

fn job(code: &str, cron: &[&str], enable: Option<i64>, disable: Option<i64>) -> ScheduleJobAddOrModifyReq {
    ScheduleJobAddOrModifyReq {
        code: code.to_string(),
        cron: cron.iter().map(|c| c.to_string()).collect(),
        callback_url: "http://example/ok".to_string(),
        callback_method: "GET".to_string(),
        callback_headers: vec![],
        callback_body: None,
        enable_time: enable,
        disable_time: disable,
    }
}

#[test]
fn add_twice_keeps_one_handle() {
    let mut serv = OwnedScheduleTaskServ::new();
    let j = job("daily", &["0 0 0 * * *"], None, None);
    let first = serv.add(&j, NOW);
    assert!(first.cancelled.is_none());
    let uid1 = first.placed.as_ref().unwrap().uid;
    assert_eq!(serv.task_uid(&"daily".to_string()), Some(uid1));
    let second = serv.add(&j, NOW);
    assert_eq!(second.cancelled, Some(uid1));
    let uid2 = second.placed.as_ref().unwrap().uid;
    assert_eq!(serv.task_uid(&"daily".to_string()), Some(uid2));
    assert_eq!(serv.task_count(), 1);
}

#[test]
fn past_disable_time_is_never_registered() {
    let mut serv = OwnedScheduleTaskServ::new();
    let j = job("old", &["0 0 0 * * *"], None, Some(NOW - 1));
    let change = serv.add(&j, NOW);
    assert!(change.placed.is_none());
    assert!(!serv.has_task(&"old".to_string()));
    assert_eq!(serv.task_count(), 0);
}

#[test]
fn past_disable_time_still_cancels_the_old_timer() {
    let mut serv = OwnedScheduleTaskServ::new();
    let live = serv.add(&job("j", &["0 0 0 * * *"], None, None), NOW);
    let uid = live.placed.unwrap().uid;
    let change = serv.add(&job("j", &["0 0 0 * * *"], None, Some(NOW - 10)), NOW);
    assert_eq!(change.cancelled, Some(uid));
    assert!(change.placed.is_none());
    assert!(!serv.has_task(&"j".to_string()));
}

#[test]
fn future_disable_time_is_registered() {
    let mut serv = OwnedScheduleTaskServ::new();
    let change = serv.add(&job("soon", &["0 0 0 * * *"], None, Some(NOW + 3600)), NOW);
    assert!(change.placed.is_some());
    assert!(serv.has_task(&"soon".to_string()));
}

#[test]
fn delete_is_idempotent() {
    let mut serv = OwnedScheduleTaskServ::new();
    let uid = serv.add(&job("a", &["0 0 0 * * *"], None, None), NOW).placed.unwrap().uid;
    serv.add(&job("b", &["0 0 0 * * *"], None, None), NOW);
    assert_eq!(serv.delete(&"a".to_string()), Some(uid));
    assert_eq!(serv.delete(&"a".to_string()), None);
    assert!(!serv.has_task(&"a".to_string()));
    assert!(serv.has_task(&"b".to_string()));
    assert_eq!(serv.task_count(), 1);
}

#[test]
fn partial_cron_list_still_registers_and_fires() {
    let mut serv = OwnedScheduleTaskServ::new();
    let j = job("partial", &["not-a-valid-expr", "0 * * * *"], None, None);
    let change = serv.add(&j, NOW);
    assert!(change.placed.is_some());
    assert!(serv.has_task(&"partial".to_string()));
    let exprs = vec!["not-a-valid-expr".to_string(), "0 0 * * * *".to_string()];
    let mut s = FireSchedule::new(&exprs, None, None, THROTTLE_SECS, NOW).unwrap();
    assert_eq!(s.expression_count(), 1);
    let t = s.next_fire(NOW).unwrap();
    assert!(t > NOW && t <= NOW + 3600);
    assert_eq!(t % 60, 0);
}

#[test]
fn no_valid_expression_never_fires() {
    let exprs = vec!["not-a-valid-expr".to_string()];
    let mut s = FireSchedule::new(&exprs, None, None, THROTTLE_SECS, NOW).unwrap();
    assert_eq!(s.expression_count(), 0);
    assert_eq!(s.next_fire(NOW), None);
}

#[test]
fn throttle_spaces_fires() {
    let exprs = vec!["* * * * * *".to_string()];
    let mut s = FireSchedule::new(&exprs, None, None, THROTTLE_SECS, NOW).unwrap();
    let a = s.next_fire(NOW).unwrap();
    let b = s.next_fire(a).unwrap();
    let c = s.next_fire(b).unwrap();
    assert!(b - a >= THROTTLE_SECS);
    assert!(c - b >= THROTTLE_SECS);
    assert_eq!(s.last_fire(), Some(c));
}

#[test]
fn window_bounds_the_fires() {
    let exprs = vec!["* * * * * *".to_string()];
    let mut s = FireSchedule::new(&exprs, Some(NOW + 500), Some(NOW + 530), THROTTLE_SECS, NOW).unwrap();
    let a = s.next_fire(NOW).unwrap();
    assert!(a >= NOW + 500 && a < NOW + 530);
    assert_eq!(s.next_fire(a), None);
    assert_eq!(s.last_fire(), Some(a));
}

#[test]
fn closed_window_gives_no_schedule() {
    let exprs = vec!["* * * * * *".to_string()];
    assert!(FireSchedule::new(&exprs, None, Some(NOW - 1), THROTTLE_SECS, NOW).is_none());
    assert!(FireSchedule::new(&exprs, None, Some(NOW), THROTTLE_SECS, NOW).is_some());
}

#[test]
fn earliest_merges_candidates() {
    assert_eq!(earliest(&vec![]), None);
    assert_eq!(earliest(&vec![None, None]), None);
    assert_eq!(earliest(&vec![Some(30), None, Some(10), Some(20)]), Some(10));
    assert_eq!(earliest(&vec![None, Some(7)]), Some(7));
}

#[test]
fn settle_fire_applies_throttle_and_window() {
    assert_eq!(settle_fire(Some(100), Some(90), 60, None), Some(150));
    assert_eq!(settle_fire(Some(200), Some(90), 60, None), Some(200));
    assert_eq!(settle_fire(Some(100), None, 60, Some(100)), None);
    assert_eq!(settle_fire(Some(100), Some(90), 60, Some(150)), None);
    assert_eq!(settle_fire(None, Some(90), 60, None), None);
    assert_eq!(settle_fire(Some(5), Some(i64::MAX - 10), 60, None), None);
}

#[test]
fn search_start_takes_the_latest_bound() {
    assert_eq!(search_start(100, None, None, 60), Some(100));
    assert_eq!(search_start(100, Some(500), None, 60), Some(500));
    assert_eq!(search_start(100, Some(50), None, 60), Some(100));
    assert_eq!(search_start(100, Some(50), Some(90), 60), Some(150));
    assert_eq!(search_start(1000, Some(50), Some(90), 60), Some(1000));
    assert_eq!(search_start(0, None, Some(i64::MAX - 1), 60), None);
}
