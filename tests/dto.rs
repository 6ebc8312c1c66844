use schedule_core::event_dto::{format_code, EventTopicConfig};
use schedule_core::iam_set::{IamSetKind, IamSetServ};

#[test]
fn topic_code_format() {
    assert_eq!(format_code(&"orders".to_string()), "event/topic/orders");
}

#[test]
fn topic_config_to_request_defaults() {
    let cfg = EventTopicConfig {
        topic_code: "orders".to_string(),
        blocking: true,
        overflow_policy: None,
        overflow_size: -3,
        check_auth: true,
    };
    let req = cfg.into_rbum_req();
    assert_eq!(req.code, "event/topic/orders");
    assert_eq!(req.name, "event/topic/orders");
    assert_eq!(req.topic_code, "orders");
    assert_eq!(req.overflow_policy, "RejectNew");
    assert_eq!(req.overflow_size, 1);
    assert!(req.blocking && req.check_auth);
}

#[test]
fn topic_config_to_request_keeps_values() {
    let cfg = EventTopicConfig {
        topic_code: "t".to_string(),
        blocking: false,
        overflow_policy: Some("DropOld".to_string()),
        overflow_size: 500,
        check_auth: false,
    };
    let req = cfg.into_rbum_req();
    assert_eq!(req.overflow_policy, "DropOld");
    assert_eq!(req.overflow_size, 500);
    assert!(!req.blocking && !req.check_auth);
}

#[test]
fn default_set_codes() {
    assert_eq!(IamSetServ::get_default_org_code_by_system(), ":org");
    assert_eq!(IamSetServ::get_default_code(&IamSetKind::Res, &"t1/a2".to_string()), "t1/a2:res");
    assert_eq!(IamSetServ::get_default_code(&IamSetKind::Apps, &"t1".to_string()), "t1:apps");
}
