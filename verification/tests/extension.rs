use dark_pattern_blocker::extension::{daemon_to_extension, extension_to_client, ExtensionMessage, ExtensionResponse};
use dark_pattern_blocker::model::ActivePolicy;
use dark_pattern_blocker::protocol::{ClientMessage, DaemonMessage};

#[test]
fn extension_requests_convert_one_to_one() {
    assert!(matches!(extension_to_client(ExtensionMessage::Ping), ClientMessage::Ping));
    assert!(matches!(
        extension_to_client(ExtensionMessage::Start { duration: 90 }),
        ClientMessage::Start { duration: 90 }
    ));
    match extension_to_client(ExtensionMessage::GetActivePolicy {
        current_day: "sun".to_string(),
        current_time: "23:59".to_string(),
    }) {
        ClientMessage::GetActivePolicy { current_day, current_time } => {
            assert_eq!(current_day, "sun");
            assert_eq!(current_time, "23:59");
        }
        other => panic!("unexpected {:?}", other),
    }
}

#[test]
fn statuses_become_one_response() {
    match daemon_to_extension(DaemonMessage::StatusWithTime { time_left: 30, sites: vec!["a".to_string()] }) {
        ExtensionResponse::Status { active, time_left, sites } => {
            assert!(active);
            assert_eq!(time_left, Some(30));
            assert_eq!(sites, vec!["a".to_string()]);
        }
        other => panic!("unexpected {:?}", other),
    }
    match daemon_to_extension(DaemonMessage::StatusIdle { sites: vec![] }) {
        ExtensionResponse::Status { active, time_left, .. } => {
            assert!(!active);
            assert_eq!(time_left, None);
        }
        other => panic!("unexpected {:?}", other),
    }
}

#[test]
fn pushes_look_like_policy_answers() {
    let p = ActivePolicy { blocked_websites: vec!["x.com".to_string()], blocked_apps: vec![], dom_rules: vec![] };
    match daemon_to_extension(DaemonMessage::PolicyChanged(p)) {
        ExtensionResponse::ActivePolicy { policy } => assert_eq!(policy.blocked_websites, vec!["x.com".to_string()]),
        other => panic!("unexpected {:?}", other),
    }
    assert!(matches!(daemon_to_extension(DaemonMessage::Subscribed), ExtensionResponse::Pong));
    match daemon_to_extension(DaemonMessage::Error("boom".to_string())) {
        ExtensionResponse::Error { message } => assert_eq!(message, "boom"),
        other => panic!("unexpected {:?}", other),
    }
}
