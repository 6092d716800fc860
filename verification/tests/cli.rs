use dark_pattern_blocker::cli::{client_request, show_response, CliCommand};
use dark_pattern_blocker::model::{ActivePolicy, DomRule, ManualSession, Profile, Schedule, ScheduleType};
use dark_pattern_blocker::protocol::{ClientMessage, DaemonMessage};

#[test]
fn start_reads_its_duration() {
    match client_request(CliCommand::Start { duration: "1h30m".to_string() }) {
        Ok(ClientMessage::Start { duration }) => assert_eq!(duration, 5400),
        other => panic!("expected a start request, got {:?}", other),
    }
}

#[test]
fn start_with_bad_duration_is_refused() {
    match client_request(CliCommand::Start { duration: "soon".to_string() }) {
        Err(m) => assert_eq!(m, "Invalid duration 'soon'. Use formats like 25m, 1h30m, 90s"),
        other => panic!("expected a complaint, got {:?}", other),
    }
}

#[test]
fn commands_become_requests() {
    assert!(matches!(client_request(CliCommand::Status), Ok(ClientMessage::GetStatus)));
    match client_request(CliCommand::AddBlockedApp {
        profile_id: "p".to_string(),
        app_identifier: "slack".to_string(),
    }) {
        Ok(ClientMessage::CreateBlockedApp { app }) => {
            assert_eq!(app.id, 0);
            assert_eq!(app.profile_id, "p");
            assert_eq!(app.app_identifier, "slack");
        }
        other => panic!("expected a request, got {:?}", other),
    }
    assert!(matches!(
        client_request(CliCommand::DeleteSchedule { id: 4 }),
        Ok(ClientMessage::DeleteSchedule { id: 4 })
    ));
}

#[test]
fn shows_session_answers() {
    let s = show_response(&DaemonMessage::Started { duration: 5400 });
    assert_eq!(s.text, "Session started: 1h30m\n");
    assert!(!s.is_error);
    assert_eq!(show_response(&DaemonMessage::Stopped).text, "Session stopped\n");
    assert_eq!(show_response(&DaemonMessage::StatusIdle { sites: vec![] }).text, "Idle\n");
    let s = show_response(&DaemonMessage::StatusWithTime {
        time_left: 61,
        sites: vec!["a.com".to_string(), "b.com".to_string()],
    });
    assert_eq!(s.text, "Active: 1m1s remaining\nBlocked websites:\n  a.com\n  b.com\n");
}

#[test]
fn shows_errors_on_standard_error() {
    let s = show_response(&DaemonMessage::Error("Profile not found".to_string()));
    assert!(s.is_error);
    assert_eq!(s.text, "Profile not found\n");
}

#[test]
fn shows_records() {
    let p = Profile { id: "x1".to_string(), name: "Work".to_string(), enabled: true };
    assert_eq!(show_response(&DaemonMessage::Profile(p.clone())).text, "ID: x1\nName: Work\nEnabled: true\n");
    assert_eq!(
        show_response(&DaemonMessage::ProfileList(vec![p.clone(), p])).text,
        "ID: x1\nName: Work\nEnabled: true\n\nID: x1\nName: Work\nEnabled: true\n\n"
    );
    assert_eq!(show_response(&DaemonMessage::ProfileList(vec![])).text, "No profiles\n");
    let s = Schedule {
        id: -3,
        profile_id: "x1".to_string(),
        schedule_type: Some(ScheduleType::OneTime),
        days: None,
        start_time: None,
        end_time: None,
        timezone: None,
        one_time_date: None,
    };
    assert_eq!(show_response(&DaemonMessage::Schedule(s)).text, "ID: -3\nProfile ID: x1\nType: Some(OneTime)\n");
    let m = ManualSession {
        id: 2,
        started_at: "2024-01-01T10:00:00".to_string(),
        duration_secs: 1500,
        ended_at: None,
        policy_json: None,
    };
    assert_eq!(
        show_response(&DaemonMessage::ManualSession(Some(m))).text,
        "ID: 2\nStarted At: 2024-01-01T10:00:00\nDuration: 1500\n"
    );
    assert_eq!(show_response(&DaemonMessage::ManualSession(None)).text, "No active manual session\n");
}

#[test]
fn shows_global_website_answers() {
    assert_eq!(show_response(&DaemonMessage::GlobalWebsiteAdded(true)).text, "Website added to global blocklist\n");
    assert_eq!(show_response(&DaemonMessage::GlobalWebsiteAdded(false)).text, "Website already in global blocklist\n");
    assert_eq!(show_response(&DaemonMessage::GlobalWebsiteRemoved(false)).text, "Website not in global blocklist\n");
    assert_eq!(show_response(&DaemonMessage::GlobalWebsiteList(vec![])).text, "No global blocked websites\n");
    assert_eq!(
        show_response(&DaemonMessage::GlobalWebsiteList(vec!["reddit.com".to_string()])).text,
        "  reddit.com\n"
    );
}

#[test]
fn shows_active_policy() {
    let policy = ActivePolicy {
        blocked_websites: vec!["reddit.com".to_string()],
        blocked_apps: vec!["slack".to_string()],
        dom_rules: vec![DomRule {
            id: 1,
            profile_id: "p".to_string(),
            site: "youtube".to_string(),
            toggle: "hideShorts".to_string(),
        }],
    };
    assert_eq!(
        show_response(&DaemonMessage::ActivePolicy(policy)).text,
        "Active Policy:\n  Blocked Websites:\n    reddit.com\n  Blocked Apps:\n    slack\n  DOM Rules:\n    youtube: hideShorts\n"
    );
}
