use dark_pattern_blocker::gui::{answer_or_error, schedule_days, schedule_request};
use dark_pattern_blocker::protocol::{ClientMessage, DaemonMessage};

#[test]
fn days_are_trimmed_lowercased_and_kept_when_not_empty() {
    assert_eq!(schedule_days("Mon, tue,,WED "), vec!["mon", "tue", "wed"]);
    assert_eq!(schedule_days(""), Vec::<String>::new());
    assert_eq!(schedule_days(" , ,"), Vec::<String>::new());
    assert_eq!(schedule_days("SAT"), vec!["sat"]);
}

#[test]
fn schedule_request_fills_the_schedule() {
    match schedule_request("p1".to_string(), "mon,fri", "09:00".to_string(), "17:00".to_string()) {
        ClientMessage::CreateSchedule { schedule } => {
            assert_eq!(schedule.id, 0);
            assert_eq!(schedule.profile_id, "p1");
            assert!(schedule.schedule_type.is_none());
            assert_eq!(schedule.days, Some(vec!["mon".to_string(), "fri".to_string()]));
            assert_eq!(schedule.start_time.as_deref(), Some("09:00"));
            assert_eq!(schedule.end_time.as_deref(), Some("17:00"));
            assert!(schedule.timezone.is_none());
        }
        other => panic!("unexpected {:?}", other),
    }
}

#[test]
fn daemon_errors_become_errors() {
    assert_eq!(answer_or_error(DaemonMessage::Error("nope".to_string())), Err("nope".to_string()));
    assert_eq!(answer_or_error(DaemonMessage::Pong), Ok(DaemonMessage::Pong));
}
