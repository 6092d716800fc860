use dark_pattern_blocker::fs_error::FsError;
use dark_pattern_blocker::daemon::{Command, DaemonError};
use dark_pattern_blocker::dispatch::{dispatch, route, session_answer, status_answer, store_answer, Route};
use dark_pattern_blocker::model::{DbError, Profile};
use dark_pattern_blocker::protocol::{is_mutation, ClientMessage, DaemonMessage};
use dark_pattern_blocker::session::{ActiveSession, IdleSession, Session};
use dark_pattern_blocker::store::{outcome_fits_request, StoreReply, StoreRequest};

#[test]
fn ping_is_answered_at_once() {
    assert!(matches!(route(ClientMessage::Ping), Route::Answer(DaemonMessage::Pong)));
    assert!(matches!(route(ClientMessage::SubscribePolicyChanges), Route::Subscribe));
}

#[test]
fn session_requests_go_to_the_actor() {
    assert!(matches!(
        route(ClientMessage::Start { duration: 1500 }),
        Route::Actor(Command::Start { duration_secs: 1500 })
    ));
    assert!(matches!(route(ClientMessage::Stop), Route::Actor(Command::Stop)));
    assert!(matches!(route(ClientMessage::GetStatus), Route::Actor(Command::GetStatus)));
}

#[test]
fn record_requests_go_to_the_store() {
    match route(ClientMessage::GetActivePolicy {
        current_day: "mon".to_string(),
        current_time: "10:00".to_string(),
    }) {
        Route::Store(StoreRequest::GetActivePolicy { current_day, current_time }) => {
            assert_eq!(current_day, "mon");
            assert_eq!(current_time, "10:00");
        }
        other => panic!("expected a store request, got {:?}", other),
    }
    assert!(matches!(
        route(ClientMessage::DeleteDomRule { id: 7 }),
        Route::Store(StoreRequest::DeleteDomRule { id: 7 })
    ));
}

#[test]
fn store_answers() {
    let created = store_answer(
        &StoreRequest::CreateProfile { name: "Work Focus".to_string() },
        Ok(StoreReply::Profile(Profile { id: "1".to_string(), name: "Work Focus".to_string(), enabled: true })),
    );
    match created {
        Ok(DaemonMessage::Profile(p)) => {
            assert_eq!(p.name, "Work Focus");
            assert!(p.enabled);
        }
        other => panic!("expected a profile, got {:?}", other),
    }

    let missing = store_answer(&StoreRequest::GetProfile { id: "9".to_string() }, Ok(StoreReply::MaybeProfile(None)));
    assert!(matches!(missing, Ok(DaemonMessage::Error(ref m)) if m == "Profile not found"));
    let missing = store_answer(&StoreRequest::GetSchedule { id: 9 }, Ok(StoreReply::MaybeSchedule(None)));
    assert!(matches!(missing, Ok(DaemonMessage::Error(ref m)) if m == "Schedule not found"));
    let missing = store_answer(&StoreRequest::GetBlockedApp { id: 9 }, Ok(StoreReply::MaybeApp(None)));
    assert!(matches!(missing, Ok(DaemonMessage::Error(ref m)) if m == "Blocked app not found"));
    let missing = store_answer(&StoreRequest::GetDomRule { id: 9 }, Ok(StoreReply::MaybeRule(None)));
    assert!(matches!(missing, Ok(DaemonMessage::Error(ref m)) if m == "DOM rule not found"));

    let done = store_answer(&StoreRequest::DeleteSchedule { id: 3 }, Ok(StoreReply::Done));
    assert!(matches!(done, Ok(DaemonMessage::ScheduleDeleted)));
    let added = store_answer(&StoreRequest::AddGlobalWebsite { domain: "x".to_string() }, Ok(StoreReply::Flag(false)));
    assert!(matches!(added, Ok(DaemonMessage::GlobalWebsiteAdded(false))));
    let removed = store_answer(&StoreRequest::RemoveGlobalWebsite { domain: "x".to_string() }, Ok(StoreReply::Flag(true)));
    assert!(matches!(removed, Ok(DaemonMessage::GlobalWebsiteRemoved(true))));

    let failed = store_answer(&StoreRequest::ListProfiles, Err(DbError::Sqlite("no table".to_string())));
    assert!(matches!(failed, Err(DaemonError::Database(DbError::Sqlite(_)))));
}

#[test]
fn failures_become_error_messages() {
    let failed = store_answer(&StoreRequest::ListProfiles, Err(DbError::Sqlite("no table".to_string())));
    match dispatch(failed) {
        DaemonMessage::Error(m) => assert_eq!(m, "Database error: Database error: no table"),
        other => panic!("expected an error message, got {:?}", other),
    }
    let refused = Err(DaemonError::Session("Cannot stop active session. Stay focused!".to_string()));
    match dispatch(session_answer(&ClientMessage::Stop, refused)) {
        DaemonMessage::Error(m) => assert!(m.contains("Cannot stop")),
        other => panic!("expected an error message, got {:?}", other),
    }
}

#[test]
fn session_answers() {
    assert!(matches!(
        session_answer(&ClientMessage::Start { duration: 60 }, Ok(())),
        Ok(DaemonMessage::Started { duration: 60 })
    ));
    assert!(matches!(session_answer(&ClientMessage::Stop, Ok(())), Ok(DaemonMessage::Stopped)));
}

#[test]
fn status_answers() {
    let sites = vec!["reddit.com".to_string()];
    match status_answer(Session::Idle(IdleSession::new()), 0, Ok(sites.clone())) {
        Ok(DaemonMessage::StatusIdle { sites: s }) => assert_eq!(s, sites),
        other => panic!("expected idle, got {:?}", other),
    }
    let running = Session::Active(ActiveSession::new_for_test(120, 0));
    match status_answer(running, 30_500, Ok(sites.clone())) {
        Ok(DaemonMessage::StatusWithTime { time_left, sites: s }) => {
            assert_eq!(time_left, 89);
            assert_eq!(s, sites);
        }
        other => panic!("expected a running status, got {:?}", other),
    }
    assert!(matches!(status_answer(running, 0, Err(DbError::ActorGone)), Err(DaemonError::Database(_))));
}

#[test]
fn mutations_are_recognised() {
    assert!(is_mutation(&DaemonMessage::ProfileDeleted));
    assert!(is_mutation(&DaemonMessage::GlobalWebsiteAdded(false)));
    assert!(is_mutation(&DaemonMessage::ScheduleUpdated));
    assert!(!is_mutation(&DaemonMessage::ProfileList(vec![])));
    assert!(!is_mutation(&DaemonMessage::Pong));
    assert!(!is_mutation(&DaemonMessage::Error("x".to_string())));
}

#[test]
fn store_outcomes_fit_their_requests() {
    assert!(outcome_fits_request(&StoreRequest::ListProfiles, &Ok(StoreReply::Profiles(vec![]))));
    assert!(!outcome_fits_request(&StoreRequest::ListProfiles, &Ok(StoreReply::Done)));
    assert!(outcome_fits_request(&StoreRequest::ListProfiles, &Err(DbError::ActorGone)));
    assert!(outcome_fits_request(&StoreRequest::DeleteDomRule { id: 1 }, &Ok(StoreReply::Done)));
}

#[test]
fn file_error_becomes_error_message_with_path() {
    let e = DaemonError::Fs(FsError::NotFound { path: std::path::PathBuf::from("/etc/hosts") });
    match dispatch(Err(e)) {
        DaemonMessage::Error(t) => assert_eq!(t, "File system error: File not found: /etc/hosts"),
        other => panic!("expected an error message, got {:?}", other),
    }
}
