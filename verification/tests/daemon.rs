use std::path::PathBuf;

use dark_pattern_blocker::daemon::{
    already_running, hosts_on_exit, recorded_pid, policies_equal, Action, Command, DaemonError, DaemonState, Event, Pending,
    Reply, Step,
};
use dark_pattern_blocker::dispatch::policy_push;
use dark_pattern_blocker::fs_error::FsError;
use dark_pattern_blocker::host::{add_blocked_hosts, MARKER_START};
use dark_pattern_blocker::model::{ActivePolicy, DbError, DomRule};
use dark_pattern_blocker::protocol::DaemonMessage;
use dark_pattern_blocker::session::Session;
use dark_pattern_blocker::store::{StoreReply, StoreRequest};

fn policy(sites: &[&str]) -> ActivePolicy {
    ActivePolicy {
        blocked_websites: sites.iter().map(|s| s.to_string()).collect(),
        blocked_apps: vec![],
        dom_rules: vec![],
    }
}

/// A started daemon whose first policy load found `initial`.
fn started_daemon(initial: ActivePolicy) -> DaemonState {
    let mut d = DaemonState::new();
    let first = d.begin();
    assert!(matches!(first.action, Action::LoadPolicy));
    assert!(matches!(first.publish_session, Some(Session::Idle(_))));
    let st = d.step(Event::PolicyLoaded(Ok(initial)), 0);
    assert!(matches!(st.action, Action::Wait));
    d
}

fn command(d: &mut DaemonState, c: Command, now_ms: u64) -> Step {
    d.step(Event::Command(c), now_ms)
}

/// Starts a session of `secs` at `now_ms` with `sites` in force, and
/// returns the sites written into the hosts file.
fn start_with(d: &mut DaemonState, secs: u64, sites: &[&str], now_ms: u64) -> Vec<String> {
    let st = command(d, Command::Start { duration_secs: secs }, now_ms);
    assert!(matches!(st.action, Action::LoadPolicy));
    let st = d.step(Event::PolicyLoaded(Ok(policy(sites))), now_ms);
    let written = match st.action {
        Action::AddBlocks(w) => w,
        other => panic!("expected AddBlocks, got {:?}", other),
    };
    let st = d.step(Event::HostsWritten(Ok(())), now_ms);
    assert!(matches!(st.reply, Some(Reply::Unit(Ok(())))));
    written
}

fn status(d: &mut DaemonState, now_ms: u64) -> Session {
    match command(d, Command::GetStatus, now_ms).reply {
        Some(Reply::Status(s)) => s,
        other => panic!("expected a status, got {:?}", other),
    }
}

#[test]
fn initial_state_is_idle() {
    let mut d = started_daemon(policy(&[]));
    assert!(!status(&mut d, 10).is_active());
}

#[test]
fn start_session_activates_and_adds_blocks() {
    let mut d = started_daemon(policy(&[]));
    let written = start_with(&mut d, 60, &["example.com", "distraction.net"], 1_000);

    let s = status(&mut d, 2_000);
    assert!(s.is_active());
    assert!(s.remaining_secs(2_000) > 50);

    let content = add_blocked_hosts("", &written);
    assert!(content.contains("example.com"));
    assert!(content.contains("distraction.net"));
}

#[test]
fn cannot_start_session_twice() {
    let mut d = started_daemon(policy(&[]));
    start_with(&mut d, 60, &["example.com"], 0);
    let st = command(&mut d, Command::Start { duration_secs: 30 }, 1_000);
    match st.reply {
        Some(Reply::Unit(Err(e))) => assert!(e.message().contains("already active")),
        other => panic!("expected a refusal, got {:?}", other),
    }
    assert!(matches!(st.action, Action::Wait));
}

#[test]
fn cold_turkey_stop_rejected() {
    let mut d = started_daemon(policy(&[]));
    start_with(&mut d, 60, &["example.com"], 0);
    let st = command(&mut d, Command::Stop, 5_000);
    match st.reply {
        Some(Reply::Unit(Err(e))) => {
            assert!(e.message().contains("Cannot stop"));
            assert_eq!(e.message(), "Session error: Cannot stop active session. Stay focused!");
        }
        other => panic!("expected a refusal, got {:?}", other),
    }
    assert!(status(&mut d, 5_000).is_active());
}

#[test]
fn cold_turkey_shutdown_blocked() {
    let mut d = started_daemon(policy(&[]));
    start_with(&mut d, 60, &["example.com"], 0);
    let st = command(&mut d, Command::Shutdown { force: false }, 10_500);
    match st.reply {
        Some(Reply::Unit(Err(DaemonError::ShutdownBlocked(n)))) => assert_eq!(n, 49),
        other => panic!("expected a blocked shutdown, got {:?}", other),
    }
    assert!(matches!(st.action, Action::Wait));

    let st = command(&mut d, Command::Shutdown { force: true }, 10_500);
    assert!(matches!(st.reply, Some(Reply::Unit(Ok(())))));
    assert!(matches!(st.action, Action::Exit));
}

#[test]
fn shutdown_when_idle_exits() {
    let mut d = started_daemon(policy(&[]));
    let st = command(&mut d, Command::Shutdown { force: false }, 0);
    assert!(matches!(st.action, Action::Exit));
}

#[test]
fn stop_when_idle_is_fine() {
    let mut d = started_daemon(policy(&[]));
    let st = command(&mut d, Command::Stop, 0);
    assert!(matches!(st.reply, Some(Reply::Unit(Ok(())))));
}

#[test]
fn session_expires_and_removes_blocks() {
    let mut d = started_daemon(policy(&[]));
    start_with(&mut d, 2, &["example.com"], 0);

    // One second in: still running, and the minute's policy is looked at.
    let st = d.step(Event::Tick { check_key: "Mon:09:00".to_string() }, 1_000);
    assert!(matches!(st.action, Action::LoadPolicy));
    let st = d.step(Event::PolicyLoaded(Ok(policy(&["example.com"]))), 1_000);
    assert!(st.publish_policy.is_none());
    assert!(status(&mut d, 1_000).is_active());

    // Three seconds in: the time is up.
    let st = d.step(Event::Tick { check_key: "Mon:09:00".to_string() }, 3_000);
    assert!(matches!(st.action, Action::RemoveBlocks));
    let st = d.step(Event::HostsWritten(Ok(())), 3_000);
    assert!(matches!(st.publish_session, Some(Session::Idle(_))));
    assert!(matches!(st.action, Action::Wait));
    assert!(!status(&mut d, 3_000).is_active());
}

#[test]
fn expiry_ends_session_even_when_hosts_write_fails() {
    let mut d = started_daemon(policy(&[]));
    start_with(&mut d, 1, &["example.com"], 0);
    let st = d.step(Event::Tick { check_key: "Tue:10:00".to_string() }, 1_000);
    assert!(matches!(st.action, Action::RemoveBlocks));
    let failure = FsError::PermissionDenied { path: PathBuf::from("/etc/hosts") };
    let st = d.step(Event::HostsWritten(Err(failure)), 1_000);
    assert!(matches!(st.publish_session, Some(Session::Idle(_))));
    // The new minute's policy is looked at next.
    assert!(matches!(st.action, Action::LoadPolicy));
    assert!(!status(&mut d, 1_000).is_active());
}

#[test]
fn start_fails_when_hosts_cannot_be_written() {
    let mut d = started_daemon(policy(&[]));
    command(&mut d, Command::Start { duration_secs: 60 }, 0);
    d.step(Event::PolicyLoaded(Ok(policy(&["a.com"]))), 0);
    let failure = FsError::NotFound { path: PathBuf::from("/etc/hosts") };
    let st = d.step(Event::HostsWritten(Err(failure)), 0);
    match st.reply {
        Some(Reply::Unit(Err(e))) => {
            assert!(e.message().starts_with("File system error: File not found: "))
        }
        other => panic!("expected a failure, got {:?}", other),
    }
    assert!(!status(&mut d, 0).is_active());
}

#[test]
fn start_with_nothing_to_block_starts_at_once() {
    let mut d = started_daemon(policy(&[]));
    command(&mut d, Command::Start { duration_secs: 60 }, 500);
    let st = d.step(Event::PolicyLoaded(Ok(policy(&[]))), 500);
    assert!(matches!(st.reply, Some(Reply::Unit(Ok(())))));
    assert!(matches!(st.action, Action::Wait));
    match st.publish_session {
        Some(Session::Active(a)) => {
            assert_eq!(a.started_at_ms, 500);
            assert_eq!(a.duration_secs, 60);
        }
        other => panic!("expected a running session, got {:?}", other),
    }
}

#[test]
fn start_fails_when_policy_cannot_be_loaded() {
    let mut d = started_daemon(policy(&[]));
    command(&mut d, Command::Start { duration_secs: 60 }, 0);
    let st = d.step(Event::PolicyLoaded(Err(DbError::Sqlite("locked".to_string()))), 0);
    match st.reply {
        Some(Reply::Unit(Err(e))) => {
            assert_eq!(e.message(), "Database error: Database error: locked")
        }
        other => panic!("expected a failure, got {:?}", other),
    }
    assert!(!status(&mut d, 0).is_active());
}

#[test]
fn broadcast_subscription() {
    let mut d = started_daemon(policy(&[]));
    command(&mut d, Command::Start { duration_secs: 60 }, 0);
    d.step(Event::PolicyLoaded(Ok(policy(&["example.com"]))), 0);
    let st = d.step(Event::HostsWritten(Ok(())), 0);
    assert!(matches!(st.publish_session, Some(s) if s.is_active()));
}

#[test]
fn website_crud_through_handle() {
    let mut d = started_daemon(policy(&[]));
    let st = command(&mut d, Command::AddWebsite { url: "reddit.com".to_string() }, 0);
    match &st.action {
        Action::Store(StoreRequest::AddGlobalWebsite { domain }) => assert_eq!(domain, "reddit.com"),
        other => panic!("expected a store request, got {:?}", other),
    }
    let st = d.step(Event::StoreDone(Ok(StoreReply::Flag(true))), 0);
    assert!(matches!(st.reply, Some(Reply::Store(Ok(StoreReply::Flag(true))))));
    // A change to the records: the policy is recomputed.
    assert!(matches!(st.action, Action::LoadPolicy));
    let st = d.step(Event::PolicyLoaded(Ok(policy(&["reddit.com"]))), 0);
    match st.publish_policy {
        Some(p) => assert_eq!(p.blocked_websites, vec!["reddit.com".to_string()]),
        None => panic!("expected the changed policy to be announced"),
    }

    // Listing changes nothing, so no recomputation.
    let st = command(&mut d, Command::ListWebsites, 0);
    assert!(matches!(st.action, Action::Store(StoreRequest::ListGlobalWebsites)));
    let st = d.step(Event::StoreDone(Ok(StoreReply::Domains(vec!["reddit.com".to_string()]))), 0);
    assert!(matches!(st.action, Action::Wait));
}

#[test]
fn profile_crud() {
    let mut d = started_daemon(policy(&[]));
    let st = command(&mut d, Command::CreateProfile { name: "Work Focus".to_string() }, 0);
    assert!(matches!(&st.action, Action::Store(StoreRequest::CreateProfile { name }) if name == "Work Focus"));
    let st = d.step(Event::StoreDone(Err(DbError::ActorGone)), 0);
    match st.reply {
        Some(Reply::Store(Err(e))) => assert_eq!(e.message(), "Database error: Database actor unavailable"),
        other => panic!("expected a failure, got {:?}", other),
    }
    // Recomputed even after a failed change.
    assert!(matches!(st.action, Action::LoadPolicy));
}

#[test]
fn record_commands_build_store_requests() {
    let mut d = started_daemon(policy(&[]));
    let st = command(
        &mut d,
        Command::AddDomRule {
            profile_id: "p1".to_string(),
            site: "youtube".to_string(),
            toggle: "hideShorts".to_string(),
        },
        0,
    );
    match &st.action {
        Action::Store(StoreRequest::CreateDomRule { rule }) => {
            assert_eq!(rule.id, 0);
            assert_eq!(rule.profile_id, "p1");
            assert_eq!(rule.site, "youtube");
            assert_eq!(rule.toggle, "hideShorts");
        }
        other => panic!("expected a store request, got {:?}", other),
    }
    assert!(matches!(d.pending, Pending::AnswerStore { refresh: true }));
}

#[test]
fn active_policy_includes_global_websites() {
    let mut d = started_daemon(policy(&[]));
    let st = command(&mut d, Command::GetActivePolicy, 0);
    assert!(matches!(st.action, Action::LoadPolicy));
    let st = d.step(Event::PolicyLoaded(Ok(policy(&["reddit.com"]))), 0);
    match st.reply {
        Some(Reply::Policy(Ok(p))) => assert!(p.blocked_websites.contains(&"reddit.com".to_string())),
        other => panic!("expected a policy, got {:?}", other),
    }
}

#[test]
fn policy_push_over_socket() {
    let mut d = started_daemon(policy(&[]));
    let st = command(&mut d, Command::PolicyMaybeChanged, 0);
    assert!(matches!(st.action, Action::LoadPolicy));
    let st = d.step(Event::PolicyLoaded(Ok(policy(&["reddit.com"]))), 0);
    let pushed = policy_push(st.publish_policy.expect("a changed policy is announced"));
    match pushed {
        DaemonMessage::PolicyChanged(p) => {
            assert!(p.blocked_websites.contains(&"reddit.com".to_string()))
        }
        other => panic!("Expected PolicyChanged, got {:?}", other),
    }
    // The same policy again is not announced.
    command(&mut d, Command::PolicyMaybeChanged, 0);
    let st = d.step(Event::PolicyLoaded(Ok(policy(&["reddit.com"]))), 0);
    assert!(st.publish_policy.is_none());
}

#[test]
fn tick_looks_at_policy_once_a_minute() {
    let mut d = started_daemon(policy(&[]));
    let st = d.step(Event::Tick { check_key: "Wed:08:15".to_string() }, 0);
    assert!(matches!(st.action, Action::LoadPolicy));
    d.step(Event::PolicyLoaded(Ok(policy(&[]))), 0);
    let st = d.step(Event::Tick { check_key: "Wed:08:15".to_string() }, 1_000);
    assert!(matches!(st.action, Action::Wait));
    let st = d.step(Event::Tick { check_key: "Wed:08:16".to_string() }, 60_000);
    assert!(matches!(st.action, Action::LoadPolicy));
}

#[test]
fn changed_policy_during_session_rewrites_blocks_then_announces() {
    let mut d = started_daemon(policy(&[]));
    start_with(&mut d, 600, &["a.com"], 0);
    d.step(Event::Tick { check_key: "Thu:12:00".to_string() }, 1_000);
    let st = d.step(Event::PolicyLoaded(Ok(policy(&["a.com", "b.com"]))), 1_000);
    // The hosts file is rewritten with the sites of the policy now in force.
    match st.action {
        Action::AddBlocks(w) => {
            assert_eq!(w, vec!["a.com".to_string(), "b.com".to_string()])
        }
        other => panic!("expected AddBlocks, got {:?}", other),
    }
    let st = d.step(Event::HostsWritten(Ok(())), 1_000);
    match st.publish_policy {
        Some(p) => assert_eq!(p.blocked_websites.len(), 2),
        None => panic!("expected the new policy to be announced"),
    }
    assert_eq!(d.cached_policy.blocked_websites.len(), 2);
}

#[test]
fn policies_compare_by_content() {
    let rule = |t: &str| DomRule {
        id: 1,
        profile_id: "p".to_string(),
        site: "youtube".to_string(),
        toggle: t.to_string(),
    };
    let mut a = policy(&["x.com"]);
    let mut b = policy(&["x.com"]);
    assert!(policies_equal(&a, &b));
    a.dom_rules.push(rule("hideShorts"));
    assert!(!policies_equal(&a, &b));
    b.dom_rules.push(rule("hideShorts"));
    assert!(policies_equal(&a, &b));
    b.dom_rules[0] = rule("hideComments");
    assert!(!policies_equal(&a, &b));
}

#[test]
fn exit_takes_block_out_of_hosts_file() {
    let content = add_blocked_hosts("127.0.0.1 localhost\n", &["reddit.com".to_string()]);
    assert!(content.contains(MARKER_START));
    assert_eq!(hosts_on_exit(&content), Some("127.0.0.1 localhost\n".to_string()));
    assert_eq!(hosts_on_exit("127.0.0.1 localhost\n"), None);
}

#[test]
fn daemon_error_texts() {
    assert_eq!(DaemonError::Config("bad".to_string()).message(), "Configuration error: bad");
    assert_eq!(DaemonError::Socket("gone".to_string()).message(), "Socket error: gone");
    assert_eq!(DaemonError::Actor("closed".to_string()).message(), "Actor error: closed");
    assert_eq!(
        DaemonError::ShutdownBlocked(42).message(),
        "Shutdown blocked: session active with 42 seconds remaining"
    );
    assert_eq!(
        DaemonError::Database(DbError::Json("eof".to_string())).message(),
        "Database error: JSON error: eof"
    );
    assert_eq!(
        DaemonError::Protocol(dark_pattern_blocker::model::ProtocolError::DecodeError("x".to_string()))
            .message(),
        "Protocol error: Decode error: x"
    );
}

#[test]
fn pid_file_text_is_read() {
    assert_eq!(recorded_pid(" 4242\n"), Some(4242));
    assert_eq!(recorded_pid("-7"), Some(-7));
    assert_eq!(recorded_pid("abc"), None);
    assert_eq!(recorded_pid(""), None);
    assert_eq!(already_running(4242).message(), "Configuration error: Daemon already running with PID 4242");
}

#[test]
fn events_are_taken_in_turn() {
    let mut d = DaemonState::new();
    assert!(d.expects_event(&Event::Command(Command::Stop)));
    assert!(d.expects_event(&Event::Tick { check_key: "Mon:00:00".to_string() }));
    assert!(!d.expects_event(&Event::PolicyLoaded(Ok(policy(&[])))));
    d.begin();
    assert!(d.expects_event(&Event::PolicyLoaded(Err(DbError::ActorGone))));
    assert!(!d.expects_event(&Event::Command(Command::Stop)));
    assert!(!d.expects_event(&Event::HostsWritten(Ok(()))));
}

#[test]
fn pid_text_reads_as_std_reads_an_i32() {
    assert_eq!(recorded_pid("+5"), Some(5));
    assert_eq!(recorded_pid("007"), Some(7));
    assert_eq!(recorded_pid("-2147483648"), Some(i32::MIN));
    assert_eq!(recorded_pid("2147483647"), Some(i32::MAX));
    assert_eq!(recorded_pid("2147483648"), None);
    assert_eq!(recorded_pid("-2147483649"), None);
    assert_eq!(recorded_pid("99999999999999999999"), None);
    assert_eq!(recorded_pid("+"), None);
    assert_eq!(recorded_pid("-"), None);
    assert_eq!(recorded_pid("--1"), None);
    assert_eq!(recorded_pid("+-1"), None);
    assert_eq!(recorded_pid("4 2"), None);
    assert_eq!(recorded_pid("12a"), None);
    assert_eq!(recorded_pid("\u{0663}"), None);
    for text in ["+5", "-0", "123", "2147483648", "-", "x"] {
        assert_eq!(recorded_pid(text), text.parse::<i32>().ok());
    }
}
