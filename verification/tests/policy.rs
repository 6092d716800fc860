use dark_pattern_blocker::model::{BlockedApp, BlockedWebsite, DomRule, Profile};
use dark_pattern_blocker::policy::{active_profiles, compute_active_policy, PolicyTables, StoredSchedule};

fn profile(id: &str, enabled: bool) -> Profile {
    Profile { id: id.to_string(), name: id.to_string(), enabled }
}

fn schedule(profile_id: &str, days: &[&str], start: &str, end: &str) -> StoredSchedule {
    let quoted: Vec<String> = days.iter().map(|d| format!("\"{}\"", d)).collect();
    StoredSchedule {
        profile_id: profile_id.to_string(),
        days: Some(format!("[{}]", quoted.join(","))),
        start_time: Some(start.to_string()),
        end_time: Some(end.to_string()),
    }
}

fn website(profile_id: &str, domain: &str) -> BlockedWebsite {
    BlockedWebsite { id: 0, profile_id: profile_id.to_string(), domain: domain.to_string() }
}

fn rule(profile_id: &str, site: &str, toggle: &str) -> DomRule {
    DomRule { id: 0, profile_id: profile_id.to_string(), site: site.to_string(), toggle: toggle.to_string() }
}

#[test]
fn active_policy() {
    let tables = PolicyTables {
        profiles: vec![profile("work", true)],
        schedules: vec![schedule("work", &["mon"], "09:00", "17:00")],
        websites: vec![website("work", "twitter.com")],
        apps: vec![],
        dom_rules: vec![],
        global_websites: vec!["reddit.com".to_string()],
    };
    let policy = compute_active_policy(&tables, "mon", "10:00");
    assert!(policy.blocked_websites.contains(&"twitter.com".to_string()));
    assert!(policy.blocked_websites.contains(&"reddit.com".to_string()));

    let policy = compute_active_policy(&tables, "tue", "10:00");
    assert!(!policy.blocked_websites.contains(&"twitter.com".to_string()));
    assert!(policy.blocked_websites.contains(&"reddit.com".to_string()));
}

#[test]
fn active_policy_includes_profile_dom_rules_and_websites() {
    let tables = PolicyTables {
        profiles: vec![profile("p1", true)],
        schedules: vec![],
        websites: vec![website("p1", "reddit.com")],
        apps: vec![],
        dom_rules: vec![rule("p1", "youtube", "hideShorts")],
        global_websites: vec![],
    };
    let policy = compute_active_policy(&tables, "wed", "03:00");
    assert!(policy.blocked_websites.contains(&"reddit.com".to_string()));
    assert!(policy.dom_rules.iter().any(|r| r.site == "youtube" && r.toggle == "hideShorts"));
}

#[test]
fn policy_is_sorted_without_repeats() {
    let tables = PolicyTables {
        profiles: vec![profile("a", true), profile("b", true)],
        schedules: vec![],
        websites: vec![website("a", "z.com"), website("b", "a.com"), website("b", "z.com")],
        apps: vec![
            BlockedApp { id: 1, profile_id: "b".to_string(), app_identifier: "slack".to_string() },
            BlockedApp { id: 2, profile_id: "a".to_string(), app_identifier: "discord".to_string() },
            BlockedApp { id: 3, profile_id: "a".to_string(), app_identifier: "slack".to_string() },
        ],
        dom_rules: vec![rule("b", "x", "t1"), rule("a", "y", "t2")],
        global_websites: vec!["m.com".to_string(), "a.com".to_string()],
    };
    let policy = compute_active_policy(&tables, "fri", "12:00");
    assert_eq!(policy.blocked_websites, vec!["a.com", "m.com", "z.com"]);
    assert_eq!(policy.blocked_apps, vec!["discord", "slack"]);
    // Profile by profile, in stored order.
    let toggles: Vec<&str> = policy.dom_rules.iter().map(|r| r.toggle.as_str()).collect();
    assert_eq!(toggles, vec!["t2", "t1"]);
}

#[test]
fn disabled_profile_blocks_nothing() {
    let tables = PolicyTables {
        profiles: vec![profile("p", false)],
        schedules: vec![],
        websites: vec![website("p", "reddit.com")],
        apps: vec![],
        dom_rules: vec![],
        global_websites: vec![],
    };
    assert!(compute_active_policy(&tables, "mon", "10:00").blocked_websites.is_empty());
    assert!(active_profiles(&tables, "mon", "10:00").is_empty());
}

#[test]
fn schedule_window_bounds() {
    let tables = PolicyTables {
        profiles: vec![profile("p", true)],
        schedules: vec![schedule("p", &["Mon", "wed"], "09:00", "17:00")],
        websites: vec![],
        apps: vec![],
        dom_rules: vec![],
        global_websites: vec![],
    };
    // The start is in the window, the end is not.
    assert_eq!(active_profiles(&tables, "mon", "09:00").len(), 1);
    assert_eq!(active_profiles(&tables, "mon", "16:59").len(), 1);
    assert_eq!(active_profiles(&tables, "mon", "17:00").len(), 0);
    assert_eq!(active_profiles(&tables, "mon", "08:59").len(), 0);
    assert_eq!(active_profiles(&tables, "wed", "12:00").len(), 1);
    assert_eq!(active_profiles(&tables, "thu", "12:00").len(), 0);
}

fn one_schedule(days: Option<&str>) -> PolicyTables {
    PolicyTables {
        profiles: vec![profile("p", true)],
        schedules: vec![StoredSchedule {
            profile_id: "p".to_string(),
            days: days.map(|d| d.to_string()),
            start_time: Some("09:00".to_string()),
            end_time: Some("17:00".to_string()),
        }],
        websites: vec![],
        apps: vec![],
        dom_rules: vec![],
        global_websites: vec![],
    }
}

#[test]
fn stored_days_match_as_like_pattern() {
    let tables = one_schedule(Some("[\"mon\",\"tue\"]"));
    // The day must follow a double quote; what comes after it is free.
    assert_eq!(active_profiles(&tables, "tue", "10:00").len(), 1);
    assert_eq!(active_profiles(&tables, "mo", "10:00").len(), 1);
    assert_eq!(active_profiles(&tables, "on", "10:00").len(), 0);
    // ASCII letters match without regard to case.
    assert_eq!(active_profiles(&tables, "TUE", "10:00").len(), 1);
    // `_` stands for any one character, `%` for any run.
    assert_eq!(active_profiles(&tables, "_ue", "10:00").len(), 1);
    assert_eq!(active_profiles(&tables, "_x", "10:00").len(), 0);
    assert_eq!(active_profiles(&tables, "%", "10:00").len(), 1);
    assert_eq!(active_profiles(&tables, "m%e", "10:00").len(), 1);
    assert_eq!(active_profiles(&tables, "w%", "10:00").len(), 0);
}

#[test]
fn schedule_without_days_never_matches() {
    let tables = one_schedule(None);
    assert_eq!(active_profiles(&tables, "mon", "10:00").len(), 0);
    assert_eq!(active_profiles(&tables, "%", "10:00").len(), 0);
    let tables = one_schedule(Some("[]"));
    assert_eq!(active_profiles(&tables, "%", "10:00").len(), 0);
}
