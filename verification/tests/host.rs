use dark_pattern_blocker::host::{
    add_blocked_hosts, has_blocked_hosts, remove_blocked_hosts, MARKER_END, MARKER_START,
};

#[test]
fn empty_content_returns_false() {
    assert!(!has_blocked_hosts(""));
}

#[test]
fn content_without_markers_returns_false() {
    let content = "127.0.0.1 localhost\n::1 localhost";
    assert!(!has_blocked_hosts(content));
}

#[test]
fn content_with_markers_returns_true() {
    let content = "127.0.0.1 localhost\n# --- focusd start ---\n127.0.0.1\treddit.com\n# --- focusd end ---";
    assert!(has_blocked_hosts(content));
}

#[test]
fn add_blocked_hosts_empty_content() {
    let hosts = vec!["example.com".to_string()];
    let result = add_blocked_hosts("", &hosts);

    assert!(result.contains(MARKER_START));
    assert!(result.contains(MARKER_END));
    assert!(result.contains("127.0.0.1 example.com"));
    assert!(result.contains("127.0.0.1 www.example.com"));
}

#[test]
fn add_blocked_hosts_appends_to_existing() {
    let content = "127.0.0.1 localhost\n";
    let hosts = vec!["example.com".to_string()];
    let result = add_blocked_hosts(content, &hosts);

    assert!(result.starts_with("127.0.0.1 localhost\n"));
    assert!(result.contains(MARKER_START));
    assert!(result.contains("127.0.0.1 example.com"));
}

#[test]
fn add_blocked_hosts_handles_www_variants() {
    let hosts = vec!["example.com".to_string(), "www.reddit.com".to_string()];
    let result = add_blocked_hosts("", &hosts);

    assert!(result.contains("127.0.0.1 example.com"));
    assert!(result.contains("127.0.0.1 www.example.com"));
    assert!(result.contains("127.0.0.1 www.reddit.com"));
    // Should not double add www
    assert!(!result.contains("127.0.0.1 www.www.reddit.com"));
}

#[test]
fn remove_blocked_hosts_no_markers() {
    let content = "some content\nwithout markers";
    assert_eq!(remove_blocked_hosts(content), content);
}

#[test]
fn remove_blocked_hosts_removes_block() {
    let content = format!("prefix\n{}\nblocked\n{}\nsuffix", MARKER_START, MARKER_END);
    let result = remove_blocked_hosts(&content);
    assert_eq!(result.trim(), "prefix\nsuffix");
    assert!(!result.contains(MARKER_START));
    assert!(!result.contains(MARKER_END));
}

#[test]
fn remove_blocked_hosts_preserves_surrounding() {
    let content = format!("pre\n{}\nblock\n{}\npost", MARKER_START, MARKER_END);
    let result = remove_blocked_hosts(&content);
    assert!(result.contains("pre"));
    assert!(result.contains("post"));
    assert!(!result.contains("block"));
}

#[test]
fn add_then_remove_roundtrip() {
    let before = "127.0.0.1 localhost\n";
    let hosts = vec!["reddit.com".to_string()];

    let added = add_blocked_hosts(before, &hosts);
    let removed = remove_blocked_hosts(&added);

    assert_eq!(removed, before);
}

#[test]
fn add_twice_only_one_block() {
    let content = "127.0.0.1 localhost\n";
    let hosts = vec!["reddit.com".to_string()];

    let once = add_blocked_hosts(content, &hosts);
    let twice = add_blocked_hosts(&once, &hosts);

    // Should only have one marker block
    assert_eq!(once, twice);
}

#[test]
fn add_blocked_hosts_exact_text() {
    let hosts = vec!["a.com".to_string(), "www.b.org".to_string()];
    let result = add_blocked_hosts("127.0.0.1 localhost", &hosts);
    assert_eq!(
        result,
        "127.0.0.1 localhost\n# --- focusd start ---\n127.0.0.1 a.com\n127.0.0.1 www.a.com\n127.0.0.1 www.b.org\n# --- focusd end ---\n"
    );
}

#[test]
fn add_blocked_hosts_replaces_old_block() {
    let content = "x\n# --- focusd start ---\n127.0.0.1 old.com\n# --- focusd end ---\ny\n";
    let hosts = vec!["new.com".to_string()];
    let result = add_blocked_hosts(content, &hosts);
    assert_eq!(
        result,
        "x\ny\n# --- focusd start ---\n127.0.0.1 new.com\n127.0.0.1 www.new.com\n# --- focusd end ---\n"
    );
}

#[test]
fn remove_blocked_hosts_keeps_missing_final_newline() {
    let content = "a\n  # --- focusd start ---  \n127.0.0.1 x\n# --- focusd end ---\nb";
    assert_eq!(remove_blocked_hosts(content), "a\nb");
}

#[test]
fn remove_blocked_hosts_unclosed_block_drops_rest() {
    let content = "a\n# --- focusd start ---\n127.0.0.1 x\nb\n";
    assert_eq!(remove_blocked_hosts(content), "a\n");
}

#[test]
fn round_trip_restores_text_with_lines_of_any_kind() {
    let before = "127.0.0.1 localhost\n\n  # --- focusd end ---\n::1 localhost\n";
    let hosts = vec!["# --- focusd end ---".to_string(), "a.com".to_string(), String::new()];
    let added = add_blocked_hosts(before, &hosts);
    assert_eq!(remove_blocked_hosts(&added), before);
    assert_eq!(remove_blocked_hosts(&add_blocked_hosts("", &hosts)), "");
}

#[test]
fn later_add_replaces_earlier_block() {
    let content = "127.0.0.1 localhost\n# keep\nlast line without newline";
    let first = vec!["a.com".to_string(), "www.b.com".to_string()];
    let second = vec!["c.org".to_string()];
    let twice = add_blocked_hosts(&add_blocked_hosts(content, &first), &second);
    assert_eq!(twice, add_blocked_hosts(content, &second));
    assert_eq!(twice.matches(MARKER_START).count(), 1);
    assert!(!twice.contains("a.com"));
}

#[test]
fn removing_twice_is_removing_once() {
    let texts = [
        "a\n# --- focusd start ---\nx\n# --- focusd end ---\nb\n",
        "a\n# --- focusd start ---\nx\n",
        "# --- focusd end ---\na\n# --- focusd start ---\n# --- focusd start ---\ny\n# --- focusd end ---\nz",
        "",
        "plain\n",
    ];
    for t in texts {
        let once = remove_blocked_hosts(t);
        assert_eq!(remove_blocked_hosts(&once), once);
    }
}
