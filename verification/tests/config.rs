use dark_pattern_blocker::config::{expand_path, home_relative, under_home};
use dark_pattern_blocker::model::{Config, ConfigError};

#[test]
fn valid_config_parses() {
    let config = Config::from_paths(
        "/etc/hosts",
        "/tmp/dark-pattern.sock",
        "/tmp/dark-pattern.pid",
        "/tmp/dark-pattern.db",
    );
    let config = config.unwrap();
    assert_eq!(config.hosts_file, std::path::PathBuf::from("/etc/hosts"));
    assert_eq!(config.db_path, std::path::PathBuf::from("/tmp/dark-pattern.db"));
}

#[test]
fn tilde_paths_are_expanded() {
    let config = Config::from_paths(
        "~/hosts",
        "~/dark-pattern.sock",
        "~/dark-pattern.pid",
        "~/dark-pattern.db",
    )
    .unwrap();

    assert!(!config.hosts_file.to_string_lossy().contains('~'));
    assert!(config.hosts_file.to_string_lossy().len() > 7);
}

#[test]
fn home_relative_paths() {
    assert_eq!(home_relative("~/a/b"), Some("a/b".to_string()));
    assert_eq!(home_relative("~/"), Some(String::new()));
    assert_eq!(home_relative("~a"), None);
    assert_eq!(home_relative("/~/a"), None);
    assert_eq!(home_relative(""), None);
}

#[test]
fn plain_paths_are_kept() {
    assert_eq!(expand_path("relative/x").unwrap(), std::path::PathBuf::from("relative/x"));
}

#[test]
fn config_error_text() {
    assert_eq!(ConfigError::ParseError("x".to_string()).message(), "Config parse error: x");
}

#[test]
fn home_is_needed_for_home_relative_paths() {
    match under_home("x", None) {
        Err(ConfigError::ParseError(m)) => assert_eq!(m, "HOME directory not found"),
        other => panic!("unexpected {:?}", other),
    }
    assert_eq!(
        under_home("a/b", Some(std::path::PathBuf::from("/home/u"))).unwrap(),
        std::path::PathBuf::from("/home/u/a/b")
    );
}
