//! The records that profiles, schedules and blocking rules are stored as,
//! the merged policy that is in force, and the errors of the store, the
//! configuration and the wire protocol.

use vstd::prelude::*;
use crate::text::concat;

verus! {

#[verifier::external_type_specification]
#[verifier::external_body]
pub struct ExPathBuf(std::path::PathBuf);

/// Why a store operation failed.
#[derive(Debug, Clone, PartialEq)]
pub enum DbError {
    Sqlite(String),
    Json(String),
    ActorGone,
}

/// The text a store error is reported with.
pub open spec fn db_error_text(e: DbError) -> Seq<char> {
    match e {
        DbError::Sqlite(s) => "Database error: "@ + s@,
        DbError::Json(s) => "JSON error: "@ + s@,
        DbError::ActorGone => "Database actor unavailable"@,
    }
}

impl DbError {
    /// The text the error is reported with.
    pub fn message(&self) -> (m: String)
        ensures
            m@ == db_error_text(*self),
    {
        match self {
            DbError::Sqlite(s) => concat("Database error: ", s.as_str()),
            DbError::Json(s) => concat("JSON error: ", s.as_str()),
            DbError::ActorGone => String::from_str("Database actor unavailable"),
        }
    }
}

/// A named set of blocking rules that can be switched on and off.
#[derive(Debug, Clone, PartialEq)]
pub struct Profile {
    pub id: String,
    pub name: String,
    pub enabled: bool,
}

impl Default for Profile {
    fn default() -> (p: Self)
        ensures
            p.id@.len() == 0,
            p.name@.len() == 0,
            !p.enabled,
    {
        Profile { id: String::new(), name: String::new(), enabled: false }
    }
}

/// Whether a schedule repeats every week or applies on one date.
#[derive(Debug, Clone, Copy, PartialEq, Eq, Structural)]
pub enum ScheduleType {
    Recurring,
    OneTime,
}

/// When a profile is in force.
#[derive(Debug, Clone, PartialEq)]
pub struct Schedule {
    pub id: i64,
    pub profile_id: String,
    pub schedule_type: Option<ScheduleType>,
    pub days: Option<Vec<String>>,
    pub start_time: Option<String>,
    pub end_time: Option<String>,
    pub timezone: Option<String>,
    pub one_time_date: Option<String>,
}

/// A website that a profile blocks.
#[derive(Debug, Clone, PartialEq)]
pub struct BlockedWebsite {
    pub id: i64,
    pub profile_id: String,
    pub domain: String,
}

/// An application that a profile blocks.
#[derive(Debug, Clone, PartialEq)]
pub struct BlockedApp {
    pub id: i64,
    pub profile_id: String,
    pub app_identifier: String,
}

/// A page-element toggle that a profile applies on a site.
#[derive(Debug, Clone, PartialEq)]
pub struct DomRule {
    pub id: i64,
    pub profile_id: String,
    pub site: String,
    pub toggle: String,
}

/// A session started by hand.
#[derive(Debug, Clone, PartialEq)]
pub struct ManualSession {
    pub id: i64,
    pub started_at: String,
    pub duration_secs: i64,
    pub ended_at: Option<String>,
    pub policy_json: Option<String>,
}

/// Merged policy from all active profiles + manual session
#[derive(Debug, Clone, PartialEq)]
pub struct ActivePolicy {
    pub blocked_websites: Vec<String>,
    pub blocked_apps: Vec<String>,
    pub dom_rules: Vec<DomRule>,
}

impl ActivePolicy {
    /// The policy that blocks nothing.
    pub fn empty() -> (p: Self)
        ensures
            p.blocked_websites@.len() == 0,
            p.blocked_apps@.len() == 0,
            p.dom_rules@.len() == 0,
    {
        ActivePolicy { blocked_websites: Vec::new(), blocked_apps: Vec::new(), dom_rules: Vec::new() }
    }
}

impl Default for ActivePolicy {
    fn default() -> (p: Self)
        ensures
            p.blocked_websites@.len() == 0,
            p.blocked_apps@.len() == 0,
            p.dom_rules@.len() == 0,
    {
        ActivePolicy::empty()
    }
}

/// Why the configuration could not be read.
#[derive(Debug, PartialEq)]
pub enum ConfigError {
    ParseError(String),
}

/// Validated config — guaranteed valid if it exists.
///
/// Contains only infrastructure paths. User-facing rules
/// (blocked websites, DOM rules, app rules) live in the database.
#[derive(Debug, PartialEq)]
pub struct Config {
    pub hosts_file: std::path::PathBuf,
    pub socket_path: std::path::PathBuf,
    pub pid_path: std::path::PathBuf,
    pub db_path: std::path::PathBuf,
}

/// Why a message could not be encoded or decoded.
#[derive(Debug, PartialEq)]
pub enum ProtocolError {
    EncodeError(String),
    DecodeError(String),
}

/// The text a protocol error is reported with.
pub open spec fn protocol_error_text(e: ProtocolError) -> Seq<char> {
    match e {
        ProtocolError::EncodeError(s) => "Encode error: "@ + s@,
        ProtocolError::DecodeError(s) => "Decode error: "@ + s@,
    }
}

impl ProtocolError {
    /// The text the error is reported with.
    pub fn message(&self) -> (m: String)
        ensures
            m@ == protocol_error_text(*self),
    {
        match self {
            ProtocolError::EncodeError(s) => concat("Encode error: ", s.as_str()),
            ProtocolError::DecodeError(s) => concat("Decode error: ", s.as_str()),
        }
    }
}

/// The text a configuration error is reported with.
pub open spec fn config_error_text(e: ConfigError) -> Seq<char> {
    match e {
        ConfigError::ParseError(s) => "Config parse error: "@ + s@,
    }
}

impl ConfigError {
    /// The text the error is reported with.
    pub fn message(&self) -> (m: String)
        ensures
            m@ == config_error_text(*self),
    {
        match self {
            ConfigError::ParseError(s) => concat("Config parse error: ", s.as_str()),
        }
    }
}

} // verus!
