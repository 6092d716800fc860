//! The decisions of the focus-session daemon.
//!
//! The daemon is an actor: it takes commands one at a time, ticks once a
//! second, and does its outside work (computing the policy in force, asking
//! the record store, rewriting the hosts file) between decisions. This
//! module is that actor's mind, a state machine: `DaemonState::step` takes
//! the next event and gives the reply to send, the outside work to do next
//! and what to announce to subscribers. The loop that performs the work and
//! feeds the outcomes back as events runs outside the library.
//!
//! Every minute a tick looks at the policy in force; when it has changed,
//! the daemon applies it: during a session its sites are written into the
//! hosts file, and subscribers are told of it.
//!
//! Cold turkey: a running session cannot be stopped, shutdown is refused
//! while it runs (unless forced), and it ends only when its time is up.

use vstd::prelude::*;
use crate::duration::{
    decimal_text, decimal_value, is_ascii_digits, lemma_decimal_value_monotone,
    lemma_decimal_value_step, push_decimal,
};
use crate::fs_error::{fs_error_has_source, fs_error_text, FsError};
use crate::model::{
    db_error_text, protocol_error_text, ActivePolicy, BlockedApp, BlockedWebsite, DbError,
    DomRule, Profile, ProtocolError, Schedule,
};
use crate::order::texts;
use crate::policy::copy_rule;
use crate::session::{ActiveSession, IdleSession, Session};
use crate::store::{only_reads, StoreReply, StoreRequest};
use crate::host::{has_blocked_hosts, remove_blocked_hosts, removed_text, MARKER_START};
use crate::cli::{int_text, push_int};
use crate::text::{chars_of, concat, contains_text, push_str, starts_with, string_from_chars, trim, trim_chars};

verus! {

// ─────────────────────────────────────────────────────────────────────────────
// Errors
// ─────────────────────────────────────────────────────────────────────────────

/// Why a daemon operation failed.
#[derive(Debug)]
pub enum DaemonError {
    Config(String),
    Database(DbError),
    /// A failure of the daemon's socket, by its text.
    Socket(String),
    Fs(FsError),
    Protocol(ProtocolError),
    Session(String),
    Actor(String),
    ShutdownBlocked(u64),
}

/// The text an error is reported with; for a file error with an I/O
/// source, the part before the source's own text.
pub open spec fn daemon_error_text(e: DaemonError) -> Seq<char> {
    match e {
        DaemonError::Config(s) => "Configuration error: "@ + s@,
        DaemonError::Database(d) => "Database error: "@ + db_error_text(d),
        DaemonError::Socket(s) => "Socket error: "@ + s@,
        DaemonError::Fs(f) => "File system error: "@ + fs_error_text(f),
        DaemonError::Protocol(p) => "Protocol error: "@ + protocol_error_text(p),
        DaemonError::Session(s) => "Session error: "@ + s@,
        DaemonError::Actor(s) => "Actor error: "@ + s@,
        DaemonError::ShutdownBlocked(n) => "Shutdown blocked: session active with "@ + decimal_text(
            n as nat,
        ) + " seconds remaining"@,
    }
}

/// Whether `daemon_error_text` is the whole text of the error: it is, but
/// for a file error with an I/O source, whose text goes on with the
/// source's own text.
pub open spec fn daemon_error_exact(e: DaemonError) -> bool {
    match e {
        DaemonError::Fs(f) => !fs_error_has_source(f),
        _ => true,
    }
}

impl DaemonError {
    /// The text the error is reported with.
    pub fn message(&self) -> (m: String)
        ensures
            daemon_error_exact(*self) ==> m@ == daemon_error_text(*self),
            !daemon_error_exact(*self) ==> starts_with(m@, daemon_error_text(*self)),
    {
        match self {
            DaemonError::Config(s) => concat("Configuration error: ", s.as_str()),
            DaemonError::Database(d) => {
                let inner = d.message();
                concat("Database error: ", inner.as_str())
            },
            DaemonError::Socket(s) => concat("Socket error: ", s.as_str()),
            DaemonError::Fs(f) => {
                let inner = f.message();
                let m = concat("File system error: ", inner.as_str());
                proof {
                    let lead = "File system error: "@;
                    let fl = fs_error_text(*f);
                    if fs_error_has_source(*f) {
                        assert((lead + inner@).take((lead + fl).len() as int) =~= lead + fl) by {
                            assert(inner@.take(fl.len() as int) == fl);
                            assert forall|i: int| 0 <= i < (lead + fl).len() implies (lead
                                + inner@)[i] == (lead + fl)[i] by {
                                if i >= lead.len() {
                                    assert(inner@.take(fl.len() as int)[i - lead.len()] == fl[i
                                        - lead.len()]);
                                }
                            }
                        }
                    }
                }
                m
            },
            DaemonError::Protocol(p) => {
                let inner = p.message();
                concat("Protocol error: ", inner.as_str())
            },
            DaemonError::Session(s) => concat("Session error: ", s.as_str()),
            DaemonError::Actor(s) => concat("Actor error: ", s.as_str()),
            DaemonError::ShutdownBlocked(n) => {
                let mut out: Vec<char> = Vec::new();
                push_str(&mut out, "Shutdown blocked: session active with ");
                push_decimal(&mut out, *n);
                push_str(&mut out, " seconds remaining");
                assert(out@ =~= daemon_error_text(*self));
                string_from_chars(&out)
            },
        }
    }
}

// ─────────────────────────────────────────────────────────────────────────────
// Policies compared and copied
// ─────────────────────────────────────────────────────────────────────────────

/// What a page rule is, as plain values.
pub open spec fn rule_view(r: DomRule) -> (i64, Seq<char>, Seq<char>, Seq<char>) {
    (r.id, r.profile_id@, r.site@, r.toggle@)
}

/// Whether two policies block the same sites and apps and apply the same
/// page rules, in the same order.
pub open spec fn same_policy(a: ActivePolicy, b: ActivePolicy) -> bool {
    &&& texts(a.blocked_websites@) == texts(b.blocked_websites@)
    &&& texts(a.blocked_apps@) == texts(b.blocked_apps@)
    &&& a.dom_rules@.map_values(|r: DomRule| rule_view(r)) == b.dom_rules@.map_values(
        |r: DomRule| rule_view(r),
    )
}

fn texts_equal(a: &Vec<String>, b: &Vec<String>) -> (r: bool)
    ensures
        r == (texts(a@) == texts(b@)),
{
    if a.len() != b.len() {
        assert(texts(a@).len() != texts(b@).len());
        return false;
    }
    let mut i: usize = 0;
    while i < a.len()
        invariant
            a.len() == b.len(),
            i <= a.len(),
            forall|k: int| 0 <= k < i ==> a@[k]@ == b@[k]@,
        decreases a.len() - i,
    {
        if a[i] != b[i] {
            assert(texts(a@)[i as int] != texts(b@)[i as int]);
            return false;
        }
        i += 1;
    }
    assert(texts(a@) =~= texts(b@));
    true
}

fn rules_equal(a: &Vec<DomRule>, b: &Vec<DomRule>) -> (r: bool)
    ensures
        r == (a@.map_values(|x: DomRule| rule_view(x)) == b@.map_values(
            |x: DomRule| rule_view(x),
        )),
{
    let ghost va = a@.map_values(|x: DomRule| rule_view(x));
    let ghost vb = b@.map_values(|x: DomRule| rule_view(x));
    if a.len() != b.len() {
        assert(va.len() != vb.len());
        return false;
    }
    let mut i: usize = 0;
    while i < a.len()
        invariant
            a.len() == b.len(),
            i <= a.len(),
            va == a@.map_values(|x: DomRule| rule_view(x)),
            vb == b@.map_values(|x: DomRule| rule_view(x)),
            forall|k: int| 0 <= k < i ==> va[k] == vb[k],
        decreases a.len() - i,
    {
        let x = &a[i];
        let y = &b[i];
        if x.id != y.id || x.profile_id != y.profile_id || x.site != y.site || x.toggle != y.toggle {
            assert(va[i as int] != vb[i as int]);
            return false;
        }
        i += 1;
    }
    assert(va =~= vb);
    true
}

/// Whether two policies are the same.
pub fn policies_equal(a: &ActivePolicy, b: &ActivePolicy) -> (r: bool)
    ensures
        r == same_policy(*a, *b),
{
    texts_equal(&a.blocked_websites, &b.blocked_websites) && texts_equal(
        &a.blocked_apps,
        &b.blocked_apps,
    ) && rules_equal(&a.dom_rules, &b.dom_rules)
}

/// A copy of a list of texts.
pub fn copy_texts(v: &Vec<String>) -> (c: Vec<String>)
    ensures
        c@ == v@,
{
    let mut c: Vec<String> = Vec::new();
    let mut i: usize = 0;
    while i < v.len()
        invariant
            i <= v.len(),
            c@ == v@.take(i as int),
        decreases v.len() - i,
    {
        c.push(v[i].clone());
        i += 1;
        assert(c@ =~= v@.take(i as int));
    }
    assert(v@.take(v.len() as int) =~= v@);
    c
}

/// A copy of a policy.
pub fn copy_policy(p: &ActivePolicy) -> (c: ActivePolicy)
    ensures
        c.blocked_websites@ == p.blocked_websites@,
        c.blocked_apps@ == p.blocked_apps@,
        c.dom_rules@ == p.dom_rules@,
        same_policy(c, *p),
{
    let mut rules: Vec<DomRule> = Vec::new();
    let mut i: usize = 0;
    while i < p.dom_rules.len()
        invariant
            i <= p.dom_rules.len(),
            rules@ == p.dom_rules@.take(i as int),
        decreases p.dom_rules.len() - i,
    {
        rules.push(copy_rule(&p.dom_rules[i]));
        i += 1;
        assert(rules@ =~= p.dom_rules@.take(i as int));
    }
    assert(p.dom_rules@.take(p.dom_rules.len() as int) =~= p.dom_rules@);
    ActivePolicy {
        blocked_websites: copy_texts(&p.blocked_websites),
        blocked_apps: copy_texts(&p.blocked_apps),
        dom_rules: rules,
    }
}

// ─────────────────────────────────────────────────────────────────────────────
// Commands, events and what a step gives
// ─────────────────────────────────────────────────────────────────────────────

/// A command sent to the daemon; the reply goes back to the sender.
#[derive(Debug)]
pub enum Command {
    Start { duration_secs: u64 },
    Stop,
    GetStatus,
    Shutdown { force: bool },
    AddWebsite { url: String },
    RemoveWebsite { url: String },
    ListWebsites,
    CreateProfile { name: String },
    GetProfile { id: String },
    ListProfiles,
    UpdateProfile { profile: Profile },
    DeleteProfile { id: String },
    CreateSchedule { schedule: Schedule },
    ListSchedules { profile_id: String },
    DeleteSchedule { id: i64 },
    AddProfileWebsite { profile_id: String, domain: String },
    ListProfileWebsites { profile_id: String },
    DeleteProfileWebsite { id: i64 },
    AddProfileApp { profile_id: String, app_identifier: String },
    ListProfileApps { profile_id: String },
    DeleteProfileApp { id: i64 },
    AddDomRule { profile_id: String, site: String, toggle: String },
    ListDomRules { profile_id: String },
    DeleteDomRule { id: i64 },
    GetActivePolicy,
    /// A client changed the records: recompute the policy and announce it
    /// if it changed.
    PolicyMaybeChanged,
}

/// The store request that a record command is carried out by; none for the
/// commands the daemon answers itself.
pub open spec fn store_request_for(c: Command) -> Option<StoreRequest> {
    match c {
        Command::AddWebsite { url } => Some(StoreRequest::AddGlobalWebsite { domain: url }),
        Command::RemoveWebsite { url } => Some(StoreRequest::RemoveGlobalWebsite { domain: url }),
        Command::ListWebsites => Some(StoreRequest::ListGlobalWebsites),
        Command::CreateProfile { name } => Some(StoreRequest::CreateProfile { name }),
        Command::GetProfile { id } => Some(StoreRequest::GetProfile { id }),
        Command::ListProfiles => Some(StoreRequest::ListProfiles),
        Command::UpdateProfile { profile } => Some(StoreRequest::UpdateProfile { profile }),
        Command::DeleteProfile { id } => Some(StoreRequest::DeleteProfile { id }),
        Command::CreateSchedule { schedule } => Some(StoreRequest::CreateSchedule { schedule }),
        Command::ListSchedules { profile_id } => Some(StoreRequest::ListSchedules { profile_id }),
        Command::DeleteSchedule { id } => Some(StoreRequest::DeleteSchedule { id }),
        Command::AddProfileWebsite { profile_id, domain } => Some(
            StoreRequest::CreateBlockedWebsite { website: BlockedWebsite { id: 0, profile_id, domain } },
        ),
        Command::ListProfileWebsites { profile_id } => Some(
            StoreRequest::ListBlockedWebsites { profile_id },
        ),
        Command::DeleteProfileWebsite { id } => Some(StoreRequest::DeleteBlockedWebsite { id }),
        Command::AddProfileApp { profile_id, app_identifier } => Some(
            StoreRequest::CreateBlockedApp { app: BlockedApp { id: 0, profile_id, app_identifier } },
        ),
        Command::ListProfileApps { profile_id } => Some(StoreRequest::ListBlockedApps { profile_id }),
        Command::DeleteProfileApp { id } => Some(StoreRequest::DeleteBlockedApp { id }),
        Command::AddDomRule { profile_id, site, toggle } => Some(
            StoreRequest::CreateDomRule { rule: DomRule { id: 0, profile_id, site, toggle } },
        ),
        Command::ListDomRules { profile_id } => Some(StoreRequest::ListDomRules { profile_id }),
        Command::DeleteDomRule { id } => Some(StoreRequest::DeleteDomRule { id }),
        _ => None,
    }
}

/// Whether a record command can change the policy in force, so that the
/// daemon recomputes it afterwards.
pub open spec fn changes_policy(c: Command) -> bool {
    match c {
        Command::ListWebsites
        | Command::GetProfile { .. }
        | Command::ListProfiles
        | Command::ListSchedules { .. }
        | Command::ListProfileWebsites { .. }
        | Command::ListProfileApps { .. }
        | Command::ListDomRules { .. } => false,
        _ => true,
    }
}

/// What happens to the daemon: a command, a clock tick, or the outcome of
/// the outside work that the previous step asked for.
#[derive(Debug)]
pub enum Event {
    Command(Command),
    /// The clock ticked; `check_key` names the current minute (day and
    /// time), so that the policy is looked at once a minute.
    Tick { check_key: String },
    /// The policy in force was computed, or the store failed.
    PolicyLoaded(Result<ActivePolicy, DbError>),
    /// The record store answered a request.
    StoreDone(Result<StoreReply, DbError>),
    /// The hosts file was rewritten, or the rewrite failed.
    HostsWritten(Result<(), FsError>),
}

/// The outside work the daemon waits for.
#[derive(Debug)]
pub enum Pending {
    /// Nothing: the daemon takes the next command or tick.
    Ready,
    /// The first policy, loaded when the daemon starts.
    InitialPolicy,
    /// The policy for a session about to start.
    StartPolicy { duration_secs: u64 },
    /// The blocks of a session about to start.
    StartBlocks { duration_secs: u64 },
    /// The policy asked for by a command.
    AnswerPolicy,
    /// The store's answer to a command; `refresh` when the policy is to be
    /// recomputed afterwards.
    AnswerStore { refresh: bool },
    /// The policy, recomputed after a change to the records.
    Refresh,
    /// The removal of the blocks of a session whose time is up.
    ExpireBlocks { check_key: String },
    /// The policy, looked at in a new minute.
    TickPolicy,
    /// The blocks written for a changed policy during a session.
    TickBlocks { policy: ActivePolicy },
}

/// Whether `event` is one the daemon waits for while `pending`.
pub open spec fn expects(pending: Pending, event: Event) -> bool {
    match pending {
        Pending::Ready => event is Command || event is Tick,
        Pending::InitialPolicy | Pending::StartPolicy { .. } | Pending::AnswerPolicy
        | Pending::Refresh | Pending::TickPolicy => event is PolicyLoaded,
        Pending::AnswerStore { .. } => event is StoreDone,
        Pending::StartBlocks { .. } | Pending::ExpireBlocks { .. } | Pending::TickBlocks {
            ..
        } => event is HostsWritten,
    }
}

/// The reply to the command being served.
#[derive(Debug)]
pub enum Reply {
    /// To `Start`, `Stop` and `Shutdown`.
    Unit(Result<(), DaemonError>),
    /// To `GetStatus`.
    Status(Session),
    /// To a record command.
    Store(Result<StoreReply, DaemonError>),
    /// To `GetActivePolicy`.
    Policy(Result<ActivePolicy, DaemonError>),
}

/// The outside work to do next.
#[derive(Debug)]
pub enum Action {
    /// None: wait for the next command or tick.
    Wait,
    /// Leave the loop and clean up.
    Exit,
    /// Compute the policy in force now; hand back `PolicyLoaded`.
    LoadPolicy,
    /// Ask the record store; hand back `StoreDone`.
    Store(StoreRequest),
    /// Write a block of these sites into the hosts file; hand back
    /// `HostsWritten`.
    AddBlocks(Vec<String>),
    /// Take the block out of the hosts file; hand back `HostsWritten`.
    RemoveBlocks,
}

/// What one step gives.
#[derive(Debug)]
pub struct Step {
    pub reply: Option<Reply>,
    pub action: Action,
    /// The session to announce to session subscribers.
    pub publish_session: Option<Session>,
    /// The policy to announce to policy subscribers.
    pub publish_policy: Option<ActivePolicy>,
}

/// The daemon's state.
#[derive(Debug)]
pub struct DaemonState {
    pub session: Session,
    /// The policy last computed.
    pub cached_policy: ActivePolicy,
    /// The minute in which the policy was last looked at on a tick.
    pub last_policy_check: Option<String>,
    pub pending: Pending,
}

/// A step that announces nothing.
pub open spec fn quiet(st: Step) -> bool {
    st.publish_session is None && st.publish_policy is None
}

/// A step that only waits for the next command or tick.
pub open spec fn idle_step(st: Step) -> bool {
    quiet(st) && st.reply is None && st.action is Wait
}

/// A step that asks for the policy in force and replies nothing yet.
pub open spec fn load_step(st: Step) -> bool {
    quiet(st) && st.reply is None && st.action is LoadPolicy
}

/// The state `s` waiting for `p`, otherwise unchanged.
pub open spec fn awaiting(s: DaemonState, p: Pending) -> DaemonState {
    DaemonState { pending: p, ..s }
}

/// Whether `st` replies to `Start`, `Stop` or `Shutdown` with an error of
/// the session and the text `m`.
pub open spec fn refused_with(st: Step, m: Seq<char>) -> bool {
    st.reply matches Some(Reply::Unit(Err(DaemonError::Session(t)))) && t@ == m
}

/// Whether the policy was already looked at in the minute `key`.
pub open spec fn checked_in(s: DaemonState, key: Seq<char>) -> bool {
    s.last_policy_check matches Some(k) && k@ == key
}

/// A command served from state `s` at `now` gives state `t` and step `st`.
pub open spec fn command_done(s: DaemonState, c: Command, now: u64, t: DaemonState, st: Step) -> bool {
    match c {
        Command::Start { duration_secs } => if s.session is Active {
            &&& t == s
            &&& quiet(st) && st.action is Wait
            &&& refused_with(st, "Session already active"@)
        } else {
            t == awaiting(s, Pending::StartPolicy { duration_secs }) && load_step(st)
        },
        Command::Stop => {
            &&& t == s
            &&& quiet(st) && st.action is Wait
            &&& if s.session is Active {
                refused_with(st, "Cannot stop active session. Stay focused!"@)
            } else {
                st.reply == Some(Reply::Unit(Ok(())))
            }
        },
        Command::GetStatus => {
            &&& t == s
            &&& quiet(st) && st.action is Wait
            &&& st.reply == Some(Reply::Status(s.session))
        },
        Command::Shutdown { force } => {
            &&& t == s
            &&& quiet(st)
            &&& if s.session is Active && !force {
                &&& st.action is Wait
                &&& st.reply == Some(
                    Reply::Unit(Err(DaemonError::ShutdownBlocked(
                        (s.session.remaining_at(now) / 1000) as u64,
                    ))),
                )
            } else {
                st.action is Exit && st.reply == Some(Reply::Unit(Ok(())))
            }
        },
        Command::GetActivePolicy => t == awaiting(s, Pending::AnswerPolicy) && load_step(st),
        Command::PolicyMaybeChanged => t == awaiting(s, Pending::Refresh) && load_step(st),
        _ => {
            &&& t == awaiting(s, Pending::AnswerStore { refresh: changes_policy(c) })
            &&& quiet(st) && st.reply is None
            &&& store_request_for(c) matches Some(r) && st.action == Action::Store(r)
        },
    }
}

/// The part of a tick that looks at the policy once a minute, from state
/// `s` (whose session has been settled) in the minute `key`: the step `st`
/// replies and announces no policy; the session is announced or not by the
/// caller.
pub open spec fn policy_checked(s: DaemonState, key: String, t: DaemonState, st: Step) -> bool {
    &&& st.reply is None && st.publish_policy is None
    &&& if checked_in(s, key@) {
        t == awaiting(s, Pending::Ready) && st.action is Wait
    } else {
        &&& t == DaemonState {
            last_policy_check: Some(key),
            pending: Pending::TickPolicy,
            ..s
        }
        &&& st.action is LoadPolicy
    }
}

/// A tick in the minute `key` at `now`, from state `s`, gives `t` and `st`:
/// a session whose time is up has its blocks removed first.
pub open spec fn tick_done(s: DaemonState, key: String, now: u64, t: DaemonState, st: Step) -> bool {
    if s.session is Active && s.session.remaining_at(now) == 0 {
        &&& t == awaiting(s, Pending::ExpireBlocks { check_key: key })
        &&& quiet(st) && st.reply is None && st.action is RemoveBlocks
    } else {
        st.publish_session is None && policy_checked(s, key, t, st)
    }
}

/// Whether `st` announces a policy that is the same as `p`.
pub open spec fn announces(st: Step, p: ActivePolicy) -> bool {
    st.publish_policy matches Some(q) && same_policy(q, p)
}

/// The session started at `now` for `duration_secs`.
pub open spec fn started(duration_secs: u64, now: u64) -> Session {
    Session::Active(ActiveSession { started_at_ms: now, duration_secs })
}

/// The computed policy (or the store's failure) `loaded` arrives in state
/// `s` at `now` and gives `t` and `st`.
///
/// On a tick, a changed policy is applied: while a session runs and the new
/// policy blocks some sites, the hosts file gets the new policy's sites
/// (not those of the policy it replaces), and the new policy is cached and
/// announced once they are written.
pub open spec fn policy_done(
    s: DaemonState,
    loaded: Result<ActivePolicy, DbError>,
    now: u64,
    t: DaemonState,
    st: Step,
) -> bool {
    match s.pending {
        Pending::InitialPolicy => idle_step(st) && match loaded {
            Ok(p) => t == DaemonState { cached_policy: p, pending: Pending::Ready, ..s },
            Err(_) => t == awaiting(s, Pending::Ready),
        },
        Pending::StartPolicy { duration_secs } => match loaded {
            Ok(p) => if p.blocked_websites@.len() == 0 {
                &&& t == DaemonState {
                    session: started(duration_secs, now),
                    cached_policy: p,
                    pending: Pending::Ready,
                    ..s
                }
                &&& st.reply == Some(Reply::Unit(Ok(())))
                &&& st.action is Wait
                &&& st.publish_session == Some(started(duration_secs, now))
                &&& st.publish_policy is None
            } else {
                &&& t == DaemonState {
                    cached_policy: p,
                    pending: Pending::StartBlocks { duration_secs },
                    ..s
                }
                &&& quiet(st) && st.reply is None
                &&& st.action matches Action::AddBlocks(w) && w@ == p.blocked_websites@
            },
            Err(e) => {
                &&& t == awaiting(s, Pending::Ready)
                &&& quiet(st) && st.action is Wait
                &&& st.reply == Some(Reply::Unit(Err(DaemonError::Database(e))))
            },
        },
        Pending::AnswerPolicy => {
            &&& t == awaiting(s, Pending::Ready)
            &&& quiet(st) && st.action is Wait
            &&& st.reply == Some(
                Reply::Policy(
                    match loaded {
                        Ok(p) => Ok(p),
                        Err(e) => Err(DaemonError::Database(e)),
                    },
                ),
            )
        },
        Pending::Refresh => match loaded {
            Ok(p) => if !same_policy(p, s.cached_policy) {
                &&& t == DaemonState { cached_policy: p, pending: Pending::Ready, ..s }
                &&& st.reply is None && st.action is Wait && st.publish_session is None
                &&& announces(st, p)
            } else {
                t == awaiting(s, Pending::Ready) && idle_step(st)
            },
            Err(_) => t == awaiting(s, Pending::Ready) && idle_step(st),
        },
        Pending::TickPolicy => match loaded {
            Ok(p) => if !same_policy(p, s.cached_policy) {
                if s.session is Active && p.blocked_websites@.len() > 0 {
                    &&& t == awaiting(s, Pending::TickBlocks { policy: p })
                    &&& quiet(st) && st.reply is None
                    &&& st.action matches Action::AddBlocks(w) && w@ == p.blocked_websites@
                } else {
                    &&& t == DaemonState { cached_policy: p, pending: Pending::Ready, ..s }
                    &&& st.reply is None && st.action is Wait && st.publish_session is None
                    &&& announces(st, p)
                }
            } else {
                t == awaiting(s, Pending::Ready) && idle_step(st)
            },
            Err(_) => t == awaiting(s, Pending::Ready) && idle_step(st),
        },
        _ => false,
    }
}

/// The store's outcome arrives in state `s` and gives `t` and `st`: it is
/// the reply, and the policy is recomputed after a change.
pub open spec fn store_done(
    s: DaemonState,
    outcome: Result<StoreReply, DbError>,
    t: DaemonState,
    st: Step,
) -> bool {
    &&& s.pending matches Pending::AnswerStore { refresh }
    &&& quiet(st)
    &&& st.reply == Some(
        Reply::Store(
            match outcome {
                Ok(r) => Ok(r),
                Err(e) => Err(DaemonError::Database(e)),
            },
        ),
    )
    &&& if refresh {
        t == awaiting(s, Pending::Refresh) && st.action is LoadPolicy
    } else {
        t == awaiting(s, Pending::Ready) && st.action is Wait
    }
}

/// The outcome of a hosts-file rewrite arrives in state `s` at `now` and
/// gives `t` and `st`.
pub open spec fn hosts_done(
    s: DaemonState,
    written: Result<(), FsError>,
    now: u64,
    t: DaemonState,
    st: Step,
) -> bool {
    match s.pending {
        Pending::StartBlocks { duration_secs } => match written {
            Ok(()) => {
                &&& t == DaemonState {
                    session: started(duration_secs, now),
                    pending: Pending::Ready,
                    ..s
                }
                &&& st.reply == Some(Reply::Unit(Ok(())))
                &&& st.action is Wait
                &&& st.publish_session == Some(started(duration_secs, now))
                &&& st.publish_policy is None
            },
            Err(e) => {
                &&& t == awaiting(s, Pending::Ready)
                &&& quiet(st) && st.action is Wait
                &&& st.reply == Some(Reply::Unit(Err(DaemonError::Fs(e))))
            },
        },
        Pending::ExpireBlocks { check_key } => {
            let ended = DaemonState { session: Session::Idle(IdleSession {  }), ..s };
            &&& st.publish_session == Some(Session::Idle(IdleSession {  }))
            &&& policy_checked(ended, check_key, t, st)
        },
        Pending::TickBlocks { policy } => {
            &&& t == DaemonState { cached_policy: policy, pending: Pending::Ready, ..s }
            &&& st.reply is None && st.action is Wait && st.publish_session is None
            &&& announces(st, policy)
        },
        _ => false,
    }
}

// ─────────────────────────────────────────────────────────────────────────────
// The state machine
// ─────────────────────────────────────────────────────────────────────────────

fn step_of(reply: Option<Reply>, action: Action) -> (st: Step)
    ensures
        st.reply == reply,
        st.action == action,
        quiet(st),
{
    Step { reply, action, publish_session: None, publish_policy: None }
}

fn refusal(text: &str) -> (st: Step)
    ensures
        refused_with(st, text@),
        quiet(st),
        st.action is Wait,
{
    step_of(Some(Reply::Unit(Err(DaemonError::Session(String::from_str(text))))), Action::Wait)
}

/// Whether a record command can change the policy in force.
pub fn command_changes_policy(c: &Command) -> (b: bool)
    ensures
        b == changes_policy(*c),
{
    match c {
        Command::ListWebsites
        | Command::GetProfile { .. }
        | Command::ListProfiles
        | Command::ListSchedules { .. }
        | Command::ListProfileWebsites { .. }
        | Command::ListProfileApps { .. }
        | Command::ListDomRules { .. } => false,
        _ => true,
    }
}

/// The store request that a record command is carried out by.
pub fn store_request(c: Command) -> (r: StoreRequest)
    requires
        store_request_for(c) is Some,
    ensures
        store_request_for(c) == Some(r),
{
    match c {
        Command::AddWebsite { url } => StoreRequest::AddGlobalWebsite { domain: url },
        Command::RemoveWebsite { url } => StoreRequest::RemoveGlobalWebsite { domain: url },
        Command::ListWebsites => StoreRequest::ListGlobalWebsites,
        Command::CreateProfile { name } => StoreRequest::CreateProfile { name },
        Command::GetProfile { id } => StoreRequest::GetProfile { id },
        Command::ListProfiles => StoreRequest::ListProfiles,
        Command::UpdateProfile { profile } => StoreRequest::UpdateProfile { profile },
        Command::DeleteProfile { id } => StoreRequest::DeleteProfile { id },
        Command::CreateSchedule { schedule } => StoreRequest::CreateSchedule { schedule },
        Command::ListSchedules { profile_id } => StoreRequest::ListSchedules { profile_id },
        Command::DeleteSchedule { id } => StoreRequest::DeleteSchedule { id },
        Command::AddProfileWebsite { profile_id, domain } => StoreRequest::CreateBlockedWebsite {
            website: BlockedWebsite { id: 0, profile_id, domain },
        },
        Command::ListProfileWebsites { profile_id } => StoreRequest::ListBlockedWebsites {
            profile_id,
        },
        Command::DeleteProfileWebsite { id } => StoreRequest::DeleteBlockedWebsite { id },
        Command::AddProfileApp { profile_id, app_identifier } => StoreRequest::CreateBlockedApp {
            app: BlockedApp { id: 0, profile_id, app_identifier },
        },
        Command::ListProfileApps { profile_id } => StoreRequest::ListBlockedApps { profile_id },
        Command::DeleteProfileApp { id } => StoreRequest::DeleteBlockedApp { id },
        Command::AddDomRule { profile_id, site, toggle } => StoreRequest::CreateDomRule {
            rule: DomRule { id: 0, profile_id, site, toggle },
        },
        Command::ListDomRules { profile_id } => StoreRequest::ListDomRules { profile_id },
        Command::DeleteDomRule { id } => StoreRequest::DeleteDomRule { id },
        _ => StoreRequest::ListGlobalWebsites,
    }
}

impl DaemonState {
    /// Whether the state is one the daemon can be in: a session is started
    /// only from idle, and blocks are removed for expiry only from a
    /// running session.
    pub open spec fn wf(self) -> bool {
        &&& (self.pending is StartPolicy || self.pending is StartBlocks) ==> self.session is Idle
        &&& self.pending is ExpireBlocks ==> self.session is Active
    }

    /// A daemon with no session running and an empty policy.
    pub fn new() -> (s: Self)
        ensures
            s.session == Session::Idle(IdleSession {  }),
            s.cached_policy.blocked_websites@.len() == 0,
            s.cached_policy.blocked_apps@.len() == 0,
            s.cached_policy.dom_rules@.len() == 0,
            s.last_policy_check is None,
            s.pending is Ready,
            s.wf(),
    {
        DaemonState {
            session: Session::Idle(IdleSession {  }),
            cached_policy: ActivePolicy::empty(),
            last_policy_check: None,
            pending: Pending::Ready,
        }
    }

    /// Whether the daemon waits for `event` now.
    pub fn expects_event(&self, event: &Event) -> (b: bool)
        ensures
            b == expects(self.pending, *event),
    {
        match self.pending {
            Pending::Ready => match event {
                Event::Command(_) | Event::Tick { .. } => true,
                _ => false,
            },
            Pending::InitialPolicy | Pending::StartPolicy { .. } | Pending::AnswerPolicy
            | Pending::Refresh | Pending::TickPolicy => match event {
                Event::PolicyLoaded(_) => true,
                _ => false,
            },
            Pending::AnswerStore { .. } => match event {
                Event::StoreDone(_) => true,
                _ => false,
            },
            Pending::StartBlocks { .. } | Pending::ExpireBlocks { .. } | Pending::TickBlocks {
                ..
            } => match event {
                Event::HostsWritten(_) => true,
                _ => false,
            },
        }
    }

    /// The first step, when the daemon starts: announce the session and
    /// load the policy in force.
    pub fn begin(&mut self) -> (st: Step)
        requires
            old(self).pending is Ready,
        ensures
            *final(self) == awaiting(*old(self), Pending::InitialPolicy),
            final(self).wf(),
            st.reply is None,
            st.action is LoadPolicy,
            st.publish_session == Some(old(self).session),
            st.publish_policy is None,
    {
        self.pending = Pending::InitialPolicy;
        Step {
            reply: None,
            action: Action::LoadPolicy,
            publish_session: Some(self.session),
            publish_policy: None,
        }
    }

    /// Takes the next event at `now_ms` (milliseconds on the daemon's
    /// monotonic clock).
    pub fn step(&mut self, event: Event, now_ms: u64) -> (st: Step)
        requires
            old(self).wf(),
            expects(old(self).pending, event),
        ensures
            final(self).wf(),
            event matches Event::Command(c) ==> command_done(
                *old(self),
                c,
                now_ms,
                *final(self),
                st,
            ),
            event matches Event::Tick { check_key } ==> tick_done(
                *old(self),
                check_key,
                now_ms,
                *final(self),
                st,
            ),
            event matches Event::PolicyLoaded(r) ==> policy_done(
                *old(self),
                r,
                now_ms,
                *final(self),
                st,
            ),
            event matches Event::StoreDone(r) ==> store_done(*old(self), r, *final(self), st),
            event matches Event::HostsWritten(r) ==> hosts_done(
                *old(self),
                r,
                now_ms,
                *final(self),
                st,
            ),
            // A running session keeps its start and length ...
            old(self).session is Active && final(self).session is Active ==> final(self).session
                == old(self).session,
            // ... and ends only when the removal of its blocks, begun on a
            // tick at which its time was up, has been done.
            old(self).session is Active && !(final(self).session is Active) ==> old(
                self,
            ).pending is ExpireBlocks && event is HostsWritten,
            final(self).pending is ExpireBlocks ==> event is Tick && old(self).session is Active
                && old(self).session.remaining_at(now_ms) == 0,
    {
        let st = match event {
            Event::Command(c) => self.on_command(c, now_ms),
            Event::Tick { check_key } => self.on_tick(check_key, now_ms),
            Event::PolicyLoaded(r) => self.on_policy(r, now_ms),
            Event::StoreDone(r) => self.on_store(r),
            Event::HostsWritten(r) => self.on_hosts(r, now_ms),
        };
        st
    }

    fn on_command(&mut self, command: Command, now_ms: u64) -> (st: Step)
        requires
            old(self).pending is Ready,
        ensures
            command_done(*old(self), command, now_ms, *final(self), st),
            final(self).session == old(self).session,
    {
        match command {
            Command::Start { duration_secs } => {
                if self.session.is_active() {
                    refusal("Session already active")
                } else {
                    self.pending = Pending::StartPolicy { duration_secs };
                    step_of(None, Action::LoadPolicy)
                }
            },
            Command::Stop => {
                if self.session.is_active() {
                    refusal("Cannot stop active session. Stay focused!")
                } else {
                    step_of(Some(Reply::Unit(Ok(()))), Action::Wait)
                }
            },
            Command::GetStatus => step_of(Some(Reply::Status(self.session)), Action::Wait),
            Command::Shutdown { force } => {
                if self.session.is_active() && !force {
                    let remaining = self.session.remaining_secs(now_ms);
                    step_of(
                        Some(Reply::Unit(Err(DaemonError::ShutdownBlocked(remaining)))),
                        Action::Wait,
                    )
                } else {
                    step_of(Some(Reply::Unit(Ok(()))), Action::Exit)
                }
            },
            Command::GetActivePolicy => {
                self.pending = Pending::AnswerPolicy;
                step_of(None, Action::LoadPolicy)
            },
            Command::PolicyMaybeChanged => {
                self.pending = Pending::Refresh;
                step_of(None, Action::LoadPolicy)
            },
            other => {
                let refresh = command_changes_policy(&other);
                let request = store_request(other);
                self.pending = Pending::AnswerStore { refresh };
                step_of(None, Action::Store(request))
            },
        }
    }

    /// Looks at the policy once a minute.
    fn check_policy(&mut self, key: String) -> (st: Step)
        ensures
            policy_checked(*old(self), key, *final(self), st),
            st.publish_session is None,
    {
        let already = match &self.last_policy_check {
            Some(k) => *k == key,
            None => false,
        };
        if already {
            self.pending = Pending::Ready;
            step_of(None, Action::Wait)
        } else {
            self.last_policy_check = Some(key);
            self.pending = Pending::TickPolicy;
            step_of(None, Action::LoadPolicy)
        }
    }

    fn on_tick(&mut self, check_key: String, now_ms: u64) -> (st: Step)
        requires
            old(self).pending is Ready,
        ensures
            tick_done(*old(self), check_key, now_ms, *final(self), st),
    {
        if self.session.is_active() && self.session.remaining_ms(now_ms) == 0 {
            self.pending = Pending::ExpireBlocks { check_key };
            step_of(None, Action::RemoveBlocks)
        } else {
            self.check_policy(check_key)
        }
    }

    fn on_policy(&mut self, loaded: Result<ActivePolicy, DbError>, now_ms: u64) -> (st: Step)
        requires
            expects(old(self).pending, Event::PolicyLoaded(loaded)),
        ensures
            policy_done(*old(self), loaded, now_ms, *final(self), st),
    {
        let mut pending = Pending::Ready;
        std::mem::swap(&mut pending, &mut self.pending);
        match pending {
            Pending::InitialPolicy => {
                match loaded {
                    Ok(p) => {
                        self.cached_policy = p;
                    },
                    Err(_) => {},
                }
                step_of(None, Action::Wait)
            },
            Pending::StartPolicy { duration_secs } => match loaded {
                Ok(p) => {
                    if p.blocked_websites.len() == 0 {
                        self.cached_policy = p;
                        self.session = Session::Active(IdleSession {  }.start(duration_secs, now_ms));
                        Step {
                            reply: Some(Reply::Unit(Ok(()))),
                            action: Action::Wait,
                            publish_session: Some(self.session),
                            publish_policy: None,
                        }
                    } else {
                        let websites = copy_texts(&p.blocked_websites);
                        self.cached_policy = p;
                        self.pending = Pending::StartBlocks { duration_secs };
                        step_of(None, Action::AddBlocks(websites))
                    }
                },
                Err(e) => step_of(
                    Some(Reply::Unit(Err(DaemonError::Database(e)))),
                    Action::Wait,
                ),
            },
            Pending::AnswerPolicy => {
                let answer = match loaded {
                    Ok(p) => Ok(p),
                    Err(e) => Err(DaemonError::Database(e)),
                };
                step_of(Some(Reply::Policy(answer)), Action::Wait)
            },
            Pending::Refresh => match loaded {
                Ok(p) => {
                    if !policies_equal(&p, &self.cached_policy) {
                        let announced = copy_policy(&p);
                        self.cached_policy = p;
                        Step {
                            reply: None,
                            action: Action::Wait,
                            publish_session: None,
                            publish_policy: Some(announced),
                        }
                    } else {
                        step_of(None, Action::Wait)
                    }
                },
                Err(_) => step_of(None, Action::Wait),
            },
            Pending::TickPolicy => match loaded {
                Ok(p) => {
                    if !policies_equal(&p, &self.cached_policy) {
                        if self.session.is_active() && p.blocked_websites.len() > 0 {
                            let websites = copy_texts(&p.blocked_websites);
                            self.pending = Pending::TickBlocks { policy: p };
                            step_of(None, Action::AddBlocks(websites))
                        } else {
                            let announced = copy_policy(&p);
                            self.cached_policy = p;
                            Step {
                                reply: None,
                                action: Action::Wait,
                                publish_session: None,
                                publish_policy: Some(announced),
                            }
                        }
                    } else {
                        step_of(None, Action::Wait)
                    }
                },
                Err(_) => step_of(None, Action::Wait),
            },
            _ => step_of(None, Action::Wait),
        }
    }

    fn on_store(&mut self, outcome: Result<StoreReply, DbError>) -> (st: Step)
        requires
            old(self).pending is AnswerStore,
        ensures
            store_done(*old(self), outcome, *final(self), st),
    {
        let refresh = match self.pending {
            Pending::AnswerStore { refresh } => refresh,
            _ => false,
        };
        let answer = match outcome {
            Ok(r) => Ok(r),
            Err(e) => Err(DaemonError::Database(e)),
        };
        if refresh {
            self.pending = Pending::Refresh;
            step_of(Some(Reply::Store(answer)), Action::LoadPolicy)
        } else {
            self.pending = Pending::Ready;
            step_of(Some(Reply::Store(answer)), Action::Wait)
        }
    }

    fn on_hosts(&mut self, written: Result<(), FsError>, now_ms: u64) -> (st: Step)
        requires
            expects(old(self).pending, Event::HostsWritten(written)),
        ensures
            hosts_done(*old(self), written, now_ms, *final(self), st),
    {
        let mut pending = Pending::Ready;
        std::mem::swap(&mut pending, &mut self.pending);
        match pending {
            Pending::StartBlocks { duration_secs } => match written {
                Ok(()) => {
                    self.session = Session::Active(IdleSession {  }.start(duration_secs, now_ms));
                    Step {
                        reply: Some(Reply::Unit(Ok(()))),
                        action: Action::Wait,
                        publish_session: Some(self.session),
                        publish_policy: None,
                    }
                },
                Err(e) => step_of(Some(Reply::Unit(Err(DaemonError::Fs(e)))), Action::Wait),
            },
            Pending::ExpireBlocks { check_key } => {
                self.session = Session::Idle(IdleSession {  });
                let st = self.check_policy(check_key);
                Step {
                    reply: st.reply,
                    action: st.action,
                    publish_session: Some(Session::Idle(IdleSession {  })),
                    publish_policy: st.publish_policy,
                }
            },
            Pending::TickBlocks { policy } => {
                let announced = copy_policy(&policy);
                self.cached_policy = policy;
                Step {
                    reply: None,
                    action: Action::Wait,
                    publish_session: None,
                    publish_policy: Some(announced),
                }
            },
            _ => step_of(None, Action::Wait),
        }
    }
}

/// One step of the daemon: state `s` takes event `e` at `now` and becomes
/// `t`, giving `st`.
pub open spec fn transition(s: DaemonState, e: Event, now: u64, t: DaemonState, st: Step) -> bool {
    match e {
        Event::Command(c) => command_done(s, c, now, t, st),
        Event::Tick { check_key } => tick_done(s, check_key, now, t, st),
        Event::PolicyLoaded(r) => policy_done(s, r, now, t, st),
        Event::StoreDone(r) => store_done(s, r, t, st),
        Event::HostsWritten(r) => hosts_done(s, r, now, t, st),
    }
}

/// A record command that changes the records (any store request but a
/// read) makes the daemon recompute the policy once the store has answered,
/// whatever the answer; a read does not. The command goes to the store
/// first, and the reply to the client is the store's answer either way.
pub proof fn lemma_record_change_recomputes_policy(
    s: DaemonState,
    c: Command,
    outcome: Result<StoreReply, DbError>,
    now: u64,
    t: DaemonState,
    st: Step,
    u: DaemonState,
    st2: Step,
)
    requires
        store_request_for(c) is Some,
        transition(s, Event::Command(c), now, t, st),
        transition(t, Event::StoreDone(outcome), now, u, st2),
    ensures
        st.action == Action::Store(store_request_for(c)->0),
        st.reply is None,
        st2.reply == Some(
            Reply::Store(
                match outcome {
                    Ok(r) => Ok(r),
                    Err(e) => Err(DaemonError::Database(e)),
                },
            ),
        ),
        !only_reads(store_request_for(c)->0) ==> st2.action is LoadPolicy && u.pending is Refresh,
        only_reads(store_request_for(c)->0) ==> st2.action is Wait && u.pending is Ready,
{
}

/// Cold turkey: a running session is not stopped by any step other than
/// the completion of the removal of its blocks, and keeps its start and
/// length.
pub proof fn lemma_session_runs_until_expiry(
    s: DaemonState,
    e: Event,
    now: u64,
    t: DaemonState,
    st: Step,
)
    requires
        s.wf(),
        expects(s.pending, e),
        transition(s, e, now, t, st),
        s.session is Active,
        !(s.pending is ExpireBlocks),
    ensures
        t.session == s.session,
{
}

/// The removal of a session's blocks for expiry is begun only by a tick at
/// which the session has no time left.
pub proof fn lemma_expiry_only_when_time_is_up(
    s: DaemonState,
    e: Event,
    now: u64,
    t: DaemonState,
    st: Step,
)
    requires
        s.wf(),
        expects(s.pending, e),
        transition(s, e, now, t, st),
        t.pending is ExpireBlocks,
    ensures
        e is Tick,
        s.session is Active,
        s.session.remaining_at(now) == 0,
{
}

/// Cold turkey: while a session runs, the daemon leaves its loop only on a
/// forced shutdown; a stop is refused and the session goes on.
pub proof fn lemma_no_way_out_during_session(
    s: DaemonState,
    c: Command,
    now: u64,
    t: DaemonState,
    st: Step,
)
    requires
        s.wf(),
        s.pending is Ready,
        command_done(s, c, now, t, st),
        s.session is Active,
    ensures
        st.action is Exit ==> (c matches Command::Shutdown { force } && force),
        c is Stop ==> refused_with(st, "Cannot stop active session. Stay focused!"@),
        t.session == s.session,
{
}

/// A session that is started runs for the asked length from the moment its
/// blocks are in place.
pub proof fn lemma_start_runs_for_asked_length(
    s: DaemonState,
    e: Event,
    now: u64,
    t: DaemonState,
    st: Step,
)
    requires
        s.wf(),
        expects(s.pending, e),
        transition(s, e, now, t, st),
        !(s.session is Active),
        t.session is Active,
    ensures
        s.pending matches Pending::StartPolicy { duration_secs } ==> t.session == started(
            duration_secs,
            now,
        ),
        s.pending matches Pending::StartBlocks { duration_secs } ==> t.session == started(
            duration_secs,
            now,
        ),
        s.pending is StartPolicy || s.pending is StartBlocks,
        st.reply == Some(Reply::Unit(Ok(()))),
        st.publish_session == Some(t.session),
{
}

/// What the hosts file becomes when the daemon exits: its block taken out,
/// or nothing to write (`None`) when it has no block.
pub fn hosts_on_exit(content: &str) -> (r: Option<String>)
    ensures
        contains_text(content@, MARKER_START@) ==> (r matches Some(t) && t@ == removed_text(
            content@,
        )),
        !contains_text(content@, MARKER_START@) ==> r is None,
{
    if has_blocked_hosts(content) {
        Some(remove_blocked_hosts(content))
    } else {
        None
    }
}

/// Whether `s` begins with a sign, `+` or `-`.
pub open spec fn signed(s: Seq<char>) -> bool {
    s.len() > 0 && (s[0] == '+' || s[0] == '-')
}

/// The number that `s` writes in decimal as an `i32`, the way
/// `str::parse::<i32>` reads it: an optional `+` or `-`, then one or more
/// ASCII digits, whose value (negated after `-`) must fit in an `i32`;
/// none otherwise.
pub open spec fn parsed_i32(s: Seq<char>) -> Option<i32> {
    let digits = if signed(s) { s.skip(1) } else { s };
    let magnitude = decimal_value(digits) as int;
    let value = if signed(s) && s[0] == '-' { -magnitude } else { magnitude };
    if digits.len() > 0 && is_ascii_digits(digits) && i32::MIN <= value <= i32::MAX {
        Some(value as i32)
    } else {
        None
    }
}

/// Whether `s` from `start` on is ASCII digits only.
fn digits_from(s: &Vec<char>, start: usize) -> (b: bool)
    requires
        start <= s.len(),
    ensures
        b == is_ascii_digits(s@.skip(start as int)),
{
    let ghost digits = s@.skip(start as int);
    let n = s.len();
    let mut i: usize = start;
    while i < n
        invariant
            start <= i <= n,
            n == s.len(),
            digits == s@.skip(start as int),
            forall|j: int| 0 <= j < i - start ==> '0' <= #[trigger] digits[j] && digits[j] <= '9',
        decreases n - i,
    {
        if !('0' <= s[i] && s[i] <= '9') {
            assert(digits[i - start] == s@[i as int]);
            return false;
        }
        i += 1;
    }
    true
}

/// The value of the digits of `s` from `start` on, when it is at most
/// 2147483648 (the size of the negative `i32` range); none when above.
fn value_from(s: &Vec<char>, start: usize) -> (r: Option<u64>)
    requires
        start <= s.len(),
        is_ascii_digits(s@.skip(start as int)),
    ensures
        match r {
            Some(v) => v == decimal_value(s@.skip(start as int)) && v <= 2147483648,
            None => decimal_value(s@.skip(start as int)) > 2147483648,
        },
{
    let ghost digits = s@.skip(start as int);
    let n = s.len();
    let mut value: u64 = 0;
    let mut i: usize = start;
    while i < n
        invariant
            start <= i <= n,
            n == s.len(),
            digits == s@.skip(start as int),
            is_ascii_digits(digits),
            value == decimal_value(digits.take(i - start)),
            value <= 2147483648,
        decreases n - i,
    {
        proof {
            assert(digits[i - start] == s@[i as int]);
            lemma_decimal_value_step(digits, i - start);
        }
        let d = (s[i] as u32 - '0' as u32) as u64;
        value = value * 10 + d;
        if value > 2147483648 {
            proof {
                lemma_decimal_value_monotone(digits, i - start + 1);
            }
            return None;
        }
        i += 1;
    }
    assert(digits.take(n - start) =~= digits);
    Some(value)
}

/// Reads `s` as a decimal `i32`.
fn parse_i32(s: &Vec<char>) -> (r: Option<i32>)
    ensures
        r == parsed_i32(s@),
{
    let n = s.len();
    let start: usize = if n > 0 && (s[0] == '+' || s[0] == '-') { 1 } else { 0 };
    let negative = n > 0 && s[0] == '-';
    assert((if signed(s@) { s@.skip(1) } else { s@ }) =~= s@.skip(start as int));
    if start == n || !digits_from(s, start) {
        return None;
    }
    match value_from(s, start) {
        None => None,
        Some(value) => if negative {
            Some((0 - (value as i64)) as i32)
        } else if value <= 2147483647 {
            Some(value as i32)
        } else {
            None
        },
    }
}

/// The process id recorded in the text of a pid file: the text, trimmed,
/// read as a number.
pub fn recorded_pid(content: &str) -> (r: Option<i32>)
    ensures
        r == parsed_i32(trim(content@)),
{
    parse_i32(&trim_chars(&chars_of(content)))
}

/// The refusal to start when a daemon already runs as process `pid`.
pub fn already_running(pid: i32) -> (e: DaemonError)
    ensures
        e matches DaemonError::Config(m) && m@ == "Daemon already running with PID "@ + int_text(
            pid as i64,
        ),
{
    let mut out: Vec<char> = Vec::new();
    push_str(&mut out, "Daemon already running with PID ");
    push_int(&mut out, pid as i64);
    DaemonError::Config(string_from_chars(&out))
}

} // verus!
