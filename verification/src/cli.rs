//! The command-line client: the request each command sends, and the text
//! each answer is shown as.

use vstd::prelude::*;
use crate::duration::{
    decimal_text, duration_fits, duration_text, format_duration, parse_time_to_seconds,
    parsed_duration, push_decimal,
};
use crate::model::{ActivePolicy, BlockedApp, BlockedWebsite, DomRule, ManualSession, Profile, Schedule, ScheduleType};
use crate::protocol::{ClientMessage, DaemonMessage};
use crate::text::{contains_text, push_str, string_from_chars};

verus! {

/// A command given on the command line.
#[derive(Debug)]
pub enum CliCommand {
    /// Start the daemon process
    Daemon,
    /// Start a focus session (e.g. "25m", "1h30m")
    Start { duration: String },
    /// Stop the current session (blocked during active session)
    Stop,
    /// Check session status
    Status,
    /// Add a website to the global block list
    AddGlobal { domain: String },
    /// Remove a website from the global block list
    RemoveGlobal { domain: String },
    /// List all globally blocked websites
    ListGlobal,
    /// Create a new profile
    CreateProfile { name: String },
    /// List all profiles
    ListProfiles,
    /// Delete a profile
    DeleteProfile { id: String },
    /// List all schedules for a profile
    ListSchedules { profile_id: String },
    /// Delete a schedule
    DeleteSchedule { id: i64 },
    /// Add a website to a profile's blocklist
    AddBlockedWebsite { profile_id: String, domain: String },
    /// List all blocked websites for a profile
    ListBlockedWebsites { profile_id: String },
    /// Remove a website from a profile's blocklist
    DeleteBlockedWebsite { id: i64 },
    /// Add an app to a profile's blocklist
    AddBlockedApp { profile_id: String, app_identifier: String },
    /// List all blocked apps for a profile
    ListBlockedApps { profile_id: String },
    /// Remove an app from a profile's blocklist
    DeleteBlockedApp { id: i64 },
    /// Add a DOM rule to a profile
    AddDomRule { profile_id: String, site: String, toggle: String },
    /// List all DOM rules for a profile
    ListDomRules { profile_id: String },
    /// Remove a DOM rule from a profile
    DeleteDomRule { id: i64 },
}

/// The request a client command other than `Daemon` and `Start` sends.
pub open spec fn request_of(cmd: CliCommand) -> ClientMessage {
    match cmd {
        CliCommand::Stop => ClientMessage::Stop,
        CliCommand::Status => ClientMessage::GetStatus,
        CliCommand::AddGlobal { domain } => ClientMessage::AddGlobalWebsite { domain },
        CliCommand::RemoveGlobal { domain } => ClientMessage::RemoveGlobalWebsite { domain },
        CliCommand::ListGlobal => ClientMessage::ListGlobalWebsites,
        CliCommand::CreateProfile { name } => ClientMessage::CreateProfile { name },
        CliCommand::ListProfiles => ClientMessage::ListProfiles,
        CliCommand::DeleteProfile { id } => ClientMessage::DeleteProfile { id },
        CliCommand::ListSchedules { profile_id } => ClientMessage::ListSchedules { profile_id },
        CliCommand::DeleteSchedule { id } => ClientMessage::DeleteSchedule { id },
        CliCommand::AddBlockedWebsite { profile_id, domain } => ClientMessage::CreateBlockedWebsite {
            website: BlockedWebsite { id: 0, profile_id, domain },
        },
        CliCommand::ListBlockedWebsites { profile_id } => ClientMessage::ListBlockedWebsites {
            profile_id,
        },
        CliCommand::DeleteBlockedWebsite { id } => ClientMessage::DeleteBlockedWebsite { id },
        CliCommand::AddBlockedApp { profile_id, app_identifier } => ClientMessage::CreateBlockedApp {
            app: BlockedApp { id: 0, profile_id, app_identifier },
        },
        CliCommand::ListBlockedApps { profile_id } => ClientMessage::ListBlockedApps { profile_id },
        CliCommand::DeleteBlockedApp { id } => ClientMessage::DeleteBlockedApp { id },
        CliCommand::AddDomRule { profile_id, site, toggle } => ClientMessage::CreateDomRule {
            rule: DomRule { id: 0, profile_id, site, toggle },
        },
        CliCommand::ListDomRules { profile_id } => ClientMessage::ListDomRules { profile_id },
        CliCommand::DeleteDomRule { id } => ClientMessage::DeleteDomRule { id },
        _ => ClientMessage::Ping,
    }
}

/// The complaint about a duration text that does not read.
pub open spec fn invalid_duration_text(duration: Seq<char>) -> Seq<char> {
    "Invalid duration '"@ + duration + "'. Use formats like 25m, 1h30m, 90s"@
}

/// The request a client command sends, or the complaint about its
/// duration when a `Start` duration does not read.
pub fn client_request(cmd: CliCommand) -> (r: Result<ClientMessage, String>)
    requires
        !(cmd is Daemon),
        cmd matches CliCommand::Start { duration } ==> duration_fits(duration@),
    ensures
        cmd matches CliCommand::Start { duration } ==> match parsed_duration(duration@) {
            Ok(n) => r == Ok::<ClientMessage, String>(ClientMessage::Start { duration: n as u64 }),
            Err(_) => r matches Err(t) && t@ == invalid_duration_text(duration@),
        },
        !(cmd is Start) ==> r == Ok::<ClientMessage, String>(request_of(cmd)),
{
    match cmd {
        CliCommand::Start { duration } => match parse_time_to_seconds(duration.as_str()) {
            Ok(seconds) => Ok(ClientMessage::Start { duration: seconds }),
            Err(_) => {
                let mut out: Vec<char> = Vec::new();
                push_str(&mut out, "Invalid duration '");
                push_str(&mut out, duration.as_str());
                push_str(&mut out, "'. Use formats like 25m, 1h30m, 90s");
                assert(out@ =~= invalid_duration_text(duration@));
                Err(string_from_chars(&out))
            },
        },
        CliCommand::Stop => Ok(ClientMessage::Stop),
        CliCommand::Status => Ok(ClientMessage::GetStatus),
        CliCommand::AddGlobal { domain } => Ok(ClientMessage::AddGlobalWebsite { domain }),
        CliCommand::RemoveGlobal { domain } => Ok(ClientMessage::RemoveGlobalWebsite { domain }),
        CliCommand::ListGlobal => Ok(ClientMessage::ListGlobalWebsites),
        CliCommand::CreateProfile { name } => Ok(ClientMessage::CreateProfile { name }),
        CliCommand::ListProfiles => Ok(ClientMessage::ListProfiles),
        CliCommand::DeleteProfile { id } => Ok(ClientMessage::DeleteProfile { id }),
        CliCommand::ListSchedules { profile_id } => Ok(ClientMessage::ListSchedules { profile_id }),
        CliCommand::DeleteSchedule { id } => Ok(ClientMessage::DeleteSchedule { id }),
        CliCommand::AddBlockedWebsite { profile_id, domain } => Ok(
            ClientMessage::CreateBlockedWebsite {
                website: BlockedWebsite { id: 0, profile_id, domain },
            },
        ),
        CliCommand::ListBlockedWebsites { profile_id } => Ok(
            ClientMessage::ListBlockedWebsites { profile_id },
        ),
        CliCommand::DeleteBlockedWebsite { id } => Ok(ClientMessage::DeleteBlockedWebsite { id }),
        CliCommand::AddBlockedApp { profile_id, app_identifier } => Ok(
            ClientMessage::CreateBlockedApp { app: BlockedApp { id: 0, profile_id, app_identifier } },
        ),
        CliCommand::ListBlockedApps { profile_id } => Ok(
            ClientMessage::ListBlockedApps { profile_id },
        ),
        CliCommand::DeleteBlockedApp { id } => Ok(ClientMessage::DeleteBlockedApp { id }),
        CliCommand::AddDomRule { profile_id, site, toggle } => Ok(
            ClientMessage::CreateDomRule { rule: DomRule { id: 0, profile_id, site, toggle } },
        ),
        CliCommand::ListDomRules { profile_id } => Ok(ClientMessage::ListDomRules { profile_id }),
        CliCommand::DeleteDomRule { id } => Ok(ClientMessage::DeleteDomRule { id }),
        CliCommand::Daemon => Ok(ClientMessage::Ping),
    }
}

// ─────────────────────────────────────────────────────────────────────────────
// How answers are shown
// ─────────────────────────────────────────────────────────────────────────────

/// The text shown for an answer, and where it goes.
#[derive(Debug)]
pub struct Shown {
    pub text: String,
    /// The answer is an error: the text goes to standard error and the
    /// client exits with status 1.
    pub is_error: bool,
}

/// `n` as `Display` writes it.
pub open spec fn int_text(n: i64) -> Seq<char> {
    if n < 0 {
        seq!['-'] + decimal_text((-n) as nat)
    } else {
        decimal_text(n as nat)
    }
}

/// `b` as `Display` writes it.
pub open spec fn bool_text(b: bool) -> Seq<char> {
    if b {
        "true"@
    } else {
        "false"@
    }
}

/// A schedule type as `Debug` writes it.
pub open spec fn schedule_type_debug(t: Option<ScheduleType>) -> Seq<char> {
    match t {
        Some(ScheduleType::Recurring) => "Some(Recurring)"@,
        Some(ScheduleType::OneTime) => "Some(OneTime)"@,
        None => "None"@,
    }
}

/// The texts of `items`, one after the other.
pub open spec fn joined<T>(items: Seq<T>, f: spec_fn(T) -> Seq<char>) -> Seq<char>
    decreases items.len(),
{
    if items.len() == 0 {
        seq![]
    } else {
        joined(items.drop_last(), f) + f(items.last())
    }
}

pub open spec fn profile_text(p: Profile) -> Seq<char> {
    "ID: "@ + p.id@ + "\nName: "@ + p.name@ + "\nEnabled: "@ + bool_text(p.enabled) + "\n"@
}

pub open spec fn schedule_text(s: Schedule) -> Seq<char> {
    "ID: "@ + int_text(s.id) + "\nProfile ID: "@ + s.profile_id@ + "\nType: "@
        + schedule_type_debug(s.schedule_type) + "\n"@
}

pub open spec fn website_text(w: BlockedWebsite) -> Seq<char> {
    "ID: "@ + int_text(w.id) + "\nProfile ID: "@ + w.profile_id@ + "\nDomain: "@ + w.domain@
        + "\n"@
}

pub open spec fn app_text(a: BlockedApp) -> Seq<char> {
    "ID: "@ + int_text(a.id) + "\nProfile ID: "@ + a.profile_id@ + "\nApp Identifier: "@
        + a.app_identifier@ + "\n"@
}

pub open spec fn rule_text(r: DomRule) -> Seq<char> {
    "ID: "@ + int_text(r.id) + "\nProfile ID: "@ + r.profile_id@ + "\nSite: "@ + r.site@
        + "\nToggle: "@ + r.toggle@ + "\n"@
}

pub open spec fn manual_session_text(s: ManualSession) -> Seq<char> {
    "ID: "@ + int_text(s.id) + "\nStarted At: "@ + s.started_at@ + "\nDuration: "@ + int_text(
        s.duration_secs,
    ) + "\n"@
}

/// Profiles as list items: each one's text and a blank line.
pub open spec fn profile_item() -> spec_fn(Profile) -> Seq<char> {
    |p: Profile| profile_text(p) + "\n"@
}

/// Schedules as list items.
pub open spec fn schedule_item() -> spec_fn(Schedule) -> Seq<char> {
    |s: Schedule| schedule_text(s) + "\n"@
}

/// Blocked websites as list items.
pub open spec fn website_item() -> spec_fn(BlockedWebsite) -> Seq<char> {
    |w: BlockedWebsite| website_text(w) + "\n"@
}

/// Blocked apps as list items.
pub open spec fn app_item() -> spec_fn(BlockedApp) -> Seq<char> {
    |a: BlockedApp| app_text(a) + "\n"@
}

/// Page rules as list items.
pub open spec fn rule_item() -> spec_fn(DomRule) -> Seq<char> {
    |r: DomRule| rule_text(r) + "\n"@
}

/// Manual sessions as list items.
pub open spec fn manual_session_item() -> spec_fn(ManualSession) -> Seq<char> {
    |s: ManualSession| manual_session_text(s) + "\n"@
}

/// Page rules in a policy listing.
pub open spec fn policy_rule_item() -> spec_fn(DomRule) -> Seq<char> {
    |r: DomRule| policy_rule_text(r)
}

/// A line with `indent` before `s`.
pub open spec fn indented(indent: Seq<char>) -> spec_fn(String) -> Seq<char> {
    |s: String| indent + s@ + "\n"@
}

/// A list, or the line `none` when it is empty.
pub open spec fn list_or<T>(items: Seq<T>, f: spec_fn(T) -> Seq<char>, none: Seq<char>) -> Seq<
    char,
> {
    if items.len() == 0 {
        none + "\n"@
    } else {
        joined(items, f)
    }
}

/// The blocked sites under a status line, if there are any.
pub open spec fn sites_text(sites: Seq<String>) -> Seq<char> {
    if sites.len() == 0 {
        seq![]
    } else {
        "Blocked websites:\n"@ + joined(sites, indented("  "@))
    }
}

/// A page rule in a policy listing.
pub open spec fn policy_rule_text(r: DomRule) -> Seq<char> {
    "    "@ + r.site@ + ": "@ + r.toggle@ + "\n"@
}

pub open spec fn policy_text(p: ActivePolicy) -> Seq<char> {
    "Active Policy:\n  Blocked Websites:\n"@ + joined(p.blocked_websites@, indented("    "@))
        + "  Blocked Apps:\n"@ + joined(p.blocked_apps@, indented("    "@)) + "  DOM Rules:\n"@
        + joined(p.dom_rules@, policy_rule_item())
}

/// The text an answer is shown as. The subscription messages, which the
/// client never asks for, show nothing.
pub open spec fn shown_text(m: DaemonMessage) -> Seq<char> {
    match m {
        DaemonMessage::Started { duration } => "Session started: "@ + duration_text(duration as nat)
            + "\n"@,
        DaemonMessage::Stopped => "Session stopped\n"@,
        DaemonMessage::StatusIdle { sites } => "Idle\n"@ + sites_text(sites@),
        DaemonMessage::StatusWithTime { time_left, sites } => "Active: "@ + duration_text(
            time_left as nat,
        ) + " remaining\n"@ + sites_text(sites@),
        DaemonMessage::Pong => "Pong\n"@,
        DaemonMessage::Error(msg) => msg@ + "\n"@,
        DaemonMessage::Profile(p) => profile_text(p),
        DaemonMessage::ProfileList(v) => list_or(v@, profile_item(), "No profiles"@),
        DaemonMessage::ProfileUpdated => "Profile updated\n"@,
        DaemonMessage::ProfileDeleted => "Profile deleted\n"@,
        DaemonMessage::Schedule(s) => schedule_text(s),
        DaemonMessage::ScheduleList(v) => list_or(v@, schedule_item(), "No schedules"@),
        DaemonMessage::ScheduleUpdated => "Schedule updated\n"@,
        DaemonMessage::ScheduleDeleted => "Schedule deleted\n"@,
        DaemonMessage::BlockedWebsite(w) => website_text(w),
        DaemonMessage::BlockedWebsiteList(v) => list_or(v@, website_item(), "No blocked websites"@),
        DaemonMessage::BlockedWebsiteDeleted => "Blocked website deleted\n"@,
        DaemonMessage::BlockedApp(a) => app_text(a),
        DaemonMessage::BlockedAppList(v) => list_or(v@, app_item(), "No blocked apps"@),
        DaemonMessage::BlockedAppDeleted => "Blocked app deleted\n"@,
        DaemonMessage::DomRule(r) => rule_text(r),
        DaemonMessage::DomRuleList(v) => list_or(v@, rule_item(), "No DOM rules"@),
        DaemonMessage::DomRuleDeleted => "DOM rule deleted\n"@,
        DaemonMessage::ManualSession(found) => match found {
            Some(s) => manual_session_text(s),
            None => "No active manual session\n"@,
        },
        DaemonMessage::ManualSessionList(v) => list_or(v@, manual_session_item(), "No manual sessions"@),
        DaemonMessage::ManualSessionUpdated => "Manual session updated\n"@,
        DaemonMessage::GlobalWebsiteAdded(b) => if b {
            "Website added to global blocklist\n"@
        } else {
            "Website already in global blocklist\n"@
        },
        DaemonMessage::GlobalWebsiteRemoved(b) => if b {
            "Website removed from global blocklist\n"@
        } else {
            "Website not in global blocklist\n"@
        },
        DaemonMessage::GlobalWebsiteList(v) => if v@.len() == 0 {
            "No global blocked websites\n"@
        } else {
            joined(v@, indented("  "@))
        },
        DaemonMessage::ActivePolicy(p) => policy_text(p),
        DaemonMessage::Subscribed | DaemonMessage::PolicyChanged(_) => seq![],
    }
}

proof fn lemma_joined_step<T>(items: Seq<T>, f: spec_fn(T) -> Seq<char>, i: int)
    requires
        0 <= i < items.len(),
    ensures
        joined(items.take(i + 1), f) == joined(items.take(i), f) + f(items[i]),
{
    assert(items.take(i + 1).drop_last() =~= items.take(i));
}

proof fn lemma_joined_all<T>(items: Seq<T>, f: spec_fn(T) -> Seq<char>)
    ensures
        joined(items.take(items.len() as int), f) == joined(items, f),
{
    assert(items.take(items.len() as int) =~= items);
}

/// Appends `n` as `Display` writes it.
pub fn push_int(out: &mut Vec<char>, n: i64)
    ensures
        final(out)@ == old(out)@ + int_text(n),
{
    if n < 0 {
        out.push('-');
        let m: u64 = if n == i64::MIN {
            9223372036854775808u64
        } else {
            (-n) as u64
        };
        push_decimal(out, m);
        assert(old(out)@ + seq!['-'] + decimal_text(m as nat) =~= old(out)@ + int_text(n));
    } else {
        push_decimal(out, n as u64);
    }
}

fn push_bool(out: &mut Vec<char>, b: bool)
    ensures
        final(out)@ == old(out)@ + bool_text(b),
{
    if b {
        push_str(out, "true");
    } else {
        push_str(out, "false");
    }
}

fn push_schedule_type(out: &mut Vec<char>, t: Option<ScheduleType>)
    ensures
        final(out)@ == old(out)@ + schedule_type_debug(t),
{
    match t {
        Some(ScheduleType::Recurring) => push_str(out, "Some(Recurring)"),
        Some(ScheduleType::OneTime) => push_str(out, "Some(OneTime)"),
        None => push_str(out, "None"),
    }
}

fn push_profile(out: &mut Vec<char>, p: &Profile)
    ensures
        final(out)@ == old(out)@ + profile_text(*p),
{
    let ghost start = out@;
    push_str(out, "ID: ");
    push_str(out, p.id.as_str());
    push_str(out, "\nName: ");
    push_str(out, p.name.as_str());
    push_str(out, "\nEnabled: ");
    push_bool(out, p.enabled);
    push_str(out, "\n");
    assert(out@ =~= start + profile_text(*p));
}

fn push_schedule(out: &mut Vec<char>, s: &Schedule)
    ensures
        final(out)@ == old(out)@ + schedule_text(*s),
{
    let ghost start = out@;
    push_str(out, "ID: ");
    push_int(out, s.id);
    push_str(out, "\nProfile ID: ");
    push_str(out, s.profile_id.as_str());
    push_str(out, "\nType: ");
    push_schedule_type(out, s.schedule_type);
    push_str(out, "\n");
    assert(out@ =~= start + schedule_text(*s));
}

fn push_website(out: &mut Vec<char>, w: &BlockedWebsite)
    ensures
        final(out)@ == old(out)@ + website_text(*w),
{
    let ghost start = out@;
    push_str(out, "ID: ");
    push_int(out, w.id);
    push_str(out, "\nProfile ID: ");
    push_str(out, w.profile_id.as_str());
    push_str(out, "\nDomain: ");
    push_str(out, w.domain.as_str());
    push_str(out, "\n");
    assert(out@ =~= start + website_text(*w));
}

fn push_app(out: &mut Vec<char>, a: &BlockedApp)
    ensures
        final(out)@ == old(out)@ + app_text(*a),
{
    let ghost start = out@;
    push_str(out, "ID: ");
    push_int(out, a.id);
    push_str(out, "\nProfile ID: ");
    push_str(out, a.profile_id.as_str());
    push_str(out, "\nApp Identifier: ");
    push_str(out, a.app_identifier.as_str());
    push_str(out, "\n");
    assert(out@ =~= start + app_text(*a));
}

fn push_rule(out: &mut Vec<char>, r: &DomRule)
    ensures
        final(out)@ == old(out)@ + rule_text(*r),
{
    let ghost start = out@;
    push_str(out, "ID: ");
    push_int(out, r.id);
    push_str(out, "\nProfile ID: ");
    push_str(out, r.profile_id.as_str());
    push_str(out, "\nSite: ");
    push_str(out, r.site.as_str());
    push_str(out, "\nToggle: ");
    push_str(out, r.toggle.as_str());
    push_str(out, "\n");
    assert(out@ =~= start + rule_text(*r));
}

fn push_manual_session(out: &mut Vec<char>, s: &ManualSession)
    ensures
        final(out)@ == old(out)@ + manual_session_text(*s),
{
    let ghost start = out@;
    push_str(out, "ID: ");
    push_int(out, s.id);
    push_str(out, "\nStarted At: ");
    push_str(out, s.started_at.as_str());
    push_str(out, "\nDuration: ");
    push_int(out, s.duration_secs);
    push_str(out, "\n");
    assert(out@ =~= start + manual_session_text(*s));
}

fn push_profiles(out: &mut Vec<char>, v: &Vec<Profile>)
    ensures
        final(out)@ == old(out)@ + joined(v@, profile_item()),
{
    let ghost start = out@;
    let ghost f = profile_item();
    let mut i: usize = 0;
    while i < v.len()
        invariant
            i <= v.len(),
            f == profile_item(),
            out@ == start + joined(v@.take(i as int), f),
        decreases v.len() - i,
    {
        proof {
            lemma_joined_step(v@, f, i as int);
        }
        push_profile(out, &v[i]);
        push_str(out, "\n");
        assert(out@ =~= start + joined(v@.take(i + 1), f));
        i += 1;
    }
    proof {
        lemma_joined_all(v@, f);
    }
}

fn push_schedules(out: &mut Vec<char>, v: &Vec<Schedule>)
    ensures
        final(out)@ == old(out)@ + joined(v@, schedule_item()),
{
    let ghost start = out@;
    let ghost f = schedule_item();
    let mut i: usize = 0;
    while i < v.len()
        invariant
            i <= v.len(),
            f == schedule_item(),
            out@ == start + joined(v@.take(i as int), f),
        decreases v.len() - i,
    {
        proof {
            lemma_joined_step(v@, f, i as int);
        }
        push_schedule(out, &v[i]);
        push_str(out, "\n");
        assert(out@ =~= start + joined(v@.take(i + 1), f));
        i += 1;
    }
    proof {
        lemma_joined_all(v@, f);
    }
}

fn push_websites(out: &mut Vec<char>, v: &Vec<BlockedWebsite>)
    ensures
        final(out)@ == old(out)@ + joined(v@, website_item()),
{
    let ghost start = out@;
    let ghost f = website_item();
    let mut i: usize = 0;
    while i < v.len()
        invariant
            i <= v.len(),
            f == website_item(),
            out@ == start + joined(v@.take(i as int), f),
        decreases v.len() - i,
    {
        proof {
            lemma_joined_step(v@, f, i as int);
        }
        push_website(out, &v[i]);
        push_str(out, "\n");
        assert(out@ =~= start + joined(v@.take(i + 1), f));
        i += 1;
    }
    proof {
        lemma_joined_all(v@, f);
    }
}

fn push_apps(out: &mut Vec<char>, v: &Vec<BlockedApp>)
    ensures
        final(out)@ == old(out)@ + joined(v@, app_item()),
{
    let ghost start = out@;
    let ghost f = app_item();
    let mut i: usize = 0;
    while i < v.len()
        invariant
            i <= v.len(),
            f == app_item(),
            out@ == start + joined(v@.take(i as int), f),
        decreases v.len() - i,
    {
        proof {
            lemma_joined_step(v@, f, i as int);
        }
        push_app(out, &v[i]);
        push_str(out, "\n");
        assert(out@ =~= start + joined(v@.take(i + 1), f));
        i += 1;
    }
    proof {
        lemma_joined_all(v@, f);
    }
}

fn push_rules(out: &mut Vec<char>, v: &Vec<DomRule>)
    ensures
        final(out)@ == old(out)@ + joined(v@, rule_item()),
{
    let ghost start = out@;
    let ghost f = rule_item();
    let mut i: usize = 0;
    while i < v.len()
        invariant
            i <= v.len(),
            f == rule_item(),
            out@ == start + joined(v@.take(i as int), f),
        decreases v.len() - i,
    {
        proof {
            lemma_joined_step(v@, f, i as int);
        }
        push_rule(out, &v[i]);
        push_str(out, "\n");
        assert(out@ =~= start + joined(v@.take(i + 1), f));
        i += 1;
    }
    proof {
        lemma_joined_all(v@, f);
    }
}

fn push_manual_sessions(out: &mut Vec<char>, v: &Vec<ManualSession>)
    ensures
        final(out)@ == old(out)@ + joined(v@, manual_session_item()),
{
    let ghost start = out@;
    let ghost f = manual_session_item();
    let mut i: usize = 0;
    while i < v.len()
        invariant
            i <= v.len(),
            f == manual_session_item(),
            out@ == start + joined(v@.take(i as int), f),
        decreases v.len() - i,
    {
        proof {
            lemma_joined_step(v@, f, i as int);
        }
        push_manual_session(out, &v[i]);
        push_str(out, "\n");
        assert(out@ =~= start + joined(v@.take(i + 1), f));
        i += 1;
    }
    proof {
        lemma_joined_all(v@, f);
    }
}

fn push_lines(out: &mut Vec<char>, v: &Vec<String>, indent: &str)
    ensures
        final(out)@ == old(out)@ + joined(v@, indented(indent@)),
{
    let ghost start = out@;
    let ghost f = indented(indent@);
    let mut i: usize = 0;
    while i < v.len()
        invariant
            i <= v.len(),
            f == indented(indent@),
            out@ == start + joined(v@.take(i as int), f),
        decreases v.len() - i,
    {
        proof {
            lemma_joined_step(v@, f, i as int);
        }
        push_str(out, indent);
        push_str(out, v[i].as_str());
        push_str(out, "\n");
        assert(out@ =~= start + joined(v@.take(i + 1), f));
        i += 1;
    }
    proof {
        lemma_joined_all(v@, f);
    }
}

fn push_policy_rules(out: &mut Vec<char>, v: &Vec<DomRule>)
    ensures
        final(out)@ == old(out)@ + joined(v@, policy_rule_item()),
{
    let ghost start = out@;
    let ghost f = policy_rule_item();
    let mut i: usize = 0;
    while i < v.len()
        invariant
            i <= v.len(),
            f == policy_rule_item(),
            out@ == start + joined(v@.take(i as int), f),
        decreases v.len() - i,
    {
        proof {
            lemma_joined_step(v@, f, i as int);
        }
        push_str(out, "    ");
        push_str(out, v[i].site.as_str());
        push_str(out, ": ");
        push_str(out, v[i].toggle.as_str());
        push_str(out, "\n");
        assert(out@ =~= start + joined(v@.take(i + 1), f));
        i += 1;
    }
    proof {
        lemma_joined_all(v@, f);
    }
}

fn push_sites(out: &mut Vec<char>, sites: &Vec<String>)
    ensures
        final(out)@ == old(out)@ + sites_text(sites@),
{
    if sites.len() > 0 {
        let ghost start = out@;
        push_str(out, "Blocked websites:\n");
        push_lines(out, sites, "  ");
        assert(out@ =~= start + sites_text(sites@));
    } else {
        assert(out@ =~= out@ + sites_text(sites@));
    }
}

/// The text an answer is shown as, and whether it is an error.
pub fn show_response(m: &DaemonMessage) -> (s: Shown)
    ensures
        s.text@ == shown_text(*m),
        s.is_error == (*m is Error),
{
    let mut out: Vec<char> = Vec::new();
    let ghost start = out@;
    match m {
        DaemonMessage::Started { duration } => {
            push_str(&mut out, "Session started: ");
            let d = format_duration(*duration);
            push_str(&mut out, d.as_str());
            push_str(&mut out, "\n");
            assert(out@ =~= shown_text(*m));
        },
        DaemonMessage::Stopped => {
            push_str(&mut out, "Session stopped\n");
            assert(out@ =~= shown_text(*m));
        },
        DaemonMessage::StatusIdle { sites } => {
            push_str(&mut out, "Idle\n");
            push_sites(&mut out, sites);
            assert(out@ =~= shown_text(*m));
        },
        DaemonMessage::StatusWithTime { time_left, sites } => {
            push_str(&mut out, "Active: ");
            let d = format_duration(*time_left);
            push_str(&mut out, d.as_str());
            push_str(&mut out, " remaining\n");
            push_sites(&mut out, sites);
            assert(out@ =~= shown_text(*m));
        },
        DaemonMessage::Pong => {
            push_str(&mut out, "Pong\n");
            assert(out@ =~= shown_text(*m));
        },
        DaemonMessage::Error(msg) => {
            push_str(&mut out, msg.as_str());
            push_str(&mut out, "\n");
            assert(out@ =~= shown_text(*m));
        },
        DaemonMessage::Profile(p) => {
            push_profile(&mut out, p);
            assert(out@ =~= shown_text(*m));
        },
        DaemonMessage::ProfileList(v) => {
            if v.len() == 0 {
                push_str(&mut out, "No profiles");
                push_str(&mut out, "\n");
            } else {
                push_profiles(&mut out, v);
            }
            assert(out@ =~= shown_text(*m));
        },
        DaemonMessage::ProfileUpdated => {
            push_str(&mut out, "Profile updated\n");
            assert(out@ =~= shown_text(*m));
        },
        DaemonMessage::ProfileDeleted => {
            push_str(&mut out, "Profile deleted\n");
            assert(out@ =~= shown_text(*m));
        },
        DaemonMessage::Schedule(s) => {
            push_schedule(&mut out, s);
            assert(out@ =~= shown_text(*m));
        },
        DaemonMessage::ScheduleList(v) => {
            if v.len() == 0 {
                push_str(&mut out, "No schedules");
                push_str(&mut out, "\n");
            } else {
                push_schedules(&mut out, v);
            }
            assert(out@ =~= shown_text(*m));
        },
        DaemonMessage::ScheduleUpdated => {
            push_str(&mut out, "Schedule updated\n");
            assert(out@ =~= shown_text(*m));
        },
        DaemonMessage::ScheduleDeleted => {
            push_str(&mut out, "Schedule deleted\n");
            assert(out@ =~= shown_text(*m));
        },
        DaemonMessage::BlockedWebsite(w) => {
            push_website(&mut out, w);
            assert(out@ =~= shown_text(*m));
        },
        DaemonMessage::BlockedWebsiteList(v) => {
            if v.len() == 0 {
                push_str(&mut out, "No blocked websites");
                push_str(&mut out, "\n");
            } else {
                push_websites(&mut out, v);
            }
            assert(out@ =~= shown_text(*m));
        },
        DaemonMessage::BlockedWebsiteDeleted => {
            push_str(&mut out, "Blocked website deleted\n");
            assert(out@ =~= shown_text(*m));
        },
        DaemonMessage::BlockedApp(a) => {
            push_app(&mut out, a);
            assert(out@ =~= shown_text(*m));
        },
        DaemonMessage::BlockedAppList(v) => {
            if v.len() == 0 {
                push_str(&mut out, "No blocked apps");
                push_str(&mut out, "\n");
            } else {
                push_apps(&mut out, v);
            }
            assert(out@ =~= shown_text(*m));
        },
        DaemonMessage::BlockedAppDeleted => {
            push_str(&mut out, "Blocked app deleted\n");
            assert(out@ =~= shown_text(*m));
        },
        DaemonMessage::DomRule(r) => {
            push_rule(&mut out, r);
            assert(out@ =~= shown_text(*m));
        },
        DaemonMessage::DomRuleList(v) => {
            if v.len() == 0 {
                push_str(&mut out, "No DOM rules");
                push_str(&mut out, "\n");
            } else {
                push_rules(&mut out, v);
            }
            assert(out@ =~= shown_text(*m));
        },
        DaemonMessage::DomRuleDeleted => {
            push_str(&mut out, "DOM rule deleted\n");
            assert(out@ =~= shown_text(*m));
        },
        DaemonMessage::ManualSession(found) => {
            match found {
                Some(s) => push_manual_session(&mut out, s),
                None => push_str(&mut out, "No active manual session\n"),
            }
            assert(out@ =~= shown_text(*m));
        },
        DaemonMessage::ManualSessionList(v) => {
            if v.len() == 0 {
                push_str(&mut out, "No manual sessions");
                push_str(&mut out, "\n");
            } else {
                push_manual_sessions(&mut out, v);
            }
            assert(out@ =~= shown_text(*m));
        },
        DaemonMessage::ManualSessionUpdated => {
            push_str(&mut out, "Manual session updated\n");
            assert(out@ =~= shown_text(*m));
        },
        DaemonMessage::GlobalWebsiteAdded(b) => {
            if *b {
                push_str(&mut out, "Website added to global blocklist\n");
            } else {
                push_str(&mut out, "Website already in global blocklist\n");
            }
            assert(out@ =~= shown_text(*m));
        },
        DaemonMessage::GlobalWebsiteRemoved(b) => {
            if *b {
                push_str(&mut out, "Website removed from global blocklist\n");
            } else {
                push_str(&mut out, "Website not in global blocklist\n");
            }
            assert(out@ =~= shown_text(*m));
        },
        DaemonMessage::GlobalWebsiteList(v) => {
            if v.len() == 0 {
                push_str(&mut out, "No global blocked websites\n");
            } else {
                push_lines(&mut out, v, "  ");
            }
            assert(out@ =~= shown_text(*m));
        },
        DaemonMessage::ActivePolicy(p) => {
            push_str(&mut out, "Active Policy:\n  Blocked Websites:\n");
            push_lines(&mut out, &p.blocked_websites, "    ");
            push_str(&mut out, "  Blocked Apps:\n");
            push_lines(&mut out, &p.blocked_apps, "    ");
            push_str(&mut out, "  DOM Rules:\n");
            push_policy_rules(&mut out, &p.dom_rules);
            assert(out@ =~= shown_text(*m));
        },
        DaemonMessage::Subscribed | DaemonMessage::PolicyChanged(_) => {},
    }
    assert(out@ =~= shown_text(*m));
    let is_error = match m {
        DaemonMessage::Error(_) => true,
        _ => false,
    };
    Shown { text: string_from_chars(&out), is_error }
}

/// The blocked sites a status answer carries; none for other answers.
pub open spec fn status_sites(m: DaemonMessage) -> Seq<String> {
    match m {
        DaemonMessage::StatusIdle { sites } => sites@,
        DaemonMessage::StatusWithTime { sites, .. } => sites@,
        _ => seq![],
    }
}

proof fn lemma_contains_itself(t: Seq<char>)
    ensures
        contains_text(t, t),
{
    assert(t.subrange(0int, 0int + t.len()) =~= t);
    assert(exists|i: int| 0 <= i && i + t.len() <= t.len() && #[trigger] t.subrange(i, i + t.len()) == t);
}

proof fn lemma_contains_in_prefix(a: Seq<char>, b: Seq<char>, t: Seq<char>)
    requires
        contains_text(a, t),
    ensures
        contains_text(a + b, t),
{
    let i = choose|i: int| 0 <= i && i + t.len() <= a.len() && #[trigger] a.subrange(i, i + t.len()) == t;
    assert((a + b).subrange(i, i + t.len()) =~= a.subrange(i, i + t.len()));
}

proof fn lemma_contains_in_suffix(a: Seq<char>, b: Seq<char>, t: Seq<char>)
    requires
        contains_text(b, t),
    ensures
        contains_text(a + b, t),
{
    let i = choose|i: int| 0 <= i && i + t.len() <= b.len() && #[trigger] b.subrange(i, i + t.len()) == t;
    assert((a + b).subrange(a.len() + i, a.len() + i + t.len()) =~= b.subrange(i, i + t.len()));
}

proof fn lemma_joined_contains_item<T>(items: Seq<T>, f: spec_fn(T) -> Seq<char>, i: int)
    requires
        0 <= i < items.len(),
    ensures
        contains_text(joined(items, f), f(items[i])),
    decreases items.len(),
{
    if i == items.len() - 1 {
        lemma_contains_itself(f(items.last()));
        lemma_contains_in_suffix(joined(items.drop_last(), f), f(items.last()), f(items[i]));
    } else {
        lemma_joined_contains_item(items.drop_last(), f, i);
        assert(items.drop_last()[i] == items[i]);
        lemma_contains_in_prefix(joined(items.drop_last(), f), f(items.last()), f(items[i]));
    }
}

/// A status, idle or active, shows every blocked site it carries, each on
/// a line of its own after two spaces, under the heading
/// `Blocked websites:`.
pub proof fn lemma_status_lists_every_site(m: DaemonMessage, i: int)
    requires
        m is StatusIdle || m is StatusWithTime,
        0 <= i < status_sites(m).len(),
    ensures
        contains_text(shown_text(m), "  "@ + status_sites(m)[i]@ + "\n"@),
        contains_text(shown_text(m), "Blocked websites:\n"@),
{
    let sites = status_sites(m);
    let head: Seq<char> = match m {
        DaemonMessage::StatusIdle { .. } => "Idle\n"@,
        DaemonMessage::StatusWithTime { time_left, .. } => "Active: "@ + duration_text(time_left as nat)
            + " remaining\n"@,
        _ => seq![],
    };
    let body = joined(sites, indented("  "@));
    lemma_joined_contains_item(sites, indented("  "@), i);
    lemma_contains_in_suffix("Blocked websites:\n"@, body, "  "@ + sites[i]@ + "\n"@);
    lemma_contains_itself("Blocked websites:\n"@);
    lemma_contains_in_prefix("Blocked websites:\n"@, body, "Blocked websites:\n"@);
    assert(sites_text(sites) == "Blocked websites:\n"@ + body);
    lemma_contains_in_suffix(head, sites_text(sites), "  "@ + sites[i]@ + "\n"@);
    lemma_contains_in_suffix(head, sites_text(sites), "Blocked websites:\n"@);
    assert(shown_text(m) == head + sites_text(sites));
}

} // verus!
