//! The messages that clients and the daemon exchange over the socket.

use vstd::prelude::*;
use crate::model::{
    ActivePolicy, BlockedApp, BlockedWebsite, DomRule, ManualSession, Profile, Schedule,
    ScheduleType,
};

verus! {

/// A request from a client to the daemon.
#[derive(Debug, PartialEq)]
pub enum ClientMessage {
    Ping,
    Start { duration: u64 },
    Stop,
    GetStatus,
    // Profiles
    CreateProfile { name: String },
    GetProfile { id: String },
    ListProfiles,
    UpdateProfile { profile: Profile },
    DeleteProfile { id: String },
    // Schedules
    CreateSchedule { schedule: Schedule },
    GetSchedule { id: i64 },
    ListSchedules { profile_id: String },
    UpdateSchedule { schedule: Schedule },
    DeleteSchedule { id: i64 },
    // Blocked Websites (profile-specific)
    CreateBlockedWebsite { website: BlockedWebsite },
    ListBlockedWebsites { profile_id: String },
    DeleteBlockedWebsite { id: i64 },
    // Blocked Apps
    CreateBlockedApp { app: BlockedApp },
    GetBlockedApp { id: i64 },
    ListBlockedApps { profile_id: String },
    DeleteBlockedApp { id: i64 },
    // DOM Rules
    CreateDomRule { rule: DomRule },
    GetDomRule { id: i64 },
    ListDomRules { profile_id: String },
    DeleteDomRule { id: i64 },
    // Manual Sessions
    CreateManualSession { session: ManualSession },
    GetManualSession { id: i64 },
    GetActiveManualSession,
    ListManualSessions,
    UpdateManualSession { session: ManualSession },
    // Global Blocked Websites
    AddGlobalWebsite { domain: String },
    RemoveGlobalWebsite { domain: String },
    ListGlobalWebsites,
    // Active Policy
    GetActivePolicy { current_day: String, current_time: String },
    // Subscriptions
    SubscribePolicyChanges,
}

/// A response or a push from the daemon to a client.
#[derive(Debug, PartialEq)]
pub enum DaemonMessage {
    Pong,
    Started { duration: u64 },
    StatusWithTime { time_left: u64, sites: Vec<String> },
    StatusIdle { sites: Vec<String> },
    Stopped,
    Error(String),
    // Profiles
    Profile(Profile),
    ProfileList(Vec<Profile>),
    ProfileUpdated,
    ProfileDeleted,
    // Schedules
    Schedule(Schedule),
    ScheduleList(Vec<Schedule>),
    ScheduleUpdated,
    ScheduleDeleted,
    // Blocked Websites
    BlockedWebsite(BlockedWebsite),
    BlockedWebsiteList(Vec<BlockedWebsite>),
    BlockedWebsiteDeleted,
    // Blocked Apps
    BlockedApp(BlockedApp),
    BlockedAppList(Vec<BlockedApp>),
    BlockedAppDeleted,
    // DOM Rules
    DomRule(DomRule),
    DomRuleList(Vec<DomRule>),
    DomRuleDeleted,
    // Manual Sessions
    ManualSession(Option<ManualSession>),
    ManualSessionList(Vec<ManualSession>),
    ManualSessionUpdated,
    // Global Blocked Websites
    GlobalWebsiteAdded(bool),
    GlobalWebsiteRemoved(bool),
    GlobalWebsiteList(Vec<String>),
    // Active Policy
    ActivePolicy(ActivePolicy),
    // Subscriptions / Push
    Subscribed,
    PolicyChanged(ActivePolicy),
}

/// Whether a response reports a change that can alter the policy in force.
pub open spec fn reports_mutation(response: DaemonMessage) -> bool {
    ||| response is Profile
    ||| response is ProfileUpdated
    ||| response is ProfileDeleted
    ||| response is BlockedWebsite
    ||| response is BlockedWebsiteDeleted
    ||| response is BlockedApp
    ||| response is BlockedAppDeleted
    ||| response is DomRule
    ||| response is DomRuleDeleted
    ||| response is GlobalWebsiteAdded
    ||| response is GlobalWebsiteRemoved
    ||| response is Schedule
    ||| response is ScheduleUpdated
    ||| response is ScheduleDeleted
}

/// Returns true if the response indicates a mutation that could affect the active policy.
pub fn is_mutation(response: &DaemonMessage) -> (b: bool)
    ensures
        b == reports_mutation(*response),
{
    match response {
        DaemonMessage::Profile(_)
        | DaemonMessage::ProfileUpdated
        | DaemonMessage::ProfileDeleted
        | DaemonMessage::BlockedWebsite(_)
        | DaemonMessage::BlockedWebsiteDeleted
        | DaemonMessage::BlockedApp(_)
        | DaemonMessage::BlockedAppDeleted
        | DaemonMessage::DomRule(_)
        | DaemonMessage::DomRuleDeleted
        | DaemonMessage::GlobalWebsiteAdded(_)
        | DaemonMessage::GlobalWebsiteRemoved(_)
        | DaemonMessage::Schedule(_)
        | DaemonMessage::ScheduleUpdated
        | DaemonMessage::ScheduleDeleted => true,
        _ => false,
    }
}

/// How a schedule type is stored.
pub fn schedule_type_text(t: ScheduleType) -> (s: &'static str)
    ensures
        t == ScheduleType::Recurring ==> s@ == "recurring"@,
        t == ScheduleType::OneTime ==> s@ == "one_time"@,
{
    match t {
        ScheduleType::Recurring => "recurring",
        ScheduleType::OneTime => "one_time",
    }
}

/// The schedule type a stored text stands for: `one_time` is a one-time
/// schedule, anything else a recurring one.
pub fn schedule_type_from_text(s: &str) -> (t: ScheduleType)
    ensures
        t == (if s@ == "one_time"@ {
            ScheduleType::OneTime
        } else {
            ScheduleType::Recurring
        }),
{
    let c = crate::text::chars_of(s);
    let one_time = crate::text::chars_of("one_time");
    if c.len() == one_time.len() && crate::text::starts_with_chars(&c, &one_time) {
        assert(c@ =~= one_time@);
        ScheduleType::OneTime
    } else {
        proof {
            if s@ == "one_time"@ {
                assert(c@.take(one_time@.len() as int) =~= c@);
            }
        }
        ScheduleType::Recurring
    }
}

} // verus!
