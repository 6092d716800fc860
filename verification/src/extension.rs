//! The messages of the browser extension's native-messaging host, and
//! their one-to-one conversion to and from the daemon's protocol.

use vstd::prelude::*;
use crate::model::{
    ActivePolicy, BlockedApp, BlockedWebsite, DomRule, ManualSession, Profile, Schedule,
};
use crate::protocol::{ClientMessage, DaemonMessage};

verus! {

/// A request from the browser extension.
#[derive(Debug)]
pub enum ExtensionMessage {
    Ping,
    Start { duration: u64 },
    Stop,
    GetStatus,
    CreateProfile { name: String },
    GetProfile { id: String },
    ListProfiles,
    UpdateProfile { profile: Profile },
    DeleteProfile { id: String },
    CreateSchedule { schedule: Schedule },
    GetSchedule { id: i64 },
    ListSchedules { profile_id: String },
    UpdateSchedule { schedule: Schedule },
    DeleteSchedule { id: i64 },
    CreateBlockedWebsite { website: BlockedWebsite },
    ListBlockedWebsites { profile_id: String },
    DeleteBlockedWebsite { id: i64 },
    CreateBlockedApp { app: BlockedApp },
    GetBlockedApp { id: i64 },
    ListBlockedApps { profile_id: String },
    DeleteBlockedApp { id: i64 },
    CreateDomRule { rule: DomRule },
    GetDomRule { id: i64 },
    ListDomRules { profile_id: String },
    DeleteDomRule { id: i64 },
    CreateManualSession { session: ManualSession },
    GetManualSession { id: i64 },
    GetActiveManualSession,
    ListManualSessions,
    UpdateManualSession { session: ManualSession },
    AddGlobalWebsite { domain: String },
    RemoveGlobalWebsite { domain: String },
    ListGlobalWebsites,
    GetActivePolicy { current_day: String, current_time: String },
}

/// A message to the browser extension.
#[derive(Debug)]
pub enum ExtensionResponse {
    Pong,
    Started { duration: u64 },
    Stopped,
    Status { active: bool, time_left: Option<u64>, sites: Vec<String> },
    Error { message: String },
    Profile { profile: Profile },
    ProfileList { profiles: Vec<Profile> },
    ProfileUpdated,
    ProfileDeleted,
    Schedule { schedule: Schedule },
    ScheduleList { schedules: Vec<Schedule> },
    ScheduleUpdated,
    ScheduleDeleted,
    BlockedWebsite { website: BlockedWebsite },
    BlockedWebsiteList { websites: Vec<BlockedWebsite> },
    BlockedWebsiteDeleted,
    BlockedApp { app: BlockedApp },
    BlockedAppList { apps: Vec<BlockedApp> },
    BlockedAppDeleted,
    DomRule { rule: DomRule },
    DomRuleList { rules: Vec<DomRule> },
    DomRuleDeleted,
    ManualSession { session: Option<ManualSession> },
    ManualSessionList { sessions: Vec<ManualSession> },
    ManualSessionUpdated,
    GlobalWebsiteAdded { success: bool },
    GlobalWebsiteRemoved { success: bool },
    GlobalWebsiteList { websites: Vec<String> },
    ActivePolicy { policy: ActivePolicy },
}

/// The daemon request an extension request stands for: the same request,
/// with the same contents.
pub open spec fn client_message_of(msg: ExtensionMessage) -> ClientMessage {
    match msg {
        ExtensionMessage::Ping => ClientMessage::Ping,
        ExtensionMessage::Start { duration } => ClientMessage::Start { duration },
        ExtensionMessage::Stop => ClientMessage::Stop,
        ExtensionMessage::GetStatus => ClientMessage::GetStatus,
        ExtensionMessage::CreateProfile { name } => ClientMessage::CreateProfile { name },
        ExtensionMessage::GetProfile { id } => ClientMessage::GetProfile { id },
        ExtensionMessage::ListProfiles => ClientMessage::ListProfiles,
        ExtensionMessage::UpdateProfile { profile } => ClientMessage::UpdateProfile { profile },
        ExtensionMessage::DeleteProfile { id } => ClientMessage::DeleteProfile { id },
        ExtensionMessage::CreateSchedule { schedule } => ClientMessage::CreateSchedule { schedule },
        ExtensionMessage::GetSchedule { id } => ClientMessage::GetSchedule { id },
        ExtensionMessage::ListSchedules { profile_id } => ClientMessage::ListSchedules { profile_id },
        ExtensionMessage::UpdateSchedule { schedule } => ClientMessage::UpdateSchedule { schedule },
        ExtensionMessage::DeleteSchedule { id } => ClientMessage::DeleteSchedule { id },
        ExtensionMessage::CreateBlockedWebsite { website } => ClientMessage::CreateBlockedWebsite { website },
        ExtensionMessage::ListBlockedWebsites { profile_id } => ClientMessage::ListBlockedWebsites { profile_id },
        ExtensionMessage::DeleteBlockedWebsite { id } => ClientMessage::DeleteBlockedWebsite { id },
        ExtensionMessage::CreateBlockedApp { app } => ClientMessage::CreateBlockedApp { app },
        ExtensionMessage::GetBlockedApp { id } => ClientMessage::GetBlockedApp { id },
        ExtensionMessage::ListBlockedApps { profile_id } => ClientMessage::ListBlockedApps { profile_id },
        ExtensionMessage::DeleteBlockedApp { id } => ClientMessage::DeleteBlockedApp { id },
        ExtensionMessage::CreateDomRule { rule } => ClientMessage::CreateDomRule { rule },
        ExtensionMessage::GetDomRule { id } => ClientMessage::GetDomRule { id },
        ExtensionMessage::ListDomRules { profile_id } => ClientMessage::ListDomRules { profile_id },
        ExtensionMessage::DeleteDomRule { id } => ClientMessage::DeleteDomRule { id },
        ExtensionMessage::CreateManualSession { session } => ClientMessage::CreateManualSession { session },
        ExtensionMessage::GetManualSession { id } => ClientMessage::GetManualSession { id },
        ExtensionMessage::GetActiveManualSession => ClientMessage::GetActiveManualSession,
        ExtensionMessage::ListManualSessions => ClientMessage::ListManualSessions,
        ExtensionMessage::UpdateManualSession { session } => ClientMessage::UpdateManualSession { session },
        ExtensionMessage::AddGlobalWebsite { domain } => ClientMessage::AddGlobalWebsite { domain },
        ExtensionMessage::RemoveGlobalWebsite { domain } => ClientMessage::RemoveGlobalWebsite { domain },
        ExtensionMessage::ListGlobalWebsites => ClientMessage::ListGlobalWebsites,
        ExtensionMessage::GetActivePolicy { current_day, current_time } => ClientMessage::GetActivePolicy { current_day, current_time },
    }
}

/// Convert an extension JSON message to the daemon's ClientMessage.
pub fn extension_to_client(msg: ExtensionMessage) -> (r: ClientMessage)
    ensures
        r == client_message_of(msg),
{
    match msg {
        ExtensionMessage::Ping => ClientMessage::Ping,
        ExtensionMessage::Start { duration } => ClientMessage::Start { duration },
        ExtensionMessage::Stop => ClientMessage::Stop,
        ExtensionMessage::GetStatus => ClientMessage::GetStatus,
        ExtensionMessage::CreateProfile { name } => ClientMessage::CreateProfile { name },
        ExtensionMessage::GetProfile { id } => ClientMessage::GetProfile { id },
        ExtensionMessage::ListProfiles => ClientMessage::ListProfiles,
        ExtensionMessage::UpdateProfile { profile } => ClientMessage::UpdateProfile { profile },
        ExtensionMessage::DeleteProfile { id } => ClientMessage::DeleteProfile { id },
        ExtensionMessage::CreateSchedule { schedule } => ClientMessage::CreateSchedule { schedule },
        ExtensionMessage::GetSchedule { id } => ClientMessage::GetSchedule { id },
        ExtensionMessage::ListSchedules { profile_id } => ClientMessage::ListSchedules { profile_id },
        ExtensionMessage::UpdateSchedule { schedule } => ClientMessage::UpdateSchedule { schedule },
        ExtensionMessage::DeleteSchedule { id } => ClientMessage::DeleteSchedule { id },
        ExtensionMessage::CreateBlockedWebsite { website } => ClientMessage::CreateBlockedWebsite { website },
        ExtensionMessage::ListBlockedWebsites { profile_id } => ClientMessage::ListBlockedWebsites { profile_id },
        ExtensionMessage::DeleteBlockedWebsite { id } => ClientMessage::DeleteBlockedWebsite { id },
        ExtensionMessage::CreateBlockedApp { app } => ClientMessage::CreateBlockedApp { app },
        ExtensionMessage::GetBlockedApp { id } => ClientMessage::GetBlockedApp { id },
        ExtensionMessage::ListBlockedApps { profile_id } => ClientMessage::ListBlockedApps { profile_id },
        ExtensionMessage::DeleteBlockedApp { id } => ClientMessage::DeleteBlockedApp { id },
        ExtensionMessage::CreateDomRule { rule } => ClientMessage::CreateDomRule { rule },
        ExtensionMessage::GetDomRule { id } => ClientMessage::GetDomRule { id },
        ExtensionMessage::ListDomRules { profile_id } => ClientMessage::ListDomRules { profile_id },
        ExtensionMessage::DeleteDomRule { id } => ClientMessage::DeleteDomRule { id },
        ExtensionMessage::CreateManualSession { session } => ClientMessage::CreateManualSession { session },
        ExtensionMessage::GetManualSession { id } => ClientMessage::GetManualSession { id },
        ExtensionMessage::GetActiveManualSession => ClientMessage::GetActiveManualSession,
        ExtensionMessage::ListManualSessions => ClientMessage::ListManualSessions,
        ExtensionMessage::UpdateManualSession { session } => ClientMessage::UpdateManualSession { session },
        ExtensionMessage::AddGlobalWebsite { domain } => ClientMessage::AddGlobalWebsite { domain },
        ExtensionMessage::RemoveGlobalWebsite { domain } => ClientMessage::RemoveGlobalWebsite { domain },
        ExtensionMessage::ListGlobalWebsites => ClientMessage::ListGlobalWebsites,
        ExtensionMessage::GetActivePolicy { current_day, current_time } => ClientMessage::GetActivePolicy { current_day, current_time },
    }
}

/// Different extension requests stand for different daemon requests: the
/// conversion loses nothing.
pub proof fn lemma_extension_requests_one_to_one(a: ExtensionMessage, b: ExtensionMessage)
    requires
        client_message_of(a) == client_message_of(b),
    ensures
        a == b,
{
}

/// The extension message a daemon message is shown as. The two status
/// messages become one, with the time left only while a session runs; a
/// policy push looks like the answer to a policy request; the subscription
/// acknowledgement, which the extension does not need, looks like `Pong`.
pub open spec fn extension_response_of(msg: DaemonMessage) -> ExtensionResponse {
    match msg {
        DaemonMessage::Pong => ExtensionResponse::Pong,
        DaemonMessage::Started { duration } => ExtensionResponse::Started { duration },
        DaemonMessage::Stopped => ExtensionResponse::Stopped,
        DaemonMessage::StatusWithTime { time_left, sites } => ExtensionResponse::Status {
            active: true,
            time_left: Some(time_left),
            sites,
        },
        DaemonMessage::StatusIdle { sites } => ExtensionResponse::Status {
            active: false,
            time_left: None,
            sites,
        },
        DaemonMessage::Error(message) => ExtensionResponse::Error { message },
        DaemonMessage::Profile(profile) => ExtensionResponse::Profile { profile },
        DaemonMessage::ProfileList(profiles) => ExtensionResponse::ProfileList { profiles },
        DaemonMessage::ProfileUpdated => ExtensionResponse::ProfileUpdated,
        DaemonMessage::ProfileDeleted => ExtensionResponse::ProfileDeleted,
        DaemonMessage::Schedule(schedule) => ExtensionResponse::Schedule { schedule },
        DaemonMessage::ScheduleList(schedules) => ExtensionResponse::ScheduleList { schedules },
        DaemonMessage::ScheduleUpdated => ExtensionResponse::ScheduleUpdated,
        DaemonMessage::ScheduleDeleted => ExtensionResponse::ScheduleDeleted,
        DaemonMessage::BlockedWebsite(website) => ExtensionResponse::BlockedWebsite { website },
        DaemonMessage::BlockedWebsiteList(websites) => ExtensionResponse::BlockedWebsiteList {
            websites,
        },
        DaemonMessage::BlockedWebsiteDeleted => ExtensionResponse::BlockedWebsiteDeleted,
        DaemonMessage::BlockedApp(app) => ExtensionResponse::BlockedApp { app },
        DaemonMessage::BlockedAppList(apps) => ExtensionResponse::BlockedAppList { apps },
        DaemonMessage::BlockedAppDeleted => ExtensionResponse::BlockedAppDeleted,
        DaemonMessage::DomRule(rule) => ExtensionResponse::DomRule { rule },
        DaemonMessage::DomRuleList(rules) => ExtensionResponse::DomRuleList { rules },
        DaemonMessage::DomRuleDeleted => ExtensionResponse::DomRuleDeleted,
        DaemonMessage::ManualSession(session) => ExtensionResponse::ManualSession { session },
        DaemonMessage::ManualSessionList(sessions) => ExtensionResponse::ManualSessionList {
            sessions,
        },
        DaemonMessage::ManualSessionUpdated => ExtensionResponse::ManualSessionUpdated,
        DaemonMessage::GlobalWebsiteAdded(success) => ExtensionResponse::GlobalWebsiteAdded {
            success,
        },
        DaemonMessage::GlobalWebsiteRemoved(success) => ExtensionResponse::GlobalWebsiteRemoved {
            success,
        },
        DaemonMessage::GlobalWebsiteList(websites) => ExtensionResponse::GlobalWebsiteList {
            websites,
        },
        DaemonMessage::ActivePolicy(policy) => ExtensionResponse::ActivePolicy { policy },
        DaemonMessage::PolicyChanged(policy) => ExtensionResponse::ActivePolicy { policy },
        DaemonMessage::Subscribed => ExtensionResponse::Pong,
    }
}

/// Daemon messages other than the two the extension does not tell apart
/// from an answer (the subscription acknowledgement and the policy push)
/// reach the extension as different responses, so that nothing a message
/// carries is lost on the way.
pub proof fn lemma_extension_responses_one_to_one(a: DaemonMessage, b: DaemonMessage)
    requires
        !(a is Subscribed || a is PolicyChanged),
        !(b is Subscribed || b is PolicyChanged),
        extension_response_of(a) == extension_response_of(b),
    ensures
        a == b,
{
}

/// The flags and counts of daemon messages reach the extension as they
/// are: whether a global website was added or removed, the length of a
/// started session, and the time left of a running one, with its sites.
pub proof fn lemma_extension_values_kept(
    success: bool,
    duration: u64,
    time_left: u64,
    sites: Vec<String>,
)
    ensures
        extension_response_of(DaemonMessage::GlobalWebsiteAdded(success)) == (
        ExtensionResponse::GlobalWebsiteAdded { success }),
        extension_response_of(DaemonMessage::GlobalWebsiteRemoved(success)) == (
        ExtensionResponse::GlobalWebsiteRemoved { success }),
        extension_response_of((DaemonMessage::Started { duration })) == (
        ExtensionResponse::Started { duration }),
        extension_response_of((DaemonMessage::StatusWithTime { time_left, sites })) == (
        ExtensionResponse::Status { active: true, time_left: Some(time_left), sites }),
        extension_response_of((DaemonMessage::StatusIdle { sites })) == (
        ExtensionResponse::Status { active: false, time_left: None, sites }),
{
}

/// The subscription acknowledgement looks like `Pong`, and a policy push
/// like the answer to a policy request with the same policy.
pub proof fn lemma_pushes_look_like_answers(p: crate::model::ActivePolicy)
    ensures
        extension_response_of(DaemonMessage::Subscribed) == extension_response_of(DaemonMessage::Pong),
        extension_response_of(DaemonMessage::PolicyChanged(p)) == extension_response_of(
            DaemonMessage::ActivePolicy(p),
        ),
{
}

/// Convert a daemon DaemonMessage to a JSON-friendly ExtensionResponse.
pub fn daemon_to_extension(msg: DaemonMessage) -> (r: ExtensionResponse)
    ensures
        r == extension_response_of(msg),
{
    match msg {
        DaemonMessage::Pong => ExtensionResponse::Pong,
        DaemonMessage::Started { duration } => ExtensionResponse::Started { duration },
        DaemonMessage::Stopped => ExtensionResponse::Stopped,
        DaemonMessage::StatusWithTime { time_left, sites } => ExtensionResponse::Status {
            active: true,
            time_left: Some(time_left),
            sites,
        },
        DaemonMessage::StatusIdle { sites } => ExtensionResponse::Status {
            active: false,
            time_left: None,
            sites,
        },
        DaemonMessage::Error(message) => ExtensionResponse::Error { message },
        DaemonMessage::Profile(profile) => ExtensionResponse::Profile { profile },
        DaemonMessage::ProfileList(profiles) => ExtensionResponse::ProfileList { profiles },
        DaemonMessage::ProfileUpdated => ExtensionResponse::ProfileUpdated,
        DaemonMessage::ProfileDeleted => ExtensionResponse::ProfileDeleted,
        DaemonMessage::Schedule(schedule) => ExtensionResponse::Schedule { schedule },
        DaemonMessage::ScheduleList(schedules) => ExtensionResponse::ScheduleList { schedules },
        DaemonMessage::ScheduleUpdated => ExtensionResponse::ScheduleUpdated,
        DaemonMessage::ScheduleDeleted => ExtensionResponse::ScheduleDeleted,
        DaemonMessage::BlockedWebsite(website) => ExtensionResponse::BlockedWebsite { website },
        DaemonMessage::BlockedWebsiteList(websites) => ExtensionResponse::BlockedWebsiteList {
            websites,
        },
        DaemonMessage::BlockedWebsiteDeleted => ExtensionResponse::BlockedWebsiteDeleted,
        DaemonMessage::BlockedApp(app) => ExtensionResponse::BlockedApp { app },
        DaemonMessage::BlockedAppList(apps) => ExtensionResponse::BlockedAppList { apps },
        DaemonMessage::BlockedAppDeleted => ExtensionResponse::BlockedAppDeleted,
        DaemonMessage::DomRule(rule) => ExtensionResponse::DomRule { rule },
        DaemonMessage::DomRuleList(rules) => ExtensionResponse::DomRuleList { rules },
        DaemonMessage::DomRuleDeleted => ExtensionResponse::DomRuleDeleted,
        DaemonMessage::ManualSession(session) => ExtensionResponse::ManualSession { session },
        DaemonMessage::ManualSessionList(sessions) => ExtensionResponse::ManualSessionList {
            sessions,
        },
        DaemonMessage::ManualSessionUpdated => ExtensionResponse::ManualSessionUpdated,
        DaemonMessage::GlobalWebsiteAdded(success) => ExtensionResponse::GlobalWebsiteAdded {
            success,
        },
        DaemonMessage::GlobalWebsiteRemoved(success) => ExtensionResponse::GlobalWebsiteRemoved {
            success,
        },
        DaemonMessage::GlobalWebsiteList(websites) => ExtensionResponse::GlobalWebsiteList {
            websites,
        },
        DaemonMessage::ActivePolicy(policy) => ExtensionResponse::ActivePolicy { policy },
        DaemonMessage::PolicyChanged(policy) => ExtensionResponse::ActivePolicy { policy },
        DaemonMessage::Subscribed => ExtensionResponse::Pong,
    }
}

} // verus!
