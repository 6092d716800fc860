//! The requests the daemon makes of its record store, and the replies it
//! gets back. The store itself (an SQLite database) is run outside the
//! library; the library decides what to ask and what to do with the answer.

use vstd::prelude::*;
use crate::model::{
    ActivePolicy, BlockedApp, BlockedWebsite, DbError, DomRule, ManualSession, Profile, Schedule,
};

use crate::protocol::ClientMessage;

verus! {

/// A request to the record store.
#[derive(Debug)]
pub enum StoreRequest {
    CreateProfile { name: String },
    GetProfile { id: String },
    ListProfiles,
    UpdateProfile { profile: Profile },
    DeleteProfile { id: String },
    CreateSchedule { schedule: Schedule },
    GetSchedule { id: i64 },
    ListSchedules { profile_id: String },
    UpdateSchedule { schedule: Schedule },
    DeleteSchedule { id: i64 },
    CreateBlockedWebsite { website: BlockedWebsite },
    ListBlockedWebsites { profile_id: String },
    DeleteBlockedWebsite { id: i64 },
    CreateBlockedApp { app: BlockedApp },
    GetBlockedApp { id: i64 },
    ListBlockedApps { profile_id: String },
    DeleteBlockedApp { id: i64 },
    CreateDomRule { rule: DomRule },
    GetDomRule { id: i64 },
    ListDomRules { profile_id: String },
    DeleteDomRule { id: i64 },
    CreateManualSession { session: ManualSession },
    GetManualSession { id: i64 },
    GetActiveManualSession,
    ListManualSessions,
    UpdateManualSession { session: ManualSession },
    AddGlobalWebsite { domain: String },
    RemoveGlobalWebsite { domain: String },
    ListGlobalWebsites,
    GetActivePolicy { current_day: String, current_time: String },
}

/// What the record store answers to a request that succeeded.
#[derive(Debug)]
pub enum StoreReply {
    Done,
    Flag(bool),
    Domains(Vec<String>),
    Profile(Profile),
    MaybeProfile(Option<Profile>),
    Profiles(Vec<Profile>),
    Schedule(Schedule),
    MaybeSchedule(Option<Schedule>),
    Schedules(Vec<Schedule>),
    Website(BlockedWebsite),
    Websites(Vec<BlockedWebsite>),
    App(BlockedApp),
    MaybeApp(Option<BlockedApp>),
    Apps(Vec<BlockedApp>),
    Rule(DomRule),
    MaybeRule(Option<DomRule>),
    Rules(Vec<DomRule>),
    ManualSession(ManualSession),
    MaybeManualSession(Option<ManualSession>),
    ManualSessions(Vec<ManualSession>),
    Policy(ActivePolicy),
}

/// The client request that asks the store for `request`: the request of
/// the same name, with the same contents.
pub open spec fn client_request_of(request: StoreRequest) -> ClientMessage {
    match request {
        StoreRequest::CreateProfile { name } => ClientMessage::CreateProfile { name },
        StoreRequest::GetProfile { id } => ClientMessage::GetProfile { id },
        StoreRequest::ListProfiles => ClientMessage::ListProfiles,
        StoreRequest::UpdateProfile { profile } => ClientMessage::UpdateProfile { profile },
        StoreRequest::DeleteProfile { id } => ClientMessage::DeleteProfile { id },
        StoreRequest::CreateSchedule { schedule } => ClientMessage::CreateSchedule { schedule },
        StoreRequest::GetSchedule { id } => ClientMessage::GetSchedule { id },
        StoreRequest::ListSchedules { profile_id } => ClientMessage::ListSchedules { profile_id },
        StoreRequest::UpdateSchedule { schedule } => ClientMessage::UpdateSchedule { schedule },
        StoreRequest::DeleteSchedule { id } => ClientMessage::DeleteSchedule { id },
        StoreRequest::CreateBlockedWebsite { website } => ClientMessage::CreateBlockedWebsite { website },
        StoreRequest::ListBlockedWebsites { profile_id } => ClientMessage::ListBlockedWebsites { profile_id },
        StoreRequest::DeleteBlockedWebsite { id } => ClientMessage::DeleteBlockedWebsite { id },
        StoreRequest::CreateBlockedApp { app } => ClientMessage::CreateBlockedApp { app },
        StoreRequest::GetBlockedApp { id } => ClientMessage::GetBlockedApp { id },
        StoreRequest::ListBlockedApps { profile_id } => ClientMessage::ListBlockedApps { profile_id },
        StoreRequest::DeleteBlockedApp { id } => ClientMessage::DeleteBlockedApp { id },
        StoreRequest::CreateDomRule { rule } => ClientMessage::CreateDomRule { rule },
        StoreRequest::GetDomRule { id } => ClientMessage::GetDomRule { id },
        StoreRequest::ListDomRules { profile_id } => ClientMessage::ListDomRules { profile_id },
        StoreRequest::DeleteDomRule { id } => ClientMessage::DeleteDomRule { id },
        StoreRequest::CreateManualSession { session } => ClientMessage::CreateManualSession { session },
        StoreRequest::GetManualSession { id } => ClientMessage::GetManualSession { id },
        StoreRequest::GetActiveManualSession => ClientMessage::GetActiveManualSession,
        StoreRequest::ListManualSessions => ClientMessage::ListManualSessions,
        StoreRequest::UpdateManualSession { session } => ClientMessage::UpdateManualSession { session },
        StoreRequest::AddGlobalWebsite { domain } => ClientMessage::AddGlobalWebsite { domain },
        StoreRequest::RemoveGlobalWebsite { domain } => ClientMessage::RemoveGlobalWebsite { domain },
        StoreRequest::ListGlobalWebsites => ClientMessage::ListGlobalWebsites,
        StoreRequest::GetActivePolicy { current_day, current_time } => ClientMessage::GetActivePolicy { current_day, current_time },
    }
}

/// Whether a request only reads the records (a `Get…` or `List…`, or the
/// computation of the policy), leaving them as they were.
pub open spec fn only_reads(request: StoreRequest) -> bool {
    match request {
        StoreRequest::GetProfile { .. }
        | StoreRequest::ListProfiles
        | StoreRequest::GetSchedule { .. }
        | StoreRequest::ListSchedules { .. }
        | StoreRequest::ListBlockedWebsites { .. }
        | StoreRequest::GetBlockedApp { .. }
        | StoreRequest::ListBlockedApps { .. }
        | StoreRequest::GetDomRule { .. }
        | StoreRequest::ListDomRules { .. }
        | StoreRequest::GetManualSession { .. }
        | StoreRequest::GetActiveManualSession
        | StoreRequest::ListManualSessions
        | StoreRequest::ListGlobalWebsites
        | StoreRequest::GetActivePolicy { .. } => true,
        _ => false,
    }
}

/// Whether `reply` has the shape that `request` is answered with.
pub open spec fn reply_fits(request: StoreRequest, reply: StoreReply) -> bool {
    match request {
        StoreRequest::CreateProfile { .. } => reply is Profile,
        StoreRequest::GetProfile { .. } => reply is MaybeProfile,
        StoreRequest::ListProfiles => reply is Profiles,
        StoreRequest::UpdateProfile { .. } => reply is Done,
        StoreRequest::DeleteProfile { .. } => reply is Done,
        StoreRequest::CreateSchedule { .. } => reply is Schedule,
        StoreRequest::GetSchedule { .. } => reply is MaybeSchedule,
        StoreRequest::ListSchedules { .. } => reply is Schedules,
        StoreRequest::UpdateSchedule { .. } => reply is Done,
        StoreRequest::DeleteSchedule { .. } => reply is Done,
        StoreRequest::CreateBlockedWebsite { .. } => reply is Website,
        StoreRequest::ListBlockedWebsites { .. } => reply is Websites,
        StoreRequest::DeleteBlockedWebsite { .. } => reply is Done,
        StoreRequest::CreateBlockedApp { .. } => reply is App,
        StoreRequest::GetBlockedApp { .. } => reply is MaybeApp,
        StoreRequest::ListBlockedApps { .. } => reply is Apps,
        StoreRequest::DeleteBlockedApp { .. } => reply is Done,
        StoreRequest::CreateDomRule { .. } => reply is Rule,
        StoreRequest::GetDomRule { .. } => reply is MaybeRule,
        StoreRequest::ListDomRules { .. } => reply is Rules,
        StoreRequest::DeleteDomRule { .. } => reply is Done,
        StoreRequest::CreateManualSession { .. } => reply is ManualSession,
        StoreRequest::GetManualSession { .. } => reply is MaybeManualSession,
        StoreRequest::GetActiveManualSession => reply is MaybeManualSession,
        StoreRequest::ListManualSessions => reply is ManualSessions,
        StoreRequest::UpdateManualSession { .. } => reply is Done,
        StoreRequest::AddGlobalWebsite { .. } => reply is Flag,
        StoreRequest::RemoveGlobalWebsite { .. } => reply is Flag,
        StoreRequest::ListGlobalWebsites => reply is Domains,
        StoreRequest::GetActivePolicy { .. } => reply is Policy,
    }
}

/// Whether the outcome of `request` has the shape the store gives: an error,
/// or a reply that fits the request.
pub open spec fn outcome_fits(request: StoreRequest, outcome: Result<StoreReply, DbError>) -> bool {
    match outcome {
        Ok(reply) => reply_fits(request, reply),
        Err(_) => true,
    }
}

/// Whether the outcome of `request` has the shape the store gives.
pub fn outcome_fits_request(request: &StoreRequest, outcome: &Result<StoreReply, DbError>) -> (b:
    bool)
    ensures
        b == outcome_fits(*request, *outcome),
{
    match outcome {
        Err(_) => true,
        Ok(reply) => match request {
            StoreRequest::CreateProfile { .. } => matches!(reply, StoreReply::Profile(_)),
            StoreRequest::GetProfile { .. } => matches!(reply, StoreReply::MaybeProfile(_)),
            StoreRequest::ListProfiles => matches!(reply, StoreReply::Profiles(_)),
            StoreRequest::UpdateProfile { .. } => matches!(reply, StoreReply::Done),
            StoreRequest::DeleteProfile { .. } => matches!(reply, StoreReply::Done),
            StoreRequest::CreateSchedule { .. } => matches!(reply, StoreReply::Schedule(_)),
            StoreRequest::GetSchedule { .. } => matches!(reply, StoreReply::MaybeSchedule(_)),
            StoreRequest::ListSchedules { .. } => matches!(reply, StoreReply::Schedules(_)),
            StoreRequest::UpdateSchedule { .. } => matches!(reply, StoreReply::Done),
            StoreRequest::DeleteSchedule { .. } => matches!(reply, StoreReply::Done),
            StoreRequest::CreateBlockedWebsite { .. } => matches!(reply, StoreReply::Website(_)),
            StoreRequest::ListBlockedWebsites { .. } => matches!(reply, StoreReply::Websites(_)),
            StoreRequest::DeleteBlockedWebsite { .. } => matches!(reply, StoreReply::Done),
            StoreRequest::CreateBlockedApp { .. } => matches!(reply, StoreReply::App(_)),
            StoreRequest::GetBlockedApp { .. } => matches!(reply, StoreReply::MaybeApp(_)),
            StoreRequest::ListBlockedApps { .. } => matches!(reply, StoreReply::Apps(_)),
            StoreRequest::DeleteBlockedApp { .. } => matches!(reply, StoreReply::Done),
            StoreRequest::CreateDomRule { .. } => matches!(reply, StoreReply::Rule(_)),
            StoreRequest::GetDomRule { .. } => matches!(reply, StoreReply::MaybeRule(_)),
            StoreRequest::ListDomRules { .. } => matches!(reply, StoreReply::Rules(_)),
            StoreRequest::DeleteDomRule { .. } => matches!(reply, StoreReply::Done),
            StoreRequest::CreateManualSession { .. } => matches!(reply, StoreReply::ManualSession(_)),
            StoreRequest::GetManualSession { .. } => matches!(
                reply,
                StoreReply::MaybeManualSession(_)
            ),
            StoreRequest::GetActiveManualSession => matches!(
                reply,
                StoreReply::MaybeManualSession(_)
            ),
            StoreRequest::ListManualSessions => matches!(reply, StoreReply::ManualSessions(_)),
            StoreRequest::UpdateManualSession { .. } => matches!(reply, StoreReply::Done),
            StoreRequest::AddGlobalWebsite { .. } => matches!(reply, StoreReply::Flag(_)),
            StoreRequest::RemoveGlobalWebsite { .. } => matches!(reply, StoreReply::Flag(_)),
            StoreRequest::ListGlobalWebsites => matches!(reply, StoreReply::Domains(_)),
            StoreRequest::GetActivePolicy { .. } => matches!(reply, StoreReply::Policy(_)),
        },
    }
}

} // verus!
