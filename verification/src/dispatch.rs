//! What a client connection does with each request: where it goes (answered
//! at once, to the daemon actor, or to the record store), and what is sent
//! back once the answer is in.

use vstd::prelude::*;
use crate::daemon::{Command, DaemonError};
use crate::model::DbError;
use crate::protocol::{ClientMessage, DaemonMessage};
use crate::session::Session;
use crate::store::{outcome_fits, StoreReply, StoreRequest};

verus! {

/// Where a request goes.
#[derive(Debug)]
pub enum Route {
    /// Answered at once with this message.
    Answer(DaemonMessage),
    /// The connection subscribes to policy changes; answered `Subscribed`.
    Subscribe,
    /// Sent to the daemon actor.
    Actor(Command),
    /// Asked of the record store.
    Store(StoreRequest),
}

/// Where a request goes.
pub open spec fn route_of(msg: ClientMessage) -> Route {
    match msg {
        ClientMessage::Ping => Route::Answer(DaemonMessage::Pong),
        ClientMessage::Start { duration } => Route::Actor(Command::Start { duration_secs: duration }),
        ClientMessage::Stop => Route::Actor(Command::Stop),
        ClientMessage::GetStatus => Route::Actor(Command::GetStatus),
        ClientMessage::CreateProfile { name } => Route::Store(StoreRequest::CreateProfile { name }),
        ClientMessage::GetProfile { id } => Route::Store(StoreRequest::GetProfile { id }),
        ClientMessage::ListProfiles => Route::Store(StoreRequest::ListProfiles),
        ClientMessage::UpdateProfile { profile } => Route::Store(
            StoreRequest::UpdateProfile { profile },
        ),
        ClientMessage::DeleteProfile { id } => Route::Store(StoreRequest::DeleteProfile { id }),
        ClientMessage::CreateSchedule { schedule } => Route::Store(
            StoreRequest::CreateSchedule { schedule },
        ),
        ClientMessage::GetSchedule { id } => Route::Store(StoreRequest::GetSchedule { id }),
        ClientMessage::ListSchedules { profile_id } => Route::Store(
            StoreRequest::ListSchedules { profile_id },
        ),
        ClientMessage::UpdateSchedule { schedule } => Route::Store(
            StoreRequest::UpdateSchedule { schedule },
        ),
        ClientMessage::DeleteSchedule { id } => Route::Store(StoreRequest::DeleteSchedule { id }),
        ClientMessage::CreateBlockedWebsite { website } => Route::Store(
            StoreRequest::CreateBlockedWebsite { website },
        ),
        ClientMessage::ListBlockedWebsites { profile_id } => Route::Store(
            StoreRequest::ListBlockedWebsites { profile_id },
        ),
        ClientMessage::DeleteBlockedWebsite { id } => Route::Store(
            StoreRequest::DeleteBlockedWebsite { id },
        ),
        ClientMessage::CreateBlockedApp { app } => Route::Store(StoreRequest::CreateBlockedApp { app }),
        ClientMessage::GetBlockedApp { id } => Route::Store(StoreRequest::GetBlockedApp { id }),
        ClientMessage::ListBlockedApps { profile_id } => Route::Store(
            StoreRequest::ListBlockedApps { profile_id },
        ),
        ClientMessage::DeleteBlockedApp { id } => Route::Store(StoreRequest::DeleteBlockedApp { id }),
        ClientMessage::CreateDomRule { rule } => Route::Store(StoreRequest::CreateDomRule { rule }),
        ClientMessage::GetDomRule { id } => Route::Store(StoreRequest::GetDomRule { id }),
        ClientMessage::ListDomRules { profile_id } => Route::Store(
            StoreRequest::ListDomRules { profile_id },
        ),
        ClientMessage::DeleteDomRule { id } => Route::Store(StoreRequest::DeleteDomRule { id }),
        ClientMessage::CreateManualSession { session } => Route::Store(
            StoreRequest::CreateManualSession { session },
        ),
        ClientMessage::GetManualSession { id } => Route::Store(StoreRequest::GetManualSession { id }),
        ClientMessage::GetActiveManualSession => Route::Store(StoreRequest::GetActiveManualSession),
        ClientMessage::ListManualSessions => Route::Store(StoreRequest::ListManualSessions),
        ClientMessage::UpdateManualSession { session } => Route::Store(
            StoreRequest::UpdateManualSession { session },
        ),
        ClientMessage::AddGlobalWebsite { domain } => Route::Store(
            StoreRequest::AddGlobalWebsite { domain },
        ),
        ClientMessage::RemoveGlobalWebsite { domain } => Route::Store(
            StoreRequest::RemoveGlobalWebsite { domain },
        ),
        ClientMessage::ListGlobalWebsites => Route::Store(StoreRequest::ListGlobalWebsites),
        ClientMessage::GetActivePolicy { current_day, current_time } => Route::Store(
            StoreRequest::GetActivePolicy { current_day, current_time },
        ),
        ClientMessage::SubscribePolicyChanges => Route::Subscribe,
    }
}

/// Different requests go to different places: no two requests are sent on
/// as the same command or store request (an update is never carried out as
/// a creation, a deletion never as another deletion), and each carries its
/// own contents along.
pub proof fn lemma_routes_one_to_one(a: ClientMessage, b: ClientMessage)
    requires
        route_of(a) == route_of(b),
    ensures
        a == b,
{
}

/// A request sent to the record store is the store request of the same
/// name with the same contents: reading the store request back as a client
/// request gives the request that was routed.
pub proof fn lemma_store_routes_keep_request(msg: ClientMessage)
    requires
        route_of(msg) is Store,
    ensures
        crate::store::client_request_of(route_of(msg)->Store_0) == msg,
{
}

/// A request routed to the record store reads the records exactly when it
/// is a `Get…` or `List…` request, and writes them otherwise.
pub proof fn lemma_store_routes_keep_reads(msg: ClientMessage)
    requires
        route_of(msg) is Store,
    ensures
        crate::store::only_reads(route_of(msg)->Store_0) <==> (msg is GetProfile
            || msg is ListProfiles || msg is GetSchedule || msg is ListSchedules
            || msg is ListBlockedWebsites || msg is GetBlockedApp || msg is ListBlockedApps
            || msg is GetDomRule || msg is ListDomRules || msg is GetManualSession
            || msg is GetActiveManualSession || msg is ListManualSessions
            || msg is ListGlobalWebsites || msg is GetActivePolicy),
{
}

/// Where a request goes.
pub fn route(msg: ClientMessage) -> (r: Route)
    ensures
        r == route_of(msg),
{
    match msg {
        ClientMessage::Ping => Route::Answer(DaemonMessage::Pong),
        ClientMessage::Start { duration } => Route::Actor(Command::Start { duration_secs: duration }),
        ClientMessage::Stop => Route::Actor(Command::Stop),
        ClientMessage::GetStatus => Route::Actor(Command::GetStatus),
        ClientMessage::CreateProfile { name } => Route::Store(StoreRequest::CreateProfile { name }),
        ClientMessage::GetProfile { id } => Route::Store(StoreRequest::GetProfile { id }),
        ClientMessage::ListProfiles => Route::Store(StoreRequest::ListProfiles),
        ClientMessage::UpdateProfile { profile } => Route::Store(
            StoreRequest::UpdateProfile { profile },
        ),
        ClientMessage::DeleteProfile { id } => Route::Store(StoreRequest::DeleteProfile { id }),
        ClientMessage::CreateSchedule { schedule } => Route::Store(
            StoreRequest::CreateSchedule { schedule },
        ),
        ClientMessage::GetSchedule { id } => Route::Store(StoreRequest::GetSchedule { id }),
        ClientMessage::ListSchedules { profile_id } => Route::Store(
            StoreRequest::ListSchedules { profile_id },
        ),
        ClientMessage::UpdateSchedule { schedule } => Route::Store(
            StoreRequest::UpdateSchedule { schedule },
        ),
        ClientMessage::DeleteSchedule { id } => Route::Store(StoreRequest::DeleteSchedule { id }),
        ClientMessage::CreateBlockedWebsite { website } => Route::Store(
            StoreRequest::CreateBlockedWebsite { website },
        ),
        ClientMessage::ListBlockedWebsites { profile_id } => Route::Store(
            StoreRequest::ListBlockedWebsites { profile_id },
        ),
        ClientMessage::DeleteBlockedWebsite { id } => Route::Store(
            StoreRequest::DeleteBlockedWebsite { id },
        ),
        ClientMessage::CreateBlockedApp { app } => Route::Store(StoreRequest::CreateBlockedApp { app }),
        ClientMessage::GetBlockedApp { id } => Route::Store(StoreRequest::GetBlockedApp { id }),
        ClientMessage::ListBlockedApps { profile_id } => Route::Store(
            StoreRequest::ListBlockedApps { profile_id },
        ),
        ClientMessage::DeleteBlockedApp { id } => Route::Store(StoreRequest::DeleteBlockedApp { id }),
        ClientMessage::CreateDomRule { rule } => Route::Store(StoreRequest::CreateDomRule { rule }),
        ClientMessage::GetDomRule { id } => Route::Store(StoreRequest::GetDomRule { id }),
        ClientMessage::ListDomRules { profile_id } => Route::Store(
            StoreRequest::ListDomRules { profile_id },
        ),
        ClientMessage::DeleteDomRule { id } => Route::Store(StoreRequest::DeleteDomRule { id }),
        ClientMessage::CreateManualSession { session } => Route::Store(
            StoreRequest::CreateManualSession { session },
        ),
        ClientMessage::GetManualSession { id } => Route::Store(StoreRequest::GetManualSession { id }),
        ClientMessage::GetActiveManualSession => Route::Store(StoreRequest::GetActiveManualSession),
        ClientMessage::ListManualSessions => Route::Store(StoreRequest::ListManualSessions),
        ClientMessage::UpdateManualSession { session } => Route::Store(
            StoreRequest::UpdateManualSession { session },
        ),
        ClientMessage::AddGlobalWebsite { domain } => Route::Store(
            StoreRequest::AddGlobalWebsite { domain },
        ),
        ClientMessage::RemoveGlobalWebsite { domain } => Route::Store(
            StoreRequest::RemoveGlobalWebsite { domain },
        ),
        ClientMessage::ListGlobalWebsites => Route::Store(StoreRequest::ListGlobalWebsites),
        ClientMessage::GetActivePolicy { current_day, current_time } => Route::Store(
            StoreRequest::GetActivePolicy { current_day, current_time },
        ),
        ClientMessage::SubscribePolicyChanges => Route::Subscribe,
    }
}

/// Whether `m` is the error message with the text `t`.
pub open spec fn is_error_text(m: DaemonMessage, t: Seq<char>) -> bool {
    m matches DaemonMessage::Error(s) && s@ == t
}

/// Whether `m` answers `request`, which the store answered with `reply`.
pub open spec fn store_answer_is(request: StoreRequest, reply: StoreReply, m: DaemonMessage) -> bool {
    match (request, reply) {
        (StoreRequest::CreateProfile { .. }, StoreReply::Profile(p)) => m == DaemonMessage::Profile(p),
        (StoreRequest::GetProfile { .. }, StoreReply::MaybeProfile(found)) => match found {
            Some(p) => m == DaemonMessage::Profile(p),
            None => is_error_text(m, "Profile not found"@),
        },
        (StoreRequest::ListProfiles, StoreReply::Profiles(v)) => m == DaemonMessage::ProfileList(v),
        (StoreRequest::UpdateProfile { .. }, StoreReply::Done) => m is ProfileUpdated,
        (StoreRequest::DeleteProfile { .. }, StoreReply::Done) => m is ProfileDeleted,
        (StoreRequest::CreateSchedule { .. }, StoreReply::Schedule(s)) => m
            == DaemonMessage::Schedule(s),
        (StoreRequest::GetSchedule { .. }, StoreReply::MaybeSchedule(found)) => match found {
            Some(s) => m == DaemonMessage::Schedule(s),
            None => is_error_text(m, "Schedule not found"@),
        },
        (StoreRequest::ListSchedules { .. }, StoreReply::Schedules(v)) => m
            == DaemonMessage::ScheduleList(v),
        (StoreRequest::UpdateSchedule { .. }, StoreReply::Done) => m is ScheduleUpdated,
        (StoreRequest::DeleteSchedule { .. }, StoreReply::Done) => m is ScheduleDeleted,
        (StoreRequest::CreateBlockedWebsite { .. }, StoreReply::Website(w)) => m
            == DaemonMessage::BlockedWebsite(w),
        (StoreRequest::ListBlockedWebsites { .. }, StoreReply::Websites(v)) => m
            == DaemonMessage::BlockedWebsiteList(v),
        (StoreRequest::DeleteBlockedWebsite { .. }, StoreReply::Done) => m is BlockedWebsiteDeleted,
        (StoreRequest::CreateBlockedApp { .. }, StoreReply::App(a)) => m
            == DaemonMessage::BlockedApp(a),
        (StoreRequest::GetBlockedApp { .. }, StoreReply::MaybeApp(found)) => match found {
            Some(a) => m == DaemonMessage::BlockedApp(a),
            None => is_error_text(m, "Blocked app not found"@),
        },
        (StoreRequest::ListBlockedApps { .. }, StoreReply::Apps(v)) => m
            == DaemonMessage::BlockedAppList(v),
        (StoreRequest::DeleteBlockedApp { .. }, StoreReply::Done) => m is BlockedAppDeleted,
        (StoreRequest::CreateDomRule { .. }, StoreReply::Rule(r)) => m == DaemonMessage::DomRule(r),
        (StoreRequest::GetDomRule { .. }, StoreReply::MaybeRule(found)) => match found {
            Some(r) => m == DaemonMessage::DomRule(r),
            None => is_error_text(m, "DOM rule not found"@),
        },
        (StoreRequest::ListDomRules { .. }, StoreReply::Rules(v)) => m
            == DaemonMessage::DomRuleList(v),
        (StoreRequest::DeleteDomRule { .. }, StoreReply::Done) => m is DomRuleDeleted,
        (StoreRequest::CreateManualSession { .. }, StoreReply::ManualSession(s)) => m
            == DaemonMessage::ManualSession(Some(s)),
        (StoreRequest::GetManualSession { .. }, StoreReply::MaybeManualSession(found)) => m
            == DaemonMessage::ManualSession(found),
        (StoreRequest::GetActiveManualSession, StoreReply::MaybeManualSession(found)) => m
            == DaemonMessage::ManualSession(found),
        (StoreRequest::ListManualSessions, StoreReply::ManualSessions(v)) => m
            == DaemonMessage::ManualSessionList(v),
        (StoreRequest::UpdateManualSession { .. }, StoreReply::Done) => m is ManualSessionUpdated,
        (StoreRequest::AddGlobalWebsite { .. }, StoreReply::Flag(b)) => m
            == DaemonMessage::GlobalWebsiteAdded(b),
        (StoreRequest::RemoveGlobalWebsite { .. }, StoreReply::Flag(b)) => m
            == DaemonMessage::GlobalWebsiteRemoved(b),
        (StoreRequest::ListGlobalWebsites, StoreReply::Domains(v)) => m
            == DaemonMessage::GlobalWebsiteList(v),
        (StoreRequest::GetActivePolicy { .. }, StoreReply::Policy(p)) => m
            == DaemonMessage::ActivePolicy(p),
        _ => false,
    }
}

fn error_message(text: &str) -> (m: DaemonMessage)
    ensures
        is_error_text(m, text@),
{
    DaemonMessage::Error(String::from_str(text))
}

/// The message that answers `request`, from the store's outcome: the
/// store's failure is a failure of the request.
pub fn store_answer(request: &StoreRequest, outcome: Result<StoreReply, DbError>) -> (r: Result<
    DaemonMessage,
    DaemonError,
>)
    requires
        outcome_fits(*request, outcome),
    ensures
        match outcome {
            Ok(reply) => r matches Ok(m) && store_answer_is(*request, reply, m),
            Err(e) => r == Err::<DaemonMessage, DaemonError>(DaemonError::Database(e)),
        },
{
    match outcome {
        Err(e) => Err(DaemonError::Database(e)),
        Ok(reply) => {
            let m = match reply {
                StoreReply::Done => match request {
                    StoreRequest::UpdateProfile { .. } => DaemonMessage::ProfileUpdated,
                    StoreRequest::DeleteProfile { .. } => DaemonMessage::ProfileDeleted,
                    StoreRequest::UpdateSchedule { .. } => DaemonMessage::ScheduleUpdated,
                    StoreRequest::DeleteSchedule { .. } => DaemonMessage::ScheduleDeleted,
                    StoreRequest::DeleteBlockedWebsite { .. } => DaemonMessage::BlockedWebsiteDeleted,
                    StoreRequest::DeleteBlockedApp { .. } => DaemonMessage::BlockedAppDeleted,
                    StoreRequest::DeleteDomRule { .. } => DaemonMessage::DomRuleDeleted,
                    _ => DaemonMessage::ManualSessionUpdated,
                },
                StoreReply::Flag(b) => match request {
                    StoreRequest::AddGlobalWebsite { .. } => DaemonMessage::GlobalWebsiteAdded(b),
                    _ => DaemonMessage::GlobalWebsiteRemoved(b),
                },
                StoreReply::Domains(v) => DaemonMessage::GlobalWebsiteList(v),
                StoreReply::Profile(p) => DaemonMessage::Profile(p),
                StoreReply::MaybeProfile(found) => match found {
                    Some(p) => DaemonMessage::Profile(p),
                    None => error_message("Profile not found"),
                },
                StoreReply::Profiles(v) => DaemonMessage::ProfileList(v),
                StoreReply::Schedule(s) => DaemonMessage::Schedule(s),
                StoreReply::MaybeSchedule(found) => match found {
                    Some(s) => DaemonMessage::Schedule(s),
                    None => error_message("Schedule not found"),
                },
                StoreReply::Schedules(v) => DaemonMessage::ScheduleList(v),
                StoreReply::Website(w) => DaemonMessage::BlockedWebsite(w),
                StoreReply::Websites(v) => DaemonMessage::BlockedWebsiteList(v),
                StoreReply::App(a) => DaemonMessage::BlockedApp(a),
                StoreReply::MaybeApp(found) => match found {
                    Some(a) => DaemonMessage::BlockedApp(a),
                    None => error_message("Blocked app not found"),
                },
                StoreReply::Apps(v) => DaemonMessage::BlockedAppList(v),
                StoreReply::Rule(r) => DaemonMessage::DomRule(r),
                StoreReply::MaybeRule(found) => match found {
                    Some(r) => DaemonMessage::DomRule(r),
                    None => error_message("DOM rule not found"),
                },
                StoreReply::Rules(v) => DaemonMessage::DomRuleList(v),
                StoreReply::ManualSession(s) => DaemonMessage::ManualSession(Some(s)),
                StoreReply::MaybeManualSession(found) => DaemonMessage::ManualSession(found),
                StoreReply::ManualSessions(v) => DaemonMessage::ManualSessionList(v),
                StoreReply::Policy(p) => DaemonMessage::ActivePolicy(p),
            };
            Ok(m)
        },
    }
}

/// The message that answers `Start` or `Stop`, from the actor's outcome.
pub fn session_answer(request: &ClientMessage, outcome: Result<(), DaemonError>) -> (r: Result<
    DaemonMessage,
    DaemonError,
>)
    requires
        request is Start || request is Stop,
    ensures
        match outcome {
            Ok(()) => match *request {
                ClientMessage::Start { duration } => r == Ok::<DaemonMessage, DaemonError>(
                    DaemonMessage::Started { duration },
                ),
                _ => r == Ok::<DaemonMessage, DaemonError>(DaemonMessage::Stopped),
            },
            Err(e) => r == Err::<DaemonMessage, DaemonError>(e),
        },
{
    match outcome {
        Err(e) => Err(e),
        Ok(()) => match request {
            ClientMessage::Start { duration } => Ok(DaemonMessage::Started { duration: *duration }),
            _ => Ok(DaemonMessage::Stopped),
        },
    }
}

/// The message that answers `GetStatus`, from the session the actor
/// reported, the time `now_ms` and the store's list of the sites blocked
/// everywhere.
pub fn status_answer(session: Session, now_ms: u64, sites: Result<Vec<String>, DbError>) -> (r: Result<
    DaemonMessage,
    DaemonError,
>)
    ensures
        match sites {
            Err(e) => r == Err::<DaemonMessage, DaemonError>(DaemonError::Database(e)),
            Ok(v) => match session {
                Session::Idle(_) => r == Ok::<DaemonMessage, DaemonError>(
                    DaemonMessage::StatusIdle { sites: v },
                ),
                Session::Active(a) => r == Ok::<DaemonMessage, DaemonError>(
                    DaemonMessage::StatusWithTime {
                        time_left: (a.remaining_at(now_ms) / 1000) as u64,
                        sites: v,
                    },
                ),
            },
        },
{
    match sites {
        Err(e) => Err(DaemonError::Database(e)),
        Ok(v) => match session {
            Session::Idle(_) => Ok(DaemonMessage::StatusIdle { sites: v }),
            Session::Active(a) => Ok(
                DaemonMessage::StatusWithTime { time_left: a.remaining_secs(now_ms), sites: v },
            ),
        },
    }
}

/// The message sent back for a request: its answer, or its failure as an
/// error message, so that one bad request does not end the connection.
pub fn dispatch(outcome: Result<DaemonMessage, DaemonError>) -> (m: DaemonMessage)
    ensures
        outcome matches Ok(a) ==> m == a,
        outcome matches Err(e) ==> (m matches DaemonMessage::Error(t) && (
        crate::daemon::daemon_error_exact(e) ==> t@ == crate::daemon::daemon_error_text(e)) && (
        !crate::daemon::daemon_error_exact(e) ==> crate::text::starts_with(
            t@,
            crate::daemon::daemon_error_text(e),
        ))),
{
    match outcome {
        Ok(a) => a,
        Err(e) => DaemonMessage::Error(e.message()),
    }
}

/// The message pushed to a subscribed connection when the policy changes.
pub fn policy_push(policy: crate::model::ActivePolicy) -> (m: DaemonMessage)
    ensures
        m == DaemonMessage::PolicyChanged(policy),
{
    DaemonMessage::PolicyChanged(policy)
}

} // verus!
