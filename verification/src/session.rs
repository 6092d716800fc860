//! Focus sessions: idle, or running for a set time from a start instant.
//! Times are milliseconds on the daemon's monotonic clock.

use vstd::prelude::*;

verus! {

/// A session that is not running.
#[derive(Debug, Clone, Copy, PartialEq, Eq, Structural)]
pub struct IdleSession {}

/// A session that runs for `duration_secs` seconds from `started_at_ms`.
#[derive(Debug, Clone, Copy, PartialEq, Eq, Structural)]
pub struct ActiveSession {
    pub started_at_ms: u64,
    pub duration_secs: u64,
}

/// The state of the focus session.
#[derive(Debug, Clone, Copy, PartialEq, Eq, Structural)]
pub enum Session {
    Idle(IdleSession),
    Active(ActiveSession),
}

impl IdleSession {
    pub fn new() -> (s: Self) {
        IdleSession {}
    }

    /// Starts a session of `duration_secs` seconds at `now_ms`.
    pub fn start(self, duration_secs: u64, now_ms: u64) -> (a: ActiveSession)
        ensures
            a.started_at_ms == now_ms,
            a.duration_secs == duration_secs,
    {
        ActiveSession { started_at_ms: now_ms, duration_secs }
    }
}

impl ActiveSession {
    /// The milliseconds left at `now_ms`: the duration less the time elapsed
    /// since the start, and never below zero.
    pub open spec fn remaining_at(self, now_ms: u64) -> nat {
        let elapsed: int = if now_ms >= self.started_at_ms {
            now_ms - self.started_at_ms
        } else {
            0
        };
        let total: int = self.duration_secs * 1000;
        if total > elapsed {
            (total - elapsed) as nat
        } else {
            0
        }
    }

    /// The milliseconds left at `now_ms`.
    pub fn remaining_ms(&self, now_ms: u64) -> (r: u128)
        ensures
            r == self.remaining_at(now_ms),
    {
        let elapsed: u128 = if now_ms >= self.started_at_ms {
            (now_ms - self.started_at_ms) as u128
        } else {
            0
        };
        let total: u128 = (self.duration_secs as u128) * 1000;
        if total > elapsed {
            total - elapsed
        } else {
            0
        }
    }

    /// The whole seconds left at `now_ms`.
    pub fn remaining_secs(&self, now_ms: u64) -> (r: u64)
        ensures
            r == self.remaining_at(now_ms) / 1000,
    {
        let ms = self.remaining_ms(now_ms);
        let d = self.duration_secs;
        assert(ms / 1000 <= d) by (nonlinear_arith)
            requires
                ms <= d * 1000,
        ;
        (ms / 1000) as u64
    }

    /// Ends the session.
    pub fn stop(self) -> (s: IdleSession) {
        IdleSession {}
    }

    /// A session of `duration_secs` seconds that starts at `now_ms`.
    pub fn new_for_test(duration_secs: u64, now_ms: u64) -> (a: Self)
        ensures
            a.started_at_ms == now_ms,
            a.duration_secs == duration_secs,
    {
        ActiveSession { started_at_ms: now_ms, duration_secs }
    }
}

impl Session {
    /// The time left at `now_ms`; none when idle.
    pub open spec fn remaining_at(self, now_ms: u64) -> nat {
        match self {
            Session::Idle(_) => 0,
            Session::Active(a) => a.remaining_at(now_ms),
        }
    }

    /// Whether a session is running.
    pub fn is_active(&self) -> (b: bool)
        ensures
            b == (*self is Active),
    {
        match self {
            Session::Idle(_) => false,
            Session::Active(_) => true,
        }
    }

    /// The milliseconds left at `now_ms`.
    pub fn remaining_ms(&self, now_ms: u64) -> (r: u128)
        ensures
            r == self.remaining_at(now_ms),
    {
        match self {
            Session::Idle(_) => 0,
            Session::Active(a) => a.remaining_ms(now_ms),
        }
    }

    /// The whole seconds left at `now_ms`.
    pub fn remaining_secs(&self, now_ms: u64) -> (r: u64)
        ensures
            r == self.remaining_at(now_ms) / 1000,
    {
        match self {
            Session::Idle(_) => 0,
            Session::Active(a) => a.remaining_secs(now_ms),
        }
    }
}

/// What a shutdown signal meets while `session` is the session: nothing
/// (`None`), so the program may end, when no session runs; otherwise the
/// notice that shutdown is blocked, and the program goes on waiting.
pub fn shutdown_refusal(session: &Session) -> (r: Option<String>)
    ensures
        r is None <==> *session is Idle,
        r matches Some(t) ==> t@ == "Session is active. Shutdown blocked. Wait for session to end."@,
{
    match session {
        Session::Idle(_) => None,
        Session::Active(_) => Some(
            String::from_str("Session is active. Shutdown blocked. Wait for session to end."),
        ),
    }
}

} // verus!
