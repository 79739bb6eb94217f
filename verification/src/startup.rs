//! Start-up: the stages the application goes through, and how a caller
//! that needs the service manager or the token manager waits for it.
use vstd::prelude::*;
use crate::error::McpError;

verus! {

/// How far start-up has come.
#[derive(Clone, Copy, Debug, PartialEq, Eq, Structural)]
pub enum InitializationState {
    /// Nothing has started.
    NotStarted,
    /// The database is being opened.
    DatabaseConnecting,
    /// The database schema is being migrated.
    DatabaseMigrating,
    /// The managers exist; basic functions work.
    ManagersCreated,
    /// Server configurations are being loaded.
    ServicesLoading,
    /// Servers are being connected.
    ServicesConnecting,
    /// Everything is up.
    Completed,
}

/// How many times a caller polls for the service manager before giving up
/// (every 100 ms, so three seconds).
pub const SERVICE_MANAGER_ATTEMPTS: u32 = 30;

/// From this poll on, a manager that exists is used unless the database
/// has not been opened yet.
pub const SERVICE_MANAGER_EAGER_ATTEMPT: u32 = 10;

/// How many times a caller polls for the token manager before giving up
/// (every 100 ms, so five seconds).
pub const TOKEN_MANAGER_ATTEMPTS: u32 = 50;

/// Where a caller waiting for the service manager is.
#[derive(Clone, Copy, Debug, PartialEq, Eq, Structural)]
pub enum WaitPhase {
    /// The first look, before any waiting.
    Immediate,
    /// The poll with this number (from 0).
    Attempt(u32),
    /// The last look, once every poll has passed.
    TimedOut,
}

/// What a waiting caller does next.
#[derive(Clone, Copy, Debug, PartialEq, Eq, Structural)]
pub enum WaitStep {
    /// Use the manager that exists.
    UseManager,
    /// Wait 100 ms and look again.
    Retry,
    /// Report that the manager did not become available.
    GiveUp,
}

/// A manager that exists is used during the polls once start-up has
/// created the managers or finished, or from the eager poll on when the
/// database is at least being migrated.
pub open spec fn usable_during_poll(attempt: u32, state: InitializationState) -> bool {
    ||| state == InitializationState::ManagersCreated
    ||| state == InitializationState::Completed
    ||| (attempt >= SERVICE_MANAGER_EAGER_ATTEMPT && state != InitializationState::DatabaseConnecting && state
        != InitializationState::NotStarted)
}

/// The decision of a caller waiting for the service manager, in `phase`,
/// with start-up in `state` and the manager existing or not.
pub open spec fn service_wait_decision(phase: WaitPhase, state: InitializationState, manager_exists: bool) -> WaitStep {
    match phase {
        WaitPhase::Immediate => if manager_exists {
            WaitStep::UseManager
        } else {
            WaitStep::Retry
        },
        WaitPhase::Attempt(k) => if manager_exists && usable_during_poll(k, state) {
            WaitStep::UseManager
        } else {
            WaitStep::Retry
        },
        WaitPhase::TimedOut => if manager_exists {
            WaitStep::UseManager
        } else {
            WaitStep::GiveUp
        },
    }
}

/// What a caller waiting for the service manager does in `phase`.
pub fn service_manager_wait_step(phase: WaitPhase, state: InitializationState, manager_exists: bool) -> (r: WaitStep)
    ensures
        r == service_wait_decision(phase, state, manager_exists),
{
    match phase {
        WaitPhase::Immediate => if manager_exists {
            WaitStep::UseManager
        } else {
            WaitStep::Retry
        },
        WaitPhase::Attempt(k) => {
            let usable = match state {
                InitializationState::ManagersCreated => true,
                InitializationState::Completed => true,
                InitializationState::DatabaseConnecting => false,
                InitializationState::NotStarted => false,
                _ => k >= SERVICE_MANAGER_EAGER_ATTEMPT,
            };
            if manager_exists && usable {
                WaitStep::UseManager
            } else {
                WaitStep::Retry
            }
        },
        WaitPhase::TimedOut => if manager_exists {
            WaitStep::UseManager
        } else {
            WaitStep::GiveUp
        },
    }
}

/// The phase after a retry: the first poll after the first look, the next
/// poll after a poll, the last look after the last poll.
pub open spec fn following_phase(phase: WaitPhase) -> WaitPhase {
    match phase {
        WaitPhase::Immediate => WaitPhase::Attempt(0),
        WaitPhase::Attempt(k) => if k + 1 < SERVICE_MANAGER_ATTEMPTS {
            WaitPhase::Attempt((k + 1) as u32)
        } else {
            WaitPhase::TimedOut
        },
        WaitPhase::TimedOut => WaitPhase::TimedOut,
    }
}

/// The phase a waiting caller moves to after a retry.
pub fn next_wait_phase(phase: WaitPhase) -> (r: WaitPhase)
    ensures
        r == following_phase(phase),
{
    match phase {
        WaitPhase::Immediate => WaitPhase::Attempt(0),
        WaitPhase::Attempt(k) => if k < SERVICE_MANAGER_ATTEMPTS - 1 {
            WaitPhase::Attempt(k + 1)
        } else {
            WaitPhase::TimedOut
        },
        WaitPhase::TimedOut => WaitPhase::TimedOut,
    }
}

/// How many looks remain at most from `phase`.
pub open spec fn looks_left(phase: WaitPhase) -> nat {
    match phase {
        WaitPhase::Immediate => (SERVICE_MANAGER_ATTEMPTS + 2) as nat,
        WaitPhase::Attempt(k) => if k < SERVICE_MANAGER_ATTEMPTS {
            (SERVICE_MANAGER_ATTEMPTS + 1 - k) as nat
        } else {
            2
        },
        WaitPhase::TimedOut => 1,
    }
}

/// The error of a caller that waited in vain for the service manager.
pub fn service_manager_timeout_error() -> (r: McpError)
    ensures
        r matches McpError::Internal(m) && m@ == "服务管理器初始化失败：3秒内未可用"@,
{
    McpError::Internal("服务管理器初始化失败：3秒内未可用".to_owned())
}

/// What a caller waiting for the token manager does after `attempts`
/// polls: use it once it exists, give up after the last poll.
pub fn token_manager_wait_step(attempts: u32, manager_exists: bool) -> (r: WaitStep)
    ensures
        manager_exists && attempts < TOKEN_MANAGER_ATTEMPTS ==> r == WaitStep::UseManager,
        !manager_exists && attempts < TOKEN_MANAGER_ATTEMPTS ==> r == WaitStep::Retry,
        attempts >= TOKEN_MANAGER_ATTEMPTS ==> r == WaitStep::GiveUp,
{
    if attempts >= TOKEN_MANAGER_ATTEMPTS {
        WaitStep::GiveUp
    } else if manager_exists {
        WaitStep::UseManager
    } else {
        WaitStep::Retry
    }
}

/// The error of a caller that waited in vain for the token manager.
pub fn token_manager_timeout_error() -> (r: McpError)
    ensures
        r matches McpError::InternalError(m) && m@ == "TokenManager initialization timeout"@,
{
    McpError::InternalError("TokenManager initialization timeout".to_owned())
}

/// Waiting for the service manager ends: every retry moves to a phase with
/// fewer looks left, and the last look never retries.
pub proof fn law_service_wait_ends(phase: WaitPhase, state: InitializationState, manager_exists: bool)
    ensures
        service_wait_decision(phase, state, manager_exists) == WaitStep::Retry ==> looks_left(following_phase(phase))
            < looks_left(phase),
        service_wait_decision(WaitPhase::TimedOut, state, manager_exists) != WaitStep::Retry,
{
}

/// A manager that exists is used at once, and is always used once
/// start-up has created the managers or completed.
pub proof fn law_ready_manager_is_used(phase: WaitPhase, state: InitializationState)
    ensures
        service_wait_decision(WaitPhase::Immediate, state, true) == WaitStep::UseManager,
        (state == InitializationState::ManagersCreated || state == InitializationState::Completed)
            ==> service_wait_decision(phase, state, true) == WaitStep::UseManager,
{
}

/// Without a manager the caller never uses one: it retries until the last
/// look and then gives up.
pub proof fn law_missing_manager_is_never_used(phase: WaitPhase, state: InitializationState)
    ensures
        service_wait_decision(phase, state, false) != WaitStep::UseManager,
        service_wait_decision(WaitPhase::TimedOut, state, false) == WaitStep::GiveUp,
{
}

} // verus!
