use mcprouter::error::McpError;
use mcprouter::startup::{
    next_wait_phase, service_manager_timeout_error, service_manager_wait_step, token_manager_timeout_error,
    token_manager_wait_step, InitializationState, WaitPhase, WaitStep,
};

/// Runs the waiting loop against a start-up that reports `state_at(look)`
/// and has a manager from look `ready_from` on; gives the final step and
/// the number of looks taken.
fn run_wait(state_at: impl Fn(u32) -> InitializationState, ready_from: Option<u32>) -> (WaitStep, u32) {
    let mut phase = WaitPhase::Immediate;
    let mut look: u32 = 0;
    loop {
        let exists = matches!(ready_from, Some(r) if look >= r);
        let step = service_manager_wait_step(phase, state_at(look), exists);
        look += 1;
        match step {
            WaitStep::Retry => phase = next_wait_phase(phase),
            other => return (other, look),
        }
        assert!(look < 100);
    }
}

#[test]
fn existing_manager_is_used_at_once() {
    assert_eq!(run_wait(|_| InitializationState::NotStarted, Some(0)), (WaitStep::UseManager, 1));
}

#[test]
fn manager_used_once_managers_are_created() {
    let (step, looks) = run_wait(
        |look| if look < 5 { InitializationState::DatabaseMigrating } else { InitializationState::ManagersCreated },
        Some(3),
    );
    assert_eq!(step, WaitStep::UseManager);
    assert_eq!(looks, 6);
}

#[test]
fn eager_use_after_ten_polls() {
    // Look 0 is the first look; poll k is look k + 1.
    let (step, looks) = run_wait(|_| InitializationState::ServicesLoading, Some(2));
    assert_eq!(step, WaitStep::UseManager);
    assert_eq!(looks, 12);
}

#[test]
fn connecting_database_waits_until_the_last_look() {
    let (step, looks) = run_wait(|_| InitializationState::DatabaseConnecting, Some(1));
    assert_eq!(step, WaitStep::UseManager);
    assert_eq!(looks, 32);
}

#[test]
fn missing_manager_gives_up() {
    let (step, looks) = run_wait(|_| InitializationState::Completed, None);
    assert_eq!(step, WaitStep::GiveUp);
    assert_eq!(looks, 32);
    match service_manager_timeout_error() {
        McpError::Internal(m) => assert_eq!(m, "服务管理器初始化失败：3秒内未可用"),
        _ => panic!("expected an internal error"),
    }
}

#[test]
fn token_manager_waiting() {
    assert_eq!(token_manager_wait_step(0, true), WaitStep::UseManager);
    assert_eq!(token_manager_wait_step(49, false), WaitStep::Retry);
    assert_eq!(token_manager_wait_step(50, true), WaitStep::GiveUp);
    match token_manager_timeout_error() {
        McpError::InternalError(m) => assert_eq!(m, "TokenManager initialization timeout"),
        _ => panic!("expected an internal error"),
    }
}
