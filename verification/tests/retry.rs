use home_env_log::retry::RetryAction;
use home_env_log::retry::RetryPolicy;

/// Drives one retry-wrapped operation to completion, the way the harness
/// does: invoke, and after each failure ask the policy whether to go again.
/// Returns the surfaced result and the number of invocations made.
fn run_retries<T, E>(
    policy: &RetryPolicy,
    mut op: impl FnMut() -> Result<T, E>,
) -> (Result<T, E>, u64) {
    let mut attempts: u64 = 0;
    loop {
        attempts += 1;
        match op() {
            Ok(v) => return (Ok(v), attempts),
            Err(e) => match policy.after_failure(attempts) {
                RetryAction::Retry { delay_ms } => {
                    assert_eq!(delay_ms, policy.delay_ms);
                }
                RetryAction::GiveUp => return (Err(e), attempts),
            },
        }
    }
}

#[test]
fn test_standard_policy_configuration() {
    let policy = RetryPolicy::standard();
    assert_eq!(policy.delay_ms, 100);
    assert_eq!(policy.max_times, 20);
}

#[test]
fn test_retry_returns_success_after_n_failures() {
    let policy = RetryPolicy::standard();
    let n = 3;
    let mut calls = 0;
    let (result, attempts) = run_retries(&policy, || {
        calls += 1;
        if calls <= n {
            Err(format!("transient failure {calls}"))
        } else {
            Ok(42u32)
        }
    });
    assert_eq!(result, Ok(42));
    assert_eq!(attempts, n + 1);
    assert_eq!(calls, n + 1);
}

#[test]
fn test_retry_surfaces_last_error_after_budget() {
    let policy = RetryPolicy::standard();
    let mut calls = 0;
    let (result, attempts) = run_retries(&policy, || -> Result<u32, String> {
        calls += 1;
        Err(format!("failure {calls}"))
    });
    assert_eq!(result, Err(String::from("failure 20")));
    assert_eq!(attempts, 20);
    assert_eq!(calls, 20);
}

#[test]
fn test_after_failure_boundary() {
    let policy = RetryPolicy::standard();
    assert_eq!(policy.after_failure(1), RetryAction::Retry { delay_ms: 100 });
    assert_eq!(policy.after_failure(19), RetryAction::Retry { delay_ms: 100 });
    assert_eq!(policy.after_failure(20), RetryAction::GiveUp);
    assert_eq!(policy.after_failure(21), RetryAction::GiveUp);
}
