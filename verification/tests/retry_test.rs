use orchepy::engine::retry::RetryExecutor;
use orchepy::models::step::{default_initial_delay, BackoffStrategy, RetryConfig};
use std::cell::Cell;
use std::time::Duration;

/// Invokes the operation as the executor decides: again after each failure
/// for which it names a delay. Gives the result, the number of invocations
/// and the delays that were named.
fn drive_retries<T, E>(
    executor: &RetryExecutor,
    operation: impl Fn() -> Result<T, E>,
) -> (Result<T, E>, u32, Vec<u64>) {
    let mut attempt: u32 = 1;
    let mut delays = Vec::new();
    loop {
        match operation() {
            Ok(value) => return (Ok(value), attempt, delays),
            Err(error) => match executor.after_failure(attempt) {
                None => return (Err(error), attempt, delays),
                Some(delay) => {
                    delays.push(delay);
                    attempt += 1;
                }
            },
        }
    }
}

#[test]
fn test_retry_success_on_second_attempt() {
    let config = RetryConfig {
        max_attempts: 3,
        backoff: BackoffStrategy::Fixed,
        initial_delay_ms: 10,
    };

    let executor = RetryExecutor::new(config);
    let counter = Cell::new(0u32);

    let (result, invocations, delays) = drive_retries(&executor, || {
        let count = counter.get() + 1;
        counter.set(count);
        if count < 2 {
            Err("Temporary error")
        } else {
            Ok(42)
        }
    });

    assert_eq!(result, Ok(42));
    assert_eq!(counter.get(), 2);
    assert_eq!(invocations, 2);
    assert_eq!(delays, vec![10]);
}

#[test]
fn test_retry_exhausted() {
    let config = RetryConfig {
        max_attempts: 2,
        backoff: BackoffStrategy::Fixed,
        initial_delay_ms: 10,
    };

    let executor = RetryExecutor::new(config);

    let (result, invocations, delays): (Result<(), &str>, u32, Vec<u64>) =
        drive_retries(&executor, || Err("Permanent error"));

    assert!(result.is_err());
    assert_eq!(invocations, 2);
    assert_eq!(delays, vec![10]);
}

#[test]
fn test_exponential_backoff() {
    let config = RetryConfig {
        max_attempts: 5,
        backoff: BackoffStrategy::Exponential,
        initial_delay_ms: 1000,
    };

    let executor = RetryExecutor::new(config);

    assert_eq!(Duration::from_millis(executor.calculate_delay(1)), Duration::from_millis(1000));
    assert_eq!(Duration::from_millis(executor.calculate_delay(2)), Duration::from_millis(2000));
    assert_eq!(Duration::from_millis(executor.calculate_delay(3)), Duration::from_millis(4000));
    assert_eq!(Duration::from_millis(executor.calculate_delay(4)), Duration::from_millis(8000));
}

#[test]
fn exponential_backoff_is_capped_at_sixty_seconds() {
    let executor = RetryExecutor::new(RetryConfig {
        max_attempts: 100,
        backoff: BackoffStrategy::Exponential,
        initial_delay_ms: 1000,
    });
    assert_eq!(executor.calculate_delay(6), 32_000);
    assert_eq!(executor.calculate_delay(7), 60_000);
    assert_eq!(executor.calculate_delay(8), 60_000);
    assert_eq!(executor.calculate_delay(90), 60_000);
    assert_eq!(executor.calculate_delay(u32::MAX), 60_000);
}

#[test]
fn fixed_backoff_is_constant_and_capped() {
    let executor = RetryExecutor::new(RetryConfig {
        max_attempts: 4,
        backoff: BackoffStrategy::Fixed,
        initial_delay_ms: 250,
    });
    assert_eq!(executor.calculate_delay(1), 250);
    assert_eq!(executor.calculate_delay(3), 250);

    let slow = RetryExecutor::new(RetryConfig {
        max_attempts: 4,
        backoff: BackoffStrategy::Fixed,
        initial_delay_ms: 120_000,
    });
    assert_eq!(slow.calculate_delay(1), 60_000);
}

#[test]
fn zero_initial_delay_stays_zero() {
    let executor = RetryExecutor::new(RetryConfig {
        max_attempts: 4,
        backoff: BackoffStrategy::Exponential,
        initial_delay_ms: 0,
    });
    assert_eq!(executor.calculate_delay(1), 0);
    assert_eq!(executor.calculate_delay(40), 0);
}

#[test]
fn always_failing_operation_is_invoked_max_attempts_times() {
    for max_attempts in 1..=6u32 {
        let executor = RetryExecutor::new(RetryConfig {
            max_attempts,
            backoff: BackoffStrategy::Exponential,
            initial_delay_ms: 5,
        });
        let (result, invocations, delays): (Result<(), u8>, u32, Vec<u64>) =
            drive_retries(&executor, || Err(1));
        assert_eq!(result, Err(1));
        assert_eq!(invocations, max_attempts);
        assert_eq!(delays.len() as u32, max_attempts - 1);
    }
}

#[test]
fn success_at_attempt_k_is_invoked_k_times() {
    for k in 1..=4u32 {
        let executor = RetryExecutor::new(RetryConfig {
            max_attempts: 4,
            backoff: BackoffStrategy::Fixed,
            initial_delay_ms: 1,
        });
        let counter = Cell::new(0u32);
        let (result, invocations, _) = drive_retries(&executor, || {
            counter.set(counter.get() + 1);
            if counter.get() < k {
                Err(())
            } else {
                Ok(counter.get())
            }
        });
        assert_eq!(result, Ok(k));
        assert_eq!(invocations, k);
    }
}

#[test]
fn after_failure_gives_up_at_the_last_attempt() {
    let executor = RetryExecutor::new(RetryConfig {
        max_attempts: 3,
        backoff: BackoffStrategy::Exponential,
        initial_delay_ms: 1000,
    });
    assert_eq!(executor.after_failure(1), Some(1000));
    assert_eq!(executor.after_failure(2), Some(2000));
    assert_eq!(executor.after_failure(3), None);
    assert_eq!(executor.after_failure(4), None);
}

#[test]
fn retry_config_defaults() {
    let config = RetryConfig::default();
    assert_eq!(config.max_attempts, 3);
    assert_eq!(config.backoff, BackoffStrategy::Exponential);
    assert_eq!(config.initial_delay_ms, 1000);
    assert_eq!(default_initial_delay(), 1000);
}
