use skailar::retry::{
    backoff_delay_ms, mix_jitter, should_retry, Decision, Idempotency, JitterSource, Outcome,
    RetryState, BACKOFF_BASE_MS, BACKOFF_CAP_MS, JITTER_SEED, JITTER_STEP, MAX_RETRY_AFTER_SECS,
};

#[test]
fn backoff_respects_retry_after_cap() {
    let mut jitter = JitterSource::new();
    let delay = jitter.backoff_delay_ms(0, Some(120));
    assert_eq!(delay, MAX_RETRY_AFTER_SECS * 1000);
}

#[test]
fn backoff_stays_within_exponential_window() {
    let mut jitter = JitterSource::new();
    for attempt in 0..6u32 {
        let cap = BACKOFF_CAP_MS.min(BACKOFF_BASE_MS * (1u64 << attempt));
        for _ in 0..50 {
            let delay = jitter.backoff_delay_ms(attempt, None);
            assert!(delay <= cap, "attempt {attempt}: {delay} > {cap}");
        }
    }
}

#[test]
fn side_effect_not_retried_on_5xx() {
    assert!(!should_retry(500, Idempotency::SideEffect, 0, 3));
}

#[test]
fn idempotent_retried_on_5xx() {
    assert!(should_retry(502, Idempotency::Idempotent, 0, 3));
}

#[test]
fn rate_limit_retried_for_side_effects() {
    assert!(should_retry(429, Idempotency::SideEffect, 0, 3));
}

#[test]
fn no_retry_when_attempts_exhausted() {
    assert!(!should_retry(429, Idempotency::Idempotent, 2, 3));
}

#[test]
fn backoff_formula_values() {
    assert_eq!(backoff_delay_ms(0, Some(0), 123), 0);
    assert_eq!(backoff_delay_ms(3, Some(59), 0), 59_000);
    assert_eq!(backoff_delay_ms(0, None, 1_000), 1_000 % 501);
    assert_eq!(backoff_delay_ms(1, None, 5_000), 5_000 % 1_001);
    assert_eq!(backoff_delay_ms(4, None, 7_999), 7_999);
    assert_eq!(backoff_delay_ms(5, None, 8_001), 0);
    assert_eq!(backoff_delay_ms(40, None, u64::MAX), u64::MAX % 8_001);
}

#[test]
fn jitter_is_splitmix64_of_the_counter() {
    // SplitMix64 of 0 after one step: the well-known first output.
    assert_eq!(mix_jitter(0), 0xE220_A839_7B1D_CDAF);
    let mut source = JitterSource::new();
    let first = source.next_jitter();
    assert_eq!(first, mix_jitter(JITTER_SEED));
    let second = source.next_jitter();
    assert_eq!(second, mix_jitter(JITTER_SEED.wrapping_add(JITTER_STEP)));
    assert_ne!(first, second);
    let mut source = JitterSource::new();
    assert_eq!(source.backoff_delay_ms(0, Some(1)), 1_000);
    assert_eq!(source.next_jitter(), first);
}

#[test]
fn retry_state_follows_the_budget() {
    let mut state = RetryState::new(2, Idempotency::Idempotent);
    let outcome = || Outcome::Response { status: 503, retry_after: None };
    assert_eq!(state.decide(outcome()), Decision::Retry { attempt: 0, retry_after: None });
    assert_eq!(state.attempt(), 1);
    assert_eq!(
        state.decide(Outcome::TransportFailed),
        Decision::Retry { attempt: 1, retry_after: None }
    );
    assert_eq!(state.decide(outcome()), Decision::Fail);
    assert_eq!(state.attempt(), 2);
}

#[test]
fn retry_state_for_side_effects() {
    let mut state = RetryState::new(2, Idempotency::SideEffect);
    assert_eq!(state.decide(Outcome::TransportFailed), Decision::Fail);
    let mut state = RetryState::new(2, Idempotency::SideEffect);
    assert_eq!(
        state.decide(Outcome::Response { status: 500, retry_after: None }),
        Decision::Fail
    );
    let mut state = RetryState::new(2, Idempotency::SideEffect);
    assert_eq!(
        state.decide(Outcome::Response { status: 429, retry_after: Some(0) }),
        Decision::Retry { attempt: 0, retry_after: Some(0) }
    );
    assert_eq!(
        state.decide(Outcome::Response { status: 200, retry_after: None }),
        Decision::Deliver
    );
}

#[test]
fn retry_state_never_retries_4xx_or_zero_budget() {
    let mut state = RetryState::new(2, Idempotency::Idempotent);
    assert_eq!(state.decide(Outcome::Response { status: 403, retry_after: None }), Decision::Fail);
    let mut state = RetryState::new(0, Idempotency::Idempotent);
    assert_eq!(state.decide(Outcome::Response { status: 503, retry_after: None }), Decision::Fail);
    let mut state = RetryState::new(0, Idempotency::Idempotent);
    assert_eq!(state.decide(Outcome::Response { status: 429, retry_after: None }), Decision::Fail);
}

#[test]
fn persistent_failures_use_the_whole_budget_and_no_more() {
    for max_retries in 0..5u32 {
        let mut state = RetryState::new(max_retries, Idempotency::Idempotent);
        let mut attempts = 0;
        loop {
            attempts += 1;
            match state.decide(Outcome::Response { status: 503, retry_after: None }) {
                Decision::Retry { .. } => continue,
                _ => break,
            }
        }
        assert_eq!(attempts, max_retries + 1);
    }
}

#[test]
fn largest_retry_budget_is_accepted() {
    let mut state = RetryState::new(u32::MAX, Idempotency::Idempotent);
    for k in 0..5u32 {
        assert_eq!(
            state.decide(Outcome::Response { status: 503, retry_after: None }),
            Decision::Retry { attempt: k, retry_after: None }
        );
    }
    assert_eq!(state.attempt(), 5);
    assert_eq!(
        state.decide(Outcome::Response { status: 200, retry_after: None }),
        Decision::Deliver
    );
}
