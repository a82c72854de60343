//! When a request is retried, and how long the client waits before it does.
use vstd::arithmetic::power2::pow2;
use vstd::bits::{lemma_u64_pow2_no_overflow, lemma_u64_shl_is_mul};
use vstd::prelude::*;
use vstd::wrapping::u64_specs::{wrapping_add, wrapping_mul};

verus! {

/// Base of the exponential backoff, in milliseconds.
pub const BACKOFF_BASE_MS: u64 = 500;

/// Upper bound of the exponential backoff window, in milliseconds.
pub const BACKOFF_CAP_MS: u64 = 8_000;

/// Cap on a server-supplied `Retry-After`, in seconds.
pub const MAX_RETRY_AFTER_SECS: u64 = 60;

/// Step of the jitter counter (the SplitMix64 increment).
pub const JITTER_STEP: u64 = 0x9E37_79B9_7F4A_7C15;

/// Initial value of a client's jitter counter.
pub const JITTER_SEED: u64 = 0x2545_F491_4F6C_DD1D;

/// Whether a request may be safely replayed after a `5xx` or transport failure.
#[derive(Debug, Clone, Copy, PartialEq, Eq, Structural)]
pub enum Idempotency {
    /// Safe to retry on `5xx` and connection errors (e.g. `GET`).
    Idempotent,
    /// Has billable side effects; only retried on `429` (rejected pre-execution).
    SideEffect,
}

/// `429 Too Many Requests`.
pub open spec fn is_too_many_requests(status: u16) -> bool {
    status == 429
}

/// A `5xx` status.
pub open spec fn is_server_error(status: u16) -> bool {
    500 <= status <= 599
}

/// A `2xx` status.
pub open spec fn is_success(status: u16) -> bool {
    200 <= status <= 299
}

/// Whether a failed attempt with this status is retried: never once the
/// attempt budget is spent; always on `429`; on `5xx` only for idempotent
/// requests.
pub open spec fn spec_should_retry(
    status: u16,
    idempotency: Idempotency,
    attempt: u32,
    max_attempts: nat,
) -> bool {
    if attempt + 1 >= max_attempts {
        false
    } else if is_too_many_requests(status) {
        true
    } else {
        is_server_error(status) && idempotency == Idempotency::Idempotent
    }
}

/// Decides whether a non-2xx response is retried.
pub fn should_retry(status: u16, idempotency: Idempotency, attempt: u32, max_attempts: u32) -> (r:
    bool)
    requires
        attempt < u32::MAX,
    ensures
        r == spec_should_retry(status, idempotency, attempt, max_attempts as nat),
{
    if attempt + 1 >= max_attempts {
        return false;
    }
    if status == 429 {
        return true;
    }
    (500 <= status && status <= 599) && idempotency == Idempotency::Idempotent
}

/// The exponential backoff window for an attempt, in milliseconds:
/// `min(8000, 500 * 2^min(attempt, 20))`.
pub open spec fn backoff_window_ms(attempt: u32) -> nat {
    let e = if attempt < 20 {
        attempt as nat
    } else {
        20
    };
    let exp = BACKOFF_BASE_MS * pow2(e);
    if exp < BACKOFF_CAP_MS {
        exp as nat
    } else {
        BACKOFF_CAP_MS as nat
    }
}

/// The wait before the next attempt, in milliseconds: a server-supplied
/// `Retry-After` capped at 60 seconds, or else the jitter drawn uniformly
/// into `[0, window]`.
pub open spec fn spec_backoff_delay_ms(attempt: u32, retry_after: Option<u64>, jitter: u64) -> nat {
    match retry_after {
        Some(secs) => (if secs < MAX_RETRY_AFTER_SECS {
            secs as nat
        } else {
            MAX_RETRY_AFTER_SECS as nat
        }) * 1000,
        None => (jitter as nat) % (backoff_window_ms(attempt) + 1),
    }
}

/// Computes the backoff before the next attempt, in milliseconds, given the
/// jitter drawn for it.
pub fn backoff_delay_ms(attempt: u32, retry_after: Option<u64>, jitter: u64) -> (r: u64)
    ensures
        r == spec_backoff_delay_ms(attempt, retry_after, jitter),
{
    if let Some(secs) = retry_after {
        let capped = if secs < MAX_RETRY_AFTER_SECS {
            secs
        } else {
            MAX_RETRY_AFTER_SECS
        };
        return capped * 1000;
    }
    let e: u64 = if attempt < 20 {
        attempt as u64
    } else {
        20
    };
    proof {
        lemma_u64_pow2_no_overflow(e as nat);
        lemma_u64_shl_is_mul(1, e);
        vstd::arithmetic::power2::lemma2_to64();
        if e < 20 {
            vstd::arithmetic::power2::lemma_pow2_strictly_increases(e as nat, 20);
        }
    }
    let factor: u64 = 1u64 << e;
    assert(BACKOFF_BASE_MS * factor <= 500 * 0x100000) by (nonlinear_arith)
        requires
            factor <= 0x100000,
    ;
    let exp = BACKOFF_BASE_MS * factor;
    let exponential = if exp < BACKOFF_CAP_MS {
        exp
    } else {
        BACKOFF_CAP_MS
    };
    // The window is never empty: the base is positive, so `exponential > 0`.
    assert(exponential > 0) by (nonlinear_arith)
        requires
            factor >= 1,
            exp == BACKOFF_BASE_MS * factor,
            exponential == if exp < BACKOFF_CAP_MS {
                exp
            } else {
                BACKOFF_CAP_MS
            },
    ;
    jitter % (exponential + 1)
}

/// The SplitMix64 output for a counter value: the value the counter holds
/// after its step, mixed.
pub open spec fn spec_mix_jitter(counter_before: u64) -> u64 {
    let z0 = wrapping_add(counter_before, JITTER_STEP);
    let z1 = wrapping_mul(z0 ^ (z0 >> 30u64), 0xBF58_476D_1CE4_E5B9);
    let z2 = wrapping_mul(z1 ^ (z1 >> 27u64), 0x94D0_49BB_1331_11EB);
    z2 ^ (z2 >> 31u64)
}

/// Mixes the counter value read before a step into a jitter value
/// (SplitMix64), so that concurrent retriers draw decorrelated delays without
/// an external random number generator.
pub fn mix_jitter(counter_before: u64) -> (r: u64)
    ensures
        r == spec_mix_jitter(counter_before),
{
    let mut z = counter_before.wrapping_add(JITTER_STEP);
    z = (z ^ (z >> 30)).wrapping_mul(0xBF58_476D_1CE4_E5B9);
    z = (z ^ (z >> 27)).wrapping_mul(0x94D0_49BB_1331_11EB);
    z ^ (z >> 31)
}

/// A per-client jitter source: a counter stepped by [`JITTER_STEP`] on every
/// draw.
pub struct JitterSource {
    counter: u64,
}

impl View for JitterSource {
    type V = u64;

    closed spec fn view(&self) -> u64 {
        self.counter
    }
}

impl JitterSource {
    /// A source whose counter starts at [`JITTER_SEED`].
    pub fn new() -> (r: JitterSource)
        ensures
            r@ == JITTER_SEED,
    {
        JitterSource { counter: JITTER_SEED }
    }

    /// Draws the next jitter value and steps the counter.
    pub fn next_jitter(&mut self) -> (r: u64)
        ensures
            r == spec_mix_jitter(old(self)@),
            final(self)@ == wrapping_add(old(self)@, JITTER_STEP),
    {
        let before = self.counter;
        self.counter = before.wrapping_add(JITTER_STEP);
        mix_jitter(before)
    }

    /// The wait before retrying after attempt `attempt`, in milliseconds. A
    /// jitter value is drawn only when there is no `Retry-After`.
    pub fn backoff_delay_ms(&mut self, attempt: u32, retry_after: Option<u64>) -> (r: u64)
        ensures
            retry_after is Some ==> final(self)@ == old(self)@ && r == spec_backoff_delay_ms(
                attempt,
                retry_after,
                0,
            ),
            retry_after is None ==> final(self)@ == wrapping_add(old(self)@, JITTER_STEP) && r
                == spec_backoff_delay_ms(attempt, retry_after, spec_mix_jitter(old(self)@)),
    {
        match retry_after {
            Some(_) => backoff_delay_ms(attempt, retry_after, 0),
            None => {
                let jitter = self.next_jitter();
                backoff_delay_ms(attempt, retry_after, jitter)
            },
        }
    }
}

/// Law: a server-supplied `Retry-After` never makes the client wait more than
/// 60 seconds, and without one the wait stays inside the exponential window,
/// which never exceeds 8 seconds.
pub proof fn law_backoff_is_bounded(attempt: u32, retry_after: Option<u64>, jitter: u64)
    ensures
        spec_backoff_delay_ms(attempt, retry_after, jitter) <= MAX_RETRY_AFTER_SECS * 1000,
        retry_after is None ==> spec_backoff_delay_ms(attempt, retry_after, jitter)
            <= backoff_window_ms(attempt),
        backoff_window_ms(attempt) <= BACKOFF_CAP_MS,
{
    if retry_after is None {
        vstd::arithmetic::div_mod::lemma_mod_bound(
            jitter as int,
            (backoff_window_ms(attempt) + 1) as int,
        );
    }
}

/// What became of one attempt of a request.
pub enum Outcome {
    /// The transport failed (connection, TLS, timeout) before a response came.
    TransportFailed,
    /// A response came with this status and `Retry-After` value.
    Response { status: u16, retry_after: Option<u64> },
}

/// What the client does after an attempt.
#[derive(Debug, PartialEq, Eq, Structural)]
pub enum Decision {
    /// Hand the (2xx) response to the caller.
    Deliver,
    /// Wait and try again. `attempt` is the attempt that failed, `retry_after`
    /// the server's `Retry-After` (absent for transport failures).
    Retry { attempt: u32, retry_after: Option<u64> },
    /// Report the failure to the caller.
    Fail,
}

/// The decision for an outcome, given the attempt it came from.
pub open spec fn spec_decide(
    outcome: Outcome,
    idempotency: Idempotency,
    attempt: u32,
    max_attempts: nat,
) -> Decision {
    match outcome {
        Outcome::TransportFailed => if idempotency == Idempotency::Idempotent && attempt + 1
            < max_attempts {
            Decision::Retry { attempt, retry_after: None }
        } else {
            Decision::Fail
        },
        Outcome::Response { status, retry_after } => if is_success(status) {
            Decision::Deliver
        } else if spec_should_retry(status, idempotency, attempt, max_attempts) {
            Decision::Retry { attempt, retry_after }
        } else {
            Decision::Fail
        },
    }
}

/// The attempt counter of one request: the decisions of the retry loop.
pub struct RetryState {
    attempt: u32,
    max_retries: u32,
    idempotency: Idempotency,
}

/// The state of a [`RetryState`].
pub struct RetryModel {
    /// The attempt in flight, counting from 0.
    pub attempt: u32,
    /// `1 + max_retries`: at most this many attempts are made.
    pub max_attempts: nat,
    /// Whether the request may be replayed.
    pub idempotency: Idempotency,
}

impl View for RetryState {
    type V = RetryModel;

    closed spec fn view(&self) -> RetryModel {
        RetryModel {
            attempt: self.attempt,
            max_attempts: (self.max_retries + 1) as nat,
            idempotency: self.idempotency,
        }
    }
}

impl RetryState {
    /// The state before the first attempt of a request with `max_retries`
    /// retries allowed (any `u32`).
    pub fn new(max_retries: u32, idempotency: Idempotency) -> (r: RetryState)
        ensures
            r@.attempt == 0,
            r@.max_attempts == max_retries + 1,
            r@.idempotency == idempotency,
    {
        RetryState { attempt: 0, max_retries, idempotency }
    }

    /// The attempt in flight.
    pub fn attempt(&self) -> (r: u32)
        ensures
            r == self@.attempt,
    {
        self.attempt
    }

    /// Records the outcome of the attempt in flight and decides what follows;
    /// on a retry the next attempt begins.
    pub fn decide(&mut self, outcome: Outcome) -> (r: Decision)
        requires
            old(self)@.attempt < old(self)@.max_attempts,
        ensures
            r == spec_decide(
                outcome,
                old(self)@.idempotency,
                old(self)@.attempt,
                old(self)@.max_attempts,
            ),
            r is Retry ==> final(self)@.attempt == old(self)@.attempt + 1,
            !(r is Retry) ==> final(self)@.attempt == old(self)@.attempt,
            final(self)@.max_attempts == old(self)@.max_attempts,
            final(self)@.idempotency == old(self)@.idempotency,
            final(self)@.attempt < final(self)@.max_attempts,
    {
        let attempt = self.attempt;
        // `attempt + 1 < max_retries + 1`, without computing `max_retries + 1`.
        let budget_left = attempt < self.max_retries;
        let decision = match outcome {
            Outcome::TransportFailed => {
                if self.idempotency == Idempotency::Idempotent && budget_left {
                    Decision::Retry { attempt, retry_after: None }
                } else {
                    Decision::Fail
                }
            },
            Outcome::Response { status, retry_after } => {
                if 200 <= status && status <= 299 {
                    Decision::Deliver
                } else if budget_left && (status == 429 || (500 <= status && status <= 599
                    && self.idempotency == Idempotency::Idempotent)) {
                    Decision::Retry { attempt, retry_after }
                } else {
                    Decision::Fail
                }
            },
        };
        if let Decision::Retry { .. } = decision {
            self.attempt = attempt + 1;
        }
        decision
    }
}

/// Law: what a failed attempt leads to, over every status and both kinds of
/// request. A `2xx` response is delivered. Any other response is retried
/// exactly when a retry is left and the status is `429` (whatever the
/// request) or in `500..=599` (for an idempotent request); the retry keeps
/// the attempt it came from and the response's `Retry-After`. A transport
/// failure is retried, without a `Retry-After`, exactly when a retry is left
/// and the request is idempotent. Everything else fails.
pub proof fn law_retry_decisions(
    status: u16,
    retry_after: Option<u64>,
    idempotency: Idempotency,
    attempt: u32,
    max_attempts: nat,
)
    ensures
        200 <= status <= 299 ==> spec_decide(
            Outcome::Response { status, retry_after },
            idempotency,
            attempt,
            max_attempts,
        ) == Decision::Deliver,
        !(200 <= status <= 299) ==> (spec_decide(
            Outcome::Response { status, retry_after },
            idempotency,
            attempt,
            max_attempts,
        ) == if attempt + 1 < max_attempts && (status == 429 || (500 <= status <= 599
            && idempotency == Idempotency::Idempotent)) {
            Decision::Retry { attempt, retry_after }
        } else {
            Decision::Fail
        }),
        spec_should_retry(status, idempotency, attempt, max_attempts) <==> (attempt + 1
            < max_attempts && (status == 429 || (500 <= status <= 599 && idempotency
            == Idempotency::Idempotent))),
        spec_decide(Outcome::TransportFailed, idempotency, attempt, max_attempts) == if attempt
            + 1 < max_attempts && idempotency == Idempotency::Idempotent {
            Decision::Retry { attempt, retry_after: None }
        } else {
            Decision::Fail
        },
{
}

/// Law: while a retry is left, a `429` response is retried whatever the
/// request, and a `5xx` response is retried for an idempotent request; in
/// both cases with the server's `Retry-After` passed on.
pub proof fn law_rate_limits_and_server_errors_retried(
    status: u16,
    retry_after: Option<u64>,
    idempotency: Idempotency,
    attempt: u32,
    max_attempts: nat,
)
    requires
        attempt + 1 < max_attempts,
    ensures
        spec_decide(
            Outcome::Response { status: 429, retry_after },
            idempotency,
            attempt,
            max_attempts,
        ) == (Decision::Retry { attempt, retry_after }),
        500 <= status <= 599 ==> spec_should_retry(
            status,
            Idempotency::Idempotent,
            attempt,
            max_attempts,
        ),
        500 <= status <= 599 ==> spec_decide(
            Outcome::Response { status, retry_after },
            Idempotency::Idempotent,
            attempt,
            max_attempts,
        ) == (Decision::Retry { attempt, retry_after }),
{
    law_retry_decisions(429, retry_after, idempotency, attempt, max_attempts);
    law_retry_decisions(status, retry_after, Idempotency::Idempotent, attempt, max_attempts);
}

/// Law: side-effecting requests (chat completions, image generation, speech,
/// transcription, uploads) are never retried on `5xx` nor after a transport
/// failure, so a billable call is never sent twice unless the gateway
/// rejected it with `429` before executing it.
pub proof fn law_side_effects_not_replayed(outcome: Outcome, attempt: u32, max_attempts: nat)
    ensures
        spec_decide(outcome, Idempotency::SideEffect, attempt, max_attempts) is Retry
            ==> (outcome matches Outcome::Response { status, .. } && is_too_many_requests(status)),
{
}

/// Law: a `4xx` response other than `429` is never retried, whatever the
/// request.
pub proof fn law_client_errors_not_retried(
    status: u16,
    retry_after: Option<u64>,
    idempotency: Idempotency,
    attempt: u32,
    max_attempts: nat,
)
    requires
        400 <= status <= 499,
        status != 429,
    ensures
        spec_decide(
            Outcome::Response { status, retry_after },
            idempotency,
            attempt,
            max_attempts,
        ) == Decision::Fail,
{
}

/// The number of attempts a request makes when its attempts meet `outcomes`
/// in turn, starting at attempt `attempt`: every retry decided leads to one
/// more attempt, anything else ends the request.
pub open spec fn attempts_made(
    outcomes: Seq<Outcome>,
    idempotency: Idempotency,
    attempt: u32,
    max_attempts: nat,
) -> nat
    decreases outcomes.len(),
{
    if outcomes.len() == 0 {
        0
    } else {
        match spec_decide(outcomes[0], idempotency, attempt, max_attempts) {
            Decision::Retry { .. } => 1 + attempts_made(
                outcomes.drop_first(),
                idempotency,
                (attempt + 1) as u32,
                max_attempts,
            ),
            _ => 1,
        }
    }
}

/// Law: the retry budget bounds the attempts. Whatever the gateway answers,
/// a request with `max_retries` retries allowed (any `u32`) is sent at most
/// `1 + max_retries` times, and exactly once when no retry is allowed.
pub proof fn law_retry_budget(outcomes: Seq<Outcome>, idempotency: Idempotency, max_retries: u32)
    ensures
        attempts_made(outcomes, idempotency, 0, (max_retries + 1) as nat) <= max_retries + 1,
        max_retries == 0 ==> attempts_made(outcomes, idempotency, 0, 1) <= 1,
{
    lemma_attempts_bounded(outcomes, idempotency, 0, (max_retries + 1) as nat);
}

proof fn lemma_attempts_bounded(
    outcomes: Seq<Outcome>,
    idempotency: Idempotency,
    attempt: u32,
    max_attempts: nat,
)
    requires
        attempt < max_attempts,
        max_attempts <= u32::MAX + 1,
    ensures
        attempts_made(outcomes, idempotency, attempt, max_attempts) <= max_attempts - attempt,
    decreases outcomes.len(),
{
    if outcomes.len() > 0 {
        if spec_decide(outcomes[0], idempotency, attempt, max_attempts) is Retry {
            lemma_attempts_bounded(
                outcomes.drop_first(),
                idempotency,
                (attempt + 1) as u32,
                max_attempts,
            );
        }
    }
}

} // verus!
