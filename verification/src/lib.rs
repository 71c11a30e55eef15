use vstd::prelude::*;

pub mod convenience;
pub mod error;

verus! {

use vstd::arithmetic::power2::pow2;
use vstd::bits::{lemma_u64_pow2_no_overflow, lemma_u64_shl_is_mul};
use vstd::arithmetic::power2::{
    lemma2_to64,
    lemma_pow2_adds,
    lemma_pow2_pos,
    lemma_pow2_strictly_increases,
};
use crate::error::Error;

/// A classifier's decision about one attempt's outcome.
#[derive(Debug)]
pub enum RetryType {
    /// Abort immediately; no further attempts.
    Stop,
    /// Try again after the computed exponential backoff.
    Retry,
    /// Try again after exactly the given delay in milliseconds,
    /// bypassing the computed backoff.
    RetryAfter(u64),
}

/// The wait before the attempt after attempt `attempt`, in milliseconds:
/// binary exponential backoff, `base * 2^attempt + jitter`, saturated at
/// `u64::MAX` instead of wrapping.
pub open spec fn next_delay(base: u64, attempt: nat, jitter: u64) -> u64 {
    let exact = base * pow2(attempt) + jitter;
    if exact > u64::MAX {
        u64::MAX
    } else {
        exact as u64
    }
}

/// Computes the backoff delay in milliseconds for a retry decided after
/// attempt `try_count`: the base delay doubled once per preceding attempt,
/// plus the jitter draw, saturating on overflow.
pub fn calc_retry_duration(retry_duration: u64, jitter_duration: u64, try_count: u32) -> (r: u64)
    ensures
        r == next_delay(retry_duration, try_count as nat, jitter_duration),
{
    let factor: u64 = if try_count >= 64 {
        u64::MAX
    } else {
        proof {
            lemma_u64_pow2_no_overflow(try_count as nat);
            lemma_u64_shl_is_mul(1u64, try_count as u64);
        }
        1u64 << (try_count as u64)
    };
    let scaled: u64 = match retry_duration.checked_mul(factor) {
        Some(v) => v,
        None => u64::MAX,
    };
    proof {
        if try_count >= 64 {
            lemma2_to64();
            if try_count > 64 {
                lemma_pow2_strictly_increases(64, try_count as nat);
            }
            assert(pow2(try_count as nat) > u64::MAX);
            if retry_duration >= 1 {
                assert(retry_duration * pow2(try_count as nat) >= pow2(try_count as nat))
                    by (nonlinear_arith)
                    requires
                        retry_duration >= 1,
                ;
                assert(retry_duration * (u64::MAX as int) >= u64::MAX as int)
                    by (nonlinear_arith)
                    requires
                        retry_duration >= 1,
                ;
                assert(scaled == u64::MAX);
            } else {
                assert(scaled == 0);
            }
        }
    }
    scaled.saturating_add(jitter_duration)
}

/// What the executor asks its driver to do after one attempt was classified.
#[derive(Debug)]
pub enum Step<SuccessResponse, ErrorResponse> {
    /// The protocol is over; hand this result to the caller.
    Done(Result<SuccessResponse, Error<ErrorResponse>>),
    /// Suspend for exactly this many milliseconds, then perform the next attempt.
    Sleep(u64),
    /// Perform the next attempt at once (the computed delay was zero).
    Proceed,
}

/// The retry executor's state between attempts: the configured budget and
/// base delay, and the index of the attempt whose outcome is awaited.
#[derive(Debug, Clone, Copy)]
pub struct Executor {
    /// Maximum number of attempts.
    pub try_count: u8,
    /// Nominal wait unit for exponential backoff, in milliseconds.
    pub retry_duration: u64,
    /// Zero-based index of the current attempt.
    pub attempt: u8,
}

/// How one classified outcome advances the executor: the state afterwards and
/// the step its driver must take.
pub open spec fn step_spec<SuccessResponse, ErrorResponse>(
    st: Executor,
    verdict: Result<SuccessResponse, (RetryType, ErrorResponse)>,
    jitter_ms: u64,
) -> (Executor, Step<SuccessResponse, ErrorResponse>) {
    match verdict {
        Ok(success) => (st, Step::Done(Ok(success))),
        Err((decision, payload)) => match decision {
            RetryType::Stop => (st, Step::Done(Err(Error::Stop(payload)))),
            RetryType::Retry => {
                if st.attempt + 1 >= st.try_count {
                    (st, Step::Done(Err(Error::TryOver(payload))))
                } else {
                    let next = Executor {
                        try_count: st.try_count,
                        retry_duration: st.retry_duration,
                        attempt: (st.attempt + 1) as u8,
                    };
                    let delay = next_delay(st.retry_duration, st.attempt as nat, jitter_ms);
                    if delay > 0 {
                        (next, Step::Sleep(delay))
                    } else {
                        (next, Step::Proceed)
                    }
                }
            },
            RetryType::RetryAfter(target) => {
                if st.attempt + 1 >= st.try_count {
                    (st, Step::Done(Err(Error::TryOver(payload))))
                } else {
                    let next = Executor {
                        try_count: st.try_count,
                        retry_duration: st.retry_duration,
                        attempt: (st.attempt + 1) as u8,
                    };
                    if target > 0 {
                        (next, Step::Sleep(target))
                    } else {
                        (next, Step::Proceed)
                    }
                }
            },
        },
    }
}

impl Executor {
    /// The state is live: the current attempt is within the budget.
    pub open spec fn wf(self) -> bool {
        self.attempt < self.try_count
    }

    /// Begins a retry protocol: with a zero budget the configuration is
    /// rejected as `NoTry` before any request is made; otherwise the executor
    /// stands at attempt `0`.
    pub fn new<ErrorResponse>(try_count: u8, retry_duration: u64) -> (r: Result<
        Executor,
        Error<ErrorResponse>,
    >)
        ensures
            try_count == 0 ==> (r matches Err(e) && e is NoTry),
            try_count > 0 ==> r == Ok::<Executor, Error<ErrorResponse>>(
                Executor { try_count, retry_duration, attempt: 0 },
            ),
            r matches Ok(st) ==> st.wf(),
    {
        if try_count == 0 {
            Err(Error::NoTry)
        } else {
            Ok(Executor { try_count, retry_duration, attempt: 0 })
        }
    }

    /// Consumes the classifier's verdict on the current attempt and decides
    /// the driver's next step, exactly as `step_spec` says: success and `Stop`
    /// end the protocol at once; a retry decision on the last permitted
    /// attempt ends it as `TryOver` without sleeping; otherwise the executor
    /// advances one attempt, waiting out the requested or computed delay
    /// first when it is positive.
    pub fn on_verdict<SuccessResponse, ErrorResponse>(
        &mut self,
        verdict: Result<SuccessResponse, (RetryType, ErrorResponse)>,
        jitter_ms: u64,
    ) -> (r: Step<SuccessResponse, ErrorResponse>)
        requires
            old(self).wf(),
        ensures
            (*final(self), r) == step_spec(*old(self), verdict, jitter_ms),
            final(self).wf(),
    {
        match verdict {
            Ok(success) => Step::Done(Ok(success)),
            Err((decision, payload)) => match decision {
                RetryType::Stop => Step::Done(Err(Error::Stop(payload))),
                RetryType::Retry => {
                    if self.attempt + 1 >= self.try_count {
                        Step::Done(Err(Error::TryOver(payload)))
                    } else {
                        let delay = calc_retry_duration(
                            self.retry_duration,
                            jitter_ms,
                            self.attempt as u32,
                        );
                        self.attempt = self.attempt + 1;
                        if delay > 0 {
                            Step::Sleep(delay)
                        } else {
                            Step::Proceed
                        }
                    }
                },
                RetryType::RetryAfter(target) => {
                    if self.attempt + 1 >= self.try_count {
                        Step::Done(Err(Error::TryOver(payload)))
                    } else {
                        self.attempt = self.attempt + 1;
                        if target > 0 {
                            Step::Sleep(target)
                        } else {
                            Step::Proceed
                        }
                    }
                },
            },
        }
    }
}

/// The rest of the protocol from state `st`, given the verdict classification
/// would return on each attempt and the jitter draw each backoff would use:
/// the terminal result, how many attempts are performed, and the delays the
/// driver is asked to suspend for, in order.
pub open spec fn run_steps<SuccessResponse, ErrorResponse>(
    st: Executor,
    verdicts: Seq<Result<SuccessResponse, (RetryType, ErrorResponse)>>,
    jitters: Seq<u64>,
) -> (Result<SuccessResponse, Error<ErrorResponse>>, int, Seq<u64>)
    decreases st.try_count - st.attempt,
{
    let stepped = step_spec(st, verdicts[st.attempt as int], jitters[st.attempt as int]);
    match stepped.1 {
        Step::Done(result) => (result, 1, Seq::empty()),
        Step::Sleep(delay) => {
            let rest = run_steps(stepped.0, verdicts, jitters);
            (rest.0, rest.1 + 1, seq![delay] + rest.2)
        },
        Step::Proceed => {
            let rest = run_steps(stepped.0, verdicts, jitters);
            (rest.0, rest.1 + 1, rest.2)
        },
    }
}

/// The whole protocol: a zero budget fails as `NoTry` with no attempt at all;
/// otherwise the attempts run from index `0`.
pub open spec fn run_model<SuccessResponse, ErrorResponse>(
    try_count: u8,
    retry_duration: u64,
    verdicts: Seq<Result<SuccessResponse, (RetryType, ErrorResponse)>>,
    jitters: Seq<u64>,
) -> (Result<SuccessResponse, Error<ErrorResponse>>, int, Seq<u64>) {
    if try_count == 0 {
        (Err(Error::NoTry), 0, Seq::empty())
    } else {
        run_steps(Executor { try_count, retry_duration, attempt: 0 }, verdicts, jitters)
    }
}

/// With a zero attempt budget the protocol fails as `NoTry` at once: no
/// attempt is performed and no suspension is requested, whatever the
/// classifier would have said.
pub proof fn lemma_zero_budget_fails_immediately<SuccessResponse, ErrorResponse>(
    retry_duration: u64,
    verdicts: Seq<Result<SuccessResponse, (RetryType, ErrorResponse)>>,
    jitters: Seq<u64>,
)
    ensures
        run_model(0, retry_duration, verdicts, jitters) == (
            Err::<SuccessResponse, Error<ErrorResponse>>(Error::NoTry),
            0int,
            Seq::<u64>::empty(),
        ),
{
}

/// A `Stop` verdict on the first attempt ends the protocol after exactly one
/// attempt, as `Stop` carrying that verdict's payload, with no suspension.
pub proof fn lemma_stop_is_immediate<SuccessResponse, ErrorResponse>(
    try_count: u8,
    retry_duration: u64,
    verdicts: Seq<Result<SuccessResponse, (RetryType, ErrorResponse)>>,
    jitters: Seq<u64>,
    payload: ErrorResponse,
)
    requires
        try_count > 0,
        verdicts[0] == Err::<SuccessResponse, (RetryType, ErrorResponse)>(
            (RetryType::Stop, payload),
        ),
    ensures
        run_model(try_count, retry_duration, verdicts, jitters) == (
            Err::<SuccessResponse, Error<ErrorResponse>>(Error::Stop(payload)),
            1int,
            Seq::<u64>::empty(),
        ),
{
}

/// Over a positive base delay the computed backoff is itself positive.
pub proof fn lemma_next_delay_positive(base: u64, attempt: nat, jitter: u64)
    requires
        base >= 1,
    ensures
        next_delay(base, attempt, jitter) >= 1,
{
    lemma_pow2_pos(attempt);
    assert(base * pow2(attempt) >= pow2(attempt)) by (nonlinear_arith)
        requires
            base >= 1,
            pow2(attempt) >= 1,
    ;
}

/// Attempts classified retryable (not `Stop`) before attempt `k` each advance
/// the protocol by exactly one attempt: from attempt `k` on it runs as if it
/// had started there, with at most one suspension per earlier attempt —
/// exactly one per earlier attempt when the decisions are `Retry` over a
/// positive base delay.
proof fn lemma_retryable_prefix<SuccessResponse, ErrorResponse>(
    st: Executor,
    verdicts: Seq<Result<SuccessResponse, (RetryType, ErrorResponse)>>,
    jitters: Seq<u64>,
    k: int,
)
    requires
        st.wf(),
        st.attempt <= k < st.try_count,
        forall|j: int|
            st.attempt <= j < k ==> ((#[trigger] verdicts[j]) matches Err((decision, _))
                && !(decision is Stop)),
    ensures
        ({
            let whole = run_steps(st, verdicts, jitters);
            let tail = run_steps(
                Executor {
                    try_count: st.try_count,
                    retry_duration: st.retry_duration,
                    attempt: k as u8,
                },
                verdicts,
                jitters,
            );
            &&& whole.0 == tail.0
            &&& whole.1 == tail.1 + (k - st.attempt)
            &&& whole.2.len() <= tail.2.len() + (k - st.attempt)
            &&& ((st.retry_duration >= 1 && (forall|j: int|
                st.attempt <= j < k ==> ((#[trigger] verdicts[j]) matches Err((decision, _))
                    && decision is Retry))) ==> whole.2.len() == tail.2.len() + (k - st.attempt))
        }),
    decreases k - st.attempt,
{
    if st.attempt < k {
        let next = Executor {
            try_count: st.try_count,
            retry_duration: st.retry_duration,
            attempt: (st.attempt + 1) as u8,
        };
        if st.retry_duration >= 1 {
            lemma_next_delay_positive(
                st.retry_duration,
                st.attempt as nat,
                jitters[st.attempt as int],
            );
        }
        lemma_retryable_prefix(next, verdicts, jitters, k);
    }
}

/// When every classification in the budget yields `Retry`, the protocol
/// performs exactly `try_count` attempts and gives up as `TryOver`, carrying
/// the last attempt's payload verbatim; no suspension follows the final
/// attempt, and over a positive base delay exactly one precedes every attempt
/// but the first.
pub proof fn lemma_all_retry_exhausts<SuccessResponse, ErrorResponse>(
    try_count: u8,
    retry_duration: u64,
    verdicts: Seq<Result<SuccessResponse, (RetryType, ErrorResponse)>>,
    jitters: Seq<u64>,
)
    requires
        try_count > 0,
        forall|j: int|
            0 <= j < try_count ==> ((#[trigger] verdicts[j]) matches Err((decision, _))
                && decision is Retry),
    ensures
        ({
            let whole = run_model(try_count, retry_duration, verdicts, jitters);
            &&& verdicts[try_count - 1] matches Err((_, payload)) && whole.0 == Err::<
                SuccessResponse,
                Error<ErrorResponse>,
            >(Error::TryOver(payload))
            &&& whole.1 == try_count as int
            &&& whole.2.len() <= try_count - 1
            &&& (retry_duration >= 1 ==> whole.2.len() == try_count - 1)
        }),
{
    let st0 = Executor { try_count, retry_duration, attempt: 0 };
    lemma_retryable_prefix(st0, verdicts, jitters, try_count - 1);
}

/// When classification yields success on attempt `k` after retry decisions on
/// every earlier attempt, the protocol performs exactly `k + 1` attempts and
/// returns that success, with at most one suspension per earlier attempt and
/// none after the successful one; when the earlier decisions are all `Retry`
/// over a positive base delay, exactly `k` suspensions intervene.
pub proof fn lemma_success_after_retries<SuccessResponse, ErrorResponse>(
    try_count: u8,
    retry_duration: u64,
    verdicts: Seq<Result<SuccessResponse, (RetryType, ErrorResponse)>>,
    jitters: Seq<u64>,
    k: int,
    success: SuccessResponse,
)
    requires
        0 <= k < try_count,
        verdicts[k] == Ok::<SuccessResponse, (RetryType, ErrorResponse)>(success),
        forall|j: int|
            0 <= j < k ==> ((#[trigger] verdicts[j]) matches Err((decision, _))
                && !(decision is Stop)),
    ensures
        ({
            let whole = run_model(try_count, retry_duration, verdicts, jitters);
            &&& whole.0 == Ok::<SuccessResponse, Error<ErrorResponse>>(success)
            &&& whole.1 == k + 1
            &&& whole.2.len() <= k
            &&& ((retry_duration >= 1 && (forall|j: int|
                0 <= j < k ==> ((#[trigger] verdicts[j]) matches Err((decision, _))
                    && decision is Retry))) ==> whole.2.len() == k)
        }),
{
    let st0 = Executor { try_count, retry_duration, attempt: 0 };
    lemma_retryable_prefix(st0, verdicts, jitters, k);
}

/// A `RetryAfter` decision bypasses the backoff calculator entirely: whatever
/// the jitter draw, the driver is told to suspend for exactly the requested
/// delay before the next attempt.
pub proof fn lemma_retry_after_bypasses_backoff<SuccessResponse, ErrorResponse>(
    st: Executor,
    target: u64,
    payload: ErrorResponse,
    jitter_ms: u64,
)
    requires
        st.attempt + 1 < st.try_count,
        target > 0,
    ensures
        step_spec::<SuccessResponse, ErrorResponse>(
            st,
            Err((RetryType::RetryAfter(target), payload)),
            jitter_ms,
        ) == (
            Executor {
                try_count: st.try_count,
                retry_duration: st.retry_duration,
                attempt: (st.attempt + 1) as u8,
            },
            Step::<SuccessResponse, ErrorResponse>::Sleep(target),
        ),
{
}

/// The backoff schedule is monotone in the attempt index: as long as the
/// jitter draw stays at or below the current exponential term, the next
/// attempt's computed delay is at least the current one, whatever the next
/// draw is.
pub proof fn lemma_backoff_monotone(base: u64, attempt: nat, jitter_now: u64, jitter_next: u64)
    requires
        jitter_now <= base * pow2(attempt),
    ensures
        next_delay(base, attempt + 1, jitter_next) >= next_delay(base, attempt, jitter_now),
{
    lemma_pow2_adds(attempt, 1);
    lemma2_to64();
    assert(base * pow2(attempt + 1) == 2 * (base * pow2(attempt))) by (nonlinear_arith)
        requires
            pow2(attempt + 1) == 2 * pow2(attempt),
    ;
}

/// For the first four attempt indexes the computed backoff is the base delay
/// multiplied by 1, 2, 4 and 8 respectively, plus the jitter.
pub proof fn lemma_backoff_multipliers(base: u64, jitter: u64)
    requires
        base * 8 + jitter <= u64::MAX,
    ensures
        next_delay(base, 0, jitter) == base + jitter,
        next_delay(base, 1, jitter) == base * 2 + jitter,
        next_delay(base, 2, jitter) == base * 4 + jitter,
        next_delay(base, 3, jitter) == base * 8 + jitter,
{
    lemma2_to64();
}

} // verus!
