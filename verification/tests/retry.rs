use reqwest_builder_retry::convenience::check_status_code;
use reqwest_builder_retry::convenience::json::{check_done, ResponseData};
use reqwest_builder_retry::error::Error;
use reqwest_builder_retry::{calc_retry_duration, Executor, RetryType, Step};

/// Drives the executor with a scripted verdict per attempt and a fixed jitter
/// draw, returning the terminal result, the number of attempts performed and
/// the delays that would have been slept.
fn run_script<S, E>(
    try_count: u8,
    retry_duration_ms: u64,
    verdicts: Vec<Result<S, (RetryType, E)>>,
    jitter_ms: u64,
) -> (Result<S, Error<E>>, usize, Vec<u64>) {
    let mut exec = match Executor::new::<E>(try_count, retry_duration_ms) {
        Ok(e) => e,
        Err(err) => return (Err(err), 0, Vec::new()),
    };
    let mut attempts: usize = 0;
    let mut sleeps: Vec<u64> = Vec::new();
    for verdict in verdicts {
        attempts += 1;
        match exec.on_verdict(verdict, jitter_ms) {
            Step::Done(result) => return (result, attempts, sleeps),
            Step::Sleep(d) => sleeps.push(d),
            Step::Proceed => {}
        }
    }
    panic!("verdict script ran out before the protocol finished");
}

fn headers() -> Vec<(String, String)> {
    vec![("content-type".to_string(), "application/json".to_string())]
}

#[test]
fn test_no_attempts() {
    let (result, attempts, sleeps) =
        run_script::<u32, ()>(0, 1000, vec![Ok(1)], 100);
    assert!(matches!(result, Err(Error::NoTry)));
    assert_eq!(attempts, 0);
    assert!(sleeps.is_empty());
}

#[test]
fn test_stop() {
    let verdicts: Vec<Result<u32, (RetryType, ())>> = vec![
        Err((RetryType::Stop, ())),
        Err((RetryType::Stop, ())),
        Err((RetryType::Stop, ())),
    ];
    let (result, attempts, sleeps) = run_script(3, 1000, verdicts, 100);
    assert!(matches!(result, Err(Error::Stop(()))));
    assert_eq!(attempts, 1);
    assert!(sleeps.is_empty());
}

#[test]
fn test_over_try() {
    let verdicts: Vec<Result<u32, (RetryType, ())>> = vec![
        Err((RetryType::Retry, ())),
        Err((RetryType::Retry, ())),
        Err((RetryType::Retry, ())),
        Err((RetryType::Retry, ())),
    ];
    let (result, attempts, sleeps) = run_script(4, 2000, verdicts, 100);
    assert!(matches!(result, Err(Error::TryOver(()))));
    assert_eq!(attempts, 4);
    assert_eq!(sleeps, vec![2100, 4100, 8100]);
}

#[test]
fn test_success() {
    let verdicts: Vec<Result<&str, (RetryType, ())>> = vec![Ok("body")];
    let (result, attempts, sleeps) = run_script(3, 1000, verdicts, 100);
    match result {
        Ok(body) => assert_eq!(body, "body"),
        Err(e) => panic!("Test failed: {:?}", e),
    }
    assert_eq!(attempts, 1);
    assert!(sleeps.is_empty());
}

#[test]
fn test_success_after_retries() {
    let verdicts: Vec<Result<u32, (RetryType, &str)>> = vec![
        Err((RetryType::Retry, "first")),
        Err((RetryType::Retry, "second")),
        Ok(42),
    ];
    let (result, attempts, sleeps) = run_script(3, 100, verdicts, 7);
    assert!(matches!(result, Ok(42)));
    assert_eq!(attempts, 3);
    assert_eq!(sleeps, vec![107, 207]);
}

#[test]
fn test_last_payload_is_kept() {
    let verdicts: Vec<Result<u32, (RetryType, &str)>> = vec![
        Err((RetryType::Retry, "first")),
        Err((RetryType::Retry, "last")),
    ];
    let (result, attempts, _) = run_script(2, 100, verdicts, 0);
    match result {
        Err(Error::TryOver(payload)) => assert_eq!(payload, "last"),
        other => panic!("expected TryOver, got {:?}", other),
    }
    assert_eq!(attempts, 2);
}

#[test]
fn test_retry_after_bypasses_backoff() {
    let verdicts: Vec<Result<u32, (RetryType, ())>> = vec![
        Err((RetryType::RetryAfter(5000), ())),
        Ok(1),
    ];
    let (result, attempts, sleeps) = run_script(3, 100, verdicts, 7);
    assert!(matches!(result, Ok(1)));
    assert_eq!(attempts, 2);
    assert_eq!(sleeps, vec![5000]);
}

#[test]
fn test_retry_after_zero_delay_proceeds() {
    let verdicts: Vec<Result<u32, (RetryType, ())>> = vec![
        Err((RetryType::RetryAfter(0), ())),
        Ok(1),
    ];
    let (result, attempts, sleeps) = run_script(3, 100, verdicts, 7);
    assert!(matches!(result, Ok(1)));
    assert_eq!(attempts, 2);
    assert!(sleeps.is_empty());
}

#[test]
fn test_zero_base_zero_jitter_proceeds() {
    let verdicts: Vec<Result<u32, (RetryType, ())>> = vec![
        Err((RetryType::Retry, ())),
        Ok(1),
    ];
    let (result, attempts, sleeps) = run_script(3, 0, verdicts, 0);
    assert!(matches!(result, Ok(1)));
    assert_eq!(attempts, 2);
    assert!(sleeps.is_empty());
}

#[test]
fn test_retry_on_sole_attempt_exhausts() {
    let verdicts: Vec<Result<u32, (RetryType, ())>> = vec![Err((RetryType::Retry, ()))];
    let (result, attempts, sleeps) = run_script(1, 1000, verdicts, 100);
    assert!(matches!(result, Err(Error::TryOver(()))));
    assert_eq!(attempts, 1);
    assert!(sleeps.is_empty());
}

#[test]
fn test_retry_after_on_final_attempt_is_exhausted() {
    let verdicts: Vec<Result<u32, (RetryType, ())>> = vec![Err((RetryType::RetryAfter(9999), ()))];
    let (result, attempts, sleeps) = run_script(1, 1000, verdicts, 100);
    assert!(matches!(result, Err(Error::TryOver(()))));
    assert_eq!(attempts, 1);
    assert!(sleeps.is_empty());
}

#[test]
fn test_calc_retry_duration_multipliers() {
    assert_eq!(calc_retry_duration(100, 7, 0), 107);
    assert_eq!(calc_retry_duration(100, 7, 1), 207);
    assert_eq!(calc_retry_duration(100, 7, 2), 407);
    assert_eq!(calc_retry_duration(100, 7, 3), 807);
}

#[test]
fn test_calc_retry_duration_saturates() {
    assert_eq!(calc_retry_duration(u64::MAX, 0, 1), u64::MAX);
    assert_eq!(calc_retry_duration(1, 0, 64), u64::MAX);
    assert_eq!(calc_retry_duration(u64::MAX, u64::MAX, 0), u64::MAX);
    assert_eq!(calc_retry_duration(0, 5, 100), 5);
}

#[test]
fn test_check_status_code_scenarios() {
    let retryable: Vec<u16> = vec![429, 403];
    assert!(matches!(check_status_code(404, &retryable), Some(RetryType::Stop)));
    assert!(matches!(check_status_code(429, &retryable), Some(RetryType::Retry)));
    assert!(matches!(check_status_code(403, &retryable), Some(RetryType::Retry)));
    assert!(matches!(check_status_code(200, &retryable), None));
    assert!(matches!(check_status_code(204, &retryable), None));
    assert!(matches!(check_status_code(400, &retryable), Some(RetryType::Stop)));
    assert!(matches!(check_status_code(500, &retryable), Some(RetryType::Retry)));
    assert!(matches!(check_status_code(302, &retryable), Some(RetryType::Retry)));
}

#[test]
fn test_check_done_malformed_body() {
    let data = ResponseData {
        status_code: 200,
        body: "not json".to_string(),
        headers: headers(),
    };
    match check_done(Ok(data), &[429, 403]) {
        Err((decision, payload)) => {
            assert!(matches!(decision, RetryType::Retry));
            assert!(payload.error.is_none());
            let kept = payload.response_data.expect("body and headers are attached");
            assert_eq!(kept.status_code, 200);
            assert_eq!(kept.body, "not json");
            assert_eq!(kept.headers, headers());
        }
        Ok(_) => panic!("a malformed body must not decode"),
    }
}

#[test]
fn test_check_done_success() {
    let data = ResponseData {
        status_code: 200,
        body: "{\"name\":\"x\",\"count\":2}".to_string(),
        headers: headers(),
    };
    match check_done(Ok(data), &[429, 403]) {
        Ok(success) => {
            assert_eq!(success.status_code, 200);
            assert_eq!(success.headers, headers());
            assert!(success.data.is_object());
            assert_eq!(success.data["name"], "x");
            assert_eq!(success.data["count"], 2);
        }
        Err((_, payload)) => panic!("Test failed: {:?}", payload),
    }
}

#[test]
fn test_check_done_transport_error() {
    match check_done(Err("connection refused".to_string()), &[429, 403]) {
        Err((decision, payload)) => {
            assert!(matches!(decision, RetryType::Retry));
            assert_eq!(payload.error.as_deref(), Some("connection refused"));
            assert!(payload.response_data.is_none());
        }
        Ok(_) => panic!("a transport failure must not succeed"),
    }
}

#[test]
fn test_check_done_stop_status() {
    let data = ResponseData {
        status_code: 404,
        body: "{}".to_string(),
        headers: headers(),
    };
    match check_done(Ok(data), &[429, 403]) {
        Err((decision, payload)) => {
            assert!(matches!(decision, RetryType::Stop));
            assert!(payload.error.is_none());
            let kept = payload.response_data.expect("the response data is attached");
            assert_eq!(kept.status_code, 404);
            assert_eq!(kept.body, "{}");
        }
        Ok(_) => panic!("a client error must not succeed"),
    }
}

#[test]
fn test_check_done_retryable_status() {
    let data = ResponseData {
        status_code: 429,
        body: "".to_string(),
        headers: Vec::new(),
    };
    match check_done(Ok(data), &[429, 403]) {
        Err((decision, payload)) => {
            assert!(matches!(decision, RetryType::Retry));
            assert!(payload.error.is_none());
            assert!(payload.response_data.is_some());
        }
        Ok(_) => panic!("a retryable status must not succeed"),
    }
}
