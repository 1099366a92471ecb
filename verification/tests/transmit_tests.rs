use honeycomb_rs::client::{helper_retry_step, HelperStep};
use honeycomb_rs::{Client, Config};
use honeycomb_rs::transmit::{format_failure_message, format_timeout_message};
use honeycomb_rs::{Duration, Error, Response, RetryConfig, Transmission, TransmitPhase, TransmitStep};

fn quick_retry(max_retries: u32) -> RetryConfig {
    RetryConfig::new()
        .with_initial_delay(Duration::from_millis(10))
        .with_max_delay(Duration::from_millis(100))
        .with_max_retries(max_retries)
        .with_total_timeout(Duration::from_secs(1))
}

fn expect_send(step: TransmitStep) -> Duration {
    match step {
        TransmitStep::Send { timeout } => timeout,
        other => panic!("expected a send, got {other:?}"),
    }
}

fn expect_wait(step: TransmitStep) -> Duration {
    match step {
        TransmitStep::Wait { delay } => delay,
        other => panic!("expected a wait, got {other:?}"),
    }
}

fn expect_failed(step: TransmitStep) -> Error {
    match step {
        TransmitStep::Failed(e) => e,
        other => panic!("expected a failure, got {other:?}"),
    }
}

#[test]
fn test_transmission_success_first_try() {
    let mut t = Transmission::new(quick_retry(3));
    let timeout = expect_send(t.begin_attempt(Duration::from_millis(250)));
    assert_eq!(timeout, Duration::from_millis(750));
    match t.finish_attempt(Response::success(200, Duration::from_millis(5)), Duration::from_millis(260)) {
        TransmitStep::Delivered(r) => assert_eq!(r.status_code, Some(200)),
        other => panic!("expected delivery, got {other:?}"),
    }
    assert_eq!(t.phase(), TransmitPhase::Finished);
}

#[test]
fn test_transmission_retries_server_errors_then_succeeds() {
    let mut t = Transmission::new(quick_retry(3));
    expect_send(t.begin_attempt(Duration::zero()));
    let d0 = expect_wait(t.finish_attempt(Response::success(500, Duration::zero()), Duration::zero()));
    assert_eq!(d0, Duration::from_millis(10));
    expect_send(t.begin_attempt(Duration::from_millis(20)));
    let d1 = expect_wait(t.finish_attempt(Response::success(429, Duration::zero()), Duration::from_millis(20)));
    assert_eq!(d1, Duration::from_millis(20));
    expect_send(t.begin_attempt(Duration::from_millis(50)));
    match t.finish_attempt(Response::success(202, Duration::zero()), Duration::from_millis(60)) {
        TransmitStep::Delivered(_) => {}
        other => panic!("expected delivery, got {other:?}"),
    }
}

#[test]
fn test_transmission_non_retryable_fails_at_once() {
    let mut t = Transmission::new(quick_retry(3));
    expect_send(t.begin_attempt(Duration::zero()));
    let mut response = Response::success(400, Duration::zero());
    response.body = Some("  bad request \n".to_string());
    let err = expect_failed(t.finish_attempt(response, Duration::zero()));
    assert_eq!(err.message(), "Failed to send batch after 4 attempts: HTTP 400: bad request");
    assert!(matches!(err, Error::Http(_)));
}

#[test]
fn test_transmission_gives_up_after_last_retry() {
    let mut t = Transmission::new(quick_retry(1));
    expect_send(t.begin_attempt(Duration::zero()));
    expect_wait(t.finish_attempt(Response::error("refused", Duration::zero()), Duration::zero()));
    expect_send(t.begin_attempt(Duration::zero()));
    let err = expect_failed(t.finish_attempt(Response::error("refused", Duration::zero()), Duration::zero()));
    assert_eq!(err.message(), "Failed to send batch after 2 attempts: network error: refused");
}

#[test]
fn test_transmission_total_timeout_before_attempt() {
    let mut t = Transmission::new(quick_retry(3));
    let err = expect_failed(t.begin_attempt(Duration::from_secs(2)));
    assert_eq!(err.to_string(), "Timeout error: Total timeout (1s) exceeded after 0 attempts");
}

#[test]
fn test_transmission_wait_cut_to_remaining_budget() {
    let retry = RetryConfig::new()
        .with_initial_delay(Duration::from_millis(500))
        .with_max_retries(3)
        .with_total_timeout(Duration::from_secs(1));
    let mut t = Transmission::new(retry);
    expect_send(t.begin_attempt(Duration::zero()));
    let d = expect_wait(t.finish_attempt(Response::success(503, Duration::zero()), Duration::from_millis(900)));
    assert_eq!(d, Duration::from_millis(100));
}

#[test]
fn test_transmission_no_budget_left_after_failure() {
    let mut t = Transmission::new(quick_retry(3));
    expect_send(t.begin_attempt(Duration::zero()));
    let err = expect_failed(t.finish_attempt(Response::success(500, Duration::zero()), Duration::from_secs(1)));
    assert_eq!(err.message(), "Failed to send batch after 4 attempts: HTTP 500: <empty response body>");
}

#[test]
fn test_failure_message_forms() {
    let unknown = Response {
        status_code: None,
        body: None,
        duration: Duration::zero(),
        error: None,
    };
    assert_eq!(format_failure_message(0, &unknown), "Failed to send batch after 1 attempts: unknown error");
    let mut blank = Response::success(502, Duration::zero());
    blank.body = Some(" \t ".to_string());
    assert_eq!(
        format_failure_message(2, &blank),
        "Failed to send batch after 3 attempts: HTTP 502: <empty response body>"
    );
}

#[test]
fn test_timeout_message_duration_text() {
    assert_eq!(
        format_timeout_message(Duration::from_millis(1500), 3),
        "Total timeout (1.5s) exceeded after 3 attempts"
    );
    assert_eq!(
        format_timeout_message(Duration::from_millis(250), 1),
        "Total timeout (250ms) exceeded after 1 attempts"
    );
}

#[test]
fn test_duration_debug_text_matches_std() {
    for nanos in [0u64, 1, 999, 1_000, 1_500, 999_999, 1_000_000, 1_234_567, 1_000_000_000, 90_000_000_000, 1_000_000_001] {
        let ours = Duration::from_nanos(nanos).debug_text();
        let std_text = format!("{:?}", std::time::Duration::from_nanos(nanos));
        assert_eq!(ours, std_text);
    }
}

#[test]
fn test_helper_retry_step_schedule() {
    let retry = RetryConfig::new();
    match helper_retry_step(&retry, 0, 3, Ok(Response::success(200, Duration::zero()))) {
        HelperStep::Finish(Ok(())) => {}
        other => panic!("expected success, got {other:?}"),
    }
    match helper_retry_step(&retry, 1, 3, Err(Error::Http("down".to_string()))) {
        HelperStep::Wait(d) => assert_eq!(d, Duration::from_millis(200)),
        other => panic!("expected a wait, got {other:?}"),
    }
    match helper_retry_step(&retry, 2, 3, Err(Error::Http("down".to_string()))) {
        HelperStep::Finish(Err(e)) => assert_eq!(e.message(), "down"),
        other => panic!("expected the last error, got {other:?}"),
    }
}

#[test]
fn test_settle_counts_outcomes() {
    let mut client = Client::new(Config::new("k", "d")).unwrap();
    let delivered = client.settle(TransmitStep::Delivered(Response::success(200, Duration::zero())), 4);
    assert!(matches!(delivered, Some(Ok(_))));
    let failed = client.settle(TransmitStep::Failed(Error::Http("x".to_string())), 4);
    assert!(matches!(failed, Some(Err(_))));
    assert!(client.settle(TransmitStep::Wait { delay: Duration::zero() }, 4).is_none());
    let stats = client.stats().snapshot();
    assert_eq!(stats.events_sent, 4);
    assert_eq!(stats.batches_sent, 1);
    assert_eq!(stats.batches_failed, 1);
}

#[test]
fn test_duration_new_carries_nanos() {
    assert_eq!(Duration::new(1, 2_500_000_000), Duration::from_millis(3_500));
}
