use ra::transport::{
    backoff_delay_ms, completions_url, decide_attempt, error_chain_has_retryable_io_dyn,
    format_http_error, is_context_error, parse_retry_after_secs, should_retry_status,
    should_retry_transport, AttemptDecision, AttemptOutcome, IoKind, TransportFailure, MAX_RETRIES,
};

fn response(status: u16, retry_after: Option<u64>, body: &str) -> AttemptOutcome {
    AttemptOutcome::Response {
        status,
        retry_after,
        request_id: String::new(),
        body: body.to_string(),
    }
}

fn fail_message(d: AttemptDecision) -> String {
    match d {
        AttemptDecision::Fail { message } => message,
        AttemptDecision::Retry { delay_ms } => panic!("unexpected retry after {delay_ms} ms"),
        AttemptDecision::Accept => panic!("unexpected accept"),
    }
}

#[test]
fn treats_unexpected_eof_as_retryable() {
    let chain = vec![None, Some(IoKind::UnexpectedEof)];
    assert!(error_chain_has_retryable_io_dyn(&chain));
}

#[test]
fn does_not_mark_other_io_as_retryable() {
    let chain = vec![None, Some(IoKind::Other)];
    assert!(!error_chain_has_retryable_io_dyn(&chain));
}

#[test]
fn dropped_connections_are_retryable_io() {
    for kind in [IoKind::ConnectionReset, IoKind::ConnectionAborted, IoKind::BrokenPipe] {
        assert!(error_chain_has_retryable_io_dyn(&vec![Some(kind)]));
    }
    assert!(!error_chain_has_retryable_io_dyn(&vec![]));
}

#[test]
fn transport_failure_classification() {
    let plain = TransportFailure { timeout: false, connect: false, body: false, decode: false, io_chain: vec![None] };
    assert!(!should_retry_transport(&plain));
    let timeout = TransportFailure { timeout: true, connect: false, body: false, decode: false, io_chain: vec![] };
    assert!(should_retry_transport(&timeout));
    let reset = TransportFailure {
        timeout: false,
        connect: false,
        body: false,
        decode: false,
        io_chain: vec![None, Some(IoKind::ConnectionReset)],
    };
    assert!(should_retry_transport(&reset));
}

#[test]
fn retryable_statuses() {
    for s in [429u16, 500, 502, 503, 504] {
        assert!(should_retry_status(s));
    }
    for s in [200u16, 400, 401, 404, 408, 501] {
        assert!(!should_retry_status(s));
    }
}

#[test]
fn retries_503_then_accepts_200() {
    let url = "http://127.0.0.1:1/chat/completions";
    let first = decide_attempt(0, &response(503, None, "{\"error\":{\"message\":\"temporary upstream issue\"}}"), false, url, 7);
    assert!(matches!(first, AttemptDecision::Retry { delay_ms: 257 }));
    let second = decide_attempt(1, &response(200, None, "{}"), false, url, 7);
    assert!(matches!(second, AttemptDecision::Accept));
}

#[test]
fn a_503_on_the_last_attempt_fails() {
    let url = "http://h/chat/completions";
    let d = decide_attempt(MAX_RETRIES, &response(503, None, ""), false, url, 0);
    let msg = fail_message(d);
    assert_eq!(
        msg,
        "OpenRouter API error (HTTP 503) when calling http://h/chat/completions\nHint: upstream/server error; retry later."
    );
}

#[test]
fn a_429_without_retry_after_is_fatal_by_default() {
    let url = "http://h/chat/completions";
    let d = decide_attempt(0, &response(429, None, "{\"error\":{\"message\":\"rate limited\"}}"), false, url, 0);
    let msg = fail_message(d);
    assert!(msg.starts_with("OpenRouter API error (HTTP 429) when calling http://h/chat/completions"));
    assert!(msg.contains("\nMessage: rate limited"));
    assert!(msg.ends_with("Hint: you may be rate limited; retry later or lower concurrency."));
}

#[test]
fn retries_on_429_when_enabled_by_policy() {
    let url = "http://h/chat/completions";
    let d = decide_attempt(0, &response(429, None, ""), true, url, 3);
    assert!(matches!(d, AttemptDecision::Retry { delay_ms: 253 }));
}

#[test]
fn a_429_with_retry_after_waits_as_told() {
    let url = "http://h/chat/completions";
    let d = decide_attempt(1, &response(429, Some(2), ""), false, url, 5);
    assert!(matches!(d, AttemptDecision::Retry { delay_ms: 2005 }));
}

#[test]
fn send_failures_retry_then_fail_with_attempt_count() {
    let url = "http://h/chat/completions";
    let d = decide_attempt(1, &AttemptOutcome::SendFailed { retryable: true }, false, url, 0);
    assert!(matches!(d, AttemptDecision::Retry { delay_ms: 500 }));
    let d = decide_attempt(2, &AttemptOutcome::SendFailed { retryable: true }, false, url, 0);
    assert_eq!(fail_message(d), "OpenRouter request failed: POST http://h/chat/completions (attempt 3/3)");
    let d = decide_attempt(0, &AttemptOutcome::SendFailed { retryable: false }, false, url, 0);
    assert_eq!(fail_message(d), "OpenRouter request failed: POST http://h/chat/completions (attempt 1/3)");
}

#[test]
fn body_read_failure_message() {
    let url = "http://h/chat/completions";
    let outcome = AttemptOutcome::BodyFailed { status_text: "200 OK".to_string(), retryable: false };
    let d = decide_attempt(0, &outcome, false, url, 0);
    assert_eq!(fail_message(d), "failed to read OpenRouter response body (HTTP 200 OK) (attempt 1/3)");
}

#[test]
fn backoff_doubles_and_caps() {
    assert_eq!(backoff_delay_ms(0, None, 0), 250);
    assert_eq!(backoff_delay_ms(1, None, 0), 500);
    assert_eq!(backoff_delay_ms(2, None, 0), 1000);
    assert_eq!(backoff_delay_ms(3, None, 0), 2000);
    assert_eq!(backoff_delay_ms(4, None, 0), 3000);
    assert_eq!(backoff_delay_ms(40, None, 49), 3049);
    assert_eq!(backoff_delay_ms(0, Some(3), 10), 3010);
    assert_eq!(backoff_delay_ms(0, Some(u64::MAX), 10), u64::MAX);
}

#[test]
fn retry_after_parsing() {
    assert_eq!(parse_retry_after_secs(" 7 "), Some(7));
    assert_eq!(parse_retry_after_secs("+3"), Some(3));
    assert_eq!(parse_retry_after_secs("0"), Some(0));
    assert_eq!(parse_retry_after_secs("18446744073709551615"), Some(u64::MAX));
    assert_eq!(parse_retry_after_secs("18446744073709551616"), None);
    assert_eq!(parse_retry_after_secs("Wed, 21 Oct 2015 07:28:00 GMT"), None);
    assert_eq!(parse_retry_after_secs(""), None);
    assert_eq!(parse_retry_after_secs("+"), None);
    assert_eq!(parse_retry_after_secs("-1"), None);
}

#[test]
fn completions_url_normalizes_trailing_slashes() {
    assert_eq!(completions_url("https://openrouter.ai/api/v1"), "https://openrouter.ai/api/v1/chat/completions");
    assert_eq!(completions_url("http://x/api/v1//"), "http://x/api/v1/chat/completions");
    assert_eq!(completions_url(""), "/chat/completions");
}

#[test]
fn http_error_with_request_id_message_and_body() {
    let body = "{\"error\":{\"message\":\" busy \"}}";
    let msg = format_http_error("http://h/chat/completions", 503, "abc", body);
    assert_eq!(
        msg,
        "OpenRouter API error (HTTP 503) when calling http://h/chat/completions (request_id: abc)\nMessage: busy\nBody:\n{\"error\":{\"message\":\" busy \"}}\nHint: upstream/server error; retry later."
    );
}

#[test]
fn http_error_with_plain_error_string() {
    let msg = format_http_error("u", 404, "", "{\"error\":\"nope\"}");
    assert_eq!(
        msg,
        "OpenRouter API error (HTTP 404) when calling u\nMessage: nope\nBody:\n{\"error\":\"nope\"}\nHint: check `--base-url` and the model name (`--model`)."
    );
}

#[test]
fn http_error_without_hint_and_with_long_body() {
    let body = "x".repeat(2500);
    let msg = format_http_error("u", 418, "", &body);
    let expected = format!("OpenRouter API error (HTTP 418) when calling u\nBody:\n{}\n...[truncated]...", "x".repeat(2000));
    assert_eq!(msg, expected);
}

#[test]
fn auth_and_timeout_hints() {
    assert!(format_http_error("u", 401, "", "").ends_with("and that it has access to the model."));
    assert!(format_http_error("u", 408, "", "").ends_with("Hint: the request timed out; try again or use a faster model."));
}

#[test]
fn context_errors_are_recognized_case_insensitively() {
    assert!(is_context_error("This model's maximum Context LENGTH is 8192 tokens"));
    assert!(is_context_error("context_length_exceeded"));
    assert!(!is_context_error("context window too small"));
    assert!(!is_context_error("OpenRouter API error (HTTP 500)"));
}

#[test]
fn jitter_stays_below_fifty_ms() {
    for _ in 0..5 {
        assert!(ra::transport::jitter_ms() < 50);
    }
    assert!(ra::transport::now_millis() > 0);
}
