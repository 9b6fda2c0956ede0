use discline::client::{AttemptOutcome, HttpClient, RequestStep, BASE_URL};
use discline::errors::ClientError;

fn response(status: u16, body: &str) -> AttemptOutcome {
    AttemptOutcome::Response { status, retry_after: None, body: body.to_string() }
}

#[test]
fn test_http_client_new() {
    let token = "test-token".to_string();
    let client = HttpClient::new(token.clone());

    assert_eq!(client.token(), &token);
    assert_eq!(client.base_url(), BASE_URL);
}

#[test]
fn test_auth_header() {
    let client = HttpClient::new("test-token".to_string());
    assert_eq!(client.auth_header(), "Bot test-token");
}

#[test]
fn test_request_url_joins_and_trims() {
    let mut client = HttpClient::new("t".to_string());
    assert_eq!(
        client.request_url("/channels/123/messages"),
        "https://discord.com/api/v10/channels/123/messages"
    );
    assert_eq!(client.request_url("guilds/9/channels"), "https://discord.com/api/v10/guilds/9/channels");
    client.set_base_url("http://127.0.0.1:9999".to_string());
    assert_eq!(client.request_url("//x"), "http://127.0.0.1:9999/x");
}

#[test]
fn test_backoff_window() {
    let client = HttpClient::new("t".to_string());
    for attempt in 0..3u32 {
        let base = 1000u64 * (1 << attempt);
        let d = client.backoff_with_jitter(attempt);
        assert!(d >= base && d < base + 100);
    }
}

#[test]
fn test_backoff_delay_exact() {
    let client = HttpClient::new("t".to_string());
    assert_eq!(client.backoff_delay_ms(0, 7), 1007);
    assert_eq!(client.backoff_delay_ms(1, 0), 2000);
    assert_eq!(client.backoff_delay_ms(2, 99), 4099);
}

#[test]
fn test_error_status_mapping() {
    let client = HttpClient::new("t".to_string());
    assert_eq!(
        client.handle_error_status(401, None, String::new()),
        ClientError::Unauthorized
    );
    assert_eq!(client.handle_error_status(403, None, String::new()), ClientError::Forbidden);
    match client.handle_error_status(404, None, String::new()) {
        ClientError::NotFound { resource_type, resource_id } => {
            assert_eq!(resource_type, "Resource");
            assert_eq!(resource_id, "Unknown");
        }
        other => panic!("Expected NotFound, got {:?}", other),
    }
    assert_eq!(
        client.handle_error_status(418, None, "teapot".to_string()),
        ClientError::ApiError { status: 418, message: "teapot".to_string() }
    );
}

#[test]
fn test_rate_limited_carries_retry_after() {
    let client = HttpClient::new("t".to_string());
    assert_eq!(
        client.handle_error_status(429, Some("5".to_string()), String::new()),
        ClientError::RateLimited { retry_after: 5 }
    );
}

#[test]
fn test_rate_limited_defaults_to_one() {
    let client = HttpClient::new("t".to_string());
    assert_eq!(
        client.handle_error_status(429, None, String::new()),
        ClientError::RateLimited { retry_after: 1 }
    );
    assert_eq!(
        client.handle_error_status(429, Some("soon".to_string()), String::new()),
        ClientError::RateLimited { retry_after: 1 }
    );
    assert_eq!(
        client.handle_error_status(429, Some("99999999999999999999".to_string()), String::new()),
        ClientError::RateLimited { retry_after: 1 }
    );
}

#[test]
fn test_rate_limited_is_not_retried() {
    let client = HttpClient::new("t".to_string());
    let outcome = AttemptOutcome::Response {
        status: 429,
        retry_after: Some("5".to_string()),
        body: String::new(),
    };
    let step = client.evaluate_attempt(0, outcome, 0);
    assert_eq!(step, RequestStep::Fail(ClientError::RateLimited { retry_after: 5 }));
}

#[test]
fn test_success_stops_at_once() {
    let client = HttpClient::new("t".to_string());
    let step = client.evaluate_attempt(0, response(200, "{}"), 0);
    assert_eq!(step, RequestStep::Success { body: "{}".to_string() });
}

#[test]
fn test_server_error_retries_with_backoff() {
    let client = HttpClient::new("t".to_string());
    let step = client.evaluate_attempt(1, response(503, ""), 25);
    assert_eq!(step, RequestStep::Retry { delay_ms: 2025 });
}

#[test]
fn test_server_error_on_last_attempt_is_exhausted_retries() {
    let client = HttpClient::new("t".to_string());
    let step = client.evaluate_attempt(2, response(503, "boom"), 0);
    assert_eq!(
        step,
        RequestStep::Fail(ClientError::ApiError {
            status: 500,
            message: "Max retries reached".to_string(),
        })
    );
}

#[test]
fn test_server_errors_exhaust_all_attempts() {
    let client = HttpClient::new("t".to_string());
    let outcomes = vec![response(503, "a"), response(503, "b"), response(503, "c")];
    let jitters = vec![0u64, 0, 0];
    let (step, delays) = client.drive_request(outcomes, &jitters);
    assert_eq!(
        step,
        RequestStep::Fail(ClientError::ApiError {
            status: 500,
            message: "Max retries reached".to_string(),
        })
    );
    assert_eq!(delays, vec![1000u64, 2000]);
}

#[test]
fn test_transport_failures_then_success() {
    let client = HttpClient::new("t".to_string());
    let outcomes = vec![
        AttemptOutcome::Transport("connection refused".to_string()),
        AttemptOutcome::Transport("connection refused".to_string()),
        response(200, "{\"ok\":true}"),
    ];
    let jitters = vec![7u64, 11, 13];
    let (step, delays) = client.drive_request(outcomes, &jitters);
    assert_eq!(step, RequestStep::Success { body: "{\"ok\":true}".to_string() });
    assert_eq!(delays, vec![1007u64, 2011]);
}

#[test]
fn test_transport_failures_exhaust_attempts() {
    let client = HttpClient::new("t".to_string());
    let outcomes = vec![
        AttemptOutcome::Transport("one".to_string()),
        AttemptOutcome::Transport("two".to_string()),
        AttemptOutcome::Transport("three".to_string()),
    ];
    let jitters = vec![0u64, 0, 0];
    let (step, delays) = client.drive_request(outcomes, &jitters);
    assert_eq!(step, RequestStep::Fail(ClientError::Network("three".to_string())));
    assert_eq!(delays, vec![1000u64, 2000]);
}

#[test]
fn test_server_error_then_success() {
    let client = HttpClient::new("t".to_string());
    let body = "{\"id\":2,\"author\":{\"id\":1,\"username\":\"testuser\",\
        \"discriminator\":\"0000\",\"email\":\"test@test.com\"},\"content\":\"Retry test\",\
        \"channel_id\":123,\"timestamp\":\"2026-02-17T12:00:00Z\"}";
    let outcomes = vec![response(500, ""), response(201, body), response(500, "")];
    let jitters = vec![0u64, 0, 0];
    let (step, delays) = client.drive_request(outcomes, &jitters);
    assert_eq!(delays.len(), 1);
    match step {
        RequestStep::Success { body: got } => {
            let message = discline::rest::parse_message_response(&got).unwrap();
            assert_eq!(message.content, "Retry test");
            assert_eq!(message.channel_id.0, 123);
        }
        other => panic!("Expected success, got {:?}", other),
    }
}

#[test]
fn test_terminal_error_stops_without_retry() {
    let client = HttpClient::new("t".to_string());
    let outcomes = vec![response(404, ""), response(200, ""), response(200, "")];
    let jitters = vec![0u64, 0, 0];
    let (step, delays) = client.drive_request(outcomes, &jitters);
    assert!(matches!(step, RequestStep::Fail(ClientError::NotFound { .. })));
    assert_eq!(delays.len(), 0);
}
