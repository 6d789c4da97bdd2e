use jarvix::parallel::{
    count_successes, download_once, download_with_retry, Attempt, DownloadResult, ParallelConfig,
    RetryStep,
};

fn finished(step: RetryStep) -> DownloadResult {
    match step {
        RetryStep::Finish { result } => result,
        RetryStep::Retry { .. } => panic!("another try was asked for"),
    }
}

fn retried(step: RetryStep) -> (usize, u64) {
    match step {
        RetryStep::Retry { attempt, delay_ms } => (attempt, delay_ms),
        RetryStep::Finish { .. } => panic!("the download ended"),
    }
}

#[test]
fn default_configuration() {
    let config = ParallelConfig::default();
    assert_eq!(config.max_concurrent, 100);
    assert_eq!(config.timeout_secs, 30);
    assert_eq!(config.max_retries, 3);
}

#[test]
fn successful_answer_is_a_success() {
    let attempt = Attempt::Response { status: 200, body: Some("<html>test</html>".to_string()) };
    let result = download_once("https://example.com", attempt, 100).unwrap();
    assert_eq!(result.url, "https://example.com");
    assert!(result.success);
    assert_eq!(result.content.as_deref(), Some("<html>test</html>"));
    assert_eq!(result.status_code, Some(200));
    assert_eq!(result.error, None);
    assert_eq!(result.duration_ms, 100);
}

#[test]
fn other_status_is_a_failure_with_its_code() {
    let attempt = Attempt::Response { status: 404, body: None };
    let result = download_once("https://example.com/x", attempt, 7).unwrap();
    assert!(!result.success);
    assert_eq!(result.content, None);
    assert_eq!(result.status_code, Some(404));
    assert_eq!(result.error.as_deref(), Some("HTTP 404"));
    assert_eq!(result.duration_ms, 7);
    let attempt = Attempt::Response { status: 301, body: Some("moved".to_string()) };
    let result = download_once("u", attempt, 0).unwrap();
    assert!(!result.success);
    assert_eq!(result.error.as_deref(), Some("HTTP 301"));
    let attempt = Attempt::Response { status: 199, body: None };
    assert_eq!(download_once("u", attempt, 0).unwrap().error.as_deref(), Some("HTTP 199"));
    let attempt = Attempt::Response { status: 299, body: Some(String::new()) };
    assert!(download_once("u", attempt, 0).unwrap().success);
}

#[test]
fn unread_body_and_failed_request_are_errors() {
    let attempt = Attempt::Response { status: 200, body: None };
    assert_eq!(download_once("u", attempt, 1).unwrap_err(), "Failed to read response body");
    let attempt = Attempt::Failed { error: "connection refused".to_string() };
    assert_eq!(download_once("u", attempt, 1).unwrap_err(), "connection refused");
}

#[test]
fn success_ends_the_download_at_once() {
    let ok = download_once("u", Attempt::Response { status: 200, body: Some("b".into()) }, 5);
    let result = finished(download_with_retry("u", 0, 3, ok, 5));
    assert!(result.success);
    assert_eq!(result.duration_ms, 5);
}

#[test]
fn failure_is_tried_again_until_the_last_try() {
    let failed = |code: u16| download_once("u", Attempt::Response { status: code, body: None }, 5);
    assert_eq!(retried(download_with_retry("u", 0, 3, failed(500), 9)), (1, 100));
    assert_eq!(retried(download_with_retry("u", 1, 3, failed(500), 9)), (2, 200));
    assert_eq!(retried(download_with_retry("u", 2, 3, failed(500), 9)), (3, 300));
    let result = finished(download_with_retry("u", 3, 3, failed(503), 9));
    assert!(!result.success);
    assert_eq!(result.status_code, Some(503));
    assert_eq!(result.error.as_deref(), Some("HTTP 503"));
    assert_eq!(result.duration_ms, 5);
    // no retries allowed
    let result = finished(download_with_retry("u", 0, 0, failed(500), 9));
    assert_eq!(result.status_code, Some(500));
}

#[test]
fn error_on_the_last_try_becomes_a_failure() {
    let error = || download_once("u", Attempt::Failed { error: "timed out".to_string() }, 1);
    assert_eq!(retried(download_with_retry("https://x.example", 0, 1, error(), 40)), (1, 100));
    let result = finished(download_with_retry("https://x.example", 1, 1, error(), 250));
    assert_eq!(result.url, "https://x.example");
    assert!(!result.success);
    assert_eq!(result.content, None);
    assert_eq!(result.status_code, None);
    assert_eq!(result.error.as_deref(), Some("timed out"));
    assert_eq!(result.duration_ms, 250);
}

#[test]
fn successes_are_counted() {
    let make = |success: bool| DownloadResult {
        url: "u".to_string(),
        success,
        content: None,
        status_code: None,
        error: None,
        duration_ms: 0,
    };
    assert_eq!(count_successes(&vec![]), 0);
    assert_eq!(count_successes(&vec![make(true), make(false), make(true)]), 2);
    let copy = make(true).duplicate();
    assert!(copy.success);
    assert_eq!(copy.url, "u");
}

#[test]
fn test_parallel_download() {
    let config = ParallelConfig { max_concurrent: 10, timeout_secs: 10, max_retries: 1 };

    let urls = vec!["https://httpbin.org/html".to_string(), "https://httpbin.org/json".to_string()];

    // no network here: every try fails, and each URL still ends with a result
    let mut results = Vec::new();
    for url in &urls {
        let mut attempt = 0;
        loop {
            let outcome = download_once(url, Attempt::Failed { error: "offline".to_string() }, 0);
            match download_with_retry(url, attempt, config.max_retries, outcome, 0) {
                RetryStep::Finish { result } => {
                    results.push(result);
                    break;
                }
                RetryStep::Retry { attempt: next, .. } => attempt = next,
            }
        }
    }
    assert_eq!(results.len(), 2);
    assert_eq!(count_successes(&results), 0);
}

#[test]
fn pause_grows_with_the_tries_and_never_overflows() {
    let failed = || download_once("u", Attempt::Response { status: 500, body: None }, 5);
    assert_eq!(retried(download_with_retry("u", 9, 20, failed(), 0)), (10, 1000));
    let far = usize::MAX - 1;
    assert_eq!(retried(download_with_retry("u", far - 1, far, failed(), 0)), (far, u64::MAX));
    // a try beyond the last one ends the download as the last one does
    let result = finished(download_with_retry("u", 7, 3, failed(), 0));
    assert_eq!(result.status_code, Some(500));
}
