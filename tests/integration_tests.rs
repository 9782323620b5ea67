use kuack_checker::{begin_check, Metrics, Outcome};

async fn measure(url: &str) -> Metrics {
    let pending = match begin_check(url) {
        Ok(p) => p,
        Err(m) => return m,
    };
    let client = reqwest::Client::builder()
        .build()
        .expect("Failed to build reqwest client");
    let outcome = match client.get(url).send().await {
        Ok(response) => Outcome::Responded(response.status().as_u16()),
        Err(e) => Outcome::TransportFailed(e.to_string()),
    };
    pending.complete(outcome)
}

fn runtime() -> tokio::runtime::Runtime {
    tokio::runtime::Builder::new_multi_thread()
        .enable_all()
        .build()
        .expect("Failed to create runtime")
}

// A GET to a server that answers 200 and one that answers 404: the outcomes
// such servers give, handed to the check as the request would hand them.
#[test]
fn scenario_ok_response() {
    let url = "http://127.0.0.1:8080/ok";
    let pending = match begin_check(url) {
        Ok(p) => p,
        Err(_) => panic!("an absolute URL must be accepted"),
    };
    let metrics = pending.complete(Outcome::Responded(200));

    assert!(metrics.success);
    assert!(metrics.error.is_none());
    assert_eq!(metrics.url, url);
    assert!(metrics.total_time_ns as f64 / 1_000_000.0 >= 0.0);
}

#[test]
fn scenario_missing_response() {
    let url = "http://127.0.0.1:8080/missing";
    let pending = match begin_check(url) {
        Ok(p) => p,
        Err(_) => panic!("an absolute URL must be accepted"),
    };
    let metrics = pending.complete(Outcome::Responded(404));

    assert!(!metrics.success);
    assert!(metrics.error.is_some());
    assert_eq!(metrics.error.as_deref(), Some("HTTP 404"));
}

#[test]
fn test_measure_endpoint_invalid_url() {
    runtime().block_on(async {
        let url = "invalid-url";
        let metrics = measure(url).await;

        assert!(!metrics.success);
        assert_eq!(metrics.total_time_ns, 0);
        assert!(metrics.error.is_some());
        assert!(metrics.error.unwrap().contains("Invalid URL"));
    });
}

#[test]
fn test_measure_endpoint_connection_error() {
    runtime().block_on(async {
        // Port 1 is reserved and closed.
        let url = "http://127.0.0.1:1";

        let metrics = measure(url).await;

        assert!(!metrics.success);
        assert!(metrics.error.is_some());
        // A connection error is the transport's text, not an HTTP status.
        assert!(!metrics.error.as_ref().unwrap().starts_with("HTTP"));
    });
}
