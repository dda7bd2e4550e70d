//! Publisher behaviour: queueing, batching, flushing against a stub
//! transport, and health-check parsing.

use splunk::errors::SplunkError;
use splunk::hec::HecClient;
use splunk::hec::parse_health_response;

/// Builds a one-entry JSON object like {"a":1} without macros.
fn obj(key: &str, val: i64) -> serde_json::Value {
    let mut m = serde_json::Map::new();
    m.insert(key.to_string(), serde_json::Value::from(val));
    serde_json::Value::Object(m)
}

/// The flush loop a caller runs: drain a batch, render it, hand it to the
/// transport, and account for the verdict. The transport is a closure from
/// payload to HTTP status, so tests can count and fail calls.
fn flush_with<F: FnMut(&str) -> u16>(
    hec: &mut HecClient,
    batch_size: usize,
    transport: &mut F,
) -> Result<usize, SplunkError> {
    let mut sent = 0;
    loop {
        let batch = hec.take_batch(batch_size);
        if batch.is_empty() {
            return Ok(sent);
        }
        let payload = hec.batch_payload(&batch);
        let status = transport(&payload);
        match hec.handle_send_result(batch, status, String::new()) {
            Ok(k) => {
                sent += k;
            }
            Err(e) => return Err(e),
        }
    }
}

#[test]
fn size_counts_enqueues() {
    let mut hec = HecClient::default();
    assert_eq!(hec.queue_size(), 0);
    for i in 0..3 {
        hec.enqueue(&obj("n", i));
    }
    assert_eq!(hec.queue_size(), 3);
}

#[test]
fn flush_empty_queue_makes_no_call() {
    let mut hec = HecClient::default();
    let mut calls = 0;
    let mut transport = |_payload: &str| {
        calls += 1;
        200u16
    };
    let sent = flush_with(&mut hec, 1000, &mut transport).unwrap();
    assert_eq!(sent, 0);
    assert_eq!(calls, 0);
}

#[test]
fn flush_batches_follow_ceiling() {
    let mut hec = HecClient::default();
    for i in 0..5 {
        hec.enqueue(&obj("n", i));
    }
    let mut payloads: Vec<String> = Vec::new();
    let mut transport = |payload: &str| {
        payloads.push(payload.to_string());
        200u16
    };
    let sent = flush_with(&mut hec, 2, &mut transport).unwrap();
    assert_eq!(sent, 5);
    // ceil(5/2) calls, the last carrying 5 mod 2 events
    assert_eq!(payloads.len(), 3);
    assert_eq!(payloads[0].matches("\"event\"").count(), 2);
    assert_eq!(payloads[1].matches("\"event\"").count(), 2);
    assert_eq!(payloads[2].matches("\"event\"").count(), 1);
    assert_eq!(hec.queue_size(), 0);
}

#[test]
fn oversized_batch_goes_in_one_post() {
    let mut hec = HecClient::default();
    for i in 0..3 {
        hec.enqueue(&obj("n", i));
    }
    let mut calls = 0;
    let mut transport = |_payload: &str| {
        calls += 1;
        200u16
    };
    let sent = flush_with(&mut hec, 20, &mut transport).unwrap();
    assert_eq!(sent, 3);
    assert_eq!(calls, 1);
}

#[test]
fn flush_three_events_in_two_posts() {
    let mut hec = HecClient::default();
    hec.enqueue(&obj("a", 1));
    hec.enqueue(&obj("b", 2));
    hec.enqueue(&obj("c", 3));
    let mut payloads: Vec<String> = Vec::new();
    let mut transport = |payload: &str| {
        payloads.push(payload.to_string());
        200u16
    };
    let sent = flush_with(&mut hec, 2, &mut transport).unwrap();
    assert_eq!(sent, 3);
    assert_eq!(payloads.len(), 2);
    assert_eq!(
        payloads[0],
        "{\"event\":{\"a\":1}}\n{\"event\":{\"b\":2}}"
    );
    assert_eq!(payloads[1], "{\"event\":{\"c\":3}}");
}

#[test]
fn failed_flush_loses_no_event() {
    let mut hec = HecClient::default();
    hec.enqueue(&obj("only", 1));
    let mut calls = 0;
    let mut transport = |_payload: &str| {
        calls += 1;
        500u16
    };
    let result = flush_with(&mut hec, 1000, &mut transport);
    assert!(matches!(
        result,
        Err(SplunkError::ServerRejected { status: 500, .. })
    ));
    assert_eq!(calls, 1);
    // the drained batch went back to the head of the queue
    assert_eq!(hec.queue_size(), 1);
    // and a retry delivers it
    let mut ok_transport = |_payload: &str| 200u16;
    assert_eq!(flush_with(&mut hec, 1000, &mut ok_transport).unwrap(), 1);
}

#[test]
fn failure_mid_flush_keeps_undelivered_events() {
    let mut hec = HecClient::default();
    for i in 0..5 {
        hec.enqueue(&obj("n", i));
    }
    let mut calls = 0;
    let mut transport = |_payload: &str| {
        calls += 1;
        if calls == 2 { 503u16 } else { 200u16 }
    };
    let result = flush_with(&mut hec, 2, &mut transport);
    assert!(matches!(result, Err(SplunkError::ServerRejected { status: 503, .. })));
    // two events delivered in the first batch; the other three are still queued
    assert_eq!(hec.queue_size(), 3);
}

#[test]
fn routing_metadata_wraps_every_event() {
    let hec = HecClient::default()
        .with_index("main".to_string())
        .with_sourcetype("json".to_string())
        .with_source("unit-test".to_string());
    let payload = hec.event_payload("{\"a\":1}");
    assert_eq!(
        payload,
        "{\"event\":{\"a\":1},\"index\":\"main\",\"source\":\"unit-test\",\"sourcetype\":\"json\"}"
    );
}

#[test]
fn metadata_values_are_json_escaped() {
    let hec = HecClient::default().with_index("we\"ird\\in\ndex".to_string());
    let payload = hec.event_payload("1");
    assert_eq!(
        payload,
        "{\"event\":1,\"index\":\"we\\\"ird\\\\in\\ndex\"}"
    );
}

#[test]
fn enqueue_serializes_at_enqueue_time() {
    let mut hec = HecClient::default();
    let mut value = obj("a", 1);
    hec.enqueue(&value);
    // mutating the caller's value afterwards must not affect the queue
    if let serde_json::Value::Object(m) = &mut value {
        m.insert("a".to_string(), serde_json::Value::from(99));
    }
    let mut payloads: Vec<String> = Vec::new();
    let mut transport = |payload: &str| {
        payloads.push(payload.to_string());
        200u16
    };
    flush_with(&mut hec, 10, &mut transport).unwrap();
    assert_eq!(payloads, vec!["{\"event\":{\"a\":1}}".to_string()]);
}

#[test]
fn take_batch_drains_oldest_first() {
    let mut hec = HecClient::default();
    hec.enqueue_document("1".to_string());
    hec.enqueue_document("2".to_string());
    hec.enqueue_document("3".to_string());
    let batch = hec.take_batch(2);
    assert_eq!(batch, vec!["1".to_string(), "2".to_string()]);
    assert_eq!(hec.queue_size(), 1);
    hec.restore_batch(batch);
    assert_eq!(hec.queue_size(), 3);
    let all = hec.take_batch(10);
    assert_eq!(all, vec!["1".to_string(), "2".to_string(), "3".to_string()]);
    assert_eq!(hec.queue_size(), 0);
}

#[test]
fn hec_client_new_defaults() {
    let hec = HecClient::new("token".to_string(), "localhost".to_string());
    assert_eq!(hec.serverconfig.hostname, "localhost");
    assert_eq!(hec.serverconfig.port, 8088);
    assert_eq!(hec.serverconfig.token(), Some("token".to_string()));
    assert_eq!(hec.timeout, 60);
}

#[test]
fn collector_url_uses_config() {
    let hec = HecClient::new("t".to_string(), "localhost".to_string());
    assert_eq!(
        hec.collector_url().unwrap(),
        "https://localhost:8088/services/collector"
    );
}

#[test]
fn custom_useragent_is_kept() {
    let mut hec = HecClient::default();
    hec.useragent("splunk-rs-monkeymonkeymonkey".to_string());
    assert_eq!(hec.user_agent, "splunk-rs-monkeymonkeymonkey");
}

#[test]
fn health_check_reports_healthy() {
    let body = "{\"text\":\"HEC is healthy\",\"code\":17}";
    let health = parse_health_response(body).unwrap();
    assert_eq!(health.text, "HEC is healthy");
    assert_eq!(health.code, 17);
    assert!(health.is_healthy());
}

#[test]
fn health_check_tolerates_whitespace() {
    let body = "{ \"text\": \"HEC is healthy\", \"code\": 17 }";
    let health = parse_health_response(body).unwrap();
    assert_eq!(health.text, "HEC is healthy");
    assert_eq!(health.code, 17);
    assert!(health.is_healthy());
}

#[test]
fn health_check_accepts_either_key_order() {
    let health = parse_health_response("{\"code\":17,\"text\":\"HEC is healthy\"}").unwrap();
    assert!(health.is_healthy());
    let health =
        parse_health_response("{ \"code\" : 17 , \"text\" : \"HEC is healthy\" }").unwrap();
    assert!(health.is_healthy());
}

#[test]
fn health_check_mismatch_is_not_healthy() {
    let body = "{\"text\":\"HEC is unhealthy\",\"code\":16}";
    let health = parse_health_response(body).unwrap();
    assert!(!health.is_healthy());
}

#[test]
fn health_check_parse_failure_is_surfaced() {
    assert!(matches!(
        parse_health_response("not json at all"),
        Err(SplunkError::Generic(_))
    ));
    assert!(matches!(
        parse_health_response("{\"text\":\"x\",\"code\":99999999999}"),
        Err(SplunkError::Generic(_))
    ));
}

#[test]
fn health_endpoints() {
    assert_eq!(splunk::hec::health_endpoint(false), "/services/collector/health");
    assert_eq!(
        splunk::hec::health_endpoint(true),
        "/services/collector/health?ack=true"
    );
}
