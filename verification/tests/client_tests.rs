use loki_logs::errors::LogError;
use loki_logs::identity::{
    credential_paths, credentials_blob, load_identity, resolve_credential_paths,
};
use loki_logs::order::{stable_sort, LogRecord};
use loki_logs::output::{process_response, render_log, render_output};
use loki_logs::parse::{ordered_log_from_columns, parse_response};
use loki_logs::query::{build_payload, build_selector, default_datasource_uid, LogQuery};

fn rec(timestamp: u64, text: &str) -> LogRecord {
    LogRecord { timestamp, text: text.to_string() }
}

fn texts(records: &[LogRecord]) -> Vec<String> {
    records.iter().map(|r| r.text.clone()).collect()
}

#[test]
fn blob_is_cert_then_key() {
    let blob = credentials_blob(vec![1, 2], vec![3, 4, 5]);
    assert_eq!(blob, vec![1, 2, 3, 4, 5]);
}

#[test]
fn blob_with_empty_parts() {
    assert_eq!(credentials_blob(vec![], vec![7]), vec![7]);
    assert_eq!(credentials_blob(vec![9], vec![]), vec![9]);
    assert_eq!(credentials_blob(vec![], vec![]), Vec::<u8>::new());
}

#[test]
fn selector_substitutes_verbatim() {
    let s = build_selector("staging", "node-1");
    assert_eq!(s, "{namespace=\"staging\", pod=\"node-1\"}");
}

#[test]
fn selector_does_not_escape() {
    let s = build_selector("a\"b", "c}d");
    assert_eq!(s, "{namespace=\"a\"b\", pod=\"c}d\"}");
}

#[test]
fn payload_carries_query_and_constants() {
    let q = LogQuery {
        namespace: "staging".to_string(),
        pod: "node-1".to_string(),
        from: "now-24h".to_string(),
        to: "now".to_string(),
        max_lines: 1000,
        raw: false,
    };
    let uid = default_datasource_uid();
    let p = build_payload(&q, uid.as_str());
    assert_eq!(p.max_lines, 1000);
    assert_eq!(p.expr, "{namespace=\"staging\", pod=\"node-1\"}");
    assert_eq!(p.ref_id, "A");
    assert_eq!(p.query_type, "range");
    assert_eq!(p.datasource_type, "loki");
    assert_eq!(p.datasource_uid, "PCF9DACBDF30E12B3");
    assert_eq!(p.direction, "forward");
    assert_eq!(p.format, "log");
    assert_eq!(p.step, "");
    assert_eq!(p.datasource_id, 24);
    assert_eq!(p.interval_ms, 500);
    assert_eq!(p.max_data_points, 1272);
    assert_eq!(p.from, "now-24h");
    assert_eq!(p.to, "now");
}

#[test]
fn credential_paths_are_deterministic() {
    let (cert, key) = credential_paths("/home/u", "alice", "teleport.parity.io", "parity.io");
    assert_eq!(
        cert,
        "/home/u/.tsh/keys/teleport.parity.io/alice@parity.io-app/teleport.parity.io/grafana.crt"
    );
    assert_eq!(
        key,
        "/home/u/.tsh/keys/teleport.parity.io/alice@parity.io-app/teleport.parity.io/grafana.key"
    );
}

#[test]
fn missing_environment_is_config_error() {
    let r = resolve_credential_paths(None, Some("alice"), "h", "r");
    assert_eq!(r, Err(LogError::ConfigError));
    let r = resolve_credential_paths(Some("/home/u"), None, "h", "r");
    assert_eq!(r, Err(LogError::ConfigError));
    let r = resolve_credential_paths(Some("/home/u"), Some("alice"), "h", "r");
    assert!(r.is_ok());
}

#[test]
fn garbage_credentials_are_tls_error() {
    let blob = credentials_blob(b"not a certificate".to_vec(), b"not a key".to_vec());
    let r = load_identity(&blob);
    assert!(matches!(r, Err(LogError::TlsError)));
}

#[test]
fn sort_orders_by_timestamp() {
    let sorted = stable_sort(vec![rec(200, "c"), rec(100, "a"), rec(300, "b")]);
    assert_eq!(texts(&sorted), vec!["a", "c", "b"]);
    assert_eq!(sorted[0].timestamp, 100);
    assert_eq!(sorted[1].timestamp, 200);
    assert_eq!(sorted[2].timestamp, 300);
}

#[test]
fn sort_keeps_arrival_order_of_equal_timestamps() {
    let sorted = stable_sort(vec![
        rec(5, "first"),
        rec(3, "early"),
        rec(5, "second"),
        rec(5, "third"),
        rec(3, "early-two"),
    ]);
    assert_eq!(
        texts(&sorted),
        vec!["early", "early-two", "first", "second", "third"]
    );
}

#[test]
fn pairing_stops_at_shorter_column() {
    let ts = vec![Some(2), Some(1), Some(3)];
    let tx = vec![Some("b".to_string()), Some("a".to_string())];
    let log = ordered_log_from_columns(ts, tx).unwrap();
    assert_eq!(texts(&log), vec!["a", "b"]);
}

#[test]
fn non_string_text_cells_are_skipped() {
    let ts = vec![Some(2), Some(1), Some(3)];
    let tx = vec![Some("b".to_string()), None, Some("c".to_string())];
    let log = ordered_log_from_columns(ts, tx).unwrap();
    assert_eq!(texts(&log), vec!["b", "c"]);
}

#[test]
fn unrepresentable_timestamp_is_parse_error() {
    let ts = vec![Some(2), None];
    let tx = vec![Some("b".to_string()), Some("a".to_string())];
    assert_eq!(ordered_log_from_columns(ts, tx), Err(LogError::ParseError));
}

#[test]
fn bad_timestamp_beyond_shorter_column_is_ignored() {
    let ts = vec![Some(2), None];
    let tx = vec![Some("b".to_string())];
    let log = ordered_log_from_columns(ts, tx).unwrap();
    assert_eq!(texts(&log), vec!["b"]);
}

#[test]
fn missing_values_path_is_empty_log() {
    let log = parse_response("{\"results\":{\"A\":{\"frames\":[]}}}").unwrap();
    assert!(log.is_empty());
    let log = parse_response("{\"results\":{}}").unwrap();
    assert!(log.is_empty());
    let log = parse_response("{}").unwrap();
    assert!(log.is_empty());
}

#[test]
fn too_few_value_arrays_is_empty_log() {
    let body = "{\"results\":{\"A\":{\"frames\":[{\"data\":{\"values\":[[1],[2]]}}]}}}";
    let log = parse_response(body).unwrap();
    assert!(log.is_empty());
}

#[test]
fn non_json_body_is_parse_error() {
    assert_eq!(parse_response("not json {{{"), Err(LogError::ParseError));
}

#[test]
fn negative_timestamp_is_parse_error() {
    let body =
        "{\"results\":{\"A\":{\"frames\":[{\"data\":{\"values\":[[0],[-5],[\"a\"]]}}]}}}";
    assert_eq!(parse_response(body), Err(LogError::ParseError));
}

#[test]
fn textual_timestamp_is_parse_error() {
    let body =
        "{\"results\":{\"A\":{\"frames\":[{\"data\":{\"values\":[[0],[\"x\"],[\"a\"]]}}]}}}";
    assert_eq!(parse_response(body), Err(LogError::ParseError));
}

#[test]
fn parse_pairs_and_sorts() {
    let body = "{\"results\":{\"A\":{\"frames\":[{\"data\":{\"values\":\
                [[0,0,0],[200,100,300],[\"c\",\"a\",\"b\"]]}}]}}}";
    let log = parse_response(body).unwrap();
    assert_eq!(texts(&log), vec!["a", "c", "b"]);
}

#[test]
fn empty_log_renders_one_notice_line() {
    let lines = render_log(&Vec::new());
    assert_eq!(lines, vec!["No log lines found in the response."]);
}

#[test]
fn raw_output_is_the_body_byte_for_byte() {
    let body = "certainly { not \"valid\" json ]";
    let lines = render_output(true, body, &Vec::new());
    assert_eq!(lines, vec![body]);
    let r = process_response(true, body).unwrap();
    assert_eq!(r, vec![body]);
}

#[test]
fn processing_empty_data_emits_the_notice() {
    let lines = process_response(false, "{}").unwrap();
    assert_eq!(lines, vec!["No log lines found in the response."]);
}

#[test]
fn processing_non_json_fails_without_raw() {
    assert_eq!(
        process_response(false, "not json {{{"),
        Err(LogError::ParseError)
    );
}

#[test]
fn end_to_end_sorted_lines() {
    let q = LogQuery {
        namespace: "staging".to_string(),
        pod: "node-1".to_string(),
        from: "now-24h".to_string(),
        to: "now".to_string(),
        max_lines: 1000,
        raw: false,
    };
    let uid = default_datasource_uid();
    let p = build_payload(&q, uid.as_str());
    assert_eq!(p.expr, "{namespace=\"staging\", pod=\"node-1\"}");
    assert_eq!(p.max_lines, 1000);

    let body = "{\"results\":{\"A\":{\"frames\":[{\"data\":{\"values\":\
                [[0,0,0],[300,100,200],[\"c\",\"a\",\"b\"]]}}]}}}";
    let lines = process_response(q.raw, body).unwrap();
    assert_eq!(lines, vec!["a", "b", "c"]);
}

#[test]
fn error_messages_name_the_failure() {
    assert_eq!(
        LogError::ConfigError.message(),
        "required environment input is not set"
    );
    assert_eq!(LogError::IoError.message(), "credential file could not be read");
    assert_eq!(
        LogError::TlsError.message(),
        "credential bytes are not a valid certificate/key pair"
    );
    assert_eq!(LogError::NetworkError.message(), "request could not be sent");
    assert_eq!(LogError::ParseError.message(), "response could not be parsed");
}
