//! Response interpretation: consistency-index extraction, the error
//! taxonomy, the decode step, and the compare-and-swap result check.

use consul_client::client::decode_step;
use consul_client::client::interpret_query_response;
use consul_client::client::parse_query_meta;
use consul_client::client::put_succeeded;
use consul_client::client::status_is_success;
use consul_client::client::Client;
use consul_client::client::QueryError;
use consul_client::client::QueryMeta;
use consul_client::client::QueryOption;

#[test]
fn missing_or_malformed_index_header_degrades_to_zero() {
    assert_eq!(parse_query_meta(None).last_index, 0);
    assert_eq!(parse_query_meta(Some(b"")).last_index, 0);
    assert_eq!(parse_query_meta(Some(b"abc")).last_index, 0);
    assert_eq!(parse_query_meta(Some(b"12x")).last_index, 0);
    assert_eq!(parse_query_meta(Some(b"99999999999999999999")).last_index, 0);
}

#[test]
fn present_numeric_index_header_is_read() {
    assert_eq!(parse_query_meta(Some(b"42")).last_index, 42);
    assert_eq!(parse_query_meta(Some(b"0")).last_index, 0);
    assert_eq!(
        parse_query_meta(Some(b"18446744073709551615")).last_index,
        u64::MAX
    );
}

#[test]
fn status_classification_follows_the_2xx_range() {
    assert!(!status_is_success(199));
    assert!(status_is_success(200));
    assert!(status_is_success(204));
    assert!(status_is_success(299));
    assert!(!status_is_success(300));
    assert!(!status_is_success(404));
    assert!(!status_is_success(500));
}

#[test]
fn non_success_becomes_application_error_with_observed_meta_and_body() {
    let out = interpret_query_response(500, Some(b"42"), b"oops".to_vec());
    match out {
        Err(QueryError::ApplicationError(status, meta, body)) => {
            assert_eq!(status, 500);
            assert_eq!(meta.last_index, 42);
            assert_eq!(body, b"oops".to_vec());
        }
        other => panic!("expected an application error, got {:?}", other),
    }
}

#[test]
fn non_success_without_header_still_reports_index_zero() {
    let out = interpret_query_response(404, None, b"".to_vec());
    match out {
        Err(QueryError::ApplicationError(status, meta, body)) => {
            assert_eq!(status, 404);
            assert_eq!(meta.last_index, 0);
            assert_eq!(body, b"".to_vec());
        }
        other => panic!("expected an application error, got {:?}", other),
    }
}

#[test]
fn success_passes_meta_and_body_through() {
    let out = interpret_query_response(200, Some(b"7"), b"[]".to_vec());
    match out {
        Ok((meta, body)) => {
            assert_eq!(meta.last_index, 7);
            assert_eq!(body, b"[]".to_vec());
        }
        other => panic!("expected success, got {:?}", other),
    }
}

#[test]
fn decode_step_pairs_meta_with_the_decoded_value() {
    let meta = QueryMeta { last_index: 9 };
    let out: Result<(QueryMeta, Vec<u32>), QueryError> = decode_step(meta, Ok(vec![1, 2, 3]));
    match out {
        Ok((m, v)) => {
            assert_eq!(m.last_index, 9);
            assert_eq!(v, vec![1, 2, 3]);
        }
        other => panic!("expected success, got {:?}", other),
    }
}

#[test]
fn decode_step_surfaces_the_decoder_report_as_decode_failure() {
    let meta = QueryMeta { last_index: 9 };
    let out: Result<(QueryMeta, u32), QueryError> =
        decode_step(meta, Err(String::from("expected a number")));
    match out {
        Err(QueryError::DecodeFailure(msg)) => assert_eq!(msg, "expected a number"),
        other => panic!("expected a decode failure, got {:?}", other),
    }
}

#[test]
fn transport_failures_carry_their_cause() {
    let err = QueryError::TransportFailure(String::from("connection refused"));
    match err {
        QueryError::TransportFailure(msg) => assert_eq!(msg, "connection refused"),
        other => panic!("expected a transport failure, got {:?}", other),
    }
}

#[test]
fn cas_succeeds_only_on_success_status_with_exact_true_body() {
    assert!(put_succeeded(200, b"true"));
    assert!(put_succeeded(299, b"true"));
    assert!(!put_succeeded(200, b"false"));
    assert!(!put_succeeded(200, b""));
    assert!(!put_succeeded(200, b"TRUE"));
    assert!(!put_succeeded(200, b"true\n"));
    assert!(!put_succeeded(200, b"truex"));
    assert!(!put_succeeded(300, b"true"));
    assert!(!put_succeeded(500, b"true"));
}

#[test]
fn watch_loop_may_reissue_the_same_index_after_an_unchanged_response() {
    let c = Client::new(b"http://h".to_vec(), None);
    let meta = parse_query_meta(Some(b"42"));
    assert_eq!(meta.last_index, 42);

    let options = |index: u64| QueryOption {
        wait_index: index,
        wait_time: Some(10),
        dc: None,
        tag: None,
    };
    let first = c.build_url(&c.kv_get(b"test", Some(options(meta.last_index))));

    // The watched value did not change: the response repeats index 42, and
    // the loop's next query carries the same index again, a valid no-op
    // retry rather than an error.
    let out = interpret_query_response(200, Some(b"42"), b"[]".to_vec());
    let next_meta = match out {
        Ok((m, _)) => m,
        other => panic!("expected success, got {:?}", other),
    };
    assert_eq!(next_meta.last_index, 42);
    let second = c.build_url(&c.kv_get(b"test", Some(options(next_meta.last_index))));
    assert_eq!(first, second);
    let tail = b"index=42&wait=10s";
    assert!(second.windows(tail.len()).any(|w| w == tail));
}
