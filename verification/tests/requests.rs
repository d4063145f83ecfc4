//! Request construction: percent-encoding, base normalization, parameter
//! ordering of blocking queries, and the per-endpoint paths.

use consul_client::client::build_query_string;
use consul_client::client::apply_query_options;
use consul_client::client::Client;
use consul_client::client::Method;
use consul_client::client::QueryOption;
use consul_client::decimal::parse_decimal_u64;
use consul_client::decimal::u64_to_decimal;
use consul_client::encoding::percent_encode;
use consul_client::encoding::strip_leading_slashes;

fn no_options() -> Option<QueryOption> {
    None
}

#[test]
fn percent_encode_keeps_unreserved_bytes() {
    let input = b"AZaz09-_.~";
    assert_eq!(percent_encode(input), input.to_vec());
}

#[test]
fn percent_encode_escapes_reserved_query_bytes() {
    assert_eq!(percent_encode(b"a b&c=d?#"), b"a%20b%26c%3Dd%3F%23".to_vec());
    assert_eq!(percent_encode(b"/"), b"%2F".to_vec());
    assert_eq!(percent_encode(b"\xff"), b"%FF".to_vec());
    assert_eq!(percent_encode(b""), b"".to_vec());
}

#[test]
fn strip_leading_slashes_removes_all_leading_separators() {
    assert_eq!(strip_leading_slashes(b"/foo/bar"), b"foo/bar".to_vec());
    assert_eq!(strip_leading_slashes(b"///x"), b"x".to_vec());
    assert_eq!(strip_leading_slashes(b"foo"), b"foo".to_vec());
    assert_eq!(strip_leading_slashes(b"///"), b"".to_vec());
}

#[test]
fn u64_renders_as_decimal_digits() {
    assert_eq!(u64_to_decimal(0), b"0".to_vec());
    assert_eq!(u64_to_decimal(5), b"5".to_vec());
    assert_eq!(u64_to_decimal(12345), b"12345".to_vec());
    assert_eq!(u64_to_decimal(u64::MAX), b"18446744073709551615".to_vec());
}

#[test]
fn decimal_parsing_accepts_exactly_digit_strings_in_range() {
    assert_eq!(parse_decimal_u64(b"42"), Some(42));
    assert_eq!(parse_decimal_u64(b"0"), Some(0));
    assert_eq!(parse_decimal_u64(b"18446744073709551615"), Some(u64::MAX));
    assert_eq!(parse_decimal_u64(b""), None);
    assert_eq!(parse_decimal_u64(b"4a2"), None);
    assert_eq!(parse_decimal_u64(b"+42"), None);
    assert_eq!(parse_decimal_u64(b"18446744073709551616"), None);
}

#[test]
fn new_client_normalizes_base_url() {
    let c = Client::new(b"http://127.0.0.1:8500".to_vec(), None);
    assert_eq!(c.base, b"http://127.0.0.1:8500/".to_vec());
    let d = Client::new(b"http://127.0.0.1:8500/".to_vec(), None);
    assert_eq!(d.base, b"http://127.0.0.1:8500/".to_vec());
}

#[test]
fn url_is_base_path_and_encoded_query_string() {
    let c = Client::new(b"http://h".to_vec(), None);
    let req = c.agent_check_pass(b"web-1", b"all good");
    let url = c.build_url(&req);
    assert_eq!(
        url,
        b"http://h//v1/agent/check/pass/web-1?note=all%20good".to_vec()
    );
}

#[test]
fn query_string_joins_pairs_in_order() {
    let params = vec![
        (b"a".to_vec(), b"1".to_vec()),
        (b"b".to_vec(), b"2 3".to_vec()),
        (b"c".to_vec(), b"".to_vec()),
    ];
    assert_eq!(build_query_string(&params), b"a=1&b=2%203&c=".to_vec());
}

#[test]
fn blocking_query_parameters_come_in_fixed_order() {
    let qo = QueryOption {
        wait_index: 7,
        wait_time: Some(30),
        dc: Some(b"dc1".to_vec()),
        tag: Some(b"primary".to_vec()),
    };
    let mut params: Vec<(Vec<u8>, Vec<u8>)> = Vec::new();
    apply_query_options(&mut params, Some(qo));
    let qs = build_query_string(&params);
    assert_eq!(qs, b"dc=dc1&tag=primary&index=7&wait=30s".to_vec());
}

#[test]
fn same_options_give_byte_identical_query_strings() {
    let make = || QueryOption {
        wait_index: 9,
        wait_time: Some(10),
        dc: Some(b"dc1".to_vec()),
        tag: None,
    };
    let c = Client::new(b"http://h".to_vec(), None);
    let first = c.build_url(&c.kv_get(b"k", Some(make())));
    let second = c.build_url(&c.kv_get(b"k", Some(make())));
    assert_eq!(first, second);
}

#[test]
fn wait_time_serializes_as_whole_seconds_with_unit() {
    let qo = QueryOption { wait_index: 0, wait_time: Some(5), dc: None, tag: None };
    let mut params: Vec<(Vec<u8>, Vec<u8>)> = Vec::new();
    apply_query_options(&mut params, Some(qo));
    assert_eq!(params.len(), 1);
    assert_eq!(params[0].0, b"wait".to_vec());
    assert_eq!(params[0].1, b"5s".to_vec());
}

#[test]
fn zero_wait_index_is_never_emitted() {
    let qo = QueryOption {
        wait_index: 0,
        wait_time: Some(5),
        dc: Some(b"dc1".to_vec()),
        tag: Some(b"t".to_vec()),
    };
    let mut params: Vec<(Vec<u8>, Vec<u8>)> = Vec::new();
    apply_query_options(&mut params, Some(qo));
    assert!(params.iter().all(|p| p.0 != b"index".to_vec()));
    let qo = QueryOption { wait_index: 3, wait_time: None, dc: None, tag: None };
    let mut params: Vec<(Vec<u8>, Vec<u8>)> = Vec::new();
    apply_query_options(&mut params, Some(qo));
    assert_eq!(params.len(), 1);
    assert_eq!(params[0].0, b"index".to_vec());
    assert_eq!(params[0].1, b"3".to_vec());
}

#[test]
fn kv_keys_with_and_without_leading_slash_name_the_same_path() {
    let c = Client::new(b"http://h".to_vec(), None);
    let with_slash = c.kv_get(b"/foo/bar", no_options());
    let without = c.kv_get(b"foo/bar", no_options());
    assert_eq!(with_slash.path, b"/v1/kv/foo/bar".to_vec());
    assert_eq!(with_slash.path, without.path);
}

#[test]
fn kv_get_without_options_has_no_parameters() {
    let c = Client::new(b"http://h".to_vec(), None);
    let req = c.kv_get(b"test", no_options());
    assert!(matches!(req.method, Method::Get));
    assert_eq!(req.params.len(), 0);
    assert!(req.body.is_none());
    assert_eq!(c.build_url(&req), b"http://h//v1/kv/test?".to_vec());
}

#[test]
fn kv_list_and_kv_keys_carry_their_markers() {
    let c = Client::new(b"http://h".to_vec(), None);
    let list = c.kv_list(b"app/", no_options());
    assert_eq!(list.params, vec![(b"recurse".to_vec(), b"".to_vec())]);
    assert_eq!(list.path, b"/v1/kv/app/".to_vec());
    let keys = c.kv_keys(b"app/", no_options());
    assert_eq!(keys.params, vec![(b"keys".to_vec(), b"".to_vec())]);
}

#[test]
fn kv_put_is_an_unconditional_put_of_the_value() {
    let c = Client::new(b"http://h".to_vec(), None);
    let req = c.kv_put(b"k", b"payload");
    assert!(matches!(req.method, Method::Put));
    assert_eq!(req.params.len(), 0);
    assert_eq!(req.body, Some(b"payload".to_vec()));
}

#[test]
fn kv_cas_adds_the_expected_index_as_its_single_parameter() {
    let c = Client::new(b"http://h".to_vec(), None);
    let req = c.kv_cas(b"k", b"v", 42);
    assert!(matches!(req.method, Method::Put));
    assert_eq!(req.path, b"/v1/kv/k".to_vec());
    assert_eq!(req.params, vec![(b"cas".to_vec(), b"42".to_vec())]);
    assert_eq!(req.body, Some(b"v".to_vec()));
}

#[test]
fn agent_endpoints_use_their_documented_paths() {
    let c = Client::new(b"http://h".to_vec(), None);
    let pass = c.agent_check_pass(b"web-1", b"ok");
    assert_eq!(pass.path, b"/v1/agent/check/pass/web-1".to_vec());
    assert_eq!(pass.params, vec![(b"note".to_vec(), b"ok".to_vec())]);
    assert!(matches!(pass.method, Method::Put));

    let reg = c.agent_service_register(b"{}".to_vec());
    assert_eq!(reg.path, b"v1/agent/service/register".to_vec());
    assert_eq!(reg.body, Some(b"{}".to_vec()));
    assert_eq!(reg.params.len(), 0);

    let dereg = c.agent_service_deregister(b"web-1");
    assert_eq!(dereg.path, b"/v1/agent/service/deregister/web-1".to_vec());
    assert!(dereg.body.is_none());
}

#[test]
fn catalog_service_puts_the_tag_filter_before_query_options() {
    let c = Client::new(b"http://h".to_vec(), None);
    let qo = QueryOption {
        wait_index: 0,
        wait_time: None,
        dc: Some(b"dc1".to_vec()),
        tag: None,
    };
    let req = c.catalog_service(b"web", b"primary", Some(qo));
    assert!(matches!(req.method, Method::Get));
    assert_eq!(req.path, b"/v1/catalog/service/web".to_vec());
    assert_eq!(
        req.params,
        vec![
            (b"tag".to_vec(), b"primary".to_vec()),
            (b"dc".to_vec(), b"dc1".to_vec()),
        ]
    );
}
