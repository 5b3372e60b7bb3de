use nginx_epp::adapter::{
    conclude, cstr_to_str, decode_request, runtime_unavailable, ArgText, Outcome,
};
use nginx_epp::headers::{find_header, headers_from_json, Header};
use nginx_epp::selector::get_destination_endpoint;
use nginx_epp::text::{eq_ignore_ascii_case, first_listed_entry};

fn header(name: &str, value: &str) -> Header {
    Header { name: name.to_string(), value: Some(value.to_string()) }
}

fn text(s: &str) -> ArgText {
    ArgText::Text(s.to_string())
}

fn select(headers: &[Header]) -> Result<String, String> {
    get_destination_endpoint("epp.svc", "9000", "POST", headers, b"{}")
}

/// Runs a whole call as the boundary does, with an execution context that starts.
fn call(headers_json: &str, endpoint_slot: bool, error_slot: bool) -> Outcome {
    let req = match decode_request(
        text("epp.svc"),
        text("9000"),
        text("GET"),
        text(headers_json),
        error_slot,
    ) {
        Ok(r) => r,
        Err(o) => return o,
    };
    let res = get_destination_endpoint(&req.host, &req.port, &req.method, &req.headers, &[]);
    conclude(res, endpoint_slot, error_slot)
}

#[test]
fn override_takes_first_entry() {
    let hs = vec![header("test-epp-endpoint-selection", "10.0.0.1:8080,10.0.0.2:8080")];
    assert_eq!(select(&hs), Ok("10.0.0.1:8080".to_string()));
}

#[test]
fn override_skips_blank_entries_and_trims() {
    let hs = vec![header("test-epp-endpoint-selection", " , 10.0.0.2:8080 ,")];
    assert_eq!(select(&hs), Ok("10.0.0.2:8080".to_string()));
}

#[test]
fn override_of_only_commas_fails() {
    let hs = vec![header("test-epp-endpoint-selection", ",")];
    assert_eq!(select(&hs), Err("empty test-epp-endpoint-selection header".to_string()));
    let o = call(r#"{"test-epp-endpoint-selection": ","}"#, true, true);
    assert_eq!(o.status, 12);
    assert_eq!(o.endpoint, None);
    assert_eq!(o.error, Some("empty test-epp-endpoint-selection header".to_string()));
}

#[test]
fn override_empty_string_fails() {
    let hs = vec![header("test-epp-endpoint-selection", "")];
    assert_eq!(select(&hs), Err("empty test-epp-endpoint-selection header".to_string()));
    let o = call(r#"{"test-epp-endpoint-selection": ""}"#, true, true);
    assert_eq!(o.status, 12);
    assert_eq!(o.error, Some("empty test-epp-endpoint-selection header".to_string()));
}

#[test]
fn no_override_names_target() {
    let hs = vec![header("content-type", "application/json")];
    let err = select(&hs).unwrap_err();
    assert!(err.contains("epp.svc:9000"));
    assert_eq!(err, "EPP client not implemented yet (tonic ext_proc). target=epp.svc:9000");
    let o = call(r#"{"content-type": "application/json"}"#, true, true);
    assert_eq!(o.status, 12);
    assert_eq!(o.endpoint, None);
    assert!(o.error.unwrap().contains("epp.svc:9000"));
}

#[test]
fn override_name_matched_in_upper_case() {
    let upper = vec![header("TEST-EPP-ENDPOINT-SELECTION", "10.0.0.1:8080")];
    let lower = vec![header("test-epp-endpoint-selection", "10.0.0.1:8080")];
    assert_eq!(select(&upper), select(&lower));
    assert_eq!(select(&upper), Ok("10.0.0.1:8080".to_string()));
    let o = call(r#"{"Test-Epp-Endpoint-Selection": "10.0.0.3:80"}"#, true, true);
    assert_eq!(o.status, 0);
    assert_eq!(o.endpoint, Some("10.0.0.3:80".to_string()));
}

#[test]
fn malformed_headers_take_default_path() {
    let o = call("{not json", true, true);
    assert_eq!(o.status, 12);
    assert_eq!(o.endpoint, None);
    assert_eq!(
        o.error,
        Some("EPP client not implemented yet (tonic ext_proc). target=epp.svc:9000".to_string())
    );
}

#[test]
fn headers_that_are_not_an_object_are_ignored() {
    assert!(headers_from_json(r#"["test-epp-endpoint-selection"]"#).is_empty());
    assert!(headers_from_json("").is_empty());
    let o = call("42", true, true);
    assert_eq!(o.status, 12);
}

#[test]
fn null_host_rejected() {
    let r = decode_request(ArgText::Null, text("9000"), text("GET"), text("{}"), true);
    let o = match r {
        Err(o) => o,
        Ok(_) => panic!("a null host must be rejected"),
    };
    assert_eq!(o.status, 1);
    assert_eq!(o.endpoint, None);
    assert_eq!(o.error, Some("null pointer for host".to_string()));
}

#[test]
fn invalid_arguments_numbered_in_order() {
    let bad = || ArgText::NotUtf8("bad byte".to_string());
    let cases = [
        (decode_request(bad(), bad(), bad(), bad(), true), 1, "invalid utf8 for host: bad byte"),
        (decode_request(text("h"), ArgText::Null, bad(), bad(), true), 2, "null pointer for port"),
        (decode_request(text("h"), text("p"), ArgText::Null, bad(), true), 3, "null pointer for method"),
        (
            decode_request(text("h"), text("p"), text("m"), bad(), true),
            4,
            "invalid utf8 for headers_json: bad byte",
        ),
    ];
    for (r, status, message) in cases {
        match r {
            Err(o) => {
                assert_eq!(o.status, status);
                assert_eq!(o.endpoint, None);
                assert_eq!(o.error, Some(message.to_string()));
            }
            Ok(_) => panic!("argument error expected"),
        }
    }
}

#[test]
fn rejection_without_error_slot_writes_nothing() {
    match decode_request(text("h"), ArgText::Null, text("m"), text("{}"), false) {
        Err(o) => {
            assert_eq!(o.status, 2);
            assert_eq!(o.endpoint, None);
            assert_eq!(o.error, None);
        }
        Ok(_) => panic!("argument error expected"),
    }
}

#[test]
fn arg_text_decoding() {
    assert_eq!(cstr_to_str(text("abc"), "host"), Ok("abc".to_string()));
    assert_eq!(cstr_to_str(ArgText::Null, "port"), Err("null pointer for port".to_string()));
    assert_eq!(
        cstr_to_str(ArgText::NotUtf8("at 3".to_string()), "method"),
        Err("invalid utf8 for method: at 3".to_string())
    );
}

#[test]
fn runtime_failure_outcome() {
    let o = runtime_unavailable("no threads", true);
    assert_eq!(o.status, 10);
    assert_eq!(o.endpoint, None);
    assert_eq!(o.error, Some("tokio runtime init failed: no threads".to_string()));
    let o = runtime_unavailable("no threads", false);
    assert_eq!(o.status, 10);
    assert_eq!(o.error, None);
}

#[test]
fn missing_endpoint_slot() {
    let o = conclude(Ok("10.0.0.1:8080".to_string()), false, true);
    assert_eq!(o.status, 11);
    assert_eq!(o.endpoint, None);
    assert_eq!(o.error, Some("endpoint_out is null".to_string()));
    let o = conclude(Ok("10.0.0.1:8080".to_string()), false, false);
    assert_eq!(o.status, 11);
    assert_eq!(o.error, None);
}

#[test]
fn exactly_one_output_on_each_path() {
    let outcomes = vec![
        call(r#"{"test-epp-endpoint-selection": "10.0.0.1:8080"}"#, true, true),
        call("{}", true, true),
        call("not json", true, true),
        conclude(Ok("a:1".to_string()), true, true),
        conclude(Err("no".to_string()), true, true),
        runtime_unavailable("x", true),
    ];
    for o in outcomes {
        assert!(o.endpoint.is_some() != o.error.is_some());
        assert_eq!(o.endpoint.is_some(), o.status == 0);
    }
}

#[test]
fn full_call_success() {
    let o = call(r#"{"content-type": "text/plain", "test-epp-endpoint-selection": "10.0.0.1:8080,10.0.0.2:8080"}"#, true, true);
    assert_eq!(o.status, 0);
    assert_eq!(o.endpoint, Some("10.0.0.1:8080".to_string()));
    assert_eq!(o.error, None);
}

#[test]
fn json_headers_read_in_full() {
    let hs = headers_from_json(r#"{"a": "x", "b": 3, "c": null}"#);
    assert_eq!(hs.len(), 3);
    assert_eq!(hs[0].name, "a");
    assert_eq!(hs[0].value, Some("x".to_string()));
    assert_eq!(hs[1].name, "b");
    assert_eq!(hs[1].value, None);
    assert_eq!(hs[2].value, None);
}

#[test]
fn non_string_override_is_not_found() {
    let o = call(r#"{"test-epp-endpoint-selection": 5}"#, true, true);
    assert_eq!(o.status, 12);
    assert!(o.error.unwrap().starts_with("EPP client not implemented yet"));
}

#[test]
fn lookup_passes_over_non_string_match() {
    let hs = vec![
        Header { name: "X-Key".to_string(), value: None },
        header("x-key", "second"),
        header("X-KEY", "third"),
    ];
    assert_eq!(find_header(&hs, "x-key"), Some("second".to_string()));
    assert_eq!(find_header(&hs, "other"), None);
    assert_eq!(find_header(&[], "x-key"), None);
}

#[test]
fn case_folding_is_ascii_only() {
    assert!(eq_ignore_ascii_case("Content-Type", "content-type"));
    assert!(!eq_ignore_ascii_case("content-type", "content-typ"));
    assert!(!eq_ignore_ascii_case("\u{c9}", "\u{e9}"));
    assert!(eq_ignore_ascii_case("", ""));
}

#[test]
fn list_entries_trimmed_of_unicode_space() {
    assert_eq!(first_listed_entry("\u{3000}a:1\u{a0},b"), Some("a:1".to_string()));
    assert_eq!(first_listed_entry(" \t\n , ,\u{2003}"), None);
    assert_eq!(first_listed_entry(""), None);
    assert_eq!(first_listed_entry("x y , z"), Some("x y".to_string()));
    assert_eq!(first_listed_entry(",,,last"), Some("last".to_string()));
}
