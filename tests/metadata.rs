use url_shortener::metadata::{get_remote_addr, get_user_agent, last_address};
use url_shortener::resolver::{classify, lookup_key, request_path, Outcome, StoreReply};
use url_shortener::response::{
    default_redirect_response, not_found_response, redirect_response, service_unavailable,
};
use url_shortener::telemetry::{encode_field, encode_record, generate_request_json};

#[test]
fn remote_addr_takes_last_of_chain() {
    assert_eq!(
        get_remote_addr(Some(b"10.0.0.1, 203.0.113.5".to_vec())).as_deref(),
        Some("203.0.113.5")
    );
}

#[test]
fn remote_addr_single_address() {
    assert_eq!(get_remote_addr(Some(b"10.0.0.1".to_vec())).as_deref(), Some("10.0.0.1"));
}

#[test]
fn remote_addr_absent_header() {
    assert_eq!(get_remote_addr(None), None);
}

#[test]
fn remote_addr_invalid_utf8_is_absent() {
    assert_eq!(get_remote_addr(Some(vec![0xff, 0xfe, 0x31])), None);
}

#[test]
fn remote_addr_trailing_separator_gives_empty() {
    assert_eq!(get_remote_addr(Some(b"10.0.0.1, ".to_vec())).as_deref(), Some(""));
}

#[test]
fn last_address_ignores_comma_without_space() {
    assert_eq!(last_address("a,b, c,d"), "c,d");
    assert_eq!(last_address(""), "");
    assert_eq!(last_address("x"), "x");
}

#[test]
fn user_agent_decoded() {
    assert_eq!(get_user_agent(Some(b"Mozilla/5.0".to_vec())).as_deref(), Some("Mozilla/5.0"));
    assert_eq!(get_user_agent(None), None);
}

#[test]
fn user_agent_invalid_utf8_is_absent() {
    assert_eq!(get_user_agent(Some(vec![0xc3, 0x28])), None);
}

#[test]
fn record_distinguishes_absent_from_empty() {
    let absent = encode_record("h", "p", &None, &None);
    let empty = encode_record("h", "p", &Some(String::new()), &Some(String::new()));
    assert_eq!(absent, "[\"h\",\"p\",null,null]");
    assert_eq!(empty, "[\"h\",\"p\",\"\",\"\"]");
}

#[test]
fn record_escapes_strings() {
    let r = encode_record("h", "a\"b\\c", &Some("x\ny".to_string()), &None);
    assert_eq!(r, "[\"h\",\"a\\\"b\\\\c\",\"x\\ny\",null]");
}

#[test]
fn request_json_from_headers() {
    let r = generate_request_json(
        "short.example",
        "abc123",
        Some(b"10.0.0.1, 203.0.113.5".to_vec()),
        Some(vec![0xff]),
    );
    assert_eq!(r, "[\"short.example\",\"abc123\",\"203.0.113.5\",null]");
}

#[test]
fn path_loses_leading_separator() {
    assert_eq!(request_path("/abc123"), "abc123");
    assert_eq!(request_path("/"), "");
    assert_eq!(request_path(""), "");
    assert_eq!(request_path("/a/b"), "a/b");
}

#[test]
fn key_joins_namespace_host_and_path() {
    assert_eq!(lookup_key("short.example", "abc123"), "r3xx:short.example:abc123");
}

#[test]
fn classify_each_reply() {
    assert!(matches!(classify(StoreReply::Failed), Outcome::StoreError));
    assert!(matches!(classify(StoreReply::Absent), Outcome::Miss));
    assert!(matches!(classify(StoreReply::NotText), Outcome::Miss));
    match classify(StoreReply::Text("u".to_string())) {
        Outcome::Hit(t) => assert_eq!(t, "u"),
        _ => panic!("a string value is a hit"),
    }
}

#[test]
fn builders_have_fixed_statuses() {
    let nf = not_found_response();
    assert_eq!((nf.status, nf.body.as_str()), (404, "404 Not Found"));
    let su = service_unavailable();
    assert_eq!((su.status, su.body.as_str(), su.location), (503, "", None));
    let dr = default_redirect_response("d".to_string());
    assert_eq!((dr.status, dr.location.as_deref()), (307, Some("d")));
    let rr = redirect_response("t".to_string());
    assert_eq!((rr.status, rr.location.as_deref()), (301, Some("t")));
}

#[test]
fn field_encoding_keeps_absent_apart() {
    assert_eq!(encode_field(&None), "null");
    assert_eq!(encode_field(&Some(String::new())), "\"\"");
    assert_eq!(encode_field(&Some("null".to_string())), "\"null\"");
}
