use resonate_plugins::clock::nap;
use resonate_plugins::frame::{fnv1a64_hex, sanitize};
use resonate_plugins::json::Json;
use resonate_plugins::promise::{param_bytes, read_param, Promise};
use resonate_plugins::text::{decimal, digits, int_error_text, parse_i64, quote, trim, IntError};
use resonate_plugins::verdict::Verdict;

#[test]
fn quote_keeps_unreserved_bytes_and_encodes_the_rest() {
    assert_eq!(quote("abc-XYZ_0.9~"), "abc-XYZ_0.9~");
    assert_eq!(quote("a/b c"), "a%2Fb%20c");
    assert_eq!(quote("100%"), "100%25");
    assert_eq!(quote("é"), "%C3%A9");
    assert_eq!(quote(""), "");
}

#[test]
fn trim_drops_surrounding_white_space() {
    assert_eq!(trim("  a b \n"), "a b");
    assert_eq!(trim("\u{3000}x\u{a0}"), "x");
    assert_eq!(trim("   "), "");
}

#[test]
fn decimal_writes_integers() {
    assert_eq!(decimal(0), "0");
    assert_eq!(decimal(-42), "-42");
    assert_eq!(decimal(i64::MIN), "-9223372036854775808");
    assert_eq!(digits(u64::MAX), "18446744073709551615");
}

#[test]
fn parse_reads_what_decimal_writes() {
    for n in [0i64, 7, -7, 1234567890123, i64::MAX, i64::MIN] {
        assert!(parse_i64(&decimal(n)) == Ok(n));
    }
    assert!(parse_i64("+15") == Ok(15));
    assert!(parse_i64("-0") == Ok(0));
    assert!(parse_i64("007") == Ok(7));
}

#[test]
fn parse_reports_each_kind_of_failure() {
    assert!(parse_i64("") == Err(IntError::Empty));
    assert!(parse_i64("-") == Err(IntError::InvalidDigit));
    assert!(parse_i64("12a") == Err(IntError::InvalidDigit));
    assert!(parse_i64(" 1") == Err(IntError::InvalidDigit));
    assert!(parse_i64("9223372036854775808") == Err(IntError::PosOverflow));
    assert!(parse_i64("-9223372036854775809") == Err(IntError::NegOverflow));
    // The overflow comes before the invalid digit that follows it.
    assert!(parse_i64("99999999999999999999x") == Err(IntError::PosOverflow));
    assert!(parse_i64("9x99999999999999999999") == Err(IntError::InvalidDigit));
}

#[test]
fn parse_failures_read_as_std_reports_them() {
    for (text, kind) in [
        ("", IntError::Empty),
        ("x", IntError::InvalidDigit),
        ("99999999999999999999", IntError::PosOverflow),
        ("-99999999999999999999", IntError::NegOverflow),
    ] {
        let std_text = text.parse::<i64>().unwrap_err().to_string();
        assert_eq!(int_error_text(kind), std_text);
        assert!(parse_i64(text) == Err(kind));
    }
}

#[test]
fn fnv1a64_of_known_inputs() {
    assert_eq!(fnv1a64_hex(b""), "cbf29ce484222325");
    assert_eq!(fnv1a64_hex(b"a"), "af63dc4c8601ec8c");
}

#[test]
fn sanitize_keeps_a_readable_id_and_appends_its_digest() {
    assert_eq!(sanitize("abc"), format!("abc-{}", fnv1a64_hex(b"abc")));
    assert_eq!(sanitize("a b/c"), format!("a_b_c-{}", fnv1a64_hex(b"a b/c")));
    let long = "x".repeat(150);
    let s = sanitize(&long);
    assert_eq!(s.len(), 100 + 1 + 16);
    assert!(s.starts_with(&"x".repeat(100)));
}

#[test]
fn sanitize_tells_apart_ids_that_read_alike() {
    assert_ne!(sanitize("a b"), sanitize("a/b"));
    assert!(sanitize("ü").chars().all(|c| c.is_ascii_alphanumeric() || "._-".contains(c)));
}

#[test]
fn nap_never_runs_past_the_deadline() {
    assert_eq!(nap(5_000, 10_000, 0), 5_000);
    assert_eq!(nap(5_000, 10_000, 7_000), 3_000);
    assert_eq!(nap(5_000, 10_000, 12_000), 0);
}

#[test]
fn param_bytes_decodes_base64() {
    let p = Promise {
        id: "p".to_string(),
        timeout_at: 0,
        param_data: Some("eyJmdW5jIjogImEifQ==".to_string()),
    };
    assert_eq!(param_bytes(&p).unwrap(), br#"{"func": "a"}"#.to_vec());
}

#[test]
fn param_bytes_reports_missing_and_malformed_data() {
    let none = Promise { id: "p".to_string(), timeout_at: 0, param_data: None };
    assert_eq!(param_bytes(&none).unwrap_err(), "param has no data");
    let bad = Promise { id: "p".to_string(), timeout_at: 0, param_data: Some("!!".to_string()) };
    assert_eq!(param_bytes(&bad).unwrap_err(), "param.data is not base64");
}

#[test]
fn read_param_defaults_the_args_to_an_empty_object() {
    let param = Json::Object(vec![("func".to_string(), Json::Str("x.y".to_string()))]);
    match read_param(Ok(param)) {
        Ok((f, Json::Object(m))) => {
            assert_eq!(f, "x.y");
            assert!(m.is_empty());
        }
        _ => panic!("expected the func and empty args"),
    }
}

#[test]
fn read_param_rejects_a_func_that_is_not_text() {
    let param = Json::Object(vec![("func".to_string(), Json::Bool(true))]);
    match read_param(Ok(param)) {
        Err(Verdict::Reject(Json::Object(m))) => {
            assert_eq!(m[0].0, "code");
            assert!(matches!(&m[0].1, Json::Str(s) if s == "invalid_request"));
        }
        _ => panic!("expected a rejection"),
    }
}
