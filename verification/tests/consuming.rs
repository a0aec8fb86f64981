use urlfetch::errors::FetchError;
use urlfetch::check_status;
use urlfetch::errors::decimal_string;
use urlfetch::parse_url;
use urlfetch::preview;
use urlfetch::save_target;

#[test]
fn preview_truncates_long_body() {
    let body = "a".repeat(250);
    let mut expected = "a".repeat(200);
    expected.push_str("...");
    assert_eq!(preview(&body), expected);
}

#[test]
fn preview_counts_characters_not_bytes() {
    let body = "é".repeat(250);
    let mut expected = "é".repeat(200);
    expected.push_str("...");
    assert_eq!(preview(&body), expected);
}

#[test]
fn preview_of_exactly_200_chars() {
    let body = "x".repeat(200);
    let mut expected = "x".repeat(200);
    expected.push_str("...");
    assert_eq!(preview(&body), expected);
}

#[test]
fn preview_of_short_body() {
    assert_eq!(preview("ok"), "ok...");
}

#[test]
fn preview_of_empty_body() {
    assert_eq!(preview(""), "...");
}

#[test]
fn status_gate_accepts_success_range() {
    assert!(check_status(200).is_ok());
    assert!(check_status(204).is_ok());
    assert!(check_status(299).is_ok());
}

#[test]
fn status_gate_rejects_other_codes() {
    assert!(matches!(check_status(199), Err(FetchError::HttpError { code: 199 })));
    assert!(matches!(check_status(300), Err(FetchError::HttpError { code: 300 })));
    assert!(matches!(check_status(404), Err(FetchError::HttpError { code: 404 })));
    assert!(matches!(check_status(500), Err(FetchError::HttpError { code: 500 })));
}

#[test]
fn save_target_names_file_on_success() {
    let u = parse_url("https://example.com/a/b/report.csv").expect("should parse");
    assert_eq!(save_target(&u, 200).expect("2xx is a success status"), "report.csv");
}

#[test]
fn save_target_rejects_not_found() {
    let u = parse_url("https://example.com/a/b/report.csv").expect("should parse");
    assert!(matches!(save_target(&u, 404), Err(FetchError::HttpError { code: 404 })));
}

#[test]
fn decimal_renders_zero() {
    assert_eq!(decimal_string(0), "0");
}

#[test]
fn decimal_renders_one_digit() {
    assert_eq!(decimal_string(7), "7");
}

#[test]
fn decimal_renders_many_digits() {
    assert_eq!(decimal_string(404), "404");
    assert_eq!(decimal_string(65535), "65535");
}

#[test]
fn diagnostic_for_http_error() {
    let e = FetchError::HttpError { code: 404 };
    assert_eq!(e.diagnostic_line(), "Operation failed: Request failed with status: 404");
}

#[test]
fn diagnostic_for_malformed_url() {
    let e = FetchError::MalformedUrl { input: String::from("not a url") };
    assert_eq!(e.diagnostic_line(), "Operation failed: This is not Url format: not a url");
}

#[test]
fn diagnostic_for_io_failure() {
    let e = FetchError::IoFailure { detail: String::from("connection reset") };
    assert_eq!(e.diagnostic_line(), "Operation failed: Saving the body failed: connection reset");
}

#[test]
fn diagnostic_for_decode_failure() {
    let e = FetchError::DecodeFailure;
    assert_eq!(e.message(), "Response body is not valid text");
}

#[test]
fn diagnostic_for_network_failure() {
    let e = FetchError::NetworkFailure { detail: String::from("dns error") };
    assert_eq!(e.diagnostic_line(), "Operation failed: Network request failed: dns error");
}

#[test]
fn diagnostic_for_file_create_failure() {
    let e = FetchError::FileCreateFailure { detail: String::from("permission denied") };
    assert_eq!(e.message(), "Could not create file: permission denied");
}
