use replmux_runtime_cli::client::{
    api_base_url, check_base_url, failure_detail, runtime_endpoint, runtimes_endpoint,
};

#[test]
fn base_urls_get_one_trailing_slash() {
    assert_eq!(api_base_url("http://127.0.0.1:8000").unwrap(), "http://127.0.0.1:8000/");
    assert_eq!(api_base_url("https://h.example/api///").unwrap(), "https://h.example/api/");
}

#[test]
fn base_urls_of_other_schemes_or_no_url_are_refused_as_given() {
    assert_eq!(api_base_url("ftp://h.example/").unwrap_err(), "ftp://h.example/");
    assert_eq!(api_base_url("not a url").unwrap_err(), "not a url");
    assert_eq!(
        check_base_url("x", Some(("file:///".to_owned(), "file".to_owned()))).unwrap_err(),
        "x"
    );
    assert_eq!(
        check_base_url("x", Some(("http://h/".to_owned(), "http".to_owned()))).unwrap(),
        "http://h/"
    );
}

#[test]
fn endpoints_sit_below_the_service_url() {
    let base = api_base_url("http://127.0.0.1:8000/prefix").unwrap();
    assert_eq!(runtimes_endpoint(&base).unwrap(), "http://127.0.0.1:8000/prefix/v1/runtimes");
    assert_eq!(
        runtime_endpoint(&base, "rt_123").unwrap(),
        "http://127.0.0.1:8000/prefix/v1/runtimes/rt_123"
    );
}

#[test]
fn runtime_ids_are_one_encoded_path_segment() {
    let base = api_base_url("http://127.0.0.1:8000").unwrap();
    assert_eq!(
        runtime_endpoint(&base, "a/b c").unwrap(),
        "http://127.0.0.1:8000/v1/runtimes/a%2Fb%20c"
    );
}

#[test]
fn endpoints_of_a_text_that_is_no_url_break_the_expectation() {
    assert_eq!(runtimes_endpoint("not a url"), None);
    assert_eq!(runtime_endpoint("not a url", "rt").unwrap_err(), "static API paths must be valid");
}

#[test]
fn api_error_detail_is_read_from_the_json_body() {
    assert_eq!(
        failure_detail(r#"{"detail":"Runtime not found: rt_missing"}"#),
        "Runtime not found: rt_missing"
    );
    assert_eq!(failure_detail(r#"{"detail":[{"loc":["body"]}]}"#), r#"[{"loc":["body"]}]"#);
    assert_eq!(failure_detail(r#"{"detail":""}"#), r#"{"detail":""}"#);
    assert_eq!(failure_detail("Internal Server Error"), "Internal Server Error");
    assert_eq!(failure_detail(""), "request failed without an error body");
}
