use basic_cli::http::{
    as_hyper_method, build_hyper_request, header_value_is_text, http_err_other, method_name, request_headers,
    request_timeout, response_result, HttpResponse, HttpTransportErr,
};

fn header(name: &str, value: &str) -> (String, String) {
    (name.to_string(), value.to_string())
}

#[test]
fn method_tags() {
    assert_eq!(as_hyper_method(3, ""), Some(hyper::Method::GET));
    assert_eq!(as_hyper_method(0, ""), Some(hyper::Method::CONNECT));
    assert_eq!(as_hyper_method(9, ""), Some(hyper::Method::TRACE));
    assert_eq!(as_hyper_method(2, "PURGE").unwrap().as_str(), "PURGE");
    assert_eq!(as_hyper_method(2, ""), None);
    assert_eq!(as_hyper_method(2, "BAD METHOD"), None);
    assert_eq!(as_hyper_method(10, ""), None);
    assert_eq!(method_name(7, ""), Some(b"POST".to_vec()));
}

#[test]
fn content_type_defaults_to_text_plain() {
    let headers = request_headers(&vec![header("Accept", "*/*")]);
    assert_eq!(headers, vec![header("Accept", "*/*"), header("Content-Type", "text/plain")]);
    let headers = request_headers(&vec![header("content-TYPE", "application/json")]);
    assert_eq!(headers, vec![header("content-TYPE", "application/json")]);
}

#[test]
fn requests_are_built() {
    let request = build_hyper_request(7, "", "http://example.com/x", &vec![header("X-A", "1")], b"body".to_vec()).unwrap();
    assert_eq!(request.method, b"POST".to_vec());
    assert_eq!(request.uri, "http://example.com/x");
    assert_eq!(request.headers, vec![header("X-A", "1"), header("Content-Type", "text/plain")]);
    assert_eq!(request.body, b"body".to_vec());
    let refused = build_hyper_request(42, "", "http://example.com/", &vec![], vec![]).unwrap_err();
    assert_eq!(refused, "invalid HTTP method");
}

#[test]
fn transport_errors_and_timeouts() {
    assert_eq!(http_err_other("oops"), HttpTransportErr::Other(b"oops".to_vec()));
    assert_eq!(request_timeout(0), None);
    assert_eq!(request_timeout(250), Some(250));
}

#[test]
fn responses_keep_status_headers_and_body() {
    let headers = vec![header("content-length", "2")];
    assert_eq!(
        response_result(404, headers.clone(), Some(b"no".to_vec())),
        Ok(HttpResponse { body: b"no".to_vec(), headers, status: 404 })
    );
    assert_eq!(response_result(200, Vec::new(), None), Err(HttpTransportErr::BadBody));
}

#[test]
fn builder_errors_come_back_as_text() {
    let bad_uri = build_hyper_request(3, "", "http://exa mple.com/", &vec![], vec![]).unwrap_err();
    assert!(!bad_uri.is_empty());
    let bad_header = build_hyper_request(3, "", "http://example.com/", &vec![header("Bad Name", "v")], vec![]).unwrap_err();
    assert!(!bad_header.is_empty());
    let kept = build_hyper_request(2, "PURGE", "http://example.com/", &vec![header("Content-Type", "a/b")], vec![]).unwrap();
    assert_eq!(kept.method, b"PURGE".to_vec());
    assert_eq!(kept.headers, vec![header("Content-Type", "a/b")]);
}

#[test]
fn header_values_read_as_text_only_when_visible_ascii() {
    assert!(header_value_is_text(b"text/plain; charset=utf-8"));
    assert!(header_value_is_text(b"a\tb"));
    assert!(header_value_is_text(b""));
    assert!(!header_value_is_text(b"caf\xc3\xa9"));
    assert!(!header_value_is_text(b"a\x7fb"));
}
