use paypal::error::Error;
use paypal::request::{build_response, find_header, post_json, Body, Header, HttpReply, Method};

fn response(status: u16, body: &str, url: &str) -> HttpReply {
    HttpReply::Response {
        status,
        body: body.to_string(),
        url: url.to_string(),
    }
}

#[test]
fn test_success_status_yields_body() {
    for status in [200u16, 201, 204, 299] {
        let r = build_response(response(status, "{\"id\":\"x\"}", "https://host/x"));
        assert_eq!(r.unwrap(), "{\"id\":\"x\"}");
    }
}

#[test]
fn test_non_success_status_yields_remote_rejection() {
    for status in [100u16, 199, 300, 301, 404, 500] {
        let r = build_response(response(status, "the raw body", "https://host/x"));
        let err: Error = r.expect_err("a non-2xx response must be an error");
        assert_eq!(err.status, Some(status));
        assert_eq!(err.message, "the raw body");
        assert_eq!(err.remote.as_deref(), Some("https://host/x"));
    }
}

#[test]
fn test_transport_failure_passes_diagnostics_through() {
    let r = build_response(HttpReply::Failure {
        message: "connection refused".to_string(),
        status: None,
        url: None,
    });
    let err = r.expect_err("a transport failure must be an error");
    assert_eq!(err.message, "connection refused");
    assert_eq!(err.status, None);
    assert_eq!(err.remote, None);
}

#[test]
fn test_transport_failure_keeps_what_the_transport_exposed() {
    let r = build_response(HttpReply::Failure {
        message: "decode failed".to_string(),
        status: Some(200),
        url: Some("https://host/y".to_string()),
    });
    let err = r.expect_err("a transport failure must be an error");
    assert_eq!(err.message, "decode failed");
    assert_eq!(err.status, Some(200));
    assert_eq!(err.remote.as_deref(), Some("https://host/y"));
}

#[test]
fn test_post_json_overrides_preset_content_type() {
    let headers = vec![
        Header {
            name: "content-type".to_string(),
            value: "text/plain".to_string(),
        },
        Header {
            name: "X-Trace".to_string(),
            value: "1".to_string(),
        },
        Header {
            name: "Content-Type".to_string(),
            value: "application/xml".to_string(),
        },
    ];
    let r = post_json("https://host/z", headers, "{}".to_string());
    assert!(matches!(r.method, Method::Post));
    assert_eq!(r.headers.len(), 2);
    assert_eq!(r.headers[0].name, "X-Trace");
    assert_eq!(r.headers[0].value, "1");
    assert_eq!(r.headers[1].name, "Content-Type");
    assert_eq!(r.headers[1].value, "application/json");
    match r.body {
        Body::Json(j) => assert_eq!(j, "{}"),
        _ => panic!("post_json must carry a JSON body"),
    }
}

#[test]
fn test_find_header_is_case_insensitive_and_last_wins() {
    let headers = vec![
        Header {
            name: "X-One".to_string(),
            value: "first".to_string(),
        },
        Header {
            name: "x-one".to_string(),
            value: "second".to_string(),
        },
    ];
    assert_eq!(find_header(&headers, "X-ONE").as_deref(), Some("second"));
    assert_eq!(find_header(&headers, "x-two"), None);
}

#[test]
fn test_sent_content_type_is_json() {
    let headers = vec![Header {
        name: "CONTENT-TYPE".to_string(),
        value: "text/csv".to_string(),
    }];
    let r = post_json("https://host/z", headers, "{}".to_string());
    assert_eq!(
        find_header(&r.headers, "content-type").as_deref(),
        Some("application/json")
    );
}

#[test]
fn test_post_json_without_preset_content_type() {
    let headers = vec![Header {
        name: "Authorization".to_string(),
        value: "Bearer T".to_string(),
    }];
    let r = post_json("https://host/z", headers, "{}".to_string());
    assert_eq!(r.headers.len(), 2);
    assert_eq!(r.headers[0].name, "Authorization");
    assert_eq!(r.headers[0].value, "Bearer T");
    assert_eq!(r.headers[1].name, "Content-Type");
    assert_eq!(r.headers[1].value, "application/json");
}
