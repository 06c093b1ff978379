use paypal::request::{Body, Method};
use paypal::{base64_credentials, get_token, prepare_auth_header};

const BASE: &str = "https://api.sandbox.paypal.com";

#[test]
fn test_base64_credentials() {
    assert_eq!(
        "bmlrb3M6cGFzc3dvcmQ=",
        base64_credentials("nikos", "password")
    )
}

#[test]
fn test_prepare_auth_header() {
    assert_eq!(
        "Basic bmlrb3M6cGFzc3dvcmQ=",
        prepare_auth_header("nikos", "password")
    )
}

#[test]
fn test_base64_credentials_empty() {
    // base64 of the single byte ':' with standard padding
    assert_eq!("Og==", base64_credentials("", ""));
}

#[test]
fn test_get_token() {
    let r = get_token(BASE, "my_id", "my_secret");
    assert!(matches!(r.method, Method::Post));
    assert_eq!(r.url, "https://api.sandbox.paypal.com/v1/oauth2/token");
    assert_eq!(r.headers.len(), 2);
    assert_eq!(r.headers[0].name, "Authorization");
    assert_eq!(
        r.headers[0].value,
        format!("Basic {}", base64_credentials("my_id", "my_secret"))
    );
    assert_eq!(r.headers[1].name, "content-type");
    assert_eq!(r.headers[1].value, "application/x-www-form-urlencoded");
    match r.body {
        Body::Form(fields) => {
            assert_eq!(fields.len(), 1);
            assert_eq!(fields[0].name, "grant_type");
            assert_eq!(fields[0].value, "client_credentials");
        }
        _ => panic!("the token request must carry a form body"),
    }
}

#[test]
fn test_basic_auth_header_is_prefixed_encoding() {
    let encoded = base64_credentials("my_id", "my_secret");
    let header = prepare_auth_header("my_id", "my_secret");
    assert_eq!(header, format!("Basic {}", encoded));
    // the encoding is not the raw key handed back unchanged
    assert_ne!(encoded, "my_id:my_secret");
}
