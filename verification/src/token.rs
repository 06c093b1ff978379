//! The token endpoint: exchanging client credentials for a bearer token.

use crate::request::{post, FormField, Header, HttpRequest, Method};
use vstd::prelude::*;

verus! {

/// The base64 image (RFC 4648 standard alphabet, with `=` padding) of the
/// UTF-8 bytes of a character sequence.
pub uninterp spec fn base64_of(s: Seq<char>) -> Seq<char>;

/// Relies on `base64::encode`, which encodes its input bytes with the
/// standard alphabet and `=` padding: the result is a function of the input
/// alone, and the empty input encodes to the empty string.
#[verifier::external_body]
fn b64_encode(input: &str) -> (r: String)
    ensures
        r@ == base64_of(input@),
        input@.len() == 0 ==> r@.len() == 0,
{
    base64::encode(input)
}

/// The credential key that is base64-encoded into the Basic-auth header:
/// the client ID and the secret, joined by a colon.
pub open spec fn credentials_key(id: Seq<char>, secret: Seq<char>) -> Seq<char> {
    id + ":"@ + secret
}

/// Returns the base64 encoding of `id ":" secret`.
pub fn base64_credentials(id: &str, secret: &str) -> (r: String)
    ensures
        r@ == base64_of(credentials_key(id@, secret@)),
{
    let mut key = <String as vstd::string::StringExecFns>::from_str(id);
    vstd::string::StringExecFns::append(&mut key, ":");
    vstd::string::StringExecFns::append(&mut key, secret);
    b64_encode(key.as_str())
}

/// The value of the Basic-auth header for a credential pair: for every
/// valid `(id, secret)` pair it equals `"Basic "` followed by the base64
/// encoding of `id ":" secret`.
pub fn prepare_auth_header(id: &str, secret: &str) -> (r: String)
    ensures
        r@ == "Basic "@ + base64_of(credentials_key(id@, secret@)),
{
    let mut s = <String as vstd::string::StringExecFns>::from_str("Basic ");
    let b = base64_credentials(id, secret);
    vstd::string::StringExecFns::append(&mut s, b.as_str());
    s
}

/// Builds the request that exchanges a client ID and secret for a bearer
/// token: a POST to the token path under `base`, authorized by the
/// Basic-auth header, carrying the form body `grant_type=client_credentials`.
///
/// The reply of the round trip is handed to
/// [`crate::request::build_response`]; the body text of a successful reply
/// decodes as a [`crate::types::ResponseAccessToken`]. Every call builds the
/// header afresh: the library caches no token, and the credentials are not
/// retained beyond this call.
pub fn get_token(base: &str, id: &str, secret: &str) -> (r: HttpRequest)
    ensures
        r.method == Method::Post,
        r.url@ == base@ + "/v1/oauth2/token"@,
        crate::request::hview(r.headers@) == seq![
            ("Authorization"@, "Basic "@ + base64_of(credentials_key(id@, secret@))),
            ("content-type"@, "application/x-www-form-urlencoded"@),
        ],
        r.body matches crate::request::Body::Form(f) && crate::request::fview(f@) == seq![
            ("grant_type"@, "client_credentials"@),
        ],
{
    let ep = crate::make_endpoint(base, "/v1/oauth2/token");
    let auth_header = prepare_auth_header(id, secret);
    let mut headers: Vec<Header> = Vec::new();
    headers.push(
        Header { name: <String as vstd::string::StringExecFns>::from_str("Authorization"), value: auth_header },
    );
    headers.push(
        Header {
            name: <String as vstd::string::StringExecFns>::from_str("content-type"),
            value: <String as vstd::string::StringExecFns>::from_str(
                "application/x-www-form-urlencoded",
            ),
        },
    );
    let mut form: Vec<FormField> = Vec::new();
    form.push(
        FormField {
            name: <String as vstd::string::StringExecFns>::from_str("grant_type"),
            value: <String as vstd::string::StringExecFns>::from_str("client_credentials"),
        },
    );
    proof {
        assert(crate::request::hview(headers@) =~= seq![
            ("Authorization"@, "Basic "@ + base64_of(credentials_key(id@, secret@))),
            ("content-type"@, "application/x-www-form-urlencoded"@),
        ]);
        assert(crate::request::fview(form@) =~= seq![("grant_type"@, "client_credentials"@)]);
    }
    post(ep.as_str(), headers, form)
}

} // verus!
