//! The payment endpoints: creating, listing and executing payments.

use crate::json::{json_new_payment, json_string};
use crate::request::{
    get, hview, post_json, without_name, Body, Header, HttpRequest, Method,
};
use crate::text::lower;
use crate::types::{
    Payer, PaymentIntent, PaymentMethod, RedirectUrls, RequestNewPayment, Transaction,
};
use vstd::prelude::*;

verus! {

/// The single header of a bearer-authorized request:
/// `Authorization: Bearer <token>`.
fn bearer_headers(bearer: &str) -> (r: Vec<Header>)
    ensures
        hview(r@) == seq![("Authorization"@, "Bearer "@ + bearer@)],
{
    let mut value = <String as vstd::string::StringExecFns>::from_str("Bearer ");
    vstd::string::StringExecFns::append(&mut value, bearer);
    let mut headers: Vec<Header> = Vec::new();
    headers.push(
        Header {
            name: <String as vstd::string::StringExecFns>::from_str("Authorization"),
            value,
        },
    );
    proof {
        assert(hview(headers@) =~= seq![("Authorization"@, "Bearer "@ + bearer@)]);
    }
    headers
}

/// An `Authorization` entry survives the content-type override: the two
/// names differ even case-insensitively.
proof fn lemma_auth_survives_content_type(v: Seq<char>)
    ensures
        without_name(seq![("Authorization"@, v)], lower("Content-Type"@)) == seq![
            ("Authorization"@, v),
        ],
{
    reveal_strlit("Authorization");
    reveal_strlit("Content-Type");
    assert(lower("Authorization"@).len() == 13);
    assert(lower("Content-Type"@).len() == 12);
    reveal_with_fuel(Seq::filter, 3);
    assert(seq![("Authorization"@, v)].drop_last() =~= Seq::<(Seq<char>, Seq<char>)>::empty());
    assert(without_name(seq![("Authorization"@, v)], lower("Content-Type"@)) =~= seq![
        ("Authorization"@, v),
    ]);
}

/// Builds the request that creates a new payment: a POST to the payment
/// collection under `base`, authorized as `Bearer <token>`, whose JSON body
/// carries the intent, a payer holding only the payment method, the
/// transactions, and the two redirect URLs.
///
/// The reply of the round trip is handed to
/// [`crate::request::build_response`]; the body text of a successful reply
/// decodes as a [`crate::types::Payment`].
pub fn new(
    base: &str,
    bearer: &str,
    return_url: &str,
    cancel_url: &str,
    method: PaymentMethod,
    intent: PaymentIntent,
    transactions: Vec<Transaction>,
) -> (r: HttpRequest)
    ensures
        r.method == Method::Post,
        r.url@ == base@ + "/payments/payment"@,
        hview(r.headers@) == seq![
            ("Authorization"@, "Bearer "@ + bearer@),
            ("Content-Type"@, "application/json"@),
        ],
        r.body matches Body::Json(j) && j@ == json_new_payment(
            intent,
            (Payer { payment_method: method, status: None, funding_instruments: None }),
            transactions@,
            return_url@,
            cancel_url@,
        ),
{
    let ep = crate::make_endpoint(base, "/payments/payment");
    let headers = bearer_headers(bearer);
    let body = RequestNewPayment {
        redirect_urls: RedirectUrls {
            return_url: <String as vstd::string::StringExecFns>::from_str(return_url),
            cancel_url: <String as vstd::string::StringExecFns>::from_str(cancel_url),
        },
        payer: Payer { payment_method: method, funding_instruments: None, status: None },
        intent,
        transactions,
    };
    let json = body.to_json();
    let r = post_json(ep.as_str(), headers, json);
    proof {
        lemma_auth_survives_content_type("Bearer "@ + bearer@);
        assert(hview(r.headers@) =~= seq![
            ("Authorization"@, "Bearer "@ + bearer@),
            ("Content-Type"@, "application/json"@),
        ]);
    }
    r
}

/// Builds the request that lists the payments of the account the bearer
/// token belongs to: a GET against the payment collection under `base`,
/// authorized as `Bearer <token>`, with no body and no query parameters —
/// the URL is exactly the collection path.
///
/// The reply of the round trip is handed to
/// [`crate::request::build_response`]; the body text of a successful reply
/// decodes as a [`crate::types::ListPaymentResponse`], one page per call.
pub fn list(base: &str, bearer: &str) -> (r: HttpRequest)
    ensures
        r.method == Method::Get,
        r.url@ == base@ + "/payments/payment"@,
        hview(r.headers@) == seq![("Authorization"@, "Bearer "@ + bearer@)],
        r.body is Empty,
{
    let ep = crate::make_endpoint(base, "/payments/payment");
    let headers = bearer_headers(bearer);
    get(ep.as_str(), headers)
}

/// Builds the request that finalizes charging of a previously created and
/// approved payment: a POST to the per-payment execute path — the payment
/// ID is embedded in the URL, so the caller must supply a value that is
/// already a valid path segment — whose JSON body is exactly
/// `{"payer_id":<payer_id>}`.
///
/// The reply of the round trip is handed to
/// [`crate::request::build_response`]; the body text of a successful reply
/// decodes as a [`crate::types::Payment`].
pub fn execute(base: &str, bearer: &str, payment_id: &str, payer_id: &str) -> (r: HttpRequest)
    ensures
        r.method == Method::Post,
        r.url@ == base@ + "/payments/payment/"@ + payment_id@ + "/execute"@,
        hview(r.headers@) == seq![
            ("Authorization"@, "Bearer "@ + bearer@),
            ("Content-Type"@, "application/json"@),
        ],
        r.body matches Body::Json(j) && j@ == "{\"payer_id\":"@ + json_string(payer_id@) + "}"@,
{
    let mut path = <String as vstd::string::StringExecFns>::from_str("/payments/payment/");
    vstd::string::StringExecFns::append(&mut path, payment_id);
    vstd::string::StringExecFns::append(&mut path, "/execute");
    let ep = crate::make_endpoint(base, path.as_str());
    let headers = bearer_headers(bearer);
    let mut body = <String as vstd::string::StringExecFns>::from_str("{\"payer_id\":");
    crate::json::append_json_string(&mut body, payer_id);
    vstd::string::StringExecFns::append(&mut body, "}");
    let r = post_json(ep.as_str(), headers, body);
    proof {
        lemma_auth_survives_content_type("Bearer "@ + bearer@);
        assert(hview(r.headers@) =~= seq![
            ("Authorization"@, "Bearer "@ + bearer@),
            ("Content-Type"@, "application/json"@),
        ]);
        assert(r.url@ =~= base@ + "/payments/payment/"@ + payment_id@ + "/execute"@);
    }
    r
}

} // verus!
