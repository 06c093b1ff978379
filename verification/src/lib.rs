//! A typed client library for the PayPal REST API.
//!
//! The library builds the HTTP requests for the token, payment-creation,
//! payment-listing and payment-execution endpoints — method, URL, headers
//! and serialized body, each pinned down by its contract — and classifies
//! the outcome of each round trip into the body text of a successful
//! response or a uniform [`error::Error`]. The network transport itself,
//! and the decoding of successful response bodies into the types of
//! [`types`], is the caller's concern: each endpoint function returns a
//! fully-formed request description, and the reply of the round trip is
//! handed back to [`request::build_response`] for classification.

use vstd::prelude::*;

pub mod error;
pub mod json;
pub mod payment;
pub mod request;
pub mod text;
pub mod token;
pub mod types;

pub use payment::{execute, list, new};
pub use token::{base64_credentials, get_token, prepare_auth_header};

pub use types::{
    Address, ApplicationContext, CreditCard, CreditCardToken, FailureReason, FundingInstrument,
    LinkDescription, ListPaymentResponse, NormalizationStatus, Payer, PayerStatus, Payment,
    PaymentIntent, PaymentMethod, RedirectUrls, RequestNewPayment, ResponseAccessToken,
    ShippingPreference, State, Timestamp, Transaction, TransactionAmount,
};

verus! {

/// Joins the configured API host with an endpoint path.
pub fn make_endpoint(base: &str, ep: &str) -> (r: String)
    ensures
        r@ == base@ + ep@,
{
    let mut s = <String as vstd::string::StringExecFns>::from_str(base);
    vstd::string::StringExecFns::append(&mut s, ep);
    s
}

} // verus!
