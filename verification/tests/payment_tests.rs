use paypal::request::{build_response, Body, HttpReply, Method};
use paypal::{
    Payer, PaymentIntent, PaymentMethod, RedirectUrls, RequestNewPayment, Transaction,
    TransactionAmount,
};

const BASE: &str = "https://api.sandbox.paypal.com";

fn one_transaction(currency: &str, total: &str) -> Vec<Transaction> {
    vec![Transaction {
        amount: TransactionAmount {
            currency: currency.to_string(),
            total: total.to_string(),
        },
    }]
}

#[test]
fn test_new() {
    let r = paypal::payment::new(
        BASE,
        "T",
        "mysite.com/whooyoupaid",
        "mysite.com/nooyoufailed",
        PaymentMethod::Paypal,
        PaymentIntent::Sale,
        one_transaction("USD", "100.00"),
    );
    assert!(matches!(r.method, Method::Post));
    assert_eq!(r.url, "https://api.sandbox.paypal.com/payments/payment");
    assert_eq!(r.headers.len(), 2);
    assert_eq!(r.headers[0].name, "Authorization");
    assert_eq!(r.headers[0].value, "Bearer T");
    assert_eq!(r.headers[1].name, "Content-Type");
    assert_eq!(r.headers[1].value, "application/json");
    let body = match r.body {
        Body::Json(j) => j,
        _ => panic!("payment creation must carry a JSON body"),
    };
    let v: serde_json::Value = serde_json::from_str(&body).unwrap();
    assert_eq!(v["intent"].as_str(), Some("sale"));
    assert_eq!(v["payer"]["payment_method"].as_str(), Some("paypal"));
    assert!(v["payer"]["status"].is_null());
    assert!(v["payer"]["funding_instruments"].is_null());
    let txs = v["transactions"].as_array().unwrap();
    assert_eq!(txs.len(), 1);
    assert_eq!(txs[0]["amount"]["currency"].as_str(), Some("USD"));
    assert_eq!(txs[0]["amount"]["total"].as_str(), Some("100.00"));
    assert_eq!(
        v["redirect_urls"]["return_url"].as_str(),
        Some("mysite.com/whooyoupaid")
    );
    assert_eq!(
        v["redirect_urls"]["cancel_url"].as_str(),
        Some("mysite.com/nooyoufailed")
    );
}

#[test]
fn test_list() {
    let r = paypal::payment::list(BASE, "T");
    assert!(matches!(r.method, Method::Get));
    assert_eq!(r.url, "https://api.sandbox.paypal.com/payments/payment");
    assert!(!r.url.contains('?'));
    assert_eq!(r.headers.len(), 1);
    assert_eq!(r.headers[0].name, "Authorization");
    assert_eq!(r.headers[0].value, "Bearer T");
    assert!(matches!(r.body, Body::Empty));
}

#[test]
fn test_execute_targets_path_and_body() {
    let r = paypal::payment::execute(BASE, "token", "PAY-123", "PAYER-9");
    assert!(matches!(r.method, Method::Post));
    assert_eq!(
        r.url,
        "https://api.sandbox.paypal.com/payments/payment/PAY-123/execute"
    );
    assert_eq!(r.headers.len(), 2);
    assert_eq!(r.headers[0].name, "Authorization");
    assert_eq!(r.headers[0].value, "Bearer token");
    assert_eq!(r.headers[1].name, "Content-Type");
    assert_eq!(r.headers[1].value, "application/json");
    match r.body {
        Body::Json(j) => assert_eq!(j, "{\"payer_id\":\"PAYER-9\"}"),
        _ => panic!("payment execution must carry a JSON body"),
    }
}

#[test]
fn test_execute_escapes_payer_id() {
    let r = paypal::payment::execute(BASE, "token", "PAY-123", "a\"b\\c\nd\u{1}e");
    let body = match r.body {
        Body::Json(j) => j,
        _ => panic!("payment execution must carry a JSON body"),
    };
    let v: serde_json::Value = serde_json::from_str(&body).unwrap();
    assert_eq!(v["payer_id"].as_str(), Some("a\"b\\c\nd\u{1}e"));
}

#[test]
fn test_round_trip_request_new_payment() {
    let original = RequestNewPayment {
        intent: PaymentIntent::Sale,
        payer: Payer {
            payment_method: PaymentMethod::Paypal,
            status: None,
            funding_instruments: None,
        },
        transactions: one_transaction("USD", "100.00"),
        redirect_urls: RedirectUrls {
            return_url: "mysite.com/ok".to_string(),
            cancel_url: "mysite.com/fail".to_string(),
        },
    };
    let text = original.to_json();
    let v: serde_json::Value = serde_json::from_str(&text).unwrap();

    // read the document back through the documented enum and field-name
    // mapping
    let intent = match v["intent"].as_str().unwrap() {
        "sale" => PaymentIntent::Sale,
        "authorize" => PaymentIntent::Authorize,
        "order" => PaymentIntent::Order,
        other => panic!("undocumented intent spelling {}", other),
    };
    let method = match v["payer"]["payment_method"].as_str().unwrap() {
        "credit_card" => PaymentMethod::CreditCard,
        "paypal" => PaymentMethod::Paypal,
        "pay_upon_invoice" => PaymentMethod::PayUponInvoice,
        "carrier" => PaymentMethod::Carrier,
        "alternate_payment" => PaymentMethod::AlternatePayment,
        "bank" => PaymentMethod::Bank,
        other => panic!("undocumented payment method spelling {}", other),
    };
    assert!(v["payer"]["status"].is_null());
    assert!(v["payer"]["funding_instruments"].is_null());
    let recovered = RequestNewPayment {
        intent,
        payer: Payer {
            payment_method: method,
            status: None,
            funding_instruments: None,
        },
        transactions: v["transactions"]
            .as_array()
            .unwrap()
            .iter()
            .map(|t| Transaction {
                amount: TransactionAmount {
                    currency: t["amount"]["currency"].as_str().unwrap().to_string(),
                    total: t["amount"]["total"].as_str().unwrap().to_string(),
                },
            })
            .collect(),
        redirect_urls: RedirectUrls {
            return_url: v["redirect_urls"]["return_url"]
                .as_str()
                .unwrap()
                .to_string(),
            cancel_url: v["redirect_urls"]["cancel_url"]
                .as_str()
                .unwrap()
                .to_string(),
        },
    };

    assert_eq!(recovered.intent, original.intent);
    assert_eq!(
        recovered.payer.payment_method,
        original.payer.payment_method
    );
    assert_eq!(recovered.transactions.len(), original.transactions.len());
    assert_eq!(
        recovered.transactions[0].amount.currency,
        original.transactions[0].amount.currency
    );
    assert_eq!(
        recovered.transactions[0].amount.total,
        original.transactions[0].amount.total
    );
    assert_eq!(
        recovered.redirect_urls.return_url,
        original.redirect_urls.return_url
    );
    assert_eq!(
        recovered.redirect_urls.cancel_url,
        original.redirect_urls.cancel_url
    );
}

#[test]
fn test_bearer_token_from_token_reply_is_attached() {
    // the token endpoint answers with a 2xx reply carrying the token document
    let reply = HttpReply::Response {
        status: 200,
        body: "{\"scope\":\"S\",\"nonce\":\"N\",\"access_token\":\"T\",\"token_type\":\"Bearer\",\"app_id\":\"A\",\"expires_in\":3600}".to_string(),
        url: "https://api.sandbox.paypal.com/v1/oauth2/token".to_string(),
    };
    let body = build_response(reply).unwrap();
    let v: serde_json::Value = serde_json::from_str(&body).unwrap();
    assert_eq!(v["token_type"].as_str(), Some("Bearer"));
    assert_eq!(v["expires_in"].as_i64(), Some(3600));
    let token = v["access_token"].as_str().unwrap();
    assert_eq!(token, "T");

    // a payment created with that token carries it as a Bearer header
    let r = paypal::payment::new(
        BASE,
        token,
        "mysite.com/ok",
        "mysite.com/fail",
        PaymentMethod::Paypal,
        PaymentIntent::Sale,
        one_transaction("USD", "100.00"),
    );
    assert_eq!(r.headers[0].name, "Authorization");
    assert_eq!(r.headers[0].value, "Bearer T");
}
