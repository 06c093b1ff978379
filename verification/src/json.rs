//! JSON encoding of the request bodies this library sends.
//!
//! The wire format is part of the library's contract: struct fields map to
//! the service's documented lowercase_with_underscores names, and enum
//! variants to its documented string spellings. Each builder is specified by
//! a spec function that gives the exact document text.

use crate::types::{
    Payer, PayerStatus, PaymentIntent, PaymentMethod, RedirectUrls, RequestNewPayment,
    Transaction, TransactionAmount,
};
use vstd::prelude::*;

verus! {

/// The hexadecimal digit for a value below 16, in lowercase.
pub open spec fn hex_digit(n: int) -> char {
    if n == 0 {
        '0'
    } else if n == 1 {
        '1'
    } else if n == 2 {
        '2'
    } else if n == 3 {
        '3'
    } else if n == 4 {
        '4'
    } else if n == 5 {
        '5'
    } else if n == 6 {
        '6'
    } else if n == 7 {
        '7'
    } else if n == 8 {
        '8'
    } else if n == 9 {
        '9'
    } else if n == 10 {
        'a'
    } else if n == 11 {
        'b'
    } else if n == 12 {
        'c'
    } else if n == 13 {
        'd'
    } else if n == 14 {
        'e'
    } else {
        'f'
    }
}

/// The escape of one character inside a JSON string literal: quote and
/// backslash get a backslash escape, control characters a `\u00XX` escape,
/// every other character stands for itself.
pub open spec fn escape_char(c: char) -> Seq<char> {
    if c == '"' {
        seq!['\\', '"']
    } else if c == '\\' {
        seq!['\\', '\\']
    } else if (c as u32) < 32 {
        seq!['\\', 'u', '0', '0', hex_digit((c as u32) as int / 16), hex_digit((c as u32) as int % 16)]
    } else {
        seq![c]
    }
}

/// The body of a JSON string literal: every character escaped.
pub open spec fn json_escape(s: Seq<char>) -> Seq<char>
    decreases s.len(),
{
    if s.len() == 0 {
        Seq::empty()
    } else {
        escape_char(s[0]) + json_escape(s.drop_first())
    }
}

/// A JSON string literal: the escaped characters between double quotes.
pub open spec fn json_string(s: Seq<char>) -> Seq<char> {
    seq!['"'] + json_escape(s) + seq!['"']
}

/// Escaping distributes over appending one character.
pub proof fn lemma_json_escape_push(s: Seq<char>, c: char)
    ensures
        json_escape(s.push(c)) == json_escape(s) + escape_char(c),
    decreases s.len(),
{
    if s.len() == 0 {
        assert(s.push(c)[0] == c);
        assert(s.push(c).drop_first() =~= Seq::<char>::empty());
        assert(json_escape(Seq::<char>::empty()) =~= Seq::<char>::empty());
        assert(json_escape(s.push(c)) =~= escape_char(c));
        assert(json_escape(s) + escape_char(c) =~= escape_char(c));
    } else {
        lemma_json_escape_push(s.drop_first(), c);
        assert(s.push(c).drop_first() =~= s.drop_first().push(c));
        assert(s.push(c)[0] == s[0]);
        assert(json_escape(s) + escape_char(c) =~= escape_char(s[0]) + (json_escape(s.drop_first())
            + escape_char(c)));
    }
}

fn hex_digit_exec(n: u32) -> (r: char)
    requires
        n < 16,
    ensures
        r == hex_digit(n as int),
{
    match n {
        0 => '0',
        1 => '1',
        2 => '2',
        3 => '3',
        4 => '4',
        5 => '5',
        6 => '6',
        7 => '7',
        8 => '8',
        9 => '9',
        10 => 'a',
        11 => 'b',
        12 => 'c',
        13 => 'd',
        14 => 'e',
        _ => 'f',
    }
}

/// Appends the JSON string literal for `s` — opening quote, escaped
/// characters, closing quote — to `out`.
pub fn append_json_string(out: &mut String, s: &str)
    ensures
        final (out)@ == old(out)@ + json_string(s@),
{
    let n = vstd::string::StrSliceExecFns::unicode_len(s);
    out.push('"');
    proof {
        assert(out@ =~= old(out)@ + seq!['"'] + json_escape(s@.take(0)));
    }
    let mut i: usize = 0;
    while i < n
        invariant
            i <= n,
            n == s@.len(),
            out@ == old(out)@ + seq!['"'] + json_escape(s@.take(i as int)),
        decreases n - i,
    {
        let c = vstd::string::StrSliceExecFns::get_char(s, i);
        if c == '"' {
            out.push('\\');
            out.push('"');
        } else if c == '\\' {
            out.push('\\');
            out.push('\\');
        } else if (c as u32) < 32 {
            out.push('\\');
            out.push('u');
            out.push('0');
            out.push('0');
            out.push(hex_digit_exec((c as u32) / 16));
            out.push(hex_digit_exec((c as u32) % 16));
        } else {
            out.push(c);
        }
        proof {
            lemma_json_escape_push(s@.take(i as int), s@[i as int]);
            assert(s@.take(i + 1 as int) =~= s@.take(i as int).push(s@[i as int]));
            assert(out@ =~= old(out)@ + seq!['"'] + json_escape(s@.take(i + 1 as int)));
        }
        i = i + 1;
    }
    out.push('"');
    proof {
        assert(s@.take(n as int) =~= s@);
        assert(out@ =~= old(out)@ + json_string(s@));
    }
}

/// The documented spelling of a payment intent on the wire.
pub open spec fn json_intent(i: PaymentIntent) -> Seq<char> {
    match i {
        PaymentIntent::Sale => "\"sale\""@,
        PaymentIntent::Authorize => "\"authorize\""@,
        PaymentIntent::Order => "\"order\""@,
    }
}

/// The documented spelling of a payment method on the wire.
pub open spec fn json_method(m: PaymentMethod) -> Seq<char> {
    match m {
        PaymentMethod::CreditCard => "\"credit_card\""@,
        PaymentMethod::Paypal => "\"paypal\""@,
        PaymentMethod::PayUponInvoice => "\"pay_upon_invoice\""@,
        PaymentMethod::Carrier => "\"carrier\""@,
        PaymentMethod::AlternatePayment => "\"alternate_payment\""@,
        PaymentMethod::Bank => "\"bank\""@,
    }
}

/// The documented spelling of a payer status on the wire; an absent status
/// is `null`.
pub open spec fn json_status(s: Option<PayerStatus>) -> Seq<char> {
    match s {
        Some(PayerStatus::Verified) => "\"VERIFIED\""@,
        Some(PayerStatus::Unverified) => "\"UNVERIFIED\""@,
        None => "null"@,
    }
}

/// The JSON document for an outbound payer. Funding instruments are
/// response-only in this library, so an outbound payer carries `null`
/// there.
pub open spec fn json_payer(p: Payer) -> Seq<char>
    recommends
        p.funding_instruments is None,
{
    "{\"payment_method\":"@ + json_method(p.payment_method) + ",\"status\":"@ + json_status(
        p.status,
    ) + ",\"funding_instruments\":null}"@
}

/// The JSON document for one transaction amount.
pub open spec fn json_amount(a: TransactionAmount) -> Seq<char> {
    "{\"currency\":"@ + json_string(a.currency@) + ",\"total\":"@ + json_string(a.total@) + "}"@
}

/// The JSON document for one transaction.
pub open spec fn json_transaction(t: Transaction) -> Seq<char> {
    "{\"amount\":"@ + json_amount(t.amount) + "}"@
}

/// The comma-separated JSON documents of a list of transactions.
pub open spec fn json_transaction_items(ts: Seq<Transaction>) -> Seq<char>
    decreases ts.len(),
{
    if ts.len() == 0 {
        Seq::empty()
    } else if ts.len() == 1 {
        json_transaction(ts[0])
    } else {
        json_transaction(ts[0]) + ","@ + json_transaction_items(ts.drop_first())
    }
}

/// The JSON array of a list of transactions.
pub open spec fn json_transactions(ts: Seq<Transaction>) -> Seq<char> {
    "["@ + json_transaction_items(ts) + "]"@
}

/// The JSON document for a pair of redirect URLs.
pub open spec fn json_redirect_urls_of(ret: Seq<char>, cancel: Seq<char>) -> Seq<char> {
    "{\"return_url\":"@ + json_string(ret) + ",\"cancel_url\":"@ + json_string(cancel) + "}"@
}

/// The JSON document for the redirect URLs.
pub open spec fn json_redirect_urls(u: RedirectUrls) -> Seq<char> {
    json_redirect_urls_of(u.return_url@, u.cancel_url@)
}

/// The JSON document for a payment-creation body, given field by field:
/// intent, payer, transactions, and the two redirect URLs, in the declared
/// order.
pub open spec fn json_new_payment(
    intent: PaymentIntent,
    payer: Payer,
    ts: Seq<Transaction>,
    ret: Seq<char>,
    cancel: Seq<char>,
) -> Seq<char>
    recommends
        payer.funding_instruments is None,
{
    "{\"intent\":"@ + json_intent(intent) + ",\"payer\":"@ + json_payer(payer)
        + ",\"transactions\":"@ + json_transactions(ts) + ",\"redirect_urls\":"@
        + json_redirect_urls_of(ret, cancel) + "}"@
}

/// The JSON document for a payment-creation body.
pub open spec fn json_request_new_payment(r: RequestNewPayment) -> Seq<char>
    recommends
        r.payer.funding_instruments is None,
{
    json_new_payment(
        r.intent,
        r.payer,
        r.transactions@,
        r.redirect_urls.return_url@,
        r.redirect_urls.cancel_url@,
    )
}

/// Appending one transaction to a list extends its comma-separated items.
pub proof fn lemma_json_transaction_items_push(ts: Seq<Transaction>, t: Transaction)
    ensures
        json_transaction_items(ts.push(t)) == if ts.len() == 0 {
            json_transaction(t)
        } else {
            json_transaction_items(ts) + ","@ + json_transaction(t)
        },
    decreases ts.len(),
{
    if ts.len() == 0 {
        assert(ts.push(t)[0] == t);
        assert(ts.push(t).len() == 1);
    } else {
        lemma_json_transaction_items_push(ts.drop_first(), t);
        assert(ts.push(t).drop_first() =~= ts.drop_first().push(t));
        assert(ts.push(t)[0] == ts[0]);
        if ts.len() == 1 {
            assert(json_transaction_items(ts) == json_transaction(ts[0]));
        } else {
            assert(json_transaction_items(ts) + ","@ + json_transaction(t) =~= json_transaction(
                ts[0],
            ) + ","@ + (json_transaction_items(ts.drop_first()) + ","@ + json_transaction(t)));
        }
    }
}

fn append_intent(out: &mut String, i: &PaymentIntent)
    ensures
        final (out)@ == old(out)@ + json_intent(*i),
{
    match i {
        PaymentIntent::Sale => vstd::string::StringExecFns::append(out, "\"sale\""),
        PaymentIntent::Authorize => vstd::string::StringExecFns::append(out, "\"authorize\""),
        PaymentIntent::Order => vstd::string::StringExecFns::append(out, "\"order\""),
    }
}

fn append_method(out: &mut String, m: &PaymentMethod)
    ensures
        final (out)@ == old(out)@ + json_method(*m),
{
    match m {
        PaymentMethod::CreditCard => vstd::string::StringExecFns::append(out, "\"credit_card\""),
        PaymentMethod::Paypal => vstd::string::StringExecFns::append(out, "\"paypal\""),
        PaymentMethod::PayUponInvoice => vstd::string::StringExecFns::append(
            out,
            "\"pay_upon_invoice\"",
        ),
        PaymentMethod::Carrier => vstd::string::StringExecFns::append(out, "\"carrier\""),
        PaymentMethod::AlternatePayment => vstd::string::StringExecFns::append(
            out,
            "\"alternate_payment\"",
        ),
        PaymentMethod::Bank => vstd::string::StringExecFns::append(out, "\"bank\""),
    }
}

fn append_status(out: &mut String, s: &Option<PayerStatus>)
    ensures
        final (out)@ == old(out)@ + json_status(*s),
{
    match s {
        Some(PayerStatus::Verified) => vstd::string::StringExecFns::append(out, "\"VERIFIED\""),
        Some(PayerStatus::Unverified) => vstd::string::StringExecFns::append(
            out,
            "\"UNVERIFIED\"",
        ),
        None => vstd::string::StringExecFns::append(out, "null"),
    }
}

fn append_amount(out: &mut String, a: &TransactionAmount)
    ensures
        final (out)@ == old(out)@ + json_amount(*a),
{
    vstd::string::StringExecFns::append(out, "{\"currency\":");
    append_json_string(out, a.currency.as_str());
    vstd::string::StringExecFns::append(out, ",\"total\":");
    append_json_string(out, a.total.as_str());
    vstd::string::StringExecFns::append(out, "}");
    proof {
        assert(out@ =~= old(out)@ + json_amount(*a));
    }
}

fn append_transaction(out: &mut String, t: &Transaction)
    ensures
        final (out)@ == old(out)@ + json_transaction(*t),
{
    vstd::string::StringExecFns::append(out, "{\"amount\":");
    append_amount(out, &t.amount);
    vstd::string::StringExecFns::append(out, "}");
    proof {
        assert(out@ =~= old(out)@ + json_transaction(*t));
    }
}

fn append_transactions(out: &mut String, ts: &Vec<Transaction>)
    ensures
        final (out)@ == old(out)@ + json_transactions(ts@),
{
    vstd::string::StringExecFns::append(out, "[");
    proof {
        assert(out@ =~= old(out)@ + "["@ + json_transaction_items(ts@.take(0)));
    }
    let mut i: usize = 0;
    while i < ts.len()
        invariant
            i <= ts@.len(),
            out@ == old(out)@ + "["@ + json_transaction_items(ts@.take(i as int)),
        decreases ts@.len() - i,
    {
        if i > 0 {
            vstd::string::StringExecFns::append(out, ",");
        }
        append_transaction(out, &ts[i]);
        proof {
            lemma_json_transaction_items_push(ts@.take(i as int), ts@[i as int]);
            assert(ts@.take(i + 1 as int) =~= ts@.take(i as int).push(ts@[i as int]));
            assert(out@ =~= old(out)@ + "["@ + json_transaction_items(ts@.take(i + 1 as int)));
        }
        i = i + 1;
    }
    vstd::string::StringExecFns::append(out, "]");
    proof {
        assert(ts@.take(ts@.len() as int) =~= ts@);
        assert(out@ =~= old(out)@ + json_transactions(ts@));
    }
}

impl RequestNewPayment {
    /// Serializes this body as the JSON document the service expects. An
    /// outbound payer never carries funding instruments: they are
    /// response-only in this library.
    pub fn to_json(&self) -> (r: String)
        requires
            self.payer.funding_instruments is None,
        ensures
            r@ == json_request_new_payment(*self),
    {
        let mut out = <String as vstd::string::StringExecFns>::from_str("{\"intent\":");
        append_intent(&mut out, &self.intent);
        vstd::string::StringExecFns::append(&mut out, ",\"payer\":");
        vstd::string::StringExecFns::append(&mut out, "{\"payment_method\":");
        append_method(&mut out, &self.payer.payment_method);
        vstd::string::StringExecFns::append(&mut out, ",\"status\":");
        append_status(&mut out, &self.payer.status);
        vstd::string::StringExecFns::append(&mut out, ",\"funding_instruments\":null}");
        vstd::string::StringExecFns::append(&mut out, ",\"transactions\":");
        append_transactions(&mut out, &self.transactions);
        vstd::string::StringExecFns::append(&mut out, ",\"redirect_urls\":");
        vstd::string::StringExecFns::append(&mut out, "{\"return_url\":");
        append_json_string(&mut out, self.redirect_urls.return_url.as_str());
        vstd::string::StringExecFns::append(&mut out, ",\"cancel_url\":");
        append_json_string(&mut out, self.redirect_urls.cancel_url.as_str());
        vstd::string::StringExecFns::append(&mut out, "}");
        vstd::string::StringExecFns::append(&mut out, "}");
        proof {
            assert(out@ =~= json_request_new_payment(*self));
        }
        out
    }
}

} // verus!
