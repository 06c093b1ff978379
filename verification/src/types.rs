//! The request and response payload shapes for the token exchange and the
//! payment lifecycle.
//!
//! Every entity here is a plain, immutable-after-construction value; the
//! library never mutates a payment locally — every mutation is a new remote
//! call. Request-only shapes (such as [`RequestNewPayment`]) and
//! response-only shapes (such as [`Payment`]) are kept apart because the
//! remote schema is asymmetric.

use vstd::prelude::*;

verus! {

/// The service's reply when requesting a new bearer token.
#[derive(Debug, Clone)]
pub struct ResponseAccessToken {
    /// The scopes the token grants.
    pub scope: String,
    /// A nonce issued together with the token.
    pub nonce: String,
    /// The token itself, attached to later calls as `Authorization: Bearer <token>`.
    pub access_token: String,
    /// The token's type, normally `Bearer`.
    pub token_type: String,
    /// The ID of the application the credentials belong to.
    pub app_id: String,
    /// The token's lifetime in seconds. Informational only: the library does
    /// not refresh tokens; that is the caller's responsibility.
    pub expires_in: i64,
}

/// The outbound body of a payment-creation call.
#[derive(Debug, Clone)]
pub struct RequestNewPayment {
    /// The payment intent.
    pub intent: PaymentIntent,
    /// The source of the funds for this payment.
    pub payer: Payer,
    /// The payment-related transactions.
    pub transactions: Vec<Transaction>,
    /// The redirect URLs for redirect-based payment methods.
    pub redirect_urls: RedirectUrls,
}

/// A point in time on the UTC timeline, as the remote service reports it.
///
/// The service sends timestamps as RFC 3339 text; the value is carried here
/// as plain integers. The library only carries timestamps through, it never
/// computes with them.
#[derive(Debug, Clone, Copy, PartialEq, Eq, Structural)]
pub struct Timestamp {
    /// Whole seconds since the Unix epoch.
    pub epoch_seconds: i64,
    /// The sub-second part, in nanoseconds.
    pub subsec_nanos: u32,
}

/// A single payment in the remote service's system, either completed or not.
#[derive(Debug, Clone)]
pub struct Payment {
    /// The ID of the payment.
    pub id: String,
    /// The payment intent.
    pub intent: PaymentIntent,
    /// The source of the funds for this payment.
    pub payer: Payer,
    /// Customization of the payment flow experience for the buyer.
    pub application_context: Option<ApplicationContext>,
    /// An array of payment-related transactions.
    pub transactions: Vec<Transaction>,
    /// The state of the payment.
    pub state: Option<State>,
    /// The ID of the merchant's payment experience profile.
    pub experience_profile_id: Option<String>,
    /// A free-form note to the payer.
    pub note_to_payer: Option<String>,
    /// The redirect URLs provided for redirect-based payments.
    pub redirect_urls: Option<RedirectUrls>,
    /// The reason code for a payment failure.
    pub failure_reason: Option<FailureReason>,
    /// When the payment was created.
    pub create_time: Option<Timestamp>,
    /// When the payment was last updated.
    pub update_time: Option<Timestamp>,
    /// Request-related HATEOAS links.
    pub links: Vec<LinkDescription>,
}

/// Customizes the payment flow page.
#[derive(Debug, Clone)]
pub struct ApplicationContext {
    /// A label that overrides the business name on the checkout pages.
    pub brand_name: Option<String>,
    /// The locale of the pages shown during checkout.
    pub locale: String,
    /// The type of landing page to show for customer checkout.
    pub landing_page: String,
    /// The shipping preference.
    pub shipping_preference: ShippingPreference,
    /// The user action.
    pub user_action: String,
}

/// The shipping preference of an [`ApplicationContext`].
#[derive(Debug, Clone, Copy, PartialEq, Eq, Structural)]
pub enum ShippingPreference {
    /// Redacts the shipping address from the checkout pages.
    NoShipping,
    /// Uses the customer-selected shipping address.
    GetFromFile,
    /// Uses the merchant-provided shipping address, which the customer
    /// cannot change.
    SetProvidedAddress,
}

/// A HATEOAS link: a URL together with metadata on how to follow it.
#[derive(Debug, Clone)]
pub struct LinkDescription {
    /// The complete target URL.
    pub href: String,
    /// The link relation type.
    pub rel: String,
    /// The HTTP method required to make the related call.
    pub method: Option<String>,
}

/// A single page of payments, as returned when listing payments.
#[derive(Debug, Clone)]
pub struct ListPaymentResponse {
    /// The payments of this page.
    pub payments: Vec<Payment>,
    /// The number of payments.
    pub count: usize,
    /// The ID to use to fetch the next page. Pagination is the caller's
    /// responsibility; the library retrieves one page per call.
    pub next_id: Option<String>,
}

/// The state of a payment, read back from the remote service.
#[derive(Debug, Clone, Copy, PartialEq, Eq, Structural)]
pub enum State {
    /// The transaction was successfully created.
    Created,
    /// The customer approved the transaction.
    Approved,
    /// The transaction request failed.
    Failed,
}

/// The reason code for a payment failure.
#[derive(Debug, Clone, Copy, PartialEq, Eq, Structural)]
pub enum FailureReason {
    /// The transaction could not be completed.
    UnableToCompleteTransaction,
    /// The payment method is invalid.
    InvalidPaymentMethod,
    /// The payer cannot pay.
    PayerCannotPay,
    /// This payee cannot be paid.
    CannotPayThisPayee,
    /// A redirect is required.
    RedirectRequired,
    /// Restricted by payee filters.
    PayeeFilterRestrictions,
}

/// The URLs the payer is redirected to after approving or cancelling a
/// payment on the provider's site.
#[derive(Debug, Clone)]
pub struct RedirectUrls {
    /// Where the payer lands after approving the payment.
    pub return_url: String,
    /// Where the payer lands after cancelling the payment.
    pub cancel_url: String,
}

/// Controls whether a payment captures funds immediately, reserves them, or
/// only creates an order.
#[derive(Debug, Clone, Copy, PartialEq, Eq, Structural)]
pub enum PaymentIntent {
    /// Makes an immediate payment.
    Sale,
    /// Authorizes a payment for capture later.
    Authorize,
    /// Creates an order.
    Order,
}

/// An account that can be charged.
#[derive(Debug, Clone)]
pub struct Payer {
    /// The payment method.
    pub payment_method: PaymentMethod,
    /// The status of the payer's account. Response-only: outbound payers
    /// leave it unset.
    pub status: Option<PayerStatus>,
    /// The funding instruments of a credit-card payment. Response-only in
    /// this library: outbound payers leave it unset.
    pub funding_instruments: Option<Vec<FundingInstrument>>,
}

/// One of the ways the provider is able to process payments.
#[derive(Debug, Clone, Copy, PartialEq, Eq, Structural)]
pub enum PaymentMethod {
    /// Credit card.
    CreditCard,
    /// A provider-wallet payment.
    Paypal,
    /// Pay upon invoice.
    PayUponInvoice,
    /// Carrier.
    Carrier,
    /// Alternate payment.
    AlternatePayment,
    /// Bank.
    Bank,
}

/// The status of a [`Payer`]'s account.
#[derive(Debug, Clone, Copy, PartialEq, Eq, Structural)]
pub enum PayerStatus {
    /// The account is verified.
    Verified,
    /// The account is not verified.
    Unverified,
}

/// A single monetary line item within a payment.
#[derive(Debug, Clone)]
pub struct Transaction {
    /// The amount charged when this transaction completes.
    pub amount: TransactionAmount,
}

/// A currency-aware amount of money.
///
/// The total is kept as a string, not a numeric type, to avoid
/// floating-point rounding of monetary values.
#[derive(Debug, Clone)]
pub struct TransactionAmount {
    /// The ISO 4217 currency code, for example "USD" or "EUR".
    pub currency: String,
    /// The amount charged, for example "10" or "12.34".
    pub total: String,
}

/// The funding source of a credit-card payment, read back from the service.
#[derive(Debug, Clone)]
pub struct FundingInstrument {
    /// Full representation of a credit card.
    pub credit_card: Option<CreditCard>,
    /// Token representation of a credit card.
    pub credit_card_token: Option<CreditCardToken>,
}

/// A credit card, as reported by the remote service.
#[derive(Debug, Clone)]
pub struct CreditCard {
    /// The credit card number, numeric characters only. Redacted in
    /// responses.
    pub number: String,
    /// The credit card type: visa, mastercard, discover, or amex.
    pub card_type: String,
    /// The expiration month with no leading zero, from 1 to 12.
    pub expire_month: i32,
    /// The four-digit expiration year.
    pub expire_year: i32,
    /// The three- to four-digit card validation code.
    pub cvv2: Option<String>,
    /// The card holder's first name.
    pub first_name: Option<String>,
    /// The card holder's last name.
    pub last_name: Option<String>,
    /// The billing address for this card.
    pub billing_address: Option<Address>,
    /// Request-related HATEOAS links.
    pub links: Vec<LinkDescription>,
}

/// A postal address.
#[derive(Debug, Clone)]
pub struct Address {
    /// The first line of the address.
    pub line1: String,
    /// The second line of the address.
    pub line2: Option<String>,
    /// The city name.
    pub city: Option<String>,
    /// The two-character ISO 3166-1 country code.
    pub country_code: String,
    /// The postal code, where the country has one.
    pub postal_code: Option<String>,
    /// The code for a US state or the equivalent for other countries.
    pub state: Option<String>,
    /// The phone number, in E.123 format.
    pub phone: Option<String>,
    /// The address normalization status.
    pub normalization_status: Option<NormalizationStatus>,
    /// The type of address, for example HOME_OR_WORK.
    pub address_type: Option<String>,
}

/// The address normalization status. Returned only for payers from Brazil.
#[derive(Debug, Clone, Copy, PartialEq, Eq, Structural)]
pub enum NormalizationStatus {
    /// Unknown.
    Unknown,
    /// Unnormalized, user preferred.
    UnnormalizedUserPreferred,
    /// Normalized.
    Normalized,
    /// Unnormalized.
    Unnormalized,
}

/// A credit card in token representation.
#[derive(Debug, Clone)]
pub struct CreditCardToken {
    /// The ID of the credit card stored in the provider's vault.
    pub credit_card_id: String,
    /// A unique ID assigned when the card was stored in the vault.
    pub payer_id: Option<String>,
    /// The last four digits of the stored card number.
    pub last4: Option<String>,
    /// The credit card type: visa, mastercard, discover, or amex.
    pub card_type: Option<String>,
    /// The expiration month with no leading zero, from 1 to 12.
    pub expire_month: Option<i32>,
    /// The four-digit expiration year.
    pub expire_year: Option<i32>,
}

} // verus!
