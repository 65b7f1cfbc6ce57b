//! The certificate server: its addresses, the records it answers with, and what its error
//! replies mean.
use vstd::prelude::*;
use vstd::utf8::encode_utf8;

use crate::json::{Json, JsonView};
use crate::text::{
    decimal_of, decimal_u64, opt_view, same, chars_of,
};

verus! {

/// What can go wrong in a conversation with the certificate server.
#[derive(Debug, Clone, PartialEq, Eq)]
pub enum Error {
    /// The request could not be sent or its reply not be read; the message says why.
    Request { message: String },
    /// The server refused, with an HTTP status, a code and a message for the user.
    Api { status: u16, code: String, message: String },
    /// The reply is not the JSON that was expected.
    Json,
    DhttpEndpoint,
    /// The endpoint of a selected profile could not be loaded; `identity` tells whether the
    /// identity in it was what failed to load.
    DhttpEndpointFromProfile { identity: bool },
    DhttpRequest,
    DhttpRead,
    IdentityFallbackUnavailable,
    Whatever { message: String },
}

/// The symbolic form of an error code: known numbers are replaced by their names, everything
/// else stays as it is.
pub open spec fn normalized_code(code: Seq<char>) -> Seq<char> {
    if code == "1002"@ {
        "unauthorized"@
    } else if code == "1101"@ {
        "email_invalid"@
    } else if code == "1102"@ {
        "verify_code_invalid"@
    } else if code == "1103"@ {
        "verify_code_expired"@
    } else if code == "1104"@ {
        "verify_code_attempt_exceeded"@
    } else if code == "1105"@ {
        "verify_code_too_frequent"@
    } else if code == "1106"@ {
        "verify_code_rate_limited"@
    } else if code == "1110"@ {
        "user_blocked"@
    } else if code == "1201"@ {
        "domain_invalid"@
    } else if code == "1202"@ {
        "domain_not_found"@
    } else if code == "1203"@ {
        "domain_forbidden"@
    } else if code == "1208"@ {
        "domain_conflict"@
    } else if code == "1211"@ {
        "domain_email_not_matched"@
    } else if code == "1212"@ {
        "domain_expired"@
    } else if code == "1213"@ {
        "domain_revoked"@
    } else if code == "1303"@ {
        "subdomain_conflict"@
    } else if code == "1304"@ {
        "subdomain_quota_exceeded"@
    } else if code == "1407"@ {
        "cert_sequence_not_found"@
    } else {
        code
    }
}

/// The symbolic form of an error code.
pub fn normalize_api_code(code: &str) -> (r: &str)
    ensures
        r@ == normalized_code(code@),
{
    if same(code, "1002") {
        "unauthorized"
    } else if same(code, "1101") {
        "email_invalid"
    } else if same(code, "1102") {
        "verify_code_invalid"
    } else if same(code, "1103") {
        "verify_code_expired"
    } else if same(code, "1104") {
        "verify_code_attempt_exceeded"
    } else if same(code, "1105") {
        "verify_code_too_frequent"
    } else if same(code, "1106") {
        "verify_code_rate_limited"
    } else if same(code, "1110") {
        "user_blocked"
    } else if same(code, "1201") {
        "domain_invalid"
    } else if same(code, "1202") {
        "domain_not_found"
    } else if same(code, "1203") {
        "domain_forbidden"
    } else if same(code, "1208") {
        "domain_conflict"
    } else if same(code, "1211") {
        "domain_email_not_matched"
    } else if same(code, "1212") {
        "domain_expired"
    } else if same(code, "1213") {
        "domain_revoked"
    } else if same(code, "1303") {
        "subdomain_conflict"
    } else if same(code, "1304") {
        "subdomain_quota_exceeded"
    } else if same(code, "1407") {
        "cert_sequence_not_found"
    } else {
        code
    }
}

/// Normalizing a normalized code changes nothing.
pub proof fn normalized_code_is_stable(code: Seq<char>)
    ensures
        normalized_code(normalized_code(code)) == normalized_code(code),
{
    reveal_strlit("1002");
    reveal_strlit("1101");
    reveal_strlit("1102");
    reveal_strlit("1103");
    reveal_strlit("1104");
    reveal_strlit("1105");
    reveal_strlit("1106");
    reveal_strlit("1110");
    reveal_strlit("1201");
    reveal_strlit("1202");
    reveal_strlit("1203");
    reveal_strlit("1208");
    reveal_strlit("1211");
    reveal_strlit("1212");
    reveal_strlit("1213");
    reveal_strlit("1303");
    reveal_strlit("1304");
    reveal_strlit("1407");
    reveal_strlit("unauthorized");
    reveal_strlit("email_invalid");
    reveal_strlit("verify_code_invalid");
    reveal_strlit("verify_code_expired");
    reveal_strlit("verify_code_attempt_exceeded");
    reveal_strlit("verify_code_too_frequent");
    reveal_strlit("verify_code_rate_limited");
    reveal_strlit("user_blocked");
    reveal_strlit("domain_invalid");
    reveal_strlit("domain_not_found");
    reveal_strlit("domain_forbidden");
    reveal_strlit("domain_conflict");
    reveal_strlit("domain_email_not_matched");
    reveal_strlit("domain_expired");
    reveal_strlit("domain_revoked");
    reveal_strlit("subdomain_conflict");
    reveal_strlit("subdomain_quota_exceeded");
    reveal_strlit("cert_sequence_not_found");
    assert("1002"@.len() == 4);
    assert("1101"@.len() == 4);
    assert("1102"@.len() == 4);
    assert("1103"@.len() == 4);
    assert("1104"@.len() == 4);
    assert("1105"@.len() == 4);
    assert("1106"@.len() == 4);
    assert("1110"@.len() == 4);
    assert("1201"@.len() == 4);
    assert("1202"@.len() == 4);
    assert("1203"@.len() == 4);
    assert("1208"@.len() == 4);
    assert("1211"@.len() == 4);
    assert("1212"@.len() == 4);
    assert("1213"@.len() == 4);
    assert("1303"@.len() == 4);
    assert("1304"@.len() == 4);
    assert("1407"@.len() == 4);
    assert("unauthorized"@.len() > 4);
    assert("email_invalid"@.len() > 4);
    assert("verify_code_invalid"@.len() > 4);
    assert("verify_code_expired"@.len() > 4);
    assert("verify_code_attempt_exceeded"@.len() > 4);
    assert("verify_code_too_frequent"@.len() > 4);
    assert("verify_code_rate_limited"@.len() > 4);
    assert("user_blocked"@.len() > 4);
    assert("domain_invalid"@.len() > 4);
    assert("domain_not_found"@.len() > 4);
    assert("domain_forbidden"@.len() > 4);
    assert("domain_conflict"@.len() > 4);
    assert("domain_email_not_matched"@.len() > 4);
    assert("domain_expired"@.len() > 4);
    assert("domain_revoked"@.len() > 4);
    assert("subdomain_conflict"@.len() > 4);
    assert("subdomain_quota_exceeded"@.len() > 4);
    assert("cert_sequence_not_found"@.len() > 4);
}

/// The message for the user: the server's own, but for the seat limit of an identity.
pub open spec fn user_message(code: Seq<char>, server_message: Seq<char>) -> Seq<char> {
    if normalized_code(code) == "subdomain_quota_exceeded"@ {
        "The parent identity has reached its sub-identity seat limit. Update your subscription plan to add more seats, then try again."@
    } else {
        server_message
    }
}

/// The message for the user.
pub fn user_facing_api_message(code: &str, server_message: &str) -> (r: String)
    ensures
        r@ == user_message(code@, server_message@),
{
    if same(normalize_api_code(code), "subdomain_quota_exceeded") {
        "The parent identity has reached its sub-identity seat limit. Update your subscription plan to add more seats, then try again.".to_owned()
    } else {
        server_message.to_owned()
    }
}

impl Error {
    pub fn identity_fallback_disabled() -> (r: Error)
        ensures
            r == Error::IdentityFallbackUnavailable,
    {
        Error::IdentityFallbackUnavailable
    }

    /// The symbolic code of a refusal.
    pub open spec fn code(self) -> Option<Seq<char>> {
        match self {
            Error::Api { code, .. } => Some(normalized_code(code@)),
            _ => None,
        }
    }

    /// A refusal with this status and this symbolic code.
    pub open spec fn refused(self, status: u16, code: Seq<char>) -> bool {
        self matches Error::Api { status: s, .. } && s == status && self.code() == Some(code)
    }

    /// The symbolic code of a refusal.
    pub fn api_code(&self) -> (r: Option<&str>)
        ensures
            match r {
                Some(code) => self.code() == Some(code@),
                None => self.code() is None,
            },
    {
        match self {
            Error::Api { code, .. } => Some(normalize_api_code(code)),
            _ => None,
        }
    }

    /// Whether the server refused with this symbolic code.
    pub fn is_api_code(&self, expected: &str) -> (r: bool)
        ensures
            r == (self.code() == Some(expected@)),
    {
        match self.api_code() {
            Some(code) => same(code, expected),
            None => false,
        }
    }

    /// Whether the server refused with this status and this symbolic code.
    pub fn is_api(&self, expected_status: u16, expected_code: &str) -> (r: bool)
        ensures
            r == self.refused(expected_status, expected_code@),
    {
        match self {
            Error::Api { status, .. } => *status == expected_status && self.is_api_code(
                expected_code,
            ),
            _ => false,
        }
    }

    /// What the user reads.
    pub open spec fn words(self) -> Seq<char> {
        match self {
            Error::Request { message } => message@,
            Error::Api { message, .. } => message@,
            Error::Json => "failed to parse JSON response from cert server"@,
            Error::DhttpEndpoint => "failed to load DHTTP identity endpoint"@,
            Error::DhttpEndpointFromProfile {
                ..
            } => "failed to load DHTTP identity endpoint from selected profile"@,
            Error::DhttpRequest => "failed to send DHTTP identity request"@,
            Error::DhttpRead => "failed to read DHTTP identity response body"@,
            Error::IdentityFallbackUnavailable => "identity authentication failed and email fallback is unavailable"@,
            Error::Whatever { message } => message@,
        }
    }

    /// What the user reads.
    pub fn to_text(&self) -> (r: String)
        ensures
            r@ == self.words(),
    {
        match self {
            Error::Request { message } => message.clone(),
            Error::Api { message, .. } => message.clone(),
            Error::Json => "failed to parse JSON response from cert server".to_owned(),
            Error::DhttpEndpoint => "failed to load DHTTP identity endpoint".to_owned(),
            Error::DhttpEndpointFromProfile {
                ..
            } => "failed to load DHTTP identity endpoint from selected profile".to_owned(),
            Error::DhttpRequest => "failed to send DHTTP identity request".to_owned(),
            Error::DhttpRead => "failed to read DHTTP identity response body".to_owned(),
            Error::IdentityFallbackUnavailable => "identity authentication failed and email fallback is unavailable".to_owned(),
            Error::Whatever { message } => message.clone(),
        }
    }
}

/// The code of an error reply on the wire: a symbol, or a number of at most 16 bits in
/// decimal notation.
pub open spec fn wire_code(value: JsonView) -> Option<Seq<char>> {
    match value {
        JsonView::Text(symbol) => Some(symbol),
        JsonView::Integer(n) => if 0 <= n <= 65535 {
            Some(decimal_of(n as nat))
        } else {
            None
        },
        _ => None,
    }
}

fn read_wire_code(value: &Json) -> (r: Option<String>)
    ensures
        opt_view(r) == wire_code(value@),
{
    match value {
        Json::Text(symbol) => Some(symbol.clone()),
        Json::Integer(n) => if 0 <= *n && *n <= 65535 {
            Some(decimal_u64(*n as u64))
        } else {
            None
        },
        _ => None,
    }
}

/// The record `error` of an error reply.
#[derive(Debug)]
pub struct ErrorEnvelope {
    pub code: Json,
    pub message: String,
}

/// The record `error` of an error reply that comes with details.
#[derive(Debug)]
pub struct DetailedErrorEnvelope {
    pub code: Json,
    pub message: String,
    pub details: Json,
}

/// `error` is what an error reply with this status stands for; `parsed` is its envelope, where
/// the body holds one.
pub open spec fn means(status: u16, parsed: Option<ErrorEnvelope>, error: Error) -> bool {
    match parsed {
        None => error == Error::Json,
        Some(envelope) => match wire_code(envelope.code@) {
            None => error == Error::Json,
            Some(code) => error matches Error::Api { status: s, code: c, message: m } && s
                == status && c@ == code && m@ == user_message(code, envelope.message@),
        },
    }
}

fn refusal(status: u16, parsed: Option<ErrorEnvelope>) -> (r: Error)
    ensures
        means(status, parsed, r),
{
    match parsed {
        None => Error::Json,
        Some(envelope) => match read_wire_code(&envelope.code) {
            None => Error::Json,
            Some(code) => {
                let message = user_facing_api_message(&code, &envelope.message);
                Error::Api { status, code, message }
            },
        },
    }
}

/// What an error reply stands for. It never succeeds: the reply stands for an error. `parsed`
/// is the envelope in the body, where the body holds one.
pub fn parse_error_body(status: u16, parsed: Option<ErrorEnvelope>) -> (r: Result<(), Error>)
    ensures
        r matches Err(error) && means(status, parsed, error),
{
    Err(refusal(status, parsed))
}

/// The offer that comes with a refusal for want of seats.
#[derive(Debug, Clone, PartialEq, Eq)]
pub struct SubdomainQuotaQuote {
    pub domain: String,
    pub due: i64,
    pub currency: String,
    pub days_left: i64,
    pub days_total: i64,
    pub renewal: i64,
}

/// The same offer with its texts as sequences of characters.
pub ghost struct QuoteView {
    pub domain: Seq<char>,
    pub due: i64,
    pub currency: Seq<char>,
    pub days_left: i64,
    pub days_total: i64,
    pub renewal: i64,
}

impl View for SubdomainQuotaQuote {
    type V = QuoteView;

    open spec fn view(&self) -> QuoteView {
        QuoteView {
            domain: self.domain@,
            due: self.due,
            currency: self.currency@,
            days_left: self.days_left,
            days_total: self.days_total,
            renewal: self.renewal,
        }
    }
}

pub open spec fn text_field(value: JsonView, name: Seq<char>) -> Option<Seq<char>> {
    match value.field(name) {
        Some(field) => field.text(),
        None => None,
    }
}

pub open spec fn integer_field(value: JsonView, name: Seq<char>) -> Option<i64> {
    match value.field(name) {
        Some(field) => field.integer(),
        None => None,
    }
}

pub open spec fn integer_or_zero(value: JsonView, name: Seq<char>) -> i64 {
    match integer_field(value, name) {
        Some(n) => n,
        None => 0,
    }
}

/// Where the amounts of an offer stand: in `quota_quote`, else in `quote`, else beside the
/// other details.
pub open spec fn quote_source(details: JsonView) -> JsonView {
    match details.field("quota_quote"@) {
        Some(quote) => quote,
        None => match details.field("quote"@) {
            Some(quote) => quote,
            None => details,
        },
    }
}

/// The offer in the details of a refusal. It needs a domain, an amount and a currency.
pub open spec fn quote_in(details: JsonView) -> Option<QuoteView> {
    let source = quote_source(details);
    let domain = match text_field(details, "domain"@) {
        Some(domain) => Some(domain),
        None => text_field(source, "domain"@),
    };
    match (domain, integer_field(source, "due"@), text_field(source, "currency"@)) {
        (Some(domain), Some(due), Some(currency)) => Some(
            QuoteView {
                domain,
                due,
                currency,
                days_left: integer_or_zero(source, "days_left"@),
                days_total: integer_or_zero(source, "days_total"@),
                renewal: integer_or_zero(source, "renewal"@),
            },
        ),
        _ => None,
    }
}

fn extract_text(value: &Json, name: &str) -> (r: Option<String>)
    ensures
        opt_view(r) == text_field(value@, name@),
{
    match value.get(name) {
        Some(field) => field.as_text(),
        None => None,
    }
}

fn extract_integer(value: &Json, name: &str) -> (r: Option<i64>)
    ensures
        r == integer_field(value@, name@),
{
    match value.get(name) {
        Some(field) => field.as_integer(),
        None => None,
    }
}

fn extract_integer_or_zero(value: &Json, name: &str) -> (r: i64)
    ensures
        r == integer_or_zero(value@, name@),
{
    match extract_integer(value, name) {
        Some(n) => n,
        None => 0,
    }
}

pub open spec fn quote_view(quote: Option<SubdomainQuotaQuote>) -> Option<QuoteView> {
    match quote {
        Some(quote) => Some(quote@),
        None => None,
    }
}

/// Reads the offer out of the details of a refusal.
pub fn extract_subdomain_quota_quote(details: &Json) -> (r: Option<SubdomainQuotaQuote>)
    ensures
        quote_view(r) == quote_in(details@),
{
    let source = match details.get("quota_quote") {
        Some(quote) => quote,
        None => match details.get("quote") {
            Some(quote) => quote,
            None => details,
        },
    };
    let domain = match extract_text(details, "domain") {
        Some(domain) => Some(domain),
        None => extract_text(source, "domain"),
    };
    match (domain, extract_integer(source, "due"), extract_text(source, "currency")) {
        (Some(domain), Some(due), Some(currency)) => Some(
            SubdomainQuotaQuote {
                domain,
                due,
                currency,
                days_left: extract_integer_or_zero(source, "days_left"),
                days_total: extract_integer_or_zero(source, "days_total"),
                renewal: extract_integer_or_zero(source, "renewal"),
            },
        ),
        _ => None,
    }
}

/// The offer in a reply: only a reply with status 422 whose code says that there are no seats
/// left, and which has details, can hold one.
pub open spec fn quote_of_reply(status: u16, parsed: Option<DetailedErrorEnvelope>) -> Option<
    QuoteView,
> {
    match parsed {
        None => None,
        Some(envelope) => match wire_code(envelope.code@) {
            None => None,
            Some(code) => if status == 422 && normalized_code(code)
                == "subdomain_quota_exceeded"@ {
                quote_in(envelope.details@)
            } else {
                None
            },
        },
    }
}

fn quote_of(status: u16, parsed: Option<DetailedErrorEnvelope>) -> (r: Option<SubdomainQuotaQuote>)
    ensures
        quote_view(r) == quote_of_reply(status, parsed),
{
    if status != 422 {
        return None;
    }
    match parsed {
        None => None,
        Some(envelope) => match read_wire_code(&envelope.code) {
            None => None,
            Some(code) => if same(normalize_api_code(&code), "subdomain_quota_exceeded") {
                extract_subdomain_quota_quote(&envelope.details)
            } else {
                None
            },
        },
    }
}

/// The offer in a reply. `parsed` is the envelope in the body, where the body holds one with
/// details.
pub fn parse_subdomain_quota_quote(status: u16, parsed: Option<DetailedErrorEnvelope>) -> (r:
    Result<Option<SubdomainQuotaQuote>, Error>)
    ensures
        r matches Ok(quote) && quote_view(quote) == quote_of_reply(status, parsed),
{
    Ok(quote_of(status, parsed))
}

#[derive(Debug, Clone)]
pub struct EmailVerifyResponse {
    pub email: String,
    pub expires_at: i64,
}

#[derive(Debug, Clone)]
pub struct LoginResponse {
    pub email: String,
    pub access_token: String,
    pub token_expires_at: i64,
}

#[derive(Debug, Clone)]
pub struct DomainLoginResponse {
    pub domain: String,
    pub access_token: String,
    pub token_expires_at: i64,
}

/// Whether a name is free, and what it costs.
#[derive(Debug, Clone)]
pub struct DomainAvailabilityResponse {
    pub domain: String,
    pub availability: String,
    pub currency: String,
    pub prices: Vec<PricingItem>,
}

/// The price of a name for one billing interval.
#[derive(Debug, Clone)]
pub struct PricingItem {
    pub interval: String,
    pub amount: i64,
}

/// The amount of the first price for an interval.
pub open spec fn amount_for(prices: Seq<PricingItem>, interval: Seq<char>) -> Option<i64>
    decreases prices.len(),
{
    if prices.len() == 0 {
        None
    } else if prices[0].interval@ == interval {
        Some(prices[0].amount)
    } else {
        amount_for(prices.skip(1), interval)
    }
}

fn find_amount(prices: &Vec<PricingItem>, interval: &str) -> (r: Option<i64>)
    ensures
        r == amount_for(prices@, interval@),
{
    let mut i: usize = 0;
    assert(prices@.skip(0) == prices@);
    while i < prices.len()
        invariant
            i <= prices@.len(),
            amount_for(prices@, interval@) == amount_for(prices@.skip(i as int), interval@),
        decreases prices@.len() - i,
    {
        if same(&prices[i].interval, interval) {
            return Some(prices[i].amount);
        }
        assert(prices@.skip(i as int).skip(1) == prices@.skip(i + 1));
        i += 1;
    }
    None
}

impl DomainAvailabilityResponse {
    pub fn monthly_amount(&self) -> (r: Option<i64>)
        ensures
            r == amount_for(self.prices@, "monthly"@),
    {
        find_amount(&self.prices, "monthly")
    }

    pub fn yearly_amount(&self) -> (r: Option<i64>)
        ensures
            r == amount_for(self.prices@, "yearly"@),
    {
        find_amount(&self.prices, "yearly")
    }

    /// A name is free where there are prices and all of them are zero.
    pub fn is_free(&self) -> (r: bool)
        ensures
            r == (self.prices@.len() > 0 && forall|i: int|
                0 <= i < self.prices@.len() ==> (#[trigger] self.prices@[i]).amount == 0),
    {
        let mut i: usize = 0;
        while i < self.prices.len()
            invariant
                i <= self.prices@.len(),
                forall|j: int| 0 <= j < i ==> (#[trigger] self.prices@[j]).amount == 0,
            decreases self.prices@.len() - i,
        {
            if self.prices[i].amount != 0 {
                assert(self.prices@[i as int].amount != 0);
                return false;
            }
            i += 1;
        }
        self.prices.len() > 0
    }
}

#[derive(Debug, Clone)]
pub struct DomainQuotes {
    pub currency: String,
    pub monthly: i64,
    pub yearly: i64,
    pub default_billing_cycle: String,
}

#[derive(Debug, Clone)]
pub struct ReservationInfo {
    pub reservation_no: String,
    pub status: String,
    pub expires_at: i64,
}

#[derive(Debug, Clone)]
pub struct PaymentEntryInfo {
    pub url: String,
    pub checkout_token: String,
    pub expires_at: i64,
}

#[derive(Debug, Clone)]
pub struct CreateDomainAuthInfo {
    pub email: String,
    pub is_new_user: bool,
    pub access_token: String,
    pub token_expires_at: i64,
}

#[derive(Debug, Clone)]
pub struct SubscriptionInfo {
    pub subscription_no: String,
    pub status: String,
    pub url: String,
}

#[derive(Debug, Clone)]
pub struct InvoiceInfo {
    pub number: String,
    pub status: String,
    pub amount: i64,
    pub currency: String,
    pub billing_cycle: Option<String>,
    pub expires_at: Option<i64>,
    pub paid_at: Option<i64>,
}

#[derive(Debug, Clone)]
pub struct CreateDomainResponse {
    pub domain: String,
    pub quotes: DomainQuotes,
    pub reservation: Option<ReservationInfo>,
    pub payment_entry: Option<PaymentEntryInfo>,
    pub next_action: String,
    pub selected_billing_cycle: Option<String>,
    pub subscription: Option<SubscriptionInfo>,
    pub invoice: Option<InvoiceInfo>,
    pub auth: Option<CreateDomainAuthInfo>,
}

#[derive(Debug, Clone)]
pub struct SubdomainCertQuota {
    pub limit: i32,
    pub used: i32,
}

#[derive(Debug, Clone)]
pub struct SubdomainInvoice {
    pub number: String,
    pub amount: i64,
    pub currency: String,
}

#[derive(Debug, Clone)]
pub struct CreateSubdomainResponse {
    pub domain: String,
    pub parent: String,
    pub status: String,
    pub expires_at: Option<i64>,
    pub cert: SubdomainCertQuota,
    pub url: String,
    pub certs_url: String,
    pub created_at: i64,
    pub invoice: Option<SubdomainInvoice>,
}

/// What came of the request for a sub-identity.
#[derive(Debug, Clone)]
pub enum CreateSubdomainAttempt {
    Created(CreateSubdomainResponse),
    QuotaExceeded(SubdomainQuotaQuote),
}

#[derive(Debug, Clone)]
pub struct CertificateDetail {
    pub domain: String,
    pub device_name: Option<String>,
    pub sequence: u32,
    pub kind: String,
    pub serial_number: Option<String>,
    pub ski: Option<String>,
    pub ski_version: Option<String>,
    pub status: String,
    pub csr: String,
    pub cert_pem: String,
    pub issued_at: i64,
    pub valid_not_after: i64,
    pub created_at: i64,
}

#[derive(Debug, Clone)]
pub struct InvoiceDetail {
    pub invoice_no: String,
    pub domain: String,
    pub status: String,
    pub amount: i64,
    pub currency: String,
    pub url: String,
    pub expires_at: Option<i64>,
    pub updated_at: Option<i64>,
}

#[derive(Debug, Clone)]
pub struct PageInfo {
    pub page: usize,
    pub page_size: usize,
    pub total: usize,
}

#[derive(Debug, Clone)]
pub struct CertificateListItem {
    pub domain: String,
    pub device_name: Option<String>,
    pub sequence: u32,
    pub kind: String,
    pub serial_number: Option<String>,
    pub ski: Option<String>,
    pub ski_version: Option<String>,
    pub status: String,
    pub issued_at: i64,
    pub valid_not_after: i64,
    pub revoked_at: Option<i64>,
    pub created_at: i64,
}

#[derive(Debug, Clone)]
pub struct CertificateListPage {
    pub list: Vec<CertificateListItem>,
    pub pagination: PageInfo,
}

/// The request for a new root identity. It never asks for automatic renewal.
#[derive(Debug, Clone)]
pub struct CreateDomainRequest {
    pub domain: String,
    pub email: Option<String>,
    pub verify_code: Option<String>,
    pub auto_renew: bool,
    pub redirect_mode: String,
    pub terms_accepted: bool,
    pub terms_version: String,
}

impl CreateDomainRequest {
    pub fn new(domain: &str, email: Option<&str>, verify_code: Option<&str>) -> (r: Self)
        ensures
            r.domain@ == domain@,
            opt_view(r.email) == (match email {
                Some(email) => Some(email@),
                None => None,
            }),
            opt_view(r.verify_code) == (match verify_code {
                Some(code) => Some(code@),
                None => None,
            }),
            !r.auto_renew,
            r.redirect_mode@ == "payment_required"@,
            r.terms_accepted,
            r.terms_version@ == "v1"@,
    {
        CreateDomainRequest {
            domain: domain.to_owned(),
            email: match email {
                Some(email) => Some(email.to_owned()),
                None => None,
            },
            verify_code: match verify_code {
                Some(code) => Some(code.to_owned()),
                None => None,
            },
            auto_renew: false,
            redirect_mode: "payment_required".to_owned(),
            terms_accepted: true,
            terms_version: "v1".to_owned(),
        }
    }
}

/// An HTTP status that reports success.
pub open spec fn success(status: u16) -> bool {
    200 <= status <= 299
}

pub fn is_success(status: u16) -> (r: bool)
    ensures
        r == success(status),
{
    200 <= status && status <= 299
}

/// What a reply stands for: the record in it where the status reports success, otherwise the
/// error in it. `error` and `parsed` are the envelope of an error and the record, where the body
/// holds them.
pub fn parse_response<T>(status: u16, error: Option<ErrorEnvelope>, parsed: Option<T>) -> (r:
    Result<T, Error>)
    ensures
        match r {
            Ok(record) => success(status) && parsed == Some(record),
            Err(failure) => if success(status) {
                parsed is None && failure == Error::Json
            } else {
                means(status, error, failure)
            },
        },
{
    if !is_success(status) {
        return Err(refusal(status, error));
    }
    match parsed {
        Some(record) => Ok(record),
        None => Err(Error::Json),
    }
}

/// A reply that asks for payment before the identity is created.
pub open spec fn asks_for_payment(reply: CreateDomainResponse) -> bool {
    reply.next_action@ == "payment"@ || reply.payment_entry is Some
}

/// What the reply to the request for a root identity stands for. A reply with status 402 is a
/// record like a success where it asks for payment.
pub fn parse_create_domain_response(
    status: u16,
    error: Option<ErrorEnvelope>,
    parsed: Option<CreateDomainResponse>,
) -> (r: Result<CreateDomainResponse, Error>)
    ensures
        match r {
            Ok(record) => parsed == Some(record) && (success(status) || (status == 402
                && asks_for_payment(record))),
            Err(failure) => if success(status) || (status == 402 && parsed is None) {
                parsed is None && failure == Error::Json
            } else {
                means(status, error, failure) && !(status == 402
                    && asks_for_payment(parsed->0))
            },
        },
{
    if status == 402 {
        return match parsed {
            None => Err(Error::Json),
            Some(record) => {
                if same(&record.next_action, "payment") || record.payment_entry.is_some() {
                    Ok(record)
                } else {
                    Err(refusal(status, error))
                }
            },
        };
    }
    parse_response(status, error, parsed)
}

/// What the reply to the request for a sub-identity stands for. `detailed`, `error` and `parsed`
/// are the envelopes of an error with and without details and the record, where the body holds
/// them.
pub fn parse_create_subdomain_response(
    status: u16,
    detailed: Option<DetailedErrorEnvelope>,
    error: Option<ErrorEnvelope>,
    parsed: Option<CreateSubdomainResponse>,
) -> (r: Result<CreateSubdomainAttempt, Error>)
    ensures
        match quote_of_reply(status, detailed) {
            Some(quote) => r matches Ok(CreateSubdomainAttempt::QuotaExceeded(q)) && q@ == quote,
            None => match r {
                Ok(CreateSubdomainAttempt::Created(record)) => success(status) && parsed == Some(
                    record,
                ),
                Ok(CreateSubdomainAttempt::QuotaExceeded(_)) => false,
                Err(failure) => if success(status) {
                    parsed is None && failure == Error::Json
                } else {
                    means(status, error, failure)
                },
            },
        },
{
    if let Some(quote) = quote_of(status, detailed) {
        return Ok(CreateSubdomainAttempt::QuotaExceeded(quote));
    }
    match parse_response(status, error, parsed) {
        Ok(record) => Ok(CreateSubdomainAttempt::Created(record)),
        Err(error) => Err(error),
    }
}

/// A byte that stands for itself in the query of a URL.
pub open spec fn unreserved(byte: u8) -> bool {
    ||| 48 <= byte <= 57
    ||| 65 <= byte <= 90
    ||| 97 <= byte <= 122
    ||| byte == 45
    ||| byte == 46
    ||| byte == 95
    ||| byte == 126
}

pub open spec fn hex_digit(n: int) -> char {
    if n < 10 {
        (48 + n) as char
    } else {
        (55 + n) as char
    }
}

/// Bytes with every reserved one written as a percent sign and two hexadecimal digits.
pub open spec fn percent_encoded(bytes: Seq<u8>) -> Seq<char>
    decreases bytes.len(),
{
    if bytes.len() == 0 {
        Seq::<char>::empty()
    } else {
        let last = bytes.last();
        percent_encoded(bytes.drop_last()) + (if unreserved(last) {
            seq![last as char]
        } else {
            seq!['%', hex_digit(last as int / 16), hex_digit(last as int % 16)]
        })
    }
}

/// Calls `urlencoding::encode`, which percent-encodes every byte of the UTF-8 encoding except
/// ASCII letters, digits, and `-`, `.`, `_` and `~`, with capital hexadecimal digits.
#[verifier::external_body]
pub(crate) fn url_encode(text: &str) -> (r: String)
    ensures
        r@ == percent_encoded(encode_utf8(text@)),
{
    urlencoding::encode(text).into_owned()
}

pub open spec fn encoded(text: Seq<char>) -> Seq<char> {
    percent_encoded(encode_utf8(text))
}

/// The path under which the certificates of a domain are listed.
pub open spec fn certificate_list_path(
    domain: Seq<char>,
    kind: Option<Seq<char>>,
    sequence: Option<u32>,
) -> Seq<char> {
    let path = "/v2/cert?domain="@ + encoded(domain);
    let path = match kind {
        Some(kind) => path + "&kind="@ + encoded(kind),
        None => path,
    };
    match sequence {
        Some(sequence) => path + "&sequence="@ + decimal_of(sequence as nat),
        None => path,
    }
}

/// The path under which the certificates of a domain are listed.
pub fn list_certs_query(domain: &str, kind: Option<&str>, sequence: Option<u32>) -> (r: String)
    ensures
        r@ == certificate_list_path(
            domain@,
            match kind {
                Some(kind) => Some(kind@),
                None => None,
            },
            sequence,
        ),
{
    let mut query = "/v2/cert?domain=".to_owned();
    query.append(&url_encode(domain));
    if let Some(kind) = kind {
        query.append("&kind=");
        query.append(&url_encode(kind));
    }
    if let Some(sequence) = sequence {
        query.append("&sequence=");
        query.append(&decimal_u64(sequence as u64));
    }
    query
}

/// The path under which one certificate is found.
pub fn cert_detail_query(serial_number: &str) -> (r: String)
    ensures
        r@ == "/v2/cert?serial_number="@ + encoded(serial_number@),
{
    let mut query = "/v2/cert?serial_number=".to_owned();
    query.append(&url_encode(serial_number));
    query
}

/// The normal form of a URL, `None` where the text is no URL.
pub uninterp spec fn url_text(url: Seq<char>) -> Option<Seq<char>>;

/// The normal form of a URL with its port taken out, `None` where the text is no URL or one
/// that cannot have a port.
pub uninterp spec fn url_without_port(url: Seq<char>) -> Option<Seq<char>>;

/// Parses with `reqwest::Url::parse` and gives back `Url::as_str`. Both are functions of the
/// text; the name `url_text` stands for what they give.
#[verifier::external_body]
pub(crate) fn normal_url(url: &str) -> (r: Option<String>)
    ensures
        opt_view(r) == url_text(url@),
{
    reqwest::Url::parse(url).ok().map(|parsed| parsed.as_str().to_owned())
}

/// Parses with `reqwest::Url::parse`, drops the port with `Url::set_port` and gives back
/// `Url::as_str`. The name `url_without_port` stands for what they give.
#[verifier::external_body]
pub(crate) fn portless_url(url: &str) -> (r: Option<String>)
    ensures
        opt_view(r) == url_without_port(url@),
{
    let mut parsed = reqwest::Url::parse(url).ok()?;
    parsed.set_port(None).ok()?;
    Some(parsed.as_str().to_owned())
}

/// A text without the slashes at its end.
pub open spec fn without_slashes(s: Seq<char>) -> Seq<char>
    decreases s.len(),
{
    if s.len() > 0 && s.last() == '/' {
        without_slashes(s.drop_last())
    } else {
        s
    }
}

/// A text without the slashes at its end.
pub fn trim_slashes(s: &str) -> (r: &str)
    ensures
        r@ == without_slashes(s@),
{
    let chars = chars_of(s);
    let mut to: usize = chars.len();
    assert(s@.take(to as int) == s@);
    while to > 0 && chars[to - 1] == '/'
        invariant
            to <= chars@.len(),
            chars@ == s@,
            without_slashes(s@) == without_slashes(s@.take(to as int)),
        decreases to,
    {
        assert(s@.take(to as int).drop_last() == s@.take(to - 1));
        to -= 1;
    }
    assert(s@.take(to as int) == s@.subrange(0, to as int));
    s.substring_char(0, to)
}

/// Why a text cannot be the address of a certificate server.
#[derive(Debug, Clone, Copy, PartialEq, Eq, Structural)]
pub enum AddressError {
    Parse,
    Port,
}

impl AddressError {
    pub fn message(self) -> (r: &'static str)
        ensures
            r@ == (match self {
                AddressError::Parse => "failed to parse cert server URL"@,
                AddressError::Port => "failed to remove port from cert server URL"@,
            }),
    {
        match self {
            AddressError::Parse => "failed to parse cert server URL",
            AddressError::Port => "failed to remove port from cert server URL",
        }
    }
}

/// The address of a certificate server. It answers over HTTP/3 on the port of its address and
/// over TCP on the default port of its scheme.
#[derive(Debug, Clone)]
pub struct CertServer {
    pub base_url: String,
}

impl CertServer {
    /// Takes an address apart. Given the normal form of the URL and that form without its
    /// port, this is all that is left to decide.
    pub fn from_parsed(url: Option<String>, portless: Option<String>) -> (r: Result<
        Self,
        AddressError,
    >)
        ensures
            match r {
                Ok(server) => url is Some && portless is Some && server.base_url@ == without_slashes(
                    url->0@,
                ),
                Err(AddressError::Parse) => url is None,
                Err(AddressError::Port) => url is Some && portless is None,
            },
    {
        match url {
            None => Err(AddressError::Parse),
            Some(url) => match portless {
                None => Err(AddressError::Port),
                Some(_) => Ok(CertServer { base_url: trim_slashes(&url).to_owned() }),
            },
        }
    }

    pub fn new(base_url: &str) -> (r: Result<Self, AddressError>)
        ensures
            match r {
                Ok(server) => url_text(base_url@) is Some && url_without_port(base_url@) is Some
                    && server.base_url@ == without_slashes(url_text(base_url@)->0),
                Err(AddressError::Parse) => url_text(base_url@) is None,
                Err(AddressError::Port) => url_text(base_url@) is Some && url_without_port(
                    base_url@,
                ) is None,
            },
    {
        CertServer::from_parsed(normal_url(base_url), portless_url(base_url))
    }

    /// The URL of a path over TCP.
    pub fn http_url(&self, path: &str) -> (r: String)
        requires
            url_without_port(self.base_url@) is Some,
        ensures
            r@ == without_slashes(url_without_port(self.base_url@)->0) + path@,
    {
        match portless_url(&self.base_url) {
            Some(url) => {
                let mut r = trim_slashes(&url).to_owned();
                r.append(path);
                r
            },
            None => String::new(),
        }
    }

    /// The URL of a path over TCP, where the address has one.
    pub fn try_http_url(&self, path: &str) -> (r: Option<String>)
        ensures
            match r {
                Some(url) => url_without_port(self.base_url@) is Some && url@ == without_slashes(
                    url_without_port(self.base_url@)->0,
                ) + path@,
                None => url_without_port(self.base_url@) is None,
            },
    {
        match portless_url(&self.base_url) {
            Some(_) => Some(self.http_url(path)),
            None => None,
        }
    }

    /// The URL of a path over HTTP/3.
    pub fn h3_url(&self, path: &str) -> (r: String)
        ensures
            r@ == self.base_url@ + path@,
    {
        let mut r = self.base_url.clone();
        r.append(path);
        r
    }
}

/// A refusal has a name and a number, and either may come: the name of a code is this one just
/// where the code is the number or the name itself. Every other code is its own name.
pub proof fn codes_have_a_number_and_a_name(code: Seq<char>)
    ensures
        normalized_code(code) == "unauthorized"@ <==> code == "1002"@ || code == "unauthorized"@,
        normalized_code(code) == "email_invalid"@ <==> code == "1101"@ || code == "email_invalid"@,
        normalized_code(code) == "verify_code_invalid"@ <==> code == "1102"@ || code == "verify_code_invalid"@,
        normalized_code(code) == "verify_code_expired"@ <==> code == "1103"@ || code == "verify_code_expired"@,
        normalized_code(code) == "verify_code_attempt_exceeded"@ <==> code == "1104"@ || code == "verify_code_attempt_exceeded"@,
        normalized_code(code) == "verify_code_too_frequent"@ <==> code == "1105"@ || code == "verify_code_too_frequent"@,
        normalized_code(code) == "verify_code_rate_limited"@ <==> code == "1106"@ || code == "verify_code_rate_limited"@,
        normalized_code(code) == "user_blocked"@ <==> code == "1110"@ || code == "user_blocked"@,
        normalized_code(code) == "domain_invalid"@ <==> code == "1201"@ || code == "domain_invalid"@,
        normalized_code(code) == "domain_not_found"@ <==> code == "1202"@ || code == "domain_not_found"@,
        normalized_code(code) == "domain_forbidden"@ <==> code == "1203"@ || code == "domain_forbidden"@,
        normalized_code(code) == "domain_conflict"@ <==> code == "1208"@ || code == "domain_conflict"@,
        normalized_code(code) == "domain_email_not_matched"@ <==> code == "1211"@ || code == "domain_email_not_matched"@,
        normalized_code(code) == "domain_expired"@ <==> code == "1212"@ || code == "domain_expired"@,
        normalized_code(code) == "domain_revoked"@ <==> code == "1213"@ || code == "domain_revoked"@,
        normalized_code(code) == "subdomain_conflict"@ <==> code == "1303"@ || code == "subdomain_conflict"@,
        normalized_code(code) == "subdomain_quota_exceeded"@ <==> code == "1304"@ || code == "subdomain_quota_exceeded"@,
        normalized_code(code) == "cert_sequence_not_found"@ <==> code == "1407"@ || code == "cert_sequence_not_found"@,
        code.len() != 4 ==> normalized_code(code) == code,
{
    reveal_strlit("1002");
    reveal_strlit("1101");
    reveal_strlit("1102");
    reveal_strlit("1103");
    reveal_strlit("1104");
    reveal_strlit("1105");
    reveal_strlit("1106");
    reveal_strlit("1110");
    reveal_strlit("1201");
    reveal_strlit("1202");
    reveal_strlit("1203");
    reveal_strlit("1208");
    reveal_strlit("1211");
    reveal_strlit("1212");
    reveal_strlit("1213");
    reveal_strlit("1303");
    reveal_strlit("1304");
    reveal_strlit("1407");
    reveal_strlit("unauthorized");
    reveal_strlit("email_invalid");
    reveal_strlit("verify_code_invalid");
    reveal_strlit("verify_code_expired");
    reveal_strlit("verify_code_attempt_exceeded");
    reveal_strlit("verify_code_too_frequent");
    reveal_strlit("verify_code_rate_limited");
    reveal_strlit("user_blocked");
    reveal_strlit("domain_invalid");
    reveal_strlit("domain_not_found");
    reveal_strlit("domain_forbidden");
    reveal_strlit("domain_conflict");
    reveal_strlit("domain_email_not_matched");
    reveal_strlit("domain_expired");
    reveal_strlit("domain_revoked");
    reveal_strlit("subdomain_conflict");
    reveal_strlit("subdomain_quota_exceeded");
    reveal_strlit("cert_sequence_not_found");
    assert("1002"@.len() == 4);
    assert("1101"@.len() == 4);
    assert("1102"@.len() == 4);
    assert("1103"@.len() == 4);
    assert("1104"@.len() == 4);
    assert("1105"@.len() == 4);
    assert("1106"@.len() == 4);
    assert("1110"@.len() == 4);
    assert("1201"@.len() == 4);
    assert("1202"@.len() == 4);
    assert("1203"@.len() == 4);
    assert("1208"@.len() == 4);
    assert("1211"@.len() == 4);
    assert("1212"@.len() == 4);
    assert("1213"@.len() == 4);
    assert("1303"@.len() == 4);
    assert("1304"@.len() == 4);
    assert("1407"@.len() == 4);
    assert("unauthorized"@.len() == 12);
    assert("email_invalid"@.len() == 13);
    assert("verify_code_invalid"@.len() == 19);
    assert("verify_code_expired"@.len() == 19);
    assert("verify_code_attempt_exceeded"@.len() == 28);
    assert("verify_code_too_frequent"@.len() == 24);
    assert("verify_code_rate_limited"@.len() == 24);
    assert("user_blocked"@.len() == 12);
    assert("domain_invalid"@.len() == 14);
    assert("domain_not_found"@.len() == 16);
    assert("domain_forbidden"@.len() == 16);
    assert("domain_conflict"@.len() == 15);
    assert("domain_email_not_matched"@.len() == 24);
    assert("domain_expired"@.len() == 14);
    assert("domain_revoked"@.len() == 14);
    assert("subdomain_conflict"@.len() == 18);
    assert("subdomain_quota_exceeded"@.len() == 24);
    assert("cert_sequence_not_found"@.len() == 23);
    assert("1002"@[1] != "1101"@[1]);
    assert("1002"@[1] != "1102"@[1]);
    assert("1002"@[1] != "1103"@[1]);
    assert("1002"@[1] != "1104"@[1]);
    assert("1002"@[1] != "1105"@[1]);
    assert("1002"@[1] != "1106"@[1]);
    assert("1002"@[1] != "1110"@[1]);
    assert("1002"@[1] != "1201"@[1]);
    assert("1002"@[1] != "1202"@[1]);
    assert("1002"@[1] != "1203"@[1]);
    assert("1002"@[1] != "1208"@[1]);
    assert("1002"@[1] != "1211"@[1]);
    assert("1002"@[1] != "1212"@[1]);
    assert("1002"@[1] != "1213"@[1]);
    assert("1002"@[1] != "1303"@[1]);
    assert("1002"@[1] != "1304"@[1]);
    assert("1002"@[1] != "1407"@[1]);
    assert("1101"@[3] != "1102"@[3]);
    assert("1101"@[3] != "1103"@[3]);
    assert("1101"@[3] != "1104"@[3]);
    assert("1101"@[3] != "1105"@[3]);
    assert("1101"@[3] != "1106"@[3]);
    assert("1101"@[2] != "1110"@[2]);
    assert("1101"@[1] != "1201"@[1]);
    assert("1101"@[1] != "1202"@[1]);
    assert("1101"@[1] != "1203"@[1]);
    assert("1101"@[1] != "1208"@[1]);
    assert("1101"@[1] != "1211"@[1]);
    assert("1101"@[1] != "1212"@[1]);
    assert("1101"@[1] != "1213"@[1]);
    assert("1101"@[1] != "1303"@[1]);
    assert("1101"@[1] != "1304"@[1]);
    assert("1101"@[1] != "1407"@[1]);
    assert("1102"@[3] != "1103"@[3]);
    assert("1102"@[3] != "1104"@[3]);
    assert("1102"@[3] != "1105"@[3]);
    assert("1102"@[3] != "1106"@[3]);
    assert("1102"@[2] != "1110"@[2]);
    assert("1102"@[1] != "1201"@[1]);
    assert("1102"@[1] != "1202"@[1]);
    assert("1102"@[1] != "1203"@[1]);
    assert("1102"@[1] != "1208"@[1]);
    assert("1102"@[1] != "1211"@[1]);
    assert("1102"@[1] != "1212"@[1]);
    assert("1102"@[1] != "1213"@[1]);
    assert("1102"@[1] != "1303"@[1]);
    assert("1102"@[1] != "1304"@[1]);
    assert("1102"@[1] != "1407"@[1]);
    assert("1103"@[3] != "1104"@[3]);
    assert("1103"@[3] != "1105"@[3]);
    assert("1103"@[3] != "1106"@[3]);
    assert("1103"@[2] != "1110"@[2]);
    assert("1103"@[1] != "1201"@[1]);
    assert("1103"@[1] != "1202"@[1]);
    assert("1103"@[1] != "1203"@[1]);
    assert("1103"@[1] != "1208"@[1]);
    assert("1103"@[1] != "1211"@[1]);
    assert("1103"@[1] != "1212"@[1]);
    assert("1103"@[1] != "1213"@[1]);
    assert("1103"@[1] != "1303"@[1]);
    assert("1103"@[1] != "1304"@[1]);
    assert("1103"@[1] != "1407"@[1]);
    assert("1104"@[3] != "1105"@[3]);
    assert("1104"@[3] != "1106"@[3]);
    assert("1104"@[2] != "1110"@[2]);
    assert("1104"@[1] != "1201"@[1]);
    assert("1104"@[1] != "1202"@[1]);
    assert("1104"@[1] != "1203"@[1]);
    assert("1104"@[1] != "1208"@[1]);
    assert("1104"@[1] != "1211"@[1]);
    assert("1104"@[1] != "1212"@[1]);
    assert("1104"@[1] != "1213"@[1]);
    assert("1104"@[1] != "1303"@[1]);
    assert("1104"@[1] != "1304"@[1]);
    assert("1104"@[1] != "1407"@[1]);
    assert("1105"@[3] != "1106"@[3]);
    assert("1105"@[2] != "1110"@[2]);
    assert("1105"@[1] != "1201"@[1]);
    assert("1105"@[1] != "1202"@[1]);
    assert("1105"@[1] != "1203"@[1]);
    assert("1105"@[1] != "1208"@[1]);
    assert("1105"@[1] != "1211"@[1]);
    assert("1105"@[1] != "1212"@[1]);
    assert("1105"@[1] != "1213"@[1]);
    assert("1105"@[1] != "1303"@[1]);
    assert("1105"@[1] != "1304"@[1]);
    assert("1105"@[1] != "1407"@[1]);
    assert("1106"@[2] != "1110"@[2]);
    assert("1106"@[1] != "1201"@[1]);
    assert("1106"@[1] != "1202"@[1]);
    assert("1106"@[1] != "1203"@[1]);
    assert("1106"@[1] != "1208"@[1]);
    assert("1106"@[1] != "1211"@[1]);
    assert("1106"@[1] != "1212"@[1]);
    assert("1106"@[1] != "1213"@[1]);
    assert("1106"@[1] != "1303"@[1]);
    assert("1106"@[1] != "1304"@[1]);
    assert("1106"@[1] != "1407"@[1]);
    assert("1110"@[1] != "1201"@[1]);
    assert("1110"@[1] != "1202"@[1]);
    assert("1110"@[1] != "1203"@[1]);
    assert("1110"@[1] != "1208"@[1]);
    assert("1110"@[1] != "1211"@[1]);
    assert("1110"@[1] != "1212"@[1]);
    assert("1110"@[1] != "1213"@[1]);
    assert("1110"@[1] != "1303"@[1]);
    assert("1110"@[1] != "1304"@[1]);
    assert("1110"@[1] != "1407"@[1]);
    assert("1201"@[3] != "1202"@[3]);
    assert("1201"@[3] != "1203"@[3]);
    assert("1201"@[3] != "1208"@[3]);
    assert("1201"@[2] != "1211"@[2]);
    assert("1201"@[2] != "1212"@[2]);
    assert("1201"@[2] != "1213"@[2]);
    assert("1201"@[1] != "1303"@[1]);
    assert("1201"@[1] != "1304"@[1]);
    assert("1201"@[1] != "1407"@[1]);
    assert("1202"@[3] != "1203"@[3]);
    assert("1202"@[3] != "1208"@[3]);
    assert("1202"@[2] != "1211"@[2]);
    assert("1202"@[2] != "1212"@[2]);
    assert("1202"@[2] != "1213"@[2]);
    assert("1202"@[1] != "1303"@[1]);
    assert("1202"@[1] != "1304"@[1]);
    assert("1202"@[1] != "1407"@[1]);
    assert("1203"@[3] != "1208"@[3]);
    assert("1203"@[2] != "1211"@[2]);
    assert("1203"@[2] != "1212"@[2]);
    assert("1203"@[2] != "1213"@[2]);
    assert("1203"@[1] != "1303"@[1]);
    assert("1203"@[1] != "1304"@[1]);
    assert("1203"@[1] != "1407"@[1]);
    assert("1208"@[2] != "1211"@[2]);
    assert("1208"@[2] != "1212"@[2]);
    assert("1208"@[2] != "1213"@[2]);
    assert("1208"@[1] != "1303"@[1]);
    assert("1208"@[1] != "1304"@[1]);
    assert("1208"@[1] != "1407"@[1]);
    assert("1211"@[3] != "1212"@[3]);
    assert("1211"@[3] != "1213"@[3]);
    assert("1211"@[1] != "1303"@[1]);
    assert("1211"@[1] != "1304"@[1]);
    assert("1211"@[1] != "1407"@[1]);
    assert("1212"@[3] != "1213"@[3]);
    assert("1212"@[1] != "1303"@[1]);
    assert("1212"@[1] != "1304"@[1]);
    assert("1212"@[1] != "1407"@[1]);
    assert("1213"@[1] != "1303"@[1]);
    assert("1213"@[1] != "1304"@[1]);
    assert("1213"@[1] != "1407"@[1]);
    assert("1303"@[3] != "1304"@[3]);
    assert("1303"@[1] != "1407"@[1]);
    assert("1304"@[1] != "1407"@[1]);
    assert("unauthorized"@[1] != "user_blocked"@[1]);
    assert("verify_code_invalid"@[12] != "verify_code_expired"@[12]);
    assert("verify_code_too_frequent"@[12] != "verify_code_rate_limited"@[12]);
    assert("verify_code_too_frequent"@[0] != "domain_email_not_matched"@[0]);
    assert("verify_code_too_frequent"@[0] != "subdomain_quota_exceeded"@[0]);
    assert("verify_code_rate_limited"@[0] != "domain_email_not_matched"@[0]);
    assert("verify_code_rate_limited"@[0] != "subdomain_quota_exceeded"@[0]);
    assert("domain_invalid"@[7] != "domain_expired"@[7]);
    assert("domain_invalid"@[7] != "domain_revoked"@[7]);
    assert("domain_not_found"@[7] != "domain_forbidden"@[7]);
    assert("domain_email_not_matched"@[0] != "subdomain_quota_exceeded"@[0]);
    assert("domain_expired"@[7] != "domain_revoked"@[7]);
}

/// What the server says is shown as it is, but for the seats that have run out.
pub proof fn messages_are_shown_as_they_came(code: Seq<char>, message: Seq<char>)
    ensures
        code != "1304"@ && code != "subdomain_quota_exceeded"@ ==> user_message(code, message)
            == message,
        code == "1304"@ || code == "subdomain_quota_exceeded"@ ==> user_message(code, message)
            == "The parent identity has reached its sub-identity seat limit. Update your subscription plan to add more seats, then try again."@,
{
    codes_have_a_number_and_a_name(code);
}

/// A code is a text, or a number of sixteen bits, which stands for its digits.
pub proof fn codes_are_texts_or_numbers(value: JsonView)
    ensures
        wire_code(value) is Some <==> value is Text || (value matches JsonView::Integer(n) && 0 <= n
            <= 65535),
        value matches JsonView::Text(text) ==> wire_code(value) == Some(text),
        value matches JsonView::Integer(n) ==> 0 <= n <= 65535 ==> wire_code(value) == Some(
            decimal_of(n as nat),
        ),
{
}

/// What an error reply means: the status as it came, the code and the message it carries; a
/// reply that cannot be read, or whose code is none, is told as such.
pub proof fn error_replies_are_told(status: u16, parsed: Option<ErrorEnvelope>, error: Error)
    requires
        means(status, parsed, error),
    ensures
        parsed is None ==> error == Error::Json,
        error == Error::Json || error is Api,
        error matches Error::Api { status: told, code, message } ==> told == status && (
        parsed matches Some(envelope) && (envelope.code@ matches JsonView::Text(text) ==> code@
            == text) && (envelope.code@ matches JsonView::Integer(n) ==> code@ == decimal_of(
            n as nat,
        )) && (code@ != "1304"@ && code@ != "subdomain_quota_exceeded"@ ==> message@
            == envelope.message@)),
{
    if let Error::Api { code, message, .. } = error {
        messages_are_shown_as_they_came(code@, parsed->0.message@);
    }
}

/// A refusal is told by its status and its code, which has a number and a name.
pub proof fn refusals_are_told_by_status_and_code(error: Error, status: u16)
    ensures
        error.code() is Some <==> error is Api,
        error.refused(status, "verify_code_invalid"@) <==> (error matches Error::Api {
            status: told,
            code,
            ..
        } && told == status && (code@ == "1102"@ || code@ == "verify_code_invalid"@)),
        error.refused(status, "domain_not_found"@) <==> (error matches Error::Api {
            status: told,
            code,
            ..
        } && told == status && (code@ == "1202"@ || code@ == "domain_not_found"@)),
{
    if let Error::Api { code, .. } = error {
        codes_have_a_number_and_a_name(code@);
    }
}

/// A quote is read only from a reply that says that the seats have run out.
pub proof fn quotes_come_with_the_seat_limit(status: u16, envelope: DetailedErrorEnvelope)
    ensures
        quote_of_reply(status, None) is None,
        quote_of_reply(status, Some(envelope)) is Some ==> status == 422 && (
        envelope.code@ matches JsonView::Text(code) ==> code == "1304"@ || code
            == "subdomain_quota_exceeded"@) && quote_of_reply(status, Some(envelope)) == quote_in(
            envelope.details@,
        ),
        status == 422 && (envelope.code@ == JsonView::Text("1304"@) || envelope.code@
            == JsonView::Text("subdomain_quota_exceeded"@)) ==> quote_of_reply(
            status,
            Some(envelope),
        ) == quote_in(envelope.details@),
{
    if let JsonView::Text(code) = envelope.code@ {
        codes_have_a_number_and_a_name(code);
    }
}

/// A quote needs an amount, its currency and a name, which may stand beside the quote; what it
/// says of days and of the renewal is nought where it is not said.
pub proof fn quotes_are_read_field_by_field(details: JsonView, source: JsonView)
    requires
        details.field("quota_quote"@) == Some(source) || (details.field("quota_quote"@) is None
            && details.field("quote"@) == Some(source)) || (details.field("quota_quote"@) is None
            && details.field("quote"@) is None && source == details),
    ensures
        quote_in(details) matches Some(quote) ==> {
            &&& source.field("due"@) matches Some(due) && due.integer() == Some(quote.due)
            &&& source.field("currency"@) matches Some(currency) && currency.text() == Some(
                quote.currency,
            )
            &&& (details.field("domain"@) matches Some(domain) ==> domain.text() is Some
                ==> domain.text() == Some(quote.domain))
            &&& (source.field("days_left"@) is None ==> quote.days_left == 0)
            &&& (source.field("days_left"@) matches Some(days) ==> (days.integer() matches Some(n)
                ==> quote.days_left == n))
            &&& (source.field("days_total"@) is None ==> quote.days_total == 0)
            &&& (source.field("days_total"@) matches Some(days) ==> (days.integer() matches Some(n)
                ==> quote.days_total == n))
            &&& (source.field("renewal"@) is None ==> quote.renewal == 0)
            &&& (source.field("renewal"@) matches Some(amount) ==> (
            amount.integer() matches Some(n) ==> quote.renewal == n))
        },
        quote_in(details) is None ==> source.field("due"@) is None || source.field(
            "due"@,
        )->0.integer() is None || source.field("currency"@) is None || source.field(
            "currency"@,
        )->0.text() is None || details.field("domain"@) is None || details.field("domain"@)->0.text()
            is None,
{
}

/// The amount for an interval is that of the first price with it.
pub proof fn first_prices_count(prices: Seq<PricingItem>, interval: Seq<char>, i: int)
    requires
        0 <= i < prices.len(),
        prices[i].interval@ == interval,
        forall|j: int| 0 <= j < i ==> (#[trigger] prices[j]).interval@ != interval,
    ensures
        amount_for(prices, interval) == Some(prices[i].amount),
    decreases prices.len(),
{
    if i > 0 {
        let rest = prices.skip(1);
        assert(prices[0].interval@ != interval);
        assert(rest[i - 1] == prices[i]);
        assert forall|j: int| 0 <= j < i - 1 implies (#[trigger] rest[j]).interval@
            != interval by {
            assert(rest[j] == prices[j + 1]);
        }
        first_prices_count(rest, interval, i - 1);
    }
}

/// Letters, digits and `-._~` stay as they are in a query, every other byte becomes a percent
/// sign and two hexadecimal digits.
pub proof fn bytes_are_encoded_one_by_one(bytes: Seq<u8>, byte: u8)
    ensures
        percent_encoded(Seq::<u8>::empty()) == Seq::<char>::empty(),
        ({
            let plain = 'a' as int <= byte <= 'z' as int || 'A' as int <= byte <= 'Z' as int || '0'
                as int <= byte <= '9' as int || byte == '-' as int || byte == '.' as int || byte
                == '_' as int || byte == '~' as int;
            &&& (plain ==> percent_encoded(bytes.push(byte)) == percent_encoded(bytes).push(
                byte as char,
            ))
            &&& (!plain ==> percent_encoded(bytes.push(byte)) == percent_encoded(bytes).push(
                '%',
            ).push(hex_digit(byte as int / 16)).push(hex_digit(byte as int % 16)))
        }),
        hex_digit(0) == '0',
        hex_digit(9) == '9',
        hex_digit(10) == 'A',
        hex_digit(15) == 'F',
{
    assert(bytes.push(byte).drop_last() =~= bytes);
    let before = percent_encoded(bytes);
    assert(before + seq![byte as char] =~= before.push(byte as char));
    let high = hex_digit(byte as int / 16);
    let low = hex_digit(byte as int % 16);
    assert(before + seq!['%', high, low] =~= before.push('%').push(high).push(low));
}

/// The list of certificates is asked for by the name, and by the usage and the sequence where
/// they are given.
pub proof fn lists_are_asked_for_by_name(domain: Seq<char>, kind: Seq<char>, sequence: u32)
    ensures
        certificate_list_path(domain, None, None) == "/v2/cert?domain="@ + encoded(domain),
        certificate_list_path(domain, Some(kind), None) == "/v2/cert?domain="@ + encoded(domain)
            + "&kind="@ + encoded(kind),
        certificate_list_path(domain, Some(kind), Some(sequence)) == "/v2/cert?domain="@ + encoded(
            domain,
        ) + "&kind="@ + encoded(kind) + "&sequence="@ + decimal_of(sequence as nat),
        certificate_list_path(domain, None, Some(sequence)) == "/v2/cert?domain="@ + encoded(domain)
            + "&sequence="@ + decimal_of(sequence as nat),
{
}

/// Only slashes at the end go.
pub proof fn slashes_at_the_end_go(s: Seq<char>)
    ensures
        without_slashes(s).len() <= s.len(),
        without_slashes(s) == s.take(without_slashes(s).len() as int),
        without_slashes(s).len() > 0 ==> without_slashes(s).last() != '/',
        forall|i: int| without_slashes(s).len() <= i < s.len() ==> #[trigger] s[i] == '/',
    decreases s.len(),
{
    if s.len() > 0 && s.last() == '/' {
        let front = s.drop_last();
        slashes_at_the_end_go(front);
        assert(front.take(without_slashes(s).len() as int) =~= s.take(
            without_slashes(s).len() as int,
        ));
        assert forall|i: int| without_slashes(s).len() <= i < s.len() implies #[trigger] s[i]
            == '/' by {
            if i < front.len() {
                assert(front[i] == s[i]);
            }
        }
    } else {
        assert(s.take(s.len() as int) =~= s);
    }
}

/// Which replies are no refusals, and which ask for a payment.
pub proof fn replies_are_told_apart(status: u16, reply: CreateDomainResponse)
    ensures
        success(status) <==> status / 100 == 2,
        asks_for_payment(reply) <==> reply.next_action@ == "payment"@ || reply.payment_entry
            is Some,
{
}

} // verus!
