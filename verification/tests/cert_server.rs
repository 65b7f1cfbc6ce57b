use gmutils::cert_server::{
    is_success, normalize_api_code, parse_create_domain_response, parse_create_subdomain_response,
    parse_error_body, parse_response, parse_subdomain_quota_quote, trim_slashes, AddressError,
    CertServer, CreateDomainAuthInfo, CreateDomainRequest, CreateDomainResponse,
    CreateSubdomainAttempt, DetailedErrorEnvelope, DomainAvailabilityResponse, DomainQuotes,
    Error, ErrorEnvelope, InvoiceInfo, PaymentEntryInfo, PricingItem, ReservationInfo,
    SubdomainQuotaQuote,
};
use gmutils::json::Json;
use gmutils::requests::{create_domain_body, RequestMethod, RequestRoute};
use gmutils::{DEFAULT_DHTTP_CA_SERVICE, DHTTP_CA_SERVICE};
use serde_json::Value;

fn text(value: &Value, name: &str) -> String {
    value[name].as_str().unwrap().to_owned()
}

fn number(value: &Value, name: &str) -> i64 {
    value[name].as_i64().unwrap()
}

fn domain_response(payload: &str) -> CreateDomainResponse {
    let value: Value = serde_json::from_str(payload).unwrap();
    let quotes = &value["quotes"];
    CreateDomainResponse {
        domain: text(&value, "domain"),
        quotes: DomainQuotes {
            currency: text(quotes, "currency"),
            monthly: number(quotes, "monthly"),
            yearly: number(quotes, "yearly"),
            default_billing_cycle: text(quotes, "default_billing_cycle"),
        },
        reservation: value.get("reservation").map(|found| ReservationInfo {
            reservation_no: text(found, "reservation_no"),
            status: text(found, "status"),
            expires_at: number(found, "expires_at"),
        }),
        payment_entry: value.get("payment_entry").map(|found| PaymentEntryInfo {
            url: text(found, "url"),
            checkout_token: text(found, "checkout_token"),
            expires_at: number(found, "expires_at"),
        }),
        next_action: text(&value, "next_action"),
        selected_billing_cycle: None,
        subscription: None,
        invoice: value.get("invoice").map(|found| InvoiceInfo {
            number: text(found, "number"),
            status: text(found, "status"),
            amount: number(found, "amount"),
            currency: text(found, "currency"),
            billing_cycle: None,
            expires_at: None,
            paid_at: None,
        }),
        auth: value.get("auth").map(|found| CreateDomainAuthInfo {
            email: text(found, "email"),
            is_new_user: found["is_new_user"].as_bool().unwrap(),
            access_token: text(found, "access_token"),
            token_expires_at: number(found, "token_expires_at"),
        }),
    }
}

fn json(value: &Value) -> Json {
    match value {
        Value::Null => Json::Null,
        Value::Bool(flag) => Json::Bool(*flag),
        Value::Number(number) => number.as_i128().map_or(Json::Fraction, Json::Integer),
        Value::String(text) => Json::Text(text.clone()),
        Value::Array(items) => Json::List(items.iter().map(json).collect()),
        Value::Object(fields) => {
            Json::Object(fields.iter().map(|(name, item)| (name.clone(), json(item))).collect())
        }
    }
}

fn error_record(body: &[u8]) -> Option<Value> {
    serde_json::from_slice::<Value>(body).ok()?.get("error").cloned()
}

fn envelope(body: &[u8]) -> Option<ErrorEnvelope> {
    let error = error_record(body)?;
    Some(ErrorEnvelope {
        code: json(error.get("code")?),
        message: error.get("message")?.as_str()?.to_owned(),
    })
}

fn detailed(body: &[u8]) -> Option<DetailedErrorEnvelope> {
    let error = error_record(body)?;
    Some(DetailedErrorEnvelope {
        code: json(error.get("code")?),
        message: error.get("message")?.as_str()?.to_owned(),
        details: json(error.get("details")?),
    })
}

fn field<'a>(body: &'a Json, name: &str) -> Option<&'a Json> {
    body.get(name)
}

#[test]
fn preserves_configured_h3_port_and_uses_https_default_port_for_tcp() {
    let configured = CertServer::new("https://api.genmeta.net:4433").unwrap();
    assert_eq!(configured.http_url("/v2/cert"), "https://api.genmeta.net/v2/cert");
    assert_eq!(configured.h3_url("/v2/cert"), "https://api.genmeta.net:4433/v2/cert");

    let custom_port = CertServer::new("https://api.example.test:8443").unwrap();
    assert_eq!(custom_port.http_url("/v2/cert"), "https://api.example.test/v2/cert");
    assert_eq!(custom_port.h3_url("/v2/cert"), "https://api.example.test:8443/v2/cert");

    let no_port = CertServer::new("https://api.example.test").unwrap();
    assert_eq!(no_port.http_url("/v2/cert"), "https://api.example.test/v2/cert");
    assert_eq!(no_port.h3_url("/v2/cert"), "https://api.example.test/v2/cert");
    assert_eq!(no_port.try_http_url("/x"), Some("https://api.example.test/x".to_owned()));
}

#[test]
fn addresses_that_are_no_urls_are_refused() {
    assert!(matches!(CertServer::new("not a url"), Err(AddressError::Parse)));
    assert!(matches!(CertServer::new("mailto:alice@example.test"), Err(AddressError::Port)));
    assert_eq!(trim_slashes("https://api.genmeta.net//"), "https://api.genmeta.net");
}

#[test]
fn parses_v2_error_envelope() {
    let payload =
        br#"{"error":{"code":"domain_forbidden","message":"domain access is forbidden"}}"#;
    let error = parse_error_body(403, envelope(payload)).unwrap_err();
    match error {
        Error::Api { status, code, message } => {
            assert_eq!(status, 403);
            assert_eq!(code, "domain_forbidden");
            assert_eq!(message, "domain access is forbidden");
        }
        other => panic!("unexpected error: {other:?}"),
    }
}

#[test]
fn api_code_helpers_match_api_errors() {
    let error = Error::Api {
        status: 409,
        code: "starter_domain_limit_reached".to_string(),
        message: "starter plan is limited to 3 free domains per account".to_string(),
    };

    assert_eq!(error.api_code(), Some("starter_domain_limit_reached"));
    assert!(error.is_api_code("starter_domain_limit_reached"));
    assert!(!error.is_api_code("domain_not_found"));
    assert!(error.is_api(409, "starter_domain_limit_reached"));
    assert!(!error.is_api(500, "starter_domain_limit_reached"));
}

#[test]
fn api_error_displays_the_certserver_problem_message_verbatim() {
    let error = Error::Api {
        status: 403,
        code: "domain_forbidden".to_string(),
        message: "domain access is forbidden".to_string(),
    };

    assert_eq!(error.to_text(), "domain access is forbidden");
}

#[test]
fn parses_numeric_v2_error_code_and_preserves_the_wire_value() {
    let payload = br#"{"error":{"code":1101,"message":"The email address is invalid."}}"#;
    let error = parse_error_body(400, envelope(payload)).unwrap_err();

    assert_eq!(error.api_code(), Some("email_invalid"));
    assert_eq!(error.to_text(), "The email address is invalid.");
    match error {
        Error::Api { code, .. } => assert_eq!(code, "1101"),
        other => panic!("unexpected error: {other:?}"),
    }
}

#[test]
fn unknown_numeric_error_code_remains_decimal() {
    let payload = br#"{"error":{"code":2999,"message":"future problem"}}"#;
    let error = parse_error_body(409, envelope(payload)).unwrap_err();

    assert_eq!(error.api_code(), Some("2999"));
    assert_eq!(error.to_text(), "future problem");
}

#[test]
fn subdomain_quota_error_explains_how_to_add_seats() {
    let payload = br#"{"error":{"code":1304,"message":"The parent name has no available sub-identity slots."}}"#;
    let error = parse_error_body(422, envelope(payload)).unwrap_err();

    assert_eq!(
        error.to_text(),
        "The parent identity has reached its sub-identity seat limit. Update your subscription plan to add more seats, then try again."
    );
}

#[test]
fn malformed_error_code_stays_a_json_response_error() {
    let payload = br#"{"error":{"code":true,"message":"invalid envelope"}}"#;
    assert!(matches!(parse_error_body(400, envelope(payload)), Err(Error::Json { .. })));
}

#[test]
fn domain_availability_response_reads_pricing_envelope() {
    let payload = r#"
        {
          "domain":"alice.smith.dhttp.net",
          "availability":"conflict",
          "currency":"USD",
          "prices":[
            {"interval":"monthly","amount":500},
            {"interval":"yearly","amount":3000,"discount":0.5}
          ]
        }
        "#;
    let value: Value = serde_json::from_str(payload).unwrap();
    let response = DomainAvailabilityResponse {
        domain: text(&value, "domain"),
        availability: text(&value, "availability"),
        currency: text(&value, "currency"),
        prices: value["prices"]
            .as_array()
            .unwrap()
            .iter()
            .map(|price| PricingItem {
                interval: text(price, "interval"),
                amount: number(price, "amount"),
            })
            .collect(),
    };
    assert_eq!(response.domain, "alice.smith.dhttp.net");
    assert_eq!(response.availability, "conflict");
    assert_eq!(response.currency, "USD");
    assert_eq!(response.monthly_amount(), Some(500));
    assert_eq!(response.yearly_amount(), Some(3000));
    assert!(!response.is_free());
}

#[test]
fn domain_registration_requests_disable_implicit_auto_renewal() {
    let token_request =
        create_domain_body(&CreateDomainRequest::new("alice.smith.dhttp.net", None, None));
    let email_request = create_domain_body(&CreateDomainRequest::new(
        "alice.smith.dhttp.net",
        Some("alice@example.test"),
        Some("123456"),
    ));

    assert!(matches!(field(&token_request, "auto_renew"), Some(Json::Bool(false))));
    assert!(field(&token_request, "email").is_none());
    assert!(field(&token_request, "verify_code").is_none());
    assert!(matches!(field(&email_request, "auto_renew"), Some(Json::Bool(false))));
    assert_eq!(
        field(&email_request, "email").unwrap().as_text(),
        Some("alice@example.test".to_owned())
    );
    assert_eq!(
        field(&email_request, "verify_code").unwrap().as_text(),
        Some("123456".to_owned())
    );
}

#[test]
fn create_domain_response_accepts_payment_payload() {
    let payload = r#"
        {
          "domain":"alice.smith.dhttp.net",
          "quotes":{"currency":"USD","monthly":9900,"yearly":99000,"default_billing_cycle":"yearly"},
          "reservation":{"reservation_no":"RSV123","status":"reserved","expires_at":1760001800},
          "payment_entry":{"url":"https://dhttp.net/checkout/ckt_123","checkout_token":"ckt_123","expires_at":1760000300},
          "next_action":"payment",
          "auth":{"email":"alice@example.com","is_new_user":true,"access_token":"token","token_expires_at":1760090000}
        }
        "#;
    let parsed = domain_response(payload);
    let response = parse_create_domain_response(402, envelope(payload.as_bytes()), Some(parsed)).unwrap();
    assert_eq!(response.domain, "alice.smith.dhttp.net");
    assert_eq!(response.next_action, "payment");
    assert_eq!(response.payment_entry.unwrap().checkout_token, "ckt_123");
    assert_eq!(response.auth.unwrap().access_token, "token");
}

#[test]
fn subdomain_quota_error_details_are_parsed() {
    let payload = br#"{
          "error": {
            "code": 1304,
            "message": "subdomain quota exceeded",
            "details": {
              "domain": "phone.alice.smith.dhttp.net",
              "quota_quote": {
                "due": 500,
                "currency": "USD",
                "days_left": 120,
                "days_total": 365,
                "renewal": 1200
              }
            }
          }
        }"#;

    assert_eq!(
        parse_subdomain_quota_quote(422, detailed(payload)).unwrap(),
        Some(SubdomainQuotaQuote {
            domain: "phone.alice.smith.dhttp.net".to_string(),
            due: 500,
            currency: "USD".to_string(),
            days_left: 120,
            days_total: 365,
            renewal: 1200,
        })
    );
}

#[test]
fn subdomain_quota_error_details_accept_missing_term_fields() {
    let payload = br#"{
          "error": {
            "code": "subdomain_quota_exceeded",
            "message": "subdomain quota exceeded",
            "details": {
              "domain": "phone.alice.smith.dhttp.net",
              "quota_quote": {
                "due": 500,
                "currency": "USD"
              }
            }
          }
        }"#;

    assert_eq!(
        parse_subdomain_quota_quote(422, detailed(payload)).unwrap(),
        Some(SubdomainQuotaQuote {
            domain: "phone.alice.smith.dhttp.net".to_string(),
            due: 500,
            currency: "USD".to_string(),
            days_left: 0,
            days_total: 0,
            renewal: 0,
        })
    );
}

#[test]
fn subdomain_quota_error_details_accept_flat_quote_fields() {
    let payload = br#"{
          "error": {
            "code": "subdomain_quota_exceeded",
            "message": "subdomain quota exceeded",
            "details": {
              "domain": "phone.alice.smith.dhttp.net",
              "due": 500,
              "currency": "USD"
            }
          }
        }"#;

    assert_eq!(
        parse_subdomain_quota_quote(422, detailed(payload)).unwrap(),
        Some(SubdomainQuotaQuote {
            domain: "phone.alice.smith.dhttp.net".to_string(),
            due: 500,
            currency: "USD".to_string(),
            days_left: 0,
            days_total: 0,
            renewal: 0,
        })
    );
}

#[test]
fn quota_replies_become_a_quote_to_agree_to() {
    let payload = br#"{"error":{"code":1304,"message":"full","details":{"domain":"phone.alice.smith.dhttp.net","due":500,"currency":"USD"}}}"#;
    match parse_create_subdomain_response(422, detailed(payload), envelope(payload), None) {
        Ok(CreateSubdomainAttempt::QuotaExceeded(quote)) => assert_eq!(quote.due, 500),
        other => panic!("unexpected attempt: {other:?}"),
    }
    let server = CertServer::new("https://api.genmeta.net").unwrap();
    let attempt = parse_create_subdomain_response(422, detailed(payload), envelope(payload), None);
    assert!(server.create_subdomain(attempt).is_err());
}

#[test]
fn codes_are_symbols_or_small_numbers() {
    let reply = |code: Json| {
        let parsed = ErrorEnvelope { code, message: "message".to_owned() };
        match parse_error_body(400, Some(parsed)).unwrap_err() {
            Error::Api { code, .. } => Some(code),
            _ => None,
        }
    };
    assert_eq!(reply(Json::Text("odd".to_owned())).as_deref(), Some("odd"));
    assert_eq!(reply(Json::Integer(0)).as_deref(), Some("0"));
    assert_eq!(reply(Json::Integer(65535)).as_deref(), Some("65535"));
    assert_eq!(reply(Json::Integer(65536)), None);
    assert_eq!(reply(Json::Integer(-1)), None);
    assert_eq!(reply(Json::Fraction), None);
    assert_eq!(reply(Json::Null), None);
    assert!(matches!(parse_error_body(400, None), Err(Error::Json)));
}

#[test]
fn replies_are_read_only_where_they_succeed() {
    assert!(is_success(200) && is_success(299));
    assert!(!is_success(199) && !is_success(300));
    assert!(matches!(parse_response(200, envelope(b"{}"), Some(7)), Ok(7)));
    assert!(matches!(parse_response::<u8>(200, envelope(b"not json"), None), Err(Error::Json)));
    let refused = parse_response::<u8>(
        404,
        envelope(br#"{"error":{"code":1202,"message":"no such domain"}}"#),
        None,
    );
    assert!(refused.unwrap_err().is_api(404, "domain_not_found"));
}

#[test]
fn known_numbers_have_names() {
    assert_eq!(normalize_api_code("1002"), "unauthorized");
    assert_eq!(normalize_api_code("unauthorized"), "unauthorized");
    assert_eq!(normalize_api_code("9999"), "9999");
}

#[test]
fn requests_go_where_their_proof_is_taken() {
    let server = CertServer::new("https://api.genmeta.net:4433").unwrap();
    let login = server.login("alice@example.test", "123456");
    assert!(matches!(login.method, RequestMethod::Post));
    assert!(matches!(login.route, RequestRoute::Tcp));
    assert_eq!(
        server.request_url(&login).unwrap(),
        format!("https://api.genmeta.net{}", login.path)
    );

    let issued = server.issue_cert_with_identity(
        "alice.smith.dhttp.net",
        "alice.smith.dhttp.net",
        "primary",
        None,
        "laptop",
        "CSR",
    );
    assert!(
        matches!(&issued.route, RequestRoute::Identity { domain } if domain == "alice.smith.dhttp.net")
    );
    assert!(issued.authorization.is_none());
    assert_eq!(
        server.request_url(&issued).unwrap(),
        format!("https://api.genmeta.net:4433{}", issued.path)
    );

    let listed = server.list_certs("token", "a b.dhttp.net", Some("primary"), Some(2));
    assert_eq!(listed.authorization.as_deref(), Some("Bearer token"));
    assert_eq!(
        listed.query,
        vec![
            ("domain".to_owned(), "a b.dhttp.net".to_owned()),
            ("kind".to_owned(), "primary".to_owned()),
            ("sequence".to_owned(), "2".to_owned()),
        ]
    );

    let listed =
        server.list_certs_with_identity("alice.smith.dhttp.net", "a b~%.net", Some("primary"), None);
    let url = server.request_url(&listed).unwrap();
    assert!(url.starts_with("https://api.genmeta.net:4433/v2/cert?"), "{url}");
    assert!(url.contains("domain=a%20b~%25.net"), "{url}");
    assert!(url.contains("kind=primary"), "{url}");
}

#[test]
fn cert_server_base_url_defaults_to_genmeta_production_server() {
    assert_eq!(DHTTP_CA_SERVICE, DEFAULT_DHTTP_CA_SERVICE);
}

#[test]
fn cert_server_base_url_uses_compile_time_environment() {
    assert_eq!(DHTTP_CA_SERVICE, "https://api.genmeta.net");
}

#[test]
fn cert_server_client_builds_with_dhttp_root_ca() {
    let server = CertServer::new(DEFAULT_DHTTP_CA_SERVICE)
        .expect("the address of the certificate server is a URL");
    assert_eq!(server.base_url, "https://api.genmeta.net");
}
