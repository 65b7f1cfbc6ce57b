use gmutils::cert_server::{CertServer, CreateSubdomainAttempt, Error, SubdomainQuotaQuote};
use gmutils::json::Json;
use gmutils::kind::IdentityKind;
use gmutils::requests::{
    bearer_header, CertificateOrder, RequestMethod, RequestRoute, ServerRequest,
};
use serde_json::Value;

fn server() -> CertServer {
    CertServer::new("https://api.genmeta.net").unwrap()
}

fn value(json: &Json) -> Value {
    match json {
        Json::Null => Value::Null,
        Json::Bool(value) => Value::Bool(*value),
        Json::Integer(value) => Value::from(i64::try_from(*value).unwrap()),
        Json::Fraction => panic!("requests carry no fractions"),
        Json::Text(text) => Value::String(text.clone()),
        Json::List(items) => Value::Array(items.iter().map(value).collect()),
        Json::Object(fields) => {
            Value::Object(fields.iter().map(|(name, json)| (name.clone(), value(json))).collect())
        }
    }
}

fn assert_posted(
    request: &ServerRequest,
    path: &str,
    authorization: Option<&str>,
    body: &str,
) {
    assert_eq!(request.method, RequestMethod::Post);
    assert_eq!(request.path, path);
    assert_eq!(request.authorization.as_deref(), authorization);
    assert!(request.query.is_empty());
    let expected: Value = serde_json::from_str(body).unwrap();
    assert_eq!(value(request.body.as_ref().unwrap()), expected);
}

fn assert_gotten(
    request: &ServerRequest,
    path: &str,
    authorization: Option<&str>,
    query: &[(&str, &str)],
) {
    assert_eq!(request.method, RequestMethod::Get);
    assert_eq!(request.path, path);
    assert_eq!(request.authorization.as_deref(), authorization);
    assert!(request.body.is_none());
    let expected: Vec<(String, String)> =
        query.iter().map(|(name, value)| (name.to_string(), value.to_string())).collect();
    assert_eq!(request.query, expected);
}

fn is_tcp(request: &ServerRequest) -> bool {
    matches!(request.route, RequestRoute::Tcp)
}

fn domain_of(request: &ServerRequest) -> Option<&str> {
    match &request.route {
        RequestRoute::Identity { domain } => Some(domain),
        _ => None,
    }
}

fn directory_of(request: &ServerRequest) -> Option<&str> {
    match &request.route {
        RequestRoute::Profile { directory } => Some(directory),
        _ => None,
    }
}

#[test]
fn codes_and_logins_are_asked_for_without_a_token() {
    assert_eq!(bearer_header("token"), "Bearer token");
    let sent = server().send_email_verification("alice@example.test");
    assert!(is_tcp(&sent));
    assert_posted(&sent, "/v2/email/verify", None, r#"{"email":"alice@example.test"}"#);
    let login = server().domain_login("alice.smith.dhttp.net", "alice@example.test", "123456");
    assert_posted(
        &login,
        "/v2/user/domain-login",
        None,
        r#"{"domain":"alice.smith.dhttp.net","email":"alice@example.test","verify_code":"123456"}"#,
    );
    let inspected = server().inspect_domain_availability("alice.smith.dhttp.net");
    assert_gotten(&inspected, "/v2/pricing", None, &[("domain", "alice.smith.dhttp.net")]);
}

#[test]
fn root_identities_are_asked_for_with_a_code_or_a_token() {
    let by_token = server().create_domain_with_token("token", "alice.smith.dhttp.net");
    assert_eq!(by_token.path, "/v2/domain");
    assert_eq!(by_token.authorization.as_deref(), Some("Bearer token"));
    let body = value(by_token.body.as_ref().unwrap());
    assert_eq!(body["domain"], "alice.smith.dhttp.net");
    assert!(body.get("email").is_none());

    let by_code = server().create_domain_with_email(
        "alice.smith.dhttp.net",
        "alice@example.test",
        "123456",
    );
    assert!(by_code.authorization.is_none());
    let body = value(by_code.body.as_ref().unwrap());
    assert_eq!(body["email"], "alice@example.test");
    assert_eq!(body["verify_code"], "123456");
    assert_eq!(body["auto_renew"], false);
    assert_gotten(&server().get_checkout("cs"), "/v2/checkout", None, &[("token", "cs")]);
    assert_gotten(
        &server().get_invoice("token", "I-1"),
        "/v2/invoice",
        Some("Bearer token"),
        &[("no", "I-1")],
    );
}

#[test]
fn sub_identities_are_asked_for_with_each_proof() {
    let body = r#"{"parent":"alice.smith.dhttp.net","label":"phone","expected_amount":null}"#;
    let priced = r#"{"parent":"alice.smith.dhttp.net","label":"phone","expected_amount":250}"#;
    let parent = "alice.smith.dhttp.net";
    let by_token = server().create_subdomain_attempt("token", parent, "phone", Some(250));
    assert_posted(&by_token, "/v2/subdomain", Some("Bearer token"), priced);
    let as_identity = server().create_subdomain_with_identity(parent, parent, "phone", None);
    assert_eq!(domain_of(&as_identity), Some(parent));
    assert_posted(&as_identity, "/v2/subdomain", None, body);
    let as_profile =
        server().create_subdomain_with_identity_profile("/home/a", parent, "phone", None);
    assert_eq!(directory_of(&as_profile), Some("/home/a"));
    assert_posted(&as_profile, "/v2/subdomain", None, body);
}

#[test]
fn offers_are_refusals_without_a_terminal() {
    let quote = SubdomainQuotaQuote {
        domain: "alice.smith.dhttp.net".to_string(),
        due: 250,
        currency: "USD".to_string(),
        days_left: 1,
        days_total: 30,
        renewal: 500,
    };
    let refused = server().create_subdomain(Ok(CreateSubdomainAttempt::QuotaExceeded(quote)));
    match refused {
        Err(Error::Api { status, code, .. }) => {
            assert_eq!(status, 422);
            assert_eq!(code, "1304");
        }
        _ => panic!("an offer should be refused"),
    }
    assert!(matches!(server().create_subdomain(Err(Error::Json)), Err(Error::Json)));
}

#[test]
fn certificates_are_asked_for_with_each_proof() {
    let name = "alice.smith.dhttp.net";
    let first = r#"{"domain":"alice.smith.dhttp.net","kind":"primary","sequence":null,
        "device_name":"laptop","csr":"CSR"}"#;
    let again = r#"{"domain":"alice.smith.dhttp.net","kind":"primary","sequence":7,
        "device_name":"laptop","csr":"CSR"}"#;
    let unnamed = r#"{"domain":"alice.smith.dhttp.net","kind":"primary","sequence":7,
        "device_name":null,"csr":"CSR"}"#;

    let issued = server().issue_cert("token", name, "primary", None, "laptop", "CSR");
    assert!(is_tcp(&issued));
    assert_posted(&issued, "/v2/cert", Some("Bearer token"), first);
    let issued =
        server().issue_cert_with_identity_profile("/p", name, "primary", None, "laptop", "CSR");
    assert_eq!(directory_of(&issued), Some("/p"));
    assert_posted(&issued, "/v2/cert", None, first);

    let renewed = server().renew_cert("token", name, "primary", 7, Some("laptop"), "CSR");
    assert_posted(&renewed, "/v2/cert/renew", Some("Bearer token"), again);
    let renewed = server().renew_cert_with_identity(name, name, "primary", 7, None, "CSR");
    assert_eq!(domain_of(&renewed), Some(name));
    assert_posted(&renewed, "/v2/cert/renew", None, unnamed);
    let renewed =
        server().renew_cert_with_identity_profile("/p", name, "primary", 7, Some("laptop"), "CSR");
    assert_eq!(directory_of(&renewed), Some("/p"));
    assert_posted(&renewed, "/v2/cert/renew", None, again);
}

#[test]
fn certificates_are_looked_up_by_their_number() {
    let by_token = server().get_cert_detail("token", "0a");
    assert_gotten(&by_token, "/v2/cert", Some("Bearer token"), &[("serial_number", "0a")]);
    let as_identity = server().get_cert_detail_with_identity("alice.smith.dhttp.net", "0a/b");
    assert_eq!(domain_of(&as_identity), Some("alice.smith.dhttp.net"));
    assert_eq!(as_identity.path, "/v2/cert?serial_number=0a%2Fb");
}

#[test]
fn orders_are_sent_as_requests_for_a_certificate() {
    let order = CertificateOrder {
        domain: "alice.smith.dhttp.net".to_owned(),
        kind: IdentityKind::Secondary,
        device_name: "laptop".to_owned(),
        csr_pem: "CSR".to_owned(),
    };
    let name = "alice.smith.dhttp.net";
    let told = format!("{:?}", server().order_cert("token", &order));
    let spelled =
        format!("{:?}", server().issue_cert("token", name, "secondary", None, "laptop", "CSR"));
    assert_eq!(told, spelled);
    for part in ["/v2/cert", "token", name, "secondary", "laptop", "CSR"] {
        assert!(told.contains(part), "{part} in {told}");
    }
    let told = format!("{:?}", server().order_cert_with_identity("bob.dhttp.net", &order));
    let spelled = format!(
        "{:?}",
        server().issue_cert_with_identity("bob.dhttp.net", name, "secondary", None, "laptop", "CSR")
    );
    assert_eq!(told, spelled);
    assert!(told.contains("bob.dhttp.net"), "{told}");
}
