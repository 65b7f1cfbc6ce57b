//! The requests to the certificate server: their paths, how they prove who asks, and what they
//! carry.
use vstd::prelude::*;

use crate::cert_server::{
    cert_detail_query, certificate_list_path, encoded, list_certs_query, url_without_port,
    user_facing_api_message, user_message, without_slashes, CertServer, CreateDomainRequest,
    CreateSubdomainAttempt, CreateSubdomainResponse, Error,
};
use crate::json::{Json, JsonView};
use crate::kind::IdentityKind;
use crate::target::IdentityTarget;
use crate::text::{decimal_of, decimal_u64, opt_view};

verus! {

#[derive(Debug, Clone, Copy, PartialEq, Eq, Structural)]
pub enum RequestMethod {
    Get,
    Post,
}

/// How a request reaches the server: over TCP, or over HTTP/3 as an identity that is named or
/// whose profile is given.
#[derive(Debug, PartialEq, Eq)]
pub enum RequestRoute {
    Tcp,
    Identity { domain: String },
    Profile { directory: String },
}

#[derive(Debug)]
pub struct ServerRequest {
    pub method: RequestMethod,
    pub route: RequestRoute,
    pub path: String,
    /// The value of the header `Authorization`.
    pub authorization: Option<String>,
    pub query: Vec<(String, String)>,
    pub body: Option<Json>,
}

pub ghost enum RouteView {
    Tcp,
    Identity(Seq<char>),
    Profile(Seq<char>),
}

/// A request with its texts as sequences.
#[verifier::ext_equal]
pub ghost struct RequestView {
    pub method: RequestMethod,
    pub route: RouteView,
    pub path: Seq<char>,
    pub authorization: Option<Seq<char>>,
    pub query: Seq<(Seq<char>, Seq<char>)>,
    pub body: Option<JsonView>,
}

impl View for RequestRoute {
    type V = RouteView;

    open spec fn view(&self) -> RouteView {
        match *self {
            RequestRoute::Tcp => RouteView::Tcp,
            RequestRoute::Identity { domain } => RouteView::Identity(domain@),
            RequestRoute::Profile { directory } => RouteView::Profile(directory@),
        }
    }
}

pub open spec fn pairs_view(pairs: Seq<(String, String)>) -> Seq<(Seq<char>, Seq<char>)> {
    Seq::new(pairs.len(), |i: int| (pairs[i].0@, pairs[i].1@))
}

impl View for ServerRequest {
    type V = RequestView;

    open spec fn view(&self) -> RequestView {
        RequestView {
            method: self.method,
            route: self.route@,
            path: self.path@,
            authorization: opt_view(self.authorization),
            query: pairs_view(self.query@),
            body: match self.body {
                Some(body) => Some(body@),
                None => None,
            },
        }
    }
}

pub open spec fn fields_view(fields: Seq<(String, Json)>) -> Seq<(Seq<char>, JsonView)> {
    Seq::new(fields.len(), |i: int| (fields[i].0@, fields[i].1@))
}

fn put(fields: &mut Vec<(String, Json)>, name: &str, value: Json)
    ensures
        fields_view(final(fields)@) == fields_view(old(fields)@).push((name@, value@)),
{
    let ghost before = fields@;
    fields.push((name.to_owned(), value));
    assert(fields_view(fields@) =~= fields_view(before).push((name@, value@)));
}

fn finish(fields: Vec<(String, Json)>) -> (r: Json)
    ensures
        r@ == JsonView::Object(fields_view(fields@)),
{
    let r = Json::Object(fields);
    assert(r@->Object_0 =~= fields_view(fields@));
    r
}

pub open spec fn opt_text(text: Option<Seq<char>>) -> JsonView {
    match text {
        Some(text) => JsonView::Text(text),
        None => JsonView::Null,
    }
}

pub open spec fn opt_integer(n: Option<int>) -> JsonView {
    match n {
        Some(n) => JsonView::Integer(n),
        None => JsonView::Null,
    }
}

/// An object of texts.
pub open spec fn texts(fields: Seq<(Seq<char>, Seq<char>)>) -> JsonView {
    JsonView::Object(Seq::new(fields.len(), |i: int| (fields[i].0, JsonView::Text(fields[i].1))))
}

fn put_text(fields: &mut Vec<(String, Json)>, name: &str, text: &str)
    ensures
        fields_view(final(fields)@) == fields_view(old(fields)@).push(
            (name@, JsonView::Text(text@)),
        ),
{
    put(fields, name, Json::Text(text.to_owned()));
}

pub open spec fn bearer(token: Seq<char>) -> Seq<char> {
    "Bearer "@ + token
}

/// The header that a token stands for.
pub fn bearer_header(token: &str) -> (r: String)
    ensures
        r@ == bearer(token@),
{
    let mut r = "Bearer ".to_owned();
    r.append(token);
    r
}

/// A request over TCP that carries a document.
pub open spec fn posted(path: Seq<char>, token: Option<Seq<char>>, body: JsonView) -> RequestView {
    RequestView {
        method: RequestMethod::Post,
        route: RouteView::Tcp,
        path,
        authorization: match token {
            Some(token) => Some(bearer(token)),
            None => None,
        },
        query: Seq::empty(),
        body: Some(body),
    }
}

/// A request over HTTP/3 that carries a document.
pub open spec fn posted_as(path: Seq<char>, route: RouteView, body: JsonView) -> RequestView {
    RequestView { route, ..posted(path, None, body) }
}

/// A request over TCP with a query.
pub open spec fn gotten(
    path: Seq<char>,
    token: Option<Seq<char>>,
    query: Seq<(Seq<char>, Seq<char>)>,
) -> RequestView {
    RequestView {
        method: RequestMethod::Get,
        route: RouteView::Tcp,
        path,
        authorization: match token {
            Some(token) => Some(bearer(token)),
            None => None,
        },
        query,
        body: None,
    }
}

/// A request over HTTP/3 whose path holds its query.
pub open spec fn gotten_as(path: Seq<char>, domain: Seq<char>) -> RequestView {
    RequestView { route: RouteView::Identity(domain), ..gotten(path, None, Seq::empty()) }
}

fn post(path: &str, token: Option<&str>, body: Json) -> (r: ServerRequest)
    ensures
        r@ == posted(
            path@,
            match token {
                Some(token) => Some(token@),
                None => None,
            },
            body@,
        ),
{
    ServerRequest {
        method: RequestMethod::Post,
        route: RequestRoute::Tcp,
        path: path.to_owned(),
        authorization: match token {
            Some(token) => Some(bearer_header(token)),
            None => None,
        },
        query: Vec::new(),
        body: Some(body),
    }
}

fn post_as(path: &str, route: RequestRoute, body: Json) -> (r: ServerRequest)
    ensures
        r@ == posted_as(path@, route@, body@),
{
    ServerRequest {
        method: RequestMethod::Post,
        route,
        path: path.to_owned(),
        authorization: None,
        query: Vec::new(),
        body: Some(body),
    }
}

fn get(path: &str, token: Option<&str>, name: &str, value: &str) -> (r: ServerRequest)
    ensures
        r@ == gotten(
            path@,
            match token {
                Some(token) => Some(token@),
                None => None,
            },
            seq![(name@, value@)],
        ),
{
    let mut query: Vec<(String, String)> = Vec::new();
    query.push((name.to_owned(), value.to_owned()));
    let r = ServerRequest {
        method: RequestMethod::Get,
        route: RequestRoute::Tcp,
        path: path.to_owned(),
        authorization: match token {
            Some(token) => Some(bearer_header(token)),
            None => None,
        },
        query,
        body: None,
    };
    assert(r@.query =~= seq![(name@, value@)]);
    r
}

fn get_as(path: String, domain: &str) -> (r: ServerRequest)
    ensures
        r@ == gotten_as(path@, domain@),
{
    ServerRequest {
        method: RequestMethod::Get,
        route: RequestRoute::Identity { domain: domain.to_owned() },
        path,
        authorization: None,
        query: Vec::new(),
        body: None,
    }
}

/// A request for a new root identity as it is posted. An address and a code are left out where
/// there are none.
pub open spec fn registration_body(request: CreateDomainRequest) -> JsonView {
    registration_fields(
        request.domain@,
        opt_view(request.email),
        opt_view(request.verify_code),
        request.auto_renew,
        request.redirect_mode@,
        request.terms_accepted,
        request.terms_version@,
    )
}

pub open spec fn registration_fields(
    domain: Seq<char>,
    email: Option<Seq<char>>,
    verify_code: Option<Seq<char>>,
    auto_renew: bool,
    redirect_mode: Seq<char>,
    terms_accepted: bool,
    terms_version: Seq<char>,
) -> JsonView {
    let start = seq![("domain"@, JsonView::Text(domain))];
    let start = match email {
        Some(email) => start.push(("email"@, JsonView::Text(email))),
        None => start,
    };
    let start = match verify_code {
        Some(code) => start.push(("verify_code"@, JsonView::Text(code))),
        None => start,
    };
    JsonView::Object(
        start.push(("auto_renew"@, JsonView::Bool(auto_renew))).push(
            ("redirect_mode"@, JsonView::Text(redirect_mode)),
        ).push(("terms_accepted"@, JsonView::Bool(terms_accepted))).push(
            ("terms_version"@, JsonView::Text(terms_version)),
        ),
    )
}

/// What is posted for a new root identity: it is not renewed by itself, and is paid for first.
pub open spec fn domain_body(
    domain: Seq<char>,
    email: Option<Seq<char>>,
    verify_code: Option<Seq<char>>,
) -> JsonView {
    registration_fields(domain, email, verify_code, false, "payment_required"@, true, "v1"@)
}

/// A request for a new root identity as it is posted.
pub fn create_domain_body(request: &CreateDomainRequest) -> (r: Json)
    ensures
        r@ == registration_body(*request),
{
    let mut fields: Vec<(String, Json)> = Vec::new();
    assert(fields_view(fields@) =~= Seq::empty());
    put_text(&mut fields, "domain", &request.domain);
    assert(fields_view(fields@) =~= seq![("domain"@, JsonView::Text(request.domain@))]);
    match &request.email {
        Some(email) => put_text(&mut fields, "email", email),
        None => {},
    }
    match &request.verify_code {
        Some(code) => put_text(&mut fields, "verify_code", code),
        None => {},
    }
    put(&mut fields, "auto_renew", Json::Bool(request.auto_renew));
    put_text(&mut fields, "redirect_mode", &request.redirect_mode);
    put(&mut fields, "terms_accepted", Json::Bool(request.terms_accepted));
    put_text(&mut fields, "terms_version", &request.terms_version);
    finish(fields)
}

/// What is posted for a new sub-identity; the amount is the one that the user agreed to.
pub open spec fn subdomain_body(
    parent: Seq<char>,
    label: Seq<char>,
    expected_amount: Option<i64>,
) -> JsonView {
    JsonView::Object(
        seq![
            ("parent"@, JsonView::Text(parent)),
            ("label"@, JsonView::Text(label)),
            (
                "expected_amount"@,
                opt_integer(
                    match expected_amount {
                        Some(amount) => Some(amount as int),
                        None => None,
                    },
                ),
            ),
        ],
    )
}

fn create_subdomain_body(parent: &str, label: &str, expected_amount: Option<i64>) -> (r: Json)
    ensures
        r@ == subdomain_body(parent@, label@, expected_amount),
{
    let mut fields: Vec<(String, Json)> = Vec::new();
    put_text(&mut fields, "parent", parent);
    put_text(&mut fields, "label", label);
    put(
        &mut fields,
        "expected_amount",
        match expected_amount {
            Some(amount) => Json::Integer(amount as i128),
            None => Json::Null,
        },
    );
    let r = finish(fields);
    assert(r@->Object_0 =~= subdomain_body(parent@, label@, expected_amount)->Object_0);
    r
}

/// What is posted for a certificate.
pub open spec fn cert_body(
    domain: Seq<char>,
    kind: Seq<char>,
    sequence: Option<u32>,
    device_name: Option<Seq<char>>,
    csr: Seq<char>,
) -> JsonView {
    JsonView::Object(
        seq![
            ("domain"@, JsonView::Text(domain)),
            ("kind"@, JsonView::Text(kind)),
            (
                "sequence"@,
                opt_integer(
                    match sequence {
                        Some(sequence) => Some(sequence as int),
                        None => None,
                    },
                ),
            ),
            ("device_name"@, opt_text(device_name)),
            ("csr"@, JsonView::Text(csr)),
        ],
    )
}

fn certificate_body(
    domain: &str,
    kind: &str,
    sequence: Option<u32>,
    device_name: Option<&str>,
    csr_pem: &str,
) -> (r: Json)
    ensures
        r@ == cert_body(
            domain@,
            kind@,
            sequence,
            match device_name {
                Some(name) => Some(name@),
                None => None,
            },
            csr_pem@,
        ),
{
    let mut fields: Vec<(String, Json)> = Vec::new();
    put_text(&mut fields, "domain", domain);
    put_text(&mut fields, "kind", kind);
    put(
        &mut fields,
        "sequence",
        match sequence {
            Some(sequence) => Json::Integer(sequence as i128),
            None => Json::Null,
        },
    );
    put(
        &mut fields,
        "device_name",
        match device_name {
            Some(name) => Json::Text(name.to_owned()),
            None => Json::Null,
        },
    );
    put_text(&mut fields, "csr", csr_pem);
    let r = finish(fields);
    assert(r@->Object_0 =~= cert_body(
        domain@,
        kind@,
        sequence,
        match device_name {
            Some(name) => Some(name@),
            None => None,
        },
        csr_pem@,
    )->Object_0);
    r
}

/// What a certificate is asked for with.
#[derive(Debug, PartialEq, Eq)]
pub struct CertificateOrder {
    /// The complete name of the identity.
    pub domain: String,
    pub kind: IdentityKind,
    /// The name that the device has at the server.
    pub device_name: String,
    pub csr_pem: String,
}

impl CertificateOrder {
    pub open spec fn body(self) -> JsonView {
        cert_body(
            self.domain@,
            self.kind.wire_name(),
            None,
            Some(self.device_name@),
            self.csr_pem@,
        )
    }
}

/// The order for a target, once all of it is known: its complete name, its kind, the name of the
/// device and the request.
pub open spec fn order_of(
    target: Option<IdentityTarget>,
    kind: Option<IdentityKind>,
    device_name: String,
    csr_pem: Option<String>,
) -> Option<CertificateOrder> {
    match (target, kind, csr_pem) {
        (Some(target), Some(kind), Some(csr_pem)) => Some(
            CertificateOrder { domain: target.name.full, kind, device_name, csr_pem },
        ),
        (_, _, _) => None,
    }
}

/// The order for a target, once all of it is known.
pub fn make_order(
    target: &Option<IdentityTarget>,
    kind: Option<IdentityKind>,
    device_name: &String,
    csr_pem: &Option<String>,
) -> (r: Option<CertificateOrder>)
    ensures
        r == order_of(*target, kind, *device_name, *csr_pem),
{
    match (target, kind, csr_pem) {
        (Some(target), Some(kind), Some(csr_pem)) => Some(
            CertificateOrder {
                domain: target.name.full.clone(),
                kind,
                device_name: device_name.clone(),
                csr_pem: csr_pem.clone(),
            },
        ),
        (_, _, _) => None,
    }
}

impl CertServer {
    /// The URL that a request goes to.
    pub fn request_url(&self, request: &ServerRequest) -> (r: Option<String>)
        ensures
            match r {
                Some(url) => url@ == (match request.route {
                    RequestRoute::Tcp => without_slashes(url_without_port(self.base_url@)->0),
                    _ => self.base_url@,
                }) + request.path@ && (request.route is Tcp ==> url_without_port(self.base_url@)
                    is Some),
                None => request.route is Tcp && url_without_port(self.base_url@) is None,
            },
    {
        match &request.route {
            RequestRoute::Tcp => self.try_http_url(&request.path),
            _ => Some(self.h3_url(&request.path)),
        }
    }

    /// Asks for a code by email.
    pub fn send_email_verification(&self, email: &str) -> (r: ServerRequest)
        ensures
            r@ == posted("/v2/email/verify"@, None, texts(seq![("email"@, email@)])),
    {
        let mut fields: Vec<(String, Json)> = Vec::new();
        put_text(&mut fields, "email", email);
        let body = finish(fields);
        assert(body@->Object_0 =~= texts(seq![("email"@, email@)])->Object_0);
        post("/v2/email/verify", None, body)
    }

    /// Asks whether a name can be had.
    pub fn inspect_domain_availability(&self, domain: &str) -> (r: ServerRequest)
        ensures
            r@ == gotten("/v2/pricing"@, None, seq![("domain"@, domain@)]),
    {
        get("/v2/pricing", None, "domain", domain)
    }

    pub fn login(&self, email: &str, verify_code: &str) -> (r: ServerRequest)
        ensures
            r@ == posted(
                "/v2/user/login"@,
                None,
                texts(seq![("email"@, email@), ("verify_code"@, verify_code@)]),
            ),
    {
        let mut fields: Vec<(String, Json)> = Vec::new();
        put_text(&mut fields, "email", email);
        put_text(&mut fields, "verify_code", verify_code);
        let body = finish(fields);
        assert(body@->Object_0 =~= texts(
            seq![("email"@, email@), ("verify_code"@, verify_code@)],
        )->Object_0);
        post("/v2/user/login", None, body)
    }

    pub fn domain_login(&self, domain: &str, email: &str, verify_code: &str) -> (r: ServerRequest)
        ensures
            r@ == posted(
                "/v2/user/domain-login"@,
                None,
                texts(
                    seq![
                        ("domain"@, domain@),
                        ("email"@, email@),
                        ("verify_code"@, verify_code@),
                    ],
                ),
            ),
    {
        let mut fields: Vec<(String, Json)> = Vec::new();
        put_text(&mut fields, "domain", domain);
        put_text(&mut fields, "email", email);
        put_text(&mut fields, "verify_code", verify_code);
        let body = finish(fields);
        assert(body@->Object_0 =~= texts(
            seq![("domain"@, domain@), ("email"@, email@), ("verify_code"@, verify_code@)],
        )->Object_0);
        post("/v2/user/domain-login", None, body)
    }

    /// Asks for a root identity, with a code that was sent by email.
    pub fn create_domain_with_email(&self, domain: &str, email: &str, verify_code: &str) -> (r:
        ServerRequest)
        ensures
            r@ == posted(
                "/v2/domain"@,
                None,
                domain_body(domain@, Some(email@), Some(verify_code@)),
            ),
    {
        let body = create_domain_body(
            &CreateDomainRequest::new(domain, Some(email), Some(verify_code)),
        );
        post("/v2/domain", None, body)
    }

    /// Asks for a root identity, with a token.
    pub fn create_domain_with_token(&self, access_token: &str, domain: &str) -> (r: ServerRequest)
        ensures
            r@ == posted("/v2/domain"@, Some(access_token@), domain_body(domain@, None, None)),
    {
        let body = create_domain_body(&CreateDomainRequest::new(domain, None, None));
        post("/v2/domain", Some(access_token), body)
    }

    pub fn get_checkout(&self, checkout_token: &str) -> (r: ServerRequest)
        ensures
            r@ == gotten("/v2/checkout"@, None, seq![("token"@, checkout_token@)]),
    {
        get("/v2/checkout", None, "token", checkout_token)
    }

    /// Asks for a sub-identity, with a token.
    pub fn create_subdomain_attempt(
        &self,
        access_token: &str,
        parent: &str,
        label: &str,
        expected_amount: Option<i64>,
    ) -> (r: ServerRequest)
        ensures
            r@ == posted(
                "/v2/subdomain"@,
                Some(access_token@),
                subdomain_body(parent@, label@, expected_amount),
            ),
    {
        post(
            "/v2/subdomain",
            Some(access_token),
            create_subdomain_body(parent, label, expected_amount),
        )
    }

    /// What an attempt comes to where seats cannot be paid for: an offer is a refusal.
    pub fn create_subdomain(&self, attempt: Result<CreateSubdomainAttempt, Error>) -> (r: Result<
        CreateSubdomainResponse,
        Error,
    >)
        ensures
            match attempt {
                Ok(CreateSubdomainAttempt::Created(response)) => r == Ok::<
                    CreateSubdomainResponse,
                    Error,
                >(response),
                Ok(CreateSubdomainAttempt::QuotaExceeded(_)) => r matches Err(
                    Error::Api { status, code, message },
                ) && status == 422 && code@ == "1304"@ && message@ == user_message(
                    "1304"@,
                    "subdomain quota exceeded"@,
                ),
                Err(error) => r == Err::<CreateSubdomainResponse, Error>(error),
            },
    {
        match attempt {
            Ok(CreateSubdomainAttempt::Created(response)) => Ok(response),
            Ok(CreateSubdomainAttempt::QuotaExceeded(_)) => Err(
                Error::Api {
                    status: 422,
                    code: "1304".to_owned(),
                    message: user_facing_api_message("1304", "subdomain quota exceeded"),
                },
            ),
            Err(error) => Err(error),
        }
    }

    /// Asks for a sub-identity, as an identity.
    pub fn create_subdomain_with_identity(
        &self,
        identity_domain: &str,
        parent: &str,
        label: &str,
        expected_amount: Option<i64>,
    ) -> (r: ServerRequest)
        ensures
            r@ == posted_as(
                "/v2/subdomain"@,
                RouteView::Identity(identity_domain@),
                subdomain_body(parent@, label@, expected_amount),
            ),
    {
        post_as(
            "/v2/subdomain",
            RequestRoute::Identity { domain: identity_domain.to_owned() },
            create_subdomain_body(parent, label, expected_amount),
        )
    }

    /// Asks for a sub-identity, as the identity of a profile.
    pub fn create_subdomain_with_identity_profile(
        &self,
        profile_dir: &str,
        parent: &str,
        label: &str,
        expected_amount: Option<i64>,
    ) -> (r: ServerRequest)
        ensures
            r@ == posted_as(
                "/v2/subdomain"@,
                RouteView::Profile(profile_dir@),
                subdomain_body(parent@, label@, expected_amount),
            ),
    {
        post_as(
            "/v2/subdomain",
            RequestRoute::Profile { directory: profile_dir.to_owned() },
            create_subdomain_body(parent, label, expected_amount),
        )
    }

    /// Asks for a certificate, with a token.
    pub fn issue_cert(
        &self,
        access_token: &str,
        domain: &str,
        kind: &str,
        sequence: Option<u32>,
        device_name: &str,
        csr_pem: &str,
    ) -> (r: ServerRequest)
        ensures
            r@ == posted(
                "/v2/cert"@,
                Some(access_token@),
                cert_body(domain@, kind@, sequence, Some(device_name@), csr_pem@),
            ),
    {
        post(
            "/v2/cert",
            Some(access_token),
            certificate_body(domain, kind, sequence, Some(device_name), csr_pem),
        )
    }

    /// Asks for the certificate of an order, with a token; the server picks its sequence.
    pub fn order_cert(&self, access_token: &str, order: &CertificateOrder) -> (r: ServerRequest)
        ensures
            r@ == posted("/v2/cert"@, Some(access_token@), order.body()),
    {
        self.issue_cert(
            access_token,
            &order.domain,
            order.kind.as_str(),
            None,
            &order.device_name,
            &order.csr_pem,
        )
    }

    /// Asks for the certificate of an order, as an identity; the server picks its sequence.
    pub fn order_cert_with_identity(&self, identity_domain: &str, order: &CertificateOrder) -> (r:
        ServerRequest)
        ensures
            r@ == posted_as(
                "/v2/cert"@,
                RouteView::Identity(identity_domain@),
                order.body(),
            ),
    {
        self.issue_cert_with_identity(
            identity_domain,
            &order.domain,
            order.kind.as_str(),
            None,
            &order.device_name,
            &order.csr_pem,
        )
    }

    pub fn get_invoice(&self, access_token: &str, invoice_no: &str) -> (r: ServerRequest)
        ensures
            r@ == gotten("/v2/invoice"@, Some(access_token@), seq![("no"@, invoice_no@)]),
    {
        get("/v2/invoice", Some(access_token), "no", invoice_no)
    }

    /// Asks for a certificate, as an identity.
    pub fn issue_cert_with_identity(
        &self,
        identity_domain: &str,
        domain: &str,
        kind: &str,
        sequence: Option<u32>,
        device_name: &str,
        csr_pem: &str,
    ) -> (r: ServerRequest)
        ensures
            r@ == posted_as(
                "/v2/cert"@,
                RouteView::Identity(identity_domain@),
                cert_body(domain@, kind@, sequence, Some(device_name@), csr_pem@),
            ),
    {
        post_as(
            "/v2/cert",
            RequestRoute::Identity { domain: identity_domain.to_owned() },
            certificate_body(domain, kind, sequence, Some(device_name), csr_pem),
        )
    }

    /// Asks for a certificate, as the identity of a profile.
    pub fn issue_cert_with_identity_profile(
        &self,
        profile_dir: &str,
        domain: &str,
        kind: &str,
        sequence: Option<u32>,
        device_name: &str,
        csr_pem: &str,
    ) -> (r: ServerRequest)
        ensures
            r@ == posted_as(
                "/v2/cert"@,
                RouteView::Profile(profile_dir@),
                cert_body(domain@, kind@, sequence, Some(device_name@), csr_pem@),
            ),
    {
        post_as(
            "/v2/cert",
            RequestRoute::Profile { directory: profile_dir.to_owned() },
            certificate_body(domain, kind, sequence, Some(device_name), csr_pem),
        )
    }

    /// Asks for another certificate in place of one, with a token.
    pub fn renew_cert(
        &self,
        access_token: &str,
        domain: &str,
        kind: &str,
        sequence: u32,
        device_name: Option<&str>,
        csr_pem: &str,
    ) -> (r: ServerRequest)
        ensures
            r@ == posted(
                "/v2/cert/renew"@,
                Some(access_token@),
                cert_body(
                    domain@,
                    kind@,
                    Some(sequence),
                    match device_name {
                        Some(name) => Some(name@),
                        None => None,
                    },
                    csr_pem@,
                ),
            ),
    {
        post(
            "/v2/cert/renew",
            Some(access_token),
            certificate_body(domain, kind, Some(sequence), device_name, csr_pem),
        )
    }

    /// Asks for another certificate in place of one, as an identity.
    pub fn renew_cert_with_identity(
        &self,
        identity_domain: &str,
        domain: &str,
        kind: &str,
        sequence: u32,
        device_name: Option<&str>,
        csr_pem: &str,
    ) -> (r: ServerRequest)
        ensures
            r@ == posted_as(
                "/v2/cert/renew"@,
                RouteView::Identity(identity_domain@),
                cert_body(
                    domain@,
                    kind@,
                    Some(sequence),
                    match device_name {
                        Some(name) => Some(name@),
                        None => None,
                    },
                    csr_pem@,
                ),
            ),
    {
        post_as(
            "/v2/cert/renew",
            RequestRoute::Identity { domain: identity_domain.to_owned() },
            certificate_body(domain, kind, Some(sequence), device_name, csr_pem),
        )
    }

    /// Asks for another certificate in place of one, as the identity of a profile.
    pub fn renew_cert_with_identity_profile(
        &self,
        profile_dir: &str,
        domain: &str,
        kind: &str,
        sequence: u32,
        device_name: Option<&str>,
        csr_pem: &str,
    ) -> (r: ServerRequest)
        ensures
            r@ == posted_as(
                "/v2/cert/renew"@,
                RouteView::Profile(profile_dir@),
                cert_body(
                    domain@,
                    kind@,
                    Some(sequence),
                    match device_name {
                        Some(name) => Some(name@),
                        None => None,
                    },
                    csr_pem@,
                ),
            ),
    {
        post_as(
            "/v2/cert/renew",
            RequestRoute::Profile { directory: profile_dir.to_owned() },
            certificate_body(domain, kind, Some(sequence), device_name, csr_pem),
        )
    }

    /// Asks for the certificates of a domain, with a token.
    pub fn list_certs(
        &self,
        access_token: &str,
        domain: &str,
        kind: Option<&str>,
        sequence: Option<u32>,
    ) -> (r: ServerRequest)
        ensures
            r@ == gotten(
                "/v2/cert"@,
                Some(access_token@),
                seq![("domain"@, domain@)] + (match kind {
                    Some(kind) => seq![("kind"@, kind@)],
                    None => Seq::empty(),
                }) + (match sequence {
                    Some(sequence) => seq![("sequence"@, decimal_of(sequence as nat))],
                    None => Seq::empty(),
                }),
            ),
    {
        let mut r = get("/v2/cert", Some(access_token), "domain", domain);
        let ghost first = r@.query;
        match kind {
            Some(kind) => {
                r.query.push(("kind".to_owned(), kind.to_owned()));
                assert(r@.query =~= first + seq![("kind"@, kind@)]);
            },
            None => {
                assert(r@.query =~= first + Seq::<(Seq<char>, Seq<char>)>::empty());
            },
        }
        let ghost second = r@.query;
        match sequence {
            Some(sequence) => {
                r.query.push(("sequence".to_owned(), decimal_u64(sequence as u64)));
                assert(r@.query =~= second + seq![("sequence"@, decimal_of(sequence as nat))]);
            },
            None => {
                assert(r@.query =~= second + Seq::<(Seq<char>, Seq<char>)>::empty());
            },
        }
        r
    }

    /// Asks for the certificates of a domain, as an identity.
    pub fn list_certs_with_identity(
        &self,
        identity_domain: &str,
        domain: &str,
        kind: Option<&str>,
        sequence: Option<u32>,
    ) -> (r: ServerRequest)
        ensures
            r@ == gotten_as(
                certificate_list_path(
                    domain@,
                    match kind {
                        Some(kind) => Some(kind@),
                        None => None,
                    },
                    sequence,
                ),
                identity_domain@,
            ),
    {
        get_as(list_certs_query(domain, kind, sequence), identity_domain)
    }

    pub fn get_cert_detail(&self, access_token: &str, serial_number: &str) -> (r: ServerRequest)
        ensures
            r@ == gotten(
                "/v2/cert"@,
                Some(access_token@),
                seq![("serial_number"@, serial_number@)],
            ),
    {
        get("/v2/cert", Some(access_token), "serial_number", serial_number)
    }

    pub fn get_cert_detail_with_identity(&self, identity_domain: &str, serial_number: &str) -> (r:
        ServerRequest)
        ensures
            r@ == gotten_as(
                "/v2/cert?serial_number="@ + encoded(serial_number@),
                identity_domain@,
            ),
    {
        get_as(cert_detail_query(serial_number), identity_domain)
    }
}

/// A request carries its path and what it was given, and proves who asks by one means: a bearer
/// token, or the identity that the connection is made with.
pub proof fn requests_carry_what_they_were_given(
    path: Seq<char>,
    token: Seq<char>,
    route: RouteView,
    domain: Seq<char>,
    query: Seq<(Seq<char>, Seq<char>)>,
    body: JsonView,
)
    ensures
        posted(path, Some(token), body) == (RequestView {
            method: RequestMethod::Post,
            route: RouteView::Tcp,
            path,
            authorization: Some("Bearer "@ + token),
            query: Seq::empty(),
            body: Some(body),
        }),
        posted(path, None, body) == (RequestView {
            method: RequestMethod::Post,
            route: RouteView::Tcp,
            path,
            authorization: None,
            query: Seq::empty(),
            body: Some(body),
        }),
        posted_as(path, route, body) == (RequestView {
            method: RequestMethod::Post,
            route,
            path,
            authorization: None,
            query: Seq::empty(),
            body: Some(body),
        }),
        gotten(path, Some(token), query) == (RequestView {
            method: RequestMethod::Get,
            route: RouteView::Tcp,
            path,
            authorization: Some("Bearer "@ + token),
            query,
            body: None,
        }),
        gotten(path, None, query) == (RequestView {
            method: RequestMethod::Get,
            route: RouteView::Tcp,
            path,
            authorization: None,
            query,
            body: None,
        }),
        gotten_as(path, domain) == (RequestView {
            method: RequestMethod::Get,
            route: RouteView::Identity(domain),
            path,
            authorization: None,
            query: Seq::empty(),
            body: None,
        }),
{
}

/// A registration names the domain, the address and the code where they are given, accepts the
/// terms in their first version, and asks neither for a renewal nor to be sent on unless there
/// is something to pay.
pub proof fn registrations_accept_the_terms(domain: Seq<char>, email: Seq<char>, code: Seq<char>)
    ensures
        domain_body(domain, Some(email), Some(code)) == JsonView::Object(
            seq![
                ("domain"@, JsonView::Text(domain)),
                ("email"@, JsonView::Text(email)),
                ("verify_code"@, JsonView::Text(code)),
                ("auto_renew"@, JsonView::Bool(false)),
                ("redirect_mode"@, JsonView::Text("payment_required"@)),
                ("terms_accepted"@, JsonView::Bool(true)),
                ("terms_version"@, JsonView::Text("v1"@)),
            ],
        ),
        domain_body(domain, None, None) == JsonView::Object(
            seq![
                ("domain"@, JsonView::Text(domain)),
                ("auto_renew"@, JsonView::Bool(false)),
                ("redirect_mode"@, JsonView::Text("payment_required"@)),
                ("terms_accepted"@, JsonView::Bool(true)),
                ("terms_version"@, JsonView::Text("v1"@)),
            ],
        ),
{
    assert(domain_body(domain, Some(email), Some(code))->Object_0 =~= seq![
        ("domain"@, JsonView::Text(domain)),
        ("email"@, JsonView::Text(email)),
        ("verify_code"@, JsonView::Text(code)),
        ("auto_renew"@, JsonView::Bool(false)),
        ("redirect_mode"@, JsonView::Text("payment_required"@)),
        ("terms_accepted"@, JsonView::Bool(true)),
        ("terms_version"@, JsonView::Text("v1"@)),
    ]);
    assert(domain_body(domain, None, None)->Object_0 =~= seq![
        ("domain"@, JsonView::Text(domain)),
        ("auto_renew"@, JsonView::Bool(false)),
        ("redirect_mode"@, JsonView::Text("payment_required"@)),
        ("terms_accepted"@, JsonView::Bool(true)),
        ("terms_version"@, JsonView::Text("v1"@)),
    ]);
}

/// A registration is sent as it was asked for.
pub proof fn registrations_are_sent_as_asked_for(request: CreateDomainRequest)
    ensures
        ({
            let fields = registration_body(request)->Object_0;
            let last = fields.len() - 1;
            &&& registration_body(request) is Object
            &&& fields[0] == ("domain"@, JsonView::Text(request.domain@))
            &&& (request.email matches Some(email) ==> fields[1] == (
                "email"@,
                JsonView::Text(email@),
            ))
            &&& (request.verify_code matches Some(code) ==> fields[last - 4] == (
                "verify_code"@,
                JsonView::Text(code@),
            ))
            &&& fields[last - 3] == ("auto_renew"@, JsonView::Bool(request.auto_renew))
            &&& fields[last - 2] == ("redirect_mode"@, JsonView::Text(request.redirect_mode@))
            &&& fields[last - 1] == ("terms_accepted"@, JsonView::Bool(request.terms_accepted))
            &&& fields[last] == ("terms_version"@, JsonView::Text(request.terms_version@))
            &&& fields.len() == 5 + (if request.email is Some {
                1int
            } else {
                0
            }) + (if request.verify_code is Some {
                1int
            } else {
                0
            })
        }),
{
}

/// A sub-identity is asked for by its parent's name, its label and the amount that was agreed
/// to; a certificate by the name, the usage, the sequence, the device and the request of the key.
pub proof fn bodies_name_what_is_asked_for(
    parent: Seq<char>,
    label: Seq<char>,
    amount: i64,
    order: CertificateOrder,
    sequence: u32,
    device_name: Seq<char>,
    csr: Seq<char>,
)
    ensures
        subdomain_body(parent, label, Some(amount)) == JsonView::Object(
            seq![
                ("parent"@, JsonView::Text(parent)),
                ("label"@, JsonView::Text(label)),
                ("expected_amount"@, JsonView::Integer(amount as int)),
            ],
        ),
        subdomain_body(parent, label, None) == JsonView::Object(
            seq![
                ("parent"@, JsonView::Text(parent)),
                ("label"@, JsonView::Text(label)),
                ("expected_amount"@, JsonView::Null),
            ],
        ),
        order.body() == JsonView::Object(
            seq![
                ("domain"@, JsonView::Text(order.domain@)),
                (
                    "kind"@,
                    JsonView::Text(
                        match order.kind {
                            IdentityKind::Primary => "primary"@,
                            IdentityKind::Secondary => "secondary"@,
                        },
                    ),
                ),
                ("sequence"@, JsonView::Null),
                ("device_name"@, JsonView::Text(order.device_name@)),
                ("csr"@, JsonView::Text(order.csr_pem@)),
            ],
        ),
        cert_body(parent, label, Some(sequence), Some(device_name), csr) == JsonView::Object(
            seq![
                ("domain"@, JsonView::Text(parent)),
                ("kind"@, JsonView::Text(label)),
                ("sequence"@, JsonView::Integer(sequence as int)),
                ("device_name"@, JsonView::Text(device_name)),
                ("csr"@, JsonView::Text(csr)),
            ],
        ),
{
    assert((subdomain_body(parent, label, Some(amount)))->Object_0 =~= seq![
        ("parent"@, JsonView::Text(parent)),
        ("label"@, JsonView::Text(label)),
        ("expected_amount"@, JsonView::Integer(amount as int)),
    ]);
    assert((subdomain_body(parent, label, None))->Object_0 =~= seq![
        ("parent"@, JsonView::Text(parent)),
        ("label"@, JsonView::Text(label)),
        ("expected_amount"@, JsonView::Null),
    ]);
    assert((order.body())->Object_0 =~= seq![
        ("domain"@, JsonView::Text(order.domain@)),
        (
            "kind"@,
            JsonView::Text(
                match order.kind {
                    IdentityKind::Primary => "primary"@,
                    IdentityKind::Secondary => "secondary"@,
                },
            ),
        ),
        ("sequence"@, JsonView::Null),
        ("device_name"@, JsonView::Text(order.device_name@)),
        ("csr"@, JsonView::Text(order.csr_pem@)),
    ]);
    assert((cert_body(parent, label, Some(sequence), Some(device_name), csr))->Object_0 =~= seq![
        ("domain"@, JsonView::Text(parent)),
        ("kind"@, JsonView::Text(label)),
        ("sequence"@, JsonView::Integer(sequence as int)),
        ("device_name"@, JsonView::Text(device_name)),
        ("csr"@, JsonView::Text(csr)),
    ]);
}

/// A certificate is asked for once the name, the usage and the request of the key are known, and
/// for just these.
pub proof fn orders_need_what_they_name(
    target: Option<IdentityTarget>,
    kind: Option<IdentityKind>,
    device_name: String,
    csr_pem: Option<String>,
)
    ensures
        order_of(target, kind, device_name, csr_pem) is Some <==> target is Some && kind is Some
            && csr_pem is Some,
        order_of(target, kind, device_name, csr_pem) matches Some(order) ==> order.domain
            == target->0.name.full && order.kind == kind->0 && order.device_name == device_name
            && order.csr_pem == csr_pem->0,
{
}

/// The fields of a text body stand as they were given, each a text.
pub proof fn texts_keep_their_fields(fields: Seq<(Seq<char>, Seq<char>)>, i: int)
    requires
        0 <= i < fields.len(),
    ensures
        texts(fields) matches JsonView::Object(all) && all.len() == fields.len() && all[i] == (
            fields[i].0,
            JsonView::Text(fields[i].1),
        ),
{
}

} // verus!
