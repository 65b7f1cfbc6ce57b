use gmutils::identity_loading::{
    load_identity_home, IdentityChoice, LoadAction, LoadError, LoadEvent,
};
use gmutils::nat_detect::{
    diagnose_nat, observe_client, observe_interface, observe_interfaces, NatError, NatObservation,
};
use gmutils::nslookup::{
    group_records, name_line, print_groups, DnsRecord, LookupError, RecordPrinter,
};
use gmutils::profile::{
    check_pair, config_path, looks_ok, profile_report, Keyword, PairCheck, ProfileFile,
};
use gmutils::proxy::{
    accept_loop, bind_listener, expand_host, expand_uri, expand_uri_without_identity,
    forward_http, handle_request, is_informational, log_plan, rewrite_request_for_h3,
    spliced_authority, tcp_keepalive, AcceptAction, AcceptEvent, H3Action, H3Error, H3Event,
    H3Forward, HostHeader, ListenBind, ProxyAction, ProxyError, RequestHead,
};
use gmutils::request::{
    client_parameters, established_line, parse_header, request_block, request_method,
    resolved_line, response_block, ReceiveAction, ReceiveEvent, ReceiveStage, RequestAction,
    RequestError, RequestEvent, RequestOptions, RequestRun, SendAction, SendEvent, SendStage,
};
use gmutils::route::{Router, UriParts};
use gmutils::target::IdentityName;

fn uri(authority: &str) -> UriParts {
    UriParts {
        scheme: Some("http".to_owned()),
        authority: Some(authority.to_owned()),
        path_and_query: Some("/a?b".to_owned()),
    }
}

fn alice() -> IdentityName {
    IdentityName::parse("alice.smith").unwrap()
}

#[test]
fn named_identities_are_loaded_or_reported() {
    let named = IdentityChoice { id: Some("alice.smith".to_owned()), anonymous: false };
    assert_eq!(load_identity_home(&named, LoadEvent::Start), LoadAction::FindHome);
    assert_eq!(
        load_identity_home(&named, LoadEvent::HomeFound),
        LoadAction::LoadNamed { name: "alice.smith".to_owned() }
    );
    assert_eq!(load_identity_home(&named, LoadEvent::NamedLoaded), LoadAction::Use);
    match load_identity_home(&named, LoadEvent::NamedFailed) {
        LoadAction::Fail { error } => {
            assert_eq!(error.to_text(), "failed to load explicit identity `alice.smith`")
        }
        other => panic!("unexpected action: {other:?}"),
    }
    assert_eq!(
        load_identity_home(&named, LoadEvent::HomeMissing),
        LoadAction::Fail { error: LoadError::LocateDhttpHome }
    );
}

#[test]
fn nobody_in_particular_is_nobody() {
    let unnamed = IdentityChoice { id: None, anonymous: false };
    assert_eq!(
        load_identity_home(&unnamed, LoadEvent::HomeMissing),
        LoadAction::Anonymous { warn: true }
    );
    assert_eq!(load_identity_home(&unnamed, LoadEvent::HomeFound), LoadAction::LoadDefault);
    assert_eq!(load_identity_home(&unnamed, LoadEvent::DefaultLoaded), LoadAction::Use);
    assert_eq!(
        load_identity_home(&unnamed, LoadEvent::DefaultFailed),
        LoadAction::Anonymous { warn: false }
    );
    let anonymous = IdentityChoice { id: None, anonymous: true };
    assert_eq!(
        load_identity_home(&anonymous, LoadEvent::Start),
        LoadAction::Anonymous { warn: false }
    );
}

fn observation(server: &str) -> NatObservation {
    NatObservation {
        bind_uri: "inet://eth0".to_owned(),
        stun_server: server.to_owned(),
        external_ip: "203.0.113.7".to_owned(),
        nat_type: "FullCone".to_owned(),
    }
}

#[test]
fn observations_are_reported_line_by_line() {
    let shown = observe_interface(
        "inet://eth0".to_owned(),
        Some(vec![Ok(observation("198.51.100.1:20002")), Ok(observation("198.51.100.2:20002"))]),
    )
    .unwrap();
    assert_eq!(shown.len(), 2);
    let all = observe_interfaces(vec![
        Err(NatError::NoStunClients { bind_uri: "lo".to_owned() }),
        Ok(shown),
        Err(NatError::NoStunAgent { bind_uri: "wlan0".to_owned() }),
    ])
    .unwrap();
    let lines = diagnose_nat(&all, 3).unwrap();
    assert_eq!(
        lines[..4],
        [
            "Interface: inet://eth0",
            "STUN server: 198.51.100.1:20002",
            "NAT type: FullCone",
            "External IP: 203.0.113.7"
        ]
    );
    assert_eq!(lines.len(), 8);
}

#[test]
fn failures_of_servers_end_the_search() {
    let failed = || NatError::DetectNatType {
        bind_uri: "eth0".to_owned(),
        stun_server: "s".to_owned(),
    };
    assert_eq!(
        observe_interface("eth0".to_owned(), Some(vec![Ok(observation("s")), Err(failed())])),
        Err(failed())
    );
    assert_eq!(observe_interfaces(vec![Err(failed()), Ok(vec![observation("s")])]), Err(failed()));
    assert_eq!(
        observe_interface("eth0".to_owned(), None),
        Err(NatError::NoStunClients { bind_uri: "eth0".to_owned() })
    );
    assert_eq!(
        observe_interface("eth0".to_owned(), Some(vec![])),
        Err(NatError::NoStunAgent { bind_uri: "eth0".to_owned() })
    );
    assert_eq!(
        diagnose_nat(&Vec::new(), 3).unwrap_err().to_text(),
        "no NAT observation found among 3 candidate interfaces"
    );
}

#[test]
fn the_address_is_asked_for_before_the_kind() {
    let ask = |ip: Option<&str>, kind: Option<&str>| {
        observe_client(
            "eth0".to_owned(),
            "s".to_owned(),
            ip.map(str::to_owned),
            kind.map(str::to_owned),
        )
    };
    assert!(matches!(ask(None, None), Err(NatError::DetectExternalAddr { .. })));
    let error = ask(Some("ip"), None).unwrap_err();
    assert_eq!(error.to_text(), "failed to detect NAT type on `eth0` via STUN server s");
    assert!(ask(Some("ip"), Some("FullCone")).is_ok());
}

fn record(source: &str, addr: &str) -> DnsRecord {
    DnsRecord { source: source.to_owned(), addr: addr.to_owned() }
}

#[test]
fn sources_are_printed_where_they_change() {
    let mut printer = RecordPrinter::new();
    assert_eq!(printer.print(record("mdns", "a")), ["mdns:", "a"]);
    assert_eq!(printer.print(record("mdns", "b")), ["b"]);
    assert_eq!(printer.print(record("h3", "c")), ["h3:", "c"]);
    assert_eq!(printer.print(record("mdns", "d")), ["mdns:", "d"]);
    assert_eq!(name_line("alice.smith"), "Name: alice.smith:");
}

#[test]
fn groups_hold_each_record_once() {
    let groups = group_records(vec![
        record("mdns", "a"),
        record("h3", "a"),
        record("mdns", "b"),
        record("mdns", "a"),
    ]);
    assert_eq!(
        print_groups(&groups),
        ["mdns:", "Address: a", "Address: b", "h3:", "Address: a"]
    );
    let error = LookupError::LookUp { name: "alice.smith".to_owned() };
    assert_eq!(error.to_text(), "failed to lookup dns records of `alice.smith`");
}

#[test]
fn profiles_are_checked_line_by_line() {
    assert_eq!(check_pair(Keyword::Key), PairCheck::ParseKey);
    assert_eq!(check_pair(Keyword::Cert), PairCheck::ParseCert);
    assert_eq!(check_pair(Keyword::Matcher), PairCheck::Accept);
    assert_eq!(check_pair(Keyword::Unknown), PairCheck::Reject);
    assert_eq!(looks_ok(), "Your profile configuration looks OK!");
    assert_eq!(config_path(None, Some("u".to_owned())).unwrap(), "u");
    assert_eq!(config_path(Some("g".to_owned()), Some("u".to_owned())).unwrap(), "g");
    assert!(config_path(None, None).is_err());
    let file = |path: &str, size| ProfileFile { path: path.to_owned(), size };
    assert_eq!(
        profile_report("alice", "/etc/profile", &file("k.pem", 10), &file("c.pem", 20)),
        [
            "Profile `alice` configured in `/etc/profile`:",
            "    Id: alice",
            "    Key at `k.pem` (10B)",
            "    Cert at `c.pem` (20B)",
        ]
    );
}

#[test]
fn names_in_uris_are_completed_without_an_identity() {
    let expanded = expand_uri_without_identity(uri("reimu.pilot~:8080")).unwrap();
    assert_eq!(expanded.authority.as_deref(), Some("reimu.pilot.dhttp.net:8080"));
    assert_eq!(expanded.path_and_query.as_deref(), Some("/a?b"));
    let expanded = expand_uri_without_identity(uri("user@reimu.pilot~")).unwrap();
    assert_eq!(expanded.authority.as_deref(), Some("user@reimu.pilot.dhttp.net"));
    let expanded = expand_uri_without_identity(uri("reimu.pilot.dhttp.net")).unwrap();
    assert_eq!(expanded, uri("reimu.pilot.dhttp.net"));
    assert_eq!(expand_uri_without_identity(uri("example.com")).unwrap(), uri("example.com"));
    assert!(matches!(
        expand_uri_without_identity(uri("~")),
        Err(ProxyError::BareTildeWithoutIdentity)
    ));
    let unbuildable = UriParts { path_and_query: None, ..uri("example.com") };
    assert!(matches!(
        expand_uri_without_identity(unbuildable),
        Err(ProxyError::ReconstructExpandedUri)
    ));
    let path = UriParts { scheme: None, authority: None, ..uri("") };
    assert_eq!(expand_uri_without_identity(path.copy()).unwrap(), path);
}

#[test]
fn hosts_stand_for_names() {
    assert_eq!(expand_host("example.com"), Ok(None));
    assert_eq!(expand_host("reimu.pilot~"), Ok(Some("reimu.pilot.dhttp.net".to_owned())));
    assert_eq!(
        expand_host("reimu.pilot.dhttp.net"),
        Ok(Some("reimu.pilot.dhttp.net".to_owned()))
    );
    assert!(expand_host("rei!mu~").is_err());
}

#[test]
fn a_bare_tilde_is_the_identity_itself() {
    let name = alice();
    let expanded = expand_uri(uri("~:8080"), Some(&name)).unwrap();
    assert_eq!(expanded.authority.as_deref(), Some("alice.smith.dhttp.net:8080"));
    let expanded = expand_uri(uri("reimu.pilot~"), Some(&name)).unwrap();
    assert_eq!(expanded.authority.as_deref(), Some("reimu.pilot.dhttp.net"));
    assert!(expand_uri(uri("~"), None).is_err());
}

#[test]
fn hosts_are_replaced_inside_authorities() {
    assert_eq!(spliced_authority("u:p@host:80", "other"), "u:p@other:80");
    assert_eq!(spliced_authority("host", "other"), "other");
    assert_eq!(spliced_authority("host:80", "host"), "host:80");
}

#[test]
fn requests_are_handled_by_their_route() {
    let router = Router::new();
    match handle_request(&router, false, &uri("reimu.pilot~"), None) {
        ProxyAction::ForwardH3 { uri } => {
            assert_eq!(uri.authority.as_deref(), Some("reimu.pilot.dhttp.net"))
        }
        other => panic!("unexpected action: {other:?}"),
    }
    assert!(matches!(
        handle_request(&router, false, &uri("~"), None),
        ProxyAction::Respond { status: 502, body: "Bad Gateway" }
    ));
    assert!(matches!(
        handle_request(&router, true, &uri("reimu.pilot~:443"), None),
        ProxyAction::Respond {
            status: 502,
            body: "HTTPS proxy to .genmeta.net not supported"
        }
    ));
    assert!(matches!(
        handle_request(&router, true, &uri("example.com:443"), None),
        ProxyAction::Tunnel { addr } if addr == "example.com:443"
    ));
    assert!(matches!(
        handle_request(&router, false, &uri("example.com"), None),
        ProxyAction::ForwardHttp
    ));
}

#[test]
fn plain_requests_go_to_their_host() {
    let text = |host: &str| HostHeader::Text(host.to_owned());
    assert_eq!(forward_http(Some("example.com"), HostHeader::Missing).unwrap(), "example.com:80");
    assert_eq!(forward_http(Some("example.com:8080"), text("x")).unwrap(), "example.com:8080");
    assert_eq!(forward_http(None, text("example.com")).unwrap(), "example.com:80");
    // The colons of an address in brackets and of a password name no port.
    assert_eq!(forward_http(Some("[::1]"), HostHeader::Missing).unwrap(), "[::1]:80");
    assert_eq!(forward_http(Some("[::1]:8080"), HostHeader::Missing).unwrap(), "[::1]:8080");
    assert_eq!(
        forward_http(Some("user:pw@example.com"), HostHeader::Missing).unwrap(),
        "user:pw@example.com:80"
    );
    let error = forward_http(None, HostHeader::Missing).unwrap_err();
    assert_eq!(error.to_text(), "missing host in request");
    let error = forward_http(None, HostHeader::Unreadable).unwrap_err();
    assert_eq!(error.to_text(), "invalid host header");
}

#[test]
fn headers_of_one_connection_stay_behind() {
    let header = |name: &str| (name.to_owned(), b"value".to_vec());
    let head = RequestHead {
        uri: uri("reimu.pilot.dhttp.net"),
        headers: vec![
            header("host"),
            header("accept"),
            header("Connection"),
            header("keep-alive"),
            header("accept"),
            header("te"),
        ],
    };
    let rewritten = rewrite_request_for_h3(head);
    assert_eq!(rewritten.uri.scheme.as_deref(), Some("https"));
    assert_eq!(rewritten.headers, vec![header("accept"), header("accept")]);
}

#[test]
fn informational_answers_are_skipped() {
    assert!(is_informational(100) && is_informational(199));
    assert!(!is_informational(99) && !is_informational(200));
    let (forward, action) = H3Forward::forward_h3(Some("reimu.pilot.dhttp.net".to_owned()));
    assert!(matches!(action, H3Action::Connect { .. }));
    let (forward, action) = forward.step(H3Event::Done);
    assert_eq!(action, H3Action::OpenStream);
    let (forward, action) = forward.step(H3Event::Done);
    assert_eq!(action, H3Action::Send);
    let (forward, action) = forward.step(H3Event::Done);
    assert_eq!(action, H3Action::ReadAnswer);
    let (forward, action) = forward.step(H3Event::Answered { status: 103 });
    assert_eq!(action, H3Action::ReadAnswer);
    let (_, action) = forward.step(H3Event::Answered { status: 200 });
    assert_eq!(action, H3Action::Respond);
    let (_, action) = H3Forward::forward_h3(None);
    assert_eq!(action, H3Action::Fail { error: H3Error::MissingAuthority });
    let (forward, _) = H3Forward::forward_h3(Some("a".to_owned()));
    match forward.step(H3Event::Failed).1 {
        H3Action::Fail { error } => {
            assert_eq!(error.to_text(), "failed to connect to DHTTP/3 server `a`")
        }
        other => panic!("unexpected action: {other:?}"),
    }
}

#[test]
fn listeners_go_on_until_they_are_closed() {
    assert_eq!(accept_loop(AcceptEvent::Accepted), AcceptAction::AwaitPermit);
    assert_eq!(accept_loop(AcceptEvent::AcceptFailed), AcceptAction::RetryAfter { millis: 33 });
    assert_eq!(accept_loop(AcceptEvent::Permitted), AcceptAction::Serve);
    assert_eq!(accept_loop(AcceptEvent::Closed), AcceptAction::Stop);
    assert_eq!(tcp_keepalive().idle_seconds, 60);
    let bind = |ip: Option<&str>| ListenBind {
        host: "eth*".to_owned(),
        ip: ip.map(str::to_owned),
        port: 16080,
    };
    assert_eq!(bind_listener(bind(Some("127.0.0.1"))), Ok(("127.0.0.1".to_owned(), 16080)));
    assert_eq!(
        bind_listener(bind(None)).unwrap_err().to_text(),
        "listen bind `eth*` must be a concrete ip address"
    );
    assert!(log_plan(true, false, true).to_file && !log_plan(true, false, true).ansi);
    assert!(!log_plan(true, true, true).to_file && log_plan(true, true, true).ansi);
    assert!(log_plan(false, false, true).ansi && !log_plan(false, false, false).ansi);
}

fn options() -> RequestOptions {
    RequestOptions {
        uri: uri("user@server.example:443"),
        data: None,
        upload_file: None,
        output: None,
        request: None,
        header: vec![],
        connect_timeout: None,
        verbose: false,
    }
}

#[test]
fn headers_are_parted_at_the_first_colon() {
    assert_eq!(
        parse_header(" Accept : text/html:q ").unwrap(),
        ("Accept".to_owned(), "text/html:q".to_owned())
    );
    assert_eq!(parse_header("Empty:").unwrap(), ("Empty".to_owned(), String::new()));
    assert_eq!(parse_header("none").unwrap_err(), "missing header value");
}

#[test]
fn methods_fit_the_body() {
    assert_eq!(request_method(&options()), "GET");
    let some = || Some("x".to_owned());
    assert_eq!(request_method(&RequestOptions { data: some(), ..options() }), "POST");
    assert_eq!(request_method(&RequestOptions { upload_file: some(), ..options() }), "PUT");
    assert_eq!(
        request_method(&RequestOptions {
            data: some(),
            request: Some("PATCH".to_owned()),
            ..options()
        }),
        "PATCH"
    );
    let parameters = client_parameters(Some(7));
    assert_eq!(parameters.max_idle_timeout_seconds, 7);
    assert_eq!(parameters.initial_max_data, 1 << 20);
    assert_eq!(client_parameters(None).max_idle_timeout_seconds, 0);
}

#[test]
fn addresses_are_tried_until_one_answers() {
    let (run, action) = RequestRun::start(&options()).unwrap();
    assert_eq!(run.name, "server.example");
    assert_eq!(action, RequestAction::Resolve);
    let addrs = vec!["a:1".to_owned(), "b:2".to_owned()];
    let (run, action) = run.step(RequestEvent::Resolved { addrs });
    assert_eq!(action, RequestAction::Bind);
    let (run, action) = run.step(RequestEvent::Done);
    assert_eq!(action, RequestAction::Attempt { addr: "a:1".to_owned(), seconds: 3 });
    let (run, action) = run.step(RequestEvent::TimedOut);
    assert_eq!(action, RequestAction::Attempt { addr: "b:2".to_owned(), seconds: 3 });
    let (run, action) = run.step(RequestEvent::Done);
    assert_eq!(action, RequestAction::Build);
    let (run, action) = run.step(RequestEvent::Done);
    assert_eq!(action, RequestAction::Send);
    let (_, action) = run.step(RequestEvent::Done);
    assert_eq!(action, RequestAction::Transfer);
}

#[test]
fn every_attempt_gets_the_time_that_was_asked_for() {
    let patient = RequestOptions { connect_timeout: Some(10), ..options() };
    let (run, _) = RequestRun::start(&patient).unwrap();
    let addrs = vec!["a:1".to_owned(), "b:2".to_owned()];
    let (run, _) = run.step(RequestEvent::Resolved { addrs });
    let (run, action) = run.step(RequestEvent::Done);
    assert_eq!(action, RequestAction::Attempt { addr: "a:1".to_owned(), seconds: 10 });
    let (_, action) = run.step(RequestEvent::TimedOut);
    assert_eq!(action, RequestAction::Attempt { addr: "b:2".to_owned(), seconds: 10 });
}

#[test]
fn the_last_failure_is_reported() {
    let start = |addrs: &[&str]| {
        let (run, _) = RequestRun::start(&options()).unwrap();
        let addrs = addrs.iter().map(|addr| addr.to_string()).collect();
        let (run, _) = run.step(RequestEvent::Resolved { addrs });
        run.step(RequestEvent::Done)
    };
    let (_, action) = start(&[]);
    assert_eq!(action, RequestAction::Fail { error: RequestError::DnsNotFound });
    let (run, _) = start(&["a:1", "b:2"]);
    let (run, _) = run.step(RequestEvent::Failed { detail: "refused".to_owned() });
    let (_, action) = run.step(RequestEvent::TimedOut);
    assert_eq!(action, RequestAction::Fail { error: RequestError::ConnectTimeout });

    let (run, _) = RequestRun::start(&options()).unwrap();
    match run.step(RequestEvent::Failed { detail: "no answer".to_owned() }).1 {
        RequestAction::Fail { error } => {
            assert_eq!(error.to_text(), "failed to resolve host server.example: no answer")
        }
        other => panic!("unexpected action: {other:?}"),
    }
    let nowhere = RequestOptions {
        uri: UriParts { scheme: None, authority: None, path_and_query: Some("/".to_owned()) },
        ..options()
    };
    assert_eq!(RequestRun::start(&nowhere).unwrap_err().to_text(), "missing host in uri");
}

#[test]
fn bodies_are_sent_data_first_and_ended_once() {
    let both = RequestOptions {
        data: Some("x".to_owned()),
        upload_file: Some("f".to_owned()),
        ..options()
    };
    let (stage, action) = SendStage::start(&both);
    assert_eq!(action, SendAction::SendData);
    let (stage, action) = stage.step(true, SendEvent::Done);
    assert_eq!(action, SendAction::OpenFile);
    let (stage, action) = stage.step(true, SendEvent::Done);
    assert_eq!(action, SendAction::ReadChunk { limit: 1 << 20 });
    let (stage, action) = stage.step(true, SendEvent::Read { empty: false });
    assert_eq!(action, SendAction::SendChunk);
    let (stage, _) = stage.step(true, SendEvent::Done);
    let (stage, action) = stage.step(true, SendEvent::Read { empty: true });
    assert_eq!(action, SendAction::Finish);
    let (_, action) = stage.step(true, SendEvent::Done);
    assert_eq!(action, SendAction::Complete);
    let (stage, action) = SendStage::start(&options());
    assert_eq!(action, SendAction::Finish);
    match stage.step(false, SendEvent::Failed { detail: "gone".to_owned() }).1 {
        SendAction::Fail { error } => assert_eq!(error.to_text(), "gone"),
        other => panic!("unexpected action: {other:?}"),
    }
}

#[test]
fn answers_are_written_out_to_their_end() {
    let (stage, action) = ReceiveStage::start();
    assert_eq!(action, ReceiveAction::ReceiveResponse);
    let (stage, action) = stage.step(true, ReceiveEvent::Done);
    assert_eq!(action, ReceiveAction::CreateOutput);
    let (stage, action) = stage.step(true, ReceiveEvent::Done);
    assert_eq!(action, ReceiveAction::ReceiveData);
    let (stage, action) = stage.step(true, ReceiveEvent::Data { ended: false });
    assert_eq!(action, ReceiveAction::Write);
    let (stage, _) = stage.step(true, ReceiveEvent::Done);
    let (stage, action) = stage.step(true, ReceiveEvent::Data { ended: true });
    assert_eq!(action, ReceiveAction::Flush);
    let (_, action) = stage.step(true, ReceiveEvent::Done);
    assert_eq!(action, ReceiveAction::Complete);
    let (stage, _) = ReceiveStage::start();
    match stage.step(false, ReceiveEvent::Failed { detail: "reset".to_owned() }).1 {
        ReceiveAction::Fail { error } => {
            assert_eq!(error.to_text(), "failed to receive response: reset")
        }
        other => panic!("unexpected action: {other:?}"),
    }
}

#[test]
fn talkative_requests_mark_every_line() {
    assert_eq!(request_block("Request {\n    uri\n}"), "> send request: Request {\n>     uri\n> }");
    assert_eq!(response_block("a\nb"), "< received response: a\n< b");
    assert_eq!(
        resolved_line("server", &vec!["1.2.3.4:5".to_owned(), "[::1]:6".to_owned()]),
        "* resolved server to address: [1.2.3.4:5, [::1]:6]"
    );
    assert_eq!(established_line("server"), "* establish http3 connection to server");
}
