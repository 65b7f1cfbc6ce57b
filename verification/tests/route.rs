use gmutils::route::{has_port, host_of, Route, Router, UriParts};

fn router() -> Router {
    Router::new()
}

fn uri(authority: Option<&str>) -> UriParts {
    UriParts {
        scheme: Some("http".to_owned()),
        authority: authority.map(str::to_owned),
        path_and_query: Some("/".to_owned()),
    }
}

#[test]
fn test_is_genmeta_exact_suffix() {
    let r = router();
    assert!(r.is_genmeta("api.dhttp.net"));
    assert!(r.is_genmeta("API.Dhttp.Net"));
    assert!(r.is_genmeta("test.dhttp.net"));
    assert!(r.is_genmeta("a.b.dhttp.net"));
}

#[test]
fn test_is_genmeta_non_match() {
    let r = router();
    assert!(!r.is_genmeta("example.com"));
    assert!(!r.is_genmeta("dhttp.net.evil.com"));
    assert!(!r.is_genmeta("notdhttp.net"));
}

#[test]
fn test_is_genmeta_with_port() {
    let r = router();
    assert!(r.is_genmeta("api.dhttp.net:443"));
}

#[test]
fn test_is_genmeta_bare_domain() {
    let r = router();
    assert!(!r.is_genmeta("dhttp.net"));
}

#[test]
fn tildes_mark_dhttp_names() {
    let r = Router::default();
    assert!(r.is_genmeta("~"));
    assert!(r.is_genmeta("reimu.pilot~"));
    assert!(r.is_genmeta("reimu.pilot~:8080"));
    assert!(!r.is_genmeta("~user.example.com"));
    assert!(!r.is_genmeta(""));
}

#[test]
fn hosts_are_read_out_of_authorities() {
    assert_eq!(host_of("example.com"), "example.com");
    assert_eq!(host_of("example.com:8080"), "example.com");
    assert_eq!(host_of("user:secret@example.com:8080"), "example.com");
    assert_eq!(host_of("[::1]:443"), "[::1]");
    assert_eq!(host_of("user@[::1]"), "[::1]");
    for authority in ["example.com:8080", "user:secret@example.com:8080", "[::1]:443", "user@[::1]"] {
        let parsed: http::uri::Authority = authority.parse().unwrap();
        assert_eq!(host_of(authority), parsed.host());
    }
}

#[test]
fn every_request_has_one_way() {
    let r = router();
    assert_eq!(
        r.classify(true, &uri(Some("api.dhttp.net:443"))),
        Route::GenmetaConnect { authority: "api.dhttp.net:443".to_owned() }
    );
    assert_eq!(
        r.classify(true, &uri(Some("example.com:443"))),
        Route::TunnelConnect { authority: "example.com:443".to_owned() }
    );
    assert_eq!(
        r.classify(false, &uri(Some("api.dhttp.net"))),
        Route::GenmetaPlainHttp {
            authority: "api.dhttp.net".to_owned(),
            uri: uri(Some("api.dhttp.net"))
        }
    );
    assert_eq!(
        r.classify(false, &uri(Some("example.com"))),
        Route::StandardForward { uri: uri(Some("example.com")) }
    );
    assert_eq!(r.classify(true, &uri(None)), Route::StandardForward { uri: uri(None) });
}

#[test]
fn ports_stand_behind_the_host() {
    assert!(has_port("example.com:80"));
    assert!(has_port("user:pw@example.com:80"));
    assert!(has_port("[::1]:80"));
    assert!(!has_port("example.com"));
    assert!(!has_port("user:pw@example.com"));
    assert!(!has_port("[::1]"));
}

#[test]
fn names_are_known_in_any_case_and_with_more_labels() {
    let r = router();
    for name in ["api.dhttp.net", "API.DHTTP.NET", "Api.dHttp.Net:443"] {
        assert!(r.is_genmeta(name), "{name}");
        assert!(r.is_genmeta(&format!("more.{name}")), "{name}");
    }
    for name in ["example.com", "EXAMPLE.com"] {
        assert!(!r.is_genmeta(name), "{name}");
    }
    assert!(r.is_genmeta("\u{9748}\u{5922}~"));
}
