//! What the proxy does with a request: names are completed, requests are rewritten, and
//! failures are answered.
use vstd::prelude::*;

use crate::route::{
    after_last, can_be_asked, first_index_fits, genmeta_host, has_port, host_in, host_of,
    names_port, ports_are_named, Route, Router, UriParts,
};
use crate::target::{complete_name, dhttp_full_name, IdentityName};
use crate::text::{first_index, has_char, lowercase, opt_view, same, split_once, to_lowercase};

verus! {

/// Why a request was not forwarded.
#[derive(Debug, PartialEq, Eq)]
pub enum ProxyError {
    BareTildeWithoutIdentity,
    ExpandNameInUri,
    ExpandUriName,
    ParseExpandedAuthority { authority: String },
    ReconstructExpandedUri,
    ForwardMissingHost,
    ForwardInvalidHost,
    ConcreteAddressRequired { host: String },
}

impl ProxyError {
    pub open spec fn words(self) -> Seq<char> {
        match self {
            ProxyError::BareTildeWithoutIdentity => "bare `~` requires an identity"@,
            ProxyError::ExpandNameInUri => "failed to expand identity name in uri"@,
            ProxyError::ExpandUriName => "failed to parse identity name in uri"@,
            ProxyError::ParseExpandedAuthority {
                authority,
            } => "failed to parse expanded authority `"@ + authority@ + "`"@,
            ProxyError::ReconstructExpandedUri => "failed to reconstruct uri with expanded identity name"@,
            ProxyError::ForwardMissingHost => "missing host in request"@,
            ProxyError::ForwardInvalidHost => "invalid host header"@,
            ProxyError::ConcreteAddressRequired { host } => "listen bind `"@ + host@
                + "` must be a concrete ip address"@,
        }
    }

    pub fn to_text(&self) -> (r: String)
        ensures
            r@ == self.words(),
    {
        match self {
            ProxyError::BareTildeWithoutIdentity => "bare `~` requires an identity".to_owned(),
            ProxyError::ExpandNameInUri => "failed to expand identity name in uri".to_owned(),
            ProxyError::ExpandUriName => "failed to parse identity name in uri".to_owned(),
            ProxyError::ParseExpandedAuthority { authority } => {
                let mut r = "failed to parse expanded authority `".to_owned();
                r.append(authority);
                r.append("`");
                r
            },
            ProxyError::ReconstructExpandedUri => "failed to reconstruct uri with expanded identity name".to_owned(),
            ProxyError::ForwardMissingHost => "missing host in request".to_owned(),
            ProxyError::ForwardInvalidHost => "invalid host header".to_owned(),
            ProxyError::ConcreteAddressRequired { host } => {
                let mut r = "listen bind `".to_owned();
                r.append(host);
                r.append("` must be a concrete ip address");
                r
            },
        }
    }
}

/// The DNS name that a host with tildes stands for, `None` where it stands for none.
pub uninterp spec fn shorthand_name(host: Seq<char>) -> Option<Seq<char>>;

/// Parses with `Name::from_dhttp_shorthand`, which takes every tilde for the DHTTP suffix, and
/// gives back `Name::as_full`. The result is a function of the host; the name `shorthand_name`
/// stands for it.
#[verifier::external_body]
pub(crate) fn expand_shorthand(host: &str) -> (r: Option<String>)
    ensures
        opt_view(r) == shorthand_name(host@),
{
    dhttp_identity::name::Name::from_dhttp_shorthand(host).ok().map(|name| name.as_full().to_owned())
}

/// Whether a text is the authority of a URI.
pub uninterp spec fn valid_authority(text: Seq<char>) -> bool;

/// Parses with `http::uri::Authority::from_str` and tells whether that succeeds; the name
/// `valid_authority` stands for it.
#[verifier::external_body]
pub(crate) fn is_authority(text: &str) -> (r: bool)
    ensures
        r == valid_authority(text@),
{
    text.parse::<http::uri::Authority>().is_ok()
}

/// The authority with its host completed as an identity sees it, `None` where that fails.
pub uninterp spec fn expanded_authority(base: Seq<char>, authority: Seq<char>) -> Option<
    Seq<char>,
>;

/// Calls `DhttpName::expand_authority_with_base`, which replaces a bare tilde by the name of the
/// identity and every other tilde by the DHTTP suffix. The result is a function of the name and
/// the authority; the name `expanded_authority` stands for it.
#[verifier::external_body]
pub(crate) fn expand_authority_as(base: &str, authority: &str) -> (r: Option<String>)
    ensures
        opt_view(r) == expanded_authority(base@, authority@),
{
    let name = dhttp_identity::name::DhttpName::try_from(base).ok()?;
    let parsed = authority.parse::<http::uri::Authority>().ok()?;
    let expanded = dhttp_identity::name::DhttpName::expand_authority_with_base(Some(&name), parsed);
    expanded.ok().map(|authority| authority.as_str().to_owned())
}

/// A URI with a scheme has an authority and a path; one without has at most one of them.
pub open spec fn uri_fits(uri: UriParts) -> bool {
    if uri.scheme is Some {
        uri.authority is Some && uri.path_and_query is Some
    } else {
        !(uri.authority is Some && uri.path_and_query is Some)
    }
}

pub fn can_build_uri(uri: &UriParts) -> (r: bool)
    ensures
        r == uri_fits(*uri),
{
    if uri.scheme.is_some() {
        uri.authority.is_some() && uri.path_and_query.is_some()
    } else {
        !(uri.authority.is_some() && uri.path_and_query.is_some())
    }
}

/// The part of an authority before the host.
pub open spec fn user_part(authority: Seq<char>) -> Seq<char> {
    if first_index(authority, '@') < authority.len() {
        authority.take(first_index(authority, '@') + 1)
    } else {
        Seq::empty()
    }
}

/// The authority with another host in place of its own.
pub open spec fn spliced(authority: Seq<char>, host: Seq<char>) -> Seq<char> {
    user_part(authority) + host + authority.skip(
        (user_part(authority).len() + host_in(authority).len()) as int,
    )
}

proof fn last_part_is_short(s: Seq<char>, c: char)
    ensures
        first_index(s, c) < s.len() ==> after_last(s, c).len() + first_index(s, c) + 1 <= s.len(),
        after_last(s, c).len() <= s.len(),
    decreases s.len(),
{
    first_index_fits(s, c);
    if first_index(s, c) < s.len() {
        last_part_is_short(s.skip(first_index(s, c) + 1), c);
    }
}

/// Puts another host into an authority; the user and the port stay.
pub fn spliced_authority(authority: &str, expanded: &str) -> (r: String)
    ensures
        r@ == spliced(authority@, expanded@),
{
    let host = host_of(authority);
    let total: usize = authority.unicode_len();
    let host_len: usize = host.as_str().unicode_len();
    proof {
        first_index_fits(authority@, '@');
        last_part_is_short(authority@, '@');
        first_index_fits(after_last(authority@, '@'), ']');
        first_index_fits(after_last(authority@, '@'), ':');
    }
    let user = match split_once(authority, '@') {
        Some((before, _)) => {
            let at: usize = before.unicode_len();
            assert(authority@.subrange(0, at + 1) =~= authority@.take(at + 1));
            authority.substring_char(0, at + 1)
        },
        None => authority.substring_char(0, 0),
    };
    assert(user@ =~= user_part(authority@));
    let from: usize = user.unicode_len() + host_len;
    let rest = authority.substring_char(from, total);
    assert(rest@ =~= authority@.skip(from as int));
    let mut r = user.to_owned();
    r.append(expanded);
    r.append(rest);
    r
}

/// The complete name that a host stands for: a host with a tilde is completed, a DHTTP name is
/// normalized, and another host stands for itself.
pub open spec fn expanded_host(host: Seq<char>) -> Result<Option<Seq<char>>, ()> {
    let named = if host.contains('~') {
        Some(shorthand_name(host))
    } else if host.len() >= 10 && lowercase(host.skip(host.len() - 10)) == ".dhttp.net"@ {
        Some(dhttp_full_name(host))
    } else {
        None
    };
    match named {
        None => Ok(None),
        Some(None) => Err(()),
        Some(Some(name)) => Ok(Some(name)),
    }
}

/// The complete name that a host stands for.
pub fn expand_host(host: &str) -> (r: Result<Option<String>, ()>)
    ensures
        match r {
            Ok(name) => expanded_host(host@) == Ok::<Option<Seq<char>>, ()>(opt_view(name)),
            Err(()) => expanded_host(host@) is Err,
        },
{
    if has_char(host, '~') {
        return match expand_shorthand(host) {
            Some(name) => Ok(Some(name)),
            None => Err(()),
        };
    }
    let len: usize = host.unicode_len();
    if len >= 10 {
        let end = host.substring_char(len - 10, len);
        assert(end@ =~= host@.skip(host@.len() - 10));
        if same(&to_lowercase(end), ".dhttp.net") {
            return match complete_name(host) {
                Ok(name) => Ok(Some(name)),
                Err(_) => Err(()),
            };
        }
    }
    Ok(None)
}

/// `r` is the URI with this authority in place of its own.
pub open spec fn with_authority(
    uri: UriParts,
    authority: Option<Seq<char>>,
    r: Result<UriParts, ProxyError>,
) -> bool {
    if uri_fits(uri) {
        r matches Ok(changed) && changed.scheme == uri.scheme && changed.path_and_query
            == uri.path_and_query && opt_view(changed.authority) == authority
    } else {
        r == Err::<UriParts, ProxyError>(ProxyError::ReconstructExpandedUri)
    }
}

/// `r` is what the URI stands for where nobody in particular asks.
pub open spec fn expands_anonymously(uri: UriParts, r: Result<UriParts, ProxyError>) -> bool {
    match uri.authority {
        None => with_authority(uri, None, r),
        Some(authority) => {
            let host = host_in(authority@);
            if host == "~"@ {
                r == Err::<UriParts, ProxyError>(ProxyError::BareTildeWithoutIdentity)
            } else {
                match expanded_host(host) {
                    Err(()) => r == Err::<UriParts, ProxyError>(ProxyError::ExpandUriName),
                    Ok(None) => with_authority(uri, Some(authority@), r),
                    Ok(Some(name)) => if name == host {
                        with_authority(uri, Some(authority@), r)
                    } else if valid_authority(spliced(authority@, name)) {
                        with_authority(uri, Some(spliced(authority@, name)), r)
                    } else {
                        r matches Err(ProxyError::ParseExpandedAuthority { authority: text })
                            && text@ == spliced(authority@, name)
                    },
                }
            }
        },
    }
}

/// Completes the name in a URI without an identity.
pub fn expand_uri_without_identity(uri: UriParts) -> (r: Result<UriParts, ProxyError>)
    ensures
        expands_anonymously(uri, r),
{
    let fits = can_build_uri(&uri);
    let changed: Option<String> = match &uri.authority {
        None => None,
        Some(authority) => {
            let host = host_of(authority);
            if same(&host, "~") {
                return Err(ProxyError::BareTildeWithoutIdentity);
            }
            match expand_host(&host) {
                Err(()) => {
                    return Err(ProxyError::ExpandUriName);
                },
                Ok(None) => None,
                Ok(Some(name)) => if same(&name, &host) {
                    None
                } else {
                    let text = spliced_authority(authority, &name);
                    if !is_authority(&text) {
                        return Err(ProxyError::ParseExpandedAuthority { authority: text });
                    }
                    Some(text)
                },
            }
        },
    };
    if !fits {
        return Err(ProxyError::ReconstructExpandedUri);
    }
    match changed {
        None => Ok(uri),
        Some(text) => Ok(
            UriParts {
                scheme: uri.scheme,
                authority: Some(text),
                path_and_query: uri.path_and_query,
            },
        ),
    }
}

/// `r` is what the URI stands for where an identity asks.
pub open spec fn expands_as(base: Seq<char>, uri: UriParts, r: Result<UriParts, ProxyError>) -> bool {
    match uri.authority {
        None => if uri_fits(uri) {
            r == Ok::<UriParts, ProxyError>(uri)
        } else {
            r == Err::<UriParts, ProxyError>(ProxyError::ExpandNameInUri)
        },
        Some(authority) => match expanded_authority(base, authority@) {
            None => r == Err::<UriParts, ProxyError>(ProxyError::ExpandNameInUri),
            Some(text) => if uri_fits(uri) {
                with_authority(uri, Some(text), r)
            } else {
                r == Err::<UriParts, ProxyError>(ProxyError::ExpandNameInUri)
            },
        },
    }
}

/// Puts the completed authority into a URI; without one the URI stays as it is.
pub fn replace_authority(uri: UriParts, expanded: Option<String>) -> (r: Result<
    UriParts,
    ProxyError,
>)
    ensures
        match (uri.authority, expanded) {
            (Some(_), None) => r == Err::<UriParts, ProxyError>(ProxyError::ExpandNameInUri),
            (None, _) => r == (if uri_fits(uri) {
                Ok::<UriParts, ProxyError>(uri)
            } else {
                Err(ProxyError::ExpandNameInUri)
            }),
            (Some(_), Some(text)) => r == (if uri_fits(uri) {
                Ok::<UriParts, ProxyError>(UriParts { authority: Some(text), ..uri })
            } else {
                Err(ProxyError::ExpandNameInUri)
            }),
        },
{
    let fits = can_build_uri(&uri);
    match (uri.authority.is_some(), expanded) {
        (true, None) => Err(ProxyError::ExpandNameInUri),
        (false, _) => if fits {
            Ok(uri)
        } else {
            Err(ProxyError::ExpandNameInUri)
        },
        (true, Some(text)) => if fits {
            Ok(
                UriParts {
                    scheme: uri.scheme,
                    authority: Some(text),
                    path_and_query: uri.path_and_query,
                },
            )
        } else {
            Err(ProxyError::ExpandNameInUri)
        },
    }
}

pub open spec fn given(name: Option<&IdentityName>) -> Option<IdentityName> {
    match name {
        Some(name) => Some(*name),
        None => None,
    }
}

/// `r` is what the URI stands for.
pub open spec fn expands(
    self_name: Option<IdentityName>,
    uri: UriParts,
    r: Result<UriParts, ProxyError>,
) -> bool {
    match self_name {
        Some(name) => expands_as(name.full@, uri, r),
        None => expands_anonymously(uri, r),
    }
}

/// The URI stands for nothing.
pub open spec fn cannot_expand(self_name: Option<IdentityName>, uri: UriParts) -> bool {
    exists|error: ProxyError|
        #![trigger error.words()]
        expands(self_name, uri, Err(error))
}

/// Completes the name in a URI.
pub fn expand_uri(uri: UriParts, self_name: Option<&IdentityName>) -> (r: Result<
    UriParts,
    ProxyError,
>)
    ensures
        expands(
            given(self_name),
            uri,
            r,
        ),
{
    match self_name {
        None => expand_uri_without_identity(uri),
        Some(name) => {
            let expanded = match &uri.authority {
                Some(authority) => expand_authority_as(&name.full, authority),
                None => None,
            };
            replace_authority(uri, expanded)
        },
    }
}

/// What is done with a request.
#[derive(Debug)]
pub enum ProxyAction {
    /// Forwards the request to a DHTTP name.
    ForwardH3 { uri: UriParts },
    /// Opens a tunnel.
    Tunnel { addr: String },
    /// Forwards the request as it is.
    ForwardHttp,
    /// Answers the request.
    Respond { status: u16, body: &'static str },
}

/// The answer to a request that could not be forwarded.
pub fn bad_gateway() -> (r: ProxyAction)
    ensures
        r matches ProxyAction::Respond { status, body } && status == 502 && body@ == "Bad Gateway"@,
{
    ProxyAction::Respond { status: 502, body: "Bad Gateway" }
}

/// What is done with a request: names are completed before requests go to them, tunnels to
/// them are refused, and everything else passes.
pub fn handle_request(
    router: &Router,
    connect: bool,
    uri: &UriParts,
    self_name: Option<&IdentityName>,
) -> (r: ProxyAction)
    requires
        uri.authority matches Some(authority) ==> can_be_asked(host_in(authority@)),
    ensures
        match uri.authority {
            Some(authority) => if genmeta_host(host_in(authority@)) {
                if connect {
                    r matches ProxyAction::Respond { status, body } && status == 502 && body@
                        == "HTTPS proxy to .genmeta.net not supported"@
                } else {
                    match r {
                        ProxyAction::ForwardH3 { uri: expanded } => expands(
                            given(self_name),
                            *uri,
                            Ok(expanded),
                        ),
                        ProxyAction::Respond { status, body } => status == 502 && body@
                            == "Bad Gateway"@ && cannot_expand(
                            given(self_name),
                            *uri,
                        ),
                        _ => false,
                    }
                }
            } else if connect {
                r == (ProxyAction::Tunnel { addr: authority })
            } else {
                r == ProxyAction::ForwardHttp
            },
            None => r == ProxyAction::ForwardHttp,
        },
{
    match router.classify(connect, uri) {
        Route::GenmetaPlainHttp { uri, .. } => match expand_uri(uri, self_name) {
            Ok(expanded) => ProxyAction::ForwardH3 { uri: expanded },
            Err(error) => {
                assert(error.words() == error.words());
                bad_gateway()
            },
        },
        Route::GenmetaConnect { .. } => ProxyAction::Respond {
            status: 502,
            body: "HTTPS proxy to .genmeta.net not supported",
        },
        Route::TunnelConnect { authority } => ProxyAction::Tunnel { addr: authority },
        Route::StandardForward { .. } => ProxyAction::ForwardHttp,
    }
}

/// What a request says about its host in a header.
#[derive(Debug)]
pub enum HostHeader {
    Missing,
    Unreadable,
    Text(String),
}

/// The address that a request is forwarded to: a host without a port is reached on port 80.
pub open spec fn address(host: Seq<char>) -> Seq<char> {
    if names_port(host) {
        host
    } else {
        host + ":80"@
    }
}

/// The address that a plain request is forwarded to: the authority of its URI, else its host
/// header.
pub fn forward_http(authority: Option<&str>, host: HostHeader) -> (r: Result<String, ProxyError>)
    ensures
        match (authority, host) {
            (Some(authority), _) => r matches Ok(addr) && addr@ == address(authority@),
            (None, HostHeader::Text(host)) => r matches Ok(addr) && addr@ == address(host@),
            (None, HostHeader::Unreadable) => r == Err::<String, ProxyError>(
                ProxyError::ForwardInvalidHost,
            ),
            (None, HostHeader::Missing) => r == Err::<String, ProxyError>(
                ProxyError::ForwardMissingHost,
            ),
        },
{
    let mut addr = match authority {
        Some(authority) => authority.to_owned(),
        None => match host {
            HostHeader::Text(host) => host,
            HostHeader::Unreadable => {
                return Err(ProxyError::ForwardInvalidHost);
            },
            HostHeader::Missing => {
                return Err(ProxyError::ForwardMissingHost);
            },
        },
    };
    if !has_port(&addr) {
        addr.append(":80");
    }
    Ok(addr)
}

/// Whatever a request is forwarded to has a port.
pub proof fn addresses_name_a_port(host: Seq<char>)
    ensures
        names_port(address(host)),
{
    reveal_strlit(":80");
    reveal_strlit(":");
    let port = seq!['8', '0'];
    assert(":80"@ =~= ":"@ + port);
    assert(host + ":80"@ =~= host + ":"@ + port);
    ports_are_named(host, port);
}

/// The head of a request.
#[derive(Debug)]
pub struct RequestHead {
    pub uri: UriParts,
    pub headers: Vec<(String, Vec<u8>)>,
}

/// The headers that concern one connection alone.
pub open spec fn hop_by_hop(name: Seq<char>) -> bool {
    let name = lowercase(name);
    name == "connection"@ || name == "transfer-encoding"@ || name == "te"@ || name == "upgrade"@
        || name == "host"@ || name == "proxy-connection"@ || name == "keep-alive"@
}

pub fn is_hop_by_hop(name: &str) -> (r: bool)
    ensures
        r == hop_by_hop(name@),
{
    let name = to_lowercase(name);
    same(&name, "connection") || same(&name, "transfer-encoding") || same(&name, "te") || same(
        &name,
        "upgrade",
    ) || same(&name, "host") || same(&name, "proxy-connection") || same(&name, "keep-alive")
}

/// The headers that travel on, in their order.
pub open spec fn forwarded(headers: Seq<(String, Vec<u8>)>) -> Seq<(String, Vec<u8>)> {
    headers.filter(|header: (String, Vec<u8>)| !hop_by_hop(header.0@))
}

proof fn forwarded_of_front(first: (String, Vec<u8>), rest: Seq<(String, Vec<u8>)>)
    ensures
        forwarded(seq![first] + rest) == (if hop_by_hop(first.0@) {
            forwarded(rest)
        } else {
            seq![first] + forwarded(rest)
        }),
    decreases rest.len(),
{
    reveal(Seq::filter);
    let all = seq![first] + rest;
    if rest.len() == 0 {
        assert(all.drop_last() =~= Seq::empty());
        assert(all.last() == first);
        assert(forwarded(all.drop_last()) =~= Seq::empty());
        assert(forwarded(rest) =~= Seq::empty());
        assert(forwarded(all) =~= (if hop_by_hop(first.0@) {
            forwarded(rest)
        } else {
            seq![first] + forwarded(rest)
        }));
    } else {
        assert(all.drop_last() =~= seq![first] + rest.drop_last());
        assert(all.last() == rest.last());
        forwarded_of_front(first, rest.drop_last());
        assert(forwarded(all) =~= (if hop_by_hop(first.0@) {
            forwarded(rest)
        } else {
            seq![first] + forwarded(rest)
        }));
    }
}

fn strip_headers(headers: &mut Vec<(String, Vec<u8>)>)
    ensures
        final(headers)@ == forwarded(old(headers)@),
{
    let ghost all = headers@;
    let mut i: usize = headers.len();
    proof {
        reveal(Seq::filter);
        assert(all.skip(i as int) =~= Seq::empty());
        assert(all.take(i as int) =~= all);
        assert(headers@ =~= all.take(i as int) + forwarded(all.skip(i as int)));
    }
    while i > 0
        invariant
            i <= all.len(),
            headers@ == all.take(i as int) + forwarded(all.skip(i as int)),
        decreases i,
    {
        let ghost kept = forwarded(all.skip(i as int));
        i -= 1;
        proof {
            assert(all.skip(i as int) =~= seq![all[i as int]] + all.skip(i + 1));
            forwarded_of_front(all[i as int], all.skip(i + 1));
            assert(headers@[i as int] == all[i as int]);
        }
        if is_hop_by_hop(&headers[i].0) {
            headers.remove(i);
            assert(headers@ =~= all.take(i as int) + kept);
        } else {
            assert(headers@ =~= all.take(i as int) + (seq![all[i as int]] + kept));
        }
    }
    assert(all.take(0) =~= Seq::empty());
    assert(all.skip(0) =~= all);
    assert(headers@ =~= forwarded(all));
}

/// Rewrites a request for HTTP/3: its scheme becomes `https` where the rest of its URI allows
/// that, and the headers that concern one connection alone are left out.
pub fn rewrite_request_for_h3(head: RequestHead) -> (r: RequestHead)
    ensures
        r.headers@ == forwarded(head.headers@),
        r.uri.authority == head.uri.authority,
        r.uri.path_and_query == head.uri.path_and_query,
        if head.uri.authority is Some && head.uri.path_and_query is Some {
            opt_view(r.uri.scheme) == Some("https"@)
        } else {
            r.uri.scheme == head.uri.scheme
        },
{
    let mut headers = head.headers;
    strip_headers(&mut headers);
    let uri = head.uri;
    let scheme = if uri.authority.is_some() && uri.path_and_query.is_some() {
        Some("https".to_owned())
    } else {
        uri.scheme
    };
    RequestHead {
        uri: UriParts { scheme, authority: uri.authority, path_and_query: uri.path_and_query },
        headers,
    }
}

/// An answer that announces another.
pub fn is_informational(status: u16) -> (r: bool)
    ensures
        r == (100 <= status <= 199),
{
    100 <= status && status <= 199
}

/// Why a request could not be forwarded to a DHTTP name.
#[derive(Debug, PartialEq, Eq)]
pub enum H3Error {
    MissingAuthority,
    Connect { authority: String },
    OpenStream,
    Send,
    Read,
}

impl H3Error {
    pub open spec fn words(self) -> Seq<char> {
        match self {
            H3Error::MissingAuthority => "missing authority in DHTTP/3 request URI"@,
            H3Error::Connect { authority } => "failed to connect to DHTTP/3 server `"@ + authority@
                + "`"@,
            H3Error::OpenStream => "failed to open h3 message stream"@,
            H3Error::Send => "failed to send h3 request"@,
            H3Error::Read => "failed to read h3 response"@,
        }
    }

    pub fn to_text(&self) -> (r: String)
        ensures
            r@ == self.words(),
    {
        match self {
            H3Error::MissingAuthority => "missing authority in DHTTP/3 request URI".to_owned(),
            H3Error::Connect { authority } => {
                let mut r = "failed to connect to DHTTP/3 server `".to_owned();
                r.append(authority);
                r.append("`");
                r
            },
            H3Error::OpenStream => "failed to open h3 message stream".to_owned(),
            H3Error::Send => "failed to send h3 request".to_owned(),
            H3Error::Read => "failed to read h3 response".to_owned(),
        }
    }
}

/// How far a request to a DHTTP name has come.
#[derive(Debug, PartialEq, Eq)]
pub enum H3Forward {
    Connecting { authority: String },
    Opening,
    Sending,
    /// The request is sent; its answer is awaited while the request stream is closed.
    Reading,
    Over,
}

/// What came of the last step.
#[derive(Debug, Clone, Copy, PartialEq, Eq, Structural)]
pub enum H3Event {
    Done,
    Answered { status: u16 },
    Failed,
}

/// What is done next.
#[derive(Debug, PartialEq, Eq)]
pub enum H3Action {
    Connect { authority: String },
    OpenStream,
    /// Sends the request as it was rewritten.
    Send,
    ReadAnswer,
    /// Hands the last answer back.
    Respond,
    Fail { error: H3Error },
}

impl H3Forward {
    /// The events that can follow.
    pub open spec fn awaits(self, event: H3Event) -> bool {
        match (self, event) {
            (H3Forward::Over, _) => false,
            (H3Forward::Reading, H3Event::Done) => false,
            (H3Forward::Reading, _) => true,
            (_, H3Event::Answered { .. }) => false,
            _ => true,
        }
    }

    pub open spec fn after(self, event: H3Event) -> (H3Forward, H3Action) {
        match (self, event) {
            (H3Forward::Connecting { authority }, H3Event::Failed) => (
                H3Forward::Over,
                H3Action::Fail { error: H3Error::Connect { authority } },
            ),
            (H3Forward::Connecting { .. }, _) => (H3Forward::Opening, H3Action::OpenStream),
            (H3Forward::Opening, H3Event::Failed) => (
                H3Forward::Over,
                H3Action::Fail { error: H3Error::OpenStream },
            ),
            (H3Forward::Opening, _) => (H3Forward::Sending, H3Action::Send),
            (H3Forward::Sending, H3Event::Failed) => (
                H3Forward::Over,
                H3Action::Fail { error: H3Error::Send },
            ),
            (H3Forward::Sending, _) => (H3Forward::Reading, H3Action::ReadAnswer),
            (_, H3Event::Answered { status }) => if 100 <= status <= 199 {
                (H3Forward::Reading, H3Action::ReadAnswer)
            } else {
                (H3Forward::Over, H3Action::Respond)
            },
            (_, _) => (H3Forward::Over, H3Action::Fail { error: H3Error::Read }),
        }
    }

    /// Starts to forward a request.
    pub fn forward_h3(authority: Option<String>) -> (r: (H3Forward, H3Action))
        ensures
            match authority {
                Some(authority) => r == (
                    H3Forward::Connecting { authority },
                    H3Action::Connect { authority },
                ),
                None => r == (
                    H3Forward::Over,
                    H3Action::Fail { error: H3Error::MissingAuthority },
                ),
            },
    {
        match authority {
            Some(authority) => {
                let copy = authority.clone();
                (H3Forward::Connecting { authority: copy }, H3Action::Connect { authority })
            },
            None => (H3Forward::Over, H3Action::Fail { error: H3Error::MissingAuthority }),
        }
    }

    /// Answers that announce another are skipped; every other failure ends the way.
    pub fn step(self, event: H3Event) -> (r: (H3Forward, H3Action))
        requires
            self.awaits(event),
        ensures
            r == self.after(event),
    {
        match (self, event) {
            (H3Forward::Connecting { authority }, H3Event::Failed) => (
                H3Forward::Over,
                H3Action::Fail { error: H3Error::Connect { authority } },
            ),
            (H3Forward::Connecting { .. }, _) => (H3Forward::Opening, H3Action::OpenStream),
            (H3Forward::Opening, H3Event::Failed) => (
                H3Forward::Over,
                H3Action::Fail { error: H3Error::OpenStream },
            ),
            (H3Forward::Opening, _) => (H3Forward::Sending, H3Action::Send),
            (H3Forward::Sending, H3Event::Failed) => (
                H3Forward::Over,
                H3Action::Fail { error: H3Error::Send },
            ),
            (H3Forward::Sending, _) => (H3Forward::Reading, H3Action::ReadAnswer),
            (_, H3Event::Answered { status }) => if is_informational(status) {
                (H3Forward::Reading, H3Action::ReadAnswer)
            } else {
                (H3Forward::Over, H3Action::Respond)
            },
            (_, _) => (H3Forward::Over, H3Action::Fail { error: H3Error::Read }),
        }
    }
}

/// A request is answered only with an answer that announces no other.
pub proof fn only_final_answers_are_handed_back(forward: H3Forward, event: H3Event)
    requires
        forward.awaits(event),
    ensures
        forward.after(event).1 is Respond <==> (event matches H3Event::Answered { status } && !(100
            <= status <= 199)),
        forward.after(event).0 is Over <==> forward.after(event).1 is Respond || forward.after(
            event,
        ).1 is Fail,
{
}

/// How connections are watched: after how many seconds of silence they are probed, how often,
/// and how many probes may stay unanswered.
#[derive(Debug, Clone, Copy, PartialEq, Eq, Structural)]
pub struct Keepalive {
    pub idle_seconds: u64,
    pub interval_seconds: u64,
    pub retries: u32,
}

/// A dead peer is noticed after about ninety seconds.
pub fn tcp_keepalive() -> (r: Keepalive)
    ensures
        r == (Keepalive { idle_seconds: 60, interval_seconds: 10, retries: 3 }),
        r.idle_seconds + r.interval_seconds * r.retries == 90,
{
    Keepalive { idle_seconds: 60, interval_seconds: 10, retries: 3 }
}

/// What came of waiting for a connection.
#[derive(Debug, Clone, Copy, PartialEq, Eq, Structural)]
pub enum AcceptEvent {
    Accepted,
    AcceptFailed,
    Permitted,
    Closed,
}

/// What the listener does next.
#[derive(Debug, Clone, Copy, PartialEq, Eq, Structural)]
pub enum AcceptAction {
    /// Waits until fewer connections than the limit are open.
    AwaitPermit,
    RetryAfter { millis: u64 },
    /// Serves the connection and waits for the next.
    Serve,
    Stop,
}

/// A failed accept is tried again; only a closed proxy stops the listener.
pub fn accept_loop(event: AcceptEvent) -> (r: AcceptAction)
    ensures
        r == (match event {
            AcceptEvent::Accepted => AcceptAction::AwaitPermit,
            AcceptEvent::AcceptFailed => AcceptAction::RetryAfter { millis: 33 },
            AcceptEvent::Permitted => AcceptAction::Serve,
            AcceptEvent::Closed => AcceptAction::Stop,
        }),
{
    match event {
        AcceptEvent::Accepted => AcceptAction::AwaitPermit,
        AcceptEvent::AcceptFailed => AcceptAction::RetryAfter { millis: 33 },
        AcceptEvent::Permitted => AcceptAction::Serve,
        AcceptEvent::Closed => AcceptAction::Stop,
    }
}

/// Where the log goes, and whether it is styled.
#[derive(Debug, Clone, Copy, PartialEq, Eq, Structural)]
pub struct LogPlan {
    pub to_file: bool,
    pub ansi: bool,
}

/// A daemon's log file is opened before it detaches, so it logs to its standard error.
pub fn log_plan(log_given: bool, daemon: bool, terminal: bool) -> (r: LogPlan)
    ensures
        r == (LogPlan {
            to_file: log_given && !daemon,
            ansi: (!log_given || daemon) && terminal,
        }),
{
    LogPlan { to_file: log_given && !daemon, ansi: (!log_given || daemon) && terminal }
}

/// An address that the proxy is told to listen on.
#[derive(Debug)]
pub struct ListenBind {
    /// The host as it was written.
    pub host: String,
    /// The address that the host is, where it is one.
    pub ip: Option<String>,
    pub port: u16,
}

/// The address and the port that a listener is bound to; a pattern is refused.
pub fn bind_listener(bind: ListenBind) -> (r: Result<(String, u16), ProxyError>)
    ensures
        r == (match bind.ip {
            Some(ip) => Ok::<(String, u16), ProxyError>((ip, bind.port)),
            None => Err(ProxyError::ConcreteAddressRequired { host: bind.host }),
        }),
{
    match bind.ip {
        Some(ip) => Ok((ip, bind.port)),
        None => Err(ProxyError::ConcreteAddressRequired { host: bind.host }),
    }
}

/// Nothing that concerns one connection alone travels on.
pub proof fn forwarded_headers_are_end_to_end(headers: Seq<(String, Vec<u8>)>, i: int)
    requires
        0 <= i < forwarded(headers).len(),
    ensures
        !hop_by_hop(forwarded(headers)[i].0@),
        headers.contains(forwarded(headers)[i]),
{
    headers.lemma_filter_contains_rev(
        |header: (String, Vec<u8>)| !hop_by_hop(header.0@),
        forwarded(headers)[i],
    );
}

/// Completing the name of a host keeps the user and the port.
pub proof fn splicing_keeps_the_rest(authority: Seq<char>)
    ensures
        first_index(authority, '@') == authority.len() ==> spliced(authority, host_in(authority))
            == authority,
{
    if first_index(authority, '@') == authority.len() {
        let rest = after_last(authority, '@');
        assert(rest == authority);
        first_index_fits(rest, ']');
        first_index_fits(rest, ':');
        assert(host_in(authority) =~= authority.take(host_in(authority).len() as int));
        assert(spliced(authority, host_in(authority)) =~= authority);
    }
}

/// Headers travel on unchanged and in their order, but for these seven, whatever the case of
/// their letters.
pub proof fn seven_headers_stay_behind(headers: Seq<(String, Vec<u8>)>, header: (String, Vec<u8>))
    ensures
        ({
            let name = lowercase(header.0@);
            let dropped = name == "connection"@ || name == "transfer-encoding"@ || name == "te"@
                || name == "upgrade"@ || name == "host"@ || name == "proxy-connection"@ || name
                == "keep-alive"@;
            &&& hop_by_hop(header.0@) == dropped
            &&& forwarded(headers.push(header)) == (if dropped {
                forwarded(headers)
            } else {
                forwarded(headers).push(header)
            })
        }),
        forwarded(Seq::empty()).len() == 0,
{
    reveal(Seq::filter);
    assert(headers.push(header).drop_last() =~= headers);
    assert(headers.push(header).last() == header);
}

/// Headers with these names reach the server, in whatever case they are written.
pub proof fn headers_for_the_server_stay(name: Seq<char>)
    requires
        lowercase(name) == "content-type"@ || lowercase(name) == "authorization"@ || lowercase(name)
            == "cookie"@ || lowercase(name) == "content-length"@ || lowercase(name) == "accept"@
            || lowercase(name) == "user-agent"@,
    ensures
        !hop_by_hop(name),
{
    reveal_strlit("content-type");
    reveal_strlit("authorization");
    reveal_strlit("cookie");
    reveal_strlit("content-length");
    reveal_strlit("accept");
    reveal_strlit("user-agent");
    reveal_strlit("connection");
    reveal_strlit("transfer-encoding");
    reveal_strlit("te");
    reveal_strlit("upgrade");
    reveal_strlit("host");
    reveal_strlit("proxy-connection");
    reveal_strlit("keep-alive");
    assert("content-type"@.len() == 12);
    assert("authorization"@.len() == 13);
    assert("cookie"@.len() == 6);
    assert("content-length"@.len() == 14);
    assert("accept"@.len() == 6);
    assert("user-agent"@.len() == 10);
    assert("connection"@.len() == 10);
    assert("keep-alive"@.len() == 10);
    assert("transfer-encoding"@.len() == 17);
    assert("te"@.len() == 2);
    assert("upgrade"@.len() == 7);
    assert("host"@.len() == 4);
    assert("proxy-connection"@.len() == 16);
    assert("user-agent"@[0] != "connection"@[0]);
    assert("user-agent"@[0] != "keep-alive"@[0]);
}

/// Expanding a name changes the authority of a URI and nothing else of it.
pub proof fn expansion_changes_the_authority_only(
    self_name: Option<IdentityName>,
    uri: UriParts,
    changed: UriParts,
)
    requires
        expands(self_name, uri, Ok(changed)),
    ensures
        changed.scheme == uri.scheme,
        changed.path_and_query == uri.path_and_query,
        changed.authority is Some <==> uri.authority is Some,
{
}

/// Without an identity a bare tilde is refused, a name that cannot be expanded is refused, and a
/// host that is none of the network's names stays as it is.
pub proof fn foreign_hosts_stay(uri: UriParts, authority: String, r: Result<UriParts, ProxyError>)
    requires
        uri.authority == Some(authority),
        expands(None, uri, r),
    ensures
        ({
            let host = host_in(authority@);
            let served = host.len() >= 10 && lowercase(host.skip(host.len() - 10))
                == ".dhttp.net"@;
            &&& (host == "~"@ ==> r == Err::<UriParts, ProxyError>(
                ProxyError::BareTildeWithoutIdentity,
            ))
            &&& (!host.contains('~') && !served && host != "~"@ && uri.scheme is Some
                && uri.path_and_query is Some ==> (r matches Ok(changed) && opt_view(
                changed.authority,
            ) == Some(authority@)))
            &&& (host != "~"@ && host.contains('~') && shorthand_name(host) is None ==> r == Err::<
                UriParts,
                ProxyError,
            >(ProxyError::ExpandUriName))
            &&& (!host.contains('~') && served && host != "~"@ && dhttp_full_name(host) is None
                ==> r == Err::<UriParts, ProxyError>(ProxyError::ExpandUriName))
            &&& (host != "~"@ && uri.scheme is Some && uri.path_and_query is Some && host.contains(
                '~',
            ) ==> (shorthand_name(host) matches Some(name) ==> name != host ==> valid_authority(
                spliced(authority@, name),
            ) ==> (r matches Ok(changed) && opt_view(changed.authority) == Some(
                spliced(authority@, name),
            ))))
        }),
{
}

/// With an identity the authority is the one that the identity expands it to.
pub proof fn identities_expand_names(
    name: IdentityName,
    uri: UriParts,
    authority: String,
    r: Result<UriParts, ProxyError>,
)
    requires
        uri.authority == Some(authority),
        expands(Some(name), uri, r),
    ensures
        expanded_authority(name.full@, authority@) is None ==> r == Err::<UriParts, ProxyError>(
            ProxyError::ExpandNameInUri,
        ),
        uri.scheme is Some && uri.path_and_query is Some ==> (expanded_authority(
            name.full@,
            authority@,
        ) matches Some(text) ==> (r matches Ok(changed) && opt_view(changed.authority) == Some(
            text,
        ))),
        uri.scheme is None && uri.path_and_query is None ==> (expanded_authority(
            name.full@,
            authority@,
        ) matches Some(text) ==> (r matches Ok(changed) && opt_view(changed.authority) == Some(
            text,
        ))),
{
}

/// A name takes the place of the host; the user before it and the port behind it stay.
pub proof fn names_take_the_place_of_the_host(
    user: Seq<char>,
    host: Seq<char>,
    port: Seq<char>,
    name: Seq<char>,
)
    requires
        !user.contains('@'),
        !host.contains('@'),
        !host.contains(':'),
        !host.contains('['),
        !port.contains('@'),
    ensures
        spliced(host, name) == name,
        spliced(host + seq![':'] + port, name) == name + seq![':'] + port,
        spliced(user + seq!['@'] + host + seq![':'] + port, name) == user + seq!['@'] + name
            + seq![':'] + port,
{
    let plain = host + seq![':'] + port;
    let full = user + seq!['@'] + host + seq![':'] + port;
    crate::route::hosts_stand_before_the_port(user, host, port);
    crate::route::first_index_fits(host, '@');
    crate::route::first_index_fits(plain, '@');
    crate::route::first_index_fits(full, '@');
    if first_index(host, '@') < host.len() {
        assert(host[first_index(host, '@')] == '@');
    }
    if first_index(plain, '@') < plain.len() {
        let i = first_index(plain, '@');
        assert(plain[i] == '@');
        assert(i < host.len() ==> host[i] == '@');
        assert(i > host.len() ==> port[i - host.len() - 1] == '@');
    }
    assert(full[user.len() as int] == '@');
    if first_index(full, '@') < user.len() {
        assert(user[first_index(full, '@')] == '@');
    }
    assert(first_index(full, '@') == user.len());
    assert(user_part(full) =~= user + seq!['@']);
    assert(spliced(host, name) =~= name);
    assert(plain.skip(host.len() as int) =~= seq![':'] + port);
    assert(spliced(plain, name) =~= name + seq![':'] + port);
    assert(full.skip((user.len() + 1 + host.len()) as int) =~= seq![':'] + port);
    assert(spliced(full, name) =~= user + seq!['@'] + name + seq![':'] + port);
}

/// An address without a port gets that of plain HTTP.
pub proof fn plain_http_is_the_default(host: Seq<char>)
    ensures
        names_port(host) ==> address(host) == host,
        !names_port(host) ==> address(host) == host + ":80"@,
{
}

/// A request is connected, opened, sent and read, each on the success of the step before it, and
/// each failure is its own.
pub proof fn forwarding_takes_its_course(forward: H3Forward)
    ensures
        forward is Connecting ==> forward.after(H3Event::Done) == (
            H3Forward::Opening,
            H3Action::OpenStream,
        ),
        forward is Opening ==> forward.after(H3Event::Done) == (H3Forward::Sending, H3Action::Send),
        forward is Sending ==> forward.after(H3Event::Done) == (
            H3Forward::Reading,
            H3Action::ReadAnswer,
        ),
        forward matches H3Forward::Connecting { authority } ==> forward.after(H3Event::Failed).1
            == (H3Action::Fail { error: H3Error::Connect { authority } }),
        forward is Opening ==> forward.after(H3Event::Failed).1 == (H3Action::Fail {
            error: H3Error::OpenStream,
        }),
        forward is Sending ==> forward.after(H3Event::Failed).1 == (H3Action::Fail {
            error: H3Error::Send,
        }),
        forward is Reading ==> forward.after(H3Event::Failed).1 == (H3Action::Fail {
            error: H3Error::Read,
        }),
{
}

} // verus!
