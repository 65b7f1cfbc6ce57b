//! Which way a request takes through the proxy.
use vstd::prelude::*;

use crate::text::{
    chars_of, copy_opt, first_index, has_char, lower, lowercase, same, split_once, to_lowercase,
    utf8_size,
};

verus! {

/// The parts of a request's URI.
#[derive(Debug, PartialEq, Eq)]
pub struct UriParts {
    pub scheme: Option<String>,
    pub authority: Option<String>,
    pub path_and_query: Option<String>,
}

impl UriParts {
    pub fn copy(&self) -> (r: UriParts)
        ensures
            r == *self,
    {
        UriParts {
            scheme: copy_opt(&self.scheme),
            authority: copy_opt(&self.authority),
            path_and_query: copy_opt(&self.path_and_query),
        }
    }
}

/// The way of a request.
#[derive(Debug, PartialEq, Eq)]
pub enum Route {
    /// A plain request to a DHTTP name.
    GenmetaPlainHttp { authority: String, uri: UriParts },
    /// A tunnel to a DHTTP name.
    GenmetaConnect { authority: String },
    /// A tunnel to another host.
    TunnelConnect { authority: String },
    /// A plain request to another host.
    StandardForward { uri: UriParts },
}

/// The text behind the last `c`, the whole text where there is none.
pub open spec fn after_last(s: Seq<char>, c: char) -> Seq<char>
    decreases s.len(),
{
    if first_index(s, c) == s.len() {
        s
    } else if 0 <= first_index(s, c) < s.len() {
        after_last(s.skip(first_index(s, c) + 1), c)
    } else {
        s
    }
}

/// The host in an authority: what stands behind the last `@`, up to the bracket that closes an
/// address or else up to the port.
pub open spec fn host_in(authority: Seq<char>) -> Seq<char> {
    let rest = after_last(authority, '@');
    if rest.len() > 0 && rest[0] == '[' && first_index(rest, ']') < rest.len() {
        rest.take(first_index(rest, ']') + 1)
    } else {
        rest.take(first_index(rest, ':'))
    }
}

/// Whether an authority names a port: a colon stands behind its host.
pub open spec fn names_port(authority: Seq<char>) -> bool {
    after_last(authority, '@').skip(host_in(authority).len() as int).contains(':')
}

pub proof fn first_index_fits(s: Seq<char>, c: char)
    ensures
        0 <= first_index(s, c) <= s.len(),
        first_index(s, c) < s.len() ==> s[first_index(s, c)] == c,
        forall|i: int| 0 <= i < first_index(s, c) ==> s[i] != c,
    decreases s.len(),
{
    if s.len() > 0 && s[0] != c {
        first_index_fits(s.skip(1), c);
        assert forall|i: int| 0 <= i < first_index(s, c) implies s[i] != c by {
            if i > 0 {
                assert(s[i] == s.skip(1)[i - 1]);
            }
        }
    }
}

fn text_behind_last(s: &str, c: char) -> (r: &str)
    ensures
        r@ == after_last(s@, c),
    decreases s@.len(),
{
    proof {
        first_index_fits(s@, c);
    }
    match split_once(s, c) {
        Some((_, rest)) => text_behind_last(rest, c),
        None => s,
    }
}

/// The host in an authority.
pub fn host_of(authority: &str) -> (r: String)
    ensures
        r@ == host_in(authority@),
{
    let rest = text_behind_last(authority, '@');
    let chars = chars_of(rest);
    proof {
        first_index_fits(rest@, ']');
        first_index_fits(rest@, ':');
    }
    if chars.len() > 0 && chars[0] == '[' {
        match split_once(rest, ']') {
            Some((before, _)) => {
                let mut r = before.to_owned();
                r.append("]");
                proof {
                    reveal_strlit("]");
                    assert("]"@ =~= seq![']']);
                    assert(r@ =~= rest@.take(first_index(rest@, ']') + 1));
                }
                return r;
            },
            None => {},
        }
    }
    match split_once(rest, ':') {
        Some((before, _)) => before.to_owned(),
        None => {
            assert(rest@.take(rest@.len() as int) =~= rest@);
            rest.to_owned()
        },
    }
}

/// Whether an authority names a port. The colons of an address in brackets are none.
pub fn has_port(authority: &str) -> (r: bool)
    ensures
        r == names_port(authority@),
{
    let rest = text_behind_last(authority, '@');
    let chars = chars_of(rest);
    proof {
        first_index_fits(rest@, ']');
        first_index_fits(rest@, ':');
    }
    if chars.len() > 0 && chars[0] == '[' {
        match split_once(rest, ']') {
            Some((_, behind)) => {
                assert(behind@ =~= rest@.skip(host_in(authority@).len() as int));
                return has_char(behind, ':');
            },
            None => {},
        }
    }
    let named = has_char(rest, ':');
    proof {
        let end = first_index(rest@, ':');
        let behind = rest@.skip(end);
        if named {
            let i = choose|i: int| 0 <= i < rest@.len() && rest@[i] == ':';
            assert(behind[i - end] == ':');
        }
        if behind.contains(':') {
            let i = choose|i: int| 0 <= i < behind.len() && behind[i] == ':';
            assert(rest@[i + end] == ':');
        }
    }
    named
}

/// Sends requests their way.
#[derive(Debug)]
pub struct Router {
    /// Hosts that are to be left out; there are none yet.
    pub blacklist: Vec<String>,
}

/// A host without its port.
pub open spec fn bare_host(host: Seq<char>) -> Seq<char> {
    host.take(first_index(host, ':'))
}

/// A host whose last ten bytes start with a character.
pub open spec fn cuts_cleanly(host: Seq<char>) -> bool {
    utf8_size(host) < 10 || exists|n: int|
        0 <= n <= host.len() && #[trigger] utf8_size(host.skip(n)) == 10
}

/// A host that can be asked about: it ends in a tilde, or its end can be cut off.
pub open spec fn can_be_asked(host: Seq<char>) -> bool {
    let bare = bare_host(host);
    (bare.len() > 0 && bare.last() == '~') || cuts_cleanly(bare)
}

/// A DHTTP name ends in a tilde, or in the suffix in whatever case.
pub open spec fn genmeta_host(host: Seq<char>) -> bool {
    let bare = bare_host(host);
    (bare.len() > 0 && bare.last() == '~') || (bare.len() >= 10 && lowercase(
        bare.skip(bare.len() - 10),
    ) == ".dhttp.net"@)
}

impl Default for Router {
    fn default() -> (r: Self)
        ensures
            r.blacklist@.len() == 0,
    {
        Router::new()
    }
}

impl Router {
    pub fn new() -> (r: Self)
        ensures
            r.blacklist@.len() == 0,
    {
        Router { blacklist: Vec::new() }
    }

    /// Whether a host is a DHTTP name; a port is ignored.
    pub fn is_genmeta(&self, host: &str) -> (r: bool)
        requires
            can_be_asked(host@),
        ensures
            r == genmeta_host(host@),
    {
        let bare = match split_once(host, ':') {
            Some((before, _)) => before,
            None => {
                assert(host@.take(host@.len() as int) =~= host@);
                host
            },
        };
        let chars = chars_of(bare);
        let len: usize = chars.len();
        if len == 0 {
            return false;
        }
        if chars[len - 1] == '~' {
            return true;
        }
        if len < 10 {
            return false;
        }
        let end = bare.substring_char(len - 10, len);
        assert(end@ =~= bare@.skip(bare@.len() - 10));
        same(&to_lowercase(end), ".dhttp.net")
    }

    /// The way of a request.
    pub fn classify(&self, connect: bool, uri: &UriParts) -> (r: Route)
        requires
            uri.authority matches Some(authority) ==> can_be_asked(host_in(authority@)),
        ensures
            r == (match uri.authority {
                Some(authority) => if genmeta_host(host_in(authority@)) {
                    if connect {
                        Route::GenmetaConnect { authority }
                    } else {
                        Route::GenmetaPlainHttp { authority, uri: *uri }
                    }
                } else if connect {
                    Route::TunnelConnect { authority }
                } else {
                    Route::StandardForward { uri: *uri }
                },
                None => Route::StandardForward { uri: *uri },
            }),
    {
        match &uri.authority {
            Some(authority) => {
                let genmeta = self.is_genmeta(&host_of(authority));
                if connect {
                    if genmeta {
                        Route::GenmetaConnect { authority: authority.clone() }
                    } else {
                        Route::TunnelConnect { authority: authority.clone() }
                    }
                } else if genmeta {
                    Route::GenmetaPlainHttp { authority: authority.clone(), uri: uri.copy() }
                } else {
                    Route::StandardForward { uri: uri.copy() }
                }
            },
            None => Route::StandardForward { uri: uri.copy() },
        }
    }
}

pub open spec fn ascii(s: Seq<char>) -> bool {
    forall|i: int| 0 <= i < s.len() ==> (#[trigger] s[i]) <= '\u{7f}'
}

proof fn ascii_size(s: Seq<char>)
    requires
        ascii(s),
    ensures
        utf8_size(s) == s.len(),
    decreases s.len(),
{
    if s.len() > 0 {
        assert forall|i: int| 0 <= i < s.drop_last().len() implies (#[trigger] s.drop_last()[i])
            <= '\u{7f}' by {
            assert(s[i] <= '\u{7f}');
        }
        ascii_size(s.drop_last());
        assert(s[s.len() - 1] <= '\u{7f}');
    }
}

/// Every host of ASCII characters can be asked about.
pub proof fn ascii_hosts_cut_cleanly(host: Seq<char>)
    requires
        ascii(host),
    ensures
        cuts_cleanly(host),
{
    ascii_size(host);
    if host.len() >= 10 {
        let n = host.len() - 10;
        assert forall|i: int| 0 <= i < host.skip(n).len() implies (#[trigger] host.skip(n)[i])
            <= '\u{7f}' by {
            assert(host[i + n] <= '\u{7f}');
        }
        ascii_size(host.skip(n));
    }
}

/// A port does not change the way of a host.
pub proof fn ports_do_not_matter(host: Seq<char>, port: Seq<char>)
    requires
        !host.contains(':'),
    ensures
        genmeta_host(host + ":"@ + port) == genmeta_host(host),
{
    reveal_strlit(":");
    assert(":"@ =~= seq![':']);
    let full = host + ":"@ + port;
    first_index_fits(full, ':');
    first_index_fits(host, ':');
    if first_index(host, ':') < host.len() {
        assert(host.contains(host[first_index(host, ':')]));
    }
    if first_index(full, ':') < host.len() {
        assert(full[first_index(full, ':')] == host[first_index(full, ':')]);
        assert(host.contains(host[first_index(full, ':')]));
    }
    assert(full[host.len() as int] == ':');
    assert(bare_host(full) =~= host);
    assert(bare_host(host) =~= host);
}

proof fn first_index_is(s: Seq<char>, c: char, n: int)
    requires
        0 <= n <= s.len(),
        n < s.len() ==> s[n] == c,
        forall|i: int| 0 <= i < n ==> s[i] != c,
    ensures
        first_index(s, c) == n,
{
    first_index_fits(s, c);
}

/// The letters of a host mean the same as capitals.
pub proof fn letter_case_does_not_matter(a: Seq<char>, b: Seq<char>)
    requires
        lowercase(a) == lowercase(b),
    ensures
        genmeta_host(a) == genmeta_host(b),
{
    assert(lowercase(a).len() == a.len() && lowercase(b).len() == b.len());
    assert forall|i: int| 0 <= i < a.len() implies lower(#[trigger] a[i]) == lower(b[i]) by {
        assert(lowercase(a)[i] == lower(a[i]));
        assert(lowercase(b)[i] == lower(b[i]));
    }
    let end = first_index(a, ':');
    first_index_fits(a, ':');
    assert forall|i: int| 0 <= i < end implies b[i] != ':' by {
        assert(lower(a[i]) == lower(b[i]));
    }
    if end < a.len() {
        assert(lower(a[end]) == lower(b[end]));
    }
    first_index_is(b, ':', end);
    let bare_a = bare_host(a);
    let bare_b = bare_host(b);
    if end > 0 {
        assert(lower(a[end - 1]) == lower(b[end - 1]));
    }
    if end >= 10 {
        let tail_a = lowercase(bare_a.skip(end - 10));
        let tail_b = lowercase(bare_b.skip(end - 10));
        assert forall|i: int| 0 <= i < 10 implies #[trigger] tail_a[i] == tail_b[i] by {
            assert(lower(a[end - 10 + i]) == lower(b[end - 10 + i]));
        }
        assert(tail_a =~= tail_b);
    }
}

/// A longer name in front of a DHTTP name is a DHTTP name.
pub proof fn longer_names_stay_names(front: Seq<char>, host: Seq<char>)
    requires
        !front.contains(':'),
        genmeta_host(host),
    ensures
        genmeta_host(front + host),
{
    let full = front + host;
    let end = first_index(host, ':');
    first_index_fits(host, ':');
    assert forall|i: int| 0 <= i < front.len() + end implies full[i] != ':' by {
        if i < front.len() {
            assert(front.contains(front[i]));
        } else {
            assert(full[i] == host[i - front.len()]);
        }
    }
    if end < host.len() {
        assert(full[front.len() + end] == host[end]);
    }
    first_index_is(full, ':', front.len() + end);
    let bare = bare_host(host);
    let longer = bare_host(full);
    assert(longer =~= front + bare);
    if bare.len() >= 10 {
        assert(longer.skip(longer.len() - 10) =~= bare.skip(bare.len() - 10));
    }
}

proof fn after_last_of_longer(s: Seq<char>, t: Seq<char>, c: char)
    requires
        !t.contains(c),
    ensures
        after_last(s + t, c) == after_last(s, c) + t,
    decreases s.len(),
{
    let all = s + t;
    let at = first_index(s, c);
    first_index_fits(s, c);
    assert forall|i: int| 0 <= i < t.len() implies t[i] != c by {
        assert(t.contains(t[i]));
    }
    if at < s.len() {
        assert(forall|i: int| 0 <= i < at ==> all[i] == s[i]);
        first_index_is(all, c, at);
        assert(all.skip(at + 1) =~= s.skip(at + 1) + t);
        after_last_of_longer(s.skip(at + 1), t, c);
    } else {
        assert forall|i: int| 0 <= i < all.len() implies all[i] != c by {
            if i >= s.len() {
                assert(all[i] == t[i - s.len()]);
            }
        }
        first_index_is(all, c, all.len() as int);
    }
}

/// An authority with a port behind it names a port.
pub proof fn ports_are_named(authority: Seq<char>, port: Seq<char>)
    requires
        !port.contains('@'),
        !port.contains(']'),
    ensures
        names_port(authority + ":"@ + port),
{
    reveal_strlit(":");
    let tail = ":"@ + port;
    assert forall|i: int| 0 <= i < tail.len() implies tail[i] != '@' && tail[i] != ']' by {
        if i > 0 {
            assert(tail[i] == port[i - 1]);
            assert(port.contains(port[i - 1]));
        }
    }
    let all = authority + ":"@ + port;
    assert(all =~= authority + tail);
    after_last_of_longer(authority, tail, '@');
    let rest = after_last(authority, '@');
    let longer = rest + tail;
    first_index_fits(rest, ']');
    first_index_fits(longer, ']');
    first_index_fits(longer, ':');
    if first_index(longer, ']') < longer.len() {
        assert(first_index(longer, ']') < rest.len());
    }
    let host = host_in(all);
    assert(longer[rest.len() as int] == tail[0]);
    if longer[0] == '[' && first_index(longer, ']') < longer.len() {
        assert(host.len() <= rest.len());
    } else {
        assert(first_index(longer, ':') <= rest.len());
    }
    let behind = longer.skip(host.len() as int);
    assert(behind[rest.len() - host.len()] == ':');
}

/// The names that the network serves: those that end with a tilde, and those under the suffix.
pub proof fn served_names_end_with_the_suffix(host: Seq<char>, front: Seq<char>)
    ensures
        !host.contains(':') ==> (genmeta_host(host) <==> (host.len() > 0 && host.last() == '~') || (
        host.len() >= 10 && lowercase(host.skip(host.len() - 10)) == ".dhttp.net"@)),
        !front.contains(':') ==> genmeta_host(front.push('~')),
        !front.contains(':') ==> genmeta_host(front + ".dhttp.net"@),
{
    reveal_strlit(".dhttp.net");
    let suffix = ".dhttp.net"@;
    assert(suffix.len() == 10);
    assert(lowercase(suffix) =~= suffix);
    if !host.contains(':') {
        first_index_fits(host, ':');
        if first_index(host, ':') < host.len() {
            assert(host.contains(host[first_index(host, ':')]));
        }
        assert(bare_host(host) =~= host);
    }
    if !front.contains(':') {
        let a = front.push('~');
        first_index_fits(a, ':');
        if first_index(a, ':') < a.len() {
            let i = first_index(a, ':');
            assert(i < front.len() ==> front[i] == ':');
        }
        assert(bare_host(a) =~= a);
        let b = front + suffix;
        first_index_fits(b, ':');
        if first_index(b, ':') < b.len() {
            let i = first_index(b, ':');
            assert(i < front.len() ==> front[i] == ':');
            assert(i >= front.len() ==> suffix[i - front.len()] == ':');
        }
        assert(bare_host(b) =~= b);
        assert(b.skip(b.len() - 10) =~= suffix);
    }
}

/// What stands behind the last separator holds none, and everything where there is none.
pub proof fn rests_hold_no_separator(s: Seq<char>, c: char)
    ensures
        !after_last(s, c).contains(c),
        after_last(s, c).len() <= s.len(),
        after_last(s, c) == s.skip(s.len() - after_last(s, c).len()),
        after_last(s, c).len() < s.len() ==> s[s.len() - after_last(s, c).len() - 1] == c,
        !s.contains(c) ==> after_last(s, c) == s,
    decreases s.len(),
{
    first_index_fits(s, c);
    let i = first_index(s, c);
    if i == s.len() {
        assert(s.skip(0) =~= s);
        if s.contains(c) {
            let k = choose|k: int| 0 <= k < s.len() && s[k] == c;
            assert(s[k] != c);
        }
    } else {
        let rest = s.skip(i + 1);
        rests_hold_no_separator(rest, c);
        let n = after_last(s, c).len();
        assert(rest.skip(rest.len() - n) =~= s.skip(s.len() - n));
        assert(s.contains(s[i]));
        if n < rest.len() {
            assert(rest[rest.len() - n - 1] == s[s.len() - n - 1]);
        }
    }
}

/// The host of an authority stands behind the user and before the port; brackets belong to it.
pub proof fn hosts_stand_before_the_port(user: Seq<char>, host: Seq<char>, port: Seq<char>)
    requires
        !host.contains('@'),
        !host.contains(':'),
        !host.contains('['),
        !port.contains('@'),
    ensures
        host_in(host) == host,
        host_in(host + seq![':'] + port) == host,
        host_in(user + seq!['@'] + host + seq![':'] + port) == host,
{
    let plain = host + seq![':'] + port;
    let full = user + seq!['@'] + host + seq![':'] + port;
    assert(!plain.contains('@')) by {
        if plain.contains('@') {
            let k = choose|k: int| 0 <= k < plain.len() && plain[k] == '@';
            assert(k < host.len() ==> host[k] == '@');
            assert(k > host.len() ==> port[k - host.len() - 1] == '@');
        }
    }
    rests_hold_no_separator(host, '@');
    rests_hold_no_separator(plain, '@');
    rests_hold_no_separator(full, '@');
    let n = after_last(full, '@').len();
    let at = user.len() as int;
    assert(full[at] == '@');
    assert(n <= plain.len()) by {
        if n > plain.len() {
            let tail = after_last(full, '@');
            let k = at - (full.len() - n);
            assert(tail[k] == full[at]);
            assert(tail.contains('@'));
        }
    }
    assert(n >= plain.len()) by {
        if n < plain.len() {
            let k = full.len() - n - 1;
            assert(full[k] == '@');
            assert(plain[k - at - 1] == '@');
        }
    }
    assert(after_last(full, '@') =~= plain);
    first_index_fits(host, ':');
    first_index_fits(plain, ':');
    if first_index(host, ':') < host.len() {
        assert(host.contains(':'));
    }
    assert(plain[host.len() as int] == ':');
    if first_index(plain, ':') < host.len() {
        assert(host[first_index(plain, ':')] == ':');
    }
    assert(host.take(host.len() as int) =~= host);
    assert(plain.take(host.len() as int) =~= host);
    if plain.len() > 0 && plain[0] == '[' {
        if host.len() > 0 {
            assert(host[0] == '[');
        }
    }
    if host.len() > 0 {
        assert(host.contains(host[0]));
    }
}

/// Brackets belong to the host, and what stands between them is not taken for a port.
pub proof fn bracketed_hosts_are_whole(inner: Seq<char>, rest: Seq<char>)
    requires
        !inner.contains(']'),
        !inner.contains('@'),
        !rest.contains('@'),
    ensures
        host_in(seq!['['] + inner + seq![']'] + rest) == seq!['['] + inner + seq![']'],
{
    let s = seq!['['] + inner + seq![']'] + rest;
    assert(!s.contains('@')) by {
        if s.contains('@') {
            let k = choose|k: int| 0 <= k < s.len() && s[k] == '@';
            assert(0 < k <= inner.len() ==> inner[k - 1] == '@');
            assert(k > inner.len() + 1 ==> rest[k - inner.len() - 2] == '@');
        }
    }
    rests_hold_no_separator(s, '@');
    first_index_fits(s, ']');
    let n = inner.len() as int + 1;
    assert(s[n] == ']');
    let i = first_index(s, ']');
    if i < n {
        assert(s[i] == ']');
        assert(i > 0 ==> inner[i - 1] == ']');
    }
    assert(i == n);
    assert(s.take(n + 1) =~= seq!['['] + inner + seq![']']);
}

} // verus!
