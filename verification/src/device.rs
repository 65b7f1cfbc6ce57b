//! The name of this device, as the certificate server shows it.
use vstd::prelude::*;

use crate::auto_renew::HomeScope;
use crate::text::{
    chars_of, control_char, is_control_char, lines, lines_of, lowercase, same, has_prefix,
    size_at_most, starts_with, string_between, to_lowercase, trim, trim_end_of, trim_start_of,
    trimmed, utf8_size, utf8_size_monotone, views, width,
};

verus! {

/// The name of a device of which nothing is known.
pub const DEFAULT_DEVICE_NAME: &'static str = "local device";

/// The largest size of a device name in bytes.
pub const MAX_DEVICE_NAME_LEN: usize = 128;

pub open spec fn view_of(value: Option<&str>) -> Option<Seq<char>> {
    match value {
        Some(value) => Some(value@),
        None => None,
    }
}

/// A name that the user gave: without the white space around it, and none where nothing else
/// is left.
pub open spec fn explicit_name(value: Option<Seq<char>>) -> Option<Seq<char>> {
    match value {
        Some(value) => if trimmed(value).len() > 0 {
            Some(trimmed(value))
        } else {
            None
        },
        None => None,
    }
}

pub fn normalize_explicit_device_name(value: Option<&str>) -> (r: Option<String>)
    ensures
        crate::text::opt_view(r) == explicit_name(view_of(value)),
{
    match value {
        None => None,
        Some(value) => {
            let name = trim(value);
            if name.is_empty() {
                None
            } else {
                Some(name.to_owned())
            }
        },
    }
}

/// A text without its control characters.
pub open spec fn printable(s: Seq<char>) -> Seq<char>
    decreases s.len(),
{
    if s.len() == 0 {
        s
    } else if control_char(s.last()) {
        printable(s.drop_last())
    } else {
        printable(s.drop_last()).push(s.last())
    }
}

/// A part of a generated name: without control characters and without the white space around
/// it, and none where nothing else is left.
pub open spec fn generated_part(value: Option<Seq<char>>) -> Option<Seq<char>> {
    match value {
        Some(value) => explicit_name(Some(printable(value))),
        None => None,
    }
}

fn normalize_generated_component(value: Option<&str>) -> (r: Option<String>)
    ensures
        crate::text::opt_view(r) == generated_part(view_of(value)),
{
    match value {
        None => None,
        Some(value) => {
            let chars = chars_of(value);
            let mut clean = String::new();
            let mut i: usize = 0;
            assert(value@.take(0) == Seq::<char>::empty());
            while i < chars.len()
                invariant
                    i <= chars@.len(),
                    chars@ == value@,
                    clean@ == printable(value@.take(i as int)),
                decreases chars@.len() - i,
            {
                assert(value@.take(i + 1).drop_last() == value@.take(i as int));
                if !is_control_char(chars[i]) {
                    clean.push(chars[i]);
                }
                i += 1;
            }
            assert(value@.take(value@.len() as int) == value@);
            normalize_explicit_device_name(Some(clean.as_str()))
        },
    }
}

/// The platform part of a generated name; one that says that it is unknown is none.
pub open spec fn platform_part(value: Option<Seq<char>>) -> Option<Seq<char>> {
    match generated_part(value) {
        Some(part) => if lowercase(part) == "unknown"@ || starts_with(
            lowercase(part),
            "unknown:"@,
        ) {
            None
        } else {
            Some(part)
        },
        None => None,
    }
}

fn normalize_platform_component(value: Option<&str>) -> (r: Option<String>)
    ensures
        crate::text::opt_view(r) == platform_part(view_of(value)),
{
    match normalize_generated_component(value) {
        None => None,
        Some(part) => {
            let small = to_lowercase(&part);
            if same(&small, "unknown") || has_prefix(&small, "unknown:") {
                None
            } else {
                Some(part)
            }
        },
    }
}

/// The longest start of a text that takes at most `limit` bytes.
pub open spec fn fitting_start(s: Seq<char>, limit: nat) -> Seq<char>
    decreases s.len(),
{
    if utf8_size(s) <= limit || s.len() == 0 {
        s
    } else {
        fitting_start(s.drop_last(), limit)
    }
}

proof fn fitting_start_is_prefix(s: Seq<char>, limit: nat, n: int)
    requires
        0 <= n < s.len(),
        utf8_size(s.take(n)) <= limit,
        utf8_size(s.take(n + 1)) > limit,
    ensures
        fitting_start(s, limit) == s.take(n),
    decreases s.len(),
{
    utf8_size_monotone(s, n + 1);
    let shorter = s.drop_last();
    if n + 1 == s.len() {
        assert(shorter == s.take(n));
        assert(s == s.take(n + 1));
        assert(fitting_start(shorter, limit) == shorter);
    } else {
        assert(shorter.take(n) == s.take(n));
        assert(shorter.take(n + 1) == s.take(n + 1));
        fitting_start_is_prefix(shorter, limit, n);
    }
}

/// A name cut down to the size that the server takes.
pub open spec fn limited_name(value: Seq<char>) -> Seq<char> {
    if utf8_size(value) <= 128 {
        value
    } else {
        let start = trimmed(fitting_start(value, 128));
        if start.len() > 0 {
            start
        } else {
            "local device"@
        }
    }
}

fn truncate_to_device_name_limit(value: String) -> (r: String)
    ensures
        r@ == limited_name(value@),
{
    if size_at_most(&value, MAX_DEVICE_NAME_LEN) {
        return value;
    }
    let chars = chars_of(&value);
    let total: usize = chars.len();
    let mut size: usize = 0;
    let mut i: usize = 0;
    assert(value@.take(0) == Seq::<char>::empty());
    loop
        invariant
            i < total,
            total == chars@.len(),
            chars@ == value@,
            utf8_size(value@) > 128,
            size <= 128,
            size == utf8_size(value@.take(i as int)),
        ensures
            i < chars@.len(),
            utf8_size(value@.take(i as int)) <= 128,
            utf8_size(value@.take(i + 1)) > 128,
        decreases chars@.len() - i,
    {
        assert(value@.take(i + 1).drop_last() == value@.take(i as int));
        assert(value@.take(value@.len() as int) == value@);
        let next: usize = size + width(chars[i]);
        if next > 128 {
            break ;
        }
        size = next;
        i += 1;
        assert(i < chars@.len()) by {
            if i == chars@.len() {
                assert(value@.take(i as int) == value@);
            }
        }
    }
    proof {
        fitting_start_is_prefix(value@, 128, i as int);
    }
    let start = string_between(&chars, 0, i);
    assert(start@ == value@.take(i as int));
    let cut = trim(&start);
    if cut.is_empty() {
        "local device".to_owned()
    } else {
        cut.to_owned()
    }
}

/// The first of several names of the host that is usable.
pub open spec fn host_label(
    hostname: Option<Seq<char>>,
    devicename: Option<Seq<char>>,
    fallback: Seq<char>,
) -> Seq<char> {
    match (generated_part(hostname), generated_part(devicename), generated_part(Some(fallback))) {
        (Some(name), _, _) => name,
        (None, Some(name), _) => name,
        (None, None, Some(name)) => name,
        (None, None, None) => "local device"@,
    }
}

pub fn select_host_label(hostname: Option<&str>, devicename: Option<&str>, fallback: &str) -> (r:
    String)
    ensures
        r@ == host_label(view_of(hostname), view_of(devicename), fallback@),
{
    match normalize_generated_component(hostname) {
        Some(name) => name,
        None => match normalize_generated_component(devicename) {
            Some(name) => name,
            None => match normalize_generated_component(Some(fallback)) {
                Some(name) => name,
                None => "local device".to_owned(),
            },
        },
    }
}

pub open spec fn or_text(value: Option<Seq<char>>, fallback: Seq<char>) -> Seq<char> {
    match value {
        Some(value) => value,
        None => fallback,
    }
}

/// The parts of a generated name put together, before it is cut to its size: `host (platform)`
/// for the machine, `user@host (platform)` for a user.
pub open spec fn whole_name(
    scope: HomeScope,
    username: Option<Seq<char>>,
    host: Seq<char>,
    platform: Option<Seq<char>>,
) -> Seq<char> {
    let host = or_text(generated_part(Some(host)), "local device"@);
    let platform = or_text(platform_part(platform), "unknown platform"@);
    let front = match scope {
        HomeScope::Global => host,
        HomeScope::User => or_text(generated_part(username), "unknown-user"@) + "@"@ + host,
    };
    front + " ("@ + platform + ")"@
}

pub fn format_generated_device_name(
    home_scope: HomeScope,
    username: Option<&str>,
    host: &str,
    platform: Option<&str>,
) -> (r: String)
    ensures
        r@ == limited_name(whole_name(home_scope, view_of(username), host@, view_of(platform))),
{
    let host = match normalize_generated_component(Some(host)) {
        Some(host) => host,
        None => "local device".to_owned(),
    };
    let platform = match normalize_platform_component(platform) {
        Some(platform) => platform,
        None => "unknown platform".to_owned(),
    };
    let mut name = match home_scope {
        HomeScope::Global => host,
        HomeScope::User => {
            let mut user = match normalize_generated_component(username) {
                Some(user) => user,
                None => "unknown-user".to_owned(),
            };
            user.append("@");
            user.append(&host);
            user
        },
    };
    name.append(" (");
    name.append(&platform);
    name.append(")");
    truncate_to_device_name_limit(name)
}

/// A text without the quotes around it.
pub open spec fn unquoted(value: Seq<char>) -> Seq<char> {
    if value.len() >= 2 && ((value[0] == '"' && value.last() == '"') || (value[0] == '\''
        && value.last() == '\'')) {
        value.subrange(1, value.len() - 1)
    } else {
        value
    }
}

/// The name of the system on a line of an os-release file, where the line gives it.
pub open spec fn release_line(line: Seq<char>) -> Option<Seq<char>> {
    let line = trimmed(line);
    if starts_with(line, "NAME="@) {
        generated_part(Some(unquoted(trimmed(line.skip(5)))))
    } else {
        None
    }
}

/// The name of the system on the first line that gives it.
pub open spec fn release_name(lines: Seq<Seq<char>>) -> Option<Seq<char>>
    decreases lines.len(),
{
    if lines.len() == 0 {
        None
    } else {
        match release_line(lines[0]) {
            Some(name) => Some(name),
            None => release_name(lines.skip(1)),
        }
    }
}

fn read_release_line(line: &str) -> (r: Option<String>)
    ensures
        crate::text::opt_view(r) == release_line(line@),
{
    let line = trim(line);
    if !has_prefix(line, "NAME=") {
        return None;
    }
    proof {
        reveal_strlit("NAME=");
    }
    let rest = line.substring_char(5, line.unicode_len());
    assert(rest@ == line@.skip(5));
    let value = trim(rest);
    let chars = chars_of(value);
    let n: usize = chars.len();
    if n >= 2 && ((chars[0] == '"' && chars[n - 1] == '"') || (chars[0] == '\'' && chars[n - 1]
        == '\'')) {
        let inner = string_between(&chars, 1, n - 1);
        normalize_generated_component(Some(inner.as_str()))
    } else {
        normalize_generated_component(Some(value))
    }
}

/// The name of the system in an os-release file.
pub fn linux_os_release_name(content: &str) -> (r: Option<String>)
    ensures
        crate::text::opt_view(r) == release_name(lines_of(content@)),
{
    let rows = lines(content);
    let ghost all = lines_of(content@);
    let mut i: usize = 0;
    assert(all.skip(0) == all);
    while i < rows.len()
        invariant
            i <= rows@.len(),
            views(rows@) == all,
            all == lines_of(content@),
            release_name(all) == release_name(all.skip(i as int)),
        decreases rows@.len() - i,
    {
        assert(all.skip(i as int)[0] == rows@[i as int]@);
        let name = read_release_line(&rows[i]);
        if name.is_some() {
            return name;
        }
        assert(all.skip(i as int).skip(1) == all.skip(i + 1));
        i += 1;
    }
    None
}

/// The name of the platform on Linux; `content` is the os-release file, where it is readable.
pub fn detect_platform_label(content: Option<&str>) -> (r: String)
    ensures
        r@ == (match content {
            Some(content) => or_text(release_name(lines_of(content@)), "Linux"@),
            None => "Linux"@,
        }),
{
    let name = match content {
        Some(content) => linux_os_release_name(content),
        None => None,
    };
    match name {
        Some(name) => name,
        None => "Linux".to_owned(),
    }
}

/// The name of this device: the one that the user gave, or else one generated from what the
/// system says of itself.
pub fn resolve_device_name(
    explicit: Option<&str>,
    home_scope: HomeScope,
    username: Option<&str>,
    hostname: Option<&str>,
    devicename: Option<&str>,
    platform: &str,
) -> (r: String)
    ensures
        r@ == (match explicit_name(view_of(explicit)) {
            Some(name) => name,
            None => limited_name(
                whole_name(
                    home_scope,
                    view_of(username),
                    host_label(view_of(hostname), view_of(devicename), "local device"@),
                    Some(platform@),
                ),
            ),
        }),
{
    match normalize_explicit_device_name(explicit) {
        Some(name) => name,
        None => {
            let host = select_host_label(hostname, devicename, "local device");
            format_generated_device_name(home_scope, username, &host, Some(platform))
        },
    }
}

proof fn trimmed_is_no_larger(s: Seq<char>)
    ensures
        utf8_size(trimmed(s)) <= utf8_size(s),
{
    trim_start_is_no_larger(s);
    trim_end_is_no_larger(trim_start_of(s));
}

proof fn trim_start_is_no_larger(s: Seq<char>)
    ensures
        utf8_size(trim_start_of(s)) <= utf8_size(s),
    decreases s.len(),
{
    if s.len() > 0 && crate::text::white_space(s[0]) {
        trim_start_is_no_larger(s.skip(1));
        skip_is_no_larger(s);
    }
}

proof fn skip_is_no_larger(s: Seq<char>)
    requires
        s.len() > 0,
    ensures
        utf8_size(s.skip(1)) <= utf8_size(s),
    decreases s.len(),
{
    if s.len() > 1 {
        skip_is_no_larger(s.drop_last());
        assert(s.drop_last().skip(1) == s.skip(1).drop_last());
    } else {
        assert(s.skip(1).len() == 0);
    }
}

proof fn trim_end_is_no_larger(s: Seq<char>)
    ensures
        utf8_size(trim_end_of(s)) <= utf8_size(s),
    decreases s.len(),
{
    if s.len() > 0 && crate::text::white_space(s.last()) {
        trim_end_is_no_larger(s.drop_last());
    }
}

proof fn fitting_start_fits(s: Seq<char>, limit: nat)
    ensures
        utf8_size(fitting_start(s, limit)) <= limit,
    decreases s.len(),
{
    if !(utf8_size(s) <= limit || s.len() == 0) {
        fitting_start_fits(s.drop_last(), limit);
    }
}

/// A generated name never takes more than the bytes that the server allows.
pub proof fn generated_names_fit(value: Seq<char>)
    ensures
        utf8_size(limited_name(value)) <= 128,
{
    fitting_start_fits(value, 128);
    trimmed_is_no_larger(fitting_start(value, 128));
    reveal_strlit("local device");
    reveal_with_fuel(utf8_size, 13);
}

/// No character of a text is a control character.
pub open spec fn no_control(s: Seq<char>) -> bool {
    forall|i: int| 0 <= i < s.len() ==> !control_char(#[trigger] s[i])
}

proof fn printable_has_no_control(s: Seq<char>)
    ensures
        no_control(printable(s)),
    decreases s.len(),
{
    if s.len() > 0 {
        printable_has_no_control(s.drop_last());
    }
}

proof fn trimmed_has_no_control(s: Seq<char>)
    requires
        no_control(s),
    ensures
        no_control(trimmed(s)),
{
    trim_start_has_no_control(s);
    trim_end_has_no_control(trim_start_of(s));
}

proof fn trim_start_has_no_control(s: Seq<char>)
    requires
        no_control(s),
    ensures
        no_control(trim_start_of(s)),
    decreases s.len(),
{
    if s.len() > 0 && crate::text::white_space(s[0]) {
        assert forall|i: int| 0 <= i < s.skip(1).len() implies !control_char(
            #[trigger] s.skip(1)[i],
        ) by {
            assert(s.skip(1)[i] == s[i + 1]);
        }
        trim_start_has_no_control(s.skip(1));
    }
}

proof fn trim_end_has_no_control(s: Seq<char>)
    requires
        no_control(s),
    ensures
        no_control(trim_end_of(s)),
    decreases s.len(),
{
    if s.len() > 0 && crate::text::white_space(s.last()) {
        trim_end_has_no_control(s.drop_last());
    }
}

proof fn fitting_start_has_no_control(s: Seq<char>, limit: nat)
    requires
        no_control(s),
    ensures
        no_control(fitting_start(s, limit)),
    decreases s.len(),
{
    if !(utf8_size(s) <= limit || s.len() == 0) {
        fitting_start_has_no_control(s.drop_last(), limit);
    }
}

proof fn generated_part_has_no_control(value: Option<Seq<char>>)
    requires
        generated_part(value) is Some,
    ensures
        no_control(generated_part(value)->0),
{
    printable_has_no_control(value->0);
    trimmed_has_no_control(printable(value->0));
}

/// A generated name never holds a control character, whatever the system says of itself.
pub proof fn generated_names_are_printable(
    scope: HomeScope,
    username: Option<Seq<char>>,
    host: Seq<char>,
    platform: Option<Seq<char>>,
)
    ensures
        no_control(limited_name(whole_name(scope, username, host, platform))),
{
    reveal_strlit("local device");
    reveal_strlit("unknown platform");
    reveal_strlit("unknown-user");
    reveal_strlit("@");
    reveal_strlit(" (");
    reveal_strlit(")");
    let host_text = or_text(generated_part(Some(host)), "local device"@);
    let platform_text = or_text(platform_part(platform), "unknown platform"@);
    let user_text = or_text(generated_part(username), "unknown-user"@);
    if generated_part(Some(host)) is Some {
        generated_part_has_no_control(Some(host));
    }
    if generated_part(platform) is Some {
        generated_part_has_no_control(platform);
    }
    if generated_part(username) is Some {
        generated_part_has_no_control(username);
    }
    assert(no_control(host_text));
    assert(no_control(platform_text));
    assert(no_control(user_text));
    let whole = whole_name(scope, username, host, platform);
    assert(no_control(user_text + "@"@));
    assert(no_control(user_text + "@"@ + host_text));
    let front = match scope {
        HomeScope::Global => host_text,
        HomeScope::User => user_text + "@"@ + host_text,
    };
    assert(no_control(front + " ("@));
    assert(no_control(front + " ("@ + platform_text));
    assert(no_control(whole));
    fitting_start_has_no_control(whole, 128);
    trimmed_has_no_control(fitting_start(whole, 128));
}

/// Only control characters are left out of a name.
pub proof fn control_characters_are_left_out(s: Seq<char>, c: char)
    ensures
        printable(Seq::<char>::empty()) == Seq::<char>::empty(),
        control_char(c) ==> printable(s.push(c)) == printable(s),
        !control_char(c) ==> printable(s.push(c)) == printable(s).push(c),
        c == ' ' || c == 'a' || c == '\u{e9}' ==> !control_char(c),
        c == '\n' || c == '\t' || c == '\u{7f}' ==> control_char(c),
{
    assert(s.push(c).drop_last() =~= s);
}

/// A name that was given is used without the white space round it; a blank one is none.
pub proof fn given_names_are_trimmed(value: Seq<char>)
    ensures
        explicit_name(None) is None,
        explicit_name(Some(value)) is Some <==> trimmed(value).len() > 0,
        explicit_name(Some(value)) matches Some(name) ==> name == trimmed(value),
        generated_part(None) is None,
        generated_part(Some(value)) is Some <==> trimmed(printable(value)).len() > 0,
        generated_part(Some(value)) matches Some(name) ==> name == trimmed(printable(value)),
{
}

/// The platform is told as it is, unless it is said to be unknown.
pub proof fn unknown_platforms_are_left_out(value: Option<Seq<char>>)
    ensures
        platform_part(value) matches Some(part) ==> generated_part(value) == Some(part) && lowercase(
            part,
        ) != "unknown"@ && !starts_with(lowercase(part), "unknown:"@),
        generated_part(value) matches Some(part) ==> lowercase(part) != "unknown"@ && !starts_with(
            lowercase(part),
            "unknown:"@,
        ) ==> platform_part(value) == Some(part),
        generated_part(value) is None ==> platform_part(value) is None,
{
}

/// What fits a limit is the longest start that does.
pub proof fn longest_starts_are_kept(s: Seq<char>, limit: nat)
    ensures
        ({
            let start = fitting_start(s, limit);
            &&& start.len() <= s.len()
            &&& start == s.take(start.len() as int)
            &&& (start.len() > 0 ==> utf8_size(start) <= limit)
            &&& (start.len() < s.len() ==> utf8_size(s.take(start.len() as int + 1)) > limit)
        }),
    decreases s.len(),
{
    let start = fitting_start(s, limit);
    if utf8_size(s) <= limit || s.len() == 0 {
        assert(s.take(s.len() as int) =~= s);
    } else {
        let front = s.drop_last();
        longest_starts_are_kept(front, limit);
        assert(front.take(start.len() as int) =~= s.take(start.len() as int));
        if start.len() < front.len() {
            assert(front.take(start.len() as int + 1) =~= s.take(start.len() as int + 1));
        } else {
            assert(s.take(start.len() as int + 1) =~= s);
        }
    }
}

/// A name that is short enough stays as it is.
pub proof fn short_names_stay(value: Seq<char>)
    ensures
        utf8_size(value) <= 128 ==> limited_name(value) == value,
        utf8_size(value) > 128 && trimmed(fitting_start(value, 128)).len() > 0 ==> limited_name(
            value,
        ) == trimmed(fitting_start(value, 128)),
{
}

/// The host is told by its name, else by the name of the device, else by what stands in for it.
pub proof fn host_names_come_first(
    hostname: Option<Seq<char>>,
    devicename: Option<Seq<char>>,
    fallback: Seq<char>,
)
    ensures
        generated_part(hostname) matches Some(name) ==> host_label(hostname, devicename, fallback)
            == name,
        generated_part(hostname) is None ==> (generated_part(devicename) matches Some(name)
            ==> host_label(hostname, devicename, fallback) == name),
        generated_part(hostname) is None && generated_part(devicename) is None ==> (generated_part(
            Some(fallback),
        ) matches Some(name) ==> host_label(hostname, devicename, fallback) == name),
{
}

/// The name tells the user, unless it stands for the whole machine, then the host and, in
/// brackets, the platform.
pub proof fn names_tell_user_host_and_platform(
    user: Seq<char>,
    host: Seq<char>,
    platform: Seq<char>,
)
    requires
        generated_part(Some(user)) == Some(user),
        generated_part(Some(host)) == Some(host),
        platform_part(Some(platform)) == Some(platform),
    ensures
        whole_name(HomeScope::Global, Some(user), host, Some(platform)) == host + " ("@ + platform
            + ")"@,
        whole_name(HomeScope::User, Some(user), host, Some(platform)) == user + "@"@ + host + " ("@
            + platform + ")"@,
        whole_name(HomeScope::User, None, host, Some(platform)) == "unknown-user"@ + "@"@ + host
            + " ("@ + platform + ")"@,
        whole_name(HomeScope::Global, None, host, None) == host + " ("@ + "unknown platform"@
            + ")"@,
{
}

/// A pair of quotes round a value goes, one kind or the other, and nothing else.
pub proof fn quotes_round_a_value_go(value: Seq<char>)
    ensures
        unquoted(seq!['"'] + value + seq!['"']) == value,
        unquoted(seq!['\''] + value + seq!['\'']) == value,
        value.len() == 0 || (value[0] != '"' && value[0] != '\'') ==> unquoted(value) == value,
        value.len() == 1 ==> unquoted(value) == value,
{
    let double = seq!['"'] + value + seq!['"'];
    assert(double.subrange(1, double.len() - 1) =~= value);
    let single = seq!['\''] + value + seq!['\''];
    assert(single.subrange(1, single.len() - 1) =~= value);
}

/// The first line that names the release counts.
pub proof fn first_release_names_count(lines: Seq<Seq<char>>, i: int)
    requires
        0 <= i < lines.len(),
        release_line(lines[i]) is Some,
        forall|j: int| 0 <= j < i ==> release_line(#[trigger] lines[j]) is None,
    ensures
        release_name(lines) == release_line(lines[i]),
        starts_with(trimmed(lines[i]), "NAME="@),
    decreases lines.len(),
{
    if i > 0 {
        let rest = lines.skip(1);
        assert(release_line(lines[0]) is None);
        assert(rest[i - 1] == lines[i]);
        assert forall|j: int| 0 <= j < i - 1 implies release_line(#[trigger] rest[j]) is None by {
            assert(rest[j] == lines[j + 1]);
        }
        first_release_names_count(rest, i - 1);
    }
}

} // verus!
