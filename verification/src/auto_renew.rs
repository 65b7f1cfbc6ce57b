//! Automatic renewal: the crontab entry that runs it, and the identities that are left out.
use vstd::prelude::*;

use crate::text::{
    chars_of, contains_text, ends_with, has_suffix, has_text, join, join_with,
    joined_lines_are_terminated, lines, lines_of, lowercase, pieces_hold_no_separator, same, split,
    split_of_terminated, split_on, to_lowercase, trim, trim_end, trim_end_of, trimmed, views,
    without_cr,
};

verus! {

/// Whose identities are meant: those of the machine, or those of the user.
#[derive(Debug, Clone, Copy, PartialEq, Eq, Structural)]
pub enum HomeScope {
    Global,
    User,
}

/// What can go wrong with automatic renewal.
#[derive(Debug, PartialEq, Eq)]
pub enum Error {
    ListCrontab { status: String, stderr: String },
    NonUtf8Crontab,
    UpdateCrontab { status: String, stderr: String },
    /// An operation of the system failed; the message says which.
    System { message: String },
}

impl Error {
    pub open spec fn words(self) -> Seq<char> {
        match self {
            Error::ListCrontab { status, stderr } => "crontab -l failed with "@ + status@ + ": "@
                + stderr@,
            Error::NonUtf8Crontab => "the current crontab is not valid UTF-8"@,
            Error::UpdateCrontab { status, stderr } => "crontab update failed with "@ + status@
                + ": "@ + stderr@,
            Error::System { message } => message@,
        }
    }

    pub fn to_text(&self) -> (r: String)
        ensures
            r@ == self.words(),
    {
        match self {
            Error::ListCrontab { status, stderr } => {
                let mut r = "crontab -l failed with ".to_owned();
                r.append(status);
                r.append(": ");
                r.append(stderr);
                r
            },
            Error::NonUtf8Crontab => "the current crontab is not valid UTF-8".to_owned(),
            Error::UpdateCrontab { status, stderr } => {
                let mut r = "crontab update failed with ".to_owned();
                r.append(status);
                r.append(": ");
                r.append(stderr);
                r
            },
            Error::System { message } => message.clone(),
        }
    }
}

/// The mark at the end of the entry of a scope.
pub open spec fn marker_text(scope: HomeScope) -> Seq<char> {
    match scope {
        HomeScope::Global => "# genmeta-auto-renew:global"@,
        HomeScope::User => "# genmeta-auto-renew:user"@,
    }
}

/// The mark at the end of the entry of a scope.
pub fn marker(home_scope: HomeScope) -> (r: String)
    ensures
        r@ == marker_text(home_scope),
{
    match home_scope {
        HomeScope::Global => "# genmeta-auto-renew:global".to_owned(),
        HomeScope::User => "# genmeta-auto-renew:user".to_owned(),
    }
}

/// A character of a quoted word. A quote leaves the quotes, and a percent sign is kept from
/// cron, to which it would end the command even inside quotes.
pub open spec fn quoted_char(c: char) -> Seq<char> {
    if c == '\'' {
        "'\"'\"'"@
    } else if c == '%' {
        "\\%"@
    } else {
        seq![c]
    }
}

pub open spec fn quoted_chars(value: Seq<char>) -> Seq<char>
    decreases value.len(),
{
    if value.len() == 0 {
        Seq::<char>::empty()
    } else {
        quoted_chars(value.drop_last()) + quoted_char(value.last())
    }
}

/// A word in single quotes for a command line of cron.
pub open spec fn quoted(value: Seq<char>) -> Seq<char> {
    "'"@ + quoted_chars(value) + "'"@
}

/// A word in single quotes for a command line of cron.
pub fn shell_quote(value: &str) -> (r: String)
    ensures
        r@ == quoted(value@),
{
    let chars = chars_of(value);
    let mut inner = String::new();
    let mut i: usize = 0;
    while i < chars.len()
        invariant
            i <= chars@.len(),
            chars@ == value@,
            inner@ == quoted_chars(value@.take(i as int)),
        decreases chars@.len() - i,
    {
        let c = chars[i];
        assert(value@.take(i + 1).drop_last() == value@.take(i as int));
        let ghost before = inner@;
        if c == '\'' {
            inner.append("'\"'\"'");
        } else if c == '%' {
            inner.append("\\%");
        } else {
            inner.push(c);
            assert(before.push(c) == before + seq![c]);
        }
        i += 1;
    }
    assert(value@.take(value@.len() as int) == value@);
    let mut r = "'".to_owned();
    r.append(&inner);
    r.append("'");
    r
}

/// Whether a text ends in a backslash that is not itself escaped.
pub open spec fn ends_escaping(text: Seq<char>) -> bool
    decreases text.len(),
{
    text.len() > 0 && text.last() == '\\' && !ends_escaping(text.drop_last())
}

/// What cron makes of the next character. A backslash keeps a percent sign behind it in the
/// command and is then dropped; another percent sign, or the end of the line, ends the command.
pub open spec fn cron_step(command: Seq<char>, escaping: bool, c: char) -> Option<
    (Seq<char>, bool),
> {
    if c == '\n' {
        None
    } else if c != '%' {
        Some((command.push(c), c == '\\' && !escaping))
    } else if escaping {
        Some((command.drop_last().push('%'), false))
    } else {
        None
    }
}

/// A command as cron hands it to the shell, and whether a backslash stands open at its end.
/// `None` where the command ends before the text.
pub open spec fn cron_reads(text: Seq<char>) -> Option<(Seq<char>, bool)>
    decreases text.len(),
{
    if text.len() == 0 {
        Some((Seq::<char>::empty(), false))
    } else {
        match cron_reads(text.drop_last()) {
            None => None,
            Some((command, escaping)) => cron_step(command, escaping, text.last()),
        }
    }
}

/// Whether a shell is between quotes.
pub enum Quoting {
    Bare,
    Single,
    Double,
}

/// What a shell makes of the next character. `None` where the character has a meaning of its
/// own.
pub open spec fn shell_step(word: Seq<char>, quoting: Quoting, c: char) -> Option<
    (Seq<char>, Quoting),
> {
    match quoting {
        Quoting::Bare => if c == '\'' {
            Some((word, Quoting::Single))
        } else if c == '"' {
            Some((word, Quoting::Double))
        } else {
            None
        },
        Quoting::Single => if c == '\'' {
            Some((word, Quoting::Bare))
        } else {
            Some((word.push(c), Quoting::Single))
        },
        Quoting::Double => if c == '"' {
            Some((word, Quoting::Bare))
        } else if c == '\\' || c == '$' || c == '`' {
            None
        } else {
            Some((word.push(c), Quoting::Double))
        },
    }
}

/// A word as a shell reads it, and whether a quote stands open at its end.
pub open spec fn shell_reads(text: Seq<char>) -> Option<(Seq<char>, Quoting)>
    decreases text.len(),
{
    if text.len() == 0 {
        Some((Seq::<char>::empty(), Quoting::Bare))
    } else {
        match shell_reads(text.drop_last()) {
            None => None,
            Some((word, quoting)) => shell_step(word, quoting, text.last()),
        }
    }
}

/// The inside of a quoted word once cron has taken its backslashes out.
spec fn shell_chars(value: Seq<char>) -> Seq<char>
    decreases value.len(),
{
    if value.len() == 0 {
        Seq::<char>::empty()
    } else if value.last() == '\'' {
        shell_chars(value.drop_last()) + "'\"'\"'"@
    } else {
        shell_chars(value.drop_last()).push(value.last())
    }
}

proof fn cron_reads_next(text: Seq<char>, c: char)
    ensures
        cron_reads(text.push(c)) == match cron_reads(text) {
            None => None,
            Some((command, escaping)) => cron_step(command, escaping, c),
        },
{
    assert(text.push(c).drop_last() == text);
}

proof fn shell_reads_next(text: Seq<char>, c: char)
    ensures
        shell_reads(text.push(c)) == match shell_reads(text) {
            None => None,
            Some((word, quoting)) => shell_step(word, quoting, c),
        },
{
    assert(text.push(c).drop_last() == text);
}

/// The five characters that stand for a quote, one after the other.
proof fn quote_in_steps(text: Seq<char>)
    ensures
        text + "'\"'\"'"@ == text.push('\'').push('"').push('\'').push('"').push('\''),
{
    reveal_strlit("'\"'\"'");
    assert(text + "'\"'\"'"@ =~= text.push('\'').push('"').push('\'').push('"').push('\''));
}

/// Whether no percent sign of a path stands behind an open backslash, and no line ends in it.
pub open spec fn can_be_scheduled(value: Seq<char>) -> bool {
    forall|i: int|
        0 <= i < value.len() ==> #[trigger] value[i] != '\n' && (value[i] == '%' ==> !ends_escaping(
            value.take(i),
        ))
}

proof fn cron_keeps_words(value: Seq<char>)
    requires
        can_be_scheduled(value),
    ensures
        cron_reads("'"@ + quoted_chars(value)) == Some(
            ("'"@ + shell_chars(value), ends_escaping(value)),
        ),
    decreases value.len(),
{
    reveal_strlit("'");
    let open = "'"@;
    if value.len() == 0 {
        let nothing = Seq::<char>::empty();
        cron_reads_next(nothing, '\'');
        assert(open + quoted_chars(value) =~= nothing.push('\''));
        assert(open + shell_chars(value) =~= nothing.push('\''));
        assert(cron_reads(nothing) == Some((nothing, false)));
    } else {
        let before = value.drop_last();
        let c = value.last();
        assert forall|i: int| 0 <= i < before.len() implies #[trigger] before[i] != '\n' && (
        before[i] == '%' ==> !ends_escaping(before.take(i))) by {
            assert(before[i] == value[i]);
            assert(before.take(i) == value.take(i));
        }
        cron_keeps_words(before);
        let read = open + quoted_chars(before);
        let command = open + shell_chars(before);
        assert(value.take(value.len() - 1) == before);
        assert(value[value.len() - 1] == c);
        if c == '\'' {
            quote_in_steps(read);
            quote_in_steps(command);
            cron_reads_next(read, '\'');
            cron_reads_next(read.push('\''), '"');
            cron_reads_next(read.push('\'').push('"'), '\'');
            cron_reads_next(read.push('\'').push('"').push('\''), '"');
            cron_reads_next(read.push('\'').push('"').push('\'').push('"'), '\'');
            assert(open + quoted_chars(value) =~= read + "'\"'\"'"@);
            assert(open + shell_chars(value) =~= command + "'\"'\"'"@);
        } else if c == '%' {
            reveal_strlit("\\%");
            cron_reads_next(read, '\\');
            cron_reads_next(read.push('\\'), '%');
            assert(open + quoted_chars(value) =~= read.push('\\').push('%'));
            assert(command.push('\\').drop_last() =~= command);
            assert(open + shell_chars(value) =~= command.push('%'));
        } else {
            cron_reads_next(read, c);
            assert(open + quoted_chars(value) =~= read.push(c));
            assert(open + shell_chars(value) =~= command.push(c));
        }
    }
}

proof fn shells_keep_words(value: Seq<char>)
    ensures
        shell_reads("'"@ + shell_chars(value)) == Some((value, Quoting::Single)),
    decreases value.len(),
{
    reveal_strlit("'");
    let open = "'"@;
    if value.len() == 0 {
        let nothing = Seq::<char>::empty();
        assert(shell_reads(nothing) == Some((nothing, Quoting::Bare)));
        shell_reads_next(nothing, '\'');
        assert(open + shell_chars(value) =~= nothing.push('\''));
        assert(value =~= nothing);
    } else {
        let before = value.drop_last();
        shells_keep_words(before);
        let command = open + shell_chars(before);
        assert(before.push(value.last()) =~= value);
        if value.last() == '\'' {
            quote_in_steps(command);
            shell_reads_next(command, '\'');
            shell_reads_next(command.push('\''), '"');
            shell_reads_next(command.push('\'').push('"'), '\'');
            shell_reads_next(command.push('\'').push('"').push('\''), '"');
            shell_reads_next(command.push('\'').push('"').push('\'').push('"'), '\'');
            assert(open + shell_chars(value) =~= command + "'\"'\"'"@);
        } else {
            shell_reads_next(command, value.last());
            assert(open + shell_chars(value) =~= command.push(value.last()));
        }
    }
}

/// A quoted word is one word again, and the same, after cron has read it and a shell has read
/// what cron left of it.
pub proof fn quoted_words_are_read_back(value: Seq<char>)
    requires
        can_be_scheduled(value),
    ensures
        cron_reads(quoted(value)) matches Some((command, escaping)) && !escaping && shell_reads(
            command,
        ) == Some((value, Quoting::Bare)),
{
    reveal_strlit("'");
    cron_keeps_words(value);
    shells_keep_words(value);
    let read = "'"@ + quoted_chars(value);
    let command = "'"@ + shell_chars(value);
    cron_reads_next(read, '\'');
    shell_reads_next(command, '\'');
    assert(quoted(value) =~= read.push('\''));
}

/// The components of a path: what stands between the slashes and is not a dot.
pub open spec fn path_parts(path: Seq<char>) -> Seq<Seq<char>> {
    split_on(path, '/').filter(|part: Seq<char>| part.len() > 0 && part != "."@)
}

/// The last component of a path, unless it leads upwards.
pub open spec fn file_name(path: Seq<char>) -> Option<Seq<char>> {
    let parts = path_parts(path);
    if parts.len() == 0 || parts.last() == ".."@ {
        None
    } else {
        Some(parts.last())
    }
}

/// The program is the identity tool itself, and not a launcher for it.
pub fn is_standalone_identity_binary(executable: &str) -> (r: bool)
    ensures
        r == (file_name(executable@) == Some("genmeta-identity"@)),
{
    let parts = split(executable, '/');
    let ghost all = split_on(executable@, '/');
    let ghost keep = |part: Seq<char>| part.len() > 0 && part != "."@;
    let mut i: usize = 0;
    let mut last: Option<String> = None;
    assert(all.take(0).filter(keep) == Seq::<Seq<char>>::empty());
    while i < parts.len()
        invariant
            i <= parts@.len(),
            views(parts@) == all,
            keep == (|part: Seq<char>| part.len() > 0 && part != "."@),
            match last {
                Some(part) => all.take(i as int).filter(keep).len() > 0 && all.take(
                    i as int,
                ).filter(keep).last() == part@,
                None => all.take(i as int).filter(keep).len() == 0,
            },
        decreases parts@.len() - i,
    {
        let part = &parts[i];
        assert(all[i as int] == part@);
        assert(all.take(i + 1) == all.take(i as int).push(part@));
        proof {
            all.take(i as int).lemma_filter_push(part@, keep);
        }
        if !part.as_str().is_empty() && !same(part, ".") {
            last = Some(part.clone());
        }
        i += 1;
    }
    assert(all.take(all.len() as int) == all);
    assert(path_parts(executable@) == all.filter(keep));
    match last {
        Some(part) => {
            proof {
                reveal_strlit("..");
                reveal_strlit("genmeta-identity");
                assert(".."@.len() == 2);
                assert("genmeta-identity"@.len() == 16);
            }
            same(&part, "genmeta-identity")
        },
        None => false,
    }
}

/// The command of the entry: the program, and the arguments with which it renews everything.
pub open spec fn renewal_command(executable: Seq<char>, scope: HomeScope) -> Seq<char> {
    quoted(executable) + (if file_name(executable) == Some("genmeta-identity"@) {
        ""@
    } else {
        " 'identity'"@
    }) + (match scope {
        HomeScope::Global => " '--global'"@,
        HomeScope::User => ""@,
    }) + " 'renew' '--all'"@
}

/// The crontab entry that runs automatic renewal every night.
pub open spec fn renewal_entry(executable: Seq<char>, scope: HomeScope) -> Seq<char> {
    "0 3 * * * "@ + renewal_command(executable, scope) + " >/dev/null 2>&1 "@ + marker_text(scope)
}

/// The crontab entry that runs automatic renewal every night, and its mark.
pub fn build_entry(executable: &str, home_scope: HomeScope) -> (r: (String, String))
    ensures
        r.0@ == renewal_entry(executable@, home_scope),
        r.1@ == marker_text(home_scope),
{
    let mut command = shell_quote(executable);
    command.append(
        if is_standalone_identity_binary(executable) {
            ""
        } else {
            " 'identity'"
        },
    );
    command.append(
        match home_scope {
            HomeScope::Global => " '--global'",
            HomeScope::User => "",
        },
    );
    command.append(" 'renew' '--all'");
    let mut entry = "0 3 * * * ".to_owned();
    entry.append(&command);
    entry.append(" >/dev/null 2>&1 ");
    entry.append(&marker(home_scope));
    (entry, marker(home_scope))
}

/// A line of the crontab that is under the control of automatic renewal.
pub open spec fn managed(line: Seq<char>, marker: Seq<char>) -> bool {
    ends_with(trim_end_of(line), marker)
}

/// The lines that stay, and whether the entry is among them: all lines that are not managed,
/// and of the managed ones the first that is the entry.
pub open spec fn kept(lines: Seq<Seq<char>>, entry: Seq<char>, marker: Seq<char>) -> (
    Seq<Seq<char>>,
    bool,
)
    decreases lines.len(),
{
    if lines.len() == 0 {
        (Seq::<Seq<char>>::empty(), false)
    } else {
        let (before, found) = kept(lines.drop_last(), entry, marker);
        let line = lines.last();
        if !managed(line, marker) {
            (before.push(line), found)
        } else if !found && line == entry {
            (before.push(line), true)
        } else {
            (before, found)
        }
    }
}

/// The lines of the crontab with the entry in it once.
pub open spec fn tidied(lines: Seq<Seq<char>>, entry: Seq<char>, marker: Seq<char>) -> Seq<
    Seq<char>,
> {
    let (stay, found) = kept(lines, entry, marker);
    if found {
        stay
    } else {
        stay.push(entry)
    }
}

/// The crontab with the entry in it once, `None` where it is like that already.
pub open spec fn crontab_update(existing: Seq<char>, entry: Seq<char>, marker: Seq<char>) -> Option<
    Seq<char>,
> {
    let lines = lines_of(existing);
    if tidied(lines, entry, marker) == lines {
        None
    } else {
        Some(join_with(tidied(lines, entry, marker), "\n"@) + "\n"@)
    }
}

proof fn kept_len(lines: Seq<Seq<char>>, entry: Seq<char>, marker: Seq<char>)
    ensures
        kept(lines, entry, marker).0.len() <= lines.len(),
        kept(lines, entry, marker).0.len() == lines.len() ==> kept(lines, entry, marker).0 == lines,
        forall|i: int|
            0 <= i < kept(lines, entry, marker).0.len() ==> (#[trigger] kept(
                lines,
                entry,
                marker,
            ).0[i] == entry || !managed(kept(lines, entry, marker).0[i], marker)),
    decreases lines.len(),
{
    if lines.len() > 0 {
        kept_len(lines.drop_last(), entry, marker);
        assert(lines.drop_last().push(lines.last()) == lines);
        let (before, _) = kept(lines.drop_last(), entry, marker);
        let now = kept(lines, entry, marker).0;
        assert forall|i: int| 0 <= i < now.len() implies (#[trigger] now[i] == entry || !managed(
            now[i],
            marker,
        )) by {
            if i < before.len() {
                assert(now[i] == before[i]);
            }
        }
    }
}

/// The lines change exactly where a line is dropped or the entry is added.
proof fn tidied_changes(lines: Seq<Seq<char>>, entry: Seq<char>, marker: Seq<char>)
    ensures
        tidied(lines, entry, marker) == lines <==> kept(lines, entry, marker).1 && kept(
            lines,
            entry,
            marker,
        ).0.len() == lines.len(),
{
    kept_len(lines, entry, marker);
    let (stay, found) = kept(lines, entry, marker);
    if !found && tidied(lines, entry, marker) == lines {
        // All lines but the last stay, and the last is the entry: then it would have been found.
        assert(stay.len() + 1 == lines.len());
        kept_len(lines.drop_last(), entry, marker);
        let (before, _) = kept(lines.drop_last(), entry, marker);
        assert(stay.push(entry) == lines);
        assert(lines.last() == entry);
        if !managed(lines.last(), marker) {
            assert(stay == before.push(entry));
            dropped_line_shows(lines.drop_last(), entry, marker);
            assert(before.push(entry).push(entry) == lines);
            assert(before.push(entry) == lines.drop_last());
        }
    }
}

/// Where no entry was found among managed lines, a sequence in which a line was dropped
/// cannot be the one that stays with the entry added.
proof fn dropped_line_shows(lines: Seq<Seq<char>>, entry: Seq<char>, marker: Seq<char>)
    ensures
        !managed(entry, marker) && kept(lines, entry, marker).0.push(entry) == lines ==> false,
    decreases lines.len(),
{
    if !managed(entry, marker) && kept(lines, entry, marker).0.push(entry) == lines {
        let (before, _) = kept(lines.drop_last(), entry, marker);
        assert(lines.last() == entry);
        assert(kept(lines, entry, marker).0 == before.push(entry));
        assert(before.push(entry).push(entry) == lines);
        assert(before.push(entry) == lines.drop_last());
        dropped_line_shows(lines.drop_last(), entry, marker);
    }
}

/// The crontab with the entry in it once, `None` where it is like that already.
pub fn updated_crontab(existing: &str, entry: &str, marker: &str) -> (r: Option<String>)
    ensures
        crate::text::opt_view(r) == crontab_update(existing@, entry@, marker@),
{
    let rows = lines(existing);
    let ghost all = lines_of(existing@);
    let mut stay: Vec<String> = Vec::new();
    let mut found = false;
    let mut changed = false;
    let mut i: usize = 0;
    while i < rows.len()
        invariant
            i <= rows@.len(),
            views(rows@) == all,
            (views(stay@), found) == kept(all.take(i as int), entry@, marker@),
            changed == (stay@.len() < i),
            stay@.len() <= i,
        decreases rows@.len() - i,
    {
        let row = &rows[i];
        assert(all[i as int] == row@);
        assert(all.take(i + 1).drop_last() == all.take(i as int));
        assert(all.take(i + 1).last() == row@);
        let ghost before = views(stay@);
        if has_suffix(trim_end(row), marker) {
            if !found && same(row, entry) {
                stay.push(row.clone());
                found = true;
                assert(views(stay@) == before.push(row@));
            } else {
                changed = true;
            }
        } else {
            stay.push(row.clone());
            assert(views(stay@) == before.push(row@));
        }
        i += 1;
    }
    assert(all.take(all.len() as int) == all);
    proof {
        tidied_changes(all, entry@, marker@);
    }
    if !found {
        let ghost before = views(stay@);
        stay.push(entry.to_owned());
        assert(views(stay@) == before.push(entry@));
        changed = true;
    }
    assert(views(stay@) == tidied(all, entry@, marker@));
    if !changed {
        return None;
    }
    let mut updated = join(&stay, "\n");
    updated.append("\n");
    Some(updated)
}

proof fn kept_filters(lines: Seq<Seq<char>>, entry: Seq<char>, marker: Seq<char>)
    ensures
        kept(lines, entry, marker).0.filter(|line: Seq<char>| !managed(line, marker))
            == lines.filter(|line: Seq<char>| !managed(line, marker)),
        kept(lines, entry, marker).0.filter(|line: Seq<char>| managed(line, marker)) == (if kept(
            lines,
            entry,
            marker,
        ).1 {
            seq![entry]
        } else {
            Seq::<Seq<char>>::empty()
        }),
    decreases lines.len(),
{
    let others = |line: Seq<char>| !managed(line, marker);
    let own = |line: Seq<char>| managed(line, marker);
    reveal(Seq::filter);
    if lines.len() > 0 {
        kept_filters(lines.drop_last(), entry, marker);
        let (before, _) = kept(lines.drop_last(), entry, marker);
        let line = lines.last();
        before.lemma_filter_push(line, others);
        before.lemma_filter_push(line, own);
        lines.drop_last().lemma_filter_push(line, others);
        assert(lines.drop_last().push(line) == lines);
        assert(Seq::<Seq<char>>::empty().push(line) == seq![line]);
    }
}

/// Lines that are not managed, those of other programs and of the other scope, are all kept
/// in their order, and of the managed lines the entry stands there once.
pub proof fn crontab_keeps_other_lines(lines: Seq<Seq<char>>, entry: Seq<char>, marker: Seq<char>)
    requires
        managed(entry, marker),
    ensures
        tidied(lines, entry, marker).filter(|line: Seq<char>| !managed(line, marker))
            == lines.filter(|line: Seq<char>| !managed(line, marker)),
        tidied(lines, entry, marker).filter(|line: Seq<char>| managed(line, marker)) == seq![entry],
{
    kept_filters(lines, entry, marker);
    let (stay, found) = kept(lines, entry, marker);
    let others = |line: Seq<char>| !managed(line, marker);
    let own = |line: Seq<char>| managed(line, marker);
    if !found {
        stay.lemma_filter_push(entry, others);
        stay.lemma_filter_push(entry, own);
        assert(Seq::<Seq<char>>::empty().push(entry) == seq![entry]);
    }
}

proof fn trim_ignores_cr(line: Seq<char>)
    ensures
        trim_end_of(without_cr(line)) == trim_end_of(line),
{
}

proof fn tidy_lines_stay(lines: Seq<Seq<char>>, entry: Seq<char>, marker: Seq<char>)
    requires
        managed(entry, marker),
        lines.filter(|line: Seq<char>| managed(line, marker)) == seq![entry],
    ensures
        tidied(lines, entry, marker) == lines,
{
    kept_of_tidy(lines, entry, marker);
    tidied_changes(lines, entry, marker);
}

proof fn kept_of_tidy(lines: Seq<Seq<char>>, entry: Seq<char>, marker: Seq<char>)
    requires
        managed(entry, marker),
        ({
            let own = lines.filter(|line: Seq<char>| managed(line, marker));
            own == seq![entry] || own == Seq::<Seq<char>>::empty()
        }),
    ensures
        kept(lines, entry, marker).0.len() == lines.len(),
        kept(lines, entry, marker).1 == (lines.filter(|line: Seq<char>| managed(line, marker))
            == seq![entry]),
    decreases lines.len(),
{
    let own = |line: Seq<char>| managed(line, marker);
    reveal(Seq::filter);
    if lines.len() > 0 {
        let front = lines.drop_last();
        let line = lines.last();
        front.lemma_filter_push(line, own);
        assert(front.push(line) == lines);
        if managed(line, marker) {
            assert(lines.filter(own) == front.filter(own).push(line));
            assert(lines.filter(own).len() == front.filter(own).len() + 1);
            assert(front.filter(own) == Seq::<Seq<char>>::empty());
            assert(lines.filter(own)[0] == line);
        }
        kept_of_tidy(front, entry, marker);
    } else {
        assert(lines.filter(own).len() == 0);
    }
}

proof fn filter_of_stripped(lines: Seq<Seq<char>>, entry: Seq<char>, marker: Seq<char>)
    requires
        without_cr(entry) == entry,
        forall|i: int|
            0 <= i < lines.len() ==> (managed(#[trigger] lines[i], marker) ==> lines[i] == entry),
    ensures
        lines.map_values(|line: Seq<char>| without_cr(line)).filter(
            |line: Seq<char>| managed(line, marker),
        ) == lines.filter(|line: Seq<char>| managed(line, marker)),
    decreases lines.len(),
{
    let own = |line: Seq<char>| managed(line, marker);
    let strip = |line: Seq<char>| without_cr(line);
    reveal(Seq::filter);
    let stripped = lines.map_values(strip);
    if lines.len() > 0 {
        let front = lines.drop_last();
        let line = lines.last();
        assert(forall|i: int| 0 <= i < front.len() ==> front[i] == lines[i]);
        filter_of_stripped(front, entry, marker);
        assert(stripped == front.map_values(strip).push(without_cr(line)));
        front.map_values(strip).lemma_filter_push(without_cr(line), own);
        front.lemma_filter_push(line, own);
        assert(front.push(line) == lines);
        trim_ignores_cr(line);
        assert(line == lines[lines.len() - 1]);
    } else {
        assert(stripped == lines);
    }
}

proof fn filtered_lines(lines: Seq<Seq<char>>, entry: Seq<char>, marker: Seq<char>, i: int)
    requires
        lines.filter(|line: Seq<char>| managed(line, marker)) == seq![entry],
        0 <= i < lines.len(),
        managed(lines[i], marker),
    ensures
        lines[i] == entry,
{
    let own = |line: Seq<char>| managed(line, marker);
    lines.filter_lemma(own);
    assert(own(lines[i]));
    assert(lines.filter(own).contains(lines[i]));
}

/// Registering twice is registering once: the updated crontab needs no other update.
pub proof fn crontab_update_is_idempotent(existing: Seq<char>, entry: Seq<char>, marker: Seq<char>)
    requires
        managed(entry, marker),
        !entry.contains('\n'),
        without_cr(entry) == entry,
        crontab_update(existing, entry, marker) is Some,
    ensures
        crontab_update(crontab_update(existing, entry, marker)->0, entry, marker) is None,
{
    let lines = lines_of(existing);
    let tidy = tidied(lines, entry, marker);
    let text = crontab_update(existing, entry, marker)->0;
    reveal_strlit("\n");
    assert("\n"@ == seq!['\n']);
    crontab_keeps_other_lines(lines, entry, marker);
    assert(tidy.len() > 0) by {
        if tidy.len() == 0 {
            reveal(Seq::filter);
            assert(tidy.filter(|line: Seq<char>| managed(line, marker)).len() == 0);
        }
    }
    lines_hold_no_feed(existing);
    kept_lines_come_from(lines, entry, marker);
    assert forall|i: int| 0 <= i < tidy.len() implies !(#[trigger] tidy[i]).contains('\n') by {
        if i < kept(lines, entry, marker).0.len() {
            assert(lines.contains(kept(lines, entry, marker).0[i]));
        }
    }
    joined_lines_are_terminated(tidy);
    assert(text == join_with(tidy, seq!['\n']).push('\n'));
    split_of_terminated(tidy);
    let pieces = split_on(text, '\n');
    assert(pieces.drop_last() == tidy);
    let again = lines_of(text);
    assert(again == tidy.map_values(|line: Seq<char>| without_cr(line)));
    assert forall|i: int|
        0 <= i < tidy.len() implies (managed(#[trigger] tidy[i], marker) ==> tidy[i] == entry) by {
        if managed(tidy[i], marker) {
            filtered_lines(tidy, entry, marker, i);
        }
    }
    filter_of_stripped(tidy, entry, marker);
    tidy_lines_stay(again, entry, marker);
}

proof fn kept_lines_come_from(lines: Seq<Seq<char>>, entry: Seq<char>, marker: Seq<char>)
    ensures
        forall|i: int|
            0 <= i < kept(lines, entry, marker).0.len() ==> lines.contains(
                #[trigger] kept(lines, entry, marker).0[i],
            ),
    decreases lines.len(),
{
    if lines.len() > 0 {
        kept_lines_come_from(lines.drop_last(), entry, marker);
        let (before, _) = kept(lines.drop_last(), entry, marker);
        let now = kept(lines, entry, marker).0;
        assert forall|i: int| 0 <= i < now.len() implies lines.contains(#[trigger] now[i]) by {
            if i < before.len() {
                assert(now[i] == before[i]);
                let j = choose|j: int|
                    0 <= j < lines.drop_last().len() && lines.drop_last()[j] == before[i];
                assert(lines[j] == now[i]);
            } else {
                assert(lines[lines.len() - 1] == now[i]);
            }
        }
    }
}

proof fn lines_hold_no_feed(text: Seq<char>)
    ensures
        forall|line: Seq<char>| #[trigger] lines_of(text).contains(line) ==> !line.contains('\n'),
{
    pieces_hold_no_separator(text, '\n');
    let pieces = split_on(text, '\n');
    assert forall|line: Seq<char>| #[trigger] lines_of(text).contains(line) implies !line.contains(
        '\n',
    ) by {
        let i = choose|i: int| 0 <= i < lines_of(text).len() && lines_of(text)[i] == line;
        assert(!pieces[i].contains('\n'));
        if i < pieces.len() - 1 {
            assert(line == without_cr(pieces[i]));
            assert forall|j: int| 0 <= j < line.len() implies line[j] != '\n' by {
                assert(line[j] == pieces[i][j]);
            }
        }
    }
}

/// The entry of a scope is managed under its own mark, and not under the mark of the other.
pub proof fn entries_belong_to_their_scope(executable: Seq<char>, scope: HomeScope, other: HomeScope)
    ensures
        managed(renewal_entry(executable, scope), marker_text(other)) <==> scope == other,
        without_cr(renewal_entry(executable, scope)) == renewal_entry(executable, scope),
{
    reveal_strlit("# genmeta-auto-renew:global");
    reveal_strlit("# genmeta-auto-renew:user");
    let entry = renewal_entry(executable, scope);
    let front = "0 3 * * * "@ + renewal_command(executable, scope) + " >/dev/null 2>&1 "@;
    let own = marker_text(scope);
    assert(entry == front + own);
    assert(own.len() > 0);
    assert(entry.last() == own.last());
    assert(own.last() == 'l' || own.last() == 'r');
    assert(trim_end_of(entry) == entry);
    assert(entry.skip(entry.len() - own.len()) == own);
    if scope != other {
        let alien = marker_text(other);
        assert(alien.last() != own.last());
        if ends_with(entry, alien) {
            assert(entry.skip(entry.len() - alien.len()).last() == entry.last());
        }
    }
}

/// The text says that there is no crontab.
pub fn no_crontab_exists(status_success: bool, stdout: &[u8], stderr: &str) -> (r: bool)
    ensures
        r == (!status_success && stdout@.len() == 0 && contains_text(
            lowercase(stderr@),
            "no crontab"@,
        )),
{
    !status_success && stdout.len() == 0 && has_text(&to_lowercase(stderr), "no crontab")
}

/// What the crontab command printed: how it ended, its output, that output as text where it
/// is text, and what it printed about errors.
#[derive(Debug)]
pub struct CrontabOutput {
    pub success: bool,
    pub status: String,
    pub stdout: Vec<u8>,
    pub text: Option<String>,
    pub stderr: String,
}

/// The crontab that a listing shows. Where there is none it is empty.
pub fn read_crontab(output: CrontabOutput) -> (r: Result<String, Error>)
    ensures
        ({
            let none = !output.success && output.stdout@.len() == 0 && contains_text(
                lowercase(output.stderr@),
                "no crontab"@,
            );
            match r {
                Ok(text) => (none && text@ == ""@) || (output.success && output.text == Some(text)),
                Err(Error::ListCrontab { status, stderr }) => !none && !output.success && status
                    == output.status && stderr@ == trimmed(output.stderr@),
                Err(Error::NonUtf8Crontab) => output.success && output.text is None,
                Err(_) => false,
            }
        }),
{
    if no_crontab_exists(output.success, output.stdout.as_slice(), &output.stderr) {
        return Ok("".to_owned());
    }
    if !output.success {
        return Err(
            Error::ListCrontab {
                status: output.status,
                stderr: trim(&output.stderr).to_owned(),
            },
        );
    }
    match output.text {
        Some(text) => Ok(text),
        None => Err(Error::NonUtf8Crontab),
    }
}

/// What came of installing a crontab.
pub fn check_install(success: bool, status: String, stderr: &str) -> (r: Result<(), Error>)
    ensures
        match r {
            Ok(()) => success,
            Err(Error::UpdateCrontab { status: s, stderr: text }) => !success && s == status
                && text@ == trimmed(stderr@),
            Err(_) => false,
        },
{
    if success {
        Ok(())
    } else {
        Err(Error::UpdateCrontab { status, stderr: trim(stderr).to_owned() })
    }
}

/// A path below a directory, unless it is absolute.
pub open spec fn joined_path(directory: Seq<char>, path: Seq<char>) -> Seq<char> {
    if path.len() > 0 && path[0] == '/' {
        path
    } else if directory.len() == 0 || directory.last() == '/' {
        directory + path
    } else {
        directory + "/"@ + path
    }
}

pub fn join_path(directory: &str, path: &str) -> (r: String)
    ensures
        r@ == joined_path(directory@, path@),
{
    if is_absolute(path) {
        return path.to_owned();
    }
    let chars = chars_of(directory);
    let mut r = directory.to_owned();
    if chars.len() > 0 && chars[chars.len() - 1] != '/' {
        r.append("/");
    }
    r.append(path);
    r
}

pub open spec fn absolute(path: Seq<char>) -> bool {
    path.len() > 0 && path[0] == '/'
}

pub fn is_absolute(path: &str) -> (r: bool)
    ensures
        r == absolute(path@),
{
    let chars = chars_of(path);
    chars.len() > 0 && chars[0] == '/'
}

/// The number of components of a relative path; a dot counts only at the start.
pub open spec fn relative_components(path: Seq<char>) -> nat {
    let pieces = split_on(path, '/');
    path_parts(path).len() + (if pieces[0] == "."@ {
        1nat
    } else {
        0nat
    })
}

/// A program that was called by a path, and not by a name that is looked up.
pub fn has_several_components(path: &str) -> (r: bool)
    ensures
        r == (relative_components(path@) > 1),
{
    let parts = split(path, '/');
    let ghost all = split_on(path@, '/');
    let ghost keep = |part: Seq<char>| part.len() > 0 && part != "."@;
    let mut count: usize = 0;
    let mut i: usize = 0;
    assert(all.take(0).filter(keep) == Seq::<Seq<char>>::empty());
    while i < parts.len()
        invariant
            i <= parts@.len(),
            views(parts@) == all,
            keep == (|part: Seq<char>| part.len() > 0 && part != "."@),
            count <= i,
            count == all.take(i as int).filter(keep).len(),
        decreases parts@.len() - i,
    {
        let part = &parts[i];
        assert(all[i as int] == part@);
        assert(all.take(i + 1) == all.take(i as int).push(part@));
        proof {
            all.take(i as int).lemma_filter_push(part@, keep);
        }
        if !part.as_str().is_empty() && !same(part, ".") {
            count += 1;
        }
        i += 1;
    }
    assert(all.take(all.len() as int) == all);
    assert(path_parts(path@) == all.filter(keep));
    assert(all[0] == parts@[0]@);
    count > 1 || (count == 1 && same(&parts[0], "."))
}

/// The paths under which the program may have been called, in the order in which they are
/// looked at. A name without a directory is looked up in the search path.
pub open spec fn executable_candidates(
    invoked_as: Option<Seq<char>>,
    search_path: Seq<Seq<char>>,
    current_dir: Option<Seq<char>>,
) -> Seq<Seq<char>> {
    match invoked_as {
        None => Seq::<Seq<char>>::empty(),
        Some(invoked) => if absolute(invoked) {
            seq![invoked]
        } else if relative_components(invoked) > 1 {
            match current_dir {
                Some(dir) => seq![joined_path(dir, invoked)],
                None => Seq::<Seq<char>>::empty(),
            }
        } else {
            looked_up(invoked, search_path, current_dir)
        },
    }
}

/// A name below each directory of the search path; a directory that is not absolute is taken
/// from the current directory, and left out where there is none.
pub open spec fn looked_up(
    invoked: Seq<char>,
    search_path: Seq<Seq<char>>,
    current_dir: Option<Seq<char>>,
) -> Seq<Seq<char>>
    decreases search_path.len(),
{
    if search_path.len() == 0 {
        Seq::<Seq<char>>::empty()
    } else {
        let before = looked_up(invoked, search_path.drop_last(), current_dir);
        let candidate = joined_path(search_path.last(), invoked);
        if absolute(candidate) {
            before.push(candidate)
        } else {
            match current_dir {
                Some(dir) => before.push(joined_path(dir, candidate)),
                None => before,
            }
        }
    }
}

pub fn candidate_executables(
    invoked_as: Option<&str>,
    search_path: &Vec<String>,
    current_dir: Option<&str>,
) -> (r: Vec<String>)
    ensures
        views(r@) == executable_candidates(
            match invoked_as {
                Some(invoked) => Some(invoked@),
                None => None,
            },
            views(search_path@),
            match current_dir {
                Some(dir) => Some(dir@),
                None => None,
            },
        ),
{
    let ghost cwd = match current_dir {
        Some(dir) => Some(dir@),
        None => None,
    };
    let mut r: Vec<String> = Vec::new();
    assert(views(r@) == Seq::<Seq<char>>::empty());
    if let Some(invoked) = invoked_as {
        if is_absolute(invoked) {
            r.push(invoked.to_owned());
            assert(views(r@) == seq![invoked@]);
        } else if has_several_components(invoked) {
            if let Some(dir) = current_dir {
                r.push(join_path(dir, invoked));
                assert(views(r@) == seq![joined_path(dir@, invoked@)]);
            }
        } else {
            let ghost dirs = views(search_path@);
            let mut i: usize = 0;
            while i < search_path.len()
                invariant
                    i <= search_path@.len(),
                    dirs == views(search_path@),
                    cwd == (match current_dir {
                        Some(dir) => Some(dir@),
                        None => None,
                    }),
                    views(r@) == looked_up(invoked@, dirs.take(i as int), cwd),
                decreases search_path@.len() - i,
            {
                assert(dirs.take(i + 1).drop_last() == dirs.take(i as int));
                assert(dirs.take(i + 1).last() == search_path@[i as int]@);
                let ghost before = views(r@);
                let candidate = join_path(&search_path[i], invoked);
                if is_absolute(&candidate) {
                    r.push(candidate);
                    assert(views(r@) == before.push(candidate@));
                } else if let Some(dir) = current_dir {
                    let full = join_path(dir, &candidate);
                    r.push(full);
                    assert(views(r@) == before.push(full@));
                }
                i += 1;
            }
            assert(dirs.take(dirs.len() as int) == dirs);
        }
    }
    r
}

/// The path that is written into the crontab: the first candidate that leads to the running
/// program, so that a stable link to it is kept, or else the program itself.
pub fn scheduled_executable(
    current_executable: &str,
    candidates: &Vec<String>,
    leads_to_current: &Vec<bool>,
) -> (r: String)
    requires
        candidates@.len() == leads_to_current@.len(),
    ensures
        (forall|i: int| 0 <= i < leads_to_current@.len() ==> !#[trigger] leads_to_current@[i])
            ==> r@ == current_executable@,
        forall|i: int|
            0 <= i < leads_to_current@.len() && #[trigger] leads_to_current@[i] && (forall|j: int|
                0 <= j < i ==> !#[trigger] leads_to_current@[j]) ==> r@ == candidates@[i]@,
{
    let mut i: usize = 0;
    while i < candidates.len()
        invariant
            i <= candidates@.len(),
            candidates@.len() == leads_to_current@.len(),
            forall|j: int| 0 <= j < i ==> !#[trigger] leads_to_current@[j],
        decreases candidates@.len() - i,
    {
        if leads_to_current[i] {
            assert(leads_to_current@[i as int]);
            return candidates[i].clone();
        }
        i += 1;
    }
    current_executable.to_owned()
}

/// What was found where the mark of a left out identity would be.
#[derive(Debug)]
pub enum MarkLookup {
    Found,
    NotFound,
    Failed { message: String },
}

/// An identity is renewed automatically unless it is marked.
pub fn is_identity_enabled(mark: MarkLookup) -> (r: Result<bool, Error>)
    ensures
        match mark {
            MarkLookup::Found => r == Ok::<bool, Error>(false),
            MarkLookup::NotFound => r == Ok::<bool, Error>(true),
            MarkLookup::Failed { message } => r == Err::<bool, Error>(Error::System { message }),
        },
{
    match mark {
        MarkLookup::Found => Ok(false),
        MarkLookup::NotFound => Ok(true),
        MarkLookup::Failed { message } => Err(Error::System { message }),
    }
}

/// What the mark of a left out identity says.
pub fn disabled_mark(reason: &str) -> (r: String)
    ensures
        r@ == reason@ + "\n"@,
{
    let mut r = reason.to_owned();
    r.append("\n");
    r
}

/// A crontab without an entry of ours gets one behind its last line; one that has it already and
/// no other of ours stays as it is.
pub proof fn entries_are_added_behind(lines: Seq<Seq<char>>, entry: Seq<char>, marker: Seq<char>)
    requires
        forall|i: int| 0 <= i < lines.len() ==> !managed(#[trigger] lines[i], marker),
    ensures
        kept(lines, entry, marker) == (lines, false),
        tidied(lines, entry, marker) == lines.push(entry),
        managed(entry, marker) ==> tidied(lines.push(entry), entry, marker) == lines.push(entry),
    decreases lines.len(),
{
    if lines.len() > 0 {
        let front = lines.drop_last();
        assert(forall|i: int| 0 <= i < front.len() ==> front[i] == lines[i]);
        entries_are_added_behind(front, entry, marker);
        assert(!managed(lines[lines.len() - 1], marker));
        assert(front.push(lines.last()) =~= lines);
    } else {
        assert(lines =~= Seq::<Seq<char>>::empty());
    }
    assert(lines.push(entry).drop_last() =~= lines);
}

/// The entry runs every night at three, runs the renewal of all identities, and ends with the
/// marker of its scope.
pub proof fn entries_renew_everything_nightly(executable: Seq<char>, scope: HomeScope)
    ensures
        ({
            let entry = renewal_entry(executable, scope);
            let marker = match scope {
                HomeScope::Global => "# genmeta-auto-renew:global"@,
                HomeScope::User => "# genmeta-auto-renew:user"@,
            };
            &&& crate::text::starts_with(entry, "0 3 * * * "@ + quoted(executable))
            &&& ends_with(entry, " 'renew' '--all' >/dev/null 2>&1 "@ + marker)
        }),
        file_name(executable) == Some("genmeta-identity"@) ==> renewal_command(
            executable,
            HomeScope::User,
        ) == quoted(executable) + " 'renew' '--all'"@,
        file_name(executable) != Some("genmeta-identity"@) ==> renewal_command(
            executable,
            HomeScope::User,
        ) == quoted(executable) + " 'identity' 'renew' '--all'"@,
        file_name(executable) == Some("genmeta-identity"@) ==> renewal_command(
            executable,
            HomeScope::Global,
        ) == quoted(executable) + " '--global' 'renew' '--all'"@,
        file_name(executable) != Some("genmeta-identity"@) ==> renewal_command(
            executable,
            HomeScope::Global,
        ) == quoted(executable) + " 'identity' '--global' 'renew' '--all'"@,
{
    reveal_strlit("");
    reveal_strlit("0 3 * * * ");
    reveal_strlit(" 'identity'");
    reveal_strlit(" '--global'");
    reveal_strlit(" 'renew' '--all'");
    reveal_strlit(" >/dev/null 2>&1 ");
    reveal_strlit(" 'renew' '--all' >/dev/null 2>&1 ");
    reveal_strlit(" 'identity' 'renew' '--all'");
    reveal_strlit(" '--global' 'renew' '--all'");
    reveal_strlit(" 'identity' '--global' 'renew' '--all'");
    assert(" 'renew' '--all'"@ + " >/dev/null 2>&1 "@ =~= " 'renew' '--all' >/dev/null 2>&1 "@);
    assert(" 'identity'"@ + " 'renew' '--all'"@ =~= " 'identity' 'renew' '--all'"@);
    assert(" '--global'"@ + " 'renew' '--all'"@ =~= " '--global' 'renew' '--all'"@);
    assert(" 'identity'"@ + " '--global'"@ + " 'renew' '--all'"@
        =~= " 'identity' '--global' 'renew' '--all'"@);
    let word = quoted(executable);
    assert(word + ""@ =~= word);
    assert(word + " 'identity'"@ + ""@ =~= word + " 'identity'"@);
    assert(renewal_command(executable, HomeScope::User) =~= word + (if file_name(executable)
        == Some("genmeta-identity"@) {
        " 'renew' '--all'"@
    } else {
        " 'identity' 'renew' '--all'"@
    }));
    assert(renewal_command(executable, HomeScope::Global) =~= word + (if file_name(executable)
        == Some("genmeta-identity"@) {
        " '--global' 'renew' '--all'"@
    } else {
        " 'identity' '--global' 'renew' '--all'"@
    }));
    let entry = renewal_entry(executable, scope);
    let front = "0 3 * * * "@ + word;
    assert(entry.take(front.len() as int) =~= front);
    let back = " 'renew' '--all' >/dev/null 2>&1 "@ + marker_text(scope);
    assert(entry.skip(entry.len() - back.len()) =~= back);
}

/// A bare name is looked for in every directory of the search path, in order.
pub proof fn names_are_looked_up_in_order(
    invoked: Seq<char>,
    search_path: Seq<Seq<char>>,
    current_dir: Option<Seq<char>>,
)
    requires
        !absolute(invoked),
        forall|i: int|
            0 <= i < search_path.len() ==> absolute(#[trigger] search_path[i])
                && search_path[i].last() != '/',
    ensures
        looked_up(invoked, search_path, current_dir).len() == search_path.len(),
        forall|i: int|
            0 <= i < search_path.len() ==> #[trigger] looked_up(
                invoked,
                search_path,
                current_dir,
            )[i] == search_path[i] + "/"@ + invoked,
    decreases search_path.len(),
{
    if search_path.len() > 0 {
        let front = search_path.drop_last();
        assert(forall|i: int| 0 <= i < front.len() ==> front[i] == search_path[i]);
        names_are_looked_up_in_order(invoked, front, current_dir);
        let last = search_path[search_path.len() - 1];
        assert(absolute(last) && last.last() != '/');
        assert(joined_path(last, invoked)[0] == last[0]);
        let all = looked_up(invoked, search_path, current_dir);
        assert forall|i: int| 0 <= i < search_path.len() implies #[trigger] all[i] == search_path[i]
            + "/"@ + invoked by {
            if i < front.len() {
                assert(looked_up(invoked, front, current_dir)[i] == front[i] + "/"@ + invoked);
            }
        }
    }
}

/// What was invoked by an absolute path is that file, by a path of several parts the file below
/// the current directory, and nothing else.
pub proof fn invoked_paths_are_taken(
    invoked: Seq<char>,
    search_path: Seq<Seq<char>>,
    dir: Seq<char>,
)
    ensures
        executable_candidates(None, search_path, Some(dir)).len() == 0,
        absolute(invoked) ==> executable_candidates(Some(invoked), search_path, Some(dir))
            == seq![invoked],
        !absolute(invoked) && relative_components(invoked) > 1 && dir.len() > 0 && dir.last() != '/'
            ==> executable_candidates(Some(invoked), search_path, Some(dir)) == seq![
            dir + "/"@ + invoked,
        ],
        !absolute(invoked) && relative_components(invoked) > 1 ==> executable_candidates(
            Some(invoked),
            search_path,
            None,
        ).len() == 0,
        !absolute(invoked) && relative_components(invoked) <= 1 ==> executable_candidates(
            Some(invoked),
            search_path,
            Some(dir),
        ) == looked_up(invoked, search_path, Some(dir)),
{
}

} // verus!
