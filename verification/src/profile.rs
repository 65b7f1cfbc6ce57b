//! The checks on a profile configuration, and the report on one profile.
use vstd::prelude::*;

use crate::text::{decimal_of, decimal_u64, views};

verus! {

/// What a line of the configuration sets.
#[derive(Debug, Clone, Copy, PartialEq, Eq, Structural)]
pub enum Keyword {
    Key,
    Cert,
    /// Says which profiles the lines below are for.
    Matcher,
    Unknown,
}

/// What is done about a line.
#[derive(Debug, Clone, Copy, PartialEq, Eq, Structural)]
pub enum PairCheck {
    ParseKey,
    ParseCert,
    Accept,
    /// Reports the keyword as unknown.
    Reject,
}

/// What is done about a line: keys and certificates have to parse, matchers are accepted.
pub fn check_pair(keyword: Keyword) -> (r: PairCheck)
    ensures
        r == (match keyword {
            Keyword::Key => PairCheck::ParseKey,
            Keyword::Cert => PairCheck::ParseCert,
            Keyword::Matcher => PairCheck::Accept,
            Keyword::Unknown => PairCheck::Reject,
        }),
{
    match keyword {
        Keyword::Key => PairCheck::ParseKey,
        Keyword::Cert => PairCheck::ParseCert,
        Keyword::Matcher => PairCheck::Accept,
        Keyword::Unknown => PairCheck::Reject,
    }
}

/// The file that is checked: the one that was named, else the user's.
pub fn config_path(given: Option<String>, user: Option<String>) -> (r: Result<String, &'static str>)
    ensures
        match (given, user) {
            (Some(path), _) => r == Ok::<String, &'static str>(path),
            (None, Some(path)) => r == Ok::<String, &'static str>(path),
            (None, None) => r matches Err(message) && message@
                == "No path passed from argument, and user-wide configuration cannot be located"@,
        },
{
    match (given, user) {
        (Some(path), _) => Ok(path),
        (None, Some(path)) => Ok(path),
        (None, None) => Err(
            "No path passed from argument, and user-wide configuration cannot be located",
        ),
    }
}

/// A file and its size.
#[derive(Debug)]
pub struct ProfileFile {
    pub path: String,
    pub size: usize,
}

fn file_line(label: &str, file: &ProfileFile) -> (r: String)
    ensures
        r@ == label@ + file.path@ + "` ("@ + decimal_of(file.size as nat) + "B)"@,
{
    let mut r = label.to_owned();
    r.append(&file.path);
    r.append("` (");
    r.append(&decimal_u64(file.size as u64));
    r.append("B)");
    r
}

/// The report on one profile.
pub fn profile_report(id: &str, path: &str, key: &ProfileFile, cert: &ProfileFile) -> (r: Vec<
    String,
>)
    ensures
        views(r@) == seq![
            "Profile `"@ + id@ + "` configured in `"@ + path@ + "`:"@,
            "    Id: "@ + id@,
            "    Key at `"@ + key.path@ + "` ("@ + decimal_of(key.size as nat) + "B)"@,
            "    Cert at `"@ + cert.path@ + "` ("@ + decimal_of(cert.size as nat) + "B)"@,
        ],
{
    let mut head = "Profile `".to_owned();
    head.append(id);
    head.append("` configured in `");
    head.append(path);
    head.append("`:");
    let mut who = "    Id: ".to_owned();
    who.append(id);
    let mut lines: Vec<String> = Vec::new();
    lines.push(head);
    lines.push(who);
    lines.push(file_line("    Key at `", key));
    lines.push(file_line("    Cert at `", cert));
    assert(views(lines@) =~= seq![
        "Profile `"@ + id@ + "` configured in `"@ + path@ + "`:"@,
        "    Id: "@ + id@,
        "    Key at `"@ + key.path@ + "` ("@ + decimal_of(key.size as nat) + "B)"@,
        "    Cert at `"@ + cert.path@ + "` ("@ + decimal_of(cert.size as nat) + "B)"@,
    ]);
    lines
}

/// What is said where nothing is wrong.
pub fn looks_ok() -> (r: &'static str)
    ensures
        r@ == "Your profile configuration looks OK!"@,
{
    "Your profile configuration looks OK!"
}

} // verus!
