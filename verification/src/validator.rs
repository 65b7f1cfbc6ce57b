//! What the prompts accept: name labels, identity kinds and email addresses.
use vstd::prelude::*;

use crate::text::{
    ascii_digit, ascii_lower, chars_of, has_char, lower, lowercase, lowercase_is_idempotent,
    lowercase_keeps_size, same, size_at_most, split, split_of_lowercase, split_on,
    to_lowercase, trim, trim_of_lowercase, trimmed, utf8_size, views,
};

verus! {

/// A character that a label of a domain name may hold.
pub open spec fn label_char(c: char) -> bool {
    ascii_lower(c) || ascii_digit(c) || c == '-'
}

pub open spec fn all_label_chars(s: Seq<char>) -> bool {
    forall|i: int| 0 <= i < s.len() ==> label_char(#[trigger] s[i])
}

fn has_only_label_chars(chars: &Vec<char>) -> (r: bool)
    ensures
        r == all_label_chars(chars@),
{
    let mut i: usize = 0;
    while i < chars.len()
        invariant
            i <= chars@.len(),
            forall|j: int| 0 <= j < i ==> label_char(#[trigger] chars@[j]),
        decreases chars@.len() - i,
    {
        let c = chars[i];
        if !(('a' <= c && c <= 'z') || ('0' <= c && c <= '9') || c == '-') {
            assert(!label_char(chars@[i as int]));
            return false;
        }
        i += 1;
    }
    true
}

/// The first thing wrong with a label, in the words shown to the user.
pub open spec fn label_problem(value: Seq<char>) -> Option<Seq<char>> {
    let label = trimmed(value);
    if label.len() == 0 {
        Some("label cannot be empty"@)
    } else if label.contains('.') {
        Some("label must not contain dots"@)
    } else if label[0] == '-' || label.last() == '-' {
        Some("label must not start or end with '-'"@)
    } else if !all_label_chars(label) {
        Some("label must contain only lowercase ascii letters, digits, or '-'"@)
    } else {
        None
    }
}

/// Checks one label of a DHTTP name; white space around it does not count.
pub fn validate_dhttp_label(value: &str) -> (r: Result<(), String>)
    ensures
        match r {
            Ok(()) => label_problem(value@) is None,
            Err(message) => label_problem(value@) == Some(message@),
        },
{
    let label = trim(value);
    let chars = chars_of(label);
    if chars.len() == 0 {
        return Err("label cannot be empty".to_owned());
    }
    if has_char(label, '.') {
        return Err("label must not contain dots".to_owned());
    }
    if chars[0] == '-' || chars[chars.len() - 1] == '-' {
        return Err("label must not start or end with '-'".to_owned());
    }
    if !has_only_label_chars(&chars) {
        return Err(
            "label must contain only lowercase ascii letters, digits, or '-'".to_owned(),
        );
    }
    Ok(())
}

/// Checks the wire name of an identity kind.
pub fn validate_kind(value: &str) -> (r: Result<(), String>)
    ensures
        r is Ok <==> (value@ == "primary"@ || value@ == "secondary"@),
        r matches Err(message) ==> message@ == "kind must be primary or secondary"@,
{
    if same(value, "primary") || same(value, "secondary") {
        Ok(())
    } else {
        Err("kind must be primary or secondary".to_owned())
    }
}

/// The rule of the kind prompt.
#[derive(Debug, Clone, Copy)]
pub struct KindValidator;

impl KindValidator {
    /// Accepts exactly what [`validate_kind`] accepts, with the same message otherwise.
    pub fn validate(&self, input: &str) -> (r: Result<(), String>)
        ensures
            r is Ok <==> (input@ == "primary"@ || input@ == "secondary"@),
            r matches Err(message) ==> message@ == "kind must be primary or secondary"@,
    {
        validate_kind(input)
    }
}

/// The rule of the email prompt.
#[derive(Debug, Clone, Copy)]
pub struct EmailValidator;

/// A label of the domain of an email address.
pub open spec fn email_label(label: Seq<char>) -> bool {
    1 <= label.len() <= 63 && label[0] != '-' && label.last() != '-' && all_label_chars(label)
}

/// A domain with at least two labels, all of them well formed.
pub open spec fn email_domain(domain: Seq<char>) -> bool {
    let labels = split_on(domain, '.');
    &&& utf8_size(domain) <= 253
    &&& labels.len() >= 2
    &&& forall|i: int| 0 <= i < labels.len() ==> email_label(#[trigger] labels[i])
}

/// The part of an email address before the at sign.
pub open spec fn email_local(local: Seq<char>) -> bool {
    &&& local.len() > 0
    &&& utf8_size(local) <= 64
    &&& local[0] != '.'
    &&& local.last() != '.'
    &&& forall|i: int| 0 <= i < local.len() - 1 ==> !(#[trigger] local[i] == '.' && local[i + 1] == '.')
}

/// An email address: white space around it does not count, it has exactly one at sign, and
/// its domain is read without regard to capitals.
pub open spec fn email_address(input: Seq<char>) -> bool {
    let address = trimmed(input);
    let parts = split_on(address, '@');
    &&& utf8_size(address) <= 254
    &&& parts.len() == 2
    &&& email_local(parts[0])
    &&& email_domain(lowercase(parts[1]))
}

/// Whether the certificate server would take this as an email address.
pub fn is_valid_email(input: &str) -> (r: bool)
    ensures
        r == email_address(input@),
{
    let address = trim(input);
    if !size_at_most(address, 254) {
        return false;
    }
    let parts = split(address, '@');
    let ghost all = split_on(address@, '@');
    assert(views(parts@).len() == parts@.len());
    if parts.len() != 2 {
        return false;
    }
    assert(all[0] == parts@[0]@ && all[1] == parts@[1]@);
    if !is_valid_email_local(&parts[0]) {
        return false;
    }
    is_valid_email_domain(&to_lowercase(&parts[1]))
}

fn is_valid_email_local(local: &str) -> (r: bool)
    ensures
        r == email_local(local@),
{
    let chars = chars_of(local);
    if chars.len() == 0 || !size_at_most(local, 64) {
        return false;
    }
    if chars[0] == '.' || chars[chars.len() - 1] == '.' {
        return false;
    }
    let mut i: usize = 0;
    while i < chars.len() - 1
        invariant
            i <= chars@.len() - 1,
            chars@ == local@,
            chars@.len() > 0,
            forall|j: int| 0 <= j < i ==> !(#[trigger] local@[j] == '.' && local@[j + 1] == '.'),
        decreases chars@.len() - i,
    {
        if chars[i] == '.' && chars[i + 1] == '.' {
            assert(local@[i as int] == '.' && local@[i + 1] == '.');
            return false;
        }
        i += 1;
    }
    true
}

/// Whether a lower case text is the domain of an email address.
pub fn is_valid_email_domain(domain: &str) -> (r: bool)
    ensures
        r == email_domain(domain@),
{
    if !size_at_most(domain, 253) {
        return false;
    }
    let labels = split(domain, '.');
    let ghost all = split_on(domain@, '.');
    assert(views(labels@).len() == labels@.len());
    let mut i: usize = 0;
    while i < labels.len()
        invariant
            i <= labels@.len(),
            views(labels@) == all,
            all == split_on(domain@, '.'),
            forall|j: int| 0 <= j < i ==> email_label(#[trigger] all[j]),
        decreases labels@.len() - i,
    {
        let chars = chars_of(&labels[i]);
        assert(all[i as int] == labels@[i as int]@);
        if chars.len() == 0 || chars.len() > 63 || chars[0] == '-' || chars[chars.len() - 1] == '-'
            || !has_only_label_chars(&chars) {
            assert(!email_label(all[i as int]));
            return false;
        }
        i += 1;
    }
    labels.len() >= 2
}

impl EmailValidator {
    /// Accepts exactly the email addresses.
    pub fn validate(&self, input: &str) -> (r: Result<(), String>)
        ensures
            r is Ok <==> email_address(input@),
            r matches Err(message) ==> message@
                == "Invalid email address. Please enter a valid email address."@,
    {
        if is_valid_email(input) {
            Ok(())
        } else {
            Err("Invalid email address. Please enter a valid email address.".to_owned())
        }
    }
}

/// White space around an address makes no difference.
pub proof fn email_ignores_outer_white_space(input: Seq<char>)
    ensures
        email_address(trimmed(input)) == email_address(input),
{
    crate::text::trim_is_idempotent(input);
}

/// Capitals in an address make no difference.
pub proof fn email_ignores_letter_case(input: Seq<char>)
    ensures
        email_address(lowercase(input)) == email_address(input),
{
    let address = trimmed(input);
    let parts = split_on(address, '@');
    trim_of_lowercase(input);
    lowercase_keeps_size(address);
    split_of_lowercase(address, '@');
    if parts.len() == 2 {
        let local = parts[0];
        let small = lowercase(local);
        assert(split_on(lowercase(address), '@')[0] == small);
        assert(split_on(lowercase(address), '@')[1] == lowercase(parts[1]));
        lowercase_is_idempotent(parts[1]);
        lowercase_keeps_size(local);
        assert forall|i: int| 0 <= i < local.len() implies (#[trigger] small[i] == '.') == (local[i]
            == '.') by {
            assert(small[i] == lower(local[i]));
        }
        if email_local(local) {
            assert forall|i: int| 0 <= i < small.len() - 1 implies !(#[trigger] small[i] == '.'
                && small[i + 1] == '.') by {
                assert(!(local[i] == '.' && local[i + 1] == '.'));
            }
        }
        if email_local(small) {
            assert forall|i: int| 0 <= i < local.len() - 1 implies !(#[trigger] local[i] == '.'
                && local[i + 1] == '.') by {
                assert(!(small[i] == '.' && small[i + 1] == '.'));
            }
        }
    }
}

/// A label is one or more small letters, digits and hyphens, no hyphen at either end.
pub proof fn labels_are_small_letters_and_digits(value: Seq<char>)
    ensures
        label_problem(value) is None <==> {
            let label = trimmed(value);
            &&& label.len() > 0
            &&& label[0] != '-' && label.last() != '-'
            &&& forall|i: int|
                0 <= i < label.len() ==> ('a' <= #[trigger] label[i] <= 'z' || '0' <= label[i]
                    <= '9' || label[i] == '-')
        },
        trimmed(value).len() == 0 ==> label_problem(value) == Some("label cannot be empty"@),
        trimmed(value).len() > 0 && trimmed(value).contains('.') ==> label_problem(value) == Some(
            "label must not contain dots"@,
        ),
{
    let label = trimmed(value);
    if label.contains('.') {
        let k = choose|k: int| 0 <= k < label.len() && label[k] == '.';
        assert(!label_char(label[k]));
    }
    if all_label_chars(label) {
        assert forall|i: int| 0 <= i < label.len() implies ('a' <= #[trigger] label[i] <= 'z' || '0'
            <= label[i] <= '9' || label[i] == '-') by {
            assert(label_char(label[i]));
        }
    }
}

/// An address has one at sign, something before it and a domain of at least two labels behind
/// it.
pub proof fn addresses_have_a_domain(input: Seq<char>)
    requires
        email_address(input),
    ensures
        ({
            let parts = split_on(trimmed(input), '@');
            &&& parts.len() == 2
            &&& 0 < parts[0].len() && utf8_size(parts[0]) <= 64
            &&& parts[0][0] != '.' && parts[0].last() != '.'
            &&& split_on(lowercase(parts[1]), '.').len() >= 2
            &&& utf8_size(lowercase(parts[1])) <= 253
            &&& utf8_size(trimmed(input)) <= 254
            &&& forall|i: int|
                #![trigger split_on(lowercase(parts[1]), '.')[i]]
                0 <= i < split_on(lowercase(parts[1]), '.').len() ==> 1 <= split_on(
                    lowercase(parts[1]),
                    '.',
                )[i].len() <= 63 && split_on(lowercase(parts[1]), '.')[i][0] != '-' && split_on(
                    lowercase(parts[1]),
                    '.',
                )[i].last() != '-'
        }),
{
    let labels = split_on(lowercase(split_on(trimmed(input), '@')[1]), '.');
    assert forall|i: int| 0 <= i < labels.len() implies 1 <= (#[trigger] labels[i]).len() <= 63
        && labels[i][0] != '-' && labels[i].last() != '-' by {
        assert(email_label(labels[i]));
    }
}

/// What an address is, written out.
pub proof fn addresses_are_a_name_and_a_domain(input: Seq<char>, local: Seq<char>, domain: Seq<char>)
    requires
        split_on(trimmed(input), '@') == seq![local, domain],
    ensures
        email_address(input) <==> {
            let labels = split_on(lowercase(domain), '.');
            &&& utf8_size(trimmed(input)) < 255
            &&& 1 <= local.len() && utf8_size(local) < 65
            &&& local[0] != '.' && local[local.len() - 1] != '.'
            &&& forall|i: int|
                0 <= i < local.len() - 1 ==> !(#[trigger] local[i] == '.' && local[i + 1] == '.')
            &&& utf8_size(lowercase(domain)) < 254
            &&& labels.len() > 1
            &&& forall|i: int|
                0 <= i < labels.len() ==> {
                    &&& 0 < (#[trigger] labels[i]).len() < 64
                    &&& labels[i][0] != '-' && labels[i].last() != '-'
                    &&& all_label_chars(labels[i])
                }
        },
{
    let labels = split_on(lowercase(domain), '.');
    assert(forall|i: int|
        0 <= i < labels.len() ==> (email_label(#[trigger] labels[i]) <==> (0 < labels[i].len() < 64
            && labels[i][0] != '-' && labels[i].last() != '-' && all_label_chars(labels[i]))));
}

/// The characters of a label.
pub proof fn label_characters_are_few(c: char)
    ensures
        label_char(c) <==> 'a' <= c <= 'z' || '0' <= c <= '9' || c == '-',
{
}

} // verus!
