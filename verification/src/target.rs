//! Identity names and what they stand for: a root identity `handle.name` or a sub-identity
//! `label.handle.name`.
use vstd::prelude::*;

use crate::local::{LocalIdentityStatus, LocalIdentitySummary};
use crate::text::{ends_with, same, split, split_on, views};

verus! {

/// The outside error of a text that is no DHTTP name.
#[verifier::external_type_specification]
#[verifier::external_body]
pub struct ExInvalidDhttpName(dhttp_identity::name::InvalidDhttpName);

/// The complete DHTTP name that a text stands for, `None` where it stands for none.
pub uninterp spec fn dhttp_full_name(text: Seq<char>) -> Option<Seq<char>>;

/// The part of a complete name before the suffix that all of them share.
pub open spec fn partial_of(full: Seq<char>) -> Seq<char> {
    full.take(full.len() - 10)
}

/// Parses with `DhttpName::try_from` and gives back `DhttpName::as_full`. The text may carry
/// the suffix or leave it out. The result is a function of the text, and the name
/// `dhttp_full_name` stands for it. A complete name ends in the suffix, stands for itself, and
/// is also found under what precedes the suffix, unless that ends in the suffix again.
#[verifier::external_body]
pub(crate) fn complete_name(text: &str) -> (r: Result<
    String,
    dhttp_identity::name::InvalidDhttpName,
>)
    ensures
        match r {
            Ok(full) => dhttp_full_name(text@) == Some(full@),
            Err(_) => dhttp_full_name(text@) is None,
        },
        r matches Ok(full) ==> ends_with(full@, ".dhttp.net"@),
        r matches Ok(full) ==> dhttp_full_name(full@) == Some(full@),
        r matches Ok(full) ==> (!ends_with(partial_of(full@), ".dhttp.net"@) ==> dhttp_full_name(
            partial_of(full@),
        ) == Some(full@)),
{
    dhttp_identity::name::DhttpName::try_from(text).map(|name| name.as_full().to_owned())
}

/// A DHTTP name, kept complete.
#[derive(Debug, PartialEq, Eq)]
pub struct IdentityName {
    pub full: String,
}

impl IdentityName {
    /// A name is complete, and it stands for itself.
    pub open spec fn wf(self) -> bool {
        ends_with(self.full@, ".dhttp.net"@) && dhttp_full_name(self.full@) == Some(self.full@)
    }

    /// The name without the suffix.
    pub open spec fn partial(self) -> Seq<char> {
        partial_of(self.full@)
    }

    pub fn parse(text: &str) -> (r: Option<IdentityName>)
        ensures
            match r {
                Some(name) => dhttp_full_name(text@) == Some(name.full@) && name.wf(),
                None => dhttp_full_name(text@) is None,
            },
    {
        match complete_name(text) {
            Ok(full) => Some(IdentityName { full }),
            Err(_) => None,
        }
    }

    pub fn as_full(&self) -> (r: &str)
        ensures
            r@ == self.full@,
    {
        self.full.as_str()
    }

    pub fn as_partial(&self) -> (r: &str)
        requires
            self.full@.len() >= 10,
        ensures
            r@ == self.partial(),
    {
        let full = self.full.as_str();
        let len: usize = full.unicode_len();
        assert(full@.take(len - 10) == full@.subrange(0, len - 10));
        full.substring_char(0, len - 10)
    }

    pub fn copy(&self) -> (r: IdentityName)
        ensures
            r == *self,
    {
        IdentityName { full: self.full.clone() }
    }
}

/// A well formed name is at least as long as the suffix.
pub proof fn wf_name_len(name: IdentityName)
    requires
        name.wf(),
    ensures
        name.full@.len() >= 10,
{
    reveal_strlit(".dhttp.net");
}

#[derive(Debug, Clone, Copy, PartialEq, Eq, Structural)]
pub enum IdentityLevel {
    Identity,
    SubIdentity,
}

/// Why a text is not the name of an identity.
#[derive(Debug, PartialEq, Eq)]
pub enum ParseIdentityTargetError {
    Name,
    Parent { identity: String },
    UnsupportedDepth { identity: String },
}

impl ParseIdentityTargetError {
    pub open spec fn words(self) -> Seq<char> {
        match self {
            ParseIdentityTargetError::UnsupportedDepth {
                ..
            } => "This name must match [handle.]your.name."@,
            _ => "This name contains unsupported special characters."@,
        }
    }

    /// What the prompt answers to such a text.
    pub fn prompt_message(&self) -> (r: &'static str)
        ensures
            r@ == self.words(),
    {
        match self {
            ParseIdentityTargetError::Name => "This name contains unsupported special characters.",
            ParseIdentityTargetError::Parent {
                ..
            } => "This name contains unsupported special characters.",
            ParseIdentityTargetError::UnsupportedDepth {
                ..
            } => "This name must match [handle.]your.name.",
        }
    }

    /// What an argument with such a text is answered; the same as at the prompt.
    pub fn to_text(&self) -> (r: String)
        ensures
            r@ == self.words(),
    {
        self.prompt_message().to_owned()
    }
}

/// The identity that a command works on.
#[derive(Debug, PartialEq, Eq)]
pub struct IdentityTarget {
    pub name: IdentityName,
    pub level: IdentityLevel,
    pub parent: Option<IdentityName>,
}

/// The labels of a complete name before the suffix.
pub open spec fn labels_of(full: Seq<char>) -> Seq<Seq<char>> {
    split_on(partial_of(full), '.')
}

/// The name of the parent of a sub-identity, without the suffix.
pub open spec fn parent_text(full: Seq<char>) -> Seq<char> {
    labels_of(full)[1] + "."@ + labels_of(full)[2]
}

/// A text that names a root identity, or a sub-identity whose parent has a name.
pub open spec fn names_target(identity: Seq<char>) -> bool {
    dhttp_full_name(identity) matches Some(full) && (labels_of(full).len() == 2 || (labels_of(
        full,
    ).len() == 3 && dhttp_full_name(parent_text(full)) is Some))
}

/// `r` is what the text names, or why it names nothing.
pub open spec fn is_parsed(
    identity: Seq<char>,
    r: Result<IdentityTarget, ParseIdentityTargetError>,
) -> bool {
    let full = dhttp_full_name(identity)->0;
    match r {
        Ok(target) => names_target(identity) && target.wf() && target.name.full@ == full,
        Err(ParseIdentityTargetError::Name) => dhttp_full_name(identity) is None,
        Err(ParseIdentityTargetError::Parent { identity: partial }) => dhttp_full_name(identity)
            is Some && labels_of(full).len() == 3 && dhttp_full_name(parent_text(full)) is None
            && partial@ == partial_of(full),
        Err(ParseIdentityTargetError::UnsupportedDepth { identity: partial }) => dhttp_full_name(
            identity,
        ) is Some && labels_of(full).len() != 2 && labels_of(full).len() != 3 && partial@
            == partial_of(full),
    }
}

impl IdentityTarget {
    /// A root identity has two labels and no parent. A sub-identity has three, and its parent
    /// is the name made of the last two.
    pub open spec fn wf(self) -> bool {
        let labels = labels_of(self.name.full@);
        &&& self.name.wf()
        &&& match self.level {
            IdentityLevel::Identity => labels.len() == 2 && self.parent is None,
            IdentityLevel::SubIdentity => labels.len() == 3 && (self.parent matches Some(parent)
                && parent.wf() && dhttp_full_name(parent_text(self.name.full@)) == Some(
                parent.full@,
            )),
        }
    }

    /// The level of a name, and for a sub-identity the text that names its parent.
    pub fn classify(name: &IdentityName) -> (r: Result<
        (IdentityLevel, Option<String>),
        ParseIdentityTargetError,
    >)
        requires
            name.full@.len() >= 10,
        ensures
            match r {
                Ok((IdentityLevel::Identity, parent)) => labels_of(name.full@).len() == 2 && parent
                    is None,
                Ok((IdentityLevel::SubIdentity, parent)) => labels_of(name.full@).len() == 3
                    && parent is Some && parent->0@ == parent_text(name.full@),
                Err(ParseIdentityTargetError::UnsupportedDepth { identity }) => labels_of(
                    name.full@,
                ).len() != 2 && labels_of(name.full@).len() != 3 && identity@ == name.partial(),
                Err(_) => false,
            },
    {
        let partial = name.as_partial();
        let labels = split(partial, '.');
        assert(views(labels@).len() == labels@.len());
        if labels.len() == 2 {
            Ok((IdentityLevel::Identity, None))
        } else if labels.len() == 3 {
            let mut parent = labels[1].clone();
            parent.append(".");
            parent.append(&labels[2]);
            assert(views(labels@)[1] == labels@[1]@);
            assert(views(labels@)[2] == labels@[2]@);
            Ok((IdentityLevel::SubIdentity, Some(parent)))
        } else {
            Err(ParseIdentityTargetError::UnsupportedDepth { identity: partial.to_owned() })
        }
    }

    pub fn parse(identity: &str) -> (r: Result<Self, ParseIdentityTargetError>)
        ensures
            is_parsed(identity@, r),
    {
        match IdentityName::parse(identity) {
            None => Err(ParseIdentityTargetError::Name),
            Some(name) => {
                proof {
                    wf_name_len(name);
                }
                match IdentityTarget::classify(&name) {
                    Err(error) => Err(error),
                    Ok((IdentityLevel::Identity, _)) => Ok(
                        IdentityTarget { name, level: IdentityLevel::Identity, parent: None },
                    ),
                    Ok((IdentityLevel::SubIdentity, parent)) => match parent {
                        None => Err(ParseIdentityTargetError::Name),
                        Some(text) => match IdentityName::parse(&text) {
                            None => Err(
                                ParseIdentityTargetError::Parent {
                                    identity: name.as_partial().to_owned(),
                                },
                            ),
                            Some(parent) => Ok(
                                IdentityTarget {
                                    name,
                                    level: IdentityLevel::SubIdentity,
                                    parent: Some(parent),
                                },
                            ),
                        },
                    },
                }
            },
        }
    }

    pub fn level(&self) -> (r: IdentityLevel)
        ensures
            r == self.level,
    {
        self.level
    }

    /// The name without the suffix.
    pub open spec fn short(self) -> Seq<char> {
        self.name.partial()
    }

    pub fn short_name(&self) -> (r: &str)
        requires
            self.name.full@.len() >= 10,
        ensures
            r@ == self.short(),
    {
        self.name.as_partial()
    }

    pub fn full_name(&self) -> (r: &str)
        ensures
            r@ == self.name.full@,
    {
        self.name.as_full()
    }

    pub fn parent(&self) -> (r: Option<&IdentityName>)
        ensures
            r is Some == self.parent is Some,
            r matches Some(parent) ==> self.parent == Some(*parent),
    {
        match &self.parent {
            Some(parent) => Some(parent),
            None => None,
        }
    }

    /// The first label of a sub-identity.
    pub fn sub_identity_label(&self) -> (r: Option<String>)
        requires
            self.name.full@.len() >= 10,
        ensures
            match r {
                Some(label) => self.level == IdentityLevel::SubIdentity && label@ == labels_of(
                    self.name.full@,
                )[0],
                None => self.level == IdentityLevel::Identity,
            },
    {
        match self.level {
            IdentityLevel::Identity => None,
            IdentityLevel::SubIdentity => {
                let labels = split(self.short_name(), '.');
                assert(views(labels@)[0] == labels@[0]@);
                Some(labels[0].clone())
            },
        }
    }

    pub fn copy(&self) -> (r: IdentityTarget)
        ensures
            r == *self,
    {
        IdentityTarget {
            name: self.name.copy(),
            level: self.level,
            parent: match &self.parent {
                Some(parent) => Some(parent.copy()),
                None => None,
            },
        }
    }
}

/// A target is found again under its complete name: a text that names the same complete name
/// as the target names the target's level and parent too.
pub proof fn target_is_determined_by_its_name(a: IdentityTarget, b: IdentityTarget)
    requires
        a.wf(),
        b.wf(),
        a.name.full@ == b.name.full@,
    ensures
        a.level == b.level,
        a.parent is Some == b.parent is Some,
        a.parent is Some ==> a.parent->0.full@ == b.parent->0.full@,
{
}

/// What the certificate server knows about a target.
#[derive(Debug, Clone, Copy, PartialEq, Eq, Structural)]
pub enum RemoteTargetState {
    Unknown,
    Exists,
    Missing,
    Unavailable,
}

/// The target of an application for a certificate, with what is known about it.
#[derive(Debug)]
pub struct ResolvedApplyTarget {
    pub target: IdentityTarget,
    pub remote: RemoteTargetState,
    pub local: Option<LocalIdentitySummary>,
}

#[derive(Debug, Clone, Copy, PartialEq, Eq, Structural)]
pub enum ReplacementRequirement {
    NotNeeded,
    Confirm,
}

/// An availability that this library does not know.
#[derive(Debug, PartialEq, Eq)]
pub struct UnsupportedRemoteTargetState {
    pub availability: String,
}

impl UnsupportedRemoteTargetState {
    pub fn to_text(&self) -> (r: String)
        ensures
            r@ == "cert server returned unsupported domain availability: "@ + self.availability@,
    {
        let mut r = "cert server returned unsupported domain availability: ".to_owned();
        r.append(&self.availability);
        r
    }
}

pub open spec fn availability_state(availability: Seq<char>) -> Option<RemoteTargetState> {
    if availability == "conflict"@ {
        Some(RemoteTargetState::Exists)
    } else if availability == "available"@ {
        Some(RemoteTargetState::Missing)
    } else if availability == "reserved"@ || availability == "unavailable"@ {
        Some(RemoteTargetState::Unavailable)
    } else {
        None
    }
}

/// What the availability of a name says about the target.
pub fn remote_state_from_availability(availability: &str) -> (r: Result<
    RemoteTargetState,
    UnsupportedRemoteTargetState,
>)
    ensures
        match r {
            Ok(state) => availability_state(availability@) == Some(state),
            Err(error) => availability_state(availability@) is None && error.availability@
                == availability@,
        },
{
    if same(availability, "conflict") {
        Ok(RemoteTargetState::Exists)
    } else if same(availability, "available") {
        Ok(RemoteTargetState::Missing)
    } else if same(availability, "reserved") || same(availability, "unavailable") {
        Ok(RemoteTargetState::Unavailable)
    } else {
        Err(UnsupportedRemoteTargetState { availability: availability.to_owned() })
    }
}

/// Certificates that can still be used, or could be until they expired, are only replaced
/// after a confirmation.
pub fn replacement_requirement(summary: Option<&LocalIdentitySummary>) -> (r:
    ReplacementRequirement)
    ensures
        r == ReplacementRequirement::Confirm <==> summary is Some && (summary->0.status is Ready
            || summary->0.status is Expired),
{
    match summary {
        None => ReplacementRequirement::NotNeeded,
        Some(summary) => match &summary.status {
            LocalIdentityStatus::Ready { .. } => ReplacementRequirement::Confirm,
            LocalIdentityStatus::Expired { .. } => ReplacementRequirement::Confirm,
            LocalIdentityStatus::Invalid { .. } => ReplacementRequirement::NotNeeded,
            LocalIdentityStatus::Incomplete { .. } => ReplacementRequirement::NotNeeded,
        },
    }
}

/// What the server says of a name: taken, free, or kept from the user.
pub proof fn availability_goes_by_its_word(word: Seq<char>)
    ensures
        availability_state(word) == Some(RemoteTargetState::Exists) <==> word == "conflict"@,
        availability_state(word) == Some(RemoteTargetState::Missing) <==> word == "available"@,
        availability_state(word) == Some(RemoteTargetState::Unavailable) <==> word == "reserved"@
            || word == "unavailable"@,
        availability_state(word) != Some(RemoteTargetState::Unknown),
        availability_state(word) is None <==> word != "conflict"@ && word != "available"@ && word
            != "reserved"@ && word != "unavailable"@,
{
    reveal_strlit("conflict");
    reveal_strlit("available");
    reveal_strlit("reserved");
    reveal_strlit("unavailable");
    assert("conflict"@.len() == 8);
    assert("available"@.len() == 9);
    assert("reserved"@.len() == 8);
    assert("unavailable"@.len() == 11);
    assert("conflict"@[0] != "reserved"@[0]);
}

/// A name is its short form and the suffix behind it.
pub proof fn names_end_with_the_suffix(name: IdentityName, short: Seq<char>)
    ensures
        name.wf() ==> name.full@ == name.partial() + ".dhttp.net"@,
        partial_of(short + ".dhttp.net"@) == short,
{
    reveal_strlit(".dhttp.net");
    assert(".dhttp.net"@.len() == 10);
    if name.wf() {
        let full = name.full@;
        assert(full =~= full.take(full.len() - 10) + full.skip(full.len() - 10));
    }
    assert((short + ".dhttp.net"@).take(short.len() as int) =~= short);
}

/// A name of two labels is a root identity, one of three labels a sub-identity of the name of
/// its last two labels; no other name is an identity.
pub proof fn levels_go_by_the_labels(
    identity: Seq<char>,
    full: Seq<char>,
    r: Result<IdentityTarget, ParseIdentityTargetError>,
)
    requires
        is_parsed(identity, r),
    ensures
        r matches Err(ParseIdentityTargetError::Name) <==> dhttp_full_name(identity) is None,
        dhttp_full_name(identity) == Some(full) ==> {
            let labels = split_on(partial_of(full), '.');
            &&& (labels.len() == 2 ==> (r matches Ok(target) && target.level
                == IdentityLevel::Identity && target.parent is None && target.name.full@ == full))
            &&& (labels.len() == 3 ==> match dhttp_full_name(labels[1] + "."@ + labels[2]) {
                Some(parent) => r matches Ok(target) && target.level == IdentityLevel::SubIdentity
                    && target.name.full@ == full && (target.parent matches Some(name)
                    && name.full@ == parent),
                None => r matches Err(ParseIdentityTargetError::Parent { .. }),
            })
            &&& (labels.len() != 2 && labels.len() != 3 ==> (
            r matches Err(ParseIdentityTargetError::UnsupportedDepth { .. })))
        },
{
}

} // verus!
