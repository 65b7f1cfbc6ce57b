//! The two kinds of certificates of an identity.
use vstd::prelude::*;

use crate::text::same;

verus! {

#[derive(Debug, Clone, Copy, PartialEq, Eq, Structural)]
pub enum IdentityKind {
    Primary,
    Secondary,
}

/// A text that is not the wire name of a kind.
#[derive(Debug, PartialEq, Eq)]
pub enum ParseIdentityKindError {
    Invalid { value: String },
}

impl ParseIdentityKindError {
    pub fn to_text(&self) -> (r: String)
        ensures
            r@ == (match *self {
                ParseIdentityKindError::Invalid { value } => "identity kind "@ + value@
                    + " is invalid; use primary or secondary"@,
            }),
    {
        match self {
            ParseIdentityKindError::Invalid { value } => {
                let mut r = "identity kind ".to_owned();
                r.append(value);
                r.append(" is invalid; use primary or secondary");
                r
            },
        }
    }
}

/// The kind with a wire name.
pub open spec fn kind_named(value: Seq<char>) -> Option<IdentityKind> {
    if value == "primary"@ {
        Some(IdentityKind::Primary)
    } else if value == "secondary"@ {
        Some(IdentityKind::Secondary)
    } else {
        None
    }
}

impl IdentityKind {
    /// The name of the kind on the wire.
    pub open spec fn wire_name(self) -> Seq<char> {
        match self {
            IdentityKind::Primary => "primary"@,
            IdentityKind::Secondary => "secondary"@,
        }
    }

    /// The mark of the kind in the subject key identifier of a certificate.
    pub open spec fn flag(self) -> Seq<char> {
        match self {
            IdentityKind::Primary => "0"@,
            IdentityKind::Secondary => "1"@,
        }
    }

    pub fn as_str(self) -> (r: &'static str)
        ensures
            r@ == self.wire_name(),
    {
        match self {
            IdentityKind::Primary => "primary",
            IdentityKind::Secondary => "secondary",
        }
    }

    pub fn ski_flag(self) -> (r: &'static str)
        ensures
            r@ == self.flag(),
    {
        match self {
            IdentityKind::Primary => "0",
            IdentityKind::Secondary => "1",
        }
    }

    pub fn from_ski_flag(flag: &str) -> (r: Option<IdentityKind>)
        ensures
            match r {
                Some(kind) => flag@ == kind.flag(),
                None => flag@ != "0"@ && flag@ != "1"@,
            },
    {
        if same(flag, "0") {
            Some(IdentityKind::Primary)
        } else if same(flag, "1") {
            Some(IdentityKind::Secondary)
        } else {
            None
        }
    }

    /// The kind with a wire name.
    pub fn named(value: &str) -> (r: Option<IdentityKind>)
        ensures
            r == kind_named(value@),
    {
        if same(value, "primary") {
            Some(IdentityKind::Primary)
        } else if same(value, "secondary") {
            Some(IdentityKind::Secondary)
        } else {
            None
        }
    }

    /// Reads the wire name of a kind.
    pub fn parse(value: &str) -> (r: Result<IdentityKind, ParseIdentityKindError>)
        ensures
            match r {
                Ok(kind) => kind_named(value@) == Some(kind) && value@ == kind.wire_name(),
                Err(ParseIdentityKindError::Invalid { value: text }) => kind_named(value@) is None
                    && value@ != "primary"@ && value@ != "secondary"@ && text@ == value@,
            },
    {
        match IdentityKind::named(value) {
            Some(kind) => Ok(kind),
            None => Err(ParseIdentityKindError::Invalid { value: value.to_owned() }),
        }
    }
}

/// Different kinds have different wire names and different marks, so a kind is found again
/// from either.
pub proof fn kinds_are_told_apart(a: IdentityKind, b: IdentityKind)
    ensures
        a.wire_name() == b.wire_name() <==> a == b,
        a.flag() == b.flag() <==> a == b,
{
    reveal_strlit("primary");
    reveal_strlit("secondary");
    reveal_strlit("0");
    reveal_strlit("1");
    assert("primary"@.len() == 7 && "secondary"@.len() == 9);
    assert("0"@[0] == '0' && "1"@[0] == '1');
}

/// A kind is named in one way only.
pub proof fn kinds_are_named_in_one_way(kind: IdentityKind, value: Seq<char>)
    ensures
        kind_named(value) == Some(IdentityKind::Primary) <==> value == "primary"@,
        kind_named(value) == Some(IdentityKind::Secondary) <==> value == "secondary"@,
        kind_named(kind.wire_name()) == Some(kind),
        kind.flag() == "0"@ <==> kind == IdentityKind::Primary,
        kind.flag() == "1"@ <==> kind == IdentityKind::Secondary,
{
    reveal_strlit("primary");
    reveal_strlit("secondary");
    reveal_strlit("0");
    reveal_strlit("1");
    assert("primary"@.len() == 7);
    assert("secondary"@.len() == 9);
    assert("0"@.len() == 1);
    assert("1"@.len() == 1);
    assert("0"@[0] != "1"@[0]);
}

} // verus!
