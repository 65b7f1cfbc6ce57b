//! The default identity: asking for it and setting it.
use vstd::prelude::*;

use crate::calendar::fits_calendar;
use crate::local::{LocalIdentityStatus, LocalIdentitySummary};
use crate::output::{dates_fit, default_query, format_default_query, format_info, info};
use crate::target::{wf_name_len, IdentityName, IdentityTarget};

verus! {

/// The arguments of the command.
#[derive(Debug, PartialEq, Eq)]
pub struct DefaultCommand {
    pub name: Option<String>,
    pub verbose: bool,
    pub force: bool,
}

#[derive(Debug, Clone, Copy, PartialEq, Eq, Structural)]
pub enum DefaultSetDecision {
    Allow,
    RequireForce,
}

pub open spec fn not_found_text(name: Seq<char>) -> Seq<char> {
    "Failed to set default identity: "@ + name + " not found!"@
}

pub fn default_not_found_message(short_name: &str) -> (r: String)
    ensures
        r@ == not_found_text(short_name@),
{
    let mut r = "Failed to set default identity: ".to_owned();
    r.append(short_name);
    r.append(" not found!");
    r
}

/// Only a ready identity becomes the default without force.
pub fn default_set_decision(summary: &LocalIdentitySummary, force: bool) -> (r: DefaultSetDecision)
    ensures
        r == (if summary.status is Ready || force {
            DefaultSetDecision::Allow
        } else {
            DefaultSetDecision::RequireForce
        }),
{
    if summary.status.is_ready() || force {
        DefaultSetDecision::Allow
    } else {
        DefaultSetDecision::RequireForce
    }
}

/// Why the default identity was not shown or set.
#[derive(Debug)]
pub enum DefaultError {
    NoneConfigured,
    NotFound { target: IdentityTarget },
    NotReady { summary: LocalIdentitySummary },
}

impl DefaultError {
    pub open spec fn wf(self) -> bool {
        match self {
            DefaultError::NoneConfigured => true,
            DefaultError::NotFound { target } => target.wf(),
            DefaultError::NotReady { summary } => summary.target.wf(),
        }
    }

    pub open spec fn words(self) -> Seq<char> {
        match self {
            DefaultError::NoneConfigured => "No default identity configured. Use `genmeta identity default <name>` to set one."@,
            DefaultError::NotFound { target } => not_found_text(target.short()),
            DefaultError::NotReady { summary } => summary.target.short() + " is "@
                + summary.status.label_text()
                + " and cannot be set as the default identity without --force"@,
        }
    }

    pub fn to_text(&self) -> (r: String)
        requires
            self.wf(),
        ensures
            r@ == self.words(),
    {
        match self {
            DefaultError::NoneConfigured => "No default identity configured. Use `genmeta identity default <name>` to set one.".to_owned(),
            DefaultError::NotFound { target } => {
                proof {
                    wf_name_len(target.name);
                }
                default_not_found_message(target.short_name())
            },
            DefaultError::NotReady { summary } => {
                proof {
                    wf_name_len(summary.target.name);
                }
                let mut r = summary.target.short_name().to_owned();
                r.append(" is ");
                r.append(summary.status.label());
                r.append(" and cannot be set as the default identity without --force");
                r
            },
        }
    }
}

/// The default identity that commands without a name work on.
pub fn resolve_default_target_name(configured: Option<IdentityName>) -> (r: Result<
    IdentityName,
    DefaultError,
>)
    ensures
        r == (match configured {
            Some(name) => Ok::<IdentityName, DefaultError>(name),
            None => Err(DefaultError::NoneConfigured),
        }),
{
    match configured {
        Some(name) => Ok(name),
        None => Err(DefaultError::NoneConfigured),
    }
}

/// What the command without a name shows.
pub fn default_report(summary: &LocalIdentitySummary, verbose: bool, ansi: bool) -> (r: String)
    requires
        summary.target.wf(),
        verbose ==> dates_fit(*summary),
        !verbose ==> (summary.status matches LocalIdentityStatus::Expired { expired_at }
            ==> fits_calendar(expired_at as int)),
    ensures
        r@ == (if verbose {
            info(*summary, ansi)
        } else {
            default_query(*summary)
        }),
{
    if verbose {
        format_info(summary, ansi)
    } else {
        format_default_query(summary)
    }
}

/// What the command with a name sets, given what is saved under that name.
pub fn default_to_set(
    target: IdentityTarget,
    saved: Option<LocalIdentitySummary>,
    force: bool,
) -> (r: Result<IdentityName, DefaultError>)
    ensures
        r == (match saved {
            None => Err::<IdentityName, DefaultError>(DefaultError::NotFound { target }),
            Some(summary) => if summary.status is Ready || force {
                Ok(summary.target.name)
            } else {
                Err(DefaultError::NotReady { summary })
            },
        }),
{
    match saved {
        None => Err(DefaultError::NotFound { target }),
        Some(summary) => match default_set_decision(&summary, force) {
            DefaultSetDecision::Allow => Ok(summary.target.name),
            DefaultSetDecision::RequireForce => Err(DefaultError::NotReady { summary }),
        },
    }
}

} // verus!
