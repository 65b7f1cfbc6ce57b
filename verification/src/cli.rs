//! The commands and what they decide before they touch anything.
use vstd::prelude::*;

use crate::apply::Apply;
use crate::auto_renew::HomeScope;
use crate::default_identity::DefaultCommand;
use crate::local::{inventory_wf, LocalIdentitySummary, LocalInventory};
use crate::output::{
    dates_fit, format_info, info, info_blocks, inventory_dates_fit, render_inventory,
    render_verbose_inventory, saved_in, summary_lines,
};
use crate::target::{
    is_parsed, wf_name_len, IdentityName, IdentityTarget, ParseIdentityTargetError,
};
use crate::text::join_with;

verus! {

/// Changes the server configuration of an identity.
#[derive(Debug, PartialEq, Eq)]
pub struct SiteCommand {
    pub id: String,
}

/// Renews identities.
#[derive(Debug, PartialEq, Eq)]
pub struct Renew {
    pub name: Option<String>,
    pub all: bool,
    pub force: bool,
    pub device_name: Option<String>,
    pub email: Option<String>,
    pub verify_code: Option<String>,
}

/// Lists the saved identities.
#[derive(Debug, PartialEq, Eq)]
pub struct List {
    pub verbose: bool,
}

/// Shows an identity.
#[derive(Debug, PartialEq, Eq)]
pub struct Info {
    pub name: Option<String>,
}

#[derive(Debug, PartialEq, Eq)]
pub enum Options {
    Apply(Apply),
    Renew(Renew),
    Default(DefaultCommand),
    Ensite(SiteCommand),
    Dissite(SiteCommand),
    Info(Info),
    List(List),
    Version,
}

impl Options {
    /// Whether the command changes what is saved.
    pub fn writes_home(&self) -> (r: bool)
        ensures
            r == !(*self is Info || *self is List || *self is Version),
    {
        match self {
            Options::Apply(_) => true,
            Options::Renew(_) => true,
            Options::Default(_) => true,
            Options::Ensite(_) => true,
            Options::Dissite(_) => true,
            Options::Info(_) => false,
            Options::List(_) => false,
            Options::Version => false,
        }
    }
}

#[derive(Debug, PartialEq, Eq)]
pub struct Cli {
    /// Whether the command works on what is saved for all users.
    pub global: bool,
    pub options: Options,
}

impl Cli {
    pub fn home_scope(&self) -> (r: HomeScope)
        ensures
            r == (if self.global {
                HomeScope::Global
            } else {
                HomeScope::User
            }),
    {
        if self.global {
            HomeScope::Global
        } else {
            HomeScope::User
        }
    }

    /// Whether the user is warned that the command may need more rights.
    pub fn warns_about_global_home(&self) -> (r: bool)
        ensures
            r == (self.global && !(self.options is Info || self.options is List || self.options
                is Version)),
    {
        self.global && self.options.writes_home()
    }
}

/// The name that a text stands for.
pub fn parse_identity_name(identity: &str) -> (r: Result<IdentityName, ParseIdentityTargetError>)
    ensures
        match r {
            Ok(name) => exists|target: IdentityTarget|
                #[trigger] is_parsed(identity@, Ok(target)) && target.name == name,
            Err(error) => is_parsed(identity@, Err(error)),
        },
{
    match IdentityTarget::parse(identity) {
        Ok(target) => {
            assert(is_parsed(identity@, Ok(target)));
            Ok(target.name)
        },
        Err(error) => Err(error),
    }
}

/// What the list shows.
pub fn list_report(inventory: &LocalInventory, verbose: bool, ansi: bool) -> (r: String)
    requires
        inventory_wf(inventory.groups@),
        verbose ==> inventory_dates_fit(saved_in(inventory.groups@)),
    ensures
        r@ == (if inventory.groups@.len() == 0 {
            "No identities found here"@
        } else if verbose {
            join_with(info_blocks(saved_in(inventory.groups@), ansi), "\n\n"@)
        } else {
            join_with(summary_lines(saved_in(inventory.groups@), ansi), "\n"@)
        }),
{
    if inventory.groups.len() == 0 {
        "No identities found here".to_owned()
    } else if verbose {
        render_verbose_inventory(inventory, ansi)
    } else {
        render_inventory(inventory, ansi)
    }
}

/// Why an identity is not shown.
#[derive(Debug)]
pub enum InfoError {
    Target(ParseIdentityTargetError),
    NoneConfigured,
    NotSaved { name: IdentityName },
}

impl InfoError {
    pub open spec fn words(self) -> Seq<char> {
        match self {
            InfoError::Target(error) => error.words(),
            InfoError::NoneConfigured => "No default identity configured. Use `genmeta identity default <name>` to set one."@,
            InfoError::NotSaved { name } => name.partial()
                + " is not saved here.\n\nTo inspect it here, apply "@ + name.partial()
                + " here first."@,
        }
    }

    pub fn to_text(&self) -> (r: String)
        requires
            *self matches InfoError::NotSaved { name } ==> name.wf(),
        ensures
            r@ == self.words(),
    {
        match self {
            InfoError::Target(error) => error.to_text(),
            InfoError::NoneConfigured => "No default identity configured. Use `genmeta identity default <name>` to set one.".to_owned(),
            InfoError::NotSaved { name } => {
                proof {
                    wf_name_len(*name);
                }
                let mut r = name.as_partial().to_owned();
                r.append(" is not saved here.\n\nTo inspect it here, apply ");
                r.append(name.as_partial());
                r.append(" here first.");
                r
            },
        }
    }
}

/// The identity that is shown: the one that is named, else the default.
pub fn info_target(command: &Info, default_name: Option<IdentityName>) -> (r: Result<
    IdentityName,
    InfoError,
>)
    ensures
        match (command.name, r) {
            (Some(text), Ok(name)) => exists|target: IdentityTarget|
                #[trigger] is_parsed(text@, Ok(target)) && target.name == name,
            (Some(text), Err(InfoError::Target(error))) => is_parsed(text@, Err(error)),
            (Some(_), Err(_)) => false,
            (None, r) => r == (match default_name {
                Some(name) => Ok::<IdentityName, InfoError>(name),
                None => Err(InfoError::NoneConfigured),
            }),
        },
{
    match &command.name {
        Some(text) => match parse_identity_name(text) {
            Ok(name) => Ok(name),
            Err(error) => Err(InfoError::Target(error)),
        },
        None => match default_name {
            Some(name) => Ok(name),
            None => Err(InfoError::NoneConfigured),
        },
    }
}

/// What is shown of an identity, given what is saved of it.
pub fn info_report(name: IdentityName, saved: Option<&LocalIdentitySummary>, ansi: bool) -> (r:
    Result<String, InfoError>)
    requires
        saved matches Some(summary) ==> summary.target.wf() && dates_fit(*summary),
    ensures
        match saved {
            Some(summary) => r matches Ok(text) && text@ == info(*summary, ansi),
            None => r == Err::<String, InfoError>(InfoError::NotSaved { name }),
        },
{
    match saved {
        Some(summary) => Ok(format_info(summary, ansi)),
        None => Err(InfoError::NotSaved { name }),
    }
}

/// The address of the certificate server.
pub fn cert_server_base_url() -> (r: &'static str)
    ensures
        r@ == crate::DHTTP_CA_SERVICE@,
{
    crate::DHTTP_CA_SERVICE
}

} // verus!
