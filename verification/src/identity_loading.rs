//! Whose identity a tool works under.
use vstd::prelude::*;

verus! {

/// Who is asked for on the command line.
#[derive(Debug)]
pub struct IdentityChoice {
    /// The name that was given.
    pub id: Option<String>,
    /// No identity is wanted.
    pub anonymous: bool,
}

/// What came of looking for an identity.
#[derive(Debug, Clone, Copy, PartialEq, Eq, Structural)]
pub enum LoadEvent {
    Start,
    HomeFound,
    HomeMissing,
    NamedLoaded,
    NamedFailed,
    DefaultLoaded,
    DefaultFailed,
}

/// Why no identity was loaded.
#[derive(Debug, PartialEq, Eq)]
pub enum LoadError {
    LocateDhttpHome,
    LoadExplicitIdentity { name: String },
    LoadIdentitySsl,
}

impl LoadError {
    pub open spec fn words(self) -> Seq<char> {
        match self {
            LoadError::LocateDhttpHome => "failed to locate dhttp home"@,
            LoadError::LoadExplicitIdentity { name } => "failed to load explicit identity `"@
                + name@ + "`"@,
            LoadError::LoadIdentitySsl => "failed to load identity certificate and key"@,
        }
    }

    pub fn to_text(&self) -> (r: String)
        ensures
            r@ == self.words(),
    {
        match self {
            LoadError::LocateDhttpHome => "failed to locate dhttp home".to_owned(),
            LoadError::LoadExplicitIdentity { name } => {
                let mut r = "failed to load explicit identity `".to_owned();
                r.append(name);
                r.append("`");
                r
            },
            LoadError::LoadIdentitySsl => "failed to load identity certificate and key".to_owned(),
        }
    }
}

/// What is done next.
#[derive(Debug, PartialEq, Eq)]
pub enum LoadAction {
    FindHome,
    LoadNamed { name: String },
    LoadDefault,
    /// Works under the identity that was loaded.
    Use,
    /// Works without an identity; the flag tells whether to warn that there is no home.
    Anonymous { warn: bool },
    Fail { error: LoadError },
}

/// What is done after an event: a name that was given is loaded or its failure reported, and
/// only where none was given does a tool fall back to working without an identity.
pub open spec fn load_after(choice: IdentityChoice, event: LoadEvent) -> LoadAction {
    if choice.anonymous {
        LoadAction::Anonymous { warn: false }
    } else {
        match (event, choice.id) {
            (LoadEvent::Start, _) => LoadAction::FindHome,
            (LoadEvent::HomeMissing, None) => LoadAction::Anonymous { warn: true },
            (LoadEvent::HomeMissing, Some(_)) => LoadAction::Fail {
                error: LoadError::LocateDhttpHome,
            },
            (LoadEvent::HomeFound, Some(name)) => LoadAction::LoadNamed { name },
            (LoadEvent::HomeFound, None) => LoadAction::LoadDefault,
            (LoadEvent::NamedFailed, Some(name)) => LoadAction::Fail {
                error: LoadError::LoadExplicitIdentity { name },
            },
            (LoadEvent::DefaultFailed, None) => LoadAction::Anonymous { warn: false },
            _ => LoadAction::Use,
        }
    }
}

/// The events that can follow each other for a choice.
pub open spec fn load_awaits(choice: IdentityChoice, event: LoadEvent) -> bool {
    match event {
        LoadEvent::NamedLoaded | LoadEvent::NamedFailed => choice.id is Some,
        LoadEvent::DefaultLoaded | LoadEvent::DefaultFailed => choice.id is None,
        _ => true,
    }
}

/// What is done after an event.
pub fn load_identity_home(choice: &IdentityChoice, event: LoadEvent) -> (r: LoadAction)
    requires
        load_awaits(*choice, event),
    ensures
        r == load_after(*choice, event),
{
    if choice.anonymous {
        return LoadAction::Anonymous { warn: false };
    }
    match (event, &choice.id) {
        (LoadEvent::Start, _) => LoadAction::FindHome,
        (LoadEvent::HomeMissing, None) => LoadAction::Anonymous { warn: true },
        (LoadEvent::HomeMissing, Some(_)) => LoadAction::Fail {
            error: LoadError::LocateDhttpHome,
        },
        (LoadEvent::HomeFound, Some(name)) => LoadAction::LoadNamed { name: name.clone() },
        (LoadEvent::HomeFound, None) => LoadAction::LoadDefault,
        (LoadEvent::NamedFailed, Some(name)) => LoadAction::Fail {
            error: LoadError::LoadExplicitIdentity { name: name.clone() },
        },
        (LoadEvent::DefaultFailed, None) => LoadAction::Anonymous { warn: false },
        _ => LoadAction::Use,
    }
}

/// An identity that was asked for by name is never replaced by another or left out.
pub proof fn named_identities_are_never_replaced(choice: IdentityChoice, event: LoadEvent)
    requires
        load_awaits(choice, event),
        choice.id is Some,
        !choice.anonymous,
    ensures
        !(load_after(choice, event) is Anonymous),
        !(load_after(choice, event) is LoadDefault),
        load_after(choice, event) is Use <==> event is NamedLoaded,
{
}

/// Without a name no failure stops a tool.
pub proof fn default_identities_are_optional(choice: IdentityChoice, event: LoadEvent)
    requires
        load_awaits(choice, event),
        choice.id is None,
    ensures
        !(load_after(choice, event) is Fail),
{
}

/// What is loaded is what was asked for: the given name, or without one the default; anonymous
/// work loads nothing, and what was loaded is used.
pub proof fn identities_are_loaded_as_asked_for(choice: IdentityChoice, event: LoadEvent)
    requires
        load_awaits(choice, event),
    ensures
        choice.anonymous ==> load_after(choice, event) == (LoadAction::Anonymous { warn: false }),
        !choice.anonymous ==> (load_after(choice, event) is FindHome <==> event
            == LoadEvent::Start),
        !choice.anonymous && event == LoadEvent::HomeFound ==> (match choice.id {
            Some(name) => load_after(choice, event) == (LoadAction::LoadNamed { name }),
            None => load_after(choice, event) is LoadDefault,
        }),
        load_after(choice, event) is LoadNamed || load_after(choice, event) is LoadDefault ==> event
            == LoadEvent::HomeFound,
        load_after(choice, event) is Use <==> !choice.anonymous && (event == LoadEvent::NamedLoaded
            || event == LoadEvent::DefaultLoaded),
        load_after(choice, event) == (LoadAction::Anonymous { warn: true }) <==> !choice.anonymous
            && choice.id is None && event == LoadEvent::HomeMissing,
        !choice.anonymous && choice.id is None && event == LoadEvent::DefaultFailed ==> load_after(
            choice,
            event,
        ) == (LoadAction::Anonymous { warn: false }),
        !choice.anonymous ==> (event == LoadEvent::NamedFailed ==> (load_after(
            choice,
            event,
        ) matches LoadAction::Fail { error: LoadError::LoadExplicitIdentity { name } }
            && choice.id == Some(name))),
        !choice.anonymous && choice.id is Some && event == LoadEvent::HomeMissing ==> load_after(
            choice,
            event,
        ) == (LoadAction::Fail { error: LoadError::LocateDhttpHome }),
{
}

} // verus!
