//! Serving an identity: its server configuration is active, or set aside under another name.
use vstd::prelude::*;

verus! {

/// The name of a configuration that is set aside.
pub const SERVER_CONF_BACKUP_FILE: &'static str = "server.conf.bak";

/// How a changed configuration is applied.
pub const RELOAD_HINT: &'static str = "Run `sudo systemctl reload pishoo` to apply the change.";

#[derive(Debug, Clone, Copy, PartialEq, Eq, Structural)]
pub enum ServerConfigState {
    Enabled,
    Disabled,
    Missing,
}

#[derive(Debug, Clone, Copy, PartialEq, Eq, Structural)]
pub enum ConfigChange {
    Changed,
    Unchanged,
}

/// What was found at a path.
#[derive(Debug, Clone, Copy, PartialEq, Eq, Structural)]
pub enum FoundFile {
    Regular,
    NotRegular,
    NotFound,
    /// The path could not be looked at.
    Unknown,
}

/// The two places of a server configuration.
#[derive(Debug)]
pub struct ServerConfig {
    pub active: String,
    pub backup: String,
}

#[derive(Debug, PartialEq, Eq)]
pub enum Error {
    Inspect { path: String },
    NotRegularFile { path: String },
    MissingConfiguration { active: String, backup: String },
    BackupExists { path: String },
    Rename { source_path: String, target_path: String },
}

impl Error {
    pub open spec fn words(self) -> Seq<char> {
        match self {
            Error::Inspect { path } => "failed to inspect server configuration "@ + path@,
            Error::NotRegularFile { path } => "server configuration path is not a regular file: "@
                + path@,
            Error::MissingConfiguration { active, backup } => "server configuration is missing: neither "@
                + active@ + " nor "@ + backup@ + " exists"@,
            Error::BackupExists { path } => "cannot disable server because a backup already exists at "@
                + path@ + "; back it up or move it before retrying"@,
            Error::Rename { source_path, target_path } => "failed to rename server configuration from "@
                + source_path@ + " to "@ + target_path@,
        }
    }

    pub fn to_text(&self) -> (r: String)
        ensures
            r@ == self.words(),
    {
        match self {
            Error::Inspect { path } => {
                let mut r = "failed to inspect server configuration ".to_owned();
                r.append(path);
                r
            },
            Error::NotRegularFile { path } => {
                let mut r = "server configuration path is not a regular file: ".to_owned();
                r.append(path);
                r
            },
            Error::MissingConfiguration { active, backup } => {
                let mut r = "server configuration is missing: neither ".to_owned();
                r.append(active);
                r.append(" nor ");
                r.append(backup);
                r.append(" exists");
                r
            },
            Error::BackupExists { path } => {
                let mut r = "cannot disable server because a backup already exists at ".to_owned();
                r.append(path);
                r.append("; back it up or move it before retrying");
                r
            },
            Error::Rename { source_path, target_path } => {
                let mut r = "failed to rename server configuration from ".to_owned();
                r.append(source_path);
                r.append(" to ");
                r.append(target_path);
                r
            },
        }
    }
}

/// What is to be done to the files.
#[derive(Debug, Clone, Copy, PartialEq, Eq, Structural)]
pub enum ConfigAction {
    /// Renames the file that was set aside to the active one.
    Activate,
    /// Renames the active file to the one that is set aside.
    SetAside,
    Keep,
}

/// Whether a regular file is at a path; anything else there is an error.
pub open spec fn looks(found: FoundFile, path: String) -> Result<bool, Error> {
    match found {
        FoundFile::Regular => Ok(true),
        FoundFile::NotFound => Ok(false),
        FoundFile::NotRegular => Err(Error::NotRegularFile { path }),
        FoundFile::Unknown => Err(Error::Inspect { path }),
    }
}

fn regular_file_exists(found: FoundFile, path: &String) -> (r: Result<bool, Error>)
    ensures
        r == looks(found, *path),
{
    match found {
        FoundFile::Regular => Ok(true),
        FoundFile::NotFound => Ok(false),
        FoundFile::NotRegular => Err(Error::NotRegularFile { path: path.clone() }),
        FoundFile::Unknown => Err(Error::Inspect { path: path.clone() }),
    }
}

impl ServerConfig {
    /// The state that the two places show; the active one is looked at first.
    pub open spec fn shows(self, active: FoundFile, backup: FoundFile) -> Result<
        ServerConfigState,
        Error,
    > {
        match looks(active, self.active) {
            Err(error) => Err(error),
            Ok(true) => Ok(ServerConfigState::Enabled),
            Ok(false) => match looks(backup, self.backup) {
                Err(error) => Err(error),
                Ok(true) => Ok(ServerConfigState::Disabled),
                Ok(false) => Ok(ServerConfigState::Missing),
            },
        }
    }

    pub open spec fn missing(self) -> Error {
        Error::MissingConfiguration { active: self.active, backup: self.backup }
    }

    /// What enabling does.
    pub open spec fn enabling(self, active: FoundFile, backup: FoundFile) -> Result<
        ConfigAction,
        Error,
    > {
        match self.shows(active, backup) {
            Err(error) => Err(error),
            Ok(ServerConfigState::Enabled) => Ok(ConfigAction::Keep),
            Ok(ServerConfigState::Disabled) => Ok(ConfigAction::Activate),
            Ok(ServerConfigState::Missing) => Err(self.missing()),
        }
    }

    /// What disabling does. It never replaces a file that was set aside before.
    pub open spec fn disabling(self, active: FoundFile, backup: FoundFile) -> Result<
        ConfigAction,
        Error,
    > {
        match self.shows(active, backup) {
            Err(error) => Err(error),
            Ok(ServerConfigState::Enabled) => match looks(backup, self.backup) {
                Err(error) => Err(error),
                Ok(true) => Err(Error::BackupExists { path: self.backup }),
                Ok(false) => Ok(ConfigAction::SetAside),
            },
            Ok(ServerConfigState::Disabled) => Ok(ConfigAction::Keep),
            Ok(ServerConfigState::Missing) => Err(self.missing()),
        }
    }

    pub fn state(&self, active: FoundFile, backup: FoundFile) -> (r: Result<
        ServerConfigState,
        Error,
    >)
        ensures
            r == self.shows(active, backup),
    {
        if regular_file_exists(active, &self.active)? {
            return Ok(ServerConfigState::Enabled);
        }
        if regular_file_exists(backup, &self.backup)? {
            return Ok(ServerConfigState::Disabled);
        }
        Ok(ServerConfigState::Missing)
    }

    pub fn enable(&self, active: FoundFile, backup: FoundFile) -> (r: Result<ConfigAction, Error>)
        ensures
            r == self.enabling(active, backup),
    {
        match self.state(active, backup)? {
            ServerConfigState::Enabled => Ok(ConfigAction::Keep),
            ServerConfigState::Disabled => Ok(ConfigAction::Activate),
            ServerConfigState::Missing => Err(
                Error::MissingConfiguration {
                    active: self.active.clone(),
                    backup: self.backup.clone(),
                },
            ),
        }
    }

    pub fn disable(&self, active: FoundFile, backup: FoundFile) -> (r: Result<ConfigAction, Error>)
        ensures
            r == self.disabling(active, backup),
    {
        match self.state(active, backup)? {
            ServerConfigState::Enabled => {
                if regular_file_exists(backup, &self.backup)? {
                    return Err(Error::BackupExists { path: self.backup.clone() });
                }
                Ok(ConfigAction::SetAside)
            },
            ServerConfigState::Disabled => Ok(ConfigAction::Keep),
            ServerConfigState::Missing => Err(
                Error::MissingConfiguration {
                    active: self.active.clone(),
                    backup: self.backup.clone(),
                },
            ),
        }
    }
}

/// What an action did.
pub fn change_of(action: ConfigAction) -> (r: ConfigChange)
    ensures
        r == ConfigChange::Unchanged <==> action == ConfigAction::Keep,
{
    match action {
        ConfigAction::Keep => ConfigChange::Unchanged,
        _ => ConfigChange::Changed,
    }
}

/// The content of the two places, each where it holds a regular file.
pub ghost struct Places {
    pub active: Option<Seq<u8>>,
    pub backup: Option<Seq<u8>>,
}

impl Places {
    pub open spec fn found(content: Option<Seq<u8>>) -> FoundFile {
        match content {
            Some(_) => FoundFile::Regular,
            None => FoundFile::NotFound,
        }
    }

    /// The places after an action.
    pub open spec fn after(self, action: ConfigAction) -> Places {
        match action {
            ConfigAction::Activate => Places { active: self.backup, backup: None },
            ConfigAction::SetAside => Places { active: None, backup: self.active },
            ConfigAction::Keep => self,
        }
    }

    pub open spec fn enabling(self, config: ServerConfig) -> Result<ConfigAction, Error> {
        config.enabling(Places::found(self.active), Places::found(self.backup))
    }

    pub open spec fn disabling(self, config: ServerConfig) -> Result<ConfigAction, Error> {
        config.disabling(Places::found(self.active), Places::found(self.backup))
    }
}

/// After enabling, the configuration is enabled, and enabling again changes nothing.
pub proof fn enabling_is_idempotent(config: ServerConfig, places: Places)
    requires
        places.enabling(config) is Ok,
    ensures
        ({
            let after = places.after(places.enabling(config)->Ok_0);
            after.active is Some && after.enabling(config) == Ok::<ConfigAction, Error>(
                ConfigAction::Keep,
            )
        }),
{
}

/// After disabling, the configuration is disabled, and disabling again changes nothing.
pub proof fn disabling_is_idempotent(config: ServerConfig, places: Places)
    requires
        places.disabling(config) is Ok,
    ensures
        ({
            let after = places.after(places.disabling(config)->Ok_0);
            after.active is None && after.backup is Some && after.disabling(config) == Ok::<
                ConfigAction,
                Error,
            >(ConfigAction::Keep)
        }),
{
}

/// Enabling undoes disabling: the active configuration is back with its content.
pub proof fn enabling_undoes_disabling(config: ServerConfig, places: Places)
    requires
        places.active is Some,
        places.disabling(config) is Ok,
    ensures
        ({
            let disabled = places.after(places.disabling(config)->Ok_0);
            disabled.enabling(config) is Ok && disabled.after(disabled.enabling(config)->Ok_0)
                == places
        }),
{
}

/// No content is ever lost: where both places hold one, neither command changes anything, and
/// disabling says so.
pub proof fn no_configuration_is_replaced(config: ServerConfig, places: Places)
    requires
        places.active is Some,
        places.backup is Some,
    ensures
        places.enabling(config) == Ok::<ConfigAction, Error>(ConfigAction::Keep),
        places.disabling(config) == Err::<ConfigAction, Error>(
            Error::BackupExists { path: config.backup },
        ),
{
}

/// The lines that report an enabled server.
pub fn enable_result_lines(identity: &str, change: ConfigChange) -> (r: Vec<String>)
    ensures
        match change {
            ConfigChange::Changed => r@.len() == 2 && r@[0]@ == "Server enabled for "@ + identity@
                + "."@ && r@[1]@ == RELOAD_HINT@,
            ConfigChange::Unchanged => r@.len() == 1 && r@[0]@ == "Server is already enabled for "@
                + identity@ + "."@,
        },
{
    let mut lines: Vec<String> = Vec::new();
    match change {
        ConfigChange::Changed => {
            let mut line = "Server enabled for ".to_owned();
            line.append(identity);
            line.append(".");
            lines.push(line);
            lines.push(RELOAD_HINT.to_owned());
        },
        ConfigChange::Unchanged => {
            let mut line = "Server is already enabled for ".to_owned();
            line.append(identity);
            line.append(".");
            lines.push(line);
        },
    }
    lines
}

/// The lines that report a disabled server.
pub fn disable_result_lines(identity: &str, change: ConfigChange) -> (r: Vec<String>)
    ensures
        match change {
            ConfigChange::Changed => r@.len() == 2 && r@[0]@ == "Server disabled for "@ + identity@
                + "."@ && r@[1]@ == RELOAD_HINT@,
            ConfigChange::Unchanged => r@.len() == 1 && r@[0]@ == "Server is already disabled for "@
                + identity@ + "."@,
        },
{
    let mut lines: Vec<String> = Vec::new();
    match change {
        ConfigChange::Changed => {
            let mut line = "Server disabled for ".to_owned();
            line.append(identity);
            line.append(".");
            lines.push(line);
            lines.push(RELOAD_HINT.to_owned());
        },
        ConfigChange::Unchanged => {
            let mut line = "Server is already disabled for ".to_owned();
            line.append(identity);
            line.append(".");
            lines.push(line);
        },
    }
    lines
}

/// What is found decides: an active file enables, only a backup disables, neither is missing;
/// what is no regular file, or cannot be looked at, is told with its path. The backup is looked
/// at only where nothing is active.
pub proof fn configurations_go_by_their_files(
    config: ServerConfig,
    active: FoundFile,
    backup: FoundFile,
)
    ensures
        config.shows(active, backup) == Ok::<ServerConfigState, Error>(ServerConfigState::Enabled)
            <==> active == FoundFile::Regular,
        config.shows(active, backup) == Ok::<ServerConfigState, Error>(ServerConfigState::Disabled)
            <==> active == FoundFile::NotFound && backup == FoundFile::Regular,
        config.shows(active, backup) == Ok::<ServerConfigState, Error>(ServerConfigState::Missing)
            <==> active == FoundFile::NotFound && backup == FoundFile::NotFound,
        active == FoundFile::NotRegular ==> config.shows(active, backup) == Err::<
            ServerConfigState,
            Error,
        >(Error::NotRegularFile { path: config.active }),
        active == FoundFile::Unknown ==> config.shows(active, backup) == Err::<
            ServerConfigState,
            Error,
        >(Error::Inspect { path: config.active }),
        active == FoundFile::NotFound && backup == FoundFile::NotRegular ==> config.shows(
            active,
            backup,
        ) == Err::<ServerConfigState, Error>(Error::NotRegularFile { path: config.backup }),
        active == FoundFile::NotFound && backup == FoundFile::Unknown ==> config.shows(
            active,
            backup,
        ) == Err::<ServerConfigState, Error>(Error::Inspect { path: config.backup }),
{
}

/// Enabling brings the backup back, disabling sets the active file aside, each only where it is
/// needed and nothing is lost.
pub proof fn sites_are_switched_when_needed(
    config: ServerConfig,
    active: FoundFile,
    backup: FoundFile,
)
    ensures
        config.enabling(active, backup) == Ok::<ConfigAction, Error>(ConfigAction::Keep) <==> active
            == FoundFile::Regular,
        config.enabling(active, backup) == Ok::<ConfigAction, Error>(ConfigAction::Activate)
            <==> active == FoundFile::NotFound && backup == FoundFile::Regular,
        config.enabling(active, backup) != Ok::<ConfigAction, Error>(ConfigAction::SetAside),
        config.disabling(active, backup) == Ok::<ConfigAction, Error>(ConfigAction::SetAside)
            <==> active == FoundFile::Regular && backup == FoundFile::NotFound,
        config.disabling(active, backup) == Ok::<ConfigAction, Error>(ConfigAction::Keep)
            <==> active == FoundFile::NotFound && backup == FoundFile::Regular,
        config.disabling(active, backup) != Ok::<ConfigAction, Error>(ConfigAction::Activate),
        active == FoundFile::NotFound && backup == FoundFile::NotFound ==> config.enabling(
            active,
            backup,
        ) == Err::<ConfigAction, Error>(
            Error::MissingConfiguration { active: config.active, backup: config.backup },
        ) && config.disabling(active, backup) == Err::<ConfigAction, Error>(
            Error::MissingConfiguration { active: config.active, backup: config.backup },
        ),
{
}

} // verus!
