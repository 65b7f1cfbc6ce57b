use gmutils::auto_renew::HomeScope;
use gmutils::apply::Apply;
use gmutils::cli::{
    cert_server_base_url, info_report, info_target, list_report, parse_identity_name, Cli, Info,
    InfoError, List, Options, Renew, SiteCommand,
};
use gmutils::default_identity::DefaultCommand;
use gmutils::local::build_inventory;
use gmutils::nslookup::LookupOptions;
use gmutils::site::{
    change_of, disable_result_lines, enable_result_lines, ConfigAction, ConfigChange, Error,
    FoundFile, ServerConfig, ServerConfigState, RELOAD_HINT, SERVER_CONF_BACKUP_FILE,
};
use gmutils::target::IdentityName;
use gmutils::welcome::{
    format_welcome_service_created, WelcomeAction, WelcomeEvent, WelcomePaths, WelcomeService,
    WelcomeServiceCreated, WelcomeServiceError, SERVER_CONF_TEMPLATE, WELCOME_PAGE,
    WELCOME_PAGE_PATH,
};
use gmutils::DHTTP_CA_SERVICE;

/// A directory with the two places of a configuration.
struct Place {
    active: Option<&'static str>,
    backup: Option<&'static str>,
}

impl Place {
    fn found(file: Option<&'static str>) -> FoundFile {
        match file {
            Some("directory") => FoundFile::NotRegular,
            Some(_) => FoundFile::Regular,
            None => FoundFile::NotFound,
        }
    }

    fn state(&self) -> Result<ServerConfigState, Error> {
        config().state(Self::found(self.active), Self::found(self.backup))
    }

    fn apply(&mut self, action: ConfigAction) -> ConfigChange {
        match action {
            ConfigAction::Activate => self.active = self.backup.take(),
            ConfigAction::SetAside => self.backup = self.active.take(),
            ConfigAction::Keep => {}
        }
        change_of(action)
    }

    fn enable(&mut self) -> Result<ConfigChange, Error> {
        let action = config().enable(Self::found(self.active), Self::found(self.backup))?;
        Ok(self.apply(action))
    }

    fn disable(&mut self) -> Result<ConfigChange, Error> {
        let action = config().disable(Self::found(self.active), Self::found(self.backup))?;
        Ok(self.apply(action))
    }
}

fn config() -> ServerConfig {
    ServerConfig {
        active: "/home/alice.smith/server.conf".to_owned(),
        backup: format!("/home/alice.smith/{SERVER_CONF_BACKUP_FILE}"),
    }
}

#[test]
fn state_prefers_active_configuration_over_backup() {
    let mut place = Place { active: None, backup: None };
    assert_eq!(place.state().unwrap(), ServerConfigState::Missing);

    place.backup = Some("disabled");
    assert_eq!(place.state().unwrap(), ServerConfigState::Disabled);

    place.active = place.backup.take();
    assert_eq!(place.state().unwrap(), ServerConfigState::Enabled);

    place.backup = Some("stale backup");
    assert_eq!(place.state().unwrap(), ServerConfigState::Enabled);
}

#[test]
fn enable_promotes_backup_and_is_idempotent() {
    let mut place = Place { active: None, backup: Some("edited config") };

    assert_eq!(place.enable().unwrap(), ConfigChange::Changed);
    assert_eq!(place.active, Some("edited config"));
    assert!(place.backup.is_none());
    assert_eq!(place.enable().unwrap(), ConfigChange::Unchanged);
}

#[test]
fn disable_preserves_active_as_backup_and_is_idempotent() {
    let mut place = Place { active: Some("active config"), backup: None };

    assert_eq!(place.disable().unwrap(), ConfigChange::Changed);
    assert!(place.active.is_none());
    assert_eq!(place.backup, Some("active config"));
    assert_eq!(place.disable().unwrap(), ConfigChange::Unchanged);
    assert_eq!(place.enable().unwrap(), ConfigChange::Changed);
    assert_eq!(place.active, Some("active config"));
}

#[test]
fn disable_preserves_both_files_when_backup_already_exists() {
    let mut place = Place { active: Some("active config"), backup: Some("backup config") };

    assert_eq!(place.state().unwrap(), ServerConfigState::Enabled);
    assert_eq!(place.enable().unwrap(), ConfigChange::Unchanged);
    assert_eq!(place.active, Some("active config"));
    assert_eq!(place.backup, Some("backup config"));

    let error = place.disable().unwrap_err();
    let rendered = error.to_text();
    assert!(matches!(error, Error::BackupExists { path } if path == config().backup));
    assert!(rendered.contains("back it up or move it"), "{rendered}");
    assert_eq!(place.active, Some("active config"));
    assert_eq!(place.backup, Some("backup config"));
}

#[test]
fn missing_configuration_is_an_error_for_both_changes() {
    let mut place = Place { active: None, backup: None };

    assert!(matches!(place.enable(), Err(Error::MissingConfiguration { .. })));
    assert!(matches!(place.disable(), Err(Error::MissingConfiguration { .. })));
}

#[test]
fn non_regular_configuration_paths_are_rejected() {
    let mut place = Place { active: Some("directory"), backup: None };
    assert!(matches!(
        place.state(),
        Err(Error::NotRegularFile { path }) if path == config().active
    ));

    place = Place { active: None, backup: Some("directory") };
    assert!(matches!(
        place.state(),
        Err(Error::NotRegularFile { path }) if path == config().backup
    ));

    place.active = Some("active config");
    assert_eq!(place.state().unwrap(), ServerConfigState::Enabled);
    assert!(matches!(
        place.disable(),
        Err(Error::NotRegularFile { path }) if path == config().backup
    ));
    assert!(matches!(
        config().state(FoundFile::Unknown, FoundFile::NotFound),
        Err(Error::Inspect { .. })
    ));
}

#[test]
fn reload_hint_only_describes_reloading_pishoo() {
    assert!(RELOAD_HINT.contains("reload pishoo"));
    assert!(!RELOAD_HINT.contains("group"));
    assert!(!RELOAD_HINT.contains("usermod"));
    assert!(!RELOAD_HINT.contains("dseditgroup"));
}

#[test]
fn changes_are_reported_with_the_hint() {
    let lines = enable_result_lines("alice.smith", ConfigChange::Changed);
    assert!(lines.iter().any(|line| line == RELOAD_HINT), "{lines:?}");
    let lines = disable_result_lines("alice.smith", ConfigChange::Unchanged);
    assert!(lines[0].contains("alice.smith"), "{lines:?}");
}

/// Files by path, and the path at which nothing can be created or written.
struct Disk {
    files: Vec<String>,
    uncreatable: Option<String>,
    unwritable: Option<String>,
}

fn paths() -> WelcomePaths {
    WelcomePaths {
        profile_dir: "/home/alice.smith".to_owned(),
        server_conf: "/home/alice.smith/server.conf".to_owned(),
        server_conf_backup: format!("/home/alice.smith/{SERVER_CONF_BACKUP_FILE}"),
        page_dir: "/home/alice.smith/templates/welcome".to_owned(),
        page: format!("/home/alice.smith/{WELCOME_PAGE_PATH}"),
    }
}

impl Disk {
    fn new() -> Self {
        Disk { files: Vec::new(), uncreatable: None, unwritable: None }
    }

    fn run(&mut self) -> Result<Option<WelcomeServiceCreated>, WelcomeServiceError> {
        let (mut service, mut action) = WelcomeService::start(paths());
        loop {
            let event = match action {
                WelcomeAction::CheckExists { path } => {
                    WelcomeEvent::Exists(self.files.contains(&path))
                }
                WelcomeAction::MakeDir { .. } => WelcomeEvent::Succeeded,
                WelcomeAction::CreateFile { path } => {
                    if self.uncreatable.as_ref() == Some(&path) {
                        WelcomeEvent::Failed
                    } else {
                        self.files.push(path);
                        WelcomeEvent::Succeeded
                    }
                }
                WelcomeAction::WriteConf { path } | WelcomeAction::WritePage { path } => {
                    if self.unwritable.as_ref() == Some(&path) {
                        WelcomeEvent::Failed
                    } else {
                        WelcomeEvent::Succeeded
                    }
                }
                WelcomeAction::RemoveFile { path } => {
                    self.files.retain(|file| file != &path);
                    WelcomeEvent::Succeeded
                }
                WelcomeAction::Finish(result) => return result,
                WelcomeAction::Nothing => panic!("the creation stands still"),
            };
            action = service.next(event);
        }
    }
}

#[test]
fn user_scope_creates_welcome_onboarding_without_pishoo_group() {
    let mut disk = Disk::new();
    let created = disk.run().unwrap().expect("new user identity should create welcome files");
    assert!(disk.files.contains(&created.server_conf_backup_path));
    assert!(disk.files.contains(&created.welcome_page_path));
}

#[test]
fn creates_welcome_files_for_new_identity() {
    let mut disk = Disk::new();
    let created = disk.run().unwrap().expect("new identity should create welcome files");
    assert_eq!(created.server_conf_backup_path, paths().server_conf_backup);
    assert_eq!(created.welcome_page_path, paths().page);
    assert!(!disk.files.contains(&paths().server_conf));

    assert!(WELCOME_PAGE.contains("<h1>Hello from DHTTP.</h1>"));
    assert!(WELCOME_PAGE.contains("This identity is ready to serve."));
    assert!(WELCOME_PAGE.contains("Add routes in server.conf"));
    assert!(!WELCOME_PAGE.contains("templates/welcome"));
}

#[test]
fn skips_pair_creation_when_server_conf_already_exists() {
    let mut disk = Disk::new();
    disk.files.push(paths().server_conf);
    assert!(disk.run().unwrap().is_none());
    assert!(!disk.files.contains(&paths().page));
}

#[test]
fn skips_pair_creation_when_server_conf_backup_already_exists() {
    let mut disk = Disk::new();
    disk.files.push(paths().server_conf_backup);
    assert!(disk.run().unwrap().is_none());
    assert_eq!(disk.files, [paths().server_conf_backup]);
}

#[test]
fn skips_pair_creation_when_welcome_page_already_exists() {
    let mut disk = Disk::new();
    disk.files.push(paths().page);
    assert!(disk.run().unwrap().is_none());
    assert_eq!(disk.files, [paths().page]);
}

#[test]
fn rolls_back_server_conf_when_index_html_creation_fails() {
    let mut disk = Disk::new();
    disk.uncreatable = Some(paths().page);
    let rendered = disk.run().expect_err("the page cannot be created").to_text();
    assert!(rendered.contains("welcome service"), "{rendered}");
    assert!(disk.files.is_empty(), "{:?}", disk.files);
}

#[test]
fn write_failure_removes_the_new_partial_file() {
    for path in [paths().server_conf_backup, paths().page] {
        let mut disk = Disk::new();
        disk.unwritable = Some(path);
        let rendered = disk.run().unwrap_err().to_text();
        assert!(rendered.contains("welcome service file"), "{rendered}");
        assert!(disk.files.is_empty(), "{:?}", disk.files);
    }
}

#[test]
fn welcome_service_is_mounted_at_welcome() {
    assert!(SERVER_CONF_TEMPLATE.contains("sshd on;"));
    assert!(SERVER_CONF_TEMPLATE.contains("location /welcome {"));
    assert!(SERVER_CONF_TEMPLATE.contains("root templates;"));
    assert!(SERVER_CONF_TEMPLATE.contains("index index.html;"));
    assert!(!SERVER_CONF_TEMPLATE.contains("location / {"));
    assert!(!SERVER_CONF_TEMPLATE.contains("root templates/welcome;"));
}

#[test]
fn welcome_success_copy_reports_created_identity() {
    assert_eq!(
        format_welcome_service_created("alice.smith"),
        "Sample server configuration created for alice.smith."
    );
}

fn apply() -> Options {
    Options::Apply(Apply {
        name: Some("alice.smith".to_owned()),
        kind: None,
        force: false,
        device_name: None,
        email: None,
        verify_code: None,
    })
}

#[test]
fn cert_server_base_url_uses_compile_time_bootstrap_url() {
    let url = cert_server_base_url();
    assert_eq!(url, DHTTP_CA_SERVICE);
}

#[test]
fn write_commands_are_marked_for_global_warning() {
    let id = || SiteCommand { id: "alice.smith".to_owned() };
    let name = || Some("alice.smith".to_owned());
    for options in [
        apply(),
        Options::Renew(Renew {
            name: name(),
            all: false,
            force: false,
            device_name: None,
            email: None,
            verify_code: None,
        }),
        Options::Default(DefaultCommand { name: name(), verbose: false, force: false }),
        Options::Ensite(id()),
        Options::Dissite(id()),
    ] {
        let cli = Cli { global: true, options };
        assert!(cli.options.writes_home());
        assert!(cli.warns_about_global_home());
    }

    let info = Cli { global: true, options: Options::Info(Info { name: name() }) };
    assert!(!info.options.writes_home());
    assert!(!info.warns_about_global_home());
}

#[test]
fn cli_accepts_global_before_and_after_subcommand() {
    let list = || Options::List(List { verbose: false });
    assert_eq!(Cli { global: true, options: list() }.home_scope(), HomeScope::Global);
    assert_eq!(Cli { global: false, options: list() }.home_scope(), HomeScope::User);
}

#[test]
fn options_accept_global_flag() {
    let options = LookupOptions {
        name: "alice.smith".to_owned(),
        schemes: vec!["mdns".to_owned()],
        id: None,
        global: true,
        anonymous: false,
        streaming: true,
    };

    assert_eq!(options.home_scope(), HomeScope::Global);
    assert_eq!(LookupOptions { global: false, ..options }.home_scope(), HomeScope::User);
}

#[test]
fn info_reports_unsaved_identity_with_business_message() {
    let command = Info { name: Some("alice.smith".to_string()) };
    let name = info_target(&command, None).unwrap();
    let rendered = info_report(name, None, false).unwrap_err().to_text();

    assert!(rendered.contains("alice.smith is not saved here"), "{rendered}");
    assert!(rendered.contains("apply alice.smith here first"), "{rendered}");
}

#[test]
fn info_falls_back_to_the_default() {
    let default_name = IdentityName::parse("alice.smith").unwrap();
    let name = info_target(&Info { name: None }, Some(default_name)).unwrap();
    assert_eq!(name.as_partial(), "alice.smith");
    assert!(matches!(info_target(&Info { name: None }, None), Err(InfoError::NoneConfigured)));
    let odd = Info { name: Some("alice!.smith".to_owned()) };
    assert!(matches!(info_target(&odd, None), Err(InfoError::Target(_))));
    assert_eq!(parse_identity_name("alice.smith").unwrap().as_full(), "alice.smith.dhttp.net");
}

#[test]
fn an_empty_home_is_listed() {
    let inventory = build_inventory(Vec::new());
    assert_eq!(list_report(&inventory, false, false), list_report(&inventory, true, false));
}
