//! The sample service of a new identity: a configuration, set aside until it is enabled, and
//! a page. Either both files are created or none.
use vstd::prelude::*;

verus! {

/// The sample configuration. It serves the sample page under `/welcome`.
pub const SERVER_CONF_TEMPLATE: &'static str =
    "server {\n    listen all 0;\n\n    sshd on;\n\n    location /welcome {\n        root templates;\n        index index.html;\n    }\n}\n";

/// Where the sample page lies in a profile.
pub const WELCOME_PAGE_PATH: &'static str = "templates/welcome/index.html";

/// The sample page.
pub const WELCOME_PAGE: &'static str =
    "<!DOCTYPE html>\n<html lang=\"en\">\n<head>\n<meta charset=\"utf-8\">\n<meta name=\"viewport\" content=\"width=device-width, initial-scale=1\">\n<title>Hello from DHTTP</title>\n<style>\nbody {\nmargin: 0;\nmin-height: 100vh;\ndisplay: grid;\nplace-items: center;\nfont-family: system-ui, -apple-system, BlinkMacSystemFont, \"Segoe UI\", sans-serif;\ncolor: #172033;\nbackground: #f7f8fb;\n}\n\nmain {\nwidth: min(40rem, calc(100vw - 3rem));\npadding: 3rem;\nborder-radius: 1.5rem;\nbackground: #ffffff;\nbox-shadow: 0 24px 80px rgba(23, 32, 51, 0.08);\n}\n\nh1 {\nmargin: 0 0 0.75rem;\nfont-size: clamp(2rem, 5vw, 3.5rem);\nline-height: 1;\n}\n\np {\nmargin: 0.75rem 0;\ncolor: #4d5a73;\nfont-size: 1rem;\nline-height: 1.6;\n}\n\nh2 {\nmargin: 2rem 0 0.75rem;\nfont-size: 0.9rem;\nletter-spacing: 0.08em;\ntext-transform: uppercase;\n}\n\nul {\nmargin: 0;\npadding-left: 1.25rem;\ncolor: #4d5a73;\nline-height: 1.7;\n}\n\n.note {\nmargin-top: 2rem;\nfont-size: 0.875rem;\ncolor: #7a8499;\n}\n</style>\n</head>\n<body>\n<main>\n<h1>Hello from DHTTP.</h1>\n<p>This identity is ready to serve.</p>\n\n<h2>Next steps</h2>\n<ul>\n<li>Replace this page with your own site.</li>\n<li>Add routes in server.conf to serve files or proxy services.</li>\n<li>Reload pishoo after changing your service configuration.</li>\n</ul>\n\n<p class=\"note\">Generated by genmeta identity.</p>\n</main>\n</body>\n</html>\n";

/// Why the sample service was not created.
#[derive(Debug, PartialEq, Eq)]
pub enum WelcomeServiceError {
    CreateProfileDir { path: String },
    CreateWelcomePageDir { path: String },
    Metadata { path: String },
    CreateFile { path: String },
    WriteFile { path: String },
    RollbackDelete { path: String },
}

impl WelcomeServiceError {
    pub open spec fn words(self) -> Seq<char> {
        match self {
            WelcomeServiceError::CreateProfileDir {
                path,
            } => "failed to create identity profile directory at "@ + path@,
            WelcomeServiceError::CreateWelcomePageDir {
                path,
            } => "failed to create welcome page directory at "@ + path@,
            WelcomeServiceError::Metadata { path } => "failed to inspect welcome service file "@
                + path@,
            WelcomeServiceError::CreateFile { path } => "failed to create welcome service file "@
                + path@,
            WelcomeServiceError::WriteFile { path } => "failed to write welcome service file "@
                + path@,
            WelcomeServiceError::RollbackDelete {
                path,
            } => "failed to roll back incomplete welcome service file "@ + path@,
        }
    }

    pub fn to_text(&self) -> (r: String)
        ensures
            r@ == self.words(),
    {
        let (text, path) = match self {
            WelcomeServiceError::CreateProfileDir { path } => (
                "failed to create identity profile directory at ",
                path,
            ),
            WelcomeServiceError::CreateWelcomePageDir { path } => (
                "failed to create welcome page directory at ",
                path,
            ),
            WelcomeServiceError::Metadata { path } => (
                "failed to inspect welcome service file ",
                path,
            ),
            WelcomeServiceError::CreateFile { path } => (
                "failed to create welcome service file ",
                path,
            ),
            WelcomeServiceError::WriteFile { path } => (
                "failed to write welcome service file ",
                path,
            ),
            WelcomeServiceError::RollbackDelete { path } => (
                "failed to roll back incomplete welcome service file ",
                path,
            ),
        };
        let mut r = text.to_owned();
        r.append(path);
        r
    }
}

/// The files that were created.
#[derive(Debug, PartialEq, Eq)]
pub struct WelcomeServiceCreated {
    pub server_conf_backup_path: String,
    pub welcome_page_path: String,
}

/// The paths that the sample service is about.
#[derive(Debug)]
pub struct WelcomePaths {
    pub profile_dir: String,
    pub server_conf: String,
    pub server_conf_backup: String,
    pub page_dir: String,
    pub page: String,
}

#[derive(Debug, Clone, Copy, PartialEq, Eq, Structural)]
pub enum WelcomePhase {
    CheckConf,
    CheckBackup,
    CheckPage,
    MakeProfileDir,
    MakePageDir,
    CreateConf,
    WriteConf,
    /// The configuration could not be written and is removed.
    DropConf,
    CreatePage,
    WritePage,
    /// The page could not be written and is removed.
    DropPage,
    /// The page is not there, and the configuration is removed too.
    UndoConf,
    Done,
}

/// What came of an operation: whether a path exists, or whether the operation succeeded.
#[derive(Debug, Clone, Copy, PartialEq, Eq, Structural)]
pub enum WelcomeEvent {
    Exists(bool),
    Succeeded,
    Failed,
}

/// The next operation.
#[derive(Debug)]
pub enum WelcomeAction {
    CheckExists { path: String },
    MakeDir { path: String },
    /// Creates a file that must not exist.
    CreateFile { path: String },
    WriteConf { path: String },
    WritePage { path: String },
    RemoveFile { path: String },
    Finish(Result<Option<WelcomeServiceCreated>, WelcomeServiceError>),
    Nothing,
}

/// The creation of the sample service. The two flags tell which of its files are there by its
/// own doing.
#[derive(Debug)]
pub struct WelcomeService {
    pub paths: WelcomePaths,
    pub phase: WelcomePhase,
    pub conf_there: bool,
    pub page_there: bool,
    /// Why the page is not there, while the configuration is being removed.
    pub page_failure: Option<WelcomeServiceError>,
}

impl WelcomeService {
    pub open spec fn at(self, phase: WelcomePhase) -> WelcomeService {
        WelcomeService { phase, ..self }
    }

    pub open spec fn ended(
        self,
        result: Result<Option<WelcomeServiceCreated>, WelcomeServiceError>,
    ) -> (WelcomeService, WelcomeAction) {
        (self.at(WelcomePhase::Done), WelcomeAction::Finish(result))
    }

    /// The page failed: the configuration is removed.
    pub open spec fn undoing(self, failure: WelcomeServiceError) -> (
        WelcomeService,
        WelcomeAction,
    ) {
        (
            WelcomeService {
                page_failure: Some(failure),
                phase: WelcomePhase::UndoConf,
                ..self
            },
            WelcomeAction::RemoveFile { path: self.paths.server_conf_backup },
        )
    }

    /// What follows on an event.
    pub open spec fn after(self, event: WelcomeEvent) -> (WelcomeService, WelcomeAction) {
        let paths = self.paths;
        match (self.phase, event) {
            (WelcomePhase::CheckConf, WelcomeEvent::Exists(true))
            | (WelcomePhase::CheckBackup, WelcomeEvent::Exists(true))
            | (WelcomePhase::CheckPage, WelcomeEvent::Exists(true)) => self.ended(Ok(None)),
            (WelcomePhase::CheckConf, WelcomeEvent::Exists(false)) => (
                self.at(WelcomePhase::CheckBackup),
                WelcomeAction::CheckExists { path: paths.server_conf_backup },
            ),
            (WelcomePhase::CheckBackup, WelcomeEvent::Exists(false)) => (
                self.at(WelcomePhase::CheckPage),
                WelcomeAction::CheckExists { path: paths.page },
            ),
            (WelcomePhase::CheckPage, WelcomeEvent::Exists(false)) => (
                self.at(WelcomePhase::MakeProfileDir),
                WelcomeAction::MakeDir { path: paths.profile_dir },
            ),
            (WelcomePhase::CheckConf, WelcomeEvent::Failed) => self.ended(
                Err(WelcomeServiceError::Metadata { path: paths.server_conf }),
            ),
            (WelcomePhase::CheckBackup, WelcomeEvent::Failed) => self.ended(
                Err(WelcomeServiceError::Metadata { path: paths.server_conf_backup }),
            ),
            (WelcomePhase::CheckPage, WelcomeEvent::Failed) => self.ended(
                Err(WelcomeServiceError::Metadata { path: paths.page }),
            ),
            (WelcomePhase::MakeProfileDir, WelcomeEvent::Succeeded) => (
                self.at(WelcomePhase::MakePageDir),
                WelcomeAction::MakeDir { path: paths.page_dir },
            ),
            (WelcomePhase::MakeProfileDir, WelcomeEvent::Failed) => self.ended(
                Err(WelcomeServiceError::CreateProfileDir { path: paths.profile_dir }),
            ),
            (WelcomePhase::MakePageDir, WelcomeEvent::Succeeded) => (
                self.at(WelcomePhase::CreateConf),
                WelcomeAction::CreateFile { path: paths.server_conf_backup },
            ),
            (WelcomePhase::MakePageDir, WelcomeEvent::Failed) => self.ended(
                Err(WelcomeServiceError::CreateWelcomePageDir { path: paths.page_dir }),
            ),
            (WelcomePhase::CreateConf, WelcomeEvent::Succeeded) => (
                WelcomeService { conf_there: true, phase: WelcomePhase::WriteConf, ..self },
                WelcomeAction::WriteConf { path: paths.server_conf_backup },
            ),
            (WelcomePhase::CreateConf, WelcomeEvent::Failed) => self.ended(
                Err(WelcomeServiceError::CreateFile { path: paths.server_conf_backup }),
            ),
            (WelcomePhase::WriteConf, WelcomeEvent::Succeeded) => (
                self.at(WelcomePhase::CreatePage),
                WelcomeAction::CreateFile { path: paths.page },
            ),
            (WelcomePhase::WriteConf, WelcomeEvent::Failed) => (
                self.at(WelcomePhase::DropConf),
                WelcomeAction::RemoveFile { path: paths.server_conf_backup },
            ),
            (WelcomePhase::DropConf, WelcomeEvent::Succeeded) => (WelcomeService {
                conf_there: false,
                ..self
            }).ended(Err(WelcomeServiceError::WriteFile { path: paths.server_conf_backup })),
            (WelcomePhase::DropConf, WelcomeEvent::Failed) => self.ended(
                Err(WelcomeServiceError::RollbackDelete { path: paths.server_conf_backup }),
            ),
            (WelcomePhase::CreatePage, WelcomeEvent::Succeeded) => (
                WelcomeService { page_there: true, phase: WelcomePhase::WritePage, ..self },
                WelcomeAction::WritePage { path: paths.page },
            ),
            (WelcomePhase::CreatePage, WelcomeEvent::Failed) => self.undoing(
                WelcomeServiceError::CreateFile { path: paths.page },
            ),
            (WelcomePhase::WritePage, WelcomeEvent::Succeeded) => self.ended(
                Ok(
                    Some(
                        WelcomeServiceCreated {
                            server_conf_backup_path: paths.server_conf_backup,
                            welcome_page_path: paths.page,
                        },
                    ),
                ),
            ),
            (WelcomePhase::WritePage, WelcomeEvent::Failed) => (
                self.at(WelcomePhase::DropPage),
                WelcomeAction::RemoveFile { path: paths.page },
            ),
            (WelcomePhase::DropPage, WelcomeEvent::Succeeded) => (WelcomeService {
                page_there: false,
                ..self
            }).undoing(WelcomeServiceError::WriteFile { path: paths.page }),
            (WelcomePhase::DropPage, WelcomeEvent::Failed) => self.undoing(
                WelcomeServiceError::RollbackDelete { path: paths.page },
            ),
            (WelcomePhase::UndoConf, WelcomeEvent::Succeeded) => match self.page_failure {
                Some(failure) => (WelcomeService {
                    conf_there: false,
                    page_failure: None,
                    ..self
                }).ended(Err(failure)),
                None => (self, WelcomeAction::Nothing),
            },
            (WelcomePhase::UndoConf, WelcomeEvent::Failed) => self.ended(
                Err(WelcomeServiceError::RollbackDelete { path: paths.server_conf_backup }),
            ),
            (_, _) => (self, WelcomeAction::Nothing),
        }
    }

    /// What holds between the events: which files are there, and that a failure of the page is
    /// known while the configuration is being removed.
    pub open spec fn wf(self) -> bool {
        match self.phase {
            WelcomePhase::WriteConf | WelcomePhase::DropConf
            | WelcomePhase::CreatePage => self.conf_there && !self.page_there,
            WelcomePhase::WritePage | WelcomePhase::DropPage => self.conf_there
                && self.page_there,
            WelcomePhase::UndoConf => self.conf_there && self.page_failure is Some
                && (self.page_there ==> self.page_failure->0 is RollbackDelete),
            WelcomePhase::Done => true,
            _ => !self.conf_there && !self.page_there,
        }
    }

    pub fn start(paths: WelcomePaths) -> (r: (WelcomeService, WelcomeAction))
        ensures
            r.0 == (WelcomeService {
                paths,
                phase: WelcomePhase::CheckConf,
                conf_there: false,
                page_there: false,
                page_failure: None,
            }),
            r.1 == (WelcomeAction::CheckExists { path: paths.server_conf }),
    {
        let path = paths.server_conf.clone();
        (
            WelcomeService {
                paths,
                phase: WelcomePhase::CheckConf,
                conf_there: false,
                page_there: false,
                page_failure: None,
            },
            WelcomeAction::CheckExists { path },
        )
    }

    fn end(&mut self, result: Result<Option<WelcomeServiceCreated>, WelcomeServiceError>) -> (r:
        WelcomeAction)
        ensures
            (*final(self), r) == old(self).ended(result),
    {
        self.phase = WelcomePhase::Done;
        WelcomeAction::Finish(result)
    }

    fn undo(&mut self, failure: WelcomeServiceError) -> (r: WelcomeAction)
        ensures
            (*final(self), r) == old(self).undoing(failure),
    {
        self.page_failure = Some(failure);
        self.phase = WelcomePhase::UndoConf;
        WelcomeAction::RemoveFile { path: self.paths.server_conf_backup.clone() }
    }

    /// Takes what came of an operation and gives the next one.
    pub fn next(&mut self, event: WelcomeEvent) -> (r: WelcomeAction)
        ensures
            (*final(self), r) == old(self).after(event),
    {
        let conf = self.paths.server_conf_backup.clone();
        let page = self.paths.page.clone();
        match (self.phase, event) {
            (WelcomePhase::CheckConf, WelcomeEvent::Exists(true)) => self.end(Ok(None)),
            (WelcomePhase::CheckBackup, WelcomeEvent::Exists(true)) => self.end(Ok(None)),
            (WelcomePhase::CheckPage, WelcomeEvent::Exists(true)) => self.end(Ok(None)),
            (WelcomePhase::CheckConf, WelcomeEvent::Exists(false)) => {
                self.phase = WelcomePhase::CheckBackup;
                WelcomeAction::CheckExists { path: conf }
            },
            (WelcomePhase::CheckBackup, WelcomeEvent::Exists(false)) => {
                self.phase = WelcomePhase::CheckPage;
                WelcomeAction::CheckExists { path: page }
            },
            (WelcomePhase::CheckPage, WelcomeEvent::Exists(false)) => {
                self.phase = WelcomePhase::MakeProfileDir;
                WelcomeAction::MakeDir { path: self.paths.profile_dir.clone() }
            },
            (WelcomePhase::CheckConf, WelcomeEvent::Failed) => {
                let path = self.paths.server_conf.clone();
                self.end(Err(WelcomeServiceError::Metadata { path }))
            },
            (WelcomePhase::CheckBackup, WelcomeEvent::Failed) => self.end(
                Err(WelcomeServiceError::Metadata { path: conf }),
            ),
            (WelcomePhase::CheckPage, WelcomeEvent::Failed) => self.end(
                Err(WelcomeServiceError::Metadata { path: page }),
            ),
            (WelcomePhase::MakeProfileDir, WelcomeEvent::Succeeded) => {
                self.phase = WelcomePhase::MakePageDir;
                WelcomeAction::MakeDir { path: self.paths.page_dir.clone() }
            },
            (WelcomePhase::MakeProfileDir, WelcomeEvent::Failed) => {
                let path = self.paths.profile_dir.clone();
                self.end(Err(WelcomeServiceError::CreateProfileDir { path }))
            },
            (WelcomePhase::MakePageDir, WelcomeEvent::Succeeded) => {
                self.phase = WelcomePhase::CreateConf;
                WelcomeAction::CreateFile { path: conf }
            },
            (WelcomePhase::MakePageDir, WelcomeEvent::Failed) => {
                let path = self.paths.page_dir.clone();
                self.end(Err(WelcomeServiceError::CreateWelcomePageDir { path }))
            },
            (WelcomePhase::CreateConf, WelcomeEvent::Succeeded) => {
                self.conf_there = true;
                self.phase = WelcomePhase::WriteConf;
                WelcomeAction::WriteConf { path: conf }
            },
            (WelcomePhase::CreateConf, WelcomeEvent::Failed) => self.end(
                Err(WelcomeServiceError::CreateFile { path: conf }),
            ),
            (WelcomePhase::WriteConf, WelcomeEvent::Succeeded) => {
                self.phase = WelcomePhase::CreatePage;
                WelcomeAction::CreateFile { path: page }
            },
            (WelcomePhase::WriteConf, WelcomeEvent::Failed) => {
                self.phase = WelcomePhase::DropConf;
                WelcomeAction::RemoveFile { path: conf }
            },
            (WelcomePhase::DropConf, WelcomeEvent::Succeeded) => {
                self.conf_there = false;
                self.end(Err(WelcomeServiceError::WriteFile { path: conf }))
            },
            (WelcomePhase::DropConf, WelcomeEvent::Failed) => self.end(
                Err(WelcomeServiceError::RollbackDelete { path: conf }),
            ),
            (WelcomePhase::CreatePage, WelcomeEvent::Succeeded) => {
                self.page_there = true;
                self.phase = WelcomePhase::WritePage;
                WelcomeAction::WritePage { path: page }
            },
            (WelcomePhase::CreatePage, WelcomeEvent::Failed) => self.undo(
                WelcomeServiceError::CreateFile { path: page },
            ),
            (WelcomePhase::WritePage, WelcomeEvent::Succeeded) => self.end(
                Ok(
                    Some(
                        WelcomeServiceCreated {
                            server_conf_backup_path: conf,
                            welcome_page_path: page,
                        },
                    ),
                ),
            ),
            (WelcomePhase::WritePage, WelcomeEvent::Failed) => {
                self.phase = WelcomePhase::DropPage;
                WelcomeAction::RemoveFile { path: page }
            },
            (WelcomePhase::DropPage, WelcomeEvent::Succeeded) => {
                self.page_there = false;
                self.undo(WelcomeServiceError::WriteFile { path: page })
            },
            (WelcomePhase::DropPage, WelcomeEvent::Failed) => self.undo(
                WelcomeServiceError::RollbackDelete { path: page },
            ),
            (WelcomePhase::UndoConf, WelcomeEvent::Succeeded) => {
                let failure = self.page_failure.take();
                match failure {
                    Some(failure) => {
                        self.conf_there = false;
                        self.end(Err(failure))
                    },
                    None => WelcomeAction::Nothing,
                }
            },
            (WelcomePhase::UndoConf, WelcomeEvent::Failed) => self.end(
                Err(WelcomeServiceError::RollbackDelete { path: conf }),
            ),
            (_, _) => WelcomeAction::Nothing,
        }
    }
}

/// Every event keeps what holds of the creation.
pub proof fn creation_stays_well_formed(service: WelcomeService, event: WelcomeEvent)
    requires
        service.wf(),
    ensures
        service.after(event).0.wf(),
{
}

/// All or nothing: where the creation succeeds both files are there, where nothing was to be
/// created none is, and where it fails none is either, unless one could not be removed again.
pub proof fn creation_is_all_or_nothing(service: WelcomeService, event: WelcomeEvent)
    requires
        service.wf(),
        service.phase != WelcomePhase::Done,
        service.after(event).1 is Finish,
    ensures
        match service.after(event).1->Finish_0 {
            Ok(Some(_)) => service.after(event).0.conf_there && service.after(event).0.page_there,
            Ok(None) => !service.after(event).0.conf_there && !service.after(event).0.page_there,
            Err(WelcomeServiceError::RollbackDelete { .. }) => true,
            Err(_) => !service.after(event).0.conf_there && !service.after(event).0.page_there,
        },
{
}

/// Nothing is created where one of the files is there already.
pub proof fn existing_files_are_left_alone(service: WelcomeService)
    requires
        service.phase == WelcomePhase::CheckConf || service.phase == WelcomePhase::CheckBackup
            || service.phase == WelcomePhase::CheckPage,
    ensures
        service.after(WelcomeEvent::Exists(true)).1 == WelcomeAction::Finish(
            Ok::<Option<WelcomeServiceCreated>, WelcomeServiceError>(None),
        ),
{
}

/// The line that reports a sample service.
pub fn format_welcome_service_created(name: &str) -> (r: String)
    ensures
        r@ == "Sample server configuration created for "@ + name@ + "."@,
{
    let mut r = "Sample server configuration created for ".to_owned();
    r.append(name);
    r.append(".");
    r
}

/// Files are looked for, directories are made and files are written in this order, each step on
/// the success of the one before it.
pub proof fn creation_takes_its_course(service: WelcomeService)
    ensures
        ({
            let (next, action) = service.after(WelcomeEvent::Succeeded);
            let paths = service.paths;
            &&& (service.phase == WelcomePhase::MakeProfileDir ==> action
                == (WelcomeAction::MakeDir { path: paths.page_dir }) && next.phase
                == WelcomePhase::MakePageDir)
            &&& (service.phase == WelcomePhase::MakePageDir ==> action
                == (WelcomeAction::CreateFile { path: paths.server_conf_backup }) && next.phase
                == WelcomePhase::CreateConf)
            &&& (service.phase == WelcomePhase::CreateConf ==> action == (WelcomeAction::WriteConf {
                path: paths.server_conf_backup,
            }) && next.phase == WelcomePhase::WriteConf)
            &&& (service.phase == WelcomePhase::WriteConf ==> action
                == (WelcomeAction::CreateFile { path: paths.page }) && next.phase
                == WelcomePhase::CreatePage)
            &&& (service.phase == WelcomePhase::CreatePage ==> action == (WelcomeAction::WritePage {
                path: paths.page,
            }) && next.phase == WelcomePhase::WritePage)
            &&& (service.phase == WelcomePhase::WritePage ==> action == WelcomeAction::Finish(
                Ok::<Option<WelcomeServiceCreated>, WelcomeServiceError>(
                    Some(
                        WelcomeServiceCreated {
                            server_conf_backup_path: paths.server_conf_backup,
                            welcome_page_path: paths.page,
                        },
                    ),
                ),
            ))
        }),
        ({
            let (next, action) = service.after(WelcomeEvent::Exists(false));
            let paths = service.paths;
            &&& (service.phase == WelcomePhase::CheckConf ==> action == (
            WelcomeAction::CheckExists { path: paths.server_conf_backup }) && next.phase
                == WelcomePhase::CheckBackup)
            &&& (service.phase == WelcomePhase::CheckBackup ==> action == (
            WelcomeAction::CheckExists { path: paths.page }) && next.phase
                == WelcomePhase::CheckPage)
            &&& (service.phase == WelcomePhase::CheckPage ==> action == (WelcomeAction::MakeDir {
                path: paths.profile_dir,
            }) && next.phase == WelcomePhase::MakeProfileDir)
        }),
{
}

/// A failure takes back what was created before it, and is told with the path that it is about.
pub proof fn failures_are_rolled_back(service: WelcomeService)
    ensures
        ({
            let (next, action) = service.after(WelcomeEvent::Failed);
            let paths = service.paths;
            &&& (service.phase == WelcomePhase::WriteConf ==> action
                == (WelcomeAction::RemoveFile { path: paths.server_conf_backup }))
            &&& (service.phase == WelcomePhase::CreatePage ==> action
                == (WelcomeAction::RemoveFile { path: paths.server_conf_backup })
                && next.page_failure == Some(WelcomeServiceError::CreateFile { path: paths.page }))
            &&& (service.phase == WelcomePhase::WritePage ==> action
                == (WelcomeAction::RemoveFile { path: paths.page }))
            &&& (service.phase == WelcomePhase::DropPage ==> action == (WelcomeAction::RemoveFile {
                path: paths.server_conf_backup,
            }) && next.page_failure == Some(
                WelcomeServiceError::RollbackDelete { path: paths.page },
            ))
            &&& (service.phase == WelcomePhase::CreateConf ==> action == WelcomeAction::Finish(
                Err::<Option<WelcomeServiceCreated>, WelcomeServiceError>(
                    WelcomeServiceError::CreateFile { path: paths.server_conf_backup },
                ),
            ))
            &&& (service.phase == WelcomePhase::MakeProfileDir ==> action == WelcomeAction::Finish(
                Err::<Option<WelcomeServiceCreated>, WelcomeServiceError>(
                    WelcomeServiceError::CreateProfileDir { path: paths.profile_dir },
                ),
            ))
            &&& (service.phase == WelcomePhase::MakePageDir ==> action == WelcomeAction::Finish(
                Err::<Option<WelcomeServiceCreated>, WelcomeServiceError>(
                    WelcomeServiceError::CreateWelcomePageDir { path: paths.page_dir },
                ),
            ))
            &&& (service.phase == WelcomePhase::CheckConf ==> action == WelcomeAction::Finish(
                Err::<Option<WelcomeServiceCreated>, WelcomeServiceError>(
                    WelcomeServiceError::Metadata { path: paths.server_conf },
                ),
            ))
            &&& (service.phase == WelcomePhase::CheckBackup ==> action == WelcomeAction::Finish(
                Err::<Option<WelcomeServiceCreated>, WelcomeServiceError>(
                    WelcomeServiceError::Metadata { path: paths.server_conf_backup },
                ),
            ))
            &&& (service.phase == WelcomePhase::CheckPage ==> action == WelcomeAction::Finish(
                Err::<Option<WelcomeServiceCreated>, WelcomeServiceError>(
                    WelcomeServiceError::Metadata { path: paths.page },
                ),
            ))
            &&& (service.phase == WelcomePhase::UndoConf || service.phase == WelcomePhase::DropConf
                ==> action == WelcomeAction::Finish(
                Err::<Option<WelcomeServiceCreated>, WelcomeServiceError>(
                    WelcomeServiceError::RollbackDelete { path: paths.server_conf_backup },
                ),
            ))
        }),
        service.phase == WelcomePhase::DropConf ==> service.after(WelcomeEvent::Succeeded).1
            == WelcomeAction::Finish(
            Err::<Option<WelcomeServiceCreated>, WelcomeServiceError>(
                WelcomeServiceError::WriteFile { path: service.paths.server_conf_backup },
            ),
        ),
        service.phase == WelcomePhase::DropPage ==> service.after(WelcomeEvent::Succeeded).1
            == (WelcomeAction::RemoveFile { path: service.paths.server_conf_backup })
            && service.after(WelcomeEvent::Succeeded).0.page_failure == Some(
            WelcomeServiceError::WriteFile { path: service.paths.page },
        ),
        service.phase == WelcomePhase::UndoConf ==> (service.page_failure matches Some(failure)
            ==> service.after(WelcomeEvent::Succeeded).1 == WelcomeAction::Finish(
            Err::<Option<WelcomeServiceCreated>, WelcomeServiceError>(failure),
        )),
{
}

/// What is there is kept track of: a file is there once it was created, gone once it was
/// removed, and every end is the last step.
pub proof fn files_are_kept_track_of(service: WelcomeService, event: WelcomeEvent)
    ensures
        ({
            let (next, action) = service.after(event);
            &&& (service.phase != WelcomePhase::Done && action is Finish ==> next.phase
                == WelcomePhase::Done)
            &&& (service.phase == WelcomePhase::CreateConf && event == WelcomeEvent::Succeeded
                ==> next.conf_there && next.page_there == service.page_there)
            &&& (service.phase == WelcomePhase::CreatePage && event == WelcomeEvent::Succeeded
                ==> next.page_there && next.conf_there == service.conf_there)
            &&& ((service.phase == WelcomePhase::DropConf) && event == WelcomeEvent::Succeeded
                ==> !next.conf_there && next.page_there == service.page_there)
            &&& (service.phase == WelcomePhase::DropPage && event == WelcomeEvent::Succeeded
                ==> !next.page_there && next.conf_there == service.conf_there)
            &&& (service.phase == WelcomePhase::WriteConf && event == WelcomeEvent::Failed
                ==> next.phase == WelcomePhase::DropConf)
            &&& (service.phase == WelcomePhase::WritePage && event == WelcomeEvent::Failed
                ==> next.phase == WelcomePhase::DropPage)
            &&& (service.phase == WelcomePhase::CreatePage && event == WelcomeEvent::Failed
                ==> next.phase == WelcomePhase::UndoConf)
            &&& (service.phase == WelcomePhase::DropPage && event != WelcomeEvent::Exists(true)
                && event != WelcomeEvent::Exists(false) ==> next.phase == WelcomePhase::UndoConf)
            &&& next.paths == service.paths
        }),
{
}

} // verus!
