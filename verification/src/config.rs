//! The configuration file's content, and what it makes of the directories
//! found on disk.

use vstd::prelude::*;
use vstd::string::StringExecFns;
use crate::error::{Error, ErrorView, Reportable, ReportableView};
pub use crate::projects::{Projects, ProjectsView};

verus! {

/// The configuration file's name when none is given.
pub const TOML_FILE: &'static str = "floki.toml";

/// The directory of the app project when the configuration names none.
pub const MAIN_SERVICE: &'static str = "app";

/// The directory of the client project when the configuration names none.
pub const CLIENT_SERVICE: &'static str = "client";

/// The configuration file as a whole: one table.
#[derive(Clone, Debug)]
pub struct Config {
    pub floki: Floki,
}

/// The table of the configuration file: a directory for each project,
/// where the default is not wanted.
#[derive(Clone, Debug)]
pub struct Floki {
    pub main_service: Option<String>,
    pub client_service: Option<String>,
}

/// A [`Floki`] as a mathematical value.
pub struct FlokiView {
    pub main_service: Option<Seq<char>>,
    pub client_service: Option<Seq<char>>,
}

/// A [`Config`] as a mathematical value.
pub struct ConfigView {
    pub floki: FlokiView,
}

impl View for Floki {
    type V = FlokiView;

    open spec fn view(&self) -> FlokiView {
        FlokiView {
            main_service: self.main_service.deep_view(),
            client_service: self.client_service.deep_view(),
        }
    }
}

impl View for Config {
    type V = ConfigView;

    open spec fn view(&self) -> ConfigView {
        ConfigView { floki: self.floki@ }
    }
}

/// What has happened so far while the configuration is being loaded.
#[derive(Debug)]
pub enum LoadEvent {
    /// Nothing yet.
    Begin,
    /// The file was read: its text, or why it could not be read.
    FileRead(Result<String, String>),
    /// The text was deserialized: the configuration, or why the text does
    /// not have the expected shape.
    Parsed(Result<Config, String>),
}

/// What to do next while the configuration is being loaded.
#[derive(Debug)]
pub enum LoadStep {
    /// Read the whole file at `path` as text.
    ReadFile { path: String },
    /// Deserialize `text` into a configuration.
    Parse { text: String },
    /// Loading has ended, with the configuration or with a failure.
    Done(Result<Config, Reportable>),
}

/// What has happened so far while the default configuration file is
/// being written.
#[derive(Debug)]
pub enum SeedEvent {
    /// Nothing yet.
    Begin,
    /// The template was read: its text, or why it could not be read.
    TemplateRead(Result<String, String>),
    /// The file was written, or why it could not be written.
    Written(Result<(), String>),
}

/// What to do next while the default configuration file is being written.
#[derive(Debug)]
pub enum SeedStep {
    /// Read the whole template at `path` as text.
    ReadTemplate { path: String },
    /// Write `text` to the file at `path`, replacing what is there.
    Write { path: String, text: String },
    /// Seeding has ended, well or with a failure.
    Done(Result<(), Reportable>),
}

/// Which of the two default directories exist in the current directory.
#[derive(Clone, Copy, Debug, PartialEq, Eq, Structural)]
pub struct Layout {
    pub app: bool,
    pub client: bool,
}

/// The directory of one project: the configured name if there is one,
/// else the default directory if it is present, else nothing.
pub open spec fn slot(param: Option<Seq<char>>, folder: Seq<char>, present: bool) -> Option<
    Seq<char>,
> {
    match param {
        Some(path) => Some(path),
        None => if present {
            Some(folder)
        } else {
            None
        },
    }
}

impl ConfigView {
    /// The projects that take part, given which default directories exist.
    pub open spec fn resolve(self, layout: Layout) -> ProjectsView {
        ProjectsView {
            app: slot(self.floki.main_service, MAIN_SERVICE@, layout.app),
            client: slot(self.floki.client_service, CLIENT_SERVICE@, layout.client),
        }
    }

    /// Whether `projects` is what the configuration resolves to for some
    /// state of the disk.
    pub open spec fn resolves_to(self, projects: ProjectsView) -> bool {
        exists|layout: Layout| projects == #[trigger] self.resolve(layout)
    }
}

/// The file the configuration is read from: the one asked for, or the
/// default name in the current directory.
pub open spec fn source(path: Option<Seq<char>>) -> Seq<char> {
    match path {
        Some(given) => given,
        None => TOML_FILE@,
    }
}

/// The label of every failure to load the configuration.
pub const READ_LABEL: &'static str = "read config";

/// The label of every failure to write the default configuration file.
pub const SEED_LABEL: &'static str = "write default config";

/// The failure reported when loading from `path` met `error`.
pub open spec fn load_failure(path: Option<Seq<char>>, error: ErrorView) -> ReportableView {
    ReportableView { error, label: READ_LABEL@, subject: source(path) }
}

/// What [`Config::read`] answers to each event while loading from `path`:
/// at the beginning, the file to read; for a text, the request to parse
/// it; for a configuration, the end; for a file that could not be read,
/// an I/O failure; for a text that does not fit, a parse failure.
pub open spec fn load_step(path: Option<Seq<char>>, event: LoadEvent, step: LoadStep) -> bool {
    match event {
        LoadEvent::Begin => step matches LoadStep::ReadFile { path: file } && file@ == source(
            path,
        ),
        LoadEvent::FileRead(Ok(text)) => step == (LoadStep::Parse { text }),
        LoadEvent::FileRead(Err(cause)) => step matches LoadStep::Done(Err(report)) && report@
            == load_failure(path, ErrorView::Io { cause: cause@ }),
        LoadEvent::Parsed(Ok(config)) => step == LoadStep::Done(Ok(config)),
        LoadEvent::Parsed(Err(cause)) => step matches LoadStep::Done(Err(report)) && report@
            == load_failure(path, ErrorView::Parse { cause: cause@ }),
    }
}

/// Where the template of the default configuration file is read from.
pub open spec fn template_path() -> Seq<char> {
    "../"@ + TOML_FILE@
}

/// The failure reported when seeding the default file met `cause`.
pub open spec fn seed_failure(cause: Seq<char>) -> ReportableView {
    ReportableView { error: ErrorView::Io { cause }, label: SEED_LABEL@, subject: TOML_FILE@ }
}

/// What [`Config::save_default_file`] answers to each event: at the
/// beginning, the template to read; for its text, the request to write
/// that text to the default file; for a written file, the end; for a
/// template that could not be read or a file that could not be written,
/// an I/O failure.
pub open spec fn seed_step(event: SeedEvent, step: SeedStep) -> bool {
    match event {
        SeedEvent::Begin => step matches SeedStep::ReadTemplate { path } && path@
            == template_path(),
        SeedEvent::TemplateRead(Ok(template)) => step matches SeedStep::Write { path, text }
            && path@ == TOML_FILE@ && text == template,
        SeedEvent::TemplateRead(Err(cause)) => step matches SeedStep::Done(Err(report))
            && report@ == seed_failure(cause@),
        SeedEvent::Written(Ok(_)) => step matches SeedStep::Done(Ok(_)),
        SeedEvent::Written(Err(cause)) => step matches SeedStep::Done(Err(report)) && report@
            == seed_failure(cause@),
    }
}

/// `std::path::Path::is_dir`: whether `path`, taken from the current
/// directory and followed through symbolic links, is a directory that
/// exists. The answer is the disk's, so nothing is claimed of it.
#[verifier::external_body]
fn is_dir(path: &str) -> (found: bool) {
    std::path::Path::new(path).is_dir()
}

/// The directory of one project, once it is known whether its default
/// directory is present.
pub fn resolve_slot(param: &Option<String>, folder: &str, present: bool) -> (dir: Option<String>)
    ensures
        dir.deep_view() == slot(param.deep_view(), folder@, present),
{
    match param {
        Some(path) => Some(path.clone()),
        None => if present {
            Some(String::from_str(folder))
        } else {
            None
        },
    }
}

/// The directory of one project: the configured name, which is not looked
/// for on disk, or else `folder` if the current directory holds it.
pub fn param_or_folder(param: &Option<String>, folder: &str) -> (dir: Option<String>)
    ensures
        param is Some ==> dir.deep_view() == param.deep_view(),
        param is None ==> dir is None || dir.deep_view() == Some(folder@),
        exists|present: bool| dir.deep_view() == #[trigger] slot(param.deep_view(), folder@, present),
{
    match param {
        Some(_) => resolve_slot(param, folder, false),
        None => {
            let present = is_dir(folder);
            resolve_slot(param, folder, present)
        },
    }
}

impl Config {
    /// One step of loading the configuration from `path`, or from
    /// `floki.toml` when `path` is absent. The caller begins with
    /// [`LoadEvent::Begin`], does what each step asks, and comes back with
    /// what happened, until the step is [`LoadStep::Done`].
    ///
    /// A file that cannot be read ends in an I/O failure, a text that does
    /// not fit in a parse failure; both name the operation and the file.
    pub fn read(path: &Option<String>, event: LoadEvent) -> (step: LoadStep)
        ensures
            load_step(path.deep_view(), event, step),
            step matches LoadStep::Done(Err(report)) ==> report@.label.len() > 0,
    {
        proof {
            reveal_strlit("read config");
        }
        let file = match path {
            Some(given) => given.as_str(),
            None => TOML_FILE,
        };
        match event {
            LoadEvent::Begin => LoadStep::ReadFile { path: String::from_str(file) },
            LoadEvent::FileRead(Ok(text)) => LoadStep::Parse { text },
            LoadEvent::FileRead(Err(cause)) => LoadStep::Done(
                Err((Error::Io { cause }).file_context(READ_LABEL, file)),
            ),
            LoadEvent::Parsed(Ok(config)) => LoadStep::Done(Ok(config)),
            LoadEvent::Parsed(Err(cause)) => LoadStep::Done(
                Err((Error::Parse { cause }).file_context(READ_LABEL, file)),
            ),
        }
    }

    /// One step of writing the default configuration file: the template
    /// beside the current directory is copied to `floki.toml` in it,
    /// over whatever is there. The caller begins with [`SeedEvent::Begin`]
    /// and goes on as with [`Config::read`].
    ///
    /// A template that cannot be read and a file that cannot be written
    /// both end in an I/O failure that names the operation and
    /// `floki.toml`.
    pub fn save_default_file(event: SeedEvent) -> (step: SeedStep)
        ensures
            seed_step(event, step),
            step matches SeedStep::Done(Err(report)) ==> report@.label.len() > 0,
    {
        proof {
            reveal_strlit("write default config");
        }
        match event {
            SeedEvent::Begin => {
                let mut path = String::from_str("../");
                path.append(TOML_FILE);
                SeedStep::ReadTemplate { path }
            },
            SeedEvent::TemplateRead(Ok(text)) => SeedStep::Write {
                path: String::from_str(TOML_FILE),
                text,
            },
            SeedEvent::TemplateRead(Err(cause)) => SeedStep::Done(
                Err((Error::Io { cause }).file_context(SEED_LABEL, TOML_FILE)),
            ),
            SeedEvent::Written(Ok(done)) => SeedStep::Done(Ok(done)),
            SeedEvent::Written(Err(cause)) => SeedStep::Done(
                Err((Error::Io { cause }).file_context(SEED_LABEL, TOML_FILE)),
            ),
        }
    }

    /// The projects that take part when the default directories are as
    /// `layout` says. A configured name wins whether or not it exists.
    pub fn resolve(&self, layout: Layout) -> (projects: Projects)
        ensures
            projects@ == self@.resolve(layout),
            self.floki.main_service is Some ==> projects@.app == self@.floki.main_service,
            self.floki.client_service is Some ==> projects@.client == self@.floki.client_service,
            self.floki.main_service is None ==> projects@.app == if layout.app {
                Some(MAIN_SERVICE@)
            } else {
                None
            },
            self.floki.client_service is None ==> projects@.client == if layout.client {
                Some(CLIENT_SERVICE@)
            } else {
                None
            },
    {
        Projects {
            app: resolve_slot(&self.floki.main_service, MAIN_SERVICE, layout.app),
            client: resolve_slot(&self.floki.client_service, CLIENT_SERVICE, layout.client),
        }
    }

    /// The projects that take part, with the default directories looked
    /// for in the current directory.
    pub fn projects(&self) -> (projects: Projects)
        ensures
            self@.resolves_to(projects@),
            self.floki.main_service is Some ==> projects@.app == self@.floki.main_service,
            self.floki.client_service is Some ==> projects@.client == self@.floki.client_service,
            self.floki.main_service is None ==> projects.app is None || projects@.app == Some(
                MAIN_SERVICE@,
            ),
            self.floki.client_service is None ==> projects.client is None || projects@.client
                == Some(CLIENT_SERVICE@),
    {
        let app = param_or_folder(&self.floki.main_service, MAIN_SERVICE);
        let client = param_or_folder(&self.floki.client_service, CLIENT_SERVICE);
        proof {
            let app_dir = choose|present: bool|
                app.deep_view() == #[trigger] slot(
                    self.floki.main_service.deep_view(),
                    MAIN_SERVICE@,
                    present,
                );
            let client_dir = choose|present: bool|
                client.deep_view() == #[trigger] slot(
                    self.floki.client_service.deep_view(),
                    CLIENT_SERVICE@,
                    present,
                );
            let layout = Layout { app: app_dir, client: client_dir };
            assert((ProjectsView { app: app.deep_view(), client: client.deep_view() })
                == self@.resolve(layout));
        }
        Projects { app, client }
    }
}

/// Resolution depends on nothing but the configuration and the layout:
/// two calls of [`Config::resolve`] on the same configuration and the same
/// layout give the same projects.
pub proof fn resolve_is_repeatable(
    config: Config,
    layout: Layout,
    first: Projects,
    second: Projects,
)
    requires
        call_ensures(Config::resolve, (&config, layout), first),
        call_ensures(Config::resolve, (&config, layout), second),
    ensures
        first@ == second@,
{
}

/// Resolution settles: a configuration that names what was resolved
/// resolves to the same projects again.
pub proof fn resolve_is_idempotent(config: ConfigView, layout: Layout)
    ensures
        ({
            let once = config.resolve(layout);
            let named = ConfigView {
                floki: FlokiView { main_service: once.app, client_service: once.client },
            };
            named.resolve(layout) == once
        }),
{
}

/// Every failure of loading and of seeding names its operation: the
/// label of the report is not empty.
pub proof fn file_failures_are_labelled(
    path: Option<Seq<char>>,
    error: ErrorView,
    cause: Seq<char>,
)
    ensures
        load_failure(path, error).label.len() > 0,
        seed_failure(cause).label.len() > 0,
{
    reveal_strlit("read config");
    reveal_strlit("write default config");
}

} // verus!
