//! The directories that take part in a run.

use vstd::prelude::*;
use vstd::std_specs::convert::FromSpecImpl;
use crate::config::{Config, CLIENT_SERVICE, MAIN_SERVICE};

verus! {

/// The directory of each project that takes part, or `None` for a project
/// that sits this run out.
#[derive(Clone, Debug)]
pub struct Projects {
    pub app: Option<String>,
    pub client: Option<String>,
}

/// A [`Projects`] as a mathematical value.
pub struct ProjectsView {
    pub app: Option<Seq<char>>,
    pub client: Option<Seq<char>>,
}

impl View for Projects {
    type V = ProjectsView;

    open spec fn view(&self) -> ProjectsView {
        ProjectsView { app: self.app.deep_view(), client: self.client.deep_view() }
    }
}

impl Default for Projects {
    /// No project takes part.
    fn default() -> (projects: Projects)
        ensures
            projects.app is None,
            projects.client is None,
    {
        Projects { app: None, client: None }
    }
}

impl FromSpecImpl<Config> for Projects {
    /// The conversion asks the disk which default directories exist, so no
    /// function of the configuration alone gives its result.
    open spec fn obeys_from_spec() -> bool {
        false
    }

    /// The configured names alone: what the conversion gives where neither
    /// default directory exists. It is not claimed of any call.
    open spec fn from_spec(conf: Config) -> Projects {
        Projects { app: conf.floki.main_service, client: conf.floki.client_service }
    }
}

impl From<Config> for Projects {
    /// Resolves both projects against the current directory. A name given
    /// in the configuration is taken as it is; a project without one gets
    /// its default directory if that exists, and is left out otherwise.
    fn from(conf: Config) -> (projects: Projects)
        ensures
            conf@.resolves_to(projects@),
            conf.floki.main_service is Some ==> projects@.app == conf@.floki.main_service,
            conf.floki.client_service is Some ==> projects@.client == conf@.floki.client_service,
            conf.floki.main_service is None ==> projects.app is None || projects@.app == Some(
                MAIN_SERVICE@,
            ),
            conf.floki.client_service is None ==> projects.client is None || projects@.client
                == Some(CLIENT_SERVICE@),
    {
        conf.projects()
    }
}

} // verus!
