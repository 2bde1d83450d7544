//! The command line, once parsed: what was asked for and what it leads to.

use vstd::prelude::*;
use crate::cargo::Subcommand;
use crate::config::{load_step, Config, LoadEvent, LoadStep};

verus! {

/// The commands of the command line.
#[derive(Clone, Copy, Debug, PartialEq, Eq, Structural)]
pub enum Commands {
    /// Adds a default configuration file to the current directory.
    Init,
    /// Compiles the projects.
    Build,
    /// Removes what the build left in the projects.
    Clean,
    /// Runs the projects' tests.
    Test,
    /// Updates the projects' dependencies.
    Update,
    /// Runs the app. Nothing is defined for it yet.
    Run,
    /// Builds the projects' documentation.
    Doc,
}

/// What a command line leads to.
#[derive(Clone, Copy, Debug, PartialEq, Eq, Structural)]
pub enum Task {
    /// Write the default configuration file.
    Seed,
    /// Send a subcommand to the projects, with or without the release flag.
    Dispatch { subcommand: Subcommand, release: bool },
    /// The command has no behaviour yet; the run must end with a plain
    /// statement of that, and do nothing else.
    Unimplemented,
}

/// The parsed command line.
#[derive(Clone, Debug)]
pub struct Cli {
    pub command: Commands,
    /// Build in release mode, with optimizations.
    pub release: bool,
    /// How often the verbosity flag was given.
    pub verbose: u8,
    /// The configuration file's path, if the default is not wanted.
    pub config: Option<String>,
}

impl Commands {
    /// The subcommand that the command sends to the projects, if it is
    /// one that does so.
    pub open spec fn subcommand(self) -> Option<Subcommand> {
        match self {
            Commands::Build => Some(Subcommand::Build),
            Commands::Test => Some(Subcommand::Test),
            Commands::Clean => Some(Subcommand::Clean),
            Commands::Update => Some(Subcommand::Update),
            Commands::Doc => Some(Subcommand::Doc),
            Commands::Init => None,
            Commands::Run => None,
        }
    }
}

impl Cli {
    /// What the command line leads to.
    pub open spec fn spec_task(self) -> Task {
        match self.command {
            Commands::Init => Task::Seed,
            Commands::Run => Task::Unimplemented,
            command => Task::Dispatch {
                subcommand: command.subcommand().unwrap(),
                release: self.release,
            },
        }
    }

    /// What the command line leads to: `init` seeds the default file,
    /// `run` is not implemented, and every other command is sent to the
    /// projects under its own name, with the release flag as given.
    pub fn task(&self) -> (task: Task)
        ensures
            task == self.spec_task(),
            self.command == Commands::Init <==> task == Task::Seed,
            self.command == Commands::Run <==> task == Task::Unimplemented,
            task matches Task::Dispatch { subcommand, release } ==> release == self.release && Some(
                subcommand,
            ) == self.command.subcommand(),
    {
        let release = self.release;
        match self.command {
            Commands::Init => Task::Seed,
            Commands::Build => Task::Dispatch { subcommand: Subcommand::Build, release },
            Commands::Test => Task::Dispatch { subcommand: Subcommand::Test, release },
            Commands::Clean => Task::Dispatch { subcommand: Subcommand::Clean, release },
            Commands::Update => Task::Dispatch { subcommand: Subcommand::Update, release },
            Commands::Doc => Task::Dispatch { subcommand: Subcommand::Doc, release },
            Commands::Run => Task::Unimplemented,
        }
    }

    /// One step of loading the configuration that the command line names,
    /// or the default one: [`Config::read`] on the path given with the
    /// configuration flag.
    pub fn read_config(&self, event: LoadEvent) -> (step: LoadStep)
        ensures
            load_step(self.config.deep_view(), event, step),
            step matches LoadStep::Done(Err(report)) ==> report@.label.len() > 0,
    {
        Config::read(&self.config, event)
    }
}

} // verus!
