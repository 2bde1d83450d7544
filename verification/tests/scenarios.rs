use floki::cargo::{dispatch, AggregateResult, Invocation, Progress, Project, Subcommand, ToolExit};
use floki::cli::{Commands, Task};
use floki::config::{Floki, Layout, LoadEvent, LoadStep};
use floki::{Cli, Config, Error};

/// Runs the task of `cli` against a configuration and a disk layout,
/// answering each run of the tool with the next of `script`.
fn carry_out(
    cli: &Cli,
    config: Config,
    layout: Layout,
    script: Vec<ToolExit>,
) -> (Vec<Invocation>, AggregateResult) {
    let (subcommand, release) = match cli.task() {
        Task::Dispatch { subcommand, release } => (subcommand, release),
        other => panic!("a dispatch was due, not {:?}", other),
    };
    let config = match cli.read_config(LoadEvent::Parsed(Ok(config))) {
        LoadStep::Done(Ok(config)) => config,
        other => panic!("the configuration was due, not {:?}", other),
    };
    let projects = config.resolve(layout);
    let mut runs = Vec::new();
    let mut exits = Vec::new();
    let mut script = script.into_iter();
    loop {
        match dispatch(subcommand, &projects, release, &exits) {
            Progress::Run(invocation) => {
                runs.push(invocation);
                exits.push(script.next().unwrap());
            }
            Progress::Done(result) => return (runs, result),
        }
    }
}

fn config(main: Option<&str>, client: Option<&str>) -> Config {
    Config {
        floki: Floki {
            main_service: main.map(String::from),
            client_service: client.map(String::from),
        },
    }
}

fn ok() -> ToolExit {
    ToolExit::Exited { code: Some(0) }
}

#[test]
fn scenario_backend_override_and_no_client_directory() {
    let cli = Cli { command: Commands::Build, release: false, verbose: 0, config: None };
    let (runs, result) = carry_out(
        &cli,
        config(Some("backend"), None),
        Layout { app: false, client: false },
        vec![ok()],
    );
    assert_eq!(runs.len(), 1);
    assert_eq!(runs[0].project, Project::App);
    assert_eq!(runs[0].dir, "backend");
    assert_eq!(runs[0].args(), vec![String::from("build")]);
    assert_eq!(result.outcomes.len(), 1);
    assert!(result.first_failure().is_none());
}

#[test]
fn scenario_both_default_directories_in_release_mode() {
    let cli = Cli { command: Commands::Test, release: true, verbose: 1, config: None };
    let (runs, result) =
        carry_out(&cli, config(None, None), Layout { app: true, client: true }, vec![ok(), ok()]);
    assert_eq!(runs.len(), 2);
    assert_eq!(runs[0].project, Project::App);
    assert_eq!(runs[0].dir, "app");
    assert_eq!(runs[0].args(), vec![String::from("test"), String::from("--release")]);
    assert_eq!(runs[1].project, Project::Client);
    assert_eq!(runs[1].dir, "client");
    assert_eq!(runs[1].args(), vec![String::from("test"), String::from("--release")]);
    assert_eq!(result.outcomes.len(), 2);
    assert!(result.first_failure().is_none());
}

#[test]
fn scenario_app_fails_and_client_is_not_attempted() {
    let cli = Cli { command: Commands::Build, release: false, verbose: 0, config: None };
    let (runs, result) = carry_out(
        &cli,
        config(None, None),
        Layout { app: true, client: true },
        vec![ToolExit::Exited { code: Some(101) }],
    );
    assert_eq!(runs.len(), 1);
    assert_eq!(runs[0].project, Project::App);
    assert_eq!(result.outcomes.len(), 1);
    assert_eq!(result.outcomes[0].project, Project::App);
    assert_eq!(result.outcomes.iter().filter(|outcome| outcome.failure.is_some()).count(), 1);
    let report = result.first_failure().unwrap();
    assert_eq!(
        report.message(),
        "build app 'app': cargo build failed for app with exit status 101"
    );
}

#[test]
fn scenario_nothing_configured_and_nothing_on_disk() {
    let cli = Cli { command: Commands::Clean, release: false, verbose: 0, config: None };
    let (runs, result) =
        carry_out(&cli, config(None, None), Layout { app: false, client: false }, vec![]);
    assert!(runs.is_empty());
    assert!(result.outcomes.is_empty());
    assert!(result.first_failure().is_none());
}

#[test]
fn scenario_overridden_directory_that_does_not_exist_fails_at_dispatch() {
    let cli = Cli { command: Commands::Doc, release: false, verbose: 0, config: None };
    let (runs, result) = carry_out(
        &cli,
        config(Some("gone"), None),
        Layout { app: true, client: false },
        vec![ToolExit::NotStarted { cause: String::from("No such file or directory (os error 2)") }],
    );
    assert_eq!(runs.len(), 1);
    assert_eq!(runs[0].dir, "gone");
    let report = result.first_failure().unwrap();
    assert!(matches!(report.error, Error::Io { .. }));
    assert_eq!(
        report.message(),
        "doc app 'gone': I/O failure: No such file or directory (os error 2)"
    );
}

#[test]
fn scenario_missing_config_file_at_explicit_path() {
    let cli = Cli {
        command: Commands::Build,
        release: false,
        verbose: 0,
        config: Some(String::from("conf/missing.toml")),
    };
    let path = match cli.read_config(LoadEvent::Begin) {
        LoadStep::ReadFile { path } => path,
        other => panic!("a file was to be read, not {:?}", other),
    };
    assert_eq!(path, "conf/missing.toml");
    let cause = String::from("No such file or directory (os error 2)");
    match cli.read_config(LoadEvent::FileRead(Err(cause))) {
        LoadStep::Done(Err(report)) => {
            assert!(matches!(report.error, Error::Io { .. }));
            assert_eq!(report.subject, "conf/missing.toml");
            assert!(report.message().contains("conf/missing.toml"));
        }
        other => panic!("a failure was due, not {:?}", other),
    }
}
