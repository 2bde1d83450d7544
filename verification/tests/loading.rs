use floki::cli::Commands;
use floki::config::{Floki, LoadEvent, LoadStep, SeedEvent, SeedStep};
use floki::{Cli, Config, Error};

fn path(text: &str) -> Option<String> {
    Some(String::from(text))
}

fn sample() -> Config {
    Config {
        floki: Floki { main_service: Some(String::from("backend")), client_service: None },
    }
}

#[test]
fn loading_begins_with_the_default_file() {
    match Config::read(&None, LoadEvent::Begin) {
        LoadStep::ReadFile { path } => assert_eq!(path, "floki.toml"),
        other => panic!("a file was to be read, not {:?}", other),
    }
}

#[test]
fn loading_begins_with_the_file_asked_for() {
    match Config::read(&path("conf/other.toml"), LoadEvent::Begin) {
        LoadStep::ReadFile { path } => assert_eq!(path, "conf/other.toml"),
        other => panic!("a file was to be read, not {:?}", other),
    }
}

#[test]
fn text_that_was_read_is_handed_on_for_parsing() {
    let text = String::from("[floki]\nmain_service = \"backend\"\n");
    match Config::read(&None, LoadEvent::FileRead(Ok(text.clone()))) {
        LoadStep::Parse { text: handed } => assert_eq!(handed, text),
        other => panic!("the text was to be parsed, not {:?}", other),
    }
}

#[test]
fn parsed_configuration_ends_the_loading() {
    match Config::read(&None, LoadEvent::Parsed(Ok(sample()))) {
        LoadStep::Done(Ok(config)) => {
            assert_eq!(config.floki.main_service, Some(String::from("backend")));
            assert_eq!(config.floki.client_service, None);
        }
        other => panic!("the configuration was due, not {:?}", other),
    }
}

#[test]
fn missing_file_at_explicit_path_is_a_wrapped_io_failure() {
    let cause = String::from("No such file or directory (os error 2)");
    match Config::read(&path("missing.toml"), LoadEvent::FileRead(Err(cause.clone()))) {
        LoadStep::Done(Err(report)) => {
            assert_eq!(report.label, "read config");
            assert_eq!(report.subject, "missing.toml");
            match &report.error {
                Error::Io { cause: kept } => assert_eq!(*kept, cause),
                other => panic!("an I/O failure was due, not {:?}", other),
            }
            assert_eq!(
                report.message(),
                "read config 'missing.toml': I/O failure: No such file or directory (os error 2)"
            );
        }
        other => panic!("a failure was due, not {:?}", other),
    }
}

#[test]
fn missing_default_file_names_the_default_path() {
    match Config::read(&None, LoadEvent::FileRead(Err(String::from("Permission denied")))) {
        LoadStep::Done(Err(report)) => {
            assert_eq!(report.label, "read config");
            assert_eq!(report.subject, "floki.toml");
        }
        other => panic!("a failure was due, not {:?}", other),
    }
}

#[test]
fn text_of_the_wrong_shape_is_a_wrapped_parse_failure() {
    let cause = String::from("missing field `floki`");
    match Config::read(&path("conf.toml"), LoadEvent::Parsed(Err(cause.clone()))) {
        LoadStep::Done(Err(report)) => {
            assert_eq!(report.label, "read config");
            assert_eq!(report.subject, "conf.toml");
            match &report.error {
                Error::Parse { cause: kept } => assert_eq!(*kept, cause),
                other => panic!("a parse failure was due, not {:?}", other),
            }
            assert_eq!(
                report.message(),
                "read config 'conf.toml': parse failure: missing field `floki`"
            );
        }
        other => panic!("a failure was due, not {:?}", other),
    }
}

#[test]
fn command_line_loads_from_its_config_flag() {
    let cli = Cli {
        command: Commands::Build,
        release: false,
        verbose: 0,
        config: path("elsewhere.toml"),
    };
    match cli.read_config(LoadEvent::Begin) {
        LoadStep::ReadFile { path } => assert_eq!(path, "elsewhere.toml"),
        other => panic!("a file was to be read, not {:?}", other),
    }
    match cli.read_config(LoadEvent::FileRead(Err(String::from("gone")))) {
        LoadStep::Done(Err(report)) => {
            assert_eq!(report.subject, "elsewhere.toml");
            assert_eq!(report.message(), "read config 'elsewhere.toml': I/O failure: gone");
        }
        other => panic!("a failure was due, not {:?}", other),
    }
}

#[test]
fn command_line_without_config_flag_loads_the_default_file() {
    let cli = Cli { command: Commands::Test, release: true, verbose: 2, config: None };
    match cli.read_config(LoadEvent::Begin) {
        LoadStep::ReadFile { path } => assert_eq!(path, "floki.toml"),
        other => panic!("a file was to be read, not {:?}", other),
    }
    match cli.read_config(LoadEvent::Parsed(Ok(sample()))) {
        LoadStep::Done(Ok(config)) => {
            assert_eq!(config.floki.main_service, Some(String::from("backend")))
        }
        other => panic!("the configuration was due, not {:?}", other),
    }
}

#[test]
fn seeding_begins_with_the_template_beside_the_current_directory() {
    match Config::save_default_file(SeedEvent::Begin) {
        SeedStep::ReadTemplate { path } => assert_eq!(path, "../floki.toml"),
        other => panic!("the template was to be read, not {:?}", other),
    }
}

#[test]
fn template_is_written_to_the_default_file_unchanged() {
    let template = String::from("[floki]\n# main_service = \"app\"\n");
    match Config::save_default_file(SeedEvent::TemplateRead(Ok(template.clone()))) {
        SeedStep::Write { path, text } => {
            assert_eq!(path, "floki.toml");
            assert_eq!(text, template);
        }
        other => panic!("the file was to be written, not {:?}", other),
    }
}

#[test]
fn unreadable_template_is_a_wrapped_io_failure() {
    match Config::save_default_file(SeedEvent::TemplateRead(Err(String::from("not found")))) {
        SeedStep::Done(Err(report)) => {
            assert_eq!(report.label, "write default config");
            assert_eq!(report.subject, "floki.toml");
            match &report.error {
                Error::Io { cause } => assert_eq!(cause, "not found"),
                other => panic!("an I/O failure was due, not {:?}", other),
            }
            assert_eq!(
                report.message(),
                "write default config 'floki.toml': I/O failure: not found"
            );
        }
        other => panic!("a failure was due, not {:?}", other),
    }
}

#[test]
fn unwritable_file_is_a_wrapped_io_failure() {
    match Config::save_default_file(SeedEvent::Written(Err(String::from("read-only")))) {
        SeedStep::Done(Err(report)) => {
            assert_eq!(report.label, "write default config");
            assert!(!report.label.is_empty());
            assert_eq!(report.subject, "floki.toml");
            match &report.error {
                Error::Io { cause } => assert_eq!(cause, "read-only"),
                other => panic!("an I/O failure was due, not {:?}", other),
            }
            assert_eq!(
                report.message(),
                "write default config 'floki.toml': I/O failure: read-only"
            );
        }
        other => panic!("a failure was due, not {:?}", other),
    }
}

#[test]
fn written_file_ends_the_seeding_well() {
    match Config::save_default_file(SeedEvent::Written(Ok(()))) {
        SeedStep::Done(Ok(())) => {}
        other => panic!("seeding was to end well, not {:?}", other),
    }
}
