use node_runtime::command::{search_path, Argument, Environment, Invocation, Streams};
use node_runtime::layout::InstallationEntry;

fn text(value: &str) -> Argument {
    Argument::Text(value.to_string())
}

fn isolated(subcommand: &str) -> Vec<Argument> {
    vec![
        Argument::Entry(InstallationEntry::NpmScript),
        text(subcommand),
        text("--cache"),
        Argument::Entry(InstallationEntry::CacheDirectory),
        text("--userconfig"),
        Argument::Entry(InstallationEntry::UserConfig),
        text("--globalconfig"),
        Argument::Entry(InstallationEntry::GlobalConfig),
    ]
}

#[test]
fn health_check_asks_for_the_version_in_isolation() {
    let invocation = Invocation::health_check();
    assert_eq!(invocation.program, InstallationEntry::NodeBinary);
    assert_eq!(invocation.arguments, isolated("--version"));
    assert_eq!(invocation.environment, Environment::Empty);
    assert!(!invocation.working_directory);
    assert_eq!(invocation.streams, Streams::Discarded);
}

#[test]
fn subcommand_without_directory() {
    let arguments = vec!["left-pad".to_string(), "--json".to_string()];
    let invocation = Invocation::npm_subcommand("info", &arguments, false);
    let mut expected = isolated("info");
    expected.push(text("left-pad"));
    expected.push(text("--json"));
    assert_eq!(invocation.program, InstallationEntry::NodeBinary);
    assert_eq!(invocation.arguments, expected);
    assert_eq!(invocation.environment, Environment::SearchPathOnly);
    assert!(!invocation.working_directory);
    assert_eq!(invocation.streams, Streams::Captured);
}

#[test]
fn subcommand_scoped_to_a_directory_ends_with_the_prefix() {
    let arguments = vec!["left-pad@1.3.0".to_string()];
    let invocation = Invocation::npm_subcommand("install", &arguments, true);
    let mut expected = isolated("install");
    expected.push(text("left-pad@1.3.0"));
    expected.push(text("--prefix"));
    expected.push(Argument::WorkingDirectory);
    assert_eq!(invocation.arguments, expected);
    assert!(invocation.working_directory);
}

#[test]
fn subcommand_without_arguments() {
    let invocation = Invocation::npm_subcommand("ls", &[], false);
    assert_eq!(invocation.arguments, isolated("ls"));
    let invocation = Invocation::npm_subcommand("ls", &[], true);
    let mut expected = isolated("ls");
    expected.push(text("--prefix"));
    expected.push(Argument::WorkingDirectory);
    assert_eq!(invocation.arguments, expected);
}

#[test]
fn search_path_puts_the_installation_first() {
    assert_eq!(search_path("/support/node/bin", Some("/usr/bin:/bin")), "/support/node/bin:/usr/bin:/bin");
}

#[test]
fn search_path_without_an_inherited_one() {
    assert_eq!(search_path("/support/node/bin", None), "/support/node/bin");
}

#[test]
fn search_path_with_an_empty_inherited_one() {
    assert_eq!(search_path("/support/node/bin", Some("")), "/support/node/bin");
}
