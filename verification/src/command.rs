//! The command lines with which the package manager is run.
//!
//! Every invocation runs the interpreter of the installation on the package manager's entry
//! script, in an environment emptied of inherited variables, and points the package manager's
//! cache and its two configuration files at the installation's own. The places inside the
//! installation are named by [`InstallationEntry`]; the caller resolves them against the
//! installation folder.

use vstd::prelude::*;
use vstd::string::*;
use crate::layout::InstallationEntry;

verus! {

/// One argument of a command line.
#[derive(Debug, PartialEq, Eq)]
pub enum Argument {
    /// The path of an entry of the installation.
    Entry(InstallationEntry),
    /// The text as given.
    Text(String),
    /// The path of the directory that the invocation is scoped to.
    WorkingDirectory,
}

/// The mathematical content of an [`Argument`].
pub enum ArgumentModel {
    Entry(InstallationEntry),
    Text(Seq<char>),
    WorkingDirectory,
}

impl View for Argument {
    type V = ArgumentModel;

    open spec fn view(&self) -> ArgumentModel {
        match *self {
            Argument::Entry(entry) => ArgumentModel::Entry(entry),
            Argument::Text(text) => ArgumentModel::Text(text@),
            Argument::WorkingDirectory => ArgumentModel::WorkingDirectory,
        }
    }
}

/// The environment of the process. No variable is inherited from the caller's own.
#[derive(Debug, Clone, Copy, PartialEq, Eq, Structural)]
pub enum Environment {
    /// No variable at all.
    Empty,
    /// One variable, `PATH`, with the value that [`search_path`] gives.
    SearchPathOnly,
}

/// What happens to the standard streams of the process.
#[derive(Debug, Clone, Copy, PartialEq, Eq, Structural)]
pub enum Streams {
    /// Standard output and standard error are collected.
    Captured,
    /// All three streams are connected to nothing.
    Discarded,
}

/// A process to run: the program, its arguments and its surroundings.
#[derive(Debug, PartialEq, Eq)]
pub struct Invocation {
    /// The program to run.
    pub program: InstallationEntry,
    /// The arguments, in order.
    pub arguments: Vec<Argument>,
    /// The variables that the process sees.
    pub environment: Environment,
    /// Whether the process runs in the directory that the invocation is scoped to.
    pub working_directory: bool,
    /// What happens to the standard streams.
    pub streams: Streams,
}

/// The mathematical content of an [`Invocation`].
pub struct InvocationModel {
    pub program: InstallationEntry,
    pub arguments: Seq<ArgumentModel>,
    pub environment: Environment,
    pub working_directory: bool,
    pub streams: Streams,
}

/// The arguments as mathematical values.
pub open spec fn arguments_model(arguments: Seq<Argument>) -> Seq<ArgumentModel> {
    arguments.map_values(|argument: Argument| argument@)
}

/// The texts as mathematical values.
pub open spec fn texts_model(texts: Seq<String>) -> Seq<Seq<char>> {
    texts.map_values(|text: String| text@)
}

impl View for Invocation {
    type V = InvocationModel;

    open spec fn view(&self) -> InvocationModel {
        InvocationModel {
            program: self.program,
            arguments: arguments_model(self.arguments@),
            environment: self.environment,
            working_directory: self.working_directory,
            streams: self.streams,
        }
    }
}

/// The script and the subcommand, then the flags that keep the package manager to the
/// installation's own cache and blank configuration files.
pub open spec fn isolated_subcommand(subcommand: Seq<char>) -> Seq<ArgumentModel> {
    seq![
        ArgumentModel::Entry(InstallationEntry::NpmScript),
        ArgumentModel::Text(subcommand),
        ArgumentModel::Text("--cache"@),
        ArgumentModel::Entry(InstallationEntry::CacheDirectory),
        ArgumentModel::Text("--userconfig"@),
        ArgumentModel::Entry(InstallationEntry::UserConfig),
        ArgumentModel::Text("--globalconfig"@),
        ArgumentModel::Entry(InstallationEntry::GlobalConfig),
    ]
}

/// The flag that scopes the package manager to the working directory, if asked for.
pub open spec fn scope_flag(scoped: bool) -> Seq<ArgumentModel> {
    if scoped {
        seq![ArgumentModel::Text("--prefix"@), ArgumentModel::WorkingDirectory]
    } else {
        Seq::empty()
    }
}

impl InvocationModel {
    /// The health check: the package manager's version query, in an empty environment and
    /// with all streams discarded.
    pub open spec fn health_check() -> InvocationModel {
        InvocationModel {
            program: InstallationEntry::NodeBinary,
            arguments: isolated_subcommand("--version"@),
            environment: Environment::Empty,
            working_directory: false,
            streams: Streams::Discarded,
        }
    }

    /// A subcommand of the package manager: the isolated subcommand, then the caller's
    /// arguments, then the scope flag. The environment holds the search path and nothing
    /// else, and the streams are captured. A scoped invocation runs in the directory it
    /// is scoped to.
    pub open spec fn npm_subcommand(
        subcommand: Seq<char>,
        arguments: Seq<Seq<char>>,
        scoped: bool,
    ) -> InvocationModel {
        InvocationModel {
            program: InstallationEntry::NodeBinary,
            arguments: isolated_subcommand(subcommand) + arguments.map_values(
                |text: Seq<char>| ArgumentModel::Text(text),
            ) + scope_flag(scoped),
            environment: Environment::SearchPathOnly,
            working_directory: scoped,
            streams: Streams::Captured,
        }
    }
}

/// The script, the subcommand and the isolation flags.
fn isolated(subcommand: &str) -> (r: Vec<Argument>)
    ensures
        arguments_model(r@) == isolated_subcommand(subcommand@),
{
    let mut arguments: Vec<Argument> = Vec::new();
    arguments.push(Argument::Entry(InstallationEntry::NpmScript));
    arguments.push(Argument::Text(subcommand.to_owned()));
    arguments.push(Argument::Text("--cache".to_owned()));
    arguments.push(Argument::Entry(InstallationEntry::CacheDirectory));
    arguments.push(Argument::Text("--userconfig".to_owned()));
    arguments.push(Argument::Entry(InstallationEntry::UserConfig));
    arguments.push(Argument::Text("--globalconfig".to_owned()));
    arguments.push(Argument::Entry(InstallationEntry::GlobalConfig));
    arguments
}

impl Invocation {
    /// The invocation that tells whether the installation works: it does if the process
    /// exits with status zero.
    pub fn health_check() -> (r: Invocation)
        ensures
            r@ == InvocationModel::health_check(),
    {
        Invocation {
            program: InstallationEntry::NodeBinary,
            arguments: isolated("--version"),
            environment: Environment::Empty,
            working_directory: false,
            streams: Streams::Discarded,
        }
    }

    /// The invocation of a subcommand of the package manager with the caller's arguments,
    /// scoped to a directory or not.
    pub fn npm_subcommand(subcommand: &str, arguments: &[String], scoped: bool) -> (r: Invocation)
        ensures
            r@ == InvocationModel::npm_subcommand(subcommand@, texts_model(arguments@), scoped),
    {
        let mut all = isolated(subcommand);
        let ghost head = isolated_subcommand(subcommand@);
        let ghost given = texts_model(arguments@).map_values(
            |text: Seq<char>| ArgumentModel::Text(text),
        );
        let mut i: usize = 0;
        while i < arguments.len()
            invariant
                i <= arguments.len(),
                given == texts_model(arguments@).map_values(
                    |text: Seq<char>| ArgumentModel::Text(text),
                ),
                arguments_model(all@) == head + given.take(i as int),
            decreases arguments.len() - i,
        {
            let ghost before = all@;
            let text = arguments[i].clone();
            all.push(Argument::Text(text));
            assert(arguments_model(all@) =~= arguments_model(before).push(
                ArgumentModel::Text(text@),
            ));
            i = i + 1;
        }
        assert(given.take(i as int) =~= given);
        if scoped {
            all.push(Argument::Text("--prefix".to_owned()));
            all.push(Argument::WorkingDirectory);
        }
        assert(arguments_model(all@) =~= head + given + scope_flag(scoped));
        Invocation {
            program: InstallationEntry::NodeBinary,
            arguments: all,
            environment: Environment::SearchPathOnly,
            working_directory: scoped,
            streams: Streams::Captured,
        }
    }
}

/// The search path of an invocation: the installation's directory of executables, then,
/// behind a colon, the inherited search path if there is one and it is not empty.
pub open spec fn spec_search_path(binary_directory: Seq<char>, inherited: Option<Seq<char>>) -> Seq<
    char,
> {
    match inherited {
        Some(existing) => if existing.len() > 0 {
            binary_directory + ":"@ + existing
        } else {
            binary_directory
        },
        None => binary_directory,
    }
}

/// The value of the search path variable for an invocation.
pub fn search_path(binary_directory: &str, inherited: Option<&str>) -> (r: String)
    ensures
        r@ == spec_search_path(
            binary_directory@,
            match inherited {
                Some(existing) => Some(existing@),
                None => None,
            },
        ),
{
    let mut path = binary_directory.to_owned();
    if let Some(existing) = inherited {
        if !existing.is_empty() {
            path.append(":");
            path.append(existing);
        }
    }
    path
}

} // verus!
