//! The errors of the runtime core.

use vstd::prelude::*;
use crate::install::InstallStep;
use crate::invoke::AttemptStep;

verus! {

/// Why an operation of the runtime core failed.
#[derive(Debug, PartialEq, Eq)]
pub enum NodeRuntimeError {
    /// The host operating system has no runtime distribution; holds the raw identifier.
    UnsupportedOperatingSystem(String),
    /// The host CPU architecture has no runtime distribution; holds the raw identifier.
    UnsupportedArchitecture(String),
    /// A provisioning step that must succeed did not.
    ProvisionFailed { step: InstallStep, cause: String },
    /// The package manager could not be launched, even on the second attempt; holds the
    /// step at which the second attempt failed.
    LaunchFailed { subcommand: String, step: AttemptStep },
    /// The package manager ran and exited with a non-zero status.
    CommandFailed { subcommand: String, stdout: String, stderr: String },
    /// The registry's answer about a package could not be read.
    MetadataUnreadable { package: String, cause: String },
    /// The registry knows no version of the package.
    NoVersionFound { package: String },
}

/// The mathematical content of a [`NodeRuntimeError`].
pub enum ErrorModel {
    UnsupportedOperatingSystem(Seq<char>),
    UnsupportedArchitecture(Seq<char>),
    ProvisionFailed { step: InstallStep, cause: Seq<char> },
    LaunchFailed { subcommand: Seq<char>, step: AttemptStep },
    CommandFailed { subcommand: Seq<char>, stdout: Seq<char>, stderr: Seq<char> },
    MetadataUnreadable { package: Seq<char>, cause: Seq<char> },
    NoVersionFound { package: Seq<char> },
}

impl View for NodeRuntimeError {
    type V = ErrorModel;

    open spec fn view(&self) -> ErrorModel {
        match *self {
            NodeRuntimeError::UnsupportedOperatingSystem(identifier) =>
                ErrorModel::UnsupportedOperatingSystem(identifier@),
            NodeRuntimeError::UnsupportedArchitecture(identifier) =>
                ErrorModel::UnsupportedArchitecture(identifier@),
            NodeRuntimeError::ProvisionFailed { step, cause } =>
                ErrorModel::ProvisionFailed { step, cause: cause@ },
            NodeRuntimeError::LaunchFailed { subcommand, step } =>
                ErrorModel::LaunchFailed { subcommand: subcommand@, step },
            NodeRuntimeError::CommandFailed { subcommand, stdout, stderr } =>
                ErrorModel::CommandFailed {
                    subcommand: subcommand@,
                    stdout: stdout@,
                    stderr: stderr@,
                },
            NodeRuntimeError::MetadataUnreadable { package, cause } =>
                ErrorModel::MetadataUnreadable { package: package@, cause: cause@ },
            NodeRuntimeError::NoVersionFound { package } =>
                ErrorModel::NoVersionFound { package: package@ },
        }
    }
}

} // verus!
