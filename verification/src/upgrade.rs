//! Deciding whether a package has to be installed again.
//!
//! The decision prefers an unnecessary installation to a stale package: whatever cannot
//! be found, read or understood is a reason to install.

use vstd::prelude::*;
use crate::manifest::{dependency_version, json_document, json_tree, parse_json, Json};
use crate::version::{
    from_first_digit,
    semver_parsed,
    semver_precedes,
    strip_to_first_digit,
    version_precedes,
};

verus! {

/// Why a package has to be installed. The reasons stand in the order in which they are
/// looked for: the first that holds is the one given.
#[derive(Debug, Clone, Copy, PartialEq, Eq, Structural)]
pub enum InstallReason {
    /// There is no file at the place of the package's executable.
    ExecutableMissing,
    /// The manifest could not be opened or read.
    ManifestUnreadable,
    /// The manifest is not a JSON document.
    ManifestMalformed,
    /// The manifest declares no version of the package, or not as a string.
    DependencyUndeclared,
    /// The latest version is no semantic version.
    LatestVersionInvalid,
    /// The declared version, from its first digit on, is no semantic version.
    InstalledVersionInvalid,
    /// The installed version comes before the latest.
    Outdated,
}

/// The reason that the two versions give, if any: the latest version is looked at first,
/// then the declared one without what stands before its first digit, then their order.
pub open spec fn spec_version_reason(declared: Seq<char>, latest_version: Seq<char>) -> Option<
    InstallReason,
> {
    match semver_parsed(latest_version) {
        None => Some(InstallReason::LatestVersionInvalid),
        Some(latest) => match semver_parsed(from_first_digit(declared)) {
            None => Some(InstallReason::InstalledVersionInvalid),
            Some(installed) => if semver_precedes(installed, latest) {
                Some(InstallReason::Outdated)
            } else {
                None
            },
        },
    }
}

/// The reason that a parsed manifest gives, if any.
pub open spec fn spec_manifest_reason(
    manifest: Json,
    package_name: Seq<char>,
    latest_version: Seq<char>,
) -> Option<InstallReason> {
    match manifest.declared_version(package_name) {
        None => Some(InstallReason::DependencyUndeclared),
        Some(declared) => spec_version_reason(declared, latest_version),
    }
}

/// The first reason to install the package, if there is any.
pub open spec fn spec_install_reason(
    package_name: Seq<char>,
    executable_present: bool,
    manifest: Option<Seq<char>>,
    latest_version: Seq<char>,
) -> Option<InstallReason> {
    if !executable_present {
        Some(InstallReason::ExecutableMissing)
    } else {
        match manifest {
            None => Some(InstallReason::ManifestUnreadable),
            Some(contents) => match json_document(contents) {
                None => Some(InstallReason::ManifestMalformed),
                Some(document) => spec_manifest_reason(document, package_name, latest_version),
            },
        }
    }
}

/// A package is kept only if nothing is in doubt: its executable is there, the manifest
/// was read and is a JSON document that declares a version of the package as a string,
/// both versions are semantic versions, and the installed one does not come before the
/// latest. In every other case the package is installed.
pub proof fn lemma_kept_only_without_doubt(
    package_name: Seq<char>,
    executable_present: bool,
    manifest: Option<Seq<char>>,
    latest_version: Seq<char>,
)
    ensures
        spec_install_reason(package_name, executable_present, manifest, latest_version) is None
            <==> {
            &&& executable_present
            &&& manifest matches Some(contents)
            &&& json_document(contents) matches Some(document)
            &&& document.declared_version(package_name) matches Some(declared)
            &&& semver_parsed(latest_version) matches Some(latest)
            &&& semver_parsed(from_first_digit(declared)) matches Some(installed)
            &&& !semver_precedes(installed, latest)
        },
{
}

/// Compares the version that the manifest declares with the latest one.
pub fn version_reason(declared: &str, latest_version: &str) -> (r: Option<InstallReason>)
    ensures
        r == spec_version_reason(declared@, latest_version@),
{
    let latest = match semver::Version::parse(latest_version) {
        Ok(latest) => latest,
        Err(_) => return Some(InstallReason::LatestVersionInvalid),
    };
    let installed = match semver::Version::parse(strip_to_first_digit(declared)) {
        Ok(installed) => installed,
        Err(_) => return Some(InstallReason::InstalledVersionInvalid),
    };
    if version_precedes(&installed, &latest) {
        Some(InstallReason::Outdated)
    } else {
        None
    }
}

/// Looks the package up in a parsed manifest and compares its version with the latest.
pub fn manifest_reason(
    manifest: &serde_json::Value,
    package_name: &str,
    latest_version: &str,
) -> (r: Option<InstallReason>)
    ensures
        r == spec_manifest_reason(json_tree(*manifest), package_name@, latest_version@),
{
    match dependency_version(manifest, package_name) {
        None => Some(InstallReason::DependencyUndeclared),
        Some(declared) => version_reason(declared, latest_version),
    }
}

/// The first reason to install the package `package_name`, if there is any.
///
/// `executable_present` says whether a file exists at the place of the package's
/// executable; `manifest` holds the contents of `package.json` in the package's directory,
/// or nothing if the file could not be opened or read; `latest_version` is the latest
/// version that the registry knows.
pub fn install_reason(
    package_name: &str,
    executable_present: bool,
    manifest: Option<&str>,
    latest_version: &str,
) -> (r: Option<InstallReason>)
    ensures
        r == spec_install_reason(
            package_name@,
            executable_present,
            match manifest {
                Some(contents) => Some(contents@),
                None => None,
            },
            latest_version@,
        ),
{
    if !executable_present {
        return Some(InstallReason::ExecutableMissing);
    }
    let contents = match manifest {
        Some(contents) => contents,
        None => return Some(InstallReason::ManifestUnreadable),
    };
    match parse_json(contents) {
        Err(_) => Some(InstallReason::ManifestMalformed),
        Ok(document) => manifest_reason(&document, package_name, latest_version),
    }
}

/// Whether the package has to be installed: whether there is a reason to.
pub fn should_install_npm_package(
    package_name: &str,
    executable_present: bool,
    manifest: Option<&str>,
    latest_version: &str,
) -> (r: bool)
    ensures
        r == spec_install_reason(
            package_name@,
            executable_present,
            match manifest {
                Some(contents) => Some(contents@),
                None => None,
            },
            latest_version@,
        ) is Some,
{
    install_reason(package_name, executable_present, manifest, latest_version).is_some()
}

} // verus!
