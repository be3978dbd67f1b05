//! Names and places of the runtime installation.
//!
//! The installation of the pinned runtime version for a platform lives in one folder
//! below the directory that contains the installations. The names are fixed by the
//! version and the platform, so that a later run finds what an earlier one installed.

use vstd::prelude::*;
use vstd::string::*;
use crate::platform::Platform;

verus! {

/// The runtime version that is installed.
pub const VERSION: &'static str = "v18.15.0";

/// The name of the directory that contains the installations, below the support directory.
pub const INSTALLATIONS_DIRECTORY: &'static str = "node";

/// The site that distributes the runtime archives.
pub const DISTRIBUTION_URL: &'static str = "https://nodejs.org/dist";

/// A file or directory of an installation.
#[derive(Debug, Clone, Copy, PartialEq, Eq, Structural)]
pub enum InstallationEntry {
    /// The directory of the executables.
    BinaryDirectory,
    /// The interpreter.
    NodeBinary,
    /// The package manager's entry script.
    NpmScript,
    /// The package manager's private cache.
    CacheDirectory,
    /// The blank user-level configuration file.
    UserConfig,
    /// The blank global-level configuration file.
    GlobalConfig,
}

/// What an entry of the installation is.
#[derive(Debug, Clone, Copy, PartialEq, Eq, Structural)]
pub enum EntryKind {
    /// A directory.
    Directory,
    /// A file that came out of the archive.
    ArchiveFile,
    /// A file without content.
    BlankFile,
}

impl InstallationEntry {
    /// What the entry is.
    pub open spec fn spec_kind(self) -> EntryKind {
        match self {
            InstallationEntry::BinaryDirectory => EntryKind::Directory,
            InstallationEntry::NodeBinary => EntryKind::ArchiveFile,
            InstallationEntry::NpmScript => EntryKind::ArchiveFile,
            InstallationEntry::CacheDirectory => EntryKind::Directory,
            InstallationEntry::UserConfig => EntryKind::BlankFile,
            InstallationEntry::GlobalConfig => EntryKind::BlankFile,
        }
    }

    /// What the entry is: a directory, a file of the archive or a blank file.
    pub fn kind(&self) -> (r: EntryKind)
        ensures
            r == self.spec_kind(),
    {
        match self {
            InstallationEntry::BinaryDirectory => EntryKind::Directory,
            InstallationEntry::NodeBinary => EntryKind::ArchiveFile,
            InstallationEntry::NpmScript => EntryKind::ArchiveFile,
            InstallationEntry::CacheDirectory => EntryKind::Directory,
            InstallationEntry::UserConfig => EntryKind::BlankFile,
            InstallationEntry::GlobalConfig => EntryKind::BlankFile,
        }
    }

    /// The entry's path below the installation folder, as a sequence of characters.
    pub open spec fn spec_relative_path(self) -> Seq<char> {
        match self {
            InstallationEntry::BinaryDirectory => "bin"@,
            InstallationEntry::NodeBinary => "bin/node"@,
            InstallationEntry::NpmScript => "bin/npm"@,
            InstallationEntry::CacheDirectory => "cache"@,
            InstallationEntry::UserConfig => "blank_user_npmrc"@,
            InstallationEntry::GlobalConfig => "blank_global_npmrc"@,
        }
    }

    /// The entry's path below the installation folder.
    pub fn relative_path(&self) -> (r: &'static str)
        ensures
            r@ == self.spec_relative_path(),
    {
        match self {
            InstallationEntry::BinaryDirectory => "bin",
            InstallationEntry::NodeBinary => "bin/node",
            InstallationEntry::NpmScript => "bin/npm",
            InstallationEntry::CacheDirectory => "cache",
            InstallationEntry::UserConfig => "blank_user_npmrc",
            InstallationEntry::GlobalConfig => "blank_global_npmrc",
        }
    }
}

/// The entries that do not come out of the archive, in the order in which they are
/// prepared: the cache directory, then the two blank configuration files.
pub open spec fn spec_support_entries() -> Seq<InstallationEntry> {
    seq![
        InstallationEntry::CacheDirectory,
        InstallationEntry::UserConfig,
        InstallationEntry::GlobalConfig,
    ]
}

/// The entries that the caller creates beside what the archive holds.
pub fn support_entries() -> (r: Vec<InstallationEntry>)
    ensures
        r@ == spec_support_entries(),
{
    let mut entries: Vec<InstallationEntry> = Vec::new();
    entries.push(InstallationEntry::CacheDirectory);
    entries.push(InstallationEntry::UserConfig);
    entries.push(InstallationEntry::GlobalConfig);
    entries
}

impl Platform {
    /// The installation folder's name: `node-<version>-<os>-<arch>`.
    pub open spec fn spec_folder_name(self) -> Seq<char> {
        "node-"@ + VERSION@ + "-"@ + self.os.spec_label() + "-"@ + self.arch.spec_label()
    }

    /// The archive's file name: the folder's name and `.tar.gz`.
    pub open spec fn spec_archive_name(self) -> Seq<char> {
        self.spec_folder_name() + ".tar.gz"@
    }

    /// The archive's address: `<site>/<version>/<archive>`.
    pub open spec fn spec_archive_url(self) -> Seq<char> {
        DISTRIBUTION_URL@ + "/"@ + VERSION@ + "/"@ + self.spec_archive_name()
    }

    /// The name of the installation folder below the directory of the installations.
    pub fn folder_name(&self) -> (r: String)
        ensures
            r@ == self.spec_folder_name(),
    {
        let mut name = "node-".to_owned();
        name.append(VERSION);
        name.append("-");
        name.append(self.os.label());
        name.append("-");
        name.append(self.arch.label());
        name
    }

    /// The file name of the runtime archive for this platform.
    pub fn archive_name(&self) -> (r: String)
        ensures
            r@ == self.spec_archive_name(),
    {
        let mut name = self.folder_name();
        name.append(".tar.gz");
        name
    }

    /// The address from which the runtime archive for this platform is fetched.
    pub fn archive_url(&self) -> (r: String)
        ensures
            r@ == self.spec_archive_url(),
    {
        let mut url = DISTRIBUTION_URL.to_owned();
        url.append("/");
        url.append(VERSION);
        url.append("/");
        let name = self.archive_name();
        url.append(name.as_str());
        url
    }
}

} // verus!
